//! A frog that hops until it is out of energy and then sleeps, and that keeps
//! a journal of what it does.
//!
//! The frog writes to no logger itself: each operation appends its records
//! to the frog's journal, and the caller takes them out with
//! [`Frog::take_journal`] and passes them on to whatever logger it uses.

use crate::text::{decimal, push_decimal};
use vstd::prelude::*;

verus! {

/// How much a record matters, most severe first.
#[derive(Clone, Copy, Debug, PartialEq, Eq, Structural)]
pub enum Level {
    Error,
    Warn,
    Info,
    Debug,
    Trace,
}

/// One entry of the journal.
#[derive(Debug)]
pub struct Record {
    /// How much the record matters.
    pub level: Level,
    /// The operation that wrote the record.
    pub target: String,
    /// What happened.
    pub message: String,
}

/// A record as contracts see it.
pub struct RecordView {
    pub level: Level,
    pub target: Seq<char>,
    pub message: Seq<char>,
}

impl View for Record {
    type V = RecordView;

    open spec fn view(&self) -> RecordView {
        RecordView { level: self.level, target: self.target@, message: self.message@ }
    }
}

impl DeepView for Record {
    type V = RecordView;

    open spec fn deep_view(&self) -> RecordView {
        self@
    }
}

/// A frog with some energy, awake or asleep, and the journal of what it has
/// done since the journal was last taken.
pub struct Frog {
    energy: u8,
    sleeping: bool,
    journal: Vec<Record>,
}

/// A frog as contracts see it.
pub struct FrogView {
    /// The hops that the frog has left.
    pub energy: u8,
    /// Whether the frog is asleep.
    pub sleeping: bool,
    /// The records that wait to be taken, oldest first.
    pub journal: Seq<RecordView>,
}

impl View for Frog {
    type V = FrogView;

    closed spec fn view(&self) -> FrogView {
        FrogView {
            energy: self.energy,
            sleeping: self.sleeping,
            journal: self.journal.deep_view(),
        }
    }
}

/// `true` or `false`, spelled out.
pub open spec fn truth(value: bool) -> Seq<char> {
    if value {
        "true"@
    } else {
        "false"@
    }
}

/// A frog on one line, as in `Frog { energy: 5, sleeping: false }`.
pub open spec fn compact(energy: u8, sleeping: bool) -> Seq<char> {
    "Frog { energy: "@ + decimal(energy as nat) + ", sleeping: "@ + truth(sleeping) + " }"@
}

/// A frog with one indented line for each field.
pub open spec fn pretty(energy: u8, sleeping: bool) -> Seq<char> {
    "Frog {\n    energy: "@ + decimal(energy as nat) + ",\n    sleeping: "@ + truth(sleeping)
        + ",\n}"@
}

/// The trace record of a frog made by default.
pub open spec fn default_record(energy: u8, sleeping: bool) -> RecordView {
    RecordView {
        level: Level::Trace,
        target: "default"@,
        message: "Created default "@ + pretty(energy, sleeping),
    }
}

/// The debug record of a new frog.
pub open spec fn new_record(energy: u8, sleeping: bool) -> RecordView {
    RecordView {
        level: Level::Debug,
        target: "new"@,
        message: "New frog "@ + compact(energy, sleeping) + " created."@,
    }
}

/// The info record of a hop that left `energy` hops of energy.
pub open spec fn hop_record(energy: u8) -> RecordView {
    RecordView {
        level: Level::Info,
        target: "hop"@,
        message: "A frog hopped! He/she has "@ + decimal(energy as nat) + " energy left."@,
    }
}

/// The warning of a hop that used up the last energy.
pub open spec fn tired_record() -> RecordView {
    RecordView {
        level: Level::Warn,
        target: "hop"@,
        message: "The frog will now go to sleep, because he ran out of energy after this final hop."@,
    }
}

/// The error of a frog told to sleep while asleep.
pub open spec fn asleep_record() -> RecordView {
    RecordView {
        level: Level::Error,
        target: "sleep"@,
        message: "The frog is already asleep, so can't go to sleep any harder"@,
    }
}

impl FrogView {
    /// The frog with one more record in its journal.
    pub open spec fn noting(self, record: RecordView) -> FrogView {
        FrogView {
            energy: self.energy,
            sleeping: self.sleeping,
            journal: self.journal.push(record),
        }
    }

    /// A frog made by default: five hops of energy, awake, and the trace
    /// record of its making in the journal.
    pub open spec fn made_by_default() -> FrogView {
        FrogView { energy: 5, sleeping: false, journal: seq![default_record(5, false)] }
    }

    /// A new frog: one made by default, with the debug record of the new
    /// frog after the trace record.
    pub open spec fn made_new() -> FrogView {
        Self::made_by_default().noting(new_record(5, false))
    }

    /// The frog after it was told to sleep: a frog that is asleep already
    /// stays so and notes an error; any other falls asleep and notes nothing.
    pub open spec fn slept(self) -> FrogView {
        if self.sleeping {
            self.noting(asleep_record())
        } else {
            FrogView { energy: self.energy, sleeping: true, journal: self.journal }
        }
    }

    /// The frog after a hop: one hop of energy less. The hop that uses up
    /// the last energy notes a warning and tells the frog to sleep; every
    /// hop then notes how much energy is left.
    pub open spec fn hopped(self) -> FrogView
        recommends
            self.energy > 0,
    {
        let lighter = FrogView {
            energy: (self.energy - 1) as u8,
            sleeping: self.sleeping,
            journal: self.journal,
        };
        if lighter.energy == 0 {
            lighter.noting(tired_record()).slept().noting(hop_record(0))
        } else {
            lighter.noting(hop_record(lighter.energy))
        }
    }

    /// The frog once its journal has been taken.
    pub open spec fn emptied(self) -> FrogView {
        FrogView { energy: self.energy, sleeping: self.sleeping, journal: seq![] }
    }
}

impl Frog {
    /// A new frog: five hops of energy, awake. Its journal holds the trace
    /// record of its making by default and the debug record of the new frog.
    pub fn new() -> (frog: Frog)
        ensures
            frog@ == FrogView::made_new(),
    {
        let mut frog = Frog::default();
        let mut message = String::from_str("New frog ");
        push_compact(&mut message, frog.energy, frog.sleeping);
        message.append(" created.");
        frog.note(Level::Debug, "new", message);
        frog
    }

    /// One hop: it costs one hop of energy. The hop that uses up the last
    /// energy notes a warning and tells the frog to sleep; every hop then
    /// notes how much energy is left.
    pub fn hop(&mut self)
        requires
            old(self)@.energy > 0,
        ensures
            final(self)@ == old(self)@.hopped(),
    {
        self.energy = self.energy - 1;
        if self.energy == 0 {
            self.note(
                Level::Warn,
                "hop",
                String::from_str(
                    "The frog will now go to sleep, because he ran out of energy after this final hop.",
                ),
            );
            self.sleep();
        }
        let mut message = String::from_str("A frog hopped! He/she has ");
        push_decimal(&mut message, self.energy as u32);
        message.append(" energy left.");
        self.note(Level::Info, "hop", message);
    }

    /// Tells the frog to sleep. A frog that is asleep already stays so and
    /// notes an error; any other falls asleep and notes nothing.
    pub fn sleep(&mut self)
        ensures
            final(self)@ == old(self)@.slept(),
    {
        if self.sleeping {
            self.note(
                Level::Error,
                "sleep",
                String::from_str("The frog is already asleep, so can't go to sleep any harder"),
            );
        } else {
            self.sleeping = true;
        }
    }

    /// The hops that the frog has left.
    pub fn energy(&self) -> (energy: u8)
        ensures
            energy == self@.energy,
    {
        self.energy
    }

    /// Whether the frog is asleep.
    pub fn is_sleeping(&self) -> (sleeping: bool)
        ensures
            sleeping == self@.sleeping,
    {
        self.sleeping
    }

    /// Takes the records out of the journal, oldest first, and leaves the
    /// journal empty.
    pub fn take_journal(&mut self) -> (records: Vec<Record>)
        ensures
            records.deep_view() == old(self)@.journal,
            final(self)@ == old(self)@.emptied(),
    {
        let mut records: Vec<Record> = Vec::new();
        records.append(&mut self.journal);
        assert(self.journal.deep_view() =~= Seq::<RecordView>::empty());
        records
    }

    /// Appends a record to the journal.
    fn note(&mut self, level: Level, target: &str, message: String)
        ensures
            final(self)@ == old(self)@.noting(
                RecordView { level, target: target@, message: message@ },
            ),
    {
        let ghost before = self.journal.deep_view();
        let record = Record { level, target: String::from_str(target), message };
        self.journal.push(record);
        assert(self.journal.deep_view() =~= before.push(record@));
    }
}

impl Default for Frog {
    /// A frog with five hops of energy, awake. Its journal holds the trace
    /// record of its making.
    fn default() -> (frog: Frog)
        ensures
            frog@ == FrogView::made_by_default(),
    {
        let mut frog = Frog { energy: 5, sleeping: false, journal: Vec::new() };
        let mut message = String::from_str("Created default ");
        push_pretty(&mut message, frog.energy, frog.sleeping);
        frog.note(Level::Trace, "default", message);
        assert(frog@.journal =~= seq![default_record(5, false)]);
        frog
    }
}

/// `true` or `false`, spelled out.
fn truth_str(value: bool) -> (text: &'static str)
    ensures
        text@ == truth(value),
{
    if value {
        "true"
    } else {
        "false"
    }
}

/// Appends a frog on one line.
fn push_compact(out: &mut String, energy: u8, sleeping: bool)
    ensures
        final(out)@ == old(out)@ + compact(energy, sleeping),
{
    out.append("Frog { energy: ");
    push_decimal(out, energy as u32);
    out.append(", sleeping: ");
    out.append(truth_str(sleeping));
    out.append(" }");
}

/// Appends a frog with one indented line for each field.
fn push_pretty(out: &mut String, energy: u8, sleeping: bool)
    ensures
        final(out)@ == old(out)@ + pretty(energy, sleeping),
{
    out.append("Frog {\n    energy: ");
    push_decimal(out, energy as u32);
    out.append(",\n    sleeping: ");
    out.append(truth_str(sleeping));
    out.append(",\n}");
}

/// Telling a sleeping frog to sleep notes exactly one error and leaves it
/// asleep, with the energy it had; so does every second sleep in a row.
pub proof fn lemma_sleeping_twice(frog: FrogView)
    ensures
        frog.slept().sleeping,
        frog.slept().energy == frog.energy,
        frog.slept().slept() == frog.slept().noting(asleep_record()),
        frog.sleeping ==> frog.slept() == frog.noting(asleep_record()),
        !frog.sleeping ==> frog.slept().journal == frog.journal,
        asleep_record().level == Level::Error,
{
}

/// A hop costs one hop of energy and always notes itself last. It notes a
/// warning first, and tells the frog to sleep, exactly when it leaves no
/// energy; otherwise the frog sleeps or wakes as before.
pub proof fn lemma_hop_warns_at_zero(frog: FrogView)
    requires
        frog.energy > 0,
    ensures
        frog.hopped().energy == frog.energy - 1,
        frog.hopped().journal.last() == hop_record(frog.hopped().energy),
        frog.hopped().energy == 0 ==> frog.hopped().sleeping,
        frog.hopped().energy == 0 ==> frog.hopped().journal == frog.journal.push(tired_record())
            + (if frog.sleeping {
            seq![asleep_record()]
        } else {
            seq![]
        }) + seq![hop_record(0)],
        frog.hopped().energy > 0 ==> frog.hopped().sleeping == frog.sleeping,
        frog.hopped().energy > 0 ==> frog.hopped().journal == frog.journal.push(
            hop_record(frog.hopped().energy),
        ),
        tired_record().level == Level::Warn,
        hop_record(frog.hopped().energy).level == Level::Info,
{
    if frog.energy == 1 {
        assert(frog.hopped().journal =~= frog.journal.push(tired_record()) + (if frog.sleeping {
            seq![asleep_record()]
        } else {
            seq![]
        }) + seq![hop_record(0)]);
    }
}

} // verus!
