//! Game rules for two small arcade games and a logging frog, with every rule
//! stated as a contract and proved.

pub mod catcher;
pub mod collision;
pub mod frog;
pub mod road_race;
pub mod score;
pub mod text;
