pub mod challenge;
pub mod common;
pub mod completion;
pub mod consequences;
pub mod current_showdown;
pub mod offer;
pub mod roll;
pub mod roll_choices;
pub mod roll_modification;
pub mod roll_state;
