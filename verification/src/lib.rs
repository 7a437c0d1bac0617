pub mod choices;
pub mod deadlines;
pub mod errors;
pub mod game_context;
pub mod ids;
pub mod modifiers;
pub mod showdown;
pub mod specification;
pub mod specs;
pub mod state_modifiers;
pub mod state;
pub mod status_effects;
pub mod strategy;
pub mod tasks;
pub mod text;
