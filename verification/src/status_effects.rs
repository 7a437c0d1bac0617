pub mod effect;
pub mod effect_entry;
pub mod temp_effect;
