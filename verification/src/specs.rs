pub mod cards;
pub mod hero;
pub mod initialization;
pub mod items;
pub mod magic;
pub mod modifier;
pub mod monster;
pub mod party_leader;
pub mod printed;
pub mod visibility;
