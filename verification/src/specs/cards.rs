pub mod card_type;
pub mod images;
pub mod labels;
pub mod repeats;
pub mod versions;

pub use card_type::SlayCardSpec;

use vstd::prelude::*;

verus! {

impl SlayCardSpec {
    /// The game keeps no separate description text for cards: this is always empty.
    pub fn description(&self) -> (r: String)
        ensures
            r@ == Seq::<char>::empty(),
    {
        String::new()
    }
}

} // verus!
