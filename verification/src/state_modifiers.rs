use vstd::prelude::*;

use crate::state::deck::Deck;
use crate::state::stack::Stack;

verus! {

/// Moves the first `num` stacks of `source`, in order, to the bottom of `destination`.
pub fn deal(source: &mut Deck, destination: &mut Deck, num: usize)
    requires
        num <= old(source)@.len(),
    ensures
        final(destination)@ == old(destination)@ + old(source)@.take(num as int),
        final(source)@ == old(source)@.skip(num as int),
        final(source).spec == old(source).spec,
        final(destination).spec == old(destination).spec,
{
    let drained = source.drain(0, num);
    assert(source@ =~= old(source)@.skip(num as int));
    assert(drained@ =~= old(source)@.take(num as int));
    destination.extend(drained);
}

/// Whether the three decks after (`source_after`, `destination_after`,
/// `sources_source_after`) are those before once `num` stacks have been moved from the
/// source to the bottom of the destination, the source being refilled, once, with the whole
/// of `sources_source` where it runs short.  Every deck keeps its visibility and path.
pub open spec fn replenished(
    source: Deck,
    destination: Deck,
    sources_source: Deck,
    source_after: Deck,
    destination_after: Deck,
    sources_source_after: Deck,
    num: nat,
) -> bool {
    &&& source_after.spec == source.spec
    &&& destination_after.spec == destination.spec
    &&& sources_source_after.spec == sources_source.spec
    &&& num <= source@.len() ==> {
        &&& destination_after@ == destination@ + source@.take(num as int)
        &&& source_after@ == source@.skip(num as int)
        &&& sources_source_after@ == sources_source@
    }
    &&& num > source@.len() ==> {
        let pool = source@ + sources_source@;
        let taken = if num <= pool.len() { num as int } else { pool.len() as int };
        &&& destination_after@ == destination@ + pool.take(taken)
        &&& source_after@ == pool.skip(taken)
        &&& sources_source_after@ == Seq::<Stack>::empty()
    }
}

/// Moves `num` stacks from `source` to the bottom of `destination`.  Where `source` holds
/// too few, what it holds goes first; then `sources_source` is put, whole, into `source`,
/// and the rest is taken from there, as far as there is anything left.
pub fn replentish(source: &mut Deck, destination: &mut Deck, sources_source: &mut Deck, num: usize)
    ensures
        replenished(*old(source), *old(destination), *old(sources_source), *final(source), *final(destination), *final(sources_source), num as nat),
{
    let available = source.num_top_cards();
    let amount_to_drain = if num < available { num } else { available };
    let drained = source.drain(0, amount_to_drain);
    destination.extend(drained);
    let remaining_amount = num - amount_to_drain;
    if remaining_amount == 0 {
        assert(source@ =~= old(source)@.skip(num as int));
        assert(destination@ =~= old(destination)@ + old(source)@.take(num as int));
        return;
    }
    let ghost middle = destination@;
    assert(source@ =~= Seq::<Stack>::empty());
    let all = sources_source.num_top_cards();
    let refill = sources_source.drain(0, all);
    source.extend(refill);
    let available = source.num_top_cards();
    let amount_to_drain = if remaining_amount < available { remaining_amount } else { available };
    let drained = source.drain(0, amount_to_drain);
    destination.extend(drained);
    proof {
        let pool = old(source)@ + old(sources_source)@;
        let taken = if num <= pool.len() { num as int } else { pool.len() as int };
        assert(sources_source@ =~= Seq::<Stack>::empty());
        assert(source@ =~= pool.skip(taken));
        assert(destination@ =~= old(destination)@ + pool.take(taken));
    }
}

} // verus!
