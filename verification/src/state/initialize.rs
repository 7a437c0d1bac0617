use vstd::prelude::*;

use crate::game_context::{random_in_range, shuffle, GameBookKeeping};
use crate::ids;
use crate::specification::{initial_deck, HeroType};
use crate::specs::cards::SlayCardSpec;
use crate::specs::hero::HeroAbilityType;
use crate::specs::initialization::{
    all_card_specs, all_cards, card_spec_view, challenge_cards, hero_cards, item_cards, lemma_card_deck, leader_cards, magic_cards,
    modifier_cards, monster_cards, start_deck,
};
use crate::state::deck::{has_type, DeckPath};
use crate::text::{decimal, decimal_text};
use crate::state::game::Game;
use crate::state::player::Player;
use crate::state::stack::{Card, Stack};

verus! {

/// The name of the bot at a seat.
pub open spec fn spec_bot_name(player_index: int) -> Seq<char> {
    if player_index == 0 {
        "Henry"@
    } else if player_index == 1 {
        "Ralph"@
    } else if player_index == 2 {
        "Jessica"@
    } else if player_index == 3 {
        "Amanda"@
    } else if player_index == 4 {
        "Mark"@
    } else if player_index == 5 {
        "Lenny"@
    } else {
        "think of more names, asshole..."@
    }
}

/// The name of the player at a seat when the game is set up: "Henry (Player 1)", for instance.
pub open spec fn spec_player_name(player_index: int) -> Seq<char> {
    spec_bot_name(player_index) + " (Player "@ + decimal((player_index + 1) as nat) + ")"@
}

/// The names of the players the game starts with.
pub fn bot_name(player_index: usize) -> (r: &'static str)
    ensures
        r@ == spec_bot_name(player_index as int),
{
    match player_index {
        0 => "Henry",
        1 => "Ralph",
        2 => "Jessica",
        3 => "Amanda",
        4 => "Mark",
        5 => "Lenny",
        _ => "think of more names, asshole...",
    }
}

/// "Henry (Player 1)", for instance.
fn player_display_name(name: &str, number: usize) -> (r: String)
    ensures
        r@ == name@ + " (Player "@ + decimal(number as nat) + ")"@,
{
    let mut r = String::from_str(name);
    r.append(" (Player ");
    let digits = decimal_text(number as u64);
    r.append(digits.as_str());
    r.append(")");
    r
}

/// Every copy of every card, card after card in the given order.
pub open spec fn card_entries(cards: Seq<SlayCardSpec>) -> Seq<SlayCardSpec>
    decreases cards.len(),
{
    if cards.len() == 0 {
        Seq::empty()
    } else {
        card_entries(cards.drop_last()) + Seq::new(card_spec_view(cards.last()).repeat as nat, |k: int| cards.last())
    }
}

/// The id that the generator hands out `k` calls after it last handed out `start`.
pub open spec fn nth_id(start: u32, k: int) -> u32 {
    ((start + k + 1) % 0x1_0000_0000) as u32
}

/// The entries, each with the id that the generator gives it when they are numbered in order.
pub open spec fn numbered(entries: Seq<SlayCardSpec>, start: u32) -> Seq<(ids::CardId, SlayCardSpec)> {
    Seq::new(entries.len(), |k: int| (nth_id(start, k), entries[k]))
}

/// The numbered entries that start out in the deck at the path.
pub open spec fn for_deck(numbered: Seq<(ids::CardId, SlayCardSpec)>, path: DeckPath) -> Seq<(ids::CardId, SlayCardSpec)> {
    numbered.filter(|entry: (ids::CardId, SlayCardSpec)| initial_deck(card_spec_view(entry.1).card_type) == path)
}

/// Whether the stacks are single cards with the given ids and kinds, in order.
pub open spec fn stacks_of(stacks: Seq<Stack>, entries: Seq<(ids::CardId, SlayCardSpec)>) -> bool {
    &&& stacks.len() == entries.len()
    &&& forall|k: int| 0 <= k < stacks.len() ==> (#[trigger] stacks[k]).top == (Card { id: entries[k].0, card_type: entries[k].1 })
        && stacks[k].modifiers@ == Seq::<Card>::empty()
}

proof fn lemma_numbered_push(entries: Seq<SlayCardSpec>, start: u32, card: SlayCardSpec)
    ensures
        numbered(entries.push(card), start) == numbered(entries, start).push((nth_id(start, entries.len() as int), card)),
{
    assert(numbered(entries.push(card), start) =~= numbered(entries, start).push((nth_id(start, entries.len() as int), card)));
}

proof fn lemma_for_deck_push(numbered: Seq<(ids::CardId, SlayCardSpec)>, entry: (ids::CardId, SlayCardSpec), path: DeckPath)
    ensures
        for_deck(numbered.push(entry), path) == if initial_deck(card_spec_view(entry.1).card_type) == path {
            for_deck(numbered, path).push(entry)
        } else {
            for_deck(numbered, path)
        },
{
    reveal_with_fuel(Seq::filter, 1);
    assert(numbered.push(entry).drop_last() =~= numbered);
}

proof fn lemma_next_id(start: u32, n: int)
    requires
        n >= 0,
    ensures
        (((start + n) % 0x1_0000_0000) + 1) % 0x1_0000_0000 == (start + n + 1) % 0x1_0000_0000,
{
    vstd::arithmetic::div_mod::lemma_add_mod_noop(start + n, 1, 0x1_0000_0000);
    vstd::arithmetic::div_mod::lemma_small_mod(1, 0x1_0000_0000);
}

/// Builds the stacks for the numbered entries, one card per stack.
fn stacks_from(entries: &Vec<(ids::CardId, SlayCardSpec)>) -> (r: Vec<Stack>)
    ensures
        stacks_of(r@, entries@),
{
    let mut stacks: Vec<Stack> = Vec::new();
    let mut k: usize = 0;
    while k < entries.len()
        invariant
            k <= entries@.len(),
            stacks_of(stacks@, entries@.take(k as int)),
        decreases entries@.len() - k,
    {
        let (id, card_type) = entries[k];
        stacks.push(Stack::new(Card::new(id, card_type)));
        k = k + 1;
    }
    assert(entries@.take(k as int) =~= entries@);
    stacks
}

/// Creates every copy of every card, with fresh ids handed out in the order of the cards,
/// shuffles them, and puts the party leaders, the monsters and the other cards at the
/// bottom of the leaders, the next monsters and the draw pile.
pub fn initialize_global_decks(context: &mut GameBookKeeping, game: &mut Game)
    ensures
        ({
            let entries = numbered(card_entries(all_cards()), old(context).id_generator.last_id());
            &&& exists|draw: Seq<(ids::CardId, SlayCardSpec)>| {
                &&& #[trigger] draw.to_multiset() == for_deck(entries, DeckPath::Draw).to_multiset()
                &&& final(game).draw@.take(old(game).draw@.len() as int) == old(game).draw@
                &&& stacks_of(final(game).draw@.skip(old(game).draw@.len() as int), draw)
            }
            &&& exists|leaders: Seq<(ids::CardId, SlayCardSpec)>| {
                &&& #[trigger] leaders.to_multiset() == for_deck(entries, DeckPath::PartyLeaders).to_multiset()
                &&& final(game).leaders@.take(old(game).leaders@.len() as int) == old(game).leaders@
                &&& stacks_of(final(game).leaders@.skip(old(game).leaders@.len() as int), leaders)
            }
            &&& exists|monsters: Seq<(ids::CardId, SlayCardSpec)>| {
                &&& #[trigger] monsters.to_multiset() == for_deck(entries, DeckPath::NextMonsters).to_multiset()
                &&& final(game).next_monsters@.take(old(game).next_monsters@.len() as int) == old(game).next_monsters@
                &&& stacks_of(final(game).next_monsters@.skip(old(game).next_monsters@.len() as int), monsters)
            }
        }),
        forall|k: int| old(game).draw@.len() <= k < final(game).draw@.len()
            ==> initial_deck(card_spec_view((#[trigger] final(game).draw@[k]).top.card_type).card_type) == DeckPath::Draw
                && final(game).draw@[k].modifiers@ == Seq::<Card>::empty(),
        forall|k: int| old(game).leaders@.len() <= k < final(game).leaders@.len()
            ==> initial_deck(card_spec_view((#[trigger] final(game).leaders@[k]).top.card_type).card_type) == DeckPath::PartyLeaders,
        forall|k: int| old(game).next_monsters@.len() <= k < final(game).next_monsters@.len()
            ==> initial_deck(card_spec_view((#[trigger] final(game).next_monsters@[k]).top.card_type).card_type) == DeckPath::NextMonsters,
        final(game).draw@.len() == old(game).draw@.len() + deck_size(all_cards(), DeckPath::Draw),
        final(game).leaders@.len() == old(game).leaders@.len() + deck_size(all_cards(), DeckPath::PartyLeaders),
        final(game).next_monsters@.len() == old(game).next_monsters@.len() + deck_size(all_cards(), DeckPath::NextMonsters),
        final(game).players@ == old(game).players@,
        final(game).turn == old(game).turn,
        final(game).showdown == old(game).showdown,
        final(game).discard == old(game).discard,
        final(game).monsters == old(game).monsters,
        final(game).draw.spec == old(game).draw.spec,
        final(game).leaders.spec == old(game).leaders.spec,
        final(game).next_monsters.spec == old(game).next_monsters.spec,
{
    let ghost start = context.id_generator.last_id();
    let cards = all_card_specs();
    let mut draw: Vec<(ids::CardId, SlayCardSpec)> = Vec::new();
    let mut leaders: Vec<(ids::CardId, SlayCardSpec)> = Vec::new();
    let mut monsters: Vec<(ids::CardId, SlayCardSpec)> = Vec::new();
    let mut i: usize = 0;
    assert(card_entries(cards@.take(0)) =~= Seq::<SlayCardSpec>::empty());
    assert(numbered(Seq::<SlayCardSpec>::empty(), start) =~= Seq::<(ids::CardId, SlayCardSpec)>::empty());
    while i < cards.len()
        invariant
            i <= cards@.len(),
            cards@ == all_cards(),
            context.id_generator.last_id() as int == (start + card_entries(cards@.take(i as int)).len()) % 0x1_0000_0000,
            draw@ == for_deck(numbered(card_entries(cards@.take(i as int)), start), DeckPath::Draw),
            leaders@ == for_deck(numbered(card_entries(cards@.take(i as int)), start), DeckPath::PartyLeaders),
            monsters@ == for_deck(numbered(card_entries(cards@.take(i as int)), start), DeckPath::NextMonsters),
            draw@.len() == deck_size(cards@.take(i as int), DeckPath::Draw),
            leaders@.len() == deck_size(cards@.take(i as int), DeckPath::PartyLeaders),
            monsters@.len() == deck_size(cards@.take(i as int), DeckPath::NextMonsters),
        decreases cards@.len() - i,
    {
        let spec_type = cards[i];
        let spec = spec_type.get_card_spec_creation();
        let deck = spec.get_initial_deck();
        let ghost before = card_entries(cards@.take(i as int));
        let mut r: u32 = 0;
        while r < spec.repeat
            invariant
                r <= spec.repeat,
                spec@ == card_spec_view(spec_type),
                deck == initial_deck(card_spec_view(spec_type).card_type),
                context.id_generator.last_id() as int == (start + before.len() + r) % 0x1_0000_0000,
                draw@ == for_deck(numbered(before + Seq::new(r as nat, |k: int| spec_type), start), DeckPath::Draw),
                leaders@ == for_deck(numbered(before + Seq::new(r as nat, |k: int| spec_type), start), DeckPath::PartyLeaders),
                monsters@ == for_deck(numbered(before + Seq::new(r as nat, |k: int| spec_type), start), DeckPath::NextMonsters),
                draw@.len() == deck_size(cards@.take(i as int), DeckPath::Draw) + if deck == DeckPath::Draw { r as int } else { 0 },
                leaders@.len() == deck_size(cards@.take(i as int), DeckPath::PartyLeaders) + if deck == DeckPath::PartyLeaders { r as int } else { 0 },
                monsters@.len() == deck_size(cards@.take(i as int), DeckPath::NextMonsters) + if deck == DeckPath::NextMonsters { r as int } else { 0 },
            decreases spec.repeat - r,
        {
            let ghost prefix = before + Seq::new(r as nat, |k: int| spec_type);
            let id = context.id_generator.generate();
            proof {
                lemma_next_id(start, prefix.len() as int);
                assert(id == nth_id(start, prefix.len() as int));
                assert(before + Seq::new((r + 1) as nat, |k: int| spec_type) =~= prefix.push(spec_type));
                lemma_numbered_push(prefix, start, spec_type);
                lemma_for_deck_push(numbered(prefix, start), (id, spec_type), DeckPath::Draw);
                lemma_for_deck_push(numbered(prefix, start), (id, spec_type), DeckPath::PartyLeaders);
                lemma_for_deck_push(numbered(prefix, start), (id, spec_type), DeckPath::NextMonsters);
            }
            match deck {
                DeckPath::Draw => draw.push((id, spec_type)),
                DeckPath::PartyLeaders => leaders.push((id, spec_type)),
                DeckPath::NextMonsters => monsters.push((id, spec_type)),
                _ => {
                    proof { assert(false); }
                },
            }
            r = r + 1;
        }
        proof {
            assert(cards@.take(i + 1).drop_last() =~= cards@.take(i as int));
            assert(cards@.take(i + 1).last() == spec_type);
            assert(card_entries(cards@.take(i + 1)) =~= before + Seq::new(spec.repeat as nat, |k: int| spec_type));
        }
        i = i + 1;
    }
    assert(cards@.take(i as int) =~= cards@);
    let ghost draw_entries = draw@;
    let ghost leader_entries = leaders@;
    let ghost monster_entries = monsters@;
    shuffle(&mut context.rng, &mut draw);
    shuffle(&mut context.rng, &mut leaders);
    shuffle(&mut context.rng, &mut monsters);
    let ghost old_draw = game.draw@;
    let ghost old_leaders = game.leaders@;
    let ghost old_monsters = game.next_monsters@;
    game.draw.extend(stacks_from(&draw));
    game.next_monsters.extend(stacks_from(&monsters));
    game.leaders.extend(stacks_from(&leaders));
    proof {
        assert(game.draw@.take(old_draw.len() as int) =~= old_draw);
        assert(game.leaders@.take(old_leaders.len() as int) =~= old_leaders);
        assert(game.next_monsters@.take(old_monsters.len() as int) =~= old_monsters);
        assert(stacks_of(game.draw@.skip(old_draw.len() as int), draw@)) by {
            assert forall|k: int| 0 <= k < draw@.len() implies #[trigger] game.draw@.skip(old_draw.len() as int)[k] == game.draw@[old_draw.len() + k] by {}
        }
        assert(stacks_of(game.leaders@.skip(old_leaders.len() as int), leaders@)) by {
            assert forall|k: int| 0 <= k < leaders@.len() implies #[trigger] game.leaders@.skip(old_leaders.len() as int)[k] == game.leaders@[old_leaders.len() + k] by {}
        }
        assert(stacks_of(game.next_monsters@.skip(old_monsters.len() as int), monsters@)) by {
            assert forall|k: int| 0 <= k < monsters@.len() implies #[trigger] game.next_monsters@.skip(old_monsters.len() as int)[k] == game.next_monsters@[old_monsters.len() + k] by {}
        }
        lemma_shuffled_for_deck(draw@, draw_entries, DeckPath::Draw);
        lemma_shuffled_for_deck(leaders@, leader_entries, DeckPath::PartyLeaders);
        lemma_shuffled_for_deck(monsters@, monster_entries, DeckPath::NextMonsters);
        assert forall|k: int| old_draw.len() <= k < game.draw@.len()
            implies initial_deck(card_spec_view((#[trigger] game.draw@[k]).top.card_type).card_type) == DeckPath::Draw by {
            assert(game.draw@[k].top.card_type == draw@[k - old_draw.len()].1);
        }
        assert forall|k: int| old_leaders.len() <= k < game.leaders@.len()
            implies initial_deck(card_spec_view((#[trigger] game.leaders@[k]).top.card_type).card_type) == DeckPath::PartyLeaders by {
            assert(game.leaders@[k].top.card_type == leaders@[k - old_leaders.len()].1);
        }
        assert forall|k: int| old_monsters.len() <= k < game.next_monsters@.len()
            implies initial_deck(card_spec_view((#[trigger] game.next_monsters@[k]).top.card_type).card_type) == DeckPath::NextMonsters by {
            assert(game.next_monsters@[k].top.card_type == monsters@[k - old_monsters.len()].1);
        }
    }
}

/// Whatever order the entries of a deck were shuffled into, each belongs in that deck.
proof fn lemma_shuffled_for_deck(shuffled: Seq<(ids::CardId, SlayCardSpec)>, entries: Seq<(ids::CardId, SlayCardSpec)>, path: DeckPath)
    requires
        shuffled.to_multiset() == entries.to_multiset(),
        exists|all: Seq<(ids::CardId, SlayCardSpec)>| entries == #[trigger] for_deck(all, path),
    ensures
        forall|k: int| 0 <= k < shuffled.len() ==> initial_deck(card_spec_view((#[trigger] shuffled[k]).1).card_type) == path,
{
    broadcast use vstd::seq_lib::to_multiset_contains;
    let all = choose|all: Seq<(ids::CardId, SlayCardSpec)>| entries == #[trigger] for_deck(all, path);
    let pred = |entry: (ids::CardId, SlayCardSpec)| initial_deck(card_spec_view(entry.1).card_type) == path;
    assert forall|k: int| 0 <= k < shuffled.len() implies initial_deck(card_spec_view((#[trigger] shuffled[k]).1).card_type) == path by {
        let x = shuffled[k];
        assert(shuffled.contains(x));
        assert(shuffled.to_multiset().count(x) > 0);
        assert(entries.to_multiset().count(x) > 0);
        assert(entries.contains(x));
        let j = choose|j: int| 0 <= j < entries.len() && entries[j] == x;
        all.lemma_filter_pred(pred, j);
    }
}

/// Seats four players, each with the next party leader of the leaders deck.
pub fn initialize_players(_context: &mut GameBookKeeping, game: &mut Game)
    requires
        old(game).leaders@.len() >= 4,
    ensures
        final(game).players@.len() == old(game).players@.len() + 4,
        forall|k: int| 0 <= k < old(game).players@.len() ==> #[trigger] final(game).players@[k] == old(game).players@[k],
        forall|k: int| 0 <= k < 4 ==> {
            let player = #[trigger] final(game).players@[old(game).players@.len() + k];
            &&& player.player_index == k
            &&& player.name@ == spec_player_name(k)
            &&& player.leader == old(game).leaders@[k].top
            &&& player.choices is None
            &&& player.tasks.queue() == Seq::<crate::tasks::PlayerTask>::empty()
            &&& !player.tasks.has_current()
            &&& player.well_formed()
            &&& player.hand@ == Seq::<Stack>::empty()
            &&& player.party@ == Seq::<Stack>::empty()
            &&& player.slain_monsters@ == Seq::<Stack>::empty()
            &&& player.action_points() == 0
        },
        final(game).leaders@ == old(game).leaders@.skip(4),
        final(game).leaders.spec == old(game).leaders.spec,
        final(game).same_except_players(Game { leaders: final(game).leaders, ..*old(game) }),
{
    let ghost n = game.players@.len();
    let mut player_index: usize = 0;
    while player_index < 4
        invariant
            player_index <= 4,
            game.players@.len() == n + player_index,
            game.leaders@ == old(game).leaders@.skip(player_index as int),
            game.leaders.spec == old(game).leaders.spec,
            old(game).leaders@.len() >= 4,
            n == old(game).players@.len(),
            forall|k: int| 0 <= k < n ==> #[trigger] game.players@[k] == old(game).players@[k],
            forall|k: int| 0 <= k < player_index ==> {
                let player = #[trigger] game.players@[n + k];
                &&& player.player_index == k
                &&& player.name@ == spec_player_name(k)
                &&& player.leader == old(game).leaders@[k].top
                &&& player.choices is None
                &&& player.tasks.queue() == Seq::<crate::tasks::PlayerTask>::empty()
                &&& !player.tasks.has_current()
                &&& player.well_formed()
                &&& player.hand@ == Seq::<Stack>::empty()
                &&& player.party@ == Seq::<Stack>::empty()
                &&& player.slain_monsters@ == Seq::<Stack>::empty()
                &&& player.action_points() == 0
            },
            game.same_except_players(Game { leaders: game.leaders, ..*old(game) }),
        decreases 4 - player_index,
    {
        let name = player_display_name(bot_name(player_index), player_index + 1);
        let leader = game.leaders.deal().top;
        assert(game.leaders@ =~= old(game).leaders@.skip(player_index + 1));
        let player = Player::new(name, player_index, leader);
        game.players.push(player);
        player_index = player_index + 1;
    }
}

/// Sets up a new game: the decks, four players, three monsters to attack, five cards in
/// each hand, and a randomly chosen first player, who starts their turn.
pub fn initialize_game(context: &mut GameBookKeeping, game: &mut Game)
    requires
        old(game).is_fresh(),
    ensures
        final(game).players@.len() == 4,
        final(game).turn.active_player() < 4,
        forall|k: int| 0 <= k < 4 ==> (#[trigger] final(game).players@[k]).player_index == k
            && final(game).players@[k].name@ == spec_player_name(k)
            && final(game).players@[k].leader.card_type is PartyLeader
            && final(game).players@[k].hand@.len() == 5
            && final(game).players@[k].party@.len() == 0
            && final(game).players@[k].slain_monsters@.len() == 0,
        final(game).monsters@.len() == 3,
        final(game).players@[final(game).turn.active_player() as int].action_points() == 3,
{
    proof { lemma_deck_sizes(); }
    initialize_global_decks(context, game);
    proof {
        assert forall|k: int| 0 <= k < game.leaders@.len() implies (#[trigger] game.leaders@[k]).top.card_type is PartyLeader by {
            lemma_card_deck(game.leaders@[k].top.card_type);
        }
    }
    let ghost leaders_before = game.leaders@;
    initialize_players(context, game);
    proof {
        assert forall|k: int| 0 <= k < 4 implies (#[trigger] game.players@[k]).player_index == k
            && game.players@[k].name@ == spec_player_name(k)
            && game.players@[k].leader.card_type is PartyLeader
            && game.players@[k].party@.len() == 0 && game.players@[k].slain_monsters@.len() == 0
            && game.players@[k].hand@.len() == 0 by {
            assert(game.players@[k] == game.players@[0 + k]);
            assert(game.players@[k].leader == leaders_before[k].top);
        }
    }
    let monsters = game.next_monsters.drain(0, 3);
    game.monsters.extend(monsters);
    let n = game.number_of_players();
    let mut player_index: usize = 0;
    while player_index < n
        invariant
            n == 4 == game.players@.len(),
            player_index <= n,
            game.monsters@.len() == 3,
            game.draw@.len() >= 20 - 5 * player_index,
            forall|k: int| 0 <= k < 4 ==> (#[trigger] game.players@[k]).player_index == k
                && game.players@[k].name@ == spec_player_name(k)
                && game.players@[k].leader.card_type is PartyLeader
                && game.players@[k].party@.len() == 0
                && game.players@[k].slain_monsters@.len() == 0,
            forall|k: int| 0 <= k < player_index ==> (#[trigger] game.players@[k]).hand@.len() == 5,
            forall|k: int| player_index <= k < 4 ==> (#[trigger] game.players@[k]).hand@.len() == 0,
        decreases n - player_index,
    {
        let drain = game.draw.drain(0, 5);
        game.players[player_index].hand.extend(drain);
        player_index = player_index + 1;
    }
    let first = random_in_range(&mut context.rng, 0, n);
    game.set_active_player(first);
    let player = game.current_player_mut();
    assert(player.slain_monsters@ =~= Seq::<Stack>::empty());
    assert(crate::state::player::slain_action_points(player.slain_monsters@) == 0);
    player.turn_begin();
}

/// Deals the player a random number of cards, from none to nine, from the draw pile.
pub fn randomly_initialize_hand(context: &mut GameBookKeeping, game: &mut Game, player_index: ids::PlayerIndex)
    requires
        player_index < old(game).players@.len(),
        old(game).draw@.len() >= 9,
    ensures
        exists|n: int| 0 <= n < 10 && {
            &&& #[trigger] final(game).draw@ == old(game).draw@.skip(n)
            &&& final(game).players@[player_index as int].hand@ == old(game).players@[player_index as int].hand@ + old(game).draw@.take(n)
        },
        final(game).players@.len() == old(game).players@.len(),
        forall|k: int| 0 <= k < old(game).players@.len() && k != player_index ==> #[trigger] final(game).players@[k] == old(game).players@[k],
        final(game).players@[player_index as int] == (Player { hand: final(game).players@[player_index as int].hand, ..old(game).players@[player_index as int] }),
        old(game).draw.well_formed() ==> final(game).draw.well_formed(),
        final(game).next_monsters == old(game).next_monsters,
        final(game).monsters == old(game).monsters,
{
    let number_of_hand_cards = random_in_range(&mut context.rng, 0, 10);
    let drain = game.draw.drain(0, number_of_hand_cards);
    assert(drain@ =~= old(game).draw@.take(number_of_hand_cards as int));
    assert(game.draw@ =~= old(game).draw@.skip(number_of_hand_cards as int));
    assert(old(game).draw.well_formed() ==> game.draw.well_formed()) by {
        if old(game).draw.well_formed() {
            assert forall|k: int| 0 <= k < game.draw@.len() implies #[trigger] game.draw@[k].well_formed() by {
                assert(game.draw@[k] == old(game).draw@[k + number_of_hand_cards]);
            }
        }
    }
    game.players[player_index].hand.extend(drain);
}

/// Gives the player a random number of slain monsters, from none to two, from the next monsters.
pub fn randomly_initialize_monsters(context: &mut GameBookKeeping, game: &mut Game, player_index: ids::PlayerIndex)
    requires
        player_index < old(game).players@.len(),
        old(game).next_monsters@.len() >= 2,
    ensures
        exists|n: int| 0 <= n < 3 && {
            &&& #[trigger] final(game).next_monsters@ == old(game).next_monsters@.skip(n)
            &&& final(game).players@[player_index as int].slain_monsters@ == old(game).players@[player_index as int].slain_monsters@
                + old(game).next_monsters@.take(n)
        },
        final(game).players@.len() == old(game).players@.len(),
        forall|k: int| 0 <= k < old(game).players@.len() && k != player_index ==> #[trigger] final(game).players@[k] == old(game).players@[k],
        final(game).players@[player_index as int] == (Player {
            slain_monsters: final(game).players@[player_index as int].slain_monsters,
            ..old(game).players@[player_index as int]
        }),
        final(game).draw == old(game).draw,
        final(game).monsters == old(game).monsters,
{
    let number_of_monsters = random_in_range(&mut context.rng, 0, 3);
    let drain = game.next_monsters.drain(0, number_of_monsters);
    assert(drain@ =~= old(game).next_monsters@.take(number_of_monsters as int));
    assert(game.next_monsters@ =~= old(game).next_monsters@.skip(number_of_monsters as int));
    game.players[player_index].slain_monsters.extend(drain);
}

/// The classes that a party with a leader, and one more stack, count as.
pub open spec fn classes_of(party: Seq<Stack>, leader: Card, stack: Stack) -> Set<HeroType> {
    Set::new(|t: HeroType| has_type(party, t) || leader.card_type == SlayCardSpec::PartyLeader(t) || stack.spec_hero_type() == Some(t))
}

/// The classes that a player's party and leader, with one more stack, count as.
pub open spec fn classes_with(player: Player, stack: Stack) -> Set<HeroType> {
    classes_of(player.party@, player.leader, stack)
}

/// The party and the draw pile once `n` cards have been dealt one at a time from the top of
/// the pile: a card that would give the party (with its leader) a hero of every class goes
/// to the bottom of the pile, any other card to the end of the party; once the pile is
/// empty, nothing more happens.
pub open spec fn party_deal(party: Seq<Stack>, leader: Card, draw: Seq<Stack>, n: nat) -> (Seq<Stack>, Seq<Stack>)
    decreases n,
{
    if n == 0 {
        (party, draw)
    } else {
        let (p, d) = party_deal(party, leader, draw, (n - 1) as nat);
        if d.len() == 0 {
            (p, d)
        } else if d[0].spec_hero_type() is Some && classes_of(p, leader, d[0]).len() >= 6 {
            (p, d.drop_first().push(d[0]))
        } else {
            (p.push(d[0]), d.drop_first())
        }
    }
}

/// The classes that a player's party and leader count as.
pub open spec fn classes(player: Player) -> Set<HeroType> {
    Set::new(|t: HeroType| has_type(player.party@, t) || player.leader.card_type == SlayCardSpec::PartyLeader(t))
}

/// Every class.
pub open spec fn all_classes() -> Set<HeroType> {
    set![HeroType::Bard, HeroType::Wizard, HeroType::Fighter, HeroType::Gaurdian, HeroType::Ranger, HeroType::Thief]
}

proof fn lemma_classes_finite(player: Player, stack: Stack)
    ensures
        classes(player).finite(),
        classes_with(player, stack).finite(),
{
    assert forall|t: HeroType| #[trigger] all_classes().contains(t) by {
        match t {
            HeroType::Bard => {},
            HeroType::Wizard => {},
            HeroType::Fighter => {},
            HeroType::Gaurdian => {},
            HeroType::Ranger => {},
            HeroType::Thief => {},
        }
    }
    vstd::set_lib::lemma_len_subset(classes(player), all_classes());
    vstd::set_lib::lemma_len_subset(classes_with(player, stack), all_classes());
}

proof fn lemma_has_type_push(stacks: Seq<Stack>, stack: Stack, t: HeroType)
    ensures
        has_type(stacks.push(stack), t) == (has_type(stacks, t) || stack.spec_hero_type() == Some(t)),
{
    if has_type(stacks, t) {
        let i = choose|i: int| 0 <= i < stacks.len() && #[trigger] stacks[i].spec_hero_type() == Some(t);
        assert(stacks.push(stack)[i] == stacks[i]);
    }
    if stack.spec_hero_type() == Some(t) {
        assert(stacks.push(stack)[stacks.len() as int] == stack);
    }
    if has_type(stacks.push(stack), t) {
        let i = choose|i: int| 0 <= i < stacks.len() + 1 && #[trigger] stacks.push(stack)[i].spec_hero_type() == Some(t);
        if i < stacks.len() {
            assert(stacks[i] == stacks.push(stack)[i]);
        }
    }
}

/// Whether adding the stack to the player's party would give them a hero of every class.
pub fn adding_card_would_mean_player_wins(game: &mut Game, player_index: ids::PlayerIndex, stack: &Stack) -> (r: bool)
    requires
        player_index < old(game).players@.len(),
        old(game).players@[player_index as int].party.well_formed(),
        old(game).players@[player_index as int].leader.card_type is PartyLeader,
        stack.well_formed(),
    ensures
        *final(game) == *old(game),
        r == (stack.spec_hero_type() is Some && classes_with(old(game).players@[player_index as int], *stack).len() >= 6),
{
    match stack.get_hero_type() {
        Some(hero_type) => {
            let mut hero_types: Vec<HeroType> = Vec::new();
            game.players[player_index].collect_hero_types(&mut hero_types);
            crate::state::deck::insert_hero_type(&mut hero_types, hero_type);
            proof {
                hero_types@.unique_seq_to_set();
                assert(hero_types@.to_set() =~= classes_with(old(game).players@[player_index as int], *stack));
            }
            hero_types.len() >= 6
        },
        None => false,
    }
}

/// Deals the player `count` cards from the draw pile into their party, one at a time (see
/// `party_deal`); a card that would give them a hero of every class goes back to the
/// bottom of the pile, so that a player who is short of a class stays so.
pub fn deal_into_party(game: &mut Game, player_index: ids::PlayerIndex, count: usize)
    requires
        player_index < old(game).players@.len(),
        old(game).players@[player_index as int].party.well_formed(),
        old(game).players@[player_index as int].leader.card_type is PartyLeader,
        old(game).draw.well_formed(),
    ensures
        party_deal(
            old(game).players@[player_index as int].party@,
            old(game).players@[player_index as int].leader,
            old(game).draw@,
            count as nat,
        ) == (final(game).players@[player_index as int].party@, final(game).draw@),
        classes(old(game).players@[player_index as int]).len() < 6 ==> classes(final(game).players@[player_index as int]).len() < 6,
        final(game).players@.len() == old(game).players@.len(),
        forall|k: int| 0 <= k < old(game).players@.len() && k != player_index ==> #[trigger] final(game).players@[k] == old(game).players@[k],
        final(game).players@[player_index as int] == (Player { party: final(game).players@[player_index as int].party, ..old(game).players@[player_index as int] }),
        final(game).players@[player_index as int].party@.take(old(game).players@[player_index as int].party@.len() as int)
            == old(game).players@[player_index as int].party@,
        final(game).players@[player_index as int].party@.len() + final(game).draw@.len()
            == old(game).players@[player_index as int].party@.len() + old(game).draw@.len(),
        final(game).players@[player_index as int].party@.len() <= old(game).players@[player_index as int].party@.len() + count,
        final(game).players@[player_index as int].party.well_formed(),
        final(game).draw.well_formed(),
        final(game).next_monsters == old(game).next_monsters,
        final(game).monsters == old(game).monsters,
{
    let number_of_party_cards = count;
    let mut dealt: usize = 0;
    let ghost party_start = game.players@[player_index as int].party@;
    while dealt < number_of_party_cards
        invariant
            player_index < game.players@.len() == old(game).players@.len(),
            forall|k: int| 0 <= k < old(game).players@.len() && k != player_index ==> #[trigger] game.players@[k] == old(game).players@[k],
            game.players@[player_index as int] == (Player { party: game.players@[player_index as int].party, ..old(game).players@[player_index as int] }),
            party_start == old(game).players@[player_index as int].party@,
            game.players@[player_index as int].party@.take(party_start.len() as int) == party_start,
            game.players@[player_index as int].party@.len() >= party_start.len(),
            game.players@[player_index as int].party@.len() <= party_start.len() + dealt,
            classes(old(game).players@[player_index as int]).len() < 6 ==> classes(game.players@[player_index as int]).len() < 6,
            dealt <= number_of_party_cards == count,
            game.next_monsters == old(game).next_monsters,
            game.monsters == old(game).monsters,
            game.players@[player_index as int].party@.len() + game.draw@.len() == party_start.len() + old(game).draw@.len(),
            game.players@[player_index as int].party.well_formed(),
            game.players@[player_index as int].leader.card_type is PartyLeader,
            game.draw.well_formed(),
            party_deal(party_start, old(game).players@[player_index as int].leader, old(game).draw@, dealt as nat)
                == (game.players@[player_index as int].party@, game.draw@),
        decreases number_of_party_cards - dealt,
    {
        let ghost party_before = game.players@[player_index as int].party@;
        let ghost draw_before = game.draw@;
        if let Some(stack) = game.draw.maybe_deal() {
            assert(stack.well_formed());
            if adding_card_would_mean_player_wins(game, player_index, &stack) {
                game.draw.add(stack);
            } else {
                let ghost before = game.players@[player_index as int].party@;
                let ghost before_player = game.players@[player_index as int];
                game.players[player_index].party.add(stack);
                assert(game.players@[player_index as int].party@.take(party_start.len() as int) =~= before.take(party_start.len() as int));
                proof {
                    let after = game.players@[player_index as int];
                    assert forall|t: HeroType| #[trigger] classes(after).contains(t) == classes_with(before_player, stack).contains(t) by {
                        lemma_has_type_push(before_player.party@, stack, t);
                    }
                    assert(classes(after) =~= classes_with(before_player, stack));
                    lemma_classes_finite(before_player, stack);
                    if stack.spec_hero_type() is None {
                        assert(classes_with(before_player, stack) =~= classes(before_player));
                    }
                }
            }
        }
        proof {
            assert(party_deal(party_start, old(game).players@[player_index as int].leader, old(game).draw@, (dealt + 1) as nat)
                == (game.players@[player_index as int].party@, game.draw@));
        }
        dealt = dealt + 1;
    }
    assert(party_deal(party_start, old(game).players@[player_index as int].leader, old(game).draw@, dealt as nat)
        == (game.players@[player_index as int].party@, game.draw@));
}

/// Deals the player a random number of cards, from none to nine, from the draw pile into
/// their party (see `deal_into_party`).
pub fn randomly_initialize_party(context: &mut GameBookKeeping, game: &mut Game, player_index: ids::PlayerIndex)
    requires
        player_index < old(game).players@.len(),
        old(game).players@[player_index as int].party.well_formed(),
        old(game).players@[player_index as int].leader.card_type is PartyLeader,
        old(game).draw.well_formed(),
    ensures
        exists|n: nat| n < 10 && #[trigger] party_deal(
            old(game).players@[player_index as int].party@,
            old(game).players@[player_index as int].leader,
            old(game).draw@,
            n,
        ) == (final(game).players@[player_index as int].party@, final(game).draw@),
        classes(old(game).players@[player_index as int]).len() < 6 ==> classes(final(game).players@[player_index as int]).len() < 6,
        final(game).players@.len() == old(game).players@.len(),
        forall|k: int| 0 <= k < old(game).players@.len() && k != player_index ==> #[trigger] final(game).players@[k] == old(game).players@[k],
        final(game).players@[player_index as int] == (Player { party: final(game).players@[player_index as int].party, ..old(game).players@[player_index as int] }),
        final(game).players@[player_index as int].party@.take(old(game).players@[player_index as int].party@.len() as int)
            == old(game).players@[player_index as int].party@,
        final(game).players@[player_index as int].party@.len() + final(game).draw@.len()
            == old(game).players@[player_index as int].party@.len() + old(game).draw@.len(),
        final(game).players@[player_index as int].party@.len() <= old(game).players@[player_index as int].party@.len() + 9,
        final(game).players@[player_index as int].party.well_formed(),
        final(game).draw.well_formed(),
        final(game).next_monsters == old(game).next_monsters,
        final(game).monsters == old(game).monsters,
{
    let number_of_party_cards = random_in_range(&mut context.rng, 0, 10);
    deal_into_party(game, player_index, number_of_party_cards);
}

/// Sets up a game in the middle of play: the decks, four players, three monsters to attack,
/// and, for each player, random cards in the hand, in the party and among the slain monsters.
pub fn initialize_game_to_random_state_without_assigning_player(context: &mut GameBookKeeping, game: &mut Game)
    requires
        old(game).is_fresh(),
    ensures
        final(game).players@.len() == 4,
        final(game).monsters@.len() == 3,
        forall|k: int| 0 <= k < 4 ==> {
            let player = #[trigger] final(game).players@[k];
            &&& player.player_index == k
            &&& player.leader.card_type is PartyLeader
            &&& player.hand@.len() <= 9
            &&& player.party@.len() <= 9
            &&& player.slain_monsters@.len() <= 2
            &&& player.slain_are_monsters()
            &&& classes(player).len() < 6
        },
{
    proof { lemma_deck_sizes(); }
    initialize_global_decks(context, game);
    proof {
        assert forall|k: int| 0 <= k < game.leaders@.len() implies (#[trigger] game.leaders@[k]).top.card_type is PartyLeader by {
            lemma_card_deck(game.leaders@[k].top.card_type);
        }
        assert forall|k: int| 0 <= k < game.next_monsters@.len() implies (#[trigger] game.next_monsters@[k]).top.card_type is MonsterCard by {
            lemma_card_deck(game.next_monsters@[k].top.card_type);
        }
        assert forall|k: int| 0 <= k < game.draw@.len() implies (#[trigger] game.draw@[k]).well_formed() by {}
    }
    let ghost leaders_before = game.leaders@;
    initialize_players(context, game);
    proof {
        assert forall|k: int| 0 <= k < 4 implies {
            let player = #[trigger] game.players@[k];
            &&& player.player_index == k
            &&& player.party.well_formed()
            &&& player.leader.card_type is PartyLeader
            &&& player.hand@.len() == 0
            &&& player.party@.len() == 0
            &&& player.slain_monsters@.len() == 0
        } by {
            assert(game.players@[k] == game.players@[0 + k]);
            assert(game.players@[k].leader == leaders_before[k].top);
        }
        assert forall|k: int| 0 <= k < 4 implies classes(#[trigger] game.players@[k]).len() < 6 by {
            let player = game.players@[k];
            let t = player.leader.card_type->PartyLeader_0;
            assert(classes(player) =~= set![t]);
        }
    }
    let monsters = game.next_monsters.drain(0, 3);
    game.monsters.extend(monsters);
    let n = game.number_of_players();
    let mut player_index: usize = 0;
    while player_index < n
        invariant
            n == 4 == game.players@.len(),
            player_index <= n,
            game.monsters@.len() == 3,
            game.draw@.len() >= 74 - 18 * player_index,
            game.next_monsters@.len() >= 12 - 2 * player_index,
            forall|k: int| 0 <= k < game.next_monsters@.len() ==> (#[trigger] game.next_monsters@[k]).top.card_type is MonsterCard,
            game.draw.well_formed(),
            forall|k: int| 0 <= k < 4 ==> {
                let player = #[trigger] game.players@[k];
                &&& player.player_index == k
                &&& player.party.well_formed()
                &&& player.leader.card_type is PartyLeader
                &&& classes(player).len() < 6
            },
            forall|k: int| 0 <= k < player_index ==> {
                let player = #[trigger] game.players@[k];
                &&& player.hand@.len() <= 9
                &&& player.party@.len() <= 9
                &&& player.slain_monsters@.len() <= 2
                &&& player.slain_are_monsters()
            },
            forall|k: int| player_index <= k < 4 ==> {
                let player = #[trigger] game.players@[k];
                &&& player.hand@.len() == 0
                &&& player.party@.len() == 0
                &&& player.slain_monsters@.len() == 0
            },
        decreases n - player_index,
    {
        let ghost next_before = game.next_monsters@;
        randomly_initialize_hand(context, game, player_index);
        randomly_initialize_party(context, game, player_index);
        randomly_initialize_monsters(context, game, player_index);
        proof {
            let player = game.players@[player_index as int];
            assert forall|k: int| 0 <= k < player.slain_monsters@.len() implies (#[trigger] player.slain_monsters@[k]).top.card_type is MonsterCard by {
                let m = choose|m: int| 0 <= m < 3 && {
                    &&& #[trigger] game.next_monsters@ == next_before.skip(m)
                    &&& player.slain_monsters@ == Seq::<Stack>::empty() + next_before.take(m)
                };
                assert(player.slain_monsters@[k] == next_before[k]);
            }
            assert forall|k: int| 0 <= k < game.next_monsters@.len() implies (#[trigger] game.next_monsters@[k]).top.card_type is MonsterCard by {
                let m = choose|m: int| 0 <= m < 3 && #[trigger] game.next_monsters@ == next_before.skip(m);
                assert(game.next_monsters@[k] == next_before[k + m]);
            }
        }
        player_index = player_index + 1;
    }
}

/// Makes it a random player's turn, and starts that turn.
fn start_random_turn(context: &mut GameBookKeeping, game: &mut Game)
    requires
        old(game).players@.len() > 0,
        forall|k: int| 0 <= k < old(game).players@.len() ==> (#[trigger] old(game).players@[k]).slain_are_monsters()
            && old(game).players@[k].slain_monsters@.len() < 1000,
    ensures
        final(game).players@.len() == old(game).players@.len(),
        final(game).turn.active_player() < final(game).players@.len(),
        final(game).players@[final(game).turn.active_player() as int].action_points()
            == crate::state::player::total_action_points(final(game).players@[final(game).turn.active_player() as int].slain_monsters@),
        forall|k: int| 0 <= k < old(game).players@.len() ==> #[trigger] final(game).players@[k] == (Player {
            remaining_action_points: final(game).players@[k].remaining_action_points,
            ..old(game).players@[k]
        }),
        final(game).monsters == old(game).monsters,
{
    let n = game.number_of_players();
    let first = random_in_range(&mut context.rng, 0, n);
    game.set_active_player(first);
    start_turn(game);
}

/// Starts the turn of the active player.
fn start_turn(game: &mut Game)
    requires
        old(game).turn.active_player() < old(game).players@.len(),
        old(game).players@[old(game).turn.active_player() as int].slain_are_monsters(),
        old(game).players@[old(game).turn.active_player() as int].slain_monsters@.len() < 1000,
    ensures
        final(game).players@.len() == old(game).players@.len(),
        final(game).turn == old(game).turn,
        final(game).players@[final(game).turn.active_player() as int].action_points()
            == crate::state::player::total_action_points(final(game).players@[final(game).turn.active_player() as int].slain_monsters@),
        forall|k: int| 0 <= k < old(game).players@.len() ==> #[trigger] final(game).players@[k] == (Player {
            remaining_action_points: final(game).players@[k].remaining_action_points,
            ..old(game).players@[k]
        }),
        final(game).monsters == old(game).monsters,
{
    let player = game.current_player_mut();
    proof {
        crate::state::player::lemma_slain_action_points_bounded(player.slain_monsters@);
    }
    player.turn_begin();
}

/// Sets up a game in the middle of play (see
/// `initialize_game_to_random_state_without_assigning_player`) and starts the turn of a
/// randomly chosen player.
pub fn initialize_game_to_random_state(context: &mut GameBookKeeping, game: &mut Game)
    requires
        old(game).is_fresh(),
    ensures
        final(game).players@.len() == 4,
        final(game).monsters@.len() == 3,
        forall|k: int| 0 <= k < 4 ==> {
            let player = #[trigger] final(game).players@[k];
            &&& player.player_index == k
            &&& player.leader.card_type is PartyLeader
            &&& player.hand@.len() <= 9
            &&& player.party@.len() <= 9
            &&& player.slain_monsters@.len() <= 2
            &&& player.slain_are_monsters()
            &&& classes(player).len() < 6
        },
        final(game).turn.active_player() < 4,
        final(game).players@[final(game).turn.active_player() as int].action_points()
            == crate::state::player::total_action_points(final(game).players@[final(game).turn.active_player() as int].slain_monsters@),
{
    initialize_game_to_random_state_without_assigning_player(context, game);
    assert forall|k: int| 0 <= k < game.players@.len() implies (#[trigger] game.players@[k]).slain_are_monsters()
        && game.players@[k].slain_monsters@.len() < 1000 by {}
    start_random_turn(context, game);
}

/// A stack of a single new card of the kind, with a fresh id.
pub fn stack_from(context: &mut GameBookKeeping, card: &SlayCardSpec) -> (r: Stack)
    ensures
        r.top.card_type == *card,
        r.top.id as int == (old(context).id_generator.last_id() + 1) % 0x1_0000_0000,
        final(context).id_generator.last_id() == r.top.id,
        r.modifiers@ == Seq::<Card>::empty(),
{
    Stack::new(Card::new(context.id_generator.generate(), *card))
}

/// Whether a single new card of the kind tops the stack.
pub open spec fn single(stack: Stack, card: SlayCardSpec) -> bool {
    stack.top.card_type == card && stack.modifiers@ == Seq::<Card>::empty()
}

/// Whether the game holds, where a test of the card needs them, new copies of the card for
/// player 0: a hero at the end of their hand and of their party (two different cards), a
/// leader as their leader, a monster at the end of their slain monsters and of the
/// monsters (two different cards), a modifier at the end of their hand and under a new
/// Plundering Puma at the end of their party (three different cards), and any other card at
/// the end of their hand.
pub open spec fn placed_for_test(card: SlayCardSpec, game: Game) -> bool {
    let player = game.players@[0];
    match card {
        SlayCardSpec::HeroCard(_) => {
            &&& player.hand@.len() > 0 && single(player.hand@.last(), card)
            &&& player.party@.len() > 0 && single(player.party@.last(), card)
            &&& player.hand@.last().top.id != player.party@.last().top.id
        },
        SlayCardSpec::PartyLeader(_) => player.leader.card_type == card,
        SlayCardSpec::MonsterCard(_) => {
            &&& player.slain_monsters@.len() > 0 && single(player.slain_monsters@.last(), card)
            &&& game.monsters@.len() > 0 && single(game.monsters@.last(), card)
            &&& player.slain_monsters@.last().top.id != game.monsters@.last().top.id
        },
        SlayCardSpec::ModifierCard(_) => {
            let stack = player.party@.last();
            &&& player.party@.len() > 0
            &&& stack.top.card_type == SlayCardSpec::HeroCard(HeroAbilityType::PlunderingPuma)
            &&& stack.modifiers@.len() == 1 && stack.modifiers@[0].card_type == card
            &&& player.hand@.len() > 0 && single(player.hand@.last(), card)
            &&& stack.top.id != stack.modifiers@[0].id
            &&& stack.top.id != player.hand@.last().top.id
            &&& stack.modifiers@[0].id != player.hand@.last().top.id
        },
        _ => player.hand@.len() > 0 && single(player.hand@.last(), card),
    }
}

/// Sets up a game in the middle of play in which player 0 can use the given card: a hero
/// goes to their hand and their party, a leader replaces theirs, a monster goes to their
/// slain monsters and to the monsters, a modifier goes to their hand and under a new hero in
/// their party, and any other card goes to their hand.  Then player 0's turn starts.
pub fn create_state_to_test(context: &mut GameBookKeeping, game: &mut Game, card: &SlayCardSpec)
    requires
        old(game).is_fresh(),
    ensures
        final(game).players@.len() == 4,
        final(game).turn.active_player() == 0,
        final(game).players@[0].action_points() == crate::state::player::total_action_points(final(game).players@[0].slain_monsters@),
        placed_for_test(*card, *final(game)),
{
    initialize_game_to_random_state_without_assigning_player(context, game);
    assert(game.players@[0].slain_are_monsters());
    match card {
        SlayCardSpec::HeroCard(_) => {
            let in_hand = stack_from(context, card);
            game.players[0].hand.add(in_hand);
            let in_party = stack_from(context, card);
            game.players[0].party.add(in_party);
        },
        SlayCardSpec::PartyLeader(_) => {
            let leader = stack_from(context, card).top;
            game.players[0].leader = leader;
        },
        SlayCardSpec::MonsterCard(_) => {
            let slain = stack_from(context, card);
            game.players[0].slain_monsters.add(slain);
            let active = stack_from(context, card);
            game.monsters.add(active);
        },
        SlayCardSpec::ModifierCard(_) => {
            let mut stack = stack_from(context, &SlayCardSpec::HeroCard(HeroAbilityType::PlunderingPuma));
            let modifier = stack_from(context, card).top;
            stack.modifiers.push(modifier);
            game.players[0].party.add(stack);
            let in_hand = stack_from(context, card);
            game.players[0].hand.add(in_hand);
        },
        _ => {
            let in_hand = stack_from(context, card);
            game.players[0].hand.add(in_hand);
        },
    }
    game.set_active_player(0);
    start_turn(game);
}

/// What player 0 is dealt when a game starts in a given state.
pub struct InitialAssignmentRequirements {
    pub player0_cards: Vec<ids::CardId>,
}

} // verus!

verus! {

/// How many cards of the list the deck at the path starts with, copies counted.
pub open spec fn deck_size(cards: Seq<SlayCardSpec>, path: DeckPath) -> nat
    decreases cards.len(),
{
    if cards.len() == 0 {
        0
    } else {
        deck_size(cards.drop_last(), path) + if initial_deck(card_spec_view(cards.last()).card_type) == path {
            card_spec_view(cards.last()).repeat as nat
        } else {
            0
        }
    }
}

proof fn lemma_deck_size_append(a: Seq<SlayCardSpec>, b: Seq<SlayCardSpec>, path: DeckPath)
    ensures
        deck_size(a + b, path) == deck_size(a, path) + deck_size(b, path),
    decreases b.len(),
{
    if b.len() == 0 {
        assert(a + b =~= a);
    } else {
        lemma_deck_size_append(a, b.drop_last(), path);
        assert((a + b).drop_last() =~= a + b.drop_last());
        assert((a + b).last() == b.last());
    }
}

proof fn lemma_deck_size_at_least(cards: Seq<SlayCardSpec>, path: DeckPath)
    requires
        forall|i: int| 0 <= i < cards.len() ==> start_deck(#[trigger] cards[i]) == path,
    ensures
        deck_size(cards, path) >= cards.len(),
    decreases cards.len(),
{
    if cards.len() > 0 {
        lemma_card_deck(cards.last());
        lemma_deck_size_at_least(cards.drop_last(), path);
    }
}

/// With the game's cards, the draw pile starts with at least 74 cards, the party leaders
/// with at least 6 and the monsters to come with at least 15.
proof fn lemma_deck_sizes()
    ensures
        deck_size(all_cards(), DeckPath::Draw) >= 74,
        deck_size(all_cards(), DeckPath::PartyLeaders) >= 6,
        deck_size(all_cards(), DeckPath::NextMonsters) >= 15,
{
    let h = hero_cards();
    let l = leader_cards();
    let m = monster_cards();
    let g = magic_cards();
    let d = modifier_cards();
    let t = item_cards();
    let c = challenge_cards();
    assert forall|i: int| 0 <= i < h.len() implies start_deck(#[trigger] h[i]) == DeckPath::Draw by {}
    assert forall|i: int| 0 <= i < l.len() implies start_deck(#[trigger] l[i]) == DeckPath::PartyLeaders by {}
    assert forall|i: int| 0 <= i < m.len() implies start_deck(#[trigger] m[i]) == DeckPath::NextMonsters by {}
    assert forall|i: int| 0 <= i < g.len() implies start_deck(#[trigger] g[i]) == DeckPath::Draw by {}
    assert forall|i: int| 0 <= i < d.len() implies start_deck(#[trigger] d[i]) == DeckPath::Draw by {}
    assert forall|i: int| 0 <= i < t.len() implies start_deck(#[trigger] t[i]) == DeckPath::Draw by {}
    assert forall|i: int| 0 <= i < c.len() implies start_deck(#[trigger] c[i]) == DeckPath::Draw by {}
    lemma_deck_size_at_least(h, DeckPath::Draw);
    lemma_deck_size_at_least(l, DeckPath::PartyLeaders);
    lemma_deck_size_at_least(m, DeckPath::NextMonsters);
    lemma_deck_size_at_least(g, DeckPath::Draw);
    lemma_deck_size_at_least(d, DeckPath::Draw);
    lemma_deck_size_at_least(t, DeckPath::Draw);
    lemma_deck_size_at_least(c, DeckPath::Draw);
    let paths = seq![DeckPath::Draw, DeckPath::PartyLeaders, DeckPath::NextMonsters];
    assert forall|k: int| 0 <= k < 3 implies deck_size(all_cards(), #[trigger] paths[k])
        == deck_size(h, paths[k]) + deck_size(l, paths[k]) + deck_size(m, paths[k]) + deck_size(g, paths[k])
            + deck_size(d, paths[k]) + deck_size(t, paths[k]) + deck_size(c, paths[k]) by {
        let p = paths[k];
        lemma_deck_size_append(h, l, p);
        lemma_deck_size_append(h + l, m, p);
        lemma_deck_size_append(h + l + m, g, p);
        lemma_deck_size_append(h + l + m + g, d, p);
        lemma_deck_size_append(h + l + m + g + d, t, p);
        lemma_deck_size_append(h + l + m + g + d + t, c, p);
    }
    assert(paths[0] == DeckPath::Draw);
    assert(paths[1] == DeckPath::PartyLeaders);
    assert(paths[2] == DeckPath::NextMonsters);
}

} // verus!
