use vstd::prelude::*;

use crate::choices::{CardPath, ChoicesPerspective};
use crate::errors::{SlayError, SlayResult};
use crate::ids;
use crate::showdown::challenge::ChallengePerspective;
use crate::showdown::current_showdown::CurrentShowdown;
use crate::showdown::offer::OfferChallengesPerspective;
use crate::showdown::roll_state::RollPerspective;
use crate::specs::visibility::{Perspective, VisibilitySpec};
use crate::state::deck::{card_ids, stack_card_ids, card_position, modifier_position, top_position, Deck, DeckPath, DeckPerspective, DeckSpec};
use crate::state::player::{total_action_points, Player, PlayerPerspective};
use crate::state::stack::{Card, Stack};
use crate::state::status_effects::active_during;
use crate::state::turn::Turn;
use crate::tasks::{PlayerTask, TaskParamName};

verus! {

/// The state of a game: the players, the shared decks, whose turn it is and the current showdown.
#[derive(Debug)]
pub struct Game {
    pub players: Vec<Player>,
    pub showdown: CurrentShowdown,
    pub turn: Turn,
    pub draw: Deck,
    pub discard: Deck,
    pub monsters: Deck,
    pub leaders: Deck,
    pub next_monsters: Deck,
}

/// What every player knows of another player from the start.
#[derive(Debug, Clone)]
pub struct PlayerStaticInformation {
    pub name: String,
    pub leader: Card,
}

/// What a player knows of the game from the start.
#[derive(Debug, Clone)]
pub struct GameStaticInformation {
    pub players: Vec<PlayerStaticInformation>,
    pub player_index: usize,
}

/// The game as one player (or a spectator) sees it.
#[derive(Debug)]
pub struct GamePerspective {
    pub players: Vec<PlayerPerspective>,
    pub decks: Vec<DeckPerspective>,
    pub choices: Option<ChoicesPerspective>,
    pub turn: Turn,
    pub roll: Option<RollPerspective>,
    pub offer: Option<OfferChallengesPerspective>,
    pub challenge: Option<ChallengePerspective>,
}

/// Whether `seen` is the game as the viewing player (or, with none, a spectator) sees it:
/// every player, with the hand shown to its owner only and as a count to the others; the
/// draw and discard piles and the next monsters as counts; the viewer's decision; the turn;
/// and the showdown.
pub open spec fn shows_game(seen: GamePerspective, game: Game, viewing_player: Option<ids::PlayerIndex>) -> bool {
    &&& (seen.players@.len() == game.players@.len())
    &&& (forall|i: int| 0 <= i < game.players@.len() ==> {
            &&& (#[trigger] seen.players@[i]).player_index == i
            &&& seen.players@[i].remaining_action_points == game.players@[i].action_points()
            &&& seen.players@[i].total_action_points == total_action_points(game.players@[i].slain_monsters@)
            &&& seen.players@[i].decks@.len() == 3
            &&& seen.players@[i].decks@[0].stacks is Some == (viewing_player == Some(i as usize))
            &&& seen.players@[i].decks@[0].path == game.players@[i].hand.spec.path
            &&& seen.players@[i].decks@[0].count == game.players@[i].hand@.len()
            &&& seen.players@[i].decks@[0].stacks matches Some(stacks) ==> game.players@[i].hand.spec_to_stack_perspectives(game, Some(i as usize), stacks@)
            &&& seen.players@[i].decks@[1].path == game.players@[i].party.spec.path
            &&& seen.players@[i].decks@[1].count == game.players@[i].party@.len()
            &&& seen.players@[i].decks@[1].stacks matches Some(stacks) && game.players@[i].party.spec_to_stack_perspectives(game, Some(i as usize), stacks@)
            &&& seen.players@[i].decks@[2].path == game.players@[i].slain_monsters.spec.path
            &&& seen.players@[i].decks@[2].count == game.players@[i].slain_monsters@.len()
            &&& seen.players@[i].decks@[2].stacks matches Some(stacks) && game.players@[i].slain_monsters.spec_to_stack_perspectives(game, Some(i as usize), stacks@)
        })
    &&& (seen.decks@.len() == 4)
    &&& (seen.decks@[0].path == game.draw.spec.path && seen.decks@[0].count == game.draw@.len() && seen.decks@[0].stacks is None)
    &&& (seen.decks@[1].path == game.discard.spec.path && seen.decks@[1].count == game.discard@.len() && seen.decks@[1].stacks is None)
    &&& (seen.decks@[2].path == game.monsters.spec.path && seen.decks@[2].count == game.monsters@.len())
    &&& (seen.decks@[2].stacks matches Some(stacks) && game.monsters.spec_to_stack_perspectives(game, None, stacks@))
    &&& (seen.decks@[3].path == game.next_monsters.spec.path && seen.decks@[3].count == game.next_monsters@.len() && seen.decks@[3].stacks is None)
    &&& (seen.turn == game.turn)
    &&& (seen.choices is Some <==> (viewing_player matches Some(p) && game.players@[p as int].choices is Some))
    &&& (seen.choices matches Some(c) ==> {
            let choices = game.players@[viewing_player.unwrap() as int].choices.unwrap();
            &&& c.choices_type == choices.choices_type
            &&& c.default_choice == choices.default_choice
            &&& c.timeline == choices.timeline
            &&& c.options@ == choices.option_perspectives()
        })
    &&& (seen.roll is Some == game.showdown.roll is Some)
    &&& (seen.roll matches Some(view) ==> {
            let roll = game.showdown.roll.unwrap();
            &&& view.roller_index == roll.roller_index
            &&& view.reason == roll.reason
            &&& view.win_condition == roll.consequences.success.condition
            &&& view.loss_condition == match roll.consequences.loss {
                Some(loss) => Some(loss.condition),
                None => None,
            }
            &&& view.initial == roll.initial
            &&& view.history@ == roll.history@
            &&& view.completion_tracker.completions@ == roll.completion_tracker.unwrap().completions@
            &&& view.completion_tracker.timeline == roll.completion_tracker.unwrap().timeline
        })
    &&& (seen.offer is Some == game.showdown.offer is Some)
    &&& (seen.offer matches Some(view) ==> {
            let offer = game.showdown.offer.unwrap();
            &&& view.player_index == offer.player_index
            &&& view.reason == offer.reason
            &&& view.completion_tracker.completions@ == offer.completion_tracker.unwrap().completions@
            &&& view.completion_tracker.timeline == offer.completion_tracker.unwrap().timeline
        })
    &&& (seen.challenge is Some == game.showdown.challenge is Some)
    &&& (seen.challenge matches Some(view) ==> {
            let challenge = game.showdown.challenge.unwrap();
            &&& view.initiator.player_index == challenge.initiator.player_index
            &&& view.initiator.initial == challenge.initiator.initial
            &&& view.initiator.history@ == challenge.initiator.history@
            &&& view.challenger.player_index == challenge.challenger.player_index
            &&& view.challenger.initial == challenge.challenger.initial
            &&& view.challenger.history@ == challenge.challenger.history@
            &&& view.initiator.path == challenge.initiator.path
            &&& view.challenger.path == challenge.challenger.path
            &&& view.completion_tracker.completions@ == challenge.completion_tracker.unwrap().completions@
            &&& view.completion_tracker.timeline == challenge.completion_tracker.unwrap().timeline
            &&& view.reason == challenge.reason
        })
}

/// Whether `second` is `first` but for which cards lie in the hand of player `other` and in
/// the draw pile: each holds as many stacks, with the same visibility and path, and nothing
/// else of the game differs.
pub open spec fn differs_in_hidden_cards(first: Game, second: Game, other: int) -> bool {
    &&& second.turn == first.turn
    &&& second.showdown == first.showdown
    &&& second.discard == first.discard
    &&& second.monsters == first.monsters
    &&& second.leaders == first.leaders
    &&& second.next_monsters == first.next_monsters
    &&& second.draw.spec == first.draw.spec
    &&& second.draw@.len() == first.draw@.len()
    &&& second.players@.len() == first.players@.len()
    &&& forall|i: int| 0 <= i < first.players@.len() && i != other ==> #[trigger] second.players@[i] == first.players@[i]
    &&& second.players@[other] == (Player { hand: second.players@[other].hand, ..first.players@[other] })
    &&& second.players@[other].hand.spec == first.players@[other].hand.spec
    &&& second.players@[other].hand@.len() == first.players@[other].hand@.len()
}

/// What a player sees of the game does not depend on which cards another player holds in
/// hand, nor on which cards lie in the draw pile: a view that shows the one game to the player
/// shows the other too, where the two differ only there (in the cards, not in their number).
pub proof fn lemma_view_hides_other_hand_and_draw(seen: GamePerspective, first: Game, second: Game, viewer: ids::PlayerIndex, other: ids::PlayerIndex)
    requires
        viewer < first.players@.len(),
        other < first.players@.len(),
        viewer != other,
        differs_in_hidden_cards(first, second, other as int),
        shows_game(seen, first, Some(viewer)),
    ensures
        shows_game(seen, second, Some(viewer)),
{
    assert forall|i: int, c: ids::CardId| 0 <= i < first.players@.len()
        implies #[trigger] second.spec_was_card_played(Some(i as usize), c) == first.spec_was_card_played(Some(i as usize), c) by {
        if i != other as int {
            assert(second.players@[i] == first.players@[i]);
        }
    }
    assert forall|c: ids::CardId| #[trigger] second.spec_was_card_played(None, c) == first.spec_was_card_played(None, c) by {}
    assert forall|i: int| 0 <= i < second.players@.len() implies {
        &&& (#[trigger] seen.players@[i]).player_index == i
        &&& seen.players@[i].remaining_action_points == second.players@[i].action_points()
        &&& seen.players@[i].total_action_points == total_action_points(second.players@[i].slain_monsters@)
        &&& seen.players@[i].decks@.len() == 3
        &&& seen.players@[i].decks@[0].stacks is Some == (Some(viewer) == Some(i as usize))
        &&& seen.players@[i].decks@[0].path == second.players@[i].hand.spec.path
        &&& seen.players@[i].decks@[0].count == second.players@[i].hand@.len()
        &&& seen.players@[i].decks@[0].stacks matches Some(stacks) ==> second.players@[i].hand.spec_to_stack_perspectives(second, Some(i as usize), stacks@)
        &&& seen.players@[i].decks@[1].path == second.players@[i].party.spec.path
        &&& seen.players@[i].decks@[1].count == second.players@[i].party@.len()
        &&& seen.players@[i].decks@[1].stacks matches Some(stacks) && second.players@[i].party.spec_to_stack_perspectives(second, Some(i as usize), stacks@)
        &&& seen.players@[i].decks@[2].path == second.players@[i].slain_monsters.spec.path
        &&& seen.players@[i].decks@[2].count == second.players@[i].slain_monsters@.len()
        &&& seen.players@[i].decks@[2].stacks matches Some(stacks) && second.players@[i].slain_monsters.spec_to_stack_perspectives(second, Some(i as usize), stacks@)
    } by {
        let p1 = first.players@[i];
        let p2 = second.players@[i];
        assert(p2.party == p1.party && p2.slain_monsters == p1.slain_monsters);
        assert(p2.remaining_action_points == p1.remaining_action_points);
        let st1 = seen.players@[i].decks@[1].stacks.unwrap()@;
        let st2 = seen.players@[i].decks@[2].stacks.unwrap()@;
        assert(p1.party.spec_to_stack_perspectives(first, Some(i as usize), st1));
        assert forall|k: int| 0 <= k < st1.len() implies (#[trigger] st1[k]).top == p2.party@[k].top.spec_to_perspective(second.spec_was_card_played(Some(i as usize), p2.party@[k].top.id)) by {
            assert(second.spec_was_card_played(Some(i as usize), p1.party@[k].top.id) == first.spec_was_card_played(Some(i as usize), p1.party@[k].top.id));
        }
        assert(p1.slain_monsters.spec_to_stack_perspectives(first, Some(i as usize), st2));
        assert forall|k: int| 0 <= k < st2.len() implies (#[trigger] st2[k]).top == p2.slain_monsters@[k].top.spec_to_perspective(second.spec_was_card_played(Some(i as usize), p2.slain_monsters@[k].top.id)) by {
            assert(second.spec_was_card_played(Some(i as usize), p1.slain_monsters@[k].top.id) == first.spec_was_card_played(Some(i as usize), p1.slain_monsters@[k].top.id));
        }
        if i == viewer as int {
            let st0 = seen.players@[i].decks@[0].stacks.unwrap()@;
            assert(p2.hand == p1.hand);
            assert forall|k: int| 0 <= k < st0.len() implies (#[trigger] st0[k]).top == p2.hand@[k].top.spec_to_perspective(second.spec_was_card_played(Some(i as usize), p2.hand@[k].top.id)) by {
                assert(second.spec_was_card_played(Some(i as usize), p1.hand@[k].top.id) == first.spec_was_card_played(Some(i as usize), p1.hand@[k].top.id));
            }
        }
    }
}

/// The position, in a list of `n`, that comes `i` places after position `start`, going
/// round to the front after the end.
pub open spec fn rotated_index(i: int, start: int, n: int) -> int {
    if i + start < n { i + start } else { i + start - n }
}

impl GamePerspective {
    /// The players, starting with the one looking at the game (if they play), in turn order.
    pub fn rotated_players(&self, statics: &GameStaticInformation) -> (r: Vec<&PlayerPerspective>)
        ensures
            r@.len() == self.players@.len(),
            (forall|i: int| 0 <= i < self.players@.len() ==> self.players@[i].player_index != statics.player_index)
                ==> forall|i: int| 0 <= i < r@.len() ==> *r@[i] == self.players@[i],
            forall|k: int| 0 <= k < self.players@.len() && self.players@[k].player_index == statics.player_index
                && (forall|j: int| 0 <= j < k ==> self.players@[j].player_index != statics.player_index)
                ==> forall|i: int| 0 <= i < r@.len() ==> *r@[i] == self.players@[rotated_index(i, k, self.players@.len() as int)],
    {
        let n = self.players.len();
        let mut start: usize = 0;
        while start < n && !self.players[start].is_me(statics)
            invariant
                start <= n == self.players@.len(),
                forall|j: int| 0 <= j < start ==> self.players@[j].player_index != statics.player_index,
            decreases n - start,
        {
            start = start + 1;
        }
        let ghost first = start;
        if start == n {
            start = 0;
        }
        let mut r: Vec<&PlayerPerspective> = Vec::new();
        let mut i: usize = 0;
        while i < n
            invariant
                i <= n == self.players@.len(),
                start < n || n == 0,
                r@.len() == i,
                forall|j: int| 0 <= j < i ==> *r@[j] == self.players@[rotated_index(j, start as int, n as int)],
                start == 0 ==> forall|j: int| 0 <= j < i ==> *r@[j] == self.players@[j],
            decreases n - i,
        {
            let k = if start < n - i { i + start } else { start - (n - i) };
            r.push(&self.players[k]);
            i = i + 1;
        }
        proof {
            assert forall|k: int| 0 <= k < self.players@.len() && self.players@[k].player_index == statics.player_index
                && (forall|j: int| 0 <= j < k ==> self.players@[j].player_index != statics.player_index)
                implies start == k by {
                if first < n {
                    if k < first {
                        assert(self.players@[k].player_index != statics.player_index);
                    } else if k > first {
                        assert(self.players@[first as int].player_index != statics.player_index);
                    }
                } else {
                    assert(self.players@[k].player_index != statics.player_index);
                }
            }
        }
        r
    }
}

impl GameStaticInformation {
    /// The name of a player.
    pub fn player_name(&self, player_index: ids::PlayerIndex) -> (r: &String)
        requires
            player_index < self.players@.len(),
        ensures
            *r == self.players@[player_index as int].name,
    {
        &self.players[player_index].name
    }
}

/// How a player sees decks that belong to `owner_id`.
pub fn get_perspective(owner_id: ids::PlayerIndex, viewer_id: Option<ids::PlayerIndex>) -> (r: Perspective)
    ensures
        r == (if viewer_id == Some(owner_id) { Perspective::Owner } else { Perspective::Spectator }),
{
    match viewer_id {
        Some(player_id) => if owner_id == player_id {
            Perspective::Owner
        } else {
            Perspective::Spectator
        },
        None => Perspective::Spectator,
    }
}

/// Whether `after` is `before` with the `j`-th card under the top card of the `i`-th
/// stack taken out.
pub open spec fn modifier_taken(before: Seq<Stack>, after: Seq<Stack>, i: int, j: int) -> bool {
    &&& after.len() == before.len()
    &&& forall|k: int| 0 <= k < before.len() && k != i ==> #[trigger] after[k] == before[k]
    &&& after[i].top == before[i].top
    &&& after[i].modifiers@ == before[i].modifiers@.remove(j)
}

/// Replacing one deck of a game changes no other deck, and no player but in that deck.
proof fn lemma_replaced_decks(after: Game, before: Game, path: DeckPath, deck: Deck)
    requires
        before.valid_path(path),
        after.replaces_deck(before, path, deck),
    ensures
        after.players@.len() == before.players@.len(),
        forall|p: DeckPath| #[trigger] before.valid_path(p) ==> after.valid_path(p)
            && after.spec_deck(p) == (if p == path { deck } else { before.spec_deck(p) }),
        forall|i: int| 0 <= i < before.players@.len() ==> #[trigger] after.players@[i] == (Player {
            hand: after.players@[i].hand,
            party: after.players@[i].party,
            slain_monsters: after.players@[i].slain_monsters,
            ..before.players@[i]
        }),
        after.turn == before.turn,
        after.showdown == before.showdown,
{
    assert forall|p: DeckPath| #[trigger] before.valid_path(p) implies after.valid_path(p)
        && after.spec_deck(p) == (if p == path { deck } else { before.spec_deck(p) }) by {
        match p {
            DeckPath::Hand(i) | DeckPath::Party(i) | DeckPath::SlainMonsters(i) => {
                assert(after.players@[i as int] == before.players@[i as int] || path.spec_player_index() == Some(i));
            },
            _ => {},
        }
    }
}

impl Game {
    /// Whether the path names a deck of this game.
    pub open spec fn valid_path(self, path: DeckPath) -> bool {
        match path.spec_player_index() {
            Some(i) => i < self.players@.len(),
            None => true,
        }
    }

    /// The deck at a path.
    pub open spec fn spec_deck(self, path: DeckPath) -> Deck {
        match path {
            DeckPath::Draw => self.draw,
            DeckPath::Discard => self.discard,
            DeckPath::PartyLeaders => self.leaders,
            DeckPath::ActiveMonsters => self.monsters,
            DeckPath::NextMonsters => self.next_monsters,
            DeckPath::Hand(i) => self.players@[i as int].hand,
            DeckPath::Party(i) => self.players@[i as int].party,
            DeckPath::SlainMonsters(i) => self.players@[i as int].slain_monsters,
        }
    }

    /// Whether this game is `before` with the deck at `path` replaced by `deck`.
    pub open spec fn replaces_deck(self, before: Game, path: DeckPath, deck: Deck) -> bool {
        &&& self.turn == before.turn
        &&& self.showdown == before.showdown
        &&& self.draw == (if path == DeckPath::Draw { deck } else { before.draw })
        &&& self.discard == (if path == DeckPath::Discard { deck } else { before.discard })
        &&& self.leaders == (if path == DeckPath::PartyLeaders { deck } else { before.leaders })
        &&& self.monsters == (if path == DeckPath::ActiveMonsters { deck } else { before.monsters })
        &&& self.next_monsters == (if path == DeckPath::NextMonsters { deck } else { before.next_monsters })
        &&& self.players@ == match path {
            DeckPath::Hand(i) => before.players@.update(i as int, Player { hand: deck, ..before.players@[i as int] }),
            DeckPath::Party(i) => before.players@.update(i as int, Player { party: deck, ..before.players@[i as int] }),
            DeckPath::SlainMonsters(i) => before.players@.update(
                i as int,
                Player { slain_monsters: deck, ..before.players@[i as int] },
            ),
            _ => before.players@,
        }
    }

    /// Whether a card was played this turn by the given player (never, where no player is given).
    pub open spec fn spec_was_card_played(self, player_index: Option<ids::PlayerIndex>, card_id: ids::CardId) -> bool {
        match player_index {
            Some(i) => self.players@[i as int].spec_was_card_played(card_id),
            None => false,
        }
    }

    /// Whether some deck has a stack topped by the card, or some player has it as leader.
    pub open spec fn spec_has_card(self, card_id: ids::CardId) -> bool {
        ||| top_position(self.draw@, card_id) is Some
        ||| top_position(self.discard@, card_id) is Some
        ||| top_position(self.monsters@, card_id) is Some
        ||| top_position(self.leaders@, card_id) is Some
        ||| top_position(self.next_monsters@, card_id) is Some
        ||| exists|i: int| 0 <= i < self.players@.len() && {
            ||| (#[trigger] self.players@[i]).leader.id == card_id
            ||| top_position(self.players@[i].hand@, card_id) is Some
            ||| top_position(self.players@[i].party@, card_id) is Some
            ||| top_position(self.players@[i].slain_monsters@, card_id) is Some
        }
    }

    /// The card at a path, for the paths that name a top card or a leader.
    pub open spec fn spec_card_at(self, card_path: CardPath) -> Option<Card> {
        match card_path {
            CardPath::TopCardIn(deck_path, card_id) => match top_position(self.spec_deck(deck_path)@, card_id) {
                Some(i) => Some(self.spec_deck(deck_path)@[i].top),
                None => None,
            },
            CardPath::ModifyingCardIn(_, _, _) => None,
            CardPath::Leader(player_index, _) => Some(self.players@[player_index as int].leader),
        }
    }

    /// Whether some stack of the deck topped by the first card has the second under it.
    pub open spec fn spec_has_modifier(self, deck_path: DeckPath, top_card_id: ids::CardId, modifier_card_id: ids::CardId) -> bool {
        exists|i: int| 0 <= i < self.spec_deck(deck_path)@.len()
            && #[trigger] self.spec_deck(deck_path)@[i].top.id == top_card_id
            && card_position(self.spec_deck(deck_path)@[i].modifiers@, modifier_card_id) is Some
    }

    /// Whether a card path names a deck (or a player) of this game.
    pub open spec fn valid_card_path(self, card_path: CardPath) -> bool {
        match card_path {
            CardPath::TopCardIn(deck_path, _) => self.valid_path(deck_path),
            CardPath::ModifyingCardIn(deck_path, _, _) => self.valid_path(deck_path),
            CardPath::Leader(player_index, _) => player_index < self.players@.len(),
        }
    }

    /// Whether there is a card at the path.
    pub open spec fn spec_has_card_at(self, card_path: CardPath) -> bool {
        match card_path {
            CardPath::ModifyingCardIn(deck_path, top_card_id, modifier_card_id) => self.spec_has_modifier(
                deck_path,
                top_card_id,
                modifier_card_id,
            ),
            _ => self.spec_card_at(card_path) is Some,
        }
    }

    /// Whether `self` is `before` once the card has been moved from the deck at `source` to
    /// the bottom of the deck at `destination`: the stack it tops, or the card alone where it
    /// lies under another; the other decks, the players' other belongings, the turn and the
    /// showdown stay as they were, and every deck keeps its visibility and path.
    pub open spec fn moved_card(self, before: Game, source: DeckPath, destination: DeckPath, card_id: ids::CardId) -> bool {
        &&& exists|taken: Stack, rest: Deck| {
            &&& #[trigger] self.spec_deck(destination)@ == rest@.push(taken)
            &&& taken.top.id == card_id
            &&& (top_position(before.spec_deck(source)@, card_id) matches Some(i) ==> {
                &&& taken == before.spec_deck(source)@[i]
                &&& rest@ == (if source == destination { before.spec_deck(source)@.remove(i) } else { before.spec_deck(destination)@ })
                &&& source != destination ==> self.spec_deck(source)@ == before.spec_deck(source)@.remove(i)
            })
            &&& (top_position(before.spec_deck(source)@, card_id) is None ==> (
                modifier_position(before.spec_deck(source)@, card_id) matches Some((i, j)) ==> {
                &&& taken.top == before.spec_deck(source)@[i].modifiers@[j]
                &&& taken.modifiers@ == Seq::<Card>::empty()
                &&& (source != destination ==> rest@ == before.spec_deck(destination)@)
                &&& (source != destination ==> modifier_taken(before.spec_deck(source)@, self.spec_deck(source)@, i, j))
                &&& (source == destination ==> modifier_taken(before.spec_deck(source)@, rest@, i, j))
            }))
        }
        &&& source != destination ==> card_ids(self.spec_deck(source)@).to_multiset().add(card_ids(self.spec_deck(destination)@).to_multiset())
            == card_ids(before.spec_deck(source)@).to_multiset().add(card_ids(before.spec_deck(destination)@).to_multiset())
        &&& source == destination ==> card_ids(self.spec_deck(source)@).to_multiset() == card_ids(before.spec_deck(source)@).to_multiset()
        &&& forall|p: DeckPath| before.valid_path(p) ==> #[trigger] self.spec_deck(p).spec == before.spec_deck(p).spec
        &&& forall|p: DeckPath| p != source && p != destination && before.valid_path(p) ==> #[trigger] self.spec_deck(p) == before.spec_deck(p)
        &&& self.players@.len() == before.players@.len()
        &&& forall|i: int| 0 <= i < before.players@.len() ==> #[trigger] self.players@[i] == (Player {
            hand: self.players@[i].hand,
            party: self.players@[i].party,
            slain_monsters: self.players@[i].slain_monsters,
            ..before.players@[i]
        })
        &&& self.turn == before.turn
        &&& self.showdown == before.showdown
    }

    /// Whether the two games differ at most in their players.
    pub open spec fn same_except_players(self, other: Game) -> bool {
        &&& self.turn == other.turn
        &&& self.showdown == other.showdown
        &&& self.draw == other.draw
        &&& self.discard == other.discard
        &&& self.monsters == other.monsters
        &&& self.leaders == other.leaders
        &&& self.next_monsters == other.next_monsters
    }

    /// Whether this game is `before` once every player's choices are taken away and the
    /// tasks are put at the end of the roller's tasks.
    pub open spec fn gives_roll_tasks(self, before: Game, roller: ids::PlayerIndex, tasks: Seq<PlayerTask>) -> bool {
        &&& self.same_except_players(before)
        &&& self.players@.len() == before.players@.len()
        &&& forall|i: int| 0 <= i < before.players@.len() && i != roller ==> #[trigger] self.players@[i] == (Player {
            choices: None,
            ..before.players@[i]
        })
        &&& self.players@[roller as int] == (Player {
            choices: None,
            tasks: self.players@[roller as int].tasks,
            ..before.players@[roller as int]
        })
        &&& self.players@[roller as int].tasks.queue() == before.players@[roller as int].tasks.queue() + tasks
        &&& self.players@[roller as int].tasks.has_current() == before.players@[roller as int].tasks.has_current()
        &&& self.players@[roller as int].tasks.well_formed() == before.players@[roller as int].tasks.well_formed()
        &&& self.players@[roller as int].tasks.player_values() == before.players@[roller as int].tasks.player_values()
        &&& self.players@[roller as int].tasks.card_values() == before.players@[roller as int].tasks.card_values()
    }

    /// Whether this game is `before` with the tasks of `player` replaced by a queue that
    /// reads `queue`, nothing else of that player's tasks changed.
    pub open spec fn changes_queue(self, before: Game, player: ids::PlayerIndex, queue: Seq<PlayerTask>) -> bool {
        &&& self.same_except_players(before)
        &&& self.players@.len() == before.players@.len()
        &&& forall|i: int| 0 <= i < before.players@.len() && i != player ==> #[trigger] self.players@[i] == before.players@[i]
        &&& self.players@[player as int] == (Player { tasks: self.players@[player as int].tasks, ..before.players@[player as int] })
        &&& self.players@[player as int].tasks.queue() == queue
        &&& self.players@[player as int].tasks.has_current() == before.players@[player as int].tasks.has_current()
        &&& self.players@[player as int].tasks.well_formed() == before.players@[player as int].tasks.well_formed()
        &&& self.players@[player as int].tasks.player_values() == before.players@[player as int].tasks.player_values()
        &&& self.players@[player as int].tasks.card_values() == before.players@[player as int].tasks.card_values()
    }

    /// Puts the tasks, in order, in front of the tasks of a player.
    pub fn prepend_tasks(&mut self, player_index: ids::PlayerIndex, tasks: &mut Vec<PlayerTask>)
        requires
            player_index < old(self).players@.len(),
        ensures
            final(self).changes_queue(*old(self), player_index, old(tasks)@ + old(self).players@[player_index as int].tasks.queue()),
            final(tasks)@ == Seq::<PlayerTask>::empty(),
    {
        self.players[player_index].tasks.prepend_from(tasks);
    }

    /// Takes away every player's choices.
    pub fn clear_all_choices(&mut self)
        ensures
            final(self).same_except_players(*old(self)),
            final(self).players@.len() == old(self).players@.len(),
            forall|i: int| 0 <= i < old(self).players@.len() ==> #[trigger] final(self).players@[i] == (Player {
                choices: None,
                ..old(self).players@[i]
            }),
    {
        let mut i: usize = 0;
        while i < self.players.len()
            invariant
                i <= self.players@.len() == old(self).players@.len(),
                self.same_except_players(*old(self)),
                forall|j: int| 0 <= j < i ==> #[trigger] self.players@[j] == (Player { choices: None, ..old(self).players@[j] }),
                forall|j: int| i <= j < self.players@.len() ==> #[trigger] self.players@[j] == old(self).players@[j],
            decreases self.players@.len() - i,
        {
            self.players[i].choices = None;
            i = i + 1;
        }
    }

    /// Drops, for every player, the status effects that have run out at the current turn.
    pub fn clear_expired_modifiers(&mut self)
        ensures
            final(self).players@.len() == old(self).players@.len(),
            forall|i: int| 0 <= i < old(self).players@.len() ==> {
                &&& (#[trigger] final(self).players@[i]).temporary_buffs@ == active_during(old(self).players@[i].temporary_buffs@, old(self).turn)
                &&& final(self).players@[i] == (Player { temporary_buffs: final(self).players@[i].temporary_buffs, ..old(self).players@[i] })
            },
            final(self).turn == old(self).turn,
            final(self).showdown == old(self).showdown,
            final(self).draw == old(self).draw,
            final(self).discard == old(self).discard,
            final(self).monsters == old(self).monsters,
            final(self).leaders == old(self).leaders,
            final(self).next_monsters == old(self).next_monsters,
    {
        let turn = self.turn;
        let mut i: usize = 0;
        while i < self.players.len()
            invariant
                i <= self.players@.len() == old(self).players@.len(),
                turn == old(self).turn,
                self.turn == old(self).turn,
                self.showdown == old(self).showdown,
                self.draw == old(self).draw,
                self.discard == old(self).discard,
                self.monsters == old(self).monsters,
                self.leaders == old(self).leaders,
                self.next_monsters == old(self).next_monsters,
                forall|j: int| 0 <= j < i ==> {
                    &&& (#[trigger] self.players@[j]).temporary_buffs@ == active_during(old(self).players@[j].temporary_buffs@, turn)
                    &&& self.players@[j] == (Player { temporary_buffs: self.players@[j].temporary_buffs, ..old(self).players@[j] })
                },
                forall|j: int| i <= j < self.players@.len() ==> #[trigger] self.players@[j] == old(self).players@[j],
            decreases self.players@.len() - i,
        {
            self.players[i].clear_expired_modifiers(&turn);
            i = i + 1;
        }
    }

    /// The index of the player whose turn it is.
    pub fn active_player_index(&self) -> (r: ids::PlayerIndex)
        ensures
            r == self.turn.active_player(),
    {
        self.turn.active_player_index()
    }

    /// Passes the turn to the next player.
    pub fn increment(&mut self)
        requires
            old(self).turn.turn_number() < u32::MAX,
            old(self).turn.round_number() < u32::MAX,
            old(self).turn.active_player() < usize::MAX,
        ensures
            final(self).turn.turn_number() == old(self).turn.turn_number() + 1,
            old(self).turn.active_player() + 1 < old(self).players@.len() ==> {
                &&& final(self).turn.active_player() == old(self).turn.active_player() + 1
                &&& final(self).turn.round_number() == old(self).turn.round_number()
            },
            old(self).turn.active_player() + 1 >= old(self).players@.len() ==> {
                &&& final(self).turn.active_player() == 0
                &&& final(self).turn.round_number() == old(self).turn.round_number() + 1
            },
            final(self).players@ == old(self).players@,
            final(self).showdown == old(self).showdown,
            final(self).draw == old(self).draw,
            final(self).discard == old(self).discard,
            final(self).monsters == old(self).monsters,
            final(self).leaders == old(self).leaders,
            final(self).next_monsters == old(self).next_monsters,
    {
        let n = self.number_of_players();
        self.turn.increment(n);
    }

    /// The shared decks: draw pile, discard pile, monsters, party leaders, next monsters.
    pub fn decks(&self) -> (r: [&Deck; 5])
        ensures
            *r[0] == self.draw,
            *r[1] == self.discard,
            *r[2] == self.monsters,
            *r[3] == self.leaders,
            *r[4] == self.next_monsters,
    {
        [&self.draw, &self.discard, &self.monsters, &self.leaders, &self.next_monsters]
    }

    /// The shared decks, in the order of `decks`, to be changed.
    pub fn decks_mut(&mut self) -> (r: [&mut Deck; 5])
        ensures
            *r[0] == old(self).draw,
            *r[1] == old(self).discard,
            *r[2] == old(self).monsters,
            *r[3] == old(self).leaders,
            *r[4] == old(self).next_monsters,
            *final(self) == (Game {
                draw: *final(r[0]),
                discard: *final(r[1]),
                monsters: *final(r[2]),
                leaders: *final(r[3]),
                next_monsters: *final(r[4]),
                ..*old(self)
            }),
    {
        [&mut self.draw, &mut self.discard, &mut self.monsters, &mut self.leaders, &mut self.next_monsters]
    }

    pub fn number_of_players(&self) -> (r: usize)
        ensures
            r == self.players@.len(),
    {
        self.players.len()
    }

    /// A game with no players, empty decks, no showdown, at the first turn.
    pub fn new() -> (r: Self)
        ensures
            r.is_fresh(),
            r.players@ == Seq::<Player>::empty(),
            r.showdown.is_empty(),
            r.turn.turn_number() == 0 && r.turn.round_number() == 0 && r.turn.active_player() == 0,
            r.draw@ == Seq::<Stack>::empty(),
            r.draw.spec == (DeckSpec { visibility: VisibilitySpec::spec_summary(), path: DeckPath::Draw }),
            r.discard@ == Seq::<Stack>::empty(),
            r.discard.spec == (DeckSpec { visibility: VisibilitySpec::spec_summary(), path: DeckPath::Discard }),
            r.monsters@ == Seq::<Stack>::empty(),
            r.monsters.spec == (DeckSpec { visibility: VisibilitySpec::spec_visible(), path: DeckPath::ActiveMonsters }),
            r.leaders@ == Seq::<Stack>::empty(),
            r.leaders.spec == (DeckSpec { visibility: VisibilitySpec::spec_invisible(), path: DeckPath::PartyLeaders }),
            r.next_monsters@ == Seq::<Stack>::empty(),
            r.next_monsters.spec == (DeckSpec { visibility: VisibilitySpec::spec_summary(), path: DeckPath::NextMonsters }),
    {
        Game {
            players: Vec::new(),
            showdown: CurrentShowdown::new(),
            draw: Deck::new(DeckSpec { visibility: VisibilitySpec::summary(), path: DeckPath::Draw }),
            discard: Deck::new(DeckSpec { visibility: VisibilitySpec::summary(), path: DeckPath::Discard }),
            monsters: Deck::new(DeckSpec { visibility: VisibilitySpec::visible(), path: DeckPath::ActiveMonsters }),
            leaders: Deck::new(DeckSpec { visibility: VisibilitySpec::invisible(), path: DeckPath::PartyLeaders }),
            next_monsters: Deck::new(DeckSpec { visibility: VisibilitySpec::summary(), path: DeckPath::NextMonsters }),
            turn: Turn::default(),
        }
    }

    /// The card at a path, if there is one.
    pub fn maybe_card(&self, card_path: CardPath) -> (r: Option<&Card>)
        requires
            self.valid_card_path(card_path),
        ensures
            r is Some <==> self.spec_has_card_at(card_path),
            card_path !is ModifyingCardIn ==> r == match self.spec_card_at(card_path) {
                Some(c) => Some(&c),
                None => None::<&Card>,
            },
            card_path matches CardPath::ModifyingCardIn(_, _, m) ==> (r is Some ==> r.unwrap().id == m),
    {
        match card_path {
            CardPath::TopCardIn(deck_path, card_id) => self.deck(deck_path).card(card_id),
            CardPath::ModifyingCardIn(deck_path, top_card_id, modifier_card_id) => {
                self.deck(deck_path).modifier(top_card_id, modifier_card_id)
            },
            CardPath::Leader(player_index, _) => Some(&self.players[player_index].leader),
        }
    }

    /// The card at a path, which must be there.
    pub fn card(&self, card_path: CardPath) -> (r: &Card)
        requires
            self.valid_card_path(card_path),
            self.spec_has_card_at(card_path),
        ensures
            card_path !is ModifyingCardIn ==> Some(*r) == self.spec_card_at(card_path),
            card_path matches CardPath::ModifyingCardIn(_, _, m) ==> r.id == m,
    {
        match self.maybe_card(card_path) {
            Some(card) => card,
            None => {
                proof { assert(false); }
                &self.players[0].leader
            },
        }
    }

    /// A card with the id: the top card of a stack in a deck, or a player's leader.
    pub fn find_card(&self, card_id: ids::CardId) -> (r: Option<&Card>)
        ensures
            r is Some <==> self.spec_has_card(card_id),
            r is Some ==> r.unwrap().id == card_id,
    {
        let decks = self.decks();
        let mut k: usize = 0;
        while k < 5
            invariant
                k <= 5,
                *decks[0] == self.draw,
                *decks[1] == self.discard,
                *decks[2] == self.monsters,
                *decks[3] == self.leaders,
                *decks[4] == self.next_monsters,
                forall|j: int| 0 <= j < k ==> top_position((*decks[j])@, card_id) is None,
            decreases 5 - k,
        {
            if let Some(card) = decks[k].card(card_id) {
                proof { crate::state::deck::lemma_top_position_id(decks[k as int]@, card_id); }
                return Some(card);
            }
            k = k + 1;
        }
        let mut i: usize = 0;
        while i < self.players.len()
            invariant
                i <= self.players@.len(),
                !(top_position(self.draw@, card_id) is Some),
                !(top_position(self.discard@, card_id) is Some),
                !(top_position(self.monsters@, card_id) is Some),
                !(top_position(self.leaders@, card_id) is Some),
                !(top_position(self.next_monsters@, card_id) is Some),
                forall|j: int| 0 <= j < i ==> {
                    &&& (#[trigger] self.players@[j]).leader.id != card_id
                    &&& top_position(self.players@[j].hand@, card_id) is None
                    &&& top_position(self.players@[j].party@, card_id) is None
                    &&& top_position(self.players@[j].slain_monsters@, card_id) is None
                },
            decreases self.players@.len() - i,
        {
            let player = &self.players[i];
            if player.leader.id == card_id {
                return Some(&player.leader);
            }
            if let Some(card) = player.hand.card(card_id) {
                proof { crate::state::deck::lemma_top_position_id(player.hand@, card_id); }
                return Some(card);
            }
            if let Some(card) = player.party.card(card_id) {
                proof { crate::state::deck::lemma_top_position_id(player.party@, card_id); }
                return Some(card);
            }
            if let Some(card) = player.slain_monsters.card(card_id) {
                proof { crate::state::deck::lemma_top_position_id(player.slain_monsters@, card_id); }
                return Some(card);
            }
            i = i + 1;
        }
        None
    }

    /// The player whose turn it is.
    pub fn current_player(&self) -> (r: &Player)
        requires
            self.turn.active_player() < self.players@.len(),
        ensures
            *r == self.players@[self.turn.active_player() as int],
    {
        &self.players[self.turn.active_player_index()]
    }

    /// The player whose turn it is, to change.
    pub fn current_player_mut(&mut self) -> (r: &mut Player)
        requires
            old(self).turn.active_player() < old(self).players@.len(),
        ensures
            *r == old(self).players@[old(self).turn.active_player() as int],
            final(self).players@ == old(self).players@.update(old(self).turn.active_player() as int, *final(r)),
            final(self).turn == old(self).turn,
            final(self).showdown == old(self).showdown,
            final(self).draw == old(self).draw,
            final(self).discard == old(self).discard,
            final(self).monsters == old(self).monsters,
            final(self).leaders == old(self).leaders,
            final(self).next_monsters == old(self).next_monsters,
    {
        let i = self.turn.active_player_index();
        &mut self.players[i]
    }

    /// Takes the first task of a player out of their queue.
    pub fn take_current_task(&mut self, player_index: ids::PlayerIndex) -> (r: Option<PlayerTask>)
        requires
            player_index < old(self).players@.len(),
        ensures
            final(self).players@.len() == old(self).players@.len(),
            old(self).players@[player_index as int].tasks.queue().len() == 0 ==> r is None
                && final(self).players@[player_index as int].tasks.queue() == old(self).players@[player_index as int].tasks.queue(),
            old(self).players@[player_index as int].tasks.queue().len() > 0 ==> r == Some(old(self).players@[player_index as int].tasks.queue()[0])
                && final(self).players@[player_index as int].tasks.queue() == old(self).players@[player_index as int].tasks.queue().drop_first(),
            !final(self).players@[player_index as int].tasks.has_current(),
            !final(self).players@[player_index as int].tasks.has_prepended(),
            final(self).players@[player_index as int].tasks.well_formed() == old(self).players@[player_index as int].tasks.well_formed(),
            final(self).players@[player_index as int].tasks.player_values() == old(self).players@[player_index as int].tasks.player_values(),
            final(self).players@[player_index as int].tasks.card_values() == old(self).players@[player_index as int].tasks.card_values(),
            final(self).players@[player_index as int] == (Player { tasks: final(self).players@[player_index as int].tasks, ..old(self).players@[player_index as int] }),
            forall|j: int| 0 <= j < old(self).players@.len() && j != player_index ==> #[trigger] final(self).players@[j] == old(self).players@[j],
            final(self).turn == old(self).turn,
            final(self).showdown == old(self).showdown,
            final(self).draw == old(self).draw,
            final(self).discard == old(self).discard,
            final(self).monsters == old(self).monsters,
            final(self).leaders == old(self).leaders,
            final(self).next_monsters == old(self).next_monsters,
    {
        self.players[player_index].take_current_task()
    }

    /// Whether the path names a deck of this game.
    pub fn is_valid_path(&self, path: DeckPath) -> (r: bool)
        ensures
            r == self.valid_path(path),
    {
        match path.get_player_index() {
            Some(i) => i < self.players.len(),
            None => true,
        }
    }

    /// The deck at a path.
    pub fn deck(&self, deck_path: DeckPath) -> (r: &Deck)
        requires
            self.valid_path(deck_path),
        ensures
            *r == self.spec_deck(deck_path),
    {
        match deck_path {
            DeckPath::Draw => &self.draw,
            DeckPath::Discard => &self.discard,
            DeckPath::PartyLeaders => &self.leaders,
            DeckPath::ActiveMonsters => &self.monsters,
            DeckPath::NextMonsters => &self.next_monsters,
            DeckPath::Hand(index) => &self.players[index].hand,
            DeckPath::Party(index) => &self.players[index].party,
            DeckPath::SlainMonsters(index) => &self.players[index].slain_monsters,
        }
    }

    /// The deck at a path, to change.
    pub fn deck_mut(&mut self, deck_path: DeckPath) -> (r: &mut Deck)
        requires
            old(self).valid_path(deck_path),
        ensures
            *r == old(self).spec_deck(deck_path),
            final(self).replaces_deck(*old(self), deck_path, *final(r)),
    {
        match deck_path {
            DeckPath::Draw => &mut self.draw,
            DeckPath::Discard => &mut self.discard,
            DeckPath::PartyLeaders => &mut self.leaders,
            DeckPath::ActiveMonsters => &mut self.monsters,
            DeckPath::NextMonsters => &mut self.next_monsters,
            DeckPath::Hand(index) => &mut self.players[index].hand,
            DeckPath::Party(index) => &mut self.players[index].party,
            DeckPath::SlainMonsters(index) => &mut self.players[index].slain_monsters,
        }
    }

    /// Moves the card with the id (with what is stacked under it, if it tops a stack) from
    /// the source deck to the bottom of the destination deck.
    ///
    /// Fails, changing nothing, where the source deck does not hold the card.
    pub fn move_card(&mut self, source: DeckPath, destination: DeckPath, card_id: ids::CardId) -> (r: SlayResult<()>)
        requires
            old(self).valid_path(source),
            old(self).valid_path(destination),
        ensures
            r is Err <==> (top_position(old(self).spec_deck(source)@, card_id) is None
                && modifier_position(old(self).spec_deck(source)@, card_id) is None),
            r is Err ==> forall|p: DeckPath| old(self).valid_path(p) ==> #[trigger] final(self).spec_deck(p)@ == old(self).spec_deck(p)@,
            r is Ok ==> final(self).moved_card(*old(self), source, destination, card_id),
            forall|p: DeckPath| old(self).valid_path(p) ==> #[trigger] final(self).spec_deck(p).spec == old(self).spec_deck(p).spec,
            forall|p: DeckPath| p != source && p != destination && old(self).valid_path(p) ==> #[trigger] final(self).spec_deck(p) == old(self).spec_deck(p),
            final(self).players@.len() == old(self).players@.len(),
            forall|i: int| 0 <= i < old(self).players@.len() ==> #[trigger] final(self).players@[i] == (Player {
                hand: final(self).players@[i].hand,
                party: final(self).players@[i].party,
                slain_monsters: final(self).players@[i].slain_monsters,
                ..old(self).players@[i]
            }),
            final(self).turn == old(self).turn,
            final(self).showdown == old(self).showdown,
    {
        let ghost before = *self;
        let taken = self.deck_mut(source).take_card(card_id);
        proof {
            lemma_replaced_decks(*self, before, source, self.spec_deck(source));
        }
        let stack = match taken {
            Ok(stack) => stack,
            Err(e) => {
                return Err(e);
            },
        };
        let ghost middle = *self;
        self.deck_mut(destination).add(stack);
        proof {
            lemma_replaced_decks(*self, middle, destination, self.spec_deck(destination));
            assert forall|p: DeckPath| before.valid_path(p) implies #[trigger] self.spec_deck(p).spec == before.spec_deck(p).spec by {
                assert(middle.spec_deck(p).spec == before.spec_deck(p).spec);
            }
            assert(stack.top.id == card_id) by {
                match top_position(before.spec_deck(source)@, card_id) {
                    Some(i) => { crate::state::deck::lemma_top_position_id(before.spec_deck(source)@, card_id); },
                    None => { crate::state::deck::lemma_modifier_position_id(before.spec_deck(source)@, card_id); },
                }
            }
            let rest = middle.spec_deck(destination);
            assert(self.spec_deck(destination)@ == rest@.push(stack));
            vstd::seq_lib::lemma_multiset_commutative(card_ids(rest@), stack_card_ids(stack));
            let taken_ids = stack_card_ids(stack).to_multiset();
            if source != destination {
                let a = card_ids(self.spec_deck(source)@).to_multiset().add(card_ids(self.spec_deck(destination)@).to_multiset());
                let b = card_ids(before.spec_deck(source)@).to_multiset().add(card_ids(before.spec_deck(destination)@).to_multiset());
                assert(rest == before.spec_deck(destination));
                assert(self.spec_deck(source) == middle.spec_deck(source));
                assert forall|v: ids::CardId| #[trigger] a.count(v) == b.count(v) by {}
                assert(a =~= b);
            } else {
                let a = card_ids(self.spec_deck(source)@).to_multiset();
                let b = card_ids(before.spec_deck(source)@).to_multiset();
                assert forall|v: ids::CardId| #[trigger] a.count(v) == b.count(v) by {}
                assert(a =~= b);
            }
        }
        Ok(())
    }

    /// Makes it the given player's turn.
    pub fn set_active_player(&mut self, player_index: ids::PlayerIndex)
        ensures
            final(self).turn.active_player() == player_index,
            final(self).turn.turn_number() == old(self).turn.turn_number(),
            final(self).turn.round_number() == old(self).turn.round_number(),
            final(self).players@ == old(self).players@,
            final(self).showdown == old(self).showdown,
            final(self).draw == old(self).draw,
            final(self).discard == old(self).discard,
            final(self).monsters == old(self).monsters,
            final(self).leaders == old(self).leaders,
            final(self).next_monsters == old(self).next_monsters,
    {
        self.turn.set_active_player(player_index);
    }

    pub fn get_turn(&self) -> (r: Turn)
        ensures
            r == self.turn,
    {
        self.turn
    }

    /// Where the draw pile holds fewer than `number_to_draw` stacks, puts the discard pile under it.
    pub fn replentish_for(&mut self, number_to_draw: usize)
        ensures
            old(self).draw@.len() >= number_to_draw ==> *final(self) == *old(self),
            old(self).draw@.len() < number_to_draw ==> {
                &&& final(self).draw@ == old(self).draw@ + old(self).discard@
                &&& final(self).discard@ == Seq::<Stack>::empty()
            },
            final(self).draw.spec == old(self).draw.spec,
            final(self).discard.spec == old(self).discard.spec,
            final(self).players@ == old(self).players@,
            final(self).turn == old(self).turn,
            final(self).showdown == old(self).showdown,
            final(self).monsters == old(self).monsters,
            final(self).leaders == old(self).leaders,
            final(self).next_monsters == old(self).next_monsters,
    {
        if self.draw.num_top_cards() >= number_to_draw {
            return;
        }
        let n = self.discard.num_top_cards();
        let drained = self.discard.drain(0, n);
        assert(drained@ =~= old(self).discard@);
        assert(self.discard@ =~= Seq::<Stack>::empty());
        self.draw.extend(drained);
    }

    /// The player recorded under a parameter name by the tasks of a player.
    pub fn player_param(&self, player_index: ids::PlayerIndex, param: &TaskParamName) -> (r: SlayResult<ids::PlayerIndex>)
        requires
            player_index < self.players@.len(),
            self.players@[player_index as int].tasks.well_formed(),
        ensures
            r is Ok <==> self.players@[player_index as int].tasks.player_values().dom().contains(*param),
            r is Ok ==> r == Ok::<ids::PlayerIndex, SlayError>(self.players@[player_index as int].tasks.player_values()[*param]),
    {
        match self.players[player_index].tasks.get_player_value(param) {
            Some(value) => Ok(value),
            None => Err(SlayError::new("Missing required player parameter.")),
        }
    }

    /// The card recorded under a parameter name by the tasks of a player.
    pub fn card_param(&self, player_index: ids::PlayerIndex, param: &TaskParamName) -> (r: SlayResult<Option<ids::CardId>>)
        requires
            player_index < self.players@.len(),
            self.players@[player_index as int].tasks.well_formed(),
        ensures
            r is Ok <==> self.players@[player_index as int].tasks.card_values().dom().contains(*param),
            r is Ok ==> r == Ok::<Option<ids::CardId>, SlayError>(self.players@[player_index as int].tasks.card_values()[*param]),
    {
        match self.players[player_index].tasks.get_card_value(param) {
            Some(value) => Ok(value),
            None => Err(SlayError::new("Missing required card parameter.")),
        }
    }

    /// The indices of the players whose party is not empty, in order.
    pub fn players_with_stacks(&self) -> (r: Vec<ids::PlayerIndex>)
        ensures
            r@ == self.players@.filter(|p: Player| p.party@.len() > 0).map_values(|p: Player| p.player_index),
    {
        let mut r: Vec<ids::PlayerIndex> = Vec::new();
        let mut i: usize = 0;
        while i < self.players.len()
            invariant
                i <= self.players@.len(),
                r@ == self.players@.take(i as int).filter(|p: Player| p.party@.len() > 0).map_values(|p: Player| p.player_index),
            decreases self.players@.len() - i,
        {
            let ghost prefix = self.players@.take(i as int);
            proof {
                assert(self.players@.take(i + 1).drop_last() =~= prefix);
                reveal_with_fuel(Seq::filter, 1);
            }
            if self.players[i].party.num_top_cards() > 0 {
                r.push(self.players[i].player_index);
            }
            i = i + 1;
            proof {
                let f = |p: Player| p.party@.len() > 0;
                let g = |p: Player| p.player_index;
                assert(self.players@.take(i as int).filter(f) =~= prefix.filter(f) + (if f(self.players@[i - 1]) {
                    seq![self.players@[i - 1]]
                } else {
                    Seq::empty()
                }));
                assert(r@ =~= self.players@.take(i as int).filter(f).map_values(g));
            }
        }
        assert(self.players@.take(i as int) =~= self.players@);
        r
    }

    /// Whether the given player played the card this turn (never, where no player is given).
    pub fn was_card_played(&self, player_index: Option<usize>, card_id: ids::CardId) -> (r: bool)
        requires
            player_index is Some ==> player_index.unwrap() < self.players@.len(),
        ensures
            r == self.spec_was_card_played(player_index, card_id),
    {
        match player_index {
            Some(player_index) => self.players[player_index].was_card_played(&card_id),
            None => false,
        }
    }

    /// What a player knows of the game from the start: every player's name and leader.
    pub fn to_statics(&self, player_index: ids::PlayerIndex) -> (r: GameStaticInformation)
        ensures
            r.player_index == player_index,
            r.players@.len() == self.players@.len(),
            forall|i: int| 0 <= i < self.players@.len() ==> {
                &&& (#[trigger] r.players@[i]).name@ == self.players@[i].name@
                &&& r.players@[i].leader == self.players@[i].leader
            },
    {
        let mut players: Vec<PlayerStaticInformation> = Vec::new();
        let mut i: usize = 0;
        while i < self.players.len()
            invariant
                i <= self.players@.len(),
                players@.len() == i,
                forall|j: int| 0 <= j < i ==> {
                    &&& (#[trigger] players@[j]).name@ == self.players@[j].name@
                    &&& players@[j].leader == self.players@[j].leader
                },
            decreases self.players@.len() - i,
        {
            let name = self.players[i].name.clone();
            players.push(PlayerStaticInformation { name, leader: self.players[i].leader });
            i = i + 1;
        }
        GameStaticInformation { players, player_index }
    }
}

impl Game {
    /// Whether the game has no players and empty decks, as a new game has.
    pub open spec fn is_fresh(self) -> bool {
        &&& self.players@.len() == 0
        &&& self.draw@.len() == 0
        &&& self.discard@.len() == 0
        &&& self.monsters@.len() == 0
        &&& self.leaders@.len() == 0
        &&& self.next_monsters@.len() == 0
    }

    /// Whether the game can be shown to its players: each player sits at their own index,
    /// their decks are those a player is created with, their slain monsters are monster
    /// cards, their action points fit, and every stored showdown tracks the players.
    pub open spec fn viewable(self) -> bool {
        &&& forall|i: int| 0 <= i < self.players@.len() ==> {
            let player = #[trigger] self.players@[i];
            &&& player.player_index == i
            &&& player.slain_are_monsters()
            &&& total_action_points(player.slain_monsters@) <= u32::MAX
            &&& player.hand.spec.visibility == VisibilitySpec::spec_summary()
            &&& player.party.spec.visibility == VisibilitySpec::spec_visible()
            &&& player.slain_monsters.spec.visibility == VisibilitySpec::spec_visible()
        }
        &&& self.draw.spec.visibility == VisibilitySpec::spec_summary()
        &&& self.discard.spec.visibility == VisibilitySpec::spec_summary()
        &&& self.monsters.spec.visibility == VisibilitySpec::spec_visible()
        &&& self.leaders.spec.visibility == VisibilitySpec::spec_invisible()
        &&& self.next_monsters.spec.visibility == VisibilitySpec::spec_summary()
        &&& self.showdown.roll matches Some(roll) ==> roll.completion_tracker is Some
        &&& self.showdown.offer matches Some(offer) ==> offer.completion_tracker is Some
        &&& self.showdown.challenge matches Some(challenge) ==> challenge.completion_tracker is Some
    }

    /// The game as a player (or, with no player, a spectator) sees it: every player, the
    /// shared decks that anyone may look at, the viewer's decision, the turn and the showdown.
    pub fn to_player_perspective(&self, viewing_player: Option<ids::PlayerIndex>) -> (r: GamePerspective)
        requires
            self.viewable(),
            viewing_player matches Some(p) ==> p < self.players@.len(),
        ensures
            shows_game(r, *self, viewing_player),
    {
        let mut players: Vec<PlayerPerspective> = Vec::new();
        let mut i: usize = 0;
        while i < self.players.len()
            invariant
                i <= self.players@.len(),
                self.viewable(),
                players@.len() == i,
                forall|k: int| 0 <= k < i ==> {
                    &&& (#[trigger] players@[k]).player_index == k
                    &&& players@[k].remaining_action_points == self.players@[k].action_points()
                    &&& players@[k].total_action_points == total_action_points(self.players@[k].slain_monsters@)
                    &&& players@[k].decks@.len() == 3
                    &&& players@[k].decks@[0].stacks is Some == (viewing_player == Some(k as usize))
                    &&& players@[k].decks@[0].path == self.players@[k].hand.spec.path
                    &&& players@[k].decks@[0].count == self.players@[k].hand@.len()
                    &&& players@[k].decks@[0].stacks matches Some(stacks) ==> self.players@[k].hand.spec_to_stack_perspectives(*self, Some(k as usize), stacks@)
                    &&& players@[k].decks@[1].path == self.players@[k].party.spec.path
                    &&& players@[k].decks@[1].count == self.players@[k].party@.len()
                    &&& players@[k].decks@[1].stacks matches Some(stacks) && self.players@[k].party.spec_to_stack_perspectives(*self, Some(k as usize), stacks@)
                    &&& players@[k].decks@[2].path == self.players@[k].slain_monsters.spec.path
                    &&& players@[k].decks@[2].count == self.players@[k].slain_monsters@.len()
                    &&& players@[k].decks@[2].stacks matches Some(stacks) && self.players@[k].slain_monsters.spec_to_stack_perspectives(*self, Some(k as usize), stacks@)
                },
            decreases self.players@.len() - i,
        {
            let player = &self.players[i];
            let perspective = get_perspective(player.player_index, viewing_player);
            players.push(player.to_perspective(self, &perspective));
            i = i + 1;
        }
        let mut decks: Vec<DeckPerspective> = Vec::new();
        decks.push(self.draw.to_spectator_perspective(self, None));
        decks.push(self.discard.to_spectator_perspective(self, None));
        decks.push(self.monsters.to_spectator_perspective(self, None));
        decks.push(self.next_monsters.to_spectator_perspective(self, None));
        let choices = match viewing_player {
            Some(player_index) => match &self.players[player_index].choices {
                Some(choices) => Some(choices.to_perspective()),
                None => None,
            },
            None => None,
        };
        GamePerspective {
            players,
            decks,
            turn: self.get_turn(),
            choices,
            roll: match self.showdown.get_roll() {
                Some(roll) => Some(roll.to_perspective()),
                None => None,
            },
            offer: match self.showdown.get_offer() {
                Some(offer) => Some(offer.to_perspective()),
                None => None,
            },
            challenge: match self.showdown.get_challenge() {
                Some(challenge) => Some(challenge.to_perspective()),
                None => None,
            },
        }
    }
}

impl Default for Game {
    fn default() -> (r: Self)
        ensures
            r.players@ == Seq::<Player>::empty(),
            r.showdown.is_empty(),
            r.draw@ == Seq::<Stack>::empty(),
            r.discard@ == Seq::<Stack>::empty(),
            r.monsters@ == Seq::<Stack>::empty(),
            r.leaders@ == Seq::<Stack>::empty(),
            r.next_monsters@ == Seq::<Stack>::empty(),
    {
        Self::new()
    }
}

} // verus!
