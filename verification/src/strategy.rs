use vstd::prelude::*;

use crate::choices::{Choices, TasksChoice};
use crate::errors::{SlayError, SlayResult};
use crate::game_context::{random_ratio, GameBookKeeping};
use crate::ids;
use crate::state::game::Game;
use crate::state::player::Player;

verus! {

/// Whether the player has a decision with the option.
pub open spec fn offers(game: Game, player_index: int, choice_id: ids::ChoiceId) -> bool {
    &&& 0 <= player_index < game.players@.len()
    &&& game.players@[player_index].choices matches Some(choices) && choices.has_option(choice_id)
}

/// Whether a decision with at least one option is in front of the player.
pub open spec fn has_options(player: Player) -> bool {
    match player.choices {
        Some(choices) => choices.options@.len() > 0,
        None => false,
    }
}

/// Whether some player has a decision with at least one option.
pub open spec fn has_any_option(game: Game) -> bool {
    exists|i: int| 0 <= i < game.players@.len() && has_options(#[trigger] game.players@[i])
}

/// The options of one player, each with the player's index, in the order of their decision.
pub open spec fn player_options(player_index: ids::PlayerIndex, player: Player) -> Seq<(ids::PlayerIndex, ids::ChoiceId)> {
    match player.choices {
        Some(choices) => choices.options@.map_values(|option: TasksChoice| (player_index, option.choice_id)),
        None => Seq::empty(),
    }
}

/// Every option that the players are offered: player after player, each with the index of
/// the player.
pub open spec fn offered_options(players: Seq<Player>) -> Seq<(ids::PlayerIndex, ids::ChoiceId)>
    decreases players.len(),
{
    if players.len() == 0 {
        Seq::empty()
    } else {
        offered_options(players.drop_last()) + player_options((players.len() - 1) as ids::PlayerIndex, players.last())
    }
}

/// Where reservoir sampling ends, among the first `n` options, given for each option whether
/// it was drawn to replace the one kept so far: the last option drawn, or the first where
/// no later one was.
pub open spec fn kept_position(draws: Seq<bool>, n: int) -> int
    decreases n,
{
    if n <= 1 {
        0
    } else if draws[n - 1] {
        n - 1
    } else {
        kept_position(draws, n - 1)
    }
}

proof fn lemma_kept_position_bounded(draws: Seq<bool>, n: int)
    requires
        n >= 1,
    ensures
        0 <= kept_position(draws, n) < n,
    decreases n,
{
    if n > 1 {
        lemma_kept_position_bounded(draws, n - 1);
    }
}

proof fn lemma_offered_options_step(players: Seq<Player>, i: int)
    requires
        0 <= i < players.len(),
    ensures
        offered_options(players.take(i + 1)) == offered_options(players.take(i)) + player_options(i as ids::PlayerIndex, players[i]),
{
    assert(players.take(i + 1).drop_last() =~= players.take(i));
}

/// Each option offered belongs to a decision that its player has; there is one exactly where
/// some player has a decision with an option.
proof fn lemma_offered_options_belong(players: Seq<Player>)
    requires
        players.len() <= usize::MAX,
    ensures
        forall|k: int| 0 <= k < offered_options(players).len() ==> {
            let (p, c) = #[trigger] offered_options(players)[k];
            &&& p < players.len()
            &&& players[p as int].choices matches Some(choices) && choices.has_option(c)
        },
        offered_options(players).len() > 0 <==> exists|i: int| 0 <= i < players.len() && has_options(#[trigger] players[i]),
    decreases players.len(),
{
    if players.len() > 0 {
        let rest = players.drop_last();
        let last = (players.len() - 1) as ids::PlayerIndex;
        lemma_offered_options_belong(rest);
        let all = offered_options(players);
        let before = offered_options(rest);
        let own = player_options(last, players.last());
        assert(all == before + own);
        assert forall|k: int| 0 <= k < all.len() implies {
            let (p, c) = #[trigger] all[k];
            &&& p < players.len()
            &&& players[p as int].choices matches Some(choices) && choices.has_option(c)
        } by {
            if k < before.len() {
                assert(all[k] == before[k]);
                assert(players[before[k].0 as int] == rest[before[k].0 as int]);
            } else {
                assert(players.last().choices is Some);
                let choices = players.last().choices.unwrap();
                let j = k - before.len();
                assert(all[k] == own[j]);
                assert(own[j] == (last, choices.options@[j].choice_id));
                assert(choices.has_option(choices.options@[j].choice_id));
                assert(players[last as int] == players.last());
            }
        }
        if exists|i: int| 0 <= i < players.len() && has_options(#[trigger] players[i]) {
            let i = choose|i: int| 0 <= i < players.len() && has_options(#[trigger] players[i]);
            if i < rest.len() {
                assert(has_options(rest[i]));
            } else {
                assert(own.len() > 0);
            }
        }
        if all.len() > 0 {
            if before.len() > 0 {
                let i = choose|i: int| 0 <= i < rest.len() && has_options(#[trigger] rest[i]);
                assert(has_options(players[i]));
            } else {
                assert(has_options(players[players.len() - 1]));
            }
        }
    }
}

/// Every option that the players are offered, player after player (see `offered_options`).
pub fn list_offered_options(game: &Game) -> (r: Vec<(ids::PlayerIndex, ids::ChoiceId)>)
    ensures
        r@ == offered_options(game.players@),
{
    let mut r: Vec<(ids::PlayerIndex, ids::ChoiceId)> = Vec::new();
    let mut i: usize = 0;
    assert(game.players@.take(0) =~= Seq::<Player>::empty());
    while i < game.players.len()
        invariant
            i <= game.players@.len(),
            r@ == offered_options(game.players@.take(i as int)),
        decreases game.players@.len() - i,
    {
        proof {
            lemma_offered_options_step(game.players@, i as int);
        }
        match &game.players[i].choices {
            Some(choices) => {
                let ghost start = r@;
                let mut k: usize = 0;
                while k < choices.options.len()
                    invariant
                        k <= choices.options@.len(),
                        r@ == start + choices.options@.take(k as int).map_values(|option: TasksChoice| (i, option.choice_id)),
                    decreases choices.options@.len() - k,
                {
                    r.push((i, choices.options[k].get_id()));
                    k = k + 1;
                    assert(r@ =~= start + choices.options@.take(k as int).map_values(|option: TasksChoice| (i, option.choice_id)));
                }
                assert(choices.options@.take(k as int) =~= choices.options@);
            },
            None => {
                assert(r@ =~= offered_options(game.players@.take(i as int)) + Seq::<(ids::PlayerIndex, ids::ChoiceId)>::empty());
            },
        }
        i = i + 1;
    }
    assert(game.players@.take(i as int) =~= game.players@);
    r
}

/// The option that reservoir sampling keeps, given for each option whether it was drawn to
/// replace the one kept so far: the option at `kept_position`; none where there is none.
pub fn keep_drawn(options: &Vec<(ids::PlayerIndex, ids::ChoiceId)>, draws: &Vec<bool>) -> (r: Option<(ids::PlayerIndex, ids::ChoiceId)>)
    requires
        draws@.len() == options@.len(),
    ensures
        options@.len() == 0 ==> r is None,
        options@.len() > 0 ==> r == Some(options@[kept_position(draws@, options@.len() as int)]),
{
    let mut ret: Option<(ids::PlayerIndex, ids::ChoiceId)> = None;
    let mut k: usize = 0;
    while k < options.len()
        invariant
            k <= options@.len() == draws@.len(),
            k == 0 ==> ret is None,
            k > 0 ==> ret == Some(options@[kept_position(draws@, k as int)]),
        decreases options@.len() - k,
    {
        proof {
            if k > 0 {
                lemma_kept_position_bounded(draws@, k as int);
            }
        }
        if draws[k] || ret.is_none() {
            ret = Some(options[k]);
        }
        k = k + 1;
    }
    ret
}

/// Picks one option, among all the options that all players are offered, each with the same
/// chance (by reservoir sampling): the k-th option seen replaces the pick with chance 1/k.
///
/// Fails where no player is offered any option.  Whatever was drawn, the pick is the option
/// that `keep_drawn` keeps for some draws in which the first option is drawn.
pub fn pick_a_random_choice(context: &mut GameBookKeeping, game: &mut Game) -> (r: SlayResult<(ids::PlayerIndex, ids::ChoiceId)>)
    ensures
        *final(game) == *old(game),
        r is Err <==> !has_any_option(*old(game)),
        r is Err <==> offered_options(old(game).players@).len() == 0,
        r matches Ok(pick) ==> exists|draws: Seq<bool>| {
            &&& draws.len() == offered_options(old(game).players@).len()
            &&& draws[0]
            &&& pick == offered_options(old(game).players@)[#[trigger] kept_position(draws, draws.len() as int)]
        },
        r matches Ok((p, c)) ==> offers(*old(game), p as int, c),
{
    let options = list_offered_options(game);
    proof {
        assert(game.players.len() <= usize::MAX);
        lemma_offered_options_belong(game.players@);
    }
    let mut draws: Vec<bool> = Vec::new();
    let mut k: usize = 0;
    while k < options.len()
        invariant
            k <= options@.len(),
            draws@.len() == k,
            k > 0 ==> draws@[0],
        decreases options@.len() - k,
    {
        let count: u32 = if k < u32::MAX as usize { (k + 1) as u32 } else { u32::MAX };
        let keep = random_ratio(&mut context.rng, 1, count);
        draws.push(keep);
        k = k + 1;
    }
    match keep_drawn(&options, &draws) {
        Some(pick) => {
            proof {
                lemma_kept_position_bounded(draws@, draws@.len() as int);
                let k = kept_position(draws@, draws@.len() as int);
                assert(options@[k] == offered_options(game.players@)[k]);
            }
            Ok(pick)
        },
        None => Err(SlayError::new("No choices found.")),
    }
}

} // verus!
