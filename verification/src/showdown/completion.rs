use vstd::prelude::*;

use crate::deadlines::Timeline;
use crate::ids;

verus! {

/// How far a player is with a showdown.
#[derive(Debug, Clone, Copy, PartialEq, Eq, Structural)]
pub enum Completion {
    Thinking,
    DoneUntilModification,
    AllDone,
}

pub type RollCompletion = Completion;

impl Completion {
    pub open spec fn spec_done(self) -> bool {
        !(self is Thinking)
    }

    pub open spec fn spec_offer_on_modify(self) -> bool {
        !(self is AllDone)
    }

    pub fn done(&self) -> (r: bool)
        ensures
            r == self.spec_done(),
    {
        match self {
            Self::Thinking => false,
            Self::DoneUntilModification => true,
            Self::AllDone => true,
        }
    }

    pub fn offer_on_modify(&self) -> (r: bool)
        ensures
            r == self.spec_offer_on_modify(),
    {
        match self {
            Self::Thinking => true,
            Self::DoneUntilModification => true,
            Self::AllDone => false,
        }
    }
}

/// Where each player is with a showdown, and until when they may decide.
#[derive(Debug, Clone, PartialEq)]
pub struct CompletionTracker {
    pub completions: Vec<Completion>,
    pub timeline: Timeline,
}

impl CompletionTracker {
    /// Whether every player is done.
    pub open spec fn all_done(self) -> bool {
        forall|i: int| 0 <= i < self.completions@.len() ==> #[trigger] self.completions@[i].spec_done()
    }

    /// Every player starts out thinking.
    pub fn new(num_players: ids::PlayerIndex, timeline: Timeline) -> (r: Self)
        ensures
            r.completions@ == Seq::new(num_players as nat, |i: int| Completion::Thinking),
            r.timeline == timeline,
    {
        let mut completions: Vec<Completion> = Vec::new();
        let mut i: usize = 0;
        while i < num_players
            invariant
                i <= num_players,
                completions@ == Seq::new(i as nat, |j: int| Completion::Thinking),
            decreases num_players - i,
        {
            completions.push(Completion::Thinking);
            i = i + 1;
            assert(completions@ =~= Seq::new(i as nat, |j: int| Completion::Thinking));
        }
        Self { timeline, completions }
    }

    pub fn update_deadline(&mut self, new_timeline: Timeline)
        ensures
            final(self).completions@ == old(self).completions@,
            final(self).timeline == new_timeline,
    {
        self.timeline = new_timeline;
    }

    /// Whether every player is done, at time `now_millis`: either each has said so, or time is up.
    pub fn is_complete_at(&self, now_millis: u64) -> (r: bool)
        ensures
            r == (self.all_done() || now_millis >= self.timeline.end_millis()),
    {
        let mut i: usize = 0;
        let mut all: bool = true;
        while i < self.completions.len()
            invariant
                i <= self.completions@.len(),
                all == (forall|j: int| 0 <= j < i ==> #[trigger] self.completions@[j].spec_done()),
            decreases self.completions@.len() - i,
        {
            all = all && self.completions[i].done();
            i = i + 1;
        }
        all || self.timeline.is_complete_at(now_millis)
    }

    /// Whether every player is done now; when each player has said so, the answer is `true`
    /// whatever the clock reads.
    pub fn is_complete(&self) -> (r: bool)
        ensures
            self.all_done() ==> r,
    {
        self.is_complete_at(crate::deadlines::current_time_millis())
    }

    pub fn set_player_completion(&mut self, player_index: ids::PlayerIndex, completion: Completion)
        requires
            player_index < old(self).completions@.len(),
        ensures
            final(self).completions@ == old(self).completions@.update(player_index as int, completion),
            final(self).timeline == old(self).timeline,
    {
        self.completions.set(player_index, completion);
    }

    /// A player who has not said they are all done is asked again after each modification.
    pub fn should_offer_modifications_again(&self, player_index: ids::PlayerIndex) -> (r: bool)
        requires
            player_index < self.completions@.len(),
        ensures
            r == self.completions@[player_index as int].spec_offer_on_modify(),
    {
        self.completions[player_index].offer_on_modify()
    }

    pub fn reset_timeline(&mut self)
        ensures
            final(self).completions@ == old(self).completions@,
            final(self).timeline.duration_millis == old(self).timeline.duration_millis,
    {
        self.timeline.reset();
    }
}

/// Where `n` players are with a showdown that started with everyone thinking, once the
/// updates, each a player and how far they are, have been made in order.
pub open spec fn completions_after(n: nat, updates: Seq<(ids::PlayerIndex, Completion)>) -> Seq<Completion>
    decreases updates.len(),
{
    if updates.len() == 0 {
        Seq::new(n, |i: int| Completion::Thinking)
    } else {
        completions_after(n, updates.drop_last()).update(updates.last().0 as int, updates.last().1)
    }
}

/// The last of the updates made for the player, if any.
pub open spec fn last_update(updates: Seq<(ids::PlayerIndex, Completion)>, player_index: int) -> Option<Completion>
    decreases updates.len(),
{
    if updates.len() == 0 {
        None
    } else if updates.last().0 as int == player_index {
        Some(updates.last().1)
    } else {
        last_update(updates.drop_last(), player_index)
    }
}

/// Whether an update says that the player is done.
pub open spec fn said_done(update: Option<Completion>) -> bool {
    match update {
        Some(c) => c.spec_done(),
        None => false,
    }
}

/// Whatever updates are made, in whatever order, to a tracker of `n` players that started with
/// everyone thinking (`CompletionTracker::new`, then `set_player_completion` for each update):
/// it still tracks `n` players, each is where their last update put them (thinking where they
/// have none), and everyone is done exactly when each player's last update says they are done
/// (for good or until the next modification); `is_complete_at` then answers `true` at any time.
pub proof fn lemma_completions_after_updates(n: nat, updates: Seq<(ids::PlayerIndex, Completion)>, tracker: CompletionTracker)
    requires
        forall|k: int| 0 <= k < updates.len() ==> (#[trigger] updates[k]).0 < n,
        tracker.completions@ == completions_after(n, updates),
    ensures
        tracker.completions@.len() == n,
        forall|i: int| 0 <= i < n ==> #[trigger] tracker.completions@[i] == match last_update(updates, i) {
            Some(c) => c,
            None => Completion::Thinking,
        },
        tracker.all_done() <==> forall|i: int| 0 <= i < n ==> said_done(#[trigger] last_update(updates, i)),
{
    lemma_completions_after(n, updates);
    let c = tracker.completions@;
    if tracker.all_done() {
        assert forall|i: int| 0 <= i < n implies said_done(#[trigger] last_update(updates, i)) by {
            assert(c[i].spec_done());
        }
    }
    if forall|i: int| 0 <= i < n ==> said_done(#[trigger] last_update(updates, i)) {
        assert forall|i: int| 0 <= i < c.len() implies #[trigger] c[i].spec_done() by {
            assert(last_update(updates, i) is Some);
        }
    }
}

proof fn lemma_completions_after(n: nat, updates: Seq<(ids::PlayerIndex, Completion)>)
    requires
        forall|k: int| 0 <= k < updates.len() ==> (#[trigger] updates[k]).0 < n,
    ensures
        completions_after(n, updates).len() == n,
        forall|i: int| 0 <= i < n ==> #[trigger] completions_after(n, updates)[i] == match last_update(updates, i) {
            Some(c) => c,
            None => Completion::Thinking,
        },
    decreases updates.len(),
{
    if updates.len() > 0 {
        let rest = updates.drop_last();
        assert forall|k: int| 0 <= k < rest.len() implies (#[trigger] rest[k]).0 < n by {
            assert(rest[k] == updates[k]);
        }
        lemma_completions_after(n, rest);
        assert(updates[updates.len() - 1].0 < n);
    }
}

} // verus!
