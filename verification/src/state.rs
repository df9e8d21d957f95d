//! The voting state machine: folding per-stream mute flags into one
//! aggregate `State`.

use vstd::prelude::*;

verus! {

/// A logical event produced by the hardware-facing side: a button
/// press, a button release, or a device (re)connection.
#[derive(Debug, Clone, Copy, PartialEq, Eq, Structural)]
pub enum Event {
    Press,
    Release,
    Hotplug,
}

/// The aggregate mute state over all tracked streams.
///
/// `Silent`: no streams tracked. `Muted` / `Unmuted`: unanimous
/// agreement. `Confused`: disagreement among the tracked streams.
#[derive(Debug, Clone, Copy, PartialEq, Eq, Structural)]
pub enum State {
    Silent,
    Muted,
    Unmuted,
    Confused,
}

/// The single unit of communication into the dispatcher: either a
/// fresh aggregate state or a button/hotplug event.
#[derive(Debug, Clone, Copy, PartialEq, Eq, Structural)]
pub enum Message {
    State(State),
    Event(Event),
}

/// One step of the vote: the transition table of the aggregator.
pub open spec fn vote_step(state: State, mute: bool) -> State {
    match state {
        State::Silent => if mute { State::Muted } else { State::Unmuted },
        State::Muted => if mute { State::Muted } else { State::Confused },
        State::Unmuted => if mute { State::Confused } else { State::Unmuted },
        State::Confused => State::Confused,
    }
}

/// Left fold of `vote_step` over a sequence of mute flags, starting
/// from `Silent`.
pub open spec fn vote_fold(flags: Seq<bool>) -> State
    decreases flags.len(),
{
    if flags.len() == 0 {
        State::Silent
    } else {
        vote_step(vote_fold(flags.drop_last()), flags.last())
    }
}

/// Direct characterization of the vote: empty is `Silent`, unanimous
/// agreement is `Muted` or `Unmuted`, disagreement is `Confused`.
pub open spec fn vote_of(flags: Seq<bool>) -> State {
    if flags.len() == 0 {
        State::Silent
    } else if !flags.contains(false) {
        State::Muted
    } else if !flags.contains(true) {
        State::Unmuted
    } else {
        State::Confused
    }
}

/// The fold over the transition table computes exactly the direct
/// characterization.
pub proof fn lemma_vote_fold_is_vote_of(flags: Seq<bool>)
    ensures
        vote_fold(flags) == vote_of(flags),
    decreases flags.len(),
{
    if flags.len() > 0 {
        lemma_vote_fold_is_vote_of(flags.drop_last());
        assert(flags.drop_last().contains(false) ==> flags.contains(false)) by {
            if flags.drop_last().contains(false) {
                let i = choose|i: int|
                    0 <= i < flags.drop_last().len() && flags.drop_last()[i] == false;
                assert(flags[i] == false);
            }
        }
        assert(flags.drop_last().contains(true) ==> flags.contains(true)) by {
            if flags.drop_last().contains(true) {
                let i = choose|i: int|
                    0 <= i < flags.drop_last().len() && flags.drop_last()[i] == true;
                assert(flags[i] == true);
            }
        }
        if flags.contains(false) && !flags.drop_last().contains(false) {
            let i = choose|i: int| 0 <= i < flags.len() && flags[i] == false;
            if i < flags.len() - 1 {
                assert(flags.drop_last()[i] == false);
                assert(flags.drop_last().contains(false));
            }
            assert(flags.last() == false);
        }
        if flags.contains(true) && !flags.drop_last().contains(true) {
            let i = choose|i: int| 0 <= i < flags.len() && flags[i] == true;
            if i < flags.len() - 1 {
                assert(flags.drop_last()[i] == true);
                assert(flags.drop_last().contains(true));
            }
            assert(flags.last() == true);
        }
        if !flags.contains(false) {
            assert(flags.last() == true);
        }
        if !flags.contains(true) {
            assert(flags.last() == false);
        }
    }
}

/// The vote is order-independent: two sequences holding the same
/// flags in any order (the same multiset) fold to the same `State`.
pub proof fn lemma_vote_order_independent(a: Seq<bool>, b: Seq<bool>)
    requires
        a.to_multiset() == b.to_multiset(),
    ensures
        vote_fold(a) == vote_fold(b),
{
    broadcast use vstd::seq_lib::group_to_multiset_ensures;

    lemma_vote_fold_is_vote_of(a);
    lemma_vote_fold_is_vote_of(b);
    assert(a.len() == a.to_multiset().len());
    assert(b.len() == b.to_multiset().len());
    assert(a.contains(false) <==> a.to_multiset().count(false) > 0);
    assert(b.contains(false) <==> b.to_multiset().count(false) > 0);
    assert(a.contains(true) <==> a.to_multiset().count(true) > 0);
    assert(b.contains(true) <==> b.to_multiset().count(true) > 0);
}

/// What concrete mute value a state stands for: `Muted` and `Unmuted`
/// are concrete, `Silent` and `Confused` are not.
pub open spec fn spec_is_muted(state: State) -> Option<bool> {
    match state {
        State::Muted => Some(true),
        State::Unmuted => Some(false),
        _ => None,
    }
}

/// The target state a button release drives the system towards:
/// `Muted` flips to `Unmuted`, `Silent` stays `Silent` (no streams, no
/// effect), anything else becomes `Muted`.
pub open spec fn next_target(state: State) -> State {
    match state {
        State::Silent => State::Silent,
        State::Muted => State::Unmuted,
        _ => State::Muted,
    }
}

impl State {
    /// Folds a collection of per-stream mute flags into the aggregate
    /// state, starting from `Silent`.
    pub fn from_bools(flags: &Vec<bool>) -> (state: State)
        ensures
            state == vote_fold(flags@),
            state == vote_of(flags@),
    {
        let mut state = State::Silent;
        let mut i: usize = 0;
        while i < flags.len()
            invariant
                0 <= i <= flags.len(),
                state == vote_fold(flags@.take(i as int)),
            decreases flags.len() - i,
        {
            let mute = flags[i];
            state = match state {
                State::Silent => if mute { State::Muted } else { State::Unmuted },
                State::Muted => if mute { State::Muted } else { State::Confused },
                State::Unmuted => if mute { State::Confused } else { State::Unmuted },
                State::Confused => State::Confused,
            };
            proof {
                assert(flags@.take(i + 1 as int).drop_last() =~= flags@.take(i as int));
                assert(flags@.take(i + 1 as int).last() == flags@[i as int]);
            }
            i = i + 1;
        }
        proof {
            assert(flags@.take(flags@.len() as int) =~= flags@);
            lemma_vote_fold_is_vote_of(flags@);
        }
        state
    }

    /// The concrete mute value this state stands for, if any.
    pub fn is_muted(&self) -> (r: Option<bool>)
        ensures
            r == spec_is_muted(*self),
    {
        match self {
            State::Muted => Some(true),
            State::Unmuted => Some(false),
            _ => None,
        }
    }
}

} // verus!
