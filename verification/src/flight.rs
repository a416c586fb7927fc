use vstd::prelude::*;

use crate::crumb::{cache_step, expiry_after, CacheActionView, CacheEventView, CrumbDataView};
use crate::yahoo_error::YahooErrorView;

verus! {

/// How far one caller has come on its way to a crumb.
pub enum Phase {
    /// The caller has not consulted the cache yet.
    Arriving,
    /// The caller found no fresh crumb and waits for the cache to be its own.
    Waiting,
    /// The caller has the cache to itself and runs an acquisition.
    Acquiring,
    /// The caller has its result.
    Served(Result<Seq<char>, YahooErrorView>),
}

/// The callers of one cache, seen together: the cache under its lock, who
/// has the cache to itself, how far each caller has come, and how many
/// acquisitions were started.
pub struct Callers {
    pub cache: Option<CrumbDataView>,
    pub holder: Option<int>,
    pub phases: Seq<Phase>,
    pub acquisitions: nat,
}

/// One step of one caller: which caller moves, at what time, and how the
/// acquisition ends if this step is the end of one.
pub struct Turn {
    pub caller: int,
    pub now: u64,
    pub outcome: Result<Seq<char>, YahooErrorView>,
}

/// The callers before any of them has moved: `count` callers at an empty
/// cache.
pub open spec fn gathering(count: nat) -> Callers {
    Callers {
        cache: None,
        holder: None,
        phases: Seq::new(count, |i: int| Phase::Arriving),
        acquisitions: 0,
    }
}

/// The callers with `caller` in the phase `phase`.
pub open spec fn moved(state: Callers, caller: int, phase: Phase) -> Callers {
    Callers { phases: state.phases.update(caller, phase), ..state }
}

/// What a turn does to the callers. Every decision is the cache's: the turn
/// reports to the cache what the caller's phase calls for and follows the
/// answer. The lock does the rest: while one caller has the cache to itself,
/// the turns of callers that read or wait change nothing, and the holder
/// gives the cache up when its acquisition has ended.
pub open spec fn turn_taken(state: Callers, turn: Turn) -> Callers {
    if !(0 <= turn.caller < state.phases.len()) {
        state
    } else {
        match state.phases[turn.caller] {
            Phase::Arriving => if state.holder is Some {
                state
            } else {
                match cache_step(state.cache, CacheEventView::Arrived { now: turn.now }).1 {
                    CacheActionView::Use(crumb) => moved(
                        state,
                        turn.caller,
                        Phase::Served(Ok(crumb)),
                    ),
                    _ => moved(state, turn.caller, Phase::Waiting),
                }
            },
            Phase::Waiting => if state.holder is Some {
                state
            } else {
                match cache_step(state.cache, CacheEventView::Locked { now: turn.now }).1 {
                    CacheActionView::Use(crumb) => moved(
                        state,
                        turn.caller,
                        Phase::Served(Ok(crumb)),
                    ),
                    _ => Callers {
                        holder: Some(turn.caller),
                        acquisitions: state.acquisitions + 1,
                        ..moved(state, turn.caller, Phase::Acquiring)
                    },
                }
            },
            Phase::Acquiring => {
                let report = match turn.outcome {
                    Ok(crumb) => CacheEventView::Acquired { crumb, now: turn.now },
                    Err(error) => CacheEventView::Failed(error),
                };
                Callers {
                    cache: cache_step(state.cache, report).0,
                    holder: None,
                    ..moved(state, turn.caller, Phase::Served(turn.outcome))
                }
            },
            Phase::Served(_) => state,
        }
    }
}

/// What a row of turns does to the callers. The row may take the callers in
/// any order and any caller as often as it likes.
pub open spec fn turns_taken(state: Callers, turns: Seq<Turn>) -> Callers
    decreases turns.len(),
{
    if turns.len() == 0 {
        state
    } else {
        turn_taken(turns_taken(state, turns.drop_last()), turns.last())
    }
}

/// Whether the caller that has the cache to itself, and no other, runs an
/// acquisition.
pub open spec fn one_in_flight(state: Callers) -> bool {
    &&& state.holder is Some ==> 0 <= state.holder->0 < state.phases.len()
        && state.phases[state.holder->0] is Acquiring
    &&& forall|i: int|
        0 <= i < state.phases.len() && (#[trigger] state.phases[i]) is Acquiring
            ==> state.holder == Some(i)
}

/// What holds of callers that met at an empty cache while every acquisition
/// gives `crumb` and no turn comes later than `latest`: at most one
/// acquisition was started, it is still running while the cache is empty,
/// nobody was served before it ended, and whoever was served got `crumb`.
pub open spec fn sharing(state: Callers, crumb: Seq<char>, latest: u64) -> bool {
    &&& one_in_flight(state)
    &&& state.acquisitions <= 1
    &&& forall|i: int|
        0 <= i < state.phases.len() && (#[trigger] state.phases[i]) is Served
            ==> state.phases[i] == Phase::Served(Ok(crumb))
    &&& match state.cache {
        Some(kept) => state.acquisitions == 1 && state.holder is None && kept.value == crumb
            && latest <= kept.expires_at,
        None => forall|i: int|
            0 <= i < state.phases.len() ==> !((#[trigger] state.phases[i]) is Served),
    }
    &&& state.cache is None ==> (state.acquisitions == 1 <==> state.holder is Some)
}

/// A turn leaves at most one acquisition in flight.
pub proof fn lemma_turn_keeps_one_in_flight(state: Callers, turn: Turn)
    requires
        one_in_flight(state),
    ensures
        one_in_flight(turn_taken(state, turn)),
        turn_taken(state, turn).phases.len() == state.phases.len(),
{
    let next = turn_taken(state, turn);
    assert forall|i: int|
        0 <= i < next.phases.len() && (#[trigger] next.phases[i]) is Acquiring implies next.holder
        == Some(i) by {
        if i != turn.caller {
            assert(next.phases[i] == state.phases[i]);
        }
    }
}

/// Never two in flight: whatever the order of the turns, whatever their
/// times and however the acquisitions end, no two callers run an acquisition
/// at the same time.
pub proof fn lemma_never_two_in_flight(count: nat, turns: Seq<Turn>, first: int, second: int)
    requires
        0 <= first < count,
        0 <= second < count,
        turns_taken(gathering(count), turns).phases[first] is Acquiring,
        turns_taken(gathering(count), turns).phases[second] is Acquiring,
    ensures
        first == second,
{
    lemma_one_in_flight(count, turns);
}

/// After any row of turns the callers are as many as before, and the caller
/// that has the cache to itself, and no other, runs an acquisition.
pub proof fn lemma_one_in_flight(count: nat, turns: Seq<Turn>)
    ensures
        one_in_flight(turns_taken(gathering(count), turns)),
        turns_taken(gathering(count), turns).phases.len() == count,
    decreases turns.len(),
{
    if turns.len() > 0 {
        lemma_one_in_flight(count, turns.drop_last());
        lemma_turn_keeps_one_in_flight(
            turns_taken(gathering(count), turns.drop_last()),
            turns.last(),
        );
    }
}

/// A turn keeps the callers sharing one acquisition.
pub proof fn lemma_turn_keeps_sharing(state: Callers, turn: Turn, crumb: Seq<char>, latest: u64)
    requires
        sharing(state, crumb, latest),
        turn.outcome == Ok::<Seq<char>, YahooErrorView>(crumb),
        turn.now <= latest <= expiry_after(turn.now),
    ensures
        sharing(turn_taken(state, turn), crumb, latest),
{
    lemma_turn_keeps_one_in_flight(state, turn);
    let next = turn_taken(state, turn);
    assert forall|i: int|
        0 <= i < next.phases.len() && (#[trigger] next.phases[i]) is Served implies next.phases[i]
        == Phase::Served(Ok(crumb)) by {
        if i != turn.caller {
            assert(next.phases[i] == state.phases[i]);
        }
    }
    if next.cache is None {
        assert forall|i: int| 0 <= i < next.phases.len() implies !((#[trigger] next.phases[i])
            is Served) by {
            if i != turn.caller {
                assert(next.phases[i] == state.phases[i]);
            }
        }
    }
}

/// Single acquisition: callers meet at an empty cache and move in any order.
/// Where every acquisition that is run gives `crumb`, and all turns lie
/// within the time for which a crumb is kept, at most one acquisition is
/// started, however many callers there are; every caller that is served gets
/// `crumb`; and once one caller is served, exactly one acquisition has been
/// run.
pub proof fn lemma_callers_share_one_acquisition(
    count: nat,
    turns: Seq<Turn>,
    crumb: Seq<char>,
    latest: u64,
)
    requires
        forall|k: int|
            0 <= k < turns.len() ==> (#[trigger] turns[k]).outcome == Ok::<
                Seq<char>,
                YahooErrorView,
            >(crumb),
        forall|k: int|
            0 <= k < turns.len() ==> (#[trigger] turns[k]).now <= latest <= expiry_after(
                turns[k].now,
            ),
    ensures
        turns_taken(gathering(count), turns).acquisitions <= 1,
        forall|i: int|
            0 <= i < count && (#[trigger] turns_taken(gathering(count), turns).phases[i])
                is Served ==> turns_taken(gathering(count), turns).phases[i] == Phase::Served(
                Ok(crumb),
            ) && turns_taken(gathering(count), turns).acquisitions == 1,
        sharing(turns_taken(gathering(count), turns), crumb, latest),
    decreases turns.len(),
{
    if turns.len() == 0 {
        assert(sharing(gathering(count), crumb, latest));
    } else {
        let front = turns.drop_last();
        assert forall|k: int| 0 <= k < front.len() implies (#[trigger] front[k]).outcome == Ok::<
            Seq<char>,
            YahooErrorView,
        >(crumb) && front[k].now <= latest <= expiry_after(front[k].now) by {
            assert(front[k] == turns[k]);
        }
        lemma_callers_share_one_acquisition(count, front, crumb, latest);
        lemma_turn_keeps_sharing(turns_taken(gathering(count), front), turns.last(), crumb, latest);
    }
    lemma_one_in_flight(count, turns);
}

/// The cache holds no caller up: a caller that reads or waits, and finds
/// nobody holding the cache, leaves its phase with its next turn; and a
/// caller that runs an acquisition is served when it ends, and gives the
/// cache up.
pub proof fn lemma_turn_moves_on(state: Callers, turn: Turn)
    requires
        one_in_flight(state),
        0 <= turn.caller < state.phases.len(),
    ensures
        state.phases[turn.caller] is Acquiring ==> turn_taken(state, turn).phases[turn.caller]
            == Phase::Served(turn.outcome) && turn_taken(state, turn).holder is None,
        state.holder is None && state.phases[turn.caller] is Arriving ==> !(turn_taken(
            state,
            turn,
        ).phases[turn.caller] is Arriving),
        state.holder is None && state.phases[turn.caller] is Waiting ==> !(turn_taken(
            state,
            turn,
        ).phases[turn.caller] is Waiting),
{
}

} // verus!
