//! The session's stage machine: Select, Edit, Dispatch, then either again or
//! Stop.

use vstd::prelude::*;

verus! {

/// Where a session stands.
#[derive(Clone, Copy, Debug, PartialEq, Eq, Structural)]
pub enum Stage {
    /// Choose an RPC name.
    Select,
    /// Settle its payload.
    Edit,
    /// Send the request and handle the response.
    Dispatch,
    /// The session is over.
    Stop,
}

/// The stage after `s`; after a dispatch, an interactive session selects
/// again and any other stops.
pub open spec fn next_stage_of(s: Stage, interactive: bool) -> Stage {
    match s {
        Stage::Select => Stage::Edit,
        Stage::Edit => Stage::Dispatch,
        Stage::Dispatch => if interactive {
            Stage::Select
        } else {
            Stage::Stop
        },
        Stage::Stop => Stage::Stop,
    }
}

/// The stage reached after `n` steps from the start.
pub open spec fn stage_after(n: nat, interactive: bool) -> Stage
    decreases n,
{
    if n == 0 {
        Stage::Select
    } else {
        next_stage_of(stage_after((n - 1) as nat, interactive), interactive)
    }
}

/// How many of the first `n` stages (from the start) are dispatches.
pub open spec fn dispatches_within(n: nat, interactive: bool) -> nat
    decreases n,
{
    if n == 0 {
        0
    } else {
        dispatches_within((n - 1) as nat, interactive) + if stage_after(
            (n - 1) as nat,
            interactive,
        ) == Stage::Dispatch {
            1nat
        } else {
            0nat
        }
    }
}

/// The first stage of every session.
pub fn initial_stage() -> (r: Stage)
    ensures
        r == stage_after(0, true),
        r == stage_after(0, false),
{
    Stage::Select
}

/// The stage that follows `stage`.
pub fn next_stage(stage: Stage, interactive: bool) -> (r: Stage)
    ensures
        r == next_stage_of(stage, interactive),
{
    match stage {
        Stage::Select => Stage::Edit,
        Stage::Edit => Stage::Dispatch,
        Stage::Dispatch => if interactive {
            Stage::Select
        } else {
            Stage::Stop
        },
        Stage::Stop => Stage::Stop,
    }
}

/// A session that is not interactive goes through Select, Edit and Dispatch
/// once, whatever the outcome, and then stays stopped: however many steps are
/// taken, at most one of them dispatches, and from the third on exactly one has.
pub proof fn single_shot_runs_one_cycle(n: nat)
    ensures
        stage_after(0, false) == Stage::Select,
        stage_after(1, false) == Stage::Edit,
        stage_after(2, false) == Stage::Dispatch,
        n >= 3 ==> stage_after(n, false) == Stage::Stop,
        dispatches_within(n, false) <= 1,
        n >= 3 ==> dispatches_within(n, false) == 1,
    decreases n,
{
    reveal_with_fuel(stage_after, 4);
    reveal_with_fuel(dispatches_within, 4);
    if n > 3 {
        single_shot_runs_one_cycle((n - 1) as nat);
    }
}

/// An interactive session never stops by itself: it repeats Select, Edit and
/// Dispatch in that order.
pub proof fn interactive_session_cycles(n: nat)
    ensures
        stage_after(n, true) == (if n % 3 == 0 {
            Stage::Select
        } else if n % 3 == 1 {
            Stage::Edit
        } else {
            Stage::Dispatch
        }),
        stage_after(n, true) != Stage::Stop,
    decreases n,
{
    if n > 0 {
        interactive_session_cycles((n - 1) as nat);
    }
}

} // verus!
