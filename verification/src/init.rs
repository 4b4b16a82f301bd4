//! Installing the backend once per guard.

use crate::backend::{detect_config, request_installation, InstallOutcome};
use crate::config::{config_for, BackendConfig};
use crate::guard::InitGuard;
use crate::level::SeverityLevel;
use vstd::prelude::*;

verus! {

/// Why the backend could not be installed.
#[derive(Clone, Copy, Debug, PartialEq, Eq, Structural)]
pub enum InitError {
    /// The process already has a backend that was not installed through the
    /// guard.
    BackendConflict,
}

impl InitError {
    /// A description of the error for a human reader.
    pub fn message(&self) -> (text: &'static str)
        ensures
            text@ == "a logging backend was already installed outside the guard"@,
    {
        "a logging backend was already installed outside the guard"
    }
}

/// One call on a guard, given the configuration it would install and what
/// the backend answers to a request: the guard after the call, and the
/// result of the call. A set guard stays as it is and the call succeeds,
/// whatever the backend answers. An unset guard is set to the configuration
/// when the backend installs it, and stays unset when the backend refuses.
pub open spec fn init_step(
    guard: Option<BackendConfig>,
    config: BackendConfig,
    outcome: InstallOutcome,
) -> (Option<BackendConfig>, Result<(), InitError>) {
    match (guard, outcome) {
        (Some(_), _) => (guard, Ok(())),
        (None, InstallOutcome::Installed) => (Some(config), Ok(())),
        (None, InstallOutcome::Refused) => (None, Err(InitError::BackendConflict)),
    }
}

/// What a call that asked for `level` may have done to a guard. A set guard
/// is unchanged and the call succeeded. An unset guard was set to the
/// configuration for `level` if the call succeeded, and is still unset if it
/// failed.
pub open spec fn initialized_by(
    before: Option<BackendConfig>,
    level: SeverityLevel,
    after: Option<BackendConfig>,
    ok: bool,
) -> bool {
    match before {
        Some(_) => ok && after == before,
        None => if ok {
            after == Some(config_for(level, true)) || after == Some(config_for(level, false))
        } else {
            after is None
        },
    }
}

/// Finishes a call after the backend has answered: sets the guard where the
/// backend installed `config`, and turns the answer into the result of the
/// call. Where the guard has been set in the meantime the call succeeds and
/// the guard keeps its configuration.
pub fn conclude(
    guard: &mut InitGuard,
    config: BackendConfig,
    outcome: InstallOutcome,
) -> (result: Result<(), InitError>)
    ensures
        (final(guard)@, result) == init_step(old(guard)@, config, outcome),
{
    if guard.is_set() {
        return Ok(());
    }
    match outcome {
        InstallOutcome::Installed => {
            guard.set(config);
            Ok(())
        },
        InstallOutcome::Refused => Err(InitError::BackendConflict),
    }
}

/// Installs the backend with `level` as its threshold, unless the guard is
/// set already. A set guard makes the call a no-op that succeeds: `level` is
/// ignored and the backend is not asked. The call fails only when the
/// backend refuses the installation, and the guard then stays unset.
pub fn init_logger(guard: &mut InitGuard, level: SeverityLevel) -> (result: Result<(), InitError>)
    ensures
        initialized_by(old(guard)@, level, final(guard)@, result is Ok),
        result is Err ==> result == Err::<(), InitError>(InitError::BackendConflict),
{
    if guard.is_set() {
        return Ok(());
    }
    let config = detect_config(level);
    let outcome = request_installation(&config);
    conclude(guard, config, outcome)
}

/// A step with the configuration for `level` is a call that asked for
/// `level`.
pub proof fn lemma_step_is_a_call(
    guard: Option<BackendConfig>,
    level: SeverityLevel,
    stdout_is_terminal: bool,
    outcome: InstallOutcome,
)
    ensures
        ({
            let (after, result) = init_step(guard, config_for(level, stdout_is_terminal), outcome);
            initialized_by(guard, level, after, result is Ok)
        }),
{
}

/// Idempotence: after a call that succeeded, a second call succeeds whatever
/// level it asks for, and leaves the guard, and with it the installed
/// configuration, as the first call left it.
pub proof fn lemma_second_call_is_a_no_op(
    start: Option<BackendConfig>,
    first_level: SeverityLevel,
    between: Option<BackendConfig>,
    second_level: SeverityLevel,
    end: Option<BackendConfig>,
    second_ok: bool,
)
    requires
        initialized_by(start, first_level, between, true),
        initialized_by(between, second_level, end, second_ok),
    ensures
        second_ok,
        end == between,
        between is Some,
{
}

/// A run of calls on one guard: `states[i]` is the guard before call `i` and
/// `states[i + 1]` the guard after it, `levels[i]` the level the call asked
/// for, and `oks[i]` whether it succeeded. The guard is borrowed exclusively
/// by each call, so calls made at the same time take their turns in some
/// such order.
pub open spec fn is_run(
    states: Seq<Option<BackendConfig>>,
    levels: Seq<SeverityLevel>,
    oks: Seq<bool>,
) -> bool {
    &&& states.len() == levels.len() + 1
    &&& oks.len() == levels.len()
    &&& forall|i: int|
        0 <= i < levels.len() ==> initialized_by(
            states[i],
            #[trigger] levels[i],
            states[i + 1],
            oks[i],
        )
}

/// Whether call `i` of a run installed the backend: it found the guard unset
/// and left it set.
pub open spec fn installs(states: Seq<Option<BackendConfig>>, i: int) -> bool {
    states[i] is None && states[i + 1] is Some
}

/// The guard is written once: from the point of a run at which it is set,
/// it stays set, with the configuration it was set to.
pub proof fn lemma_set_guard_stays(
    states: Seq<Option<BackendConfig>>,
    levels: Seq<SeverityLevel>,
    oks: Seq<bool>,
    from: int,
    to: int,
)
    requires
        is_run(states, levels, oks),
        0 <= from <= to < states.len(),
        states[from] is Some,
    ensures
        states[to] == states[from],
    decreases to - from,
{
    if from < to {
        lemma_set_guard_stays(states, levels, oks, from, to - 1);
        assert(initialized_by(states[to - 1], levels[to - 1], states[to], oks[to - 1]));
    }
}

/// The backend is installed at most once through a guard: in any run, no
/// two calls install it.
pub proof fn lemma_at_most_one_installation(
    states: Seq<Option<BackendConfig>>,
    levels: Seq<SeverityLevel>,
    oks: Seq<bool>,
)
    requires
        is_run(states, levels, oks),
    ensures
        forall|i: int, j: int|
            0 <= i < levels.len() && 0 <= j < levels.len() && #[trigger] installs(states, i)
                && #[trigger] installs(states, j) ==> i == j,
{
    assert forall|i: int, j: int|
        0 <= i < levels.len() && 0 <= j < levels.len() && #[trigger] installs(states, i)
            && #[trigger] installs(states, j) implies i == j by {
        if i < j {
            lemma_set_guard_stays(states, levels, oks, i + 1, j);
        } else if j < i {
            lemma_set_guard_stays(states, levels, oks, j + 1, i);
        }
    }
}

/// Any number of first-time calls, in whatever order they take their turns:
/// where the first of them succeeds, it is the one call that installs the
/// backend, every call succeeds, and every later call finds the guard as the
/// first one left it.
pub proof fn lemma_first_call_installs_for_all(
    states: Seq<Option<BackendConfig>>,
    levels: Seq<SeverityLevel>,
    oks: Seq<bool>,
)
    requires
        is_run(states, levels, oks),
        levels.len() >= 1,
        states[0] is None,
        oks[0],
    ensures
        forall|i: int| 0 <= i < levels.len() ==> #[trigger] oks[i],
        forall|i: int| 0 <= i < levels.len() ==> (#[trigger] installs(states, i) <==> i == 0),
        forall|i: int| 1 <= i < states.len() ==> #[trigger] states[i] == states[1],
        states[1] == Some(config_for(levels[0], true)) || states[1] == Some(
            config_for(levels[0], false),
        ),
{
    assert(initialized_by(states[0], levels[0], states[1], oks[0]));
    assert forall|i: int| 1 <= i < states.len() implies #[trigger] states[i] == states[1] by {
        lemma_set_guard_stays(states, levels, oks, 1, i);
    }
    assert forall|i: int| 0 <= i < levels.len() implies #[trigger] oks[i] by {
        assert(initialized_by(states[i], levels[i], states[i + 1], oks[i]));
    }
}

} // verus!
