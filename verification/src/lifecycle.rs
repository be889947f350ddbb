//! The trigger lifecycle: one-shot test mode that dispatches a single
//! synthetic payload per route in configured order and stops at the first
//! failure, and the steady-state policy that races all listener tasks and
//! lets the first exit determine the trigger's result.

use vstd::prelude::*;

use crate::config::MqttTrigger;
use crate::errors::{DispatchError, TriggerError};

verus! {

/// The synthetic payload test mode dispatches to every route.
pub open spec fn spec_test_payload() -> Seq<u8> {
    seq![116u8, 101u8, 115u8, 116u8, 32u8, 109u8, 101u8, 115u8, 115u8, 97u8, 103u8, 101u8]
}

/// The synthetic test-mode payload, the bytes of `test message`.
pub fn test_payload() -> (p: Vec<u8>)
    ensures
        p@ == spec_test_payload(),
{
    let s = "test message";
    proof {
        reveal_strlit("test message");
        assert(vstd::string::is_ascii(s));
        vstd::string::is_ascii_spec_bytes(s);
        assert(vstd::string::StringSliceAdditionalSpecFns::spec_bytes(s) =~= spec_test_payload());
    }
    s.as_bytes_vec()
}

/// One planned synthetic dispatch of test mode.
#[derive(Debug)]
pub struct TestDispatch {
    /// The component the payload goes to.
    pub component_id: String,
    /// The synthetic payload.
    pub payload: Vec<u8>,
}

/// The dispatches test mode performs: exactly one per route, in
/// configured order, each carrying the synthetic payload.
pub fn test_dispatches(trigger: &MqttTrigger) -> (r: Vec<TestDispatch>)
    ensures
        r@.len() == trigger.component_configs@.len(),
        forall|i: int|
            0 <= i < r@.len() ==> (#[trigger] r@[i]).component_id@
                == trigger.component_configs@[i].component_id@ && r@[i].payload@
                == spec_test_payload(),
{
    let mut out: Vec<TestDispatch> = Vec::new();
    let mut i: usize = 0;
    while i < trigger.component_configs.len()
        invariant
            i <= trigger.component_configs.len(),
            out@.len() == i as int,
            forall|k: int|
                0 <= k < i ==> (#[trigger] out@[k]).component_id@
                    == trigger.component_configs@[k].component_id@ && out@[k].payload@
                    == spec_test_payload(),
        decreases trigger.component_configs.len() - i,
    {
        let d = TestDispatch {
            component_id: trigger.component_configs[i].component_id.clone(),
            payload: test_payload(),
        };
        out.push(d);
        i = i + 1;
    }
    out
}

/// Index of the first failed dispatch outcome at or after position `i`.
pub open spec fn spec_first_failure(outcomes: Seq<Result<(), DispatchError>>, i: int) -> Option<
    int,
>
    decreases outcomes.len() - i,
{
    if i < 0 || i >= outcomes.len() {
        None
    } else if outcomes[i] is Err {
        Some(i)
    } else {
        spec_first_failure(outcomes, i + 1)
    }
}

/// Law (fail-fast characterization): the first failure is a real failure,
/// everything before it succeeded, and if there is none, everything
/// succeeded.
pub proof fn lemma_first_failure_characterizes(outcomes: Seq<Result<(), DispatchError>>, i: int)
    requires
        0 <= i,
    ensures
        spec_first_failure(outcomes, i) matches Some(j) ==> i <= j < outcomes.len()
            && outcomes[j] is Err && forall|k: int| i <= k < j ==> outcomes[k] is Ok,
        spec_first_failure(outcomes, i) is None ==> forall|k: int|
            i <= k < outcomes.len() ==> outcomes[k] is Ok,
    decreases outcomes.len() - i,
{
    if !(i < 0 || i >= outcomes.len()) && !(outcomes[i] is Err) {
        lemma_first_failure_characterizes(outcomes, i + 1);
    }
}

/// Runs the decision part of test mode against the dispatch outcome that
/// the sandbox reported for each route: dispatches are attempted in
/// configured order and stop at the first failure, so the number of
/// attempted dispatches is one past the first failing index — or all of
/// them when every dispatch succeeds, which is the only success case.
pub fn run_test_mode(trigger: &MqttTrigger, outcomes: &Vec<Result<(), DispatchError>>) -> (r: (
    usize,
    Option<usize>,
))
    requires
        outcomes@.len() == trigger.component_configs@.len(),
    ensures
        match spec_first_failure(outcomes@, 0) {
            Some(j) => r.0 == j + 1 && (r.1 matches Some(u) && u as int == j),
            None => r.0 == outcomes@.len() && r.1 is None,
        },
{
    let mut i: usize = 0;
    while i < outcomes.len()
        invariant
            i <= outcomes.len(),
            spec_first_failure(outcomes@, 0) == spec_first_failure(outcomes@, i as int),
            forall|k: int| 0 <= k < i ==> outcomes@[k] is Ok,
        decreases outcomes.len() - i,
    {
        if outcomes[i].is_err() {
            return (i + 1, Some(i));
        }
        i = i + 1;
    }
    (outcomes.len(), None)
}

/// The controller's result, given the task exits in completion order:
/// the first exit's outcome, whatever came later.
pub open spec fn spec_controller_result(exits: Seq<Result<(), TriggerError>>) -> Result<
    (),
    TriggerError,
> {
    exits[0]
}

/// Resolves the race of listener tasks: the first task to terminate
/// determines the trigger's result; every later exit is discarded.
pub fn controller_result(exits_in_completion_order: Vec<Result<(), TriggerError>>) -> (r: Result<
    (),
    TriggerError,
>)
    requires
        exits_in_completion_order@.len() > 0,
    ensures
        r == spec_controller_result(exits_in_completion_order@),
{
    let mut exits = exits_in_completion_order;
    exits.remove(0)
}

/// Law (first-exit-wins): the controller's result depends on the first
/// task exit alone. Two completion histories that agree on the first exit
/// yield the same result, however many further tasks either has and
/// whatever those report — so the result reflects the first terminated
/// task without waiting for any other.
pub proof fn lemma_first_exit_wins(
    e1: Seq<Result<(), TriggerError>>,
    e2: Seq<Result<(), TriggerError>>,
)
    requires
        e1.len() > 0,
        e2.len() > 0,
        e1[0] == e2[0],
    ensures
        spec_controller_result(e1) == spec_controller_result(e2),
{
}

} // verus!
