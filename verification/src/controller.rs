//! The rotation controller: a two-state machine that counts consecutive
//! failures and gives up once too many have come in a row.

use vstd::prelude::*;
use vstd::string::StringExecFns;
use crate::jitter::{
    cycle_variance, jittered_seconds, spec_cycle_variance, spec_jittered_seconds, Fraction,
};
use crate::text::{join, lemma_join_three, spec_join};
use crate::vendor::Vendor;

verus! {

/// The run of consecutive failures at which the controller gives up.
pub const MAX_AMOUNT_OF_ERRORS: usize = 3;

/// The message that reports `errors` together: a label, then the
/// descriptions in their order, separated by a comma and a space.
pub open spec fn spec_collate_errors(errors: Seq<Seq<char>>) -> Seq<char> {
    "Failures: "@ + spec_join(errors, ", "@)
}

/// Folds the descriptions of the failures into one message.
pub fn collate_errors(errors: Vec<String>) -> (message: String)
    ensures
        message@ == spec_collate_errors(errors.deep_view()),
{
    let mut message = "Failures: ".to_owned();
    let listed = join(&errors, ", ");
    message.append(listed.as_str());
    message
}

/// What the controller is, as contracts see it.
pub enum ControllerState {
    /// Rotating; `failures` describes the failures since the last success,
    /// oldest first.
    Running { failures: Seq<Seq<char>> },
    /// Given up, with the message that reports why.
    Aborted { error: Seq<char> },
}

impl ControllerState {
    /// A running controller has always room for one more failure.
    pub open spec fn wf(self) -> bool {
        self matches ControllerState::Running { failures } ==> failures.len()
            < MAX_AMOUNT_OF_ERRORS
    }

    /// The state in which every controller starts.
    pub open spec fn initial() -> ControllerState {
        ControllerState::Running { failures: Seq::empty() }
    }

    /// The state after a change that went through.
    pub open spec fn after_success(self) -> ControllerState {
        match self {
            ControllerState::Running { .. } => ControllerState::initial(),
            ControllerState::Aborted { .. } => self,
        }
    }

    /// The state after a change that failed with `description`.
    pub open spec fn after_failure(self, description: Seq<char>) -> ControllerState {
        match self {
            ControllerState::Running { failures } => {
                let log = failures.push(description);
                if log.len() >= MAX_AMOUNT_OF_ERRORS {
                    ControllerState::Aborted { error: spec_collate_errors(log) }
                } else {
                    ControllerState::Running { failures: log }
                }
            },
            ControllerState::Aborted { .. } => self,
        }
    }

    /// How many more failures in a row a running controller takes before the
    /// one that makes it give up.
    pub open spec fn tolerance(self) -> int {
        match self {
            ControllerState::Running { failures } => MAX_AMOUNT_OF_ERRORS - failures.len(),
            ControllerState::Aborted { .. } => 0,
        }
    }
}

/// What one attempt to change the address came to: the new address and its
/// vendor, or the description of the failure.
pub type Outcome = Result<(String, Vendor), String>;

/// What the caller is to announce after an attempt.
#[derive(Debug)]
pub enum Notice {
    /// The interface now has `new_address`, an address of `vendor`.
    Changed { new_address: String, vendor: Vendor },
    /// The attempt failed; `remaining` more failures in a row are taken
    /// before the controller gives up.
    Failed { remaining: usize },
}

/// The controller of one interface's rotation.
pub struct RotationController {
    failures: Vec<String>,
    abort_error: Option<String>,
}

impl View for RotationController {
    type V = ControllerState;

    closed spec fn view(&self) -> ControllerState {
        match self.abort_error {
            Some(error) => ControllerState::Aborted { error: error@ },
            None => ControllerState::Running { failures: self.failures.deep_view() },
        }
    }
}

impl RotationController {
    /// Whether the controller's state is one that it can reach.
    pub open spec fn wf(self) -> bool {
        self@.wf()
    }

    /// A running controller that has seen no failure.
    pub fn new() -> (controller: RotationController)
        ensures
            controller@ == ControllerState::initial(),
            controller.wf(),
    {
        let controller = RotationController { failures: Vec::new(), abort_error: None };
        assert(controller.failures.deep_view() =~= Seq::empty());
        controller
    }

    /// Whether the controller is still rotating.
    pub fn is_running(&self) -> (running: bool)
        ensures
            running == (self@ is Running),
    {
        self.abort_error.is_none()
    }

    /// The number of failures since the last success; none once given up.
    pub fn failure_count(&self) -> (count: usize)
        ensures
            self@ matches ControllerState::Running { failures } ==> count == failures.len(),
            self@ is Aborted ==> count == 0,
    {
        if self.abort_error.is_none() {
            self.failures.len()
        } else {
            0
        }
    }

    /// The message with which the controller gave up, if it did.
    pub fn abort_error(&self) -> (error: Option<String>)
        ensures
            self@ is Running ==> error is None,
            self@ matches ControllerState::Aborted { error: message } ==> error is Some
                && error->0@ == message,
    {
        match &self.abort_error {
            Some(message) => Some(message.clone()),
            None => None,
        }
    }

    /// How many seconds to wait before the next attempt: the cycle's length,
    /// jittered by the cycle variance with `base` as the draw. A controller
    /// that has given up waits for nothing.
    pub fn wait_seconds(&self, cycle_seconds: u32, base: Fraction) -> (wait: Option<u64>)
        ensures
            wait is Some <==> self@ is Running,
            wait is Some ==> wait->0 == spec_jittered_seconds(
                cycle_seconds as int,
                spec_cycle_variance(),
                base,
            ),
    {
        if self.abort_error.is_none() {
            Some(jittered_seconds(cycle_seconds, cycle_variance(), base))
        } else {
            None
        }
    }

    /// Takes in the outcome of one attempt. A success empties the log of
    /// failures. A failure is logged, and the one that fills the log makes
    /// the controller give up with the collated message. The notice says
    /// what to announce.
    pub fn advance(&mut self, outcome: Outcome) -> (notice: Notice)
        requires
            old(self).wf(),
            old(self)@ is Running,
        ensures
            final(self).wf(),
            match outcome {
                Ok((address, maker)) => {
                    &&& final(self)@ == old(self)@.after_success()
                    &&& notice == (Notice::Changed { new_address: address, vendor: maker })
                },
                Err(description) => {
                    &&& final(self)@ == old(self)@.after_failure(description@)
                    &&& notice == (Notice::Failed {
                        remaining: (old(self)@.tolerance() - 1) as usize,
                    })
                },
            },
    {
        match outcome {
            Ok((new_address, vendor)) => {
                self.failures.clear();
                assert(self.failures.deep_view() =~= Seq::empty());
                Notice::Changed { new_address, vendor }
            },
            Err(description) => {
                let ghost before = self.failures.deep_view();
                self.failures.push(description);
                assert(self.failures.deep_view() =~= before.push(description@));
                let remaining = MAX_AMOUNT_OF_ERRORS - self.failures.len();
                if MAX_AMOUNT_OF_ERRORS <= self.failures.len() {
                    let mut errors: Vec<String> = Vec::new();
                    core::mem::swap(&mut errors, &mut self.failures);
                    self.abort_error = Some(collate_errors(errors));
                }
                Notice::Failed { remaining }
            },
        }
    }
}

/// From the start or after a success, three failures in a row make the
/// controller give up, and not before the third. Its message lists the three
/// descriptions in the order in which they came.
pub proof fn law_three_failures_abort(
    state: ControllerState,
    first: Seq<char>,
    second: Seq<char>,
    third: Seq<char>,
)
    requires
        state is Running,
    ensures
        state.after_success().after_failure(first).after_failure(second).after_failure(third)
            == (ControllerState::Aborted {
            error: "Failures: "@ + first + ", "@ + second + ", "@ + third,
        }),
        state.after_success().after_failure(first).after_failure(second) is Running,
        ControllerState::initial().after_failure(first).after_failure(second).after_failure(third)
            == (ControllerState::Aborted {
            error: "Failures: "@ + first + ", "@ + second + ", "@ + third,
        }),
{
    let log = Seq::<Seq<char>>::empty().push(first).push(second).push(third);
    assert(log =~= seq![first, second, third]);
    lemma_join_three(first, second, third, ", "@);
    assert("Failures: "@ + (first + ", "@ + second + ", "@ + third) =~= "Failures: "@ + first
        + ", "@ + second + ", "@ + third);
}

/// A success forgets the failures before it: the failure that follows is
/// counted as the first.
pub proof fn law_success_clears_failures(state: ControllerState, description: Seq<char>)
    requires
        state.wf(),
        state is Running,
    ensures
        state.after_success() == ControllerState::initial(),
        state.after_success()->failures.len() == 0,
        state.after_success().after_failure(description) == (ControllerState::Running {
            failures: seq![description],
        }),
{
    assert(Seq::<Seq<char>>::empty().push(description) =~= seq![description]);
}

/// Both transitions keep a reachable state reachable, and a running
/// controller gives up exactly on the failure that fills its log.
pub proof fn law_transitions_keep_bound(state: ControllerState, description: Seq<char>)
    requires
        state.wf(),
    ensures
        state.after_success().wf(),
        state.after_failure(description).wf(),
        state is Running ==> (state.after_failure(description) is Aborted <==> state->failures.len()
            + 1 == MAX_AMOUNT_OF_ERRORS),
        state is Aborted ==> state.after_success() == state && state.after_failure(description)
            == state,
{
}

} // verus!
