//! The lifecycle coordinator as a state machine: the deployment pipeline's
//! phases, the events that drive it, and the action the surrounding runtime
//! must perform after each step.
//!
//! The runtime performs one action, feeds the outcome back as an event, and
//! repeats; every await site answers a shutdown broadcast with the
//! `Shutdown` event. The machine orders cleanup: the tunnel comes down
//! before the stack delete is issued, and once the stack has been submitted
//! no path reaches `Finished` without issuing the delete, unless submission
//! itself failed.

use vstd::prelude::*;

verus! {

/// Where the coordinator stands in the pipeline of §deploy.
#[derive(Debug, Clone, Copy, PartialEq, Eq, Structural)]
pub enum Phase {
    /// Privilege and kernel-module checks.
    Preflight,
    /// Endpoint parsing and the cross-endpoint rules.
    Parsing,
    /// Key generation and subnet selection.
    KeysAndSubnet,
    /// The origin's public IP lookup.
    OriginIpLookup,
    /// `CreateStack` submission.
    Deploying,
    /// Polling the stack until it completes.
    WaitingForStack,
    /// Bringing the tunnel up.
    InstallingTunnel,
    /// Serving the dashboard until shutdown.
    Serving,
    /// Bringing the tunnel down.
    TearingDownTunnel,
    /// Deleting the stack and waiting it out.
    CleaningUpStack,
    /// The process exits.
    Finished,
}

/// What the runtime reports about the step it just ran.
#[derive(Debug, Clone, Copy, PartialEq, Eq, Structural)]
pub enum Event {
    /// The step finished as intended.
    StepDone,
    /// The step failed fatally.
    StepFailed,
    /// The shutdown broadcast fired during the step.
    Shutdown,
}

/// What the runtime must do next.
#[derive(Debug, Clone, Copy, PartialEq, Eq, Structural)]
pub enum Action {
    RunPreflight,
    ParseConfig,
    PrepareKeys,
    LookupOriginIp,
    SubmitStack,
    PollStack,
    BringUpTunnel,
    Serve,
    TearDownTunnel,
    DeleteStack,
    /// Keep at the current step.
    KeepWaiting,
    Exit,
}

/// The coordinator's state: the phase plus the facts the cleanup ordering
/// rests on.
#[derive(Debug, Clone, Copy, PartialEq, Eq, Structural)]
pub struct Coordinator {
    pub phase: Phase,
    /// `CreateStack` submission returned success.
    pub stack_submitted: bool,
    /// `CreateStack` submission returned an error.
    pub create_failed: bool,
    /// A `DeleteStack` has been issued.
    pub delete_issued: bool,
    /// The tunnel is up.
    pub tunnel_up: bool,
    /// Whether the process exits clean; meaningful at `Finished`.
    pub exit_success: bool,
}

/// The transition function of the coordinator.
///
/// Before the stack is submitted, a failure or a shutdown exits directly:
/// there is nothing remote to clean up. Once submission succeeded, every
/// failure, cancellation or regular shutdown path runs through
/// `CleaningUpStack` — with the tunnel torn down first where it was up —
/// and issues exactly one `DeleteStack`. Cleanup failures do not change the
/// exit status; step failures elsewhere make the exit unclean; a shutdown
/// alone never does.
pub open spec fn spec_step(s: Coordinator, ev: Event) -> (Coordinator, Action) {
    match s.phase {
        Phase::Preflight | Phase::Parsing | Phase::KeysAndSubnet | Phase::OriginIpLookup => match ev {
            Event::StepDone => {
                let next = match s.phase {
                    Phase::Preflight => Phase::Parsing,
                    Phase::Parsing => Phase::KeysAndSubnet,
                    Phase::KeysAndSubnet => Phase::OriginIpLookup,
                    _ => Phase::Deploying,
                };
                let act = match next {
                    Phase::Parsing => Action::ParseConfig,
                    Phase::KeysAndSubnet => Action::PrepareKeys,
                    Phase::OriginIpLookup => Action::LookupOriginIp,
                    _ => Action::SubmitStack,
                };
                (Coordinator { phase: next, ..s }, act)
            },
            Event::StepFailed => (
                Coordinator { phase: Phase::Finished, exit_success: false, ..s },
                Action::Exit,
            ),
            Event::Shutdown => (Coordinator { phase: Phase::Finished, ..s }, Action::Exit),
        },
        Phase::Deploying => match ev {
            Event::StepDone => (
                Coordinator { phase: Phase::WaitingForStack, stack_submitted: true, ..s },
                Action::PollStack,
            ),
            Event::StepFailed => (
                Coordinator {
                    phase: Phase::Finished,
                    create_failed: true,
                    exit_success: false,
                    ..s
                },
                Action::Exit,
            ),
            Event::Shutdown => (Coordinator { phase: Phase::Finished, ..s }, Action::Exit),
        },
        Phase::WaitingForStack => match ev {
            Event::StepDone => (
                Coordinator { phase: Phase::InstallingTunnel, ..s },
                Action::BringUpTunnel,
            ),
            Event::StepFailed => (
                Coordinator {
                    phase: Phase::CleaningUpStack,
                    delete_issued: true,
                    exit_success: false,
                    ..s
                },
                Action::DeleteStack,
            ),
            Event::Shutdown => (
                Coordinator { phase: Phase::CleaningUpStack, delete_issued: true, ..s },
                Action::DeleteStack,
            ),
        },
        Phase::InstallingTunnel => match ev {
            Event::StepDone => (
                Coordinator { phase: Phase::Serving, tunnel_up: true, ..s },
                Action::Serve,
            ),
            Event::StepFailed => (
                Coordinator {
                    phase: Phase::CleaningUpStack,
                    delete_issued: true,
                    exit_success: false,
                    ..s
                },
                Action::DeleteStack,
            ),
            Event::Shutdown => (
                Coordinator { phase: Phase::CleaningUpStack, delete_issued: true, ..s },
                Action::DeleteStack,
            ),
        },
        Phase::Serving => match ev {
            Event::StepDone => (
                Coordinator { phase: Phase::TearingDownTunnel, ..s },
                Action::TearDownTunnel,
            ),
            Event::StepFailed => (
                Coordinator { phase: Phase::TearingDownTunnel, exit_success: false, ..s },
                Action::TearDownTunnel,
            ),
            Event::Shutdown => (
                Coordinator { phase: Phase::TearingDownTunnel, ..s },
                Action::TearDownTunnel,
            ),
        },
        Phase::TearingDownTunnel => (
            // Teardown failures are logged, never propagated: the exit status
            // is unchanged and the stack delete follows in every case.
            Coordinator {
                phase: Phase::CleaningUpStack,
                tunnel_up: false,
                delete_issued: true,
                ..s
            },
            Action::DeleteStack,
        ),
        Phase::CleaningUpStack => match ev {
            Event::StepDone => (Coordinator { phase: Phase::Finished, ..s }, Action::Exit),
            // Cleanup failures are logged, never propagated.
            Event::StepFailed => (Coordinator { phase: Phase::Finished, ..s }, Action::Exit),
            // Shutdown never aborts cleanup.
            Event::Shutdown => (s, Action::KeepWaiting),
        },
        Phase::Finished => (s, Action::Exit),
    }
}

impl Coordinator {
    /// The state before the first step; the runtime's first action is the
    /// preflight.
    pub fn new() -> (r: Coordinator)
        ensures
            r == initial_state(),
    {
        Coordinator {
            phase: Phase::Preflight,
            stack_submitted: false,
            create_failed: false,
            delete_issued: false,
            tunnel_up: false,
            exit_success: true,
        }
    }

    /// Drives the machine by one event.
    pub fn step(&self, ev: Event) -> (r: (Coordinator, Action))
        ensures
            r == spec_step(*self, ev),
    {
        let s = *self;
        match s.phase {
            Phase::Preflight | Phase::Parsing | Phase::KeysAndSubnet | Phase::OriginIpLookup => match ev {
                Event::StepDone => {
                    let next = match s.phase {
                        Phase::Preflight => Phase::Parsing,
                        Phase::Parsing => Phase::KeysAndSubnet,
                        Phase::KeysAndSubnet => Phase::OriginIpLookup,
                        _ => Phase::Deploying,
                    };
                    let act = match next {
                        Phase::Parsing => Action::ParseConfig,
                        Phase::KeysAndSubnet => Action::PrepareKeys,
                        Phase::OriginIpLookup => Action::LookupOriginIp,
                        _ => Action::SubmitStack,
                    };
                    (Coordinator { phase: next, ..s }, act)
                },
                Event::StepFailed => (
                    Coordinator { phase: Phase::Finished, exit_success: false, ..s },
                    Action::Exit,
                ),
                Event::Shutdown => (Coordinator { phase: Phase::Finished, ..s }, Action::Exit),
            },
            Phase::Deploying => match ev {
                Event::StepDone => (
                    Coordinator { phase: Phase::WaitingForStack, stack_submitted: true, ..s },
                    Action::PollStack,
                ),
                Event::StepFailed => (
                    Coordinator {
                        phase: Phase::Finished,
                        create_failed: true,
                        exit_success: false,
                        ..s
                    },
                    Action::Exit,
                ),
                Event::Shutdown => (Coordinator { phase: Phase::Finished, ..s }, Action::Exit),
            },
            Phase::WaitingForStack => match ev {
                Event::StepDone => (
                    Coordinator { phase: Phase::InstallingTunnel, ..s },
                    Action::BringUpTunnel,
                ),
                Event::StepFailed => (
                    Coordinator {
                        phase: Phase::CleaningUpStack,
                        delete_issued: true,
                        exit_success: false,
                        ..s
                    },
                    Action::DeleteStack,
                ),
                Event::Shutdown => (
                    Coordinator { phase: Phase::CleaningUpStack, delete_issued: true, ..s },
                    Action::DeleteStack,
                ),
            },
            Phase::InstallingTunnel => match ev {
                Event::StepDone => (
                    Coordinator { phase: Phase::Serving, tunnel_up: true, ..s },
                    Action::Serve,
                ),
                Event::StepFailed => (
                    Coordinator {
                        phase: Phase::CleaningUpStack,
                        delete_issued: true,
                        exit_success: false,
                        ..s
                    },
                    Action::DeleteStack,
                ),
                Event::Shutdown => (
                    Coordinator { phase: Phase::CleaningUpStack, delete_issued: true, ..s },
                    Action::DeleteStack,
                ),
            },
            Phase::Serving => match ev {
                Event::StepDone => (
                    Coordinator { phase: Phase::TearingDownTunnel, ..s },
                    Action::TearDownTunnel,
                ),
                Event::StepFailed => (
                    Coordinator { phase: Phase::TearingDownTunnel, exit_success: false, ..s },
                    Action::TearDownTunnel,
                ),
                Event::Shutdown => (
                    Coordinator { phase: Phase::TearingDownTunnel, ..s },
                    Action::TearDownTunnel,
                ),
            },
            Phase::TearingDownTunnel => (
                Coordinator {
                    phase: Phase::CleaningUpStack,
                    tunnel_up: false,
                    delete_issued: true,
                    ..s
                },
                Action::DeleteStack,
            ),
            Phase::CleaningUpStack => match ev {
                Event::StepDone => (Coordinator { phase: Phase::Finished, ..s }, Action::Exit),
                Event::StepFailed => (Coordinator { phase: Phase::Finished, ..s }, Action::Exit),
                Event::Shutdown => (s, Action::KeepWaiting),
            },
            Phase::Finished => (s, Action::Exit),
        }
    }
}

/// The state the machine starts in.
pub open spec fn initial_state() -> Coordinator {
    Coordinator {
        phase: Phase::Preflight,
        stack_submitted: false,
        create_failed: false,
        delete_issued: false,
        tunnel_up: false,
        exit_success: true,
    }
}

/// The cleanup ordering invariant.
///
/// Before the stack exists nothing is submitted; in the cleanup phase the
/// delete has been issued; and a finished run that submitted the stack and
/// whose submission did not fail has issued the delete.
pub open spec fn inv(s: Coordinator) -> bool {
    &&& (s.phase is Preflight || s.phase is Parsing || s.phase is KeysAndSubnet
        || s.phase is OriginIpLookup || s.phase is Deploying) ==> !s.stack_submitted
    &&& s.phase is CleaningUpStack ==> s.delete_issued
    &&& s.phase is Finished ==> ((s.stack_submitted && !s.create_failed) ==> s.delete_issued)
    &&& (s.phase is WaitingForStack || s.phase is InstallingTunnel || s.phase is Serving
        || s.phase is TearingDownTunnel) ==> s.stack_submitted
    &&& s.delete_issued ==> (s.phase is CleaningUpStack || s.phase is Finished)
}

/// No orphaned stack, one step at a time: every transition preserves the
/// cleanup ordering invariant.
pub proof fn lemma_step_preserves_inv(s: Coordinator, ev: Event)
    requires
        inv(s),
    ensures
        inv(spec_step(s, ev).0),
{
}

/// The state after a whole run of events.
pub open spec fn run(s: Coordinator, evs: Seq<Event>) -> Coordinator
    decreases evs.len(),
{
    if evs.len() == 0 {
        s
    } else {
        run(spec_step(s, evs[0]).0, evs.drop_first())
    }
}

/// No orphaned stack: on every run of the machine from the start, if
/// `CreateStack` submission succeeded, then at exit — whatever mixture of
/// successes, failures and shutdown signals drove the run — a `DeleteStack`
/// has been issued.
pub proof fn lemma_no_orphaned_stack(evs: Seq<Event>)
    ensures
        ({
            let fin = run(initial_state(), evs);
            fin.phase is Finished && fin.stack_submitted && !fin.create_failed
                ==> fin.delete_issued
        }),
{
    lemma_run_preserves_inv(initial_state(), evs);
}

proof fn lemma_run_preserves_inv(s: Coordinator, evs: Seq<Event>)
    requires
        inv(s),
    ensures
        inv(run(s, evs)),
    decreases evs.len(),
{
    if evs.len() > 0 {
        lemma_step_preserves_inv(s, evs[0]);
        lemma_run_preserves_inv(spec_step(s, evs[0]).0, evs.drop_first());
    }
}

/// The delete is issued at most once: a `DeleteStack` action comes only from
/// a state that has not issued it yet, and the resulting state has.
pub proof fn lemma_delete_issued_once(s: Coordinator, ev: Event)
    requires
        inv(s),
    ensures
        spec_step(s, ev).1 is DeleteStack ==> !s.delete_issued && spec_step(s, ev).0.delete_issued,
{
}

} // verus!
