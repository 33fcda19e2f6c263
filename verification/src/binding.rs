//! The binding state machine.
//!
//! A single process-wide [`Binding`] drives the lifecycle of the driver
//! session. The platform work itself — loading the module, resolving a
//! symbol, calling into the driver — cannot be done here, so the machine
//! hands the host one [`Action`] at a time and consumes the outcome as an
//! [`Event`]: `start` opens the setup sequence, `step` advances it, and
//! `forward_data` and `stop` return the command the host must perform, if
//! any. The entry points are carried as opaque tokens (`u64`) that the host
//! maps to the raw callables it resolved.
//!
//! The machine enforces the binding's invariants: a full entry-point table is
//! observable only in the `Active` phase; any failure during setup returns
//! the machine to `Idle`, so a later `start` redoes every load and every
//! resolution from scratch; and `stop` and `forward_data` never fail.

use vstd::prelude::*;

use crate::diagnostic::Diagnostic;
use crate::diagnostic::Symbol;

verus! {

/// The resolved entry points of an active session: one opaque token per
/// driver symbol, each handed out by the host during setup. The table is
/// only ever built whole; no partially filled table leaves the machine.
#[derive(Clone, Copy, PartialEq, Eq, Structural, Debug)]
pub struct EntryPoints {
    /// Token for `InitializeKDMAPIStream`.
    pub initialize_stream: u64,
    /// Token for `IsKDMAPIAvailable`.
    pub is_available: u64,
    /// Token for `SendDirectData`.
    pub send_direct_data: u64,
    /// Token for `TerminateKDMAPIStream`.
    pub terminate_stream: u64,
}

/// Where the binding stands. `Idle` and `Active` are the resting phases —
/// the spec's `Uninitialized` and initialized states; the others are the
/// steps of one `start` sequence, each waiting for the outcome of the
/// action the machine just handed out.
#[derive(Clone, Copy, PartialEq, Eq, Structural, Debug)]
pub enum Phase {
    /// No session; nothing resolved.
    Idle,
    /// Waiting for the bare-name load attempt.
    LoadingBare,
    /// Waiting for the fallback-path load attempt.
    LoadingFallback,
    /// Waiting for `InitializeKDMAPIStream` to resolve.
    ResolvingInitialize { module: u64 },
    /// Waiting for `IsKDMAPIAvailable` to resolve.
    ResolvingAvailable { module: u64, initialize_stream: u64 },
    /// Waiting for `SendDirectData` to resolve.
    ResolvingSend { module: u64, initialize_stream: u64, is_available: u64 },
    /// Waiting for `TerminateKDMAPIStream` to resolve.
    ResolvingTerminate { module: u64, initialize_stream: u64, is_available: u64, send_direct_data: u64 },
    /// Waiting for the driver's reply to `InitializeKDMAPIStream`.
    InitializingDriver { entry_points: EntryPoints },
    /// Waiting for the driver's reply to `IsKDMAPIAvailable`.
    CheckingAvailability { entry_points: EntryPoints },
    /// A session is active; all four entry points are resolved.
    Active { entry_points: EntryPoints },
}

/// What the machine asks the host to do next during setup.
#[derive(Clone, Copy, PartialEq, Eq, Structural, Debug)]
pub enum Action {
    /// Load the driver module by its bare file name, using the platform's
    /// default search order.
    LoadBareName,
    /// Query the system directory, build the fallback path, and load the
    /// driver module from it.
    LoadFallbackPath,
    /// Resolve `symbol` from the loaded module.
    ResolveSymbol { module: u64, symbol: Symbol },
    /// Call the driver's `InitializeKDMAPIStream` through `entry`.
    CallInitializeStream { entry: u64 },
    /// Call the driver's `IsKDMAPIAvailable` through `entry`.
    CallIsAvailable { entry: u64 },
}

/// What the host reports back: the outcome of the action it performed.
/// Error codes are the platform's last-error values, read right after the
/// failing call.
#[derive(Clone, Copy, PartialEq, Eq, Structural, Debug)]
pub enum Event {
    /// A load attempt succeeded; `module` is the host's token for the handle.
    ModuleLoaded { module: u64 },
    /// A load attempt failed with the platform error `code`.
    ModuleLoadError { code: u32 },
    /// A symbol resolved; `address` is the host's token for the callable.
    SymbolResolved { address: u64 },
    /// A symbol lookup failed with the platform error `code`.
    SymbolError { code: u32 },
    /// A driver call that reports a truth value returned `ok`.
    DriverReplied { ok: bool },
}

/// What `step` reports after consuming an event.
#[derive(Clone, Copy, PartialEq, Eq, Structural, Debug)]
pub enum StepOutcome {
    /// Setup goes on: perform `action` and feed its outcome back.
    Continue { action: Action },
    /// Setup failed; the binding is back at `Idle` and a later `start`
    /// begins again from scratch.
    Failed { diagnostic: Diagnostic },
    /// Setup finished; the binding is `Active`.
    Started,
    /// The event answers no pending action; nothing changed.
    Ignored,
}

/// A data word to forward: call `SendDirectData` through `entry` with
/// `data` verbatim; the driver's return value is not used.
#[derive(Clone, Copy, PartialEq, Eq, Structural, Debug)]
pub struct SendCommand {
    pub entry: u64,
    pub data: u32,
}

/// A teardown to perform: call `TerminateKDMAPIStream` through `entry`;
/// its reply is observed but gates nothing, the binding is already `Idle`.
#[derive(Clone, Copy, PartialEq, Eq, Structural, Debug)]
pub struct TerminateCommand {
    pub entry: u64,
}

/// The phase after a call to `start`: rejected (and unchanged) while a
/// session is active, otherwise the setup sequence begins at the bare-name
/// load, whatever an abandoned earlier sequence had resolved.
pub open spec fn start_phase(phase: Phase) -> Phase {
    match phase {
        Phase::Active { .. } => phase,
        _ => Phase::LoadingBare,
    }
}

/// What `start` returns in each phase.
pub open spec fn start_result(phase: Phase) -> Result<Action, Diagnostic> {
    match phase {
        Phase::Active { .. } => Err(Diagnostic::AlreadyInitialized),
        _ => Ok(Action::LoadBareName),
    }
}

/// The symbol whose resolution the given phase is waiting for, if any.
pub open spec fn pending_symbol(phase: Phase) -> Option<Symbol> {
    match phase {
        Phase::ResolvingInitialize { .. } => Some(Symbol::InitializeStream),
        Phase::ResolvingAvailable { .. } => Some(Symbol::IsAvailable),
        Phase::ResolvingSend { .. } => Some(Symbol::SendDirectData),
        Phase::ResolvingTerminate { .. } => Some(Symbol::TerminateStream),
        _ => None,
    }
}

/// The phase after `step` consumes `event` in `phase`. An event that does
/// not answer the pending action leaves the phase unchanged.
pub open spec fn step_phase(phase: Phase, event: Event) -> Phase {
    match (phase, event) {
        (Phase::LoadingBare, Event::ModuleLoaded { module }) => Phase::ResolvingInitialize { module },
        (Phase::LoadingBare, Event::ModuleLoadError { .. }) => Phase::LoadingFallback,
        (Phase::LoadingFallback, Event::ModuleLoaded { module }) => Phase::ResolvingInitialize { module },
        (Phase::LoadingFallback, Event::ModuleLoadError { .. }) => Phase::Idle,
        (Phase::ResolvingInitialize { module }, Event::SymbolResolved { address }) =>
            Phase::ResolvingAvailable { module, initialize_stream: address },
        (Phase::ResolvingAvailable { module, initialize_stream }, Event::SymbolResolved { address }) =>
            Phase::ResolvingSend { module, initialize_stream, is_available: address },
        (Phase::ResolvingSend { module, initialize_stream, is_available }, Event::SymbolResolved { address }) =>
            Phase::ResolvingTerminate { module, initialize_stream, is_available, send_direct_data: address },
        (Phase::ResolvingTerminate { initialize_stream, is_available, send_direct_data, .. },
            Event::SymbolResolved { address }) =>
            Phase::InitializingDriver {
                entry_points: EntryPoints {
                    initialize_stream,
                    is_available,
                    send_direct_data,
                    terminate_stream: address,
                },
            },
        (Phase::ResolvingInitialize { .. }, Event::SymbolError { .. }) => Phase::Idle,
        (Phase::ResolvingAvailable { .. }, Event::SymbolError { .. }) => Phase::Idle,
        (Phase::ResolvingSend { .. }, Event::SymbolError { .. }) => Phase::Idle,
        (Phase::ResolvingTerminate { .. }, Event::SymbolError { .. }) => Phase::Idle,
        (Phase::InitializingDriver { entry_points }, Event::DriverReplied { ok }) =>
            if ok { Phase::CheckingAvailability { entry_points } } else { Phase::Idle },
        (Phase::CheckingAvailability { entry_points }, Event::DriverReplied { ok }) =>
            if ok { Phase::Active { entry_points } } else { Phase::Idle },
        _ => phase,
    }
}

/// What `step` reports after consuming `event` in `phase`.
pub open spec fn step_result(phase: Phase, event: Event) -> StepOutcome {
    match (phase, event) {
        (Phase::LoadingBare, Event::ModuleLoaded { module }) => StepOutcome::Continue {
            action: Action::ResolveSymbol { module, symbol: Symbol::InitializeStream },
        },
        (Phase::LoadingBare, Event::ModuleLoadError { .. }) => StepOutcome::Continue {
            action: Action::LoadFallbackPath,
        },
        (Phase::LoadingFallback, Event::ModuleLoaded { module }) => StepOutcome::Continue {
            action: Action::ResolveSymbol { module, symbol: Symbol::InitializeStream },
        },
        (Phase::LoadingFallback, Event::ModuleLoadError { code }) => StepOutcome::Failed {
            diagnostic: Diagnostic::ModuleLoadFailed { code },
        },
        (Phase::ResolvingInitialize { module }, Event::SymbolResolved { .. }) => StepOutcome::Continue {
            action: Action::ResolveSymbol { module, symbol: Symbol::IsAvailable },
        },
        (Phase::ResolvingAvailable { module, .. }, Event::SymbolResolved { .. }) => StepOutcome::Continue {
            action: Action::ResolveSymbol { module, symbol: Symbol::SendDirectData },
        },
        (Phase::ResolvingSend { module, .. }, Event::SymbolResolved { .. }) => StepOutcome::Continue {
            action: Action::ResolveSymbol { module, symbol: Symbol::TerminateStream },
        },
        (Phase::ResolvingTerminate { initialize_stream, .. }, Event::SymbolResolved { .. }) =>
            StepOutcome::Continue { action: Action::CallInitializeStream { entry: initialize_stream } },
        (Phase::ResolvingInitialize { .. }, Event::SymbolError { code }) => StepOutcome::Failed {
            diagnostic: Diagnostic::SymbolResolutionFailed { symbol: Symbol::InitializeStream, code },
        },
        (Phase::ResolvingAvailable { .. }, Event::SymbolError { code }) => StepOutcome::Failed {
            diagnostic: Diagnostic::SymbolResolutionFailed { symbol: Symbol::IsAvailable, code },
        },
        (Phase::ResolvingSend { .. }, Event::SymbolError { code }) => StepOutcome::Failed {
            diagnostic: Diagnostic::SymbolResolutionFailed { symbol: Symbol::SendDirectData, code },
        },
        (Phase::ResolvingTerminate { .. }, Event::SymbolError { code }) => StepOutcome::Failed {
            diagnostic: Diagnostic::SymbolResolutionFailed { symbol: Symbol::TerminateStream, code },
        },
        (Phase::InitializingDriver { entry_points }, Event::DriverReplied { ok }) =>
            if ok {
                StepOutcome::Continue { action: Action::CallIsAvailable { entry: entry_points.is_available } }
            } else {
                StepOutcome::Failed { diagnostic: Diagnostic::DriverInitializationFailed }
            },
        (Phase::CheckingAvailability { .. }, Event::DriverReplied { ok }) =>
            if ok {
                StepOutcome::Started
            } else {
                StepOutcome::Failed { diagnostic: Diagnostic::DriverDisabled }
            },
        _ => StepOutcome::Ignored,
    }
}

/// What `forward_data` returns in `phase`: the send command while a session
/// is active, nothing otherwise.
pub open spec fn forward_command(phase: Phase, data: u32) -> Option<SendCommand> {
    match phase {
        Phase::Active { entry_points } => Some(SendCommand { entry: entry_points.send_direct_data, data }),
        _ => None,
    }
}

/// The phase after `stop`: `Idle` from `Active`, unchanged otherwise.
pub open spec fn stop_phase(phase: Phase) -> Phase {
    match phase {
        Phase::Active { .. } => Phase::Idle,
        _ => phase,
    }
}

/// What `stop` returns in `phase`: the teardown command while a session is
/// active, nothing otherwise.
pub open spec fn stop_command(phase: Phase) -> Option<TerminateCommand> {
    match phase {
        Phase::Active { entry_points } => Some(TerminateCommand { entry: entry_points.terminate_stream }),
        _ => None,
    }
}

/// The process-wide binding to the driver. Exactly one should exist, owned
/// by the single caller that drives the lifecycle; the module handle behind
/// the host's tokens lives for the rest of the process, the driver module
/// is never unloaded.
pub struct Binding {
    phase: Phase,
}

impl View for Binding {
    type V = Phase;

    closed spec fn view(&self) -> Phase {
        self.phase
    }
}

impl Binding {
    /// A fresh binding: no session, nothing resolved.
    pub fn new() -> (r: Binding)
        ensures
            r@ == Phase::Idle,
    {
        Binding { phase: Phase::Idle }
    }

    /// Whether a session is active: true only between a successful `start`
    /// and the next `stop`.
    pub fn is_initialized(&self) -> (r: bool)
        ensures
            r == (self@ is Active),
    {
        match self.phase {
            Phase::Active { .. } => true,
            _ => false,
        }
    }

    /// Begin the setup sequence. While a session is active this is rejected
    /// with [`Diagnostic::AlreadyInitialized`] and changes nothing; in every
    /// other phase the sequence starts over at the bare-name load, keeping
    /// nothing from any earlier attempt.
    pub fn start(&mut self) -> (r: Result<Action, Diagnostic>)
        ensures
            final(self)@ == start_phase(old(self)@),
            r == start_result(old(self)@),
    {
        match self.phase {
            Phase::Active { .. } => Err(Diagnostic::AlreadyInitialized),
            _ => {
                self.phase = Phase::LoadingBare;
                Ok(Action::LoadBareName)
            }
        }
    }

    /// Consume the outcome of the last action and say what comes next. On
    /// any failure the binding returns to `Idle`: no partial resolution is
    /// kept, and the diagnostic carries the failing symbol or the platform
    /// error code. An event that answers no pending action is ignored.
    pub fn step(&mut self, event: Event) -> (r: StepOutcome)
        ensures
            final(self)@ == step_phase(old(self)@, event),
            r == step_result(old(self)@, event),
    {
        let phase = self.phase;
        match (phase, event) {
            (Phase::LoadingBare, Event::ModuleLoaded { module }) => {
                self.phase = Phase::ResolvingInitialize { module };
                StepOutcome::Continue {
                    action: Action::ResolveSymbol { module, symbol: Symbol::InitializeStream },
                }
            }
            (Phase::LoadingBare, Event::ModuleLoadError { .. }) => {
                self.phase = Phase::LoadingFallback;
                StepOutcome::Continue { action: Action::LoadFallbackPath }
            }
            (Phase::LoadingFallback, Event::ModuleLoaded { module }) => {
                self.phase = Phase::ResolvingInitialize { module };
                StepOutcome::Continue {
                    action: Action::ResolveSymbol { module, symbol: Symbol::InitializeStream },
                }
            }
            (Phase::LoadingFallback, Event::ModuleLoadError { code }) => {
                self.phase = Phase::Idle;
                StepOutcome::Failed { diagnostic: Diagnostic::ModuleLoadFailed { code } }
            }
            (Phase::ResolvingInitialize { module }, Event::SymbolResolved { address }) => {
                self.phase = Phase::ResolvingAvailable { module, initialize_stream: address };
                StepOutcome::Continue {
                    action: Action::ResolveSymbol { module, symbol: Symbol::IsAvailable },
                }
            }
            (Phase::ResolvingAvailable { module, initialize_stream }, Event::SymbolResolved { address }) => {
                self.phase = Phase::ResolvingSend { module, initialize_stream, is_available: address };
                StepOutcome::Continue {
                    action: Action::ResolveSymbol { module, symbol: Symbol::SendDirectData },
                }
            }
            (Phase::ResolvingSend { module, initialize_stream, is_available }, Event::SymbolResolved { address }) => {
                self.phase = Phase::ResolvingTerminate {
                    module,
                    initialize_stream,
                    is_available,
                    send_direct_data: address,
                };
                StepOutcome::Continue {
                    action: Action::ResolveSymbol { module, symbol: Symbol::TerminateStream },
                }
            }
            (Phase::ResolvingTerminate { initialize_stream, is_available, send_direct_data, .. },
                Event::SymbolResolved { address }) => {
                self.phase = Phase::InitializingDriver {
                    entry_points: EntryPoints {
                        initialize_stream,
                        is_available,
                        send_direct_data,
                        terminate_stream: address,
                    },
                };
                StepOutcome::Continue { action: Action::CallInitializeStream { entry: initialize_stream } }
            }
            (Phase::ResolvingInitialize { .. }, Event::SymbolError { code }) => {
                self.phase = Phase::Idle;
                StepOutcome::Failed {
                    diagnostic: Diagnostic::SymbolResolutionFailed { symbol: Symbol::InitializeStream, code },
                }
            }
            (Phase::ResolvingAvailable { .. }, Event::SymbolError { code }) => {
                self.phase = Phase::Idle;
                StepOutcome::Failed {
                    diagnostic: Diagnostic::SymbolResolutionFailed { symbol: Symbol::IsAvailable, code },
                }
            }
            (Phase::ResolvingSend { .. }, Event::SymbolError { code }) => {
                self.phase = Phase::Idle;
                StepOutcome::Failed {
                    diagnostic: Diagnostic::SymbolResolutionFailed { symbol: Symbol::SendDirectData, code },
                }
            }
            (Phase::ResolvingTerminate { .. }, Event::SymbolError { code }) => {
                self.phase = Phase::Idle;
                StepOutcome::Failed {
                    diagnostic: Diagnostic::SymbolResolutionFailed { symbol: Symbol::TerminateStream, code },
                }
            }
            (Phase::InitializingDriver { entry_points }, Event::DriverReplied { ok }) => {
                if ok {
                    self.phase = Phase::CheckingAvailability { entry_points };
                    StepOutcome::Continue {
                        action: Action::CallIsAvailable { entry: entry_points.is_available },
                    }
                } else {
                    self.phase = Phase::Idle;
                    StepOutcome::Failed { diagnostic: Diagnostic::DriverInitializationFailed }
                }
            }
            (Phase::CheckingAvailability { entry_points }, Event::DriverReplied { ok }) => {
                if ok {
                    self.phase = Phase::Active { entry_points };
                    StepOutcome::Started
                } else {
                    self.phase = Phase::Idle;
                    StepOutcome::Failed { diagnostic: Diagnostic::DriverDisabled }
                }
            }
            _ => StepOutcome::Ignored,
        }
    }

    /// Forward one data word. While a session is active this returns the
    /// send command for the host to perform, with the payload verbatim;
    /// otherwise it returns nothing and has no effect — the word is dropped
    /// silently by design, never an error. The binding itself never changes.
    pub fn forward_data(&self, data: u32) -> (r: Option<SendCommand>)
        ensures
            r == forward_command(self@, data),
    {
        match self.phase {
            Phase::Active { entry_points } => Some(SendCommand {
                entry: entry_points.send_direct_data,
                data,
            }),
            _ => None,
        }
    }

    /// End the session. From `Active` the binding returns to `Idle`
    /// unconditionally — before the teardown call is even made, so whatever
    /// the driver later reports gates nothing — and the teardown command is
    /// returned for the host to perform. In every other phase this is a
    /// no-op. `stop` never fails.
    pub fn stop(&mut self) -> (r: Option<TerminateCommand>)
        ensures
            final(self)@ == stop_phase(old(self)@),
            r == stop_command(old(self)@),
    {
        match self.phase {
            Phase::Active { entry_points } => {
                self.phase = Phase::Idle;
                Some(TerminateCommand { entry: entry_points.terminate_stream })
            }
            _ => None,
        }
    }
}

/// Starting while a session is active is rejected with `AlreadyInitialized`
/// and leaves the binding — its entry points included — exactly as the
/// earlier successful `start` left it.
pub proof fn lemma_start_while_active_rejected(entry_points: EntryPoints)
    ensures
        start_phase(Phase::Active { entry_points }) == (Phase::Active { entry_points }),
        start_result(Phase::Active { entry_points }) == Err::<Action, Diagnostic>(Diagnostic::AlreadyInitialized),
{
}

/// When the bare-name load and the fallback-path load both fail, the setup
/// sequence ends with `ModuleLoadFailed` carrying the second attempt's error
/// code, and the binding is back at `Idle` with nothing resolved.
pub proof fn lemma_both_loads_fail(first_code: u32, second_code: u32)
    ensures
        ({
            let after_start = start_phase(Phase::Idle);
            let after_bare = step_phase(after_start, Event::ModuleLoadError { code: first_code });
            let after_fallback = step_phase(after_bare, Event::ModuleLoadError { code: second_code });
            &&& start_result(Phase::Idle) == Ok::<Action, Diagnostic>(Action::LoadBareName)
            &&& step_result(after_start, Event::ModuleLoadError { code: first_code })
                == StepOutcome::Continue { action: Action::LoadFallbackPath }
            &&& step_result(after_bare, Event::ModuleLoadError { code: second_code })
                == StepOutcome::Failed { diagnostic: Diagnostic::ModuleLoadFailed { code: second_code } }
            &&& after_fallback == Phase::Idle
        }),
{
}

/// If any one of the four symbols fails to resolve, the setup sequence ends
/// with `SymbolResolutionFailed` naming exactly that symbol and carrying the
/// platform code, and the binding is back at `Idle`; a later `start` begins
/// again at the bare-name load, reusing nothing from the failed attempt.
pub proof fn lemma_symbol_failure_aborts(phase: Phase, code: u32)
    requires
        pending_symbol(phase) is Some,
    ensures
        step_phase(phase, Event::SymbolError { code }) == Phase::Idle,
        step_result(phase, Event::SymbolError { code }) == (StepOutcome::Failed {
            diagnostic: Diagnostic::SymbolResolutionFailed {
                symbol: pending_symbol(phase)->Some_0,
                code,
            },
        }),
        start_phase(Phase::Idle) == Phase::LoadingBare,
        start_result(Phase::Idle) == Ok::<Action, Diagnostic>(Action::LoadBareName),
{
}

/// While no session is active, `forward_data` commands nothing: the word is
/// dropped silently, no entry point is handed out, and (by its `&self`
/// signature) the binding cannot change.
pub proof fn lemma_forward_data_while_uninitialized(data: u32)
    ensures
        forward_command(Phase::Idle, data) is None,
{
}

/// While a session is active, `forward_data` commands exactly one call of
/// the resolved `SendDirectData` entry point with the payload verbatim.
pub proof fn lemma_forward_data_verbatim(entry_points: EntryPoints, data: u32)
    ensures
        forward_command(Phase::Active { entry_points }, data) == Some(SendCommand {
            entry: entry_points.send_direct_data,
            data,
        }),
{
}

/// While no session is active, `stop` commands nothing and changes nothing.
pub proof fn lemma_stop_while_uninitialized()
    ensures
        stop_phase(Phase::Idle) == Phase::Idle,
        stop_command(Phase::Idle) is None,
{
}

/// After a successful `start`, `stop` returns the binding to `Idle`
/// unconditionally: the teardown command is handed out with the binding
/// already `Idle`, and the driver's reply — success or failure — is not
/// consumed by any transition; feeding it to `step` anyway changes nothing.
pub proof fn lemma_stop_unconditional(entry_points: EntryPoints, reported_ok: bool)
    ensures
        stop_phase(Phase::Active { entry_points }) == Phase::Idle,
        stop_command(Phase::Active { entry_points }) == Some(TerminateCommand {
            entry: entry_points.terminate_stream,
        }),
        step_phase(Phase::Idle, Event::DriverReplied { ok: reported_ok }) == Phase::Idle,
        step_result(Phase::Idle, Event::DriverReplied { ok: reported_ok }) == StepOutcome::Ignored,
{
}

/// The one success path: from `Idle`, a successful load, four successful
/// resolutions — asked for in the fixed order `InitializeKDMAPIStream`,
/// `IsKDMAPIAvailable`, `SendDirectData`, `TerminateKDMAPIStream` — a true
/// reply to the initialize call and a true reply to the availability check
/// leave the binding `Active` with exactly the four resolved entry points.
pub proof fn lemma_successful_start(
    module: u64,
    initialize_stream: u64,
    is_available: u64,
    send_direct_data: u64,
    terminate_stream: u64,
)
    ensures
        ({
            let table = EntryPoints { initialize_stream, is_available, send_direct_data, terminate_stream };
            let loading = start_phase(Phase::Idle);
            let resolving_initialize = step_phase(loading, Event::ModuleLoaded { module });
            let resolving_available = step_phase(resolving_initialize, Event::SymbolResolved { address: initialize_stream });
            let resolving_send = step_phase(resolving_available, Event::SymbolResolved { address: is_available });
            let resolving_terminate = step_phase(resolving_send, Event::SymbolResolved { address: send_direct_data });
            let initializing = step_phase(resolving_terminate, Event::SymbolResolved { address: terminate_stream });
            let checking = step_phase(initializing, Event::DriverReplied { ok: true });
            let active = step_phase(checking, Event::DriverReplied { ok: true });
            &&& step_result(loading, Event::ModuleLoaded { module }) == StepOutcome::Continue {
                action: Action::ResolveSymbol { module, symbol: Symbol::InitializeStream },
            }
            &&& step_result(resolving_initialize, Event::SymbolResolved { address: initialize_stream })
                == StepOutcome::Continue {
                    action: Action::ResolveSymbol { module, symbol: Symbol::IsAvailable },
                }
            &&& step_result(resolving_available, Event::SymbolResolved { address: is_available })
                == StepOutcome::Continue {
                    action: Action::ResolveSymbol { module, symbol: Symbol::SendDirectData },
                }
            &&& step_result(resolving_send, Event::SymbolResolved { address: send_direct_data })
                == StepOutcome::Continue {
                    action: Action::ResolveSymbol { module, symbol: Symbol::TerminateStream },
                }
            &&& step_result(resolving_terminate, Event::SymbolResolved { address: terminate_stream })
                == StepOutcome::Continue { action: Action::CallInitializeStream { entry: initialize_stream } }
            &&& step_result(initializing, Event::DriverReplied { ok: true }) == StepOutcome::Continue {
                action: Action::CallIsAvailable { entry: is_available },
            }
            &&& step_result(checking, Event::DriverReplied { ok: true }) == StepOutcome::Started
            &&& active == Phase::Active { entry_points: table }
        }),
{
}

/// `step` never touches a resting phase: while the binding is `Idle` or
/// `Active`, every event is ignored. An active session's entry points can
/// therefore not be changed by stray events; only `stop` ends the session.
pub proof fn lemma_resting_phases_ignore_events(phase: Phase, event: Event)
    requires
        phase is Idle || phase is Active,
    ensures
        step_phase(phase, event) == phase,
        step_result(phase, event) == StepOutcome::Ignored,
{
}

/// The initialization flag turns true on exactly one path: the binding
/// becomes `Active` only when the availability check answers a true reply —
/// partial resolution is never observable as an active session.
pub proof fn lemma_activation_only_through_availability_check(phase: Phase, event: Event)
    ensures
        (step_phase(phase, event) is Active && !(phase is Active)) ==> (phase is CheckingAvailability
            && event == (Event::DriverReplied { ok: true })),
{
}

/// If the driver's stream initialization reports failure, the setup sequence
/// ends with `DriverInitializationFailed` and the binding is back at `Idle`.
pub proof fn lemma_driver_initialization_failure(entry_points: EntryPoints)
    ensures
        (step_phase(Phase::InitializingDriver { entry_points }, Event::DriverReplied { ok: false })
            == Phase::Idle),
        (step_result(Phase::InitializingDriver { entry_points }, Event::DriverReplied { ok: false })
            == StepOutcome::Failed { diagnostic: Diagnostic::DriverInitializationFailed }),
{
}

/// If the driver reports itself disabled after its stream initialized, the
/// setup sequence ends with `DriverDisabled`, the binding is back at `Idle`,
/// and every later `forward_data` commands nothing.
pub proof fn lemma_driver_disabled(entry_points: EntryPoints, data: u32)
    ensures
        (step_phase(Phase::CheckingAvailability { entry_points }, Event::DriverReplied { ok: false })
            == Phase::Idle),
        (step_result(Phase::CheckingAvailability { entry_points }, Event::DriverReplied { ok: false })
            == StepOutcome::Failed { diagnostic: Diagnostic::DriverDisabled }),
        forward_command(Phase::Idle, data) is None,
{
}

impl Default for Binding {
    /// Same as [`Binding::new`]: a fresh binding with no session.
    fn default() -> (r: Binding)
        ensures
            r@ == Phase::Idle,
    {
        Binding::new()
    }
}

} // verus!
