use kdmapi::Action;
use kdmapi::Binding;
use kdmapi::Diagnostic;
use kdmapi::Event;
use kdmapi::StepOutcome;
use kdmapi::Symbol;

const MODULE: u64 = 0x10;
const INITIALIZE_ENTRY: u64 = 0x21;
const AVAILABLE_ENTRY: u64 = 0x22;
const SEND_ENTRY: u64 = 0x23;
const TERMINATE_ENTRY: u64 = 0x24;

/// A driver stood up in memory: fixed tokens for the module and the four
/// entry points, scripted outcomes, and counters for every call the binding
/// commands.
struct MockDriver {
    bare_load: Result<u64, u32>,
    fallback_load: Result<u64, u32>,
    initialize_symbol: Result<u64, u32>,
    available_symbol: Result<u64, u32>,
    send_symbol: Result<u64, u32>,
    terminate_symbol: Result<u64, u32>,
    initialize_ok: bool,
    available_ok: bool,
    terminate_ok: bool,
    resolve_calls: usize,
    initialize_calls: usize,
    available_calls: usize,
    send_calls: Vec<(u64, u32)>,
    terminate_calls: usize,
}

fn working_driver() -> MockDriver {
    MockDriver {
        bare_load: Ok(MODULE),
        fallback_load: Err(0x7e),
        initialize_symbol: Ok(INITIALIZE_ENTRY),
        available_symbol: Ok(AVAILABLE_ENTRY),
        send_symbol: Ok(SEND_ENTRY),
        terminate_symbol: Ok(TERMINATE_ENTRY),
        initialize_ok: true,
        available_ok: true,
        terminate_ok: true,
        resolve_calls: 0,
        initialize_calls: 0,
        available_calls: 0,
        send_calls: Vec::new(),
        terminate_calls: 0,
    }
}

fn perform(mock: &mut MockDriver, action: Action) -> Event {
    match action {
        Action::LoadBareName => match mock.bare_load {
            Ok(module) => Event::ModuleLoaded { module },
            Err(code) => Event::ModuleLoadError { code },
        },
        Action::LoadFallbackPath => match mock.fallback_load {
            Ok(module) => Event::ModuleLoaded { module },
            Err(code) => Event::ModuleLoadError { code },
        },
        Action::ResolveSymbol { module, symbol } => {
            assert_eq!(module, MODULE);
            mock.resolve_calls += 1;
            let outcome = match symbol {
                Symbol::InitializeStream => mock.initialize_symbol,
                Symbol::IsAvailable => mock.available_symbol,
                Symbol::SendDirectData => mock.send_symbol,
                Symbol::TerminateStream => mock.terminate_symbol,
            };
            match outcome {
                Ok(address) => Event::SymbolResolved { address },
                Err(code) => Event::SymbolError { code },
            }
        }
        Action::CallInitializeStream { entry } => {
            assert_eq!(entry, INITIALIZE_ENTRY);
            mock.initialize_calls += 1;
            Event::DriverReplied { ok: mock.initialize_ok }
        }
        Action::CallIsAvailable { entry } => {
            assert_eq!(entry, AVAILABLE_ENTRY);
            mock.available_calls += 1;
            Event::DriverReplied { ok: mock.available_ok }
        }
    }
}

fn run_start(binding: &mut Binding, mock: &mut MockDriver) -> Result<(), Diagnostic> {
    let mut action = match binding.start() {
        Ok(first) => first,
        Err(diagnostic) => return Err(diagnostic),
    };
    loop {
        let event = perform(mock, action);
        match binding.step(event) {
            StepOutcome::Continue { action: next } => action = next,
            StepOutcome::Failed { diagnostic } => return Err(diagnostic),
            StepOutcome::Started => return Ok(()),
            StepOutcome::Ignored => panic!("event did not match the pending action"),
        }
    }
}

fn run_forward_data(binding: &Binding, mock: &mut MockDriver, data: u32) {
    if let Some(command) = binding.forward_data(data) {
        mock.send_calls.push((command.entry, command.data));
    }
}

fn run_stop(binding: &mut Binding, mock: &mut MockDriver) {
    if let Some(command) = binding.stop() {
        assert_eq!(command.entry, TERMINATE_ENTRY);
        mock.terminate_calls += 1;
        // the driver's reply is observed and discarded
        let _ = mock.terminate_ok;
    }
}

#[test]
fn successful_session_forwards_one_word() {
    let mut binding = Binding::new();
    let mut mock = working_driver();

    assert!(run_start(&mut binding, &mut mock).is_ok());
    assert!(binding.is_initialized());
    assert_eq!(mock.resolve_calls, 4);
    assert_eq!(mock.initialize_calls, 1);
    assert_eq!(mock.available_calls, 1);

    run_forward_data(&binding, &mut mock, 0x007F3090);
    assert_eq!(mock.send_calls, vec![(SEND_ENTRY, 0x007F3090)]);

    run_stop(&mut binding, &mut mock);
    assert_eq!(mock.terminate_calls, 1);
    assert!(!binding.is_initialized());
}

#[test]
fn second_start_is_rejected_as_already_initialized() {
    let mut binding = Binding::new();
    let mut mock = working_driver();

    assert!(run_start(&mut binding, &mut mock).is_ok());
    let resolves_after_first: usize = mock.resolve_calls;

    assert_eq!(run_start(&mut binding, &mut mock), Err(Diagnostic::AlreadyInitialized));
    assert!(binding.is_initialized());
    // the rejected call performed no platform work at all
    assert_eq!(mock.resolve_calls, resolves_after_first);

    // the entry points are unchanged from the first call's result
    run_forward_data(&binding, &mut mock, 7);
    assert_eq!(mock.send_calls, vec![(SEND_ENTRY, 7)]);
}

#[test]
fn both_load_attempts_failing_yield_module_load_failed() {
    let mut binding = Binding::new();
    let mut mock = working_driver();
    mock.bare_load = Err(0x7e);
    mock.fallback_load = Err(0x57);

    // the diagnostic carries the code of the second (fallback) attempt
    assert_eq!(
        run_start(&mut binding, &mut mock),
        Err(Diagnostic::ModuleLoadFailed { code: 0x57 })
    );
    assert!(!binding.is_initialized());
    // no entry point was populated: no symbol was even resolved
    assert_eq!(mock.resolve_calls, 0);
    run_forward_data(&binding, &mut mock, 1);
    assert!(mock.send_calls.is_empty());
}

#[test]
fn fallback_load_succeeds_after_bare_name_fails() {
    let mut binding = Binding::new();
    let mut mock = working_driver();
    mock.bare_load = Err(0x7e);
    mock.fallback_load = Ok(MODULE);

    assert!(run_start(&mut binding, &mut mock).is_ok());
    assert!(binding.is_initialized());
}

#[test]
fn symbol_failure_names_the_symbol_and_next_start_resolves_afresh() {
    let mut binding = Binding::new();
    let mut mock = working_driver();
    mock.send_symbol = Err(0x7f);

    assert_eq!(
        run_start(&mut binding, &mut mock),
        Err(Diagnostic::SymbolResolutionFailed { symbol: Symbol::SendDirectData, code: 0x7f })
    );
    assert!(!binding.is_initialized());
    // the first two symbols resolved and the third failed
    assert_eq!(mock.resolve_calls, 3);
    // nothing from the failed attempt is reused
    run_forward_data(&binding, &mut mock, 1);
    assert!(mock.send_calls.is_empty());

    // a repaired driver makes the next start resolve all four symbols again
    mock.send_symbol = Ok(SEND_ENTRY);
    assert!(run_start(&mut binding, &mut mock).is_ok());
    assert_eq!(mock.resolve_calls, 3 + 4);
    assert!(binding.is_initialized());
}

#[test]
fn first_symbol_failure_is_reported() {
    let mut binding = Binding::new();
    let mut mock = working_driver();
    mock.initialize_symbol = Err(0x2);

    assert_eq!(
        run_start(&mut binding, &mut mock),
        Err(Diagnostic::SymbolResolutionFailed { symbol: Symbol::InitializeStream, code: 0x2 })
    );
    assert_eq!(mock.resolve_calls, 1);
}

#[test]
fn last_symbol_failure_is_reported() {
    let mut binding = Binding::new();
    let mut mock = working_driver();
    mock.terminate_symbol = Err(0xa1);

    assert_eq!(
        run_start(&mut binding, &mut mock),
        Err(Diagnostic::SymbolResolutionFailed { symbol: Symbol::TerminateStream, code: 0xa1 })
    );
    assert_eq!(mock.resolve_calls, 4);
    assert!(!binding.is_initialized());
}

#[test]
fn forward_data_while_uninitialized_is_a_silent_no_op() {
    let binding = Binding::new();
    let mut mock = working_driver();

    run_forward_data(&binding, &mut mock, 0x007F3090);
    assert!(mock.send_calls.is_empty());
    assert!(!binding.is_initialized());
}

#[test]
fn stop_while_uninitialized_is_a_silent_no_op() {
    let mut binding = Binding::new();
    let mut mock = working_driver();

    run_stop(&mut binding, &mut mock);
    assert_eq!(mock.terminate_calls, 0);
    assert!(!binding.is_initialized());
}

#[test]
fn stop_returns_to_uninitialized_even_when_terminate_reports_failure() {
    let mut binding = Binding::new();
    let mut mock = working_driver();
    mock.terminate_ok = false;

    assert!(run_start(&mut binding, &mut mock).is_ok());
    run_stop(&mut binding, &mut mock);
    assert_eq!(mock.terminate_calls, 1);
    assert!(!binding.is_initialized());

    // and start() can be retried after the failed teardown
    assert!(run_start(&mut binding, &mut mock).is_ok());
    assert!(binding.is_initialized());
}

#[test]
fn driver_initialization_failure_aborts_setup() {
    let mut binding = Binding::new();
    let mut mock = working_driver();
    mock.initialize_ok = false;

    assert_eq!(
        run_start(&mut binding, &mut mock),
        Err(Diagnostic::DriverInitializationFailed)
    );
    assert_eq!(mock.initialize_calls, 1);
    assert_eq!(mock.available_calls, 0);
    assert!(!binding.is_initialized());
}

#[test]
fn disabled_driver_aborts_setup_and_forwarding_stays_a_no_op() {
    let mut binding = Binding::new();
    let mut mock = working_driver();
    mock.available_ok = false;

    assert_eq!(run_start(&mut binding, &mut mock), Err(Diagnostic::DriverDisabled));
    // the stream was told to initialize before the availability check
    assert_eq!(mock.initialize_calls, 1);
    assert_eq!(mock.available_calls, 1);
    assert!(!binding.is_initialized());

    run_forward_data(&binding, &mut mock, 0x1234);
    run_forward_data(&binding, &mut mock, 0x5678);
    assert!(mock.send_calls.is_empty());
}

#[test]
fn default_binding_is_uninitialized() {
    let binding = Binding::default();
    assert!(!binding.is_initialized());
}
