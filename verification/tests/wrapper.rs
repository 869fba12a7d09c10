use std::cell::Cell;

use upgrayedd::slot::TargetSlot;
use upgrayedd::symbol::InterceptedSymbol;
use upgrayedd::wrapper::{complete_resolution, wrapper_call, CallOutcome, WrapperAction};

// A stand-in address table for the "real" implementations that the
// dynamic loader would hand back: calling through an entry point is
// simulated by dispatching on the address.
const FROBULATE_ENTRY: usize = 0x7000;

// The real `size_t frobulate(int n)` returns `n * 2`.
fn call_frobulate(entry: usize, n: i64) -> i64 {
    assert_eq!(entry, FROBULATE_ENTRY, "delegation must use the published entry point");
    n * 2
}

fn frobulate_symbol() -> InterceptedSymbol {
    InterceptedSymbol::new(b"frobulate".to_vec()).expect("plain name")
}

#[test]
fn passthrough_hook_is_transparent() {
    // A hook that forwards unmodified arguments and returns the result
    // unmodified behaves exactly like the un-interposed function:
    // frobulate(21) == 42.
    let mut slot = TargetSlot::new();
    let sym = frobulate_symbol();
    let out = wrapper_call(&mut slot, &sym, 21i64, |_c_name| FROBULATE_ENTRY, |entry, n| {
        call_frobulate(entry, n)
    });
    match out {
        CallOutcome::Returned { value } => assert_eq!(value, 42),
        CallOutcome::Aborting { .. } => panic!("resolution should succeed"),
    }
    assert_eq!(slot.entry(), Some(FROBULATE_ENTRY));
}

#[test]
fn hook_may_transform_arguments() {
    // A hook that calls the target with n + 42 instead of n: called with
    // n = 0, the wrapper returns the real function's result for 42.
    let mut slot = TargetSlot::new();
    let sym = frobulate_symbol();
    let out = wrapper_call(&mut slot, &sym, 0i64, |_c_name| FROBULATE_ENTRY, |entry, n| {
        call_frobulate(entry, n + 42)
    });
    match out {
        CallOutcome::Returned { value } => assert_eq!(value, call_frobulate(FROBULATE_ENTRY, 42)),
        CallOutcome::Aborting { .. } => panic!("resolution should succeed"),
    }
}

#[test]
fn hook_may_bypass_target() {
    // A hook that never consults the resolved target returns its constant
    // for any argument; resolution is still attempted eagerly, so the
    // slot ends up resolved all the same.
    let mut slot = TargetSlot::new();
    let sym = frobulate_symbol();
    let out = wrapper_call(&mut slot, &sym, 3i64, |_c_name| FROBULATE_ENTRY, |_entry, _n| 7i64);
    match out {
        CallOutcome::Returned { value } => assert_eq!(value, 7),
        CallOutcome::Aborting { .. } => panic!("resolution should succeed"),
    }
    assert_eq!(slot.entry(), Some(FROBULATE_ENTRY));
}

#[test]
fn failed_resolution_aborts_with_diagnostic() {
    // When the resolver finds nothing, the wrapper call ends in the
    // aborting outcome, and the diagnostic is the fixed message, the
    // symbol's exact name, and a newline. The hook never runs.
    let mut slot = TargetSlot::new();
    let sym = InterceptedSymbol::new(b"frobulate".to_vec()).expect("plain name");
    let out = wrapper_call(&mut slot, &sym, 21i64, |_c_name| 0usize, |_entry, _n| -> i64 {
        panic!("the hook must not run when resolution fails")
    });
    let mut expected =
        b"barf: upgrayedd tried to hook something that broke rust's runtime: ".to_vec();
    expected.extend_from_slice(b"frobulate");
    expected.push(b'\n');
    match out {
        CallOutcome::Returned { .. } => panic!("a failed resolution must not delegate"),
        CallOutcome::Aborting { diagnostic } => assert_eq!(diagnostic, expected),
    }
    assert!(slot.entry().is_none());
}

#[test]
fn resolver_runs_at_most_once_per_slot() {
    // Resolve-once: the first call resolves and publishes; later calls
    // observe the published entry point and never consult the resolver
    // again.
    let mut slot = TargetSlot::new();
    let sym = frobulate_symbol();
    let resolutions = Cell::new(0u32);
    for n in [21i64, 0, 5] {
        let out = wrapper_call(
            &mut slot,
            &sym,
            n,
            |_c_name| {
                resolutions.set(resolutions.get() + 1);
                FROBULATE_ENTRY
            },
            |entry, arg| call_frobulate(entry, arg),
        );
        match out {
            CallOutcome::Returned { value } => assert_eq!(value, n * 2),
            CallOutcome::Aborting { .. } => panic!("resolution should succeed"),
        }
    }
    assert_eq!(resolutions.get(), 1);
}

#[test]
fn lost_race_delegates_to_published_entry() {
    // A call whose resolution lost the race discards its own lookup and
    // delegates to the entry point that was already published.
    let mut slot = TargetSlot::new();
    let sym = frobulate_symbol();
    slot.publish(FROBULATE_ENTRY);
    let action = complete_resolution(&mut slot, 0x9999, &sym);
    match action {
        WrapperAction::Delegate { entry } => assert_eq!(entry, FROBULATE_ENTRY),
        WrapperAction::Fatal { .. } => panic!("a resolved slot never takes the fatal path"),
    }
    assert_eq!(slot.entry(), Some(FROBULATE_ENTRY));
}

#[test]
fn first_resolution_installs_lookup() {
    let mut slot = TargetSlot::new();
    let sym = frobulate_symbol();
    let action = complete_resolution(&mut slot, FROBULATE_ENTRY, &sym);
    match action {
        WrapperAction::Delegate { entry } => assert_eq!(entry, FROBULATE_ENTRY),
        WrapperAction::Fatal { .. } => panic!("a usable lookup must delegate"),
    }
    assert_eq!(slot.entry(), Some(FROBULATE_ENTRY));
}
