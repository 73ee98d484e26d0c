use dinput_proxy::forward::{forward_call, forward_decision, show_joy_cpl, ForwardResult, E_FAIL};
use dinput_proxy::handle::{handle_from_load, HandleCell, LibraryHandle};
use dinput_proxy::lifecycle::{
    lifecycle_action, lifecycle_report, LifecycleAction, PROCESS_ATTACH, PROCESS_DETACH,
};
use dinput_proxy::path::{fallback_directory_units, resolve_library_path, trim_trailing_nulls};

fn units(s: &str) -> Vec<u16> {
    s.encode_utf16().collect()
}

#[test]
fn lifecycle_attach_initializes() {
    assert_eq!(lifecycle_action(PROCESS_ATTACH), LifecycleAction::Initialize);
}

#[test]
fn lifecycle_detach_deinitializes() {
    assert_eq!(lifecycle_action(PROCESS_DETACH), LifecycleAction::Deinitialize);
}

#[test]
fn lifecycle_other_reasons_do_nothing() {
    // Thread-level notifications and arbitrary reason codes are ignored.
    assert_eq!(lifecycle_action(2), LifecycleAction::NoAction);
    assert_eq!(lifecycle_action(3), LifecycleAction::NoAction);
    assert_eq!(lifecycle_action(u32::MAX), LifecycleAction::NoAction);
}

#[test]
fn lifecycle_always_reports_success() {
    assert!(lifecycle_report(true));
    assert!(lifecycle_report(false));
}

#[test]
fn invalid_handle_is_invalid() {
    assert!(LibraryHandle::invalid().is_invalid());
    assert!(!LibraryHandle { raw: 0x7000_0000 }.is_invalid());
}

#[test]
fn failed_load_records_invalid_sentinel() {
    assert!(handle_from_load(None).is_invalid());
}

#[test]
fn successful_load_keeps_module_address() {
    let h = handle_from_load(Some(0x7000_0000));
    assert_eq!(h.raw, 0x7000_0000);
    assert!(!h.is_invalid());
}

#[test]
fn cell_starts_empty() {
    let c = HandleCell::empty();
    assert_eq!(c.get(), None);
}

#[test]
fn cell_initializes_at_most_once() {
    let mut c = HandleCell::empty();
    let first = c.get_or_init(LibraryHandle { raw: 0x1000 });
    // A later resolution, even one that computed a different handle, observes
    // the first recorded value and does not replace it.
    let second = c.get_or_init(LibraryHandle { raw: 0x2000 });
    assert_eq!(first, LibraryHandle { raw: 0x1000 });
    assert_eq!(second, first);
    assert_eq!(c.get(), Some(first));
}

#[test]
fn cell_keeps_a_failed_resolution() {
    let mut c = HandleCell::empty();
    let first = c.get_or_init(LibraryHandle::invalid());
    let second = c.get_or_init(LibraryHandle { raw: 0x3000 });
    assert!(first.is_invalid());
    assert!(second.is_invalid());
}

#[test]
fn trimming_strips_trailing_nulls() {
    let mut padded = units(r"C:\Windows\System32");
    padded.extend([0u16; 14]);
    let trimmed = trim_trailing_nulls(&padded);
    assert_eq!(trimmed, units(r"C:\Windows\System32"));
    assert!(!trimmed.contains(&0));
}

#[test]
fn trimming_all_nulls_leaves_nothing() {
    let padded = vec![0u16; 8];
    assert_eq!(trim_trailing_nulls(&padded), Vec::<u16>::new());
    assert_eq!(trim_trailing_nulls(&Vec::new()), Vec::<u16>::new());
}

#[test]
fn trimming_touches_only_the_tail() {
    let buffer = vec![65u16, 0, 66, 0, 0];
    assert_eq!(trim_trailing_nulls(&buffer), vec![65u16, 0, 66]);
}

#[test]
fn fallback_directory_is_system32() {
    assert_eq!(fallback_directory_units(), units(r"C:\Windows\System32"));
}

#[test]
fn zero_written_builds_the_fallback_path() {
    // Whatever the buffer holds, a query that wrote nothing yields the fixed
    // fallback directory plus the library's file name.
    let stale = units(r"Z:\stale");
    let path = resolve_library_path(&stale, 0);
    assert_eq!(path, units(r"C:\Windows\System32\dinput8.dll"));
}

#[test]
fn queried_directory_builds_the_real_path() {
    let mut buffer = units(r"D:\OS\sys");
    buffer.extend([0u16; 251]);
    let path = resolve_library_path(&buffer, 9);
    assert_eq!(path, units(r"D:\OS\sys\dinput8.dll"));
    assert!(!path.contains(&0));
}

#[test]
fn forwarding_is_transparent() {
    // A stand-in for the genuine export: it writes an interface pointer to
    // the output slot and returns a status of its own choosing.
    let stand_in = |version: u32| -> (i32, usize) { (0, 0xABCD_0000 + version as usize) };
    let version: u32 = 0x0800;
    let (direct_status, direct_out) = stand_in(version);
    let handle = handle_from_load(Some(0x7000_0000));
    assert!(forward_decision(handle, true));
    let (genuine_status, genuine_out) = stand_in(version);
    let r = forward_call(handle, true, genuine_status, Some(genuine_out));
    assert_eq!(r.status, direct_status);
    assert_eq!(r.output, Some(direct_out));
}

#[test]
fn missing_library_degrades_gracefully() {
    // The loader failed (for instance, the path does not exist): the call
    // returns the unspecified-failure status and the output slot is not
    // written.
    let handle = handle_from_load(None);
    assert!(!forward_decision(handle, true));
    let r = forward_call(handle, true, 0, Some(0xABCD));
    assert_eq!(r, ForwardResult { status: E_FAIL, output: None });
}

#[test]
fn missing_symbol_degrades_gracefully() {
    let handle = handle_from_load(Some(0x7000_0000));
    assert!(!forward_decision(handle, false));
    let r = forward_call(handle, false, 0, Some(0xABCD));
    assert_eq!(r.status, E_FAIL);
    assert_eq!(r.output, None);
}

#[test]
fn unspecified_failure_is_the_domain_status() {
    assert_eq!(E_FAIL, 0x8000_4005u32 as i32);
}

#[test]
fn reserved_export_is_a_no_op() {
    show_joy_cpl(0);
    show_joy_cpl(1);
    show_joy_cpl(usize::MAX);
}
