use calculations_in_wasmi::embedding::{
    cpu_ram_soak, execute, prepare, prepare_invocation, run_guest, InvocationError, Trampolines,
};
use calculations_in_wasmi::host::HostState;
use calculations_in_wasmi::payload::encode_payload;

const IMPORTS: &str = r#"
  (import "env" "input" (func $input (param i64)))
  (import "env" "register_len" (func $register_len (param i64) (result i64)))
  (import "env" "read_register" (func $read_register (param i64 i64)))
  (import "env" "log_utf8" (func $log_utf8 (param i64 i64)))
  (memory (export "memory") 1)
"#;

fn module(body: &str) -> Vec<u8> {
    let text = format!("(module {IMPORTS} {body})");
    wat::parse_str(&text).unwrap()
}

/// The measured guest: reads its loop limit from the input register, loops,
/// and logs `Done {n} iterations!`.
fn soak_guest() -> Vec<u8> {
    module(
        r#"
  (data (i32.const 140) " iterations!")
  (func (export "cpu_ram_soak")
    (local $limit i32) (local $counter i32) (local $n i32) (local $p i32)
    (call $input (i64.const 0))
    (if (i64.ne (call $register_len (i64.const 0)) (i64.const 4)) (then unreachable))
    (call $read_register (i64.const 0) (i64.const 0))
    (local.set $limit (i32.load (i32.const 0)))
    (block $done
      (loop $count
        (br_if $done (i32.ge_u (local.get $counter) (local.get $limit)))
        (local.set $counter (i32.add (local.get $counter) (i32.const 1)))
        (br $count)))
    (local.set $p (i32.const 140))
    (local.set $n (local.get $counter))
    (loop $digit
      (local.set $p (i32.sub (local.get $p) (i32.const 1)))
      (i32.store8 (local.get $p) (i32.add (i32.const 48) (i32.rem_u (local.get $n) (i32.const 10))))
      (local.set $n (i32.div_u (local.get $n) (i32.const 10)))
      (br_if $digit (i32.ne (local.get $n) (i32.const 0))))
    (local.set $p (i32.sub (local.get $p) (i32.const 5)))
    (i32.store (local.get $p) (i32.const 0x656e6f44))
    (i32.store8 (i32.add (local.get $p) (i32.const 4)) (i32.const 32))
    (call $log_utf8
      (i64.extend_i32_u (i32.sub (i32.const 152) (local.get $p)))
      (i64.extend_i32_u (local.get $p))))
"#,
    )
}

#[test]
fn invocation_logs_loop_limit() {
    for limit in [0u32, 7, 1000] {
        let payload = encode_payload(limit, &soak_guest());
        let logs = match cpu_ram_soak(&payload) {
            Ok(logs) => logs,
            Err(_) => panic!("invocation failed"),
        };
        assert_eq!(logs, vec![format!("Done {limit} iterations!").into_bytes()]);
    }
}

#[test]
fn short_payload_is_refused() {
    for payload in [vec![], vec![1u8, 0, 0, 0]] {
        assert!(matches!(cpu_ram_soak(&payload), Err(InvocationError::PayloadTooShort)));
    }
}

#[test]
fn guest_trap_fails_without_logs() {
    let guest = module(
        r#"
  (func (export "cpu_ram_soak")
    (drop (i32.load (i32.const 70000)))
    (call $log_utf8 (i64.const 1) (i64.const 0)))
"#,
    );
    let payload = encode_payload(3, &guest);
    assert!(matches!(cpu_ram_soak(&payload), Err(InvocationError::Trap(_))));
}

#[test]
fn log_then_trap_returns_no_logs() {
    let guest = module(
        r#"
  (func (export "cpu_ram_soak")
    (call $log_utf8 (i64.const 1) (i64.const 0))
    unreachable)
"#,
    );
    let payload = encode_payload(3, &guest);
    assert!(matches!(cpu_ram_soak(&payload), Err(InvocationError::Trap(_))));
}

#[test]
fn read_register_out_of_bounds_traps() {
    let guest = module(
        r#"
  (func (export "cpu_ram_soak")
    (call $input (i64.const 0))
    (call $read_register (i64.const 0) (i64.const 65534)))
"#,
    );
    let payload = encode_payload(3, &guest);
    assert!(matches!(cpu_ram_soak(&payload), Err(InvocationError::Trap(_))));
}

#[test]
fn read_register_negative_pointer_traps() {
    let guest = module(
        r#"
  (func (export "cpu_ram_soak")
    (call $read_register (i64.const 0) (i64.const -1)))
"#,
    );
    let payload = encode_payload(3, &guest);
    assert!(matches!(cpu_ram_soak(&payload), Err(InvocationError::Trap(_))));
}

#[test]
fn log_out_of_bounds_traps() {
    let guest = module(
        r#"
  (func (export "cpu_ram_soak")
    (call $log_utf8 (i64.const 10) (i64.const 65530)))
"#,
    );
    let payload = encode_payload(3, &guest);
    assert!(matches!(cpu_ram_soak(&payload), Err(InvocationError::Trap(_))));
}

#[test]
fn log_negative_length_traps() {
    let guest = module(
        r#"
  (func (export "cpu_ram_soak")
    (call $log_utf8 (i64.const -1) (i64.const 0)))
"#,
    );
    let payload = encode_payload(3, &guest);
    assert!(matches!(cpu_ram_soak(&payload), Err(InvocationError::Trap(_))));
}

#[test]
fn empty_register_reads_nothing_into_memory() {
    let guest = module(
        r#"
  (func (export "cpu_ram_soak")
    (i32.store (i32.const 8) (i32.const 0x01020304))
    (if (i64.ne (call $register_len (i64.const 9)) (i64.const 0)) (then unreachable))
    (call $read_register (i64.const 9) (i64.const 8))
    (if (i32.ne (i32.load (i32.const 8)) (i32.const 0x01020304)) (then unreachable)))
"#,
    );
    let payload = encode_payload(3, &guest);
    assert!(cpu_ram_soak(&payload).is_ok());
}

#[test]
fn invocations_do_not_share_registers() {
    let guest = module(
        r#"
  (func (export "cpu_ram_soak")
    (if (i64.ne (call $register_len (i64.const 5)) (i64.const 0)) (then unreachable))
    (call $input (i64.const 5))
    (if (i64.ne (call $register_len (i64.const 5)) (i64.const 4)) (then unreachable)))
"#,
    );
    for limit in [10u32, 20] {
        let payload = encode_payload(limit, &guest);
        assert!(cpu_ram_soak(&payload).is_ok());
    }
}

#[test]
fn run_guest_returns_host_state() {
    let guest = module(
        r#"
  (func (export "cpu_ram_soak")
    (call $input (i64.const 2)))
"#,
    );
    let state = match run_guest(&guest, HostState::new(vec![4, 5]), Trampolines::all()) {
        Ok(state) => state,
        Err(_) => panic!("guest failed"),
    };
    assert_eq!(state.get_register_data(2), vec![4, 5]);
}

#[test]
fn invalid_bytecode_fails_to_compile() {
    let payload = encode_payload(3, &[1, 2, 3]);
    assert!(matches!(cpu_ram_soak(&payload), Err(InvocationError::Compile(_))));
}

#[test]
fn unknown_import_fails_to_instantiate() {
    let guest = wat::parse_str(
        r#"(module (import "env" "missing" (func)) (memory (export "memory") 1) (func (export "cpu_ram_soak")))"#,
    )
    .unwrap();
    let payload = encode_payload(3, &guest);
    assert!(matches!(cpu_ram_soak(&payload), Err(InvocationError::Instantiate(_))));
}

#[test]
fn unbound_trampoline_fails_to_instantiate() {
    let guest = module(r#"(func (export "cpu_ram_soak"))"#);
    let bound = Trampolines { registers: true, input: true, log: false };
    assert!(matches!(run_guest(&guest, HostState::new(vec![]), bound), Err(InvocationError::Instantiate(_))));
}

#[test]
fn start_trap_fails() {
    let guest = module(r#"(func $boom unreachable) (start $boom) (func (export "cpu_ram_soak"))"#);
    let payload = encode_payload(3, &guest);
    assert!(matches!(cpu_ram_soak(&payload), Err(InvocationError::Start(_))));
}

#[test]
fn missing_or_mistyped_entry_point_fails() {
    let missing = module(r#"(func (export "other"))"#);
    assert!(matches!(cpu_ram_soak(&encode_payload(3, &missing)), Err(InvocationError::EntryPoint(_))));
    let mistyped = module(r#"(func (export "cpu_ram_soak") (param i32))"#);
    assert!(matches!(cpu_ram_soak(&encode_payload(3, &mistyped)), Err(InvocationError::EntryPoint(_))));
}

#[test]
fn prepared_invocation_runs() {
    let payload = encode_payload(5, &soak_guest());
    let linking = match prepare_invocation(&payload) {
        Ok(linking) => linking,
        Err(_) => panic!("prepare failed"),
    };
    let state = match execute(linking) {
        Ok(state) => state,
        Err(_) => panic!("guest failed"),
    };
    assert_eq!(state.input, vec![5, 0, 0, 0]);
    assert_eq!(state.get_register_data(0), vec![5, 0, 0, 0]);
    assert_eq!(state.logs, vec![b"Done 5 iterations!".to_vec()]);
}

#[test]
fn prepare_refuses_invalid_module() {
    assert!(matches!(prepare_invocation(&[1, 0, 0, 0, 9]), Err(InvocationError::Compile(_))));
    assert!(matches!(prepare_invocation(&[1, 0, 0]), Err(InvocationError::PayloadTooShort)));
    let bound = Trampolines { registers: false, input: false, log: false };
    assert!(matches!(prepare(&[0], HostState::new(vec![]), bound), Err(InvocationError::Compile(_))));
}

#[test]
fn read_register_writes_bytes_at_pointer() {
    let guest = module(
        r#"
  (func (export "cpu_ram_soak")
    (i64.store (i32.const 16) (i64.const -1))
    (call $input (i64.const 3))
    (call $read_register (i64.const 3) (i64.const 17))
    (if (i32.ne (i32.load8_u (i32.const 16)) (i32.const 255)) (then unreachable))
    (if (i32.ne (i32.load (i32.const 17)) (i32.const 0x04030201)) (then unreachable))
    (if (i32.ne (i32.load8_u (i32.const 21)) (i32.const 255)) (then unreachable)))
"#,
    );
    let payload = [vec![1u8, 2, 3, 4], guest].concat();
    assert!(cpu_ram_soak(&payload).is_ok());
}

#[test]
fn log_copies_memory_unchanged() {
    let guest = module(
        r#"
  (data (i32.const 300) "h\00\ffi")
  (func (export "cpu_ram_soak")
    (call $log_utf8 (i64.const 4) (i64.const 300))
    (call $log_utf8 (i64.const 0) (i64.const 65536)))
"#,
    );
    let logs = match cpu_ram_soak(&encode_payload(1, &guest)) {
        Ok(logs) => logs,
        Err(_) => panic!("guest failed"),
    };
    assert_eq!(logs, vec![vec![b'h', 0, 0xff, b'i'], vec![]]);
}

#[test]
fn register_len_for_high_identifier() {
    let guest = module(
        r#"
  (func (export "cpu_ram_soak")
    (if (i64.ne (call $register_len (i64.const -1)) (i64.const 0)) (then unreachable))
    (call $input (i64.const -1))
    (if (i64.ne (call $register_len (i64.const -1)) (i64.const 4)) (then unreachable)))
"#,
    );
    assert!(cpu_ram_soak(&encode_payload(1, &guest)).is_ok());
}
