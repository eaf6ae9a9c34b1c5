use calculations_in_wasmi::host::{HostState, INPUT_REGISTER};
use calculations_in_wasmi::registers::RegisterStore;

#[test]
fn unwritten_register_reads_empty() {
    let store = RegisterStore::new();
    for id in [0u64, 1, 42, u64::MAX] {
        assert_eq!(store.len(id), 0);
        assert_eq!(store.get(id), Vec::<u8>::new());
    }
}

#[test]
fn write_then_read_round_trips() {
    let mut store = RegisterStore::new();
    store.set(7, vec![1, 2, 3]);
    assert_eq!(store.get(7), vec![1, 2, 3]);
    assert_eq!(store.len(7), 3);
    store.set(u64::MAX, vec![]);
    assert_eq!(store.get(u64::MAX), Vec::<u8>::new());
    assert_eq!(store.len(u64::MAX), 0);
    let big = vec![0xabu8; 10_000];
    store.set(3, big.clone());
    assert_eq!(store.get(3), big);
}

#[test]
fn overwrite_replaces_value() {
    let mut store = RegisterStore::new();
    store.set(1, vec![9; 8]);
    store.set(1, vec![4]);
    assert_eq!(store.get(1), vec![4]);
    assert_eq!(store.len(2), 0);
}

#[test]
fn host_state_starts_empty() {
    let state = HostState::new(vec![5, 6]);
    assert_eq!(state.input, vec![5, 6]);
    assert_eq!(state.register_len(INPUT_REGISTER), 0);
    assert_eq!(state.get_register_data(INPUT_REGISTER), Vec::<u8>::new());
    assert!(state.logs.is_empty());
}

#[test]
fn input_then_read_gives_input() {
    let mut state = HostState::new(vec![10, 20, 30, 40]);
    state.input(3);
    state.input(8);
    state.input(9);
    state.input(INPUT_REGISTER);
    state.input(11);
    assert_eq!(state.get_register_data(INPUT_REGISTER), vec![10, 20, 30, 40]);
    assert_eq!(state.register_len(INPUT_REGISTER), 4);
    assert_eq!(state.register_len(12), 0);
}

#[test]
fn input_is_idempotent() {
    let mut state = HostState::new(vec![1]);
    state.input(2);
    state.input(2);
    assert_eq!(state.get_register_data(2), vec![1]);
}

#[test]
fn log_lines_keep_order() {
    let mut state = HostState::new(vec![]);
    state.log_utf8(b"first".to_vec());
    state.log_utf8(b"second".to_vec());
    assert_eq!(state.logs, vec![b"first".to_vec(), b"second".to_vec()]);
}
