use calculations_in_wasmi::guest::{cpu_ram_soak, decimal_bytes, done_message, GuestFault};
use calculations_in_wasmi::host::HostState;
use calculations_in_wasmi::kernel;
use calculations_in_wasmi::payload::{encode_payload, from_le_bytes, split_payload, to_le_bytes};

#[test]
fn le_bytes_match_std() {
    for n in [0u32, 1, 255, 256, 0x1234_5678, u32::MAX] {
        assert_eq!(to_le_bytes(n), n.to_le_bytes().to_vec());
        assert_eq!(from_le_bytes(&n.to_le_bytes()), n);
    }
}

#[test]
fn encode_then_split() {
    let payload = encode_payload(1000, &[0, 97, 115, 109]);
    assert_eq!(payload, vec![0xe8, 0x03, 0, 0, 0, 97, 115, 109]);
    let (head, wasm) = split_payload(&payload).unwrap();
    assert_eq!(head, vec![0xe8, 0x03, 0, 0]);
    assert_eq!(wasm, vec![0, 97, 115, 109]);
}

#[test]
fn split_needs_five_bytes() {
    assert!(split_payload(&[]).is_none());
    assert!(split_payload(&[1, 2, 3, 4]).is_none());
    let (head, wasm) = split_payload(&[1, 2, 3, 4, 5]).unwrap();
    assert_eq!(head, vec![1, 2, 3, 4]);
    assert_eq!(wasm, vec![5]);
}

#[test]
fn kernel_counts_iterations() {
    assert_eq!(kernel::cpu_ram_soak(0), 0);
    assert_eq!(kernel::cpu_ram_soak(1), 1);
    assert_eq!(kernel::cpu_ram_soak(100_000), 100_000);
}

#[test]
fn decimal_digits() {
    assert_eq!(decimal_bytes(0), b"0".to_vec());
    assert_eq!(decimal_bytes(9), b"9".to_vec());
    assert_eq!(decimal_bytes(10), b"10".to_vec());
    assert_eq!(decimal_bytes(u32::MAX), b"4294967295".to_vec());
}

#[test]
fn done_message_text() {
    assert_eq!(done_message(0), b"Done 0 iterations!".to_vec());
    assert_eq!(done_message(1234), b"Done 1234 iterations!".to_vec());
}

#[test]
fn guest_model_logs_loop_limit() {
    let mut host = HostState::new(12345u32.to_le_bytes().to_vec());
    assert_eq!(cpu_ram_soak(&mut host), Ok(()));
    assert_eq!(host.logs, vec![b"Done 12345 iterations!".to_vec()]);
    assert_eq!(host.get_register_data(0), 12345u32.to_le_bytes().to_vec());
}

#[test]
fn guest_model_rejects_other_input() {
    let mut host = HostState::new(vec![1, 2, 3]);
    assert_eq!(cpu_ram_soak(&mut host), Err(GuestFault::UnexpectedInput));
    assert!(host.logs.is_empty());
}
