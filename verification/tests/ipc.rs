use userspace::catalog::{TrapError, ERR_INVALID_ARGUMENT, ERR_RESOURCE_EXHAUSTED, ERR_TRUNCATION, ERR_WOULD_BLOCK};
use userspace::gateway::Gateway;
use userspace::message::{IpcMessage, IPC_PAYLOAD_CAPACITY};

fn empty_buffer() -> IpcMessage {
    IpcMessage { from: 0, to: 0, data: [0u8; 256], len: 0 }
}

#[test]
fn round_trip_preserves_payload_bytes() {
    let payload = [0xAAu8, 0x55, 0x01, 0xFF];
    let msg = IpcMessage::new(7, 9, &payload).unwrap();
    let mut gw = Gateway::new(3);
    assert_eq!(gw.sys_ipc_send(9, &msg), 0);
    let mut buf = empty_buffer();
    assert_eq!(gw.sys_ipc_recv(&mut buf, IPC_PAYLOAD_CAPACITY), 0);
    assert_eq!(buf.len, 4);
    assert_eq!(&buf.data[..4], &payload);
    // Bytes at [len, capacity) are undefined content: not asserted upon.
}

#[test]
fn kernel_stamps_the_true_sender() {
    // The sender writes an advisory (spoofed) process id into `from`; the
    // delivered copy carries the gateway's true process id instead.
    let msg = IpcMessage::new(4242, 9, b"hello").unwrap();
    let mut gw = Gateway::new(17);
    assert_eq!(gw.sys_ipc_send(9, &msg), 0);
    let mut buf = empty_buffer();
    assert_eq!(gw.sys_ipc_recv(&mut buf, IPC_PAYLOAD_CAPACITY), 0);
    assert_eq!(buf.from, 17);
    assert_eq!(buf.to, 9);
}

#[test]
fn construction_accepts_a_full_payload() {
    let payload = [0x5Au8; 256];
    let msg = IpcMessage::new(1, 2, &payload).unwrap();
    assert_eq!(msg.len, 256);
    assert_eq!(&msg.data[..], &payload);
}

#[test]
fn construction_rejects_an_oversized_payload() {
    let payload = [0u8; 257];
    assert_eq!(IpcMessage::new(1, 2, &payload), Err(TrapError::InvalidArgument));
}

#[test]
fn oversized_envelope_is_rejected_at_send_time() {
    // An envelope assembled by hand with a length beyond the capacity is
    // rejected at the send boundary, never silently truncated.
    let mut msg = empty_buffer();
    msg.len = 300;
    let mut gw = Gateway::new(3);
    assert_eq!(gw.sys_ipc_send(9, &msg), ERR_INVALID_ARGUMENT);
    let mut buf = empty_buffer();
    assert_eq!(gw.sys_ipc_recv(&mut buf, IPC_PAYLOAD_CAPACITY), ERR_WOULD_BLOCK);
}

#[test]
fn delivery_beyond_receiver_capacity_fails_with_truncation() {
    let msg = IpcMessage::new(1, 9, b"ten bytes.").unwrap();
    let mut gw = Gateway::new(3);
    assert_eq!(gw.sys_ipc_send(9, &msg), 0);
    let mut buf = empty_buffer();
    // Receiver declares a four-byte capacity: truncation error, buffer
    // untouched, no partial delivery.
    assert_eq!(gw.sys_ipc_recv(&mut buf, 4), ERR_TRUNCATION);
    assert_eq!(buf.len, 0);
    assert!(buf.data.iter().all(|b| *b == 0));
    // The envelope was not consumed: a large enough buffer still gets it whole.
    assert_eq!(gw.sys_ipc_recv(&mut buf, 10), 0);
    assert_eq!(&buf.data[..10], b"ten bytes.");
}

#[test]
fn receive_with_no_pending_message_would_block() {
    let mut gw = Gateway::new(3);
    let mut buf = empty_buffer();
    buf.from = 5;
    buf.len = 0;
    let r = gw.sys_ipc_recv(&mut buf, IPC_PAYLOAD_CAPACITY);
    assert_eq!(r, ERR_WOULD_BLOCK);
    assert_eq!(r, (-1isize) as usize);
    // Buffer untouched.
    assert_eq!(buf.from, 5);
    assert_eq!(buf.len, 0);
    assert!(buf.data.iter().all(|b| *b == 0));
}

#[test]
fn send_into_a_full_slot_reports_exhaustion() {
    let first = IpcMessage::new(1, 9, b"one").unwrap();
    let second = IpcMessage::new(1, 9, b"two").unwrap();
    let mut gw = Gateway::new(3);
    assert_eq!(gw.sys_ipc_send(9, &first), 0);
    assert_eq!(gw.sys_ipc_send(9, &second), ERR_RESOURCE_EXHAUSTED);
    // The first envelope is still the one delivered.
    let mut buf = empty_buffer();
    assert_eq!(gw.sys_ipc_recv(&mut buf, IPC_PAYLOAD_CAPACITY), 0);
    assert_eq!(&buf.data[..3], b"one");
}

#[test]
fn empty_payload_round_trips() {
    let msg = IpcMessage::new(1, 2, &[]).unwrap();
    assert_eq!(msg.len, 0);
    let mut gw = Gateway::new(8);
    assert_eq!(gw.sys_ipc_send(2, &msg), 0);
    let mut buf = empty_buffer();
    assert_eq!(gw.sys_ipc_recv(&mut buf, 0), 0);
    assert_eq!(buf.len, 0);
    assert_eq!(buf.from, 8);
}

#[test]
fn payload_accessors_see_only_valid_bytes() {
    let msg = IpcMessage::new(1, 2, b"abc").unwrap();
    assert_eq!(msg.payload_len(), 3);
    assert_eq!(msg.payload_byte(0), b'a');
    assert_eq!(msg.payload_byte(1), b'b');
    assert_eq!(msg.payload_byte(2), b'c');
}
