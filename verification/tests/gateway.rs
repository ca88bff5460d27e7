use userspace::catalog::{
    ERR_INVALID_SERVICE, ERR_WOULD_BLOCK, SYS_EXIT, SYS_IPC_RECV, SYS_IPC_SEND, SYS_READ, SYS_WRITE,
};
use userspace::gateway::Gateway;

#[test]
fn write_echoes_the_length() {
    // write(fd = 1, buf = <ptr to "hi">, length = 2) under the mock kernel
    // that echoes length: result is 2, the number of bytes written.
    let hi = b"hi";
    let mut gw = Gateway::new(1);
    let r = gw.sys_write(1, hi.as_ptr() as usize, hi.len());
    assert_eq!(r, 2);
}

#[test]
fn each_wrapper_makes_exactly_one_transition_and_one_result() {
    let mut gw = Gateway::new(1);
    assert_eq!(gw.transitions, 0);
    let _r: usize = gw.sys_exit(0);
    assert_eq!(gw.transitions, 1);
    let _r: usize = gw.sys_read(0, 0, 16);
    assert_eq!(gw.transitions, 2);
    let _r: usize = gw.sys_write(1, 0, 16);
    assert_eq!(gw.transitions, 3);
    let _r: usize = gw.sys_copy_to_user(0, 0, 8);
    assert_eq!(gw.transitions, 4);
    let _r: usize = gw.sys_copy_from_user(0, 0, 8);
    assert_eq!(gw.transitions, 5);
    let msg = userspace::message::IpcMessage::new(1, 2, b"x").unwrap();
    let _r: usize = gw.sys_ipc_send(2, &msg);
    assert_eq!(gw.transitions, 6);
    let mut buf = userspace::message::IpcMessage { from: 0, to: 0, data: [0u8; 256], len: 0 };
    let _r: usize = gw.sys_ipc_recv(&mut buf, 256);
    assert_eq!(gw.transitions, 7);
}

#[test]
fn each_trap_arity_makes_exactly_one_transition() {
    let mut gw = Gateway::new(1);
    let _r: usize = gw.trap0(SYS_IPC_RECV);
    assert_eq!(gw.transitions, 1);
    let _r: usize = gw.trap1(SYS_EXIT, 0);
    assert_eq!(gw.transitions, 2);
    let _r: usize = gw.trap2(SYS_IPC_SEND, 2, 0);
    assert_eq!(gw.transitions, 3);
    let _r: usize = gw.trap3(SYS_WRITE, 1, 0, 4);
    assert_eq!(gw.transitions, 4);
    let _r: usize = gw.trap4(SYS_WRITE, 1, 0, 4, 0);
    assert_eq!(gw.transitions, 5);
    let _r: usize = gw.trap5(SYS_WRITE, 1, 0, 4, 0, 0);
    assert_eq!(gw.transitions, 6);
}

#[test]
fn concurrent_callers_observe_only_their_own_results() {
    // Two callers on independent gateways, as independent threads would
    // hold them, with different services and argument sets: each observes
    // the result of its own trap and nothing of the other's.
    let mut gw1 = Gateway::new(10);
    let mut gw2 = Gateway::new(11);
    let r1 = gw1.sys_write(1, 0, 2);
    let r2 = gw2.sys_read(0, 0, 7);
    assert_eq!(r1, 2);
    assert_eq!(r2, 7);
    assert_eq!(gw1.transitions, 1);
    assert_eq!(gw2.transitions, 1);
}

#[test]
fn interleaved_traps_do_not_cross_talk() {
    let mut gw1 = Gateway::new(10);
    let mut gw2 = Gateway::new(11);
    let a = gw1.trap3(SYS_WRITE, 1, 0, 2);
    let b = gw2.trap3(SYS_READ, 0, 0, 7);
    let c = gw1.trap1(SYS_EXIT, 42);
    assert_eq!(a, 2);
    assert_eq!(b, 7);
    assert_eq!(c, 42);
    assert_eq!(gw1.transitions, 2);
    assert_eq!(gw2.transitions, 1);
}

#[test]
fn exit_echoes_the_status_under_the_mock() {
    let mut gw = Gateway::new(1);
    assert_eq!(gw.sys_exit(42), 42);
}

#[test]
fn unknown_service_is_rejected_by_the_kernel() {
    let mut gw = Gateway::new(1);
    assert_eq!(gw.trap0(0), ERR_INVALID_SERVICE);
    assert_eq!(gw.trap0(8), ERR_INVALID_SERVICE);
    assert_eq!(gw.trap5(99, 1, 2, 3, 4, 5), ERR_INVALID_SERVICE);
}

#[test]
fn scalar_ipc_receive_would_block() {
    let mut gw = Gateway::new(1);
    assert_eq!(gw.trap1(SYS_IPC_RECV, 0), ERR_WOULD_BLOCK);
}
