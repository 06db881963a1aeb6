use remote_read::arch::{Arch, RegisterSnapshot};
use remote_read::observer::{
    Action, Event, Observer, Phase, ProtocolError, RemoteRead, ShortRead, SIGTRAP,
};
use remote_read::sizes::read_sizes;

const PID: i32 = 4242;
const PTR: u64 = 0x5555_5555_a000;

fn snapshot(p: u64) -> RegisterSnapshot {
    let mut b = vec![0u8; 216];
    b[80..88].copy_from_slice(&p.to_le_bytes());
    RegisterSnapshot::from_bytes(Arch::X86_64, &b).unwrap()
}

fn at_break() -> Observer {
    let (o, _) = Observer::start(PID);
    let (o, _) = o.step(Event::Stopped { pid: PID, signal: SIGTRAP }).unwrap();
    let (o, _) = o.step(Event::OptionsSet).unwrap();
    let (o, _) = o.step(Event::Resumed).unwrap();
    let (o, _) = o.step(Event::Stopped { pid: PID, signal: SIGTRAP }).unwrap();
    o
}

#[test]
fn handshake_walks_every_phase() {
    let (o, a) = Observer::start(PID);
    assert_eq!(o.phase, Phase::Spawned);
    assert_eq!(a, Action::WaitForStop);
    let (o, a) = o.step(Event::Stopped { pid: PID, signal: SIGTRAP }).unwrap();
    assert_eq!((o.phase, a), (Phase::ExecStopped, Action::SetExitKill));
    let (o, a) = o.step(Event::OptionsSet).unwrap();
    assert_eq!((o.phase, a), (Phase::Armed, Action::Resume));
    let (o, a) = o.step(Event::Resumed).unwrap();
    assert_eq!((o.phase, a), (Phase::Running, Action::WaitForStop));
    let (o, a) = o.step(Event::Stopped { pid: PID, signal: SIGTRAP }).unwrap();
    assert_eq!((o.phase, a), (Phase::BreakStopped, Action::ReadRegisters));
    assert!(!o.is_benchmarking());
    let (o, a) = o.step(Event::Registers(snapshot(PTR))).unwrap();
    assert_eq!(o.phase, Phase::Benchmarking);
    assert_eq!(a, Action::Benchmark { remote_ptr: PTR });
    assert!(o.is_benchmarking());
    let (o, a) = o.step(Event::BenchmarkFinished).unwrap();
    assert_eq!((o.phase, a), (Phase::Detached, Action::ResumeAndExit));
    assert_eq!(o.pid, PID);
}

#[test]
fn break_stop_must_be_sigtrap_of_target() {
    let (o, _) = Observer::start(PID);
    let (o, _) = o.step(Event::Stopped { pid: PID, signal: 19 }).unwrap();
    let (o, _) = o.step(Event::OptionsSet).unwrap();
    let (o, _) = o.step(Event::Resumed).unwrap();
    assert_eq!(
        o.step(Event::Stopped { pid: PID, signal: 11 }),
        Err(ProtocolError::UnexpectedStop { pid: PID, signal: 11 })
    );
    assert_eq!(
        o.step(Event::Stopped { pid: 7, signal: SIGTRAP }),
        Err(ProtocolError::UnexpectedStop { pid: 7, signal: SIGTRAP })
    );
    assert_eq!(o.step(Event::WaitOther), Err(ProtocolError::NotStopped));
}

#[test]
fn exec_stop_must_be_the_target() {
    let (o, _) = Observer::start(PID);
    assert_eq!(o.step(Event::WaitOther), Err(ProtocolError::NotStopped));
    assert_eq!(
        o.step(Event::Stopped { pid: 1, signal: SIGTRAP }),
        Err(ProtocolError::UnexpectedStop { pid: 1, signal: SIGTRAP })
    );
}

#[test]
fn events_out_of_order_are_refused() {
    let (o, _) = Observer::start(PID);
    assert_eq!(o.step(Event::Resumed), Err(ProtocolError::UnexpectedEvent));
    assert_eq!(o.step(Event::Registers(snapshot(PTR))), Err(ProtocolError::UnexpectedEvent));
    assert_eq!(o.step(Event::BenchmarkFinished), Err(ProtocolError::UnexpectedEvent));
    let b = at_break();
    assert_eq!(b.step(Event::Resumed), Err(ProtocolError::UnexpectedEvent));
    assert_eq!(b.step(Event::BenchmarkFinished), Err(ProtocolError::UnexpectedEvent));
}

#[test]
fn reads_only_once_benchmarking() {
    let (o, _) = Observer::start(PID);
    assert!(!o.is_benchmarking());
    assert!(!at_break().is_benchmarking());
    let (o, _) = at_break().step(Event::Registers(snapshot(PTR))).unwrap();
    assert!(o.is_benchmarking());
    assert_eq!(o.remote_read(16), RemoteRead { pid: PID, addr: PTR, len: 16 });
}

#[test]
fn short_reads_are_refused() {
    let r = RemoteRead { pid: PID, addr: PTR, len: 64 };
    assert_eq!(r.check_transferred(64), Ok(()));
    assert_eq!(r.check_transferred(63), Err(ShortRead { expected: 64, got: 63 }));
    assert_eq!(r.check_transferred(0), Err(ShortRead { expected: 64, got: 0 }));
}

#[test]
fn one_mebibyte_session_end_to_end() {
    let (o, _) = at_break().step(Event::Registers(snapshot(PTR))).unwrap();
    let sizes = read_sizes(1 << 20);
    assert_eq!(sizes.first(), Some(&16));
    assert_eq!(sizes.last(), Some(&(1 << 20)));
    for &size in &sizes {
        let r = o.remote_read(size);
        assert_eq!((r.pid, r.addr, r.len), (PID, PTR, size));
        assert_eq!(r.check_transferred(size), Ok(()));
    }
    let (o, a) = o.step(Event::BenchmarkFinished).unwrap();
    assert_eq!(o.phase, Phase::Detached);
    assert_eq!(a, Action::ResumeAndExit);
}
