use rasterwave_node::decoder::{Barrier, DecoderCommand, DecoderSession, command_deferred};
use rasterwave_node::error::LibError;
use rasterwave_node::limits::{MAX_INPUT_OPERATIONS, MAX_OPERATIONS};
use rasterwave_node::names::SyncStateKind;

type Session = DecoderSession<Vec<f32>, u32>;

fn take_all(session: &mut Session) -> Vec<DecoderCommand<Vec<f32>, u32>> {
    let mut out = Vec::new();
    while let Some(command) = session.next_command() {
        out.push(command);
        session.complete_command(true);
    }
    out
}

#[test]
fn first_push_starts_one_worker() {
    let mut s = Session::new(100);
    let first = s.push_f32(vec![0.0; 10], 10, false).unwrap();
    assert!(first.accepted && first.start_worker);
    let second = s.push_f32(vec![0.0; 10], 10, false).unwrap();
    assert!(second.accepted && !second.start_worker);
    assert_eq!(s.queued_samples().unwrap(), 20);
}

#[test]
fn full_queue_refuses_without_consuming() {
    let mut s = Session::new(100);
    assert!(s.push_f32(vec![0.0; 60], 60, false).unwrap().accepted);
    let refused = s.push_f32(vec![0.0; 41], 41, false).unwrap();
    assert!(!refused.accepted && !refused.start_worker);
    assert_eq!(s.queued_samples().unwrap(), 60);
    assert!(s.push_f32(vec![0.0; 40], 40, false).unwrap().accepted);
    assert_eq!(s.queued_samples().unwrap(), 100);
}

#[test]
fn chunk_larger_than_capacity_is_an_error() {
    let mut s = Session::new(8);
    match s.push_f32(vec![0.0; 9], 9, false) {
        Err(LibError::ChunkTooLarge { len, capacity }) => {
            assert_eq!(len, 9);
            assert_eq!(capacity, 8);
        }
        _ => panic!("expected ChunkTooLarge"),
    }
    assert_eq!(s.queued_samples().unwrap(), 0);
}

#[test]
fn non_finite_chunk_is_refused() {
    let mut s = Session::new(8);
    assert!(matches!(s.push_f32(vec![f32::NAN], 1, true), Err(LibError::NonFiniteSample)));
    assert_eq!(s.queued_samples().unwrap(), 0);
}

#[test]
fn input_operations_leave_barrier_slots() {
    let mut s = Session::new(1000);
    for _ in 0..MAX_INPUT_OPERATIONS {
        assert!(s.reset().unwrap().accepted);
    }
    assert!(!s.reset().unwrap().accepted);
    assert!(!s.mark_signal_lost().unwrap().accepted);
    for i in 0..(MAX_OPERATIONS - MAX_INPUT_OPERATIONS) {
        match s.drain(i as u32) {
            Barrier::Queued { start_worker } => assert!(!start_worker),
            Barrier::Rejected(_) => panic!("barrier slot missing"),
        }
    }
    match s.drain(99) {
        Barrier::Rejected(d) => assert_eq!(d, 99),
        Barrier::Queued { .. } => panic!("queue should be full"),
    }
}

#[test]
fn worker_takes_commands_in_order_and_frees_samples() {
    let mut s = Session::new(100);
    s.push_f32(vec![1.0; 5], 5, false).unwrap();
    s.mark_discontinuity(Some(7)).unwrap();
    s.push_f32(vec![2.0; 3], 3, false).unwrap();
    assert!(matches!(s.drain(1), Barrier::Queued { start_worker: false }));
    match s.next_command() {
        Some(DecoderCommand::Push(samples, 5)) => assert_eq!(samples, vec![1.0; 5]),
        _ => panic!("expected first push"),
    }
    assert_eq!(s.queued_samples().unwrap(), 8);
    s.complete_command(true);
    assert_eq!(s.queued_samples().unwrap(), 3);
    assert!(matches!(s.next_command(), Some(DecoderCommand::Discontinuity(7))));
    s.complete_command(true);
    assert!(matches!(s.next_command(), Some(DecoderCommand::Push(_, 3))));
    s.complete_command(true);
    assert_eq!(s.queued_samples().unwrap(), 0);
    assert!(matches!(s.next_command(), Some(DecoderCommand::Drain(1))));
    s.complete_command(true);
    assert!(s.next_command().is_none());
    let restart = s.reset().unwrap();
    assert!(restart.accepted && restart.start_worker);
}

#[test]
fn invalid_discontinuity_argument() {
    let mut s = Session::new(10);
    assert!(matches!(s.mark_discontinuity(None), Err(LibError::DroppedSamplesInvalid)));
}

#[test]
fn finish_stops_input() {
    let mut s = Session::new(10);
    assert!(matches!(s.finish(5), Ok(Barrier::Queued { start_worker: true })));
    assert!(!s.is_accepting_input());
    assert!(matches!(s.push_f32(vec![0.0], 1, false), Err(LibError::DecoderFinished)));
    assert!(matches!(s.finish(6), Err(LibError::DecoderFinished)));
    assert!(matches!(s.drain(7), Barrier::Queued { .. }));
}

#[test]
fn failure_takes_precedence_over_finish() {
    let mut s = Session::new(10);
    s.finish(1).unwrap();
    s.mark_failed();
    assert!(matches!(s.reset(), Err(LibError::DecoderFailed)));
}

#[test]
fn failed_command_fails_the_session() {
    let mut s = Session::new(10);
    s.reset().unwrap();
    assert!(s.next_command().is_some());
    s.complete_command(false);
    assert!(matches!(s.ensure_accepting(), Err(LibError::DecoderFailed)));
}

#[test]
fn dispose_cancels_waiting_barriers_in_order() {
    let mut s = Session::new(100);
    s.push_f32(vec![0.0; 4], 4, false).unwrap();
    s.drain(1);
    s.reset().unwrap();
    s.drain(2);
    s.finish(3).unwrap();
    let disposal = s.dispose(9);
    assert_eq!(disposal.cancelled, vec![1, 2, 3]);
    assert!(!disposal.start_worker);
    assert_eq!(s.queued_samples().unwrap(), 0);
    assert!(matches!(s.push_f32(vec![0.0], 1, false), Err(LibError::DecoderDisposed)));
    let rest = take_all(&mut s);
    assert_eq!(rest.len(), 1);
    assert!(matches!(rest[0], DecoderCommand::Dispose(9)));
}

#[test]
fn dispose_during_a_push_keeps_count_at_zero() {
    let mut s = Session::new(100);
    s.push_f32(vec![0.0; 50], 50, false).unwrap();
    assert!(s.next_command().is_some());
    let disposal = s.dispose(1);
    assert!(disposal.cancelled.is_empty());
    s.complete_command(true);
    assert_eq!(s.queued_samples().unwrap(), 0);
}

#[test]
fn idle_dispose_starts_worker() {
    let mut s = Session::new(10);
    assert!(s.dispose(4).start_worker);
}

#[test]
fn sync_state_is_reported_by_name() {
    let mut s = Session::new(10);
    assert_eq!(s.sync_state(), "searching");
    s.set_sync_state(SyncStateKind::Locked);
    assert_eq!(s.sync_state(), "locked");
    s.set_sync_state(SyncStateKind::Finished);
    assert_eq!(s.sync_state(), "finished");
}

#[test]
fn command_deferred_only_for_barriers() {
    assert_eq!(command_deferred::<Vec<f32>, u32>(DecoderCommand::Finish(3)), Some(3));
    assert_eq!(command_deferred::<Vec<f32>, u32>(DecoderCommand::Reset), None);
    assert_eq!(command_deferred::<Vec<f32>, u32>(DecoderCommand::Push(vec![], 0)), None);
}

#[test]
fn refused_chunk_fits_once_the_drain_settles() {
    let mut s = Session::new(100);
    assert!(s.push_f32(vec![0.0; 80], 80, false).unwrap().accepted);
    let refused = s.push_f32(vec![0.0; 30], 30, false).unwrap();
    assert!(!refused.accepted && !refused.start_worker);
    assert!(matches!(s.drain(9), Barrier::Queued { start_worker: false }));
    assert!(matches!(s.next_command(), Some(DecoderCommand::Push(_, 80))));
    s.complete_command(true);
    assert!(matches!(s.next_command(), Some(DecoderCommand::Drain(9))));
    assert_eq!(s.queued_samples().unwrap(), 0);
    s.complete_command(true);
    assert!(s.push_f32(vec![0.0; 30], 30, false).unwrap().accepted);
}

#[test]
fn failed_flush_rejects_without_failing_the_session() {
    let mut s = Session::new(100);
    assert!(matches!(s.finish(1).unwrap(), Barrier::Queued { start_worker: true }));
    assert!(matches!(s.next_command(), Some(DecoderCommand::Finish(1))));
    assert!(!s.end_finish(false));
    assert_eq!(s.sync_state(), "searching");
    s.complete_command(true);
    assert!(matches!(s.ensure_accepting(), Err(LibError::DecoderFinished)));
    let mut t = Session::new(100);
    t.finish(2).unwrap();
    t.next_command();
    assert!(t.end_finish(true));
    assert_eq!(t.sync_state(), "finished");
}
