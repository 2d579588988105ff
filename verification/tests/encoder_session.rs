use rasterwave_node::decoder::Barrier;
use rasterwave_node::encoder::{EncoderCommand, EncoderProgress, EncoderSession};
use rasterwave_node::error::LibError;
use rasterwave_node::limits::{MAX_OPERATIONS, MAX_READ_SAMPLES};
use rasterwave_node::names::EncoderStageKind;

type Session = EncoderSession<u32, u32>;

fn initial() -> EncoderProgress {
    EncoderProgress {
        samples_emitted: 0,
        estimated_total_samples: 1000,
        current_row: None,
        stage: EncoderStageKind::Vis,
        raster_start_sample: 100,
        raster_end_sample: 900,
        finished: false,
    }
}

#[test]
fn read_bounds_are_checked() {
    let mut s = Session::new(initial());
    assert!(matches!(s.read_samples(0, 1), Err(LibError::MaxSamplesOutOfRange)));
    assert!(matches!(s.read_samples(MAX_READ_SAMPLES + 1, 1), Err(LibError::MaxSamplesOutOfRange)));
    assert!(matches!(
        s.read_samples(MAX_READ_SAMPLES, 1),
        Ok(Barrier::Queued { start_worker: true })
    ));
    assert!(matches!(s.read_samples(1, 2), Ok(Barrier::Queued { start_worker: false })));
}

#[test]
fn read_queue_is_bounded() {
    let mut s = Session::new(initial());
    for i in 0..MAX_OPERATIONS {
        assert!(matches!(s.read_samples(16, i as u32), Ok(Barrier::Queued { .. })));
    }
    assert!(matches!(s.read_samples(16, 77), Ok(Barrier::Rejected(77))));
}

#[test]
fn reads_run_in_call_order() {
    let mut s = Session::new(initial());
    s.read_samples(10, 1).unwrap();
    s.read_samples(20, 2).unwrap();
    assert!(matches!(s.next_command(), Some(EncoderCommand::Read(10, 1))));
    assert!(matches!(s.next_command(), Some(EncoderCommand::Read(20, 2))));
    assert!(s.next_command().is_none());
}

#[test]
fn dispose_cancels_everything_waiting() {
    let mut s = Session::new(initial());
    s.read_samples(10, 1).unwrap();
    s.read_samples(20, 2).unwrap();
    let disposal = s.dispose(3);
    assert!(!disposal.start_worker);
    assert_eq!(disposal.cancelled.len(), 2);
    assert!(matches!(disposal.cancelled[0], EncoderCommand::Read(10, 1)));
    assert!(matches!(disposal.cancelled[1], EncoderCommand::Read(20, 2)));
    assert!(matches!(s.check_read(10), Err(LibError::EncoderDisposed)));
    let again = s.dispose(4);
    assert_eq!(again.cancelled.len(), 1);
    assert!(matches!(again.cancelled[0], EncoderCommand::Dispose(3)));
    assert!(matches!(s.next_command(), Some(EncoderCommand::Dispose(4))));
}

#[test]
fn progress_reports_recorded_state() {
    let mut s = Session::new(initial());
    let report = s.progress().unwrap();
    assert_eq!(report.samples_emitted, 0);
    assert_eq!(report.estimated_total_samples, 1000);
    assert_eq!(report.current_row, None);
    assert_eq!(report.stage, "vis");
    assert_eq!(report.raster_start_sample, 100);
    assert_eq!(report.raster_end_sample, 900);
    assert!(!report.finished);
    s.record_progress(EncoderProgress {
        samples_emitted: 950,
        estimated_total_samples: 5,
        current_row: Some(239),
        stage: EncoderStageKind::Finished,
        raster_start_sample: 5,
        raster_end_sample: 5,
        finished: true,
    });
    let report = s.progress().unwrap();
    assert_eq!(report.samples_emitted, 950);
    assert_eq!(report.estimated_total_samples, 1000);
    assert_eq!(report.current_row, Some(239));
    assert_eq!(report.stage, "finished");
    assert!(report.finished);
    assert!(s.is_finished());
}

#[test]
fn progress_refuses_unsafe_counts() {
    let mut p = initial();
    p.estimated_total_samples = u64::MAX;
    let s = Session::new(p);
    match s.progress() {
        Err(LibError::IntegerOverflow(field)) => assert_eq!(field, "estimatedTotalSamples"),
        _ => panic!("expected overflow"),
    }
}

#[test]
fn fax_progress_reports_output() {
    let mut s = Session::new(initial());
    s.record_output(4096, false);
    let report = s.fax_progress().unwrap();
    assert_eq!(report.samples_emitted, 4096);
    assert!(!report.finished);
    s.record_output(1u64 << 60, true);
    assert!(s.fax_progress().is_err());
}

#[test]
fn many_reads_run_in_call_order_with_one_worker() {
    let mut s = Session::new(initial());
    let first = s.read_samples(1, 1).unwrap();
    assert!(matches!(first, Barrier::Queued { start_worker: true }));
    for k in 2..=5u32 {
        let later = s.read_samples(k, k).unwrap();
        assert!(matches!(later, Barrier::Queued { start_worker: false }));
    }
    for k in 1..=5u32 {
        match s.next_command() {
            Some(EncoderCommand::Read(max, promise)) => assert_eq!((max, promise), (k, k)),
            _ => panic!("expected read {k}"),
        }
    }
    assert!(s.next_command().is_none());
}
