use rasterwave_node::text::decimal;
use rasterwave_node::error::LibError;
use rasterwave_node::limits::{MAX_INPUT_OPERATIONS, MAX_OPERATIONS, MAX_READ_SAMPLES, safe_number, safe_u32_input};

#[test]
fn safe_number_rejects_precision_loss() {
    assert_eq!(
        safe_number(9_007_199_254_740_991, "value").unwrap() as f64,
        9_007_199_254_740_991.0
    );
    assert!(safe_number(9_007_199_254_740_992, "value").is_err());
}

#[test]
fn safe_number_names_the_field() {
    match safe_number(u64::MAX, "imageId") {
        Err(LibError::IntegerOverflow(field)) => assert_eq!(field, "imageId"),
        other => panic!("unexpected {other:?}"),
    }
    assert_eq!(safe_number(0, "x").unwrap(), 0);
}

#[test]
fn safe_number_error_code() {
    let err = safe_number(u64::MAX, "value").unwrap_err();
    assert_eq!(err.code(), "RASTERWAVE_INTEGER_OVERFLOW");
}

#[test]
fn safe_u32_input_narrows() {
    assert_eq!(safe_u32_input(4_294_967_295, "revision").unwrap(), u32::MAX);
    match safe_u32_input(4_294_967_296, "revision") {
        Err(LibError::ValueOutOfRange(field)) => assert_eq!(field, "revision"),
        other => panic!("unexpected {other:?}"),
    }
}

#[test]
fn operation_limits() {
    assert_eq!(MAX_OPERATIONS, 64);
    assert_eq!(MAX_INPUT_OPERATIONS, MAX_OPERATIONS - 4);
    assert_eq!(MAX_READ_SAMPLES, 1_048_576);
}

#[test]
fn error_codes_cover_each_family() {
    assert_eq!(LibError::OutputModeInvalid.code(), "RASTERWAVE_INVALID_CONFIG");
    assert_eq!(LibError::DecoderDisposed.code(), "RASTERWAVE_DISPOSED");
    assert_eq!(LibError::DecoderFailed.code(), "RASTERWAVE_FAILED");
    assert_eq!(LibError::DecoderFinished.code(), "RASTERWAVE_FINISHED");
    assert_eq!(LibError::ChunkTooLarge { len: 2, capacity: 1 }.code(), "RASTERWAVE_CHUNK_TOO_LARGE");
    assert_eq!(LibError::NonFiniteSample.code(), "RASTERWAVE_NON_FINITE_SAMPLE");
    assert_eq!(LibError::MaxSamplesOutOfRange.code(), "RASTERWAVE_INVALID_ARGUMENT");
    assert_eq!(LibError::QueueFull.code(), "RASTERWAVE_QUEUE_FULL");
    assert_eq!(LibError::ReadCancelled.code(), "RASTERWAVE_DISPOSED");
}

#[test]
fn refusal_messages() {
    assert_eq!(
        LibError::ChunkTooLarge { len: 240000, capacity: 12 }.message(),
        "chunk has 240000 samples; capacity is 12"
    );
    assert_eq!(LibError::IntegerOverflow("imageId".to_string()).message(), "imageId exceeds Number.MAX_SAFE_INTEGER");
    assert_eq!(LibError::ValueOutOfRange("revision".to_string()).message(), "revision exceeds the supported range");
    assert_eq!(LibError::MaxSamplesOutOfRange.message(), "maxSamples must be in 1..=1048576");
    assert_eq!(LibError::ModulationUnsupported("ssb".to_string()).message(), "unsupported fax modulation: ssb");
    assert_eq!(LibError::CodecRejected("bad LPM".to_string()).message(), "bad LPM");
    assert_eq!(LibError::QueueFull.message(), "operation queue is full");
    assert_eq!(LibError::OutputModeInvalid.message(), "outputMode must be 'framed' or 'continuousPaper'");
}

#[test]
fn decimal_spelling() {
    assert_eq!(decimal(0), "0");
    assert_eq!(decimal(7), "7");
    assert_eq!(decimal(10), "10");
    assert_eq!(decimal(1048576), "1048576");
    assert_eq!(decimal(u64::MAX), u64::MAX.to_string());
}
