use vstd::prelude::*;

use crate::text::{decimal, decimal_spec};

verus! {

/// Every way a bridge operation can refuse its input.
#[derive(Debug)]
pub enum LibError {
    /// `outputMode` was neither `framed` nor `continuousPaper`.
    OutputModeInvalid,
    /// `immediateDecode` was requested together with `continuousPaper`.
    ImmediateWithPaper,
    /// `maxLines` was requested together with `continuousPaper`.
    MaxLinesWithPaper,
    /// `clockRecovery` was neither `auto` nor `off`.
    ClockRecoveryInvalid,
    /// `queueCapacitySamples` resolved to zero.
    QueueCapacityZero,
    /// A line rate does not fit sixteen bits.
    LpmTooLarge,
    /// The codec refused a configuration value; the text is the codec's own.
    CodecRejected(String),
    /// A modulation kind other than FM or AM was named.
    ModulationUnsupported(String),
    /// An FSK station identifier was requested without a callsign.
    FskCallsignMissing,
    /// A CW station identifier was requested without a callsign.
    CwCallsignMissing,
    /// A CW speed does not fit sixteen bits.
    CwWpmOutOfRange,
    /// A station identifier kind other than `none`, `fsk` or `cw` was named.
    StationKindInvalid,
    /// A clock source name is not one of the published names.
    ClockSourceInvalid,
    /// A clock status name is not one of the published names.
    ClockStatusInvalid,
    /// The codec refused an image buffer; the text is the codec's own.
    ImageRejected(String),
    /// A non-negative safe integer exceeds the range of its destination.
    ValueOutOfRange(String),
    /// An integer cannot be represented exactly by a JavaScript number.
    IntegerOverflow(String),
    /// The decoder was disposed.
    DecoderDisposed,
    /// The encoder was disposed.
    EncoderDisposed,
    /// The decoder session failed earlier.
    DecoderFailed,
    /// The decoder was finished and accepts no more input.
    DecoderFinished,
    /// A PCM chunk is larger than the whole input queue.
    ChunkTooLarge { len: usize, capacity: usize },
    /// A PCM chunk contains NaN or infinity.
    NonFiniteSample,
    /// `droppedInputSamples` is not a non-negative safe integer.
    DroppedSamplesInvalid,
    /// `maxSamples` is outside `1..=MAX_READ_SAMPLES`.
    MaxSamplesOutOfRange,
    /// The operation queue already holds its maximum number of commands.
    QueueFull,
    /// A pending decoder operation was cancelled by `dispose`.
    CancelledByDispose,
    /// A pending encoder read was cancelled by `dispose`.
    ReadCancelled,
    /// A pending encoder `dispose` was replaced by a later one.
    DisposeSuperseded,
    /// The codec reported an SSTV mode that the bridge does not publish.
    ModeUnsupported,
}

/// The machine-readable code under which each refusal is reported.
pub open spec fn error_code_spec(e: LibError) -> Seq<char> {
    match e {
        LibError::OutputModeInvalid | LibError::ImmediateWithPaper | LibError::MaxLinesWithPaper
        | LibError::ClockRecoveryInvalid | LibError::QueueCapacityZero | LibError::LpmTooLarge
        | LibError::CodecRejected(_) | LibError::ModulationUnsupported(_)
        | LibError::FskCallsignMissing | LibError::CwCallsignMissing | LibError::CwWpmOutOfRange
        | LibError::StationKindInvalid | LibError::ClockSourceInvalid
        | LibError::ClockStatusInvalid | LibError::ValueOutOfRange(_) => "RASTERWAVE_INVALID_CONFIG"@,
        LibError::IntegerOverflow(_) => "RASTERWAVE_INTEGER_OVERFLOW"@,
        LibError::ImageRejected(_) => "RASTERWAVE_INVALID_IMAGE"@,
        LibError::DecoderDisposed | LibError::EncoderDisposed | LibError::CancelledByDispose
        | LibError::ReadCancelled | LibError::DisposeSuperseded => "RASTERWAVE_DISPOSED"@,
        LibError::DecoderFailed => "RASTERWAVE_FAILED"@,
        LibError::DecoderFinished => "RASTERWAVE_FINISHED"@,
        LibError::ChunkTooLarge { .. } => "RASTERWAVE_CHUNK_TOO_LARGE"@,
        LibError::NonFiniteSample => "RASTERWAVE_NON_FINITE_SAMPLE"@,
        LibError::DroppedSamplesInvalid | LibError::MaxSamplesOutOfRange => "RASTERWAVE_INVALID_ARGUMENT"@,
        LibError::QueueFull => "RASTERWAVE_QUEUE_FULL"@,
        LibError::ModeUnsupported => "RASTERWAVE_UNSUPPORTED_MODE"@,
    }
}

/// The human-readable text reported with each refusal.
pub open spec fn error_message_spec(e: LibError) -> Seq<char> {
    match e {
        LibError::OutputModeInvalid => "outputMode must be 'framed' or 'continuousPaper'"@,
        LibError::ImmediateWithPaper => "immediateDecode cannot be combined with continuousPaper"@,
        LibError::MaxLinesWithPaper => "maxLines cannot be combined with continuousPaper"@,
        LibError::ClockRecoveryInvalid => "clockRecovery must be 'auto' or 'off'"@,
        LibError::QueueCapacityZero => "queueCapacitySamples must be positive"@,
        LibError::LpmTooLarge => "LPM does not fit u16"@,
        LibError::CodecRejected(text) => text@,
        LibError::ModulationUnsupported(kind) => "unsupported fax modulation: "@ + kind@,
        LibError::FskCallsignMissing => "FSK stationId requires callsign"@,
        LibError::CwCallsignMissing => "CW stationId requires callsign"@,
        LibError::CwWpmOutOfRange => "CW stationId WPM is out of range"@,
        LibError::StationKindInvalid => "stationId.kind must be none, fsk, or cw"@,
        LibError::ClockSourceInvalid => "clock source is invalid"@,
        LibError::ClockStatusInvalid => "clock status is invalid"@,
        LibError::ImageRejected(text) => text@,
        LibError::ValueOutOfRange(field) => field@ + " exceeds the supported range"@,
        LibError::IntegerOverflow(field) => field@ + " exceeds Number.MAX_SAFE_INTEGER"@,
        LibError::DecoderDisposed => "decoder is disposed"@,
        LibError::EncoderDisposed => "encoder is disposed"@,
        LibError::DecoderFailed => "decoder session has failed"@,
        LibError::DecoderFinished => "decoder no longer accepts input"@,
        LibError::ChunkTooLarge { len, capacity } => "chunk has "@ + decimal_spec(len as nat) + " samples; capacity is "@
            + decimal_spec(capacity as nat),
        LibError::NonFiniteSample => "PCM contains NaN or infinity"@,
        LibError::DroppedSamplesInvalid => "droppedInputSamples must be a non-negative safe integer"@,
        LibError::MaxSamplesOutOfRange => "maxSamples must be in 1..="@ + decimal_spec(crate::limits::MAX_READ_SAMPLES as nat),
        LibError::QueueFull => "operation queue is full"@,
        LibError::CancelledByDispose => "operation was cancelled by dispose"@,
        LibError::ReadCancelled => "read was cancelled by dispose"@,
        LibError::DisposeSuperseded => "dispose was superseded"@,
        LibError::ModeUnsupported => "unknown SSTV mode"@,
    }
}

impl LibError {
    /// The machine-readable code of this refusal.
    pub fn code(&self) -> (r: &'static str)
        ensures
            r@ == error_code_spec(*self),
    {
        match self {
            LibError::OutputModeInvalid | LibError::ImmediateWithPaper
            | LibError::MaxLinesWithPaper | LibError::ClockRecoveryInvalid
            | LibError::QueueCapacityZero | LibError::LpmTooLarge | LibError::CodecRejected(_)
            | LibError::ModulationUnsupported(_) | LibError::FskCallsignMissing
            | LibError::CwCallsignMissing | LibError::CwWpmOutOfRange
            | LibError::StationKindInvalid | LibError::ClockSourceInvalid
            | LibError::ClockStatusInvalid | LibError::ValueOutOfRange(_) => "RASTERWAVE_INVALID_CONFIG",
            LibError::IntegerOverflow(_) => "RASTERWAVE_INTEGER_OVERFLOW",
            LibError::ImageRejected(_) => "RASTERWAVE_INVALID_IMAGE",
            LibError::DecoderDisposed | LibError::EncoderDisposed | LibError::CancelledByDispose
            | LibError::ReadCancelled | LibError::DisposeSuperseded => "RASTERWAVE_DISPOSED",
            LibError::DecoderFailed => "RASTERWAVE_FAILED",
            LibError::DecoderFinished => "RASTERWAVE_FINISHED",
            LibError::ChunkTooLarge { .. } => "RASTERWAVE_CHUNK_TOO_LARGE",
            LibError::NonFiniteSample => "RASTERWAVE_NON_FINITE_SAMPLE",
            LibError::DroppedSamplesInvalid | LibError::MaxSamplesOutOfRange => "RASTERWAVE_INVALID_ARGUMENT",
            LibError::QueueFull => "RASTERWAVE_QUEUE_FULL",
            LibError::ModeUnsupported => "RASTERWAVE_UNSUPPORTED_MODE",
        }
    }

    /// The human-readable text of this refusal.
    pub fn message(&self) -> (r: String)
        ensures
            r@ == error_message_spec(*self),
    {
        match self {
            LibError::OutputModeInvalid => String::from_str("outputMode must be 'framed' or 'continuousPaper'"),
            LibError::ImmediateWithPaper => String::from_str("immediateDecode cannot be combined with continuousPaper"),
            LibError::MaxLinesWithPaper => String::from_str("maxLines cannot be combined with continuousPaper"),
            LibError::ClockRecoveryInvalid => String::from_str("clockRecovery must be 'auto' or 'off'"),
            LibError::QueueCapacityZero => String::from_str("queueCapacitySamples must be positive"),
            LibError::LpmTooLarge => String::from_str("LPM does not fit u16"),
            LibError::CodecRejected(text) => text.clone(),
            LibError::ModulationUnsupported(kind) => {
                let mut text = String::from_str("unsupported fax modulation: ");
                text.append(kind.as_str());
                text
            },
            LibError::FskCallsignMissing => String::from_str("FSK stationId requires callsign"),
            LibError::CwCallsignMissing => String::from_str("CW stationId requires callsign"),
            LibError::CwWpmOutOfRange => String::from_str("CW stationId WPM is out of range"),
            LibError::StationKindInvalid => String::from_str("stationId.kind must be none, fsk, or cw"),
            LibError::ClockSourceInvalid => String::from_str("clock source is invalid"),
            LibError::ClockStatusInvalid => String::from_str("clock status is invalid"),
            LibError::ImageRejected(text) => text.clone(),
            LibError::ValueOutOfRange(field) => {
                let mut text = field.clone();
                text.append(" exceeds the supported range");
                text
            },
            LibError::IntegerOverflow(field) => {
                let mut text = field.clone();
                text.append(" exceeds Number.MAX_SAFE_INTEGER");
                text
            },
            LibError::DecoderDisposed => String::from_str("decoder is disposed"),
            LibError::EncoderDisposed => String::from_str("encoder is disposed"),
            LibError::DecoderFailed => String::from_str("decoder session has failed"),
            LibError::DecoderFinished => String::from_str("decoder no longer accepts input"),
            LibError::ChunkTooLarge { len, capacity } => {
                let mut text = String::from_str("chunk has ");
                text.append(decimal(*len as u64).as_str());
                text.append(" samples; capacity is ");
                text.append(decimal(*capacity as u64).as_str());
                text
            },
            LibError::NonFiniteSample => String::from_str("PCM contains NaN or infinity"),
            LibError::DroppedSamplesInvalid => String::from_str("droppedInputSamples must be a non-negative safe integer"),
            LibError::MaxSamplesOutOfRange => {
                let mut text = String::from_str("maxSamples must be in 1..=");
                text.append(decimal(crate::limits::MAX_READ_SAMPLES as u64).as_str());
                text
            },
            LibError::QueueFull => String::from_str("operation queue is full"),
            LibError::CancelledByDispose => String::from_str("operation was cancelled by dispose"),
            LibError::ReadCancelled => String::from_str("read was cancelled by dispose"),
            LibError::DisposeSuperseded => String::from_str("dispose was superseded"),
            LibError::ModeUnsupported => String::from_str("unknown SSTV mode"),
        }
    }
}

/// Each refusal is reported under the code of its family.
pub proof fn lemma_error_codes(e: LibError)
    ensures
        e matches LibError::OutputModeInvalid ==> error_code_spec(e) == "RASTERWAVE_INVALID_CONFIG"@,
        e matches LibError::ImmediateWithPaper ==> error_code_spec(e) == "RASTERWAVE_INVALID_CONFIG"@,
        e matches LibError::MaxLinesWithPaper ==> error_code_spec(e) == "RASTERWAVE_INVALID_CONFIG"@,
        e matches LibError::ClockRecoveryInvalid ==> error_code_spec(e) == "RASTERWAVE_INVALID_CONFIG"@,
        e matches LibError::QueueCapacityZero ==> error_code_spec(e) == "RASTERWAVE_INVALID_CONFIG"@,
        e matches LibError::LpmTooLarge ==> error_code_spec(e) == "RASTERWAVE_INVALID_CONFIG"@,
        e matches LibError::CodecRejected(_) ==> error_code_spec(e) == "RASTERWAVE_INVALID_CONFIG"@,
        e matches LibError::ModulationUnsupported(_) ==> error_code_spec(e) == "RASTERWAVE_INVALID_CONFIG"@,
        e matches LibError::FskCallsignMissing ==> error_code_spec(e) == "RASTERWAVE_INVALID_CONFIG"@,
        e matches LibError::CwCallsignMissing ==> error_code_spec(e) == "RASTERWAVE_INVALID_CONFIG"@,
        e matches LibError::CwWpmOutOfRange ==> error_code_spec(e) == "RASTERWAVE_INVALID_CONFIG"@,
        e matches LibError::StationKindInvalid ==> error_code_spec(e) == "RASTERWAVE_INVALID_CONFIG"@,
        e matches LibError::ClockSourceInvalid ==> error_code_spec(e) == "RASTERWAVE_INVALID_CONFIG"@,
        e matches LibError::ClockStatusInvalid ==> error_code_spec(e) == "RASTERWAVE_INVALID_CONFIG"@,
        e matches LibError::ValueOutOfRange(_) ==> error_code_spec(e) == "RASTERWAVE_INVALID_CONFIG"@,
        e matches LibError::IntegerOverflow(_) ==> error_code_spec(e) == "RASTERWAVE_INTEGER_OVERFLOW"@,
        e matches LibError::ImageRejected(_) ==> error_code_spec(e) == "RASTERWAVE_INVALID_IMAGE"@,
        e matches LibError::DecoderDisposed ==> error_code_spec(e) == "RASTERWAVE_DISPOSED"@,
        e matches LibError::EncoderDisposed ==> error_code_spec(e) == "RASTERWAVE_DISPOSED"@,
        e matches LibError::CancelledByDispose ==> error_code_spec(e) == "RASTERWAVE_DISPOSED"@,
        e matches LibError::ReadCancelled ==> error_code_spec(e) == "RASTERWAVE_DISPOSED"@,
        e matches LibError::DisposeSuperseded ==> error_code_spec(e) == "RASTERWAVE_DISPOSED"@,
        e matches LibError::DecoderFailed ==> error_code_spec(e) == "RASTERWAVE_FAILED"@,
        e matches LibError::DecoderFinished ==> error_code_spec(e) == "RASTERWAVE_FINISHED"@,
        e matches LibError::ChunkTooLarge { .. } ==> error_code_spec(e) == "RASTERWAVE_CHUNK_TOO_LARGE"@,
        e matches LibError::NonFiniteSample ==> error_code_spec(e) == "RASTERWAVE_NON_FINITE_SAMPLE"@,
        e matches LibError::DroppedSamplesInvalid ==> error_code_spec(e) == "RASTERWAVE_INVALID_ARGUMENT"@,
        e matches LibError::MaxSamplesOutOfRange ==> error_code_spec(e) == "RASTERWAVE_INVALID_ARGUMENT"@,
        e matches LibError::QueueFull ==> error_code_spec(e) == "RASTERWAVE_QUEUE_FULL"@,
        e matches LibError::ModeUnsupported ==> error_code_spec(e) == "RASTERWAVE_UNSUPPORTED_MODE"@,
{
}

/// The fixed text of each refusal, and how the texts that carry a value are
/// built from it.
pub proof fn lemma_error_messages(text: String, len: usize, capacity: usize)
    ensures
        error_message_spec(LibError::OutputModeInvalid) == "outputMode must be 'framed' or 'continuousPaper'"@,
        error_message_spec(LibError::ImmediateWithPaper) == "immediateDecode cannot be combined with continuousPaper"@,
        error_message_spec(LibError::MaxLinesWithPaper) == "maxLines cannot be combined with continuousPaper"@,
        error_message_spec(LibError::ClockRecoveryInvalid) == "clockRecovery must be 'auto' or 'off'"@,
        error_message_spec(LibError::QueueCapacityZero) == "queueCapacitySamples must be positive"@,
        error_message_spec(LibError::LpmTooLarge) == "LPM does not fit u16"@,
        error_message_spec(LibError::FskCallsignMissing) == "FSK stationId requires callsign"@,
        error_message_spec(LibError::CwCallsignMissing) == "CW stationId requires callsign"@,
        error_message_spec(LibError::CwWpmOutOfRange) == "CW stationId WPM is out of range"@,
        error_message_spec(LibError::StationKindInvalid) == "stationId.kind must be none, fsk, or cw"@,
        error_message_spec(LibError::ClockSourceInvalid) == "clock source is invalid"@,
        error_message_spec(LibError::ClockStatusInvalid) == "clock status is invalid"@,
        error_message_spec(LibError::DecoderDisposed) == "decoder is disposed"@,
        error_message_spec(LibError::EncoderDisposed) == "encoder is disposed"@,
        error_message_spec(LibError::DecoderFailed) == "decoder session has failed"@,
        error_message_spec(LibError::DecoderFinished) == "decoder no longer accepts input"@,
        error_message_spec(LibError::NonFiniteSample) == "PCM contains NaN or infinity"@,
        error_message_spec(LibError::DroppedSamplesInvalid) == "droppedInputSamples must be a non-negative safe integer"@,
        error_message_spec(LibError::QueueFull) == "operation queue is full"@,
        error_message_spec(LibError::CancelledByDispose) == "operation was cancelled by dispose"@,
        error_message_spec(LibError::ReadCancelled) == "read was cancelled by dispose"@,
        error_message_spec(LibError::DisposeSuperseded) == "dispose was superseded"@,
        error_message_spec(LibError::ModeUnsupported) == "unknown SSTV mode"@,
        error_message_spec(LibError::CodecRejected(text)) == text@,
        error_message_spec(LibError::ImageRejected(text)) == text@,
        error_message_spec(LibError::ModulationUnsupported(text)) == "unsupported fax modulation: "@ + text@,
        error_message_spec(LibError::ValueOutOfRange(text)) == text@ + " exceeds the supported range"@,
        error_message_spec(LibError::IntegerOverflow(text)) == text@ + " exceeds Number.MAX_SAFE_INTEGER"@,
        error_message_spec(LibError::ChunkTooLarge { len, capacity }) == "chunk has "@ + decimal_spec(len as nat)
            + " samples; capacity is "@ + decimal_spec(capacity as nat),
        error_message_spec(LibError::MaxSamplesOutOfRange) == "maxSamples must be in 1..="@ + decimal_spec(1048576),
{
}

} // verus!
