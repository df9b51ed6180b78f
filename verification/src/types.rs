//! Shared value types of the audio engine: sample formats, negotiated
//! configurations, device descriptions, and the error taxonomy.

use vstd::prelude::*;

verus! {

/// A sample encoding reported by a device. Encodings beyond the three the
/// engine distinguishes are collapsed into `Unknown`.
#[derive(Clone, Copy, PartialEq, Eq, Structural, Debug)]
pub enum SampleFormat {
    I16,
    U16,
    F32,
    Unknown,
}

/// The name under which a sample format is reported to the host caller.
pub open spec fn spec_format_name(format: SampleFormat) -> Seq<char> {
    match format {
        SampleFormat::I16 => "i16"@,
        SampleFormat::U16 => "u16"@,
        SampleFormat::F32 => "f32"@,
        SampleFormat::Unknown => "unknown"@,
    }
}

/// Renders a sample format as the string the host caller receives.
pub fn sample_format_to_js_string(format: SampleFormat) -> (name: &'static str)
    ensures
        name@ == spec_format_name(format),
{
    match format {
        SampleFormat::I16 => "i16",
        SampleFormat::U16 => "u16",
        SampleFormat::F32 => "f32",
        SampleFormat::Unknown => "unknown",
    }
}

/// One capability range reported by a device for one direction: a channel
/// count, an inclusive sample-rate interval, and a sample format.
#[derive(Clone, Copy, PartialEq, Eq, Structural, Debug)]
pub struct ConfigRange {
    pub channels: u16,
    pub min_sample_rate: u32,
    pub max_sample_rate: u32,
    pub format: SampleFormat,
}

/// A device's default configuration for one direction.
#[derive(Clone, Copy, PartialEq, Eq, Structural, Debug)]
pub struct DeviceConfig {
    pub sample_rate: u32,
    pub channels: u16,
    pub format: SampleFormat,
}

/// A configuration negotiated by the host caller for a new stream; the
/// hardware provider is its final validator.
#[derive(Clone, Copy, PartialEq, Eq, Structural, Debug)]
pub struct StreamConfig {
    pub channels: u16,
    pub sample_rate: u32,
}

/// A device as reported to the host caller. The device id is its enumerated
/// name; the default flags are computed relative to the active host.
#[derive(Debug)]
pub struct DeviceInfo {
    pub name: String,
    pub device_id: String,
    pub host_id: String,
    pub is_default_input: bool,
    pub is_default_output: bool,
}

/// A host as reported to the host caller; the host's name serves as its id.
#[derive(Debug)]
pub struct HostInfo {
    pub id: String,
    pub name: String,
}

/// Every failure the engine surfaces synchronously to its caller.
#[derive(Clone, Copy, PartialEq, Eq, Structural, Debug)]
pub enum AudioError {
    /// The device id is absent from the registry and not resolvable as the
    /// current default.
    DeviceNotFound,
    /// The stream id is absent from the stream registry.
    StreamNotFound,
    /// The device reports zero capability ranges for the requested direction.
    Unsupported,
    /// The hardware provider refused the negotiated configuration.
    ConfigRejected,
    /// A write carried an empty payload.
    InvalidBuffer,
    /// A write was addressed to a capture-direction stream.
    WrongDirection,
    /// A write was addressed to a paused stream.
    StreamInactive,
    /// The stream's bounded channel was full when a write arrived.
    BackpressureExceeded,
    /// The hardware provider failed an enumeration, build, or query, or a
    /// fresh stream id could not be generated.
    ProviderError,
}

/// The human-readable message carried by each error.
pub open spec fn spec_error_message(err: AudioError) -> Seq<char> {
    match err {
        AudioError::DeviceNotFound => "Device not found"@,
        AudioError::StreamNotFound => "Stream not found"@,
        AudioError::Unsupported => "Device does not support the requested direction"@,
        AudioError::ConfigRejected => "Failed to build stream"@,
        AudioError::InvalidBuffer => "Invalid buffer size: buffer cannot be empty"@,
        AudioError::WrongDirection => "Cannot write to an input stream"@,
        AudioError::StreamInactive => "Stream is not active"@,
        AudioError::BackpressureExceeded => "Failed to write to stream: buffer full"@,
        AudioError::ProviderError => "Audio provider error"@,
    }
}

impl AudioError {
    /// The message under which this error crosses the host boundary.
    pub fn message(&self) -> (msg: &'static str)
        ensures
            msg@ == spec_error_message(*self),
    {
        match self {
            AudioError::DeviceNotFound => "Device not found",
            AudioError::StreamNotFound => "Stream not found",
            AudioError::Unsupported => "Device does not support the requested direction",
            AudioError::ConfigRejected => "Failed to build stream",
            AudioError::InvalidBuffer => "Invalid buffer size: buffer cannot be empty",
            AudioError::WrongDirection => "Cannot write to an input stream",
            AudioError::StreamInactive => "Stream is not active",
            AudioError::BackpressureExceeded => "Failed to write to stream: buffer full",
            AudioError::ProviderError => "Audio provider error",
        }
    }
}

} // verus!
