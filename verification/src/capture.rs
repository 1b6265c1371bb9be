//! Opening the input device.
//!
//! The program asks the audio layer for the default input device and its
//! native configuration and reports what it found as a `DeviceProbe`. The
//! functions here decide from the probe whether and how capture can start.

use vstd::prelude::*;

verus! {

/// The sample formats an input device may deliver.
#[derive(Clone, Copy, Debug, PartialEq, Eq, Structural)]
pub enum SampleFormat {
    Signed8,
    Signed16,
    Signed32,
    Signed64,
    Unsigned8,
    Unsigned16,
    Unsigned32,
    Unsigned64,
    Float32,
    Float64,
    /// A format this library has no name for.
    Other,
}

/// What the program found when it asked for the default input device.
#[derive(Clone, Debug, PartialEq, Eq)]
pub enum DeviceProbe {
    /// There is no input device.
    NoDevice,
    /// The device did not tell its name.
    NameFailed(String),
    /// The device did not tell its default input configuration.
    ConfigFailed(String),
    /// The device and its native configuration.
    Ready { sample_rate: u32, format: SampleFormat },
}

/// How capture is to be set up: at the device's native rate and format.
#[derive(Clone, Copy, Debug, PartialEq, Eq, Structural)]
pub struct CapturePlan {
    pub sample_rate: u32,
    pub format: SampleFormat,
}

/// Why capture could not start or stop.
#[derive(Clone, Debug, PartialEq, Eq)]
pub enum CaptureError {
    /// A recording is already active.
    AlreadyRecording,
    /// There is no input device.
    NoInputDevice,
    /// The audio layer reported an error; the text is its own.
    Device(String),
    /// The device delivers samples in a format that capture cannot convert.
    UnsupportedSampleFormat,
}

/// The formats that capture can convert to mono floating-point samples:
/// 16-bit integers, signed or unsigned, and 32-bit floating point.
pub open spec fn is_supported(format: SampleFormat) -> bool {
    format == SampleFormat::Float32 || format == SampleFormat::Signed16 || format
        == SampleFormat::Unsigned16
}

/// A capture error as a value.
pub enum CaptureFault {
    AlreadyRecording,
    NoInputDevice,
    Device(Seq<char>),
    UnsupportedSampleFormat,
}

impl View for CaptureError {
    type V = CaptureFault;

    open spec fn view(&self) -> CaptureFault {
        match self {
            CaptureError::AlreadyRecording => CaptureFault::AlreadyRecording,
            CaptureError::NoInputDevice => CaptureFault::NoInputDevice,
            CaptureError::Device(text) => CaptureFault::Device(text@),
            CaptureError::UnsupportedSampleFormat => CaptureFault::UnsupportedSampleFormat,
        }
    }
}

/// A result with its error as a value.
pub open spec fn outcome<V>(result: Result<V, CaptureError>) -> Result<V, CaptureFault> {
    match result {
        Ok(value) => Ok(value),
        Err(error) => Err(error@),
    }
}

/// The device and configuration that a probe reports, or the first thing that
/// went wrong.
pub open spec fn probed(probe: DeviceProbe) -> Result<CapturePlan, CaptureFault> {
    match probe {
        DeviceProbe::NoDevice => Err(CaptureFault::NoInputDevice),
        DeviceProbe::NameFailed(text) => Err(CaptureFault::Device(text@)),
        DeviceProbe::ConfigFailed(text) => Err(CaptureFault::Device(text@)),
        DeviceProbe::Ready { sample_rate, format } => Ok(CapturePlan { sample_rate, format }),
    }
}

/// What a probe allows: a plan for a device with a supported format, else the
/// first thing that went wrong.
pub open spec fn planned(probe: DeviceProbe) -> Result<CapturePlan, CaptureFault> {
    match probed(probe) {
        Ok(plan) => if is_supported(plan.format) {
            Ok(plan)
        } else {
            Err(CaptureFault::UnsupportedSampleFormat)
        },
        Err(fault) => Err(fault),
    }
}

impl SampleFormat {
    /// Whether capture can convert this format.
    pub fn is_supported(&self) -> (supported: bool)
        ensures
            supported == is_supported(*self),
    {
        match self {
            SampleFormat::Float32 => true,
            SampleFormat::Signed16 => true,
            SampleFormat::Unsigned16 => true,
            _ => false,
        }
    }
}

impl DeviceProbe {
    /// The device's native configuration, or why there is none.
    pub fn config(&self) -> (result: Result<CapturePlan, CaptureError>)
        ensures
            outcome(result) == probed(*self),
    {
        match self {
            DeviceProbe::NoDevice => Err(CaptureError::NoInputDevice),
            DeviceProbe::NameFailed(text) => Err(CaptureError::Device(text.clone())),
            DeviceProbe::ConfigFailed(text) => Err(CaptureError::Device(text.clone())),
            DeviceProbe::Ready { sample_rate, format } => Ok(
                CapturePlan { sample_rate: *sample_rate, format: *format },
            ),
        }
    }

    /// Decides from a probe how capture is to be set up.
    ///
    /// Fails without a device, where the device did not answer, and where its
    /// native format is not supported.
    pub fn plan(&self) -> (result: Result<CapturePlan, CaptureError>)
        ensures
            outcome(result) == planned(*self),
    {
        match self.config() {
            Ok(plan) => {
                if plan.format.is_supported() {
                    Ok(plan)
                } else {
                    Err(CaptureError::UnsupportedSampleFormat)
                }
            },
            Err(error) => Err(error),
        }
    }
}

impl CaptureError {
    /// The text of this error.
    pub open spec fn spec_message(&self) -> Seq<char> {
        match self {
            CaptureError::AlreadyRecording => "Already recording"@,
            CaptureError::NoInputDevice => "No input device found"@,
            CaptureError::Device(text) => text@,
            CaptureError::UnsupportedSampleFormat => "Unsupported sample format"@,
        }
    }

    /// The text of this error, as it is reported to the caller.
    pub fn message(&self) -> (text: String)
        ensures
            text@ == self.spec_message(),
    {
        match self {
            CaptureError::AlreadyRecording => "Already recording".to_owned(),
            CaptureError::NoInputDevice => "No input device found".to_owned(),
            CaptureError::Device(text) => text.clone(),
            CaptureError::UnsupportedSampleFormat => "Unsupported sample format".to_owned(),
        }
    }
}

} // verus!
