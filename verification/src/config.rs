//! The configuration of a capture session, and what follows from it: the
//! size of one read and the command line of the decoder process.

use crate::decode::supported_width;
use crate::decode::MAX_SAMPLE_WIDTH;
use crate::ring::capacity_is_valid;
use crate::ring::valid_capacity;
use vstd::prelude::*;
use vstd::string::StringExecFns;

verus! {

/// Why a configuration was refused.
#[derive(Debug, Clone, Copy, PartialEq, Eq, Structural)]
pub enum ConfigError {
    /// The sample width is not 1, 2, 3 or 4 bytes.
    UnsupportedWidth,
    /// The buffer capacity is no power of two, or too large to allocate.
    InvalidCapacity,
    /// A read would hold no sample, or more bytes than can be addressed.
    InvalidFrame,
    /// The sample rate is zero.
    InvalidRate,
}

/// What a capture session is set up with. It does not change once the
/// session has started.
pub struct CaptureConfig {
    source: String,
    sample_width: usize,
    capacity: usize,
    frame_samples: usize,
    sample_rate: u32,
}

/// The settings of a configuration, as plain values.
pub struct ConfigView {
    pub source: Seq<char>,
    pub sample_width: nat,
    pub capacity: nat,
    pub frame_samples: nat,
    pub sample_rate: nat,
}

/// The settings a session can run with.
pub open spec fn valid_settings(
    sample_width: nat,
    capacity: nat,
    frame_samples: nat,
    sample_rate: nat,
) -> bool {
    &&& supported_width(sample_width)
    &&& valid_capacity(capacity)
    &&& frame_samples >= 1
    &&& frame_samples * sample_width <= isize::MAX
    &&& sample_rate >= 1
}

/// The first reason, in the order of the variants, for which settings are
/// refused.
pub open spec fn settings_error(
    sample_width: nat,
    capacity: nat,
    frame_samples: nat,
    sample_rate: nat,
) -> ConfigError {
    if !supported_width(sample_width) {
        ConfigError::UnsupportedWidth
    } else if !valid_capacity(capacity) {
        ConfigError::InvalidCapacity
    } else if !(frame_samples >= 1 && frame_samples * sample_width <= isize::MAX) {
        ConfigError::InvalidFrame
    } else {
        ConfigError::InvalidRate
    }
}

/// The text of one decimal digit.
pub open spec fn digit_text(digit: nat) -> Seq<char> {
    if digit == 0 {
        "0"@
    } else if digit == 1 {
        "1"@
    } else if digit == 2 {
        "2"@
    } else if digit == 3 {
        "3"@
    } else if digit == 4 {
        "4"@
    } else if digit == 5 {
        "5"@
    } else if digit == 6 {
        "6"@
    } else if digit == 7 {
        "7"@
    } else if digit == 8 {
        "8"@
    } else {
        "9"@
    }
}

/// A number in decimal notation, without leading zeros.
pub open spec fn decimal_text(n: nat) -> Seq<char>
    decreases n,
{
    if n < 10 {
        digit_text(n)
    } else {
        decimal_text(n / 10) + digit_text(n % 10)
    }
}

/// The name under which the decoder knows raw signed little-endian samples
/// of the given width.
pub open spec fn format_name(sample_width: nat) -> Seq<char> {
    if sample_width == 1 {
        "s8"@
    } else if sample_width == 2 {
        "s16le"@
    } else if sample_width == 3 {
        "s24le"@
    } else {
        "s32le"@
    }
}

/// The arguments with which the decoder process is started: capture from
/// the named device, write raw signed little-endian samples of the
/// configured width, at the configured rate and on one channel, to
/// standard output, and print no diagnostics.
pub open spec fn decoder_arguments_spec(config: ConfigView) -> Seq<Seq<char>> {
    seq![
        "-f"@,
        "alsa"@,
        "-i"@,
        config.source,
        "-f"@,
        format_name(config.sample_width),
        "-ar"@,
        decimal_text(config.sample_rate),
        "-ac"@,
        "1"@,
        "-v"@,
        "quiet"@,
        "pipe:1"@,
    ]
}

fn digit_str(digit: u32) -> (text: &'static str)
    requires
        digit < 10,
    ensures
        text@ == digit_text(digit as nat),
{
    if digit == 0 {
        "0"
    } else if digit == 1 {
        "1"
    } else if digit == 2 {
        "2"
    } else if digit == 3 {
        "3"
    } else if digit == 4 {
        "4"
    } else if digit == 5 {
        "5"
    } else if digit == 6 {
        "6"
    } else if digit == 7 {
        "7"
    } else if digit == 8 {
        "8"
    } else {
        "9"
    }
}

/// Writes a number in decimal notation.
pub fn decimal(n: u32) -> (text: String)
    ensures
        text@ == decimal_text(n as nat),
    decreases n,
{
    if n < 10 {
        String::from_str(digit_str(n))
    } else {
        let mut text = decimal(n / 10);
        text.append(digit_str(n % 10));
        text
    }
}

impl View for CaptureConfig {
    type V = ConfigView;

    closed spec fn view(&self) -> ConfigView {
        ConfigView {
            source: self.source@,
            sample_width: self.sample_width as nat,
            capacity: self.capacity as nat,
            frame_samples: self.frame_samples as nat,
            sample_rate: self.sample_rate as nat,
        }
    }
}

impl CaptureConfig {
    /// The invariant of a configuration: a session can run with it.
    pub open spec fn wf(&self) -> bool {
        valid_settings(
            self@.sample_width,
            self@.capacity,
            self@.frame_samples,
            self@.sample_rate,
        )
    }

    /// Checks the settings and keeps them. `source` names the device to
    /// capture from; a sample is `sample_width` bytes wide; the buffer
    /// holds `capacity` samples; one read brings `frame_samples` samples;
    /// `sample_rate` is in samples per second.
    pub fn new(
        source: String,
        sample_width: usize,
        capacity: usize,
        frame_samples: usize,
        sample_rate: u32,
    ) -> (made: Result<CaptureConfig, ConfigError>)
        ensures
            made is Ok <==> valid_settings(
                sample_width as nat,
                capacity as nat,
                frame_samples as nat,
                sample_rate as nat,
            ),
            made matches Ok(config) ==> config.wf() && config@ == (ConfigView {
                source: source@,
                sample_width: sample_width as nat,
                capacity: capacity as nat,
                frame_samples: frame_samples as nat,
                sample_rate: sample_rate as nat,
            }),
            made matches Err(e) ==> e == settings_error(
                sample_width as nat,
                capacity as nat,
                frame_samples as nat,
                sample_rate as nat,
            ),
    {
        if sample_width < 1 || sample_width > MAX_SAMPLE_WIDTH {
            return Err(ConfigError::UnsupportedWidth);
        }
        if !capacity_is_valid(capacity) {
            return Err(ConfigError::InvalidCapacity);
        }
        if frame_samples < 1 || frame_samples > (isize::MAX as usize) / sample_width {
            proof {
                if frame_samples >= 1 {
                    lemma_over_quotient(
                        frame_samples as int,
                        sample_width as int,
                        isize::MAX as int,
                    );
                }
            }
            return Err(ConfigError::InvalidFrame);
        }
        proof {
            lemma_under_quotient(frame_samples as int, sample_width as int, isize::MAX as int);
        }
        if sample_rate < 1 {
            return Err(ConfigError::InvalidRate);
        }
        Ok(CaptureConfig { source, sample_width, capacity, frame_samples, sample_rate })
    }

    /// The device captured from.
    pub fn source(&self) -> (source: &String)
        ensures
            source@ == self@.source,
    {
        &self.source
    }

    /// The width of one sample, in bytes.
    pub fn sample_width(&self) -> (width: usize)
        ensures
            width == self@.sample_width,
    {
        self.sample_width
    }

    /// The number of samples the buffer holds.
    pub fn capacity(&self) -> (capacity: usize)
        ensures
            capacity == self@.capacity,
    {
        self.capacity
    }

    /// The number of samples that one read brings.
    pub fn frame_samples(&self) -> (samples: usize)
        ensures
            samples == self@.frame_samples,
    {
        self.frame_samples
    }

    /// The sample rate, in samples per second.
    pub fn sample_rate(&self) -> (rate: u32)
        ensures
            rate == self@.sample_rate,
    {
        self.sample_rate
    }

    /// The number of bytes to ask the source for in one read.
    pub fn frame_bytes(&self) -> (bytes: usize)
        requires
            self.wf(),
        ensures
            bytes == self@.frame_samples * self@.sample_width,
            bytes as nat % self@.sample_width == 0,
            bytes >= 1,
    {
        proof {
            lemma_multiple(self.frame_samples as int, self.sample_width as int);
        }
        self.frame_samples * self.sample_width
    }

    /// The arguments with which to start the decoder process.
    pub fn decoder_arguments(&self) -> (arguments: Vec<String>)
        ensures
            arguments.deep_view() == decoder_arguments_spec(self@),
    {
        let format = if self.sample_width == 1 {
            "s8"
        } else if self.sample_width == 2 {
            "s16le"
        } else if self.sample_width == 3 {
            "s24le"
        } else {
            "s32le"
        };
        let mut arguments: Vec<String> = Vec::new();
        arguments.push(String::from_str("-f"));
        arguments.push(String::from_str("alsa"));
        arguments.push(String::from_str("-i"));
        arguments.push(self.source.clone());
        arguments.push(String::from_str("-f"));
        arguments.push(String::from_str(format));
        arguments.push(String::from_str("-ar"));
        arguments.push(decimal(self.sample_rate));
        arguments.push(String::from_str("-ac"));
        arguments.push(String::from_str("1"));
        arguments.push(String::from_str("-v"));
        arguments.push(String::from_str("quiet"));
        arguments.push(String::from_str("pipe:1"));
        assert(arguments.deep_view() =~= decoder_arguments_spec(self@));
        arguments
    }
}

/// A product is a multiple of its factor, and at least 1 where both
/// factors are.
proof fn lemma_multiple(count: int, width: int)
    by (nonlinear_arith)
    requires
        count >= 1,
        width >= 1,
    ensures
        (count * width) % width == 0,
        count * width >= 1,
{
}

/// A count above `limit / width` has a product above `limit`.
proof fn lemma_over_quotient(count: int, width: int, limit: int)
    by (nonlinear_arith)
    requires
        width >= 1,
        limit >= 0,
        count > limit / width,
    ensures
        count * width > limit,
{
}

/// A count up to `limit / width` has a product up to `limit`.
proof fn lemma_under_quotient(count: int, width: int, limit: int)
    by (nonlinear_arith)
    requires
        width >= 1,
        limit >= 0,
        0 <= count <= limit / width,
    ensures
        count * width <= limit,
{
}

} // verus!
