//! What the host offers for capturing the audio that the system plays.

use vstd::prelude::*;
use crate::decimal::{parse_u64, parsed_u64};
use crate::text::{chars_of, find, first_match, slice, trim, trimmed};

verus! {

/// The first release of macOS that captures system audio natively.
pub const NATIVE_CAPTURE_MIN_MACOS: u32 = 13;

/// The system that the program runs on, with what is known of its version.
#[derive(Clone, Copy, Debug, PartialEq, Eq, Structural)]
pub enum HostPlatform {
    /// macOS, with the major number of its version where that could be read.
    MacOs { major_version: Option<u32> },
    Windows,
    Other,
}

impl HostPlatform {
    /// Whether the host is macOS.
    pub open spec fn is_macos(self) -> bool {
        self is MacOs
    }

    /// Whether the host can capture system audio without a loopback device:
    /// macOS of a known version from 13 on.
    pub open spec fn captures_system_audio(self) -> bool {
        match self {
            HostPlatform::MacOs { major_version: Some(major) } => major
                >= NATIVE_CAPTURE_MIN_MACOS,
            _ => false,
        }
    }
}

/// Whether the host can capture system audio natively.
pub fn supports_native_system_audio_capture(platform: HostPlatform) -> (r: bool)
    ensures
        r == platform.captures_system_audio(),
{
    match platform {
        HostPlatform::MacOs { major_version: Some(major) } => major >= NATIVE_CAPTURE_MIN_MACOS,
        _ => false,
    }
}

/// The part of `s` before its first full stop; all of `s` if it has none.
pub open spec fn first_component(s: Seq<char>) -> Seq<char> {
    match first_match(s, seq!['.']) {
        Some(dot) => s.take(dot),
        None => s,
    }
}

/// The major number of a product version such as `14.2.1`: the number
/// before the first full stop, if it is one that fits in 32 bits.
pub open spec fn major_of_version(product_version: Seq<char>) -> Option<u32> {
    match parsed_u64(first_component(trimmed(product_version))) {
        Some(n) => if n <= u32::MAX {
            Some(n as u32)
        } else {
            None
        },
        None => None,
    }
}

/// Reads the major number out of the product version that macOS reports.
pub fn macos_version_major(product_version: &str) -> (major: Option<u32>)
    ensures
        major == major_of_version(product_version@),
{
    let value = trim(&chars_of(product_version));
    let mut dot: Vec<char> = Vec::new();
    dot.push('.');
    assert(dot@ == seq!['.']);
    let first = match find(&value, &dot) {
        Some(at) => {
            let part = slice(&value, 0, at);
            assert(part@ == value@.take(at as int));
            part
        },
        None => value,
    };
    match parse_u64(&first) {
        Some(n) => if n <= u32::MAX as u64 {
            Some(n as u32)
        } else {
            None
        },
        None => None,
    }
}

} // verus!
