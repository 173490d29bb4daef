//! Verified core of a push-to-talk speech-to-text tool: round-robin
//! selection of transcription models, recording decisions, double-tap
//! detection, sample conversion and the shape of transcription requests.

pub mod app_state;
pub mod audio;
pub mod clipboard;
pub mod groq_client;
pub mod keyboard;
pub mod model;
pub mod notifications;

use vstd::prelude::*;

verus! {

/// Adds two numbers.
pub fn add(a: i32, b: i32) -> (sum: i32)
    requires
        i32::MIN <= a + b <= i32::MAX,
    ensures
        sum == a + b,
{
    a + b
}

} // verus!
