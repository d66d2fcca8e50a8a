//! What the capture process is started with.
//!
//! The process is a GStreamer pipeline that takes pictures from the camera,
//! encodes them at the profile's resolution and quality, and writes the
//! frames to its standard output. Starting and stopping it is the caller's
//! part; the command line is stated here.

use vstd::prelude::*;
use vstd::string::StringExecFns;
use crate::profile::StreamProfile;
use crate::text::decimal;
use crate::text::decimal_text;

verus! {

/// The program that runs the pipeline.
pub open spec fn encoder_program_name() -> Seq<char> {
    "gst-launch-1.0"@
}

/// The element that sets the resolution.
pub open spec fn caps_argument(width: u32, height: u32) -> Seq<char> {
    "video/x-raw,width="@ + decimal(width as nat) + ",height="@ + decimal(height as nat)
}

/// The setting of the encoder's quality.
pub open spec fn quality_argument(quality: u32) -> Seq<char> {
    "quality="@ + decimal(quality as nat)
}

/// The arguments of the pipeline for a profile.
pub open spec fn encoder_command(profile: StreamProfile) -> Seq<Seq<char>> {
    seq![
        "libcamerasrc"@,
        "!"@,
        caps_argument(profile.width, profile.height),
        "!"@,
        "videoconvert"@,
        "!"@,
        "jpegenc"@,
        quality_argument(profile.quality),
        "!"@,
        "fdsink"@,
    ]
}

/// The texts that a vector of strings holds.
pub open spec fn texts_of(v: Seq<String>) -> Seq<Seq<char>> {
    Seq::new(v.len(), |i: int| v[i]@)
}

/// The program that runs the pipeline.
pub fn encoder_program() -> (program: &'static str)
    ensures
        program@ == encoder_program_name(),
{
    "gst-launch-1.0"
}

/// The arguments of the pipeline for a profile.
pub fn encoder_arguments(profile: &StreamProfile) -> (arguments: Vec<String>)
    ensures
        texts_of(arguments@) == encoder_command(*profile),
{
    let mut caps: String = String::from_str("video/x-raw,width=");
    caps.append(decimal_text(profile.width).as_str());
    caps.append(",height=");
    caps.append(decimal_text(profile.height).as_str());
    let mut quality: String = String::from_str("quality=");
    quality.append(decimal_text(profile.quality).as_str());
    let mut arguments: Vec<String> = Vec::new();
    arguments.push(String::from_str("libcamerasrc"));
    arguments.push(String::from_str("!"));
    arguments.push(caps);
    arguments.push(String::from_str("!"));
    arguments.push(String::from_str("videoconvert"));
    arguments.push(String::from_str("!"));
    arguments.push(String::from_str("jpegenc"));
    arguments.push(quality);
    arguments.push(String::from_str("!"));
    arguments.push(String::from_str("fdsink"));
    assert(texts_of(arguments@) =~= encoder_command(*profile));
    arguments
}

} // verus!
