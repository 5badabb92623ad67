//! Whether the tools are there to be used.

use vstd::prelude::*;

verus! {

/// The arguments of the version query that both tools answer.
pub fn version_arguments() -> (arguments: Vec<String>)
    ensures
        arguments.deep_view() == seq!["-version"@],
{
    let mut arguments: Vec<String> = Vec::new();
    arguments.push(String::from_str("-version"));
    assert(arguments.deep_view() =~= seq!["-version"@]);
    arguments
}

/// Whether both tools are usable, given how the version query of each went:
/// `None` where it could not be run, else whether it reported success.
pub fn check_ffmpeg_availability(ffmpeg: Option<bool>, ffprobe: Option<bool>) -> (available: bool)
    ensures
        available == (ffmpeg == Some(true) && ffprobe == Some(true)),
{
    match (ffmpeg, ffprobe) {
        (Some(encoder), Some(prober)) => encoder && prober,
        _ => false,
    }
}

} // verus!
