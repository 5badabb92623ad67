//! Where the encoder and the prober are found, and how a file is shown in
//! the system's file manager.

use vstd::prelude::*;
use crate::types::opt_str_view;

verus! {

/// What looking beside the running program for a bundled tool has found.
#[derive(Debug)]
pub enum SidecarProbe {
    /// A copy stands there, at this path.
    Found(String),
    /// The place is known, at this path, and no copy stands there.
    Absent(String),
    /// The place cannot be told.
    Unknown,
}

/// The path under which a tool is run: the bundled copy where there is one,
/// else the bare name, which leaves the search to the system.
pub open spec fn binary_path(binary_name: Seq<char>, probe: SidecarProbe) -> Seq<char> {
    match probe {
        SidecarProbe::Found(path) => path@,
        _ => binary_name,
    }
}

/// The name of the encoder's program.
pub fn ffmpeg_name() -> (name: &'static str)
    ensures
        name@ == "ffmpeg"@,
{
    "ffmpeg"
}

/// The name of the prober's program.
pub fn ffprobe_name() -> (name: &'static str)
    ensures
        name@ == "ffprobe"@,
{
    "ffprobe"
}

/// The path under which a tool is run, preferring a bundled copy over the
/// system's own. Never fails: a tool that is nowhere shows when it is run.
pub fn get_binary_path(binary_name: &str, probe: SidecarProbe) -> (path: String)
    ensures
        path@ == binary_path(binary_name@, probe),
{
    match probe {
        SidecarProbe::Found(sidecar) => sidecar,
        SidecarProbe::Absent(_) => String::from_str(binary_name),
        SidecarProbe::Unknown => String::from_str(binary_name),
    }
}

/// The path under which the encoder is run.
pub fn ffmpeg_path(probe: SidecarProbe) -> (path: String)
    ensures
        path@ == binary_path("ffmpeg"@, probe),
{
    get_binary_path(ffmpeg_name(), probe)
}

/// The path under which the prober is run.
pub fn ffprobe_path(probe: SidecarProbe) -> (path: String)
    ensures
        path@ == binary_path("ffprobe"@, probe),
{
    get_binary_path(ffprobe_name(), probe)
}

/// The kinds of system that show a file in different ways.
#[derive(Clone, Copy, Debug, PartialEq, Eq, Structural)]
pub enum Platform {
    Windows,
    MacOs,
    Other,
}

/// The command that shows a file in the file manager, program first, or the
/// message that says why there is none. Windows and macOS select the file
/// itself; elsewhere the directory that holds it is opened.
pub open spec fn location_command(
    file_path: Seq<char>,
    file_exists: bool,
    parent: Option<Seq<char>>,
    platform: Platform,
) -> Result<Seq<Seq<char>>, Seq<char>> {
    if !file_exists {
        Err("File not found: "@ + file_path)
    } else {
        match platform {
            Platform::Windows => Ok(seq!["explorer"@, "/select,"@, file_path]),
            Platform::MacOs => Ok(seq!["open"@, "-R"@, file_path]),
            Platform::Other => match parent {
                Some(directory) => Ok(seq!["xdg-open"@, directory]),
                None => Err("Cannot determine parent directory"@),
            },
        }
    }
}

/// The command in an executable command.
pub open spec fn command_view(command: Result<Vec<String>, String>) -> Result<
    Seq<Seq<char>>,
    Seq<char>,
> {
    match command {
        Ok(words) => Ok(words.deep_view()),
        Err(message) => Err(message@),
    }
}

/// Decides how to show a file in the file manager, given whether the file
/// exists and which directory holds it.
pub fn open_file_location(
    file_path: &str,
    file_exists: bool,
    parent: Option<&str>,
    platform: Platform,
) -> (command: Result<Vec<String>, String>)
    ensures
        command_view(command) == location_command(
            file_path@,
            file_exists,
            opt_str_view(parent),
            platform,
        ),
{
    if !file_exists {
        return Err(String::from_str("File not found: ").concat(file_path));
    }
    let mut words: Vec<String> = Vec::new();
    match platform {
        Platform::Windows => {
            words.push(String::from_str("explorer"));
            words.push(String::from_str("/select,"));
            words.push(String::from_str(file_path));
            assert(words.deep_view() =~= seq!["explorer"@, "/select,"@, file_path@]);
        },
        Platform::MacOs => {
            words.push(String::from_str("open"));
            words.push(String::from_str("-R"));
            words.push(String::from_str(file_path));
            assert(words.deep_view() =~= seq!["open"@, "-R"@, file_path@]);
        },
        Platform::Other => {
            match parent {
                Some(directory) => {
                    words.push(String::from_str("xdg-open"));
                    words.push(String::from_str(directory));
                    assert(words.deep_view() =~= seq!["xdg-open"@, directory@]);
                },
                None => {
                    return Err(String::from_str("Cannot determine parent directory"));
                },
            }
        },
    }
    Ok(words)
}

/// The message for a file manager that could not be started.
pub fn open_failure(detail: &str) -> (message: String)
    ensures
        message@ == "Failed to open file location: "@ + detail@,
{
    String::from_str("Failed to open file location: ").concat(detail)
}

} // verus!
