//! The tools this service provisions and runs, and where each comes from on
//! each platform.

use crate::errors::ServerError;
use crate::text::{str_eq, texts};
use vstd::prelude::*;

verus! {

/// A platform for which downloads are known.
#[derive(Clone, Copy, Debug, PartialEq, Eq, Structural)]
pub enum Platform {
    Linux,
    Windows,
    MacOs,
}

/// A provisioned tool.
#[derive(Clone, Copy, Debug, PartialEq, Eq, Structural)]
pub enum Tool {
    /// The downloader.
    YtDlp,
    /// The converter and prober.
    Ffmpeg,
    /// The fingerprinter, `fpcalc` of chromaprint.
    Chromaprint,
}

/// How a tool is shipped.
#[derive(Clone, Copy, Debug, PartialEq, Eq, Structural)]
pub enum Packaging {
    /// The download is the executable itself.
    Executable,
    /// The download is an archive that holds the executables.
    Archive,
}

/// All that provisioning needs to know of one tool on one platform.
#[derive(Debug, PartialEq, Eq)]
pub struct ToolDescriptor {
    pub tool: Tool,
    pub download_url: String,
    /// The name under which the download is stored.
    pub output_file_name: String,
    /// The file names under which an executable of the tool may appear.
    pub expected_binaries: Vec<String>,
    /// How many of them must be installed for the tool to count as installed.
    pub minimum_binaries: usize,
}

/// The platform that an operating system's name stands for.
pub open spec fn platform_named(os: Seq<char>) -> Option<Platform> {
    if os == "linux"@ {
        Some(Platform::Linux)
    } else if os == "windows"@ {
        Some(Platform::Windows)
    } else if os == "macos"@ {
        Some(Platform::MacOs)
    } else {
        None
    }
}

/// Where a tool is downloaded from.
pub open spec fn download_url(tool: Tool, platform: Platform) -> Seq<char> {
    match (tool, platform) {
        (Tool::YtDlp, Platform::Linux) => "https://github.com/yt-dlp/yt-dlp/releases/latest/download/yt-dlp"@,
        (Tool::YtDlp, Platform::Windows) => "https://github.com/yt-dlp/yt-dlp/releases/latest/download/yt-dlp.exe"@,
        (Tool::YtDlp, Platform::MacOs) => "https://github.com/yt-dlp/yt-dlp/releases/latest/download/yt-dlp_macos"@,
        (Tool::Ffmpeg, Platform::Linux) => "https://johnvansickle.com/ffmpeg/builds/ffmpeg-git-amd64-static.tar.xz"@,
        (Tool::Ffmpeg, Platform::Windows) => "https://github.com/BtbN/FFmpeg-Builds/releases/download/latest/ffmpeg-master-latest-win64-lgpl.zip"@,
        (Tool::Ffmpeg, Platform::MacOs) => "https://evermeet.cx/ffmpeg/ffmpeg-7.0.2.7z"@,
        (Tool::Chromaprint, Platform::Linux) => "https://github.com/acoustid/chromaprint/releases/download/v1.5.1/chromaprint-fpcalc-1.5.1-linux-x86_64.tar.gz"@,
        (Tool::Chromaprint, Platform::Windows) => "https://github.com/acoustid/chromaprint/releases/download/v1.5.1/chromaprint-fpcalc-1.5.1-windows-x86_64.zip"@,
        (Tool::Chromaprint, Platform::MacOs) => "https://github.com/acoustid/chromaprint/releases/download/v1.5.1/chromaprint-fpcalc-1.5.1-macos-universal.tar.gz"@,
    }
}

/// Under which name the download is stored.
pub open spec fn output_file_name(tool: Tool, platform: Platform) -> Seq<char> {
    match (tool, platform) {
        (Tool::YtDlp, Platform::Linux) => "yt-dlp"@,
        (Tool::YtDlp, Platform::Windows) => "yt-dlp.exe"@,
        (Tool::YtDlp, Platform::MacOs) => "yt-dlp"@,
        (Tool::Ffmpeg, Platform::Linux) => "ffmpeg.tar.xz"@,
        (Tool::Ffmpeg, Platform::Windows) => "ffmpeg.zip"@,
        (Tool::Ffmpeg, Platform::MacOs) => "ffmpeg.7z"@,
        (Tool::Chromaprint, Platform::Linux) => "chromaprint.tar.gz"@,
        (Tool::Chromaprint, Platform::Windows) => "chromaprint.zip"@,
        (Tool::Chromaprint, Platform::MacOs) => "chromaprint.tar.gz"@,
    }
}

/// The file names under which an executable of the tool may appear.
pub open spec fn expected_binaries(tool: Tool) -> Seq<Seq<char>> {
    match tool {
        Tool::YtDlp => seq!["yt-dlp"@, "yt-dlp.exe"@],
        Tool::Ffmpeg => seq![
            "ffmpeg"@,
            "ffplay"@,
            "ffprobe"@,
            "ffmpeg.exe"@,
            "ffplay.exe"@,
            "ffprobe.exe"@,
        ],
        Tool::Chromaprint => seq!["fpcalc"@, "fpcalc.exe"@],
    }
}

/// How many executables must be installed for the tool to count as installed.
pub open spec fn minimum_binaries(tool: Tool) -> nat {
    match tool {
        Tool::YtDlp => 1,
        Tool::Ffmpeg => 3,
        Tool::Chromaprint => 1,
    }
}

/// How the tool is shipped.
pub open spec fn packaging_of(tool: Tool) -> Packaging {
    match tool {
        Tool::YtDlp => Packaging::Executable,
        Tool::Ffmpeg => Packaging::Archive,
        Tool::Chromaprint => Packaging::Archive,
    }
}

/// The file name of the executable that is run, from the operating system's
/// name: on Windows it ends in `.exe`.
pub open spec fn executable_name(tool: Tool, os: Seq<char>) -> Seq<char> {
    match tool {
        Tool::YtDlp => if os == "windows"@ {
            "yt-dlp.exe"@
        } else {
            "yt-dlp"@
        },
        Tool::Ffmpeg => if os == "windows"@ {
            "ffmpeg.exe"@
        } else {
            "ffmpeg"@
        },
        Tool::Chromaprint => if os == "windows"@ {
            "fpcalc.exe"@
        } else {
            "fpcalc"@
        },
    }
}

/// The argument that makes the tool print its version.
pub open spec fn version_argument(tool: Tool) -> Seq<char> {
    match tool {
        Tool::YtDlp => "--version"@,
        Tool::Ffmpeg => "-version"@,
        Tool::Chromaprint => "-version"@,
    }
}

/// What `get_*_download_url_and_output_file_name` return for a tool.
pub open spec fn download_lookup(
    tool: Tool,
    os: Seq<char>,
    r: Result<(&'static str, &'static str), ServerError>,
) -> bool {
    match platform_named(os) {
        Some(platform) => r matches Ok(pair) && pair.0@ == download_url(tool, platform) && pair.1@
            == output_file_name(tool, platform),
        None => r matches Err(ServerError::UnsupportedPlatform(name)) && name@ == os,
    }
}

impl ToolDescriptor {
    /// Some executable is expected, and the required number is at least one
    /// and no more than the names that are expected.
    pub open spec fn well_formed(&self) -> bool {
        &&& self.expected_binaries@.len() > 0
        &&& 1 <= self.minimum_binaries <= self.expected_binaries@.len()
    }

    /// The descriptor is the one of `tool` on `platform`.
    pub open spec fn describes(&self, tool: Tool, platform: Platform) -> bool {
        &&& self.tool == tool
        &&& self.download_url@ == download_url(tool, platform)
        &&& self.output_file_name@ == output_file_name(tool, platform)
        &&& texts(self.expected_binaries@) == expected_binaries(tool)
        &&& self.minimum_binaries == minimum_binaries(tool)
    }

    /// The descriptor of `tool` on `platform`.
    pub fn new(tool: Tool, platform: Platform) -> (d: ToolDescriptor)
        ensures
            d.well_formed(),
            d.describes(tool, platform),
    {
        let (url, name) = download_source(tool, platform);
        let expected = tool.expected_binaries();
        let minimum = tool.minimum_binaries();
        proof {
            assert(texts(expected@).len() == expected@.len());
            assert(expected_binaries(tool).len() == match tool {
                Tool::YtDlp => 2nat,
                Tool::Ffmpeg => 6nat,
                Tool::Chromaprint => 2nat,
            });
        }
        ToolDescriptor {
            tool,
            download_url: url.to_owned(),
            output_file_name: name.to_owned(),
            expected_binaries: expected,
            minimum_binaries: minimum,
        }
    }

    /// The descriptor of `tool` for the operating system named `os`, or
    /// `UnsupportedPlatform` with that name where no download is known.
    pub fn for_os(tool: Tool, os: &str) -> (r: Result<ToolDescriptor, ServerError>)
        ensures
            match platform_named(os@) {
                Some(platform) => r matches Ok(d) && d.well_formed() && d.describes(tool, platform),
                None => r matches Err(ServerError::UnsupportedPlatform(name)) && name@ == os@,
            },
    {
        match platform_of(os) {
            Ok(platform) => Ok(ToolDescriptor::new(tool, platform)),
            Err(e) => Err(e),
        }
    }
}

impl Tool {
    /// The tool's name.
    pub fn name(&self) -> (name: &'static str)
        ensures
            name@ == match *self {
                Tool::YtDlp => "yt-dlp"@,
                Tool::Ffmpeg => "ffmpeg"@,
                Tool::Chromaprint => "chromaprint"@,
            },
    {
        match self {
            Tool::YtDlp => "yt-dlp",
            Tool::Ffmpeg => "ffmpeg",
            Tool::Chromaprint => "chromaprint",
        }
    }

    /// How the tool is shipped.
    pub fn packaging(&self) -> (p: Packaging)
        ensures
            p == packaging_of(*self),
    {
        match self {
            Tool::YtDlp => Packaging::Executable,
            Tool::Ffmpeg => Packaging::Archive,
            Tool::Chromaprint => Packaging::Archive,
        }
    }

    /// How many executables must be installed for the tool to count as
    /// installed.
    pub fn minimum_binaries(&self) -> (n: usize)
        ensures
            n == minimum_binaries(*self),
    {
        match self {
            Tool::YtDlp => 1,
            Tool::Ffmpeg => 3,
            Tool::Chromaprint => 1,
        }
    }

    /// The file names under which an executable of the tool may appear.
    pub fn expected_binaries(&self) -> (names: Vec<String>)
        ensures
            texts(names@) == expected_binaries(*self),
    {
        let mut names: Vec<String> = Vec::new();
        match self {
            Tool::YtDlp => {
                names.push("yt-dlp".to_owned());
                names.push("yt-dlp.exe".to_owned());
            },
            Tool::Ffmpeg => {
                names.push("ffmpeg".to_owned());
                names.push("ffplay".to_owned());
                names.push("ffprobe".to_owned());
                names.push("ffmpeg.exe".to_owned());
                names.push("ffplay.exe".to_owned());
                names.push("ffprobe.exe".to_owned());
            },
            Tool::Chromaprint => {
                names.push("fpcalc".to_owned());
                names.push("fpcalc.exe".to_owned());
            },
        }
        assert(texts(names@) =~= expected_binaries(*self));
        names
    }

    /// The file name of the executable that is run on the operating system
    /// named `os`.
    pub fn executable_name(&self, os: &str) -> (name: &'static str)
        ensures
            name@ == executable_name(*self, os@),
    {
        let windows = str_eq(os, "windows");
        match self {
            Tool::YtDlp => if windows {
                "yt-dlp.exe"
            } else {
                "yt-dlp"
            },
            Tool::Ffmpeg => if windows {
                "ffmpeg.exe"
            } else {
                "ffmpeg"
            },
            Tool::Chromaprint => if windows {
                "fpcalc.exe"
            } else {
                "fpcalc"
            },
        }
    }

    /// The arguments of the version query.
    pub fn version_arguments(&self) -> (arguments: Vec<String>)
        ensures
            texts(arguments@) == seq![version_argument(*self)],
    {
        let mut arguments: Vec<String> = Vec::new();
        match self {
            Tool::YtDlp => arguments.push("--version".to_owned()),
            Tool::Ffmpeg => arguments.push("-version".to_owned()),
            Tool::Chromaprint => arguments.push("-version".to_owned()),
        }
        assert(texts(arguments@) =~= seq![version_argument(*self)]);
        arguments
    }
}

/// The platform that the operating system's name `os` stands for, or
/// `UnsupportedPlatform` with that name.
pub fn platform_of(os: &str) -> (r: Result<Platform, ServerError>)
    ensures
        match platform_named(os@) {
            Some(platform) => r == Ok::<Platform, ServerError>(platform),
            None => r matches Err(ServerError::UnsupportedPlatform(name)) && name@ == os@,
        },
{
    if str_eq(os, "linux") {
        Ok(Platform::Linux)
    } else if str_eq(os, "windows") {
        Ok(Platform::Windows)
    } else if str_eq(os, "macos") {
        Ok(Platform::MacOs)
    } else {
        Err(ServerError::UnsupportedPlatform(os.to_owned()))
    }
}

/// Where `tool` is downloaded from on `platform`, and the name under which
/// the download is stored.
pub fn download_source(tool: Tool, platform: Platform) -> (pair: (&'static str, &'static str))
    ensures
        pair.0@ == download_url(tool, platform),
        pair.1@ == output_file_name(tool, platform),
{
    match (tool, platform) {
        (Tool::YtDlp, Platform::Linux) => (
            "https://github.com/yt-dlp/yt-dlp/releases/latest/download/yt-dlp",
            "yt-dlp",
        ),
        (Tool::YtDlp, Platform::Windows) => (
            "https://github.com/yt-dlp/yt-dlp/releases/latest/download/yt-dlp.exe",
            "yt-dlp.exe",
        ),
        (Tool::YtDlp, Platform::MacOs) => (
            "https://github.com/yt-dlp/yt-dlp/releases/latest/download/yt-dlp_macos",
            "yt-dlp",
        ),
        (Tool::Ffmpeg, Platform::Linux) => (
            "https://johnvansickle.com/ffmpeg/builds/ffmpeg-git-amd64-static.tar.xz",
            "ffmpeg.tar.xz",
        ),
        (Tool::Ffmpeg, Platform::Windows) => (
            "https://github.com/BtbN/FFmpeg-Builds/releases/download/latest/ffmpeg-master-latest-win64-lgpl.zip",
            "ffmpeg.zip",
        ),
        (Tool::Ffmpeg, Platform::MacOs) => (
            "https://evermeet.cx/ffmpeg/ffmpeg-7.0.2.7z",
            "ffmpeg.7z",
        ),
        (Tool::Chromaprint, Platform::Linux) => (
            "https://github.com/acoustid/chromaprint/releases/download/v1.5.1/chromaprint-fpcalc-1.5.1-linux-x86_64.tar.gz",
            "chromaprint.tar.gz",
        ),
        (Tool::Chromaprint, Platform::Windows) => (
            "https://github.com/acoustid/chromaprint/releases/download/v1.5.1/chromaprint-fpcalc-1.5.1-windows-x86_64.zip",
            "chromaprint.zip",
        ),
        (Tool::Chromaprint, Platform::MacOs) => (
            "https://github.com/acoustid/chromaprint/releases/download/v1.5.1/chromaprint-fpcalc-1.5.1-macos-universal.tar.gz",
            "chromaprint.tar.gz",
        ),
    }
}

fn lookup(tool: Tool, os: &str) -> (r: Result<(&'static str, &'static str), ServerError>)
    ensures
        download_lookup(tool, os@, r),
{
    match platform_of(os) {
        Ok(platform) => Ok(download_source(tool, platform)),
        Err(e) => Err(e),
    }
}

/// Where yt-dlp is downloaded from on the operating system named `os`, and
/// the name under which it is stored.
pub fn get_yt_dlp_download_url_and_output_file_name(os: &str) -> (r: Result<
    (&'static str, &'static str),
    ServerError,
>)
    ensures
        download_lookup(Tool::YtDlp, os@, r),
{
    lookup(Tool::YtDlp, os)
}

/// Where ffmpeg is downloaded from on the operating system named `os`, and
/// the name under which the archive is stored.
pub fn get_ffmpeg_download_url_and_output_file_name(os: &str) -> (r: Result<
    (&'static str, &'static str),
    ServerError,
>)
    ensures
        download_lookup(Tool::Ffmpeg, os@, r),
{
    lookup(Tool::Ffmpeg, os)
}

/// Where chromaprint is downloaded from on the operating system named `os`,
/// and the name under which the archive is stored.
pub fn get_chromaprint_download_url_and_output_file_name(os: &str) -> (r: Result<
    (&'static str, &'static str),
    ServerError,
>)
    ensures
        download_lookup(Tool::Chromaprint, os@, r),
{
    lookup(Tool::Chromaprint, os)
}

/// Where yt-dlp is downloaded from on the operating system named `os`.
pub fn get_download_url(os: &str) -> (r: Result<&'static str, ServerError>)
    ensures
        match platform_named(os@) {
            Some(platform) => r matches Ok(url) && url@ == download_url(Tool::YtDlp, platform),
            None => r matches Err(ServerError::UnsupportedPlatform(name)) && name@ == os@,
        },
{
    match lookup(Tool::YtDlp, os) {
        Ok(pair) => Ok(pair.0),
        Err(e) => Err(e),
    }
}

} // verus!
