//! The service's settings, as the command line gives them.

use crate::errors::ServerError;
use vstd::prelude::*;

verus! {

/// The command line.
#[derive(Debug, PartialEq, Eq)]
pub struct Cli {
    /// Whether verbose logging was asked for.
    pub verbose: bool,
    pub command: Commands,
}

/// What the command line asks the program to do.
#[derive(Debug, PartialEq, Eq)]
pub enum Commands {
    /// Run the server.
    Run(RunCommand),
}

/// The options of the `run` command.
#[derive(Clone, Debug, PartialEq, Eq)]
pub struct RunCommand {
    pub port: u16,
    pub host: String,
    /// Whether name resolution over HTTPS is switched off.
    pub disable_doh: bool,
    pub library_dir: String,
    /// The directory that tools are downloaded and installed into.
    pub tools_download_dir: String,
    pub audio_download_dir: String,
    pub video_download_dir: String,
}

/// The settings that the handlers read.
#[derive(Clone, Debug, PartialEq, Eq)]
pub struct Config {
    pub server_settings: ServerSettings,
    pub library_settings: LibrarySettings,
    pub audio_download_settings: AudioDownloadSettings,
    pub video_download_settings: VideoDownloadSettings,
    pub logging_settings: LoggingSettings,
}

/// Where the server listens, and where the tools are kept.
#[derive(Clone, Debug, PartialEq, Eq)]
pub struct ServerSettings {
    pub port: u16,
    pub host: String,
    pub tools_download_dir: String,
}

/// Where the library is kept.
#[derive(Clone, Debug, PartialEq, Eq)]
pub struct LibrarySettings {
    pub dir: String,
}

/// Where audio is downloaded to before it goes into the library.
#[derive(Clone, Debug, PartialEq, Eq)]
pub struct AudioDownloadSettings {
    pub download_dir: String,
}

/// Where video is downloaded to before it goes into the library.
#[derive(Clone, Debug, PartialEq, Eq)]
pub struct VideoDownloadSettings {
    pub download_dir: String,
}

/// How much is logged.
#[derive(Clone, Debug, PartialEq, Eq)]
pub struct LoggingSettings {
    pub level: LogLevel,
}

/// A level of logging.
#[derive(Clone, Copy, Debug, PartialEq, Eq, Structural)]
pub enum LogLevel {
    Debug,
    Info,
}

/// The level at which is logged: `Debug` where verbose logging was asked
/// for, `Info` otherwise.
pub open spec fn level_for(verbose: bool) -> LogLevel {
    if verbose {
        LogLevel::Debug
    } else {
        LogLevel::Info
    }
}

/// The settings hold what the command line gave.
pub open spec fn configured(run_command: RunCommand, verbose: bool, config: Config) -> bool {
    &&& config.server_settings.port == run_command.port
    &&& config.server_settings.host == run_command.host
    &&& config.server_settings.tools_download_dir == run_command.tools_download_dir
    &&& config.library_settings.dir == run_command.library_dir
    &&& config.audio_download_settings.download_dir == run_command.audio_download_dir
    &&& config.video_download_settings.download_dir == run_command.video_download_dir
    &&& config.logging_settings.level == level_for(verbose)
}

/// The settings for the options of a `run` command. There are settings for
/// every command line: the result is never an error.
pub fn cli_to_config(run_command: &RunCommand, is_verbose_logging_enabled: bool) -> (r: Result<
    Config,
    ServerError,
>)
    ensures
        r matches Ok(config) && configured(*run_command, is_verbose_logging_enabled, config),
{
    let logging_level = if is_verbose_logging_enabled {
        LogLevel::Debug
    } else {
        LogLevel::Info
    };
    let logging_settings = LoggingSettings { level: logging_level };
    let server_settings = ServerSettings {
        port: run_command.port,
        host: run_command.host.clone(),
        tools_download_dir: run_command.tools_download_dir.clone(),
    };
    let library_settings = LibrarySettings { dir: run_command.library_dir.clone() };
    let audio_download_settings = AudioDownloadSettings {
        download_dir: run_command.audio_download_dir.clone(),
    };
    let video_download_settings = VideoDownloadSettings {
        download_dir: run_command.video_download_dir.clone(),
    };
    Ok(
        Config {
            server_settings,
            library_settings,
            audio_download_settings,
            video_download_settings,
            logging_settings,
        },
    )
}

} // verus!
