use ferrous_beats::errors::ServerError;
use ferrous_beats::tools::{
    download_source, get_chromaprint_download_url_and_output_file_name, get_download_url,
    get_ffmpeg_download_url_and_output_file_name, get_yt_dlp_download_url_and_output_file_name,
    platform_of, Packaging, Platform, Tool, ToolDescriptor,
};

#[test]
fn platforms_by_name() {
    assert_eq!(platform_of("linux"), Ok(Platform::Linux));
    assert_eq!(platform_of("windows"), Ok(Platform::Windows));
    assert_eq!(platform_of("macos"), Ok(Platform::MacOs));
}

#[test]
fn an_unknown_platform_is_named_in_the_error() {
    assert_eq!(platform_of("freebsd"), Err(ServerError::UnsupportedPlatform("freebsd".to_string())));
    assert_eq!(platform_of("Linux"), Err(ServerError::UnsupportedPlatform("Linux".to_string())));
    assert_eq!(platform_of(""), Err(ServerError::UnsupportedPlatform(String::new())));
}

#[test]
fn yt_dlp_downloads() {
    assert_eq!(
        get_yt_dlp_download_url_and_output_file_name("linux"),
        Ok(("https://github.com/yt-dlp/yt-dlp/releases/latest/download/yt-dlp", "yt-dlp"))
    );
    assert_eq!(
        get_yt_dlp_download_url_and_output_file_name("windows"),
        Ok(("https://github.com/yt-dlp/yt-dlp/releases/latest/download/yt-dlp.exe", "yt-dlp.exe"))
    );
    assert_eq!(
        get_yt_dlp_download_url_and_output_file_name("macos"),
        Ok(("https://github.com/yt-dlp/yt-dlp/releases/latest/download/yt-dlp_macos", "yt-dlp"))
    );
    assert_eq!(
        get_yt_dlp_download_url_and_output_file_name("android"),
        Err(ServerError::UnsupportedPlatform("android".to_string()))
    );
}

#[test]
fn ffmpeg_downloads() {
    assert_eq!(
        get_ffmpeg_download_url_and_output_file_name("linux"),
        Ok(("https://johnvansickle.com/ffmpeg/builds/ffmpeg-git-amd64-static.tar.xz", "ffmpeg.tar.xz"))
    );
    assert_eq!(
        get_ffmpeg_download_url_and_output_file_name("windows"),
        Ok((
            "https://github.com/BtbN/FFmpeg-Builds/releases/download/latest/ffmpeg-master-latest-win64-lgpl.zip",
            "ffmpeg.zip"
        ))
    );
    assert_eq!(
        get_ffmpeg_download_url_and_output_file_name("macos"),
        Ok(("https://evermeet.cx/ffmpeg/ffmpeg-7.0.2.7z", "ffmpeg.7z"))
    );
    assert_eq!(
        get_ffmpeg_download_url_and_output_file_name("ios"),
        Err(ServerError::UnsupportedPlatform("ios".to_string()))
    );
}

#[test]
fn chromaprint_downloads() {
    assert_eq!(
        get_chromaprint_download_url_and_output_file_name("linux"),
        Ok((
            "https://github.com/acoustid/chromaprint/releases/download/v1.5.1/chromaprint-fpcalc-1.5.1-linux-x86_64.tar.gz",
            "chromaprint.tar.gz"
        ))
    );
    assert_eq!(
        get_chromaprint_download_url_and_output_file_name("windows"),
        Ok((
            "https://github.com/acoustid/chromaprint/releases/download/v1.5.1/chromaprint-fpcalc-1.5.1-windows-x86_64.zip",
            "chromaprint.zip"
        ))
    );
    assert_eq!(
        get_chromaprint_download_url_and_output_file_name("macos"),
        Ok((
            "https://github.com/acoustid/chromaprint/releases/download/v1.5.1/chromaprint-fpcalc-1.5.1-macos-universal.tar.gz",
            "chromaprint.tar.gz"
        ))
    );
    assert_eq!(
        get_chromaprint_download_url_and_output_file_name("solaris"),
        Err(ServerError::UnsupportedPlatform("solaris".to_string()))
    );
}

#[test]
fn get_download_url_is_that_of_yt_dlp() {
    assert_eq!(
        get_download_url("macos"),
        Ok("https://github.com/yt-dlp/yt-dlp/releases/latest/download/yt-dlp_macos")
    );
    assert_eq!(get_download_url("dos"), Err(ServerError::UnsupportedPlatform("dos".to_string())));
}

#[test]
fn descriptors_are_well_formed_on_every_platform() {
    for tool in [Tool::YtDlp, Tool::Ffmpeg, Tool::Chromaprint] {
        for platform in [Platform::Linux, Platform::Windows, Platform::MacOs] {
            let d = ToolDescriptor::new(tool, platform);
            assert_eq!(d.tool, tool);
            assert!(!d.expected_binaries.is_empty());
            assert!(1 <= d.minimum_binaries && d.minimum_binaries <= d.expected_binaries.len());
            let (url, name) = download_source(tool, platform);
            assert_eq!(d.download_url, url);
            assert_eq!(d.output_file_name, name);
        }
    }
}

#[test]
fn descriptor_of_ffmpeg() {
    let d = ToolDescriptor::for_os(Tool::Ffmpeg, "windows").unwrap();
    assert_eq!(
        d.expected_binaries,
        vec!["ffmpeg", "ffplay", "ffprobe", "ffmpeg.exe", "ffplay.exe", "ffprobe.exe"]
    );
    assert_eq!(d.minimum_binaries, 3);
    assert_eq!(d.output_file_name, "ffmpeg.zip");
}

#[test]
fn descriptor_of_chromaprint() {
    let d = ToolDescriptor::for_os(Tool::Chromaprint, "linux").unwrap();
    assert_eq!(d.expected_binaries, vec!["fpcalc", "fpcalc.exe"]);
    assert_eq!(d.minimum_binaries, 1);
}

#[test]
fn descriptor_for_an_unknown_platform() {
    assert_eq!(
        ToolDescriptor::for_os(Tool::YtDlp, "plan9"),
        Err(ServerError::UnsupportedPlatform("plan9".to_string()))
    );
}

#[test]
fn executable_names_end_in_exe_on_windows_alone() {
    assert_eq!(Tool::YtDlp.executable_name("windows"), "yt-dlp.exe");
    assert_eq!(Tool::YtDlp.executable_name("linux"), "yt-dlp");
    assert_eq!(Tool::Ffmpeg.executable_name("windows"), "ffmpeg.exe");
    assert_eq!(Tool::Ffmpeg.executable_name("macos"), "ffmpeg");
    assert_eq!(Tool::Chromaprint.executable_name("windows"), "fpcalc.exe");
    assert_eq!(Tool::Chromaprint.executable_name("freebsd"), "fpcalc");
}

#[test]
fn version_queries() {
    assert_eq!(Tool::YtDlp.version_arguments(), vec!["--version"]);
    assert_eq!(Tool::Ffmpeg.version_arguments(), vec!["-version"]);
    assert_eq!(Tool::Chromaprint.version_arguments(), vec!["-version"]);
}

#[test]
fn packaging_and_names() {
    assert_eq!(Tool::YtDlp.packaging(), Packaging::Executable);
    assert_eq!(Tool::Ffmpeg.packaging(), Packaging::Archive);
    assert_eq!(Tool::Chromaprint.packaging(), Packaging::Archive);
    assert_eq!(Tool::YtDlp.name(), "yt-dlp");
    assert_eq!(Tool::Ffmpeg.name(), "ffmpeg");
    assert_eq!(Tool::Chromaprint.name(), "chromaprint");
}
