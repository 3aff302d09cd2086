use ferrous_beats::version::{
    parse_ffmpeg_version, parse_fpcalc_version, parse_version, parse_yt_dlp_version,
};

fn as_the_standard_library_does(s: &str) -> String {
    s.trim().chars().filter(|c| !c.is_control()).collect()
}

#[test]
fn parse_version_trims_and_strips_control_characters() {
    assert_eq!(parse_version("2024.08.06\n"), "2024.08.06");
    assert_eq!(parse_version("  1.5.1\r\n"), "1.5.1");
    assert_eq!(parse_version("\t2024\u{7}.08 \n"), "2024.08");
}

#[test]
fn parse_version_of_control_characters_alone_is_empty() {
    assert_eq!(parse_version("\u{0}\u{1}\u{1f}\u{7f}\u{80}\u{9f}"), "");
    assert_eq!(parse_version("\n\r\t"), "");
    assert_eq!(parse_version(""), "");
}

#[test]
fn parse_version_keeps_no_control_character() {
    let inputs = ["a\u{0}b", "\u{1} a", "x\ny", " \u{85}v1\u{85} ", "1.0\u{9f}"];
    for s in inputs {
        let version = parse_version(s);
        assert!(version.chars().all(|c| !c.is_control()), "{:?}", s);
        assert_eq!(version, as_the_standard_library_does(s), "{:?}", s);
    }
}

#[test]
fn parse_version_trims_before_it_strips() {
    // The space was inside the text when the ends were trimmed.
    assert_eq!(parse_version("\u{1} a"), " a");
    assert_eq!(parse_version("a \u{1}"), "a ");
}

#[test]
fn parse_version_ends_without_white_space_for_ordinary_output() {
    let inputs = ["  2024.08.06\r\n", "\n\nfpcalc version 1.5.1\n", "v1 \t"];
    for s in inputs {
        let version = parse_version(s);
        assert_eq!(version.trim(), version, "{:?}", s);
    }
}

#[test]
fn parse_yt_dlp_version_normalizes_the_output() {
    assert_eq!(parse_yt_dlp_version(&Some("2024.08.06\n".to_string())), "2024.08.06");
}

#[test]
fn parse_yt_dlp_version_without_output() {
    assert_eq!(parse_yt_dlp_version(&None), "could not parse version");
}

#[test]
fn parse_fpcalc_version_normalizes_the_output() {
    assert_eq!(parse_fpcalc_version(&Some("fpcalc version 1.5.1\n".to_string())), "fpcalc version 1.5.1");
}

#[test]
fn parse_fpcalc_version_without_output() {
    assert_eq!(parse_fpcalc_version(&None), "could not parse version");
}

#[test]
fn parse_ffmpeg_version_takes_the_third_word() {
    let banner = "ffmpeg version 7.0.2-essentials_build Copyright (c) 2000-2024 the FFmpeg developers\nbuilt with gcc 13.2.0\n";
    assert_eq!(parse_ffmpeg_version(&Some(banner.to_string())), "7.0.2-essentials_build");
}

#[test]
fn parse_ffmpeg_version_joins_lines_when_control_characters_go() {
    // The line break is a control character: it goes, and the words on both
    // sides of it become one.
    assert_eq!(parse_ffmpeg_version(&Some("ffmpeg version\n7.0 x".to_string())), "x");
    assert_eq!(parse_ffmpeg_version(&Some("a b\nc".to_string())), "unknown version");
}

#[test]
fn parse_ffmpeg_version_with_too_few_words() {
    assert_eq!(parse_ffmpeg_version(&Some("ffmpeg version".to_string())), "unknown version");
    assert_eq!(parse_ffmpeg_version(&Some("".to_string())), "unknown version");
}

#[test]
fn parse_ffmpeg_version_without_output() {
    assert_eq!(parse_ffmpeg_version(&None), "could not parse version");
}
