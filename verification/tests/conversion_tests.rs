use hls_asset::conversion::{
    manifest_path, segment_pattern, transcoder_args, transcoder_program, video_dir, Conversion,
    ConversionError, ConvertEvent, ConvertState,
};

const ID: &str = "AAAAAAAAAAA";

#[test]
fn naming_convention_paths() {
    assert_eq!(video_dir(ID).as_str(), "videos/AAAAAAAAAAA");
    assert_eq!(manifest_path(ID).as_str(), "videos/AAAAAAAAAAA/AAAAAAAAAAA.m3u8");
    assert_eq!(segment_pattern(ID).as_str(), "videos/AAAAAAAAAAA/AAAAAAAAAAA%d.ts");
}

#[test]
fn transcoder_invocation_is_bit_exact() {
    assert_eq!(transcoder_program().as_str(), "ffmpeg");
    let args = transcoder_args("input.mp4", ID);
    let expected = vec![
        "-hwaccel",
        "auto",
        "-i",
        "input.mp4",
        "-hls_time",
        "10",
        "-hls_list_size",
        "0",
        "-c:v",
        "libx264",
        "-c:a",
        "aac",
        "-f",
        "hls",
        "-hls_segment_filename",
        "videos/AAAAAAAAAAA/AAAAAAAAAAA%d.ts",
        "videos/AAAAAAAAAAA/AAAAAAAAAAA.m3u8",
    ];
    assert_eq!(args.len(), expected.len());
    for (got, want) in args.iter().zip(expected.iter()) {
        assert_eq!(got.as_str(), *want);
    }
}

#[test]
fn missing_input_fails_with_input_not_found_before_any_directory() {
    let mut c = Conversion::new(String::from("missing.mp4"), String::from(ID));
    assert!(matches!(c.state(), ConvertState::CheckingInput));
    c.step(ConvertEvent::InputChecked(false));
    assert!(matches!(c.state(), ConvertState::Failed(_)));
    match c.into_result() {
        Err(e) => {
            assert!(matches!(&e, ConversionError::InputNotFound(p) if p == "missing.mp4"));
            assert_eq!(e.message().as_str(), "Input file does not exist: missing.mp4");
        }
        Ok(_) => panic!("a missing input must fail the conversion"),
    }
}

#[test]
fn directory_failure_fails_the_conversion() {
    let mut c = Conversion::new(String::from("sample.mp4"), String::from(ID));
    c.step(ConvertEvent::InputChecked(true));
    assert!(matches!(c.state(), ConvertState::CreatingDirectory));
    c.step(ConvertEvent::DirectoryCreated(false));
    match c.into_result() {
        Err(e) => assert!(matches!(e, ConversionError::DirectoryCreationFailure)),
        Ok(_) => panic!("a directory failure must fail the conversion"),
    }
}

#[test]
fn spawn_failure_fails_the_conversion() {
    let mut c = Conversion::new(String::from("sample.mp4"), String::from(ID));
    c.step(ConvertEvent::InputChecked(true));
    c.step(ConvertEvent::DirectoryCreated(true));
    assert!(matches!(c.state(), ConvertState::RunningTranscoder));
    c.step(ConvertEvent::TranscoderFailedToStart);
    match c.into_result() {
        Err(e) => assert!(matches!(e, ConversionError::TranscoderSpawnFailure)),
        Ok(_) => panic!("a spawn failure must fail the conversion"),
    }
}

#[test]
fn transcoder_exit_failure_carries_captured_stderr() {
    let mut c = Conversion::new(String::from("sample.mp4"), String::from(ID));
    c.step(ConvertEvent::InputChecked(true));
    c.step(ConvertEvent::DirectoryCreated(true));
    c.step(ConvertEvent::TranscoderExited(false, String::from("codec not found")));
    match c.into_result() {
        Err(e) => {
            match &e {
                ConversionError::TranscoderExitFailure(d) => {
                    assert_eq!(d.as_str(), "codec not found");
                    assert!(!d.is_empty());
                }
                _ => panic!("expected the exit failure"),
            }
            assert_eq!(e.message().as_str(), "FFmpeg conversion failed:\ncodec not found");
        }
        Ok(_) => panic!("a non-zero exit must fail the conversion"),
    }
}

#[test]
fn successful_conversion_yields_asset_with_convention_paths() {
    let mut c = Conversion::new(String::from("sample.mp4"), String::from(ID));
    assert_eq!(c.input().as_str(), "sample.mp4");
    assert_eq!(c.id().as_str(), ID);
    c.step(ConvertEvent::InputChecked(true));
    c.step(ConvertEvent::DirectoryCreated(true));
    c.step(ConvertEvent::TranscoderExited(true, String::new()));
    assert!(matches!(c.state(), ConvertState::Ready));
    match c.into_result() {
        Ok(a) => {
            assert_eq!(a.id().as_str(), ID);
            assert_eq!(a.directory().as_str(), "videos/AAAAAAAAAAA");
            assert_eq!(a.manifest().as_str(), "videos/AAAAAAAAAAA/AAAAAAAAAAA.m3u8");
        }
        Err(_) => panic!("a zero exit must succeed"),
    }
}

#[test]
fn segment_paths_follow_the_naming_convention() {
    let mut c = Conversion::new(String::from("sample.mp4"), String::from(ID));
    c.step(ConvertEvent::InputChecked(true));
    c.step(ConvertEvent::DirectoryCreated(true));
    c.step(ConvertEvent::TranscoderExited(true, String::new()));
    let a = c.into_result().unwrap();
    assert_eq!(a.segment_path(0).as_str(), "videos/AAAAAAAAAAA/AAAAAAAAAAA0.ts");
    assert_eq!(a.segment_path(1).as_str(), "videos/AAAAAAAAAAA/AAAAAAAAAAA1.ts");
    assert_eq!(a.segment_path(2).as_str(), "videos/AAAAAAAAAAA/AAAAAAAAAAA2.ts");
    assert_eq!(a.segment_path(42).as_str(), "videos/AAAAAAAAAAA/AAAAAAAAAAA42.ts");
    assert_eq!(a.segment_path(1000).as_str(), "videos/AAAAAAAAAAA/AAAAAAAAAAA1000.ts");
    assert_eq!(
        a.segment_path(u32::MAX).as_str(),
        "videos/AAAAAAAAAAA/AAAAAAAAAAA4294967295.ts"
    );
    // the resolver maps each segment's request name back onto the
    // very path the conversion named
    let resolved = hls_asset::resolver::resolve("AAAAAAAAAAA42.ts");
    assert_eq!(resolved.as_deref(), Some(a.segment_path(42).as_str()));
}
