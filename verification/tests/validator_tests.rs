use frank::validator::{ValidationErrorKind, ValidationResult, Validator};

/// Run a full validation as the application drives it: content checks
/// first, then each referenced asset checked against the set of files that
/// "exist" in the chart's directory.
fn validate_with_files(path: &str, content: &str, existing: &[&str]) -> ValidationResult {
    let bytes: Vec<u8> = content.as_bytes().to_vec();
    let (mut result, refs) = Validator::validate_content(path, &bytes);
    if let Some(audio) = &refs.audio_file {
        let exists = existing.contains(&audio.as_str());
        Validator::validate_audio_file(audio, exists, &mut result.errors);
    }
    if let Some(video) = &refs.video_file {
        let exists = existing.contains(&video.as_str());
        Validator::validate_video_file(video, exists, &mut result.errors);
    }
    if let Some(cover) = &refs.cover_file {
        let exists = existing.contains(&cover.as_str());
        Validator::validate_image_file(cover, "cover", exists, &mut result.errors);
    }
    if let Some(background) = &refs.background_file {
        let exists = existing.contains(&background.as_str());
        Validator::validate_image_file(background, "background", exists, &mut result.errors);
    }
    result
}

#[test]
fn test_valid_song() {
    let content = "#TITLE:Test Song\n#ARTIST:Test Artist\n#BPM:300\n#AUDIO:test.mp3\n: 0 5 7 Hello\n- 10\n: 15 5 7 World\nE\n";
    let result = validate_with_files("song.txt", content, &["test.mp3"]);
    assert!(result.errors.is_empty(), "Errors: {:?}", result.errors);
}

#[test]
fn test_missing_title() {
    let content = "#ARTIST:Test Artist\n#BPM:300\n#AUDIO:test.mp3\n: 0 5 7 Hello\nE\n";
    let result = validate_with_files("song.txt", content, &["test.mp3"]);
    assert!(result.errors.iter().any(|e| matches!(e.kind, ValidationErrorKind::MissingTitle)));
}

#[test]
fn test_invalid_bpm() {
    let content = "#TITLE:Test\n#ARTIST:Test\n#BPM:not_a_number\n#AUDIO:test.mp3\n: 0 5 7 Hello\nE\n";
    let result = validate_with_files("song.txt", content, &["test.mp3"]);
    assert!(result.errors.iter().any(|e| matches!(e.kind, ValidationErrorKind::InvalidBpm(_))));
}

#[test]
fn test_missing_audio_file() {
    let content = "#TITLE:Test\n#ARTIST:Test\n#BPM:300\n#AUDIO:nonexistent.mp3\n: 0 5 7 Hello\nE\n";
    let result = validate_with_files("song.txt", content, &[]);
    assert!(
        result
            .errors
            .iter()
            .any(|e| matches!(e.kind, ValidationErrorKind::AudioFileNotFound(_)))
    );
}

#[test]
fn test_invalid_note_format() {
    let content = "#TITLE:Test\n#ARTIST:Test\n#BPM:300\n#AUDIO:test.mp3\n: abc 5 7 Hello\nE\n";
    let result = validate_with_files("song.txt", content, &["test.mp3"]);
    assert!(
        result.errors.iter().any(|e| matches!(e.kind, ValidationErrorKind::InvalidNoteFormat(_)))
    );
}
