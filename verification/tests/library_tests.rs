use frank::api::{remove_entry_by_id, remove_entry_by_song, QueueEntry};
use frank::classify::LineClass;
use frank::range::content_type_for;
use frank::config::Config;
use frank::decimal::{parse_number, Decimal};
use frank::indexer::Indexer;
use frank::parser::{MetadataBuilder, Parser};
use frank::range::parse_range_header;
use frank::types::{AppError, NoteType, SongSummary};
use frank::validator::{ValidationErrorKind, Validator};

fn chars(s: &str) -> Vec<char> {
    s.chars().collect()
}

#[test]
fn decimal_comma_and_period_parse_identically() {
    let with_comma = parse_number(&chars("312,5")).unwrap();
    let with_period = parse_number(&chars("312.5")).unwrap();
    assert_eq!(with_comma, with_period);
    assert_eq!(with_comma, Decimal { negative: false, mantissa: 3125, scale: 1 });
}

#[test]
fn decimal_forms() {
    assert_eq!(
        parse_number(&chars("-12.25")),
        Some(Decimal { negative: true, mantissa: 1225, scale: 2 })
    );
    assert_eq!(
        parse_number(&chars("+7")),
        Some(Decimal { negative: false, mantissa: 7, scale: 0 })
    );
    assert_eq!(
        parse_number(&chars(".5")),
        Some(Decimal { negative: false, mantissa: 5, scale: 1 })
    );
    assert_eq!(parse_number(&chars("")), None);
    assert_eq!(parse_number(&chars(".")), None);
    assert_eq!(parse_number(&chars("1.2.3")), None);
    assert_eq!(parse_number(&chars("abc")), None);
}

#[test]
fn builder_applies_tags_case_insensitively() {
    let mut b = MetadataBuilder::new();
    b.apply_tag("title", "Song").unwrap();
    b.apply_tag("Artist", "Band").unwrap();
    b.apply_tag("bpm", "120").unwrap();
    b.apply_tag("year", "1999").unwrap();
    b.apply_tag("year-ish", "junk").unwrap();
    let m = b.build().unwrap();
    assert_eq!(m.title, "Song");
    assert_eq!(m.artist, "Band");
    assert_eq!(m.bpm, Decimal { negative: false, mantissa: 120, scale: 0 });
    assert_eq!(m.year, Some(1999));
    assert_eq!(m.gap, Decimal { negative: false, mantissa: 0, scale: 0 });
}

#[test]
fn builder_rejects_bad_required_values() {
    let mut b = MetadataBuilder::new();
    let err = b.apply_tag("BPM", "fast").unwrap_err();
    assert!(matches!(err, AppError::ParseError(_)));

    let mut b2 = MetadataBuilder::new();
    b2.apply_tag("TITLE", "").unwrap();
    b2.apply_tag("ARTIST", "A").unwrap();
    b2.apply_tag("BPM", "100").unwrap();
    assert!(b2.build().is_err());

    let mut b3 = MetadataBuilder::new();
    b3.apply_tag("TITLE", "T").unwrap();
    b3.apply_tag("ARTIST", "A").unwrap();
    assert!(b3.build().is_err());
}

#[test]
fn builder_is_lenient_where_the_grammar_allows() {
    let mut b = MetadataBuilder::new();
    b.apply_tag("TITLE", "T").unwrap();
    b.apply_tag("ARTIST", "A").unwrap();
    b.apply_tag("BPM", "100").unwrap();
    b.apply_tag("VIDEOGAP", "not numeric").unwrap();
    b.apply_tag("YEAR", "someday").unwrap();
    let m = b.build().unwrap();
    assert_eq!(m.video_gap, None);
    assert_eq!(m.year, None);
}

#[test]
fn note_line_parses_exactly() {
    let note = Parser::parse_note_line(": 0 5 -3 Low note").unwrap();
    assert_eq!(note.note_type, NoteType::Normal);
    assert_eq!(note.start_beat, 0);
    assert_eq!(note.length, 5);
    assert_eq!(note.pitch, -3);
    assert_eq!(note.text, "Low note");

    let golden = Parser::parse_note_line("* 8 3 5 Star").unwrap();
    assert_eq!(golden.note_type, NoteType::Golden);

    assert!(Parser::parse_note_line(": 0 5 7").is_err());
    assert!(Parser::parse_note_line(": x 5 7 text").is_err());
    assert!(Parser::parse_note_line("? 0 5 7 text").is_err());
}

#[test]
fn line_break_end_beat_is_optional() {
    let with_end = Parser::parse_line_break("- 10 15").unwrap();
    assert_eq!(with_end.start_beat, 10);
    assert_eq!(with_end.end_beat, Some(15));

    let without_end = Parser::parse_line_break("- 10").unwrap();
    assert_eq!(without_end.start_beat, 10);
    assert_eq!(without_end.end_beat, None);

    let bad_end = Parser::parse_line_break("- 10 soon").unwrap();
    assert_eq!(bad_end.end_beat, None);

    assert!(Parser::parse_line_break("-").is_err());
    assert!(Parser::parse_line_break("- x").is_err());
}

#[test]
fn duet_header_alone_leaves_second_stream_absent() {
    let content = "#TITLE:T\n#ARTIST:A\n#BPM:100\n#DUETSINGERP1:One\n: 0 1 2 Solo\nE\n";
    let song = Parser::parse(content, "test.txt").unwrap();
    assert!(song.notes_p2.is_none());
    assert!(song.line_breaks_p2.is_none());
    assert_eq!(song.metadata.duet_singer_p1, Some("One".to_string()));
}

#[test]
fn player_switch_attributes_lines() {
    let content = "#TITLE:T\n#ARTIST:A\n#BPM:100\nP 1\n: 0 1 2 First\nP 2\n: 4 1 2 Second\n: 8 1 2 Third\nE\n";
    let song = Parser::parse(content, "test.txt").unwrap();
    assert_eq!(song.notes.len(), 1);
    assert_eq!(song.notes[0].text, "First");
    let p2 = song.notes_p2.unwrap();
    assert_eq!(p2.len(), 2);
    assert_eq!(p2[0].text, "Second");
    assert_eq!(p2[1].text, "Third");
}

#[test]
fn end_marker_stops_the_parse() {
    let content = "#TITLE:T\n#ARTIST:A\n#BPM:100\n: 0 1 2 Kept\nE\n: 4 1 2 Dropped\n";
    let song = Parser::parse(content, "test.txt").unwrap();
    assert_eq!(song.notes.len(), 1);
    assert_eq!(song.notes[0].text, "Kept");
}

#[test]
fn round_trip_matches_hand_computed_content() {
    let content = "#TITLE:Röundtrip\n#ARTIST:Ensemble\n#BPM:220,75\n#GAP:12\nF 3 2 -14 syl~ la\n* 7 1 0  ble\n- 9 11\nG 12 4 30 done\nE\n";
    let song = Parser::parse(content, "songs/dir/file.txt").unwrap();
    assert_eq!(song.metadata.title, "Röundtrip");
    assert_eq!(song.metadata.bpm, Decimal { negative: false, mantissa: 22075, scale: 2 });
    assert_eq!(song.notes.len(), 3);
    assert_eq!(song.notes[0].note_type, NoteType::Freestyle);
    assert_eq!(song.notes[0].start_beat, 3);
    assert_eq!(song.notes[0].length, 2);
    assert_eq!(song.notes[0].pitch, -14);
    assert_eq!(song.notes[0].text, "syl~ la");
    assert_eq!(song.notes[1].note_type, NoteType::Golden);
    assert_eq!(song.notes[1].text, " ble");
    assert_eq!(song.notes[2].note_type, NoteType::GoldenRap);
    assert_eq!(song.notes[2].pitch, 30);
    assert_eq!(song.line_breaks.len(), 1);
    assert_eq!(song.line_breaks[0].start_beat, 9);
    assert_eq!(song.line_breaks[0].end_beat, Some(11));
    assert_eq!(song.files.txt_path, "songs/dir/file.txt");
}

#[test]
fn song_id_is_stable_per_path() {
    let a = Parser::generate_id("songs/a.txt");
    let b = Parser::generate_id("songs/a.txt");
    let c = Parser::generate_id("songs/b.txt");
    assert_eq!(a, b);
    assert_ne!(a, c);
    assert!(a.chars().all(|ch| ch.is_ascii_hexdigit()));
}

#[test]
fn classifier_tags_lines() {
    assert_eq!(frank::classify::classify(&chars("#TITLE:x")), LineClass::Header);
    assert_eq!(frank::classify::classify(&chars(": 0 1 2 x")), LineClass::NoteMark(NoteType::Normal));
    assert_eq!(frank::classify::classify(&chars("R 0 1 2 x")), LineClass::NoteMark(NoteType::Rap));
    assert_eq!(frank::classify::classify(&chars("- 3")), LineClass::BreakMark);
    assert_eq!(frank::classify::classify(&chars("E")), LineClass::EndMark);
    assert_eq!(frank::classify::classify(&chars("End")), LineClass::Unknown);
    assert_eq!(frank::classify::classify(&chars("P2")), LineClass::PlayerMark);
    assert_eq!(frank::classify::classify(&chars("lyrics?")), LineClass::Unknown);
}

#[test]
fn validator_is_quiet_on_a_well_formed_chart() {
    let content = "#TITLE:Fine\n#ARTIST:Fine Artist\n#BPM:300\n#AUDIO:song.ogg\n: 0 5 7 La\nE\n";
    let bytes = content.as_bytes().to_vec();
    let (mut result, refs) = Validator::validate_content("song.txt", &bytes);
    assert_eq!(refs.audio_file.as_deref(), Some("song.ogg"));
    Validator::validate_audio_file("song.ogg", true, &mut result.errors);
    assert!(result.errors.is_empty(), "Errors: {:?}", result.errors);
    assert!(result.warnings.is_empty(), "Warnings: {:?}", result.warnings);
    assert!(result.is_valid());
}

#[test]
fn missing_audio_is_exactly_one_error() {
    let content = "#TITLE:T\n#ARTIST:A\n#BPM:100\n#AUDIO:gone.mp3\n: 0 5 7 La\nE\n";
    let bytes = content.as_bytes().to_vec();
    let (mut result, refs) = Validator::validate_content("song.txt", &bytes);
    Validator::validate_audio_file(refs.audio_file.as_deref().unwrap(), false, &mut result.errors);
    let not_found: Vec<_> = result
        .errors
        .iter()
        .filter(|e| matches!(e.kind, ValidationErrorKind::AudioFileNotFound(_)))
        .collect();
    assert_eq!(not_found.len(), 1);
    assert_eq!(result.errors.len(), 1);
    assert!(!result.is_valid());
}

#[test]
fn validation_is_idempotent() {
    let content = "#TITLE:\n#BPM:oops\n#GAP:\n#YEAR:soon\n: x 5 7 La\n- \nmystery line\n";
    let bytes = content.as_bytes().to_vec();
    let (first, _) = Validator::validate_content("song.txt", &bytes);
    let (second, _) = Validator::validate_content("song.txt", &bytes);
    assert!(first.same_as(&second));
    assert!(!first.is_valid());
}

#[test]
fn validator_reports_each_defect_with_its_line() {
    let content = "#TITLE:T\n#ARTIST:A\n#BPM:abc\n#GAP:xyz\n#YEAR:soon\n: q 5 7 La\n- r\nwhat is this\nE\n";
    let bytes = content.as_bytes().to_vec();
    let (result, _) = Validator::validate_content("song.txt", &bytes);
    assert!(result.errors.iter().any(
        |e| matches!(e.kind, ValidationErrorKind::InvalidBpm(ref v) if v == "abc") && e.line == Some(3)
    ));
    assert!(result.errors.iter().any(
        |e| matches!(e.kind, ValidationErrorKind::InvalidGap(ref v) if v == "xyz") && e.line == Some(4)
    ));
    assert!(result.warnings.iter().any(
        |e| matches!(e.kind, ValidationErrorKind::InvalidYear(ref v) if v == "soon") && e.line == Some(5)
    ));
    assert!(result.errors.iter().any(
        |e| matches!(e.kind, ValidationErrorKind::InvalidNoteFormat(_)) && e.line == Some(6)
    ));
    assert!(result.errors.iter().any(
        |e| matches!(e.kind, ValidationErrorKind::InvalidLineBreak(_)) && e.line == Some(7)
    ));
    assert!(result.warnings.iter().any(
        |e| matches!(e.kind, ValidationErrorKind::InvalidNoteFormat(_)) && e.line == Some(8)
    ));
}

#[test]
fn validator_flags_structure_and_encoding() {
    let empty = "   \n\n  ".as_bytes().to_vec();
    let (r1, _) = Validator::validate_content("song.txt", &empty);
    assert!(matches!(r1.errors[0].kind, ValidationErrorKind::EmptyFile));

    let bad = vec![0xff, 0xfe, 0x00];
    let (r2, _) = Validator::validate_content("song.txt", &bad);
    assert!(matches!(r2.errors[0].kind, ValidationErrorKind::InvalidUtf8));

    let mut with_bom = vec![0xef, 0xbb, 0xbf];
    with_bom.extend_from_slice("\n#TITLE:T\n#ARTIST:A\n#BPM:100\n#MP3:a.mp3\n: 0 1 2 x\nE\n".as_bytes());
    let (r3, _) = Validator::validate_content("song.txt", &with_bom);
    assert!(r3.warnings.iter().any(|w| matches!(w.kind, ValidationErrorKind::ContainsBom)));

    let sparse = "#COVER:c.png\n".as_bytes().to_vec();
    let (r4, _) = Validator::validate_content("song.txt", &sparse);
    assert!(r4.errors.iter().any(|e| matches!(e.kind, ValidationErrorKind::MissingTitle)));
    assert!(r4.errors.iter().any(|e| matches!(e.kind, ValidationErrorKind::MissingArtist)));
    assert!(r4.errors.iter().any(|e| matches!(e.kind, ValidationErrorKind::MissingBpm)));
    assert!(r4.errors.iter().any(|e| matches!(e.kind, ValidationErrorKind::MissingAudio)));
    assert!(r4.errors.iter().any(|e| matches!(e.kind, ValidationErrorKind::NoNotes)));
    assert!(r4.warnings.iter().any(|w| matches!(w.kind, ValidationErrorKind::NoEndMarker)));
}

#[test]
fn asset_format_whitelists_apply() {
    let mut errors = Vec::new();
    Validator::validate_audio_file("track.webm", true, &mut errors);
    assert!(errors.is_empty(), "video containers are accepted as audio");

    Validator::validate_audio_file("track.doc", true, &mut errors);
    assert!(matches!(errors[0].kind, ValidationErrorKind::UnsupportedAudioFormat(ref e) if e == "doc"));

    let mut verrors = Vec::new();
    Validator::validate_video_file("clip.flac", true, &mut verrors);
    assert!(
        matches!(verrors[0].kind, ValidationErrorKind::UnsupportedVideoFormat(ref e) if e == "flac")
    );
    Validator::validate_video_file("clip.mov", true, &mut verrors);
    assert_eq!(verrors.len(), 1);

    let mut ierrors = Vec::new();
    Validator::validate_image_file("cover.bmp", "cover", true, &mut ierrors);
    assert!(
        matches!(ierrors[0].kind, ValidationErrorKind::UnsupportedImageFormat(ref e) if e == "bmp")
    );
    Validator::validate_image_file("missing.png", "cover", false, &mut ierrors);
    assert!(matches!(ierrors[1].kind, ValidationErrorKind::CoverFileNotFound(_)));
    Validator::validate_image_file("missing.png", "background", false, &mut ierrors);
    assert!(matches!(ierrors[2].kind, ValidationErrorKind::BackgroundFileNotFound(_)));
    let mut v2 = Vec::new();
    Validator::validate_video_file("gone.mp4", false, &mut v2);
    assert!(matches!(v2[0].kind, ValidationErrorKind::VideoFileNotFound(_)));
}

#[test]
fn chart_file_detection_ignores_case() {
    assert!(Indexer::is_ultrastar_file("songs/Artist - Song.txt"));
    assert!(Indexer::is_ultrastar_file("songs/Artist - Song.TXT"));
    assert!(!Indexer::is_ultrastar_file("songs/Artist - Song.mp3"));
    assert!(!Indexer::is_ultrastar_file("songs/no_extension"));
    assert!(!Indexer::is_ultrastar_file(".txt"));
}

#[test]
fn cover_fallback_prefers_fixed_names() {
    let entries: Vec<String> =
        vec!["My Cover Art.JPG".into(), "cover.png".into(), "other.txt".into()];
    assert_eq!(Indexer::find_cover_image(&entries).as_deref(), Some("cover.png"));

    let scan_only: Vec<String> = vec!["notes.txt".into(), "Front-Cover.jpeg".into()];
    assert_eq!(Indexer::find_cover_image(&scan_only).as_deref(), Some("Front-Cover.jpeg"));

    let none: Vec<String> = vec!["cover.gif".into(), "art.png".into()];
    assert_eq!(Indexer::find_cover_image(&none), None);
}

#[test]
fn resolve_files_joins_and_falls_back() {
    let content = "#TITLE:T\n#ARTIST:A\n#BPM:100\n#MP3:song.mp3\n#VIDEO:clip.mp4\n#BACKGROUND:bg.png\n: 0 1 2 x\nE\n";
    let song = Parser::parse(content, "library/band/track.txt").unwrap();
    let entries: Vec<String> = vec!["[CO].png".into(), "song.mp3".into()];
    let files = Indexer::resolve_files(
        "library/band/track.txt",
        &song.metadata,
        true,
        false,
        false,
        true,
        &entries,
    );
    assert_eq!(files.txt_path, "library/band/track.txt");
    assert_eq!(files.audio_path.as_deref(), Some("library/band/song.mp3"));
    assert_eq!(files.video_path, None, "referenced but absent on disk");
    assert_eq!(files.cover_path.as_deref(), Some("library/band/[CO].png"));
    assert_eq!(files.background_path.as_deref(), Some("library/band/bg.png"));
}

#[test]
fn summary_reflects_song() {
    let content = "#TITLE:T\n#ARTIST:A\n#BPM:100\n#GENRE:Pop\n#YEAR:2001\n: 0 1 2 x\nE\n";
    let mut song = Parser::parse(content, "dir/track.txt").unwrap();
    song.files.cover_path = Some("dir/cover.png".to_string());
    song.files.video_path = Some("dir/clip.mp4".to_string());
    let summary = SongSummary::from_song(&song);
    assert_eq!(summary.id, song.id);
    assert_eq!(summary.title, "T");
    assert_eq!(summary.artist, "A");
    assert_eq!(summary.genre.as_deref(), Some("Pop"));
    assert_eq!(summary.year, Some(2001));
    assert!(summary.has_video);
    assert!(!summary.is_duet);
    assert_eq!(summary.cover_url, Some(format!("/files/{}/cover", song.id)));
}

#[test]
fn range_header_parses_and_clamps() {
    assert_eq!(parse_range_header("bytes=0-499", 1000), Some((0, 499)));
    assert_eq!(parse_range_header("bytes=500-", 1000), Some((500, 999)));
    assert_eq!(parse_range_header("bytes=990-2000", 1000), Some((990, 999)));
    assert_eq!(parse_range_header("bytes=1000-1001", 1000), None);
    assert_eq!(parse_range_header("bytes=5-4", 1000), None);
    assert_eq!(parse_range_header("bytes=a-b", 1000), None);
    assert_eq!(parse_range_header("bytes=1-2-3", 1000), None);
    assert_eq!(parse_range_header("octets=0-1", 1000), None);
    assert_eq!(parse_range_header("bytes=0-1", 0), None);
}

#[test]
fn config_formats_address() {
    let config = Config {
        songs_directory: "./songs".to_string(),
        host: "127.0.0.1".to_string(),
        port: 3001,
    };
    assert_eq!(config.address(), "127.0.0.1:3001");
}

#[test]
fn queue_removal_takes_the_first_match() {
    fn entry(id: u64, song_id: &str) -> QueueEntry {
        QueueEntry {
            id,
            song_id: song_id.to_string(),
            song_title: "T".to_string(),
            song_artist: "A".to_string(),
            submitter: "guest".to_string(),
        }
    }
    let mut queue = vec![entry(1, "s1"), entry(2, "s2"), entry(3, "s2")];
    assert!(remove_entry_by_id(&mut queue, 2));
    assert_eq!(queue.iter().map(|e| e.id).collect::<Vec<_>>(), vec![1, 3]);
    assert!(!remove_entry_by_id(&mut queue, 9));
    assert_eq!(queue.len(), 2);
    assert!(remove_entry_by_song(&mut queue, "s2"));
    assert_eq!(queue.iter().map(|e| e.id).collect::<Vec<_>>(), vec![1]);
    assert!(!remove_entry_by_song(&mut queue, "s2"));
}

#[test]
fn search_matches_title_or_artist_case_insensitively() {
    let content = "#TITLE:Bohemian Song\n#ARTIST:The Queens\n#BPM:100\n: 0 1 2 x\nE\n";
    let song = Parser::parse(content, "t.txt").unwrap();
    assert!(song.metadata.matches_query("bohemian"));
    assert!(song.metadata.matches_query("QUEEN"));
    assert!(song.metadata.matches_query(""));
    assert!(!song.metadata.matches_query("polka"));
}

#[test]
fn content_types_follow_the_extension() {
    assert_eq!(content_type_for("a/b/song.mp3"), "audio/mpeg");
    assert_eq!(content_type_for("clip.webm"), "video/webm");
    assert_eq!(content_type_for("art.jpeg"), "image/jpeg");
    assert_eq!(content_type_for("unknown.xyz"), "application/octet-stream");
    assert_eq!(content_type_for("no_extension"), "application/octet-stream");
}

#[test]
fn parse_error_names_the_offender() {
    let err = Parser::parse("#TITLE:T\n#ARTIST:A\n#BPM:x\n", "t.txt").unwrap_err();
    match err {
        AppError::ParseError(m) => assert_eq!(m, "Invalid BPM value: x"),
        _ => panic!("expected a parse error"),
    }
    let err2 = Parser::parse("#ARTIST:A\n#BPM:100\n", "t.txt").unwrap_err();
    match err2 {
        AppError::ParseError(m) => assert_eq!(m, "Missing required TITLE tag"),
        _ => panic!("expected a parse error"),
    }
}
