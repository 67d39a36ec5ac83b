use frank::decimal::Decimal;
use frank::parser::Parser;
use frank::types::NoteType;

#[test]
fn test_parse_simple_song() {
    let content = "\n#TITLE:Test Song\n#ARTIST:Test Artist\n#MP3:test.mp3\n#BPM:300\n#GAP:1000\n: 0 5 7 Hello\n: 8 3 5  world\n- 15\n: 20 4 7 Test\nE\n";
    let song = Parser::parse(content, "test.txt").unwrap();

    assert_eq!(song.metadata.title, "Test Song");
    assert_eq!(song.metadata.artist, "Test Artist");
    assert_eq!(song.metadata.bpm, Decimal { negative: false, mantissa: 300, scale: 0 });
    assert_eq!(song.metadata.gap, Decimal { negative: false, mantissa: 1000, scale: 0 });
    assert_eq!(song.notes.len(), 3);
    assert_eq!(song.line_breaks.len(), 1);

    let first_note = &song.notes[0];
    assert_eq!(first_note.note_type, NoteType::Normal);
    assert_eq!(first_note.start_beat, 0);
    assert_eq!(first_note.length, 5);
    assert_eq!(first_note.pitch, 7);
    assert_eq!(first_note.text, "Hello");
}

#[test]
fn test_parse_golden_notes() {
    let content = "\n#TITLE:Golden Test\n#ARTIST:Test Artist\n#BPM:400\n: 0 5 7 Normal\n* 8 3 5  Golden\nF 15 2 3 Free\nE\n";
    let song = Parser::parse(content, "test.txt").unwrap();

    assert_eq!(song.notes[0].note_type, NoteType::Normal);
    assert_eq!(song.notes[1].note_type, NoteType::Golden);
    assert_eq!(song.notes[2].note_type, NoteType::Freestyle);
}

#[test]
fn test_parse_duet() {
    let content = "\n#TITLE:Duet Song\n#ARTIST:Test Artists\n#BPM:400\n#DUETSINGERP1:Singer One\n#DUETSINGERP2:Singer Two\nP1\n: 0 5 7 Player one\n- 10\nP2\n: 0 5 5 Player two\n- 10\nE\n";
    let song = Parser::parse(content, "test.txt").unwrap();

    assert!(song.notes_p2.is_some());
    assert_eq!(song.notes.len(), 1);
    assert_eq!(song.notes_p2.as_ref().unwrap().len(), 1);
    assert_eq!(song.notes[0].text, "Player one");
    assert_eq!(song.notes_p2.as_ref().unwrap()[0].text, "Player two");
    assert_eq!(song.metadata.duet_singer_p1, Some("Singer One".to_string()));
    assert_eq!(song.metadata.duet_singer_p2, Some("Singer Two".to_string()));
}

#[test]
fn test_parse_bpm_with_comma() {
    let content = "\n#TITLE:Comma BPM\n#ARTIST:Test\n#BPM:312,5\n#GAP:1234,56\n: 0 5 7 Test\nE\n";
    let song = Parser::parse(content, "test.txt").unwrap();

    assert_eq!(song.metadata.bpm, Decimal { negative: false, mantissa: 3125, scale: 1 });
    assert_eq!(song.metadata.gap, Decimal { negative: false, mantissa: 123456, scale: 2 });
}

#[test]
fn test_parse_negative_pitch() {
    let content = "\n#TITLE:Negative Pitch\n#ARTIST:Test\n#BPM:400\n: 0 5 -3 Low note\n: 8 3 12 High note\nE\n";
    let song = Parser::parse(content, "test.txt").unwrap();

    assert_eq!(song.notes[0].pitch, -3);
    assert_eq!(song.notes[1].pitch, 12);
}

#[test]
fn test_parse_line_break_with_end_beat() {
    let content = "\n#TITLE:Line Break Test\n#ARTIST:Test\n#BPM:400\n: 0 5 7 Test\n- 10 15\n: 20 5 7 More\nE\n";
    let song = Parser::parse(content, "test.txt").unwrap();

    assert_eq!(song.line_breaks.len(), 1);
    assert_eq!(song.line_breaks[0].start_beat, 10);
    assert_eq!(song.line_breaks[0].end_beat, Some(15));
}

#[test]
fn test_missing_title_error() {
    let content = "\n#ARTIST:Test\n#BPM:400\n: 0 5 7 Test\nE\n";
    let result = Parser::parse(content, "test.txt");
    assert!(result.is_err());
}

#[test]
fn test_rap_notes() {
    let content = "\n#TITLE:Rap Test\n#ARTIST:Test\n#BPM:400\nR 0 5 7 Rap note\nG 8 3 5 Golden rap\nE\n";
    let song = Parser::parse(content, "test.txt").unwrap();

    assert_eq!(song.notes[0].note_type, NoteType::Rap);
    assert_eq!(song.notes[1].note_type, NoteType::GoldenRap);
}
