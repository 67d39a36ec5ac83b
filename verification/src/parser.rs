//! The chart parser: a fail-fast state machine over the line stream that
//! produces a typed `Song` or stops at the first structural error, and the
//! staged metadata builder it feeds.

use vstd::prelude::*;
use crate::classify::{classify, spec_classify, spec_switch_target, switch_target, LineClass};
use crate::decimal::{spec_parse_number, Decimal};
use crate::num::{spec_parse_i32, spec_parse_u16, spec_u64_hex};
use crate::text::{
    chars_to_string, message, spec_find, spec_lines, spec_splitn_space, spec_split_ws, spec_trim,
    spec_upper, split_lines, splitn_space, split_ws, subvec, to_chars, trim, upper,
};
use crate::types::{
    AppError, AppErrorV, LineBreak, MetadataV, Note, NoteV, Song, SongFiles, SongFilesV,
    SongMetadata, SongV,
};

verus! {

/// The staged accumulator for header tags: every field optional while lines
/// stream in, required-field presence enforced only by `build`.
pub struct MetadataBuilder {
    title: Option<String>,
    artist: Option<String>,
    bpm: Option<Decimal>,
    gap: Option<Decimal>,
    video_gap: Option<Decimal>,
    genre: Option<String>,
    year: Option<u16>,
    language: Option<String>,
    edition: Option<String>,
    creator: Option<String>,
    duet_singer_p1: Option<String>,
    duet_singer_p2: Option<String>,
    audio_file: Option<String>,
    video_file: Option<String>,
    cover_file: Option<String>,
    background_file: Option<String>,
}

pub ghost struct BuilderV {
    pub title: Option<Seq<char>>,
    pub artist: Option<Seq<char>>,
    pub bpm: Option<Decimal>,
    pub gap: Option<Decimal>,
    pub video_gap: Option<Decimal>,
    pub genre: Option<Seq<char>>,
    pub year: Option<u16>,
    pub language: Option<Seq<char>>,
    pub edition: Option<Seq<char>>,
    pub creator: Option<Seq<char>>,
    pub duet_singer_p1: Option<Seq<char>>,
    pub duet_singer_p2: Option<Seq<char>>,
    pub audio_file: Option<Seq<char>>,
    pub video_file: Option<Seq<char>>,
    pub cover_file: Option<Seq<char>>,
    pub background_file: Option<Seq<char>>,
}

impl View for MetadataBuilder {
    type V = BuilderV;

    closed spec fn view(&self) -> BuilderV {
        BuilderV {
            title: self.title.deep_view(),
            artist: self.artist.deep_view(),
            bpm: self.bpm,
            gap: self.gap,
            video_gap: self.video_gap,
            genre: self.genre.deep_view(),
            year: self.year,
            language: self.language.deep_view(),
            edition: self.edition.deep_view(),
            creator: self.creator.deep_view(),
            duet_singer_p1: self.duet_singer_p1.deep_view(),
            duet_singer_p2: self.duet_singer_p2.deep_view(),
            audio_file: self.audio_file.deep_view(),
            video_file: self.video_file.deep_view(),
            cover_file: self.cover_file.deep_view(),
            background_file: self.background_file.deep_view(),
        }
    }
}

pub open spec fn spec_empty_builder() -> BuilderV {
    BuilderV {
        title: None,
        artist: None,
        bpm: None,
        gap: None,
        video_gap: None,
        genre: None,
        year: None,
        language: None,
        edition: None,
        creator: None,
        duet_singer_p1: None,
        duet_singer_p2: None,
        audio_file: None,
        video_file: None,
        cover_file: None,
        background_file: None,
    }
}

/// What one `(tag, value)` pair does to the builder.  The tag is already
/// upper-cased; unknown tags change nothing.  BPM and GAP must parse as
/// numbers (hard error), while VIDEOGAP and YEAR fall back to absent when
/// they do not parse.
pub open spec fn spec_apply_tag(b: BuilderV, tag: Seq<char>, value: Seq<char>) -> Result<
    BuilderV,
    Seq<char>,
> {
    if tag == "TITLE"@ {
        Ok(BuilderV { title: Some(value), ..b })
    } else if tag == "ARTIST"@ {
        Ok(BuilderV { artist: Some(value), ..b })
    } else if tag == "MP3"@ || tag == "AUDIO"@ {
        Ok(BuilderV { audio_file: Some(value), ..b })
    } else if tag == "BPM"@ {
        match spec_parse_number(value) {
            Some(d) => Ok(BuilderV { bpm: Some(d), ..b }),
            None => Err("Invalid BPM value: "@ + value),
        }
    } else if tag == "GAP"@ {
        match spec_parse_number(value) {
            Some(d) => Ok(BuilderV { gap: Some(d), ..b }),
            None => Err("Invalid GAP value: "@ + value),
        }
    } else if tag == "VIDEO"@ {
        Ok(BuilderV { video_file: Some(value), ..b })
    } else if tag == "VIDEOGAP"@ {
        Ok(BuilderV { video_gap: spec_parse_number(value), ..b })
    } else if tag == "COVER"@ {
        Ok(BuilderV { cover_file: Some(value), ..b })
    } else if tag == "BACKGROUND"@ {
        Ok(BuilderV { background_file: Some(value), ..b })
    } else if tag == "GENRE"@ {
        Ok(BuilderV { genre: Some(value), ..b })
    } else if tag == "YEAR"@ {
        Ok(BuilderV { year: spec_parse_u16(value), ..b })
    } else if tag == "LANGUAGE"@ {
        Ok(BuilderV { language: Some(value), ..b })
    } else if tag == "EDITION"@ {
        Ok(BuilderV { edition: Some(value), ..b })
    } else if tag == "CREATOR"@ {
        Ok(BuilderV { creator: Some(value), ..b })
    } else if tag == "DUETSINGERP1"@ || tag == "P1"@ {
        Ok(BuilderV { duet_singer_p1: Some(value), ..b })
    } else if tag == "DUETSINGERP2"@ || tag == "P2"@ {
        Ok(BuilderV { duet_singer_p2: Some(value), ..b })
    } else {
        Ok(b)
    }
}

/// Is a required tag satisfied in the builder: a non-empty TITLE or
/// ARTIST, or a BPM that parsed.
pub open spec fn spec_builder_field(b: BuilderV, tag: Seq<char>) -> bool {
    if tag == "TITLE"@ {
        b.title matches Some(t) && t.len() > 0
    } else if tag == "ARTIST"@ {
        b.artist matches Some(t) && t.len() > 0
    } else {
        b.bpm is Some
    }
}

/// Header tags that mark the chart as a duet.
pub open spec fn spec_duet_tag(tag: Seq<char>) -> bool {
    tag == "P1"@ || tag == "P2"@ || tag == "DUETSINGERP1"@ || tag == "DUETSINGERP2"@
}

/// Finalizing the builder: TITLE, ARTIST and BPM must have been set, the
/// former two to non-empty text; GAP defaults to zero.
pub open spec fn spec_build(b: BuilderV) -> Result<MetadataV, Seq<char>> {
    if !(b.title matches Some(t) && t.len() > 0) {
        Err("Missing required TITLE tag"@)
    } else if !(b.artist matches Some(a) && a.len() > 0) {
        Err("Missing required ARTIST tag"@)
    } else if b.bpm is None {
        Err("Missing required BPM tag"@)
    } else {
        Ok(
            MetadataV {
                title: b.title->0,
                artist: b.artist->0,
                bpm: b.bpm->0,
                gap: match b.gap {
                    Some(g) => g,
                    None => Decimal::spec_zero(),
                },
                video_gap: b.video_gap,
                genre: b.genre,
                year: b.year,
                language: b.language,
                edition: b.edition,
                creator: b.creator,
                duet_singer_p1: b.duet_singer_p1,
                duet_singer_p2: b.duet_singer_p2,
                audio_file: b.audio_file,
                video_file: b.video_file,
                cover_file: b.cover_file,
                background_file: b.background_file,
            },
        )
    }
}

impl MetadataBuilder {
    pub fn new() -> (r: MetadataBuilder)
        ensures
            r@ == spec_empty_builder(),
    {
        MetadataBuilder {
            title: None,
            artist: None,
            bpm: None,
            gap: None,
            video_gap: None,
            genre: None,
            year: None,
            language: None,
            edition: None,
            creator: None,
            duet_singer_p1: None,
            duet_singer_p2: None,
            audio_file: None,
            video_file: None,
            cover_file: None,
            background_file: None,
        }
    }

    /// Apply one already-normalized `(tag, value)` pair.
    fn apply_tag_chars(&mut self, tag: &Vec<char>, value: &Vec<char>) -> (r: Result<
        (),
        AppError,
    >)
        ensures
            match spec_apply_tag(old(self)@, tag@, value@) {
                Ok(b) => r is Ok && final(self)@ == b,
                Err(m) => (r matches Err(e) && e@ == AppErrorV::ParseError(m)) && final(self)@
                    == old(self)@,
            },
    {
        if crate::text::eq_str(tag, "TITLE") {
            self.title = Some(chars_to_string(value));
            Ok(())
        } else if crate::text::eq_str(tag, "ARTIST") {
            self.artist = Some(chars_to_string(value));
            Ok(())
        } else if crate::text::eq_str(tag, "MP3") || crate::text::eq_str(tag, "AUDIO") {
            self.audio_file = Some(chars_to_string(value));
            Ok(())
        } else if crate::text::eq_str(tag, "BPM") {
            match crate::decimal::parse_number(value) {
                Some(d) => {
                    self.bpm = Some(d);
                    Ok(())
                },
                None => Err(AppError::ParseError(message("Invalid BPM value: ", value))),
            }
        } else if crate::text::eq_str(tag, "GAP") {
            match crate::decimal::parse_number(value) {
                Some(d) => {
                    self.gap = Some(d);
                    Ok(())
                },
                None => Err(AppError::ParseError(message("Invalid GAP value: ", value))),
            }
        } else if crate::text::eq_str(tag, "VIDEO") {
            self.video_file = Some(chars_to_string(value));
            Ok(())
        } else if crate::text::eq_str(tag, "VIDEOGAP") {
            self.video_gap = crate::decimal::parse_number(value);
            Ok(())
        } else if crate::text::eq_str(tag, "COVER") {
            self.cover_file = Some(chars_to_string(value));
            Ok(())
        } else if crate::text::eq_str(tag, "BACKGROUND") {
            self.background_file = Some(chars_to_string(value));
            Ok(())
        } else if crate::text::eq_str(tag, "GENRE") {
            self.genre = Some(chars_to_string(value));
            Ok(())
        } else if crate::text::eq_str(tag, "YEAR") {
            self.year = crate::num::parse_u16(value);
            Ok(())
        } else if crate::text::eq_str(tag, "LANGUAGE") {
            self.language = Some(chars_to_string(value));
            Ok(())
        } else if crate::text::eq_str(tag, "EDITION") {
            self.edition = Some(chars_to_string(value));
            Ok(())
        } else if crate::text::eq_str(tag, "CREATOR") {
            self.creator = Some(chars_to_string(value));
            Ok(())
        } else if crate::text::eq_str(tag, "DUETSINGERP1") || crate::text::eq_str(tag, "P1") {
            self.duet_singer_p1 = Some(chars_to_string(value));
            Ok(())
        } else if crate::text::eq_str(tag, "DUETSINGERP2") || crate::text::eq_str(tag, "P2") {
            self.duet_singer_p2 = Some(chars_to_string(value));
            Ok(())
        } else {
            Ok(())
        }
    }

    /// Apply one `(tag, value)` pair; the tag is matched case-insensitively.
    pub fn apply_tag(&mut self, tag: &str, value: &str) -> (r: Result<(), AppError>)
        ensures
            match spec_apply_tag(old(self)@, spec_upper(tag@), value@) {
                Ok(b) => r is Ok && final(self)@ == b,
                Err(m) => (r matches Err(e) && e@ == AppErrorV::ParseError(m)) && final(self)@
                    == old(self)@,
            },
    {
        let t = upper(&to_chars(tag));
        let v = to_chars(value);
        self.apply_tag_chars(&t, &v)
    }

    /// Finalize into the metadata record, or fail on a missing or empty
    /// required tag.
    pub fn build(self) -> (r: Result<SongMetadata, AppError>)
        ensures
            match spec_build(self@) {
                Ok(m) => r matches Ok(sm) && sm@ == m,
                Err(msg) => r matches Err(e) && e@ == AppErrorV::ParseError(msg),
            },
    {
        let title = match self.title {
            Some(t) => {
                if t.as_str().unicode_len() == 0 {
                    return Err(
                        AppError::ParseError(String::from_str("Missing required TITLE tag")),
                    );
                }
                t
            },
            None => {
                return Err(AppError::ParseError(String::from_str("Missing required TITLE tag")));
            },
        };
        let artist = match self.artist {
            Some(a) => {
                if a.as_str().unicode_len() == 0 {
                    return Err(
                        AppError::ParseError(String::from_str("Missing required ARTIST tag")),
                    );
                }
                a
            },
            None => {
                return Err(AppError::ParseError(String::from_str("Missing required ARTIST tag")));
            },
        };
        let bpm = match self.bpm {
            Some(b) => b,
            None => {
                return Err(AppError::ParseError(String::from_str("Missing required BPM tag")));
            },
        };
        let gap = match self.gap {
            Some(g) => g,
            None => Decimal::zero(),
        };
        Ok(
            SongMetadata {
                title,
                artist,
                bpm,
                gap,
                video_gap: self.video_gap,
                genre: self.genre,
                year: self.year,
                language: self.language,
                edition: self.edition,
                creator: self.creator,
                duet_singer_p1: self.duet_singer_p1,
                duet_singer_p2: self.duet_singer_p2,
                audio_file: self.audio_file,
                video_file: self.video_file,
                cover_file: self.cover_file,
                background_file: self.background_file,
            },
        )
    }
}

/// The tag of a header line, upper-cased and trimmed: what stands between
/// `#` and the first `:` (or the whole rest when there is no `:`).
pub open spec fn spec_header_tag(line: Seq<char>) -> Seq<char> {
    let content = line.drop_first();
    spec_upper(spec_trim(content.take(spec_find(content, ':'))))
}

/// The value of a header line: what follows the first `:`, trimmed; empty
/// when there is no `:`.
pub open spec fn spec_header_value(line: Seq<char>) -> Seq<char> {
    let content = line.drop_first();
    let i = spec_find(content, ':');
    if i == content.len() {
        Seq::empty()
    } else {
        spec_trim(content.skip(i + 1))
    }
}

/// Split a header line into its normalized tag and trimmed value.
pub fn header_parts(line: &Vec<char>) -> (r: (Vec<char>, Vec<char>))
    requires
        line@.len() > 0,
    ensures
        r.0@ == spec_header_tag(line@),
        r.1@ == spec_header_value(line@),
{
    let content = subvec(line, 1, line.len());
    proof {
        assert(content@ =~= line@.drop_first());
        assert(content@.skip(0) =~= content@);
    }
    let ci = crate::text::find_char_from(&content, 0, ':');
    proof {
        crate::text::lemma_find(content@, ':');
    }
    let tag_raw = subvec(&content, 0, ci);
    proof {
        assert(tag_raw@ =~= content@.take(ci as int));
    }
    let tag = upper(&trim(&tag_raw));
    let value = if ci == content.len() {
        Vec::new()
    } else {
        let value_raw = subvec(&content, ci + 1, content.len());
        proof {
            assert(value_raw@ =~= content@.skip(ci as int + 1));
        }
        trim(&value_raw)
    };
    (tag, value)
}

/// What parsing a note line yields: the marker character gives the type,
/// the payload splits into at most four space-separated fields of which the
/// fourth keeps the rest of the line, and the first three must be signed
/// integers.
pub open spec fn spec_parse_note(line: Seq<char>) -> Result<NoteV, Seq<char>> {
    match spec_classify(line) {
        LineClass::NoteMark(nt) => {
            let rest = spec_trim(line.drop_first());
            let parts = spec_splitn_space(rest, 4);
            if parts.len() < 4 {
                Err("Invalid note line (expected 4+ parts): "@ + line)
            } else {
                match spec_parse_i32(parts[0]) {
                    None => Err("Invalid start beat: "@ + parts[0]),
                    Some(sb) => match spec_parse_i32(parts[1]) {
                        None => Err("Invalid length: "@ + parts[1]),
                        Some(ln) => match spec_parse_i32(parts[2]) {
                            None => Err("Invalid pitch: "@ + parts[2]),
                            Some(p) => Ok(
                                NoteV {
                                    note_type: nt,
                                    start_beat: sb,
                                    length: ln,
                                    pitch: p,
                                    text: parts[3],
                                },
                            ),
                        },
                    },
                }
            }
        },
        _ => Err("Unknown note type in: "@ + line),
    }
}

/// What parsing a line-break line yields: at least a start beat (signed
/// integer); a second field becomes the end beat when it parses and is
/// silently dropped when it does not.
pub open spec fn spec_parse_break(line: Seq<char>) -> Result<LineBreak, Seq<char>> {
    let rest = spec_trim(line.drop_first());
    let parts = spec_split_ws(rest);
    if parts.len() == 0 {
        Err("Invalid line break: "@ + line)
    } else {
        match spec_parse_i32(parts[0]) {
            None => Err("Invalid line break beat: "@ + parts[0]),
            Some(sb) => Ok(
                LineBreak {
                    start_beat: sb,
                    end_beat: if parts.len() > 1 {
                        spec_parse_i32(parts[1])
                    } else {
                        None
                    },
                },
            ),
        }
    }
}

/// The running state of the parser: the builder, one note and one
/// line-break stream per player, the player now being written, and whether
/// the chart was detected as a duet.
pub ghost struct PState {
    pub builder: BuilderV,
    pub notes_p1: Seq<NoteV>,
    pub notes_p2: Seq<NoteV>,
    pub breaks_p1: Seq<LineBreak>,
    pub breaks_p2: Seq<LineBreak>,
    pub current_player: u8,
    pub is_duet: bool,
}

pub open spec fn spec_init_state() -> PState {
    PState {
        builder: spec_empty_builder(),
        notes_p1: Seq::empty(),
        notes_p2: Seq::empty(),
        breaks_p1: Seq::empty(),
        breaks_p2: Seq::empty(),
        current_player: 1,
        is_duet: false,
    }
}

pub ghost enum PStep {
    Go(PState),
    Halt,
    Fail(Seq<char>),
}

/// One parser transition on a raw line: trim, classify, act.  Blank and
/// unknown lines are skipped, the end sentinel halts, and a malformed
/// header, note or line break fails the whole parse.
pub open spec fn spec_step(raw: Seq<char>, st: PState) -> PStep {
    let line = spec_trim(raw);
    if line.len() == 0 {
        PStep::Go(st)
    } else {
        match spec_classify(line) {
            LineClass::Header => match spec_apply_tag(
                st.builder,
                spec_header_tag(line),
                spec_header_value(line),
            ) {
                Ok(b) => PStep::Go(
                    PState {
                        builder: b,
                        is_duet: st.is_duet || spec_duet_tag(spec_header_tag(line)),
                        ..st
                    },
                ),
                Err(m) => PStep::Fail(m),
            },
            LineClass::NoteMark(_) => match spec_parse_note(line) {
                Ok(n) => PStep::Go(
                    if st.current_player == 2 {
                        PState { notes_p2: st.notes_p2.push(n), ..st }
                    } else {
                        PState { notes_p1: st.notes_p1.push(n), ..st }
                    },
                ),
                Err(m) => PStep::Fail(m),
            },
            LineClass::BreakMark => match spec_parse_break(line) {
                Ok(b) => PStep::Go(
                    if st.current_player == 2 {
                        PState { breaks_p2: st.breaks_p2.push(b), ..st }
                    } else {
                        PState { breaks_p1: st.breaks_p1.push(b), ..st }
                    },
                ),
                Err(m) => PStep::Fail(m),
            },
            LineClass::EndMark => PStep::Halt,
            LineClass::PlayerMark => match spec_switch_target(line) {
                Some(p) => PStep::Go(PState { current_player: p, is_duet: true, ..st }),
                None => PStep::Go(st),
            },
            LineClass::Unknown => PStep::Go(st),
        }
    }
}

/// Run the parser over the remaining lines.
pub open spec fn spec_run(lines: Seq<Seq<char>>, st: PState) -> Result<PState, Seq<char>>
    decreases lines.len(),
{
    if lines.len() == 0 {
        Ok(st)
    } else {
        match spec_step(lines[0], st) {
            PStep::Go(st2) => spec_run(lines.drop_first(), st2),
            PStep::Halt => Ok(st),
            PStep::Fail(m) => Err(m),
        }
    }
}

/// The 64-bit FNV-1a hash of the path characters; the song id is its
/// lowercase hexadecimal rendering.
pub open spec fn spec_fnv1a(s: Seq<char>) -> u64
    decreases s.len(),
{
    if s.len() == 0 {
        0xcbf2_9ce4_8422_2325u64
    } else {
        vstd::wrapping::u64_specs::wrapping_mul(
            spec_fnv1a(s.drop_last()) ^ (s.last() as u64),
            0x0000_0100_0000_01b3u64,
        )
    }
}

pub open spec fn spec_song_id(path: Seq<char>) -> Seq<char> {
    spec_u64_hex(spec_fnv1a(path) as int)
}

/// The final song: the secondary streams are attached exactly when the
/// chart is a duet and the stream in question is non-empty; asset paths are
/// left unresolved.
pub open spec fn spec_assemble(st: PState, meta: MetadataV, path: Seq<char>) -> SongV {
    SongV {
        id: spec_song_id(path),
        metadata: meta,
        notes: st.notes_p1,
        notes_p2: if st.is_duet && st.notes_p2.len() > 0 {
            Some(st.notes_p2)
        } else {
            None
        },
        line_breaks: st.breaks_p1,
        line_breaks_p2: if st.is_duet && st.breaks_p2.len() > 0 {
            Some(st.breaks_p2)
        } else {
            None
        },
        files: SongFilesV {
            txt_path: path,
            audio_path: None,
            video_path: None,
            cover_path: None,
            background_path: None,
        },
    }
}

/// What parsing a whole document yields: run the state machine over the
/// lines, finalize the metadata, assemble the song.
pub open spec fn spec_parse(content: Seq<char>, path: Seq<char>) -> Result<SongV, Seq<char>> {
    match spec_run(spec_lines(content), spec_init_state()) {
        Err(m) => Err(m),
        Ok(st) => match spec_build(st.builder) {
            Err(m) => Err(m),
            Ok(meta) => Ok(spec_assemble(st, meta, path)),
        },
    }
}

/// Parser for chart text.
pub struct Parser;

impl Parser {
    fn parse_note_chars(line: &Vec<char>) -> (r: Result<Note, AppError>)
        ensures
            match spec_parse_note(line@) {
                Ok(nv) => r matches Ok(n) && n@ == nv,
                Err(m) => r matches Err(e) && e@ == AppErrorV::ParseError(m),
            },
    {
        let nt = match classify(line) {
            LineClass::NoteMark(nt) => nt,
            _ => {
                return Err(AppError::ParseError(message("Unknown note type in: ", line)));
            },
        };
        let rest0 = subvec(line, 1, line.len());
        proof {
            assert(rest0@ =~= line@.drop_first());
        }
        let rest = trim(&rest0);
        let parts = splitn_space(&rest, 4);
        proof {
            assert(parts.deep_view() == spec_splitn_space(spec_trim(line@.drop_first()), 4));
        }
        if parts.len() < 4 {
            return Err(
                AppError::ParseError(message("Invalid note line (expected 4+ parts): ", line)),
            );
        }
        proof {
            assert(parts.deep_view()[0] == parts@[0]@);
            assert(parts.deep_view()[1] == parts@[1]@);
            assert(parts.deep_view()[2] == parts@[2]@);
            assert(parts.deep_view()[3] == parts@[3]@);
        }
        let start_beat = match crate::num::parse_i32(&parts[0]) {
            Some(x) => x,
            None => {
                return Err(AppError::ParseError(message("Invalid start beat: ", &parts[0])));
            },
        };
        let length = match crate::num::parse_i32(&parts[1]) {
            Some(x) => x,
            None => {
                return Err(AppError::ParseError(message("Invalid length: ", &parts[1])));
            },
        };
        let pitch = match crate::num::parse_i32(&parts[2]) {
            Some(x) => x,
            None => {
                return Err(AppError::ParseError(message("Invalid pitch: ", &parts[2])));
            },
        };
        let text = chars_to_string(&parts[3]);
        Ok(Note { note_type: nt, start_beat, length, pitch, text })
    }

    /// Parse a single note line (marker, start beat, length, pitch, text).
    pub fn parse_note_line(line: &str) -> (r: Result<Note, AppError>)
        ensures
            match spec_parse_note(line@) {
                Ok(nv) => r matches Ok(n) && n@ == nv,
                Err(m) => r matches Err(e) && e@ == AppErrorV::ParseError(m),
            },
    {
        let chars = to_chars(line);
        Self::parse_note_chars(&chars)
    }

    fn parse_break_chars(line: &Vec<char>) -> (r: Result<LineBreak, AppError>)
        requires
            line@.len() > 0,
        ensures
            match spec_parse_break(line@) {
                Ok(b) => r == Ok::<LineBreak, AppError>(b),
                Err(m) => r matches Err(e) && e@ == AppErrorV::ParseError(m),
            },
    {
        let rest0 = subvec(line, 1, line.len());
        proof {
            assert(rest0@ =~= line@.drop_first());
        }
        let rest = trim(&rest0);
        let parts = split_ws(&rest);
        proof {
            assert(parts.deep_view() == spec_split_ws(spec_trim(line@.drop_first())));
        }
        if parts.len() == 0 {
            return Err(AppError::ParseError(message("Invalid line break: ", line)));
        }
        proof {
            assert(parts.deep_view()[0] == parts@[0]@);
            if parts.deep_view().len() > 1 {
                assert(parts.deep_view()[1] == parts@[1]@);
            }
        }
        let start_beat = match crate::num::parse_i32(&parts[0]) {
            Some(x) => x,
            None => {
                return Err(AppError::ParseError(message("Invalid line break beat: ", &parts[0])));
            },
        };
        let end_beat = if parts.len() > 1 {
            crate::num::parse_i32(&parts[1])
        } else {
            None
        };
        Ok(LineBreak { start_beat, end_beat })
    }

    /// Parse a single line-break line (`-`, start beat, optional end beat).
    pub fn parse_line_break(line: &str) -> (r: Result<LineBreak, AppError>)
        requires
            line@.len() > 0,
        ensures
            match spec_parse_break(line@) {
                Ok(b) => r == Ok::<LineBreak, AppError>(b),
                Err(m) => r matches Err(e) && e@ == AppErrorV::ParseError(m),
            },
    {
        let chars = to_chars(line);
        Self::parse_break_chars(&chars)
    }

    /// The stable identity of a chart: a hash of its path, rendered as
    /// lowercase hexadecimal, unchanged as long as the file does not move.
    pub fn generate_id(path: &str) -> (r: String)
        ensures
            r@ == spec_song_id(path@),
    {
        let chars = to_chars(path);
        let mut h: u64 = 0xcbf2_9ce4_8422_2325;
        let mut i: usize = 0;
        proof {
            assert(path@.take(0) =~= Seq::<char>::empty());
        }
        while i < chars.len()
            invariant
                i <= chars.len(),
                chars@ == path@,
                h == spec_fnv1a(path@.take(i as int)),
            decreases chars.len() - i,
        {
            proof {
                assert(path@.take(i as int + 1).drop_last() =~= path@.take(i as int));
                assert(path@.take(i as int + 1).last() == path@[i as int]);
            }
            h = (h ^ (chars[i] as u64)).wrapping_mul(0x0000_0100_0000_01b3);
            i += 1;
        }
        proof {
            assert(path@.take(path@.len() as int) =~= path@);
        }
        let hex = crate::num::u64_hex_chars(h);
        chars_to_string(&hex)
    }

    /// Parse a whole chart document.  Fail-fast: the first malformed header
    /// value, note or line break, or a missing required tag at the end,
    /// aborts with a parse error and no partial song.
    pub fn parse(content: &str, txt_path: &str) -> (r: Result<Song, AppError>)
        ensures
            match spec_parse(content@, txt_path@) {
                Ok(sv) => r matches Ok(song) && song@ == sv,
                Err(m) => r matches Err(e) && e@ == AppErrorV::ParseError(m),
            },
    {
        let chars = to_chars(content);
        let lines = split_lines(&chars);
        let ghost ld = lines.deep_view();
        let mut builder = MetadataBuilder::new();
        let mut notes_p1: Vec<Note> = Vec::new();
        let mut notes_p2: Vec<Note> = Vec::new();
        let mut breaks_p1: Vec<LineBreak> = Vec::new();
        let mut breaks_p2: Vec<LineBreak> = Vec::new();
        let mut current_player: u8 = 1;
        let mut is_duet: bool = false;
        let mut i: usize = 0;
        proof {
            assert(ld.skip(0) =~= ld);
            assert(notes_p1.deep_view() =~= Seq::<NoteV>::empty());
            assert(notes_p2.deep_view() =~= Seq::<NoteV>::empty());
        }
        let mut halted: bool = false;
        while i < lines.len() && !halted
            invariant
                i <= lines.len(),
                ld == lines.deep_view(),
                ld == spec_lines(content@),
                halted ==> spec_run(ld, spec_init_state()) == Ok::<PState, Seq<char>>(
                    (PState {
                        builder: builder@,
                        notes_p1: notes_p1.deep_view(),
                        notes_p2: notes_p2.deep_view(),
                        breaks_p1: breaks_p1@,
                        breaks_p2: breaks_p2@,
                        current_player: current_player,
                        is_duet: is_duet,
                    }),
                ),
                !halted ==> spec_run(ld, spec_init_state()) == spec_run(
                    ld.skip(i as int),
                    (PState {
                        builder: builder@,
                        notes_p1: notes_p1.deep_view(),
                        notes_p2: notes_p2.deep_view(),
                        breaks_p1: breaks_p1@,
                        breaks_p2: breaks_p2@,
                        current_player: current_player,
                        is_duet: is_duet,
                    }),
                ),
            decreases lines.len() - i + (if halted { 0int } else { 1int }),
        {
            let ghost cur = PState {
                builder: builder@,
                notes_p1: notes_p1.deep_view(),
                notes_p2: notes_p2.deep_view(),
                breaks_p1: breaks_p1@,
                breaks_p2: breaks_p2@,
                current_player: current_player,
                is_duet: is_duet,
            };
            let ghost raw = ld[i as int];
            proof {
                assert(ld.skip(i as int)[0] == raw);
                assert(ld.skip(i as int).drop_first() =~= ld.skip(i as int + 1));
                assert(lines@[i as int].deep_view() =~= lines@[i as int]@);
                assert(raw == lines@[i as int]@);
            }
            let line = trim(&lines[i]);
            proof {
                assert(line@ == spec_trim(raw));
            }
            if line.len() == 0 {
                proof {
                    assert(spec_step(raw, cur) == PStep::Go(cur));
                    assert(spec_run(ld.skip(i as int), cur) == spec_run(
                        ld.skip(i as int + 1),
                        cur,
                    ));
                }
                i += 1;
                continue;
            }
            match classify(&line) {
                LineClass::Header => {
                    // #TAG:value — split at the first colon, normalize the
                    // tag, and feed the builder; duet tags flip the flag.
                    let (tag, value) = header_parts(&line);
                    match builder.apply_tag_chars(&tag, &value) {
                        Ok(()) => {},
                        Err(e) => {
                            proof {
                                assert(spec_step(raw, cur) matches PStep::Fail(m) && e@
                                    == AppErrorV::ParseError(m) && spec_run(ld.skip(i as int), cur)
                                    == Err::<PState, Seq<char>>(m));
                            }
                            return Err(e);
                        },
                    }
                    if crate::text::eq_str(&tag, "P1") || crate::text::eq_str(&tag, "P2")
                        || crate::text::eq_str(&tag, "DUETSINGERP1") || crate::text::eq_str(
                        &tag,
                        "DUETSINGERP2",
                    ) {
                        is_duet = true;
                    }
                    proof {
                        let now = PState {
                            builder: builder@,
                            notes_p1: notes_p1.deep_view(),
                            notes_p2: notes_p2.deep_view(),
                            breaks_p1: breaks_p1@,
                            breaks_p2: breaks_p2@,
                            current_player: current_player,
                            is_duet: is_duet,
                        };
                        assert(spec_step(raw, cur) == PStep::Go(now));
                        assert(spec_run(ld.skip(i as int), cur) == spec_run(
                            ld.skip(i as int + 1),
                            now,
                        ));
                    }
                },
                LineClass::NoteMark(_) => {
                    let note = match Self::parse_note_chars(&line) {
                        Ok(n) => n,
                        Err(e) => {
                            proof {
                                assert(spec_step(raw, cur) matches PStep::Fail(m) && e@
                                    == AppErrorV::ParseError(m) && spec_run(ld.skip(i as int), cur)
                                    == Err::<PState, Seq<char>>(m));
                            }
                            return Err(e);
                        },
                    };
                    if current_player == 2 {
                        let ghost old_dv = notes_p2.deep_view();
                        notes_p2.push(note);
                        proof {
                            assert(notes_p2.deep_view() =~= old_dv.push(note@));
                        }
                    } else {
                        let ghost old_dv = notes_p1.deep_view();
                        notes_p1.push(note);
                        proof {
                            assert(notes_p1.deep_view() =~= old_dv.push(note@));
                        }
                    }
                    proof {
                        let now = PState {
                            builder: builder@,
                            notes_p1: notes_p1.deep_view(),
                            notes_p2: notes_p2.deep_view(),
                            breaks_p1: breaks_p1@,
                            breaks_p2: breaks_p2@,
                            current_player: current_player,
                            is_duet: is_duet,
                        };
                        assert(spec_step(raw, cur) == PStep::Go(now));
                        assert(spec_run(ld.skip(i as int), cur) == spec_run(
                            ld.skip(i as int + 1),
                            now,
                        ));
                    }
                },
                LineClass::BreakMark => {
                    let lb = match Self::parse_break_chars(&line) {
                        Ok(b) => b,
                        Err(e) => {
                            proof {
                                assert(spec_step(raw, cur) matches PStep::Fail(m) && e@
                                    == AppErrorV::ParseError(m) && spec_run(ld.skip(i as int), cur)
                                    == Err::<PState, Seq<char>>(m));
                            }
                            return Err(e);
                        },
                    };
                    if current_player == 2 {
                        breaks_p2.push(lb);
                    } else {
                        breaks_p1.push(lb);
                    }
                    proof {
                        let now = PState {
                            builder: builder@,
                            notes_p1: notes_p1.deep_view(),
                            notes_p2: notes_p2.deep_view(),
                            breaks_p1: breaks_p1@,
                            breaks_p2: breaks_p2@,
                            current_player: current_player,
                            is_duet: is_duet,
                        };
                        assert(spec_step(raw, cur) == PStep::Go(now));
                        assert(spec_run(ld.skip(i as int), cur) == spec_run(
                            ld.skip(i as int + 1),
                            now,
                        ));
                    }
                },
                LineClass::EndMark => {
                    halted = true;
                    proof {
                        assert(spec_step(raw, cur) == PStep::Halt);
                        assert(spec_run(ld.skip(i as int), cur) == Ok::<PState, Seq<char>>(cur));
                    }
                },
                LineClass::PlayerMark => {
                    match switch_target(&line) {
                        Some(p) => {
                            current_player = p;
                            is_duet = true;
                        },
                        None => {},
                    }
                    proof {
                        let now = PState {
                            builder: builder@,
                            notes_p1: notes_p1.deep_view(),
                            notes_p2: notes_p2.deep_view(),
                            breaks_p1: breaks_p1@,
                            breaks_p2: breaks_p2@,
                            current_player: current_player,
                            is_duet: is_duet,
                        };
                        assert(spec_step(raw, cur) == PStep::Go(now));
                        assert(spec_run(ld.skip(i as int), cur) == spec_run(
                            ld.skip(i as int + 1),
                            now,
                        ));
                    }
                },
                LineClass::Unknown => {
                    proof {
                        assert(spec_step(raw, cur) == PStep::Go(cur));
                        assert(spec_run(ld.skip(i as int), cur) == spec_run(
                            ld.skip(i as int + 1),
                            cur,
                        ));
                    }
                },
            }
            if !halted {
                i += 1;
            }
        }
        let ghost fin = PState {
            builder: builder@,
            notes_p1: notes_p1.deep_view(),
            notes_p2: notes_p2.deep_view(),
            breaks_p1: breaks_p1@,
            breaks_p2: breaks_p2@,
            current_player: current_player,
            is_duet: is_duet,
        };
        proof {
            if !halted {
                assert(ld.skip(lines.deep_view().len() as int) =~= Seq::<Seq<char>>::empty());
            }
            assert(spec_run(ld, spec_init_state()) == Ok::<PState, Seq<char>>(fin));
        }
        let metadata = match builder.build() {
            Ok(m) => m,
            Err(e) => {
                return Err(e);
            },
        };
        let id = Self::generate_id(txt_path);
        let song = Song {
            id,
            metadata,
            notes: notes_p1,
            notes_p2: if is_duet && notes_p2.len() > 0 {
                Some(notes_p2)
            } else {
                None
            },
            line_breaks: breaks_p1,
            line_breaks_p2: if is_duet && breaks_p2.len() > 0 {
                Some(breaks_p2)
            } else {
                None
            },
            files: SongFiles {
                txt_path: String::from_str(txt_path),
                audio_path: None,
                video_path: None,
                cover_path: None,
                background_path: None,
            },
        };
        proof {
            assert(song@ == spec_assemble(fin, metadata@, txt_path@));
        }
        Ok(song)
    }
}

} // verus!
