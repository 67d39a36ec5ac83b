//! The chart validator: an independent full pass over the same line grammar
//! that never stops at the first problem, collecting every error and warning
//! with 1-indexed line numbers, plus format checks for referenced assets.
//!
//! Whether a referenced asset exists on disk is a fact the caller supplies;
//! everything else is computed and verified here.

use vstd::prelude::*;
use crate::classify::{classify, spec_classify, LineClass};
use crate::decimal::spec_parse_number;
use crate::num::{spec_parse_i32, spec_parse_u16, spec_u64_dec, u64_dec_chars};
use crate::text::{
    chars_to_string, concat_chars, message, spec_lines, spec_lower, spec_splitn_space,
    spec_split_ws, spec_trim, split_lines, splitn_space, split_ws, subvec, to_chars, trim,
};
use crate::paths::spec_extension;
use vstd::utf8::{decode_utf8, valid_utf8};

verus! {

/// The closed taxonomy of validation findings.
#[derive(Clone, Debug)]
pub enum ValidationErrorKind {
    InvalidUtf8,
    ContainsBom,
    MissingTitle,
    MissingArtist,
    MissingBpm,
    MissingAudio,
    InvalidBpm(String),
    InvalidGap(String),
    InvalidYear(String),
    InvalidNoteType(String),
    InvalidNoteFormat(String),
    InvalidLineBreak(String),
    AudioFileNotFound(String),
    VideoFileNotFound(String),
    CoverFileNotFound(String),
    BackgroundFileNotFound(String),
    UnsupportedAudioFormat(String),
    UnsupportedVideoFormat(String),
    UnsupportedImageFormat(String),
    NoNotes,
    NoEndMarker,
    EmptyFile,
}

pub ghost enum KindV {
    InvalidUtf8,
    ContainsBom,
    MissingTitle,
    MissingArtist,
    MissingBpm,
    MissingAudio,
    InvalidBpm(Seq<char>),
    InvalidGap(Seq<char>),
    InvalidYear(Seq<char>),
    InvalidNoteType(Seq<char>),
    InvalidNoteFormat(Seq<char>),
    InvalidLineBreak(Seq<char>),
    AudioFileNotFound(Seq<char>),
    VideoFileNotFound(Seq<char>),
    CoverFileNotFound(Seq<char>),
    BackgroundFileNotFound(Seq<char>),
    UnsupportedAudioFormat(Seq<char>),
    UnsupportedVideoFormat(Seq<char>),
    UnsupportedImageFormat(Seq<char>),
    NoNotes,
    NoEndMarker,
    EmptyFile,
}

impl View for ValidationErrorKind {
    type V = KindV;

    open spec fn view(&self) -> KindV {
        match self {
            ValidationErrorKind::InvalidUtf8 => KindV::InvalidUtf8,
            ValidationErrorKind::ContainsBom => KindV::ContainsBom,
            ValidationErrorKind::MissingTitle => KindV::MissingTitle,
            ValidationErrorKind::MissingArtist => KindV::MissingArtist,
            ValidationErrorKind::MissingBpm => KindV::MissingBpm,
            ValidationErrorKind::MissingAudio => KindV::MissingAudio,
            ValidationErrorKind::InvalidBpm(s) => KindV::InvalidBpm(s@),
            ValidationErrorKind::InvalidGap(s) => KindV::InvalidGap(s@),
            ValidationErrorKind::InvalidYear(s) => KindV::InvalidYear(s@),
            ValidationErrorKind::InvalidNoteType(s) => KindV::InvalidNoteType(s@),
            ValidationErrorKind::InvalidNoteFormat(s) => KindV::InvalidNoteFormat(s@),
            ValidationErrorKind::InvalidLineBreak(s) => KindV::InvalidLineBreak(s@),
            ValidationErrorKind::AudioFileNotFound(s) => KindV::AudioFileNotFound(s@),
            ValidationErrorKind::VideoFileNotFound(s) => KindV::VideoFileNotFound(s@),
            ValidationErrorKind::CoverFileNotFound(s) => KindV::CoverFileNotFound(s@),
            ValidationErrorKind::BackgroundFileNotFound(s) => KindV::BackgroundFileNotFound(s@),
            ValidationErrorKind::UnsupportedAudioFormat(s) => KindV::UnsupportedAudioFormat(s@),
            ValidationErrorKind::UnsupportedVideoFormat(s) => KindV::UnsupportedVideoFormat(s@),
            ValidationErrorKind::UnsupportedImageFormat(s) => KindV::UnsupportedImageFormat(s@),
            ValidationErrorKind::NoNotes => KindV::NoNotes,
            ValidationErrorKind::NoEndMarker => KindV::NoEndMarker,
            ValidationErrorKind::EmptyFile => KindV::EmptyFile,
        }
    }
}

impl DeepView for ValidationErrorKind {
    type V = KindV;

    open spec fn deep_view(&self) -> KindV {
        self@
    }
}

/// One validation finding, with the 1-indexed line it concerns (when it
/// concerns one line) and optional free-text context.
#[derive(Clone, Debug)]
pub struct ValidationError {
    pub kind: ValidationErrorKind,
    pub line: Option<usize>,
    pub context: Option<String>,
}

pub ghost struct ErrV {
    pub kind: KindV,
    pub line: Option<usize>,
    pub context: Option<Seq<char>>,
}

impl View for ValidationError {
    type V = ErrV;

    open spec fn view(&self) -> ErrV {
        ErrV { kind: self.kind@, line: self.line, context: self.context.deep_view() }
    }
}

impl DeepView for ValidationError {
    type V = ErrV;

    open spec fn deep_view(&self) -> ErrV {
        self@
    }
}

/// The outcome of validating one chart.
#[derive(Debug)]
pub struct ValidationResult {
    pub path: String,
    pub errors: Vec<ValidationError>,
    pub warnings: Vec<ValidationError>,
}

pub ghost struct VResultV {
    pub path: Seq<char>,
    pub errors: Seq<ErrV>,
    pub warnings: Seq<ErrV>,
}

impl View for ValidationResult {
    type V = VResultV;

    open spec fn view(&self) -> VResultV {
        VResultV {
            path: self.path@,
            errors: self.errors.deep_view(),
            warnings: self.warnings.deep_view(),
        }
    }
}

impl ValidationErrorKind {
    /// Equality of findings, payload text included.
    #[verifier::rlimit(50)]
    pub fn same_as(&self, other: &ValidationErrorKind) -> (r: bool)
        ensures
            r == (self@ == other@),
    {
        match (self, other) {
            (ValidationErrorKind::InvalidUtf8, ValidationErrorKind::InvalidUtf8) => true,
            (ValidationErrorKind::ContainsBom, ValidationErrorKind::ContainsBom) => true,
            (ValidationErrorKind::MissingTitle, ValidationErrorKind::MissingTitle) => true,
            (ValidationErrorKind::MissingArtist, ValidationErrorKind::MissingArtist) => true,
            (ValidationErrorKind::MissingBpm, ValidationErrorKind::MissingBpm) => true,
            (ValidationErrorKind::MissingAudio, ValidationErrorKind::MissingAudio) => true,
            (ValidationErrorKind::InvalidBpm(a), ValidationErrorKind::InvalidBpm(b)) => a.eq(b),
            (ValidationErrorKind::InvalidGap(a), ValidationErrorKind::InvalidGap(b)) => a.eq(b),
            (ValidationErrorKind::InvalidYear(a), ValidationErrorKind::InvalidYear(b)) => a.eq(b),
            (
                ValidationErrorKind::InvalidNoteType(a),
                ValidationErrorKind::InvalidNoteType(b),
            ) => a.eq(b),
            (
                ValidationErrorKind::InvalidNoteFormat(a),
                ValidationErrorKind::InvalidNoteFormat(b),
            ) => a.eq(b),
            (
                ValidationErrorKind::InvalidLineBreak(a),
                ValidationErrorKind::InvalidLineBreak(b),
            ) => a.eq(b),
            (
                ValidationErrorKind::AudioFileNotFound(a),
                ValidationErrorKind::AudioFileNotFound(b),
            ) => a.eq(b),
            (
                ValidationErrorKind::VideoFileNotFound(a),
                ValidationErrorKind::VideoFileNotFound(b),
            ) => a.eq(b),
            (
                ValidationErrorKind::CoverFileNotFound(a),
                ValidationErrorKind::CoverFileNotFound(b),
            ) => a.eq(b),
            (
                ValidationErrorKind::BackgroundFileNotFound(a),
                ValidationErrorKind::BackgroundFileNotFound(b),
            ) => a.eq(b),
            (
                ValidationErrorKind::UnsupportedAudioFormat(a),
                ValidationErrorKind::UnsupportedAudioFormat(b),
            ) => a.eq(b),
            (
                ValidationErrorKind::UnsupportedVideoFormat(a),
                ValidationErrorKind::UnsupportedVideoFormat(b),
            ) => a.eq(b),
            (
                ValidationErrorKind::UnsupportedImageFormat(a),
                ValidationErrorKind::UnsupportedImageFormat(b),
            ) => a.eq(b),
            (ValidationErrorKind::NoNotes, ValidationErrorKind::NoNotes) => true,
            (ValidationErrorKind::NoEndMarker, ValidationErrorKind::NoEndMarker) => true,
            (ValidationErrorKind::EmptyFile, ValidationErrorKind::EmptyFile) => true,
            _ => false,
        }
    }
}

impl ValidationError {
    /// Equality of findings with their line numbers and context.
    pub fn same_as(&self, other: &ValidationError) -> (r: bool)
        ensures
            r == (self@ == other@),
    {
        let kinds = self.kind.same_as(&other.kind);
        let lines = match (self.line, other.line) {
            (None, None) => true,
            (Some(a), Some(b)) => a == b,
            _ => false,
        };
        let contexts = match (&self.context, &other.context) {
            (None, None) => true,
            (Some(a), Some(b)) => a.eq(b),
            _ => false,
        };
        kinds && lines && contexts
    }
}

fn findings_same(a: &Vec<ValidationError>, b: &Vec<ValidationError>) -> (r: bool)
    ensures
        r == (a.deep_view() == b.deep_view()),
{
    if a.len() != b.len() {
        proof {
            assert(a.deep_view().len() != b.deep_view().len());
        }
        return false;
    }
    let mut i: usize = 0;
    while i < a.len()
        invariant
            i <= a.len(),
            a@.len() == b@.len(),
            forall|j: int| 0 <= j < i ==> a.deep_view()[j] == b.deep_view()[j],
        decreases a.len() - i,
    {
        if !a[i].same_as(&b[i]) {
            proof {
                assert(a.deep_view()[i as int] != b.deep_view()[i as int]);
            }
            return false;
        }
        i += 1;
    }
    proof {
        assert(a.deep_view() =~= b.deep_view());
    }
    true
}

impl ValidationResult {
    /// A chart is usable exactly when it has no errors; warnings never
    /// block it.
    pub fn is_valid(&self) -> (r: bool)
        ensures
            r == (self@.errors.len() == 0),
    {
        self.errors.len() == 0
    }

    /// Equality of whole results: path, every finding, line numbers and
    /// ordering included.
    pub fn same_as(&self, other: &ValidationResult) -> (r: bool)
        ensures
            r == (self@ == other@),
    {
        self.path == other.path && findings_same(&self.errors, &other.errors) && findings_same(
            &self.warnings,
            &other.warnings,
        )
    }
}

/// Audio formats a chart may reference.  Deliberately broader than pure
/// audio: charts frequently point the audio tag at a video container.
pub open spec fn spec_is_audio_ext(e: Seq<char>) -> bool {
    e == "mp3"@ || e == "ogg"@ || e == "wav"@ || e == "m4a"@ || e == "flac"@ || e == "opus"@
        || e == "mp4"@ || e == "avi"@ || e == "mkv"@ || e == "webm"@ || e == "mov"@
}

pub open spec fn spec_is_video_ext(e: Seq<char>) -> bool {
    e == "mp4"@ || e == "avi"@ || e == "mkv"@ || e == "webm"@ || e == "mov"@
}

pub open spec fn spec_is_image_ext(e: Seq<char>) -> bool {
    e == "jpg"@ || e == "jpeg"@ || e == "png"@ || e == "gif"@ || e == "webp"@
}

fn is_audio_ext(e: &Vec<char>) -> (r: bool)
    ensures
        r == spec_is_audio_ext(e@),
{
    crate::text::eq_str(e, "mp3") || crate::text::eq_str(e, "ogg") || crate::text::eq_str(
        e,
        "wav",
    ) || crate::text::eq_str(e, "m4a") || crate::text::eq_str(e, "flac") || crate::text::eq_str(
        e,
        "opus",
    ) || crate::text::eq_str(e, "mp4") || crate::text::eq_str(e, "avi") || crate::text::eq_str(
        e,
        "mkv",
    ) || crate::text::eq_str(e, "webm") || crate::text::eq_str(e, "mov")
}

fn is_video_ext(e: &Vec<char>) -> (r: bool)
    ensures
        r == spec_is_video_ext(e@),
{
    crate::text::eq_str(e, "mp4") || crate::text::eq_str(e, "avi") || crate::text::eq_str(
        e,
        "mkv",
    ) || crate::text::eq_str(e, "webm") || crate::text::eq_str(e, "mov")
}

fn is_image_ext(e: &Vec<char>) -> (r: bool)
    ensures
        r == spec_is_image_ext(e@),
{
    crate::text::eq_str(e, "jpg") || crate::text::eq_str(e, "jpeg") || crate::text::eq_str(
        e,
        "png",
    ) || crate::text::eq_str(e, "gif") || crate::text::eq_str(e, "webp")
}

/// Findings about a referenced audio file: not-found when it is absent,
/// otherwise a format error when its extension is present and off the
/// audio whitelist.
pub open spec fn spec_audio_errs(filename: Seq<char>, exists: bool) -> Seq<ErrV> {
    if !exists {
        seq![
            (ErrV { kind: KindV::AudioFileNotFound(filename), line: None, context: None }),
        ]
    } else {
        match spec_extension(filename) {
            Some(e) => if spec_is_audio_ext(spec_lower(e)) {
                Seq::empty()
            } else {
                seq![
                    (ErrV {
                        kind: KindV::UnsupportedAudioFormat(e),
                        line: None,
                        context: Some(filename),
                    }),
                ]
            },
            None => Seq::empty(),
        }
    }
}

pub open spec fn spec_video_errs(filename: Seq<char>, exists: bool) -> Seq<ErrV> {
    if !exists {
        seq![
            (ErrV { kind: KindV::VideoFileNotFound(filename), line: None, context: None }),
        ]
    } else {
        match spec_extension(filename) {
            Some(e) => if spec_is_video_ext(spec_lower(e)) {
                Seq::empty()
            } else {
                seq![
                    (ErrV {
                        kind: KindV::UnsupportedVideoFormat(e),
                        line: None,
                        context: Some(filename),
                    }),
                ]
            },
            None => Seq::empty(),
        }
    }
}

/// Image findings; `background` selects the not-found kind (cover is the
/// fallback for any other label, as for the cover itself).
pub open spec fn spec_image_errs(filename: Seq<char>, file_type: Seq<char>, exists: bool) -> Seq<
    ErrV,
> {
    if !exists {
        if file_type == "background"@ {
            seq![
                (ErrV {
                    kind: KindV::BackgroundFileNotFound(filename),
                    line: None,
                    context: None,
                }),
            ]
        } else {
            seq![
                (ErrV { kind: KindV::CoverFileNotFound(filename), line: None, context: None }),
            ]
        }
    } else {
        match spec_extension(filename) {
            Some(e) => if spec_is_image_ext(spec_lower(e)) {
                Seq::empty()
            } else {
                seq![
                    (ErrV {
                        kind: KindV::UnsupportedImageFormat(e),
                        line: None,
                        context: Some(filename),
                    }),
                ]
            },
            None => Seq::empty(),
        }
    }
}

/// Findings about one note line (already trimmed): field count, then
/// integer validity of start beat, length and pitch.
pub open spec fn spec_note_errs(line: Seq<char>, ln: int) -> Seq<ErrV> {
    let rest = spec_trim(line.drop_first());
    let parts = spec_splitn_space(rest, 4);
    if parts.len() < 4 {
        seq![
            (ErrV {
                kind: KindV::InvalidNoteFormat(
                    "Note needs 4 parts (start, length, pitch, text), got "@ + spec_u64_dec(
                        parts.len() as int,
                    ),
                ),
                line: Some(ln as usize),
                context: Some(line),
            }),
        ]
    } else {
        (if spec_parse_i32(parts[0]) is None {
            seq![
                (ErrV {
                    kind: KindV::InvalidNoteFormat("Invalid start beat: "@ + parts[0]),
                    line: Some(ln as usize),
                    context: None,
                }),
            ]
        } else {
            Seq::empty()
        }) + (if spec_parse_i32(parts[1]) is None {
            seq![
                (ErrV {
                    kind: KindV::InvalidNoteFormat("Invalid note length: "@ + parts[1]),
                    line: Some(ln as usize),
                    context: None,
                }),
            ]
        } else {
            Seq::empty()
        }) + (if spec_parse_i32(parts[2]) is None {
            seq![
                (ErrV {
                    kind: KindV::InvalidNoteFormat("Invalid pitch: "@ + parts[2]),
                    line: Some(ln as usize),
                    context: None,
                }),
            ]
        } else {
            Seq::empty()
        })
    }
}

/// Findings about one line-break line (already trimmed).
pub open spec fn spec_break_errs(line: Seq<char>, ln: int) -> Seq<ErrV> {
    let rest = spec_trim(line.drop_first());
    let parts = spec_split_ws(rest);
    if parts.len() == 0 {
        seq![
            (ErrV {
                kind: KindV::InvalidLineBreak("Line break needs at least a start beat"@),
                line: Some(ln as usize),
                context: Some(line),
            }),
        ]
    } else {
        (if spec_parse_i32(parts[0]) is None {
            seq![
                (ErrV {
                    kind: KindV::InvalidLineBreak("Invalid start beat: "@ + parts[0]),
                    line: Some(ln as usize),
                    context: None,
                }),
            ]
        } else {
            Seq::empty()
        }) + (if parts.len() > 1 && spec_parse_i32(parts[1]) is None {
            seq![
                (ErrV {
                    kind: KindV::InvalidLineBreak("Invalid end beat: "@ + parts[1]),
                    line: Some(ln as usize),
                    context: None,
                }),
            ]
        } else {
            Seq::empty()
        })
    }
}

/// The running state of the collecting scan.
pub ghost struct VState {
    pub has_title: bool,
    pub has_artist: bool,
    pub has_bpm: bool,
    pub audio_file: Option<Seq<char>>,
    pub video_file: Option<Seq<char>>,
    pub cover_file: Option<Seq<char>>,
    pub background_file: Option<Seq<char>>,
    pub has_notes: bool,
    pub has_end: bool,
    pub errors: Seq<ErrV>,
    pub warnings: Seq<ErrV>,
}

pub open spec fn spec_init_vstate(warnings: Seq<ErrV>) -> VState {
    VState {
        has_title: false,
        has_artist: false,
        has_bpm: false,
        audio_file: None,
        video_file: None,
        cover_file: None,
        background_file: None,
        has_notes: false,
        has_end: false,
        errors: Seq::empty(),
        warnings: warnings,
    }
}

/// What one header line does to the scan: required tags are flagged as
/// seen and checked non-empty, BPM and GAP must be numeric, YEAR only
/// warns, asset tags record their filename, unknown tags are fine.
pub open spec fn spec_header_step(st: VState, tag: Seq<char>, value: Seq<char>, ln: int) -> VState {
    if tag == "TITLE"@ {
        VState {
            has_title: true,
            errors: st.errors + (if value.len() == 0 {
                seq![
                    (ErrV {
                        kind: KindV::MissingTitle,
                        line: Some(ln as usize),
                        context: Some("TITLE tag is empty"@),
                    }),
                ]
            } else {
                Seq::empty()
            }),
            ..st
        }
    } else if tag == "ARTIST"@ {
        VState {
            has_artist: true,
            errors: st.errors + (if value.len() == 0 {
                seq![
                    (ErrV {
                        kind: KindV::MissingArtist,
                        line: Some(ln as usize),
                        context: Some("ARTIST tag is empty"@),
                    }),
                ]
            } else {
                Seq::empty()
            }),
            ..st
        }
    } else if tag == "BPM"@ {
        VState {
            has_bpm: true,
            errors: st.errors + (if spec_parse_number(value) is None {
                seq![
                    (ErrV {
                        kind: KindV::InvalidBpm(value),
                        line: Some(ln as usize),
                        context: None,
                    }),
                ]
            } else {
                Seq::empty()
            }),
            ..st
        }
    } else if tag == "GAP"@ {
        VState {
            errors: st.errors + (if spec_parse_number(value) is None && value.len() > 0 {
                seq![
                    (ErrV {
                        kind: KindV::InvalidGap(value),
                        line: Some(ln as usize),
                        context: None,
                    }),
                ]
            } else {
                Seq::empty()
            }),
            ..st
        }
    } else if tag == "YEAR"@ {
        VState {
            warnings: st.warnings + (if value.len() > 0 && spec_parse_u16(value) is None {
                seq![
                    (ErrV {
                        kind: KindV::InvalidYear(value),
                        line: Some(ln as usize),
                        context: None,
                    }),
                ]
            } else {
                Seq::empty()
            }),
            ..st
        }
    } else if tag == "MP3"@ || tag == "AUDIO"@ {
        VState { audio_file: Some(value), ..st }
    } else if tag == "VIDEO"@ {
        VState { video_file: Some(value), ..st }
    } else if tag == "COVER"@ {
        VState { cover_file: Some(value), ..st }
    } else if tag == "BACKGROUND"@ {
        VState { background_file: Some(value), ..st }
    } else {
        st
    }
}

/// The warning for a line that matches no shape, its text truncated to 50
/// characters.
pub open spec fn spec_unknown_warning(line: Seq<char>, ln: int) -> ErrV {
    ErrV {
        kind: KindV::InvalidNoteFormat(
            "Unknown line type: "@ + line.take(if line.len() < 50 {
                line.len() as int
            } else {
                50
            }),
        ),
        line: Some(ln as usize),
        context: None,
    }
}

/// One scan transition on a raw line.  Nothing stops the scan: every line
/// contributes its findings and the walk goes on.
pub open spec fn spec_vstep(raw: Seq<char>, ln: int, st: VState) -> VState {
    let line = spec_trim(raw);
    if line.len() == 0 {
        st
    } else {
        match spec_classify(line) {
            LineClass::Header => spec_header_step(
                st,
                crate::parser::spec_header_tag(line),
                crate::parser::spec_header_value(line),
                ln,
            ),
            LineClass::NoteMark(_) => VState {
                has_notes: true,
                errors: st.errors + spec_note_errs(line, ln),
                ..st
            },
            LineClass::BreakMark => VState { errors: st.errors + spec_break_errs(line, ln), ..st },
            LineClass::EndMark => VState { has_end: true, ..st },
            LineClass::PlayerMark => st,
            LineClass::Unknown => VState {
                warnings: st.warnings.push(spec_unknown_warning(line, ln)),
                ..st
            },
        }
    }
}

/// Run the scan over the remaining lines, `ln` the 1-indexed number of the
/// first of them.
pub open spec fn spec_vrun(lines: Seq<Seq<char>>, ln: int, st: VState) -> VState
    decreases lines.len(),
{
    if lines.len() == 0 {
        st
    } else {
        spec_vrun(lines.drop_first(), ln + 1, spec_vstep(lines[0], ln, st))
    }
}

/// The file-level findings after the scan: required tags never seen, no
/// audio reference, no notes, and (as a warning) no end marker.
pub open spec fn spec_aggregate(st: VState) -> VState {
    VState {
        errors: st.errors + (if !st.has_title {
            seq![(ErrV { kind: KindV::MissingTitle, line: None, context: None })]
        } else {
            Seq::empty()
        }) + (if !st.has_artist {
            seq![(ErrV { kind: KindV::MissingArtist, line: None, context: None })]
        } else {
            Seq::empty()
        }) + (if !st.has_bpm {
            seq![(ErrV { kind: KindV::MissingBpm, line: None, context: None })]
        } else {
            Seq::empty()
        }) + (if st.audio_file is None {
            seq![(ErrV { kind: KindV::MissingAudio, line: None, context: None })]
        } else {
            Seq::empty()
        }) + (if !st.has_notes {
            seq![(ErrV { kind: KindV::NoNotes, line: None, context: None })]
        } else {
            Seq::empty()
        }),
        warnings: st.warnings + (if !st.has_end {
            seq![(ErrV { kind: KindV::NoEndMarker, line: None, context: None })]
        } else {
            Seq::empty()
        }),
        ..st
    }
}

/// The asset filenames a chart references, as the scan saw them; the
/// caller resolves them against the chart's directory.
#[derive(Clone, Debug)]
pub struct AssetRefs {
    pub audio_file: Option<String>,
    pub video_file: Option<String>,
    pub cover_file: Option<String>,
    pub background_file: Option<String>,
}

pub ghost struct AssetRefsV {
    pub audio_file: Option<Seq<char>>,
    pub video_file: Option<Seq<char>>,
    pub cover_file: Option<Seq<char>>,
    pub background_file: Option<Seq<char>>,
}

impl View for AssetRefs {
    type V = AssetRefsV;

    open spec fn view(&self) -> AssetRefsV {
        AssetRefsV {
            audio_file: self.audio_file.deep_view(),
            video_file: self.video_file.deep_view(),
            cover_file: self.cover_file.deep_view(),
            background_file: self.background_file.deep_view(),
        }
    }
}

pub open spec fn spec_no_refs() -> AssetRefsV {
    AssetRefsV { audio_file: None, video_file: None, cover_file: None, background_file: None }
}

/// What validating the bytes of a chart yields: a byte-order-mark warning,
/// then a fatal finding for non-UTF-8 or all-whitespace content, else the
/// full per-line scan with its file-level aggregates, along with the asset
/// references found.
pub open spec fn spec_validate_content(path: Seq<char>, bytes: Seq<u8>) -> (VResultV, AssetRefsV) {
    let bom = bytes.len() >= 3 && bytes[0] == 0xef && bytes[1] == 0xbb && bytes[2] == 0xbf;
    let w0: Seq<ErrV> = if bom {
        seq![(ErrV { kind: KindV::ContainsBom, line: None, context: None })]
    } else {
        Seq::empty()
    };
    if !valid_utf8(bytes) {
        (
            VResultV {
                path: path,
                errors: seq![
                    (ErrV {
                        kind: KindV::InvalidUtf8,
                        line: None,
                        context: Some("File is not valid UTF-8 encoding"@),
                    }),
                ],
                warnings: w0,
            },
            spec_no_refs(),
        )
    } else {
        let content = decode_utf8(bytes);
        if spec_trim(content).len() == 0 {
            (
                VResultV {
                    path: path,
                    errors: seq![(ErrV { kind: KindV::EmptyFile, line: None, context: None })],
                    warnings: w0,
                },
                spec_no_refs(),
            )
        } else {
            let st = spec_aggregate(spec_vrun(spec_lines(content), 1, spec_init_vstate(w0)));
            (
                VResultV { path: path, errors: st.errors, warnings: st.warnings },
                AssetRefsV {
                    audio_file: st.audio_file,
                    video_file: st.video_file,
                    cover_file: st.cover_file,
                    background_file: st.background_file,
                },
            )
        }
    }
}

/// Validates chart text and referenced assets.
pub struct Validator;

impl Validator {
    /// Check a referenced audio file, `exists` saying whether it is present
    /// in the chart's directory.
    pub fn validate_audio_file(filename: &str, exists: bool, errors: &mut Vec<ValidationError>)
        ensures
            final(errors).deep_view() == old(errors).deep_view() + spec_audio_errs(
                filename@,
                exists,
            ),
    {
        let chars = to_chars(filename);
        let ghost old_dv = errors.deep_view();
        if !exists {
            errors.push(
                ValidationError {
                    kind: ValidationErrorKind::AudioFileNotFound(String::from_str(filename)),
                    line: None,
                    context: None,
                },
            );
            proof {
                assert(errors.deep_view() =~= old_dv + spec_audio_errs(filename@, exists));
            }
            return ;
        }
        match crate::paths::extension_of(&chars) {
            Some(ext) => {
                let low = crate::text::lower(&ext);
                if !is_audio_ext(&low) {
                    errors.push(
                        ValidationError {
                            kind: ValidationErrorKind::UnsupportedAudioFormat(
                                chars_to_string(&ext),
                            ),
                            line: None,
                            context: Some(String::from_str(filename)),
                        },
                    );
                    proof {
                        assert(errors.deep_view() =~= old_dv + spec_audio_errs(
                            filename@,
                            exists,
                        ));
                    }
                } else {
                    proof {
                        assert(errors.deep_view() =~= old_dv + spec_audio_errs(
                            filename@,
                            exists,
                        ));
                    }
                }
            },
            None => {
                proof {
                    assert(errors.deep_view() =~= old_dv + spec_audio_errs(filename@, exists));
                }
            },
        }
    }

    /// Check a referenced video file against the video whitelist.
    pub fn validate_video_file(filename: &str, exists: bool, errors: &mut Vec<ValidationError>)
        ensures
            final(errors).deep_view() == old(errors).deep_view() + spec_video_errs(
                filename@,
                exists,
            ),
    {
        let chars = to_chars(filename);
        let ghost old_dv = errors.deep_view();
        if !exists {
            errors.push(
                ValidationError {
                    kind: ValidationErrorKind::VideoFileNotFound(String::from_str(filename)),
                    line: None,
                    context: None,
                },
            );
            proof {
                assert(errors.deep_view() =~= old_dv + spec_video_errs(filename@, exists));
            }
            return ;
        }
        match crate::paths::extension_of(&chars) {
            Some(ext) => {
                let low = crate::text::lower(&ext);
                if !is_video_ext(&low) {
                    errors.push(
                        ValidationError {
                            kind: ValidationErrorKind::UnsupportedVideoFormat(
                                chars_to_string(&ext),
                            ),
                            line: None,
                            context: Some(String::from_str(filename)),
                        },
                    );
                    proof {
                        assert(errors.deep_view() =~= old_dv + spec_video_errs(
                            filename@,
                            exists,
                        ));
                    }
                } else {
                    proof {
                        assert(errors.deep_view() =~= old_dv + spec_video_errs(
                            filename@,
                            exists,
                        ));
                    }
                }
            },
            None => {
                proof {
                    assert(errors.deep_view() =~= old_dv + spec_video_errs(filename@, exists));
                }
            },
        }
    }

    /// Check a referenced image file (cover or background) against the
    /// image whitelist.
    pub fn validate_image_file(
        filename: &str,
        file_type: &str,
        exists: bool,
        errors: &mut Vec<ValidationError>,
    )
        ensures
            final(errors).deep_view() == old(errors).deep_view() + spec_image_errs(
                filename@,
                file_type@,
                exists,
            ),
    {
        let chars = to_chars(filename);
        let ghost old_dv = errors.deep_view();
        if !exists {
            let ft = to_chars(file_type);
            let kind = if crate::text::eq_str(&ft, "background") {
                ValidationErrorKind::BackgroundFileNotFound(String::from_str(filename))
            } else {
                ValidationErrorKind::CoverFileNotFound(String::from_str(filename))
            };
            errors.push(ValidationError { kind, line: None, context: None });
            proof {
                assert(errors.deep_view() =~= old_dv + spec_image_errs(
                    filename@,
                    file_type@,
                    exists,
                ));
            }
            return ;
        }
        match crate::paths::extension_of(&chars) {
            Some(ext) => {
                let low = crate::text::lower(&ext);
                if !is_image_ext(&low) {
                    errors.push(
                        ValidationError {
                            kind: ValidationErrorKind::UnsupportedImageFormat(
                                chars_to_string(&ext),
                            ),
                            line: None,
                            context: Some(String::from_str(filename)),
                        },
                    );
                    proof {
                        assert(errors.deep_view() =~= old_dv + spec_image_errs(
                            filename@,
                            file_type@,
                            exists,
                        ));
                    }
                } else {
                    proof {
                        assert(errors.deep_view() =~= old_dv + spec_image_errs(
                            filename@,
                            file_type@,
                            exists,
                        ));
                    }
                }
            },
            None => {
                proof {
                    assert(errors.deep_view() =~= old_dv + spec_image_errs(
                        filename@,
                        file_type@,
                        exists,
                    ));
                }
            },
        }
    }

    fn validate_note_chars(line: &Vec<char>, line_num: usize, errors: &mut Vec<ValidationError>)
        requires
            line@.len() > 0,
        ensures
            final(errors).deep_view() == old(errors).deep_view() + spec_note_errs(
                line@,
                line_num as int,
            ),
    {
        let ghost old_dv = errors.deep_view();
        let rest0 = subvec(line, 1, line.len());
        proof {
            assert(rest0@ =~= line@.drop_first());
        }
        let rest = trim(&rest0);
        let parts = splitn_space(&rest, 4);
        proof {
            assert(parts.deep_view() == spec_splitn_space(spec_trim(line@.drop_first()), 4));
        }
        if parts.len() < 4 {
            let prefix = to_chars("Note needs 4 parts (start, length, pitch, text), got ");
            let count = u64_dec_chars(parts.len() as u64);
            let msg = chars_to_string(&concat_chars(&prefix, &count));
            errors.push(
                ValidationError {
                    kind: ValidationErrorKind::InvalidNoteFormat(msg),
                    line: Some(line_num),
                    context: Some(chars_to_string(line)),
                },
            );
            proof {
                assert(errors.deep_view() =~= old_dv + spec_note_errs(line@, line_num as int));
            }
            return ;
        }
        proof {
            assert(parts.deep_view()[0] == parts@[0]@);
            assert(parts.deep_view()[1] == parts@[1]@);
            assert(parts.deep_view()[2] == parts@[2]@);
        }
        let ghost parts_v = parts.deep_view();
        let ghost e0: Seq<ErrV> = if spec_parse_i32(parts_v[0]) is None {
            seq![
                (ErrV {
                    kind: KindV::InvalidNoteFormat("Invalid start beat: "@ + parts_v[0]),
                    line: Some(line_num),
                    context: None,
                }),
            ]
        } else {
            Seq::empty()
        };
        let ghost e1: Seq<ErrV> = if spec_parse_i32(parts_v[1]) is None {
            seq![
                (ErrV {
                    kind: KindV::InvalidNoteFormat("Invalid note length: "@ + parts_v[1]),
                    line: Some(line_num),
                    context: None,
                }),
            ]
        } else {
            Seq::empty()
        };
        let ghost e2: Seq<ErrV> = if spec_parse_i32(parts_v[2]) is None {
            seq![
                (ErrV {
                    kind: KindV::InvalidNoteFormat("Invalid pitch: "@ + parts_v[2]),
                    line: Some(line_num),
                    context: None,
                }),
            ]
        } else {
            Seq::empty()
        };
        if crate::num::parse_i32(&parts[0]).is_none() {
            errors.push(
                ValidationError {
                    kind: ValidationErrorKind::InvalidNoteFormat(
                        message("Invalid start beat: ", &parts[0]),
                    ),
                    line: Some(line_num),
                    context: None,
                },
            );
        }
        proof {
            assert(errors.deep_view() =~= old_dv + e0);
        }
        if crate::num::parse_i32(&parts[1]).is_none() {
            errors.push(
                ValidationError {
                    kind: ValidationErrorKind::InvalidNoteFormat(
                        message("Invalid note length: ", &parts[1]),
                    ),
                    line: Some(line_num),
                    context: None,
                },
            );
        }
        proof {
            assert(errors.deep_view() =~= old_dv + e0 + e1);
        }
        if crate::num::parse_i32(&parts[2]).is_none() {
            errors.push(
                ValidationError {
                    kind: ValidationErrorKind::InvalidNoteFormat(
                        message("Invalid pitch: ", &parts[2]),
                    ),
                    line: Some(line_num),
                    context: None,
                },
            );
        }
        proof {
            assert(errors.deep_view() =~= old_dv + e0 + e1 + e2);
            assert(spec_note_errs(line@, line_num as int) =~= e0 + e1 + e2);
            assert(errors.deep_view() =~= old_dv + spec_note_errs(line@, line_num as int));
        }
    }

    /// Check one note line, appending its findings.
    pub fn validate_note_line(line: &str, line_num: usize, errors: &mut Vec<ValidationError>)
        requires
            line@.len() > 0,
        ensures
            final(errors).deep_view() == old(errors).deep_view() + spec_note_errs(
                line@,
                line_num as int,
            ),
    {
        let chars = to_chars(line);
        Self::validate_note_chars(&chars, line_num, errors)
    }

    fn validate_break_chars(line: &Vec<char>, line_num: usize, errors: &mut Vec<ValidationError>)
        requires
            line@.len() > 0,
        ensures
            final(errors).deep_view() == old(errors).deep_view() + spec_break_errs(
                line@,
                line_num as int,
            ),
    {
        let ghost old_dv = errors.deep_view();
        let rest0 = subvec(line, 1, line.len());
        proof {
            assert(rest0@ =~= line@.drop_first());
        }
        let rest = trim(&rest0);
        let parts = split_ws(&rest);
        proof {
            assert(parts.deep_view() == spec_split_ws(spec_trim(line@.drop_first())));
        }
        if parts.len() == 0 {
            errors.push(
                ValidationError {
                    kind: ValidationErrorKind::InvalidLineBreak(
                        String::from_str("Line break needs at least a start beat"),
                    ),
                    line: Some(line_num),
                    context: Some(chars_to_string(line)),
                },
            );
            proof {
                assert(errors.deep_view() =~= old_dv + spec_break_errs(line@, line_num as int));
            }
            return ;
        }
        proof {
            assert(parts.deep_view()[0] == parts@[0]@);
            if parts.deep_view().len() > 1 {
                assert(parts.deep_view()[1] == parts@[1]@);
            }
        }
        let ghost parts_v = parts.deep_view();
        let ghost e0: Seq<ErrV> = if spec_parse_i32(parts_v[0]) is None {
            seq![
                (ErrV {
                    kind: KindV::InvalidLineBreak("Invalid start beat: "@ + parts_v[0]),
                    line: Some(line_num),
                    context: None,
                }),
            ]
        } else {
            Seq::empty()
        };
        let ghost e1: Seq<ErrV> = if parts_v.len() > 1 && spec_parse_i32(parts_v[1]) is None {
            seq![
                (ErrV {
                    kind: KindV::InvalidLineBreak("Invalid end beat: "@ + parts_v[1]),
                    line: Some(line_num),
                    context: None,
                }),
            ]
        } else {
            Seq::empty()
        };
        if crate::num::parse_i32(&parts[0]).is_none() {
            errors.push(
                ValidationError {
                    kind: ValidationErrorKind::InvalidLineBreak(
                        message("Invalid start beat: ", &parts[0]),
                    ),
                    line: Some(line_num),
                    context: None,
                },
            );
        }
        proof {
            assert(errors.deep_view() =~= old_dv + e0);
        }
        if parts.len() > 1 {
            if crate::num::parse_i32(&parts[1]).is_none() {
                errors.push(
                    ValidationError {
                        kind: ValidationErrorKind::InvalidLineBreak(
                            message("Invalid end beat: ", &parts[1]),
                        ),
                        line: Some(line_num),
                        context: None,
                    },
                );
            }
        }
        proof {
            assert(errors.deep_view() =~= old_dv + e0 + e1);
            assert(spec_break_errs(line@, line_num as int) =~= e0 + e1);
            assert(errors.deep_view() =~= old_dv + spec_break_errs(line@, line_num as int));
        }
    }

    /// Check one line-break line, appending its findings.
    pub fn validate_line_break(line: &str, line_num: usize, errors: &mut Vec<ValidationError>)
        requires
            line@.len() > 0,
        ensures
            final(errors).deep_view() == old(errors).deep_view() + spec_break_errs(
                line@,
                line_num as int,
            ),
    {
        let chars = to_chars(line);
        Self::validate_break_chars(&chars, line_num, errors)
    }

    /// Validate a chart's raw bytes: encoding, per-line grammar, and
    /// file-level structure.  Returns the findings and the asset filenames
    /// the chart references, whose existence and formats the caller checks
    /// with the asset validators above.
    pub fn validate_content(txt_path: &str, bytes: &Vec<u8>) -> (r: (ValidationResult, AssetRefs))
        ensures
            (r.0@, r.1@) == spec_validate_content(txt_path@, bytes@),
    {
        let path = String::from_str(txt_path);
        let mut warnings: Vec<ValidationError> = Vec::new();
        if bytes.len() >= 3 && bytes[0] == 0xef && bytes[1] == 0xbb && bytes[2] == 0xbf {
            warnings.push(
                ValidationError { kind: ValidationErrorKind::ContainsBom, line: None, context: None },
            );
        }
        let ghost w0 = warnings.deep_view();
        proof {
            if bytes@.len() >= 3 && bytes@[0] == 0xef && bytes@[1] == 0xbb && bytes@[2] == 0xbf {
                assert(w0 =~= seq![
                    (ErrV { kind: KindV::ContainsBom, line: None, context: None }),
                ]);
            } else {
                assert(w0 =~= Seq::<ErrV>::empty());
            }
        }
        let no_refs = || -> (r: AssetRefs)
            ensures
                r@ == spec_no_refs(),
            {
                AssetRefs {
                    audio_file: None,
                    video_file: None,
                    cover_file: None,
                    background_file: None,
                }
            };
        let decoded = match crate::text::utf8_to_string(bytes) {
            Some(s) => s,
            None => {
                let mut errors: Vec<ValidationError> = Vec::new();
                errors.push(
                    ValidationError {
                        kind: ValidationErrorKind::InvalidUtf8,
                        line: None,
                        context: Some(String::from_str("File is not valid UTF-8 encoding")),
                    },
                );
                let out = (ValidationResult { path, errors, warnings }, no_refs());
                proof {
                    assert(out.0@.errors =~= spec_validate_content(txt_path@, bytes@).0.errors);
                    assert(out.0@.warnings =~= spec_validate_content(
                        txt_path@,
                        bytes@,
                    ).0.warnings);
                }
                return out;
            },
        };
        let content = to_chars(decoded.as_str());
        let trimmed = trim(&content);
        if trimmed.len() == 0 {
            let mut errors: Vec<ValidationError> = Vec::new();
            errors.push(
                ValidationError {
                    kind: ValidationErrorKind::EmptyFile,
                    line: None,
                    context: None,
                },
            );
            let out = (ValidationResult { path, errors, warnings }, no_refs());
            proof {
                assert(out.0@.errors =~= spec_validate_content(txt_path@, bytes@).0.errors);
                assert(out.0@.warnings =~= spec_validate_content(txt_path@, bytes@).0.warnings);
            }
            return out;
        }
        let lines = split_lines(&content);
        let ghost ld = lines.deep_view();
        let mut scan = VScan::new(warnings);
        let mut i: usize = 0;
        proof {
            assert(ld.skip(0) =~= ld);
        }
        while i < lines.len()
            invariant
                i <= lines.len(),
                ld == lines.deep_view(),
                spec_vrun(ld, 1, spec_init_vstate(w0)) == spec_vrun(
                    ld.skip(i as int),
                    i + 1,
                    scan@,
                ),
            decreases lines.len() - i,
        {
            proof {
                assert(ld.skip(i as int)[0] == ld[i as int]);
                assert(ld.skip(i as int).drop_first() =~= ld.skip(i as int + 1));
                assert(lines@[i as int].deep_view() =~= lines@[i as int]@);
            }
            scan.step(&lines[i], i + 1);
            i += 1;
        }
        proof {
            assert(ld.skip(ld.len() as int) =~= Seq::<Seq<char>>::empty());
            assert(scan@ == spec_vrun(ld, 1, spec_init_vstate(w0)));
        }
        let out = scan.finish(path);
        proof {
            let sv = spec_validate_content(txt_path@, bytes@);
            assert(out.0@ == sv.0);
            assert(out.1@ == sv.1);
        }
        out
    }
}

/// The executable counterpart of `VState`: the collecting scan.
struct VScan {
    has_title: bool,
    has_artist: bool,
    has_bpm: bool,
    audio_file: Option<String>,
    video_file: Option<String>,
    cover_file: Option<String>,
    background_file: Option<String>,
    has_notes: bool,
    has_end: bool,
    errors: Vec<ValidationError>,
    warnings: Vec<ValidationError>,
}

impl View for VScan {
    type V = VState;

    closed spec fn view(&self) -> VState {
        VState {
            has_title: self.has_title,
            has_artist: self.has_artist,
            has_bpm: self.has_bpm,
            audio_file: self.audio_file.deep_view(),
            video_file: self.video_file.deep_view(),
            cover_file: self.cover_file.deep_view(),
            background_file: self.background_file.deep_view(),
            has_notes: self.has_notes,
            has_end: self.has_end,
            errors: self.errors.deep_view(),
            warnings: self.warnings.deep_view(),
        }
    }
}

impl VScan {
    fn new(warnings: Vec<ValidationError>) -> (r: VScan)
        ensures
            r@ == spec_init_vstate(warnings.deep_view()),
    {
        let r = VScan {
            has_title: false,
            has_artist: false,
            has_bpm: false,
            audio_file: None,
            video_file: None,
            cover_file: None,
            background_file: None,
            has_notes: false,
            has_end: false,
            errors: Vec::new(),
            warnings,
        };
        proof {
            assert(r@.errors =~= Seq::<ErrV>::empty());
        }
        r
    }

    fn step_header(&mut self, line: &Vec<char>, line_num: usize)
        requires
            line@.len() > 0,
        ensures
            final(self)@ == spec_header_step(
                old(self)@,
                crate::parser::spec_header_tag(line@),
                crate::parser::spec_header_value(line@),
                line_num as int,
            ),
    {
        let (tag, value) = crate::parser::header_parts(line);
        let ghost old_errs = self.errors.deep_view();
        let ghost old_warns = self.warnings.deep_view();
        if crate::text::eq_str(&tag, "TITLE") {
            self.has_title = true;
            if value.len() == 0 {
                self.errors.push(
                    ValidationError {
                        kind: ValidationErrorKind::MissingTitle,
                        line: Some(line_num),
                        context: Some(String::from_str("TITLE tag is empty")),
                    },
                );
                proof {
                    assert(self.errors.deep_view() =~= old_errs + seq![
                        (ErrV {
                            kind: KindV::MissingTitle,
                            line: Some(line_num),
                            context: Some("TITLE tag is empty"@),
                        }),
                    ]);
                }
            } else {
                proof {
                    assert(self.errors.deep_view() =~= old_errs + Seq::<ErrV>::empty());
                }
            }
        } else if crate::text::eq_str(&tag, "ARTIST") {
            self.has_artist = true;
            if value.len() == 0 {
                self.errors.push(
                    ValidationError {
                        kind: ValidationErrorKind::MissingArtist,
                        line: Some(line_num),
                        context: Some(String::from_str("ARTIST tag is empty")),
                    },
                );
                proof {
                    assert(self.errors.deep_view() =~= old_errs + seq![
                        (ErrV {
                            kind: KindV::MissingArtist,
                            line: Some(line_num),
                            context: Some("ARTIST tag is empty"@),
                        }),
                    ]);
                }
            } else {
                proof {
                    assert(self.errors.deep_view() =~= old_errs + Seq::<ErrV>::empty());
                }
            }
        } else if crate::text::eq_str(&tag, "BPM") {
            self.has_bpm = true;
            if crate::decimal::parse_number(&value).is_none() {
                self.errors.push(
                    ValidationError {
                        kind: ValidationErrorKind::InvalidBpm(chars_to_string(&value)),
                        line: Some(line_num),
                        context: None,
                    },
                );
                proof {
                    assert(self.errors.deep_view() =~= old_errs + seq![
                        (ErrV {
                            kind: KindV::InvalidBpm(value@),
                            line: Some(line_num),
                            context: None,
                        }),
                    ]);
                }
            } else {
                proof {
                    assert(self.errors.deep_view() =~= old_errs + Seq::<ErrV>::empty());
                }
            }
        } else if crate::text::eq_str(&tag, "GAP") {
            if crate::decimal::parse_number(&value).is_none() && value.len() > 0 {
                self.errors.push(
                    ValidationError {
                        kind: ValidationErrorKind::InvalidGap(chars_to_string(&value)),
                        line: Some(line_num),
                        context: None,
                    },
                );
                proof {
                    assert(self.errors.deep_view() =~= old_errs + seq![
                        (ErrV {
                            kind: KindV::InvalidGap(value@),
                            line: Some(line_num),
                            context: None,
                        }),
                    ]);
                }
            } else {
                proof {
                    assert(self.errors.deep_view() =~= old_errs + Seq::<ErrV>::empty());
                }
            }
        } else if crate::text::eq_str(&tag, "YEAR") {
            if value.len() > 0 && crate::num::parse_u16(&value).is_none() {
                self.warnings.push(
                    ValidationError {
                        kind: ValidationErrorKind::InvalidYear(chars_to_string(&value)),
                        line: Some(line_num),
                        context: None,
                    },
                );
                proof {
                    assert(self.warnings.deep_view() =~= old_warns + seq![
                        (ErrV {
                            kind: KindV::InvalidYear(value@),
                            line: Some(line_num),
                            context: None,
                        }),
                    ]);
                }
            } else {
                proof {
                    assert(self.warnings.deep_view() =~= old_warns + Seq::<ErrV>::empty());
                }
            }
        } else if crate::text::eq_str(&tag, "MP3") || crate::text::eq_str(&tag, "AUDIO") {
            self.audio_file = Some(chars_to_string(&value));
        } else if crate::text::eq_str(&tag, "VIDEO") {
            self.video_file = Some(chars_to_string(&value));
        } else if crate::text::eq_str(&tag, "COVER") {
            self.cover_file = Some(chars_to_string(&value));
        } else if crate::text::eq_str(&tag, "BACKGROUND") {
            self.background_file = Some(chars_to_string(&value));
        }
    }

    /// One scan step over a raw line.
    fn step(&mut self, raw: &Vec<char>, line_num: usize)
        ensures
            final(self)@ == spec_vstep(raw@, line_num as int, old(self)@),
    {
        let line = trim(raw);
        if line.len() == 0 {
            return ;
        }
        match classify(&line) {
            LineClass::Header => {
                self.step_header(&line, line_num);
            },
            LineClass::NoteMark(_) => {
                self.has_notes = true;
                Validator::validate_note_chars(&line, line_num, &mut self.errors);
            },
            LineClass::BreakMark => {
                Validator::validate_break_chars(&line, line_num, &mut self.errors);
            },
            LineClass::EndMark => {
                self.has_end = true;
            },
            LineClass::PlayerMark => {},
            LineClass::Unknown => {
                let shown = if line.len() > 50 {
                    subvec(&line, 0, 50)
                } else {
                    subvec(&line, 0, line.len())
                };
                proof {
                    assert(shown@ =~= line@.take(
                        if line@.len() < 50 {
                            line@.len() as int
                        } else {
                            50
                        },
                    ));
                }
                let ghost old_warns = self.warnings.deep_view();
                self.warnings.push(
                    ValidationError {
                        kind: ValidationErrorKind::InvalidNoteFormat(
                            message("Unknown line type: ", &shown),
                        ),
                        line: Some(line_num),
                        context: None,
                    },
                );
                proof {
                    assert(self.warnings.deep_view() =~= old_warns.push(
                        spec_unknown_warning(line@, line_num as int),
                    ));
                }
            },
        }
    }

    /// Apply the file-level aggregates and hand out the result.
    fn finish(self, path: String) -> (r: (ValidationResult, AssetRefs))
        ensures
            ({
                let st = spec_aggregate(self@);
                r.0@ == (VResultV { path: path@, errors: st.errors, warnings: st.warnings })
                    && r.1@ == (AssetRefsV {
                    audio_file: st.audio_file,
                    video_file: st.video_file,
                    cover_file: st.cover_file,
                    background_file: st.background_file,
                })
            }),
    {
        let VScan {
            has_title,
            has_artist,
            has_bpm,
            audio_file,
            video_file,
            cover_file,
            background_file,
            has_notes,
            has_end,
            mut errors,
            mut warnings,
        } = self;
        let ghost e0 = errors.deep_view();
        let ghost w0 = warnings.deep_view();
        if !has_title {
            errors.push(
                ValidationError {
                    kind: ValidationErrorKind::MissingTitle,
                    line: None,
                    context: None,
                },
            );
        }
        if !has_artist {
            errors.push(
                ValidationError {
                    kind: ValidationErrorKind::MissingArtist,
                    line: None,
                    context: None,
                },
            );
        }
        if !has_bpm {
            errors.push(
                ValidationError {
                    kind: ValidationErrorKind::MissingBpm,
                    line: None,
                    context: None,
                },
            );
        }
        if audio_file.is_none() {
            errors.push(
                ValidationError {
                    kind: ValidationErrorKind::MissingAudio,
                    line: None,
                    context: None,
                },
            );
        }
        if !has_notes {
            errors.push(
                ValidationError { kind: ValidationErrorKind::NoNotes, line: None, context: None },
            );
        }
        if !has_end {
            warnings.push(
                ValidationError {
                    kind: ValidationErrorKind::NoEndMarker,
                    line: None,
                    context: None,
                },
            );
        }
        proof {
            let st = spec_aggregate(
                VState {
                    has_title,
                    has_artist,
                    has_bpm,
                    audio_file: audio_file.deep_view(),
                    video_file: video_file.deep_view(),
                    cover_file: cover_file.deep_view(),
                    background_file: background_file.deep_view(),
                    has_notes,
                    has_end,
                    errors: e0,
                    warnings: w0,
                },
            );
            assert(errors.deep_view() =~= st.errors);
            assert(warnings.deep_view() =~= st.warnings);
        }
        (
            ValidationResult { path, errors, warnings },
            AssetRefs { audio_file, video_file, cover_file, background_file },
        )
    }
}

} // verus!
