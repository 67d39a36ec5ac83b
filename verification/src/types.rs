//! The song data model: notes, line breaks, metadata, resolved files, and
//! the song record itself, with mathematical views for every type that
//! carries strings.

use vstd::prelude::*;
use crate::decimal::Decimal;

verus! {

/// The kind of a note, given by the marker character of its line.
#[derive(Clone, Copy, Debug, PartialEq, Eq, Structural)]
pub enum NoteType {
    Normal,
    Golden,
    Freestyle,
    Rap,
    GoldenRap,
}

/// One sung syllable with its timing, pitch and text.
#[derive(Clone, Debug)]
pub struct Note {
    pub note_type: NoteType,
    pub start_beat: i32,
    pub length: i32,
    pub pitch: i32,
    pub text: String,
}

pub ghost struct NoteV {
    pub note_type: NoteType,
    pub start_beat: i32,
    pub length: i32,
    pub pitch: i32,
    pub text: Seq<char>,
}

impl View for Note {
    type V = NoteV;

    open spec fn view(&self) -> NoteV {
        NoteV {
            note_type: self.note_type,
            start_beat: self.start_beat,
            length: self.length,
            pitch: self.pitch,
            text: self.text@,
        }
    }
}

impl DeepView for Note {
    type V = NoteV;

    open spec fn deep_view(&self) -> NoteV {
        self@
    }
}

/// The end of a sung display line, independent of note beats.
#[derive(Clone, Copy, Debug, PartialEq, Eq, Structural)]
pub struct LineBreak {
    pub start_beat: i32,
    pub end_beat: Option<i32>,
}

/// Chart metadata as the header tags give it.  `title`, `artist` and `bpm`
/// are required; everything else is optional.
#[derive(Clone, Debug)]
pub struct SongMetadata {
    pub title: String,
    pub artist: String,
    pub bpm: Decimal,
    pub gap: Decimal,
    pub video_gap: Option<Decimal>,
    pub genre: Option<String>,
    pub year: Option<u16>,
    pub language: Option<String>,
    pub edition: Option<String>,
    pub creator: Option<String>,
    pub duet_singer_p1: Option<String>,
    pub duet_singer_p2: Option<String>,
    pub audio_file: Option<String>,
    pub video_file: Option<String>,
    pub cover_file: Option<String>,
    pub background_file: Option<String>,
}

pub ghost struct MetadataV {
    pub title: Seq<char>,
    pub artist: Seq<char>,
    pub bpm: Decimal,
    pub gap: Decimal,
    pub video_gap: Option<Decimal>,
    pub genre: Option<Seq<char>>,
    pub year: Option<u16>,
    pub language: Option<Seq<char>>,
    pub edition: Option<Seq<char>>,
    pub creator: Option<Seq<char>>,
    pub duet_singer_p1: Option<Seq<char>>,
    pub duet_singer_p2: Option<Seq<char>>,
    pub audio_file: Option<Seq<char>>,
    pub video_file: Option<Seq<char>>,
    pub cover_file: Option<Seq<char>>,
    pub background_file: Option<Seq<char>>,
}

impl View for SongMetadata {
    type V = MetadataV;

    open spec fn view(&self) -> MetadataV {
        MetadataV {
            title: self.title@,
            artist: self.artist@,
            bpm: self.bpm,
            gap: self.gap,
            video_gap: self.video_gap,
            genre: self.genre.deep_view(),
            year: self.year,
            language: self.language.deep_view(),
            edition: self.edition.deep_view(),
            creator: self.creator.deep_view(),
            duet_singer_p1: self.duet_singer_p1.deep_view(),
            duet_singer_p2: self.duet_singer_p2.deep_view(),
            audio_file: self.audio_file.deep_view(),
            video_file: self.video_file.deep_view(),
            cover_file: self.cover_file.deep_view(),
            background_file: self.background_file.deep_view(),
        }
    }
}

/// Paths resolved for a song's chart and referenced assets.  An asset is
/// `None` when unreferenced or when the referenced file is absent on disk;
/// this layer does not distinguish the two (the validator does).
#[derive(Clone, Debug)]
pub struct SongFiles {
    pub txt_path: String,
    pub audio_path: Option<String>,
    pub video_path: Option<String>,
    pub cover_path: Option<String>,
    pub background_path: Option<String>,
}

pub ghost struct SongFilesV {
    pub txt_path: Seq<char>,
    pub audio_path: Option<Seq<char>>,
    pub video_path: Option<Seq<char>>,
    pub cover_path: Option<Seq<char>>,
    pub background_path: Option<Seq<char>>,
}

impl View for SongFiles {
    type V = SongFilesV;

    open spec fn view(&self) -> SongFilesV {
        SongFilesV {
            txt_path: self.txt_path@,
            audio_path: self.audio_path.deep_view(),
            video_path: self.video_path.deep_view(),
            cover_path: self.cover_path.deep_view(),
            background_path: self.background_path.deep_view(),
        }
    }
}

/// A parsed song: metadata, the primary note and line-break streams, and,
/// for a duet with actual secondary content, the secondary streams.
#[derive(Clone, Debug)]
pub struct Song {
    pub id: String,
    pub metadata: SongMetadata,
    pub notes: Vec<Note>,
    pub notes_p2: Option<Vec<Note>>,
    pub line_breaks: Vec<LineBreak>,
    pub line_breaks_p2: Option<Vec<LineBreak>>,
    pub files: SongFiles,
}

pub ghost struct SongV {
    pub id: Seq<char>,
    pub metadata: MetadataV,
    pub notes: Seq<NoteV>,
    pub notes_p2: Option<Seq<NoteV>>,
    pub line_breaks: Seq<LineBreak>,
    pub line_breaks_p2: Option<Seq<LineBreak>>,
    pub files: SongFilesV,
}

impl View for Song {
    type V = SongV;

    open spec fn view(&self) -> SongV {
        SongV {
            id: self.id@,
            metadata: self.metadata@,
            notes: self.notes.deep_view(),
            notes_p2: self.notes_p2.deep_view(),
            line_breaks: self.line_breaks@,
            line_breaks_p2: match self.line_breaks_p2 {
                Some(v) => Some(v@),
                None => None,
            },
            files: self.files@,
        }
    }
}

/// The error type of the parsing side: parsing is fail-fast, and one of
/// these aborts the chart at hand.
#[derive(Clone, Debug)]
pub enum AppError {
    SongNotFound(String),
    ParseError(String),
    IoError(String),
    Internal(String),
}

pub ghost enum AppErrorV {
    SongNotFound(Seq<char>),
    ParseError(Seq<char>),
    IoError(Seq<char>),
    Internal(Seq<char>),
}

impl View for AppError {
    type V = AppErrorV;

    open spec fn view(&self) -> AppErrorV {
        match self {
            AppError::SongNotFound(m) => AppErrorV::SongNotFound(m@),
            AppError::ParseError(m) => AppErrorV::ParseError(m@),
            AppError::IoError(m) => AppErrorV::IoError(m@),
            AppError::Internal(m) => AppErrorV::Internal(m@),
        }
    }
}

/// A listing entry: what a song index shows without the full note data.
#[derive(Clone, Debug)]
pub struct SongSummary {
    pub id: String,
    pub title: String,
    pub artist: String,
    pub genre: Option<String>,
    pub year: Option<u16>,
    pub language: Option<String>,
    pub has_video: bool,
    pub is_duet: bool,
    pub cover_url: Option<String>,
}

pub ghost struct SongSummaryV {
    pub id: Seq<char>,
    pub title: Seq<char>,
    pub artist: Seq<char>,
    pub genre: Option<Seq<char>>,
    pub year: Option<u16>,
    pub language: Option<Seq<char>>,
    pub has_video: bool,
    pub is_duet: bool,
    pub cover_url: Option<Seq<char>>,
}

impl View for SongSummary {
    type V = SongSummaryV;

    open spec fn view(&self) -> SongSummaryV {
        SongSummaryV {
            id: self.id@,
            title: self.title@,
            artist: self.artist@,
            genre: self.genre.deep_view(),
            year: self.year,
            language: self.language.deep_view(),
            has_video: self.has_video,
            is_duet: self.is_duet,
            cover_url: self.cover_url.deep_view(),
        }
    }
}

impl SongMetadata {
    /// Does the song answer a search query: its lower-cased title or
    /// artist contains the lower-cased query.
    pub fn matches_query(&self, query: &str) -> (r: bool)
        ensures
            r == (crate::text::spec_contains(
                crate::text::spec_lower(self.title@),
                crate::text::spec_lower(query@),
            ) || crate::text::spec_contains(
                crate::text::spec_lower(self.artist@),
                crate::text::spec_lower(query@),
            )),
    {
        let q = crate::text::lower(&crate::text::to_chars(query));
        let title = crate::text::lower(&crate::text::to_chars(self.title.as_str()));
        if crate::text::contains_chars(&title, &q) {
            return true;
        }
        let artist = crate::text::lower(&crate::text::to_chars(self.artist.as_str()));
        crate::text::contains_chars(&artist, &q)
    }
}

/// The address under which a song's cover image is served.
pub open spec fn spec_cover_url(id: Seq<char>) -> Seq<char> {
    "/files/"@ + id + "/cover"@
}

impl SongSummary {
    /// The summary determined by a song: identity and listing fields copied,
    /// `has_video` and `is_duet` read off the resolved files and the
    /// secondary note stream, and a cover address exactly when a cover path
    /// was resolved.
    pub fn from_song(song: &Song) -> (r: SongSummary)
        ensures
            r@.id == song@.id,
            r@.title == song@.metadata.title,
            r@.artist == song@.metadata.artist,
            r@.genre == song@.metadata.genre,
            r@.year == song@.metadata.year,
            r@.language == song@.metadata.language,
            r@.has_video == (song@.files.video_path is Some),
            r@.is_duet == (song@.notes_p2 is Some),
            r@.cover_url == match song@.files.cover_path {
                Some(_) => Some(spec_cover_url(song@.id)),
                None => None,
            },
    {
        let cover_url = match &song.files.cover_path {
            Some(_) => {
                let id_chars = crate::text::to_chars(song.id.as_str());
                let prefix = crate::text::to_chars("/files/");
                let suffix = crate::text::to_chars("/cover");
                let joined = crate::text::concat_chars(
                    &crate::text::concat_chars(&prefix, &id_chars),
                    &suffix,
                );
                Some(crate::text::chars_to_string(&joined))
            },
            None => None,
        };
        SongSummary {
            id: song.id.clone(),
            title: song.metadata.title.clone(),
            artist: song.metadata.artist.clone(),
            genre: song.metadata.genre.clone(),
            year: song.metadata.year,
            language: song.metadata.language.clone(),
            has_video: song.files.video_path.is_some(),
            is_duet: song.notes_p2.is_some(),
            cover_url,
        }
    }
}

} // verus!
