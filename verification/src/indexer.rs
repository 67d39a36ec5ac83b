//! The asset resolver behind indexing: which files a song's metadata points
//! at, resolved against the chart's directory, with the fallback search for
//! a cover image.  Whether a file exists, and what the directory lists, are
//! facts the caller supplies; everything computed from them is verified.

use vstd::prelude::*;
use crate::paths::{parent_dir, spec_extension, spec_is_ultrastar_file, spec_join, spec_parent};
use crate::text::{
    contains_chars, ends_with_chars, eq_str, lower, spec_contains, spec_ends_with, spec_lower,
    to_chars,
};
use crate::types::{SongFiles, SongFilesV, SongMetadata};

verus! {

/// Fixed file names tried first when a chart names no cover.
pub open spec fn spec_fixed_cover(entries: Seq<Seq<char>>) -> Option<Seq<char>> {
    if entries.contains("cover.jpg"@) {
        Some("cover.jpg"@)
    } else if entries.contains("cover.png"@) {
        Some("cover.png"@)
    } else if entries.contains("[CO].jpg"@) {
        Some("[CO].jpg"@)
    } else if entries.contains("[CO].png"@) {
        Some("[CO].png"@)
    } else {
        None
    }
}

/// A directory entry that can stand in for a cover: its lowercase name
/// contains `cover` and ends in an image extension.
pub open spec fn spec_is_cover_candidate(name: Seq<char>) -> bool {
    let low = spec_lower(name);
    spec_contains(low, "cover"@) && (spec_ends_with(low, ".jpg"@) || spec_ends_with(
        low,
        ".jpeg"@,
    ) || spec_ends_with(low, ".png"@))
}

/// The first listed entry that can stand in for a cover.
pub open spec fn spec_scan_cover(entries: Seq<Seq<char>>) -> Option<Seq<char>>
    decreases entries.len(),
{
    if entries.len() == 0 {
        None
    } else if spec_is_cover_candidate(entries[0]) {
        Some(entries[0])
    } else {
        spec_scan_cover(entries.drop_first())
    }
}

/// The cover fallback: a fixed candidate name present in the directory,
/// else the first listed entry whose name qualifies.
pub open spec fn spec_find_cover(entries: Seq<Seq<char>>) -> Option<Seq<char>> {
    match spec_fixed_cover(entries) {
        Some(n) => Some(n),
        None => spec_scan_cover(entries),
    }
}

/// The resolved files of a song: each referenced asset joined onto the
/// chart's directory when it exists there, absent otherwise; a missing or
/// unreferenced cover falls back to the directory search.
pub open spec fn spec_resolve_files(
    txt_path: Seq<char>,
    meta: crate::types::MetadataV,
    audio_exists: bool,
    video_exists: bool,
    cover_exists: bool,
    background_exists: bool,
    entries: Seq<Seq<char>>,
) -> SongFilesV {
    let dir = spec_parent(txt_path);
    SongFilesV {
        txt_path: txt_path,
        audio_path: if meta.audio_file matches Some(f) && audio_exists {
            Some(spec_join(dir, meta.audio_file->0))
        } else {
            None
        },
        video_path: if meta.video_file matches Some(f) && video_exists {
            Some(spec_join(dir, meta.video_file->0))
        } else {
            None
        },
        cover_path: if meta.cover_file matches Some(f) && cover_exists {
            Some(spec_join(dir, meta.cover_file->0))
        } else {
            match spec_find_cover(entries) {
                Some(n) => Some(spec_join(dir, n)),
                None => None,
            }
        },
        background_path: if meta.background_file matches Some(f) && background_exists {
            Some(spec_join(dir, meta.background_file->0))
        } else {
            None
        },
    }
}

fn contains_name(entries: &Vec<String>, name: &str) -> (r: bool)
    ensures
        r == entries.deep_view().contains(name@),
{
    let mut i: usize = 0;
    while i < entries.len()
        invariant
            i <= entries.len(),
            forall|j: int| 0 <= j < i ==> entries.deep_view()[j] != name@,
        decreases entries.len() - i,
    {
        let e = to_chars(entries[i].as_str());
        if eq_str(&e, name) {
            proof {
                assert(entries.deep_view()[i as int] == name@);
            }
            return true;
        }
        proof {
            assert(entries.deep_view()[i as int] == entries@[i as int]@);
        }
        i += 1;
    }
    proof {
        assert(!entries.deep_view().contains(name@));
    }
    false
}

fn is_cover_candidate(name: &Vec<char>) -> (r: bool)
    ensures
        r == spec_is_cover_candidate(name@),
{
    let low = lower(name);
    let pat = to_chars("cover");
    if !contains_chars(&low, &pat) {
        return false;
    }
    let jpg = to_chars(".jpg");
    let jpeg = to_chars(".jpeg");
    let png = to_chars(".png");
    ends_with_chars(&low, &jpg) || ends_with_chars(&low, &jpeg) || ends_with_chars(&low, &png)
}

/// Indexes songs: decides which files are charts and resolves their assets.
pub struct Indexer;

impl Indexer {
    /// Is this path an UltraStar chart file (extension `txt`, any case)?
    pub fn is_ultrastar_file(path: &str) -> (r: bool)
        ensures
            r == spec_is_ultrastar_file(path@),
    {
        let chars = to_chars(path);
        match crate::paths::extension_of(&chars) {
            Some(e) => {
                let low = lower(&e);
                eq_str(&low, "txt")
            },
            None => false,
        }
    }

    /// The cover fallback over a directory listing: a fixed candidate name
    /// if one is listed, else the first entry that looks like a cover
    /// image.  The listing's order decides ties.
    pub fn find_cover_image(entries: &Vec<String>) -> (r: Option<String>)
        ensures
            match r {
                Some(n) => spec_find_cover(entries.deep_view()) == Some(n@),
                None => spec_find_cover(entries.deep_view()) is None,
            },
    {
        if contains_name(entries, "cover.jpg") {
            return Some(String::from_str("cover.jpg"));
        }
        if contains_name(entries, "cover.png") {
            return Some(String::from_str("cover.png"));
        }
        if contains_name(entries, "[CO].jpg") {
            return Some(String::from_str("[CO].jpg"));
        }
        if contains_name(entries, "[CO].png") {
            return Some(String::from_str("[CO].png"));
        }
        let ghost ed = entries.deep_view();
        let mut i: usize = 0;
        proof {
            assert(ed.skip(0) =~= ed);
        }
        while i < entries.len()
            invariant
                i <= entries.len(),
                ed == entries.deep_view(),
                spec_fixed_cover(ed) is None,
                spec_scan_cover(ed) == spec_scan_cover(ed.skip(i as int)),
            decreases entries.len() - i,
        {
            let name = to_chars(entries[i].as_str());
            proof {
                assert(ed.skip(i as int)[0] == ed[i as int]);
                assert(ed[i as int] == entries@[i as int]@);
                assert(ed.skip(i as int).drop_first() =~= ed.skip(i as int + 1));
            }
            if is_cover_candidate(&name) {
                return Some(crate::text::chars_to_string(&name));
            }
            i += 1;
        }
        proof {
            assert(ed.skip(entries@.len() as int) =~= Seq::<Seq<char>>::empty());
        }
        None
    }

    /// Resolve a song's asset references against its directory.  The four
    /// `exists` flags say whether the respective referenced file is present
    /// there; `dir_entries` lists the directory for the cover fallback.
    pub fn resolve_files(
        txt_path: &str,
        metadata: &SongMetadata,
        audio_exists: bool,
        video_exists: bool,
        cover_exists: bool,
        background_exists: bool,
        dir_entries: &Vec<String>,
    ) -> (r: SongFiles)
        ensures
            r@ == spec_resolve_files(
                txt_path@,
                metadata@,
                audio_exists,
                video_exists,
                cover_exists,
                background_exists,
                dir_entries.deep_view(),
            ),
    {
        let path_chars = to_chars(txt_path);
        let dir = parent_dir(&path_chars);
        let audio_path = match &metadata.audio_file {
            Some(f) if audio_exists => {
                let j = crate::paths::join_path(&dir, &to_chars(f.as_str()));
                Some(crate::text::chars_to_string(&j))
            },
            _ => None,
        };
        let video_path = match &metadata.video_file {
            Some(f) if video_exists => {
                let j = crate::paths::join_path(&dir, &to_chars(f.as_str()));
                Some(crate::text::chars_to_string(&j))
            },
            _ => None,
        };
        let cover_path = match &metadata.cover_file {
            Some(f) if cover_exists => {
                let j = crate::paths::join_path(&dir, &to_chars(f.as_str()));
                Some(crate::text::chars_to_string(&j))
            },
            _ => {
                match Self::find_cover_image(dir_entries) {
                    Some(n) => {
                        let j = crate::paths::join_path(&dir, &to_chars(n.as_str()));
                        Some(crate::text::chars_to_string(&j))
                    },
                    None => None,
                }
            },
        };
        let background_path = match &metadata.background_file {
            Some(f) if background_exists => {
                let j = crate::paths::join_path(&dir, &to_chars(f.as_str()));
                Some(crate::text::chars_to_string(&j))
            },
            _ => None,
        };
        SongFiles {
            txt_path: String::from_str(txt_path),
            audio_path,
            video_path,
            cover_path,
            background_path,
        }
    }
}

} // verus!
