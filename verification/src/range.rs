//! HTTP `Range` header parsing for media file serving: `bytes=start-end`
//! or `bytes=start-`, clamped and checked against the file size.

use vstd::prelude::*;
use crate::num::spec_parse_u64;
use crate::text::{spec_find, subvec, to_chars};

verus! {

/// What a `Range` header denotes for a file of `file_size` bytes: the
/// inclusive byte range to serve, or nothing when the header is not of the
/// form `bytes=start-end` / `bytes=start-`, the numbers do not parse, or
/// the range is empty or starts beyond the file.  An open or over-long end
/// is clamped to the last byte.
pub open spec fn spec_parse_range(header: Seq<char>, file_size: u64) -> Option<(u64, u64)> {
    if !(header.len() >= 6 && header.take(6) == "bytes="@) {
        None
    } else {
        let rest = header.skip(6);
        let dash = spec_find(rest, '-');
        if dash == rest.len() || spec_contains_more_dash(rest.skip(dash + 1)) {
            None
        } else {
            let start_s = rest.take(dash);
            let end_s = rest.skip(dash + 1);
            match spec_parse_u64(start_s) {
                None => None,
                Some(start) => {
                    if file_size == 0 {
                        None
                    } else {
                        let end0 = if end_s.len() == 0 {
                            Some(((file_size - 1) as u64))
                        } else {
                            spec_parse_u64(end_s)
                        };
                        match end0 {
                            None => None,
                            Some(end) => {
                                if start > end || start >= file_size {
                                    None
                                } else {
                                    Some(
                                        (
                                            start,
                                            if end < ((file_size - 1) as u64) {
                                                end
                                            } else {
                                                ((file_size - 1) as u64)
                                            },
                                        ),
                                    )
                                }
                            },
                        }
                    }
                },
            }
        }
    }
}

/// The MIME type a file is served under, by its exact extension; anything
/// unrecognized is served as raw bytes.
pub open spec fn spec_content_type(p: Seq<char>) -> Seq<char> {
    match crate::paths::spec_extension(p) {
        Some(e) => if e == "mp3"@ {
            "audio/mpeg"@
        } else if e == "ogg"@ {
            "audio/ogg"@
        } else if e == "wav"@ {
            "audio/wav"@
        } else if e == "m4a"@ {
            "audio/mp4"@
        } else if e == "mp4"@ {
            "video/mp4"@
        } else if e == "avi"@ {
            "video/x-msvideo"@
        } else if e == "mkv"@ {
            "video/x-matroska"@
        } else if e == "webm"@ {
            "video/webm"@
        } else if e == "jpg"@ || e == "jpeg"@ {
            "image/jpeg"@
        } else if e == "png"@ {
            "image/png"@
        } else if e == "gif"@ {
            "image/gif"@
        } else if e == "webp"@ {
            "image/webp"@
        } else {
            "application/octet-stream"@
        },
        None => "application/octet-stream"@,
    }
}

/// The MIME type to serve a file under.
pub fn content_type_for(path: &str) -> (r: &'static str)
    ensures
        r@ == spec_content_type(path@),
{
    let chars = to_chars(path);
    match crate::paths::extension_of(&chars) {
        Some(e) => {
            if crate::text::eq_str(&e, "mp3") {
                "audio/mpeg"
            } else if crate::text::eq_str(&e, "ogg") {
                "audio/ogg"
            } else if crate::text::eq_str(&e, "wav") {
                "audio/wav"
            } else if crate::text::eq_str(&e, "m4a") {
                "audio/mp4"
            } else if crate::text::eq_str(&e, "mp4") {
                "video/mp4"
            } else if crate::text::eq_str(&e, "avi") {
                "video/x-msvideo"
            } else if crate::text::eq_str(&e, "mkv") {
                "video/x-matroska"
            } else if crate::text::eq_str(&e, "webm") {
                "video/webm"
            } else if crate::text::eq_str(&e, "jpg") || crate::text::eq_str(&e, "jpeg") {
                "image/jpeg"
            } else if crate::text::eq_str(&e, "png") {
                "image/png"
            } else if crate::text::eq_str(&e, "gif") {
                "image/gif"
            } else if crate::text::eq_str(&e, "webp") {
                "image/webp"
            } else {
                "application/octet-stream"
            }
        },
        None => "application/octet-stream",
    }
}

/// Whether another `-` occurs: `bytes=a-b-c` is rejected.
pub open spec fn spec_contains_more_dash(s: Seq<char>) -> bool {
    spec_find(s, '-') < s.len()
}

/// Parse an HTTP `Range` header against a file size.
pub fn parse_range_header(header: &str, file_size: u64) -> (r: Option<(u64, u64)>)
    ensures
        r == spec_parse_range(header@, file_size),
{
    let chars = to_chars(header);
    if chars.len() < 6 {
        proof {
            assert(header@.len() < 6);
        }
        return None;
    }
    let prefix = subvec(&chars, 0, 6);
    if !crate::text::eq_str(&prefix, "bytes=") {
        proof {
            assert(header@.take(6) != "bytes="@);
        }
        return None;
    }
    let rest = subvec(&chars, 6, chars.len());
    proof {
        assert(rest@ =~= header@.skip(6));
        assert(rest@.skip(0) =~= rest@);
    }
    let dash = crate::text::find_char_from(&rest, 0, '-');
    proof {
        crate::text::lemma_find(rest@, '-');
    }
    if dash == rest.len() {
        return None;
    }
    let tail = subvec(&rest, dash + 1, rest.len());
    proof {
        assert(tail@ =~= rest@.skip(dash as int + 1));
        assert(tail@.skip(0) =~= tail@);
    }
    let second_dash = crate::text::find_char_from(&tail, 0, '-');
    if second_dash < tail.len() {
        return None;
    }
    let start_s = subvec(&rest, 0, dash);
    proof {
        assert(start_s@ =~= rest@.take(dash as int));
    }
    let start = match crate::num::parse_u64(&start_s) {
        Some(s) => s,
        None => {
            return None;
        },
    };
    if file_size == 0 {
        return None;
    }
    let end = if tail.len() == 0 {
        file_size - 1
    } else {
        match crate::num::parse_u64(&tail) {
            Some(e) => e,
            None => {
                return None;
            },
        }
    };
    if start > end || start >= file_size {
        return None;
    }
    let clamped = if end < file_size - 1 {
        end
    } else {
        file_size - 1
    };
    Some((start, clamped))
}

} // verus!
