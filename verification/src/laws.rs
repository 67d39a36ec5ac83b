//! Laws that hold across the parser and the validator: a chart without a
//! required tag is rejected by both, the secondary streams of a duet are
//! attached exactly when they have content, and validation is a pure
//! function of the file's bytes.

use vstd::prelude::*;
use crate::classify::{spec_classify, LineClass};
use crate::parser::{
    spec_build, spec_builder_field, spec_header_tag, spec_header_value, spec_init_state,
    spec_parse, spec_run, spec_step, BuilderV, PState, PStep,
};
use crate::text::{spec_lines, spec_trim};
use crate::validator::{
    spec_init_vstate, spec_validate_content, spec_vrun, spec_vstep, ErrV, KindV, VState,
};
use vstd::utf8::{decode_utf8, valid_utf8};

verus! {

/// The tags a chart must carry.
pub open spec fn spec_required_tag(tag: Seq<char>) -> bool {
    tag == "TITLE"@ || tag == "ARTIST"@ || tag == "BPM"@
}

/// Does this raw line carry the given header tag (in any case, with any
/// value)?
pub open spec fn spec_line_has_tag(raw: Seq<char>, tag: Seq<char>) -> bool {
    let line = spec_trim(raw);
    line.len() > 0 && spec_classify(line) == LineClass::Header && spec_header_tag(line) == tag
}

/// Does this raw line set the given header tag to a non-empty value?
pub open spec fn spec_line_sets_tag(raw: Seq<char>, tag: Seq<char>) -> bool {
    spec_line_has_tag(raw, tag) && spec_header_value(spec_trim(raw)).len() > 0
}

proof fn lemma_step_keeps_missing(raw: Seq<char>, st: PState, tag: Seq<char>)
    requires
        spec_required_tag(tag),
        !spec_line_sets_tag(raw, tag),
        !spec_builder_field(st.builder, tag),
    ensures
        spec_step(raw, st) matches PStep::Go(st2) ==> !spec_builder_field(st2.builder, tag),
{
}

proof fn lemma_run_keeps_missing(lines: Seq<Seq<char>>, st: PState, tag: Seq<char>)
    requires
        spec_required_tag(tag),
        forall|i: int| 0 <= i < lines.len() ==> !spec_line_sets_tag(#[trigger] lines[i], tag),
        !spec_builder_field(st.builder, tag),
    ensures
        spec_run(lines, st) matches Ok(st2) ==> !spec_builder_field(st2.builder, tag),
    decreases lines.len(),
{
    if lines.len() > 0 {
        lemma_step_keeps_missing(lines[0], st, tag);
        match spec_step(lines[0], st) {
            PStep::Go(st2) => {
                assert(forall|i: int|
                    0 <= i < lines.drop_first().len() ==> !spec_line_sets_tag(
                        #[trigger] lines.drop_first()[i],
                        tag,
                    )) by {
                    assert(forall|i: int|
                        0 <= i < lines.drop_first().len() ==> lines.drop_first()[i] == lines[i
                            + 1]);
                }
                lemma_run_keeps_missing(lines.drop_first(), st2, tag);
            },
            PStep::Halt => {},
            PStep::Fail(_) => {},
        }
    }
}

/// A chart that nowhere sets a required tag (TITLE, ARTIST or BPM) to a
/// non-empty value cannot be parsed: the parser returns an error, never a
/// song.
pub proof fn lemma_missing_required_tag_parse_fails(
    content: Seq<char>,
    path: Seq<char>,
    tag: Seq<char>,
)
    requires
        spec_required_tag(tag),
        forall|i: int|
            0 <= i < spec_lines(content).len() ==> !spec_line_sets_tag(
                #[trigger] spec_lines(content)[i],
                tag,
            ),
    ensures
        spec_parse(content, path) is Err,
{
    lemma_run_keeps_missing(spec_lines(content), spec_init_state(), tag);
    match spec_run(spec_lines(content), spec_init_state()) {
        Ok(st) => {
            assert(spec_build(st.builder) is Err);
        },
        Err(_) => {},
    }
}

/// Which scan flag a required tag sets.
pub open spec fn spec_vstate_flag(st: VState, tag: Seq<char>) -> bool {
    if tag == "TITLE"@ {
        st.has_title
    } else if tag == "ARTIST"@ {
        st.has_artist
    } else {
        st.has_bpm
    }
}

/// The missing-field finding that answers a required tag.
pub open spec fn spec_missing_kind_for(k: KindV, tag: Seq<char>) -> bool {
    if tag == "TITLE"@ {
        k is MissingTitle
    } else if tag == "ARTIST"@ {
        k is MissingArtist
    } else {
        k is MissingBpm
    }
}

pub open spec fn spec_has_finding(errs: Seq<ErrV>, tag: Seq<char>) -> bool {
    exists|j: int| 0 <= j < errs.len() && spec_missing_kind_for((#[trigger] errs[j]).kind, tag)
}

proof fn lemma_vstep_keeps_flag(raw: Seq<char>, ln: int, st: VState, tag: Seq<char>)
    requires
        spec_required_tag(tag),
        !spec_line_has_tag(raw, tag),
        !spec_vstate_flag(st, tag),
    ensures
        !spec_vstate_flag(spec_vstep(raw, ln, st), tag),
{
}

proof fn lemma_vrun_keeps_flag(lines: Seq<Seq<char>>, ln: int, st: VState, tag: Seq<char>)
    requires
        spec_required_tag(tag),
        forall|i: int| 0 <= i < lines.len() ==> !spec_line_has_tag(#[trigger] lines[i], tag),
        !spec_vstate_flag(st, tag),
    ensures
        !spec_vstate_flag(spec_vrun(lines, ln, st), tag),
    decreases lines.len(),
{
    if lines.len() > 0 {
        lemma_vstep_keeps_flag(lines[0], ln, st, tag);
        assert(forall|i: int|
            0 <= i < lines.drop_first().len() ==> !spec_line_has_tag(
                #[trigger] lines.drop_first()[i],
                tag,
            )) by {
            assert(forall|i: int|
                0 <= i < lines.drop_first().len() ==> lines.drop_first()[i] == lines[i + 1]);
        }
        lemma_vrun_keeps_flag(lines.drop_first(), ln + 1, spec_vstep(lines[0], ln, st), tag);
    }
}

/// A chart whose decodable, non-blank text never carries a required tag is
/// reported by the validator: its result contains the matching
/// missing-field error, so the chart is not valid.
pub proof fn lemma_missing_required_tag_reported(path: Seq<char>, bytes: Seq<u8>, tag: Seq<char>)
    requires
        spec_required_tag(tag),
        valid_utf8(bytes),
        spec_trim(decode_utf8(bytes)).len() > 0,
        forall|i: int|
            0 <= i < spec_lines(decode_utf8(bytes)).len() ==> !spec_line_has_tag(
                #[trigger] spec_lines(decode_utf8(bytes))[i],
                tag,
            ),
    ensures
        spec_has_finding(spec_validate_content(path, bytes).0.errors, tag),
        spec_validate_content(path, bytes).0.errors.len() > 0,
{
    let content = decode_utf8(bytes);
    let bom = bytes.len() >= 3 && bytes[0] == 0xef && bytes[1] == 0xbb && bytes[2] == 0xbf;
    let w0: Seq<ErrV> = if bom {
        seq![(ErrV { kind: KindV::ContainsBom, line: None, context: None })]
    } else {
        Seq::empty()
    };
    let st = spec_vrun(spec_lines(content), 1, spec_init_vstate(w0));
    lemma_vrun_keeps_flag(spec_lines(content), 1, spec_init_vstate(w0), tag);
    let agg = crate::validator::spec_aggregate(st);
    let te: Seq<ErrV> = if !st.has_title {
        seq![(ErrV { kind: KindV::MissingTitle, line: None, context: None })]
    } else {
        Seq::empty()
    };
    let ae: Seq<ErrV> = if !st.has_artist {
        seq![(ErrV { kind: KindV::MissingArtist, line: None, context: None })]
    } else {
        Seq::empty()
    };
    let be: Seq<ErrV> = if !st.has_bpm {
        seq![(ErrV { kind: KindV::MissingBpm, line: None, context: None })]
    } else {
        Seq::empty()
    };
    if tag == "TITLE"@ {
        let j = st.errors.len() as int;
        assert(agg.errors[j] == te[0]);
        assert(spec_missing_kind_for(agg.errors[j].kind, tag));
    } else if tag == "ARTIST"@ {
        let j = st.errors.len() + te.len();
        assert(agg.errors[j as int] == ae[0]);
        assert(spec_missing_kind_for(agg.errors[j as int].kind, tag));
    } else {
        let j = st.errors.len() + te.len() + ae.len();
        assert(agg.errors[j as int] == be[0]);
        assert(spec_missing_kind_for(agg.errors[j as int].kind, tag));
    }
}

proof fn lemma_vrun_split(lines: Seq<Seq<char>>, ln: int, st: VState, k: int)
    requires
        0 <= k <= lines.len(),
    ensures
        spec_vrun(lines, ln, st) == spec_vrun(
            lines.skip(k),
            ln + k,
            spec_vrun(lines.take(k), ln, st),
        ),
    decreases k,
{
    if k == 0 {
        assert(lines.take(0) =~= Seq::<Seq<char>>::empty());
        assert(lines.skip(0) =~= lines);
    } else {
        let rest = lines.drop_first();
        let st1 = spec_vstep(lines[0], ln, st);
        lemma_vrun_split(rest, ln + 1, st1, k - 1);
        assert(lines.take(k).drop_first() =~= rest.take(k - 1));
        assert(lines.take(k)[0] == lines[0]);
        assert(rest.skip(k - 1) =~= lines.skip(k));
        assert(spec_vrun(lines.take(k), ln, st) == spec_vrun(rest.take(k - 1), ln + 1, st1));
    }
}

proof fn lemma_vstep_keeps_finding(raw: Seq<char>, ln: int, st: VState, tag: Seq<char>)
    requires
        spec_has_finding(st.errors, tag),
    ensures
        spec_has_finding(spec_vstep(raw, ln, st).errors, tag),
{
    let j = choose|j: int|
        0 <= j < st.errors.len() && spec_missing_kind_for((#[trigger] st.errors[j]).kind, tag);
    assert(spec_vstep(raw, ln, st).errors[j].kind == st.errors[j].kind);
}

proof fn lemma_vrun_keeps_finding(lines: Seq<Seq<char>>, ln: int, st: VState, tag: Seq<char>)
    requires
        spec_has_finding(st.errors, tag),
    ensures
        spec_has_finding(spec_vrun(lines, ln, st).errors, tag),
    decreases lines.len(),
{
    if lines.len() > 0 {
        lemma_vstep_keeps_finding(lines[0], ln, st, tag);
        lemma_vrun_keeps_finding(lines.drop_first(), ln + 1, spec_vstep(lines[0], ln, st), tag);
    }
}

/// A chart that carries a required text tag (TITLE or ARTIST) with an
/// empty value is reported too: the validator attaches the missing-field
/// error to that line, and the chart is not valid.
pub proof fn lemma_empty_required_tag_reported(
    path: Seq<char>,
    bytes: Seq<u8>,
    tag: Seq<char>,
    i: int,
)
    requires
        tag == "TITLE"@ || tag == "ARTIST"@,
        valid_utf8(bytes),
        spec_trim(decode_utf8(bytes)).len() > 0,
        0 <= i < spec_lines(decode_utf8(bytes)).len(),
        spec_line_has_tag(spec_lines(decode_utf8(bytes))[i], tag),
        spec_header_value(spec_trim(spec_lines(decode_utf8(bytes))[i])).len() == 0,
    ensures
        spec_has_finding(spec_validate_content(path, bytes).0.errors, tag),
        spec_validate_content(path, bytes).0.errors.len() > 0,
{
    let content = decode_utf8(bytes);
    let lines = spec_lines(content);
    let bom = bytes.len() >= 3 && bytes[0] == 0xef && bytes[1] == 0xbb && bytes[2] == 0xbf;
    let w0: Seq<ErrV> = if bom {
        seq![(ErrV { kind: KindV::ContainsBom, line: None, context: None })]
    } else {
        Seq::empty()
    };
    let init = spec_init_vstate(w0);
    lemma_vrun_split(lines, 1, init, i);
    let pre = spec_vrun(lines.take(i), 1, init);
    let stepped = spec_vstep(lines[i], 1 + i, pre);
    assert(lines.skip(i)[0] == lines[i]);
    assert(lines.skip(i).drop_first() =~= lines.skip(i + 1));
    assert(spec_vrun(lines, 1, init) == spec_vrun(lines.skip(i + 1), 2 + i, stepped));
    assert(spec_has_finding(stepped.errors, tag)) by {
        let j = pre.errors.len() as int;
        assert(spec_missing_kind_for(stepped.errors[j].kind, tag));
    }
    lemma_vrun_keeps_finding(lines.skip(i + 1), 2 + i, stepped, tag);
    let st = spec_vrun(lines, 1, init);
    let agg = crate::validator::spec_aggregate(st);
    assert(spec_has_finding(agg.errors, tag)) by {
        let j = choose|j: int|
            0 <= j < st.errors.len() && spec_missing_kind_for((#[trigger] st.errors[j]).kind, tag);
        assert(agg.errors[j].kind == st.errors[j].kind);
    }
}

/// No finding in `errs` is an audio-not-found error.
pub open spec fn spec_no_audio_not_found(errs: Seq<ErrV>) -> bool {
    forall|j: int|
        0 <= j < errs.len() ==> !((#[trigger] errs[j]).kind is AudioFileNotFound)
}

proof fn lemma_vstep_no_audio(raw: Seq<char>, ln: int, st: VState)
    requires
        spec_no_audio_not_found(st.errors),
    ensures
        spec_no_audio_not_found(spec_vstep(raw, ln, st).errors),
{
    let new_errs = spec_vstep(raw, ln, st).errors;
    assert forall|j: int|
        0 <= j < new_errs.len() implies !((#[trigger] new_errs[j]).kind is AudioFileNotFound) by {
        if j < st.errors.len() {
            assert(new_errs[j] == st.errors[j]);
        }
    }
}

proof fn lemma_vrun_no_audio(lines: Seq<Seq<char>>, ln: int, st: VState)
    requires
        spec_no_audio_not_found(st.errors),
    ensures
        spec_no_audio_not_found(spec_vrun(lines, ln, st).errors),
    decreases lines.len(),
{
    if lines.len() > 0 {
        lemma_vstep_no_audio(lines[0], ln, st);
        lemma_vrun_no_audio(lines.drop_first(), ln + 1, spec_vstep(lines[0], ln, st));
    }
}

/// A missing audio file is exactly one finding.  Checking the content of a
/// chart never yields an audio-not-found error, and the audio check on an
/// absent file yields exactly that one error, whatever else the chart got
/// wrong.
pub proof fn lemma_audio_not_found_unique(path: Seq<char>, bytes: Seq<u8>, filename: Seq<char>)
    ensures
        spec_no_audio_not_found(spec_validate_content(path, bytes).0.errors),
        crate::validator::spec_audio_errs(filename, false).len() == 1,
        crate::validator::spec_audio_errs(filename, false)[0].kind == KindV::AudioFileNotFound(
            filename,
        ),
{
    let content = decode_utf8(bytes);
    if valid_utf8(bytes) && spec_trim(content).len() > 0 {
        let bom = bytes.len() >= 3 && bytes[0] == 0xef && bytes[1] == 0xbb && bytes[2] == 0xbf;
        let w0: Seq<ErrV> = if bom {
            seq![(ErrV { kind: KindV::ContainsBom, line: None, context: None })]
        } else {
            Seq::empty()
        };
        let st = spec_vrun(spec_lines(content), 1, spec_init_vstate(w0));
        lemma_vrun_no_audio(spec_lines(content), 1, spec_init_vstate(w0));
        let agg = crate::validator::spec_aggregate(st);
        assert forall|j: int|
            0 <= j < agg.errors.len() implies !((#[trigger] agg.errors[j]).kind
            is AudioFileNotFound) by {
            if j < st.errors.len() {
                assert(agg.errors[j] == st.errors[j]);
            }
        }
    }
}

/// A note line with enough fields, all three numeric ones parsing.
pub open spec fn spec_note_line_clean(line: Seq<char>) -> bool {
    let parts = crate::text::spec_splitn_space(spec_trim(line.drop_first()), 4);
    parts.len() >= 4 && crate::num::spec_parse_i32(parts[0]) is Some
        && crate::num::spec_parse_i32(parts[1]) is Some && crate::num::spec_parse_i32(parts[2])
        is Some
}

/// A line-break line with a parsing start beat, and a parsing end beat
/// when one is given.
pub open spec fn spec_break_line_clean(line: Seq<char>) -> bool {
    let parts = crate::text::spec_split_ws(spec_trim(line.drop_first()));
    parts.len() > 0 && crate::num::spec_parse_i32(parts[0]) is Some && (parts.len() > 1
        ==> crate::num::spec_parse_i32(parts[1]) is Some)
}

/// A header line whose value satisfies what its tag demands.
pub open spec fn spec_header_line_clean(line: Seq<char>) -> bool {
    let tag = spec_header_tag(line);
    let value = spec_header_value(line);
    &&& ((tag == "TITLE"@ || tag == "ARTIST"@) ==> value.len() > 0)
    &&& (tag == "BPM"@ ==> crate::decimal::spec_parse_number(value) is Some)
    &&& (tag == "GAP"@ ==> (value.len() == 0 || crate::decimal::spec_parse_number(value)
        is Some))
    &&& (tag == "YEAR"@ ==> (value.len() == 0 || crate::num::spec_parse_u16(value) is Some))
}

/// A line the validator finds nothing wrong with.
pub open spec fn spec_line_clean(raw: Seq<char>) -> bool {
    let line = spec_trim(raw);
    line.len() == 0 || match spec_classify(line) {
        LineClass::Header => spec_header_line_clean(line),
        LineClass::NoteMark(_) => spec_note_line_clean(line),
        LineClass::BreakMark => spec_break_line_clean(line),
        LineClass::EndMark => true,
        LineClass::PlayerMark => true,
        LineClass::Unknown => false,
    }
}

pub open spec fn spec_line_is_note(raw: Seq<char>) -> bool {
    let line = spec_trim(raw);
    line.len() > 0 && spec_classify(line) matches LineClass::NoteMark(_)
}

pub open spec fn spec_line_is_end(raw: Seq<char>) -> bool {
    let line = spec_trim(raw);
    line.len() > 0 && spec_classify(line) == LineClass::EndMark
}

proof fn lemma_vstep_clean(raw: Seq<char>, ln: int, st: VState)
    requires
        spec_line_clean(raw),
    ensures
        spec_vstep(raw, ln, st).errors == st.errors,
        spec_vstep(raw, ln, st).warnings == st.warnings,
{
    assert(st.errors + Seq::<ErrV>::empty() =~= st.errors);
    assert(st.warnings + Seq::<ErrV>::empty() =~= st.warnings);
    let line = spec_trim(raw);
    if line.len() > 0 {
        match spec_classify(line) {
            LineClass::NoteMark(_) => {
                assert(crate::validator::spec_note_errs(line, ln) =~= Seq::<ErrV>::empty());
                assert(st.errors + crate::validator::spec_note_errs(line, ln) =~= st.errors);
            },
            LineClass::BreakMark => {
                assert(crate::validator::spec_break_errs(line, ln) =~= Seq::<ErrV>::empty());
                assert(st.errors + crate::validator::spec_break_errs(line, ln) =~= st.errors);
            },
            _ => {},
        }
    }
}

proof fn lemma_vrun_clean(lines: Seq<Seq<char>>, ln: int, st: VState)
    requires
        forall|i: int| 0 <= i < lines.len() ==> spec_line_clean(#[trigger] lines[i]),
    ensures
        spec_vrun(lines, ln, st).errors == st.errors,
        spec_vrun(lines, ln, st).warnings == st.warnings,
    decreases lines.len(),
{
    if lines.len() > 0 {
        lemma_vstep_clean(lines[0], ln, st);
        assert(forall|i: int|
            0 <= i < lines.drop_first().len() ==> spec_line_clean(
                #[trigger] lines.drop_first()[i],
            )) by {
            assert(forall|i: int|
                0 <= i < lines.drop_first().len() ==> lines.drop_first()[i] == lines[i + 1]);
        }
        lemma_vrun_clean(lines.drop_first(), ln + 1, spec_vstep(lines[0], ln, st));
    }
}

proof fn lemma_vstep_presence(raw: Seq<char>, ln: int, st: VState)
    ensures
        st.has_title ==> spec_vstep(raw, ln, st).has_title,
        st.has_artist ==> spec_vstep(raw, ln, st).has_artist,
        st.has_bpm ==> spec_vstep(raw, ln, st).has_bpm,
        st.has_notes ==> spec_vstep(raw, ln, st).has_notes,
        st.has_end ==> spec_vstep(raw, ln, st).has_end,
        st.audio_file is Some ==> spec_vstep(raw, ln, st).audio_file is Some,
        spec_line_has_tag(raw, "TITLE"@) ==> spec_vstep(raw, ln, st).has_title,
        spec_line_has_tag(raw, "ARTIST"@) ==> spec_vstep(raw, ln, st).has_artist,
        spec_line_has_tag(raw, "BPM"@) ==> spec_vstep(raw, ln, st).has_bpm,
        (spec_line_has_tag(raw, "MP3"@) || spec_line_has_tag(raw, "AUDIO"@)) ==> spec_vstep(
            raw,
            ln,
            st,
        ).audio_file is Some,
        spec_line_is_note(raw) ==> spec_vstep(raw, ln, st).has_notes,
        spec_line_is_end(raw) ==> spec_vstep(raw, ln, st).has_end,
{
    // The header dispatch tries the tags in a fixed order; telling one tag
    // from another takes their spelled-out lengths and leading characters.
    reveal_strlit("TITLE");
    reveal_strlit("ARTIST");
    reveal_strlit("BPM");
    reveal_strlit("GAP");
    reveal_strlit("YEAR");
    reveal_strlit("MP3");
    reveal_strlit("AUDIO");
    assert("TITLE"@.len() == 5);
    assert("ARTIST"@.len() == 6);
    assert("BPM"@.len() == 3);
    assert("GAP"@.len() == 3);
    assert("YEAR"@.len() == 4);
    assert("MP3"@.len() == 3);
    assert("AUDIO"@.len() == 5);
    assert("TITLE"@[0] == 'T');
    assert("AUDIO"@[0] == 'A');
    assert("BPM"@[0] == 'B');
    assert("GAP"@[0] == 'G');
    assert("MP3"@[0] == 'M');
}

proof fn lemma_vrun_presence(lines: Seq<Seq<char>>, ln: int, st: VState)
    ensures
        st.has_title ==> spec_vrun(lines, ln, st).has_title,
        st.has_artist ==> spec_vrun(lines, ln, st).has_artist,
        st.has_bpm ==> spec_vrun(lines, ln, st).has_bpm,
        st.has_notes ==> spec_vrun(lines, ln, st).has_notes,
        st.has_end ==> spec_vrun(lines, ln, st).has_end,
        st.audio_file is Some ==> spec_vrun(lines, ln, st).audio_file is Some,
    decreases lines.len(),
{
    if lines.len() > 0 {
        lemma_vstep_presence(lines[0], ln, st);
        lemma_vrun_presence(lines.drop_first(), ln + 1, spec_vstep(lines[0], ln, st));
    }
}

proof fn lemma_vrun_establishes(lines: Seq<Seq<char>>, ln: int, st: VState, i: int)
    requires
        0 <= i < lines.len(),
    ensures
        spec_line_has_tag(lines[i], "TITLE"@) ==> spec_vrun(lines, ln, st).has_title,
        spec_line_has_tag(lines[i], "ARTIST"@) ==> spec_vrun(lines, ln, st).has_artist,
        spec_line_has_tag(lines[i], "BPM"@) ==> spec_vrun(lines, ln, st).has_bpm,
        (spec_line_has_tag(lines[i], "MP3"@) || spec_line_has_tag(lines[i], "AUDIO"@))
            ==> spec_vrun(lines, ln, st).audio_file is Some,
        spec_line_is_note(lines[i]) ==> spec_vrun(lines, ln, st).has_notes,
        spec_line_is_end(lines[i]) ==> spec_vrun(lines, ln, st).has_end,
{
    lemma_vrun_split(lines, ln, st, i);
    let pre = spec_vrun(lines.take(i), ln, st);
    let stepped = spec_vstep(lines[i], ln + i, pre);
    assert(lines.skip(i)[0] == lines[i]);
    assert(lines.skip(i).drop_first() =~= lines.skip(i + 1));
    assert(spec_vrun(lines, ln, st) == spec_vrun(lines.skip(i + 1), ln + i + 1, stepped));
    lemma_vstep_presence(lines[i], ln + i, pre);
    lemma_vrun_presence(lines.skip(i + 1), ln + i + 1, stepped);
}

/// A well-formed chart validates cleanly.  When every line is clean and
/// the chart carries TITLE, ARTIST, BPM, an audio reference, at least one
/// note and the end sentinel, the validator finds no content error and
/// warns at most about a byte-order mark.
pub proof fn lemma_well_formed_chart_validates(path: Seq<char>, bytes: Seq<u8>)
    requires
        valid_utf8(bytes),
        spec_trim(decode_utf8(bytes)).len() > 0,
        forall|i: int|
            0 <= i < spec_lines(decode_utf8(bytes)).len() ==> spec_line_clean(
                #[trigger] spec_lines(decode_utf8(bytes))[i],
            ),
        exists|i: int|
            0 <= i < spec_lines(decode_utf8(bytes)).len() && spec_line_has_tag(
                #[trigger] spec_lines(decode_utf8(bytes))[i],
                "TITLE"@,
            ),
        exists|i: int|
            0 <= i < spec_lines(decode_utf8(bytes)).len() && spec_line_has_tag(
                #[trigger] spec_lines(decode_utf8(bytes))[i],
                "ARTIST"@,
            ),
        exists|i: int|
            0 <= i < spec_lines(decode_utf8(bytes)).len() && spec_line_has_tag(
                #[trigger] spec_lines(decode_utf8(bytes))[i],
                "BPM"@,
            ),
        exists|i: int|
            0 <= i < spec_lines(decode_utf8(bytes)).len() && (spec_line_has_tag(
                #[trigger] spec_lines(decode_utf8(bytes))[i],
                "MP3"@,
            ) || spec_line_has_tag(spec_lines(decode_utf8(bytes))[i], "AUDIO"@)),
        exists|i: int|
            0 <= i < spec_lines(decode_utf8(bytes)).len() && spec_line_is_note(
                #[trigger] spec_lines(decode_utf8(bytes))[i],
            ),
        exists|i: int|
            0 <= i < spec_lines(decode_utf8(bytes)).len() && spec_line_is_end(
                #[trigger] spec_lines(decode_utf8(bytes))[i],
            ),
    ensures
        spec_validate_content(path, bytes).0.errors.len() == 0,
        spec_validate_content(path, bytes).0.warnings == (if bytes.len() >= 3 && bytes[0] == 0xef
            && bytes[1] == 0xbb && bytes[2] == 0xbf {
            seq![(ErrV { kind: KindV::ContainsBom, line: None, context: None })]
        } else {
            Seq::<ErrV>::empty()
        }),
{
    let content = decode_utf8(bytes);
    let lines = spec_lines(content);
    let bom = bytes.len() >= 3 && bytes[0] == 0xef && bytes[1] == 0xbb && bytes[2] == 0xbf;
    let w0: Seq<ErrV> = if bom {
        seq![(ErrV { kind: KindV::ContainsBom, line: None, context: None })]
    } else {
        Seq::empty()
    };
    let init = spec_init_vstate(w0);
    let st = spec_vrun(lines, 1, init);
    lemma_vrun_clean(lines, 1, init);
    let ti = choose|i: int| 0 <= i < lines.len() && spec_line_has_tag(#[trigger] lines[i], "TITLE"@);
    lemma_vrun_establishes(lines, 1, init, ti);
    let ai = choose|i: int|
        0 <= i < lines.len() && spec_line_has_tag(#[trigger] lines[i], "ARTIST"@);
    lemma_vrun_establishes(lines, 1, init, ai);
    let bi = choose|i: int| 0 <= i < lines.len() && spec_line_has_tag(#[trigger] lines[i], "BPM"@);
    lemma_vrun_establishes(lines, 1, init, bi);
    let mi = choose|i: int|
        0 <= i < lines.len() && (spec_line_has_tag(#[trigger] lines[i], "MP3"@)
            || spec_line_has_tag(lines[i], "AUDIO"@));
    lemma_vrun_establishes(lines, 1, init, mi);
    let ni = choose|i: int| 0 <= i < lines.len() && spec_line_is_note(#[trigger] lines[i]);
    lemma_vrun_establishes(lines, 1, init, ni);
    let ei = choose|i: int| 0 <= i < lines.len() && spec_line_is_end(#[trigger] lines[i]);
    lemma_vrun_establishes(lines, 1, init, ei);
    let agg = crate::validator::spec_aggregate(st);
    assert(agg.errors =~= Seq::<ErrV>::empty());
    assert(agg.warnings =~= w0);
}

/// The secondary note and line-break streams of a parsed song are attached
/// only when they have content: a duet marker alone, with nothing sung by
/// the second player, leaves them absent.
pub proof fn lemma_secondary_streams_nonempty(content: Seq<char>, path: Seq<char>)
    ensures
        spec_parse(content, path) matches Ok(s) ==> ((s.notes_p2 matches Some(ns) ==> ns.len()
            > 0) && (s.line_breaks_p2 matches Some(ls) ==> ls.len() > 0)),
{
}

/// Validation is a pure function of the chart's path and bytes: two
/// validations of the same unchanged file agree in every finding, line
/// number and ordering.
pub proof fn lemma_validation_deterministic(
    path: Seq<char>,
    bytes: Seq<u8>,
    r1: crate::validator::VResultV,
    r2: crate::validator::VResultV,
)
    requires
        r1 == spec_validate_content(path, bytes).0,
        r2 == spec_validate_content(path, bytes).0,
    ensures
        r1 == r2,
        r1.errors == r2.errors,
        r1.warnings == r2.warnings,
{
}

} // verus!
