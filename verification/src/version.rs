//! Reading a tool's version out of what its version query printed.

use crate::commands::text_of;
use crate::text::{
    all_control, chars_of, is_control, is_trimmed, is_whitespace, lemma_filter_push,
    lemma_trim_end_shape, lemma_trim_is_trimmed, lemma_trim_start_shape, no_control, rows,
    string_of, strip_control, trim, trim_bounds, trim_start, without_control, words, words_of,
};
use vstd::prelude::*;

verus! {

/// A version string as it is surfaced: white space trimmed off both ends,
/// then every control character taken out.
pub open spec fn normalized(s: Seq<char>) -> Seq<char> {
    strip_control(trim(s))
}

/// The version reported by a tool that prints nothing but its version.
pub open spec fn plain_version(stdout: Option<Seq<char>>) -> Seq<char> {
    match stdout {
        None => "could not parse version"@,
        Some(s) => normalized(s),
    }
}

/// The version reported by a tool that prints a banner whose third word is
/// the version.
pub open spec fn banner_version(stdout: Option<Seq<char>>) -> Seq<char> {
    match stdout {
        None => "could not parse version"@,
        Some(s) => if words(normalized(s)).len() > 2 {
            words(normalized(s))[2]
        } else {
            "unknown version"@
        },
    }
}

/// The first character of `s` that is no control character.
pub open spec fn first_kept(s: Seq<char>) -> Option<char>
    decreases s.len(),
{
    if s.len() == 0 {
        None
    } else if is_control(s.first()) {
        first_kept(s.drop_first())
    } else {
        Some(s.first())
    }
}

/// The last character of `s` that is no control character.
pub open spec fn last_kept(s: Seq<char>) -> Option<char>
    decreases s.len(),
{
    if s.len() == 0 {
        None
    } else if is_control(s.last()) {
        last_kept(s.drop_last())
    } else {
        Some(s.last())
    }
}

fn normalized_chars(v: &Vec<char>) -> (out: Vec<char>)
    ensures
        out@ == normalized(v@),
{
    let (from, to) = trim_bounds(v);
    without_control(v, from, to)
}

fn string_of_all(v: &Vec<char>) -> (s: String)
    ensures
        s@ == v@,
{
    let s = string_of(v, 0, v.len());
    assert(v@.subrange(0, v.len() as int) =~= v@);
    s
}

/// Normalizes the output of a version query.
pub fn parse_version(version_string: &str) -> (version: String)
    ensures
        version@ == normalized(version_string@),
        no_control(version@),
{
    let v = chars_of(version_string);
    let out = normalized_chars(&v);
    proof {
        lemma_normalized_has_no_control(version_string@);
    }
    string_of_all(&out)
}

/// The version that yt-dlp printed, normalized.
pub fn parse_yt_dlp_version(version_string: &Option<String>) -> (version: String)
    ensures
        version@ == plain_version(text_of(*version_string)),
{
    match version_string {
        None => "could not parse version".to_owned(),
        Some(ver) => parse_version(ver.as_str()),
    }
}

/// The version that fpcalc printed, normalized.
pub fn parse_fpcalc_version(version_string: &Option<String>) -> (version: String)
    ensures
        version@ == plain_version(text_of(*version_string)),
{
    match version_string {
        None => "could not parse version".to_owned(),
        Some(ver) => parse_version(ver.as_str()),
    }
}

/// The version in the banner that ffmpeg printed: the third word of the
/// normalized output.
pub fn parse_ffmpeg_version(version_string: &Option<String>) -> (version: String)
    ensures
        version@ == banner_version(text_of(*version_string)),
{
    match version_string {
        None => "could not parse version".to_owned(),
        Some(ver) => {
            let v = chars_of(ver.as_str());
            let out = normalized_chars(&v);
            let found = words_of(&out);
            if found.len() > 2 {
                assert(rows(found@)[2] == found@[2]@);
                string_of_all(&found[2])
            } else {
                "unknown version".to_owned()
            }
        },
    }
}

/// A normalized version string holds no control character.
pub proof fn lemma_normalized_has_no_control(s: Seq<char>)
    ensures
        no_control(normalized(s)),
{
    let pred = |c: char| !is_control(c);
    let kept = trim(s).filter(pred);
    assert forall|i: int| 0 <= i < kept.len() implies !is_control(#[trigger] kept[i]) by {
        trim(s).lemma_filter_pred(pred, i);
    }
}

/// A string of control characters alone normalizes to the empty string.
pub proof fn lemma_control_only_normalizes_to_empty(s: Seq<char>)
    requires
        all_control(s),
    ensures
        normalized(s) == Seq::<char>::empty(),
{
    lemma_trim_is_part(s);
    let t = trim(s);
    lemma_strip_control_edges(t);
    lemma_no_kept(t);
    assert(normalized(s) =~= Seq::<char>::empty());
}

/// The normalized string neither begins nor ends with white space exactly
/// when, in the trimmed input, the first and the last character that are no
/// control characters are no white space.
pub proof fn lemma_normalized_is_trimmed(s: Seq<char>)
    ensures
        is_trimmed(normalized(s)) <==> {
            &&& first_kept(trim(s)) matches Some(c) ==> !is_whitespace(c)
            &&& last_kept(trim(s)) matches Some(c) ==> !is_whitespace(c)
        },
{
    lemma_strip_control_edges(trim(s));
}

/// Where the input holds no control character other than white space, the
/// normalized string neither begins nor ends with white space.
pub proof fn lemma_normalized_is_trimmed_without_stray_control(s: Seq<char>)
    requires
        forall|i: int| 0 <= i < s.len() && is_control(#[trigger] s[i]) ==> is_whitespace(s[i]),
    ensures
        is_trimmed(normalized(s)),
{
    let t = trim(s);
    lemma_trim_is_part(s);
    lemma_trim_is_trimmed(s);
    lemma_normalized_is_trimmed(s);
    if t.len() > 0 {
        assert(!is_control(t.first()));
        assert(!is_control(t.last()));
    }
}

/// Every character of `trim(s)` is a character of `s`.
proof fn lemma_trim_is_part(s: Seq<char>)
    ensures
        forall|i: int| 0 <= i < trim(s).len() ==> s.contains(#[trigger] trim(s)[i]),
        all_control(s) ==> all_control(trim(s)),
        (forall|i: int| 0 <= i < s.len() && is_control(#[trigger] s[i]) ==> is_whitespace(s[i]))
            ==> (forall|i: int|
            0 <= i < trim(s).len() && is_control(#[trigger] trim(s)[i]) ==> is_whitespace(
                trim(s)[i],
            )),
{
    lemma_trim_is_slice(s);
    let (a, b) = choose|a: int, b: int| 0 <= a <= b <= s.len() && trim(s) == s.subrange(a, b);
    assert forall|i: int| 0 <= i < trim(s).len() implies s.contains(#[trigger] trim(s)[i]) by {
        assert(trim(s)[i] == s[a + i]);
    }
    assert forall|i: int| 0 <= i < trim(s).len() implies trim(s)[i] == s[a + i] by {}
}

/// `trim(s)` is a stretch of `s`.
proof fn lemma_trim_is_slice(s: Seq<char>)
    ensures
        exists|a: int, b: int| 0 <= a <= b <= s.len() && trim(s) == s.subrange(a, b),
{
    lemma_trim_start_shape(s);
    let t = trim_start(s);
    lemma_trim_end_shape(t);
    let a = s.len() - t.len();
    let b = a + trim(s).len();
    assert(trim(s) =~= s.subrange(a, b));
}

/// The ends of what `strip_control` keeps.
proof fn lemma_strip_control_edges(s: Seq<char>)
    ensures
        match first_kept(s) {
            None => strip_control(s).len() == 0,
            Some(c) => strip_control(s).len() > 0 && strip_control(s).first() == c,
        },
        match last_kept(s) {
            None => strip_control(s).len() == 0,
            Some(c) => strip_control(s).len() > 0 && strip_control(s).last() == c,
        },
    decreases s.len(),
{
    let pred = |c: char| !is_control(c);
    reveal(Seq::filter);
    if s.len() > 0 {
        let head = seq![s.first()];
        let tail = s.drop_first();
        assert(s =~= head + tail);
        Seq::filter_distributes_over_add(head, tail, pred);
        lemma_filter_push(Seq::<char>::empty(), s.first(), pred);
        assert(head =~= Seq::<char>::empty().push(s.first()));
        assert(Seq::<char>::empty().filter(pred) =~= Seq::<char>::empty());
        lemma_strip_control_edges(tail);
        lemma_strip_control_edges(s.drop_last());
        if is_control(s.first()) {
            assert(head.filter(pred) + tail.filter(pred) =~= tail.filter(pred));
        } else {
            assert((head.filter(pred) + tail.filter(pred)).first() == s.first());
        }
    }
}

/// Nothing is kept of a string of control characters.
proof fn lemma_no_kept(s: Seq<char>)
    requires
        all_control(s),
    ensures
        first_kept(s) is None,
    decreases s.len(),
{
    if s.len() > 0 {
        assert(is_control(s[0]));
        assert forall|i: int| 0 <= i < s.drop_first().len() implies is_control(
            #[trigger] s.drop_first()[i],
        ) by {
            assert(s.drop_first()[i] == s[i + 1]);
        }
        lemma_no_kept(s.drop_first());
    }
}

} // verus!
