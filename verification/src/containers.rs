//! Which media containers need transcoding before the player can show them.

use crate::text::to_chars;
use vstd::prelude::*;

verus! {

/// The text that `str::to_lowercase` makes of `s`: its lowercase equivalent
/// as Unicode defines it.
pub uninterp spec fn lowercase(s: Seq<char>) -> Seq<char>;

/// `str::to_lowercase` depends on the text alone.
pub assume_specification[ str::to_lowercase ](s: &str) -> (lower: String)
    ensures
        lower@ == lowercase(s@),
;

/// Whether `needle` occurs in `s` as a run of neighbouring characters.
pub open spec fn occurs_in(needle: Seq<char>, s: Seq<char>) -> bool {
    exists|i: int| occurs_at(needle, s, i)
}

/// Whether `needle` occurs in `s` starting at index `i`.
pub open spec fn occurs_at(needle: Seq<char>, s: Seq<char>, i: int) -> bool {
    0 <= i && i + needle.len() <= s.len() && s.subrange(i, i + needle.len()) == needle
}

/// The extensions of the containers that the player cannot show: matroska,
/// avi, windows media, quicktime, flash video, webm and m4v.
pub open spec fn unsupported_extensions() -> Seq<Seq<char>> {
    seq!["mkv"@, "avi"@, "wmv"@, "mov"@, "flv"@, "webm"@, "m4v"@]
}

/// Whether a URL in lower case shows the extension `ext`: whether it ends
/// with it, or holds it behind a dot anywhere.
pub open spec fn shows_extension(lower_url: Seq<char>, ext: Seq<char>) -> bool {
    ext.is_suffix_of(lower_url) || occurs_in(seq!['.'] + ext, lower_url)
}

/// Whether a URL in lower case shows one of the unsupported extensions.
pub open spec fn shows_unsupported_container(lower_url: Seq<char>) -> bool {
    exists|k: int|
        0 <= k < unsupported_extensions().len() && shows_extension(
            lower_url,
            #[trigger] unsupported_extensions()[k],
        )
}

/// Whether `text` ends with `pattern`.
pub fn ends_with(text: &Vec<char>, pattern: &Vec<char>) -> (found: bool)
    ensures
        found == pattern@.is_suffix_of(text@),
{
    if pattern.len() > text.len() {
        return false;
    }
    let offset: usize = text.len() - pattern.len();
    let mut i: usize = 0;
    while i < pattern.len()
        invariant
            i <= pattern.len(),
            offset + pattern.len() == text.len(),
            forall|j: int| 0 <= j < i ==> text@[offset + j] == pattern@[j],
        decreases pattern.len() - i,
    {
        if text[offset + i] != pattern[i] {
            assert(text@.skip(offset as int)[i as int] != pattern@[i as int]);
            return false;
        }
        i += 1;
    }
    assert(text@.skip(offset as int) =~= pattern@);
    true
}

/// Whether `pattern` stands in `text` at index `at`.
fn matches_at(text: &Vec<char>, pattern: &Vec<char>, at: usize) -> (found: bool)
    requires
        at + pattern.len() <= text.len(),
    ensures
        found == occurs_at(pattern@, text@, at as int),
{
    let mut i: usize = 0;
    while i < pattern.len()
        invariant
            i <= pattern.len(),
            at + pattern.len() <= text.len(),
            forall|j: int| 0 <= j < i ==> text@[at + j] == pattern@[j],
        decreases pattern.len() - i,
    {
        if text[at + i] != pattern[i] {
            assert(text@.subrange(at as int, at + pattern.len())[i as int] != pattern@[i as int]);
            return false;
        }
        i += 1;
    }
    assert(text@.subrange(at as int, at + pattern.len()) =~= pattern@);
    true
}

/// Whether `pattern` occurs anywhere in `text`.
pub fn contains(text: &Vec<char>, pattern: &Vec<char>) -> (found: bool)
    ensures
        found == occurs_in(pattern@, text@),
{
    if pattern.len() > text.len() {
        return false;
    }
    let last: usize = text.len() - pattern.len();
    let mut at: usize = 0;
    loop
        invariant
            at <= last,
            last + pattern.len() == text.len(),
            forall|i: int| 0 <= i < at ==> !occurs_at(pattern@, text@, i),
        decreases last - at,
    {
        if matches_at(text, pattern, at) {
            return true;
        }
        if at == last {
            return false;
        }
        at += 1;
    }
}

/// Whether a URL in lower case shows the extension `ext`.
fn shows(lower_url: &Vec<char>, ext: &str) -> (found: bool)
    ensures
        found == shows_extension(lower_url@, ext@),
{
    let bare = to_chars(ext);
    if ends_with(lower_url, &bare) {
        return true;
    }
    let mut dotted: Vec<char> = Vec::new();
    dotted.push('.');
    let mut i: usize = 0;
    while i < bare.len()
        invariant
            i <= bare.len(),
            dotted@ == seq!['.'] + bare@.take(i as int),
        decreases bare.len() - i,
    {
        dotted.push(bare[i]);
        i += 1;
        assert(dotted@ =~= seq!['.'] + bare@.take(i as int));
    }
    assert(bare@.take(bare@.len() as int) =~= bare@);
    contains(lower_url, &dotted)
}

/// Whether a URL that is in lower case already names a container that the
/// player cannot show. The test looks at the text only: the URL ends with
/// one of the unsupported extensions, or holds one behind a dot.
pub fn is_unsupported_container(lower_url: &str) -> (unsupported: bool)
    ensures
        unsupported == shows_unsupported_container(lower_url@),
{
    let chars = to_chars(lower_url);
    let ghost table = unsupported_extensions();
    let found = shows(&chars, "mkv") || shows(&chars, "avi") || shows(&chars, "wmv") || shows(
        &chars,
        "mov",
    ) || shows(&chars, "flv") || shows(&chars, "webm") || shows(&chars, "m4v");
    proof {
        assert(table[0] == "mkv"@ && table[1] == "avi"@ && table[2] == "wmv"@ && table[3]
            == "mov"@ && table[4] == "flv"@ && table[5] == "webm"@ && table[6] == "m4v"@);
        if found {
            let k = if shows_extension(chars@, "mkv"@) {
                0int
            } else if shows_extension(chars@, "avi"@) {
                1
            } else if shows_extension(chars@, "wmv"@) {
                2
            } else if shows_extension(chars@, "mov"@) {
                3
            } else if shows_extension(chars@, "flv"@) {
                4
            } else if shows_extension(chars@, "webm"@) {
                5
            } else {
                6
            };
            assert(shows_extension(chars@, table[k]));
        }
    }
    found
}

/// Whether the video behind `url` must be transcoded before it can be
/// played. The URL is put into lower case and classified by its text; the
/// stream itself is never looked at.
pub fn needs_transcoding(url: &str) -> (needed: bool)
    ensures
        needed == shows_unsupported_container(lowercase(url@)),
{
    let lower_url = url.to_lowercase();
    is_unsupported_container(lower_url.as_str())
}

} // verus!
