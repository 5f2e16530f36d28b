//! How a download's file name is derived from its display name and its URL.

use crate::text::{string_from, to_chars};
use vstd::prelude::*;
use vstd::string::StringExecFns;

verus! {

/// Whether `char::is_alphanumeric` holds of `c`: whether Unicode classes it
/// as a letter or a number.
pub uninterp spec fn alphanumeric(c: char) -> bool;

/// `char::is_alphanumeric` decides by the character alone.
pub assume_specification[ char::is_alphanumeric ](c: char) -> (r: bool)
    ensures
        r == alphanumeric(c),
;

/// The characters that may stand in a file stem: letters, numbers, space,
/// hyphen and underscore.
pub open spec fn is_safe_char(c: char) -> bool {
    alphanumeric(c) || c == ' ' || c == '-' || c == '_'
}

/// A safe character stands for itself, any other for an underscore.
pub open spec fn safe_char(c: char) -> char {
    if is_safe_char(c) {
        c
    } else {
        '_'
    }
}

/// The file stem derived from a display name, character by character.
pub open spec fn safe_name(name: Seq<char>) -> Seq<char> {
    name.map_values(|c: char| safe_char(c))
}

/// The text of `s` after the last occurrence of `c`; all of `s` when `c`
/// does not occur.
pub open spec fn after_last(s: Seq<char>, c: char) -> Seq<char>
    decreases s.len(),
{
    if s.len() == 0 {
        s
    } else if s.last() == c {
        Seq::empty()
    } else {
        after_last(s.drop_last(), c).push(s.last())
    }
}

/// The text of `s` before the first occurrence of `c`; all of `s` when `c`
/// does not occur.
pub open spec fn before_first(s: Seq<char>, c: char) -> Seq<char>
    decreases s.len(),
{
    if s.len() == 0 {
        s
    } else if s.first() == c {
        Seq::empty()
    } else {
        seq![s.first()] + before_first(s.drop_first(), c)
    }
}

/// The extension used when a URL shows none.
pub open spec fn default_extension() -> Seq<char> {
    "mp4"@
}

/// The file extension that a URL shows: what follows its last dot, up to a
/// question mark if there is one. A URL without a dot shows none, and the
/// default stands in.
pub open spec fn extension_of(url: Seq<char>) -> Seq<char> {
    if url.contains('.') {
        before_first(after_last(url, '.'), '?')
    } else {
        default_extension()
    }
}

/// The file name of a download: its safe stem, a dot, and its extension.
pub open spec fn file_name_of(name: Seq<char>, url: Seq<char>) -> Seq<char> {
    safe_name(name) + seq!['.'] + extension_of(url)
}

/// `after_last` is the suffix behind the last `c`: with `c` at index `i` and
/// nowhere later, it is everything from `i + 1` on.
pub proof fn lemma_after_last_is_suffix(s: Seq<char>, c: char, i: int)
    requires
        0 <= i < s.len(),
        s[i] == c,
        forall|j: int| i < j < s.len() ==> s[j] != c,
    ensures
        after_last(s, c) == s.skip(i + 1),
    decreases s.len(),
{
    if s.last() == c {
        assert(i == s.len() - 1);
        assert(s.skip(i + 1) =~= Seq::<char>::empty());
    } else {
        lemma_after_last_is_suffix(s.drop_last(), c, i);
        assert(s.drop_last().skip(i + 1).push(s.last()) =~= s.skip(i + 1));
    }
}

/// `before_first` is the prefix in front of the first `c`: with `c` at index
/// `i` and nowhere earlier, it is everything up to `i`.
pub proof fn lemma_before_first_is_prefix(s: Seq<char>, c: char, i: int)
    requires
        0 <= i <= s.len(),
        i < s.len() ==> s[i] == c,
        forall|j: int| 0 <= j < i ==> s[j] != c,
    ensures
        before_first(s, c) == s.take(i),
    decreases s.len(),
{
    if s.len() == 0 {
        assert(s.take(i) =~= s);
    } else if s.first() == c {
        assert(i == 0);
        assert(s.take(0) =~= Seq::<char>::empty());
    } else {
        assert(i >= 1);
        let rest = s.drop_first();
        assert forall|j: int| 0 <= j < i - 1 implies rest[j] != c by {
            assert(rest[j] == s[j + 1]);
        }
        lemma_before_first_is_prefix(rest, c, i - 1);
        assert(seq![s.first()] + rest.take(i - 1) =~= s.take(i));
    }
}

/// An extension never holds a question mark, and one taken from the URL
/// never holds a dot.
pub proof fn lemma_extension_is_clean(url: Seq<char>)
    ensures
        url.contains('.') ==> !extension_of(url).contains('.'),
        url.contains('.') ==> !extension_of(url).contains('?'),
{
    if url.contains('.') {
        lemma_after_last_has_none(url, '.');
        lemma_before_first_keeps_absence(after_last(url, '.'), '?', '.');
        lemma_before_first_has_none(after_last(url, '.'), '?');
    }
}

/// Nothing behind the last `c` is a `c`.
pub proof fn lemma_after_last_has_none(s: Seq<char>, c: char)
    ensures
        !after_last(s, c).contains(c),
    decreases s.len(),
{
    if s.len() > 0 && s.last() != c {
        lemma_after_last_has_none(s.drop_last(), c);
        let shorter = after_last(s.drop_last(), c);
        assert forall|j: int| 0 <= j < shorter.push(s.last()).len() implies shorter.push(
            s.last(),
        )[j] != c by {
            if j < shorter.len() {
                assert(shorter[j] == shorter.push(s.last())[j]);
                assert(shorter.contains(shorter[j]));
            }
        }
    }
}

/// Nothing in front of the first `c` is a `c`.
pub proof fn lemma_before_first_has_none(s: Seq<char>, c: char)
    ensures
        !before_first(s, c).contains(c),
    decreases s.len(),
{
    if s.len() > 0 && s.first() != c {
        lemma_before_first_has_none(s.drop_first(), c);
        let rest = before_first(s.drop_first(), c);
        let whole = seq![s.first()] + rest;
        assert forall|j: int| 0 <= j < whole.len() implies whole[j] != c by {
            if j > 0 {
                assert(whole[j] == rest[j - 1]);
                assert(rest.contains(rest[j - 1]));
            }
        }
    }
}

/// Cutting a text at the first `c` brings in no character `d` that it did
/// not hold.
pub proof fn lemma_before_first_keeps_absence(s: Seq<char>, c: char, d: char)
    requires
        !s.contains(d),
    ensures
        !before_first(s, c).contains(d),
    decreases s.len(),
{
    if s.len() > 0 && s.first() != c {
        assert(s[0] != d);
        let tail = s.drop_first();
        assert forall|j: int| 0 <= j < tail.len() implies tail[j] != d by {
            assert(tail[j] == s[j + 1]);
        }
        lemma_before_first_keeps_absence(tail, c, d);
        let rest = before_first(tail, c);
        let whole = seq![s.first()] + rest;
        assert forall|j: int| 0 <= j < whole.len() implies whole[j] != d by {
            if j > 0 {
                assert(whole[j] == rest[j - 1]);
                assert(rest.contains(rest[j - 1]));
            }
        }
    }
}

/// Derives a file stem from a display name: every character that is not a
/// letter, a number, a space, a hyphen or an underscore becomes an
/// underscore. The stem has the length of the name and holds safe
/// characters only.
pub fn safe_file_name(name: &str) -> (stem: String)
    ensures
        stem@ == safe_name(name@),
        stem@.len() == name@.len(),
        forall|i: int| 0 <= i < stem@.len() ==> is_safe_char(#[trigger] stem@[i]),
{
    let mut stem = String::new();
    for c in it: name.chars()
        invariant
            it.seq() == name@,
            stem@ == safe_name(name@.take(it.index())),
    {
        let kept = if c.is_alphanumeric() || c == ' ' || c == '-' || c == '_' {
            c
        } else {
            '_'
        };
        stem.push(kept);
        assert(safe_name(name@.take(it.index() + 1)) =~= safe_name(name@.take(it.index())).push(
            safe_char(c),
        ));
    }
    assert(name@.take(name@.len() as int) =~= name@);
    stem
}

/// The extension that `url` shows: the text behind its last dot, cut at the
/// first question mark, or `mp4` when the URL holds no dot.
pub fn file_extension(url: &str) -> (extension: String)
    ensures
        extension@ == extension_of(url@),
{
    let chars = to_chars(url);
    let mut dot: Option<usize> = None;
    let mut i: usize = 0;
    while i < chars.len()
        invariant
            i <= chars.len(),
            chars@ == url@,
            match dot {
                Some(d) => d < i && chars@[d as int] == '.' && forall|j: int|
                    d < j < i ==> chars@[j] != '.',
                None => forall|j: int| 0 <= j < i ==> chars@[j] != '.',
            },
        decreases chars.len() - i,
    {
        if chars[i] == '.' {
            dot = Some(i);
        }
        i += 1;
    }
    match dot {
        None => {
            proof {
                reveal_strlit("mp4");
            }
            "mp4".to_owned()
        },
        Some(d) => {
            let start: usize = d + 1;
            let mut end: usize = start;
            while end < chars.len() && chars[end] != '?'
                invariant
                    start <= end <= chars.len(),
                    forall|j: int| start <= j < end ==> chars@[j] != '?',
                decreases chars.len() - end,
            {
                end += 1;
            }
            proof {
                assert(url@.contains('.'));
                lemma_after_last_is_suffix(url@, '.', d as int);
                let tail = url@.skip(start as int);
                assert forall|j: int| 0 <= j < end - start implies tail[j] != '?' by {
                    assert(tail[j] == chars@[j + start]);
                }
                lemma_before_first_is_prefix(tail, '?', end - start);
                assert(tail.take(end - start) =~= chars@.subrange(start as int, end as int));
            }
            string_from(&chars, start, end)
        },
    }
}

/// The file name of a download: the safe stem of `name`, a dot, and the
/// extension that `url` shows.
pub fn download_file_name(name: &str, url: &str) -> (file_name: String)
    ensures
        file_name@ == file_name_of(name@, url@),
{
    let mut file_name = safe_file_name(name);
    file_name.push('.');
    let extension = file_extension(url);
    file_name.append(extension.as_str());
    file_name
}

} // verus!
