//! Reading an M3U playlist: its entries in file order, and the group
//! titles that occur among them.

use crate::text::{
    decimal, lemma_text_lt_irreflexive, lemma_text_lt_total, lemma_text_lt_transitive, starts_with, string_from, text_before,
    text_lt, to_chars, trim, trimmed, u64_to_decimal,
};
use crate::types::{
    item_views, opt_text, texts, ParsedPlaylist, PlaylistItem, PlaylistItemView,
};
use vstd::prelude::*;
use vstd::string::StringExecFns;

verus! {

/// The text that the first capture group of the regular expression
/// `pattern` takes in the leftmost match of `pattern` in `text`. There is
/// none when `pattern` is not a regular expression, when it matches
/// nowhere in `text`, or when the group takes no part in the match.
pub uninterp spec fn first_capture(pattern: Seq<char>, text: Seq<char>) -> Option<Seq<char>>;

/// Compiles `pattern` with `regex::Regex::new`, searches `text` with
/// `Regex::captures` and takes group 1 of what was found with
/// `Captures::get`, as text. The search looks at nothing but the pattern
/// and the text. The expression is compiled on every call.
#[verifier::external_body]
fn capture_first_group(pattern: &str, text: &str) -> (captured: Option<String>)
    ensures
        opt_text(captured) == first_capture(pattern@, text@),
{
    match regex::Regex::new(pattern) {
        Ok(expression) => expression.captures(text).and_then(|found| found.get(1)).map(
            |group| group.as_str().to_owned(),
        ),
        Err(_) => None,
    }
}

/// The expression that finds the guide id of an entry.
pub const TVG_ID_PATTERN: &'static str = "tvg-id=\"([^\"]*)\"";

/// The expression that finds the logo of an entry.
pub const TVG_LOGO_PATTERN: &'static str = "tvg-logo=\"([^\"]*)\"";

/// The expression that finds the group title of an entry.
pub const GROUP_TITLE_PATTERN: &'static str = "group-title=\"([^\"]*)\"";

/// The expression that finds the display name of an entry: what follows a
/// comma, to the end of the line.
pub const NAME_PATTERN: &'static str = ",(.+)$";

/// The group of an entry that names none.
pub open spec fn default_group() -> Seq<char> {
    "Uncategorized"@
}

/// The mark with which the header of an entry begins.
pub open spec fn entry_mark() -> Seq<char> {
    "#EXTINF:"@
}

/// The mark with which a playlist begins.
pub open spec fn playlist_mark() -> Seq<char> {
    "#EXTM3U"@
}

/// The lines of a text. A newline ends a line and begins the next; every
/// other character belongs to the line it stands in.
pub open spec fn lines_of(s: Seq<char>) -> Seq<Seq<char>>
    decreases s.len(),
{
    if s.len() == 0 {
        seq![Seq::empty()]
    } else {
        let before = lines_of(s.drop_last());
        if s.last() == '\n' {
            before.push(Seq::empty())
        } else {
            before.drop_last().push(before.last().push(s.last()))
        }
    }
}

/// The lines of a text, each without the whitespace around it.
pub open spec fn trimmed_lines_of(s: Seq<char>) -> Seq<Seq<char>> {
    trim_all(lines_of(s))
}

/// Each of `lines` without the whitespace around it.
pub open spec fn trim_all(lines: Seq<Seq<char>>) -> Seq<Seq<char>> {
    Seq::new(lines.len(), |i: int| trim(lines[i]))
}

/// The views of a vector of lines.
pub open spec fn rows(lines: Seq<Vec<char>>) -> Seq<Seq<char>> {
    Seq::new(lines.len(), |i: int| lines[i]@)
}

/// Whether a line is the header of an entry.
pub open spec fn is_header(line: Seq<char>) -> bool {
    entry_mark().is_prefix_of(line)
}

/// Whether a line names a location: it is not empty and not a comment.
pub open spec fn is_location(line: Seq<char>) -> bool {
    line.len() > 0 && line[0] != '#'
}

/// The index of the first location line at or after `from`, or the number
/// of lines if there is none.
pub open spec fn next_location(lines: Seq<Seq<char>>, from: int) -> int
    decreases lines.len() - from,
{
    if from < 0 || from >= lines.len() {
        lines.len() as int
    } else if is_location(lines[from]) {
        from
    } else {
        next_location(lines, from + 1)
    }
}

/// A captured text, unless it is empty.
pub open spec fn non_empty(captured: Option<Seq<char>>) -> Option<Seq<char>> {
    match captured {
        Some(text) => if text.len() == 0 {
            None
        } else {
            captured
        },
        None => None,
    }
}

/// The entry that the header line `header` and the location `url` make,
/// as the entry number `index` of its playlist, counted from zero. Guide
/// id, logo and group are what the header gives in quotes behind
/// `tvg-id=`, `tvg-logo=` and `group-title=`, where that is not empty. The
/// name is what follows the comma, trimmed. An entry without a group is
/// uncategorized, one without a name is `Channel` and its number counted
/// from one, and one without a guide id gets `item-` and its index as id.
pub open spec fn entry_of(header: Seq<char>, url: Seq<char>, index: nat) -> PlaylistItemView {
    let tvg_id = non_empty(first_capture(TVG_ID_PATTERN@, header));
    PlaylistItemView {
        id: match tvg_id {
            Some(id) => id,
            None => "item-"@ + decimal(index),
        },
        name: match first_capture(NAME_PATTERN@, header) {
            Some(name) => trim(name),
            None => "Channel "@ + decimal(index + 1),
        },
        url,
        tvg_id,
        tvg_logo: non_empty(first_capture(TVG_LOGO_PATTERN@, header)),
        group_title: match non_empty(first_capture(GROUP_TITLE_PATTERN@, header)) {
            Some(group) => group,
            None => default_group(),
        },
    }
}

/// The entries that the trimmed lines hold from line `i` on, when `count`
/// entries came before. A header makes an entry with the first location
/// line after it; the lines between them are passed over, and a header
/// that no location follows makes none.
pub open spec fn items_from(lines: Seq<Seq<char>>, i: int, count: nat) -> Seq<PlaylistItemView>
    decreases lines.len() - i,
{
    if i < 0 || i >= lines.len() {
        Seq::empty()
    } else if is_header(lines[i]) {
        let j = next_location(lines, i + 1);
        if i < j < lines.len() {
            seq![entry_of(lines[i], lines[j], count)] + items_from(lines, j + 1, count + 1)
        } else {
            Seq::empty()
        }
    } else {
        items_from(lines, i + 1, count)
    }
}

/// The entries of a playlist text, in file order.
pub open spec fn items_of(content: Seq<char>) -> Seq<PlaylistItemView> {
    items_from(trimmed_lines_of(content), 0, 0)
}

/// Whether one of `items` belongs to the group `title`.
pub open spec fn has_group(items: Seq<PlaylistItemView>, title: Seq<char>) -> bool {
    exists|k: int| 0 <= k < items.len() && #[trigger] items[k].group_title == title
}

/// Whether `titles` stand in ascending order with none twice.
pub open spec fn strictly_sorted(titles: Seq<Seq<char>>) -> bool {
    forall|i: int, j: int| 0 <= i < j < titles.len() ==> text_lt(titles[i], titles[j])
}

/// A trimmed line more on both sides keeps lines and texts in step.
proof fn lemma_push_trimmed(
    lines: Seq<Vec<char>>,
    raw: Seq<Seq<char>>,
    line: Vec<char>,
    text: Seq<char>,
)
    requires
        rows(lines) == trim_all(raw),
        line@ == trim(text),
    ensures
        rows(lines.push(line)) == trim_all(raw.push(text)),
{
    assert(rows(lines).len() == lines.len());
    assert(trim_all(raw).len() == raw.len());
    assert(lines.len() == raw.len());
    assert forall|k: int| 0 <= k < lines.len() + 1 implies rows(lines.push(line))[k] == trim_all(
        raw.push(text),
    )[k] by {
        if k < lines.len() {
            assert(rows(lines)[k] == trim_all(raw)[k]);
            assert(lines.push(line)[k] == lines[k]);
            assert(raw.push(text)[k] == raw[k]);
        } else {
            assert(lines.push(line)[k] == line);
            assert(raw.push(text)[k] == text);
        }
    }
    assert(rows(lines.push(line)) =~= trim_all(raw.push(text)));
}

/// Splits `content` into its lines and trims each.
pub fn trimmed_lines(content: &str) -> (lines: Vec<Vec<char>>)
    ensures
        rows(lines@) == trimmed_lines_of(content@),
{
    let chars = to_chars(content);
    let mut lines: Vec<Vec<char>> = Vec::new();
    let ghost mut raw: Seq<Seq<char>> = Seq::empty();
    let mut start: usize = 0;
    let mut i: usize = 0;
    proof {
        assert(chars@.take(0) =~= Seq::<char>::empty());
        assert(chars@.subrange(0, 0) =~= Seq::<char>::empty());
        assert(lines_of(chars@.take(0)) =~= raw.push(chars@.subrange(0, 0)));
        assert(rows(lines@) =~= trim_all(raw));
    }
    while i < chars.len()
        invariant
            start <= i <= chars.len(),
            lines_of(chars@.take(i as int)) == raw.push(chars@.subrange(start as int, i as int)),
            rows(lines@) == trim_all(raw),
        decreases chars.len() - i,
    {
        let ghost current = chars@.subrange(start as int, i as int);
        proof {
            assert(chars@.take(i + 1).drop_last() =~= chars@.take(i as int));
            assert(chars@.take(i + 1).last() == chars@[i as int]);
            assert(raw.push(current).drop_last() =~= raw);
        }
        if chars[i] == '\n' {
            let line = trimmed(&chars, start, i);
            let ghost lines_before = lines@;
            let ghost raw_before = raw;
            lines.push(line);
            proof {
                raw = raw.push(current);
                assert(chars@.subrange(i + 1, i + 1) =~= Seq::<char>::empty());
                lemma_push_trimmed(lines_before, raw_before, line, current);
            }
            start = i + 1;
        } else {
            proof {
                assert(current.push(chars@[i as int]) =~= chars@.subrange(start as int, i + 1));
            }
        }
        i += 1;
    }
    let line = trimmed(&chars, start, chars.len());
    let ghost lines_before = lines@;
    lines.push(line);
    proof {
        assert(chars@.take(chars@.len() as int) =~= chars@);
        lemma_push_trimmed(
            lines_before,
            raw,
            line,
            chars@.subrange(start as int, chars@.len() as int),
        );
    }
    lines
}

/// What a search captured, unless it is empty.
fn keep_non_empty(captured: Option<String>) -> (kept: Option<String>)
    ensures
        opt_text(kept) == non_empty(opt_text(captured)),
{
    match captured {
        Some(text) => if text.as_str().is_empty() {
            None
        } else {
            Some(text)
        },
        None => None,
    }
}

/// Builds the entry that `header` and `url` make as entry number `index`.
pub fn build_entry(header: &str, url: String, index: u64) -> (item: PlaylistItem)
    requires
        index < u64::MAX,
    ensures
        item@ == entry_of(header@, url@, index as nat),
{
    let tvg_id = keep_non_empty(capture_first_group(TVG_ID_PATTERN, header));
    let tvg_logo = keep_non_empty(capture_first_group(TVG_LOGO_PATTERN, header));
    let group_title = match keep_non_empty(capture_first_group(GROUP_TITLE_PATTERN, header)) {
        Some(group) => group,
        None => "Uncategorized".to_owned(),
    };
    let name = match capture_first_group(NAME_PATTERN, header) {
        Some(found) => {
            let chars = to_chars(found.as_str());
            let bare = trimmed(&chars, 0, chars.len());
            assert(chars@.subrange(0, chars@.len() as int) =~= chars@);
            assert(bare@.subrange(0, bare@.len() as int) =~= bare@);
            string_from(&bare, 0, bare.len())
        },
        None => {
            let number = u64_to_decimal(index + 1);
            "Channel ".to_owned().concat(number.as_str())
        },
    };
    let id = match &tvg_id {
        Some(id) => id.clone(),
        None => {
            let number = u64_to_decimal(index);
            "item-".to_owned().concat(number.as_str())
        },
    };
    PlaylistItem { id, name, url, tvg_id, tvg_logo, group_title }
}

/// Puts `title` into `categories` at its place in the order, unless it is
/// there already.
fn insert_category(categories: &mut Vec<String>, title: &str)
    requires
        strictly_sorted(texts(old(categories)@)),
    ensures
        strictly_sorted(texts(final(categories)@)),
        forall|c: Seq<char>|
            texts(final(categories)@).contains(c) <==> texts(old(categories)@).contains(c) || c
                == title@,
{
    let ghost before = texts(categories@);
    let mut k: usize = 0;
    while k < categories.len() && text_before(categories[k].as_str(), title)
        invariant
            k <= categories.len(),
            texts(categories@) == before,
            forall|j: int| 0 <= j < k ==> text_lt(before[j], title@),
        decreases categories.len() - k,
    {
        assert(before[k as int] == categories@[k as int]@);
        k += 1;
    }
    if k < categories.len() {
        assert(before[k as int] == categories@[k as int]@);
        if !text_before(title, categories[k].as_str()) {
            proof {
                lemma_text_lt_total(title@, before[k as int]);
                assert(before.contains(title@));
            }
            return ;
        }
    }
    categories.insert(k, title.to_owned());
    proof {
        let after = texts(categories@);
        assert(after =~= before.insert(k as int, title@));
        assert forall|i: int, j: int| 0 <= i < j < after.len() implies text_lt(
            after[i],
            after[j],
        ) by {
            if j == k {
                assert(after[i] == before[i]);
            } else if i == k {
                assert(after[j] == before[j - 1]);
                if j - 1 > k {
                    assert(text_lt(before[k as int], before[j - 1]));
                    lemma_text_lt_transitive(title@, before[k as int], before[j - 1]);
                }
            } else {
                let bi = if i < k {
                    i
                } else {
                    i - 1
                };
                let bj = if j < k {
                    j
                } else {
                    j - 1
                };
                assert(after[i] == before[bi] && after[j] == before[bj]);
            }
        }
        assert forall|c: Seq<char>| after.contains(c) <==> before.contains(c) || c
            == title@ by {
            if after.contains(c) {
                let i = choose|i: int| 0 <= i < after.len() && after[i] == c;
                if i < k {
                    assert(before[i] == c);
                } else if i > k {
                    assert(before[i - 1] == c);
                }
            }
            if before.contains(c) {
                let i = choose|i: int| 0 <= i < before.len() && before[i] == c;
                if i < k {
                    assert(after[i] == c);
                } else {
                    assert(after[i + 1] == c);
                }
            }
            if c == title@ {
                assert(after[k as int] == c);
            }
        }
    }
}

/// With no location line from `from` up to `j`, and one at `j` unless `j`
/// is the end, `j` is where `next_location` arrives.
pub proof fn lemma_next_location_is(lines: Seq<Seq<char>>, from: int, j: int)
    requires
        0 <= from <= j <= lines.len(),
        forall|k: int| from <= k < j ==> !is_location(lines[k]),
        j < lines.len() ==> is_location(lines[j]),
    ensures
        next_location(lines, from) == j,
    decreases j - from,
{
    if from < j {
        lemma_next_location_is(lines, from + 1, j);
    }
}

/// The message for a text that is no playlist.
pub open spec fn not_a_playlist_message() -> Seq<char> {
    "Response does not appear to be a valid M3U file"@
}

/// Whether a text presents itself as a playlist: whether, whitespace
/// aside, it begins with the playlist mark.
pub open spec fn is_playlist(content: Seq<char>) -> bool {
    playlist_mark().is_prefix_of(trim(content))
}

/// Reads a playlist. The entries come out in file order, as `items_of`
/// says; the categories are the group titles that occur among the entries,
/// each once, in ascending order.
pub fn parse_m3u_content(content: &str) -> (playlist: ParsedPlaylist)
    ensures
        playlist@.items == items_of(content@),
        strictly_sorted(playlist@.categories),
        forall|title: Seq<char>|
            playlist@.categories.contains(title) <==> has_group(items_of(content@), title),
{
    let lines = trimmed_lines(content);
    let ghost all = trimmed_lines_of(content@);
    let mark = to_chars("#EXTINF:");
    let mut items: Vec<PlaylistItem> = Vec::new();
    let mut categories: Vec<String> = Vec::new();
    let mut i: usize = 0;
    proof {
        assert(item_views(items@) + items_from(all, 0, 0) =~= items_from(all, 0, 0));
    }
    while i < lines.len()
        invariant
            rows(lines@) == all,
            mark@ == entry_mark(),
            i <= lines.len(),
            items.len() <= i,
            item_views(items@) + items_from(all, i as int, items.len() as nat) == items_from(
                all,
                0,
                0,
            ),
            strictly_sorted(texts(categories@)),
            forall|title: Seq<char>|
                texts(categories@).contains(title) <==> has_group(item_views(items@), title),
        decreases lines.len() - i,
    {
        assert(all[i as int] == lines@[i as int]@);
        if starts_with(&lines[i], &mark) {
            let mut j: usize = i + 1;
            while j < lines.len() && !(lines[j].len() > 0 && lines[j][0] != '#')
                invariant
                    i < j <= lines.len(),
                    rows(lines@) == all,
                    forall|k: int| i < k < j ==> !is_location(all[k]),
                decreases lines.len() - j,
            {
                assert(all[j as int] == lines@[j as int]@);
                j += 1;
            }
            proof {
                if j < lines.len() {
                    assert(all[j as int] == lines@[j as int]@);
                }
                lemma_next_location_is(all, i + 1, j as int);
            }
            if j < lines.len() {
                let header = string_from(&lines[i], 0, lines[i].len());
                let url = string_from(&lines[j], 0, lines[j].len());
                proof {
                    assert(all[i as int].subrange(0, all[i as int].len() as int) =~= all[i as int]);
                    assert(all[j as int].subrange(0, all[j as int].len() as int) =~= all[j as int]);
                }
                let item = build_entry(header.as_str(), url, items.len() as u64);
                let ghost entry = item@;
                let ghost before = item_views(items@);
                insert_category(&mut categories, item.group_title.as_str());
                items.push(item);
                proof {
                    let after = item_views(items@);
                    assert(after =~= before.push(entry));
                    assert(after + items_from(all, j + 1, items.len() as nat) =~= before + (
                    seq![entry] + items_from(all, j + 1, items.len() as nat)));
                    assert forall|title: Seq<char>|
                        texts(categories@).contains(title) <==> has_group(after, title) by {
                        if has_group(after, title) {
                            let k = choose|k: int|
                                0 <= k < after.len() && #[trigger] after[k].group_title == title;
                            if k < before.len() {
                                assert(before[k].group_title == title);
                            }
                        }
                        if has_group(before, title) {
                            let k = choose|k: int|
                                0 <= k < before.len() && #[trigger] before[k].group_title
                                    == title;
                            assert(after[k].group_title == title);
                        }
                        if title == entry.group_title {
                            assert(after[before.len() as int].group_title == title);
                        }
                    }
                }
                i = j + 1;
            } else {
                i = lines.len();
            }
        } else {
            i += 1;
        }
    }
    proof {
        assert(item_views(items@) + items_from(all, i as int, items.len() as nat) =~= item_views(
            items@,
        ));
    }
    ParsedPlaylist { items, categories }
}

/// Reads a text that was fetched as a playlist. A text that does not begin
/// with the playlist mark, whitespace aside, is refused; any other is read
/// as `parse_m3u_content` reads it.
pub fn parse_m3u_document(content: &str) -> (result: Result<ParsedPlaylist, String>)
    ensures
        match result {
            Ok(playlist) => {
                &&& is_playlist(content@)
                &&& playlist@.items == items_of(content@)
                &&& strictly_sorted(playlist@.categories)
                &&& forall|title: Seq<char>|
                    playlist@.categories.contains(title) <==> has_group(items_of(content@), title)
            },
            Err(message) => !is_playlist(content@) && message@ == not_a_playlist_message(),
        },
{
    let chars = to_chars(content);
    let bare = trimmed(&chars, 0, chars.len());
    assert(chars@.subrange(0, chars@.len() as int) =~= chars@);
    let mark = to_chars("#EXTM3U");
    if starts_with(&bare, &mark) {
        Ok(parse_m3u_content(content))
    } else {
        Err("Response does not appear to be a valid M3U file".to_owned())
    }
}

/// There is one way only to list a set of titles in ascending order: two
/// strictly sorted lists that hold the same titles are the same list. So
/// the categories of a playlist are determined by its entries.
pub proof fn lemma_sorted_titles_are_unique(a: Seq<Seq<char>>, b: Seq<Seq<char>>)
    requires
        strictly_sorted(a),
        strictly_sorted(b),
        forall|title: Seq<char>| a.contains(title) <==> b.contains(title),
    ensures
        a == b,
    decreases a.len(),
{
    if a.len() == 0 {
        if b.len() > 0 {
            assert(b.contains(b[0]));
        }
        assert(a =~= b);
    } else {
        assert(a.contains(a[0]));
        let at_b = choose|k: int| 0 <= k < b.len() && b[k] == a[0];
        assert(b.contains(b[0]));
        let at_a = choose|k: int| 0 <= k < a.len() && a[k] == b[0];
        if at_b > 0 && at_a > 0 {
            lemma_text_lt_transitive(a[0], a[at_a], a[0]);
            lemma_text_lt_irreflexive(a[0]);
        }
        if at_b > 0 {
            lemma_text_lt_irreflexive(a[0]);
        }
        assert(a[0] == b[0]);
        let rest_a = a.drop_first();
        let rest_b = b.drop_first();
        assert forall|title: Seq<char>| rest_a.contains(title) <==> rest_b.contains(title) by {
            lemma_text_lt_irreflexive(title);
            if rest_a.contains(title) {
                let k = choose|k: int| 0 <= k < rest_a.len() && rest_a[k] == title;
                assert(a[k + 1] == title);
                assert(a.contains(title));
                let n = choose|n: int| 0 <= n < b.len() && b[n] == title;
                assert(text_lt(a[0], a[k + 1]));
                assert(n > 0);
                assert(rest_b[n - 1] == title);
            }
            if rest_b.contains(title) {
                let k = choose|k: int| 0 <= k < rest_b.len() && rest_b[k] == title;
                assert(b[k + 1] == title);
                assert(b.contains(title));
                let n = choose|n: int| 0 <= n < a.len() && a[n] == title;
                assert(text_lt(b[0], b[k + 1]));
                assert(n > 0);
                assert(rest_a[n - 1] == title);
            }
        }
        assert forall|i: int, j: int| 0 <= i < j < rest_a.len() implies text_lt(
            rest_a[i],
            rest_a[j],
        ) by {
            assert(rest_a[i] == a[i + 1] && rest_a[j] == a[j + 1]);
        }
        assert forall|i: int, j: int| 0 <= i < j < rest_b.len() implies text_lt(
            rest_b[i],
            rest_b[j],
        ) by {
            assert(rest_b[i] == b[i + 1] && rest_b[j] == b[j + 1]);
        }
        lemma_sorted_titles_are_unique(rest_a, rest_b);
        assert(a =~= seq![a[0]] + rest_a);
        assert(b =~= seq![b[0]] + rest_b);
    }
}

} // verus!
