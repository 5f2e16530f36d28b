use watchtv::playlist::{build_entry, parse_m3u_content, parse_m3u_document, trimmed_lines};
use watchtv::types::PlaylistItem;

fn line(text: &str) -> Vec<char> {
    text.chars().collect()
}

#[test]
fn lines_are_split_and_trimmed() {
    assert_eq!(trimmed_lines("a\n  b \r\n\nc"), vec![line("a"), line("b"), line(""), line("c")]);
    assert_eq!(trimmed_lines(""), vec![line("")]);
    assert_eq!(trimmed_lines("x\n"), vec![line("x"), line("")]);
    assert_eq!(trimmed_lines("a\rb"), vec![line("a\rb")]);
}

#[test]
fn entry_takes_its_fields_from_the_header() {
    let item = build_entry(
        "#EXTINF:-1 tvg-id=\"bbc1\" tvg-logo=\"http://l/bbc.png\" group-title=\"News\",BBC One",
        "http://s/bbc1.m3u8".to_string(),
        4,
    );
    assert_eq!(
        item,
        PlaylistItem {
            id: "bbc1".to_string(),
            name: "BBC One".to_string(),
            url: "http://s/bbc1.m3u8".to_string(),
            tvg_id: Some("bbc1".to_string()),
            tvg_logo: Some("http://l/bbc.png".to_string()),
            group_title: "News".to_string(),
        }
    );
}

#[test]
fn entry_without_attributes_gets_defaults() {
    let item = build_entry("#EXTINF:-1", "http://s/1".to_string(), 4);
    assert_eq!(
        item,
        PlaylistItem {
            id: "item-4".to_string(),
            name: "Channel 5".to_string(),
            url: "http://s/1".to_string(),
            tvg_id: None,
            tvg_logo: None,
            group_title: "Uncategorized".to_string(),
        }
    );
}

#[test]
fn empty_attributes_count_as_missing() {
    let item = build_entry(
        "#EXTINF:-1 tvg-id=\"\" tvg-logo=\"\" group-title=\"\",  Name  ",
        "u".to_string(),
        0,
    );
    assert_eq!(item.id, "item-0");
    assert_eq!(item.tvg_id, None);
    assert_eq!(item.tvg_logo, None);
    assert_eq!(item.group_title, "Uncategorized");
    assert_eq!(item.name, "Name");
}

#[test]
fn name_is_what_follows_the_first_comma() {
    assert_eq!(build_entry("#EXTINF:-1,A, B, C", "u".to_string(), 0).name, "A, B, C");
    assert_eq!(build_entry("#EXTINF:-1,", "u".to_string(), 0).name, "Channel 1");
    assert_eq!(build_entry("#EXTINF:-1, ", "u".to_string(), 0).name, "");
    assert_eq!(
        build_entry("#EXTINF:-1 group-title=\"a,b\",Name", "u".to_string(), 0).name,
        "b\",Name"
    );
}

#[test]
fn playlist_is_read_in_file_order() {
    let content = "#EXTM3U\n\
        #EXTINF:-1 tvg-id=\"one\" group-title=\"Sports\",One\n\
        http://s/one\n\
        #EXTINF:-1 group-title=\"News\",Two\n\
        # a comment\n\
        \n\
        http://s/two\n\
        #EXTINF:-1,Three\n\
        http://s/three\n";
    let playlist = parse_m3u_content(content);
    assert_eq!(
        playlist.items,
        vec![
            PlaylistItem {
                id: "one".to_string(),
                name: "One".to_string(),
                url: "http://s/one".to_string(),
                tvg_id: Some("one".to_string()),
                tvg_logo: None,
                group_title: "Sports".to_string(),
            },
            PlaylistItem {
                id: "item-1".to_string(),
                name: "Two".to_string(),
                url: "http://s/two".to_string(),
                tvg_id: None,
                tvg_logo: None,
                group_title: "News".to_string(),
            },
            PlaylistItem {
                id: "item-2".to_string(),
                name: "Three".to_string(),
                url: "http://s/three".to_string(),
                tvg_id: None,
                tvg_logo: None,
                group_title: "Uncategorized".to_string(),
            },
        ]
    );
    assert_eq!(playlist.categories, vec!["News", "Sports", "Uncategorized"]);
}

#[test]
fn categories_are_sorted_and_occur_once() {
    let content = "#EXTINF:-1 group-title=\"b\",1\nu1\n\
        #EXTINF:-1 group-title=\"a\",2\nu2\n\
        #EXTINF:-1 group-title=\"b\",3\nu3\n\
        #EXTINF:-1 group-title=\"Z\",4\nu4\n\
        #EXTINF:-1 group-title=\"ab\",5\nu5\n\
        #EXTINF:-1 group-title=\"é\",6\nu6\n\
        #EXTINF:-1 group-title=\"a\",7\nu7\n";
    let playlist = parse_m3u_content(content);
    assert_eq!(playlist.items.len(), 7);
    assert_eq!(playlist.categories, vec!["Z", "a", "ab", "b", "é"]);
    let mut expected: Vec<String> = playlist.items.iter().map(|i| i.group_title.clone()).collect();
    expected.sort();
    expected.dedup();
    assert_eq!(playlist.categories, expected);
}

#[test]
fn header_without_location_makes_no_entry() {
    let playlist = parse_m3u_content("#EXTINF:-1,One\n#comment\n\n");
    assert_eq!(playlist.items, Vec::<PlaylistItem>::new());
    assert_eq!(playlist.categories, Vec::<String>::new());
}

#[test]
fn header_passes_over_a_header_that_follows_it() {
    let playlist = parse_m3u_content("#EXTINF:-1,One\n#EXTINF:-1,Two\nhttp://s/x\n");
    assert_eq!(playlist.items.len(), 1);
    assert_eq!(playlist.items[0].name, "One");
    assert_eq!(playlist.items[0].url, "http://s/x");
}

#[test]
fn location_without_header_is_passed_over() {
    let playlist = parse_m3u_content("http://s/lonely\n#EXTINF:-1,One\nhttp://s/one");
    assert_eq!(playlist.items.len(), 1);
    assert_eq!(playlist.items[0].url, "http://s/one");
    assert_eq!(playlist.items[0].id, "item-0");
}

#[test]
fn windows_line_ends_and_indentation_are_trimmed() {
    let playlist = parse_m3u_content("  #EXTINF:-1 group-title=\"G\",One  \r\n\thttp://s/one\r\n");
    assert_eq!(playlist.items.len(), 1);
    assert_eq!(playlist.items[0].name, "One");
    assert_eq!(playlist.items[0].url, "http://s/one");
    assert_eq!(playlist.categories, vec!["G"]);
}

#[test]
fn empty_text_is_an_empty_playlist() {
    let playlist = parse_m3u_content("");
    assert!(playlist.items.is_empty());
    assert!(playlist.categories.is_empty());
}

#[test]
fn document_must_begin_with_the_playlist_mark() {
    assert_eq!(
        parse_m3u_document("<html></html>").unwrap_err(),
        "Response does not appear to be a valid M3U file"
    );
    assert_eq!(
        parse_m3u_document("#EXTINF:-1,One\nhttp://s/one").unwrap_err(),
        "Response does not appear to be a valid M3U file"
    );
    assert!(parse_m3u_document("").is_err());
}

#[test]
fn document_with_mark_is_read() {
    let playlist = parse_m3u_document("\n  #EXTM3U x\n#EXTINF:-1,One\nhttp://s/one").unwrap();
    assert_eq!(playlist.items.len(), 1);
    assert_eq!(playlist.items[0].name, "One");
    assert_eq!(playlist.categories, vec!["Uncategorized"]);
    assert!(parse_m3u_document("#EXTM3U").unwrap().items.is_empty());
}

fn categories_of(titles: &[&str]) -> Vec<String> {
    let mut content = String::new();
    for title in titles {
        content.push_str(&format!("#EXTINF:-1 group-title=\"{}\",x\nhttp://s/x\n", title));
    }
    parse_m3u_content(&content).categories
}

#[test]
fn category_is_inserted_at_its_place() {
    assert_eq!(
        categories_of(&["m", "a", "z", "m", "ma", " ", "a", "B"]),
        vec![" ", "B", "a", "m", "ma", "z"]
    );
}

#[test]
fn categories_are_ordered_by_code_point() {
    assert_eq!(
        categories_of(&["\u{10000}", "\u{ff5e}", "z", "é", "e\u{301}"]),
        vec!["e\u{301}", "z", "é", "\u{ff5e}", "\u{10000}"]
    );
}

#[test]
fn prefix_comes_before_what_it_begins() {
    assert_eq!(categories_of(&["abc", "ab", "a", "b", "aa"]), vec!["a", "aa", "ab", "abc", "b"]);
}
