use watchtv::naming::{download_file_name, file_extension, safe_file_name};

#[test]
fn safe_name_replaces_punctuation() {
    assert_eq!(safe_file_name("Show: Pilot #1"), "Show_ Pilot _1");
}

#[test]
fn safe_name_is_reproducible() {
    assert_eq!(safe_file_name("Show: Pilot #1"), safe_file_name("Show: Pilot #1"));
}

#[test]
fn safe_name_keeps_allowed_characters() {
    assert_eq!(safe_file_name("abc XYZ-09_"), "abc XYZ-09_");
}

#[test]
fn safe_name_keeps_letters_of_any_script() {
    assert_eq!(safe_file_name("Émission №9"), "Émission _9");
    assert_eq!(safe_file_name("日本語/テレビ"), "日本語_テレビ");
}

#[test]
fn safe_name_of_empty_name_is_empty() {
    assert_eq!(safe_file_name(""), "");
}

#[test]
fn safe_name_replaces_path_separators_and_dots() {
    assert_eq!(safe_file_name("../etc/passwd"), "___etc_passwd");
}

#[test]
fn safe_name_holds_only_safe_characters() {
    let stem = safe_file_name("a\tb\nc*d?e\"f<g>h|i\\j/k:l");
    assert_eq!(stem.chars().count(), 23);
    assert!(stem.chars().all(|c| c.is_alphanumeric() || c == ' ' || c == '-' || c == '_'));
    assert_eq!(stem, "a_b_c_d_e_f_g_h_i_j_k_l");
}

#[test]
fn extension_is_taken_behind_the_last_dot() {
    assert_eq!(file_extension("http://x/video.mkv"), "mkv");
    assert_eq!(file_extension("http://host.example.com/a.b/video.tar.gz"), "gz");
}

#[test]
fn extension_is_cut_at_the_query() {
    assert_eq!(file_extension("http://x/video.mkv?token=1"), "mkv");
    assert_eq!(file_extension("http://x/video.mp4?a=1?b=2"), "mp4");
}

#[test]
fn extension_keeps_its_case() {
    assert_eq!(file_extension("http://x/video.MP4"), "MP4");
}

#[test]
fn extension_defaults_without_a_dot() {
    assert_eq!(file_extension("http://localhost/video"), "mp4");
    assert_eq!(file_extension(""), "mp4");
}

#[test]
fn extension_may_be_empty() {
    assert_eq!(file_extension("http://x/video."), "");
    assert_eq!(file_extension("http://x/video.?a=1"), "");
}

#[test]
fn extension_is_whatever_follows_the_last_dot() {
    assert_eq!(file_extension("http://example.com/video"), "com/video");
    assert_eq!(file_extension("http://x/a?file=b.ts"), "ts");
}

#[test]
fn file_name_joins_stem_and_extension() {
    assert_eq!(
        download_file_name("Show: Pilot #1", "http://x/video.mkv?token=1"),
        "Show_ Pilot _1.mkv"
    );
    assert_eq!(download_file_name("News", "http://localhost/stream"), "News.mp4");
}
