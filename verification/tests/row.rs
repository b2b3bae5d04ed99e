use hecto::grapheme::{clusters_of, join};
use hecto::row::{cluster_at_byte, insert_into, remove_from, render_cells};
use hecto::text::{find_bytes, rfind_bytes};
use hecto::{Row, SearchDirection, Type};

const RESET: &str = "\x1b[39m";

fn strings(items: &[&str]) -> Vec<String> {
    items.iter().map(|s| String::from(*s)).collect()
}

#[test]
fn row_from_a_line() {
    let row = Row::from("abc");
    assert_eq!(row.len(), 3);
    assert!(!row.is_empty());
    assert_eq!(row.as_str(), "abc");
    assert_eq!(row.as_bytes(), b"abc");
}

#[test]
fn row_from_an_empty_line() {
    let row = Row::from("");
    assert_eq!(row.len(), 0);
    assert!(row.is_empty());
    assert_eq!(row.as_str(), "");
    let row = Row::default();
    assert_eq!(row.len(), 0);
    assert!(row.is_empty());
    assert_eq!(row.as_str(), "");
}

#[test]
fn row_length_counts_grapheme_clusters() {
    assert_eq!(Row::from("a\u{310}e\u{301}o\u{308}\u{332}").len(), 3);
    assert_eq!(Row::from("a\r\nb🇷🇺🇸🇹").len(), 5);
    assert_eq!(Row::from("日本語").len(), 3);
    assert_eq!(Row::from("日本語").as_bytes().len(), 9);
}

#[test]
fn clusters_cover_the_text() {
    for text in ["", "abc", "a\u{310}e\u{301}", "🇷🇺🇸🇹x", "\r\n\t"] {
        let clusters = clusters_of(text);
        assert_eq!(clusters.concat(), text);
        assert!(clusters.iter().all(|c| !c.is_empty()));
        assert_eq!(join(&clusters, 0, clusters.len()), text);
    }
    let clusters = clusters_of("héllo");
    assert_eq!(clusters, strings(&["h", "é", "l", "l", "o"]));
    assert_eq!(join(&clusters, 1, 3), "él");
    assert_eq!(join(&clusters, 2, 2), "");
}

#[test]
fn insert_in_the_middle() {
    let mut row = Row::from("abc");
    row.insert(1, 'X');
    assert_eq!(row.as_str(), "aXbc");
    assert_eq!(row.len(), 4);
    row.insert(0, 'Y');
    assert_eq!(row.as_str(), "YaXbc");
    assert_eq!(row.len(), 5);
}

#[test]
fn insert_at_the_end_and_past_it() {
    let mut row = Row::from("abc");
    row.insert(3, 'd');
    assert_eq!(row.as_str(), "abcd");
    assert_eq!(row.len(), 4);
    row.insert(100, 'e');
    assert_eq!(row.as_str(), "abcde");
    assert_eq!(row.len(), 5);
    let mut row = Row::default();
    row.insert(0, 'x');
    assert_eq!(row.as_str(), "x");
    assert_eq!(row.len(), 1);
}

#[test]
fn insert_between_clusters_of_several_characters() {
    let mut row = Row::from("e\u{301}o\u{308}");
    row.insert(1, '-');
    assert_eq!(row.as_str(), "e\u{301}-o\u{308}");
    assert_eq!(row.len(), 3);
}

#[test]
fn insert_counts_a_combining_mark_at_the_end_as_one_more() {
    let mut row = Row::from("e");
    row.insert(1, '\u{301}');
    assert_eq!(row.as_str(), "e\u{301}");
    assert_eq!(row.len(), 2);
    row.insert(1, 'x');
    assert_eq!(row.as_str(), "e\u{301}");
    assert_eq!(row.len(), 1);
}

#[test]
fn insert_into_clusters() {
    let clusters = strings(&["a", "b", "c"]);
    assert_eq!(insert_into(&clusters, 0, 'x'), "xabc");
    assert_eq!(insert_into(&clusters, 2, 'x'), "abxc");
    assert_eq!(insert_into(&clusters, 3, 'x'), "abc");
    assert_eq!(insert_into(&Vec::new(), 0, 'x'), "");
}

#[test]
fn delete_a_cluster() {
    let mut row = Row::from("abc");
    row.delete(1);
    assert_eq!(row.as_str(), "ac");
    assert_eq!(row.len(), 2);
    row.delete(1);
    assert_eq!(row.as_str(), "a");
    row.delete(0);
    assert_eq!(row.as_str(), "");
    assert_eq!(row.len(), 0);
    assert!(row.is_empty());
}

#[test]
fn delete_past_the_end_changes_nothing() {
    let mut row = Row::from("abc");
    row.delete(3);
    assert_eq!(row.as_str(), "abc");
    assert_eq!(row.len(), 3);
    row.delete(usize::MAX);
    assert_eq!(row.as_str(), "abc");
    assert_eq!(row.len(), 3);
}

#[test]
fn delete_takes_a_whole_cluster() {
    let mut row = Row::from("ae\u{301}b");
    row.delete(1);
    assert_eq!(row.as_str(), "ab");
    assert_eq!(row.len(), 2);
}

#[test]
fn remove_from_clusters() {
    let clusters = strings(&["a", "b", "c"]);
    assert_eq!(remove_from(&clusters, 0), "bc");
    assert_eq!(remove_from(&clusters, 2), "ab");
    assert_eq!(remove_from(&clusters, 3), "abc");
}

#[test]
fn append_a_row() {
    let mut row = Row::from("ab");
    row.append(&Row::from("cd"));
    assert_eq!(row.as_str(), "abcd");
    assert_eq!(row.len(), 4);
    row.append(&Row::default());
    assert_eq!(row.as_str(), "abcd");
    assert_eq!(row.len(), 4);
}

#[test]
fn split_a_row() {
    let mut row = Row::from("hello world");
    let rest = row.split(5);
    assert_eq!(row.as_str(), "hello");
    assert_eq!(row.len(), 5);
    assert_eq!(rest.as_str(), " world");
    assert_eq!(rest.len(), 6);
}

#[test]
fn split_at_the_edges() {
    let mut row = Row::from("abc");
    let rest = row.split(0);
    assert_eq!(row.as_str(), "");
    assert_eq!(row.len(), 0);
    assert_eq!(rest.as_str(), "abc");
    assert_eq!(rest.len(), 3);
    let mut row = Row::from("abc");
    let rest = row.split(100);
    assert_eq!(row.as_str(), "abc");
    assert_eq!(row.len(), 3);
    assert_eq!(rest.as_str(), "");
    assert_eq!(rest.len(), 0);
}

#[test]
fn split_then_append_gives_the_text_back() {
    for at in 0..8 {
        let mut row = Row::from("ae\u{301}日本b\tc");
        let rest = row.split(at);
        row.append(&rest);
        assert_eq!(row.as_str(), "ae\u{301}日本b\tc");
        assert_eq!(row.len(), 7);
    }
}

#[test]
fn find_forward() {
    let row = Row::from("hello world hello");
    assert_eq!(row.find("hello", 0, SearchDirection::Forward), Some(0));
    assert_eq!(row.find("hello", 1, SearchDirection::Forward), Some(12));
    assert_eq!(row.find("world", 0, SearchDirection::Forward), Some(6));
    assert_eq!(row.find("world", 6, SearchDirection::Forward), Some(6));
    assert_eq!(row.find("world", 7, SearchDirection::Forward), None);
    assert_eq!(row.find("xyz", 0, SearchDirection::Forward), None);
}

#[test]
fn find_backward() {
    let row = Row::from("hello world hello");
    assert_eq!(row.find("hello", 17, SearchDirection::Backward), Some(12));
    assert_eq!(row.find("hello", 16, SearchDirection::Backward), Some(0));
    assert_eq!(row.find("hello", 12, SearchDirection::Backward), Some(0));
    assert_eq!(row.find("hello", 4, SearchDirection::Backward), None);
    assert_eq!(row.find("hello", 0, SearchDirection::Backward), None);
}

#[test]
fn find_nothing_for_an_empty_query_or_past_the_end() {
    let row = Row::from("abc");
    assert_eq!(row.find("", 0, SearchDirection::Forward), None);
    assert_eq!(row.find("", 3, SearchDirection::Backward), None);
    assert_eq!(row.find("a", 4, SearchDirection::Forward), None);
    assert_eq!(row.find("a", 4, SearchDirection::Backward), None);
    assert_eq!(row.find("c", 3, SearchDirection::Forward), None);
    assert_eq!(row.find("c", 3, SearchDirection::Backward), Some(2));
}

#[test]
fn find_answers_in_clusters_not_bytes() {
    let row = Row::from("aé日本b");
    assert_eq!(row.find("日", 0, SearchDirection::Forward), Some(2));
    assert_eq!(row.find("本b", 0, SearchDirection::Forward), Some(3));
    assert_eq!(row.find("b", 0, SearchDirection::Forward), Some(4));
    assert_eq!(row.find("b", 3, SearchDirection::Forward), Some(4));
    assert_eq!(row.find("é", 5, SearchDirection::Backward), Some(1));
}

#[test]
fn find_nothing_inside_a_cluster() {
    let row = Row::from("e\u{301}x");
    assert_eq!(row.find("\u{301}", 0, SearchDirection::Forward), None);
    assert_eq!(row.find("x", 0, SearchDirection::Forward), Some(1));
}

#[test]
fn first_and_last_occurrence_in_bytes() {
    assert_eq!(find_bytes(b"abcabc", b"bc"), Some(1));
    assert_eq!(rfind_bytes(b"abcabc", b"bc"), Some(4));
    assert_eq!(find_bytes(b"abc", b"abcd"), None);
    assert_eq!(rfind_bytes(b"abc", b"abcd"), None);
    assert_eq!(find_bytes(b"abc", b""), Some(0));
    assert_eq!(rfind_bytes(b"abc", b""), Some(3));
    assert_eq!(find_bytes(b"aaa", b"aa"), Some(0));
    assert_eq!(rfind_bytes(b"aaa", b"aa"), Some(1));
    assert_eq!(find_bytes(b"abc", b"x"), None);
    assert_eq!(rfind_bytes(b"abc", b"x"), None);
    for (hay, needle) in [("hello world hello", "hello"), ("", ""), ("abc", "c"), ("ababab", "bab")] {
        assert_eq!(find_bytes(hay.as_bytes(), needle.as_bytes()), hay.find(needle));
        assert_eq!(rfind_bytes(hay.as_bytes(), needle.as_bytes()), hay.rfind(needle));
    }
}

#[test]
fn cluster_at_a_byte() {
    let clusters = strings(&["a", "é", "日", "b"]);
    assert_eq!(cluster_at_byte(&clusters, 0), Some(0));
    assert_eq!(cluster_at_byte(&clusters, 1), Some(1));
    assert_eq!(cluster_at_byte(&clusters, 2), None);
    assert_eq!(cluster_at_byte(&clusters, 3), Some(2));
    assert_eq!(cluster_at_byte(&clusters, 6), Some(3));
    assert_eq!(cluster_at_byte(&clusters, 7), None);
    assert_eq!(cluster_at_byte(&Vec::new(), 0), None);
}

#[test]
fn render_plain_text() {
    let row = Row::from("abc");
    assert_eq!(row.render(0, 3), strings(&["a", "b", "c", RESET]));
    assert_eq!(row.render(0, 100), strings(&["a", "b", "c", RESET]));
    assert_eq!(row.render(1, 2), strings(&["b", RESET]));
    assert_eq!(row.render(2, 2), strings(&[RESET]));
    assert_eq!(row.render(5, 2), strings(&[RESET]));
    assert_eq!(Row::default().render(0, 10), strings(&[RESET]));
}

#[test]
fn render_a_tab_as_two_spaces() {
    let row = Row::from("a\tb");
    assert_eq!(row.render(0, 3), strings(&["a", "  ", "b", RESET]));
}

#[test]
fn render_the_first_character_of_each_cluster() {
    let row = Row::from("e\u{301}x");
    assert_eq!(row.render(0, 10), strings(&["e", "x", RESET]));
}

#[test]
fn render_cuts_the_end_to_the_number_of_bytes() {
    let row = Row::from("日本");
    assert_eq!(row.render(0, 1), strings(&["日", RESET]));
    assert_eq!(row.render(0, usize::MAX), strings(&["日", "本", RESET]));
}

#[test]
fn render_with_highlight_classes() {
    let mut row = Row::from("abcd");
    row.set_highlight(vec![Type::Keyword, Type::Keyword, Type::Plain, Type::String]);
    assert_eq!(
        row.render(0, 4),
        strings(&["\x1b[38;2;0;255;0ma", "b", "\x1b[39mc", "\x1b[38;2;64;160;43md", RESET])
    );
    assert_eq!(row.render(1, 3), strings(&["\x1b[38;2;0;255;0mb", "\x1b[39mc", RESET]));
    assert_eq!(row.as_str(), "abcd");
    assert_eq!(row.len(), 4);
}

#[test]
fn render_cells_without_a_class_as_plain() {
    let mut row = Row::from("abc");
    row.set_highlight(vec![Type::Comment]);
    assert_eq!(row.render(0, 3), strings(&["\x1b[38;2;92;95;119ma", "\x1b[39mb", "c", RESET]));
}

#[test]
fn render_cells_of_clusters() {
    let clusters = strings(&["a", "\t", "e\u{301}"]);
    let tags = vec![Type::Number; 3];
    assert_eq!(
        render_cells(&clusters, &tags, 0, 3),
        strings(&["\x1b[38;2;114;135;253ma", "  ", "e"])
    );
    assert_eq!(render_cells(&clusters, &Vec::new(), 1, 3), strings(&["  ", "e"]));
    assert_eq!(render_cells(&clusters, &tags, 2, 2), Vec::<String>::new());
}

#[test]
fn set_highlight_keeps_the_text() {
    let mut row = Row::from("héllo");
    row.set_highlight(vec![Type::Tag; 6]);
    assert_eq!(row.as_str(), "héllo");
    assert_eq!(row.len(), 5);
    row.set_highlight(Vec::new());
    assert_eq!(row.render(0, 6), strings(&["h", "é", "l", "l", "o", RESET]));
}
