use anilist::models::{FuzzyDate, MediaTitle, NextAiringEpisode, CharacterName, StaffNameFull};
use anilist::startup::format_commands;
use anilist::store::TitleLanguage;
use anilist::text::{clean_html, contains, join_strings, truncate, u128_to_string, u64_to_string};

fn title(romaji: Option<&str>, english: Option<&str>, native: Option<&str>) -> MediaTitle {
    MediaTitle {
        romaji: romaji.map(|s| s.to_string()),
        english: english.map(|s| s.to_string()),
        native: native.map(|s| s.to_string()),
    }
}

#[test]
fn cleaning_twice_changes_nothing() {
    for input in ["<b>Hello</b>   <i>world</i><br>\n next", "  a  b\t c ", "", "x < y > z", "<p>one</p><p>two</p>"] {
        let once = clean_html(input);
        assert_eq!(clean_html(&once), once);
    }
}

#[test]
fn clean_html_strips_tags_and_collapses_space() {
    assert_eq!(clean_html("<b>Hello</b>   <i>world</i><br>\n next"), "Hello world next");
    assert_eq!(clean_html("  plain text  "), "plain text");
    assert_eq!(clean_html(""), "");
    assert_eq!(clean_html("<p></p>"), "");
}

#[test]
fn truncate_marks_a_cut() {
    assert_eq!(truncate("abcdef", 3), "abc…");
    assert_eq!(truncate("abc", 3), "abc");
    assert_eq!(truncate("", 0), "");
    assert_eq!(truncate("héllo", 2), "hé…");
}

#[test]
fn decimal_text() {
    assert_eq!(u64_to_string(0), "0");
    assert_eq!(u64_to_string(1234567890), "1234567890");
    assert_eq!(u64_to_string(u64::MAX), u64::MAX.to_string());
    assert_eq!(u128_to_string(u128::MAX), u128::MAX.to_string());
}

#[test]
fn joining_and_searching() {
    let list = vec!["a".to_string(), "bb".to_string(), "c".to_string()];
    assert_eq!(join_strings(&list, ", "), "a, bb, c");
    assert_eq!(join_strings(&Vec::new(), ", "), "");
    assert!(contains("UNIQUE constraint failed", "UNIQUE"));
    assert!(!contains("unique", "UNIQUE"));
    assert!(contains("anything", ""));
}

#[test]
fn preferred_title_order() {
    assert_eq!(title(Some("Shingeki"), Some("Attack"), Some("進撃")).preferred(), "Attack");
    assert_eq!(title(Some("Shingeki"), None, Some("進撃")).preferred(), "Shingeki");
    assert_eq!(title(None, None, Some("進撃")).preferred(), "進撃");
    assert_eq!(title(None, None, None).preferred(), "Unknown Title");
}

#[test]
fn title_in_language() {
    let t = title(Some("Shingeki"), None, Some("進撃"));
    assert_eq!(t.get_title(Some(TitleLanguage::Romaji)), "Shingeki");
    assert_eq!(t.get_title(Some(TitleLanguage::English)), "Unknown Title");
    assert_eq!(t.get_title(Some(TitleLanguage::Native)), "進撃");
    assert_eq!(t.get_title(None), "Shingeki");
    assert_eq!(t.romaji(), "Shingeki");
    assert_eq!(t.english(), "Unknown Title");
    assert_eq!(t.native(), "進撃");
}

#[test]
fn names_prefer_full() {
    let c = CharacterName { full: Some("Levi".to_string()), native: Some("リヴァイ".to_string()) };
    assert_eq!(c.preferred(), "Levi");
    let c2 = CharacterName { full: None, native: Some("リヴァイ".to_string()) };
    assert_eq!(c2.preferred(), "Unknown");
    let s = StaffNameFull { full: None, native: None };
    assert_eq!(s.preferred(), "Unknown");
}

#[test]
fn fuzzy_dates() {
    let d = |y, m, day| FuzzyDate { year: y, month: m, day };
    assert_eq!(d(Some(2013), Some(4), Some(7)).display(), "2013-04-07");
    assert_eq!(d(Some(2013), Some(11), None).display(), "2013-11");
    assert_eq!(d(Some(2013), None, None).display(), "2013");
    assert_eq!(d(None, Some(4), Some(7)).display(), "Unknown");
    assert_eq!(d(Some(2013), None, Some(7)).display(), "Unknown");
}

#[test]
fn countdowns() {
    let e = |secs| NextAiringEpisode { airing_at: 0, episode: 1, time_until_airing: secs };
    assert_eq!(e(59).countdown(), "0m");
    assert_eq!(e(45 * 60).countdown(), "45m");
    assert_eq!(e(3 * 3600 + 5 * 60).countdown(), "3h 5m");
    assert_eq!(e(2 * 86400 + 4 * 3600 + 59 * 60).countdown(), "2d 4h 59m");
    assert_eq!(e(-100).countdown(), "0m");
    assert_eq!(e(90061).countdown(), "1d 1h 1m");
}

#[test]
fn command_lines_wrap_at_forty_two() {
    let cmds: Vec<String> = ["anime", "manga", "character", "staff", "studio", "profile", "compare"]
        .iter()
        .map(|s| s.to_string())
        .collect();
    let lines = format_commands(&cmds);
    assert_eq!(lines, vec![
        "/anime  /manga  /character  /staff".to_string(),
        "/studio  /profile  /compare".to_string(),
    ]);
    for l in &lines {
        assert!(l.len() <= 42);
    }
    assert!(format_commands(&[]).is_empty());
    let long = vec!["x".repeat(50)];
    assert_eq!(format_commands(&long), vec![format!("/{}", "x".repeat(50))]);
}
