use anilist::anilist::{random_step, RandomStep};
use anilist::commands::compare_pick;
use anilist::anilist::{cache_key, first_media, page_from_seed, rand_page, wants_suggestions, media_suggestion};
use anilist::commands::{airing_pages, no_results_text, search_pages};
use anilist::models::{AutocompleteMediaItem, CoverImage, Media, MediaTitle};
use anilist::pagination::{
    disabled_row, media_interactive_row, media_rows, nav_row, page_action, ButtonStyle, PageAction,
};
use anilist::quiz::{quiz_step, QuizAction, QuizEvent, guess_matches, hint_text, lowered_guess_matches, round_updates, QuizDifficulty, win_embed, reveal_embed, times_up_text};

fn show(id: u64, name: &str) -> Media {
    Media {
        id,
        title: MediaTitle { romaji: Some(name.to_string()), english: None, native: None },
        episodes: None,
        season: None,
        season_year: Some(2024),
        chapters: None,
        volumes: None,
        format: None,
        status: None,
        average_score: None,
        genres: vec!["Comedy".to_string(), "Slice of Life".to_string()],
        description: None,
        cover_image: Some(CoverImage { large: Some(format!("https://img/{id}.png")) }),
        site_url: format!("https://anilist.co/anime/{id}"),
        start_date: None,
        next_airing_episode: None,
        relations: None,
        characters: None,
        recommendations: None,
    }
}

fn row_text(r: &[anilist::pagination::Button]) -> Vec<(String, String, bool)> {
    r.iter().map(|b| (b.custom_id.clone(), b.label.clone(), b.disabled)).collect()
}

#[test]
fn navigation_rows() {
    let first = nav_row(0, 3);
    assert_eq!(row_text(&first), vec![
        ("prev".to_string(), "◀  Prev".to_string(), true),
        ("page_count".to_string(), "1 / 3".to_string(), true),
        ("next".to_string(), "Next  ▶".to_string(), false),
    ]);
    assert!(matches!(first[2].style, ButtonStyle::Primary));
    let last = nav_row(2, 3);
    assert!(!last[0].disabled);
    assert!(last[2].disabled);
    assert_eq!(last[1].label, "3 / 3");
    assert!(disabled_row(1, 3).iter().all(|b| b.disabled));
    assert!(media_interactive_row(false).iter().all(|b| !b.disabled));
    assert!(media_interactive_row(true).iter().all(|b| b.disabled));
    assert_eq!(media_rows(0, 1, false).len(), 1);
    assert_eq!(media_rows(0, 2, false).len(), 2);
}

#[test]
fn page_actions() {
    assert!(matches!(page_action("prev", 0, 3, false), PageAction::Show(0)));
    assert!(matches!(page_action("prev", 2, 3, false), PageAction::Show(1)));
    assert!(matches!(page_action("next", 2, 3, false), PageAction::Show(2)));
    assert!(matches!(page_action("next", 0, 3, true), PageAction::Show(1)));
    assert!(matches!(page_action("media_characters", 1, 3, true), PageAction::Characters(1)));
    assert!(matches!(page_action("media_relations", 1, 3, true), PageAction::Relations(1)));
    assert!(matches!(page_action("media_recommendations", 0, 1, true), PageAction::Recommendations(0)));
    assert!(matches!(page_action("media_characters", 1, 3, false), PageAction::Ignore));
    assert!(matches!(page_action("page_count", 1, 3, true), PageAction::Ignore));
}

#[test]
fn next_then_prev_comes_back() {
    let total = 4;
    for i in 0..total - 1 {
        let PageAction::Show(n) = page_action("next", i, total, false) else { panic!() };
        let PageAction::Show(p) = page_action("prev", n, total, false) else { panic!() };
        assert_eq!(p, i);
    }
}

#[test]
fn airing_pages_hold_five_each() {
    let shows: Vec<Media> = (1..=12).map(|i| show(i, &format!("Show {i}"))).collect();
    let pages = airing_pages(&shows, None, None);
    assert_eq!(pages.len(), 3);
    assert_eq!(pages[0].fields.len(), 5);
    assert_eq!(pages[2].fields.len(), 2);
    assert!(airing_pages(&Vec::new(), None, None).is_empty());
}

#[test]
fn search_results_one_page_each() {
    let shows = vec![show(1, "A"), show(2, "B")];
    let pages = search_pages(&shows, "Anime", None, None);
    assert_eq!(pages.len(), 2);
    assert_eq!(pages[1].title.as_deref(), Some("B"));
    assert_eq!(pages[1].footer.as_deref(), Some("Anime • AniList ID 2"));
    assert_eq!(no_results_text("Anime", "zzz"), "No Anime found for `zzz`.");
}

#[test]
fn cache_keys_and_first_results() {
    let k = cache_key("anime", &vec!["naruto".to_string(), "1".to_string()]);
    assert_eq!(k, "anime:naruto:1");
    assert_eq!(cache_key("genres", &Vec::new()), "genres");
    assert!(first_media(Vec::new()).is_none());
    assert_eq!(first_media(vec![show(7, "x"), show(8, "y")]).unwrap().id, 7);
}

#[test]
fn random_pages_stay_in_range() {
    for max in [1u32, 2, 50, 1000] {
        for _ in 0..20 {
            let p = rand_page(max);
            assert!(p >= 1);
            assert!(max == 1 || p < max);
        }
    }
    assert_eq!(page_from_seed(0, 0, 1), 1);
    let p = page_from_seed(1_700_000_000, 123, 50);
    assert!((1..50).contains(&p));
    assert_eq!(p, page_from_seed(1_700_000_000, 123, 50));
}

#[test]
fn quiz_pages_by_difficulty() {
    for _ in 0..20 {
        let e = QuizDifficulty::Easy.get_rand_page();
        assert!((1..=500).contains(&e));
        let m = QuizDifficulty::Medium.get_rand_page();
        assert!((501..=2000).contains(&m));
        let h = QuizDifficulty::Hard.get_rand_page();
        assert!((2001..=5000).contains(&h));
    }
}

#[test]
fn guesses() {
    assert!(guess_matches("Attack on Titan", "attack on titan!!"));
    assert!(guess_matches("Attack on Titan", "ATTACK"));
    assert!(!guess_matches("Attack on Titan", "att"));
    assert!(!guess_matches("Attack on Titan", "naruto"));
    assert!(guess_matches("K-On!", "k-on! is great"));
    assert!(lowered_guess_matches("bleach", "bleach"));
    assert!(!lowered_guess_matches("one", "one"));
}

#[test]
fn hints_by_time() {
    let s = show(1, "A");
    assert_eq!(hint_text(3, &s), "Wait a bit longer for a hint (15s minimum for Genre, 20s for Year).");
    assert_eq!(hint_text(15, &s), "Hint (Genre): Comedy, Slice of Life");
    assert_eq!(hint_text(25, &s), "Hint (Genre & Year): Comedy, Slice of Life | 2024");
    let mut bare = show(2, "B");
    bare.genres.clear();
    bare.season_year = None;
    assert_eq!(hint_text(20, &bare), "Hint (Genre & Year): Unknown | Unknown");
}

#[test]
fn round_end_updates() {
    assert_eq!(round_updates(&vec![3, 4, 5], Some(4)), vec![(4, false), (3, true), (5, true)]);
    assert_eq!(round_updates(&vec![3, 4], None), vec![(3, true), (4, true)]);
    assert_eq!(round_updates(&Vec::new(), Some(9)), vec![(9, false)]);
}

#[test]
fn round_messages() {
    let s = show(1, "Bocchi");
    let w = win_embed(42, &s);
    assert!(w.description.as_deref().unwrap_or("").contains("<@42>"));
    let r = reveal_embed(&s);
    assert!(r.title.is_some());
    assert!(times_up_text(&s).contains("Bocchi"));
}

#[test]
fn autocomplete() {
    assert!(!wants_suggestions("a"));
    assert!(wants_suggestions("ab"));
    assert!(wants_suggestions("é"));
    let item = AutocompleteMediaItem {
        id: 1,
        title: MediaTitle { romaji: Some("Frieren".to_string()), english: None, native: None },
        format: Some("TV".to_string()),
    };
    assert_eq!(media_suggestion(&item), ("Frieren (TV)".to_string(), "Frieren".to_string()));
    let bare = AutocompleteMediaItem { format: None, ..item };
    assert_eq!(media_suggestion(&bare), ("Frieren".to_string(), "Frieren".to_string()));
}

#[test]
fn a_round_step_by_step() {
    let s = show(1, "Attack on Titan");
    let title = "Attack on Titan";
    let mut ps: Vec<u64> = Vec::new();
    let msg = |author: u64, bot: bool, text: &str| QuizEvent::Message { author, is_bot: bot, content: text.to_string() };
    assert!(matches!(quiz_step(&mut ps, title, &s, msg(9, true, "attack on titan")), QuizAction::Nothing));
    assert!(ps.is_empty());
    assert!(matches!(quiz_step(&mut ps, title, &s, msg(1, false, "naruto?")), QuizAction::Nothing));
    assert!(matches!(quiz_step(&mut ps, title, &s, msg(2, false, "one piece")), QuizAction::Nothing));
    assert!(matches!(quiz_step(&mut ps, title, &s, msg(1, false, "bleach")), QuizAction::Nothing));
    assert_eq!(ps, vec![1, 2]);
    match quiz_step(&mut ps, title, &s, QuizEvent::Hint { elapsed_secs: 16 }) {
        QuizAction::Hint(h) => assert_eq!(h, "Hint (Genre): Comedy, Slice of Life"),
        _ => panic!("expected a hint"),
    }
    match quiz_step(&mut ps, title, &s, msg(3, false, "ATTACK ON TITAN")) {
        QuizAction::Win { winner, updates } => {
            assert_eq!(winner, 3);
            assert_eq!(updates, vec![(3, false), (1, true), (2, true)]);
        }
        _ => panic!("expected a win"),
    }
    let mut ps2 = vec![4, 5];
    match quiz_step(&mut ps2, title, &s, QuizEvent::Reveal) {
        QuizAction::Revealed { updates } => assert_eq!(updates, vec![(4, true), (5, true)]),
        _ => panic!("expected the answer"),
    }
    match quiz_step(&mut ps2, title, &s, QuizEvent::TimedOut) {
        QuizAction::TimeUp { updates } => assert_eq!(updates, vec![(4, true), (5, true)]),
        _ => panic!("expected the end"),
    }
}

#[test]
fn random_titles_fall_back_to_the_first_page() {
    match random_step(vec![show(7, "Mushishi"), show(8, "Aria")], false) {
        RandomStep::Found(m) => assert_eq!(m.id, 7),
        _ => panic!("expected the first result"),
    }
    assert!(matches!(random_step(vec![], false), RandomStep::FetchFirstPage));
    match random_step(vec![], true) {
        RandomStep::Fail(m) => assert_eq!(m, "No results returned for random query."),
        _ => panic!("expected the error"),
    }
    match random_step(vec![show(9, "Haibane")], true) {
        RandomStep::Found(m) => assert_eq!(m.id, 9),
        _ => panic!("expected the retried page's result"),
    }
}

#[test]
fn comparing_two_titles() {
    let (a, b) = compare_pick(Some(show(1, "A")), Some(show(2, "B")), "a", "b").unwrap();
    assert_eq!((a.id, b.id), (1, 2));
    assert_eq!(compare_pick(None, Some(show(2, "B")), "Frieren", "Aria").err(), Some("Could not find `Frieren`.".to_string()));
    assert_eq!(compare_pick(None, None, "Frieren", "Aria").err(), Some("Could not find `Frieren`.".to_string()));
    assert_eq!(compare_pick(Some(show(1, "A")), None, "Frieren", "Aria").err(), Some("Could not find `Aria`.".to_string()));
}
