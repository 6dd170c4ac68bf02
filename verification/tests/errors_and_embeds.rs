use anilist::embed::{get_color, Embed};
use anilist::embeds::{media_embed, ANILIST_BLUE};
use anilist::errors::{
    anilist_error_embed, error_embed_from, first_api_error, http_status_error, not_found_embed,
    AniListError, GREY, ORANGE, RED, YELLOW,
};
use anilist::models::{AniListApiError, CoverImage, FuzzyDate, Media, MediaTitle};
use anilist::store::TitleLanguage;

fn field(e: &Embed, i: usize) -> (String, String, bool) {
    let f = &e.fields[i];
    (f.name.clone(), f.value.clone(), f.inline)
}

fn media() -> Media {
    Media {
        id: 16498,
        title: MediaTitle {
            romaji: Some("Shingeki no Kyojin".to_string()),
            english: Some("Attack on Titan".to_string()),
            native: None,
        },
        episodes: Some(25),
        season: Some("SPRING".to_string()),
        season_year: Some(2013),
        chapters: None,
        volumes: None,
        format: Some("TV".to_string()),
        status: None,
        average_score: Some(85),
        genres: vec!["Action".to_string(), "Drama".to_string()],
        description: Some("<i>Humanity</i>   fights<br>titans.".to_string()),
        cover_image: Some(CoverImage { large: Some("https://img/aot.png".to_string()) }),
        site_url: "https://anilist.co/anime/16498".to_string(),
        start_date: Some(FuzzyDate { year: Some(2013), month: Some(4), day: Some(7) }),
        next_airing_episode: None,
        relations: None,
        characters: None,
        recommendations: None,
    }
}

#[test]
fn api_errors_map_by_status() {
    let e = |status| AniListError::from(AniListApiError { message: "m".to_string(), status });
    assert!(matches!(e(Some(404)), AniListError::NotFound { message } if message == "m"));
    assert!(matches!(e(Some(429)), AniListError::RateLimit));
    assert!(matches!(e(Some(500)), AniListError::Api { message, status: Some(500) } if message == "m"));
    assert!(matches!(e(None), AniListError::Api { status: None, .. }));
}

#[test]
fn first_error_of_a_list() {
    assert!(first_api_error(Vec::new()).is_none());
    let errs = vec![
        AniListApiError { message: "Not Found.".to_string(), status: Some(404) },
        AniListApiError { message: "other".to_string(), status: Some(500) },
    ];
    assert!(matches!(first_api_error(errs), Some(AniListError::NotFound { message }) if message == "Not Found."));
}

#[test]
fn http_statuses() {
    assert!(matches!(http_status_error(429, "x".to_string()), AniListError::RateLimit));
    assert!(matches!(http_status_error(502, "bad gateway".to_string()), AniListError::Api { status: Some(502), .. }));
}

#[test]
fn error_embeds_per_kind() {
    let api = anilist_error_embed(&AniListError::Api { message: "boom".to_string(), status: Some(500) });
    assert_eq!(api.title.as_deref(), Some("❌  AniList API Error"));
    assert_eq!(api.colour, Some(RED));
    assert_eq!(field(&api, 0), ("Detail".to_string(), "```\nboom\n```".to_string(), false));
    assert_eq!(api.footer.as_deref(), Some("HTTP status 500"));

    let nf = anilist_error_embed(&AniListError::NotFound { message: "gone".to_string() });
    assert_eq!(nf.title.as_deref(), Some("❌  Not Found"));
    assert_eq!(nf.colour, Some(GREY));
    assert!(nf.footer.is_none());

    let rl = anilist_error_embed(&AniListError::RateLimit);
    assert_eq!(rl.colour, Some(YELLOW));
    assert_eq!(field(&rl, 0).1, "```\nRate Limit Exceeded\n```");

    let net = anilist_error_embed(&AniListError::Network("timeout".to_string()));
    assert_eq!(net.title.as_deref(), Some("❌  Network Error"));
    assert_eq!(net.colour, Some(ORANGE));
    let dec = anilist_error_embed(&AniListError::Decode("eof".to_string()));
    assert_eq!(dec.title.as_deref(), Some("❌  Unexpected Response"));
    assert_eq!(field(&dec, 1).0, "Advice");
}

#[test]
fn generic_and_not_found_embeds() {
    let g = error_embed_from(None, "disk full");
    assert_eq!(g.title.as_deref(), Some("Something went wrong"));
    assert_eq!(g.description.as_deref(), Some("```\ndisk full\n```"));
    assert_eq!(g.colour, Some(RED));
    let a = error_embed_from(Some(&AniListError::RateLimit), "ignored");
    assert_eq!(a.title.as_deref(), Some("❌  Rate Limited"));
    let nf = not_found_embed("Anime", "Naruot");
    assert_eq!(nf.title.as_deref(), Some("❌  Anime Not Found"));
    assert_eq!(
        nf.description.as_deref(),
        Some("No results for **Naruot**.\nTry a different spelling or use the Romaji title.")
    );
}

#[test]
fn accent_colour_or_default() {
    assert_eq!(get_color(Some(0x123456), ANILIST_BLUE), 0x123456);
    assert_eq!(get_color(None, ANILIST_BLUE), 0x02a9ff);
}

#[test]
fn media_page() {
    let e = media_embed(&media(), "Anime", None, None);
    assert_eq!(e.title.as_deref(), Some("Attack on Titan"));
    assert_eq!(e.url.as_deref(), Some("https://anilist.co/anime/16498"));
    assert_eq!(e.description.as_deref(), Some("Humanity fightstitans."));
    assert_eq!(e.colour, Some(ANILIST_BLUE));
    assert_eq!(e.footer.as_deref(), Some("Anime • AniList ID 16498"));
    assert_eq!(field(&e, 0), ("Format".to_string(), "TV".to_string(), true));
    assert_eq!(field(&e, 1), ("Status".to_string(), "Unknown".to_string(), true));
    assert_eq!(field(&e, 2), ("Score".to_string(), "85/100".to_string(), true));
    assert_eq!(field(&e, 3), ("Genres".to_string(), "Action, Drama".to_string(), false));
    assert_eq!(field(&e, 4), ("Start Date".to_string(), "2013-04-07".to_string(), true));
    assert_eq!(field(&e, 5), ("Episodes".to_string(), "25".to_string(), true));
    assert_eq!(field(&e, 6), ("Season".to_string(), "SPRING 2013".to_string(), true));
    assert_eq!(e.fields.len(), 7);
    assert_eq!(e.thumbnail.as_deref(), Some("https://img/aot.png"));

    let r = media_embed(&media(), "Anime", Some(TitleLanguage::Romaji), Some(7));
    assert_eq!(r.title.as_deref(), Some("Shingeki no Kyojin"));
    assert_eq!(r.colour, Some(7));
}

#[test]
fn long_descriptions_are_cut() {
    let mut m = media();
    m.description = Some("a".repeat(400));
    m.genres = Vec::new();
    m.average_score = None;
    let e = media_embed(&m, "Manga", None, None);
    let d = e.description.clone().unwrap();
    assert_eq!(d.chars().count(), 301);
    assert!(d.ends_with('…'));
    assert_eq!(field(&e, 2).1, "N/A");
    assert_eq!(field(&e, 3).1, "N/A");
    m.description = None;
    assert_eq!(media_embed(&m, "Manga", None, None).description.as_deref(), Some("No description available."));
}
