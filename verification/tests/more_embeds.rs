use anilist::embeds::{
    airing_page_embed, character_embed, compare_embed, favourites_embed, media_list_embed,
    recommendations_embed, relations_embed, server_list_embed, staff_birthday_embed, staff_embed,
    studio_embed, upcoming_page_embed, user_embed, watchlist_embed, PURPLE, TEAL,
};
use anilist::models::{
    AniListUser, AnimeStats, Character, CharacterImage, CharacterMediaConnection, CharacterMediaEdge,
    CharacterMediaNode, CharacterName, FavouriteCharacterConnection, FavouriteCharacterNode,
    FavouriteMediaConnection, FavouriteMediaNode, FavouriteStudioConnection, FavouriteStudioNode,
    Favourites, FuzzyDate, MangaStats, Media, MediaList, MediaListCollection, MediaListEntry,
    MediaListNode, MediaRecommendationInfo, MediaRecommendationNodeInner, MediaRelationEdge,
    MediaRelationNode, MediaRelations, MediaTitle, NextAiringEpisode, RecommendationConnection,
    RecommendationNode, Staff, StaffBirthday, StaffImage, StaffMediaConnection, StaffMediaNode,
    StaffNameFull, StaffShort, StaffShortName, Studio, StudioMediaConnection, StudioMediaNode,
    UserAvatar, UserFavourites, UserGenreStatistic, UserStatistics,
};
use anilist::schedule::{job_embed, JobData};
use anilist::store::{ContentType, ServerListEntry, TitleLanguage};

fn t(en: Option<&str>, ro: Option<&str>) -> MediaTitle {
    MediaTitle { romaji: ro.map(String::from), english: en.map(String::from), native: None }
}

fn show(id: u64, name: &str) -> Media {
    Media {
        id,
        title: t(Some(name), None),
        episodes: None,
        season: None,
        season_year: None,
        chapters: None,
        volumes: None,
        format: None,
        status: None,
        average_score: None,
        genres: Vec::new(),
        description: None,
        cover_image: None,
        site_url: format!("https://a/{id}"),
        start_date: None,
        next_airing_episode: None,
        relations: None,
        characters: None,
        recommendations: None,
    }
}

fn fields(e: &anilist::embed::Embed) -> Vec<(String, String, bool)> {
    e.fields.iter().map(|f| (f.name.clone(), f.value.clone(), f.inline)).collect()
}

fn user(name: &str, minutes: u32) -> AniListUser {
    AniListUser {
        id: 5,
        name: name.to_string(),
        about: Some("<b>Hi</b> there".to_string()),
        avatar: UserAvatar { large: Some("https://img/u.png".to_string()) },
        site_url: format!("https://anilist.co/user/{name}"),
        statistics: UserStatistics {
            anime: AnimeStats {
                count: 10,
                episodes_watched: 120,
                minutes_watched: minutes,
                mean_score_text: "75.5".to_string(),
                genres: vec![
                    UserGenreStatistic { genre: "Action".to_string(), count: 4 },
                    UserGenreStatistic { genre: "Drama".to_string(), count: 3 },
                ],
            },
            manga: MangaStats { count: 2, chapters_read: 30, mean_score_text: "80.0".to_string() },
        },
    }
}

#[test]
fn airing_and_upcoming_pages() {
    let mut a = show(1, "Frieren");
    a.next_airing_episode = Some(NextAiringEpisode { airing_at: 0, episode: 7, time_until_airing: 3 * 86400 + 2 * 3600 });
    let b = show(2, "Dungeon Meshi");
    let e = airing_page_embed(&[a.clone(), b.clone()], 1, 3, None, None);
    assert_eq!(e.title.as_deref(), Some("Currently Airing"));
    assert_eq!(e.colour, Some(TEAL));
    assert_eq!(e.footer.as_deref(), Some("Page 1 of 3"));
    assert_eq!(fields(&e), vec![
        ("Frieren".to_string(), "Ep 7 — in 3d 2h 0m".to_string(), true),
        ("Dungeon Meshi".to_string(), "Airing".to_string(), true),
    ]);
    let mut c = show(3, "Sakamoto Days");
    c.start_date = Some(FuzzyDate { year: Some(2025), month: Some(1), day: Some(11) });
    c.average_score = Some(77);
    let u = upcoming_page_embed(&[c, b], "WINTER", 2025, 2, 2, None, None);
    assert_eq!(u.title.as_deref(), Some("Upcoming — WINTER 2025"));
    assert_eq!(u.colour, Some(PURPLE));
    assert_eq!(u.footer.as_deref(), Some("Page 2 of 2"));
    assert_eq!(u.fields[0].value, "Starts 2025-01-11 • 77/100");
    assert_eq!(u.fields[1].value, "Starts TBA");
}

#[test]
fn character_page() {
    let c = Character {
        id: 40882,
        name: CharacterName { full: Some("Levi".to_string()), native: Some("リヴァイ".to_string()) },
        description: Some("Captain of the <b>Survey Corps</b>.".to_string()),
        image: CharacterImage { large: Some("https://img/levi.png".to_string()) },
        site_url: "https://anilist.co/character/40882".to_string(),
        media: CharacterMediaConnection {
            nodes: Vec::new(),
            edges: vec![
                CharacterMediaEdge {
                    node: CharacterMediaNode {
                        title: t(Some("Attack on Titan"), None),
                        media_type: Some("ANIME".to_string()),
                        site_url: "https://a/1".to_string(),
                        cover_image: None,
                    },
                    voice_actors: vec![StaffShort {
                        name: StaffShortName { full: Some("Hiroshi Kamiya".to_string()) },
                        site_url: "https://s/1".to_string(),
                    }],
                },
                CharacterMediaEdge {
                    node: CharacterMediaNode {
                        title: t(None, Some("Shingeki no Kyojin")),
                        media_type: None,
                        site_url: "https://m/2".to_string(),
                        cover_image: None,
                    },
                    voice_actors: Vec::new(),
                },
            ],
        },
    };
    let e = character_embed(&c, None, None);
    assert_eq!(e.title.as_deref(), Some("Levi  (リヴァイ)"));
    assert_eq!(e.description.as_deref(), Some("Captain of the Survey Corps."));
    assert_eq!(e.colour, Some(PURPLE));
    assert_eq!(e.footer.as_deref(), Some("AniList Character ID 40882"));
    assert_eq!(
        e.fields[0].value,
        "[Attack on Titan](https://a/1) `ANIME` (VA: [Hiroshi Kamiya](https://s/1))\n[Shingeki no Kyojin](https://m/2) `?`"
    );
    assert_eq!(e.thumbnail.as_deref(), Some("https://img/levi.png"));
}

#[test]
fn studio_and_staff_pages() {
    let s = Studio {
        id: 858,
        name: "Wit Studio".to_string(),
        site_url: "https://anilist.co/studio/858".to_string(),
        is_animation_studio: true,
        media: StudioMediaConnection {
            nodes: vec![
                StudioMediaNode {
                    title: t(Some("Spy x Family"), None),
                    season_year: Some(2022),
                    average_score: Some(84),
                    format: Some("TV".to_string()),
                    site_url: "https://a/9".to_string(),
                },
                StudioMediaNode { title: t(None, None), season_year: None, average_score: None, format: None, site_url: "https://a/10".to_string() },
            ],
        },
    };
    let e = studio_embed(&s, None, None);
    assert_eq!(e.title.as_deref(), Some("Wit Studio"));
    assert_eq!(e.footer.as_deref(), Some("Animation Studio • AniList ID 858"));
    assert_eq!(e.fields[0].name, "Notable Works");
    assert_eq!(e.fields[0].value, "1. [Spy x Family](https://a/9) `TV` (2022) • 84/100\n2. [Unknown Title](https://a/10) `?`");

    let st = Staff {
        id: 95185,
        name: StaffNameFull { full: Some("Kana Hanazawa".to_string()), native: None },
        description: None,
        image: StaffImage { large: None },
        site_url: "https://anilist.co/staff/95185".to_string(),
        is_birthday: true,
        staff_media: StaffMediaConnection {
            nodes: vec![StaffMediaNode { title: t(Some("Psycho-Pass"), None), media_type: Some("ANIME".to_string()), site_url: "https://a/3".to_string() }],
        },
    };
    let e2 = staff_embed(&st, None, None);
    assert_eq!(e2.title.as_deref(), Some("Kana Hanazawa 🎂"));
    assert_eq!(e2.description.as_deref(), Some("No description available."));
    assert_eq!(e2.footer.as_deref(), Some("AniList Staff ID 95185"));
    assert_eq!(e2.fields[0].value, "[Psycho-Pass](https://a/3) `ANIME`");
    assert!(e2.thumbnail.is_none());

    let b = staff_birthday_embed(&[], None);
    assert_eq!(b.description.as_deref(), Some("No staff birthdays found for today."));
    let one = StaffBirthday { id: 1, name: StaffNameFull { full: Some("A".to_string()), native: None }, image: StaffImage { large: None }, site_url: "https://s/a".to_string() };
    let b2 = staff_birthday_embed(&[one], Some(3));
    assert_eq!(b2.title.as_deref(), Some("🎂 Today's Staff Birthdays"));
    assert_eq!(b2.description.as_deref(), Some("[A](https://s/a)"));
    assert_eq!(b2.colour, Some(3));
}

#[test]
fn recommendation_and_relation_pages() {
    let info = MediaRecommendationInfo {
        id: 20,
        title: t(Some("Naruto"), None),
        recommendations: RecommendationConnection {
            nodes: vec![
                RecommendationNode { media_recommendation: Some(MediaRecommendationNodeInner { title: t(Some("Bleach"), None), site_url: "https://a/b".to_string() }) },
                RecommendationNode { media_recommendation: None },
            ],
        },
    };
    let e = recommendations_embed(&info, None, None);
    assert_eq!(e.title.as_deref(), Some("Recommendations for Naruto"));
    assert_eq!(e.url.as_deref(), Some("https://anilist.co/anime/20/recommendations"));
    assert_eq!(e.description.as_deref(), Some("[Bleach](https://a/b)"));

    let mut m = show(1, "Frieren");
    assert_eq!(relations_embed(&m, None, None).description.as_deref(), Some("No relations found."));
    m.relations = Some(MediaRelations {
        edges: vec![MediaRelationEdge {
            relation_type: "SIDE_STORY".to_string(),
            node: MediaRelationNode { id: 2, title: t(Some("Frieren Specials"), None), format: None, status: None, site_url: "https://a/2".to_string() },
        }],
    });
    let r = relations_embed(&m, Some(TitleLanguage::English), None);
    assert_eq!(r.title.as_deref(), Some("Relations for Frieren"));
    assert_eq!(r.description.as_deref(), Some("`SIDE STORY`: [Frieren Specials](https://a/2) (?)"));
}

#[test]
fn lists_of_titles() {
    let mut a = show(1, "A");
    a.average_score = Some(90);
    let e = media_list_embed(&[a, show(2, "B")], "Trending Anime", None, None);
    assert_eq!(e.title.as_deref(), Some("Trending Anime"));
    assert_eq!(e.description.as_deref(), Some("1. [A](https://a/1) • 90/100\n2. [B](https://a/2)"));
    assert_eq!(media_list_embed(&[], "Empty", None, None).description.as_deref(), Some("No results found."));
}

#[test]
fn watchlists_and_favourites() {
    let entry = |id: u64, name: &str, scored: bool, score: &str| MediaListEntry {
        status: "CURRENT".to_string(),
        scored,
        score_text: score.to_string(),
        progress: 1,
        media: MediaListNode { id, title: t(Some(name), None), site_url: format!("https://a/{id}") },
    };
    let coll = MediaListCollection {
        lists: vec![
            MediaList { name: "Watching".to_string(), entries: vec![entry(1, "A", true, "85"), entry(2, "B", false, "0")] },
            MediaList { name: "Dropped".to_string(), entries: Vec::new() },
        ],
    };
    let e = watchlist_embed(&coll, "alice", "Anime", None, None);
    assert_eq!(e.title.as_deref(), Some("alice's Anime Watchlist"));
    assert_eq!(fields(&e), vec![("Watching".to_string(), "[A](https://a/1) (85/100)\n[B](https://a/2)".to_string(), false)]);

    let fav = UserFavourites {
        name: "alice".to_string(),
        site_url: "https://anilist.co/user/alice".to_string(),
        favourites: Favourites {
            anime: FavouriteMediaConnection { nodes: vec![FavouriteMediaNode { title: t(Some("Mushishi"), None), site_url: "https://a/m".to_string() }] },
            manga: FavouriteMediaConnection { nodes: Vec::new() },
            characters: FavouriteCharacterConnection { nodes: vec![FavouriteCharacterNode { name: CharacterName { full: Some("Ginko".to_string()), native: None }, site_url: "https://c/g".to_string() }] },
            studios: FavouriteStudioConnection { nodes: vec![FavouriteStudioNode { name: "Artland".to_string(), site_url: "https://s/a".to_string() }] },
        },
    };
    let f = favourites_embed(&fav, None, None);
    assert_eq!(f.title.as_deref(), Some("alice's Favourites"));
    assert_eq!(fields(&f), vec![
        ("Anime".to_string(), "[Mushishi](https://a/m)".to_string(), true),
        ("Characters".to_string(), "[Ginko](https://c/g)".to_string(), true),
        ("Studios".to_string(), "[Artland](https://s/a)".to_string(), true),
    ]);
}

#[test]
fn profiles() {
    let e = user_embed(&user("alice", 1440 * 2 + 90), None);
    assert_eq!(e.title.as_deref(), Some("alice"));
    assert_eq!(e.description.as_deref(), Some("Hi there"));
    assert_eq!(e.footer.as_deref(), Some("AniList User ID 5"));
    let v: Vec<(&str, &str)> = e.fields.iter().map(|f| (f.name.as_str(), f.value.as_str())).collect();
    assert_eq!(v, vec![
        ("Anime Watched", "10"),
        ("Episodes Watched", "120"),
        ("Watch Time", "2d 1h"),
        ("Anime Mean Score", "75.5/100"),
        ("Manga Read", "2"),
        ("Chapters Read", "30"),
        ("Manga Mean Score", "80.0/100"),
        ("Top Genres", "Action (4), Drama (3)"),
    ]);
    assert_eq!(e.thumbnail.as_deref(), Some("https://img/u.png"));
    let c = compare_embed(&user("alice", 60), &user("bob", 1500), None);
    assert_eq!(c.title.as_deref(), Some("alice vs bob"));
    assert_eq!(c.footer.as_deref(), Some("AniList profile comparison"));
    assert_eq!(c.fields[0].name, "[alice](https://anilist.co/user/alice)");
    assert_eq!(
        c.fields[1].value,
        "Anime watched: 10\nEpisodes: 120\nWatch time: 1d 1h\nAnime score: 75.5\n\nManga read: 2\nChapters: 30\nManga score: 80.0"
    );
}

#[test]
fn server_list_page() {
    assert_eq!(
        server_list_embed(&[], None).description.as_deref(),
        Some("The server list is empty. Add something with `/serverlist add`!")
    );
    let e = server_list_embed(
        &[
            ServerListEntry { id: "12".to_string(), media_id: 1, title: "Mushishi".to_string(), added_by: 7, watched: true },
            ServerListEntry { id: "34".to_string(), media_id: 2, title: "Haibane".to_string(), added_by: 8, watched: false },
        ],
        None,
    );
    assert_eq!(e.title.as_deref(), Some("Server Anime List"));
    assert_eq!(e.colour, Some(TEAL));
    assert_eq!(
        e.description.as_deref(),
        Some("`12` ✅ **Mushishi** (added by <@7>)\n`34` ⏳ **Haibane** (added by <@8>)")
    );
}

#[test]
fn scheduled_posts() {
    let one = JobData::OneMedia(show(1, "A"));
    assert_eq!(job_embed(ContentType::DailyManga, &one, "FALL", 2024, None).unwrap().footer.as_deref(), Some("Manga • AniList ID 1"));
    let list = JobData::MediaList(vec![show(1, "A")]);
    assert_eq!(job_embed(ContentType::Trending, &list, "FALL", 2024, None).unwrap().title.as_deref(), Some("Trending Anime"));
    assert_eq!(job_embed(ContentType::NewSeason, &list, "FALL", 2024, None).unwrap().title.as_deref(), Some("Upcoming — FALL 2024"));
    assert_eq!(job_embed(ContentType::AiringUpdate, &list, "FALL", 2024, None).unwrap().footer.as_deref(), Some("Page 1 of 1"));
    assert!(job_embed(ContentType::StaffBirthday, &JobData::Birthdays(Vec::new()), "FALL", 2024, None).is_none());
    assert!(job_embed(ContentType::DailyAnime, &list, "FALL", 2024, None).is_none());
}
