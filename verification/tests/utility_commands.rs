use anilist::commands::{colour_reply, format_colour, no_suggestions_text, parse_colour, parse_hex, settings_embed, suggestions_embed, unseen_suggestions};
use anilist::models::{Media, MediaList, MediaListCollection, MediaTitle, NextAiringEpisode};
use anilist::store::{AiringSubscription, TitleLanguage};
use anilist::utility::no_watch_party_text;
use anilist::utility::{
    compact_mode_reply, is_duplicate_error, matching_names, may_manage, new_server_entry,
    new_subscription, next_compact_mode, ping_embed, schedule_added_text, schedule_removed_text,
    schedule_toggled_text, server_added_text, stats_embed, subscribed_text, subscriptions_text,
    title_language_reply, unsubscribed_text, uptime_text, vote_embed, watch_next_text,
    watch_set_text, watched_text,
};

fn media(id: u64, english: &str) -> Media {
    Media {
        id,
        title: MediaTitle { romaji: None, english: Some(english.to_string()), native: None },
        episodes: None,
        season: None,
        season_year: None,
        chapters: None,
        volumes: None,
        format: None,
        status: None,
        average_score: None,
        genres: Vec::new(),
        description: None,
        cover_image: None,
        site_url: String::new(),
        start_date: None,
        next_airing_episode: None,
        relations: None,
        characters: None,
        recommendations: None,
    }
}

#[test]
fn colours_read_in_three_spellings() {
    assert_eq!(parse_colour("0xFF0000"), Some(0xFF0000));
    assert_eq!(parse_colour("#abcdef"), Some(0xABCDEF));
    assert_eq!(parse_colour("00ff00"), Some(0x00FF00));
    assert_eq!(parse_colour("0x"), None);
    assert_eq!(parse_colour("#"), None);
    assert_eq!(parse_colour("red"), None);
    assert_eq!(parse_colour("0x1FFFFFFFF"), None);
    assert_eq!(parse_colour("+ff"), Some(0xFF));
    assert_eq!(parse_colour(""), None);
    assert_eq!(parse_hex("ffffffff"), Some(u32::MAX));
    assert_eq!(parse_hex("-1"), None);
    for s in ["0", "7fffffff", "FFFFFFFF", "100000000", "+", "+a", "g", "12345678"] {
        assert_eq!(parse_hex(s), u32::from_str_radix(s, 16).ok(), "{s}");
    }
}

#[test]
fn colours_written_with_six_digits() {
    assert_eq!(format_colour(0xABCDEF), "0xABCDEF");
    assert_eq!(format_colour(0x2A), "0x00002A");
    assert_eq!(format_colour(0), "0x000000");
    assert_eq!(format_colour(0x1234567), "0x1234567");
    for c in [0u32, 1, 0xff, 0x10000, 0xFFFFFF, 0x1000000, u32::MAX] {
        assert_eq!(format_colour(c), format!("0x{:06X}", c));
    }
    assert_eq!(colour_reply(Some(0xFF0000)), "Accent color updated to `0xFF0000`.");
    assert_eq!(colour_reply(None), "Invalid color code. Use hex format like `0xABCDEF` or `#ABCDEF`.");
}

#[test]
fn settings_page() {
    let e = settings_embed(Some(123), Some(0x00FF00));
    assert_eq!(e.title.as_deref(), Some("Guild Settings"));
    assert_eq!(e.fields[0].value, "<@&123>");
    assert_eq!(e.fields[1].value, "0x00FF00");
    let d = settings_embed(None, None);
    assert_eq!(d.fields[0].value, "Not set");
    assert_eq!(d.fields[1].value, "Default (AniList Blue)");
}

#[test]
fn ping_indicators() {
    let e = ping_embed(100, 201);
    assert_eq!(e.title.as_deref(), Some("🏓 Pong!"));
    assert_eq!(e.fields[0].value, "🟢 **100**ms");
    assert_eq!(e.fields[1].value, "🟡 **201**ms");
    assert!(e.timestamp_now);
    assert_eq!(e.footer.as_deref(), Some("Powered by AniList"));
    let slow = ping_embed(251, 501);
    assert_eq!(slow.fields[0].value, "🔴 **251**ms");
    assert_eq!(slow.fields[1].value, "🔴 **501**ms");
    assert_eq!(ping_embed(250, 500).fields[0].value, "🟡 **250**ms");
    assert_eq!(ping_embed(0, 200).fields[1].value, "🟢 **200**ms");
}

#[test]
fn uptimes() {
    assert_eq!(uptime_text(59), "0m");
    assert_eq!(uptime_text(3599), "59m");
    assert_eq!(uptime_text(3600), "1h 0m");
    assert_eq!(uptime_text(86400 + 3600 * 2 + 60 * 3 + 4), "1d 2h 3m");
    assert_eq!(uptime_text(86400), "1d 0h 0m");
}

#[test]
fn statistics_page() {
    let e = stats_embed(3661, 12, 45, 300, "0.1.0");
    let vals: Vec<(&str, &str)> = e.fields.iter().map(|f| (f.name.as_str(), f.value.as_str())).collect();
    assert_eq!(vals, vec![
        ("Uptime", "1h 1m"),
        ("Servers", "12"),
        ("Latency", "45ms"),
        ("Cache Entries", "300"),
        ("Rust Version", "0.1.0"),
    ]);
    assert_eq!(e.colour, Some(0x2ECC71));
}

#[test]
fn watch_party_replies() {
    assert_eq!(watch_set_text("Frieren"), "Watch party series set to: **Frieren**");
    let next = Some(NextAiringEpisode { airing_at: 0, episode: 12, time_until_airing: 2 * 3600 + 120 });
    assert_eq!(
        watch_next_text("Frieren", &next),
        "Next episode of **Frieren**:\n**Episode 12** airs in **2h 2m**."
    );
    assert_eq!(watch_next_text("Frieren", &None), "No upcoming airing episodes found for **Frieren**.");
}

#[test]
fn votes() {
    let e = vote_embed("A".to_string(), "B".to_string(), Some("C".to_string()));
    assert_eq!(e.title.as_deref(), Some("Watch Party Vote!"));
    assert_eq!(
        e.description.as_deref(),
        Some("React with the corresponding number to vote for the next series:\n\n1. A\n2. B\n3. C")
    );
    assert_eq!(e.colour, Some(0x3498db));
    let two = vote_embed("A".to_string(), "B".to_string(), None);
    assert!(two.description.unwrap().ends_with("1. A\n2. B"));
}

#[test]
fn subscriptions() {
    let s = new_subscription(11, Some(22), 33, &media(44, "Frieren"));
    assert_eq!(s.id, "11-44-33");
    assert_eq!((s.user_id, s.guild_id, s.channel_id, s.media_id), (11, Some(22), Some(33), 44));
    assert_eq!(s.title, "Frieren");
    assert!(is_duplicate_error("UNIQUE constraint failed: airing_subscriptions.id"));
    assert!(!is_duplicate_error("database is locked"));
    assert_eq!(subscribed_text("Frieren"), "✅ Subscribed to airing notifications for **Frieren** in this channel.");
    assert_eq!(unsubscribed_text("Frieren", true), "🔕 Unsubscribed from airing notifications for **Frieren**.");
    assert_eq!(unsubscribed_text("Frieren", false), "You don't have an active subscription for that anime in this channel.");
    let dm = AiringSubscription { id: "x".into(), user_id: 1, guild_id: None, channel_id: None, media_id: 2, title: "Bocchi".into() };
    let list = subscriptions_text(&vec![s, dm]);
    assert_eq!(list, "📋 **Your Airing Subscriptions:**\n1. **Frieren** → <#33>\n2. **Bocchi** → DM");
    assert_eq!(subscriptions_text(&Vec::new()), "You have no active airing subscriptions. Use `/notify subscribe` to add one!");
}

#[test]
fn preferences() {
    assert_eq!(title_language_reply(TitleLanguage::Romaji), "Title language preference updated to **Romaji**.");
    assert!(next_compact_mode(None, false));
    assert!(!next_compact_mode(None, true));
    assert!(next_compact_mode(Some(true), true));
    assert!(!next_compact_mode(Some(false), false));
    assert_eq!(compact_mode_reply(true), "Compact mode has been **enabled**.");
    assert_eq!(compact_mode_reply(false), "Compact mode has been **disabled**.");
}

#[test]
fn server_list_and_schedules() {
    let e = new_server_entry("4242".to_string(), &media(9, "Mushishi"), 77);
    assert_eq!((e.id.as_str(), e.media_id, e.title.as_str(), e.added_by, e.watched), ("4242", 9, "Mushishi", 77, false));
    assert_eq!(server_added_text("Mushishi"), "Added **Mushishi** to the server list.");
    assert_eq!(watched_text("12", true), "Marked entry `12` as watched.");
    assert_eq!(watched_text("12", false), "Entry `12` not found.");
    assert_eq!(schedule_added_text("99", 5), "Added schedule with ID `99` for channel <#5>.");
    assert_eq!(schedule_removed_text("99", true), "Removed schedule `99`.");
    assert_eq!(schedule_removed_text("99", false), "Schedule `99` not found in this guild.");
    assert_eq!(schedule_toggled_text("99", Some(true)), "Schedule `99` is now **active**.");
    assert_eq!(schedule_toggled_text("99", Some(false)), "Schedule `99` is now **paused**.");
    assert_eq!(schedule_toggled_text("99", None), "Schedule `99` not found.");
}

#[test]
fn managers() {
    assert!(may_manage(true, false, &Vec::new(), None));
    assert!(may_manage(false, true, &Vec::new(), None));
    assert!(may_manage(false, false, &vec![1, 2, 3], Some(2)));
    assert!(!may_manage(false, false, &vec![1, 3], Some(2)));
    assert!(!may_manage(false, false, &vec![1, 2], None));
}

#[test]
fn name_suggestions_ignore_case() {
    let names: Vec<String> = ["Action", "Slice of Life", "Mahou Shoujo", "Sci-Fi"].iter().map(|s| s.to_string()).collect();
    assert_eq!(matching_names(&names, "ACT"), vec!["Action".to_string()]);
    assert_eq!(matching_names(&names, "i"), vec!["Action".to_string(), "Slice of Life".to_string(), "Sci-Fi".to_string()]);
    assert_eq!(matching_names(&names, ""), names);
    assert!(matching_names(&names, "zzz").is_empty());
    let accented = vec!["Élan".to_string()];
    assert_eq!(matching_names(&accented, "éLAN"), accented);
}

fn entry(id: u64, name: &str) -> anilist::models::MediaListEntry {
    anilist::models::MediaListEntry {
        status: "COMPLETED".to_string(),
        scored: false,
        score_text: "0".to_string(),
        progress: 12,
        media: anilist::models::MediaListNode {
            id,
            title: MediaTitle { romaji: Some(name.to_string()), english: None, native: None },
            site_url: format!("https://anilist.co/anime/{id}"),
        },
    }
}

#[test]
fn suggestions_are_completed_and_unseen() {
    let list1 = MediaListCollection {
        lists: vec![
            MediaList { name: "Watching".to_string(), entries: vec![entry(9, "Nine")] },
            MediaList { name: "Completed".to_string(), entries: vec![entry(1, "One"), entry(2, "Two"), entry(3, "Three")] },
        ],
    };
    let list2 = MediaListCollection {
        lists: vec![MediaList { name: "Planning".to_string(), entries: vec![entry(2, "Two")] }],
    };
    let s = unseen_suggestions(&list1, &list2);
    assert_eq!(s.iter().map(|n| n.id).collect::<Vec<_>>(), vec![1, 3]);
    let e = suggestions_embed(&s, "alice", "bob", None, None);
    assert_eq!(e.title.as_deref(), Some("Suggestions for bob from alice's list"));
    assert_eq!(
        e.description.as_deref(),
        Some("1. [One](https://anilist.co/anime/1)\n2. [Three](https://anilist.co/anime/3)")
    );
    assert!(unseen_suggestions(&list2, &list1).is_empty());
    assert_eq!(no_suggestions_text("alice", "bob"), "Found no completed anime from **alice** that **bob** hasn't started.");
}

#[test]
fn colours_round_trip() {
    for c in [0u32, 0x2A, 0xABCDEF, 0x1000000, u32::MAX] {
        assert_eq!(parse_colour(&format_colour(c)), Some(c));
    }
}

#[test]
fn no_watch_party_reply() {
    assert_eq!(no_watch_party_text(), "No watch party series is currently set. Use `/watch set <title>` first.");
}
