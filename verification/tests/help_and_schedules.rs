use anilist::help::{command_not_found_text, find_command, group_by_category, help_command_embed, help_list_embed, CommandInfo, SubcommandInfo};
use anilist::leaderboard::{leaderboard_embed, rank_scores, wins_by_player};
use anilist::clock::utc_month_year;
use anilist::schedule::{calendar_season, job_season, job_season_year, month_year_or_epoch, new_schedule_id, new_server_list_id, schedule_list_embed, upcoming_season_year};
use anilist::store::{new_schedule, ContentType, QuizScoreInfo};
use std::collections::HashMap;

fn cmd(name: &str, category: Option<&str>) -> CommandInfo {
    CommandInfo {
        name: name.to_string(),
        description: Some(format!("{name} things")),
        category: category.map(|c| c.to_string()),
        subcommands: Vec::new(),
    }
}

#[test]
fn help_groups_by_category_in_order() {
    let cmds = vec![
        cmd("anime", Some("Search")),
        cmd("ping", Some("Utility")),
        cmd("trending", Some("Discovery")),
        cmd("manga", Some("Search")),
        cmd("quiz", None),
    ];
    let groups = group_by_category(&cmds);
    let names: Vec<(&str, Vec<&str>)> = groups
        .iter()
        .map(|(c, v)| (c.as_str(), v.iter().map(|s| s.as_str()).collect()))
        .collect();
    assert_eq!(names, vec![
        ("Discovery", vec!["trending"]),
        ("Other", vec!["quiz"]),
        ("Search", vec!["anime", "manga"]),
        ("Utility", vec!["ping"]),
    ]);
    let e = help_list_embed(&cmds);
    assert_eq!(e.title.as_deref(), Some("📖 Command List"));
    assert_eq!(e.fields[2].name, "Search");
    assert_eq!(e.fields[2].value, "`/anime`  `/manga`");
}

#[test]
fn help_for_one_command() {
    let mut c = cmd("watch", Some("Server"));
    c.subcommands = vec![
        SubcommandInfo { name: "set".to_string(), description: Some("Set the series".to_string()) },
        SubcommandInfo { name: "next".to_string(), description: None },
    ];
    let cmds = vec![cmd("anime", None), c];
    assert_eq!(find_command(&cmds, "watch"), Some(1));
    assert_eq!(find_command(&cmds, "nope"), None);
    let e = help_command_embed(&cmds[1]);
    assert_eq!(e.title.as_deref(), Some("/watch"));
    assert_eq!(e.fields[0].value, "`set` — Set the series\n`next` — No description");
    assert!(help_command_embed(&cmds[0]).fields.is_empty());
    assert_eq!(command_not_found_text("nope"), "Command `nope` not found.");
}

#[test]
fn seasons_by_month() {
    let job: Vec<&str> = (1..=12).map(job_season).collect();
    assert_eq!(job, vec!["WINTER", "WINTER", "SPRING", "SPRING", "SPRING", "SUMMER", "SUMMER", "SUMMER", "FALL", "FALL", "FALL", "WINTER"]);
    let cal: Vec<&str> = (1..=12).map(calendar_season).collect();
    assert_eq!(cal, vec!["WINTER", "WINTER", "WINTER", "SPRING", "SPRING", "SPRING", "SUMMER", "SUMMER", "SUMMER", "FALL", "FALL", "FALL"]);
    assert_eq!(upcoming_season_year(Some("FALL".to_string()), Some(1999)), ("FALL".to_string(), 1999));
    let (s, _) = upcoming_season_year(None, Some(2020));
    assert!(["WINTER", "SPRING", "SUMMER", "FALL"].contains(&s.as_str()));
}

#[test]
fn the_date_now() {
    let (month, year) = utc_month_year().expect("the clock reads a calendar date");
    assert!((1..=12).contains(&month));
    assert!(year >= 2024);
    let (s, y) = upcoming_season_year(None, None);
    assert_eq!(s, calendar_season(month));
    assert_eq!(y, year);
    let (js, jy) = job_season_year();
    assert_eq!(js, job_season(month));
    assert_eq!(jy, year);
    assert_eq!(month_year_or_epoch(Some((4, 2031))), (4, 2031));
    assert_eq!(month_year_or_epoch(None), (1, 1970));
}

#[test]
fn schedule_listing() {
    let a = new_schedule("1".to_string(), 5, 50, ContentType::Trending, "0 9 * * *".to_string(), None);
    let mut b = new_schedule("2".to_string(), 5, 51, ContentType::DailyManga, "0 0 * * 1".to_string(), Some("Europe/Paris".to_string()));
    b.active = false;
    let e = schedule_list_embed(&vec![a, b]);
    assert_eq!(e.title.as_deref(), Some("Guild Schedules"));
    assert_eq!(e.fields[0].name, "ID: 1");
    assert_eq!(
        e.fields[0].value,
        "Channel: <#50>\nContent: `trending`\nCron: `0 9 * * *`\nTimezone: `UTC`\nStatus: ✅ Active"
    );
    assert!(e.fields[1].value.ends_with("Status: ⏸️ Paused"));
}

#[test]
fn ids_are_decimal() {
    let s = new_schedule_id();
    assert!(!s.is_empty() && s.chars().all(|c| c.is_ascii_digit()));
    assert!(s.parse::<u32>().is_ok());
    let l = new_server_list_id();
    assert!(l.parse::<u16>().is_ok());
}

#[test]
fn leaderboard_ranks_by_wins() {
    let mut records = HashMap::new();
    records.insert(1u64, QuizScoreInfo { score: 3, current_streak: 0, best_streak: 2 });
    records.insert(2u64, QuizScoreInfo { score: 7, current_streak: 1, best_streak: 5 });
    records.insert(3u64, QuizScoreInfo { score: 5, current_streak: 5, best_streak: 5 });
    let wins = wins_by_player(&records);
    assert_eq!(wins.len(), 3);
    assert_eq!(wins[&2], 7);
    assert_eq!(rank_scores(&wins), vec![(2, 7), (3, 5), (1, 3)]);
    let e = leaderboard_embed(&wins, None);
    assert_eq!(e.title.as_deref(), Some("Quiz Leaderboard"));
    assert_eq!(e.colour, Some(0xFFA500));
    assert_eq!(e.description.as_deref(), Some("1. <@2> — **7** wins\n2. <@3> — **5** wins\n3. <@1> — **3** wins"));
    let empty = leaderboard_embed(&HashMap::new(), Some(1));
    assert_eq!(empty.description.as_deref(), Some("No scores yet. Play with `/quiz`!"));
}

#[test]
fn leaderboard_shows_ten() {
    let wins: HashMap<u64, u32> = (1..=12u64).map(|i| (i, i as u32)).collect();
    let e = leaderboard_embed(&wins, None);
    let d = e.description.unwrap();
    assert_eq!(d.lines().count(), 10);
    assert!(d.starts_with("1. <@12> — **12** wins"));
}
