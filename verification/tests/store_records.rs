use anilist::store::{
    group_schedules, new_schedule, prefs_from_row, quiz_scores_from_rows, schedules_from_rows,
    toggled, watch_party_from_row, ContentType, QuizRow, QuizScoreInfo, ScheduleRow, TitleLanguage,
};

fn row(id: &str, guild: i64, channel: i64, content: &str, active: bool) -> ScheduleRow {
    ScheduleRow {
        id: id.to_string(),
        guild_id: guild,
        channel_id: channel,
        content_type: content.to_string(),
        cron_expression: "0 9 * * *".to_string(),
        timezone: "UTC".to_string(),
        active,
    }
}

#[test]
fn title_language_text_round_trips() {
    for l in [TitleLanguage::Romaji, TitleLanguage::English, TitleLanguage::Native] {
        assert_eq!(TitleLanguage::from_str(&l.to_string()), Ok(l));
    }
    assert_eq!(TitleLanguage::English.to_string(), "English");
    assert_eq!(TitleLanguage::from_str("english"), Err(()));
    assert_eq!(TitleLanguage::from_str(""), Err(()));
}

#[test]
fn content_type_text_round_trips() {
    let all = [
        ContentType::DailyAnime,
        ContentType::DailyManga,
        ContentType::AiringUpdate,
        ContentType::Trending,
        ContentType::NewSeason,
        ContentType::StaffBirthday,
    ];
    for c in all {
        assert_eq!(ContentType::from_str(&c.to_string()), Ok(c));
    }
    assert_eq!(ContentType::DailyAnime.to_string(), "daily-anime");
    assert_eq!(ContentType::StaffBirthday.to_string(), "staff-birthday");
    assert_eq!(ContentType::from_str("daily_anime"), Err(()));
}

#[test]
fn a_won_round_adds_a_point_and_extends_the_streak() {
    let first = QuizScoreInfo::after_round(None, false);
    assert_eq!(first, QuizScoreInfo { score: 1, current_streak: 1, best_streak: 1 });
    let second = QuizScoreInfo::after_round(Some(first), false);
    assert_eq!(second, QuizScoreInfo { score: 2, current_streak: 2, best_streak: 2 });
    let broken = QuizScoreInfo::after_round(Some(second), true);
    assert_eq!(broken, QuizScoreInfo { score: 2, current_streak: 0, best_streak: 2 });
    let again = QuizScoreInfo::after_round(Some(broken), false);
    assert_eq!(again, QuizScoreInfo { score: 3, current_streak: 1, best_streak: 2 });
}

#[test]
fn a_lost_first_round_records_zeroes() {
    assert_eq!(
        QuizScoreInfo::after_round(None, true),
        QuizScoreInfo { score: 0, current_streak: 0, best_streak: 0 }
    );
}

#[test]
fn toggling_twice_restores() {
    assert_eq!(toggled(Some(true)), Some(false));
    assert_eq!(toggled(Some(false)), Some(true));
    assert_eq!(toggled(None), None);
    assert_eq!(toggled(toggled(Some(true))), Some(true));
}

#[test]
fn schedule_rows_skip_unknown_content() {
    let rows = vec![row("1", 7, 70, "trending", true), row("2", 7, 71, "bogus", true), row("3", 7, 72, "daily-manga", false)];
    let out = schedules_from_rows(7, rows);
    assert_eq!(out.len(), 2);
    assert_eq!(out[0].id, "1");
    assert_eq!(out[0].content_type, ContentType::Trending);
    assert_eq!(out[1].id, "3");
    assert_eq!(out[1].channel_id, 72);
    assert!(!out[1].active);
}

#[test]
fn schedules_group_by_guild() {
    let rows = vec![
        row("a", 1, 10, "trending", true),
        row("b", 2, 20, "daily-anime", true),
        row("c", 1, 11, "new-season", false),
        row("d", 3, 30, "nope", true),
    ];
    let m = group_schedules(rows);
    assert_eq!(m.len(), 2);
    let g1 = &m[&1];
    assert_eq!(g1.iter().map(|e| e.id.as_str()).collect::<Vec<_>>(), vec!["a", "c"]);
    assert_eq!(g1[1].guild_id, 1);
    assert_eq!(m[&2][0].content_type, ContentType::DailyAnime);
    assert!(!m.contains_key(&3));
}

#[test]
fn quiz_rows_become_records() {
    let rows = vec![
        QuizRow { user_id: 5, score: 3, current_streak: Some(1), best_streak: Some(2) },
        QuizRow { user_id: 6, score: 1, current_streak: None, best_streak: None },
        QuizRow { user_id: 5, score: 4, current_streak: Some(2), best_streak: Some(2) },
    ];
    let m = quiz_scores_from_rows(&rows);
    assert_eq!(m.len(), 2);
    assert_eq!(m[&5], QuizScoreInfo { score: 4, current_streak: 2, best_streak: 2 });
    assert_eq!(m[&6], QuizScoreInfo { score: 1, current_streak: 0, best_streak: 0 });
}

#[test]
fn new_schedules_default_to_utc() {
    let e = new_schedule("9".to_string(), 1, 2, ContentType::Trending, "0 * * * *".to_string(), None);
    assert_eq!(e.timezone, "UTC");
    assert!(e.active);
    let e2 = new_schedule("9".to_string(), 1, 2, ContentType::Trending, "0 * * * *".to_string(), Some("Asia/Tokyo".to_string()));
    assert_eq!(e2.timezone, "Asia/Tokyo");
}

#[test]
fn prefs_rows() {
    let p = prefs_from_row(Some((Some("Native".to_string()), true)));
    assert_eq!(p.title_language, Some(TitleLanguage::Native));
    assert!(p.compact_mode);
    let q = prefs_from_row(Some((Some("Klingon".to_string()), false)));
    assert_eq!(q.title_language, None);
    let d = prefs_from_row(None);
    assert_eq!(d.title_language, None);
    assert!(!d.compact_mode);
}

#[test]
fn watch_party_needs_all_columns() {
    let w = watch_party_from_row(Some(21), Some("One Piece".to_string()), Some(99)).unwrap();
    assert_eq!((w.media_id, w.title.as_str(), w.channel_id), (21, "One Piece", 99));
    assert!(watch_party_from_row(Some(21), None, Some(99)).is_none());
}

#[test]
fn records_stay_in_order_over_rounds() {
    let in_order = |q: &QuizScoreInfo| q.current_streak <= q.best_streak && q.best_streak <= q.score;
    let mut rec: Option<QuizScoreInfo> = None;
    for broken in [false, false, true, false, true, false, false, false] {
        let next = QuizScoreInfo::after_round(rec, broken);
        assert!(in_order(&next));
        rec = Some(next);
    }
    let r = rec.unwrap();
    assert_eq!((r.score, r.current_streak, r.best_streak), (6, 3, 3));
    let kept = QuizScoreInfo::after_round(Some(QuizScoreInfo { score: 9, current_streak: 1, best_streak: 5 }), false);
    assert_eq!((kept.score, kept.current_streak, kept.best_streak), (10, 2, 5));
    let lost = QuizScoreInfo::after_round(None, true);
    assert_eq!((lost.score, lost.current_streak, lost.best_streak), (0, 0, 0));
}
