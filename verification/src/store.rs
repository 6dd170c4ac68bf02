//! Guild, user and schedule records kept by the bot, the text forms of
//! their enumerations, and the pure decisions of the store: how rows become
//! records and how a quiz round or a toggle changes a record.

use std::collections::HashMap;
use vstd::prelude::*;
use crate::text::{owned, str_eq};

verus! {

/// Per-guild settings.
#[derive(Clone, Debug)]
pub struct GuildSettings {
    pub mod_role_id: Option<u64>,
    pub watch_party: Option<WatchParty>,
    pub accent_color: Option<u32>,
    pub server_list: Vec<ServerListEntry>,
    pub quiz_scores: HashMap<u64, QuizScoreInfo>,
}

/// A member's quiz record in one guild.
#[derive(Clone, Copy, Debug, PartialEq, Eq, Structural)]
pub struct QuizScoreInfo {
    pub score: u32,
    pub current_streak: u32,
    pub best_streak: u32,
}

/// One title on a guild's shared list.
#[derive(Clone, Debug)]
pub struct ServerListEntry {
    pub id: String,
    pub media_id: u64,
    pub title: String,
    pub added_by: u64,
    pub watched: bool,
}

/// The series a guild is watching together.
#[derive(Clone, Debug)]
pub struct WatchParty {
    pub media_id: u64,
    pub title: String,
    pub channel_id: u64,
}

/// A user's display preferences.
#[derive(Clone, Copy, Debug)]
pub struct UserPrefs {
    pub title_language: Option<TitleLanguage>,
    pub compact_mode: bool,
}

/// Which of a title's names to show.
#[derive(Clone, Copy, Debug, PartialEq, Eq, Structural)]
pub enum TitleLanguage {
    Romaji,
    English,
    Native,
}

/// What a scheduled job posts.
#[derive(Clone, Copy, Debug, PartialEq, Eq, Structural)]
pub enum ContentType {
    DailyAnime,
    DailyManga,
    AiringUpdate,
    Trending,
    NewSeason,
    StaffBirthday,
}

/// A scheduled post in a guild channel.
#[derive(Clone, Debug)]
pub struct ScheduleEntry {
    pub id: String,
    pub guild_id: u64,
    pub channel_id: u64,
    pub content_type: ContentType,
    pub cron_expression: String,
    pub timezone: String,
    pub active: bool,
}

/// A user's request to hear about new episodes of a title.
#[derive(Clone, Debug)]
pub struct AiringSubscription {
    pub id: String,
    pub user_id: u64,
    pub guild_id: Option<u64>,
    pub channel_id: Option<u64>,
    pub media_id: u64,
    pub title: String,
}

// ─── Text forms ──────────────────────────────────────────────────────────────

/// The name under which a title language is stored and shown.
pub open spec fn title_language_text(l: TitleLanguage) -> Seq<char> {
    match l {
        TitleLanguage::Romaji => "Romaji"@,
        TitleLanguage::English => "English"@,
        TitleLanguage::Native => "Native"@,
    }
}

/// The title language a stored name denotes, if any.
pub open spec fn parse_title_language(s: Seq<char>) -> Option<TitleLanguage> {
    if s == "Romaji"@ {
        Some(TitleLanguage::Romaji)
    } else if s == "English"@ {
        Some(TitleLanguage::English)
    } else if s == "Native"@ {
        Some(TitleLanguage::Native)
    } else {
        None
    }
}

impl TitleLanguage {
    /// The language's name.
    pub fn to_string(&self) -> (s: String)
        ensures
            s@ == title_language_text(*self),
    {
        match self {
            TitleLanguage::Romaji => owned("Romaji"),
            TitleLanguage::English => owned("English"),
            TitleLanguage::Native => owned("Native"),
        }
    }

    /// Reads a language from its name; any other text is refused.
    pub fn from_str(s: &str) -> (r: Result<TitleLanguage, ()>)
        ensures
            r == (match parse_title_language(s@) {
                Some(l) => Ok(l),
                None => Err(()),
            }),
    {
        if str_eq(s, "Romaji") {
            Ok(TitleLanguage::Romaji)
        } else if str_eq(s, "English") {
            Ok(TitleLanguage::English)
        } else if str_eq(s, "Native") {
            Ok(TitleLanguage::Native)
        } else {
            Err(())
        }
    }
}

/// The name under which a content type is stored and shown.
pub open spec fn content_type_text(c: ContentType) -> Seq<char> {
    match c {
        ContentType::DailyAnime => "daily-anime"@,
        ContentType::DailyManga => "daily-manga"@,
        ContentType::AiringUpdate => "airing-update"@,
        ContentType::Trending => "trending"@,
        ContentType::NewSeason => "new-season"@,
        ContentType::StaffBirthday => "staff-birthday"@,
    }
}

/// The content type a stored name denotes, if any.
pub open spec fn parse_content_type(s: Seq<char>) -> Option<ContentType> {
    if s == "daily-anime"@ {
        Some(ContentType::DailyAnime)
    } else if s == "daily-manga"@ {
        Some(ContentType::DailyManga)
    } else if s == "airing-update"@ {
        Some(ContentType::AiringUpdate)
    } else if s == "trending"@ {
        Some(ContentType::Trending)
    } else if s == "new-season"@ {
        Some(ContentType::NewSeason)
    } else if s == "staff-birthday"@ {
        Some(ContentType::StaffBirthday)
    } else {
        None
    }
}

impl ContentType {
    /// The content type's name.
    pub fn to_string(&self) -> (s: String)
        ensures
            s@ == content_type_text(*self),
    {
        match self {
            ContentType::DailyAnime => owned("daily-anime"),
            ContentType::DailyManga => owned("daily-manga"),
            ContentType::AiringUpdate => owned("airing-update"),
            ContentType::Trending => owned("trending"),
            ContentType::NewSeason => owned("new-season"),
            ContentType::StaffBirthday => owned("staff-birthday"),
        }
    }

    /// Reads a content type from its name; any other text is refused.
    pub fn from_str(s: &str) -> (r: Result<ContentType, ()>)
        ensures
            r == (match parse_content_type(s@) {
                Some(c) => Ok(c),
                None => Err(()),
            }),
    {
        if str_eq(s, "daily-anime") {
            Ok(ContentType::DailyAnime)
        } else if str_eq(s, "daily-manga") {
            Ok(ContentType::DailyManga)
        } else if str_eq(s, "airing-update") {
            Ok(ContentType::AiringUpdate)
        } else if str_eq(s, "trending") {
            Ok(ContentType::Trending)
        } else if str_eq(s, "new-season") {
            Ok(ContentType::NewSeason)
        } else if str_eq(s, "staff-birthday") {
            Ok(ContentType::StaffBirthday)
        } else {
            Err(())
        }
    }
}

/// Reading back the name of a title language gives the same language, and
/// only that name denotes it.
pub proof fn title_language_text_round_trip(l: TitleLanguage, s: Seq<char>)
    ensures
        parse_title_language(title_language_text(l)) == Some(l),
        parse_title_language(s) == Some(l) ==> s == title_language_text(l),
{
    reveal_strlit("Romaji");
    reveal_strlit("English");
    reveal_strlit("Native");
    assert("English"@.len() != "Romaji"@.len());
    assert("Native"@[0] != "Romaji"@[0]);
    assert("Native"@.len() != "English"@.len());
}

/// Reading back the name of a content type gives the same content type,
/// and only that name denotes it.
pub proof fn content_type_text_round_trip(c: ContentType, s: Seq<char>)
    ensures
        parse_content_type(content_type_text(c)) == Some(c),
        parse_content_type(s) == Some(c) ==> s == content_type_text(c),
{
    reveal_strlit("daily-anime");
    reveal_strlit("daily-manga");
    reveal_strlit("airing-update");
    reveal_strlit("trending");
    reveal_strlit("new-season");
    reveal_strlit("staff-birthday");
    assert("daily-manga"@[6] != "daily-anime"@[6]);
    assert("airing-update"@.len() != "daily-anime"@.len());
    assert("airing-update"@.len() != "daily-manga"@.len());
    assert("trending"@.len() != "daily-anime"@.len());
    assert("trending"@.len() != "daily-manga"@.len());
    assert("trending"@.len() != "airing-update"@.len());
    assert("new-season"@.len() != "daily-anime"@.len());
    assert("new-season"@.len() != "daily-manga"@.len());
    assert("new-season"@.len() != "airing-update"@.len());
    assert("new-season"@.len() != "trending"@.len());
    assert("staff-birthday"@.len() != "daily-anime"@.len());
    assert("staff-birthday"@.len() != "daily-manga"@.len());
    assert("staff-birthday"@.len() != "airing-update"@.len());
    assert("staff-birthday"@.len() != "trending"@.len());
    assert("staff-birthday"@.len() != "new-season"@.len());
}

// ─── Quiz scores ─────────────────────────────────────────────────────────────

/// A player's record after a round: a broken streak drops the current
/// streak to zero and keeps the rest; a win adds one to the score and the
/// streak and raises the best streak to the new streak if it is higher. A
/// player with no record starts from zero (a win then gives one of each).
/// Counts wrap at `u32::MAX`, as the stored 64-bit counts do when read back
/// as 32-bit ones.
pub open spec fn after_round_spec(prev: Option<QuizScoreInfo>, streak_broken: bool) -> QuizScoreInfo {
    match prev {
        None => if streak_broken {
            QuizScoreInfo { score: 0, current_streak: 0, best_streak: 0 }
        } else {
            QuizScoreInfo { score: 1, current_streak: 1, best_streak: 1 }
        },
        Some(p) => if streak_broken {
            QuizScoreInfo { current_streak: 0, ..p }
        } else {
            let streak = p.current_streak.wrapping_add(1);
            QuizScoreInfo {
                score: p.score.wrapping_add(1),
                current_streak: streak,
                best_streak: if p.best_streak >= streak { p.best_streak } else { streak },
            }
        },
    }
}

impl QuizScoreInfo {
    /// A player's record after a round.
    pub fn after_round(prev: Option<QuizScoreInfo>, streak_broken: bool) -> (r: QuizScoreInfo)
        ensures
            r == after_round_spec(prev, streak_broken),
    {
        match prev {
            None => if streak_broken {
                QuizScoreInfo { score: 0, current_streak: 0, best_streak: 0 }
            } else {
                QuizScoreInfo { score: 1, current_streak: 1, best_streak: 1 }
            },
            Some(p) => if streak_broken {
                QuizScoreInfo { score: p.score, current_streak: 0, best_streak: p.best_streak }
            } else {
                let streak = p.current_streak.wrapping_add(1);
                QuizScoreInfo {
                    score: p.score.wrapping_add(1),
                    current_streak: streak,
                    best_streak: if p.best_streak >= streak { p.best_streak } else { streak },
                }
            },
        }
    }
}

/// A player's record is in order: the current streak is at most the best
/// streak, which is at most the score.
pub open spec fn in_order(q: QuizScoreInfo) -> bool {
    q.current_streak <= q.best_streak <= q.score
}

/// A round keeps a record in order (short of the score wrapping around at
/// `u32::MAX`): a win adds exactly one to the score and the streak and
/// makes the best streak the larger of the old best and the new streak; a
/// broken streak drops the current streak to zero and leaves score and
/// best streak alone.
pub proof fn quiz_round_laws(prev: Option<QuizScoreInfo>, streak_broken: bool)
    requires
        prev matches Some(p) ==> in_order(p) && p.score < u32::MAX,
    ensures
        in_order(after_round_spec(prev, streak_broken)),
        streak_broken ==> after_round_spec(prev, streak_broken).current_streak == 0,
        (streak_broken && prev is Some) ==> after_round_spec(prev, streak_broken).score
            == prev->0.score && after_round_spec(prev, streak_broken).best_streak
            == prev->0.best_streak,
        (!streak_broken && prev is Some) ==> {
            &&& after_round_spec(prev, streak_broken).score == prev->0.score + 1
            &&& after_round_spec(prev, streak_broken).current_streak == prev->0.current_streak + 1
            &&& after_round_spec(prev, streak_broken).best_streak == if prev->0.best_streak
                >= prev->0.current_streak + 1 {
                prev->0.best_streak as int
            } else {
                prev->0.current_streak + 1
            }
        },
{
}

/// A guild's quiz records, by player, after a round for `user`: that
/// player's record becomes `after_round_spec` of the stored one (or of
/// none), every other record stays as it was.
pub open spec fn scores_after_round(
    table: Map<u64, QuizScoreInfo>,
    user: u64,
    streak_broken: bool,
) -> Map<u64, QuizScoreInfo> {
    let prev = if table.contains_key(user) { Some(table[user]) } else { None };
    table.insert(user, after_round_spec(prev, streak_broken))
}

/// Every record of a guild stays in order over a round, short of the
/// player's score wrapping around at `u32::MAX`; the round touches only
/// that player's record.
pub proof fn records_stay_in_order(table: Map<u64, QuizScoreInfo>, user: u64, streak_broken: bool)
    requires
        forall|k: u64| #[trigger] table.contains_key(k) ==> in_order(table[k]),
        table.contains_key(user) ==> table[user].score < u32::MAX,
    ensures
        forall|k: u64| #[trigger] scores_after_round(table, user, streak_broken).contains_key(k)
            ==> in_order(scores_after_round(table, user, streak_broken)[k]),
        scores_after_round(table, user, streak_broken).contains_key(user),
        forall|k: u64| k != user ==> (#[trigger] scores_after_round(table, user, streak_broken).contains_key(k)
            <==> table.contains_key(k)),
        forall|k: u64| k != user && #[trigger] table.contains_key(k)
            ==> scores_after_round(table, user, streak_broken)[k] == table[k],
{
    let prev = if table.contains_key(user) { Some(table[user]) } else { None };
    quiz_round_laws(prev, streak_broken);
}

// ─── Schedules ───────────────────────────────────────────────────────────────

/// A schedule's state after pausing or resuming it: the opposite of its
/// current state; nothing when there is no such schedule.
pub open spec fn toggled_spec(active: Option<bool>) -> Option<bool> {
    match active {
        Some(a) => Some(!a),
        None => None,
    }
}

/// A schedule's state after pausing or resuming it.
pub fn toggled(active: Option<bool>) -> (r: Option<bool>)
    ensures
        r == toggled_spec(active),
{
    match active {
        Some(a) => Some(!a),
        None => None,
    }
}

/// Pausing or resuming twice leaves a schedule as it was.
pub proof fn toggle_twice_restores(active: Option<bool>)
    ensures
        toggled_spec(toggled_spec(active)) == active,
{
}

/// A stored schedule row.
#[derive(Clone, Debug)]
pub struct ScheduleRow {
    pub id: String,
    pub guild_id: i64,
    pub channel_id: i64,
    pub content_type: String,
    pub cron_expression: String,
    pub timezone: String,
    pub active: bool,
}

/// The schedules stored rows describe, for the given guild; rows whose
/// content type is not a known one are skipped.
pub open spec fn schedules_from_rows_spec(guild_id: u64, rows: Seq<ScheduleRow>) -> Seq<(Seq<char>, u64, u64, ContentType, Seq<char>, Seq<char>, bool)>
    decreases rows.len(),
{
    if rows.len() == 0 {
        seq![]
    } else {
        let prev = schedules_from_rows_spec(guild_id, rows.drop_last());
        let r = rows.last();
        match parse_content_type(r.content_type@) {
            Some(c) => prev.push(
                (r.id@, guild_id, r.channel_id as u64, c, r.cron_expression@, r.timezone@, r.active),
            ),
            None => prev,
        }
    }
}

/// A schedule as text and numbers.
pub open spec fn schedule_view(e: ScheduleEntry) -> (Seq<char>, u64, u64, ContentType, Seq<char>, Seq<char>, bool) {
    (e.id@, e.guild_id, e.channel_id, e.content_type, e.cron_expression@, e.timezone@, e.active)
}

/// The schedules of a guild from its stored rows, skipping rows with an
/// unknown content type.
pub fn schedules_from_rows(guild_id: u64, rows: Vec<ScheduleRow>) -> (r: Vec<ScheduleEntry>)
    ensures
        r@.map_values(|e: ScheduleEntry| schedule_view(e)) == schedules_from_rows_spec(guild_id, rows@),
{
    let mut r: Vec<ScheduleEntry> = Vec::new();
    let mut i: usize = 0;
    while i < rows.len()
        invariant
            i <= rows@.len(),
            r@.map_values(|e: ScheduleEntry| schedule_view(e)) == schedules_from_rows_spec(
                guild_id,
                rows@.take(i as int),
            ),
        decreases rows.len() - i,
    {
        proof {
            assert(rows@.take(i + 1).drop_last() == rows@.take(i as int));
        }
        let row = &rows[i];
        match ContentType::from_str(row.content_type.as_str()) {
            Ok(c) => {
                let ghost before = r@;
                r.push(ScheduleEntry {
                    id: row.id.clone(),
                    guild_id,
                    channel_id: row.channel_id as u64,
                    content_type: c,
                    cron_expression: row.cron_expression.clone(),
                    timezone: row.timezone.clone(),
                    active: row.active,
                });
                assert(r@.map_values(|e: ScheduleEntry| schedule_view(e)) == before.map_values(
                    |e: ScheduleEntry| schedule_view(e),
                ).push(schedule_view(r@.last())));
            },
            Err(_) => {},
        }
        i = i + 1;
    }
    assert(rows@.take(rows@.len() as int) == rows@);
    r
}

/// The rows of one guild, in their order.
pub open spec fn guild_rows(rows: Seq<ScheduleRow>, g: u64) -> Seq<ScheduleRow> {
    rows.filter(|r: ScheduleRow| r.guild_id as u64 == g)
}

/// The schedules that stored rows describe for guild `g`.
pub open spec fn guild_schedules(rows: Seq<ScheduleRow>, g: u64) -> Seq<(Seq<char>, u64, u64, ContentType, Seq<char>, Seq<char>, bool)> {
    schedules_from_rows_spec(g, guild_rows(rows, g))
}

/// A list of schedules as text and numbers.
pub open spec fn entries_view(v: Vec<ScheduleEntry>) -> Seq<(Seq<char>, u64, u64, ContentType, Seq<char>, Seq<char>, bool)> {
    v@.map_values(|e: ScheduleEntry| schedule_view(e))
}

proof fn lemma_schedules_push(g: u64, rows: Seq<ScheduleRow>, r: ScheduleRow)
    ensures
        schedules_from_rows_spec(g, rows.push(r)) == match parse_content_type(r.content_type@) {
            Some(c) => schedules_from_rows_spec(g, rows).push(
                (r.id@, g, r.channel_id as u64, c, r.cron_expression@, r.timezone@, r.active),
            ),
            None => schedules_from_rows_spec(g, rows),
        },
{
    assert(rows.push(r).drop_last() == rows);
}

/// Every guild's schedules from all stored rows: a guild appears when at
/// least one of its rows has a known content type, with its schedules in
/// row order.
pub fn group_schedules(rows: Vec<ScheduleRow>) -> (m: HashMap<u64, Vec<ScheduleEntry>>)
    ensures
        forall|g: u64| #[trigger] m@.contains_key(g) <==> guild_schedules(rows@, g).len() > 0,
        forall|g: u64| #[trigger] m@.contains_key(g) ==> entries_view(m@[g]) == guild_schedules(rows@, g),
{
    broadcast use vstd::std_specs::hash::group_hash_axioms;
    let mut m: HashMap<u64, Vec<ScheduleEntry>> = HashMap::new();
    let mut i: usize = 0;
    while i < rows.len()
        invariant
            i <= rows@.len(),
            forall|g: u64| #[trigger] m@.contains_key(g) <==> guild_schedules(rows@.take(i as int), g).len() > 0,
            forall|g: u64| #[trigger] m@.contains_key(g) ==> entries_view(m@[g]) == guild_schedules(rows@.take(i as int), g),
        decreases rows.len() - i,
    {
        let row = &rows[i];
        let gr: u64 = row.guild_id as u64;
        let ghost before = rows@.take(i as int);
        let ghost after = rows@.take(i + 1);
        proof {
            assert(after == before.push(*row));
            assert forall|g: u64| #[trigger] guild_rows(after, g) == if row.guild_id as u64 == g {
                guild_rows(before, g).push(*row)
            } else {
                guild_rows(before, g)
            } by {
                before.lemma_filter_push(*row, |r: ScheduleRow| r.guild_id as u64 == g);
            }
            assert forall|g: u64| #[trigger] guild_schedules(after, g) == if row.guild_id as u64 == g {
                match parse_content_type(row.content_type@) {
                    Some(c) => guild_schedules(before, g).push(
                        (row.id@, g, row.channel_id as u64, c, row.cron_expression@, row.timezone@, row.active),
                    ),
                    None => guild_schedules(before, g),
                }
            } else {
                guild_schedules(before, g)
            } by {
                if row.guild_id as u64 == g {
                    lemma_schedules_push(g, guild_rows(before, g), *row);
                }
            }
        }
        match ContentType::from_str(row.content_type.as_str()) {
            Ok(c) => {
                let mut list = match m.remove(&gr) {
                    Some(v) => v,
                    None => Vec::new(),
                };
                let ghost old_list = list@;
                list.push(ScheduleEntry {
                    id: row.id.clone(),
                    guild_id: gr,
                    channel_id: row.channel_id as u64,
                    content_type: c,
                    cron_expression: row.cron_expression.clone(),
                    timezone: row.timezone.clone(),
                    active: row.active,
                });
                proof {
                    assert(entries_view(list) == old_list.map_values(|e: ScheduleEntry| schedule_view(e)).push(
                        schedule_view(list@.last()),
                    ));
                    if guild_schedules(before, gr).len() == 0 {
                        assert(old_list.map_values(|e: ScheduleEntry| schedule_view(e)) =~= guild_schedules(before, gr));
                    }
                }
                m.insert(gr, list);
            },
            Err(_) => {},
        }
        i = i + 1;
    }
    assert(rows@.take(rows@.len() as int) == rows@);
    m
}

/// A stored quiz score row; the streak columns may fail to read.
#[derive(Clone, Copy, Debug)]
pub struct QuizRow {
    pub user_id: i64,
    pub score: i64,
    pub current_streak: Option<i64>,
    pub best_streak: Option<i64>,
}

/// The record a quiz row holds; an unreadable streak counts as zero.
pub open spec fn quiz_info(r: QuizRow) -> QuizScoreInfo {
    QuizScoreInfo {
        score: r.score as u32,
        current_streak: match r.current_streak { Some(c) => c as u32, None => 0 },
        best_streak: match r.best_streak { Some(b) => b as u32, None => 0 },
    }
}

/// The quiz records of a guild's rows, by player; a later row for the
/// same player replaces an earlier one.
pub open spec fn quiz_map(rows: Seq<QuizRow>) -> Map<u64, QuizScoreInfo>
    decreases rows.len(),
{
    if rows.len() == 0 {
        Map::empty()
    } else {
        quiz_map(rows.drop_last()).insert(rows.last().user_id as u64, quiz_info(rows.last()))
    }
}

/// The quiz records of a guild, by player, from its stored rows.
pub fn quiz_scores_from_rows(rows: &Vec<QuizRow>) -> (m: HashMap<u64, QuizScoreInfo>)
    ensures
        m@ == quiz_map(rows@),
{
    broadcast use vstd::std_specs::hash::group_hash_axioms;
    let mut m: HashMap<u64, QuizScoreInfo> = HashMap::new();
    let mut i: usize = 0;
    while i < rows.len()
        invariant
            i <= rows@.len(),
            m@ == quiz_map(rows@.take(i as int)),
        decreases rows.len() - i,
    {
        let r = rows[i];
        proof {
            assert(rows@.take(i + 1).drop_last() == rows@.take(i as int));
        }
        let info = QuizScoreInfo {
            score: r.score as u32,
            current_streak: match r.current_streak { Some(c) => c as u32, None => 0 },
            best_streak: match r.best_streak { Some(b) => b as u32, None => 0 },
        };
        m.insert(r.user_id as u64, info);
        i = i + 1;
    }
    assert(rows@.take(rows@.len() as int) == rows@);
    m
}

/// A new schedule: the given timezone or "UTC", active from the start.
pub fn new_schedule(
    id: String,
    guild_id: u64,
    channel_id: u64,
    content_type: ContentType,
    cron_expression: String,
    timezone: Option<String>,
) -> (e: ScheduleEntry)
    ensures
        schedule_view(e) == (
            id@,
            guild_id,
            channel_id,
            content_type,
            cron_expression@,
            match timezone {
                Some(t) => t@,
                None => "UTC"@,
            },
            true,
        ),
{
    let tz = match timezone {
        Some(t) => t,
        None => owned("UTC"),
    };
    ScheduleEntry { id, guild_id, channel_id, content_type, cron_expression, timezone: tz, active: true }
}

// ─── Preferences and settings ────────────────────────────────────────────────

/// A user's preferences from their stored row: the stored language when it
/// is a known one, and the compact flag; defaults when there is no row.
pub open spec fn prefs_from_row_spec(row: Option<(Option<String>, bool)>) -> (Option<TitleLanguage>, bool) {
    match row {
        Some((lang, compact)) => (
            match lang {
                Some(s) => parse_title_language(s@),
                None => None,
            },
            compact,
        ),
        None => (None, false),
    }
}

/// A user's preferences from their stored row.
pub fn prefs_from_row(row: Option<(Option<String>, bool)>) -> (p: UserPrefs)
    ensures
        (p.title_language, p.compact_mode) == prefs_from_row_spec(row),
{
    match row {
        Some((lang, compact)) => {
            let title_language = match lang {
                Some(s) => match TitleLanguage::from_str(s.as_str()) {
                    Ok(l) => Some(l),
                    Err(_) => None,
                },
                None => None,
            };
            UserPrefs { title_language, compact_mode: compact }
        },
        None => UserPrefs { title_language: None, compact_mode: false },
    }
}

/// The watch party a settings row describes: only when media, title and
/// channel are all stored.
pub fn watch_party_from_row(media_id: Option<i64>, title: Option<String>, channel_id: Option<i64>) -> (w: Option<WatchParty>)
    ensures
        match (media_id, title, channel_id) {
            (Some(m), Some(t), Some(c)) => w matches Some(p) && p.media_id == m as u64 && p.title@
                == t@ && p.channel_id == c as u64,
            _ => w is None,
        },
{
    match (media_id, title, channel_id) {
        (Some(m), Some(t), Some(c)) => Some(WatchParty { media_id: m as u64, title: t, channel_id: c as u64 }),
        _ => None,
    }
}

} // verus!
