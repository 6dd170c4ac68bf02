//! Scheduled posts: which season a date falls in, what each kind of
//! scheduled job posts, and the schedule listing.

use vstd::prelude::*;
use crate::clock::utc_month_year;
use crate::embed::{blank, Embed, EmbedView};
use crate::embeds::{
    airing_page_embed, airing_page_embed_spec, media_embed, media_embed_spec, media_list_embed,
    media_list_embed_spec, staff_birthday_embed, staff_birthday_embed_spec, upcoming_page_embed,
    upcoming_page_embed_spec,
};
use crate::models::{Media, StaffBirthday};
use crate::store::{content_type_text, ContentType, ScheduleEntry};
use crate::text::{dec, owned, u64_to_string};

verus! {

/// The season the scheduler announces in a month: spring from March,
/// summer from June, fall from September, winter otherwise.
pub open spec fn job_season_spec(month: u32) -> Seq<char> {
    if 3 <= month <= 5 {
        "SPRING"@
    } else if 6 <= month <= 8 {
        "SUMMER"@
    } else if 9 <= month <= 11 {
        "FALL"@
    } else {
        "WINTER"@
    }
}

/// The season the scheduler announces in a month.
pub fn job_season(month: u32) -> (s: &'static str)
    ensures
        s@ == job_season_spec(month),
{
    if 3 <= month && month <= 5 {
        "SPRING"
    } else if 6 <= month && month <= 8 {
        "SUMMER"
    } else if 9 <= month && month <= 11 {
        "FALL"
    } else {
        "WINTER"
    }
}

/// The season the upcoming list shows by default in a month: winter for
/// January to March, spring to June, summer to September, fall otherwise.
pub open spec fn calendar_season_spec(month: u32) -> Seq<char> {
    if 1 <= month <= 3 {
        "WINTER"@
    } else if 4 <= month <= 6 {
        "SPRING"@
    } else if 7 <= month <= 9 {
        "SUMMER"@
    } else {
        "FALL"@
    }
}

/// The season the upcoming list shows by default in a month.
pub fn calendar_season(month: u32) -> (s: &'static str)
    ensures
        s@ == calendar_season_spec(month),
{
    if 1 <= month && month <= 3 {
        "WINTER"
    } else if 4 <= month && month <= 6 {
        "SPRING"
    } else if 7 <= month && month <= 9 {
        "SUMMER"
    } else {
        "FALL"
    }
}

/// A reading of the UTC month and year as the scheduler uses it: the
/// reading itself, or January 1970, the Unix epoch, when the clock could
/// not be placed on the calendar.
pub open spec fn month_year_or_epoch_spec(d: Option<(u32, i32)>) -> (u32, i32) {
    match d {
        Some(p) => p,
        None => (1, 1970),
    }
}

/// A reading of the clock as a month and year: the month, if there is one,
/// lies between 1 and 12.
pub open spec fn is_month_reading(d: Option<(u32, i32)>) -> bool {
    d matches Some(p) ==> 1 <= p.0 <= 12
}

/// The reading itself, or January 1970 when there is none.
pub fn month_year_or_epoch(d: Option<(u32, i32)>) -> (r: (u32, i32))
    ensures
        r == month_year_or_epoch_spec(d),
{
    match d {
        Some(p) => p,
        None => (1, 1970),
    }
}

/// The season the upcoming list shows, given the season asked for and the
/// month it is.
pub open spec fn upcoming_season_spec(season: Option<String>, month: u32) -> Seq<char> {
    match season {
        Some(s) => s@,
        None => calendar_season_spec(month),
    }
}

/// The season and year the upcoming list shows: the ones asked for, else
/// the current ones by the UTC date (January 1970 where the clock cannot
/// be read as a date).
pub fn upcoming_season_year(season: Option<String>, year: Option<i32>) -> (r: (String, i32))
    ensures
        exists|d: Option<(u32, i32)>|
            #![trigger month_year_or_epoch_spec(d)]
            is_month_reading(d)
            && r.0@ == upcoming_season_spec(season, month_year_or_epoch_spec(d).0)
            && r.1 == (match year {
                Some(y) => y,
                None => month_year_or_epoch_spec(d).1,
            }),
        season matches Some(s) ==> r.0@ == s@,
        year matches Some(y) ==> r.1 == y,
        season is None ==> exists|m: u32| 1 <= m <= 12 && r.0@ == calendar_season_spec(m),
{
    let today = utc_month_year();
    let (month, now_year) = month_year_or_epoch(today);
    let ghost asked = season;
    let y = match year {
        Some(y) => y,
        None => now_year,
    };
    let s = match season {
        Some(s) => s,
        None => owned(calendar_season(month)),
    };
    assert(s@ == upcoming_season_spec(asked, month_year_or_epoch_spec(today).0));
    (s, y)
}

/// The season and year a new-season post announces, reading the UTC date
/// once for the month and once for the year; a reading that cannot be
/// placed on the calendar counts as January 1970.
pub fn job_season_year() -> (r: (&'static str, i32))
    ensures
        exists|d: Option<(u32, i32)>, e: Option<(u32, i32)>|
            #![trigger month_year_or_epoch_spec(d), month_year_or_epoch_spec(e)]
            is_month_reading(d) && is_month_reading(e)
            && r.0@ == job_season_spec(month_year_or_epoch_spec(d).0)
            && r.1 == month_year_or_epoch_spec(e).1,
        exists|m: u32| 1 <= m <= 12 && r.0@ == job_season_spec(m),
{
    let first = utc_month_year();
    let (month, _) = month_year_or_epoch(first);
    let second = utc_month_year();
    let (_, year) = month_year_or_epoch(second);
    (job_season(month), year)
}

/// What a scheduled job fetched from AniList.
pub enum JobData {
    /// One random title.
    OneMedia(Media),
    /// A list of titles (airing, trending or upcoming).
    MediaList(Vec<Media>),
    /// Today's staff birthdays.
    Birthdays(Vec<StaffBirthday>),
}


/// The embed a scheduled job posts for what it fetched: the random title,
/// the airing or upcoming page, the trending list, or the birthdays (none
/// when nobody has a birthday); none when the data does not fit the job.
pub open spec fn job_embed_spec(
    c: ContentType,
    data: JobData,
    season: Seq<char>,
    year: int,
    accent: Option<u32>,
) -> Option<EmbedView> {
    match (c, data) {
        (ContentType::DailyAnime, JobData::OneMedia(m)) => Some(
            media_embed_spec(m, "Anime"@, None, accent),
        ),
        (ContentType::DailyManga, JobData::OneMedia(m)) => Some(
            media_embed_spec(m, "Manga"@, None, accent),
        ),
        (ContentType::AiringUpdate, JobData::MediaList(v)) => Some(
            airing_page_embed_spec(v@, 1, 1, None, accent),
        ),
        (ContentType::Trending, JobData::MediaList(v)) => Some(
            media_list_embed_spec(v@, "Trending Anime"@, None, accent),
        ),
        (ContentType::NewSeason, JobData::MediaList(v)) => Some(
            upcoming_page_embed_spec(v@, season, year, 1, 1, None, accent),
        ),
        (ContentType::StaffBirthday, JobData::Birthdays(v)) => if v@.len() == 0 {
            None
        } else {
            Some(staff_birthday_embed_spec(v@, accent))
        },
        _ => None,
    }
}

/// The embed a scheduled job posts for what it fetched.
pub fn job_embed(
    c: ContentType,
    data: &JobData,
    season: &str,
    year: i32,
    accent: Option<u32>,
) -> (e: Option<Embed>)
    requires
        data matches JobData::MediaList(v) ==> v@.len() < usize::MAX,
    ensures
        match e {
            Some(x) => job_embed_spec(c, *data, season@, year as int, accent) == Some(x@),
            None => job_embed_spec(c, *data, season@, year as int, accent) is None,
        },
{
    match (c, data) {
        (ContentType::DailyAnime, JobData::OneMedia(m)) => Some(media_embed(m, "Anime", None, accent)),
        (ContentType::DailyManga, JobData::OneMedia(m)) => Some(media_embed(m, "Manga", None, accent)),
        (ContentType::AiringUpdate, JobData::MediaList(v)) => Some(
            airing_page_embed(v.as_slice(), 1, 1, None, accent),
        ),
        (ContentType::Trending, JobData::MediaList(v)) => Some(
            media_list_embed(v.as_slice(), "Trending Anime", None, accent),
        ),
        (ContentType::NewSeason, JobData::MediaList(v)) => Some(
            upcoming_page_embed(v.as_slice(), season, year, 1, 1, None, accent),
        ),
        (ContentType::StaffBirthday, JobData::Birthdays(v)) => if v.len() == 0 {
            None
        } else {
            Some(staff_birthday_embed(v.as_slice(), accent))
        },
        _ => None,
    }
}

/// One schedule in the listing: channel, content, cron, timezone, state.
pub open spec fn schedule_field(e: ScheduleEntry) -> (Seq<char>, Seq<char>, bool) {
    (
        "ID: "@ + e.id@,
        "Channel: <#"@ + dec(e.channel_id as nat) + ">\nContent: `"@ + content_type_text(
            e.content_type,
        ) + "`\nCron: `"@ + e.cron_expression@ + "`\nTimezone: `"@ + e.timezone@
            + "`\nStatus: "@ + if e.active { "✅ Active"@ } else { "⏸️ Paused"@ },
        false,
    )
}

/// The listing of a guild's schedules.
pub open spec fn schedule_list_embed_spec(entries: Seq<ScheduleEntry>) -> EmbedView {
    blank().title("Guild Schedules"@).with_fields(
        entries.map_values(|e: ScheduleEntry| schedule_field(e)),
    )
}

/// The listing of a guild's schedules, one field each.
pub fn schedule_list_embed(entries: &Vec<ScheduleEntry>) -> (e: Embed)
    ensures
        e@ == schedule_list_embed_spec(entries@),
{
    let mut e = Embed::new();
    e.title = Some(owned("Guild Schedules"));
    let ghost base = e@;
    let mut i: usize = 0;
    while i < entries.len()
        invariant
            i <= entries@.len(),
            e@ == base.with_fields(
                entries@.take(i as int).map_values(|e: ScheduleEntry| schedule_field(e)),
            ),
        decreases entries.len() - i,
    {
        let s = &entries[i];
        let mut name = owned("ID: ");
        name.append(s.id.as_str());
        let mut v = owned("Channel: <#");
        let ch = u64_to_string(s.channel_id);
        v.append(ch.as_str());
        v.append(">\nContent: `");
        let ct = s.content_type.to_string();
        v.append(ct.as_str());
        v.append("`\nCron: `");
        v.append(s.cron_expression.as_str());
        v.append("`\nTimezone: `");
        v.append(s.timezone.as_str());
        v.append("`\nStatus: ");
        v.append(if s.active { "✅ Active" } else { "⏸️ Paused" });
        e.add_field(name, v, false);
        proof {
            assert(entries@.take(i + 1).map_values(|e: ScheduleEntry| schedule_field(e))
                == entries@.take(i as int).map_values(|e: ScheduleEntry| schedule_field(e)).push(
                schedule_field(entries@[i as int]),
            ));
        }
        i = i + 1;
    }
    assert(entries@.take(entries@.len() as int) == entries@);
    e
}

/// A fresh schedule id: a random 32-bit number in decimal.
pub fn new_schedule_id() -> (id: String)
    ensures
        exists|n: u32| id@ == dec(n as nat),
{
    let n = crate::clock::random_u32();
    u64_to_string(n as u64)
}

/// A fresh server-list id: a random 16-bit number in decimal.
pub fn new_server_list_id() -> (id: String)
    ensures
        exists|n: u16| id@ == dec(n as nat),
{
    let n = crate::clock::random_u16();
    u64_to_string(n as u64)
}

} // verus!
