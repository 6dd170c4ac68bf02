//! The utility commands' replies: latency and statistics pages, watch
//! parties, airing subscriptions, personal preferences, the server list,
//! schedules, and who may manage a guild.

use crate::embed::{blank, Embed, EmbedView};
use crate::embeds::ANILIST_BLUE;
use crate::models::{countdown_text, preferred_title, seconds_left, Media, NextAiringEpisode};
use crate::store::{title_language_text, AiringSubscription, ServerListEntry, TitleLanguage};
use crate::text::{dec, join, owned, u128_to_string, u64_to_string, views};
use vstd::prelude::*;

verus! {

// ─── Ping ────────────────────────────────────────────────────────────────────

/// Green up to `green_max` milliseconds, yellow up to `yellow_max`, red
/// beyond.
pub open spec fn indicator_spec(ms: u128, green_max: u128, yellow_max: u128) -> Seq<char> {
    if ms <= green_max {
        "🟢"@
    } else if ms <= yellow_max {
        "🟡"@
    } else {
        "🔴"@
    }
}

fn indicator(ms: u128, green_max: u128, yellow_max: u128) -> (s: &'static str)
    ensures
        s@ == indicator_spec(ms, green_max, yellow_max),
{
    if ms <= green_max {
        "🟢"
    } else if ms <= yellow_max {
        "🟡"
    } else {
        "🔴"
    }
}

/// A latency as its indicator and "**N**ms".
pub open spec fn latency_text(ms: u128, green_max: u128, yellow_max: u128) -> Seq<char> {
    indicator_spec(ms, green_max, yellow_max) + " **"@ + dec(ms as nat) + "**ms"@
}

fn latency_line(ms: u128, green_max: u128, yellow_max: u128) -> (s: String)
    ensures
        s@ == latency_text(ms, green_max, yellow_max),
{
    let mut s = owned(indicator(ms, green_max, yellow_max));
    s.append(" **");
    let n = u128_to_string(ms);
    s.append(n.as_str());
    s.append("**ms");
    s
}

/// The ping page: the gateway heartbeat (green to 100 ms, yellow to 250)
/// and the AniList round trip (green to 200 ms, yellow to 500).
pub open spec fn ping_embed_spec(heartbeat_ms: u128, api_ms: u128) -> EmbedView {
    blank().title("🏓 Pong!"@).colour(ANILIST_BLUE).field(
        "Gateway Heartbeat"@,
        latency_text(heartbeat_ms, 100, 250),
        true,
    ).field("AniList API"@, latency_text(api_ms, 200, 500), true).stamped().footer(
        "Powered by AniList"@,
    )
}

/// The ping page for the measured latencies, in milliseconds.
pub fn ping_embed(heartbeat_ms: u128, api_ms: u128) -> (e: Embed)
    ensures
        e@ == ping_embed_spec(heartbeat_ms, api_ms),
{
    let mut e = Embed::new();
    e.title = Some(owned("🏓 Pong!"));
    e.colour = Some(ANILIST_BLUE);
    e.add_field(owned("Gateway Heartbeat"), latency_line(heartbeat_ms, 100, 250), true);
    e.add_field(owned("AniList API"), latency_line(api_ms, 200, 500), true);
    e.timestamp_now = true;
    e.footer = Some(owned("Powered by AniList"));
    e
}

// ─── Statistics ──────────────────────────────────────────────────────────────

/// An uptime as "Mm", "Hh Mm" or "Dd Hh Mm".
pub open spec fn uptime_spec(secs: nat) -> Seq<char> {
    let days = secs / 86400;
    let hours = (secs % 86400) / 3600;
    let minutes = (secs % 3600) / 60;
    if days == 0 && hours == 0 {
        dec(minutes) + "m"@
    } else if days == 0 {
        dec(hours) + "h "@ + dec(minutes) + "m"@
    } else {
        dec(days) + "d "@ + dec(hours) + "h "@ + dec(minutes) + "m"@
    }
}

/// How long the bot has been up, in days, hours and minutes.
pub fn uptime_text(secs: u64) -> (s: String)
    ensures
        s@ == uptime_spec(secs as nat),
{
    let days = secs / 86400;
    let hours = (secs % 86400) / 3600;
    let minutes = (secs % 3600) / 60;
    let m = u64_to_string(minutes);
    if days == 0 && hours == 0 {
        let mut s = m;
        s.append("m");
        s
    } else if days == 0 {
        let mut s = u64_to_string(hours);
        s.append("h ");
        s.append(m.as_str());
        s.append("m");
        s
    } else {
        let mut s = u64_to_string(days);
        s.append("d ");
        let h = u64_to_string(hours);
        s.append(h.as_str());
        s.append("h ");
        s.append(m.as_str());
        s.append("m");
        s
    }
}

/// The statistics page.
pub open spec fn stats_embed_spec(
    uptime_secs: u64,
    guilds: u64,
    latency_ms: u128,
    cache_entries: u64,
    version: Seq<char>,
) -> EmbedView {
    blank().title("📊 Bot Statistics"@).colour(0x2ECC71).stamped().field(
        "Uptime"@,
        uptime_spec(uptime_secs as nat),
        true,
    ).field("Servers"@, dec(guilds as nat), true).field(
        "Latency"@,
        dec(latency_ms as nat) + "ms"@,
        true,
    ).field("Cache Entries"@, dec(cache_entries as nat), true).field(
        "Rust Version"@,
        version,
        true,
    )
}

/// The statistics page: uptime, servers, latency, cache size and version.
pub fn stats_embed(
    uptime_secs: u64,
    guilds: u64,
    latency_ms: u128,
    cache_entries: u64,
    version: &str,
) -> (e: Embed)
    ensures
        e@ == stats_embed_spec(uptime_secs, guilds, latency_ms, cache_entries, version@),
{
    let mut e = Embed::new();
    e.title = Some(owned("📊 Bot Statistics"));
    e.colour = Some(0x2ECC71);
    e.timestamp_now = true;
    e.add_field(owned("Uptime"), uptime_text(uptime_secs), true);
    e.add_field(owned("Servers"), u64_to_string(guilds), true);
    let mut latency = u128_to_string(latency_ms);
    latency.append("ms");
    e.add_field(owned("Latency"), latency, true);
    e.add_field(owned("Cache Entries"), u64_to_string(cache_entries), true);
    e.add_field(owned("Rust Version"), owned(version), true);
    e
}

// ─── Watch parties ───────────────────────────────────────────────────────────

/// The reply when a watch party's series is chosen.
pub fn watch_set_text(title: &str) -> (s: String)
    ensures
        s@ == "Watch party series set to: **"@ + title@ + "**"@,
{
    let mut s = owned("Watch party series set to: **");
    s.append(title);
    s.append("**");
    s
}

/// The next episode of a watch party's series, or that none is coming.
pub open spec fn watch_next_spec(title: Seq<char>, next: Option<NextAiringEpisode>) -> Seq<char> {
    match next {
        Some(n) => "Next episode of **"@ + title + "**:\n**Episode "@ + dec(n.episode as nat)
            + "** airs in **"@ + countdown_text(seconds_left(n)) + "**."@,
        None => "No upcoming airing episodes found for **"@ + title + "**."@,
    }
}

/// The reply about the next episode of a watch party's series.
pub fn watch_next_text(title: &str, next: &Option<NextAiringEpisode>) -> (s: String)
    ensures
        s@ == watch_next_spec(title@, *next),
{
    match next {
        Some(n) => {
            let mut s = owned("Next episode of **");
            s.append(title);
            s.append("**:\n**Episode ");
            let ep = u64_to_string(n.episode as u64);
            s.append(ep.as_str());
            s.append("** airs in **");
            let c = n.countdown();
            s.append(c.as_str());
            s.append("**.");
            s
        },
        None => {
            let mut s = owned("No upcoming airing episodes found for **");
            s.append(title);
            s.append("**.");
            s
        },
    }
}

/// The numbered options of a vote, one per line.
pub open spec fn vote_lines(options: Seq<Seq<char>>) -> Seq<Seq<char>> {
    Seq::new(options.len(), |i: int| dec((i + 1) as nat) + ". "@ + options[i])
}

/// The vote page for the options given.
pub open spec fn vote_embed_spec(options: Seq<Seq<char>>) -> EmbedView {
    blank().title("Watch Party Vote!"@).description(
        "React with the corresponding number to vote for the next series:\n\n"@ + join(
            vote_lines(options),
            "\n"@,
        ),
    ).colour(0x3498db)
}

/// The vote page for two or three options.
pub fn vote_embed(opt1: String, opt2: String, opt3: Option<String>) -> (e: Embed)
    ensures
        e@ == vote_embed_spec(
            match opt3 {
                Some(o) => seq![opt1@, opt2@, o@],
                None => seq![opt1@, opt2@],
            },
        ),
{
    let ghost want = match &opt3 {
        Some(o) => seq![opt1@, opt2@, o@],
        None => seq![opt1@, opt2@],
    };
    let mut options: Vec<String> = Vec::new();
    options.push(opt1);
    options.push(opt2);
    match opt3 {
        Some(o) => options.push(o),
        None => {},
    }
    let ghost opts = views(options@);
    let mut lines: Vec<String> = Vec::new();
    let mut i: usize = 0;
    while i < options.len()
        invariant
            i <= options@.len() <= 3,
            opts == views(options@),
            views(lines@) == vote_lines(opts).take(i as int),
        decreases options.len() - i,
    {
        let mut line = u64_to_string((i + 1) as u64);
        line.append(". ");
        line.append(options[i].as_str());
        assert(line@ == vote_lines(opts)[i as int]);
        let ghost before = lines@;
        lines.push(line);
        proof {
            assert(views(lines@) == views(before).push(line@));
        }
        i = i + 1;
        assert(views(lines@) =~= vote_lines(opts).take(i as int));
    }
    assert(vote_lines(opts).take(i as int) =~= vote_lines(opts));
    let mut d = owned("React with the corresponding number to vote for the next series:\n\n");
    let body = crate::text::join_strings(&lines, "\n");
    d.append(body.as_str());
    let mut e = Embed::new();
    e.title = Some(owned("Watch Party Vote!"));
    e.description = Some(d);
    e.colour = Some(0x3498db);
    assert(opts =~= want);
    e
}

// ─── Airing subscriptions ────────────────────────────────────────────────────

/// A subscription's key: user, anime and channel joined by '-'.
pub open spec fn subscription_id_spec(user_id: u64, media_id: u64, channel_id: u64) -> Seq<char> {
    dec(user_id as nat) + "-"@ + dec(media_id as nat) + "-"@ + dec(channel_id as nat)
}

/// A subscription of `user_id` to `media`'s airings in `channel_id`.
pub fn new_subscription(user_id: u64, guild_id: Option<u64>, channel_id: u64, media: &Media) -> (s:
    AiringSubscription)
    ensures
        s.id@ == subscription_id_spec(user_id, media.id, channel_id),
        s.user_id == user_id,
        s.guild_id == guild_id,
        s.channel_id == Some(channel_id),
        s.media_id == media.id,
        s.title@ == preferred_title(media.title),
{
    let mut id = u64_to_string(user_id);
    id.append("-");
    let m = u64_to_string(media.id);
    id.append(m.as_str());
    id.append("-");
    let c = u64_to_string(channel_id);
    id.append(c.as_str());
    AiringSubscription {
        id,
        user_id,
        guild_id,
        channel_id: Some(channel_id),
        media_id: media.id,
        title: owned(media.title.preferred()),
    }
}

/// Whether a storage error says the subscription exists already.
pub fn is_duplicate_error(message: &str) -> (b: bool)
    ensures
        b == crate::text::occurs_in(message@, "UNIQUE"@),
{
    crate::text::contains(message, "UNIQUE")
}

/// The reply to a new subscription.
pub fn subscribed_text(title: &str) -> (s: String)
    ensures
        s@ == "✅ Subscribed to airing notifications for **"@ + title@ + "** in this channel."@,
{
    let mut s = owned("✅ Subscribed to airing notifications for **");
    s.append(title);
    s.append("** in this channel.");
    s
}

/// The reply to an unsubscription: whether one was removed.
pub open spec fn unsubscribed_spec(title: Seq<char>, removed: bool) -> Seq<char> {
    if removed {
        "🔕 Unsubscribed from airing notifications for **"@ + title + "**."@
    } else {
        "You don't have an active subscription for that anime in this channel."@
    }
}

/// The reply to an unsubscription.
pub fn unsubscribed_text(title: &str, removed: bool) -> (s: String)
    ensures
        s@ == unsubscribed_spec(title@, removed),
{
    if removed {
        let mut s = owned("🔕 Unsubscribed from airing notifications for **");
        s.append(title);
        s.append("**.");
        s
    } else {
        owned("You don't have an active subscription for that anime in this channel.")
    }
}

/// Where a subscription posts: a channel mention, or "DM".
pub open spec fn destination(channel_id: Option<u64>) -> Seq<char> {
    match channel_id {
        Some(c) => "<#"@ + dec(c as nat) + ">"@,
        None => "DM"@,
    }
}

/// One numbered line of the subscription list.
pub open spec fn subscription_line(i: int, s: AiringSubscription) -> Seq<char> {
    dec((i + 1) as nat) + ". **"@ + s.title@ + "** → "@ + destination(s.channel_id)
}

/// The subscription list, or how to start one.
pub open spec fn subscriptions_spec(subs: Seq<AiringSubscription>) -> Seq<char> {
    if subs.len() == 0 {
        "You have no active airing subscriptions. Use `/notify subscribe` to add one!"@
    } else {
        "📋 **Your Airing Subscriptions:**\n"@ + join(
            Seq::new(subs.len(), |i: int| subscription_line(i, subs[i])),
            "\n"@,
        )
    }
}

/// A user's airing subscriptions, numbered, with where each posts.
pub fn subscriptions_text(subs: &Vec<AiringSubscription>) -> (s: String)
    requires
        subs@.len() < u64::MAX,
    ensures
        s@ == subscriptions_spec(subs@),
{
    if subs.len() == 0 {
        return owned("You have no active airing subscriptions. Use `/notify subscribe` to add one!");
    }
    let ghost want = Seq::new(subs@.len(), |i: int| subscription_line(i, subs@[i]));
    let mut lines: Vec<String> = Vec::new();
    let mut i: usize = 0;
    while i < subs.len()
        invariant
            i <= subs@.len() < u64::MAX,
            want == Seq::new(subs@.len(), |i: int| subscription_line(i, subs@[i])),
            views(lines@) == want.take(i as int),
        decreases subs.len() - i,
    {
        let sub = &subs[i];
        let mut line = u64_to_string((i + 1) as u64);
        line.append(". **");
        line.append(sub.title.as_str());
        line.append("** → ");
        match sub.channel_id {
            Some(c) => {
                line.append("<#");
                let n = u64_to_string(c);
                line.append(n.as_str());
                line.append(">");
            },
            None => line.append("DM"),
        }
        assert(line@ == want[i as int]);
        let ghost before = lines@;
        lines.push(line);
        proof {
            assert(views(lines@) == views(before).push(line@));
        }
        i = i + 1;
        assert(views(lines@) =~= want.take(i as int));
    }
    assert(want.take(i as int) =~= want);
    let mut s = owned("📋 **Your Airing Subscriptions:**\n");
    let body = crate::text::join_strings(&lines, "\n");
    s.append(body.as_str());
    s
}

// ─── Preferences ─────────────────────────────────────────────────────────────

/// The reply to a new title language.
pub fn title_language_reply(lang: TitleLanguage) -> (s: String)
    ensures
        s@ == "Title language preference updated to **"@ + title_language_text(lang) + "**."@,
{
    let mut s = owned("Title language preference updated to **");
    let t = lang.to_string();
    s.append(t.as_str());
    s.append("**.");
    s
}

/// The compact mode to store: the one asked for, else the opposite of
/// the current one.
pub fn next_compact_mode(enable: Option<bool>, current: bool) -> (m: bool)
    ensures
        m == match enable {
            Some(b) => b,
            None => !current,
        },
{
    match enable {
        Some(b) => b,
        None => !current,
    }
}

/// The reply to a compact mode change.
pub fn compact_mode_reply(mode: bool) -> (s: String)
    ensures
        s@ == "Compact mode has been **"@ + (if mode { "enabled"@ } else { "disabled"@ }) + "**."@,
{
    let mut s = owned("Compact mode has been **");
    if mode {
        s.append("enabled");
    } else {
        s.append("disabled");
    }
    s.append("**.");
    s
}

// ─── Server list ─────────────────────────────────────────────────────────────

/// A new, unwatched server list entry for `media`, added by `added_by`.
pub fn new_server_entry(id: String, media: &Media, added_by: u64) -> (e: ServerListEntry)
    ensures
        e.id@ == id@,
        e.media_id == media.id,
        e.title@ == preferred_title(media.title),
        e.added_by == added_by,
        !e.watched,
{
    ServerListEntry { id, media_id: media.id, title: owned(media.title.preferred()), added_by, watched: false }
}

/// The reply to an addition to the server list.
pub fn server_added_text(title: &str) -> (s: String)
    ensures
        s@ == "Added **"@ + title@ + "** to the server list."@,
{
    let mut s = owned("Added **");
    s.append(title);
    s.append("** to the server list.");
    s
}

/// The reply to marking an entry watched: whether the entry was there.
pub open spec fn watched_spec(id: Seq<char>, found: bool) -> Seq<char> {
    if found {
        "Marked entry `"@ + id + "` as watched."@
    } else {
        "Entry `"@ + id + "` not found."@
    }
}

/// The reply to marking an entry watched.
pub fn watched_text(id: &str, found: bool) -> (s: String)
    ensures
        s@ == watched_spec(id@, found),
{
    if found {
        let mut s = owned("Marked entry `");
        s.append(id);
        s.append("` as watched.");
        s
    } else {
        let mut s = owned("Entry `");
        s.append(id);
        s.append("` not found.");
        s
    }
}

// ─── Schedules ───────────────────────────────────────────────────────────────

/// The reply to a new schedule.
pub fn schedule_added_text(id: &str, channel_id: u64) -> (s: String)
    ensures
        s@ == "Added schedule with ID `"@ + id@ + "` for channel <#"@ + dec(channel_id as nat) + ">."@,
{
    let mut s = owned("Added schedule with ID `");
    s.append(id);
    s.append("` for channel <#");
    let c = u64_to_string(channel_id);
    s.append(c.as_str());
    s.append(">.");
    s
}

/// The reply to a removal: whether the schedule was there.
pub open spec fn schedule_removed_spec(id: Seq<char>, found: bool) -> Seq<char> {
    if found {
        "Removed schedule `"@ + id + "`."@
    } else {
        "Schedule `"@ + id + "` not found in this guild."@
    }
}

/// The reply to a schedule's removal.
pub fn schedule_removed_text(id: &str, found: bool) -> (s: String)
    ensures
        s@ == schedule_removed_spec(id@, found),
{
    if found {
        let mut s = owned("Removed schedule `");
        s.append(id);
        s.append("`.");
        s
    } else {
        let mut s = owned("Schedule `");
        s.append(id);
        s.append("` not found in this guild.");
        s
    }
}

/// The reply to a pause or resume: the schedule's new state, if found.
pub open spec fn schedule_toggled_spec(id: Seq<char>, state: Option<bool>) -> Seq<char> {
    match state {
        Some(true) => "Schedule `"@ + id + "` is now **active**."@,
        Some(false) => "Schedule `"@ + id + "` is now **paused**."@,
        None => "Schedule `"@ + id + "` not found."@,
    }
}

/// The reply to a schedule's pause or resume.
pub fn schedule_toggled_text(id: &str, state: Option<bool>) -> (s: String)
    ensures
        s@ == schedule_toggled_spec(id@, state),
{
    let mut s = owned("Schedule `");
    s.append(id);
    match state {
        Some(true) => s.append("` is now **active**."),
        Some(false) => s.append("` is now **paused**."),
        None => s.append("` not found."),
    }
    s
}

// ─── Permissions ─────────────────────────────────────────────────────────────

/// Who may manage a guild's settings and schedules: its owner, an
/// administrator, or a holder of the guild's moderator role.
pub open spec fn may_manage_spec(is_owner: bool, is_admin: bool, roles: Seq<u64>, mod_role: Option<u64>) -> bool {
    is_owner || is_admin || (mod_role matches Some(r) && roles.contains(r))
}

/// Whether a member may manage the guild.
pub fn may_manage(is_owner: bool, is_admin: bool, roles: &Vec<u64>, mod_role: Option<u64>) -> (b: bool)
    ensures
        b == may_manage_spec(is_owner, is_admin, roles@, mod_role),
{
    if is_owner || is_admin {
        return true;
    }
    match mod_role {
        Some(r) => {
            let mut i: usize = 0;
            while i < roles.len()
                invariant
                    i <= roles@.len(),
                    !is_owner && !is_admin,
                    mod_role == Some(r),
                    forall|j: int| 0 <= j < i ==> roles@[j] != r,
                decreases roles.len() - i,
            {
                if roles[i] == r {
                    assert(roles@[i as int] == r);
                    assert(roles@.contains(r));
                    return true;
                }
                i = i + 1;
            }
            false
        },
        None => false,
    }
}

// ─── Autocomplete ────────────────────────────────────────────────────────────

/// The names whose lower-case form contains the lower-case `partial`, in
/// their order.
pub open spec fn matching_spec(names: Seq<Seq<char>>, partial: Seq<char>) -> Seq<Seq<char>> {
    names.filter(|n: Seq<char>| crate::text::occurs_in(crate::text::lowercase(n), crate::text::lowercase(partial)))
}

/// The names that contain what was typed, ignoring case.
pub fn matching_names(names: &Vec<String>, partial: &str) -> (r: Vec<String>)
    ensures
        views(r@) == matching_spec(views(names@), partial@),
{
    let needle = crate::text::to_lowercase(partial);
    let ghost keep = |n: Seq<char>| crate::text::occurs_in(crate::text::lowercase(n), crate::text::lowercase(partial@));
    let mut r: Vec<String> = Vec::new();
    let mut i: usize = 0;
    while i < names.len()
        invariant
            i <= names@.len(),
            needle@ == crate::text::lowercase(partial@),
            keep == (|n: Seq<char>| crate::text::occurs_in(crate::text::lowercase(n), crate::text::lowercase(partial@))),
            views(r@) == views(names@).take(i as int).filter(keep),
        decreases names.len() - i,
    {
        let low = crate::text::to_lowercase(names[i].as_str());
        proof {
            assert(views(names@).take(i + 1) == views(names@).take(i as int).push(names@[i as int]@));
            views(names@).take(i as int).lemma_filter_push(names@[i as int]@, keep);
        }
        if crate::text::contains(low.as_str(), needle.as_str()) {
            r.push(names[i].clone());
            assert(views(r@) =~= views(names@).take(i as int).filter(keep).push(names@[i as int]@));
        }
        i = i + 1;
    }
    assert(views(names@).take(i as int) =~= views(names@));
    r
}

/// The reply to asking for the next episode when no watch party series is
/// set.
pub fn no_watch_party_text() -> (s: String)
    ensures
        s@ == "No watch party series is currently set. Use `/watch set <title>` first."@,
{
    owned("No watch party series is currently set. Use `/watch set <title>` first.")
}

} // verus!
