//! The embeds the bot sends for media, characters, studios, staff, users,
//! lists and leaderboards.

use vstd::prelude::*;
use crate::embed::{blank, colour_for, get_color, Embed, EmbedView};
use crate::models::{
    countdown_text, fuzzy_date_text, or_default, seconds_left, title_in, Character,
    CharacterMediaEdge, FavouriteCharacterNode, FavouriteMediaNode, FavouriteStudioNode, Media,
    MediaList, MediaListCollection, MediaListEntry, MediaRecommendationInfo, MediaRelationEdge, RecommendationNode, AniListUser, UserGenreStatistic, Staff, StaffBirthday, StaffMediaNode, Studio, StudioMediaNode, UserFavourites,
};
use crate::store::{ServerListEntry, TitleLanguage};
use crate::text::{
    chars_of, clean_html, clean_html_spec, dec, i64_to_string, idec, join, join_strings, owned, string_of, truncate, truncate_spec,
    u64_to_string, views,
};

verus! {

pub const ANILIST_BLUE: u32 = 0x02a9ff;
pub const PURPLE: u32 = 0x9b59b6;
pub const TEAL: u32 = 0x1abc9c;

/// A description cleaned of markup and cut to `max` characters, or the
/// given placeholder when there is none.
pub open spec fn blurb(d: Option<String>, max: nat, none: Seq<char>) -> Seq<char> {
    match d {
        Some(s) => truncate_spec(clean_html_spec(s@), max),
        None => none,
    }
}

fn make_blurb(d: &Option<String>, max: usize, none: &str) -> (r: String)
    ensures
        r@ == blurb(*d, max as nat, none@),
{
    match d {
        Some(s) => {
            let c = clean_html(s.as_str());
            truncate(c.as_str(), max)
        },
        None => owned(none),
    }
}

fn push_str(s: &mut String, t: &str)
    ensures
        final(s)@ == old(s)@ + t@,
{
    s.append(t);
}

fn push_num(s: &mut String, n: u64)
    ensures
        final(s)@ == old(s)@ + dec(n as nat),
{
    let t = u64_to_string(n);
    s.append(t.as_str());
}

/// " • S/100" for a known score, nothing otherwise.
pub open spec fn score_suffix(s: Option<u32>) -> Seq<char> {
    match s {
        Some(v) => " • "@ + dec(v as nat) + "/100"@,
        None => seq![],
    }
}

fn make_score_suffix(s: Option<u32>) -> (r: String)
    ensures
        r@ == score_suffix(s),
{
    match s {
        Some(v) => {
            let mut r = owned(" • ");
            push_num(&mut r, v as u64);
            push_str(&mut r, "/100");
            r
        },
        None => String::new(),
    }
}

fn opt_str<'a>(o: &'a Option<String>, fallback: &'a str) -> (r: &'a str)
    ensures
        r@ == or_default(*o, fallback@),
{
    match o {
        Some(s) => s.as_str(),
        None => fallback,
    }
}

// ─── Media ───────────────────────────────────────────────────────────────────

/// "S/100" for a known score, "N/A" otherwise.
pub open spec fn score_text(s: Option<u32>) -> Seq<char> {
    match s {
        Some(v) => dec(v as nat) + "/100"@,
        None => "N/A"@,
    }
}

/// The genres separated by commas, or "N/A" when there are none.
pub open spec fn genres_text(g: Seq<String>) -> Seq<char> {
    if g.len() == 0 {
        "N/A"@
    } else {
        join(views(g), ", "@)
    }
}

/// The embed describing one anime or manga.
pub open spec fn media_embed_spec(
    media: Media,
    media_type: Seq<char>,
    lang: Option<TitleLanguage>,
    guild_color: Option<u32>,
) -> EmbedView {
    let base = blank().title(title_in(media.title, lang)).url(media.site_url@).description(
        blurb(media.description, 300, "No description available."@),
    ).colour(colour_for(guild_color, ANILIST_BLUE)).footer(
        media_type + " • AniList ID "@ + dec(media.id as nat),
    ).field("Format"@, or_default(media.format, "Unknown"@), true).field(
        "Status"@,
        or_default(media.status, "Unknown"@),
        true,
    ).field("Score"@, score_text(media.average_score), true).field(
        "Genres"@,
        genres_text(media.genres@),
        false,
    );
    let e1 = match media.start_date {
        Some(d) => base.field("Start Date"@, fuzzy_date_text(d), true),
        None => base,
    };
    let e2 = match media.episodes {
        Some(n) => e1.field("Episodes"@, dec(n as nat), true),
        None => e1,
    };
    let e3 = match (media.season, media.season_year) {
        (Some(s), Some(y)) => e2.field("Season"@, s@ + " "@ + dec(y as nat), true),
        _ => e2,
    };
    let e4 = match media.chapters {
        Some(n) => e3.field("Chapters"@, dec(n as nat), true),
        None => e3,
    };
    let e5 = match media.volumes {
        Some(n) => e4.field("Volumes"@, dec(n as nat), true),
        None => e4,
    };
    match media.cover_image {
        Some(c) => match c.large {
            Some(u) => e5.thumbnail(u@),
            None => e5,
        },
        None => e5,
    }
}

/// The embed describing one anime or manga: title in the reader's
/// language, cleaned description, format, status, score, genres and the
/// dates and counts AniList knows.
pub fn media_embed(
    media: &Media,
    media_type: &str,
    lang: Option<TitleLanguage>,
    guild_color: Option<u32>,
) -> (e: Embed)
    ensures
        e@ == media_embed_spec(*media, media_type@, lang, guild_color),
{
    let description = make_blurb(&media.description, 300, "No description available.");
    let genres = if media.genres.len() == 0 {
        owned("N/A")
    } else {
        join_strings(&media.genres, ", ")
    };
    let score = match media.average_score {
        Some(s) => {
            let mut r = u64_to_string(s as u64);
            push_str(&mut r, "/100");
            r
        },
        None => owned("N/A"),
    };
    let status = opt_str(&media.status, "Unknown");
    let format = opt_str(&media.format, "Unknown");
    let title = media.title.get_title(lang);
    let mut e = Embed::new();
    e.title = Some(owned(title));
    e.url = Some(media.site_url.clone());
    e.description = Some(description);
    e.colour = Some(get_color(guild_color, ANILIST_BLUE));
    let mut footer = owned(media_type);
    push_str(&mut footer, " • AniList ID ");
    push_num(&mut footer, media.id);
    e.footer = Some(footer);
    e.add_field(owned("Format"), owned(format), true);
    e.add_field(owned("Status"), owned(status), true);
    e.add_field(owned("Score"), score, true);
    e.add_field(owned("Genres"), genres, false);
    match &media.start_date {
        Some(d) => e.add_field(owned("Start Date"), d.display(), true),
        None => {},
    }
    match media.episodes {
        Some(n) => e.add_field(owned("Episodes"), u64_to_string(n as u64), true),
        None => {},
    }
    match (&media.season, media.season_year) {
        (Some(s), Some(y)) => {
            let mut v = s.clone();
            push_str(&mut v, " ");
            push_num(&mut v, y as u64);
            e.add_field(owned("Season"), v, true);
        },
        _ => {},
    }
    match media.chapters {
        Some(n) => e.add_field(owned("Chapters"), u64_to_string(n as u64), true),
        None => {},
    }
    match media.volumes {
        Some(n) => e.add_field(owned("Volumes"), u64_to_string(n as u64), true),
        None => {},
    }
    match &media.cover_image {
        Some(c) => match &c.large {
            Some(u) => e.thumbnail = Some(u.clone()),
            None => {},
        },
        None => {},
    }
    e
}

/// The fields of a title's page before its chapter and volume counts.
spec fn media_fields_before_counts(
    media: Media,
    media_type: Seq<char>,
    lang: Option<TitleLanguage>,
    guild_color: Option<u32>,
) -> Seq<(Seq<char>, Seq<char>, bool)> {
    let fs = media_embed_spec(media, media_type, lang, guild_color).fields;
    let n = (if media.chapters is Some { 1int } else { 0 }) + (if media.volumes is Some { 1int } else { 0 });
    fs.subrange(0, fs.len() - n)
}

proof fn lemma_media_count_fields(
    media: Media,
    media_type: Seq<char>,
    lang: Option<TitleLanguage>,
    guild_color: Option<u32>,
)
    ensures
        ({
            let fs = media_embed_spec(media, media_type, lang, guild_color).fields;
            let pre = media_fields_before_counts(media, media_type, lang, guild_color);
            &&& forall|i: int| 0 <= i < pre.len() ==> #[trigger] pre[i].0 != "Chapters"@ && pre[i].0 != "Volumes"@
            &&& fs == pre + (match media.chapters {
                Some(c) => seq![("Chapters"@, dec(c as nat), true)],
                None => seq![],
            }) + (match media.volumes {
                Some(v) => seq![("Volumes"@, dec(v as nat), true)],
                None => seq![],
            })
        }),
{
    reveal_strlit("Chapters");
    reveal_strlit("Volumes");
    reveal_strlit("Format");
    reveal_strlit("Status");
    reveal_strlit("Score");
    reveal_strlit("Genres");
    reveal_strlit("Start Date");
    reveal_strlit("Episodes");
    reveal_strlit("Season");
    let fs = media_embed_spec(media, media_type, lang, guild_color).fields;
    let pre = media_fields_before_counts(media, media_type, lang, guild_color);
    let chs: Seq<(Seq<char>, Seq<char>, bool)> = match media.chapters {
        Some(c) => seq![("Chapters"@, dec(c as nat), true)],
        None => seq![],
    };
    let vs: Seq<(Seq<char>, Seq<char>, bool)> = match media.volumes {
        Some(v) => seq![("Volumes"@, dec(v as nat), true)],
        None => seq![],
    };
    assert(fs =~= pre + chs + vs);
    assert forall|i: int| 0 <= i < pre.len() implies #[trigger] pre[i].0 != "Chapters"@ && pre[i].0 != "Volumes"@ by {
        let nm = pre[i].0;
        assert(nm == "Format"@ || nm == "Status"@ || nm == "Score"@ || nm == "Genres"@
            || nm == "Start Date"@ || nm == "Episodes"@ || nm == "Season"@);
        assert(nm[0] != 'C' || nm.len() != 8);
        assert(nm[0] != 'V');
    }
}

/// A title's page with a known chapter count has a "Chapters" field whose
/// value is that count in decimal, and no "Chapters" field saying anything
/// else, whatever the volume count; likewise for a known volume count and
/// its "Volumes" field.
pub proof fn media_page_shows_counts(
    media: Media,
    media_type: Seq<char>,
    lang: Option<TitleLanguage>,
    guild_color: Option<u32>,
)
    ensures
        media.chapters matches Some(c) ==> {
            let fs = media_embed_spec(media, media_type, lang, guild_color).fields;
            &&& exists|i: int| 0 <= i < fs.len() && #[trigger] fs[i] == ("Chapters"@, dec(c as nat), true)
            &&& forall|i: int| 0 <= i < fs.len() && (#[trigger] fs[i]).0 == "Chapters"@ ==> fs[i].1 == dec(c as nat)
        },
        media.volumes matches Some(v) ==> {
            let fs = media_embed_spec(media, media_type, lang, guild_color).fields;
            &&& exists|i: int| 0 <= i < fs.len() && #[trigger] fs[i] == ("Volumes"@, dec(v as nat), true)
            &&& forall|i: int| 0 <= i < fs.len() && (#[trigger] fs[i]).0 == "Volumes"@ ==> fs[i].1 == dec(v as nat)
        },
{
    reveal_strlit("Chapters");
    reveal_strlit("Volumes");
    lemma_media_count_fields(media, media_type, lang, guild_color);
    let fs = media_embed_spec(media, media_type, lang, guild_color).fields;
    let pre = media_fields_before_counts(media, media_type, lang, guild_color);
    let k = pre.len() as int;
    if let Some(c) = media.chapters {
        assert(fs[k] == ("Chapters"@, dec(c as nat), true));
        assert forall|i: int| 0 <= i < fs.len() && (#[trigger] fs[i]).0 == "Chapters"@ implies fs[i].1 == dec(c as nat) by {
            if i < k {
                assert(fs[i] == pre[i]);
            } else if i > k {
                assert(fs[i].0 == "Volumes"@);
            }
        }
    }
    if let Some(v) = media.volumes {
        let j = if media.chapters is Some { k + 1 } else { k };
        assert(fs[j] == ("Volumes"@, dec(v as nat), true));
        assert forall|i: int| 0 <= i < fs.len() && (#[trigger] fs[i]).0 == "Volumes"@ implies fs[i].1 == dec(v as nat) by {
            if i < k {
                assert(fs[i] == pre[i]);
            } else if i < j {
                assert(fs[i].0 == "Chapters"@);
            }
        }
    }
}

/// A title's page is titled and linked as the title, pictured with its
/// large cover when it has one, and opens with its format and status
/// ("Unknown" when not known), its score out of 100 ("N/A" when not known)
/// and its genres, comma-separated ("N/A" when none); a known episode
/// count is shown in an "Episodes" field.
pub proof fn media_page_basics(
    media: Media,
    media_type: Seq<char>,
    lang: Option<TitleLanguage>,
    guild_color: Option<u32>,
)
    ensures
        ({
            let e = media_embed_spec(media, media_type, lang, guild_color);
            &&& e.title == Some(title_in(media.title, lang))
            &&& e.url == Some(media.site_url@)
            &&& e.fields.len() >= 4
            &&& e.fields[0] == ("Format"@, or_default(media.format, "Unknown"@), true)
            &&& e.fields[1] == ("Status"@, or_default(media.status, "Unknown"@), true)
            &&& e.fields[2] == ("Score"@, match media.average_score {
                Some(v) => dec(v as nat) + "/100"@,
                None => "N/A"@,
            }, true)
            &&& e.fields[3] == ("Genres"@, if media.genres@.len() == 0 { "N/A"@ } else { join(views(media.genres@), ", "@) }, false)
            &&& (media.cover_image matches Some(c) && c.large is Some ==> e.thumbnail == Some(media.cover_image->0.large->0@))
            &&& (media.episodes matches Some(n) ==> exists|i: int| 0 <= i < e.fields.len()
                && #[trigger] e.fields[i] == ("Episodes"@, dec(n as nat), true))
        }),
{
    let e = media_embed_spec(media, media_type, lang, guild_color);
    if let Some(n) = media.episodes {
        let k = if media.start_date is Some { 5int } else { 4 };
        assert(e.fields[k] == ("Episodes"@, dec(n as nat), true));
    }
}

// ─── Airing and upcoming pages ───────────────────────────────────────────────

/// One show of an airing page: its title, and the next episode with a
/// countdown, or "Airing".
pub open spec fn airing_field(show: Media, lang: Option<TitleLanguage>) -> (
    Seq<char>,
    Seq<char>,
    bool,
) {
    (
        title_in(show.title, lang),
        match show.next_airing_episode {
            Some(ep) => "Ep "@ + dec(ep.episode as nat) + " — in "@ + countdown_text(
                seconds_left(ep),
            ),
            None => "Airing"@,
        },
        true,
    )
}

/// A page of currently airing shows.
pub open spec fn airing_page_embed_spec(
    shows: Seq<Media>,
    page: nat,
    total_pages: nat,
    lang: Option<TitleLanguage>,
    guild_color: Option<u32>,
) -> EmbedView {
    blank().title("Currently Airing"@).colour(colour_for(guild_color, TEAL)).footer(
        "Page "@ + dec(page) + " of "@ + dec(total_pages),
    ).with_fields(shows.map_values(|m: Media| airing_field(m, lang)))
}

/// A page of currently airing shows, each with its next episode.
pub fn airing_page_embed(
    shows: &[Media],
    page: usize,
    total_pages: usize,
    lang: Option<TitleLanguage>,
    guild_color: Option<u32>,
) -> (e: Embed)
    ensures
        e@ == airing_page_embed_spec(shows@, page as nat, total_pages as nat, lang, guild_color),
{
    let mut e = Embed::new();
    e.title = Some(owned("Currently Airing"));
    e.colour = Some(get_color(guild_color, TEAL));
    let mut footer = owned("Page ");
    push_num(&mut footer, page as u64);
    push_str(&mut footer, " of ");
    push_num(&mut footer, total_pages as u64);
    e.footer = Some(footer);
    let ghost base = e@;
    let mut i: usize = 0;
    while i < shows.len()
        invariant
            i <= shows@.len(),
            e@ == base.with_fields(shows@.take(i as int).map_values(|m: Media| airing_field(m, lang))),
        decreases shows.len() - i,
    {
        let show = &shows[i];
        let title = show.title.get_title(lang);
        let value = match &show.next_airing_episode {
            Some(ep) => {
                let mut v = owned("Ep ");
                push_num(&mut v, ep.episode as u64);
                push_str(&mut v, " — in ");
                let c = ep.countdown();
                push_str(&mut v, c.as_str());
                v
            },
            None => owned("Airing"),
        };
        e.add_field(owned(title), value, true);
        proof {
            assert(shows@.take(i + 1).map_values(|m: Media| airing_field(m, lang))
                == shows@.take(i as int).map_values(|m: Media| airing_field(m, lang)).push(
                airing_field(shows@[i as int], lang),
            ));
        }
        i = i + 1;
    }
    assert(shows@.take(shows@.len() as int) == shows@);
    e
}

/// One show of an upcoming page: its title, start date ("TBA" when
/// unknown) and score.
pub open spec fn upcoming_field(show: Media, lang: Option<TitleLanguage>) -> (
    Seq<char>,
    Seq<char>,
    bool,
) {
    (
        title_in(show.title, lang),
        "Starts "@ + match show.start_date {
            Some(d) => fuzzy_date_text(d),
            None => "TBA"@,
        } + score_suffix(show.average_score),
        true,
    )
}

/// A page of the shows starting in a season.
pub open spec fn upcoming_page_embed_spec(
    shows: Seq<Media>,
    season: Seq<char>,
    year: int,
    page: nat,
    total_pages: nat,
    lang: Option<TitleLanguage>,
    guild_color: Option<u32>,
) -> EmbedView {
    blank().title("Upcoming — "@ + season + " "@ + idec(year)).colour(
        colour_for(guild_color, PURPLE),
    ).footer("Page "@ + dec(page) + " of "@ + dec(total_pages)).with_fields(
        shows.map_values(|m: Media| upcoming_field(m, lang)),
    )
}

/// A page of the shows starting in a season, with start dates and scores.
pub fn upcoming_page_embed(
    shows: &[Media],
    season: &str,
    year: i32,
    page: usize,
    total_pages: usize,
    lang: Option<TitleLanguage>,
    guild_color: Option<u32>,
) -> (e: Embed)
    ensures
        e@ == upcoming_page_embed_spec(
            shows@,
            season@,
            year as int,
            page as nat,
            total_pages as nat,
            lang,
            guild_color,
        ),
{
    let mut e = Embed::new();
    let mut t = owned("Upcoming — ");
    push_str(&mut t, season);
    push_str(&mut t, " ");
    let y = i64_to_string(year as i64);
    push_str(&mut t, y.as_str());
    e.title = Some(t);
    e.colour = Some(get_color(guild_color, PURPLE));
    let mut footer = owned("Page ");
    push_num(&mut footer, page as u64);
    push_str(&mut footer, " of ");
    push_num(&mut footer, total_pages as u64);
    e.footer = Some(footer);
    let ghost base = e@;
    let mut i: usize = 0;
    while i < shows.len()
        invariant
            i <= shows@.len(),
            e@ == base.with_fields(
                shows@.take(i as int).map_values(|m: Media| upcoming_field(m, lang)),
            ),
        decreases shows.len() - i,
    {
        let show = &shows[i];
        let title = show.title.get_title(lang);
        let mut value = owned("Starts ");
        match &show.start_date {
            Some(d) => {
                let s = d.display();
                push_str(&mut value, s.as_str());
            },
            None => push_str(&mut value, "TBA"),
        }
        let sc = make_score_suffix(show.average_score);
        push_str(&mut value, sc.as_str());
        e.add_field(owned(title), value, true);
        proof {
            assert(shows@.take(i + 1).map_values(|m: Media| upcoming_field(m, lang))
                == shows@.take(i as int).map_values(|m: Media| upcoming_field(m, lang)).push(
                upcoming_field(shows@[i as int], lang),
            ));
        }
        i = i + 1;
    }
    assert(shows@.take(shows@.len() as int) == shows@);
    e
}

// ─── Characters, studios and staff ───────────────────────────────────────────

/// "name" when the native name is empty, "name  (native)" otherwise.
pub open spec fn with_native(name: Seq<char>, native: Seq<char>) -> Seq<char> {
    if native.len() == 0 {
        name
    } else {
        name + "  ("@ + native + ")"@
    }
}

/// One appearance of a character: linked title, media type ("?" when
/// unknown) and, when known, the first voice actor.
pub open spec fn appearance_line(e: CharacterMediaEdge, lang: Option<TitleLanguage>) -> Seq<char> {
    "["@ + title_in(e.node.title, lang) + "]("@ + e.node.site_url@ + ") `"@ + or_default(
        e.node.media_type,
        "?"@,
    ) + "`"@ + if e.voice_actors@.len() > 0 {
        match e.voice_actors@[0].name.full {
            Some(n) => " (VA: ["@ + n@ + "]("@ + e.voice_actors@[0].site_url@ + "))"@,
            None => seq![],
        }
    } else {
        seq![]
    }
}

/// The embed describing a character.
pub open spec fn character_embed_spec(
    c: Character,
    lang: Option<TitleLanguage>,
    guild_color: Option<u32>,
) -> EmbedView {
    let appearances = join(
        c.media.edges@.map_values(|e: CharacterMediaEdge| appearance_line(e, lang)),
        "\n"@,
    );
    let base = blank().title(
        with_native(or_default(c.name.full, "Unknown"@), or_default(c.name.native, ""@)),
    ).url(c.site_url@).description(blurb(c.description, 400, "No description available."@)).colour(
        colour_for(guild_color, PURPLE),
    ).footer("AniList Character ID "@ + dec(c.id as nat));
    let e1 = if appearances.len() == 0 {
        base
    } else {
        base.field("Appearances"@, appearances, false)
    };
    match c.image.large {
        Some(u) => e1.thumbnail(u@),
        None => e1,
    }
}

fn make_with_native(name: &str, native: &str) -> (r: String)
    ensures
        r@ == with_native(name@, native@),
{
    let mut r = owned(name);
    if !native.is_empty() {
        push_str(&mut r, "  (");
        push_str(&mut r, native);
        push_str(&mut r, ")");
    }
    r
}

/// The embed describing a character: names, description, appearances with
/// voice actors, and picture.
pub fn character_embed(
    character: &Character,
    lang: Option<TitleLanguage>,
    guild_color: Option<u32>,
) -> (e: Embed)
    ensures
        e@ == character_embed_spec(*character, lang, guild_color),
{
    let description = make_blurb(&character.description, 400, "No description available.");
    let name = character.name.preferred();
    let native = opt_str(&character.name.native, "");
    let edges = &character.media.edges;
    let mut lines: Vec<String> = Vec::new();
    let mut i: usize = 0;
    while i < edges.len()
        invariant
            i <= edges@.len(),
            views(lines@) == edges@.take(i as int).map_values(
                |e: CharacterMediaEdge| appearance_line(e, lang),
            ),
        decreases edges.len() - i,
    {
        let ed = &edges[i];
        let mut line = owned("[");
        push_str(&mut line, ed.node.title.get_title(lang));
        push_str(&mut line, "](");
        push_str(&mut line, ed.node.site_url.as_str());
        push_str(&mut line, ") `");
        push_str(&mut line, opt_str(&ed.node.media_type, "?"));
        push_str(&mut line, "`");
        if ed.voice_actors.len() > 0 {
            let va = &ed.voice_actors[0];
            match &va.name.full {
                Some(n) => {
                    push_str(&mut line, " (VA: [");
                    push_str(&mut line, n.as_str());
                    push_str(&mut line, "](");
                    push_str(&mut line, va.site_url.as_str());
                    push_str(&mut line, "))");
                },
                None => {},
            }
        }
        assert(line@ == appearance_line(edges@[i as int], lang));
        let ghost before = lines@;
        lines.push(line);
        proof {
            assert(views(lines@) == views(before).push(line@));
            assert(edges@.take(i + 1).map_values(|e: CharacterMediaEdge| appearance_line(e, lang))
                == edges@.take(i as int).map_values(
                |e: CharacterMediaEdge| appearance_line(e, lang),
            ).push(appearance_line(edges@[i as int], lang)));
        }
        i = i + 1;
    }
    assert(edges@.take(edges@.len() as int) == edges@);
    let appearances = join_strings(&lines, "\n");
    let mut e = Embed::new();
    e.title = Some(make_with_native(name, native));
    e.url = Some(character.site_url.clone());
    e.description = Some(description);
    e.colour = Some(get_color(guild_color, PURPLE));
    let mut footer = owned("AniList Character ID ");
    push_num(&mut footer, character.id);
    e.footer = Some(footer);
    if !appearances.as_str().is_empty() {
        e.add_field(owned("Appearances"), appearances, false);
    }
    match &character.image.large {
        Some(u) => e.thumbnail = Some(u.clone()),
        None => {},
    }
    e
}

/// " (Y)" for a known year, nothing otherwise.
pub open spec fn year_suffix(y: Option<u32>) -> Seq<char> {
    match y {
        Some(v) => " ("@ + dec(v as nat) + ")"@,
        None => seq![],
    }
}

/// The `i`-th (from zero) notable work of a studio, numbered from one.
pub open spec fn studio_work_line(i: int, n: StudioMediaNode, lang: Option<TitleLanguage>) -> Seq<
    char,
> {
    dec((i + 1) as nat) + ". ["@ + title_in(n.title, lang) + "]("@ + n.site_url@ + ") `"@
        + or_default(n.format, "?"@) + "`"@ + year_suffix(n.season_year) + score_suffix(
        n.average_score,
    )
}

/// The numbered notable works of a studio.
pub open spec fn studio_work_lines(nodes: Seq<StudioMediaNode>, lang: Option<TitleLanguage>) -> Seq<
    Seq<char>,
> {
    Seq::new(nodes.len(), |i: int| studio_work_line(i, nodes[i], lang))
}

/// The embed describing a studio.
pub open spec fn studio_embed_spec(
    studio: Studio,
    lang: Option<TitleLanguage>,
    guild_color: Option<u32>,
) -> EmbedView {
    let kind = if studio.is_animation_studio { "Animation Studio"@ } else { "Studio"@ };
    let works = join(studio_work_lines(studio.media.nodes@, lang), "\n"@);
    let base = blank().title(studio.name@).url(studio.site_url@).colour(
        colour_for(guild_color, TEAL),
    ).footer(kind + " • AniList ID "@ + dec(studio.id as nat));
    if works.len() == 0 {
        base
    } else {
        base.field("Notable Works"@, works, false)
    }
}

/// The embed describing a studio and its numbered notable works.
pub fn studio_embed(studio: &Studio, lang: Option<TitleLanguage>, guild_color: Option<u32>) -> (e:
    Embed)
    requires
        studio.media.nodes@.len() < usize::MAX,
    ensures
        e@ == studio_embed_spec(*studio, lang, guild_color),
{
    let kind = if studio.is_animation_studio { "Animation Studio" } else { "Studio" };
    let nodes = &studio.media.nodes;
    let mut lines: Vec<String> = Vec::new();
    let mut i: usize = 0;
    while i < nodes.len()
        invariant
            i <= nodes@.len() < usize::MAX,
            views(lines@) == studio_work_lines(nodes@.take(i as int), lang),
        decreases nodes.len() - i,
    {
        let n = &nodes[i];
        let mut line = u64_to_string((i + 1) as u64);
        push_str(&mut line, ". [");
        push_str(&mut line, n.title.get_title(lang));
        push_str(&mut line, "](");
        push_str(&mut line, n.site_url.as_str());
        push_str(&mut line, ") `");
        push_str(&mut line, opt_str(&n.format, "?"));
        push_str(&mut line, "`");
        match n.season_year {
            Some(y) => {
                push_str(&mut line, " (");
                push_num(&mut line, y as u64);
                push_str(&mut line, ")");
            },
            None => {},
        }
        let sc = make_score_suffix(n.average_score);
        push_str(&mut line, sc.as_str());
        let ghost before = lines@;
        lines.push(line);
        proof {
            assert(views(lines@) == views(before).push(line@));
            assert(line@ == studio_work_line(i as int, nodes@[i as int], lang));
            assert(studio_work_lines(nodes@.take(i + 1), lang) =~= studio_work_lines(
                nodes@.take(i as int),
                lang,
            ).push(studio_work_line(i as int, nodes@[i as int], lang)));
        }
        i = i + 1;
    }
    assert(nodes@.take(nodes@.len() as int) == nodes@);
    let works = join_strings(&lines, "\n");
    let mut e = Embed::new();
    e.title = Some(studio.name.clone());
    e.url = Some(studio.site_url.clone());
    e.colour = Some(get_color(guild_color, TEAL));
    let mut footer = owned(kind);
    push_str(&mut footer, " • AniList ID ");
    push_num(&mut footer, studio.id);
    e.footer = Some(footer);
    if !works.as_str().is_empty() {
        e.add_field(owned("Notable Works"), works, false);
    }
    e
}

/// One work of a staff member: linked title and media type.
pub open spec fn staff_work_line(n: StaffMediaNode, lang: Option<TitleLanguage>) -> Seq<char> {
    "["@ + title_in(n.title, lang) + "]("@ + n.site_url@ + ") `"@ + or_default(n.media_type, "?"@)
        + "`"@
}

/// The embed describing a staff member.
pub open spec fn staff_embed_spec(
    staff: Staff,
    lang: Option<TitleLanguage>,
    guild_color: Option<u32>,
) -> EmbedView {
    let bday = if staff.is_birthday { " 🎂"@ } else { ""@ };
    let works = join(
        staff.staff_media.nodes@.map_values(|n: StaffMediaNode| staff_work_line(n, lang)),
        "\n"@,
    );
    let base = blank().title(
        with_native(or_default(staff.name.full, "Unknown"@), or_default(staff.name.native, ""@))
            + bday,
    ).url(staff.site_url@).description(blurb(staff.description, 400, "No description available."@)).colour(
        colour_for(guild_color, PURPLE),
    ).footer("AniList Staff ID "@ + dec(staff.id as nat));
    let e1 = if works.len() == 0 {
        base
    } else {
        base.field("Works"@, works, false)
    };
    match staff.image.large {
        Some(u) => e1.thumbnail(u@),
        None => e1,
    }
}

/// A staff member's page is titled with their name (and native name,
/// when known); on their birthday, and only then, the same title followed
/// by a cake. Nothing else on the page depends on the birthday.
pub proof fn staff_cake_only_on_birthday(staff: Staff, lang: Option<TitleLanguage>, guild_color: Option<u32>)
    ensures
        ({
            let name = with_native(or_default(staff.name.full, "Unknown"@), or_default(staff.name.native, ""@));
            let off = staff_embed_spec(Staff { is_birthday: false, ..staff }, lang, guild_color);
            let on = staff_embed_spec(Staff { is_birthday: true, ..staff }, lang, guild_color);
            &&& off.title == Some(name)
            &&& on.title == Some(name + " 🎂"@)
            &&& on.fields == off.fields
            &&& on.description == off.description
            &&& on.thumbnail == off.thumbnail
            &&& on.footer == off.footer
            &&& staff_embed_spec(staff, lang, guild_color) == if staff.is_birthday { on } else { off }
        }),
{
    let name = with_native(or_default(staff.name.full, "Unknown"@), or_default(staff.name.native, ""@));
    reveal_strlit("");
    assert(name + ""@ =~= name);
}

/// The embed describing a staff member: names (with a cake on their
/// birthday), description, works and picture.
pub fn staff_embed(staff: &Staff, lang: Option<TitleLanguage>, guild_color: Option<u32>) -> (e:
    Embed)
    ensures
        e@ == staff_embed_spec(*staff, lang, guild_color),
{
    let description = make_blurb(&staff.description, 400, "No description available.");
    let name = staff.name.preferred();
    let native = opt_str(&staff.name.native, "");
    let bday = if staff.is_birthday { " 🎂" } else { "" };
    let nodes = &staff.staff_media.nodes;
    let mut lines: Vec<String> = Vec::new();
    let mut i: usize = 0;
    while i < nodes.len()
        invariant
            i <= nodes@.len(),
            views(lines@) == nodes@.take(i as int).map_values(
                |n: StaffMediaNode| staff_work_line(n, lang),
            ),
        decreases nodes.len() - i,
    {
        let n = &nodes[i];
        let mut line = owned("[");
        push_str(&mut line, n.title.get_title(lang));
        push_str(&mut line, "](");
        push_str(&mut line, n.site_url.as_str());
        push_str(&mut line, ") `");
        push_str(&mut line, opt_str(&n.media_type, "?"));
        push_str(&mut line, "`");
        let ghost before = lines@;
        lines.push(line);
        proof {
            assert(views(lines@) == views(before).push(line@));
            assert(nodes@.take(i + 1).map_values(|n: StaffMediaNode| staff_work_line(n, lang))
                == nodes@.take(i as int).map_values(
                |n: StaffMediaNode| staff_work_line(n, lang),
            ).push(staff_work_line(nodes@[i as int], lang)));
        }
        i = i + 1;
    }
    assert(nodes@.take(nodes@.len() as int) == nodes@);
    let works = join_strings(&lines, "\n");
    let mut e = Embed::new();
    let mut title = make_with_native(name, native);
    push_str(&mut title, bday);
    e.title = Some(title);
    e.url = Some(staff.site_url.clone());
    e.description = Some(description);
    e.colour = Some(get_color(guild_color, PURPLE));
    let mut footer = owned("AniList Staff ID ");
    push_num(&mut footer, staff.id);
    e.footer = Some(footer);
    if !works.as_str().is_empty() {
        e.add_field(owned("Works"), works, false);
    }
    match &staff.image.large {
        Some(u) => e.thumbnail = Some(u.clone()),
        None => {},
    }
    e
}

/// One staff member with a birthday: linked name.
pub open spec fn birthday_line(s: StaffBirthday) -> Seq<char> {
    "["@ + or_default(s.name.full, "Unknown"@) + "]("@ + s.site_url@ + ")"@
}

/// The embed listing today's staff birthdays (at most fifteen).
pub open spec fn staff_birthday_embed_spec(list: Seq<StaffBirthday>, guild_color: Option<u32>) -> EmbedView {
    let base = blank().title("🎂 Today's Staff Birthdays"@).colour(colour_for(guild_color, PURPLE)).footer(
        "Powered by AniList"@,
    );
    if list.len() == 0 {
        base.description("No staff birthdays found for today."@)
    } else {
        let shown = if list.len() <= 15 { list } else { list.take(15) };
        base.description(join(shown.map_values(|s: StaffBirthday| birthday_line(s)), "\n"@))
    }
}

/// The embed listing today's staff birthdays, at most fifteen of them.
pub fn staff_birthday_embed(staff_list: &[StaffBirthday], guild_color: Option<u32>) -> (e: Embed)
    ensures
        e@ == staff_birthday_embed_spec(staff_list@, guild_color),
{
    let mut e = Embed::new();
    e.title = Some(owned("🎂 Today's Staff Birthdays"));
    e.colour = Some(get_color(guild_color, PURPLE));
    e.footer = Some(owned("Powered by AniList"));
    if staff_list.len() == 0 {
        e.description = Some(owned("No staff birthdays found for today."));
    } else {
        let n: usize = if staff_list.len() <= 15 { staff_list.len() } else { 15 };
        let ghost shown = if staff_list@.len() <= 15 { staff_list@ } else { staff_list@.take(15) };
        assert(shown == staff_list@.take(n as int));
        let mut lines: Vec<String> = Vec::new();
        let mut i: usize = 0;
        while i < n
            invariant
                i <= n <= staff_list@.len(),
                views(lines@) == staff_list@.take(i as int).map_values(
                    |s: StaffBirthday| birthday_line(s),
                ),
            decreases n - i,
        {
            let st = &staff_list[i];
            let mut line = owned("[");
            push_str(&mut line, st.name.preferred());
            push_str(&mut line, "](");
            push_str(&mut line, st.site_url.as_str());
            push_str(&mut line, ")");
            let ghost before = lines@;
            lines.push(line);
            proof {
                assert(views(lines@) == views(before).push(line@));
                assert(staff_list@.take(i + 1).map_values(|s: StaffBirthday| birthday_line(s))
                    == staff_list@.take(i as int).map_values(
                    |s: StaffBirthday| birthday_line(s),
                ).push(birthday_line(staff_list@[i as int])));
            }
            i = i + 1;
        }
        e.description = Some(join_strings(&lines, "\n"));
    }
    e
}

// ─── Recommendations and relations ───────────────────────────────────────────

/// The linked titles of the recommendations that name a title.
pub open spec fn recommendation_lines(nodes: Seq<RecommendationNode>, lang: Option<TitleLanguage>) -> Seq<
    Seq<char>,
>
    decreases nodes.len(),
{
    if nodes.len() == 0 {
        seq![]
    } else {
        let prev = recommendation_lines(nodes.drop_last(), lang);
        match nodes.last().media_recommendation {
            Some(r) => prev.push("["@ + title_in(r.title, lang) + "]("@ + r.site_url@ + ")"@),
            None => prev,
        }
    }
}

/// The embed listing the recommendations for a title.
pub open spec fn recommendations_embed_spec(
    media: MediaRecommendationInfo,
    lang: Option<TitleLanguage>,
    guild_color: Option<u32>,
) -> EmbedView {
    let recs = join(recommendation_lines(media.recommendations.nodes@, lang), "\n"@);
    blank().title("Recommendations for "@ + title_in(media.title, lang)).url(
        "https://anilist.co/anime/"@ + dec(media.id as nat) + "/recommendations"@,
    ).description(if recs.len() == 0 { "No recommendations found."@ } else { recs }).colour(
        colour_for(guild_color, ANILIST_BLUE),
    )
}

/// The embed listing the recommendations for a title, each linked.
pub fn recommendations_embed(
    media: &MediaRecommendationInfo,
    lang: Option<TitleLanguage>,
    guild_color: Option<u32>,
) -> (e: Embed)
    ensures
        e@ == recommendations_embed_spec(*media, lang, guild_color),
{
    let nodes = &media.recommendations.nodes;
    let mut lines: Vec<String> = Vec::new();
    let mut i: usize = 0;
    while i < nodes.len()
        invariant
            i <= nodes@.len(),
            views(lines@) == recommendation_lines(nodes@.take(i as int), lang),
        decreases nodes.len() - i,
    {
        proof {
            assert(nodes@.take(i + 1).drop_last() == nodes@.take(i as int));
        }
        match &nodes[i].media_recommendation {
            Some(r) => {
                let mut line = owned("[");
                push_str(&mut line, r.title.get_title(lang));
                push_str(&mut line, "](");
                push_str(&mut line, r.site_url.as_str());
                push_str(&mut line, ")");
                let ghost before = lines@;
                lines.push(line);
                assert(views(lines@) == views(before).push(line@));
            },
            None => {},
        }
        i = i + 1;
    }
    assert(nodes@.take(nodes@.len() as int) == nodes@);
    let recs = join_strings(&lines, "\n");
    let mut e = Embed::new();
    let mut t = owned("Recommendations for ");
    push_str(&mut t, media.title.get_title(lang));
    e.title = Some(t);
    let mut u = owned("https://anilist.co/anime/");
    push_num(&mut u, media.id);
    push_str(&mut u, "/recommendations");
    e.url = Some(u);
    if recs.as_str().is_empty() {
        e.description = Some(owned("No recommendations found."));
    } else {
        e.description = Some(recs);
    }
    e.colour = Some(get_color(guild_color, ANILIST_BLUE));
    e
}

/// `s` with every '_' turned into a space.
pub open spec fn underscores_to_spaces(s: Seq<char>) -> Seq<char> {
    Seq::new(s.len(), |k: int| if s[k] == '_' { ' ' } else { s[k] })
}

fn replace_underscores(s: &str) -> (r: String)
    ensures
        r@ == underscores_to_spaces(s@),
{
    let cs = chars_of(s);
    let mut out: Vec<char> = Vec::new();
    let mut i: usize = 0;
    while i < cs.len()
        invariant
            i <= cs.len(),
            out@ == underscores_to_spaces(cs@.take(i as int)),
        decreases cs.len() - i,
    {
        let c = cs[i];
        out.push(if c == '_' { ' ' } else { c });
        i = i + 1;
        assert(out@ =~= underscores_to_spaces(cs@.take(i as int)));
    }
    assert(cs@.take(cs.len() as int) == cs@);
    string_of(&out)
}

/// One relation: its kind (underscores as spaces), linked title and format.
pub open spec fn relation_line(e: MediaRelationEdge, lang: Option<TitleLanguage>) -> Seq<char> {
    "`"@ + underscores_to_spaces(e.relation_type@) + "`: ["@ + title_in(e.node.title, lang) + "]("@
        + e.node.site_url@ + ") ("@ + or_default(e.node.format, "?"@) + ")"@
}

/// The embed listing a title's relations.
pub open spec fn relations_embed_spec(
    media: Media,
    lang: Option<TitleLanguage>,
    guild_color: Option<u32>,
) -> EmbedView {
    let base = blank().title("Relations for "@ + title_in(media.title, lang)).url(media.site_url@).colour(
        colour_for(guild_color, ANILIST_BLUE),
    );
    match media.relations {
        Some(r) => {
            let list = join(
                r.edges@.map_values(|e: MediaRelationEdge| relation_line(e, lang)),
                "\n"@,
            );
            base.description(if list.len() == 0 { "No relations found."@ } else { list })
        },
        None => base.description("No relations found."@),
    }
}

/// `line` ends with `suffix`.
pub open spec fn ends_with(line: Seq<char>, suffix: Seq<char>) -> bool {
    suffix.len() <= line.len() && line.subrange(line.len() - suffix.len(), line.len() as int) == suffix
}

proof fn lemma_join_nonempty_end(list: Seq<Seq<char>>, sep: Seq<char>)
    requires
        list.len() > 0,
        list.last().len() > 0,
    ensures
        join(list, sep).len() > 0,
{
}

/// A title's relations page lists its relations one per line, in order:
/// each line ends with the related entry's format in brackets ("?" when it
/// has none), whatever its status; with no relations it says so.
pub proof fn relation_lines_end_with_format(media: Media, lang: Option<TitleLanguage>, guild_color: Option<u32>)
    ensures
        (media.relations is Some && media.relations->0.edges@.len() > 0) ==> exists|lines: Seq<Seq<char>>|
            {
                &&& lines.len() == media.relations->0.edges@.len()
                &&& relations_embed_spec(media, lang, guild_color).description == Some(join(lines, "\n"@))
                &&& forall|k: int| 0 <= k < lines.len() ==> ends_with(
                    #[trigger] lines[k],
                    " ("@ + or_default(media.relations->0.edges@[k].node.format, "?"@) + ")"@,
                )
            },
        (media.relations is None || media.relations->0.edges@.len() == 0)
            ==> relations_embed_spec(media, lang, guild_color).description == Some("No relations found."@),
{
    if let Some(r) = media.relations {
        let lines = r.edges@.map_values(|e: MediaRelationEdge| relation_line(e, lang));
        if r.edges@.len() > 0 {
            reveal_strlit("`");
            assert(lines.last() == relation_line(r.edges@.last(), lang));
            lemma_join_nonempty_end(lines, "\n"@);
            assert forall|k: int| 0 <= k < lines.len() implies ends_with(
                #[trigger] lines[k],
                " ("@ + or_default(r.edges@[k].node.format, "?"@) + ")"@,
            ) by {
                let e = r.edges@[k];
                let suffix = " ("@ + or_default(e.node.format, "?"@) + ")"@;
                let head = "`"@ + underscores_to_spaces(e.relation_type@) + "`: ["@ + title_in(e.node.title, lang)
                    + "]("@ + e.node.site_url@ + ")"@;
                assert(lines[k] == head + suffix) by {
                    reveal_strlit(") (");
                    reveal_strlit(" (");
                    reveal_strlit(")");
                    assert(lines[k] == relation_line(e, lang));
                    assert(relation_line(e, lang) =~= head + suffix);
                }
                assert((head + suffix).subrange(head.len() as int, (head + suffix).len() as int) =~= suffix);
            }
        } else {
            assert(lines.len() == 0);
        }
    }
}

/// The embed listing a title's sequels, prequels and other relations.
pub fn relations_embed(media: &Media, lang: Option<TitleLanguage>, guild_color: Option<u32>) -> (e:
    Embed)
    ensures
        e@ == relations_embed_spec(*media, lang, guild_color),
{
    let mut e = Embed::new();
    let mut t = owned("Relations for ");
    push_str(&mut t, media.title.get_title(lang));
    e.title = Some(t);
    e.url = Some(media.site_url.clone());
    e.colour = Some(get_color(guild_color, ANILIST_BLUE));
    match &media.relations {
        Some(r) => {
            let edges = &r.edges;
            let mut lines: Vec<String> = Vec::new();
            let mut i: usize = 0;
            while i < edges.len()
                invariant
                    i <= edges@.len(),
                    views(lines@) == edges@.take(i as int).map_values(
                        |e: MediaRelationEdge| relation_line(e, lang),
                    ),
                decreases edges.len() - i,
            {
                let ed = &edges[i];
                let mut line = owned("`");
                let rt = replace_underscores(ed.relation_type.as_str());
                push_str(&mut line, rt.as_str());
                push_str(&mut line, "`: [");
                push_str(&mut line, ed.node.title.get_title(lang));
                push_str(&mut line, "](");
                push_str(&mut line, ed.node.site_url.as_str());
                push_str(&mut line, ") (");
                push_str(&mut line, opt_str(&ed.node.format, "?"));
                push_str(&mut line, ")");
                assert(line@ == relation_line(edges@[i as int], lang));
                let ghost before = lines@;
                lines.push(line);
                proof {
                    assert(views(lines@) == views(before).push(line@));
                    assert(edges@.take(i + 1).map_values(
                        |e: MediaRelationEdge| relation_line(e, lang),
                    ) == edges@.take(i as int).map_values(
                        |e: MediaRelationEdge| relation_line(e, lang),
                    ).push(relation_line(edges@[i as int], lang)));
                }
                i = i + 1;
            }
            assert(edges@.take(edges@.len() as int) == edges@);
            let list = join_strings(&lines, "\n");
            if list.as_str().is_empty() {
                e.description = Some(owned("No relations found."));
            } else {
                e.description = Some(list);
            }
        },
        None => {
            e.description = Some(owned("No relations found."));
        },
    }
    e
}

// ─── Lists ───────────────────────────────────────────────────────────────────

/// The `i`-th (from zero) entry of a media list, numbered from one, linked
/// and with its score.
pub open spec fn media_list_line(i: int, m: Media, lang: Option<TitleLanguage>) -> Seq<char> {
    dec((i + 1) as nat) + ". ["@ + title_in(m.title, lang) + "]("@ + m.site_url@ + ")"@
        + score_suffix(m.average_score)
}

/// The numbered lines of a media list.
pub open spec fn media_list_lines(media: Seq<Media>, lang: Option<TitleLanguage>) -> Seq<Seq<char>> {
    Seq::new(media.len(), |i: int| media_list_line(i, media[i], lang))
}

/// The embed listing media under a heading.
pub open spec fn media_list_embed_spec(
    media: Seq<Media>,
    title: Seq<char>,
    lang: Option<TitleLanguage>,
    guild_color: Option<u32>,
) -> EmbedView {
    let list = join(media_list_lines(media, lang), "\n"@);
    blank().title(title).description(if list.len() == 0 { "No results found."@ } else { list }).colour(
        colour_for(guild_color, ANILIST_BLUE),
    )
}

/// The embed listing media under a heading, numbered with scores.
pub fn media_list_embed(
    media: &[Media],
    title: &str,
    lang: Option<TitleLanguage>,
    guild_color: Option<u32>,
) -> (e: Embed)
    requires
        media@.len() < usize::MAX,
    ensures
        e@ == media_list_embed_spec(media@, title@, lang, guild_color),
{
    let mut lines: Vec<String> = Vec::new();
    let mut i: usize = 0;
    while i < media.len()
        invariant
            i <= media@.len() < usize::MAX,
            views(lines@) == media_list_lines(media@.take(i as int), lang),
        decreases media.len() - i,
    {
        let m = &media[i];
        let mut line = u64_to_string((i + 1) as u64);
        push_str(&mut line, ". [");
        push_str(&mut line, m.title.get_title(lang));
        push_str(&mut line, "](");
        push_str(&mut line, m.site_url.as_str());
        push_str(&mut line, ")");
        let sc = make_score_suffix(m.average_score);
        push_str(&mut line, sc.as_str());
        let ghost before = lines@;
        lines.push(line);
        proof {
            assert(views(lines@) == views(before).push(line@));
            assert(line@ == media_list_line(i as int, media@[i as int], lang));
            assert(media_list_lines(media@.take(i + 1), lang) =~= media_list_lines(
                media@.take(i as int),
                lang,
            ).push(media_list_line(i as int, media@[i as int], lang)));
        }
        i = i + 1;
    }
    assert(media@.take(media@.len() as int) == media@);
    let list = join_strings(&lines, "\n");
    let mut e = Embed::new();
    e.title = Some(owned(title));
    if list.as_str().is_empty() {
        e.description = Some(owned("No results found."));
    } else {
        e.description = Some(list);
    }
    e.colour = Some(get_color(guild_color, ANILIST_BLUE));
    e
}

/// One entry of a watchlist: linked title and, when scored, its score.
pub open spec fn watch_entry_line(e: MediaListEntry, lang: Option<TitleLanguage>) -> Seq<char> {
    "["@ + title_in(e.media.title, lang) + "]("@ + e.media.site_url@ + ")"@ + if e.scored {
        " ("@ + e.score_text@ + "/100)"@
    } else {
        seq![]
    }
}

/// The first ten entries of a list, or all of them when fewer.
pub open spec fn first_ten<T>(s: Seq<T>) -> Seq<T> {
    if s.len() <= 10 { s } else { s.take(10) }
}

/// One field per non-empty list: the list's name and its first ten entries.
pub open spec fn watchlist_fields(lists: Seq<MediaList>, lang: Option<TitleLanguage>) -> Seq<
    (Seq<char>, Seq<char>, bool),
>
    decreases lists.len(),
{
    if lists.len() == 0 {
        seq![]
    } else {
        let prev = watchlist_fields(lists.drop_last(), lang);
        let l = lists.last();
        if l.entries@.len() == 0 {
            prev
        } else {
            prev.push(
                (
                    l.name@,
                    join(
                        first_ten(l.entries@).map_values(
                            |e: MediaListEntry| watch_entry_line(e, lang),
                        ),
                        "\n"@,
                    ),
                    false,
                ),
            )
        }
    }
}

/// The embed showing a user's lists.
pub open spec fn watchlist_embed_spec(
    collection: MediaListCollection,
    username: Seq<char>,
    media_type: Seq<char>,
    lang: Option<TitleLanguage>,
    guild_color: Option<u32>,
) -> EmbedView {
    blank().title(username + "'s "@ + media_type + " Watchlist"@).colour(
        colour_for(guild_color, ANILIST_BLUE),
    ).with_fields(watchlist_fields(collection.lists@, lang))
}

fn watch_list_text(l: &MediaList, lang: Option<TitleLanguage>) -> (r: String)
    ensures
        r@ == join(
            first_ten(l.entries@).map_values(|e: MediaListEntry| watch_entry_line(e, lang)),
            "\n"@,
        ),
{
    let entries = &l.entries;
    let n: usize = if entries.len() <= 10 { entries.len() } else { 10 };
    assert(first_ten(entries@) == entries@.take(n as int));
    let mut lines: Vec<String> = Vec::new();
    let mut i: usize = 0;
    while i < n
        invariant
            i <= n <= entries@.len(),
            views(lines@) == entries@.take(i as int).map_values(
                |e: MediaListEntry| watch_entry_line(e, lang),
            ),
        decreases n - i,
    {
        let en = &entries[i];
        let mut line = owned("[");
        push_str(&mut line, en.media.title.get_title(lang));
        push_str(&mut line, "](");
        push_str(&mut line, en.media.site_url.as_str());
        push_str(&mut line, ")");
        if en.scored {
            push_str(&mut line, " (");
            push_str(&mut line, en.score_text.as_str());
            push_str(&mut line, "/100)");
        }
        assert(line@ == watch_entry_line(entries@[i as int], lang));
        let ghost before = lines@;
        lines.push(line);
        proof {
            assert(views(lines@) == views(before).push(line@));
            assert(entries@.take(i + 1).map_values(|e: MediaListEntry| watch_entry_line(e, lang))
                == entries@.take(i as int).map_values(
                |e: MediaListEntry| watch_entry_line(e, lang),
            ).push(watch_entry_line(entries@[i as int], lang)));
        }
        i = i + 1;
    }
    join_strings(&lines, "\n")
}

/// The embed showing a user's lists: one field per non-empty list with its
/// first ten entries.
pub fn watchlist_embed(
    collection: &MediaListCollection,
    username: &str,
    media_type: &str,
    lang: Option<TitleLanguage>,
    guild_color: Option<u32>,
) -> (e: Embed)
    ensures
        e@ == watchlist_embed_spec(*collection, username@, media_type@, lang, guild_color),
{
    let mut e = Embed::new();
    let mut t = owned(username);
    push_str(&mut t, "'s ");
    push_str(&mut t, media_type);
    push_str(&mut t, " Watchlist");
    e.title = Some(t);
    e.colour = Some(get_color(guild_color, ANILIST_BLUE));
    let ghost base = e@;
    let lists = &collection.lists;
    let mut i: usize = 0;
    while i < lists.len()
        invariant
            i <= lists@.len(),
            e@ == base.with_fields(watchlist_fields(lists@.take(i as int), lang)),
        decreases lists.len() - i,
    {
        proof {
            assert(lists@.take(i + 1).drop_last() == lists@.take(i as int));
        }
        let l = &lists[i];
        if l.entries.len() > 0 {
            let text = watch_list_text(l, lang);
            e.add_field(l.name.clone(), text, false);
        }
        i = i + 1;
    }
    assert(lists@.take(lists@.len() as int) == lists@);
    e
}

// ─── Favourites ──────────────────────────────────────────────────────────────

/// A linked media title.
pub open spec fn fav_media_line(n: FavouriteMediaNode, lang: Option<TitleLanguage>) -> Seq<char> {
    "["@ + title_in(n.title, lang) + "]("@ + n.site_url@ + ")"@
}

/// A linked character name.
pub open spec fn fav_character_line(n: FavouriteCharacterNode) -> Seq<char> {
    "["@ + or_default(n.name.full, "Unknown"@) + "]("@ + n.site_url@ + ")"@
}

/// A linked studio name.
pub open spec fn fav_studio_line(n: FavouriteStudioNode) -> Seq<char> {
    "["@ + n.name@ + "]("@ + n.site_url@ + ")"@
}

/// Adds a field when its text is not empty.
pub open spec fn field_if_any(e: EmbedView, name: Seq<char>, value: Seq<char>) -> EmbedView {
    if value.len() == 0 {
        e
    } else {
        e.field(name, value, true)
    }
}

/// The embed showing a user's favourites.
pub open spec fn favourites_embed_spec(
    user: UserFavourites,
    lang: Option<TitleLanguage>,
    guild_color: Option<u32>,
) -> EmbedView {
    let f = user.favourites;
    let anime = join(f.anime.nodes@.map_values(|n: FavouriteMediaNode| fav_media_line(n, lang)), "\n"@);
    let manga = join(f.manga.nodes@.map_values(|n: FavouriteMediaNode| fav_media_line(n, lang)), "\n"@);
    let characters = join(
        f.characters.nodes@.map_values(|n: FavouriteCharacterNode| fav_character_line(n)),
        "\n"@,
    );
    let studios = join(f.studios.nodes@.map_values(|n: FavouriteStudioNode| fav_studio_line(n)), "\n"@);
    let base = blank().title(user.name@ + "'s Favourites"@).url(user.site_url@).colour(
        colour_for(guild_color, ANILIST_BLUE),
    );
    field_if_any(
        field_if_any(
            field_if_any(field_if_any(base, "Anime"@, anime), "Manga"@, manga),
            "Characters"@,
            characters,
        ),
        "Studios"@,
        studios,
    )
}

/// A list of media favourites as linked lines: "[title](link)", one per
/// line.
pub open spec fn linked_titles(nodes: Seq<FavouriteMediaNode>, lang: Option<TitleLanguage>) -> Seq<char> {
    join(nodes.map_values(|n: FavouriteMediaNode| "["@ + title_in(n.title, lang) + "]("@ + n.site_url@ + ")"@), "\n"@)
}

proof fn lemma_fields_kept(e: EmbedView, name: Seq<char>, value: Seq<char>, i: int)
    requires
        0 <= i < e.fields.len(),
    ensures
        i < field_if_any(e, name, value).fields.len(),
        field_if_any(e, name, value).fields[i] == e.fields[i],
{
}

/// A user's favourites page has an "Anime" field listing their favourite
/// anime as linked lines when they have any, a "Manga" field listing their
/// favourite manga when they have any, and likewise "Characters" (names,
/// "Unknown" when not known) and "Studios" fields.
pub proof fn favourites_list_anime_and_manga(
    user: UserFavourites,
    lang: Option<TitleLanguage>,
    guild_color: Option<u32>,
)
    ensures
        user.favourites.anime.nodes@.len() > 0 ==> exists|i: int|
            0 <= i < favourites_embed_spec(user, lang, guild_color).fields.len()
                && #[trigger] favourites_embed_spec(user, lang, guild_color).fields[i]
                == ("Anime"@, linked_titles(user.favourites.anime.nodes@, lang), true),
        user.favourites.manga.nodes@.len() > 0 ==> exists|i: int|
            0 <= i < favourites_embed_spec(user, lang, guild_color).fields.len()
                && #[trigger] favourites_embed_spec(user, lang, guild_color).fields[i]
                == ("Manga"@, linked_titles(user.favourites.manga.nodes@, lang), true),
        user.favourites.characters.nodes@.len() > 0 ==> exists|i: int|
            0 <= i < favourites_embed_spec(user, lang, guild_color).fields.len()
                && #[trigger] favourites_embed_spec(user, lang, guild_color).fields[i]
                == ("Characters"@, join(user.favourites.characters.nodes@.map_values(
                    |n: FavouriteCharacterNode| "["@ + or_default(n.name.full, "Unknown"@) + "]("@ + n.site_url@ + ")"@,
                ), "\n"@), true),
        user.favourites.studios.nodes@.len() > 0 ==> exists|i: int|
            0 <= i < favourites_embed_spec(user, lang, guild_color).fields.len()
                && #[trigger] favourites_embed_spec(user, lang, guild_color).fields[i]
                == ("Studios"@, join(user.favourites.studios.nodes@.map_values(
                    |n: FavouriteStudioNode| "["@ + n.name@ + "]("@ + n.site_url@ + ")"@,
                ), "\n"@), true),
{
    let f = user.favourites;
    let am = f.anime.nodes@.map_values(|n: FavouriteMediaNode| fav_media_line(n, lang));
    let mm = f.manga.nodes@.map_values(|n: FavouriteMediaNode| fav_media_line(n, lang));
    assert(am =~= f.anime.nodes@.map_values(|n: FavouriteMediaNode| "["@ + title_in(n.title, lang) + "]("@ + n.site_url@ + ")"@));
    assert(mm =~= f.manga.nodes@.map_values(|n: FavouriteMediaNode| "["@ + title_in(n.title, lang) + "]("@ + n.site_url@ + ")"@));
    let anime = join(am, "\n"@);
    let manga = join(mm, "\n"@);
    let cm = f.characters.nodes@.map_values(|n: FavouriteCharacterNode| fav_character_line(n));
    let sm = f.studios.nodes@.map_values(|n: FavouriteStudioNode| fav_studio_line(n));
    assert(cm =~= f.characters.nodes@.map_values(
        |n: FavouriteCharacterNode| "["@ + or_default(n.name.full, "Unknown"@) + "]("@ + n.site_url@ + ")"@,
    ));
    assert(sm =~= f.studios.nodes@.map_values(|n: FavouriteStudioNode| "["@ + n.name@ + "]("@ + n.site_url@ + ")"@));
    let characters = join(cm, "\n"@);
    let studios = join(sm, "\n"@);
    let base = blank().title(user.name@ + "'s Favourites"@).url(user.site_url@).colour(
        colour_for(guild_color, ANILIST_BLUE),
    );
    let ea = field_if_any(base, "Anime"@, anime);
    let em = field_if_any(ea, "Manga"@, manga);
    let ec = field_if_any(em, "Characters"@, characters);
    let es = field_if_any(ec, "Studios"@, studios);
    assert(favourites_embed_spec(user, lang, guild_color) == es);
    reveal_strlit("[");
    if f.anime.nodes@.len() > 0 {
        assert(am.last() == fav_media_line(f.anime.nodes@.last(), lang));
        lemma_join_nonempty_end(am, "\n"@);
        assert(ea.fields[0] == ("Anime"@, anime, true));
        lemma_fields_kept(ea, "Manga"@, manga, 0);
        lemma_fields_kept(em, "Characters"@, characters, 0);
        lemma_fields_kept(ec, "Studios"@, studios, 0);
        assert(es.fields[0] == ("Anime"@, anime, true));
    }
    if f.manga.nodes@.len() > 0 {
        assert(mm.last() == fav_media_line(f.manga.nodes@.last(), lang));
        lemma_join_nonempty_end(mm, "\n"@);
        let k = ea.fields.len() as int;
        assert(em.fields[k] == ("Manga"@, manga, true));
        lemma_fields_kept(em, "Characters"@, characters, k);
        lemma_fields_kept(ec, "Studios"@, studios, k);
        assert(es.fields[k] == ("Manga"@, manga, true));
    }
    if f.characters.nodes@.len() > 0 {
        assert(cm.last() == fav_character_line(f.characters.nodes@.last()));
        lemma_join_nonempty_end(cm, "\n"@);
        let k = em.fields.len() as int;
        assert(ec.fields[k] == ("Characters"@, characters, true));
        lemma_fields_kept(ec, "Studios"@, studios, k);
        assert(es.fields[k] == ("Characters"@, characters, true));
    }
    if f.studios.nodes@.len() > 0 {
        assert(sm.last() == fav_studio_line(f.studios.nodes@.last()));
        lemma_join_nonempty_end(sm, "\n"@);
        let k = ec.fields.len() as int;
        assert(es.fields[k] == ("Studios"@, studios, true));
    }
}

fn fav_media_text(nodes: &Vec<FavouriteMediaNode>, lang: Option<TitleLanguage>) -> (r: String)
    ensures
        r@ == join(nodes@.map_values(|n: FavouriteMediaNode| fav_media_line(n, lang)), "\n"@),
{
    let mut lines: Vec<String> = Vec::new();
    let mut i: usize = 0;
    while i < nodes.len()
        invariant
            i <= nodes@.len(),
            views(lines@) == nodes@.take(i as int).map_values(
                |n: FavouriteMediaNode| fav_media_line(n, lang),
            ),
        decreases nodes.len() - i,
    {
        let n = &nodes[i];
        let mut line = owned("[");
        push_str(&mut line, n.title.get_title(lang));
        push_str(&mut line, "](");
        push_str(&mut line, n.site_url.as_str());
        push_str(&mut line, ")");
        let ghost before = lines@;
        lines.push(line);
        proof {
            assert(views(lines@) == views(before).push(line@));
            assert(nodes@.take(i + 1).map_values(|n: FavouriteMediaNode| fav_media_line(n, lang))
                == nodes@.take(i as int).map_values(
                |n: FavouriteMediaNode| fav_media_line(n, lang),
            ).push(fav_media_line(nodes@[i as int], lang)));
        }
        i = i + 1;
    }
    assert(nodes@.take(nodes@.len() as int) == nodes@);
    join_strings(&lines, "\n")
}

fn fav_character_text(nodes: &Vec<FavouriteCharacterNode>) -> (r: String)
    ensures
        r@ == join(nodes@.map_values(|n: FavouriteCharacterNode| fav_character_line(n)), "\n"@),
{
    let mut lines: Vec<String> = Vec::new();
    let mut i: usize = 0;
    while i < nodes.len()
        invariant
            i <= nodes@.len(),
            views(lines@) == nodes@.take(i as int).map_values(
                |n: FavouriteCharacterNode| fav_character_line(n),
            ),
        decreases nodes.len() - i,
    {
        let n = &nodes[i];
        let mut line = owned("[");
        push_str(&mut line, n.name.preferred());
        push_str(&mut line, "](");
        push_str(&mut line, n.site_url.as_str());
        push_str(&mut line, ")");
        let ghost before = lines@;
        lines.push(line);
        proof {
            assert(views(lines@) == views(before).push(line@));
            assert(nodes@.take(i + 1).map_values(|n: FavouriteCharacterNode| fav_character_line(n))
                == nodes@.take(i as int).map_values(
                |n: FavouriteCharacterNode| fav_character_line(n),
            ).push(fav_character_line(nodes@[i as int])));
        }
        i = i + 1;
    }
    assert(nodes@.take(nodes@.len() as int) == nodes@);
    join_strings(&lines, "\n")
}

fn fav_studio_text(nodes: &Vec<FavouriteStudioNode>) -> (r: String)
    ensures
        r@ == join(nodes@.map_values(|n: FavouriteStudioNode| fav_studio_line(n)), "\n"@),
{
    let mut lines: Vec<String> = Vec::new();
    let mut i: usize = 0;
    while i < nodes.len()
        invariant
            i <= nodes@.len(),
            views(lines@) == nodes@.take(i as int).map_values(
                |n: FavouriteStudioNode| fav_studio_line(n),
            ),
        decreases nodes.len() - i,
    {
        let n = &nodes[i];
        let mut line = owned("[");
        push_str(&mut line, n.name.as_str());
        push_str(&mut line, "](");
        push_str(&mut line, n.site_url.as_str());
        push_str(&mut line, ")");
        let ghost before = lines@;
        lines.push(line);
        proof {
            assert(views(lines@) == views(before).push(line@));
            assert(nodes@.take(i + 1).map_values(|n: FavouriteStudioNode| fav_studio_line(n))
                == nodes@.take(i as int).map_values(
                |n: FavouriteStudioNode| fav_studio_line(n),
            ).push(fav_studio_line(nodes@[i as int])));
        }
        i = i + 1;
    }
    assert(nodes@.take(nodes@.len() as int) == nodes@);
    join_strings(&lines, "\n")
}

fn add_field_if_any(e: &mut Embed, name: &str, value: String)
    ensures
        final(e)@ == field_if_any(old(e)@, name@, value@),
{
    if !value.as_str().is_empty() {
        e.add_field(owned(name), value, true);
    }
}

/// The embed showing a user's favourite anime, manga, characters and
/// studios, each list only when it has entries.
pub fn favourites_embed(user: &UserFavourites, lang: Option<TitleLanguage>, guild_color: Option<
    u32,
>) -> (e: Embed)
    ensures
        e@ == favourites_embed_spec(*user, lang, guild_color),
{
    let mut e = Embed::new();
    let mut t = user.name.clone();
    push_str(&mut t, "'s Favourites");
    e.title = Some(t);
    e.url = Some(user.site_url.clone());
    e.colour = Some(get_color(guild_color, ANILIST_BLUE));
    let anime = fav_media_text(&user.favourites.anime.nodes, lang);
    add_field_if_any(&mut e, "Anime", anime);
    let manga = fav_media_text(&user.favourites.manga.nodes, lang);
    add_field_if_any(&mut e, "Manga", manga);
    let characters = fav_character_text(&user.favourites.characters.nodes);
    add_field_if_any(&mut e, "Characters", characters);
    let studios = fav_studio_text(&user.favourites.studios.nodes);
    add_field_if_any(&mut e, "Studios", studios);
    e
}

// ─── Users ───────────────────────────────────────────────────────────────────

/// Whole days and remaining hours in a number of minutes, as "Dd Hh".
pub open spec fn watch_time_text(minutes: nat) -> Seq<char> {
    dec(minutes / 1440) + "d "@ + dec((minutes % 1440) / 60) + "h"@
}

fn make_watch_time(minutes: u32) -> (r: String)
    ensures
        r@ == watch_time_text(minutes as nat),
{
    let mut r = u64_to_string((minutes / 1440) as u64);
    push_str(&mut r, "d ");
    push_num(&mut r, ((minutes % 1440) / 60) as u64);
    push_str(&mut r, "h");
    r
}

/// A genre with the number of titles watched in it.
pub open spec fn genre_stat_text(g: UserGenreStatistic) -> Seq<char> {
    g.genre@ + " ("@ + dec(g.count as nat) + ")"@
}

/// The first five genres, or all of them when fewer.
pub open spec fn first_five<T>(s: Seq<T>) -> Seq<T> {
    if s.len() <= 5 { s } else { s.take(5) }
}

/// The embed showing a user's profile and statistics.
pub open spec fn user_embed_spec(user: AniListUser, guild_color: Option<u32>) -> EmbedView {
    let anime = user.statistics.anime;
    let manga = user.statistics.manga;
    let base = blank().title(user.name@).url(user.site_url@).description(
        blurb(user.about, 200, "No bio set."@),
    ).colour(colour_for(guild_color, ANILIST_BLUE)).footer(
        "AniList User ID "@ + dec(user.id as nat),
    ).field("Anime Watched"@, dec(anime.count as nat), true).field(
        "Episodes Watched"@,
        dec(anime.episodes_watched as nat),
        true,
    ).field("Watch Time"@, watch_time_text(anime.minutes_watched as nat), true).field(
        "Anime Mean Score"@,
        anime.mean_score_text@ + "/100"@,
        true,
    ).field("Manga Read"@, dec(manga.count as nat), true).field(
        "Chapters Read"@,
        dec(manga.chapters_read as nat),
        true,
    ).field("Manga Mean Score"@, manga.mean_score_text@ + "/100"@, true);
    let e1 = if anime.genres@.len() == 0 {
        base
    } else {
        base.field(
            "Top Genres"@,
            join(
                first_five(anime.genres@).map_values(|g: UserGenreStatistic| genre_stat_text(g)),
                ", "@,
            ),
            false,
        )
    };
    match user.avatar.large {
        Some(u) => e1.thumbnail(u@),
        None => e1,
    }
}

fn genres_stat_text(genres: &Vec<UserGenreStatistic>) -> (r: String)
    ensures
        r@ == join(
            first_five(genres@).map_values(|g: UserGenreStatistic| genre_stat_text(g)),
            ", "@,
        ),
{
    let n: usize = if genres.len() <= 5 { genres.len() } else { 5 };
    assert(first_five(genres@) == genres@.take(n as int));
    let mut parts: Vec<String> = Vec::new();
    let mut i: usize = 0;
    while i < n
        invariant
            i <= n <= genres@.len(),
            views(parts@) == genres@.take(i as int).map_values(
                |g: UserGenreStatistic| genre_stat_text(g),
            ),
        decreases n - i,
    {
        let g = &genres[i];
        let mut p = g.genre.clone();
        push_str(&mut p, " (");
        push_num(&mut p, g.count as u64);
        push_str(&mut p, ")");
        let ghost before = parts@;
        parts.push(p);
        proof {
            assert(views(parts@) == views(before).push(p@));
            assert(genres@.take(i + 1).map_values(|g: UserGenreStatistic| genre_stat_text(g))
                == genres@.take(i as int).map_values(
                |g: UserGenreStatistic| genre_stat_text(g),
            ).push(genre_stat_text(genres@[i as int])));
        }
        i = i + 1;
    }
    join_strings(&parts, ", ")
}

/// The embed showing a user's profile: bio, anime and manga statistics,
/// top genres and avatar.
pub fn user_embed(user: &AniListUser, guild_color: Option<u32>) -> (e: Embed)
    ensures
        e@ == user_embed_spec(*user, guild_color),
{
    let about = make_blurb(&user.about, 200, "No bio set.");
    let anime = &user.statistics.anime;
    let manga = &user.statistics.manga;
    let mut e = Embed::new();
    e.title = Some(user.name.clone());
    e.url = Some(user.site_url.clone());
    e.description = Some(about);
    e.colour = Some(get_color(guild_color, ANILIST_BLUE));
    let mut footer = owned("AniList User ID ");
    push_num(&mut footer, user.id);
    e.footer = Some(footer);
    e.add_field(owned("Anime Watched"), u64_to_string(anime.count as u64), true);
    e.add_field(owned("Episodes Watched"), u64_to_string(anime.episodes_watched as u64), true);
    e.add_field(owned("Watch Time"), make_watch_time(anime.minutes_watched), true);
    let mut ams = anime.mean_score_text.clone();
    push_str(&mut ams, "/100");
    e.add_field(owned("Anime Mean Score"), ams, true);
    e.add_field(owned("Manga Read"), u64_to_string(manga.count as u64), true);
    e.add_field(owned("Chapters Read"), u64_to_string(manga.chapters_read as u64), true);
    let mut mms = manga.mean_score_text.clone();
    push_str(&mut mms, "/100");
    e.add_field(owned("Manga Mean Score"), mms, true);
    if anime.genres.len() > 0 {
        let g = genres_stat_text(&anime.genres);
        e.add_field(owned("Top Genres"), g, false);
    }
    match &user.avatar.large {
        Some(u) => e.thumbnail = Some(u.clone()),
        None => {},
    }
    e
}

/// A user's statistics as lines of text.
pub open spec fn user_stats_text(u: AniListUser) -> Seq<char> {
    let a = u.statistics.anime;
    let m = u.statistics.manga;
    "Anime watched: "@ + dec(a.count as nat) + "\nEpisodes: "@ + dec(a.episodes_watched as nat)
        + "\nWatch time: "@ + watch_time_text(a.minutes_watched as nat) + "\nAnime score: "@
        + a.mean_score_text@ + "\n\nManga read: "@ + dec(m.count as nat) + "\nChapters: "@ + dec(
        m.chapters_read as nat,
    ) + "\nManga score: "@ + m.mean_score_text@
}

fn user_stats(u: &AniListUser) -> (r: String)
    ensures
        r@ == user_stats_text(*u),
{
    let a = &u.statistics.anime;
    let m = &u.statistics.manga;
    let mut r = owned("Anime watched: ");
    push_num(&mut r, a.count as u64);
    push_str(&mut r, "\nEpisodes: ");
    push_num(&mut r, a.episodes_watched as u64);
    push_str(&mut r, "\nWatch time: ");
    let wt = make_watch_time(a.minutes_watched);
    push_str(&mut r, wt.as_str());
    push_str(&mut r, "\nAnime score: ");
    push_str(&mut r, a.mean_score_text.as_str());
    push_str(&mut r, "\n\nManga read: ");
    push_num(&mut r, m.count as u64);
    push_str(&mut r, "\nChapters: ");
    push_num(&mut r, m.chapters_read as u64);
    push_str(&mut r, "\nManga score: ");
    push_str(&mut r, m.mean_score_text.as_str());
    r
}

/// A linked user name.
pub open spec fn user_link(u: AniListUser) -> Seq<char> {
    "["@ + u.name@ + "]("@ + u.site_url@ + ")"@
}

/// The embed comparing two users side by side.
pub open spec fn compare_embed_spec(u1: AniListUser, u2: AniListUser, guild_color: Option<u32>) -> EmbedView {
    blank().title(u1.name@ + " vs "@ + u2.name@).colour(colour_for(guild_color, ANILIST_BLUE)).footer(
        "AniList profile comparison"@,
    ).field(user_link(u1), user_stats_text(u1), true).field(user_link(u2), user_stats_text(u2), true)
}

fn make_user_link(u: &AniListUser) -> (r: String)
    ensures
        r@ == user_link(*u),
{
    let mut r = owned("[");
    push_str(&mut r, u.name.as_str());
    push_str(&mut r, "](");
    push_str(&mut r, u.site_url.as_str());
    push_str(&mut r, ")");
    r
}

/// The embed comparing two users' statistics side by side.
pub fn compare_embed(u1: &AniListUser, u2: &AniListUser, guild_color: Option<u32>) -> (e: Embed)
    ensures
        e@ == compare_embed_spec(*u1, *u2, guild_color),
{
    let mut e = Embed::new();
    let mut t = u1.name.clone();
    push_str(&mut t, " vs ");
    push_str(&mut t, u2.name.as_str());
    e.title = Some(t);
    e.colour = Some(get_color(guild_color, ANILIST_BLUE));
    e.footer = Some(owned("AniList profile comparison"));
    e.add_field(make_user_link(u1), user_stats(u1), true);
    e.add_field(make_user_link(u2), user_stats(u2), true);
    e
}

// ─── Server list ─────────────────────────────────────────────────────────────

/// One entry of the server list: id, watched mark, title and who added it.
pub open spec fn server_entry_line(e: ServerListEntry) -> Seq<char> {
    "`"@ + e.id@ + "` "@ + (if e.watched { "✅"@ } else { "⏳"@ }) + " **"@ + e.title@
        + "** (added by <@"@ + dec(e.added_by as nat) + ">)"@
}

/// The embed showing the server list.
pub open spec fn server_list_embed_spec(entries: Seq<ServerListEntry>, guild_color: Option<u32>) -> EmbedView {
    let base = blank().title("Server Anime List"@).colour(colour_for(guild_color, TEAL));
    if entries.len() == 0 {
        base.description("The server list is empty. Add something with `/serverlist add`!"@)
    } else {
        base.description(
            join(entries.map_values(|e: ServerListEntry| server_entry_line(e)), "\n"@),
        )
    }
}

/// The embed showing the server's shared list with watched marks.
pub fn server_list_embed(entries: &[ServerListEntry], guild_color: Option<u32>) -> (e: Embed)
    ensures
        e@ == server_list_embed_spec(entries@, guild_color),
{
    let mut e = Embed::new();
    e.title = Some(owned("Server Anime List"));
    e.colour = Some(get_color(guild_color, TEAL));
    if entries.len() == 0 {
        e.description = Some(owned("The server list is empty. Add something with `/serverlist add`!"));
    } else {
        let mut lines: Vec<String> = Vec::new();
        let mut i: usize = 0;
        while i < entries.len()
            invariant
                i <= entries@.len(),
                views(lines@) == entries@.take(i as int).map_values(
                    |e: ServerListEntry| server_entry_line(e),
                ),
            decreases entries.len() - i,
        {
            let en = &entries[i];
            let mut line = owned("`");
            push_str(&mut line, en.id.as_str());
            push_str(&mut line, "` ");
            push_str(&mut line, if en.watched { "✅" } else { "⏳" });
            push_str(&mut line, " **");
            push_str(&mut line, en.title.as_str());
            push_str(&mut line, "** (added by <@");
            push_num(&mut line, en.added_by);
            push_str(&mut line, ">)");
            assert(line@ == server_entry_line(entries@[i as int]));
            let ghost before = lines@;
            lines.push(line);
            proof {
                assert(views(lines@) == views(before).push(line@));
                assert(entries@.take(i + 1).map_values(|e: ServerListEntry| server_entry_line(e))
                    == entries@.take(i as int).map_values(
                    |e: ServerListEntry| server_entry_line(e),
                ).push(server_entry_line(entries@[i as int])));
            }
            i = i + 1;
        }
        assert(entries@.take(entries@.len() as int) == entries@);
        e.description = Some(join_strings(&lines, "\n"));
    }
    e
}

} // verus!
