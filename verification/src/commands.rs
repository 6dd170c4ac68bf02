//! The decisions and replies of the bot's commands that do not touch
//! Discord or AniList: choices, paging, suggestions, settings, and the
//! texts the commands answer with.

use vstd::prelude::*;
use crate::embed::{blank, Embed, EmbedView};
use crate::embeds::{
    airing_page_embed, airing_page_embed_spec, media_embed, media_embed_spec, media_list_embed,
    upcoming_page_embed, upcoming_page_embed_spec,
};
use crate::models::{Media, MediaList, MediaListCollection, MediaListNode};
use crate::store::TitleLanguage;
use crate::text::{dec, join, owned, u64_to_string};

verus! {

// ─── Choices ─────────────────────────────────────────────────────────────────

/// Anime or manga.
#[derive(Clone, Copy, Debug, PartialEq, Eq, Structural)]
pub enum MediaType {
    Anime,
    Manga,
}

impl MediaType {
    /// The AniList name of the media type.
    pub fn as_str(&self) -> (s: &'static str)
        ensures
            s@ == (match self {
                MediaType::Anime => "ANIME"@,
                MediaType::Manga => "MANGA"@,
            }),
    {
        match self {
            MediaType::Anime => "ANIME",
            MediaType::Manga => "MANGA",
        }
    }

    /// The name shown to users.
    pub fn name(&self) -> (s: &'static str)
        ensures
            s@ == (match self {
                MediaType::Anime => "Anime"@,
                MediaType::Manga => "Manga"@,
            }),
    {
        match self {
            MediaType::Anime => "Anime",
            MediaType::Manga => "Manga",
        }
    }
}

/// The genres one can browse by.
#[derive(Clone, Copy, Debug, PartialEq, Eq, Structural)]
pub enum Genre {
    Action,
    Adventure,
    Comedy,
    Drama,
    Ecchi,
    Fantasy,
    Horror,
    MahouShoujo,
    Mecha,
    Music,
    Mystery,
    Psychological,
    Romance,
    SciFi,
    SliceOfLife,
    Sports,
    Supernatural,
    Thriller,
}

/// A genre's name, as AniList and users know it.
pub open spec fn genre_name(g: Genre) -> Seq<char> {
    match g {
        Genre::Action => "Action"@,
        Genre::Adventure => "Adventure"@,
        Genre::Comedy => "Comedy"@,
        Genre::Drama => "Drama"@,
        Genre::Ecchi => "Ecchi"@,
        Genre::Fantasy => "Fantasy"@,
        Genre::Horror => "Horror"@,
        Genre::MahouShoujo => "Mahou Shoujo"@,
        Genre::Mecha => "Mecha"@,
        Genre::Music => "Music"@,
        Genre::Mystery => "Mystery"@,
        Genre::Psychological => "Psychological"@,
        Genre::Romance => "Romance"@,
        Genre::SciFi => "Sci-Fi"@,
        Genre::SliceOfLife => "Slice of Life"@,
        Genre::Sports => "Sports"@,
        Genre::Supernatural => "Supernatural"@,
        Genre::Thriller => "Thriller"@,
    }
}

impl Genre {
    /// The genre's name.
    pub fn name(&self) -> (s: &'static str)
        ensures
            s@ == genre_name(*self),
    {
        match self {
            Genre::Action => "Action",
            Genre::Adventure => "Adventure",
            Genre::Comedy => "Comedy",
            Genre::Drama => "Drama",
            Genre::Ecchi => "Ecchi",
            Genre::Fantasy => "Fantasy",
            Genre::Horror => "Horror",
            Genre::MahouShoujo => "Mahou Shoujo",
            Genre::Mecha => "Mecha",
            Genre::Music => "Music",
            Genre::Mystery => "Mystery",
            Genre::Psychological => "Psychological",
            Genre::Romance => "Romance",
            Genre::SciFi => "Sci-Fi",
            Genre::SliceOfLife => "Slice of Life",
            Genre::Sports => "Sports",
            Genre::Supernatural => "Supernatural",
            Genre::Thriller => "Thriller",
        }
    }
}

/// "Top <kind> - <genre>", the heading of a genre or tag list.
pub fn top_list_title(kind: MediaType, what: &str) -> (s: String)
    ensures
        s@ == "Top "@ + (match kind {
            MediaType::Anime => "Anime"@,
            MediaType::Manga => "Manga"@,
        }) + " - "@ + what@,
{
    let mut s = owned("Top ");
    s.append(kind.name());
    s.append(" - ");
    s.append(what);
    s
}

/// "Trending <kind>", the heading of the trending list.
pub fn trending_title(kind: MediaType) -> (s: String)
    ensures
        s@ == "Trending "@ + (match kind {
            MediaType::Anime => "Anime"@,
            MediaType::Manga => "Manga"@,
        }),
{
    let mut s = owned("Trending ");
    s.append(kind.name());
    s
}

// ─── Pages ───────────────────────────────────────────────────────────────────

/// Shows per page of the airing and upcoming lists.
pub const PAGE_SIZE: usize = 5;

/// The number of pages `n` shows fill.
pub open spec fn page_total(n: nat) -> nat {
    (n + 4) / 5
}

/// The shows on page `i` (from zero).
pub open spec fn page_slice(shows: Seq<Media>, i: int) -> Seq<Media> {
    let start = 5 * i;
    let end = if 5 * i + 5 <= shows.len() { 5 * i + 5 } else { shows.len() as int };
    shows.subrange(start, end)
}

/// The airing list split into pages of five shows, numbered from one.
pub open spec fn airing_pages_spec(shows: Seq<Media>, lang: Option<TitleLanguage>, guild_color: Option<u32>) -> Seq<EmbedView> {
    Seq::new(
        page_total(shows.len()),
        |i: int| airing_page_embed_spec(page_slice(shows, i), (i + 1) as nat, page_total(shows.len()), lang, guild_color),
    )
}

/// The embeds as text.
pub open spec fn embeds_view(v: Seq<Embed>) -> Seq<EmbedView> {
    v.map_values(|e: Embed| e@)
}

/// The airing list as pages of five shows.
pub fn airing_pages(shows: &Vec<Media>, lang: Option<TitleLanguage>, guild_color: Option<u32>) -> (pages: Vec<Embed>)
    requires
        shows@.len() + 5 <= usize::MAX,
    ensures
        embeds_view(pages@) == airing_pages_spec(shows@, lang, guild_color),
{
    let n = shows.len();
    let total = (n + 4) / 5;
    let mut pages: Vec<Embed> = Vec::new();
    let mut i: usize = 0;
    while i < total
        invariant
            n == shows@.len(),
            n + 5 <= usize::MAX,
            total == page_total(n as nat),
            i <= total,
            embeds_view(pages@) == airing_pages_spec(shows@, lang, guild_color).take(i as int),
        decreases total - i,
    {
        let start = 5 * i;
        let end = if start + 5 <= n { start + 5 } else { n };
        let e = airing_page_embed(&shows.as_slice()[start..end], i + 1, total, lang, guild_color);
        let ghost before = pages@;
        pages.push(e);
        proof {
            assert(embeds_view(pages@) == embeds_view(before).push(e@));
            assert(page_slice(shows@, i as int) == shows@.subrange(start as int, end as int));
            assert(airing_pages_spec(shows@, lang, guild_color).take(i + 1) == airing_pages_spec(
                shows@,
                lang,
                guild_color,
            ).take(i as int).push(airing_pages_spec(shows@, lang, guild_color)[i as int]));
        }
        i = i + 1;
    }
    assert(airing_pages_spec(shows@, lang, guild_color).take(total as int) == airing_pages_spec(shows@, lang, guild_color));
    pages
}

/// One page per search result, each describing its title.
pub open spec fn search_pages_spec(
    results: Seq<Media>,
    kind: Seq<char>,
    lang: Option<TitleLanguage>,
    guild_color: Option<u32>,
) -> Seq<EmbedView> {
    results.map_values(|m: Media| media_embed_spec(m, kind, lang, guild_color))
}

/// The pages of a title search, one per result, in the order AniList
/// ranked them.
pub fn search_pages(results: &Vec<Media>, kind: &str, lang: Option<TitleLanguage>, guild_color: Option<u32>) -> (pages: Vec<Embed>)
    ensures
        embeds_view(pages@) == search_pages_spec(results@, kind@, lang, guild_color),
{
    let mut pages: Vec<Embed> = Vec::new();
    let mut i: usize = 0;
    while i < results.len()
        invariant
            i <= results@.len(),
            embeds_view(pages@) == search_pages_spec(results@.take(i as int), kind@, lang, guild_color),
        decreases results.len() - i,
    {
        let e = media_embed(&results[i], kind, lang, guild_color);
        let ghost before = pages@;
        pages.push(e);
        proof {
            assert(embeds_view(pages@) == embeds_view(before).push(e@));
            assert(results@.take(i + 1) == results@.take(i as int).push(results@[i as int]));
            assert(search_pages_spec(results@.take(i + 1), kind@, lang, guild_color) == search_pages_spec(
                results@.take(i as int),
                kind@,
                lang,
                guild_color,
            ).push(media_embed_spec(results@[i as int], kind@, lang, guild_color)));
        }
        i = i + 1;
    }
    assert(results@.take(results@.len() as int) == results@);
    pages
}

/// The reply when a title search finds nothing.
pub fn no_results_text(kind: &str, query: &str) -> (s: String)
    ensures
        s@ == "No "@ + kind@ + " found for `"@ + query@ + "`."@,
{
    let mut s = owned("No ");
    s.append(kind);
    s.append(" found for `");
    s.append(query);
    s.append("`.");
    s
}

/// The upcoming list split into pages of five shows, numbered from one.
pub open spec fn upcoming_pages_spec(
    shows: Seq<Media>,
    season: Seq<char>,
    year: int,
    lang: Option<TitleLanguage>,
    guild_color: Option<u32>,
) -> Seq<EmbedView> {
    Seq::new(
        page_total(shows.len()),
        |i: int| upcoming_page_embed_spec(page_slice(shows, i), season, year, (i + 1) as nat, page_total(shows.len()), lang, guild_color),
    )
}

/// The upcoming list as pages of five shows.
pub fn upcoming_pages(
    shows: &Vec<Media>,
    season: &str,
    year: i32,
    lang: Option<TitleLanguage>,
    guild_color: Option<u32>,
) -> (pages: Vec<Embed>)
    requires
        shows@.len() + 5 <= usize::MAX,
    ensures
        embeds_view(pages@) == upcoming_pages_spec(shows@, season@, year as int, lang, guild_color),
{
    let n = shows.len();
    let total = (n + 4) / 5;
    let mut pages: Vec<Embed> = Vec::new();
    let mut i: usize = 0;
    while i < total
        invariant
            n == shows@.len(),
            n + 5 <= usize::MAX,
            total == page_total(n as nat),
            i <= total,
            embeds_view(pages@) == upcoming_pages_spec(shows@, season@, year as int, lang, guild_color).take(i as int),
        decreases total - i,
    {
        let start = 5 * i;
        let end = if start + 5 <= n { start + 5 } else { n };
        let e = upcoming_page_embed(&shows.as_slice()[start..end], season, year, i + 1, total, lang, guild_color);
        let ghost before = pages@;
        pages.push(e);
        proof {
            let sp = upcoming_pages_spec(shows@, season@, year as int, lang, guild_color);
            assert(embeds_view(pages@) == embeds_view(before).push(e@));
            assert(page_slice(shows@, i as int) == shows@.subrange(start as int, end as int));
            assert(sp.take(i + 1) == sp.take(i as int).push(sp[i as int]));
        }
        i = i + 1;
    }
    proof {
        let sp = upcoming_pages_spec(shows@, season@, year as int, lang, guild_color);
        assert(sp.take(total as int) == sp);
    }
    pages
}

/// Every show lands on exactly one page: the pages, laid end to end, are
/// the list, and no page holds more than five.
pub proof fn pages_partition(shows: Seq<Media>, i: int)
    requires
        0 <= i < page_total(shows.len()),
    ensures
        0 < page_slice(shows, i).len() <= 5,
        page_slice(shows, i) == shows.subrange(5 * i, 5 * i + page_slice(shows, i).len()),
        i + 1 < page_total(shows.len()) ==> page_slice(shows, i).len() == 5,
{
}

// ─── Suggestions from one user's list for another ────────────────────────────

/// The ids of every title on any of the lists, in order.
pub open spec fn listed_ids(lists: Seq<MediaList>) -> Seq<u64>
    decreases lists.len(),
{
    if lists.len() == 0 {
        seq![]
    } else {
        listed_ids(lists.drop_last()) + lists.last().entries@.map_values(
            |e: crate::models::MediaListEntry| e.media.id,
        )
    }
}

/// The titles of the first user's "Completed" lists that the second user
/// has on none of theirs, in order.
pub open spec fn unseen_completed(lists: Seq<MediaList>, seen: Seq<u64>) -> Seq<MediaListNode>
    decreases lists.len(),
{
    if lists.len() == 0 {
        seq![]
    } else {
        unseen_completed(lists.drop_last(), seen) + if lists.last().name@ == "Completed"@ {
            unseen_entries(lists.last().entries@, seen)
        } else {
            seq![]
        }
    }
}

/// The titles of `entries` whose ids are not in `seen`, in order.
pub open spec fn unseen_entries(entries: Seq<crate::models::MediaListEntry>, seen: Seq<u64>) -> Seq<MediaListNode>
    decreases entries.len(),
{
    if entries.len() == 0 {
        seq![]
    } else {
        let prev = unseen_entries(entries.drop_last(), seen);
        if seen.contains(entries.last().media.id) {
            prev
        } else {
            prev.push(entries.last().media)
        }
    }
}

/// The first user completed it: it is an entry of one of their "Completed" lists.
pub open spec fn completed_by(lists: Seq<MediaList>, n: MediaListNode) -> bool {
    exists|l: int, j: int|
        0 <= l < lists.len() && lists[l].name@ == "Completed"@ && 0 <= j < lists[l].entries@.len()
            && #[trigger] lists[l].entries@[j].media == n
}

proof fn lemma_unseen_entries_sound(entries: Seq<crate::models::MediaListEntry>, seen: Seq<u64>)
    ensures
        forall|k: int| 0 <= k < unseen_entries(entries, seen).len() ==> {
            &&& !seen.contains(#[trigger] unseen_entries(entries, seen)[k].id)
            &&& exists|j: int| 0 <= j < entries.len() && entries[j].media == unseen_entries(entries, seen)[k]
        },
    decreases entries.len(),
{
    if entries.len() > 0 {
        let pre = entries.drop_last();
        lemma_unseen_entries_sound(pre, seen);
        let r = unseen_entries(entries, seen);
        let p = unseen_entries(pre, seen);
        assert forall|k: int| 0 <= k < r.len() implies {
            &&& !seen.contains(#[trigger] r[k].id)
            &&& exists|j: int| 0 <= j < entries.len() && entries[j].media == r[k]
        } by {
            if k < p.len() {
                assert(r[k] == p[k]);
                assert(!seen.contains(p[k].id));
                let j = choose|j: int| 0 <= j < pre.len() && pre[j].media == p[k];
                assert(entries[j] == pre[j]);
            } else {
                assert(r[k] == entries.last().media);
                assert(entries[entries.len() - 1].media == r[k]);
            }
        }
    }
}

proof fn lemma_unseen_completed_sound(lists: Seq<MediaList>, seen: Seq<u64>)
    ensures
        forall|k: int| 0 <= k < unseen_completed(lists, seen).len() ==> {
            &&& !seen.contains(#[trigger] unseen_completed(lists, seen)[k].id)
            &&& completed_by(lists, unseen_completed(lists, seen)[k])
        },
    decreases lists.len(),
{
    if lists.len() > 0 {
        let pre = lists.drop_last();
        lemma_unseen_completed_sound(pre, seen);
        let last = lists.last();
        lemma_unseen_entries_sound(last.entries@, seen);
        let r = unseen_completed(lists, seen);
        let p = unseen_completed(pre, seen);
        let tail = if last.name@ == "Completed"@ { unseen_entries(last.entries@, seen) } else { seq![] };
        assert(r == p + tail);
        assert forall|k: int| 0 <= k < r.len() implies {
            &&& !seen.contains(#[trigger] r[k].id)
            &&& completed_by(lists, r[k])
        } by {
            if k < p.len() {
                assert(r[k] == p[k]);
                assert(!seen.contains(p[k].id));
                let (l, j) = choose|l: int, j: int|
                    0 <= l < pre.len() && pre[l].name@ == "Completed"@ && 0 <= j < pre[l].entries@.len()
                        && #[trigger] pre[l].entries@[j].media == p[k];
                assert(lists[l] == pre[l]);
                assert(lists[l].entries@[j].media == r[k]);
            } else {
                let k2 = k - p.len();
                assert(r[k] == tail[k2]);
                assert(!seen.contains(tail[k2].id));
                let j = choose|j: int| 0 <= j < last.entries@.len() && last.entries@[j].media == tail[k2];
                let l = lists.len() - 1;
                assert(lists[l] == last);
                assert(lists[l].entries@[j].media == r[k]);
            }
        }
    }
}

/// Every suggestion is a title the first user completed that appears on
/// none of the second user's lists.
pub proof fn suggestions_are_unseen(lists1: Seq<MediaList>, lists2: Seq<MediaList>)
    ensures
        forall|k: int| 0 <= k < unseen_completed(lists1, listed_ids(lists2)).len() ==> {
            &&& !listed_ids(lists2).contains(#[trigger] unseen_completed(lists1, listed_ids(lists2))[k].id)
            &&& completed_by(lists1, unseen_completed(lists1, listed_ids(lists2))[k])
        },
{
    lemma_unseen_completed_sound(lists1, listed_ids(lists2));
}

fn ids_of(c: &MediaListCollection) -> (ids: Vec<u64>)
    ensures
        ids@ == listed_ids(c.lists@),
{
    let lists = &c.lists;
    let mut ids: Vec<u64> = Vec::new();
    let mut i: usize = 0;
    while i < lists.len()
        invariant
            i <= lists@.len(),
            ids@ == listed_ids(lists@.take(i as int)),
        decreases lists.len() - i,
    {
        proof {
            assert(lists@.take(i + 1).drop_last() == lists@.take(i as int));
        }
        let entries = &lists[i].entries;
        let ghost base = ids@;
        let mut k: usize = 0;
        while k < entries.len()
            invariant
                k <= entries@.len(),
                ids@ == base + entries@.take(k as int).map_values(
                    |e: crate::models::MediaListEntry| e.media.id,
                ),
            decreases entries.len() - k,
        {
            ids.push(entries[k].media.id);
            proof {
                let f = |e: crate::models::MediaListEntry| e.media.id;
                assert(entries@.take(k + 1).map_values(f) == entries@.take(k as int).map_values(f).push(
                    entries@[k as int].media.id,
                ));
            }
            k = k + 1;
        }
        assert(entries@.take(entries@.len() as int) == entries@);
        i = i + 1;
    }
    assert(lists@.take(lists@.len() as int) == lists@);
    ids
}

fn has_id(ids: &Vec<u64>, id: u64) -> (b: bool)
    ensures
        b == ids@.contains(id),
{
    let mut i: usize = 0;
    while i < ids.len()
        invariant
            i <= ids@.len(),
            forall|k: int| 0 <= k < i ==> ids@[k] != id,
        decreases ids.len() - i,
    {
        if ids[i] == id {
            assert(ids@[i as int] == id);
            return true;
        }
        i = i + 1;
    }
    false
}

/// The titles the first user completed that the second user has not
/// listed, in the order of the first user's lists.
pub fn unseen_suggestions(list1: &MediaListCollection, list2: &MediaListCollection) -> (r: Vec<MediaListNode>)
    ensures
        r@ == unseen_completed(list1.lists@, listed_ids(list2.lists@)),
{
    let seen = ids_of(list2);
    let lists = &list1.lists;
    let mut r: Vec<MediaListNode> = Vec::new();
    let mut i: usize = 0;
    while i < lists.len()
        invariant
            i <= lists@.len(),
            seen@ == listed_ids(list2.lists@),
            r@ == unseen_completed(lists@.take(i as int), seen@),
        decreases lists.len() - i,
    {
        proof {
            assert(lists@.take(i + 1).drop_last() == lists@.take(i as int));
        }
        let l = &lists[i];
        if crate::text::str_eq(l.name.as_str(), "Completed") {
            let entries = &l.entries;
            let ghost base = r@;
            let mut k: usize = 0;
            while k < entries.len()
                invariant
                    k <= entries@.len(),
                    r@ == base + unseen_entries(entries@.take(k as int), seen@),
                decreases entries.len() - k,
            {
                proof {
                    assert(entries@.take(k + 1).drop_last() == entries@.take(k as int));
                }
                let e = &entries[k];
                if !has_id(&seen, e.media.id) {
                    r.push(crate::models::copy_list_node(&e.media));
                }
                k = k + 1;
            }
            assert(entries@.take(entries@.len() as int) == entries@);
        }
        i = i + 1;
    }
    assert(lists@.take(lists@.len() as int) == lists@);
    r
}

/// A title of a list as a media record carrying only its id, title and
/// link.
pub fn node_media(n: &MediaListNode) -> (m: Media)
    ensures
        m.id == n.id,
        m.title == n.title,
        m.site_url == n.site_url,
        m.average_score is None,
        m.genres@.len() == 0,
{
    Media {
        id: n.id,
        title: crate::models::copy_title(&n.title),
        episodes: None,
        season: None,
        season_year: None,
        chapters: None,
        volumes: None,
        format: None,
        status: None,
        average_score: None,
        genres: Vec::new(),
        description: None,
        cover_image: None,
        site_url: n.site_url.clone(),
        start_date: None,
        next_airing_episode: None,
        relations: None,
        characters: None,
        recommendations: None,
    }
}

/// The `i`-th (from zero) suggestion, numbered from one and linked.
pub open spec fn suggestion_line(i: int, n: MediaListNode, lang: Option<TitleLanguage>) -> Seq<char> {
    dec((i + 1) as nat) + ". ["@ + crate::models::title_in(n.title, lang) + "]("@ + n.site_url@ + ")"@
}

/// The suggestions embed: the first ten suggestions, numbered.
pub open spec fn suggestions_embed_spec(
    nodes: Seq<MediaListNode>,
    user1: Seq<char>,
    user2: Seq<char>,
    lang: Option<TitleLanguage>,
    guild_color: Option<u32>,
) -> EmbedView {
    let shown = if nodes.len() <= 10 { nodes } else { nodes.take(10) };
    let list = join(Seq::new(shown.len(), |i: int| suggestion_line(i, shown[i], lang)), "\n"@);
    blank().title("Suggestions for "@ + user2 + " from "@ + user1 + "'s list"@).description(
        if list.len() == 0 { "No results found."@ } else { list },
    ).colour(crate::embed::colour_for(guild_color, crate::embeds::ANILIST_BLUE))
}

/// The embed suggesting to `user2` up to ten titles `user1` completed.
pub fn suggestions_embed(
    nodes: &Vec<MediaListNode>,
    user1: &str,
    user2: &str,
    lang: Option<TitleLanguage>,
    guild_color: Option<u32>,
) -> (e: Embed)
    ensures
        e@ == suggestions_embed_spec(nodes@, user1@, user2@, lang, guild_color),
{
    let n: usize = if nodes.len() <= 10 { nodes.len() } else { 10 };
    let ghost shown = if nodes@.len() <= 10 { nodes@ } else { nodes@.take(10) };
    assert(shown == nodes@.take(n as int));
    let mut media: Vec<Media> = Vec::new();
    let mut i: usize = 0;
    while i < n
        invariant
            i <= n <= nodes@.len(),
            n <= 10,
            shown == nodes@.take(n as int),
            media@.len() == i,
            forall|k: int| 0 <= k < i ==> (#[trigger] media@[k]).title == shown[k].title
                && media@[k].site_url == shown[k].site_url && media@[k].average_score is None,
        decreases n - i,
    {
        media.push(node_media(&nodes[i]));
        i = i + 1;
    }
    let mut title = owned("Suggestions for ");
    title.append(user2);
    title.append(" from ");
    title.append(user1);
    title.append("'s list");
    let e = media_list_embed(media.as_slice(), title.as_str(), lang, guild_color);
    proof {
        assert(crate::embeds::media_list_lines(media@, lang) =~= Seq::new(
            shown.len(),
            |i: int| suggestion_line(i, shown[i], lang),
        ));
    }
    e
}

/// The reply when the first user completed nothing the second has not
/// listed.
pub fn no_suggestions_text(user1: &str, user2: &str) -> (s: String)
    ensures
        s@ == "Found no completed anime from **"@ + user1@ + "** that **"@ + user2@
            + "** hasn't started."@,
{
    let mut s = owned("Found no completed anime from **");
    s.append(user1);
    s.append("** that **");
    s.append(user2);
    s.append("** hasn't started.");
    s
}

// ─── Settings ────────────────────────────────────────────────────────────────

/// The value of a hexadecimal digit (either case), if `c` is one.
pub open spec fn hex_digit_value(c: char) -> Option<nat> {
    if '0' <= c && c <= '9' {
        Some((c as nat - '0' as nat) as nat)
    } else if 'a' <= c && c <= 'f' {
        Some((c as nat - 'a' as nat + 10) as nat)
    } else if 'A' <= c && c <= 'F' {
        Some((c as nat - 'A' as nat + 10) as nat)
    } else {
        None
    }
}

/// The number hexadecimal digits spell, if they all are digits.
pub open spec fn hex_value(s: Seq<char>) -> Option<nat>
    decreases s.len(),
{
    if s.len() == 0 {
        Some(0)
    } else {
        match (hex_value(s.drop_last()), hex_digit_value(s.last())) {
            (Some(v), Some(d)) => Some(v * 16 + d),
            _ => None,
        }
    }
}

/// A 32-bit number in hexadecimal as `u32::from_str_radix(s, 16)` reads
/// it: an optional '+', then at least one digit, and a value that fits.
pub open spec fn parse_hex_u32(s: Seq<char>) -> Option<u32> {
    let digits = if s.len() > 0 && s[0] == '+' { s.drop_first() } else { s };
    if digits.len() == 0 {
        None
    } else {
        match hex_value(digits) {
            Some(v) => if v <= u32::MAX { Some(v as u32) } else { None },
            None => None,
        }
    }
}

proof fn lemma_hex_value_grows(s: Seq<char>, c: char)
    requires
        (hex_value(s) matches Some(v) && v > u32::MAX),
        hex_digit_value(c) is Some,
    ensures
        (hex_value(s.push(c)) matches Some(w) && w > u32::MAX),
{
    assert(s.push(c).drop_last() == s);
}

proof fn lemma_hex_value_bad(s: Seq<char>, c: char)
    requires
        hex_value(s) is None,
    ensures
        hex_value(s.push(c)) is None,
{
    assert(s.push(c).drop_last() == s);
}

fn hex_digit(c: char) -> (d: Option<u64>)
    ensures
        match hex_digit_value(c) {
            Some(v) => d == Some(v as u64),
            None => d is None,
        },
{
    if '0' <= c && c <= '9' {
        Some((c as u64) - ('0' as u64))
    } else if 'a' <= c && c <= 'f' {
        Some((c as u64) - ('a' as u64) + 10)
    } else if 'A' <= c && c <= 'F' {
        Some((c as u64) - ('A' as u64) + 10)
    } else {
        None
    }
}

/// Reads a 32-bit number written in hexadecimal.
pub fn parse_hex(s: &str) -> (r: Option<u32>)
    ensures
        r == parse_hex_u32(s@),
{
    let cs = crate::text::chars_of(s);
    let start: usize = if cs.len() > 0 && cs[0] == '+' { 1 } else { 0 };
    let ghost digits = if s@.len() > 0 && s@[0] == '+' { s@.drop_first() } else { s@ };
    assert(digits == cs@.skip(start as int));
    if start == cs.len() {
        return None;
    }
    let mut acc: u64 = 0;
    let mut bad = false;
    let mut big = false;
    let mut i: usize = start;
    assert(cs@.skip(start as int).take(0) == Seq::<char>::empty());
    while i < cs.len()
        invariant
            start <= i <= cs@.len(),
            digits == cs@.skip(start as int),
            bad ==> hex_value(digits.take(i - start)) is None,
            !bad && big ==> (hex_value(digits.take(i - start)) matches Some(v) && v > u32::MAX),
            !bad && !big ==> hex_value(digits.take(i - start)) == Some(acc as nat) && acc <= u32::MAX,
        decreases cs.len() - i,
    {
        let ghost pre = digits.take(i - start);
        let c = cs[i];
        proof {
            assert(digits.take(i + 1 - start) == pre.push(c));
            assert(pre.push(c).drop_last() == pre);
        }
        match hex_digit(c) {
            Some(d) => {
                if !bad && !big {
                    let next = acc * 16 + d;
                    if next > 0xFFFF_FFFF {
                        big = true;
                    } else {
                        acc = next;
                    }
                } else if !bad {
                    proof {
                        lemma_hex_value_grows(pre, c);
                    }
                } else {
                    proof {
                        lemma_hex_value_bad(pre, c);
                    }
                }
            },
            None => {
                bad = true;
            },
        }
        i = i + 1;
    }
    assert(digits.take(cs.len() - start) == digits);
    if bad || big {
        None
    } else {
        Some(acc as u32)
    }
}

/// The digits of a colour as typed: after a leading "0x", or after a
/// leading '#', or the whole text.
pub open spec fn colour_digits(s: Seq<char>) -> Seq<char> {
    if s.len() >= 2 && s[0] == '0' && s[1] == 'x' {
        s.skip(2)
    } else if s.len() >= 1 && s[0] == '#' {
        s.skip(1)
    } else {
        s
    }
}

/// Reads a colour typed as "0xRRGGBB", "#RRGGBB" or "RRGGBB".
pub fn parse_colour(s: &str) -> (r: Option<u32>)
    ensures
        r == parse_hex_u32(colour_digits(s@)),
{
    let cs = crate::text::chars_of(s);
    let skip: usize = if cs.len() >= 2 && cs[0] == '0' && cs[1] == 'x' {
        2
    } else if cs.len() >= 1 && cs[0] == '#' {
        1
    } else {
        0
    };
    let mut rest: Vec<char> = Vec::new();
    let mut i: usize = skip;
    while i < cs.len()
        invariant
            skip <= i <= cs@.len(),
            rest@ == cs@.subrange(skip as int, i as int),
        decreases cs.len() - i,
    {
        rest.push(cs[i]);
        i = i + 1;
        assert(rest@ =~= cs@.subrange(skip as int, i as int));
    }
    assert(rest@ == colour_digits(s@));
    let t = crate::text::string_of(&rest);
    parse_hex(t.as_str())
}

/// The upper-case hexadecimal digit for `d < 16`.
pub open spec fn hex_char(d: nat) -> char {
    if d < 10 {
        crate::text::digit_char(d)
    } else if d == 10 { 'A' } else if d == 11 { 'B' } else if d == 12 { 'C' } else if d == 13 { 'D' }
    else if d == 14 { 'E' } else { 'F' }
}

/// A number in upper-case hexadecimal, without leading zeros.
pub open spec fn hex_upper(n: nat) -> Seq<char>
    decreases n,
{
    if n < 16 {
        seq![hex_char(n)]
    } else {
        hex_upper(n / 16).push(hex_char(n % 16))
    }
}

/// A colour as "0x" and at least six upper-case hexadecimal digits.
pub open spec fn colour_text(c: u32) -> Seq<char> {
    let h = hex_upper(c as nat);
    "0x"@ + Seq::new(if h.len() < 6 { (6 - h.len()) as nat } else { 0 }, |i: int| '0') + h
}

fn hex_digit_char(d: u32) -> (c: char)
    requires
        d < 16,
    ensures
        c == hex_char(d as nat),
{
    if d < 10 {
        if d == 0 { '0' } else if d == 1 { '1' } else if d == 2 { '2' } else if d == 3 { '3' }
        else if d == 4 { '4' } else if d == 5 { '5' } else if d == 6 { '6' } else if d == 7 { '7' }
        else if d == 8 { '8' } else { '9' }
    } else if d == 10 { 'A' } else if d == 11 { 'B' } else if d == 12 { 'C' } else if d == 13 { 'D' }
    else if d == 14 { 'E' } else { 'F' }
}

/// A colour as "0x" and at least six upper-case hexadecimal digits.
pub fn format_colour(c: u32) -> (s: String)
    ensures
        s@ == colour_text(c),
{
    let mut rev: Vec<char> = Vec::new();
    let mut m: u32 = c;
    while m >= 16
        invariant
            hex_upper(c as nat) == hex_upper(m as nat) + rev@.reverse(),
        decreases m,
    {
        let d = hex_digit_char(m % 16);
        proof {
            assert(hex_upper(m as nat) == hex_upper((m / 16) as nat).push(d));
            assert(rev@.push(d).reverse() == seq![d] + rev@.reverse());
            assert(hex_upper((m / 16) as nat).push(d) + rev@.reverse()
                == hex_upper((m / 16) as nat) + (seq![d] + rev@.reverse()));
        }
        rev.push(d);
        m = m / 16;
    }
    let d = hex_digit_char(m);
    rev.push(d);
    proof {
        assert(hex_upper(m as nat) == seq![d]);
        assert(rev@.reverse() == seq![d] + rev@.drop_last().reverse());
    }
    let ghost h = hex_upper(c as nat);
    assert(h == rev@.reverse());
    let mut out: Vec<char> = Vec::new();
    out.push('0');
    out.push('x');
    let mut pad: usize = rev.len();
    while pad < 6
        invariant
            rev@.len() <= pad <= 6 || pad == rev@.len(),
            out@ == seq!['0', 'x'] + Seq::new((pad - rev@.len()) as nat, |i: int| '0'),
        decreases 6 - pad,
    {
        out.push('0');
        pad = pad + 1;
        assert(out@ =~= seq!['0', 'x'] + Seq::new((pad - rev@.len()) as nat, |i: int| '0'));
    }
    let ghost prefix = out@;
    let mut i: usize = rev.len();
    while i > 0
        invariant
            i <= rev.len(),
            out@ == prefix + rev@.subrange(i as int, rev@.len() as int).reverse(),
        decreases i,
    {
        i = i - 1;
        proof {
            assert(rev@.subrange(i as int, rev@.len() as int)
                == seq![rev@[i as int]] + rev@.subrange(i + 1, rev@.len() as int));
        }
        out.push(rev[i]);
    }
    assert(rev@.subrange(0, rev@.len() as int) == rev@);
    proof {
        reveal_strlit("0x");
        assert(seq!['0', 'x'] == "0x"@);
    }
    crate::text::string_of(&out)
}

proof fn lemma_hex_char_value(d: nat)
    requires
        d < 16,
    ensures
        hex_digit_value(hex_char(d)) == Some(d),
        hex_char(d) != '+',
{
}

proof fn lemma_hex_value_push(s: Seq<char>, c: char)
    ensures
        hex_value(s.push(c)) == match (hex_value(s), hex_digit_value(c)) {
            (Some(v), Some(d)) => Some(v * 16 + d),
            _ => None,
        },
{
    assert(s.push(c).drop_last() == s);
}

proof fn lemma_hex_upper_value(n: nat)
    ensures
        hex_value(hex_upper(n)) == Some(n),
        hex_upper(n).len() > 0,
        forall|i: int| 0 <= i < hex_upper(n).len() ==> #[trigger] hex_upper(n)[i] != '+',
    decreases n,
{
    if n < 16 {
        lemma_hex_char_value(n);
        lemma_hex_value_push(seq![], hex_char(n));
        assert(seq![hex_char(n)] == Seq::<char>::empty().push(hex_char(n)));
    } else {
        lemma_hex_upper_value(n / 16);
        lemma_hex_char_value(n % 16);
        lemma_hex_value_push(hex_upper(n / 16), hex_char(n % 16));
        assert((n / 16) * 16 + n % 16 == n);
    }
}

proof fn lemma_zeros_value(k: nat)
    ensures
        hex_value(Seq::new(k, |i: int| '0')) == Some(0nat),
    decreases k,
{
    if k > 0 {
        lemma_zeros_value((k - 1) as nat);
        assert(Seq::new(k, |i: int| '0').drop_last() == Seq::new((k - 1) as nat, |i: int| '0'));
    }
}

proof fn lemma_leading_zeros_value(k: nat, s: Seq<char>)
    ensures
        hex_value(Seq::new(k, |i: int| '0') + s) == hex_value(s),
    decreases s.len(),
{
    let z = Seq::new(k, |i: int| '0');
    if s.len() == 0 {
        assert(z + s == z);
        lemma_zeros_value(k);
    } else {
        lemma_leading_zeros_value(k, s.drop_last());
        assert((z + s).drop_last() == z + s.drop_last());
        assert((z + s).last() == s.last());
    }
}

/// A colour written by `format_colour` reads back as the same colour with
/// `parse_colour`: what `/settings color` stores is what `/settings list`
/// shows.
pub proof fn colour_text_round_trip(c: u32)
    ensures
        parse_hex_u32(colour_digits(colour_text(c))) == Some(c),
{
    let h = hex_upper(c as nat);
    lemma_hex_upper_value(c as nat);
    let k: nat = if h.len() < 6 { (6 - h.len()) as nat } else { 0 };
    let z = Seq::new(k, |i: int| '0');
    lemma_leading_zeros_value(k, h);
    reveal_strlit("0x");
    let t = colour_text(c);
    assert(t == "0x"@ + z + h);
    assert(t[0] == '0' && t[1] == 'x');
    assert(colour_digits(t) == z + h);
    let d = z + h;
    assert(d.len() > 0);
    if k > 0 {
        assert(d[0] == '0');
    } else {
        assert(d[0] == h[0]);
    }
}

/// The reply to a colour setting: the stored colour, or how to write one.
pub open spec fn colour_reply_spec(parsed: Option<u32>) -> Seq<char> {
    match parsed {
        Some(c) => "Accent color updated to `"@ + colour_text(c) + "`."@,
        None => "Invalid color code. Use hex format like `0xABCDEF` or `#ABCDEF`."@,
    }
}

/// The reply to a colour setting, given what `parse_colour` read.
pub fn colour_reply(parsed: Option<u32>) -> (s: String)
    ensures
        s@ == colour_reply_spec(parsed),
{
    match parsed {
        Some(c) => {
            let mut s = owned("Accent color updated to `");
            let t = format_colour(c);
            s.append(t.as_str());
            s.append("`.");
            s
        },
        None => owned("Invalid color code. Use hex format like `0xABCDEF` or `#ABCDEF`."),
    }
}

/// The guild settings page.
pub open spec fn settings_embed_spec(mod_role: Option<u64>, accent: Option<u32>) -> EmbedView {
    blank().title("Guild Settings"@).field(
        "Moderator Role"@,
        match mod_role {
            Some(id) => "<@&"@ + dec(id as nat) + ">"@,
            None => "Not set"@,
        },
        true,
    ).field(
        "Accent Color"@,
        match accent {
            Some(c) => colour_text(c),
            None => "Default (AniList Blue)"@,
        },
        true,
    )
}

/// The guild settings page: moderator role and accent colour.
pub fn settings_embed(mod_role: Option<u64>, accent: Option<u32>) -> (e: Embed)
    ensures
        e@ == settings_embed_spec(mod_role, accent),
{
    let role = match mod_role {
        Some(id) => {
            let mut s = owned("<@&");
            let t = u64_to_string(id);
            s.append(t.as_str());
            s.append(">");
            s
        },
        None => owned("Not set"),
    };
    let colour = match accent {
        Some(c) => format_colour(c),
        None => owned("Default (AniList Blue)"),
    };
    let mut e = Embed::new();
    e.title = Some(owned("Guild Settings"));
    e.add_field(owned("Moderator Role"), role, true);
    e.add_field(owned("Accent Color"), colour, true);
    e
}

// ─── Comparing two titles ────────────────────────────────────────────────────

/// The reply when a title to compare found nothing.
pub open spec fn not_found_spec(title: Seq<char>) -> Seq<char> {
    "Could not find `"@ + title + "`."@
}

/// The two titles to compare, from the first results of the two searches;
/// when the first search found nothing, the reply naming the first title,
/// else when the second found nothing, the one naming the second.
pub fn compare_pick(first: Option<Media>, second: Option<Media>, title1: &str, title2: &str) -> (r: Result<(Media, Media), String>)
    ensures
        match (first, second) {
            (Some(m1), Some(m2)) => r == Ok::<(Media, Media), String>((m1, m2)),
            (None, _) => (r matches Err(t) && t@ == not_found_spec(title1@)),
            (Some(_), None) => (r matches Err(t) && t@ == not_found_spec(title2@)),
        },
{
    match (first, second) {
        (Some(m1), Some(m2)) => Ok((m1, m2)),
        (None, _) => {
            let mut t = owned("Could not find `");
            t.append(title1);
            t.append("`.");
            Err(t)
        },
        (Some(_), None) => {
            let mut t = owned("Could not find `");
            t.append(title2);
            t.append("`.");
            Err(t)
        },
    }
}

} // verus!
