//! Paged replies: the navigation buttons, how a button press moves between
//! pages, and the pop-ups a media page offers.

use vstd::prelude::*;
use crate::embed::{blank, Embed, EmbedView};
use crate::models::{or_default, preferred_title, Media, MediaCharacterEdge, MediaRecommendationNode};
use crate::text::{dec, owned, u64_to_string};

verus! {

/// How a button is drawn.
#[derive(Clone, Copy, Debug, PartialEq, Eq, Structural)]
pub enum ButtonStyle {
    Primary,
    Secondary,
    Danger,
}

/// A message button.
#[derive(Clone, Debug)]
pub struct Button {
    pub custom_id: String,
    pub label: String,
    pub style: ButtonStyle,
    pub disabled: bool,
}

/// A button as (id, label, style, disabled).
pub open spec fn button_view(b: Button) -> (Seq<char>, Seq<char>, ButtonStyle, bool) {
    (b.custom_id@, b.label@, b.style, b.disabled)
}

/// A row of buttons as text.
pub open spec fn row_view(r: Seq<Button>) -> Seq<(Seq<char>, Seq<char>, ButtonStyle, bool)> {
    r.map_values(|b: Button| button_view(b))
}

fn button(id: &str, label: String, style: ButtonStyle, disabled: bool) -> (b: Button)
    ensures
        button_view(b) == (id@, label@, style, disabled),
{
    Button { custom_id: owned(id), label, style, disabled }
}

/// "i / n" with the page shown counted from one.
pub open spec fn page_count_label(index: nat, total: nat) -> Seq<char> {
    dec(index + 1) + " / "@ + dec(total)
}

fn make_page_count_label(index: usize, total: usize) -> (s: String)
    requires
        index < usize::MAX,
    ensures
        s@ == page_count_label(index as nat, total as nat),
{
    let mut s = u64_to_string((index + 1) as u64);
    s.append(" / ");
    let t = u64_to_string(total as u64);
    s.append(t.as_str());
    s
}

/// Previous, page counter and next; previous is off on the first page and
/// next on the last, the counter always off.
pub open spec fn nav_row_spec(index: nat, total: nat, all_off: bool) -> Seq<
    (Seq<char>, Seq<char>, ButtonStyle, bool),
> {
    seq![
        ("prev"@, "◀  Prev"@, ButtonStyle::Secondary, all_off || index == 0),
        ("page_count"@, page_count_label(index, total), ButtonStyle::Secondary, true),
        ("next"@, "Next  ▶"@, ButtonStyle::Primary, all_off || index + 1 >= total),
    ]
}

/// The navigation row for page `index` of `total`.
pub fn nav_row(index: usize, total: usize) -> (r: Vec<Button>)
    requires
        index < usize::MAX,
    ensures
        row_view(r@) == nav_row_spec(index as nat, total as nat, false),
{
    let mut r: Vec<Button> = Vec::new();
    r.push(button("prev", owned("◀  Prev"), ButtonStyle::Secondary, index == 0));
    r.push(
        button("page_count", make_page_count_label(index, total), ButtonStyle::Secondary, true),
    );
    r.push(button("next", owned("Next  ▶"), ButtonStyle::Primary, index + 1 >= total));
    assert(row_view(r@) =~= nav_row_spec(index as nat, total as nat, false));
    r
}

/// The navigation row with every button switched off, once a reply stops
/// listening.
pub fn disabled_row(index: usize, total: usize) -> (r: Vec<Button>)
    requires
        index < usize::MAX,
    ensures
        row_view(r@) == nav_row_spec(index as nat, total as nat, true),
{
    let mut r: Vec<Button> = Vec::new();
    r.push(button("prev", owned("◀  Prev"), ButtonStyle::Secondary, true));
    r.push(
        button("page_count", make_page_count_label(index, total), ButtonStyle::Secondary, true),
    );
    r.push(button("next", owned("Next  ▶"), ButtonStyle::Primary, true));
    assert(row_view(r@) =~= nav_row_spec(index as nat, total as nat, true));
    r
}

/// Characters, relations and recommendations buttons.
pub open spec fn media_row_spec(off: bool) -> Seq<(Seq<char>, Seq<char>, ButtonStyle, bool)> {
    seq![
        ("media_characters"@, "👥 Characters"@, ButtonStyle::Secondary, off),
        ("media_relations"@, "🔗 Relations"@, ButtonStyle::Secondary, off),
        ("media_recommendations"@, "⭐ Recommendations"@, ButtonStyle::Secondary, off),
    ]
}

/// The row of media buttons, on or switched off.
pub fn media_interactive_row(off: bool) -> (r: Vec<Button>)
    ensures
        row_view(r@) == media_row_spec(off),
{
    let mut r: Vec<Button> = Vec::new();
    r.push(button("media_characters", owned("👥 Characters"), ButtonStyle::Secondary, off));
    r.push(button("media_relations", owned("🔗 Relations"), ButtonStyle::Secondary, off));
    r.push(button("media_recommendations", owned("⭐ Recommendations"), ButtonStyle::Secondary, off));
    assert(row_view(r@) =~= media_row_spec(off));
    r
}

/// The rows of a media page: navigation when there is more than one page,
/// then the media buttons.
pub open spec fn media_rows_spec(index: nat, total: nat, off: bool) -> Seq<
    Seq<(Seq<char>, Seq<char>, ButtonStyle, bool)>,
> {
    if total > 1 {
        seq![nav_row_spec(index, total, off), media_row_spec(off)]
    } else {
        seq![media_row_spec(off)]
    }
}

/// The rows as text.
pub open spec fn rows_view(rows: Seq<Vec<Button>>) -> Seq<Seq<(Seq<char>, Seq<char>, ButtonStyle, bool)>> {
    rows.map_values(|r: Vec<Button>| row_view(r@))
}

/// The button rows of page `index` of a media reply, all switched off when
/// `off`.
pub fn media_rows(index: usize, total: usize, off: bool) -> (rows: Vec<Vec<Button>>)
    requires
        index < usize::MAX,
    ensures
        rows_view(rows@) == media_rows_spec(index as nat, total as nat, off),
{
    let mut rows: Vec<Vec<Button>> = Vec::new();
    if total > 1 {
        if off {
            rows.push(disabled_row(index, total));
        } else {
            rows.push(nav_row(index, total));
        }
    }
    rows.push(media_interactive_row(off));
    assert(rows_view(rows@) =~= media_rows_spec(index as nat, total as nat, off));
    rows
}

// ─── Button presses ──────────────────────────────────────────────────────────

/// What a button press on a paged reply asks for.
#[derive(Clone, Copy, Debug, PartialEq, Eq, Structural)]
pub enum PageAction {
    /// Show the page with this index.
    Show(usize),
    /// Pop up the characters of the media on this page.
    Characters(usize),
    /// Pop up the relations of the media on this page.
    Relations(usize),
    /// Pop up the recommendations of the media on this page.
    Recommendations(usize),
    /// Not a button of this reply.
    Ignore,
}

/// The page before `index`, staying on the first.
pub open spec fn prev_index(index: nat) -> nat {
    if index == 0 { 0 } else { (index - 1) as nat }
}

/// The page after `index`, staying on the last.
pub open spec fn next_index(index: nat, total: nat) -> nat {
    if index + 1 < total { index + 1 } else { index }
}

/// The action of a button press on page `index` of `total`; the media
/// buttons count only when `media` is set.
pub open spec fn page_action_spec(id: Seq<char>, index: nat, total: nat, media: bool) -> PageAction {
    if id == "prev"@ {
        PageAction::Show(prev_index(index) as usize)
    } else if id == "next"@ {
        PageAction::Show(next_index(index, total) as usize)
    } else if media && id == "media_characters"@ {
        PageAction::Characters(index as usize)
    } else if media && id == "media_relations"@ {
        PageAction::Relations(index as usize)
    } else if media && id == "media_recommendations"@ {
        PageAction::Recommendations(index as usize)
    } else {
        PageAction::Ignore
    }
}

/// What pressing the button `custom_id` on page `index` of `total` does.
pub fn page_action(custom_id: &str, index: usize, total: usize, media: bool) -> (a: PageAction)
    requires
        index < total,
    ensures
        a == page_action_spec(custom_id@, index as nat, total as nat, media),
{
    if crate::text::str_eq(custom_id, "prev") {
        PageAction::Show(if index == 0 { 0 } else { index - 1 })
    } else if crate::text::str_eq(custom_id, "next") {
        PageAction::Show(if index + 1 < total { index + 1 } else { index })
    } else if media && crate::text::str_eq(custom_id, "media_characters") {
        PageAction::Characters(index)
    } else if media && crate::text::str_eq(custom_id, "media_relations") {
        PageAction::Relations(index)
    } else if media && crate::text::str_eq(custom_id, "media_recommendations") {
        PageAction::Recommendations(index)
    } else {
        PageAction::Ignore
    }
}

/// Pressing a button never leaves the pages: every page an action names is
/// one of the `total` pages.
pub proof fn page_action_stays_in_range(id: Seq<char>, index: nat, total: nat, media: bool)
    requires
        index < total,
        total <= usize::MAX,
    ensures
        match page_action_spec(id, index, total, media) {
            PageAction::Show(i) => i < total,
            PageAction::Characters(i) => i == index,
            PageAction::Relations(i) => i == index,
            PageAction::Recommendations(i) => i == index,
            PageAction::Ignore => true,
        },
{
}

/// Next then previous comes back to the page one started on, unless it was
/// the last; previous then next likewise, unless it was the first.
pub proof fn prev_next_round_trip(index: nat, total: nat)
    requires
        index < total,
    ensures
        index + 1 < total ==> prev_index(next_index(index, total)) == index,
        index > 0 ==> next_index(prev_index(index), total) == index,
{
}

// ─── Media pop-ups ───────────────────────────────────────────────────────────

/// The concatenation of `parts`.
pub open spec fn concat_all(parts: Seq<Seq<char>>) -> Seq<char>
    decreases parts.len(),
{
    if parts.len() == 0 {
        seq![]
    } else {
        concat_all(parts.drop_last()) + parts.last()
    }
}

/// A character of a media page with their role ("Unknown" when absent).
pub open spec fn character_role_line(e: MediaCharacterEdge) -> Seq<char> {
    "**"@ + or_default(e.node.name.full, "Unknown"@) + "** ("@ + or_default(e.role, "Unknown"@)
        + ")\n"@
}

/// The first fifteen characters, or all of them when fewer.
pub open spec fn first_fifteen<T>(s: Seq<T>) -> Seq<T> {
    if s.len() <= 15 { s } else { s.take(15) }
}

/// The pop-up listing a media's characters.
pub open spec fn characters_popup_spec(media: Media) -> EmbedView {
    let desc = match media.characters {
        Some(c) => {
            let d = concat_all(
                first_fifteen(c.edges@).map_values(|e: MediaCharacterEdge| character_role_line(e)),
            );
            if d.len() == 0 { "No characters found."@ } else { d }
        },
        None => "No characters found."@,
    };
    blank().title("Characters"@).description(desc).colour(0x3498db)
}

/// The pop-up listing a media's first fifteen characters with their roles.
pub fn characters_popup(media: &Media) -> (e: Embed)
    ensures
        e@ == characters_popup_spec(*media),
{
    let mut desc = String::new();
    match &media.characters {
        Some(c) => {
            let edges = &c.edges;
            let n: usize = if edges.len() <= 15 { edges.len() } else { 15 };
            assert(first_fifteen(edges@) == edges@.take(n as int));
            let mut i: usize = 0;
            while i < n
                invariant
                    i <= n <= edges@.len(),
                    desc@ == concat_all(
                        edges@.take(i as int).map_values(
                            |e: MediaCharacterEdge| character_role_line(e),
                        ),
                    ),
                decreases n - i,
            {
                let ed = &edges[i];
                desc.append("**");
                desc.append(ed.node.name.preferred());
                desc.append("** (");
                let role: &str = match &ed.role {
                    Some(r) => r.as_str(),
                    None => "Unknown",
                };
                desc.append(role);
                desc.append(")\n");
                proof {
                    let f = |e: MediaCharacterEdge| character_role_line(e);
                    assert(edges@.take(i + 1).map_values(f) == edges@.take(i as int).map_values(
                        f,
                    ).push(f(edges@[i as int])));
                    assert(edges@.take(i + 1).map_values(f).drop_last() == edges@.take(
                        i as int,
                    ).map_values(f));
                }
                i = i + 1;
            }
            if desc.as_str().is_empty() {
                desc = owned("No characters found.");
            }
        },
        None => {
            desc = owned("No characters found.");
        },
    }
    let mut e = Embed::new();
    e.title = Some(owned("Characters"));
    e.description = Some(desc);
    e.colour = Some(0x3498db);
    e
}

/// The bulleted, linked recommendations among the first five nodes.
pub open spec fn recommendation_bullets(nodes: Seq<MediaRecommendationNode>) -> Seq<char>
    decreases nodes.len(),
{
    if nodes.len() == 0 {
        seq![]
    } else {
        recommendation_bullets(nodes.drop_last()) + match nodes.last().media_recommendation {
            Some(r) => "• ["@ + preferred_title(r.title) + "]("@ + r.site_url@ + ")\n"@,
            None => seq![],
        }
    }
}

/// The first five nodes, or all of them when fewer.
pub open spec fn first_five_nodes<T>(s: Seq<T>) -> Seq<T> {
    if s.len() <= 5 { s } else { s.take(5) }
}

/// The pop-up listing a media's recommendations.
pub open spec fn recommendations_popup_spec(media: Media) -> EmbedView {
    let desc = match media.recommendations {
        Some(r) => {
            let d = recommendation_bullets(first_five_nodes(r.nodes@));
            if d.len() == 0 { "No recommendations found."@ } else { d }
        },
        None => "No recommendations found."@,
    };
    blank().title("Recommendations"@).description(desc).colour(0xe67e22)
}

/// The pop-up listing the recommendations among a media's first five
/// recommendation nodes.
pub fn recommendations_popup(media: &Media) -> (e: Embed)
    ensures
        e@ == recommendations_popup_spec(*media),
{
    let mut desc = String::new();
    match &media.recommendations {
        Some(r) => {
            let nodes = &r.nodes;
            let n: usize = if nodes.len() <= 5 { nodes.len() } else { 5 };
            assert(first_five_nodes(nodes@) == nodes@.take(n as int));
            let mut i: usize = 0;
            while i < n
                invariant
                    i <= n <= nodes@.len(),
                    desc@ == recommendation_bullets(nodes@.take(i as int)),
                decreases n - i,
            {
                proof {
                    assert(nodes@.take(i + 1).drop_last() == nodes@.take(i as int));
                }
                match &nodes[i].media_recommendation {
                    Some(rec) => {
                        desc.append("• [");
                        desc.append(rec.title.preferred());
                        desc.append("](");
                        desc.append(rec.site_url.as_str());
                        desc.append(")\n");
                    },
                    None => {},
                }
                i = i + 1;
            }
            if desc.as_str().is_empty() {
                desc = owned("No recommendations found.");
            }
        },
        None => {
            desc = owned("No recommendations found.");
        },
    }
    let mut e = Embed::new();
    e.title = Some(owned("Recommendations"));
    e.description = Some(desc);
    e.colour = Some(0xe67e22);
    e
}

} // verus!
