//! The bot's rotating presence: ten statuses shown in turn, one per
//! interval.

use vstd::prelude::*;

verus! {

/// How a status reads: "Watching ...", "Listening to ...", "Playing ..."
/// or "Competing in ...".
#[derive(Clone, Copy, Debug, PartialEq, Eq, Structural)]
pub enum ActivityKind {
    Watching,
    Listening,
    Playing,
    Competing,
}

/// How many statuses there are.
pub const STATUS_COUNT: usize = 10;

/// Seconds each status is shown.
pub const PRESENCE_INTERVAL_SECS: u64 = 30;

/// The `i`-th status of the rotation (from zero), as its kind and text.
pub open spec fn status_spec(i: int) -> (Seq<char>, Seq<char>) {
    let k = i % 10;
    if k == 0 {
        ("watching"@, "anime on AniList"@)
    } else if k == 1 {
        ("listening"@, "lo-fi while reading manga"@)
    } else if k == 2 {
        ("playing"@, "with Poise & Serenity"@)
    } else if k == 3 {
        ("watching"@, "your AniList stats"@)
    } else if k == 4 {
        ("competing"@, "Best Anime of the Season"@)
    } else if k == 5 {
        ("listening"@, "the Attack on Titan OST"@)
    } else if k == 6 {
        ("watching"@, "One Piece (still going)"@)
    } else if k == 7 {
        ("playing"@, "/anime to search titles"@)
    } else if k == 8 {
        ("listening"@, "voice lines from Genshin"@)
    } else {
        ("watching"@, "the seasonal chart"@)
    }
}

/// The status shown at step `index` of the rotation.
pub fn status_at(index: usize) -> (r: (&'static str, &'static str))
    ensures
        (r.0@, r.1@) == status_spec(index as int),
{
    let k = index % STATUS_COUNT;
    if k == 0 {
        ("watching", "anime on AniList")
    } else if k == 1 {
        ("listening", "lo-fi while reading manga")
    } else if k == 2 {
        ("playing", "with Poise & Serenity")
    } else if k == 3 {
        ("watching", "your AniList stats")
    } else if k == 4 {
        ("competing", "Best Anime of the Season")
    } else if k == 5 {
        ("listening", "the Attack on Titan OST")
    } else if k == 6 {
        ("watching", "One Piece (still going)")
    } else if k == 7 {
        ("playing", "/anime to search titles")
    } else if k == 8 {
        ("listening", "voice lines from Genshin")
    } else {
        ("watching", "the seasonal chart")
    }
}

/// The kind a status names; anything but "watching", "listening" and
/// "competing" is shown as playing.
pub open spec fn kind_spec(kind: Seq<char>) -> ActivityKind {
    if kind == "watching"@ {
        ActivityKind::Watching
    } else if kind == "listening"@ {
        ActivityKind::Listening
    } else if kind == "competing"@ {
        ActivityKind::Competing
    } else {
        ActivityKind::Playing
    }
}

/// The kind a status names.
pub fn activity_kind(kind: &str) -> (k: ActivityKind)
    ensures
        k == kind_spec(kind@),
{
    if crate::text::str_eq(kind, "watching") {
        ActivityKind::Watching
    } else if crate::text::str_eq(kind, "listening") {
        ActivityKind::Listening
    } else if crate::text::str_eq(kind, "competing") {
        ActivityKind::Competing
    } else {
        ActivityKind::Playing
    }
}

/// The next step of the rotation, wrapping around at the end of `usize`.
pub fn next_index(index: usize) -> (n: usize)
    ensures
        n == if index == usize::MAX { 0 } else { index + 1 },
{
    if index == usize::MAX {
        0
    } else {
        index + 1
    }
}

/// The rotation comes back to the same status after ten steps.
pub proof fn rotation_repeats(i: int)
    ensures
        status_spec(i + 10) == status_spec(i),
{
    assert((i + 10) % 10 == i % 10);
}

/// Ten consecutive steps show ten different texts.
pub proof fn rotation_shows_all(i: int, j: int)
    requires
        0 <= i < j < 10,
    ensures
        status_spec(i).1 != status_spec(j).1,
{
    reveal_strlit("anime on AniList");
    reveal_strlit("lo-fi while reading manga");
    reveal_strlit("with Poise & Serenity");
    reveal_strlit("your AniList stats");
    reveal_strlit("Best Anime of the Season");
    reveal_strlit("the Attack on Titan OST");
    reveal_strlit("One Piece (still going)");
    reveal_strlit("/anime to search titles");
    reveal_strlit("voice lines from Genshin");
    reveal_strlit("the seasonal chart");
    assert(status_spec(0).1.len() == 16 && status_spec(0).1[0] == 'a');
    assert(status_spec(1).1.len() == 25 && status_spec(1).1[0] == 'l');
    assert(status_spec(2).1.len() == 21 && status_spec(2).1[0] == 'w');
    assert(status_spec(3).1.len() == 18 && status_spec(3).1[0] == 'y');
    assert(status_spec(4).1.len() == 24 && status_spec(4).1[0] == 'B');
    assert(status_spec(5).1.len() == 23 && status_spec(5).1[0] == 't');
    assert(status_spec(6).1.len() == 23 && status_spec(6).1[0] == 'O');
    assert(status_spec(7).1.len() == 23 && status_spec(7).1[0] == '/');
    assert(status_spec(8).1.len() == 24 && status_spec(8).1[0] == 'v');
    assert(status_spec(9).1.len() == 18 && status_spec(9).1[0] == 't');
    assert(i == 0 || i == 1 || i == 2 || i == 3 || i == 4 || i == 5 || i == 6 || i == 7 || i == 8);
    assert(j == 1 || j == 2 || j == 3 || j == 4 || j == 5 || j == 6 || j == 7 || j == 8 || j == 9);
}

} // verus!
