//! The decisions around AniList queries that do not need the network:
//! cache keys, random page numbers, picking a result and autocomplete
//! suggestions.

use vstd::prelude::*;
use crate::clock::clock_seed;
use crate::models::{preferred_title, AutocompleteMediaItem, Media};
use crate::text::{join, owned, views};
use vstd::string::StringSliceAdditionalSpecFns;

verus! {

/// The key under which a query's result is cached: the kind of query and
/// its arguments, separated by colons.
pub open spec fn cache_key_spec(kind: Seq<char>, args: Seq<Seq<char>>) -> Seq<char> {
    join(seq![kind] + args, ":"@)
}

/// The cache key for a query of `kind` with the given arguments.
pub fn cache_key(kind: &str, args: &Vec<String>) -> (k: String)
    ensures
        k@ == cache_key_spec(kind@, views(args@)),
{
    let mut all: Vec<String> = Vec::new();
    all.push(owned(kind));
    let mut i: usize = 0;
    while i < args.len()
        invariant
            i <= args@.len(),
            views(all@) == seq![kind@] + views(args@.take(i as int)),
        decreases args.len() - i,
    {
        let ghost before = all@;
        all.push(args[i].clone());
        proof {
            assert(views(all@) == views(before).push(args@[i as int]@));
            assert(views(args@.take(i + 1)) == views(args@.take(i as int)).push(args@[i as int]@));
        }
        i = i + 1;
    }
    assert(args@.take(args@.len() as int) == args@);
    crate::text::join_strings(&all, ":")
}

/// The first result of a search, if any.
pub fn first_media(results: Vec<Media>) -> (m: Option<Media>)
    ensures
        m == (if results@.len() == 0 { None } else { Some(results@[0]) }),
{
    let mut results = results;
    if results.len() == 0 {
        None
    } else {
        Some(results.remove(0))
    }
}

// ─── Random pages ────────────────────────────────────────────────────────────

/// The clock reading mixed into 64 bits: seconds times a large prime,
/// wrapping, combined with the nanoseconds.
pub open spec fn seed_bits(secs: u64, nanos: u32) -> u64 {
    secs.wrapping_mul(1_000_000_007) ^ (nanos as u64)
}

/// One xorshift round (shifts 13, 7, 17) of a 64-bit value.
pub open spec fn xorshift(x: u64) -> u64 {
    let a = x ^ (x << 13u64);
    let b = a ^ (a >> 7u64);
    b ^ (b << 17u64)
}

/// The scrambled clock reading.
pub open spec fn scrambled(secs: u64, nanos: u32) -> u64 {
    xorshift(seed_bits(secs, nanos))
}

/// The scrambled clock reading that page numbers are drawn from.
pub fn page_seed_bits(secs: u64, nanos: u32) -> (x: u64)
    ensures
        x == scrambled(secs, nanos),
{
    let mut x: u64 = secs.wrapping_mul(1_000_000_007) ^ (nanos as u64);
    x = x ^ (x << 13u64);
    x = x ^ (x >> 7u64);
    x = x ^ (x << 17u64);
    x
}

/// The page a clock reading picks out of `max`: the scrambled reading
/// modulo `max`, raised to at least 1.
pub open spec fn page_from_seed_spec(secs: u64, nanos: u32, max: u32) -> u32 {
    let r = (scrambled(secs, nanos) % (max as u64)) as u32;
    if r < 1 { 1 } else { r }
}

/// The page a clock reading picks out of `max`.
pub fn page_from_seed(secs: u64, nanos: u32, max: u32) -> (p: u32)
    requires
        max > 0,
    ensures
        p == page_from_seed_spec(secs, nanos, max),
{
    let x = page_seed_bits(secs, nanos);
    let r = (x % (max as u64)) as u32;
    if r < 1 { 1 } else { r }
}

/// A page number between 1 and `max` (below `max` once `max` exceeds
/// one), picked by the current time.
pub fn rand_page(max: u32) -> (p: u32)
    requires
        max > 0,
    ensures
        exists|secs: u64, nanos: u32| nanos < 1_000_000_000 && p == page_from_seed_spec(secs, nanos, max),
        1 <= p,
        max > 1 ==> p < max,
{
    let (secs, nanos) = clock_seed();
    let p = page_from_seed(secs, nanos, max);
    assert(nanos < 1_000_000_000 && p == page_from_seed_spec(secs, nanos, max));
    p
}

// ─── Autocomplete ────────────────────────────────────────────────────────────

/// Whether a partial entry is long enough (two bytes of UTF-8) to look up
/// suggestions for.
pub fn wants_suggestions(partial: &str) -> (b: bool)
    ensures
        b == (partial.spec_bytes().len() as usize >= 2),
{
    partial.len() >= 2
}

/// The label of a media suggestion: its preferred title, followed by its
/// format in brackets when known.
pub open spec fn suggestion_label(item: AutocompleteMediaItem) -> Seq<char> {
    match item.format {
        Some(f) => preferred_title(item.title) + " ("@ + f@ + ")"@,
        None => preferred_title(item.title),
    }
}

/// A media suggestion as (label, value): the value filled in is the
/// preferred title.
pub fn media_suggestion(item: &AutocompleteMediaItem) -> (r: (String, String))
    ensures
        r.0@ == suggestion_label(*item),
        r.1@ == preferred_title(item.title),
{
    let value = owned(item.title.preferred());
    let mut label = owned(item.title.preferred());
    match &item.format {
        Some(f) => {
            label.append(" (");
            label.append(f.as_str());
            label.append(")");
        },
        None => {},
    }
    (label, value)
}

// ─── Random titles ───────────────────────────────────────────────────────────

/// What to do once a page of the random query came back.
pub enum RandomStep {
    /// The title to show: the page's first result.
    Found(Media),
    /// Ask again for the first page.
    FetchFirstPage,
    /// Give up with this message.
    Fail(String),
}

/// The next step of fetching a random title: the first result of the page
/// that came back; when it is empty, the first page once more, and when
/// that was the retry already, the error.
pub fn random_step(results: Vec<Media>, retried: bool) -> (s: RandomStep)
    ensures
        results@.len() > 0 ==> s == RandomStep::Found(results@[0]),
        results@.len() == 0 && !retried ==> s is FetchFirstPage,
        results@.len() == 0 && retried ==> (s matches RandomStep::Fail(m) && m@ == "No results returned for random query."@),
{
    match first_media(results) {
        Some(m) => RandomStep::Found(m),
        None => if retried {
            RandomStep::Fail(owned("No results returned for random query."))
        } else {
            RandomStep::FetchFirstPage
        },
    }
}

} // verus!
