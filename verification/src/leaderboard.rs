//! The quiz leaderboard: players ranked by their wins.

use std::collections::HashMap;
use vstd::prelude::*;
use vstd::std_specs::iter::IteratorSpec;
use crate::embed::{blank, colour_for, get_color, Embed, EmbedView};
use crate::store::QuizScoreInfo;
use crate::text::{dec, join, join_strings, owned, u64_to_string, views};

verus! {

broadcast use vstd::std_specs::hash::group_hash_axioms;

/// `r` ranks the players of `m`: each player once with their wins, most
/// wins first.
pub open spec fn is_ranking(r: Seq<(u64, u32)>, m: Map<u64, u32>) -> bool {
    &&& r.len() == m.dom().len()
    &&& forall|i: int| 0 <= i < r.len() ==> m.contains_key(#[trigger] r[i].0) && m[r[i].0] == r[i].1
    &&& forall|i: int, j: int| 0 <= i < j < r.len() ==> r[i].0 != r[j].0
    &&& forall|i: int, j: int| 0 <= i < j < r.len() ==> r[i].1 >= r[j].1
}

/// The `i`-th (from zero) place of the leaderboard, numbered from one.
pub open spec fn place_line(i: int, e: (u64, u32)) -> Seq<char> {
    dec((i + 1) as nat) + ". <@"@ + dec(e.0 as nat) + "> — **"@ + dec(e.1 as nat) + "** wins"@
}

/// The numbered places of the first ten entries of a ranking.
pub open spec fn place_lines(r: Seq<(u64, u32)>) -> Seq<Seq<char>> {
    let shown = if r.len() <= 10 { r } else { r.take(10) };
    Seq::new(shown.len(), |i: int| place_line(i, shown[i]))
}

/// The leaderboard for a ranking.
pub open spec fn leaderboard_embed_spec(r: Seq<(u64, u32)>, guild_color: Option<u32>) -> EmbedView {
    let base = blank().title("Quiz Leaderboard"@).colour(colour_for(guild_color, 0xFFA500));
    if r.len() == 0 {
        base.description("No scores yet. Play with `/quiz`!"@)
    } else {
        base.description(join(place_lines(r), "\n"@))
    }
}

/// The pairs of a map, in the map's own order.
fn entries_of(scores: &HashMap<u64, u32>) -> (v: Vec<(u64, u32)>)
    ensures
        v@.len() == scores@.dom().len(),
        forall|i: int| 0 <= i < v@.len() ==> scores@.contains_key(#[trigger] v@[i].0) && scores@[v@[i].0] == v@[i].1,
        forall|i: int, j: int| 0 <= i < j < v@.len() ==> v@[i].0 != v@[j].0,
{
    let mut v: Vec<(u64, u32)> = Vec::new();
    let iter0 = scores.iter();
    let ghost all = iter0.remaining();
    assert(all.no_duplicates());
    for pair in it: iter0
        invariant
            it.seq() == all,
            v@.len() == it.index(),
            forall|i: int| 0 <= i < v@.len() ==> v@[i] == (*all[i].0, *all[i].1),
    {
        let (k, s) = pair;
        v.push((*k, *s));
    }
    proof {
        assert forall|i: int| 0 <= i < v@.len() implies scores@.contains_key(#[trigger] v@[i].0)
            && scores@[v@[i].0] == v@[i].1 by {
            assert(scores@.contains_key(*all[i].0));
        }
        assert forall|i: int, j: int| 0 <= i < j < v@.len() implies v@[i].0 != v@[j].0 by {
            assert(scores@.contains_key(*all[i].0));
            assert(scores@.contains_key(*all[j].0));
            if v@[i].0 == v@[j].0 {
                assert(all[i] == all[j]);
            }
        }
    }
    v
}

/// Each player's wins from their quiz records.
pub fn wins_by_player(records: &HashMap<u64, QuizScoreInfo>) -> (wins: HashMap<u64, u32>)
    ensures
        wins@ == records@.map_values(|q: QuizScoreInfo| q.score),
{
    let mut wins: HashMap<u64, u32> = HashMap::new();
    let iter0 = records.iter();
    let ghost all = iter0.remaining();
    proof {
        assert forall|j: int| 0 <= j < all.len() implies records@.contains_key(*all[j].0)
            && records@[*all[j].0] == *all[j].1 by {
            assert(records@.contains_key(*all[j].0));
        }
    }
    for pair in it: iter0
        invariant
            it.seq() == all,
            forall|j: int| 0 <= j < all.len() ==> records@.contains_key(#[trigger] *all[j].0)
                && records@[*all[j].0] == *all[j].1,
            forall|k: u64| #[trigger] wins@.contains_key(k) <==> exists|j: int| 0 <= j < it.index() && *all[j].0 == k,
            forall|k: u64| #[trigger] wins@.contains_key(k) ==> records@.contains_key(k) && wins@[k] == records@[k].score,
    {
        let (k, q) = pair;
        wins.insert(*k, q.score);
        proof {
            let n = it.index();
            assert(*all[n].0 == *k);
            assert forall|k2: u64| (exists|j: int| 0 <= j < n + 1 && *all[j].0 == k2) implies #[trigger] wins@.contains_key(k2) by {
                let j = choose|j: int| 0 <= j < n + 1 && *all[j].0 == k2;
                if j < n {
                    assert(exists|j: int| 0 <= j < n && *all[j].0 == k2);
                }
            }
        }
    }
    proof {
        assert forall|k: u64| records@.contains_key(k) implies #[trigger] wins@.contains_key(k) by {
            assert(all.contains((&k, &records@[k])));
            let j = choose|j: int| 0 <= j < all.len() && all[j] == (&k, &records@[k]);
            assert(*all[j].0 == k);
        }
        assert(wins@ =~= records@.map_values(|q: QuizScoreInfo| q.score));
    }
    wins
}

/// The players ranked by wins, most first; players with equal wins keep
/// the order in which the map hands them out.
pub fn rank_scores(scores: &HashMap<u64, u32>) -> (r: Vec<(u64, u32)>)
    ensures
        is_ranking(r@, scores@),
{
    let entries = entries_of(scores);
    let mut sorted: Vec<(u64, u32)> = Vec::new();
    let mut n: usize = 0;
    while n < entries.len()
        invariant
            n <= entries@.len(),
            sorted@.len() == n,
            forall|i: int| 0 <= i < sorted@.len() ==> exists|j: int| 0 <= j < n && #[trigger] sorted@[i] == #[trigger] entries@[j],
            forall|i: int, j: int| 0 <= i < j < sorted@.len() ==> sorted@[i].0 != sorted@[j].0,
            forall|i: int, j: int| 0 <= i < j < sorted@.len() ==> sorted@[i].1 >= sorted@[j].1,
            forall|i: int, j: int| 0 <= i < j < entries@.len() ==> entries@[i].0 != entries@[j].0,
        decreases entries.len() - n,
    {
        let x = entries[n];
        let mut p: usize = 0;
        while p < sorted.len() && sorted[p].1 >= x.1
            invariant
                p <= sorted@.len(),
                forall|i: int| 0 <= i < p ==> sorted@[i].1 >= x.1,
            decreases sorted.len() - p,
        {
            p = p + 1;
        }
        let ghost old_sorted = sorted@;
        proof {
            assert forall|i: int| 0 <= i < old_sorted.len() implies old_sorted[i].0 != x.0 by {
                let j = choose|j: int| 0 <= j < n && old_sorted[i] == #[trigger] entries@[j];
                assert(entries@[j].0 != entries@[n as int].0);
            }
        }
        sorted.insert(p, x);
        proof {
            assert(sorted@ == old_sorted.insert(p as int, x));
            assert forall|i: int| 0 <= i < sorted@.len() implies exists|j: int| 0 <= j < n + 1 && #[trigger] sorted@[i] == #[trigger] entries@[j] by {
                if i < p {
                    assert(sorted@[i] == old_sorted[i]);
                    let j = choose|j: int| 0 <= j < n && old_sorted[i] == #[trigger] entries@[j];
                    assert(sorted@[i] == entries@[j]);
                } else if i == p {
                    assert(sorted@[i] == entries@[n as int]);
                } else {
                    assert(sorted@[i] == old_sorted[i - 1]);
                    let j = choose|j: int| 0 <= j < n && old_sorted[i - 1] == #[trigger] entries@[j];
                    assert(sorted@[i] == entries@[j]);
                }
            }
            assert forall|i: int, j: int| 0 <= i < j < sorted@.len() implies sorted@[i].1 >= sorted@[j].1 by {
                if j < p {
                } else if j == p {
                    assert(sorted@[i] == old_sorted[i]);
                } else if i < p {
                    assert(sorted@[j] == old_sorted[j - 1]);
                    if j - 1 >= p {
                        if (p as int) < old_sorted.len() {
                            assert(old_sorted[p as int].1 < x.1);
                        }
                    }
                } else if i == p {
                    assert(sorted@[j] == old_sorted[j - 1]);
                    assert(old_sorted[p as int].1 < x.1);
                } else {
                    assert(sorted@[i] == old_sorted[i - 1]);
                    assert(sorted@[j] == old_sorted[j - 1]);
                }
            }
            assert forall|i: int, j: int| 0 <= i < j < sorted@.len() implies sorted@[i].0 != sorted@[j].0 by {
                if j < p {
                } else if j == p {
                    assert(sorted@[i] == old_sorted[i]);
                } else if i < p {
                    assert(sorted@[j] == old_sorted[j - 1]);
                } else if i == p {
                    assert(sorted@[j] == old_sorted[j - 1]);
                } else {
                    assert(sorted@[i] == old_sorted[i - 1]);
                    assert(sorted@[j] == old_sorted[j - 1]);
                }
            }
        }
        n = n + 1;
    }
    proof {
        assert forall|i: int| 0 <= i < sorted@.len() implies scores@.contains_key(#[trigger] sorted@[i].0)
            && scores@[sorted@[i].0] == sorted@[i].1 by {
            let j = choose|j: int| 0 <= j < n && sorted@[i] == #[trigger] entries@[j];
            assert(scores@.contains_key(entries@[j].0));
        }
    }
    sorted
}

/// The quiz leaderboard: the ten players with most wins, numbered.
pub fn leaderboard_embed(scores: &HashMap<u64, u32>, guild_color: Option<u32>) -> (e: Embed)
    ensures
        exists|r: Seq<(u64, u32)>| is_ranking(r, scores@) && e@ == leaderboard_embed_spec(r, guild_color),
{
    let ranked = rank_scores(scores);
    let mut e = Embed::new();
    e.title = Some(owned("Quiz Leaderboard"));
    e.colour = Some(get_color(guild_color, 0xFFA500));
    if ranked.len() == 0 {
        e.description = Some(owned("No scores yet. Play with `/quiz`!"));
    } else {
        let n: usize = if ranked.len() <= 10 { ranked.len() } else { 10 };
        let ghost shown = if ranked@.len() <= 10 { ranked@ } else { ranked@.take(10) };
        assert(shown == ranked@.take(n as int));
        let mut lines: Vec<String> = Vec::new();
        let mut i: usize = 0;
        while i < n
            invariant
                i <= n <= ranked@.len(),
                n <= 10,
                shown == ranked@.take(n as int),
                views(lines@) == Seq::new(i as nat, |k: int| place_line(k, shown[k])),
            decreases n - i,
        {
            let (id, wins) = ranked[i];
            let mut l = u64_to_string((i + 1) as u64);
            l.append(". <@");
            let a = u64_to_string(id);
            l.append(a.as_str());
            l.append("> — **");
            let b = u64_to_string(wins as u64);
            l.append(b.as_str());
            l.append("** wins");
            let ghost before = lines@;
            lines.push(l);
            proof {
                assert(views(lines@) == views(before).push(l@));
                assert(l@ == place_line(i as int, shown[i as int]));
                assert(views(lines@) =~= Seq::new((i + 1) as nat, |k: int| place_line(k, shown[k])));
            }
            i = i + 1;
        }
        assert(views(lines@) =~= place_lines(ranked@));
        e.description = Some(join_strings(&lines, "\n"));
    }
    assert(is_ranking(ranked@, scores@) && e@ == leaderboard_embed_spec(ranked@, guild_color));
    e
}

} // verus!
