//! The anime quiz: picking a page by difficulty, judging guesses, hints,
//! how a round changes players' streaks, and the quiz's messages.

use vstd::prelude::*;
use crate::anilist::scrambled;
use crate::clock::clock_seed;
use crate::embed::{blank, Embed, EmbedView};
use crate::models::{preferred_title, Media};
use crate::text::{contains, dec, join, join_strings, lowercase, occurs_in, owned, to_lowercase, u64_to_string, views};

verus! {

/// How hard the quiz is: how deep into AniList's popularity ranking the
/// title is drawn from.
#[derive(Clone, Copy, Debug, PartialEq, Eq, Structural)]
pub enum QuizDifficulty {
    Easy,
    Medium,
    Hard,
}

/// The first and last page a difficulty draws from.
pub open spec fn difficulty_range(d: QuizDifficulty) -> (u32, u32) {
    match d {
        QuizDifficulty::Easy => (1, 500),
        QuizDifficulty::Medium => (501, 2000),
        QuizDifficulty::Hard => (2001, 5000),
    }
}

/// The page a clock reading picks for a difficulty: the scrambled reading
/// reduced into the difficulty's range.
pub open spec fn difficulty_page_spec(d: QuizDifficulty, secs: u64, nanos: u32) -> u32 {
    let (min, max) = difficulty_range(d);
    let range = (max - min + 1) as u32;
    (min + (scrambled(secs, nanos) % (range as u64)) as u32) as u32
}

/// The page a clock reading picks for a difficulty.
pub fn difficulty_page(d: QuizDifficulty, secs: u64, nanos: u32) -> (p: u32)
    ensures
        p == difficulty_page_spec(d, secs, nanos),
        difficulty_range(d).0 <= p <= difficulty_range(d).1,
{
    let (min, max): (u32, u32) = match d {
        QuizDifficulty::Easy => (1, 500),
        QuizDifficulty::Medium => (501, 2000),
        QuizDifficulty::Hard => (2001, 5000),
    };
    let range = max - min + 1;
    let x = crate::anilist::page_seed_bits(secs, nanos);
    min + ((x % range as u64) as u32)
}

impl QuizDifficulty {
    /// A page in this difficulty's range, picked by the current time.
    pub fn get_rand_page(&self) -> (p: u32)
        ensures
            exists|secs: u64, nanos: u32|
                nanos < 1_000_000_000 && p == difficulty_page_spec(*self, secs, nanos),
            difficulty_range(*self).0 <= p <= difficulty_range(*self).1,
    {
        let (secs, nanos) = clock_seed();
        let p = difficulty_page(*self, secs, nanos);
        assert(nanos < 1_000_000_000 && p == difficulty_page_spec(*self, secs, nanos));
        p
    }
}

// ─── Guesses ─────────────────────────────────────────────────────────────────

/// A lower-cased guess matches a lower-cased title when it is longer than
/// three bytes of UTF-8 and one of the two contains the other.
pub open spec fn guess_matches_spec(title: Seq<char>, guess: Seq<char>) -> bool {
    &&& vstd::utf8::encode_utf8(guess).len() as usize > 3
    &&& (occurs_in(title, guess) || occurs_in(guess, title))
}

/// Whether a lower-cased guess matches a lower-cased title.
pub fn lowered_guess_matches(title_lower: &str, guess_lower: &str) -> (b: bool)
    ensures
        b == guess_matches_spec(title_lower@, guess_lower@),
{
    guess_lower.len() > 3 && (contains(title_lower, guess_lower) || contains(guess_lower, title_lower))
}

/// Whether a chat message guesses the title, ignoring case.
pub fn guess_matches(title: &str, message: &str) -> (b: bool)
    ensures
        b == guess_matches_spec(lowercase(title@), lowercase(message@)),
{
    let t = to_lowercase(title);
    let g = to_lowercase(message);
    let b = lowered_guess_matches(t.as_str(), g.as_str());
    b
}

// ─── Hints ───────────────────────────────────────────────────────────────────

/// The genres of a title, or "Unknown" when it has none.
pub open spec fn hint_genres(m: Media) -> Seq<char> {
    let g = join(views(m.genres@), ", "@);
    if g.len() == 0 { "Unknown"@ } else { g }
}

/// The hint after `elapsed` seconds: none before 15 seconds, the genres
/// before 20, genres and year from then on.
pub open spec fn hint_text_spec(elapsed: nat, m: Media) -> Seq<char> {
    if elapsed < 15 {
        "Wait a bit longer for a hint (15s minimum for Genre, 20s for Year)."@
    } else if elapsed < 20 {
        "Hint (Genre): "@ + hint_genres(m)
    } else {
        "Hint (Genre & Year): "@ + hint_genres(m) + " | "@ + match m.season_year {
            Some(y) => dec(y as nat),
            None => "Unknown"@,
        }
    }
}

/// The hint shown `elapsed` seconds into a round.
pub fn hint_text(elapsed: u64, media: &Media) -> (s: String)
    ensures
        s@ == hint_text_spec(elapsed as nat, *media),
{
    if elapsed < 15 {
        return owned("Wait a bit longer for a hint (15s minimum for Genre, 20s for Year).");
    }
    let joined = join_strings(&media.genres, ", ");
    let genres = if joined.as_str().is_empty() { owned("Unknown") } else { joined };
    if elapsed < 20 {
        let mut s = owned("Hint (Genre): ");
        s.append(genres.as_str());
        s
    } else {
        let mut s = owned("Hint (Genre & Year): ");
        s.append(genres.as_str());
        s.append(" | ");
        match media.season_year {
            Some(y) => {
                let t = u64_to_string(y as u64);
                s.append(t.as_str());
            },
            None => s.append("Unknown"),
        }
        s
    }
}

// ─── End of a round ──────────────────────────────────────────────────────────

/// The players other than the winner, in order, each with a broken streak.
pub open spec fn loser_updates(participants: Seq<u64>, winner: Option<u64>) -> Seq<(u64, bool)>
    decreases participants.len(),
{
    if participants.len() == 0 {
        seq![]
    } else {
        let prev = loser_updates(participants.drop_last(), winner);
        if winner == Some(participants.last()) {
            prev
        } else {
            prev.push((participants.last(), true))
        }
    }
}

/// The score updates at the end of a round, as (player, streak broken): the
/// winner, if any, first with an unbroken streak, then every other player
/// with a broken one, in the order they joined.
pub open spec fn round_updates_spec(participants: Seq<u64>, winner: Option<u64>) -> Seq<(u64, bool)> {
    match winner {
        Some(w) => seq![(w, false)] + loser_updates(participants, winner),
        None => loser_updates(participants, winner),
    }
}

/// The score updates at the end of a round.
pub fn round_updates(participants: &Vec<u64>, winner: Option<u64>) -> (r: Vec<(u64, bool)>)
    ensures
        r@ == round_updates_spec(participants@, winner),
{
    let mut r: Vec<(u64, bool)> = Vec::new();
    match winner {
        Some(w) => r.push((w, false)),
        None => {},
    }
    let ghost head = r@;
    let mut i: usize = 0;
    while i < participants.len()
        invariant
            i <= participants@.len(),
            r@ == head + loser_updates(participants@.take(i as int), winner),
        decreases participants.len() - i,
    {
        let p = participants[i];
        proof {
            assert(participants@.take(i + 1).drop_last() == participants@.take(i as int));
        }
        let is_winner = match winner {
            Some(w) => w == p,
            None => false,
        };
        if !is_winner {
            r.push((p, true));
        }
        i = i + 1;
    }
    assert(participants@.take(participants@.len() as int) == participants@);
    r
}

// ─── A round, step by step ───────────────────────────────────────────────────

/// What happens during a round.
pub enum QuizEvent {
    /// Someone wrote in the channel.
    Message { author: u64, is_bot: bool, content: String },
    /// The reveal button was pressed.
    Reveal,
    /// The hint button was pressed, `elapsed_secs` into the round.
    Hint { elapsed_secs: u64 },
    /// The round's time ran out.
    TimedOut,
}

/// What the bot does about it. The round ends with `Win`, `Revealed` and
/// `TimeUp`, each carrying the score updates as (player, streak broken).
pub enum QuizAction {
    Nothing,
    Win { winner: u64, updates: Vec<(u64, bool)> },
    Revealed { updates: Vec<(u64, bool)> },
    Hint(String),
    TimeUp { updates: Vec<(u64, bool)> },
}

/// The players after `p` writes: `p` joins once.
pub open spec fn joined(ps: Seq<u64>, p: u64) -> Seq<u64> {
    if ps.contains(p) { ps } else { ps.push(p) }
}

/// The next step of a round for `title`'s `media`: a player's message joins
/// them and wins when it matches the title; the buttons reveal the answer or
/// give a hint; time running out ends the round; the bot's own messages are
/// ignored.
pub fn quiz_step(participants: &mut Vec<u64>, title: &str, media: &Media, event: QuizEvent) -> (a: QuizAction)
    ensures
        match event {
            QuizEvent::Message { author, is_bot, content } => if is_bot {
                &&& final(participants)@ == old(participants)@
                &&& a is Nothing
            } else {
                &&& final(participants)@ == joined(old(participants)@, author)
                &&& if guess_matches_spec(lowercase(title@), lowercase(content@)) {
                    a matches QuizAction::Win { winner, updates } && winner == author
                        && updates@ == round_updates_spec(final(participants)@, Some(author))
                } else {
                    a is Nothing
                }
            },
            QuizEvent::Reveal => {
                &&& final(participants)@ == old(participants)@
                &&& a matches QuizAction::Revealed { updates } && updates@ == round_updates_spec(
                    old(participants)@,
                    None,
                )
            },
            QuizEvent::Hint { elapsed_secs } => {
                &&& final(participants)@ == old(participants)@
                &&& a matches QuizAction::Hint(h) && h@ == hint_text_spec(elapsed_secs as nat, *media)
            },
            QuizEvent::TimedOut => {
                &&& final(participants)@ == old(participants)@
                &&& a matches QuizAction::TimeUp { updates } && updates@ == round_updates_spec(
                    old(participants)@,
                    None,
                )
            },
        },
{
    match event {
        QuizEvent::Message { author, is_bot, content } => {
            if is_bot {
                return QuizAction::Nothing;
            }
            let mut i: usize = 0;
            let mut present = false;
            while i < participants.len()
                invariant
                    i <= participants@.len(),
                    present <==> exists|k: int| 0 <= k < i && participants@[k] == author,
                decreases participants.len() - i,
            {
                if participants[i] == author {
                    present = true;
                }
                i = i + 1;
            }
            if !present {
                participants.push(author);
                assert(!old(participants)@.contains(author));
            } else {
                assert(old(participants)@.contains(author));
            }
            if guess_matches(title, content.as_str()) {
                let updates = round_updates(participants, Some(author));
                QuizAction::Win { winner: author, updates }
            } else {
                QuizAction::Nothing
            }
        },
        QuizEvent::Reveal => QuizAction::Revealed { updates: round_updates(participants, None) },
        QuizEvent::Hint { elapsed_secs } => QuizAction::Hint(hint_text(elapsed_secs, media)),
        QuizEvent::TimedOut => QuizAction::TimeUp { updates: round_updates(participants, None) },
    }
}

/// A player joins a round at most once.
pub proof fn joining_keeps_players_distinct(ps: Seq<u64>, p: u64)
    requires
        ps.no_duplicates(),
    ensures
        joined(ps, p).no_duplicates(),
        joined(ps, p).contains(p),
{
    if !ps.contains(p) {
        assert forall|i: int, j: int| 0 <= i < j < ps.push(p).len() implies ps.push(p)[i] != ps.push(p)[j] by {
            if j == ps.len() {
                assert(ps.push(p)[i] == ps[i]);
            }
        }
        assert(ps.push(p)[ps.len() as int] == p);
    }
}

proof fn lemma_losers(ps: Seq<u64>, w: Option<u64>)
    requires
        ps.no_duplicates(),
    ensures
        forall|i: int| 0 <= i < loser_updates(ps, w).len() ==> {
            &&& (#[trigger] loser_updates(ps, w)[i]).1
            &&& ps.contains(loser_updates(ps, w)[i].0)
            &&& w != Some(loser_updates(ps, w)[i].0)
        },
        forall|i: int, j: int| 0 <= i < j < loser_updates(ps, w).len() ==>
            loser_updates(ps, w)[i].0 != loser_updates(ps, w)[j].0,
        forall|p: u64| ps.contains(p) && w != Some(p) ==>
            exists|i: int| 0 <= i < loser_updates(ps, w).len() && (#[trigger] loser_updates(ps, w)[i]).0 == p,
        loser_updates(ps, w).len() == if (w matches Some(x) && ps.contains(x)) { ps.len() - 1 } else { ps.len() as int },
    decreases ps.len(),
{
    if ps.len() > 0 {
        let pre = ps.drop_last();
        let q = ps.last();
        assert(pre.no_duplicates()) by {
            assert forall|i: int, j: int| 0 <= i < j < pre.len() implies pre[i] != pre[j] by {
                assert(pre[i] == ps[i] && pre[j] == ps[j]);
            }
        }
        lemma_losers(pre, w);
        let lp = loser_updates(pre, w);
        let l = loser_updates(ps, w);
        assert(!pre.contains(q)) by {
            if pre.contains(q) {
                let k = choose|k: int| 0 <= k < pre.len() && pre[k] == q;
                assert(ps[k] == ps[ps.len() - 1]);
            }
        }
        assert forall|x: u64| ps.contains(x) <==> pre.contains(x) || x == q by {
            if ps.contains(x) && x != q {
                let k = choose|k: int| 0 <= k < ps.len() && ps[k] == x;
                assert(k < ps.len() - 1);
                assert(pre[k] == x);
            }
            if pre.contains(x) {
                let k = choose|k: int| 0 <= k < pre.len() && pre[k] == x;
                assert(ps[k] == x);
            }
            if x == q {
                assert(ps[ps.len() - 1] == q);
            }
        }
        if w == Some(q) {
            assert(l == lp);
        } else {
            assert(l == lp.push((q, true)));
            assert forall|p: u64| ps.contains(p) && w != Some(p) implies
                exists|i: int| 0 <= i < l.len() && (#[trigger] l[i]).0 == p by {
                if p == q {
                    assert(l[l.len() - 1].0 == p);
                } else {
                    let i = choose|i: int| 0 <= i < lp.len() && (#[trigger] lp[i]).0 == p;
                    assert(l[i] == lp[i]);
                }
            }
            assert forall|i: int, j: int| 0 <= i < j < l.len() implies l[i].0 != l[j].0 by {
                if j == l.len() - 1 {
                    assert(l[i] == lp[i]);
                    assert(pre.contains(lp[i].0));
                }
            }
        }
    }
}

/// At the end of a round every player is scored once: the winner with an
/// unbroken streak, everyone else with a broken one.
pub proof fn every_player_scored_once(ps: Seq<u64>, w: Option<u64>)
    requires
        ps.no_duplicates(),
        w matches Some(x) ==> ps.contains(x),
    ensures
        round_updates_spec(ps, w).len() == ps.len(),
        forall|i: int, j: int| 0 <= i < j < round_updates_spec(ps, w).len() ==>
            round_updates_spec(ps, w)[i].0 != round_updates_spec(ps, w)[j].0,
        forall|p: u64| ps.contains(p) ==> exists|i: int|
            0 <= i < round_updates_spec(ps, w).len() && (#[trigger] round_updates_spec(ps, w)[i]).0 == p
                && round_updates_spec(ps, w)[i].1 == (w != Some(p)),
{
    lemma_losers(ps, w);
    let l = loser_updates(ps, w);
    let r = round_updates_spec(ps, w);
    match w {
        Some(x) => {
            assert(r == seq![(x, false)] + l);
            assert forall|i: int, j: int| 0 <= i < j < r.len() implies r[i].0 != r[j].0 by {
                if i == 0 {
                    assert(r[j] == l[j - 1]);
                } else {
                    assert(r[i] == l[i - 1] && r[j] == l[j - 1]);
                }
            }
            assert forall|p: u64| ps.contains(p) implies exists|i: int|
                0 <= i < r.len() && (#[trigger] r[i]).0 == p && r[i].1 == (w != Some(p)) by {
                if p == x {
                    assert(r[0].0 == p);
                } else {
                    let i = choose|i: int| 0 <= i < l.len() && (#[trigger] l[i]).0 == p;
                    assert(r[i + 1] == l[i]);
                }
            }
        },
        None => {
            assert(r == l);
            assert forall|p: u64| ps.contains(p) implies exists|i: int|
                0 <= i < r.len() && (#[trigger] r[i]).0 == p && r[i].1 == (w != Some(p)) by {
                let i = choose|i: int| 0 <= i < l.len() && (#[trigger] l[i]).0 == p;
                assert(l[i].1);
            }
        },
    }
}

// ─── Messages ────────────────────────────────────────────────────────────────

/// The cover picture of a title, or nothing.
pub open spec fn cover_url(m: Media) -> Seq<char> {
    match m.cover_image {
        Some(c) => match c.large {
            Some(u) => u@,
            None => seq![],
        },
        None => seq![],
    }
}

/// The embed that opens a round.
pub open spec fn quiz_embed_spec(m: Media, accent: Option<u32>) -> EmbedView {
    blank().title("Anime Quiz: Guess the Title!"@).description(
        "You have 30 seconds to type the title in chat or click the button to reveal it."@,
    ).image(cover_url(m)).colour(
        match accent {
            Some(c) => c,
            None => 0xFFA500,
        },
    )
}

/// A round's embed shows the title's large cover as its picture whenever
/// the title has one, so the players have something to guess from, and
/// takes the guild's colour (orange when it has none).
pub proof fn quiz_shows_the_cover(m: Media, accent: Option<u32>)
    ensures
        m.cover_image matches Some(c) && c.large is Some ==> quiz_embed_spec(m, accent).image
            == Some(m.cover_image->0.large->0@),
        quiz_embed_spec(m, accent).colour == Some(match accent {
            Some(c) => c,
            None => 0xFFA500u32,
        }),
{
}

/// The embed that opens a round: the cover, the rules and the guild's
/// colour (orange by default).
pub fn quiz_embed(media: &Media, accent_color: Option<u32>) -> (e: Embed)
    ensures
        e@ == quiz_embed_spec(*media, accent_color),
{
    let url = match &media.cover_image {
        Some(c) => match &c.large {
            Some(u) => u.clone(),
            None => String::new(),
        },
        None => String::new(),
    };
    let mut e = Embed::new();
    e.title = Some(owned("Anime Quiz: Guess the Title!"));
    e.description = Some(
        owned("You have 30 seconds to type the title in chat or click the button to reveal it."),
    );
    e.image = Some(url);
    e.colour = Some(
        match accent_color {
            Some(c) => c,
            None => 0xFFA500,
        },
    );
    e
}

/// The embed announcing the winner.
pub open spec fn win_embed_spec(winner: u64, m: Media) -> EmbedView {
    blank().title("Correct!"@).description(
        "<@"@ + dec(winner as nat) + "> guessed it correctly!\n\nThe answer was: **"@
            + preferred_title(m.title) + "**\n[AniList Link]("@ + m.site_url@ + ")"@,
    ).colour(0x00FF00)
}

/// The embed announcing who guessed right and the answer.
pub fn win_embed(winner: u64, media: &Media) -> (e: Embed)
    ensures
        e@ == win_embed_spec(winner, *media),
{
    let mut d = owned("<@");
    let w = u64_to_string(winner);
    d.append(w.as_str());
    d.append("> guessed it correctly!\n\nThe answer was: **");
    d.append(media.title.preferred());
    d.append("**\n[AniList Link](");
    d.append(media.site_url.as_str());
    d.append(")");
    let mut e = Embed::new();
    e.title = Some(owned("Correct!"));
    e.description = Some(d);
    e.colour = Some(0x00FF00);
    e
}

/// The embed revealing the answer.
pub open spec fn reveal_embed_spec(m: Media) -> EmbedView {
    blank().title("Quiz Answer"@).description(
        "The answer was: **"@ + preferred_title(m.title) + "**\n[AniList Link]("@ + m.site_url@
            + ")"@,
    ).colour(0x00FF00)
}

/// The embed revealing the answer with its AniList link.
pub fn reveal_embed(media: &Media) -> (e: Embed)
    ensures
        e@ == reveal_embed_spec(*media),
{
    let mut d = owned("The answer was: **");
    d.append(media.title.preferred());
    d.append("**\n[AniList Link](");
    d.append(media.site_url.as_str());
    d.append(")");
    let mut e = Embed::new();
    e.title = Some(owned("Quiz Answer"));
    e.description = Some(d);
    e.colour = Some(0x00FF00);
    e
}

/// The message when nobody guessed in time.
pub fn times_up_text(media: &Media) -> (s: String)
    ensures
        s@ == "Time's up! The answer was: **"@ + preferred_title(media.title) + "**"@,
{
    let mut s = owned("Time's up! The answer was: **");
    s.append(media.title.preferred());
    s.append("**");
    s
}

} // verus!
