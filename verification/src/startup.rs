//! The startup banner's list of registered commands.

use vstd::prelude::*;
use crate::text::{join, lemma_join_push, owned, views};

verus! {

/// A text's length in bytes of UTF-8, as `str::len` reports it.
pub open spec fn byte_len(s: Seq<char>) -> int {
    (vstd::utf8::encode_utf8(s).len() as usize) as int
}

/// Widest line of the command list, in bytes.
pub const MAX_LINE: usize = 42;

/// The finished lines and the line being filled after the loop of
/// `format_commands` has read `cmds`.
spec fn layout(cmds: Seq<Seq<char>>) -> (Seq<Seq<char>>, Seq<char>)
    decreases cmds.len(),
{
    if cmds.len() == 0 {
        (seq![], seq![])
    } else {
        let (lines, current) = layout(cmds.drop_last());
        let token = seq!['/'] + cmds.last();
        let (lines2, current2) = if current.len() != 0 && byte_len(current) + 2 + byte_len(token)
            > MAX_LINE {
            (lines.push(current), Seq::<char>::empty())
        } else {
            (lines, current)
        };
        let current3 = if current2.len() != 0 { current2 + "  "@ } else { current2 };
        (lines2, current3 + token)
    }
}

/// What `format_commands` returns after its loop: the finished lines, then
/// the last one if it holds anything.
spec fn format_commands_spec(cmds: Seq<Seq<char>>) -> Seq<Seq<char>> {
    let (lines, current) = layout(cmds);
    if current.len() != 0 { lines.push(current) } else { lines }
}

/// A command as the list shows it.
pub open spec fn token(c: Seq<char>) -> Seq<char> {
    seq!['/'] + c
}

/// A line holding the commands of `g`: their tokens, two spaces apart.
pub open spec fn line_of(g: Seq<Seq<char>>) -> Seq<char> {
    join(g.map_values(|c: Seq<char>| token(c)), "  "@)
}

/// Whether command `c` still fits on line `l`: the line, two spaces and
/// the token come to at most 42 bytes.
pub open spec fn fits_after(l: Seq<char>, c: Seq<char>) -> bool {
    byte_len(l) + 2 + byte_len(token(c)) <= MAX_LINE
}

/// A line's commands, packed: at least one, and each after the first fits
/// after the ones before it.
pub open spec fn packed(g: Seq<Seq<char>>) -> bool {
    &&& g.len() > 0
    &&& forall|j: int| 1 <= j < g.len() ==> fits_after(line_of(g.take(j)), #[trigger] g[j])
}

/// The commands of all lines, one line after another.
pub open spec fn concat(g: Seq<Seq<Seq<char>>>) -> Seq<Seq<char>>
    decreases g.len(),
{
    if g.len() == 0 {
        seq![]
    } else {
        concat(g.drop_last()) + g.last()
    }
}

/// `lines` lays `cmds` out greedily, line `k` holding the commands
/// `groups[k]`: together the lines hold every command once, in order; each
/// line takes commands while they fit; and each line after the first
/// starts with a command that did not fit on the line before.
pub open spec fn greedy_lines(
    cmds: Seq<Seq<char>>,
    lines: Seq<Seq<char>>,
    groups: Seq<Seq<Seq<char>>>,
) -> bool {
    &&& groups.len() == lines.len()
    &&& concat(groups) == cmds
    &&& forall|k: int| 0 <= k < groups.len() ==> packed(#[trigger] groups[k])
    &&& forall|k: int| 0 <= k < groups.len() ==> #[trigger] lines[k] == line_of(groups[k])
    &&& forall|k: int| 0 <= k < groups.len() - 1 ==> !fits_after(#[trigger] lines[k], groups[k + 1][0])
}

proof fn lemma_line_of_push(g: Seq<Seq<char>>, c: Seq<char>)
    requires
        g.len() > 0,
    ensures
        line_of(g.push(c)) == line_of(g) + "  "@ + token(c),
{
    let f = |x: Seq<char>| token(x);
    assert(g.push(c).map_values(f) == g.map_values(f).push(token(c)));
    lemma_join_push(g.map_values(f), token(c), "  "@);
}

proof fn lemma_line_of_one(c: Seq<char>)
    ensures
        line_of(seq![c]) == token(c),
{
    let f = |x: Seq<char>| token(x);
    assert(seq![c].map_values(f) == seq![token(c)]);
}

proof fn lemma_concat_push(g: Seq<Seq<Seq<char>>>, h: Seq<Seq<char>>)
    ensures
        concat(g.push(h)) == concat(g) + h,
{
    assert(g.push(h).drop_last() == g);
}

/// The grouping behind `layout(cmds)`: the commands of each finished line,
/// and those of the line being filled.
proof fn lemma_layout_groups(cmds: Seq<Seq<char>>) -> (r: (Seq<Seq<Seq<char>>>, Seq<Seq<char>>))
    ensures
        r.0.len() == layout(cmds).0.len(),
        concat(r.0) + r.1 == cmds,
        cmds.len() == 0 ==> r.0.len() == 0 && r.1.len() == 0 && layout(cmds).1.len() == 0,
        cmds.len() > 0 ==> packed(r.1) && layout(cmds).1 == line_of(r.1),
        forall|k: int| 0 <= k < r.0.len() ==> packed(#[trigger] r.0[k]),
        forall|k: int| 0 <= k < r.0.len() ==> #[trigger] layout(cmds).0[k] == line_of(r.0[k]),
        forall|k: int| 0 <= k < r.0.len() - 1 ==> !fits_after(#[trigger] layout(cmds).0[k], r.0[k + 1][0]),
        r.0.len() > 0 && cmds.len() > 0 ==> !fits_after(layout(cmds).0.last(), r.1[0]),
    decreases cmds.len(),
{
    if cmds.len() == 0 {
        (seq![], seq![])
    } else {
        let pre = cmds.drop_last();
        let c = cmds.last();
        let (g, cur) = lemma_layout_groups(pre);
        let (lines, current) = layout(pre);
        let tok = seq!['/'] + c;
        assert(tok == token(c));
        lemma_line_of_one(c);
        assert(pre.push(c) == cmds);
        if pre.len() == 0 {
            assert(layout(cmds).0 == lines);
            assert(seq![c] == cmds);
            assert(concat(g) == Seq::<Seq<char>>::empty());
            assert(concat(g) + seq![c] == seq![c]);
            assert(current + tok == tok);
            assert(packed(seq![c]));
            (g, seq![c])
        } else {
            lemma_line_of_nonempty(cur);
            assert(current.len() != 0);
            if byte_len(current) + 2 + byte_len(tok) > MAX_LINE {
                let g2 = g.push(cur);
                lemma_concat_push(g, cur);
                assert(layout(cmds).0 == lines.push(current));
                assert(layout(cmds).1 == Seq::<char>::empty() + tok);
                assert(Seq::<char>::empty() + tok == tok);
                assert(concat(g2) + seq![c] == concat(g) + cur + seq![c]);
                assert(concat(g) + cur + seq![c] == (concat(g) + cur).push(c));
                assert(packed(seq![c]));
                assert forall|k: int| 0 <= k < g2.len() implies packed(#[trigger] g2[k]) by {
                    if k < g.len() {
                        assert(g2[k] == g[k]);
                    }
                }
                assert forall|k: int| 0 <= k < g2.len() implies #[trigger] layout(cmds).0[k] == line_of(g2[k]) by {
                    if k < g.len() {
                        assert(g2[k] == g[k]);
                    }
                }
                assert forall|k: int| 0 <= k < g2.len() - 1 implies !fits_after(#[trigger] layout(cmds).0[k], g2[k + 1][0]) by {
                    if k < g.len() - 1 {
                        assert(g2[k] == g[k] && g2[k + 1] == g[k + 1]);
                    } else {
                        assert(g2[k + 1] == cur);
                        assert(layout(cmds).0[k] == lines.last());
                    }
                }
                assert(seq![c][0] == c);
                (g2, seq![c])
            } else {
                let cur2 = cur.push(c);
                lemma_line_of_push(cur, c);
                assert(layout(cmds).0 == lines);
                assert(layout(cmds).1 == current + "  "@ + tok);
                assert(concat(g) + cur2 == (concat(g) + cur).push(c));
                assert(cur2.take(cur.len() as int) == cur);
                assert forall|j: int| 1 <= j < cur2.len() implies fits_after(line_of(cur2.take(j)), #[trigger] cur2[j]) by {
                    if j < cur.len() {
                        assert(cur2.take(j) == cur.take(j));
                        assert(cur2[j] == cur[j]);
                    } else {
                        assert(cur2[j] == c);
                    }
                }
                assert(cur2[0] == cur[0]);
                (g, cur2)
            }
        }
    }
}

proof fn lemma_join_nonempty_last(list: Seq<Seq<char>>, sep: Seq<char>)
    requires
        list.len() > 0,
        list.last().len() > 0,
    ensures
        join(list, sep).len() > 0,
{
}

proof fn lemma_line_of_nonempty(g: Seq<Seq<char>>)
    requires
        g.len() > 0,
    ensures
        line_of(g).len() > 0,
{
    let f = |x: Seq<char>| token(x);
    let m = g.map_values(f);
    assert(m.last() == token(g.last()));
    lemma_join_nonempty_last(m, "  "@);
}

/// The grouping behind what `format_commands` returns.
proof fn lemma_format_groups(cmds: Seq<Seq<char>>) -> (g: Seq<Seq<Seq<char>>>)
    ensures
        greedy_lines(cmds, format_commands_spec(cmds), g),
{
    let (g, cur) = lemma_layout_groups(cmds);
    let (lines, current) = layout(cmds);
    if cmds.len() == 0 {
        assert(concat(g) == cmds);
        g
    } else {
        lemma_line_of_nonempty(cur);
        let g2 = g.push(cur);
        lemma_concat_push(g, cur);
        let out = lines.push(current);
        assert(format_commands_spec(cmds) == out);
        assert forall|k: int| 0 <= k < g2.len() implies packed(#[trigger] g2[k]) by {
            if k < g.len() {
                assert(g2[k] == g[k]);
            }
        }
        assert forall|k: int| 0 <= k < g2.len() implies #[trigger] out[k] == line_of(g2[k]) by {
            if k < g.len() {
                assert(g2[k] == g[k]);
            }
        }
        assert forall|k: int| 0 <= k < g2.len() - 1 implies !fits_after(#[trigger] out[k], g2[k + 1][0]) by {
            if k < g.len() - 1 {
                assert(g2[k] == g[k] && g2[k + 1] == g[k + 1]);
            } else {
                assert(g2[k + 1] == cur);
                assert(out[k] == lines.last());
            }
        }
        g2
    }
}

proof fn lemma_concat_member(g: Seq<Seq<Seq<char>>>, k: int, j: int)
    requires
        0 <= k < g.len(),
        0 <= j < g[k].len(),
    ensures
        exists|i: int| 0 <= i < concat(g).len() && #[trigger] concat(g)[i] == g[k][j],
    decreases g.len(),
{
    let pre = g.drop_last();
    if k == g.len() - 1 {
        let i = concat(pre).len() + j;
        assert(concat(g)[i] == g[k][j]);
    } else {
        assert(pre[k] == g[k]);
        lemma_concat_member(pre, k, j);
        let i = choose|i: int| 0 <= i < concat(pre).len() && #[trigger] concat(pre)[i] == pre[k][j];
        assert(concat(g)[i] == concat(pre)[i]);
    }
}

proof fn lemma_token_len(c: Seq<char>)
    ensures
        vstd::utf8::encode_utf8(token(c)).len() == vstd::utf8::encode_utf8(c).len() + 1,
{
    lemma_encode_append(seq!['/'], c);
    assert(vstd::utf8::encode_utf8(seq!['/']).len() == 1) by {
        assert(vstd::utf8::is_ascii_chars(seq!['/']));
        vstd::utf8::is_ascii_chars_encode_utf8(seq!['/']);
    }
}

proof fn lemma_packed_prefix_short(h: Seq<Seq<char>>, j: int)
    requires
        packed(h),
        forall|i: int| 0 <= i < h.len() ==> vstd::utf8::encode_utf8(#[trigger] h[i]).len() < usize::MAX - 64,
        2 <= j <= h.len(),
    ensures
        vstd::utf8::encode_utf8(line_of(h.take(j))).len() <= MAX_LINE,
    decreases j,
{
    let p = h.take(j - 1);
    let c = h[j - 1];
    assert(h.take(j) == p.push(c));
    lemma_line_of_push(p, c);
    assert(h.take(j - 1) == p);
    assert(fits_after(line_of(p), c));
    let l = line_of(p);
    lemma_token_len(c);
    if j - 1 == 1 {
        assert(p == seq![h[0]]);
        lemma_line_of_one(h[0]);
        lemma_token_len(h[0]);
    } else {
        lemma_packed_prefix_short(h, j - 1);
    }
    reveal_strlit("  ");
    lemma_encode_append(l + "  "@, token(c));
    lemma_encode_append(l, "  "@);
    assert(vstd::utf8::encode_utf8("  "@).len() == 2) by {
        assert(vstd::utf8::is_ascii_chars("  "@));
        vstd::utf8::is_ascii_chars_encode_utf8("  "@);
    }
}

/// A line of the command list is short enough, or is one command alone.
pub open spec fn fits_line(l: Seq<char>, cmds: Seq<Seq<char>>) -> bool {
    vstd::utf8::encode_utf8(l).len() <= MAX_LINE || exists|c: int| 0 <= c < cmds.len() && l == seq!['/'] + #[trigger] cmds[c]
}

proof fn lemma_encode_append(a: Seq<char>, b: Seq<char>)
    ensures
        vstd::utf8::encode_utf8(a + b) == vstd::utf8::encode_utf8(a) + vstd::utf8::encode_utf8(b),
    decreases a.len(),
{
    if a.len() == 0 {
        assert(a + b == b);
    } else {
        lemma_encode_append(a.drop_first(), b);
        assert((a + b).drop_first() == a.drop_first() + b);
        assert((a + b)[0] == a[0]);
    }
}

/// Every line of the command list is at most 42 bytes long, unless it
/// holds a single command whose name alone is longer (for names that fit
/// in memory).
pub proof fn command_lines_fit(
    cmds: Seq<Seq<char>>,
    lines: Seq<Seq<char>>,
    groups: Seq<Seq<Seq<char>>>,
)
    requires
        greedy_lines(cmds, lines, groups),
        forall|c: int| 0 <= c < cmds.len() ==> vstd::utf8::encode_utf8(#[trigger] cmds[c]).len() < usize::MAX - 64,
    ensures
        forall|k: int| 0 <= k < lines.len() ==> fits_line(#[trigger] lines[k], cmds),
{
    assert forall|k: int| 0 <= k < lines.len() implies fits_line(#[trigger] lines[k], cmds) by {
        let h = groups[k];
        assert(packed(h));
        assert(lines[k] == line_of(h));
        if h.len() == 1 {
            lemma_concat_member(groups, k, 0);
            let i = choose|i: int| 0 <= i < concat(groups).len() && #[trigger] concat(groups)[i] == groups[k][0];
            assert(h == seq![h[0]]);
            lemma_line_of_one(h[0]);
            assert(lines[k] == seq!['/'] + cmds[i]);
        } else {
            assert forall|j: int| 0 <= j < h.len() implies vstd::utf8::encode_utf8(#[trigger] h[j]).len() < usize::MAX - 64 by {
                lemma_concat_member(groups, k, j);
                let i = choose|i: int| 0 <= i < concat(groups).len() && #[trigger] concat(groups)[i] == groups[k][j];
                assert(cmds[i] == h[j]);
            }
            lemma_packed_prefix_short(h, h.len() as int);
            assert(h.take(h.len() as int) == h);
        }
    }
}

/// Lays the command names out as "/name" tokens in lines of at most 42
/// bytes (a single longer token gets a line of its own).
pub fn format_commands(commands: &[String]) -> (lines: Vec<String>)
    ensures
        exists|g: Seq<Seq<Seq<char>>>| greedy_lines(views(commands@), views(lines@), g),
{
    let mut lines: Vec<String> = Vec::new();
    let mut current = String::new();
    let mut i: usize = 0;
    while i < commands.len()
        invariant
            i <= commands@.len(),
            (views(lines@), current@) == layout(views(commands@.take(i as int))),
        decreases commands.len() - i,
    {
        proof {
            assert(views(commands@.take(i + 1)).drop_last() == views(commands@.take(i as int)));
            assert(views(commands@.take(i + 1)).last() == commands@[i as int]@);
        }
        let mut token = owned("/");
        proof {
            reveal_strlit("/");
        }
        token.append(commands[i].as_str());
        assert(token@ == seq!['/'] + commands@[i as int]@);
        let cur_len = current.as_str().len();
        let tok_len = token.as_str().len();
        if !current.as_str().is_empty() && (cur_len as u128) + 2 + (tok_len as u128) > MAX_LINE as u128 {
            let ghost before = lines@;
            lines.push(current);
            assert(views(lines@) == views(before).push(current@));
            current = String::new();
        }
        if !current.as_str().is_empty() {
            current.append("  ");
        }
        current.append(token.as_str());
        i = i + 1;
    }
    assert(commands@.take(commands@.len() as int) == commands@);
    if !current.as_str().is_empty() {
        let ghost before = lines@;
        lines.push(current);
        assert(views(lines@) == views(before).push(current@));
    }
    proof {
        let g = lemma_format_groups(views(commands@));
        assert(greedy_lines(views(commands@), views(lines@), g));
    }
    lines
}

} // verus!
