//! The help command: commands grouped by category in alphabetical order,
//! and the page about one command.

use vstd::prelude::*;
use crate::embed::{blank, Embed, EmbedView};
use crate::models::or_default;
use crate::text::{join, join_strings, owned, str_eq, views};

verus! {

/// A subcommand as the help page shows it.
#[derive(Clone, Debug)]
pub struct SubcommandInfo {
    pub name: String,
    pub description: Option<String>,
}

/// A registered command as the help pages show it.
#[derive(Clone, Debug)]
pub struct CommandInfo {
    pub name: String,
    pub description: Option<String>,
    pub category: Option<String>,
    pub subcommands: Vec<SubcommandInfo>,
}

// ─── Ordering of names ───────────────────────────────────────────────────────

/// `a` sorts strictly before `b` character by character (which for UTF-8
/// text is the order of its bytes).
pub open spec fn lex_lt(a: Seq<char>, b: Seq<char>) -> bool
    decreases a.len(),
{
    if a.len() == 0 {
        b.len() > 0
    } else if b.len() == 0 {
        false
    } else if a[0] < b[0] {
        true
    } else if a[0] > b[0] {
        false
    } else {
        lex_lt(a.drop_first(), b.drop_first())
    }
}

proof fn lemma_lex_irreflexive(a: Seq<char>)
    ensures
        !lex_lt(a, a),
    decreases a.len(),
{
    if a.len() > 0 {
        lemma_lex_irreflexive(a.drop_first());
    }
}

proof fn lemma_lex_total(a: Seq<char>, b: Seq<char>)
    requires
        a != b,
    ensures
        lex_lt(a, b) || lex_lt(b, a),
    decreases a.len(),
{
    if a.len() > 0 && b.len() > 0 && a[0] == b[0] {
        if a.drop_first() == b.drop_first() {
            assert(a =~= seq![a[0]] + a.drop_first());
            assert(b =~= seq![b[0]] + b.drop_first());
        }
        lemma_lex_total(a.drop_first(), b.drop_first());
    } else if a.len() == 0 && b.len() == 0 {
        assert(a =~= b);
    }
}

proof fn lemma_lex_trans(a: Seq<char>, b: Seq<char>, c: Seq<char>)
    requires
        lex_lt(a, b),
        lex_lt(b, c),
    ensures
        lex_lt(a, c),
    decreases a.len(),
{
    if a.len() > 0 && b.len() > 0 && c.len() > 0 && a[0] == b[0] && b[0] == c[0] {
        lemma_lex_trans(a.drop_first(), b.drop_first(), c.drop_first());
    }
}

proof fn lemma_lex_asym(a: Seq<char>, b: Seq<char>)
    requires
        lex_lt(a, b),
    ensures
        !lex_lt(b, a),
{
    if lex_lt(b, a) {
        lemma_lex_trans(a, b, a);
        lemma_lex_irreflexive(a);
    }
}

fn chars_lt(a: &Vec<char>, b: &Vec<char>) -> (r: bool)
    ensures
        r == lex_lt(a@, b@),
{
    let mut i: usize = 0;
    assert(a@.skip(0) == a@);
    assert(b@.skip(0) == b@);
    while i < a.len() && i < b.len()
        invariant
            i <= a@.len(),
            i <= b@.len(),
            forall|k: int| 0 <= k < i ==> a@[k] == b@[k],
            lex_lt(a@, b@) == lex_lt(a@.skip(i as int), b@.skip(i as int)),
        decreases a.len() - i,
    {
        if a[i] < b[i] {
            return true;
        }
        if a[i] > b[i] {
            return false;
        }
        assert(a@.skip(i as int).drop_first() == a@.skip(i + 1));
        assert(b@.skip(i as int).drop_first() == b@.skip(i + 1));
        i = i + 1;
    }
    b.len() > i
}

fn str_lt(a: &str, b: &str) -> (r: bool)
    ensures
        r == lex_lt(a@, b@),
{
    let x = crate::text::chars_of(a);
    let y = crate::text::chars_of(b);
    chars_lt(&x, &y)
}

// ─── Grouping ────────────────────────────────────────────────────────────────

/// A command's category, "Other" when it has none.
pub open spec fn category_of(c: CommandInfo) -> Seq<char> {
    or_default(c.category, "Other"@)
}

/// The names of the commands in category `k`, in order.
pub open spec fn names_in(cmds: Seq<CommandInfo>, k: Seq<char>) -> Seq<Seq<char>>
    decreases cmds.len(),
{
    if cmds.len() == 0 {
        seq![]
    } else {
        let prev = names_in(cmds.drop_last(), k);
        if category_of(cmds.last()) == k {
            prev.push(cmds.last().name@)
        } else {
            prev
        }
    }
}

/// A group as (category, names).
pub open spec fn group_view(g: (String, Vec<String>)) -> (Seq<char>, Seq<Seq<char>>) {
    (g.0@, views(g.1@))
}

/// Commands grouped by category: categories in strictly increasing order,
/// exactly the categories the commands have, each with the names of its
/// commands in their order.
pub open spec fn grouped(cmds: Seq<CommandInfo>, groups: Seq<(Seq<char>, Seq<Seq<char>>)>) -> bool {
    &&& forall|i: int, j: int| 0 <= i < j < groups.len() ==> lex_lt(groups[i].0, groups[j].0)
    &&& forall|i: int| 0 <= i < groups.len() ==> #[trigger] groups[i].1 == names_in(cmds, groups[i].0)
    &&& forall|i: int| 0 <= i < groups.len() ==> names_in(cmds, #[trigger] groups[i].0).len() > 0
    &&& forall|c: int| 0 <= c < cmds.len() ==> exists|i: int| 0 <= i < groups.len() && #[trigger] groups[i].0 == category_of(#[trigger] cmds[c])
}

proof fn lemma_names_in_absent(cmds: Seq<CommandInfo>, k: Seq<char>)
    requires
        forall|c: int| 0 <= c < cmds.len() ==> category_of(cmds[c]) != k,
    ensures
        names_in(cmds, k).len() == 0,
    decreases cmds.len(),
{
    if cmds.len() > 0 {
        lemma_names_in_absent(cmds.drop_last(), k);
    }
}

proof fn lemma_names_in_present(cmds: Seq<CommandInfo>, k: Seq<char>)
    requires
        names_in(cmds, k).len() > 0,
    ensures
        exists|c: int| 0 <= c < cmds.len() && category_of(#[trigger] cmds[c]) == k,
{
    if !(exists|c: int| 0 <= c < cmds.len() && category_of(#[trigger] cmds[c]) == k) {
        lemma_names_in_absent(cmds, k);
    }
}

/// Strictly increasing in `lex_lt`.
spec fn strictly_sorted(a: Seq<Seq<char>>) -> bool {
    forall|i: int, j: int| 0 <= i < j < a.len() ==> lex_lt(a[i], a[j])
}

proof fn lemma_sorted_head_least(a: Seq<Seq<char>>, x: Seq<char>)
    requires
        strictly_sorted(a),
        a.len() > 0,
        a.contains(x),
        x != a[0],
    ensures
        lex_lt(a[0], x),
{
    let j = choose|j: int| 0 <= j < a.len() && a[j] == x;
    assert(j != 0);
}

proof fn lemma_sorted_same_elements(a: Seq<Seq<char>>, b: Seq<Seq<char>>)
    requires
        strictly_sorted(a),
        strictly_sorted(b),
        forall|x: Seq<char>| a.contains(x) <==> b.contains(x),
    ensures
        a == b,
    decreases a.len(),
{
    if a.len() == 0 {
        if b.len() > 0 {
            assert(b.contains(b[0]));
        }
        assert(a =~= b);
    } else {
        assert(a.contains(a[0]));
        assert(b.len() > 0);
        assert(b.contains(b[0]));
        if a[0] != b[0] {
            lemma_sorted_head_least(a, b[0]);
            lemma_sorted_head_least(b, a[0]);
            lemma_lex_asym(a[0], b[0]);
        }
        let ta = a.drop_first();
        let tb = b.drop_first();
        assert forall|x: Seq<char>| ta.contains(x) <==> tb.contains(x) by {
            if ta.contains(x) {
                let j = choose|j: int| 0 <= j < ta.len() && ta[j] == x;
                assert(a[j + 1] == x);
                assert(lex_lt(a[0], x));
                lemma_lex_irreflexive(x);
                assert(b.contains(x));
                let m = choose|m: int| 0 <= m < b.len() && b[m] == x;
                assert(m != 0);
                assert(tb[m - 1] == x);
            }
            if tb.contains(x) {
                let j = choose|j: int| 0 <= j < tb.len() && tb[j] == x;
                assert(b[j + 1] == x);
                assert(lex_lt(b[0], x));
                lemma_lex_irreflexive(x);
                assert(a.contains(x));
                let m = choose|m: int| 0 <= m < a.len() && a[m] == x;
                assert(m != 0);
                assert(ta[m - 1] == x);
            }
        }
        lemma_sorted_same_elements(ta, tb);
        assert(a =~= seq![a[0]] + ta);
        assert(b =~= seq![b[0]] + tb);
    }
}

/// There is only one way to group commands: the command list's fields are
/// determined by the commands alone.
pub proof fn grouping_is_unique(
    cmds: Seq<CommandInfo>,
    g1: Seq<(Seq<char>, Seq<Seq<char>>)>,
    g2: Seq<(Seq<char>, Seq<Seq<char>>)>,
)
    requires
        grouped(cmds, g1),
        grouped(cmds, g2),
    ensures
        g1 == g2,
{
    let k1 = g1.map_values(|g: (Seq<char>, Seq<Seq<char>>)| g.0);
    let k2 = g2.map_values(|g: (Seq<char>, Seq<Seq<char>>)| g.0);
    assert forall|x: Seq<char>| k1.contains(x) implies k2.contains(x) by {
        let i = choose|i: int| 0 <= i < k1.len() && k1[i] == x;
        assert(names_in(cmds, g1[i].0).len() > 0);
        lemma_names_in_present(cmds, x);
        let c = choose|c: int| 0 <= c < cmds.len() && category_of(#[trigger] cmds[c]) == x;
        let j = choose|j: int| 0 <= j < g2.len() && #[trigger] g2[j].0 == category_of(cmds[c]);
        assert(k2[j] == x);
    }
    assert forall|x: Seq<char>| k2.contains(x) implies k1.contains(x) by {
        let i = choose|i: int| 0 <= i < k2.len() && k2[i] == x;
        assert(names_in(cmds, g2[i].0).len() > 0);
        lemma_names_in_present(cmds, x);
        let c = choose|c: int| 0 <= c < cmds.len() && category_of(#[trigger] cmds[c]) == x;
        let j = choose|j: int| 0 <= j < g1.len() && #[trigger] g1[j].0 == category_of(cmds[c]);
        assert(k1[j] == x);
    }
    assert forall|i: int, j: int| 0 <= i < j < k1.len() implies lex_lt(k1[i], k1[j]) by {
        assert(lex_lt(g1[i].0, g1[j].0));
    }
    assert forall|i: int, j: int| 0 <= i < j < k2.len() implies lex_lt(k2[i], k2[j]) by {
        assert(lex_lt(g2[i].0, g2[j].0));
    }
    lemma_sorted_same_elements(k1, k2);
    assert(g1.len() == g2.len());
    assert forall|i: int| 0 <= i < g1.len() implies g1[i] == g2[i] by {
        assert(k1[i] == k2[i]);
        assert(g1[i].1 == names_in(cmds, g1[i].0));
        assert(g2[i].1 == names_in(cmds, g2[i].0));
    }
    assert(g1 =~= g2);
}

proof fn lemma_names_in_step(pre: Seq<CommandInfo>, c: CommandInfo, k: Seq<char>)
    ensures
        names_in(pre.push(c), k) == if category_of(c) == k {
            names_in(pre, k).push(c.name@)
        } else {
            names_in(pre, k)
        },
{
    assert(pre.push(c).drop_last() == pre);
}

/// Groups commands by category, categories in alphabetical order.
pub fn group_by_category(commands: &Vec<CommandInfo>) -> (groups: Vec<(String, Vec<String>)>)
    ensures
        grouped(commands@, groups@.map_values(|g: (String, Vec<String>)| group_view(g))),
{
    let mut groups: Vec<(String, Vec<String>)> = Vec::new();
    let mut n: usize = 0;
    while n < commands.len()
        invariant
            n <= commands@.len(),
            grouped(
                commands@.take(n as int),
                groups@.map_values(|g: (String, Vec<String>)| group_view(g)),
            ),
        decreases commands.len() - n,
    {
        let ghost pre = commands@.take(n as int);
        let ghost post = commands@.take(n + 1);
        let ghost gv = groups@.map_values(|g: (String, Vec<String>)| group_view(g));
        proof {
            assert(post == pre.push(commands@[n as int]));
        }
        let cmd = &commands[n];
        let cat: &str = match &cmd.category {
            Some(c) => c.as_str(),
            None => "Other",
        };
        assert(cat@ == category_of(commands@[n as int]));
        let mut j: usize = 0;
        let mut found = false;
        let mut stop = false;
        while j < groups.len() && !stop
            invariant
                j <= groups@.len(),
                gv == groups@.map_values(|g: (String, Vec<String>)| group_view(g)),
                forall|i: int| 0 <= i < j ==> lex_lt(#[trigger] gv[i].0, cat@),
                stop ==> j < groups@.len(),
                stop && found ==> gv[j as int].0 == cat@,
                stop && !found ==> lex_lt(cat@, gv[j as int].0),
                !stop ==> !found,
            decreases groups.len() - j + (if stop { 0int } else { 1int }),
        {
            if str_eq(groups[j].0.as_str(), cat) {
                found = true;
                stop = true;
            } else if str_lt(cat, groups[j].0.as_str()) {
                stop = true;
            } else {
                proof {
                    lemma_lex_total(gv[j as int].0, cat@);
                }
                j = j + 1;
            }
        }
        let ghost name = cmd.name@;
        proof {
            // the keys are pairwise distinct
            assert forall|x: int, y: int| 0 <= x < gv.len() && 0 <= y < gv.len() && x != y implies gv[x].0
                != gv[y].0 by {
                if x < y {
                    lemma_lex_irreflexive(gv[x].0);
                } else {
                    lemma_lex_irreflexive(gv[y].0);
                }
            }
        }
        if found {
            let mut g = groups.remove(j);
            g.1.push(cmd.name.clone());
            groups.insert(j, g);
            proof {
                let gv2 = groups@.map_values(|g: (String, Vec<String>)| group_view(g));
                assert(views(g.1@) == gv[j as int].1.push(name));
                assert(gv2 =~= gv.update(j as int, (cat@, gv[j as int].1.push(name))));
                assert forall|i: int| 0 <= i < gv2.len() implies #[trigger] gv2[i].1 == names_in(
                    post,
                    gv2[i].0,
                ) by {
                    lemma_names_in_step(pre, commands@[n as int], gv2[i].0);
                }
                assert forall|i: int| 0 <= i < gv2.len() implies names_in(
                    post,
                    #[trigger] gv2[i].0,
                ).len() > 0 by {
                    lemma_names_in_step(pre, commands@[n as int], gv2[i].0);
                }
                assert forall|c: int| 0 <= c < post.len() implies exists|i: int|
                    0 <= i < gv2.len() && #[trigger] gv2[i].0 == category_of(#[trigger] post[c]) by {
                    if c < n {
                        assert(post[c] == pre[c]);
                        let i = choose|i: int| 0 <= i < gv.len() && #[trigger] gv[i].0 == category_of(pre[c]);
                        assert(gv2[i].0 == gv[i].0);
                    } else {
                        assert(gv2[j as int].0 == category_of(post[c]));
                    }
                }
            }
        } else {
            let mut names: Vec<String> = Vec::new();
            names.push(cmd.name.clone());
            groups.insert(j, (owned(cat), names));
            proof {
                let gv2 = groups@.map_values(|g: (String, Vec<String>)| group_view(g));
                assert(views(names@) == seq![name]);
                assert(gv2 =~= gv.insert(j as int, (cat@, seq![name])));
                // the new category sorts after everything before it and before
                // everything after it
                assert forall|i: int| j <= i < gv.len() implies lex_lt(cat@, #[trigger] gv[i].0) by {
                    if i > j {
                        lemma_lex_trans(cat@, gv[j as int].0, gv[i].0);
                    }
                }
                assert forall|x: int, y: int| 0 <= x < y < gv2.len() implies lex_lt(
                    gv2[x].0,
                    gv2[y].0,
                ) by {
                    if y < j {
                    } else if y == j {
                    } else if x < j {
                        assert(gv2[y].0 == gv[y - 1].0);
                        lemma_lex_trans(gv[x].0, cat@, gv[y - 1].0);
                    } else if x == j {
                    } else {
                        assert(gv2[x].0 == gv[x - 1].0);
                        assert(gv2[y].0 == gv[y - 1].0);
                    }
                }
                // no earlier command has the new category
                assert forall|c: int| 0 <= c < pre.len() implies category_of(pre[c]) != cat@ by {
                    let i = choose|i: int| 0 <= i < gv.len() && #[trigger] gv[i].0 == category_of(pre[c]);
                    if i < j {
                        lemma_lex_irreflexive(cat@);
                    } else {
                        lemma_lex_irreflexive(cat@);
                    }
                }
                lemma_names_in_absent(pre, cat@);
                assert forall|i: int| 0 <= i < gv2.len() implies #[trigger] gv2[i].1 == names_in(
                    post,
                    gv2[i].0,
                ) by {
                    lemma_names_in_step(pre, commands@[n as int], gv2[i].0);
                    if i < j {
                        lemma_lex_irreflexive(cat@);
                    } else if i > j {
                        assert(gv2[i] == gv[i - 1]);
                        lemma_lex_irreflexive(cat@);
                    }
                }
                assert forall|i: int| 0 <= i < gv2.len() implies names_in(
                    post,
                    #[trigger] gv2[i].0,
                ).len() > 0 by {
                    lemma_names_in_step(pre, commands@[n as int], gv2[i].0);
                    if i > j {
                        assert(gv2[i] == gv[i - 1]);
                    }
                }
                assert forall|c: int| 0 <= c < post.len() implies exists|i: int|
                    0 <= i < gv2.len() && #[trigger] gv2[i].0 == category_of(#[trigger] post[c]) by {
                    if c < n {
                        assert(post[c] == pre[c]);
                        let i = choose|i: int| 0 <= i < gv.len() && #[trigger] gv[i].0 == category_of(pre[c]);
                        if i < j {
                            assert(gv2[i].0 == gv[i].0);
                        } else {
                            assert(gv2[i + 1].0 == gv[i].0);
                        }
                    } else {
                        assert(gv2[j as int].0 == category_of(post[c]));
                    }
                }
            }
        }
        n = n + 1;
    }
    assert(commands@.take(commands@.len() as int) == commands@);
    groups
}

// ─── Help pages ──────────────────────────────────────────────────────────────

/// A command name as "`/name`".
pub open spec fn command_token(name: Seq<char>) -> Seq<char> {
    "`/"@ + name + "`"@
}

/// One category of the command list: its name and its commands.
pub open spec fn category_field(g: (Seq<char>, Seq<Seq<char>>)) -> (Seq<char>, Seq<char>, bool) {
    (g.0, join(g.1.map_values(|c: Seq<char>| command_token(c)), "  "@), false)
}

/// The command list: a field per category, in order.
pub open spec fn help_list_embed_spec(groups: Seq<(Seq<char>, Seq<Seq<char>>)>) -> EmbedView {
    blank().title("📖 Command List"@).description(
        "Use `/help <command>` for details on a specific command."@,
    ).colour(0x3498DB).stamped().with_fields(
        groups.map_values(|g: (Seq<char>, Seq<Seq<char>>)| category_field(g)),
    )
}

/// The command list: the commands grouped by category, categories in
/// alphabetical order.
pub fn help_list_embed(commands: &Vec<CommandInfo>) -> (e: Embed)
    ensures
        exists|groups: Seq<(Seq<char>, Seq<Seq<char>>)>|
            grouped(commands@, groups) && e@ == help_list_embed_spec(groups),
{
    let groups = group_by_category(commands);
    let ghost gv = groups@.map_values(|g: (String, Vec<String>)| group_view(g));
    let mut e = Embed::new();
    e.title = Some(owned("📖 Command List"));
    e.description = Some(owned("Use `/help <command>` for details on a specific command."));
    e.colour = Some(0x3498DB);
    e.timestamp_now = true;
    let ghost base = e@;
    let mut i: usize = 0;
    while i < groups.len()
        invariant
            i <= groups@.len(),
            gv == groups@.map_values(|g: (String, Vec<String>)| group_view(g)),
            e@ == base.with_fields(
                gv.take(i as int).map_values(|g: (Seq<char>, Seq<Seq<char>>)| category_field(g)),
            ),
        decreases groups.len() - i,
    {
        let names = &groups[i].1;
        let mut tokens: Vec<String> = Vec::new();
        let mut k: usize = 0;
        while k < names.len()
            invariant
                k <= names@.len(),
                views(tokens@) == views(names@).take(k as int).map_values(
                    |c: Seq<char>| command_token(c),
                ),
            decreases names.len() - k,
        {
            let mut t = owned("`/");
            t.append(names[k].as_str());
            t.append("`");
            let ghost before = tokens@;
            tokens.push(t);
            proof {
                assert(views(tokens@) == views(before).push(t@));
                assert(views(names@).take(k + 1).map_values(|c: Seq<char>| command_token(c))
                    == views(names@).take(k as int).map_values(|c: Seq<char>| command_token(c)).push(
                    command_token(names@[k as int]@),
                ));
            }
            k = k + 1;
        }
        assert(views(names@).take(names@.len() as int) == views(names@));
        let list = join_strings(&tokens, "  ");
        e.add_field(groups[i].0.clone(), list, false);
        proof {
            assert(gv.take(i + 1).map_values(|g: (Seq<char>, Seq<Seq<char>>)| category_field(g))
                == gv.take(i as int).map_values(
                |g: (Seq<char>, Seq<Seq<char>>)| category_field(g),
            ).push(category_field(gv[i as int])));
        }
        i = i + 1;
    }
    assert(gv.take(gv.len() as int) == gv);
    assert(grouped(commands@, gv) && e@ == help_list_embed_spec(gv));
    e
}

/// The index of the first command called `name`, if any.
pub fn find_command(commands: &Vec<CommandInfo>, name: &str) -> (r: Option<usize>)
    ensures
        match r {
            Some(i) => i < commands@.len() && commands@[i as int].name@ == name@ && forall|j: int|
                0 <= j < i ==> commands@[j].name@ != name@,
            None => forall|j: int| 0 <= j < commands@.len() ==> commands@[j].name@ != name@,
        },
{
    let mut i: usize = 0;
    while i < commands.len()
        invariant
            i <= commands@.len(),
            forall|j: int| 0 <= j < i ==> commands@[j].name@ != name@,
        decreases commands.len() - i,
    {
        if str_eq(commands[i].name.as_str(), name) {
            return Some(i);
        }
        i = i + 1;
    }
    None
}

/// A subcommand with its description ("No description" when it has none).
pub open spec fn subcommand_line(s: SubcommandInfo) -> Seq<char> {
    "`"@ + s.name@ + "` — "@ + or_default(s.description, "No description"@)
}

/// The help page of one command.
pub open spec fn help_command_embed_spec(c: CommandInfo) -> EmbedView {
    let base = blank().title("/"@ + c.name@).description(
        or_default(c.description, "No description available."@),
    ).colour(0x2ECC71);
    if c.subcommands@.len() == 0 {
        base
    } else {
        base.field(
            "Subcommands"@,
            join(c.subcommands@.map_values(|s: SubcommandInfo| subcommand_line(s)), "\n"@),
            false,
        )
    }
}

/// The help page of one command: its description and subcommands.
pub fn help_command_embed(cmd: &CommandInfo) -> (e: Embed)
    ensures
        e@ == help_command_embed_spec(*cmd),
{
    let mut e = Embed::new();
    let mut t = owned("/");
    t.append(cmd.name.as_str());
    e.title = Some(t);
    let d: &str = match &cmd.description {
        Some(d) => d.as_str(),
        None => "No description available.",
    };
    e.description = Some(owned(d));
    e.colour = Some(0x2ECC71);
    let subs = &cmd.subcommands;
    if subs.len() > 0 {
        let mut lines: Vec<String> = Vec::new();
        let mut i: usize = 0;
        while i < subs.len()
            invariant
                i <= subs@.len(),
                views(lines@) == subs@.take(i as int).map_values(
                    |s: SubcommandInfo| subcommand_line(s),
                ),
            decreases subs.len() - i,
        {
            let mut l = owned("`");
            l.append(subs[i].name.as_str());
            l.append("` — ");
            let sd: &str = match &subs[i].description {
                Some(d) => d.as_str(),
                None => "No description",
            };
            l.append(sd);
            let ghost before = lines@;
            lines.push(l);
            proof {
                assert(views(lines@) == views(before).push(l@));
                assert(subs@.take(i + 1).map_values(|s: SubcommandInfo| subcommand_line(s))
                    == subs@.take(i as int).map_values(|s: SubcommandInfo| subcommand_line(s)).push(
                    subcommand_line(subs@[i as int]),
                ));
            }
            i = i + 1;
        }
        assert(subs@.take(subs@.len() as int) == subs@);
        e.add_field(owned("Subcommands"), join_strings(&lines, "\n"), false);
    }
    e
}

/// The reply when no command has the name asked for.
pub fn command_not_found_text(name: &str) -> (s: String)
    ensures
        s@ == "Command `"@ + name@ + "` not found."@,
{
    let mut s = owned("Command `");
    s.append(name);
    s.append("` not found.");
    s
}

} // verus!
