use vstd::prelude::*;
use crate::json::{member, members, object_of};
use crate::page::{page_head, page_of, row_of, rows_of, HOSTNAME_KEY, LOCAL_IP_KEY, or_empty};
use crate::service::{enriched_of, health_response, snapshot_of, Response};
use crate::snapshot::{
    collect_entries, has_key, keys_unique, pairs_view, set_entry, value_of, EntryView,
};

verus! {

/// `needle` stands in `hay` from position `i` on.
pub open spec fn occurs_at(hay: Seq<char>, needle: Seq<char>, i: int) -> bool {
    0 <= i && i + needle.len() <= hay.len() && hay.subrange(i, i + needle.len()) == needle
}

/// `needle` stands somewhere in `hay`.
pub open spec fn contains(hay: Seq<char>, needle: Seq<char>) -> bool {
    exists|i: int| occurs_at(hay, needle, i)
}

/// What stands in `b` stands in `a + b + c` too.
pub proof fn lemma_contains_within(a: Seq<char>, b: Seq<char>, c: Seq<char>, n: Seq<char>)
    requires
        contains(b, n),
    ensures
        contains(a + b + c, n),
{
    let i = choose|i: int| occurs_at(b, n, i);
    let j = a.len() + i;
    assert((a + b + c).subrange(j, j + n.len()) =~= b.subrange(i, i + n.len()));
    assert(occurs_at(a + b + c, n, j));
}

/// Any two answers to a liveness probe are identical, whatever happened
/// between them.
pub proof fn lemma_health_repeatable(first: Response, second: Response)
    requires
        first@ == health_response(),
        second@ == health_response(),
    ensures
        first@ == second@,
        first.status == 200,
        first.body@ == "OK"@,
{
}

/// Setting a variable keeps the names of all others, adds its own, and keeps
/// the names unique.
pub proof fn lemma_set_entry_keys(s: Seq<EntryView>, k: Seq<char>, v: Seq<char>)
    requires
        keys_unique(s),
    ensures
        keys_unique(set_entry(s, k, v)),
        forall|x: Seq<char>| has_key(set_entry(s, k, v), x) <==> (has_key(s, x) || x == k),
        exists|i: int| 0 <= i < set_entry(s, k, v).len() && set_entry(s, k, v)[i] == (k, v),
        forall|i: int|
            0 <= i < s.len() && s[i].0 != k ==> exists|j: int|
                0 <= j < set_entry(s, k, v).len() && set_entry(s, k, v)[j] == s[i],
{
    let t = set_entry(s, k, v);
    if has_key(s, k) {
        let i = choose|i: int| 0 <= i < s.len() && #[trigger] s[i].0 == k;
        assert(t == s.update(i, (k, v)));
        assert(t[i] == (k, v));
        assert forall|x: Seq<char>| has_key(t, x) <==> (has_key(s, x) || x == k) by {
            if has_key(s, x) {
                let j = choose|j: int| 0 <= j < s.len() && #[trigger] s[j].0 == x;
                assert(t[j].0 == x);
            }
            if has_key(t, x) {
                let j = choose|j: int| 0 <= j < t.len() && #[trigger] t[j].0 == x;
                assert(s[j].0 == x);
            }
            if x == k {
                assert(t[i].0 == x);
            }
        }
        assert forall|a: int| 0 <= a < s.len() && s[a].0 != k implies exists|j: int|
            0 <= j < t.len() && t[j] == s[a] by {
            assert(t[a] == s[a]);
        }
    } else {
        assert(t == s.push((k, v)));
        assert(t[s.len() as int] == (k, v));
        assert forall|x: Seq<char>| has_key(t, x) <==> (has_key(s, x) || x == k) by {
            if has_key(s, x) {
                let j = choose|j: int| 0 <= j < s.len() && #[trigger] s[j].0 == x;
                assert(t[j].0 == x);
            }
            if has_key(t, x) {
                let j = choose|j: int| 0 <= j < t.len() && #[trigger] t[j].0 == x;
                if j < s.len() {
                    assert(s[j].0 == x);
                }
            }
            if x == k {
                assert(t[s.len() as int].0 == x);
            }
        }
        assert forall|a: int| 0 <= a < s.len() && s[a].0 != k implies exists|j: int|
            0 <= j < t.len() && t[j] == s[a] by {
            assert(t[a] == s[a]);
        }
    }
}

/// Collecting pairs keeps exactly their names, each once.
pub proof fn lemma_collect_keys(p: Seq<EntryView>)
    ensures
        keys_unique(collect_entries(p)),
        forall|x: Seq<char>| has_key(collect_entries(p), x) <==> has_key(p, x),
    decreases p.len(),
{
    if p.len() > 0 {
        let d = p.drop_last();
        lemma_collect_keys(d);
        lemma_set_entry_keys(collect_entries(d), p.last().0, p.last().1);
        assert forall|x: Seq<char>| has_key(collect_entries(p), x) <==> has_key(p, x) by {
            if has_key(d, x) {
                let j = choose|j: int| 0 <= j < d.len() && #[trigger] d[j].0 == x;
                assert(p[j].0 == x);
            }
            if has_key(p, x) && x != p.last().0 {
                let j = choose|j: int| 0 <= j < p.len() && #[trigger] p[j].0 == x;
                assert(d[j].0 == x);
            }
            if x == p.last().0 {
                assert(p[p.len() - 1].0 == x);
            }
        }
    } else {
        assert(collect_entries(p) =~= Seq::<EntryView>::empty());
    }
}

/// A pair that no later pair of the same name overrides ends up in the
/// collected snapshot.
pub proof fn lemma_collect_keeps_last(p: Seq<EntryView>, j: int)
    requires
        0 <= j < p.len(),
        forall|l: int| j < l < p.len() ==> p[l].0 != p[j].0,
    ensures
        exists|i: int| 0 <= i < collect_entries(p).len() && collect_entries(p)[i] == p[j],
    decreases p.len(),
{
    let d = p.drop_last();
    lemma_collect_keys(d);
    lemma_set_entry_keys(collect_entries(d), p.last().0, p.last().1);
    if j < p.len() - 1 {
        assert forall|l: int| j < l < d.len() implies d[l].0 != d[j].0 by {
            assert(d[l] == p[l]);
        }
        lemma_collect_keeps_last(d, j);
        let c = collect_entries(d);
        let i = choose|i: int| 0 <= i < c.len() && c[i] == d[j];
        assert(d[j] == p[j]);
        assert(c[i].0 != p.last().0);
        assert(collect_entries(p) == set_entry(c, p.last().0, p.last().1));
    } else {
        assert(p[j] == p.last());
        assert(collect_entries(p) == set_entry(collect_entries(d), p.last().0, p.last().1));
    }
}

/// The members of a snapshot hold the member of each of its variables.
pub proof fn lemma_members_hold(s: Seq<EntryView>, i: int)
    requires
        0 <= i < s.len(),
    ensures
        contains(members(s), member(s[i])),
    decreases s.len(),
{
    let m = member(s[i]);
    if s.len() == 1 {
        assert(members(s).subrange(0, m.len() as int) =~= m);
        assert(occurs_at(members(s), m, 0));
    } else if i == s.len() - 1 {
        let pre = members(s.drop_last()) + seq![','];
        assert(members(s) == pre + m);
        assert(members(s).subrange(pre.len() as int, (pre.len() + m.len()) as int) =~= m);
        assert(occurs_at(members(s), m, pre.len() as int));
    } else {
        let d = s.drop_last();
        assert(d[i] == s[i]);
        lemma_members_hold(d, i);
        lemma_contains_within(Seq::empty(), members(d), seq![','] + member(s.last()), m);
        assert(Seq::<char>::empty() + members(d) + (seq![','] + member(s.last())) =~= members(s));
    }
}

/// The rows of a snapshot hold the row of each of its variables.
pub proof fn lemma_rows_hold(s: Seq<EntryView>, i: int)
    requires
        0 <= i < s.len(),
    ensures
        contains(rows_of(s), row_of(s[i])),
    decreases s.len(),
{
    let r = row_of(s[i]);
    let d = s.drop_last();
    if i == s.len() - 1 {
        assert(rows_of(s).subrange(rows_of(d).len() as int, (rows_of(d).len() + r.len()) as int) =~= r);
        assert(occurs_at(rows_of(s), r, rows_of(d).len() as int));
    } else {
        assert(d[i] == s[i]);
        lemma_rows_hold(d, i);
        lemma_contains_within(Seq::empty(), rows_of(d), row_of(s.last()), r);
        assert(Seq::<char>::empty() + rows_of(d) + row_of(s.last()) =~= rows_of(s));
    }
}

/// The variables listed as JSON are exactly those of the environment that was
/// read, each name once.
pub proof fn lemma_api_lists_exactly_the_names(vars: Seq<(String, String)>)
    ensures
        keys_unique(snapshot_of(vars)),
        forall|x: Seq<char>| has_key(snapshot_of(vars), x) <==> has_key(pairs_view(vars), x),
{
    lemma_collect_keys(pairs_view(vars));
}

/// A variable set in the environment before the variables are read shows as
/// the member `"name":"value"` of the JSON object.
pub proof fn lemma_api_shows_injected(vars: Seq<(String, String)>, j: int)
    requires
        0 <= j < vars.len(),
        forall|l: int| j < l < vars.len() ==> vars[l].0@ != vars[j].0@,
    ensures
        contains(object_of(snapshot_of(vars)), member((vars[j].0@, vars[j].1@))),
{
    let p = pairs_view(vars);
    assert forall|l: int| j < l < p.len() implies p[l].0 != p[j].0 by {
        assert(p[l].0 == vars[l].0@);
    }
    lemma_collect_keeps_last(p, j);
    let s = snapshot_of(vars);
    let i = choose|i: int| 0 <= i < s.len() && s[i] == p[j];
    lemma_members_hold(s, i);
    lemma_contains_within(seq!['{'], members(s), seq!['}'], member(p[j]));
}

/// The page shows a row for each variable of the snapshot it renders.
pub proof fn lemma_page_row_per_variable(s: Seq<EntryView>, i: int)
    requires
        0 <= i < s.len(),
    ensures
        contains(page_of(s), row_of(s[i])),
{
    lemma_rows_hold(s, i);
    lemma_contains_within(page_head(s), rows_of(s), crate::page::PAGE_CLOSE@, row_of(s[i]));
}

/// The page shows the hostname that it was given.
pub proof fn lemma_page_shows_hostname(vars: Seq<(String, String)>, host: Seq<char>, ip: Seq<char>)
    ensures
        contains(page_of(enriched_of(vars, host, ip)), host),
{
    let base = snapshot_of(vars);
    lemma_collect_keys(pairs_view(vars));
    let s1 = set_entry(base, HOSTNAME_KEY@, host);
    lemma_set_entry_keys(base, HOSTNAME_KEY@, host);
    lemma_set_entry_keys(s1, LOCAL_IP_KEY@, ip);
    let s = enriched_of(vars, host, ip);
    reveal_strlit("HOSTNAME");
    reveal_strlit("LOCAL_IP");
    assert(HOSTNAME_KEY@ != LOCAL_IP_KEY@) by {
        assert(HOSTNAME_KEY@[0] != LOCAL_IP_KEY@[0]);
    }
    let a = choose|a: int| 0 <= a < s1.len() && s1[a] == (HOSTNAME_KEY@, host);
    let b = choose|b: int| 0 <= b < s.len() && s[b] == s1[a];
    assert(has_key(s, HOSTNAME_KEY@));
    let c = choose|c: int| 0 <= c < s.len() && #[trigger] s[c].0 == HOSTNAME_KEY@;
    assert(c == b);
    assert(value_of(s, HOSTNAME_KEY@) == Some(host));
    let head = crate::page::TITLE_OPEN@;
    let page = page_of(s);
    assert(or_empty(value_of(s, HOSTNAME_KEY@)) == host);
    assert(page.subrange(head.len() as int, (head.len() + host.len()) as int) =~= host);
    assert(occurs_at(page, host, head.len() as int));
}

/// The page shows the row `name`/`value` of each variable of the environment
/// that was read, but for the two names that the page sets itself.
pub proof fn lemma_page_lists_variable(
    vars: Seq<(String, String)>,
    host: Seq<char>,
    ip: Seq<char>,
    j: int,
)
    requires
        0 <= j < vars.len(),
        forall|l: int| j < l < vars.len() ==> vars[l].0@ != vars[j].0@,
        vars[j].0@ != HOSTNAME_KEY@,
        vars[j].0@ != LOCAL_IP_KEY@,
    ensures
        contains(page_of(enriched_of(vars, host, ip)), row_of((vars[j].0@, vars[j].1@))),
{
    let p = pairs_view(vars);
    assert forall|l: int| j < l < p.len() implies p[l].0 != p[j].0 by {
        assert(p[l].0 == vars[l].0@);
    }
    lemma_collect_keeps_last(p, j);
    let base = snapshot_of(vars);
    lemma_collect_keys(p);
    let a = choose|a: int| 0 <= a < base.len() && base[a] == p[j];
    let s1 = set_entry(base, HOSTNAME_KEY@, host);
    lemma_set_entry_keys(base, HOSTNAME_KEY@, host);
    assert(base[a].0 != HOSTNAME_KEY@);
    let b = choose|b: int| 0 <= b < s1.len() && s1[b] == base[a];
    lemma_set_entry_keys(s1, LOCAL_IP_KEY@, ip);
    assert(s1[b].0 != LOCAL_IP_KEY@);
    let s = enriched_of(vars, host, ip);
    let c = choose|c: int| 0 <= c < s.len() && s[c] == s1[b];
    lemma_page_row_per_variable(s, c);
}

} // verus!
