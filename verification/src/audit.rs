//! The printable audit list: the activation result's name-value pairs,
//! sorted lexicographically by name, each rendered as a `name: value` line
//! for the user-facing confirmation.

use vstd::prelude::*;

use crate::materialize::ActivationResult;
use vstd::seq_lib::group_to_multiset_ensures;
use vstd::string::StringExecFns;

verus! {

/// Lexicographic order on character sequences, by code point.
pub open spec fn lex_le(a: Seq<char>, b: Seq<char>) -> bool
    decreases a.len(),
{
    if a.len() == 0 {
        true
    } else if b.len() == 0 {
        false
    } else if (a[0] as u32) < (b[0] as u32) {
        true
    } else if (a[0] as u32) > (b[0] as u32) {
        false
    } else {
        lex_le(a.skip(1), b.skip(1))
    }
}

/// The order is total.
pub proof fn lemma_lex_total(a: Seq<char>, b: Seq<char>)
    ensures
        lex_le(a, b) || lex_le(b, a),
    decreases a.len(),
{
    if a.len() == 0 || b.len() == 0 {
    } else if (a[0] as u32) == (b[0] as u32) {
        lemma_lex_total(a.skip(1), b.skip(1));
    }
}

/// The order is transitive.
pub proof fn lemma_lex_trans(a: Seq<char>, b: Seq<char>, c: Seq<char>)
    requires
        lex_le(a, b),
        lex_le(b, c),
    ensures
        lex_le(a, c),
    decreases a.len(),
{
    if a.len() == 0 || b.len() == 0 || c.len() == 0 {
    } else if (a[0] as u32) == (b[0] as u32) && (b[0] as u32) == (c[0] as u32) {
        lemma_lex_trans(a.skip(1), b.skip(1), c.skip(1));
    }
}

/// Decides the lexicographic order on two strings.
pub fn lex_le_exec(a: &str, b: &str) -> (r: bool)
    ensures
        r == lex_le(a@, b@),
{
    let na = a.unicode_len();
    let nb = b.unicode_len();
    let mut i: usize = 0;
    proof {
        assert(a@.skip(0) =~= a@);
        assert(b@.skip(0) =~= b@);
    }
    loop
        invariant
            i <= na,
            i <= nb,
            na == a@.len(),
            nb == b@.len(),
            lex_le(a@, b@) == lex_le(a@.skip(i as int), b@.skip(i as int)),
        decreases na - i,
    {
        if i >= na {
            return true;
        }
        if i >= nb {
            return false;
        }
        let ca = a.get_char(i);
        let cb = b.get_char(i);
        if (ca as u32) < (cb as u32) {
            return true;
        }
        if (ca as u32) > (cb as u32) {
            return false;
        }
        proof {
            assert(a@.skip(i as int).skip(1) =~= a@.skip(i + 1));
            assert(b@.skip(i as int).skip(1) =~= b@.skip(i + 1));
        }
        i += 1;
    }
}

/// The views of an entry list, pair by pair.
pub open spec fn entry_views(es: Seq<(String, String)>) -> Seq<(Seq<char>, Seq<char>)> {
    es.map_values(|e: (String, String)| (e.0@, e.1@))
}

/// The entry list stands sorted by name.
pub open spec fn sorted_by_name(es: Seq<(String, String)>) -> bool {
    forall|i: int, j: int| 0 <= i < j < es.len() ==> lex_le(#[trigger] es[i].0@, #[trigger] es[j].0@)
}

/// The activation result's entries, sorted lexicographically by name: the
/// same pairs, in sorted order.
pub fn sorted_entries(r: &ActivationResult) -> (out: Vec<(String, String)>)
    ensures
        entry_views(out@).to_multiset() == entry_views(r.entries@).to_multiset(),
        sorted_by_name(out@),
{
    broadcast use group_to_multiset_ensures;
    broadcast use vstd::multiset::group_multiset_axioms;

    let mut work: Vec<(String, String)> = Vec::new();
    let mut i: usize = 0;
    while i < r.entries.len()
        invariant
            i <= r.entries@.len(),
            work@.len() == i,
            forall|j: int|
                0 <= j < i ==> #[trigger] work@[j].0@ == r.entries@[j].0@ && work@[j].1@
                    == r.entries@[j].1@,
        decreases r.entries@.len() - i,
    {
        let e = &r.entries[i];
        work.push((e.0.clone(), e.1.clone()));
        i += 1;
    }
    proof {
        assert(entry_views(work@) =~= entry_views(r.entries@));
    }
    let ghost full = entry_views(r.entries@).to_multiset();
    let mut out: Vec<(String, String)> = Vec::new();
    proof {
        assert(entry_views(out@) =~= Seq::<(Seq<char>, Seq<char>)>::empty());
        assert(entry_views(out@).to_multiset().add(entry_views(work@).to_multiset()) =~= full);
    }
    while work.len() > 0
        invariant
            entry_views(out@).to_multiset().add(entry_views(work@).to_multiset()) == full,
            sorted_by_name(out@),
            forall|a: int, b: int|
                0 <= a < out@.len() && 0 <= b < work@.len() ==> lex_le(
                    #[trigger] out@[a].0@,
                    #[trigger] work@[b].0@,
                ),
        decreases work@.len(),
    {
        let mut mi: usize = 0;
        let mut b: usize = 1;
        proof {
            lemma_lex_total(work@[0].0@, work@[0].0@);
        }
        while b < work.len()
            invariant
                work@.len() > 0,
                mi < b <= work@.len(),
                forall|c: int| 0 <= c < b ==> lex_le(work@[mi as int].0@, #[trigger] work@[c].0@),
            decreases work@.len() - b,
        {
            if !lex_le_exec(work[mi].0.as_str(), work[b].0.as_str()) {
                proof {
                    lemma_lex_total(work@[mi as int].0@, work@[b as int].0@);
                    assert forall|c: int| 0 <= c < b + 1 implies lex_le(
                        work@[b as int].0@,
                        #[trigger] work@[c].0@,
                    ) by {
                        if c < b {
                            lemma_lex_trans(work@[b as int].0@, work@[mi as int].0@, work@[c].0@);
                        } else {
                            lemma_lex_total(work@[b as int].0@, work@[b as int].0@);
                        }
                    }
                }
                mi = b;
            }
            b += 1;
        }
        let ghost work_before = work@;
        let ghost out_before = out@;
        let ghost v = (work@[mi as int].0@, work@[mi as int].1@);
        let e = work.remove(mi);
        out.push(e);
        proof {
            entry_views(work_before).to_multiset_ensures();
            entry_views(out_before).to_multiset_ensures();
            assert(out@ == out_before.push(e));
            assert(out@.drop_last() =~= out_before);
            assert(entry_views(work_before)[mi as int] == v);
            assert(entry_views(work@) =~= entry_views(work_before).remove(mi as int)) by {
                assert(work@ == work_before.remove(mi as int));
                assert forall|x: int| 0 <= x < work@.len() implies entry_views(work@)[x]
                    == entry_views(work_before).remove(mi as int)[x] by {
                    if x < mi as int {
                        assert(work@[x] == work_before[x]);
                    } else {
                        assert(work@[x] == work_before[x + 1]);
                    }
                }
            }
            assert(entry_views(work_before).remove(mi as int).to_multiset()
                =~= entry_views(work_before).to_multiset().remove(v));
            assert(entry_views(work@).to_multiset() =~= entry_views(work_before).to_multiset()
                .remove(v));
            assert(entry_views(out@) =~= entry_views(out_before).push(v));
            assert(entry_views(out_before).push(v).to_multiset()
                =~= entry_views(out_before).to_multiset().insert(v));
            assert(entry_views(out@).to_multiset() =~= entry_views(out_before).to_multiset()
                .insert(v));
            assert(entry_views(work_before).to_multiset().count(v) > 0) by {
                assert(entry_views(work_before).contains(v));
            }
            assert(entry_views(out@).to_multiset().add(entry_views(work@).to_multiset()) =~= full)
                by {
                let mo = entry_views(out_before).to_multiset();
                let mw = entry_views(work_before).to_multiset();
                assert forall|x: (Seq<char>, Seq<char>)|
                    mo.insert(v).add(mw.remove(v)).count(x) == #[trigger] mo.add(mw).count(x) by {
                    if x == v {
                        assert(mw.count(v) > 0);
                    }
                }
                assert(mo.insert(v).add(mw.remove(v)) =~= mo.add(mw));
            }
            assert forall|x: int, y: int| 0 <= x < y < out@.len() implies lex_le(
                #[trigger] out@[x].0@,
                #[trigger] out@[y].0@,
            ) by {
                if y == out@.len() - 1 {
                    assert(out@[y].0@ == v.0);
                }
            }
            assert forall|a: int, c: int|
                0 <= a < out@.len() && 0 <= c < work@.len() implies lex_le(
                #[trigger] out@[a].0@,
                #[trigger] work@[c].0@,
            ) by {
                let cw = if c < mi as int {
                    c
                } else {
                    c + 1
                };
                assert(work@[c] == work_before[cw]);
                if a < out@.len() - 1 {
                } else {
                    assert(out@[a].0@ == v.0);
                    assert(lex_le(v.0, work_before[cw].0@));
                }
            }
        }
    }
    out
}

/// One line of the audit list: the name, a separating colon, the value.
pub open spec fn audit_line(name: Seq<char>, value: Seq<char>) -> Seq<char> {
    name + ": "@ + value
}

/// Renders an entry list as audit lines, one `name: value` line per entry,
/// in the given order.
pub fn audit_lines(entries: &Vec<(String, String)>) -> (out: Vec<String>)
    ensures
        out@.len() == entries@.len(),
        forall|i: int|
            0 <= i < out@.len() ==> #[trigger] out@[i]@ == audit_line(
                entries@[i].0@,
                entries@[i].1@,
            ),
{
    let mut out: Vec<String> = Vec::new();
    let mut i: usize = 0;
    while i < entries.len()
        invariant
            i <= entries@.len(),
            out@.len() == i,
            forall|j: int|
                0 <= j < i ==> #[trigger] out@[j]@ == audit_line(
                    entries@[j].0@,
                    entries@[j].1@,
                ),
        decreases entries@.len() - i,
    {
        let e = &entries[i];
        let mut line = e.0.clone();
        line.append(": ");
        line.append(e.1.as_str());
        out.push(line);
        i += 1;
    }
    out
}

} // verus!
