//! The environment materializer: turns a fetched environment's variable list
//! into the mapping that is exported into the subshell's process environment.
//!
//! Every variable is exported under a fixed prefix, the enabled flag and the
//! type tag are carried through without filtering, a later entry wins on a
//! repeated key, and one reserved entry carries the environment's display
//! name.

use vstd::prelude::*;

use crate::model::Environment;
use crate::model::EnvironmentModel;
use crate::model::VariableModel;
use vstd::string::StringExecFns;

verus! {

/// The name a variable key is exported under: the fixed prefix, then the key.
pub open spec fn var_key(k: Seq<char>) -> Seq<char> {
    "SNOWMAN_"@ + k
}

/// The reserved name that carries the environment's display name.
pub open spec fn reserved_key() -> Seq<char> {
    "_SNOWMAN_ENVIRONMENT_NAME"@
}

/// The mapping a variable list materializes to: one entry per exported name,
/// a later occurrence of a key overwriting an earlier one.
pub open spec fn values_map(vs: Seq<VariableModel>) -> Map<Seq<char>, Seq<char>>
    decreases vs.len(),
{
    if vs.len() == 0 {
        Map::empty()
    } else {
        values_map(vs.drop_last()).insert(var_key(vs.last().key), vs.last().value)
    }
}

/// The full activation mapping: the variables' entries plus the reserved
/// name entry.
pub open spec fn activation_map(env: EnvironmentModel) -> Map<Seq<char>, Seq<char>> {
    values_map(env.values).insert(reserved_key(), env.name)
}

/// Variable keys are pairwise distinct.
pub open spec fn distinct_keys(vs: Seq<VariableModel>) -> bool {
    forall|i: int, j: int| 0 <= i < j < vs.len() ==> vs[i].key != vs[j].key
}

/// Entry names are pairwise distinct.
pub open spec fn distinct_entries(es: Seq<(String, String)>) -> bool {
    forall|i: int, j: int| 0 <= i < j < es.len() ==> es[i].0@ != es[j].0@
}

/// The mapping an entry list denotes: a name maps to the value listed
/// beside it.
pub open spec fn entries_map(es: Seq<(String, String)>) -> Map<Seq<char>, Seq<char>> {
    Map::new(
        |k: Seq<char>| exists|j: int| 0 <= j < es.len() && es[j].0@ == k,
        |k: Seq<char>|
            es[choose|j: int| 0 <= j < es.len() && es[j].0@ == k].1@,
    )
}

/// The result of materializing an environment: name-value entries with
/// pairwise distinct names, denoting the activation mapping.
pub struct ActivationResult {
    pub entries: Vec<(String, String)>,
}

impl ActivationResult {
    /// Entry names are pairwise distinct.
    pub open spec fn wf(&self) -> bool {
        distinct_entries(self.entries@)
    }
}

impl View for ActivationResult {
    type V = Map<Seq<char>, Seq<char>>;

    open spec fn view(&self) -> Map<Seq<char>, Seq<char>> {
        entries_map(self.entries@)
    }
}

/// An exported name never collides with the reserved name: the prefix and
/// the reserved name start with different characters.
pub proof fn lemma_var_key_not_reserved(k: Seq<char>)
    ensures
        var_key(k) != reserved_key(),
{
    reveal_strlit("SNOWMAN_");
    reveal_strlit("_SNOWMAN_ENVIRONMENT_NAME");
    assert(var_key(k)[0] == 'S');
    assert(reserved_key()[0] == '_');
}

/// Prefixing keeps keys apart: equal exported names come from equal keys.
pub proof fn lemma_var_key_injective(a: Seq<char>, b: Seq<char>)
    requires
        var_key(a) == var_key(b),
    ensures
        a == b,
{
    reveal_strlit("SNOWMAN_");
    assert(var_key(a).len() == 8 + a.len());
    assert(var_key(b).len() == 8 + b.len());
    assert(a =~= b) by {
        assert forall|i: int| 0 <= i < a.len() implies a[i] == b[i] by {
            assert(var_key(a)[8 + i] == a[i]);
            assert(var_key(b)[8 + i] == b[i]);
        }
    }
}

/// The names of a variable list's mapping are exactly the exported names of
/// its keys.
pub proof fn lemma_values_map_dom(vs: Seq<VariableModel>)
    ensures
        forall|k: Seq<char>|
            values_map(vs).contains_key(k) <==> (exists|l: int|
                0 <= l < vs.len() && #[trigger] var_key(vs[l].key) == k),
        values_map(vs).dom().finite(),
    decreases vs.len(),
{
    if vs.len() == 0 {
    } else {
        lemma_values_map_dom(vs.drop_last());
        assert forall|k: Seq<char>| values_map(vs).contains_key(k) implies (exists|l: int|
            0 <= l < vs.len() && #[trigger] var_key(vs[l].key) == k) by {
            if k == var_key(vs.last().key) {
                assert(var_key(vs[vs.len() - 1].key) == k);
            } else {
                let l = choose|l: int|
                    0 <= l < vs.drop_last().len() && #[trigger] var_key(vs.drop_last()[l].key)
                        == k;
                assert(var_key(vs[l].key) == k);
            }
        }
        assert forall|k: Seq<char>|
            (exists|l: int| 0 <= l < vs.len() && #[trigger] var_key(vs[l].key) == k) implies
            values_map(vs).contains_key(k) by {
            let l = choose|l: int| 0 <= l < vs.len() && #[trigger] var_key(vs[l].key) == k;
            if l < vs.len() - 1 {
                assert(var_key(vs.drop_last()[l].key) == k);
            }
        }
    }
}

/// Law: a repeated variable key resolves to a single mapping entry holding
/// the value of the last occurrence in source order.
pub proof fn lemma_last_write_wins(vs: Seq<VariableModel>, i: int)
    requires
        0 <= i < vs.len(),
        forall|j: int| i < j < vs.len() ==> vs[j].key != vs[i].key,
    ensures
        values_map(vs).contains_key(var_key(vs[i].key)),
        values_map(vs)[var_key(vs[i].key)] == vs[i].value,
    decreases vs.len(),
{
    if i == vs.len() - 1 {
    } else {
        lemma_last_write_wins(vs.drop_last(), i);
        if var_key(vs.last().key) == var_key(vs[i].key) {
            lemma_var_key_injective(vs.last().key, vs[i].key);
            assert(false);
        }
    }
}

/// With pairwise distinct keys the mapping holds exactly one entry per
/// variable.
pub proof fn lemma_values_map_card(vs: Seq<VariableModel>)
    requires
        distinct_keys(vs),
    ensures
        values_map(vs).dom().finite(),
        values_map(vs).dom().len() == vs.len(),
    decreases vs.len(),
{
    if vs.len() == 0 {
        assert(values_map(vs).dom() =~= Set::<Seq<char>>::empty());
    } else {
        lemma_values_map_card(vs.drop_last());
        lemma_values_map_dom(vs.drop_last());
        if values_map(vs.drop_last()).contains_key(var_key(vs.last().key)) {
            let l = choose|l: int|
                0 <= l < vs.drop_last().len() && #[trigger] var_key(vs.drop_last()[l].key)
                    == var_key(vs.last().key);
            lemma_var_key_injective(vs[l].key, vs.last().key);
            assert(false);
        }
    }
}

/// One entry per variable plus the reserved entry: the size of the full
/// activation mapping under pairwise distinct keys.
pub proof fn lemma_activation_map_card(env: EnvironmentModel)
    requires
        distinct_keys(env.values),
    ensures
        activation_map(env).dom().finite(),
        activation_map(env).dom().len() == env.values.len() + 1,
{
    lemma_values_map_card(env.values);
    lemma_values_map_dom(env.values);
    if values_map(env.values).contains_key(reserved_key()) {
        let l = choose|l: int|
            0 <= l < env.values.len() && #[trigger] var_key(env.values[l].key) == reserved_key();
        lemma_var_key_not_reserved(env.values[l].key);
        assert(false);
    }
}

proof fn lemma_entries_map_at(es: Seq<(String, String)>, j: int)
    requires
        distinct_entries(es),
        0 <= j < es.len(),
    ensures
        entries_map(es).contains_key(es[j].0@),
        entries_map(es)[es[j].0@] == es[j].1@,
{
    let k = es[j].0@;
    assert(0 <= j < es.len() && es[j].0@ == k);
    let jj = choose|l: int| 0 <= l < es.len() && es[l].0@ == k;
    assert(jj == j);
}

proof fn lemma_entries_map_push(es: Seq<(String, String)>, p: (String, String))
    requires
        distinct_entries(es),
        forall|l: int| 0 <= l < es.len() ==> es[l].0@ != p.0@,
    ensures
        distinct_entries(es.push(p)),
        entries_map(es.push(p)) == entries_map(es).insert(p.0@, p.1@),
{
    let es2 = es.push(p);
    let m1 = entries_map(es2);
    let m2 = entries_map(es).insert(p.0@, p.1@);
    assert forall|k: Seq<char>| m1.contains_key(k) implies m2.contains_key(k) && m1[k] == m2[k] by {
        let j = choose|l: int| 0 <= l < es2.len() && es2[l].0@ == k;
        lemma_entries_map_at(es2, j);
        if j == es.len() {
            assert(k == p.0@);
        } else {
            lemma_entries_map_at(es, j);
        }
    }
    assert forall|k: Seq<char>| m2.contains_key(k) implies m1.contains_key(k) by {
        if k == p.0@ {
            assert(es2[es.len() as int].0@ == k);
        } else {
            let j = choose|l: int| 0 <= l < es.len() && es[l].0@ == k;
            assert(es2[j].0@ == k);
        }
    }
    assert(m1 =~= m2);
}

proof fn lemma_entries_map_update(es: Seq<(String, String)>, j: int, p: (String, String))
    requires
        distinct_entries(es),
        0 <= j < es.len(),
        es[j].0@ == p.0@,
    ensures
        distinct_entries(es.update(j, p)),
        entries_map(es.update(j, p)) == entries_map(es).insert(p.0@, p.1@),
{
    let es2 = es.update(j, p);
    let m1 = entries_map(es2);
    let m2 = entries_map(es).insert(p.0@, p.1@);
    assert forall|k: Seq<char>| m1.contains_key(k) implies m2.contains_key(k) && m1[k] == m2[k] by {
        let l = choose|l: int| 0 <= l < es2.len() && es2[l].0@ == k;
        lemma_entries_map_at(es2, l);
        if l == j {
            assert(k == p.0@);
        } else {
            assert(es[l].0@ == k);
            lemma_entries_map_at(es, l);
            assert(k != p.0@);
        }
    }
    assert forall|k: Seq<char>| m2.contains_key(k) implies m1.contains_key(k) by {
        if k == p.0@ {
            assert(es2[j].0@ == k);
        } else {
            let l = choose|l: int| 0 <= l < es.len() && es[l].0@ == k;
            assert(es2[l].0@ == k);
        }
    }
    assert(m1 =~= m2);
}

/// Puts a name-value pair into the entry list: overwrites the value beside
/// an existing equal name, else appends.
fn upsert(entries: &mut Vec<(String, String)>, key: String, value: String)
    requires
        distinct_entries(old(entries)@),
    ensures
        distinct_entries(final(entries)@),
        entries_map(final(entries)@) == entries_map(old(entries)@).insert(key@, value@),
        forall|l: int|
            #![trigger final(entries)@[l]]
            0 <= l < final(entries)@.len() ==> final(entries)@[l].0@ == key@ || (exists|l2: int|
                0 <= l2 < old(entries)@.len() && #[trigger] old(entries)@[l2].0@ == final(entries)@[l].0@),
        (forall|l: int| 0 <= l < old(entries)@.len() ==> old(entries)@[l].0@ != key@)
            ==> final(entries)@.len() == old(entries)@.len() + 1,
        (exists|l: int| 0 <= l < old(entries)@.len() && old(entries)@[l].0@ == key@)
            ==> final(entries)@.len() == old(entries)@.len(),
{
    let ghost es = entries@;
    let mut j: usize = 0;
    while j < entries.len()
        invariant
            j <= es.len(),
            entries@ == es,
            es == old(entries)@,
            distinct_entries(es),
            forall|l: int| 0 <= l < j ==> es[l].0@ != key@,
        decreases es.len() - j,
    {
        if entries[j].0 == key {
            proof {
                lemma_entries_map_update(es, j as int, (key, value));
            }
            entries[j] = (key, value);
            return ;
        }
        j += 1;
    }
    proof {
        lemma_entries_map_push(es, (key, value));
    }
    entries.push((key, value));
}

/// Materializes an environment: exports every variable in order under the
/// prefixed name, a later occurrence of a key winning, and adds the reserved
/// entry holding the environment's display name. With pairwise distinct keys
/// the result holds exactly one entry per variable plus the reserved entry.
pub fn materialize(env: &Environment) -> (r: ActivationResult)
    ensures
        r.wf(),
        r@ == activation_map(env@),
        distinct_keys(env@.values) ==> r.entries@.len() == env@.values.len() + 1,
{
    let ghost vms = env@.values;
    let mut entries: Vec<(String, String)> = Vec::new();
    let mut i: usize = 0;
    while i < env.values.len()
        invariant
            i <= env.values.len(),
            env@.values == vms,
            vms.len() == env.values.len(),
            distinct_entries(entries@),
            entries_map(entries@) == values_map(vms.take(i as int)),
            forall|l: int|
                #![trigger entries@[l]]
                0 <= l < entries@.len() ==> (exists|m: int|
                    0 <= m < i && #[trigger] var_key(vms[m].key) == entries@[l].0@),
            distinct_keys(vms) ==> entries@.len() == i,
        decreases env.values.len() - i,
    {
        let v = &env.values[i];
        let mut key = String::from_str("SNOWMAN_");
        key.append(v.key.as_str());
        let value = v.value.clone();
        proof {
            assert(key@ == var_key(vms[i as int].key));
            assert(vms.take(i + 1).drop_last() =~= vms.take(i as int));
            assert(vms.take(i + 1).last() == vms[i as int]);
            if distinct_keys(vms) {
                if exists|l: int| 0 <= l < entries@.len() && entries@[l].0@ == key@ {
                        let l = choose|l: int| 0 <= l < entries@.len() && entries@[l].0@ == key@;
                    let m = choose|m: int|
                        0 <= m < i && #[trigger] var_key(vms[m].key) == entries@[l].0@;
                    lemma_var_key_injective(vms[m].key, vms[i as int].key);
                    assert(false);
                }
            }
        }
        let ghost es_before = entries@;
        upsert(&mut entries, key, value);
        proof {
            assert forall|l: int| #![trigger entries@[l]] 0 <= l < entries@.len() implies (exists|
                m: int,
            |
                0 <= m < i + 1 && #[trigger] var_key(vms[m].key) == entries@[l].0@) by {
                if entries@[l].0@ == var_key(vms[i as int].key) {
                } else {
                    let l2 = choose|l2: int|
                        0 <= l2 < es_before.len() && es_before[l2].0@ == entries@[l].0@;
                    let m = choose|m: int|
                        0 <= m < i && #[trigger] var_key(vms[m].key) == es_before[l2].0@;
                    assert(var_key(vms[m].key) == entries@[l].0@);
                }
            }
        }
        i += 1;
    }
    let name_entry = (String::from_str("_SNOWMAN_ENVIRONMENT_NAME"), env.name.clone());
    proof {
        assert(vms.take(vms.len() as int) =~= vms);
        assert forall|l: int| 0 <= l < entries@.len() implies entries@[l].0@ != reserved_key() by {
            let m = choose|m: int|
                0 <= m < vms.len() && #[trigger] var_key(vms[m].key) == entries@[l].0@;
            lemma_var_key_not_reserved(vms[m].key);
        }
        lemma_entries_map_push(entries@, name_entry);
    }
    entries.push(name_entry);
    ActivationResult { entries }
}

} // verus!
