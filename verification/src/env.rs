//! Environment merging: an `EnvMap` of variable names to values, and the
//! merge of an inherited `KEY=VALUE` list with a module's declared
//! environment, where the declared entries win on a shared key.
use vstd::prelude::*;
use vstd::string::{StrSliceExecFns, StringExecFns};
use crate::text::{entry_key, entry_value, find_eq, lemma_eq_pos, str_eq};

verus! {

/// The mapping described by a list of (key, value) pairs read left to
/// right: a later pair with the same key overrides an earlier one.
pub open spec fn map_of_pairs<V>(pairs: Seq<(Seq<char>, V)>) -> Map<Seq<char>, V>
    decreases pairs.len(),
{
    if pairs.len() == 0 {
        Map::empty()
    } else {
        map_of_pairs(pairs.drop_last()).insert(pairs.last().0, pairs.last().1)
    }
}

/// A key is in the mapping of a pair list exactly when some pair holds it.
pub proof fn lemma_map_of_pairs_dom<V>(pairs: Seq<(Seq<char>, V)>, k: Seq<char>)
    ensures
        map_of_pairs(pairs).contains_key(k) <==> exists|i: int|
            0 <= i < pairs.len() && pairs[i].0 == k,
    decreases pairs.len(),
{
    if pairs.len() > 0 {
        lemma_map_of_pairs_dom(pairs.drop_last(), k);
        if map_of_pairs(pairs).contains_key(k) && pairs.last().0 != k {
            let i = choose|i: int| 0 <= i < pairs.drop_last().len() && pairs.drop_last()[i].0 == k;
            assert(pairs[i].0 == k);
        }
        if exists|i: int| 0 <= i < pairs.len() && pairs[i].0 == k {
            let i = choose|i: int| 0 <= i < pairs.len() && pairs[i].0 == k;
            if i < pairs.len() - 1 {
                assert(pairs.drop_last()[i].0 == k);
            }
        }
    }
}

/// No two pairs share a key.
pub open spec fn distinct_keys<V>(pairs: Seq<(Seq<char>, V)>) -> bool {
    forall|i: int, j: int| 0 <= i < j < pairs.len() ==> pairs[i].0 != pairs[j].0
}

/// With distinct keys, each pair's key looks up that pair's value.
pub proof fn lemma_map_of_pairs_index<V>(pairs: Seq<(Seq<char>, V)>, i: int)
    requires
        distinct_keys(pairs),
        0 <= i < pairs.len(),
    ensures
        map_of_pairs(pairs).contains_key(pairs[i].0),
        map_of_pairs(pairs)[pairs[i].0] == pairs[i].1,
    decreases pairs.len(),
{
    lemma_map_of_pairs_dom(pairs, pairs[i].0);
    if i < pairs.len() - 1 {
        assert(pairs.drop_last()[i] == pairs[i]);
        lemma_map_of_pairs_index(pairs.drop_last(), i);
        assert(pairs.last().0 != pairs[i].0);
    }
}

/// With distinct keys, the mapping has exactly one key per pair.
pub proof fn lemma_map_of_pairs_len<V>(pairs: Seq<(Seq<char>, V)>)
    requires
        distinct_keys(pairs),
    ensures
        map_of_pairs(pairs).dom().finite(),
        map_of_pairs(pairs).dom().len() == pairs.len(),
    decreases pairs.len(),
{
    if pairs.len() > 0 {
        let rest = pairs.drop_last();
        lemma_map_of_pairs_len(rest);
        lemma_map_of_pairs_dom(rest, pairs.last().0);
        assert(forall|i: int| 0 <= i < rest.len() ==> rest[i] == pairs[i]);
        assert(!map_of_pairs(rest).contains_key(pairs.last().0));
    }
}

/// Appending a pair at the end is an override: the mapping gains (or
/// replaces) that key.
pub proof fn lemma_map_of_pairs_push<V>(pairs: Seq<(Seq<char>, V)>, k: Seq<char>, v: V)
    ensures
        map_of_pairs(pairs.push((k, v))) == map_of_pairs(pairs).insert(k, v),
{
    assert(pairs.push((k, v)).drop_last() =~= pairs);
}

/// Putting a pair at the front adds the key only if no later pair already
/// holds it.
pub proof fn lemma_map_of_pairs_cons<V>(pairs: Seq<(Seq<char>, V)>, k: Seq<char>, v: V)
    ensures
        map_of_pairs(seq![(k, v)] + pairs) =~= if map_of_pairs(pairs).contains_key(k) {
            map_of_pairs(pairs)
        } else {
            map_of_pairs(pairs).insert(k, v)
        },
    decreases pairs.len(),
{
    let whole = seq![(k, v)] + pairs;
    if pairs.len() == 0 {
        reveal_with_fuel(map_of_pairs, 2);
        assert(whole.drop_last() =~= Seq::<(Seq<char>, V)>::empty());
        assert(whole.last() == (k, v));
        lemma_map_of_pairs_dom(pairs, k);
    } else {
        let rest = pairs.drop_last();
        lemma_map_of_pairs_cons(rest, k, v);
        assert(whole.drop_last() =~= seq![(k, v)] + rest);
        assert(whole.last() == pairs.last());
        assert(forall|i: int| 0 <= i < rest.len() ==> rest[i] == pairs[i]);
        lemma_map_of_pairs_dom(pairs, k);
        lemma_map_of_pairs_dom(rest, k);
        if map_of_pairs(rest).contains_key(k) {
            let i = choose|i: int| 0 <= i < rest.len() && rest[i].0 == k;
            assert(pairs[i].0 == k);
            assert(map_of_pairs(pairs).contains_key(k));
            assert(map_of_pairs(whole) =~= map_of_pairs(rest).insert(
                pairs.last().0,
                pairs.last().1,
            ));
            assert(map_of_pairs(whole) =~= map_of_pairs(pairs));
        } else if pairs.last().0 == k {
            assert(map_of_pairs(pairs).contains_key(k));
            assert(map_of_pairs(whole) =~= map_of_pairs(rest).insert(k, v).insert(
                pairs.last().0,
                pairs.last().1,
            ));
            assert(map_of_pairs(whole) =~= map_of_pairs(pairs));
        } else {
            if map_of_pairs(pairs).contains_key(k) {
                let i = choose|i: int| 0 <= i < pairs.len() && pairs[i].0 == k;
                assert(i < pairs.len() - 1);
                assert(rest[i].0 == k);
                assert(false);
            }
            assert(map_of_pairs(whole) =~= map_of_pairs(rest).insert(k, v).insert(
                pairs.last().0,
                pairs.last().1,
            ));
            assert(map_of_pairs(whole) =~= map_of_pairs(pairs).insert(k, v));
        }
    }
}

/// Updating the pair at index `i` to a new value overrides that key.
pub proof fn lemma_map_of_pairs_update<V>(pairs: Seq<(Seq<char>, V)>, i: int, v: V)
    requires
        distinct_keys(pairs),
        0 <= i < pairs.len(),
    ensures
        map_of_pairs(pairs.update(i, (pairs[i].0, v))) =~= map_of_pairs(pairs).insert(
            pairs[i].0,
            v,
        ),
    decreases pairs.len(),
{
    let k = pairs[i].0;
    let upd = pairs.update(i, (k, v));
    if i == pairs.len() - 1 {
        assert(upd.drop_last() =~= pairs.drop_last());
        assert(upd.last() == (k, v));
    } else {
        assert(upd.drop_last() =~= pairs.drop_last().update(i, (k, v)));
        assert(pairs.drop_last()[i] == pairs[i]);
        lemma_map_of_pairs_update(pairs.drop_last(), i, v);
        assert(upd.last() == pairs.last());
        assert(pairs.last().0 != k);
        assert(map_of_pairs(upd) =~= map_of_pairs(pairs.drop_last()).insert(k, v).insert(
            pairs.last().0,
            pairs.last().1,
        ));
    }
}

/// A mapping of environment-variable names to values, stored as a list of
/// pairs with pairwise distinct keys.
pub struct EnvMap {
    pub entries: Vec<(String, String)>,
}

impl EnvMap {
    /// The pairs as mathematical sequences.
    pub open spec fn pairs(self) -> Seq<(Seq<char>, Seq<char>)> {
        self.entries.deep_view()
    }

    /// Every key occurs at most once.
    pub open spec fn wf(self) -> bool {
        distinct_keys(self.pairs())
    }

    /// An empty mapping.
    pub fn new() -> (r: EnvMap)
        ensures
            r.wf(),
            r@ == Map::<Seq<char>, Seq<char>>::empty(),
            r.pairs() =~= Seq::<(Seq<char>, Seq<char>)>::empty(),
    {
        EnvMap { entries: Vec::new() }
    }

    /// Index of the pair holding key `k`, if any.
    fn index_of_key(&self, k: &str) -> (r: Option<usize>)
        ensures
            match r {
                Some(i) => i < self.pairs().len() && self.pairs()[i as int].0 == k@,
                None => forall|j: int| 0 <= j < self.pairs().len() ==> self.pairs()[j].0 != k@,
            },
    {
        let n = self.entries.len();
        let mut i: usize = 0;
        while i < n
            invariant
                n == self.entries.len(),
                0 <= i <= n,
                forall|j: int| 0 <= j < i ==> self.pairs()[j].0 != k@,
            decreases n - i,
        {
            if str_eq(self.entries[i].0.as_str(), k) {
                assert(self.pairs()[i as int].0 == k@);
                return Some(i);
            }
            i = i + 1;
        }
        None
    }

    /// Whether `k` is one of the keys.
    pub fn contains_key(&self, k: &str) -> (r: bool)
        ensures
            r == self@.contains_key(k@),
    {
        proof {
            lemma_map_of_pairs_dom(self.pairs(), k@);
        }
        match self.index_of_key(k) {
            Some(_) => true,
            None => false,
        }
    }

    /// The value under key `k`, if any.
    pub fn get(&self, k: &str) -> (r: Option<&String>)
        requires
            self.wf(),
        ensures
            match r {
                Some(v) => self@.contains_key(k@) && self@[k@] == v@,
                None => !self@.contains_key(k@),
            },
    {
        proof {
            lemma_map_of_pairs_dom(self.pairs(), k@);
        }
        match self.index_of_key(k) {
            Some(i) => {
                proof {
                    lemma_map_of_pairs_index(self.pairs(), i as int);
                }
                Some(&self.entries[i].1)
            },
            None => None,
        }
    }

    /// Number of entries; with distinct keys, the size of the mapping.
    pub fn len(&self) -> (r: usize)
        requires
            self.wf(),
        ensures
            r == self@.dom().len(),
            r == self.pairs().len(),
    {
        proof {
            lemma_map_of_pairs_len(self.pairs());
        }
        self.entries.len()
    }

    /// Adds `k = v`, overriding any earlier value under `k`.
    pub fn insert(&mut self, k: String, v: String)
        requires
            old(self).wf(),
        ensures
            final(self).wf(),
            final(self)@ == old(self)@.insert(k@, v@),
    {
        let ghost before = self.pairs();
        match self.index_of_key(k.as_str()) {
            Some(i) => {
                proof {
                    lemma_map_of_pairs_update(before, i as int, v@);
                }
                self.entries.set(i, (k, v));
                proof {
                    assert(self.pairs() =~= before.update(i as int, (before[i as int].0, v@)));
                    assert(self@ =~= old(self)@.insert(before[i as int].0, v@));
                }
            },
            None => {
                proof {
                    lemma_map_of_pairs_push(before, k@, v@);
                }
                self.entries.push((k, v));
                proof {
                    assert(self.pairs() =~= before.push((k@, v@)));
                    assert forall|i: int, j: int|
                        0 <= i < j < self.pairs().len() implies self.pairs()[i].0
                        != self.pairs()[j].0 by {
                        if j < before.len() {
                            assert(before[i].0 != before[j].0);
                        }
                    }
                }
            },
        }
    }

    /// An independent copy with the same contents.
    pub fn duplicate(&self) -> (r: EnvMap)
        ensures
            r.pairs() == self.pairs(),
            r@ == self@,
    {
        let n = self.entries.len();
        let mut entries: Vec<(String, String)> = Vec::new();
        let mut i: usize = 0;
        while i < n
            invariant
                n == self.entries.len(),
                0 <= i <= n,
                entries.deep_view().len() == i,
                forall|j: int| 0 <= j < i ==> entries.deep_view()[j] == self.pairs()[j],
            decreases n - i,
        {
            let k = self.entries[i].0.clone();
            let v = self.entries[i].1.clone();
            entries.push((k, v));
            i = i + 1;
        }
        let r = EnvMap { entries };
        assert(r.pairs() =~= self.pairs());
        r
    }
}

impl View for EnvMap {
    type V = Map<Seq<char>, Seq<char>>;

    open spec fn view(&self) -> Map<Seq<char>, Seq<char>> {
        map_of_pairs(self.pairs())
    }
}

/// The `KEY=VALUE` entry string for one variable.
pub open spec fn entry_of(k: Seq<char>, v: Seq<char>) -> Seq<char> {
    k + seq!['='] + v
}

/// The set of `KEY=VALUE` entry strings of a whole mapping.
pub open spec fn entry_strings(m: Map<Seq<char>, Seq<char>>) -> Set<Seq<char>> {
    m.dom().map(|k: Seq<char>| entry_of(k, m[k]))
}

/// The (key, value) pairs read out of a list of `KEY=VALUE` entries, each
/// split at its first `=`.
pub open spec fn env_pairs(env: Seq<Seq<char>>) -> Seq<(Seq<char>, Seq<char>)> {
    env.map_values(|e: Seq<char>| (entry_key(e), entry_value(e)))
}

/// The mapping described by a list of `KEY=VALUE` entries; on a repeated
/// key the later entry wins.
pub open spec fn env_list_map(env: Seq<Seq<char>>) -> Map<Seq<char>, Seq<char>> {
    map_of_pairs(env_pairs(env))
}

/// The merge of an optional inherited entry list with a declared
/// environment: the declared value wins on a shared key, and every key of
/// either side is kept.
pub open spec fn merged_env(cur: Option<Seq<Seq<char>>>, new: Map<Seq<char>, Seq<char>>) -> Map<
    Seq<char>,
    Seq<char>,
> {
    match cur {
        Option::None => new,
        Option::Some(env) => env_list_map(env).union_prefer_right(new),
    }
}

impl EnvMap {
    /// The mapping rendered as a list of `KEY=VALUE` strings, one per key.
    pub fn to_entry_strings(&self) -> (r: Vec<String>)
        requires
            self.wf(),
        ensures
            r.deep_view() =~= self.pairs().map_values(
                |p: (Seq<char>, Seq<char>)| entry_of(p.0, p.1),
            ),
            r.deep_view().to_set() =~= entry_strings(self@),
            r.deep_view().len() == self@.dom().len(),
    {
        proof {
            reveal_strlit("=");
            assert("="@ =~= seq!['=']);
            lemma_map_of_pairs_len(self.pairs());
        }
        let n = self.entries.len();
        let mut r: Vec<String> = Vec::new();
        let mut i: usize = 0;
        while i < n
            invariant
                n == self.entries.len(),
                0 <= i <= n,
                "="@ == seq!['='],
                r.deep_view().len() == i,
                forall|j: int|
                    0 <= j < i ==> r.deep_view()[j] == entry_of(
                        self.pairs()[j].0,
                        self.pairs()[j].1,
                    ),
            decreases n - i,
        {
            let mut s = self.entries[i].0.clone();
            assert(s@ == self.pairs()[i as int].0);
            s.append("=");
            s.append(self.entries[i].1.as_str());
            assert(s@ == self.pairs()[i as int].0 + "="@ + self.pairs()[i as int].1);
            assert(s@ == entry_of(self.pairs()[i as int].0, self.pairs()[i as int].1));
            let ghost old_r = r@;
            let ghost old_dv = r.deep_view();
            r.push(s);
            proof {
                assert forall|j: int| 0 <= j < i implies r.deep_view()[j] == entry_of(
                    self.pairs()[j].0,
                    self.pairs()[j].1,
                ) by {
                    assert(r@[j] == old_r[j]);
                    assert(r.deep_view()[j] == old_dv[j]);
                }
            }
            i = i + 1;
        }
        let ghost dv = r.deep_view();
        let ghost target = self.pairs().map_values(|p: (Seq<char>, Seq<char>)| entry_of(p.0, p.1));
        assert(dv =~= target);
        proof {
            lemma_map_of_pairs_len(self.pairs());
            assert forall|x: Seq<char>| dv.to_set().contains(x) implies entry_strings(
                self@,
            ).contains(x) by {
                let j = choose|j: int| 0 <= j < dv.len() && dv[j] == x;
                lemma_map_of_pairs_index(self.pairs(), j);
                let k = self.pairs()[j].0;
                assert(self@.dom().contains(k) && entry_of(k, self@[k]) == x);
            }
            assert forall|x: Seq<char>| entry_strings(self@).contains(x) implies dv.to_set().contains(
                x,
            ) by {
                let k = choose|k: Seq<char>| self@.dom().contains(k) && entry_of(k, self@[k]) == x;
                lemma_map_of_pairs_dom(self.pairs(), k);
                let j = choose|j: int| 0 <= j < self.pairs().len() && self.pairs()[j].0 == k;
                lemma_map_of_pairs_index(self.pairs(), j);
                assert(dv[j] == x);
                assert(dv.contains(x));
            }
        }
        r
    }
}

/// For every key, the merged environment holds the declared mapping's
/// value where that mapping has the key, and the inherited list's value
/// otherwise; its key set is the union of the two key sets. With no
/// inherited list the merge is the declared mapping itself.
pub proof fn lemma_merged_env_spec(cur: Seq<Seq<char>>, new: Map<Seq<char>, Seq<char>>)
    ensures
        merged_env(Option::Some(cur), new).dom() =~= env_list_map(cur).dom() + new.dom(),
        forall|k: Seq<char>| #[trigger]
            new.contains_key(k) ==> merged_env(Option::Some(cur), new).contains_key(k)
                && merged_env(Option::Some(cur), new)[k] == new[k],
        forall|k: Seq<char>|
            !new.contains_key(k) && #[trigger] env_list_map(cur).contains_key(k) ==> merged_env(
                Option::Some(cur),
                new,
            ).contains_key(k) && merged_env(Option::Some(cur), new)[k] == env_list_map(cur)[k],
        merged_env(Option::None, new) == new,
{
}

/// Merges an inherited environment list with a declared environment
/// mapping. The result holds one `KEY=VALUE` entry per key of either
/// side; on a shared key the declared mapping's value wins. The order of
/// the entries is unspecified.
pub fn merge_env(cur_env: Option<&Vec<String>>, new_env: &EnvMap) -> (r: Vec<String>)
    requires
        new_env.wf(),
    ensures
        ({
            let m = merged_env(
                match cur_env {
                    Option::Some(env) => Option::Some(env.deep_view()),
                    Option::None => Option::None,
                },
                new_env@,
            );
            &&& r.deep_view().to_set() == entry_strings(m)
            &&& r.deep_view().len() == m.dom().len()
        }),
{
    let mut merged = new_env.duplicate();
    if let Some(env) = cur_env {
        let n = env.len();
        let mut i: usize = n;
        while i > 0
            invariant
                n == env.deep_view().len(),
                0 <= i <= n,
                merged.wf(),
                merged@ == env_list_map(env.deep_view().skip(i as int)).union_prefer_right(
                    new_env@,
                ),
            decreases i,
        {
            i = i - 1;
            let s: &String = &env[i];
            let slen = s.as_str().unicode_len();
            let p = find_eq(s.as_str());
            proof {
                lemma_eq_pos(s@);
            }
            let key: &str = s.as_str().substring_char(0, p);
            let ghost e = env.deep_view()[i as int];
            assert(e == s@);
            assert(key@ =~= entry_key(e));
            let ghost mm = env_list_map(env.deep_view().skip(i as int + 1));
            proof {
                assert(env.deep_view().skip(i as int) =~= seq![e] + env.deep_view().skip(
                    i as int + 1,
                ));
                assert(env_pairs(seq![e] + env.deep_view().skip(i as int + 1)) =~= seq![
                    (entry_key(e), entry_value(e)),
                ] + env_pairs(env.deep_view().skip(i as int + 1)));
                lemma_map_of_pairs_cons(
                    env_pairs(env.deep_view().skip(i as int + 1)),
                    entry_key(e),
                    entry_value(e),
                );
            }
            if !merged.contains_key(key) {
                let value: String = if p < slen {
                    String::from_str(s.as_str().substring_char(p + 1, slen))
                } else {
                    String::new()
                };
                proof {
                    reveal_strlit("");
                    assert(value@ =~= entry_value(e));
                }
                merged.insert(String::from_str(key), value);
                proof {
                    assert(!mm.contains_key(entry_key(e)));
                    assert(env_list_map(env.deep_view().skip(i as int)) =~= mm.insert(
                        entry_key(e),
                        entry_value(e),
                    ));
                    assert(merged@ =~= env_list_map(
                        env.deep_view().skip(i as int),
                    ).union_prefer_right(new_env@));
                }
            } else {
                proof {
                    if mm.contains_key(entry_key(e)) {
                        assert(env_list_map(env.deep_view().skip(i as int)) =~= mm);
                    } else {
                        assert(env_list_map(env.deep_view().skip(i as int)) =~= mm.insert(
                            entry_key(e),
                            entry_value(e),
                        ));
                        assert(new_env@.contains_key(entry_key(e)));
                        assert(merged@ =~= env_list_map(
                            env.deep_view().skip(i as int),
                        ).union_prefer_right(new_env@));
                    }
                }
            }
        }
        proof {
            assert(env.deep_view().skip(0) =~= env.deep_view());
        }
    }
    merged.to_entry_strings()
}

} // verus!
