//! The part of the application settings that the transform backend reads
//! and writes: the post-process providers and which one is active, the
//! per-provider model, API-key and reasoning-effort tables, and the
//! composer quick-action slots.

use vstd::prelude::*;
use crate::text::{is_blank, is_blank_str, str_eq};
use std::collections::HashMap;

verus! {

broadcast use vstd::std_specs::hash::group_hash_axioms;

/// The map a sequence of key/value pairs denotes: a later pair for a key
/// replaces an earlier one.
pub open spec fn map_of<K, V>(s: Seq<(K, V)>) -> Map<K, V>
    decreases s.len(),
{
    if s.len() == 0 {
        Map::empty()
    } else {
        map_of(s.drop_last()).insert(s.last().0, s.last().1)
    }
}

/// `i` is the last position of key `k` in `s`.
pub open spec fn last_position<K, V>(s: Seq<(K, V)>, k: K, i: int) -> bool {
    &&& 0 <= i < s.len()
    &&& s[i].0 == k
    &&& forall|j: int| i < j < s.len() ==> (#[trigger] s[j]).0 != k
}

pub proof fn lemma_map_of_absent<K, V>(s: Seq<(K, V)>, k: K)
    requires
        forall|j: int| 0 <= j < s.len() ==> (#[trigger] s[j]).0 != k,
    ensures
        !map_of(s).contains_key(k),
    decreases s.len(),
{
    if s.len() > 0 {
        let t = s.drop_last();
        assert forall|j: int| 0 <= j < t.len() implies (#[trigger] t[j]).0 != k by {
            assert(t[j] == s[j]);
        }
        lemma_map_of_absent(t, k);
    }
}

pub proof fn lemma_map_of_last<K, V>(s: Seq<(K, V)>, k: K, i: int)
    requires
        last_position(s, k, i),
    ensures
        map_of(s).contains_key(k),
        map_of(s)[k] == s[i].1,
    decreases s.len(),
{
    if i < s.len() - 1 {
        let t = s.drop_last();
        assert(s.last() == s[s.len() - 1]);
        assert forall|j: int| i < j < t.len() implies (#[trigger] t[j]).0 != k by {
            assert(t[j] == s[j]);
        }
        lemma_map_of_last(t, k, i);
    }
}

pub proof fn lemma_map_of_update<K, V>(s: Seq<(K, V)>, i: int, v: V)
    requires
        last_position(s, s[i].0, i),
    ensures
        map_of(s.update(i, (s[i].0, v))) == map_of(s).insert(s[i].0, v),
    decreases s.len(),
{
    let k = s[i].0;
    let t = s.update(i, (k, v));
    if i == s.len() - 1 {
        assert(t.drop_last() =~= s.drop_last());
        assert(map_of(t) =~= map_of(s).insert(k, v));
    } else {
        let sd = s.drop_last();
        assert(sd[i] == s[i]);
        assert forall|j: int| i < j < sd.len() implies (#[trigger] sd[j]).0 != k by {
            assert(sd[j] == s[j]);
        }
        lemma_map_of_update(sd, i, v);
        assert(t.drop_last() =~= sd.update(i, (k, v)));
        assert(s.last() == s[s.len() - 1]);
        assert(map_of(t) =~= map_of(s).insert(k, v));
    }
}

/// A key that occurs in `s` has a last position there.
pub proof fn lemma_last_position_exists<K, V>(s: Seq<(K, V)>, k: K, j: int) -> (i: int)
    requires
        0 <= j < s.len(),
        s[j].0 == k,
    ensures
        last_position(s, k, i),
    decreases s.len(),
{
    if s.last().0 == k {
        (s.len() - 1) as int
    } else {
        let t = s.drop_last();
        assert(t[j] == s[j]);
        let i = lemma_last_position_exists(t, k, j);
        assert forall|m: int| i < m < s.len() implies (#[trigger] s[m]).0 != k by {
            if m < s.len() - 1 {
                assert(t[m] == s[m]);
            }
        }
        i
    }
}

/// `k` is the view of one of the strings.
pub open spec fn listed(out: Seq<String>, k: Seq<char>) -> bool {
    exists|a: int| 0 <= a < out.len() && #[trigger] out[a]@ == k
}

/// No two of the strings have the same view.
pub open spec fn distinct_views(out: Seq<String>) -> bool {
    forall|a: int, b: int| 0 <= a < b < out.len() ==> out[a]@ != out[b]@
}

/// Position `m` holds the last pair of its key, with a non-blank value.
pub open spec fn kept_at(all: Seq<(Seq<char>, Seq<char>)>, m: int) -> bool {
    last_position(all, all[m].0, m) && !is_blank(all[m].1)
}

/// Some position before `i` is kept and holds key `k`.
pub open spec fn kept_before(all: Seq<(Seq<char>, Seq<char>)>, k: Seq<char>, i: int) -> bool {
    exists|m: int| 0 <= m < i && all[m].0 == k && #[trigger] kept_at(all, m)
}

proof fn lemma_listed_push(out: Seq<String>, s: String)
    ensures
        forall|k: Seq<char>| listed(out.push(s), k) <==> (listed(out, k) || k == s@),
{
    assert forall|k: Seq<char>| listed(out.push(s), k) <==> (listed(out, k) || k == s@) by {
        if listed(out, k) {
            let a = choose|a: int| 0 <= a < out.len() && #[trigger] out[a]@ == k;
            assert(out.push(s)[a] == out[a]);
        }
        if k == s@ {
            assert(out.push(s)[out.len() as int] == s);
        }
        if listed(out.push(s), k) {
            let a = choose|a: int| 0 <= a < out.push(s).len() && #[trigger] out.push(s)[a]@ == k;
            if a < out.len() {
                assert(out.push(s)[a] == out[a]);
            }
        }
    }
}

proof fn lemma_distinct_push(out: Seq<String>, s: String)
    requires
        distinct_views(out),
        !listed(out, s@),
    ensures
        distinct_views(out.push(s)),
{
    assert forall|a: int, b: int| 0 <= a < b < out.push(s).len() implies out.push(s)[a]@ != out.push(
        s,
    )[b]@ by {
        assert(out.push(s)[a] == out[a]);
        if b < out.len() {
            assert(out.push(s)[b] == out[b]);
        } else {
            assert(out[a]@ != s@);
        }
    }
}

proof fn lemma_kept_before_step(all: Seq<(Seq<char>, Seq<char>)>, i: int)
    requires
        0 <= i < all.len(),
    ensures
        forall|k: Seq<char>|
            kept_before(all, k, i + 1) <==> (kept_before(all, k, i) || (all[i].0 == k && kept_at(
                all,
                i,
            ))),
{
    assert forall|k: Seq<char>|
        kept_before(all, k, i + 1) <==> (kept_before(all, k, i) || (all[i].0 == k && kept_at(
            all,
            i,
        ))) by {
        if kept_before(all, k, i + 1) {
            let m = choose|m: int| 0 <= m < i + 1 && all[m].0 == k && #[trigger] kept_at(all, m);
            if m < i {
                assert(kept_before(all, k, i));
            }
        }
        if all[i].0 == k && kept_at(all, i) {
            assert(kept_before(all, k, i + 1));
        }
        if kept_before(all, k, i) {
            let m = choose|m: int| 0 <= m < i && all[m].0 == k && #[trigger] kept_at(all, m);
            assert(kept_before(all, k, i + 1));
        }
    }
}

proof fn lemma_kept_before_all(all: Seq<(Seq<char>, Seq<char>)>)
    ensures
        forall|k: Seq<char>|
            kept_before(all, k, all.len() as int) <==> (map_of(all).contains_key(k) && !is_blank(
                map_of(all)[k],
            )),
{
    assert forall|k: Seq<char>|
        kept_before(all, k, all.len() as int) <==> (map_of(all).contains_key(k) && !is_blank(
            map_of(all)[k],
        )) by {
        if kept_before(all, k, all.len() as int) {
            let m = choose|m: int| 0 <= m < all.len() && all[m].0 == k && #[trigger] kept_at(all, m);
            lemma_map_of_last(all, k, m);
        }
        if map_of(all).contains_key(k) && !is_blank(map_of(all)[k]) {
            if forall|j: int| 0 <= j < all.len() ==> (#[trigger] all[j]).0 != k {
                lemma_map_of_absent(all, k);
            } else {
                let j = choose|j: int| 0 <= j < all.len() && (#[trigger] all[j]).0 == k;
                let m = lemma_last_position_exists(all, k, j);
                lemma_map_of_last(all, k, m);
                assert(kept_at(all, m));
            }
        }
    }
}

/// The views of string pairs.
pub open spec fn string_pairs(s: Seq<(String, String)>) -> Seq<(Seq<char>, Seq<char>)> {
    s.map_values(|p: (String, String)| (p.0@, p.1@))
}

/// A map from strings to strings, such as the per-provider model, API-key and
/// reasoning-effort tables of the settings.
#[derive(Debug, Clone)]
pub struct StringMap {
    entries: Vec<(String, String)>,
}

impl View for StringMap {
    type V = Map<Seq<char>, Seq<char>>;

    closed spec fn view(&self) -> Map<Seq<char>, Seq<char>> {
        map_of(string_pairs(self.entries@))
    }
}

impl StringMap {
    pub fn new() -> (r: StringMap)
        ensures
            r@ == Map::<Seq<char>, Seq<char>>::empty(),
    {
        let r = StringMap { entries: Vec::new() };
        assert(string_pairs(r.entries@) =~= Seq::empty());
        r
    }

    /// The last position of `key` among the entries, if any.
    fn position(&self, key: &str) -> (r: Option<usize>)
        ensures
            r matches Some(i) ==> last_position(string_pairs(self.entries@), key@, i as int),
            r is None ==> forall|j: int|
                0 <= j < self.entries@.len() ==> (#[trigger] string_pairs(self.entries@)[j]).0
                    != key@,
    {
        let mut i: usize = self.entries.len();
        while i > 0
            invariant
                i <= self.entries@.len(),
                forall|j: int|
                    i <= j < self.entries@.len() ==> (#[trigger] string_pairs(self.entries@)[j]).0
                        != key@,
            decreases i,
        {
            if str_eq(self.entries[i - 1].0.as_str(), key) {
                return Some(i - 1);
            }
            i -= 1;
        }
        None
    }

    /// The value stored for `key`.
    pub fn get(&self, key: &str) -> (r: Option<&String>)
        ensures
            r matches Some(v) ==> self@.contains_key(key@) && self@[key@] == v@,
            r is None ==> !self@.contains_key(key@),
    {
        match self.position(key) {
            Some(i) => {
                proof {
                    lemma_map_of_last(string_pairs(self.entries@), key@, i as int);
                }
                Some(&self.entries[i].1)
            },
            None => {
                proof {
                    lemma_map_of_absent(string_pairs(self.entries@), key@);
                }
                None
            },
        }
    }

    /// Store `value` for `key`, replacing what was there.
    pub fn insert(&mut self, key: String, value: String)
        ensures
            final(self)@ == old(self)@.insert(key@, value@),
    {
        match self.position(key.as_str()) {
            Some(i) => {
                let ghost before = string_pairs(self.entries@);
                proof {
                    lemma_map_of_update(before, i as int, value@);
                }
                let ghost vv = value@;
                self.entries.set(i, (key, value));
                assert(string_pairs(self.entries@) =~= before.update(i as int, (before[i as int].0, vv)));
            },
            None => {
                let ghost before = string_pairs(self.entries@);
                let ghost kv = (key@, value@);
                self.entries.push((key, value));
                assert(string_pairs(self.entries@) =~= before.push(kv));
                assert(string_pairs(self.entries@).drop_last() =~= before);
            },
        }
    }

    /// Forget what is stored for `key`.
    pub fn remove(&mut self, key: &str)
        ensures
            final(self)@ == old(self)@.remove(key@),
    {
        let mut kept: Vec<(String, String)> = Vec::new();
        let mut i: usize = 0;
        let ghost all = string_pairs(self.entries@);
        while i < self.entries.len()
            invariant
                i <= self.entries@.len(),
                all == string_pairs(self.entries@),
                map_of(string_pairs(kept@)) == map_of(all.take(i as int)).remove(key@),
            decreases self.entries@.len() - i,
        {
            assert(all.take(i + 1).drop_last() =~= all.take(i as int));
            if !str_eq(self.entries[i].0.as_str(), key) {
                let ghost before = string_pairs(kept@);
                let k = self.entries[i].0.clone();
                let v = self.entries[i].1.clone();
                kept.push((k, v));
                assert(string_pairs(kept@).drop_last() =~= before);
                assert(map_of(string_pairs(kept@)) =~= map_of(all.take(i + 1)).remove(key@));
            } else {
                assert(map_of(all.take(i + 1)).remove(key@) =~= map_of(all.take(i as int)).remove(
                    key@,
                ));
            }
            i += 1;
        }
        assert(all.take(self.entries@.len() as int) =~= all);
        self.entries = kept;
    }

    /// The keys whose value is not blank, each once.
    pub fn non_blank_keys(&self) -> (r: Vec<String>)
        ensures
            forall|i: int, j: int| 0 <= i < j < r@.len() ==> r@[i]@ != r@[j]@,
            forall|k: Seq<char>|
                (exists|i: int| 0 <= i < r@.len() && #[trigger] r@[i]@ == k) <==> (
                self@.contains_key(k) && !is_blank(self@[k])),
    {
        let ghost all = string_pairs(self.entries@);
        let mut out: Vec<String> = Vec::new();
        let mut i: usize = 0;
        while i < self.entries.len()
            invariant
                i <= self.entries@.len(),
                all == string_pairs(self.entries@),
                distinct_views(out@),
                forall|k: Seq<char>| listed(out@, k) <==> kept_before(all, k, i as int),
            decreases self.entries@.len() - i,
        {
            let key = &self.entries[i].0;
            let is_last = match self.position(key.as_str()) {
                Some(p) => p == i,
                None => false,
            };
            let keep = is_last && !is_blank_str(self.entries[i].1.as_str());
            assert(keep == kept_at(all, i as int));
            let ghost before = out@;
            if keep {
                let k = key.clone();
                proof {
                    if listed(before, k@) {
                        let m = choose|m: int|
                            0 <= m < i && all[m].0 == k@ && kept_at(all, m);
                        assert(all[i as int].0 == k@);
                    }
                }
                out.push(k);
                proof {
                    lemma_listed_push(before, out@[before.len() as int]);
                    lemma_distinct_push(before, out@[before.len() as int]);
                }
            }
            proof {
                lemma_kept_before_step(all, i as int);
                assert(all[i as int].0 == self.entries@[i as int].0@);
                if keep {
                    assert(out@ == before.push(out@[before.len() as int]));
                    assert(out@[before.len() as int]@ == all[i as int].0);
                } else {
                    assert(out@ == before);
                }
                assert forall|k: Seq<char>| listed(out@, k) <==> kept_before(all, k, i + 1) by {
                    assert(listed(before, k) <==> kept_before(all, k, i as int));
                    assert(kept_before(all, k, i + 1) <==> (kept_before(all, k, i as int) || (all[i as int].0
                        == k && kept_at(all, i as int))));
                    if keep {
                        assert(listed(before.push(out@[before.len() as int]), k) <==> (listed(before, k)
                            || k == out@[before.len() as int]@));
                    }
                }
            }
            i += 1;
        }
        proof {
            lemma_kept_before_all(all);
        }
        assert forall|k: Seq<char>|
            (exists|a: int| 0 <= a < out@.len() && #[trigger] out@[a]@ == k) <==> (
            self@.contains_key(k) && !is_blank(self@[k])) by {
            assert(listed(out@, k) == (exists|a: int| 0 <= a < out@.len() && #[trigger] out@[a]@ == k));
        }
        out
    }

    /// Pairs denoting the map, each key once.
    pub fn to_pairs(&self) -> (r: Vec<(String, String)>)
        ensures
            map_of(string_pairs(r@)) == self@,
    {
        let mut out: Vec<(String, String)> = Vec::new();
        let mut i: usize = 0;
        while i < self.entries.len()
            invariant
                i <= self.entries@.len(),
                string_pairs(out@) == string_pairs(self.entries@).take(i as int),
            decreases self.entries@.len() - i,
        {
            let k = self.entries[i].0.clone();
            let v = self.entries[i].1.clone();
            let ghost before = out@;
            out.push((k, v));
            assert(string_pairs(out@) =~= string_pairs(before).push(string_pairs(self.entries@)[i as int]));
            assert(string_pairs(out@) =~= string_pairs(self.entries@).take(i + 1));
            i += 1;
        }
        assert(string_pairs(self.entries@).take(i as int) =~= string_pairs(self.entries@));
        out
    }

    /// The map the pairs denote, a later pair for a key replacing an earlier
    /// one.
    pub fn from_pairs(pairs: Vec<(String, String)>) -> (r: StringMap)
        ensures
            r@ == map_of(string_pairs(pairs@)),
    {
        let mut r = StringMap::new();
        let mut i: usize = 0;
        while i < pairs.len()
            invariant
                i <= pairs@.len(),
                r@ == map_of(string_pairs(pairs@.take(i as int))),
            decreases pairs@.len() - i,
        {
            let k = pairs[i].0.clone();
            let v = pairs[i].1.clone();
            r.insert(k, v);
            assert(string_pairs(pairs@.take(i + 1)).drop_last() =~= string_pairs(
                pairs@.take(i as int),
            ));
            i += 1;
        }
        assert(pairs@.take(pairs@.len() as int) =~= pairs@);
        r
    }
}


/// The views of slot pairs.
pub open spec fn slot_pairs(s: Seq<(u8, String)>) -> Seq<(u8, Seq<char>)> {
    s.map_values(|p: (u8, String)| (p.0, p.1@))
}

/// The composer quick-action slots: a slot number mapped to a mode id.
#[derive(Debug, Clone)]
pub struct SlotTable {
    slots: HashMap<u8, String>,
}

impl View for SlotTable {
    type V = Map<u8, Seq<char>>;

    closed spec fn view(&self) -> Map<u8, Seq<char>> {
        self.slots@.map_values(|m: String| m@)
    }
}

impl SlotTable {
    pub fn new() -> (r: SlotTable)
        ensures
            r@ == Map::<u8, Seq<char>>::empty(),
    {
        let r = SlotTable { slots: HashMap::new() };
        assert(r@ =~= Map::<u8, Seq<char>>::empty());
        r
    }

    /// The mode id assigned to `slot`.
    pub fn get(&self, slot: u8) -> (r: Option<&String>)
        ensures
            r matches Some(v) ==> self@.contains_key(slot) && self@[slot] == v@,
            r is None ==> !self@.contains_key(slot),
    {
        self.slots.get(&slot)
    }

    /// Assign `mode` to `slot`, replacing what was there.
    pub fn insert(&mut self, slot: u8, mode: String)
        ensures
            final(self)@ == old(self)@.insert(slot, mode@),
    {
        let ghost mv = mode@;
        self.slots.insert(slot, mode);
        assert(self@ =~= old(self)@.insert(slot, mv));
    }

    /// Clear `slot`.
    pub fn remove(&mut self, slot: u8)
        ensures
            final(self)@ == old(self)@.remove(slot),
    {
        self.slots.remove(&slot);
        assert(self@ =~= old(self)@.remove(slot));
    }

    /// The table the pairs denote, a later pair for a slot replacing an
    /// earlier one.
    pub fn from_pairs(pairs: Vec<(u8, String)>) -> (r: SlotTable)
        ensures
            r@ == map_of(slot_pairs(pairs@)),
    {
        let mut r = SlotTable::new();
        let mut i: usize = 0;
        while i < pairs.len()
            invariant
                i <= pairs@.len(),
                r@ == map_of(slot_pairs(pairs@.take(i as int))),
            decreases pairs@.len() - i,
        {
            let k = pairs[i].0;
            let v = pairs[i].1.clone();
            r.insert(k, v);
            assert(slot_pairs(pairs@.take(i + 1)).drop_last() =~= slot_pairs(pairs@.take(i as int)));
            i += 1;
        }
        assert(pairs@.take(pairs@.len() as int) =~= pairs@);
        r
    }

    /// Every assigned slot with its mode id, in increasing slot order.
    pub fn sorted_entries(&self) -> (r: Vec<(u8, String)>)
        ensures
            forall|i: int, j: int| 0 <= i < j < r@.len() ==> r@[i].0 < r@[j].0,
            forall|i: int|
                0 <= i < r@.len() ==> self@.contains_key(#[trigger] r@[i].0) && self@[r@[i].0]
                    == r@[i].1@,
            forall|k: u8| #[trigger]
                self@.contains_key(k) ==> exists|i: int| 0 <= i < r@.len() && r@[i].0 == k,
    {
        let mut out: Vec<(u8, String)> = Vec::new();
        let mut s: u16 = 0;
        while s < 256
            invariant
                s <= 256,
                forall|i: int, j: int| 0 <= i < j < out@.len() ==> out@[i].0 < out@[j].0,
                forall|i: int| 0 <= i < out@.len() ==> (#[trigger] out@[i]).0 < s,
                forall|i: int|
                    0 <= i < out@.len() ==> self@.contains_key(#[trigger] out@[i].0)
                        && self@[out@[i].0] == out@[i].1@,
                forall|k: u8|
                    k < s && #[trigger] self@.contains_key(k) ==> exists|i: int|
                        0 <= i < out@.len() && out@[i].0 == k,
            decreases 256 - s,
        {
            let k = s as u8;
            match self.get(k) {
                Some(v) => {
                    let ghost before = out@;
                    out.push((k, v.clone()));
                    assert forall|q: u8| q < s + 1 && #[trigger] self@.contains_key(q) implies exists|
                        i: int,
                    | 0 <= i < out@.len() && out@[i].0 == q by {
                        if q < s {
                            let i = choose|i: int| 0 <= i < before.len() && before[i].0 == q;
                            assert(out@[i] == before[i]);
                        } else {
                            assert(out@[before.len() as int].0 == q);
                        }
                    }
                },
                None => {},
            }
            s += 1;
        }
        out
    }
}

/// A post-process (transform) provider: an OpenAI-compatible endpoint.
#[derive(Debug)]
pub struct PostProcessProvider {
    pub id: String,
    pub label: String,
    pub base_url: String,
}

impl Clone for PostProcessProvider {
    fn clone(&self) -> (r: PostProcessProvider)
        ensures
            r == *self,
    {
        PostProcessProvider {
            id: self.id.clone(),
            label: self.label.clone(),
            base_url: self.base_url.clone(),
        }
    }
}

/// The first provider in `providers` whose id is `id`.
pub open spec fn provider_with_id(providers: Seq<PostProcessProvider>, id: Seq<char>) -> Option<
    PostProcessProvider,
>
    decreases providers.len(),
{
    if providers.len() == 0 {
        None
    } else if providers[0].id@ == id {
        Some(providers[0])
    } else {
        provider_with_id(providers.drop_first(), id)
    }
}

/// The settings the transform backend reads and writes.
#[derive(Debug, Clone)]
pub struct TransformSettings {
    pub post_process_providers: Vec<PostProcessProvider>,
    /// The id of the active provider.
    pub post_process_provider_id: String,
    /// The model chosen for each provider id.
    pub post_process_models: StringMap,
    /// The API key stored for each provider id.
    pub post_process_api_keys: StringMap,
    /// The reasoning/thinking level for each provider id.
    pub post_process_reasoning_effort: StringMap,
    pub quick_action_slots: SlotTable,
}

impl TransformSettings {
    /// The first provider whose id is `id`.
    pub fn find_provider(&self, id: &str) -> (r: Option<&PostProcessProvider>)
        ensures
            match r {
                Some(p) => provider_with_id(self.post_process_providers@, id@) == Some(*p),
                None => provider_with_id(self.post_process_providers@, id@) is None,
            },
    {
        let ps = &self.post_process_providers;
        let mut i: usize = 0;
        assert(ps@.skip(0) =~= ps@);
        while i < ps.len()
            invariant
                i <= ps@.len(),
                ps@ == self.post_process_providers@,
                provider_with_id(ps@, id@) == provider_with_id(ps@.skip(i as int), id@),
            decreases ps@.len() - i,
        {
            assert(ps@.skip(i as int)[0] == ps@[i as int]);
            assert(ps@.skip(i as int).drop_first() =~= ps@.skip(i + 1));
            if str_eq(ps[i].id.as_str(), id) {
                assert(ps@.skip(i as int).len() > 0);
                assert(ps@.skip(i as int)[0].id@ == id@);
                assert(provider_with_id(ps@.skip(i as int), id@) == Some(ps@[i as int]));
                return Some(&ps[i]);
            }
            i += 1;
        }
        assert(ps@.skip(i as int).len() == 0);
        None
    }

    /// The active provider: the first whose id is the selected one.
    pub fn active_post_process_provider(&self) -> (r: Option<&PostProcessProvider>)
        ensures
            match r {
                Some(p) => provider_with_id(
                    self.post_process_providers@,
                    self.post_process_provider_id@,
                ) == Some(*p),
                None => provider_with_id(
                    self.post_process_providers@,
                    self.post_process_provider_id@,
                ) is None,
            },
    {
        self.find_provider(self.post_process_provider_id.as_str())
    }
}

} // verus!
