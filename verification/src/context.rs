//! The key-value context of a logger: string keys, each at most once, in the
//! order in which they were first written; a later write of a key replaces
//! its value where the key stands.

use crate::json::{clone_value, json_text, string_value, text_value, value_to_json};
use serde_json::Value;
use vstd::prelude::*;
use vstd::string::StringExecFns;

verus! {

/// The model of a context: its keys and values in order.
pub type Pairs = Seq<(Seq<char>, Value)>;

/// No key stands at two places.
pub open spec fn distinct_keys(s: Pairs) -> bool {
    forall|i: int, j: int| 0 <= i < j < s.len() ==> s[i].0 != s[j].0
}

/// Some entry has the key.
pub open spec fn has_key(s: Pairs, k: Seq<char>) -> bool {
    exists|i: int| 0 <= i < s.len() && (#[trigger] s[i]).0 == k
}

/// A place at which the key stands, where `has_key` holds.
pub open spec fn key_index(s: Pairs, k: Seq<char>) -> int {
    choose|i: int| 0 <= i < s.len() && (#[trigger] s[i]).0 == k
}

/// Writing a key: its value is replaced in place where the key is present,
/// and the pair is appended where it is not.
pub open spec fn put(s: Pairs, k: Seq<char>, v: Value) -> Pairs {
    if has_key(s, k) {
        s.update(key_index(s, k), (k, v))
    } else {
        s.push((k, v))
    }
}

/// Writing each pair of `additions`, in order, onto `base`: on a shared key
/// the last write wins.
pub open spec fn merged(base: Pairs, additions: Pairs) -> Pairs
    decreases additions.len(),
{
    if additions.len() == 0 {
        base
    } else {
        put(merged(base, additions.drop_last()), additions.last().0, additions.last().1)
    }
}

/// The text of one member of a JSON object, `"key":value`; `None` where the
/// key or the value has no JSON text.
pub open spec fn member_text(k: Seq<char>, v: Value) -> Option<Seq<char>> {
    match (json_text(text_value(k)), json_text(v)) {
        (Some(a), Some(b)) => Some(a + ":"@ + b),
        _ => None,
    }
}

/// The members of a JSON object, separated by commas, in the order of the
/// pairs; `None` where one of them has no JSON text.
pub open spec fn members_text(s: Pairs) -> Option<Seq<char>>
    decreases s.len(),
{
    if s.len() == 0 {
        Some(Seq::empty())
    } else {
        match (members_text(s.drop_last()), member_text(s.last().0, s.last().1)) {
            (Some(head), Some(m)) => Some(
                if s.len() == 1 {
                    m
                } else {
                    head + ","@ + m
                },
            ),
            _ => None,
        }
    }
}

/// The compact JSON object of the pairs.
pub open spec fn object_text(s: Pairs) -> Option<Seq<char>> {
    match members_text(s) {
        Some(m) => Some("{"@ + m + "}"@),
        None => None,
    }
}

/// Writing a key keeps the keys distinct.
pub proof fn lemma_put_distinct(s: Pairs, k: Seq<char>, v: Value)
    requires
        distinct_keys(s),
    ensures
        distinct_keys(put(s, k, v)),
        has_key(put(s, k, v), k),
        put(s, k, v).len() == (if has_key(s, k) { s.len() } else { s.len() + 1 }),
{
    let t = put(s, k, v);
    if has_key(s, k) {
        let c = key_index(s, k);
        assert(t[c].0 == k);
        assert forall|i: int, j: int| 0 <= i < j < t.len() implies t[i].0 != t[j].0 by {
            assert(s[i].0 != s[j].0);
        }
    } else {
        assert(t[s.len() as int].0 == k);
        assert forall|i: int, j: int| 0 <= i < j < t.len() implies t[i].0 != t[j].0 by {
            if j < s.len() {
                assert(s[i].0 != s[j].0);
            } else {
                assert(s[i].0 != k);
            }
        }
    }
}

/// Merging keeps the keys distinct.
pub proof fn lemma_merged_distinct(base: Pairs, additions: Pairs)
    requires
        distinct_keys(base),
    ensures
        distinct_keys(merged(base, additions)),
    decreases additions.len(),
{
    if additions.len() > 0 {
        lemma_merged_distinct(base, additions.drop_last());
        lemma_put_distinct(
            merged(base, additions.drop_last()),
            additions.last().0,
            additions.last().1,
        );
    }
}

/// Where a prefix of the pairs has no JSON text, the whole has none.
pub proof fn lemma_members_prefix(s: Pairs, n: int)
    requires
        0 <= n <= s.len(),
        members_text(s.take(n)) is None,
    ensures
        members_text(s) is None,
    decreases s.len(),
{
    if n == s.len() {
        assert(s.take(n) =~= s);
    } else {
        assert(s.drop_last().take(n) =~= s.take(n));
        lemma_members_prefix(s.drop_last(), n);
    }
}

/// After a key is written, the keys are those that were there and the
/// written one.
pub proof fn lemma_put_keys(s: Pairs, k: Seq<char>, v: Value, other: Seq<char>)
    ensures
        has_key(put(s, k, v), other) <==> (has_key(s, other) || other == k),
{
    let t = put(s, k, v);
    if has_key(s, k) {
        let c = key_index(s, k);
        if has_key(s, other) {
            let j = key_index(s, other);
            assert(t[j].0 == other);
        }
        if has_key(t, other) {
            let j = key_index(t, other);
            if j != c {
                assert(s[j].0 == other);
            }
        }
        if other == k {
            assert(t[c].0 == other);
        }
    } else {
        if has_key(s, other) {
            let j = key_index(s, other);
            assert(t[j].0 == other);
        }
        if other == k {
            assert(t[s.len() as int].0 == k);
        }
        if has_key(t, other) {
            let j = key_index(t, other);
            if j < s.len() {
                assert(s[j].0 == other);
            }
        }
    }
}

/// Writing the key that stands at place `i` replaces the value there.
pub proof fn lemma_put_at(s: Pairs, i: int, v: Value)
    requires
        distinct_keys(s),
        0 <= i < s.len(),
    ensures
        put(s, s[i].0, v) == s.update(i, (s[i].0, v)),
{
    let k = s[i].0;
    assert(has_key(s, k));
    let c = key_index(s, k);
    if c < i {
        assert(s[c].0 != s[i].0);
    } else if c > i {
        assert(s[i].0 != s[c].0);
    }
}

/// Of two writes of one key only the second counts.
pub proof fn lemma_put_twice(s: Pairs, k: Seq<char>, a: Value, b: Value)
    requires
        distinct_keys(s),
    ensures
        put(put(s, k, a), k, b) == put(s, k, b),
{
    lemma_put_distinct(s, k, a);
    let t = put(s, k, a);
    if has_key(s, k) {
        let c = key_index(s, k);
        assert(t[c].0 == k);
        lemma_put_at(t, c, b);
        assert(t.update(c, (k, b)) =~= s.update(c, (k, b)));
    } else {
        let n = s.len() as int;
        assert(t[n].0 == k);
        lemma_put_at(t, n, b);
        assert(t.update(n, (k, b)) =~= s.push((k, b)));
    }
}

/// The write of a key that is present commutes with the write of another
/// key.
pub proof fn lemma_put_commutes(s: Pairs, k: Seq<char>, v: Value, k2: Seq<char>, w: Value)
    requires
        distinct_keys(s),
        has_key(s, k),
        k != k2,
    ensures
        put(put(s, k, v), k2, w) == put(put(s, k2, w), k, v),
{
    let i = key_index(s, k);
    let x = put(s, k, v);
    let y = put(s, k2, w);
    lemma_put_distinct(s, k, v);
    lemma_put_distinct(s, k2, w);
    lemma_put_keys(s, k, v, k2);
    assert(y[i].0 == k);
    lemma_put_at(y, i, v);
    if has_key(s, k2) {
        let j = key_index(s, k2);
        assert(x[j].0 == k2);
        lemma_put_at(x, j, w);
        assert(x.update(j, (k2, w)) =~= y.update(i, (k, v)));
    } else {
        assert(x.push((k2, w)) =~= y.update(i, (k, v)));
    }
}

/// The keys of a merge are those of its two sides.
pub proof fn lemma_merged_keys(base: Pairs, additions: Pairs, k: Seq<char>)
    ensures
        has_key(merged(base, additions), k) <==> (has_key(base, k) || has_key(additions, k)),
    decreases additions.len(),
{
    if additions.len() > 0 {
        let h = additions.drop_last();
        let e = additions.last();
        lemma_merged_keys(base, h, k);
        lemma_put_keys(merged(base, h), e.0, e.1, k);
        if has_key(additions, k) {
            let j = key_index(additions, k);
            if j < h.len() {
                assert(h[j].0 == k);
            }
        }
        if has_key(h, k) {
            let j = key_index(h, k);
            assert(additions[j].0 == k);
        }
        if k == e.0 {
            assert(additions[additions.len() - 1].0 == k);
        }
    }
}

/// Replacing a value in the additions is the same as writing that key after
/// the merge.
pub proof fn lemma_merged_update(base: Pairs, additions: Pairs, i: int, v: Value)
    requires
        distinct_keys(base),
        distinct_keys(additions),
        0 <= i < additions.len(),
    ensures
        merged(base, additions.update(i, (additions[i].0, v))) == put(
            merged(base, additions),
            additions[i].0,
            v,
        ),
    decreases additions.len(),
{
    let k = additions[i].0;
    let h = additions.drop_last();
    let e = additions.last();
    let changed = additions.update(i, (k, v));
    lemma_merged_distinct(base, h);
    if i == additions.len() - 1 {
        assert(changed.drop_last() =~= h);
        lemma_put_twice(merged(base, h), k, e.1, v);
    } else {
        assert(changed.drop_last() =~= h.update(i, (h[i].0, v)));
        assert(changed.last() == e);
        assert(additions[i].0 != additions[additions.len() - 1].0);
        lemma_merged_update(base, h, i, v);
        assert(h[i].0 == k);
        lemma_merged_keys(base, h, k);
        lemma_put_commutes(merged(base, h), k, v, e.0, e.1);
    }
}

/// Writing a key into the additions is the same as writing it after the
/// merge.
pub proof fn lemma_merged_put(base: Pairs, additions: Pairs, k: Seq<char>, v: Value)
    requires
        distinct_keys(base),
        distinct_keys(additions),
    ensures
        merged(base, put(additions, k, v)) == put(merged(base, additions), k, v),
{
    if has_key(additions, k) {
        let i = key_index(additions, k);
        lemma_merged_update(base, additions, i, v);
    } else {
        assert(additions.push((k, v)).drop_last() =~= additions);
    }
}

/// Merging nothing into a context leaves it as it is.
pub proof fn merge_of_nothing(base: Pairs)
    ensures
        merged(base, Seq::empty()) == base,
{
}

/// Extending a context by `first` and then by `second` gives the same pairs,
/// in the same order, as extending it once by `second` merged into `first`.
pub proof fn merge_in_steps_or_at_once(base: Pairs, first: Pairs, second: Pairs)
    requires
        distinct_keys(base),
        distinct_keys(first),
    ensures
        merged(merged(base, first), second) == merged(base, merged(first, second)),
    decreases second.len(),
{
    if second.len() > 0 {
        let h = second.drop_last();
        let e = second.last();
        merge_in_steps_or_at_once(base, first, h);
        lemma_merged_distinct(first, h);
        lemma_merged_put(base, merged(first, h), e.0, e.1);
    }
}

/// A logger's accumulated key-value pairs.
#[derive(Debug)]
pub struct Context {
    entries: Vec<(String, Value)>,
}

/// The pairs that a vector of entries stands for.
pub open spec fn pairs_of(entries: Seq<(String, Value)>) -> Pairs {
    Seq::new(entries.len(), |i: int| (entries[i].0@, entries[i].1))
}

impl Clone for Context {
    /// A copy with the same pairs.
    fn clone(&self) -> (r: Self)
        ensures
            r@ == self@,
    {
        self.duplicate()
    }
}

impl View for Context {
    type V = Pairs;

    closed spec fn view(&self) -> Pairs {
        pairs_of(self.entries@)
    }
}

impl Context {
    /// The invariant of a context: every key stands once.
    #[verifier::type_invariant]
    pub open spec fn inv(self) -> bool {
        distinct_keys(self@)
    }

    /// The empty context.
    pub fn new() -> (r: Self)
        ensures
            r@ == Seq::<(Seq<char>, Value)>::empty(),
    {
        let entries: Vec<(String, Value)> = Vec::new();
        assert(pairs_of(entries@) =~= Seq::<(Seq<char>, Value)>::empty());
        Context { entries }
    }

    /// The number of keys.
    pub fn len(&self) -> (n: usize)
        ensures
            n == self@.len(),
            distinct_keys(self@),
    {
        proof {
            use_type_invariant(self);
        }
        self.entries.len()
    }

    /// The value written last under `key`, where the key is present.
    pub fn get(&self, key: &str) -> (r: Option<&Value>)
        ensures
            match r {
                Some(v) => has_key(self@, key@) && *v == self@[key_index(self@, key@)].1,
                None => !has_key(self@, key@),
            },
    {
        let owned = String::from_str(key);
        match self.position(&owned) {
            Some(i) => Some(&self.entries[i].1),
            None => None,
        }
    }

    /// The place of `key`, where it is present.
    pub fn position(&self, key: &String) -> (r: Option<usize>)
        ensures
            match r {
                Some(i) => has_key(self@, key@) && i as int == key_index(self@, key@),
                None => !has_key(self@, key@),
            },
    {
        proof {
            use_type_invariant(self);
        }
        let n = self.entries.len();
        let mut i: usize = 0;
        while i < n
            invariant
                n == self.entries@.len(),
                i <= n,
                distinct_keys(self@),
                forall|j: int| 0 <= j < i ==> (#[trigger] self@[j]).0 != key@,
            decreases n - i,
        {
            if self.entries[i].0 == *key {
                assert(self@[i as int].0 == key@);
                let ghost c = key_index(self@, key@);
                assert(c == i) by {
                    if c < i {
                        assert(self@[c].0 != self@[i as int].0);
                    } else if c > i {
                        assert(self@[i as int].0 != self@[c].0);
                    }
                }
                return Some(i);
            }
            i = i + 1;
        }
        None
    }

    /// Writes `value` under `key`: replaces the value of a present key where
    /// it stands, appends an absent one.
    pub fn insert(&mut self, key: String, value: Value)
        ensures
            final(self)@ == put(old(self)@, key@, value),
            distinct_keys(final(self)@),
    {
        proof {
            use_type_invariant(&*self);
            lemma_put_distinct(self@, key@, value);
        }
        let found = self.position(&key);
        let mut entries: Vec<(String, Value)> = Vec::new();
        assert(pairs_of(entries@) =~= Seq::<(Seq<char>, Value)>::empty());
        std::mem::swap(&mut entries, &mut self.entries);
        match found {
            Some(i) => {
                entries.set(i, (key, value));
            },
            None => {
                entries.push((key, value));
            },
        }
        assert(pairs_of(entries@) =~= put(old(self)@, key@, value));
        self.entries = entries;
    }

    /// A copy with the same pairs.
    pub fn duplicate(&self) -> (r: Self)
        ensures
            r@ == self@,
            distinct_keys(r@),
    {
        let mut entries: Vec<(String, Value)> = Vec::new();
        let n = self.entries.len();
        let mut i: usize = 0;
        while i < n
            invariant
                n == self.entries@.len(),
                i <= n,
                entries@.len() == i,
                forall|j: int|
                    0 <= j < i ==> (#[trigger] entries@[j]).0@ == self.entries@[j].0@
                        && entries@[j].1 == self.entries@[j].1,
            decreases n - i,
        {
            let k = self.entries[i].0.clone();
            let v = clone_value(&self.entries[i].1);
            entries.push((k, v));
            i = i + 1;
        }
        proof {
            use_type_invariant(self);
            assert(pairs_of(entries@) =~= self@);
        }
        Context { entries }
    }

    /// Writes every pair of `additions`, in order: on a shared key the value
    /// of `additions` wins.
    pub fn extend(&mut self, additions: &Context)
        ensures
            final(self)@ == merged(old(self)@, additions@),
            distinct_keys(final(self)@),
    {
        proof {
            use_type_invariant(&*self);
        }
        let n = additions.entries.len();
        let mut i: usize = 0;
        while i < n
            invariant
                n == additions.entries@.len(),
                n == additions@.len(),
                i <= n,
                distinct_keys(self@),
                self@ == merged(old(self)@, additions@.take(i as int)),
            decreases n - i,
        {
            let k = additions.entries[i].0.clone();
            let v = clone_value(&additions.entries[i].1);
            proof {
                let t = additions@.take(i as int + 1);
                assert(t.drop_last() =~= additions@.take(i as int));
                assert(t.last() == additions@[i as int]);
                assert(additions@[i as int] == (k@, v));
            }
            self.insert(k, v);
            i = i + 1;
        }
        assert(additions@.take(n as int) =~= additions@);
    }

    /// The context as one compact JSON object, its members in the order of
    /// the keys; `None` where a key or a value has no JSON text.
    pub fn to_json(&self) -> (r: Option<String>)
        ensures
            match r {
                Some(s) => object_text(self@) == Some(s@),
                None => object_text(self@) is None,
            },
    {
        let mut out = String::from_str("{");
        let ghost mut body: Seq<char> = Seq::empty();
        let n = self.entries.len();
        let mut i: usize = 0;
        while i < n
            invariant
                n == self.entries@.len(),
                n == self@.len(),
                i <= n,
                members_text(self@.take(i as int)) == Some(body),
                out@ == "{"@ + body,
            decreases n - i,
        {
            let ghost t = self@.take(i as int + 1);
            proof {
                assert(t.drop_last() =~= self@.take(i as int));
                assert(t.last() == self@[i as int]);
                assert(self@[i as int] == (self.entries@[i as int].0@, self.entries@[i as int].1));
            }
            let name = string_value(self.entries[i].0.as_str());
            let key_text = match value_to_json(&name) {
                Ok(s) => s,
                Err(_) => {
                    proof {
                        lemma_members_prefix(self@, i as int + 1);
                    }
                    return None;
                },
            };
            let value_text = match value_to_json(&self.entries[i].1) {
                Ok(s) => s,
                Err(_) => {
                    proof {
                        lemma_members_prefix(self@, i as int + 1);
                    }
                    return None;
                },
            };
            if i > 0 {
                out.append(",");
            }
            out.append(key_text.as_str());
            out.append(":");
            out.append(value_text.as_str());
            proof {
                let m = key_text@ + ":"@ + value_text@;
                assert(member_text(t.last().0, t.last().1) == Some(m));
                let next = if i == 0 { m } else { body + ","@ + m };
                assert(members_text(t) == Some(next));
                if i == 0 {
                    assert(body =~= Seq::<char>::empty());
                }
                assert(out@ =~= "{"@ + next);
                body = next;
            }
            i = i + 1;
        }
        assert(self@.take(n as int) =~= self@);
        out.append("}");
        Some(out)
    }
}

} // verus!
