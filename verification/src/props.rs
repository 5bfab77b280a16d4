//! The custom-property map of an event: property names to scalar values,
//! keys unique, kept in insertion order so that the serialized form is
//! deterministic.

use vstd::prelude::*;

use crate::json::{json_string, push_json_string, push_char};
use crate::prop_value::{scalar_json, JsonScalar, PropValue, push_prop_value};

verus! {

/// Custom properties for one event, mapping property names to scalar values.
/// Keys are unique; inserting an existing key replaces its value in place.
#[derive(Debug)]
pub struct Props {
    entries: Vec<(String, PropValue)>,
}

impl Clone for Props {
    /// The clone holds the same entries in the same order.
    fn clone(&self) -> (r: Self)
        ensures
            r@ == self@,
    {
        let mut entries: Vec<(String, PropValue)> = Vec::new();
        let mut i: usize = 0;
        while i < self.entries.len()
            invariant
                i <= self.entries.len(),
                entries@.len() == i,
                forall|j: int|
                    0 <= j < i ==> #[trigger] entries@[j].0@ == self.entries@[j].0@
                        && entries@[j].1@ == self.entries@[j].1@,
            decreases self.entries.len() - i,
        {
            let pair = (self.entries[i].0.clone(), self.entries[i].1.clone());
            entries.push(pair);
            i = i + 1;
        }
        let r = Props { entries };
        assert(r@ =~= self@);
        r
    }
}

impl View for Props {
    type V = Seq<(Seq<char>, JsonScalar)>;

    closed spec fn view(&self) -> Seq<(Seq<char>, JsonScalar)> {
        Seq::new(self.entries@.len(), |i: int| (self.entries@[i].0@, self.entries@[i].1@))
    }
}

/// All keys of the entry sequence differ from one another.
pub open spec fn distinct_keys(s: Seq<(Seq<char>, JsonScalar)>) -> bool {
    forall|i: int, j: int| 0 <= i < j < s.len() ==> s[i].0 != s[j].0
}

/// Insertion into an entry sequence: the first entry with the same key is
/// replaced in place; otherwise the new entry goes to the end.
pub open spec fn spec_insert(
    s: Seq<(Seq<char>, JsonScalar)>,
    k: Seq<char>,
    v: JsonScalar,
) -> Seq<(Seq<char>, JsonScalar)>
    decreases s.len(),
{
    if s.len() == 0 {
        seq![(k, v)]
    } else if s[0].0 == k {
        seq![(k, v)] + s.drop_first()
    } else {
        seq![s[0]] + spec_insert(s.drop_first(), k, v)
    }
}

/// Replacing at the first index whose key matches is the same as `spec_insert`.
proof fn lemma_spec_insert_found(
    s: Seq<(Seq<char>, JsonScalar)>,
    k: Seq<char>,
    v: JsonScalar,
    i: int,
)
    requires
        0 <= i < s.len(),
        s[i].0 == k,
        forall|j: int| 0 <= j < i ==> s[j].0 != k,
    ensures
        spec_insert(s, k, v) =~= s.update(i, (k, v)),
    decreases i,
{
    if i == 0 {
    } else {
        lemma_spec_insert_found(s.drop_first(), k, v, i - 1);
    }
}

/// Appending at the end when no key matches is the same as `spec_insert`.
proof fn lemma_spec_insert_missing(s: Seq<(Seq<char>, JsonScalar)>, k: Seq<char>, v: JsonScalar)
    requires
        forall|j: int| 0 <= j < s.len() ==> s[j].0 != k,
    ensures
        spec_insert(s, k, v) =~= s.push((k, v)),
    decreases s.len(),
{
    if s.len() == 0 {
    } else {
        lemma_spec_insert_missing(s.drop_first(), k, v);
    }
}

/// Law: insertion keeps the keys unique.
pub proof fn lemma_insert_keeps_distinct_keys(
    s: Seq<(Seq<char>, JsonScalar)>,
    k: Seq<char>,
    v: JsonScalar,
)
    requires
        distinct_keys(s),
    ensures
        distinct_keys(spec_insert(s, k, v)),
    decreases s.len(),
{
    if s.len() == 0 {
    } else if s[0].0 == k {
        assert(spec_insert(s, k, v) =~= seq![(k, v)] + s.drop_first());
    } else {
        assert(distinct_keys(s.drop_first()));
        lemma_insert_keeps_distinct_keys(s.drop_first(), k, v);
        lemma_insert_keys(s.drop_first(), k, v);
        assert(spec_insert(s, k, v) =~= seq![s[0]] + spec_insert(s.drop_first(), k, v));
    }
}

/// Every key after an insertion is either an old key or the inserted one.
proof fn lemma_insert_keys(s: Seq<(Seq<char>, JsonScalar)>, k: Seq<char>, v: JsonScalar)
    ensures
        forall|j: int|
            0 <= j < spec_insert(s, k, v).len() ==> #[trigger] spec_insert(s, k, v)[j].0 == k
                || exists|m: int| 0 <= m < s.len() && spec_insert(s, k, v)[j].0 == s[m].0,
    decreases s.len(),
{
    if s.len() == 0 {
    } else if s[0].0 == k {
    } else {
        lemma_insert_keys(s.drop_first(), k, v);
        assert forall|j: int| 0 <= j < spec_insert(s, k, v).len() implies #[trigger] spec_insert(
            s,
            k,
            v,
        )[j].0 == k || exists|m: int| 0 <= m < s.len() && spec_insert(s, k, v)[j].0 == s[m].0 by {
            if j == 0 {
                assert(spec_insert(s, k, v)[0].0 == s[0].0);
            } else {
                let t = spec_insert(s.drop_first(), k, v);
                assert(spec_insert(s, k, v)[j] == t[j - 1]);
                if t[j - 1].0 != k {
                    let m = choose|m: int| 0 <= m < s.drop_first().len() && t[j - 1].0
                        == s.drop_first()[m].0;
                    assert(s.drop_first()[m] == s[m + 1]);
                }
            }
        }
    }
}

impl Props {
    /// An empty property map.
    pub fn new() -> (r: Self)
        ensures
            r@ =~= Seq::<(Seq<char>, JsonScalar)>::empty(),
            distinct_keys(r@),
    {
        Props { entries: Vec::new() }
    }

    /// The number of properties held.
    pub fn len(&self) -> (n: usize)
        ensures
            n == self@.len(),
    {
        self.entries.len()
    }

    /// Sets one property: replaces the value of an existing key in place,
    /// otherwise appends the new pair at the end.
    pub fn insert(&mut self, key: String, value: PropValue)
        ensures
            final(self)@ =~= spec_insert(old(self)@, key@, value@),
            distinct_keys(old(self)@) ==> distinct_keys(final(self)@),
    {
        proof {
            if distinct_keys(self@) {
                lemma_insert_keeps_distinct_keys(self@, key@, value@);
            }
        }
        let mut i: usize = 0;
        while i < self.entries.len()
            invariant
                i <= self.entries.len(),
                self@ =~= old(self)@,
                forall|j: int| 0 <= j < i ==> old(self)@[j].0 != key@,
            decreases self.entries.len() - i,
        {
            if self.entries[i].0 == key {
                proof {
                    assert(old(self)@[i as int].0 == key@);
                }
                let _ = self.entries.remove(i);
                self.entries.insert(i, (key, value));
                proof {
                    lemma_spec_insert_found(old(self)@, key@, value@, i as int);
                    assert(self@ =~= old(self)@.update(i as int, (key@, value@)));
                }
                return ;
            }
            i = i + 1;
        }
        self.entries.push((key, value));
        proof {
            lemma_spec_insert_missing(old(self)@, key@, value@);
            assert(self@ =~= old(self)@.push((key@, value@)));
        }
    }
}

/// The JSON form of one property: the quoted key, a colon, the bare value.
pub open spec fn member_json(e: (Seq<char>, JsonScalar)) -> Seq<char> {
    json_string(e.0) + seq![':'] + scalar_json(e.1)
}

/// The comma-separated members of a property object, in entry order.
pub open spec fn props_members(entries: Seq<(Seq<char>, JsonScalar)>) -> Seq<char>
    decreases entries.len(),
{
    if entries.len() == 0 {
        Seq::empty()
    } else if entries.len() == 1 {
        member_json(entries[0])
    } else {
        props_members(entries.drop_last()) + seq![','] + member_json(entries.last())
    }
}

/// The JSON form of a property map: an object of its members, in entry order.
pub open spec fn props_json(entries: Seq<(Seq<char>, JsonScalar)>) -> Seq<char> {
    seq!['{'] + props_members(entries) + seq!['}']
}

impl Props {
    /// Appends the JSON object holding these properties.
    pub fn append_json(&self, out: &mut String)
        ensures
            final(out)@ == old(out)@ + props_json(self@),
    {
        push_char(out, '{');
        let n = self.entries.len();
        let mut i: usize = 0;
        while i < n
            invariant
                i <= n,
                n == self.entries.len(),
                out@ == old(out)@ + seq!['{'] + props_members(self@.subrange(0, i as int)),
            decreases n - i,
        {
            if i > 0 {
                push_char(out, ',');
            }
            push_json_string(out, self.entries[i].0.as_str());
            push_char(out, ':');
            push_prop_value(out, &self.entries[i].1);
            proof {
                let pre = self@.subrange(0, i as int + 1);
                assert(pre.drop_last() =~= self@.subrange(0, i as int));
                assert(pre.last() == self@[i as int]);
                assert(self@[i as int].0 == self.entries@[i as int].0@);
                assert(self@[i as int].1 == self.entries@[i as int].1@);
                assert(out@ =~= old(out)@ + seq!['{'] + props_members(pre));
            }
            i = i + 1;
        }
        assert(self@.subrange(0, n as int) =~= self@);
        push_char(out, '}');
        assert(out@ =~= old(out)@ + props_json(self@));
    }
}

} // verus!
