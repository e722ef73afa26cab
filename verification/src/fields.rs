//! Ordered field map backing every request builder.
//!
//! A builder's body or query parameters are a sequence of named JSON values.
//! Fields keep the order in which they were first set; setting a field that
//! is already present replaces its value in place, so the last write wins and
//! nothing is ever merged. A field that was never set does not exist here at
//! all, which is what keeps unset optional parameters off the wire.

use vstd::prelude::*;
use vstd::pervasive::VecAdditionalExecFns;

use crate::json::{jview, jview_pairs, Json, JsonVal};

verus! {

/// First index holding key `k`, or -1 when `k` is absent.
pub open spec fn fm_index(s: Seq<(Seq<char>, JsonVal)>, k: Seq<char>) -> int
    decreases s.len(),
{
    if s.len() == 0 {
        -1
    } else if s[0].0 == k {
        0
    } else {
        let r = fm_index(s.drop_first(), k);
        if r < 0 {
            -1
        } else {
            r + 1
        }
    }
}

/// Whether some field holds key `k`.
pub open spec fn fm_has(s: Seq<(Seq<char>, JsonVal)>, k: Seq<char>) -> bool {
    fm_index(s, k) >= 0
}

/// The value of the first field with key `k`.
pub open spec fn fm_get(s: Seq<(Seq<char>, JsonVal)>, k: Seq<char>) -> Option<JsonVal> {
    if fm_has(s, k) {
        Some(s[fm_index(s, k)].1)
    } else {
        None
    }
}

/// Setting key `k` to `v`: replaces the first field with that key in place,
/// or appends a new field at the end.
pub open spec fn fm_set(
    s: Seq<(Seq<char>, JsonVal)>,
    k: Seq<char>,
    v: JsonVal,
) -> Seq<(Seq<char>, JsonVal)> {
    if fm_has(s, k) {
        s.update(fm_index(s, k), (k, v))
    } else {
        s.push((k, v))
    }
}

/// The set of keys present.
pub open spec fn fm_keys(s: Seq<(Seq<char>, JsonVal)>) -> Set<Seq<char>> {
    s.map_values(|p: (Seq<char>, JsonVal)| p.0).to_set()
}

/// `fm_index` finds a valid position with the key, and only when the key is
/// present somewhere.
pub proof fn lemma_fm_index(s: Seq<(Seq<char>, JsonVal)>, k: Seq<char>)
    ensures
        fm_index(s, k) >= 0 ==> fm_index(s, k) < s.len() && s[fm_index(s, k)].0 == k,
        fm_index(s, k) < 0 ==> forall|i: int| 0 <= i < s.len() ==> s[i].0 != k,
    decreases s.len(),
{
    if s.len() > 0 && s[0].0 != k {
        lemma_fm_index(s.drop_first(), k);
        if fm_index(s, k) < 0 {
            assert forall|i: int| 0 <= i < s.len() implies s[i].0 != k by {
                if i > 0 {
                    assert(s.drop_first()[i - 1] == s[i]);
                }
            }
        }
    }
}

/// `fm_index` ignores positions after an update elsewhere, and key membership
/// is what `fm_keys` says.
pub proof fn lemma_fm_keys(s: Seq<(Seq<char>, JsonVal)>, k: Seq<char>)
    ensures
        fm_keys(s).contains(k) <==> fm_has(s, k),
{
    lemma_fm_index(s, k);
    let m = s.map_values(|p: (Seq<char>, JsonVal)| p.0);
    if fm_has(s, k) {
        assert(m[fm_index(s, k)] == k);
        assert(m.to_set().contains(m[fm_index(s, k)]));
    }
    if fm_keys(s).contains(k) {
        let i = choose|i: int| 0 <= i < m.len() && m[i] == k;
        assert(s[i].0 == k);
    }
}

/// Keys after a set: exactly the old keys plus the one that was set. With no
/// optional setter invoked nothing is ever added, so an unset field never
/// reaches the wire.
pub proof fn lemma_fm_set_keys(s: Seq<(Seq<char>, JsonVal)>, k: Seq<char>, v: JsonVal)
    ensures
        fm_keys(fm_set(s, k, v)) == fm_keys(s).insert(k),
{
    lemma_fm_index(s, k);
    let t = fm_set(s, k, v);
    let ms = s.map_values(|p: (Seq<char>, JsonVal)| p.0);
    let mt = t.map_values(|p: (Seq<char>, JsonVal)| p.0);
    assert forall|x: Seq<char>| fm_keys(t).contains(x) implies fm_keys(s).insert(k).contains(x) by {
        let i = choose|i: int| 0 <= i < mt.len() && mt[i] == x;
        if fm_has(s, k) {
            if i == fm_index(s, k) {
                assert(x == k);
            } else {
                assert(s[i].0 == x);
                assert(ms[i] == x);
                assert(ms.to_set().contains(ms[i]));
            }
        } else {
            if i < s.len() {
                assert(ms[i] == x);
                assert(ms.to_set().contains(ms[i]));
            } else {
                assert(x == k);
            }
        }
    }
    assert forall|x: Seq<char>| fm_keys(s).insert(k).contains(x) implies fm_keys(t).contains(x) by {
        if x == k {
            if fm_has(s, k) {
                assert(t[fm_index(s, k)].0 == k);
                assert(mt[fm_index(s, k)] == k);
                assert(mt.to_set().contains(mt[fm_index(s, k)]));
            } else {
                assert(t[s.len() as int].0 == k);
                assert(mt[s.len() as int] == k);
                assert(mt.to_set().contains(mt[s.len() as int]));
            }
        } else {
            let i = choose|i: int| 0 <= i < ms.len() && ms[i] == x;
            assert(s[i].0 == x);
            if fm_has(s, k) && i == fm_index(s, k) {
                lemma_fm_index(s, k);
                assert(x == k);
            } else {
                assert(t[i].0 == x);
                assert(mt[i] == x);
                assert(mt.to_set().contains(mt[i]));
            }
        }
    }
    assert(fm_keys(t) =~= fm_keys(s).insert(k));
}

/// A fresh map has no keys at all.
pub proof fn lemma_fm_empty_keys()
    ensures
        fm_keys(Seq::<(Seq<char>, JsonVal)>::empty()) == Set::<Seq<char>>::empty(),
{
    let e = Seq::<(Seq<char>, JsonVal)>::empty();
    assert(e.map_values(|p: (Seq<char>, JsonVal)| p.0).len() == 0);
    assert(fm_keys(e) =~= Set::<Seq<char>>::empty());
}

/// The position of key `k` is unchanged by setting key `k`.
proof fn lemma_fm_index_set_same(s: Seq<(Seq<char>, JsonVal)>, k: Seq<char>, v: JsonVal)
    ensures
        fm_has(s, k) ==> fm_index(fm_set(s, k, v), k) == fm_index(s, k),
        !fm_has(s, k) ==> fm_index(fm_set(s, k, v), k) == s.len(),
    decreases s.len(),
{
    lemma_fm_index(s, k);
    if s.len() == 0 {
        assert(fm_set(s, k, v) == s.push((k, v)));
        assert(fm_set(s, k, v)[0].0 == k);
    } else if s[0].0 == k {
        assert(fm_set(s, k, v)[0].0 == k);
    } else {
        lemma_fm_index_set_same(s.drop_first(), k, v);
        if fm_has(s, k) {
            assert(fm_set(s, k, v).drop_first() =~= fm_set(s.drop_first(), k, v));
            assert(fm_set(s, k, v)[0].0 == s[0].0);
        } else {
            assert(fm_set(s, k, v).drop_first() =~= fm_set(s.drop_first(), k, v));
            assert(fm_set(s, k, v)[0].0 == s[0].0);
        }
    }
}

/// Reading back what was set: the set key holds the new value, every other
/// key is untouched.
pub proof fn lemma_fm_set_get(s: Seq<(Seq<char>, JsonVal)>, k: Seq<char>, v: JsonVal, k2: Seq<char>)
    ensures
        fm_get(fm_set(s, k, v), k) == Some(v),
        k2 != k ==> fm_get(fm_set(s, k, v), k2) == fm_get(s, k2),
    decreases s.len(),
{
    lemma_fm_index(s, k);
    lemma_fm_index_set_same(s, k, v);
    let t = fm_set(s, k, v);
    if fm_has(s, k) {
        assert(t[fm_index(s, k)] == (k, v));
    } else {
        assert(t[s.len() as int] == (k, v));
    }
    if k2 != k {
        if s.len() == 0 {
            lemma_fm_index(t, k2);
            assert(fm_index(t, k2) < 0) by {
                if fm_index(t, k2) >= 0 {
                    assert(t[fm_index(t, k2)].0 == k2);
                    assert(t.len() == 1 && t[0].0 == k);
                }
            }
        } else if s[0].0 == k {
            assert(t.drop_first() =~= s.drop_first());
            lemma_fm_step(t, k2);
            lemma_fm_step(s, k2);
        } else {
            lemma_fm_set_get(s.drop_first(), k, v, k2);
            assert(t.drop_first() =~= fm_set(s.drop_first(), k, v));
            assert(t[0] == s[0]);
            lemma_fm_step(t, k2);
            lemma_fm_step(s, k2);
        }
    }
}

/// Unfolding `fm_get` one element at a time.
proof fn lemma_fm_step(s: Seq<(Seq<char>, JsonVal)>, k: Seq<char>)
    requires
        s.len() > 0,
    ensures
        s[0].0 == k ==> fm_get(s, k) == Some(s[0].1),
        s[0].0 != k ==> fm_get(s, k) == fm_get(s.drop_first(), k),
{
    lemma_fm_index(s, k);
    lemma_fm_index(s.drop_first(), k);
    if s[0].0 != k && fm_has(s.drop_first(), k) {
        assert(s[fm_index(s, k)].1 == s.drop_first()[fm_index(s.drop_first(), k)].1);
    }
}

/// Last write wins: setting a key twice is exactly setting it once with the
/// second value; nothing is merged and no duplicate field appears.
pub proof fn lemma_fm_set_twice(
    s: Seq<(Seq<char>, JsonVal)>,
    k: Seq<char>,
    v1: JsonVal,
    v2: JsonVal,
)
    ensures
        fm_set(fm_set(s, k, v1), k, v2) == fm_set(s, k, v2),
{
    lemma_fm_index(s, k);
    lemma_fm_index_set_same(s, k, v1);
    let t = fm_set(s, k, v1);
    if fm_has(s, k) {
        assert(t[fm_index(s, k)].0 == k);
        assert(fm_has(t, k));
        assert(fm_set(t, k, v2) =~= fm_set(s, k, v2));
    } else {
        assert(t[s.len() as int].0 == k);
        assert(fm_has(t, k));
        assert(fm_set(t, k, v2) =~= fm_set(s, k, v2));
    }
}

/// Any run of sets, applied in order to the empty map: how every builder's
/// field map comes to be, required seeds first, then the setters invoked.
pub open spec fn fm_set_all(ops: Seq<(Seq<char>, JsonVal)>) -> Seq<(Seq<char>, JsonVal)>
    decreases ops.len(),
{
    if ops.len() == 0 {
        Seq::empty()
    } else {
        fm_set(fm_set_all(ops.drop_last()), ops.last().0, ops.last().1)
    }
}

/// The keys of a run of sets, as a set.
pub open spec fn op_keys(ops: Seq<(Seq<char>, JsonVal)>) -> Set<Seq<char>> {
    ops.map_values(|p: (Seq<char>, JsonVal)| p.0).to_set()
}

/// The wire payload holds exactly the fields that were set: after any run
/// of sets on a fresh map, the key set of the result is the key set of the
/// run. In particular, with no optional setter invoked, no optional key is
/// in the payload.
pub proof fn lemma_payload_keys(ops: Seq<(Seq<char>, JsonVal)>)
    ensures
        fm_keys(fm_set_all(ops)) == op_keys(ops),
    decreases ops.len(),
{
    let m = ops.map_values(|p: (Seq<char>, JsonVal)| p.0);
    if ops.len() == 0 {
        lemma_fm_empty_keys();
        assert(op_keys(ops) =~= Set::<Seq<char>>::empty());
    } else {
        lemma_payload_keys(ops.drop_last());
        lemma_fm_set_keys(fm_set_all(ops.drop_last()), ops.last().0, ops.last().1);
        let md = ops.drop_last().map_values(|p: (Seq<char>, JsonVal)| p.0);
        assert(md =~= m.drop_last());
        assert forall|x: Seq<char>| op_keys(ops).contains(x) implies op_keys(
            ops.drop_last()).insert(ops.last().0).contains(x) by {
            let i = choose|i: int| 0 <= i < m.len() && m[i] == x;
            if i < m.len() - 1 {
                assert(md[i] == x);
                assert(md.to_set().contains(md[i]));
            } else {
                assert(x == ops.last().0);
            }
        }
        assert forall|x: Seq<char>| op_keys(ops.drop_last()).insert(ops.last().0).contains(
            x) implies op_keys(ops).contains(x) by {
            if x == ops.last().0 {
                assert(m[m.len() - 1] == x);
                assert(m.to_set().contains(m[m.len() - 1]));
            } else {
                let i = choose|i: int| 0 <= i < md.len() && md[i] == x;
                assert(m[i] == x);
                assert(m.to_set().contains(m[i]));
            }
        }
        assert(op_keys(ops) =~= op_keys(ops.drop_last()).insert(ops.last().0));
    }
}

/// Field lookup on a JSON value: the first field with key `k` of an object,
/// nothing on any other shape of value.
pub open spec fn jget(v: JsonVal, k: Seq<char>) -> Option<JsonVal> {
    match v {
        JsonVal::Obj(ps) => fm_get(ps, k),
        _ => None,
    }
}

/// The ordered field map a builder accumulates its parameters in.
pub struct Fields {
    pub items: Vec<(String, Json)>,
}

impl View for Fields {
    type V = Seq<(Seq<char>, JsonVal)>;

    open spec fn view(&self) -> Seq<(Seq<char>, JsonVal)> {
        jview_pairs(self.items@)
    }
}

impl Fields {
    /// A map with no fields set.
    pub fn new() -> (r: Fields)
        ensures
            r@ == Seq::<(Seq<char>, JsonVal)>::empty(),
    {
        Fields { items: Vec::new() }
    }

    /// Sets `key` to `val`, replacing any earlier value of `key` in place.
    #[verifier::loop_isolation(false)]
    pub fn set(&mut self, key: &str, val: Json)
        ensures
            final(self)@ == fm_set(old(self)@, key@, jview(val)),
    {
        let ghost snap = self@;
        proof {
            crate::json::lemma_jview_pairs(self.items@);
            lemma_fm_index(self@, key@);
        }
        let n = self.items.len();
        let mut i: usize = 0;
        while i < n
            invariant
                i <= n,
                n == self.items@.len(),
                self@ == snap,
                self@.len() == n,
                forall|j: int| 0 <= j < i ==> #[trigger] self@[j].0 != key@,
                forall|j: int| 0 <= j < self@.len() ==> self@[j] == (self.items@[j].0@, jview(
                    self.items@[j].1)),
            decreases n - i,
        {
            if str_eq(self.items[i].0.as_str(), key) {
                proof {
                    lemma_fm_index_front(self@, key@, i as int);
                }
                self.items.set(i, (key.to_owned(), val));
                proof {
                    crate::json::lemma_jview_pairs(self.items@);
                    assert(self@ =~= fm_set(snap, key@, jview(val)));
                }
                return ;
            }
            i = i + 1;
        }
        proof {
            lemma_fm_index(snap, key@);
            assert(!fm_has(snap, key@)) by {
                if fm_has(snap, key@) {
                    assert(snap[fm_index(snap, key@)].0 == key@);
                }
            }
        }
        self.items.push((key.to_owned(), val));
        proof {
            crate::json::lemma_jview_pairs(self.items@);
            assert(self@ =~= snap.push((key@, jview(val))));
        }
    }

    /// The fields as a JSON object, in the order they were first set.
    pub fn into_json(self) -> (r: Json)
        ensures
            jview(r) == JsonVal::Obj(self@),
    {
        Json::Obj(self.items)
    }

    /// The exact JSON-object text of these fields, in the order they were
    /// first set; `{}` when none is set.
    pub fn body_string(&self) -> (r: String)
        ensures
            r@ == crate::json::enc(JsonVal::Obj(self@)),
    {
        crate::json::render_object(&self.items)
    }

    /// How many fields are set.
    pub fn len(&self) -> (r: usize)
        ensures
            r == self@.len(),
    {
        proof {
            crate::json::lemma_jview_pairs(self.items@);
        }
        self.items.len()
    }
}

/// If the first occurrence of `k` in `s` is at `i`, `fm_index` says so.
pub(crate) proof fn lemma_fm_index_front(s: Seq<(Seq<char>, JsonVal)>, k: Seq<char>, i: int)
    requires
        0 <= i < s.len(),
        s[i].0 == k,
        forall|j: int| 0 <= j < i ==> #[trigger] s[j].0 != k,
    ensures
        fm_index(s, k) == i,
    decreases s.len(),
{
    if i > 0 {
        lemma_fm_index_front(s.drop_first(), k, i - 1);
    }
}

/// Relies on `str::eq`: string slices compare equal exactly when they hold
/// the same characters.
#[verifier::external_body]
pub(crate) fn str_eq(a: &str, b: &str) -> (r: bool)
    ensures
        r == (a@ == b@),
{
    a == b
}

} // verus!
