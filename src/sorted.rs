//! Sorted maps and sets with integer keys, converted to foreign mappings
//! and sets whose entries come in increasing key order.
use vstd::prelude::*;

use std::collections::{BTreeMap, BTreeSet};
use vstd::std_specs::btree::{
    axiom_increasing_seq_meaning, increasing_seq, lemma_btree_map_deepview_dom,
    lemma_btree_map_deepview_properties,
};
use vstd::std_specs::cmp::OrdSpec;
use vstd::std_specs::iter::IteratorSpec;

use crate::convert::{NonNull, PyTryFrom, RoundTrip, ToPython};
use crate::value::{
    entry_models, make_dict, make_frozen_set, model, models, ConversionError, Foreign, ForeignValue,
};

verus! {

broadcast use {vstd::std_specs::btree::group_btree_axioms, vstd::laws_cmp::group_laws_cmp};

/// Whether the keys are strictly increasing.
pub open spec fn increasing(s: Seq<i64>) -> bool {
    forall|i: int, j: int| 0 <= i < j < s.len() ==> s[i] < s[j]
}

/// Whether `s` lists the keys of `d`, each once, in increasing order.
pub open spec fn lists_sorted(s: Seq<i64>, d: Set<i64>) -> bool {
    increasing(s) && s.to_set() == d
}

/// The keys of `d` in increasing order.
pub open spec fn sorted_keys(d: Set<i64>) -> Seq<i64> {
    choose|s: Seq<i64>| lists_sorted(s, d)
}

/// There is one increasing listing of a set of keys.
proof fn lemma_sorted_unique(s1: Seq<i64>, s2: Seq<i64>)
    requires
        increasing(s1),
        increasing(s2),
        s1.to_set() == s2.to_set(),
    ensures
        s1 == s2,
    decreases s1.len(),
{
    broadcast use vstd::seq_lib::group_seq_properties;

    if s1.len() == 0 {
        if s2.len() > 0 {
            assert(s2.contains(s2[0]));
            assert(s1.to_set().contains(s2[0]));
        }
        assert(s1 =~= s2);
    } else {
        assert(s1.contains(s1[0]));
        assert(s2.to_set().contains(s1[0]));
        assert(s2.len() > 0);
        assert(s2.contains(s2[0]));
        assert(s1.to_set().contains(s2[0]));
        let i1 = choose|i: int| 0 <= i < s1.len() && s1[i] == s2[0];
        let i2 = choose|i: int| 0 <= i < s2.len() && s2[i] == s1[0];
        assert(s1[0] <= s1[i1]);
        assert(s2[0] <= s2[i2]);
        assert(s1[0] == s2[0]);
        let t1 = s1.drop_first();
        let t2 = s2.drop_first();
        assert forall|x: i64| t1.to_set().contains(x) implies t2.to_set().contains(x) by {
            assert(t1.contains(x));
            let i = choose|i: int| 0 <= i < t1.len() && t1[i] == x;
            assert(s1[i + 1] == x);
            assert(s1.contains(x));
            assert(s2.to_set().contains(x));
            let j = choose|j: int| 0 <= j < s2.len() && s2[j] == x;
            assert(j != 0);
            assert(t2[j - 1] == x);
            assert(t2.contains(x));
        }
        assert forall|x: i64| t2.to_set().contains(x) implies t1.to_set().contains(x) by {
            assert(t2.contains(x));
            let i = choose|i: int| 0 <= i < t2.len() && t2[i] == x;
            assert(s2[i + 1] == x);
            assert(s2.contains(x));
            assert(s1.to_set().contains(x));
            let j = choose|j: int| 0 <= j < s1.len() && s1[j] == x;
            assert(j != 0);
            assert(t1[j - 1] == x);
            assert(t1.contains(x));
        }
        assert(t1.to_set() =~= t2.to_set());
        lemma_sorted_unique(t1, t2);
        assert forall|i: int| 0 <= i < s1.len() implies s1[i] == s2[i] by {
            if i > 0 {
                assert(s1[i] == t1[i - 1]);
                assert(s2[i] == t2[i - 1]);
            }
        }
        assert(s1 =~= s2);
    }
}

/// The entries of `m` at the keys `ks`, in that order, each converted;
/// the first value that fails decides the error.
pub open spec fn encode_entries<V: ToPython>(ks: Seq<i64>, m: Map<i64, <V as DeepView>::V>) -> Result<
    Seq<(Foreign, Foreign)>,
    ConversionError,
>
    decreases ks.len(),
{
    if ks.len() == 0 {
        Ok(Seq::empty())
    } else {
        match encode_entries::<V>(ks.drop_last(), m) {
            Err(e) => Err(e),
            Ok(prefix) => match V::encode(m[ks.last()]) {
                Err(e) => Err(e),
                Ok(f) => Ok(prefix.push((Foreign::Int(ks.last() as int), f))),
            },
        }
    }
}

/// The map read from foreign entries in order, a later entry replacing an
/// earlier one with the same key; the first entry that fails decides the
/// error.
pub open spec fn decode_entries<V: PyTryFrom>(es: Seq<(Foreign, Foreign)>) -> Result<
    Map<i64, <V as DeepView>::V>,
    ConversionError,
>
    decreases es.len(),
{
    if es.len() == 0 {
        Ok(Map::empty())
    } else {
        match decode_entries::<V>(es.drop_last()) {
            Err(e) => Err(e),
            Ok(prefix) => match <i64 as PyTryFrom>::decode(es.last().0) {
                Err(e) => Err(e),
                Ok(k) => match V::decode(es.last().1) {
                    Err(e) => Err(e),
                    Ok(x) => Ok(prefix.insert(k, x)),
                },
            },
        }
    }
}

pub(crate) proof fn lemma_encode_entries_error<V: ToPython>(ks: Seq<i64>, m: Map<i64, <V as DeepView>::V>, i: int)
    requires
        0 <= i <= ks.len(),
        encode_entries::<V>(ks.take(i), m) is Err,
    ensures
        encode_entries::<V>(ks, m) == encode_entries::<V>(ks.take(i), m),
    decreases ks.len() - i,
{
    if i < ks.len() {
        assert(ks.take(i + 1).drop_last() =~= ks.take(i));
        lemma_encode_entries_error::<V>(ks, m, i + 1);
    } else {
        assert(ks.take(i) =~= ks);
    }
}

pub(crate) proof fn lemma_decode_entries_error<V: PyTryFrom>(es: Seq<(Foreign, Foreign)>, i: int)
    requires
        0 <= i <= es.len(),
        decode_entries::<V>(es.take(i)) is Err,
    ensures
        decode_entries::<V>(es) == decode_entries::<V>(es.take(i)),
    decreases es.len() - i,
{
    if i < es.len() {
        assert(es.take(i + 1).drop_last() =~= es.take(i));
        lemma_decode_entries_error::<V>(es, i + 1);
    } else {
        assert(es.take(i) =~= es);
    }
}

/// Reading back the converted entries at keys `ks` gives `m` on those keys.
pub(crate) proof fn lemma_decode_encode_entries<V: RoundTrip>(ks: Seq<i64>, m: Map<i64, <V as DeepView>::V>)
    requires
        forall|i: int| 0 <= i < ks.len() ==> m.dom().contains(#[trigger] ks[i]),
    ensures
        encode_entries::<V>(ks, m) matches Ok(es) ==> decode_entries::<V>(es) == Ok::<
            Map<i64, <V as DeepView>::V>,
            ConversionError,
        >(m.restrict(ks.to_set())),
    decreases ks.len(),
{
    broadcast use vstd::seq_lib::group_seq_properties;

    if ks.len() == 0 {
        assert(m.restrict(ks.to_set()) =~= Map::empty());
    } else {
        let init = ks.drop_last();
        assert forall|i: int| 0 <= i < init.len() implies m.dom().contains(#[trigger] init[i]) by {
            assert(init[i] == ks[i]);
        }
        lemma_decode_encode_entries::<V>(init, m);
        assert(m.dom().contains(ks[ks.len() - 1]));
        if let Ok(es) = encode_entries::<V>(ks, m) {
            let k = ks.last();
            V::lemma_round_trip(m[k]);
            assert(es.drop_last() =~= encode_entries::<V>(init, m)->Ok_0);
            assert(ks.to_set() =~= init.to_set().insert(k)) by {
                assert forall|x: i64| ks.to_set().contains(x) implies init.to_set().insert(k).contains(x) by {
                    assert(ks.contains(x));
                    let i = choose|i: int| 0 <= i < ks.len() && ks[i] == x;
                    if i < ks.len() - 1 {
                        assert(init[i] == x);
                        assert(init.contains(x));
                    }
                }
                assert forall|x: i64| init.to_set().insert(k).contains(x) implies ks.to_set().contains(x) by {
                    if x != k {
                        assert(init.contains(x));
                        let i = choose|i: int| 0 <= i < init.len() && init[i] == x;
                        assert(ks[i] == x);
                    }
                    assert(ks.contains(x));
                }
            }
            assert(m.restrict(init.to_set()).insert(k, m[k]) =~= m.restrict(ks.to_set()));
        }
    }
}

/// With integer keys, a map's deep view has the same keys, each with its
/// value's deep view.
proof fn lemma_deep_view_keys<V: DeepView>(m: BTreeMap<i64, V>)
    ensures
        m.deep_view().dom() == m@.dom(),
        forall|k: i64| #[trigger] m@.contains_key(k) ==> m.deep_view()[k] == m@[k].deep_view(),
{
    assert(vstd::relations::injective(|k: i64| k.deep_view()));
    lemma_btree_map_deepview_properties(m);
    lemma_btree_map_deepview_dom(m);
    assert(m@.dom().map(|k: i64| k.deep_view()) =~= m@.dom()) by {
        assert forall|k: i64| m@.dom().contains(k) implies m@.dom().map(|k: i64| k.deep_view()).contains(
            k,
        ) by {
            assert(k.deep_view() == k);
        }
    }
}

/// The deep view of a map after an insertion.
proof fn lemma_deep_view_insert<V: DeepView>(before: BTreeMap<i64, V>, after: BTreeMap<i64, V>, k: i64, x: V)
    requires
        after@ == before@.insert(k, x),
    ensures
        after.deep_view() == before.deep_view().insert(k, x.deep_view()),
{
    lemma_deep_view_keys(before);
    lemma_deep_view_keys(after);
    assert(after.deep_view() =~= before.deep_view().insert(k, x.deep_view()));
}

impl<V: ToPython> ToPython for BTreeMap<i64, V> {
    open spec fn encode(x: Map<i64, <V as DeepView>::V>) -> Result<Foreign, ConversionError> {
        if exists|s: Seq<i64>| lists_sorted(s, x.dom()) {
            match encode_entries::<V>(sorted_keys(x.dom()), x) {
                Ok(es) => Ok(Foreign::Dict(es)),
                Err(e) => Err(e),
            }
        } else {
            Err(ConversionError::Invalid)
        }
    }

    fn to_python(&self) -> (r: Result<ForeignValue, ConversionError>) {
        let ghost dm = self.deep_view();
        proof {
            assert(vstd::relations::injective(|k: i64| k.deep_view()));
            lemma_btree_map_deepview_properties(*self);
            lemma_btree_map_deepview_dom(*self);
            assert(dm.dom() =~= self@.dom());
        }
        let iter = self.iter();
        let ghost s = IteratorSpec::remaining(&iter);
        let ghost ks = s.map_values(|kv: (&i64, &V)| *kv.0);
        proof {
            broadcast use vstd::seq_lib::group_seq_properties;

            axiom_increasing_seq_meaning::<i64>(ks);
            assert(increasing_seq(ks));
            assert forall|i: int, j: int| 0 <= i < j < ks.len() implies ks[i] < ks[j] by {
                assert(ks[i].cmp_spec(&ks[j]) is Less);
            }
            assert forall|x: i64| ks.to_set().contains(x) implies dm.dom().contains(x) by {
                assert(ks.contains(x));
                let i = choose|i: int| 0 <= i < ks.len() && ks[i] == x;
                assert(self@.contains_key(*s[i].0));
            }
            assert forall|x: i64| dm.dom().contains(x) implies ks.to_set().contains(x) by {
                assert(self@.contains_key(x));
                assert(s.contains((&x, &self@[x])));
                let i = choose|i: int| 0 <= i < s.len() && s[i] == (&x, &self@[x]);
                assert(ks[i] == x);
                assert(ks.contains(x));
            }
            assert(ks.to_set() =~= dm.dom());
            assert(lists_sorted(ks, dm.dom()));
            lemma_sorted_unique(sorted_keys(dm.dom()), ks);
            assert(ks.take(0) =~= Seq::<i64>::empty());
        }
        let mut out: Vec<(ForeignValue, ForeignValue)> = Vec::new();
        proof {
            assert(entry_models(out@) =~= Seq::<(Foreign, Foreign)>::empty());
        }
        for (k, v) in it: iter
            invariant
                it.seq() == s,
                ks == s.map_values(|kv: (&i64, &V)| *kv.0),
                ks.len() == s.len(),
                sorted_keys(dm.dom()) == ks,
                lists_sorted(ks, dm.dom()),
                dm == self.deep_view(),
                forall|i: int|
                    0 <= i < s.len() ==> self@.contains_key(*s[i].0) && self@[*s[i].0] == *s[i].1,
                forall|k: i64| #[trigger]
                    self@.contains_key(k) ==> dm.contains_key(k) && dm[k] == self@[k].deep_view(),
                out@.len() == it.index(),
                encode_entries::<V>(ks.take(it.index() as int), dm) == Ok::<
                    Seq<(Foreign, Foreign)>,
                    ConversionError,
                >(entry_models(out@)),
        {
            let ghost i = it.index() as int;
            proof {
                assert(ks.take(i + 1).drop_last() =~= ks.take(i));
                assert(ks.take(i + 1).last() == *k);
                assert(dm[*k] == v.deep_view());
            }
            match v.to_python() {
                Ok(f) => {
                    let ghost before = entry_models(out@);
                    out.push((ForeignValue::Int(*k as i128), f));
                    proof {
                        assert(entry_models(out@) =~= before.push((Foreign::Int(*k as int), f@)));
                    }
                },
                Err(e) => {
                    proof {
                        lemma_encode_entries_error::<V>(ks, dm, i + 1);
                    }
                    return Err(e);
                },
            }
        }
        proof {
            assert(ks.take(ks.len() as int) =~= ks);
        }
        Ok(make_dict(out))
    }
}

impl<V: PyTryFrom> PyTryFrom for BTreeMap<i64, V> {
    open spec fn decode(v: Foreign) -> Result<Map<i64, <V as DeepView>::V>, ConversionError> {
        match v {
            Foreign::Dict(es) => decode_entries::<V>(es),
            _ => Err(ConversionError::WrongShape),
        }
    }

    fn py_try_from(v: &ForeignValue) -> (r: Result<BTreeMap<i64, V>, ConversionError>) {
        match v {
            ForeignValue::Dict(entries) => {
                let ghost es = v@->Dict_0;
                assert(es =~= entry_models(entries@));
                let mut out: BTreeMap<i64, V> = BTreeMap::new();
                proof {
                    lemma_deep_view_keys(out);
                    assert(out.deep_view() =~= Map::<i64, <V as DeepView>::V>::empty());
                    assert(es.take(0) =~= Seq::<(Foreign, Foreign)>::empty());
                }
                let mut i: usize = 0;
                while i < entries.len()
                    invariant
                        i <= entries@.len(),
                        es == entry_models(entries@),
                        v@ == Foreign::Dict(es),
                        decode_entries::<V>(es.take(i as int)) == Ok::<
                            Map<i64, <V as DeepView>::V>,
                            ConversionError,
                        >(out.deep_view()),
                    decreases entries@.len() - i,
                {
                    assert(es.take(i + 1).drop_last() =~= es.take(i as int));
                    assert(es.take(i + 1).last() == (model(entries@[i as int].0), model(entries@[i as int].1)));
                    let k = match i64::py_try_from(&entries[i].0) {
                        Ok(k) => k,
                        Err(e) => {
                            proof {
                                lemma_decode_entries_error::<V>(es, i + 1);
                            }
                            return Err(e);
                        },
                    };
                    let x = match V::py_try_from(&entries[i].1) {
                        Ok(x) => x,
                        Err(e) => {
                            proof {
                                lemma_decode_entries_error::<V>(es, i + 1);
                            }
                            return Err(e);
                        },
                    };
                    let ghost before = out;
                    out.insert(k, x);
                    proof {
                        lemma_deep_view_insert(before, out, k, x);
                    }
                    i = i + 1;
                }
                assert(es.take(i as int) =~= es);
                Ok(out)
            },
            _ => Err(ConversionError::WrongShape),
        }
    }
}

impl<V: RoundTrip> RoundTrip for BTreeMap<i64, V> {
    proof fn lemma_round_trip(x: Map<i64, <V as DeepView>::V>) {
        if exists|s: Seq<i64>| lists_sorted(s, x.dom()) {
            let ks = sorted_keys(x.dom());
            assert forall|i: int| 0 <= i < ks.len() implies x.dom().contains(#[trigger] ks[i]) by {
                broadcast use vstd::seq_lib::group_seq_properties;

                assert(ks.contains(ks[i]));
            }
            lemma_decode_encode_entries::<V>(ks, x);
            assert(x.restrict(ks.to_set()) =~= x);
        }
    }
}

impl<V: ToPython> NonNull for BTreeMap<i64, V> {
    proof fn lemma_not_null(x: Map<i64, <V as DeepView>::V>) {
    }
}

/// Converting entries keeps the keys' order, one entry per key.
proof fn lemma_encode_entries_order<V: ToPython>(ks: Seq<i64>, m: Map<i64, <V as DeepView>::V>)
    ensures
        encode_entries::<V>(ks, m) matches Ok(es) ==> es.len() == ks.len() && forall|i: int|
            0 <= i < ks.len() ==> (#[trigger] es[i]).0 == Foreign::Int(ks[i] as int) && V::encode(m[ks[i]])
                == Ok::<Foreign, ConversionError>(es[i].1),
    decreases ks.len(),
{
    if ks.len() > 0 {
        let init = ks.drop_last();
        lemma_encode_entries_order::<V>(init, m);
        if let Ok(es) = encode_entries::<V>(ks, m) {
            let prefix = encode_entries::<V>(init, m)->Ok_0;
            assert forall|i: int| 0 <= i < ks.len() implies (#[trigger] es[i]).0 == Foreign::Int(
                ks[i] as int,
            ) && V::encode(m[ks[i]]) == Ok::<Foreign, ConversionError>(es[i].1) by {
                if i < ks.len() - 1 {
                    assert(es[i] == prefix[i]);
                    assert(ks[i] == init[i]);
                }
            }
        }
    }
}

/// A sorted map converts to a foreign mapping whose entries come one per
/// key, in increasing key order, each value converted; reading it back
/// gives the same map.
pub proof fn lemma_sorted_map_order<V: RoundTrip>(m: Map<i64, <V as DeepView>::V>)
    ensures
        <BTreeMap<i64, V> as ToPython>::encode(m) matches Ok(f) ==> {
            &&& f matches Foreign::Dict(es) && exists|ks: Seq<i64>|
                lists_sorted(ks, m.dom()) && es.len() == ks.len() && forall|i: int|
                    0 <= i < ks.len() ==> (#[trigger] es[i]).0 == Foreign::Int(ks[i] as int)
                        && V::encode(m[ks[i]]) == Ok::<Foreign, ConversionError>(es[i].1)
            &&& <BTreeMap<i64, V> as PyTryFrom>::decode(f) == Ok::<
                Map<i64, <V as DeepView>::V>,
                ConversionError,
            >(m)
        },
{
    <BTreeMap<i64, V> as RoundTrip>::lemma_round_trip(m);
    if exists|s: Seq<i64>| lists_sorted(s, m.dom()) {
        lemma_encode_entries_order::<V>(sorted_keys(m.dom()), m);
    }
}

/// The set read from foreign elements in order; the first element that
/// fails decides the error.
pub open spec fn decode_members(s: Seq<Foreign>) -> Result<Set<i64>, ConversionError>
    decreases s.len(),
{
    if s.len() == 0 {
        Ok(Set::empty())
    } else {
        match decode_members(s.drop_last()) {
            Err(e) => Err(e),
            Ok(prefix) => match <i64 as PyTryFrom>::decode(s.last()) {
                Err(e) => Err(e),
                Ok(k) => Ok(prefix.insert(k)),
            },
        }
    }
}

/// The foreign integers for the keys, in order.
pub open spec fn int_models(ks: Seq<i64>) -> Seq<Foreign> {
    ks.map_values(|k: i64| Foreign::Int(k as int))
}

pub(crate) proof fn lemma_decode_members_error(s: Seq<Foreign>, i: int)
    requires
        0 <= i <= s.len(),
        decode_members(s.take(i)) is Err,
    ensures
        decode_members(s) == decode_members(s.take(i)),
    decreases s.len() - i,
{
    if i < s.len() {
        assert(s.take(i + 1).drop_last() =~= s.take(i));
        lemma_decode_members_error(s, i + 1);
    } else {
        assert(s.take(i) =~= s);
    }
}

/// Reading back the foreign integers for the keys gives the keys' set.
pub(crate) proof fn lemma_decode_int_models(ks: Seq<i64>)
    ensures
        decode_members(int_models(ks)) == Ok::<Set<i64>, ConversionError>(ks.to_set()),
    decreases ks.len(),
{
    broadcast use vstd::seq_lib::group_seq_properties;

    if ks.len() == 0 {
        assert(ks.to_set() =~= Set::<i64>::empty());
    } else {
        let init = ks.drop_last();
        lemma_decode_int_models(init);
        assert(int_models(ks).drop_last() =~= int_models(init));
        assert(ks.to_set() =~= init.to_set().insert(ks.last())) by {
            assert(init.push(ks.last()) =~= ks);
        }
    }
}

/// With integer elements, a set's deep view is the set itself.
proof fn lemma_set_deep_view(m: BTreeSet<i64>)
    ensures
        m.deep_view() == m@,
{
    assert(m@.map(|x: i64| x.deep_view()) =~= m@) by {
        assert forall|k: i64| m@.contains(k) implies m@.map(|x: i64| x.deep_view()).contains(k) by {
            assert(k.deep_view() == k);
        }
    }
}

impl ToPython for BTreeSet<i64> {
    open spec fn encode(x: Set<i64>) -> Result<Foreign, ConversionError> {
        if exists|s: Seq<i64>| lists_sorted(s, x) {
            Ok(Foreign::FrozenSet(int_models(sorted_keys(x))))
        } else {
            Err(ConversionError::Invalid)
        }
    }

    fn to_python(&self) -> (r: Result<ForeignValue, ConversionError>) {
        proof {
            lemma_set_deep_view(*self);
        }
        let iter = self.iter();
        let ghost s = IteratorSpec::remaining(&iter);
        let ghost ks = s.unref();
        proof {
            assert(vstd::laws_cmp::obeys_cmp::<i64>());
            assert(vstd::laws_cmp::obeys_cmp::<&i64>());
            axiom_increasing_seq_meaning::<&i64>(s);
            assert(increasing_seq(s));
            assert forall|i: int, j: int| 0 <= i < j < ks.len() implies ks[i] < ks[j] by {
                assert(<&i64 as OrdSpec>::cmp_spec(&s[i], &s[j]) is Less);
            }
            assert(lists_sorted(ks, self@));
            lemma_sorted_unique(sorted_keys(self@), ks);
        }
        let mut out: Vec<ForeignValue> = Vec::new();
        for k in it: iter
            invariant
                it.seq() == s,
                ks == s.unref(),
                ks.len() == s.len(),
                sorted_keys(self@) == ks,
                lists_sorted(ks, self@),
                self.deep_view() == self@,
                out@.len() == it.index(),
                forall|j: int| 0 <= j < out@.len() ==> #[trigger] model(out@[j]) == Foreign::Int(ks[j] as int),
        {
            out.push(ForeignValue::Int(*k as i128));
        }
        proof {
            assert(out@.len() == ks.len());
            assert(models(out@) =~= int_models(ks));
        }
        Ok(make_frozen_set(out))
    }
}

impl PyTryFrom for BTreeSet<i64> {
    open spec fn decode(v: Foreign) -> Result<Set<i64>, ConversionError> {
        match v {
            Foreign::FrozenSet(s) => decode_members(s),
            _ => Err(ConversionError::WrongShape),
        }
    }

    fn py_try_from(v: &ForeignValue) -> (r: Result<BTreeSet<i64>, ConversionError>) {
        match v {
            ForeignValue::FrozenSet(items) => {
                let ghost s = v@->FrozenSet_0;
                assert(s =~= models(items@));
                let mut out: BTreeSet<i64> = BTreeSet::new();
                proof {
                    lemma_set_deep_view(out);
                    assert(s.take(0) =~= Seq::<Foreign>::empty());
                    assert(out@ =~= Set::<i64>::empty());
                }
                let mut i: usize = 0;
                while i < items.len()
                    invariant
                        i <= items@.len(),
                        s == models(items@),
                        v@ == Foreign::FrozenSet(s),
                        decode_members(s.take(i as int)) == Ok::<Set<i64>, ConversionError>(out@),
                    decreases items@.len() - i,
                {
                    assert(s.take(i + 1).drop_last() =~= s.take(i as int));
                    assert(s.take(i + 1).last() == model(items@[i as int]));
                    let k = match i64::py_try_from(&items[i]) {
                        Ok(k) => k,
                        Err(e) => {
                            proof {
                                lemma_decode_members_error(s, i + 1);
                            }
                            return Err(e);
                        },
                    };
                    out.insert(k);
                    i = i + 1;
                }
                proof {
                    assert(s.take(i as int) =~= s);
                    lemma_set_deep_view(out);
                }
                Ok(out)
            },
            _ => Err(ConversionError::WrongShape),
        }
    }
}

impl RoundTrip for BTreeSet<i64> {
    proof fn lemma_round_trip(x: Set<i64>) {
        if exists|s: Seq<i64>| lists_sorted(s, x) {
            lemma_decode_int_models(sorted_keys(x));
        }
    }
}

impl NonNull for BTreeSet<i64> {
    proof fn lemma_not_null(x: Set<i64>) {
    }
}

/// A sorted set converts to a foreign set whose elements come once each,
/// in increasing order; reading it back gives the same set.
pub proof fn lemma_sorted_set_order(x: Set<i64>)
    ensures
        <BTreeSet<i64> as ToPython>::encode(x) matches Ok(f) ==> {
            &&& f matches Foreign::FrozenSet(es) && exists|ks: Seq<i64>|
                lists_sorted(ks, x) && es == int_models(ks)
            &&& <BTreeSet<i64> as PyTryFrom>::decode(f) == Ok::<Set<i64>, ConversionError>(x)
        },
{
    <BTreeSet<i64> as RoundTrip>::lemma_round_trip(x);
    if exists|s: Seq<i64>| lists_sorted(s, x) {
        let ks = sorted_keys(x);
        assert(lists_sorted(ks, x));
    }
}

} // verus!
