//! Hash maps and hash sets with integer keys. Their iteration order depends
//! on the hasher, so converting one to a foreign value is stated as a
//! relation: every key once, in some order, each value converted.
use vstd::prelude::*;

use std::collections::{HashMap, HashSet};
use vstd::std_specs::hash::{lemma_hashmap_deepview_dom, lemma_hashmap_deepview_properties};
use vstd::std_specs::iter::IteratorSpec;

use crate::convert::{PyTryFrom, RoundTrip, ToPython};
use crate::sorted::{
    decode_entries, decode_members, encode_entries, int_models, lemma_decode_encode_entries,
    lemma_decode_entries_error, lemma_decode_int_models, lemma_decode_members_error,
};
use crate::value::{
    entry_models, make_dict, make_frozen_set, model, models, ConversionError, Foreign, ForeignValue,
};

verus! {

broadcast use vstd::std_specs::hash::group_hash_axioms;

/// Whether `ks` lists the keys of `d`, each once, in some order.
pub open spec fn lists_once(ks: Seq<i64>, d: Set<i64>) -> bool {
    ks.no_duplicates() && ks.to_set() == d
}

/// With integer keys, a map's deep view has the same keys, each with its
/// value's deep view.
proof fn lemma_hash_deep_view_keys<V: DeepView>(m: HashMap<i64, V>)
    ensures
        m.deep_view().dom() == m@.dom(),
        forall|k: i64| #[trigger] m@.contains_key(k) ==> m.deep_view()[k] == m@[k].deep_view(),
{
    assert(vstd::relations::injective(|k: i64| k.deep_view()));
    lemma_hashmap_deepview_properties(m);
    lemma_hashmap_deepview_dom(m);
    assert(m@.dom().map(|k: i64| k.deep_view()) =~= m@.dom()) by {
        assert forall|k: i64| m@.dom().contains(k) implies m@.dom().map(|k: i64| k.deep_view()).contains(
            k,
        ) by {
            assert(k.deep_view() == k);
        }
    }
}

/// With integer elements, a set's deep view is the set itself.
proof fn lemma_hash_set_deep_view(m: HashSet<i64>)
    ensures
        m.deep_view() == m@,
{
    assert(m@.map(|x: i64| x.deep_view()) =~= m@) by {
        assert forall|k: i64| m@.contains(k) implies m@.map(|x: i64| x.deep_view()).contains(k) by {
            assert(k.deep_view() == k);
        }
    }
}

/// Converts a hash map to a foreign mapping with one entry per key, in the
/// map's iteration order. It succeeds when every value converts; otherwise
/// it fails with the error of some value.
pub fn hash_map_to_python<V: ToPython>(m: &HashMap<i64, V>) -> (r: Result<ForeignValue, ConversionError>)
    ensures
        (forall|k: i64| #[trigger] m.deep_view().contains_key(k) ==> V::encode(m.deep_view()[k]) is Ok)
            ==> r is Ok,
        r matches Ok(f) ==> f@ matches Foreign::Dict(es) && exists|ks: Seq<i64>|
            lists_once(ks, m.deep_view().dom()) && encode_entries::<V>(ks, m.deep_view()) == Ok::<
                Seq<(Foreign, Foreign)>,
                ConversionError,
            >(es),
        r matches Err(e) ==> exists|k: i64|
            m.deep_view().contains_key(k) && #[trigger] V::encode(m.deep_view()[k]) == Err::<
                Foreign,
                ConversionError,
            >(e),
{
    let ghost dm = m.deep_view();
    proof {
        lemma_hash_deep_view_keys(*m);
    }
    let iter = m.iter();
    let ghost s = IteratorSpec::remaining(&iter);
    let ghost ks = s.map_values(|kv: (&i64, &V)| *kv.0);
    proof {
        broadcast use vstd::seq_lib::group_seq_properties;

        assert forall|i: int, j: int| 0 <= i < j < ks.len() implies ks[i] != ks[j] by {
            if ks[i] == ks[j] {
                assert(m@.contains_key(*s[i].0));
                assert(m@.contains_key(*s[j].0));
                assert(s[i] == s[j]);
            }
        }
        assert forall|x: i64| ks.to_set().contains(x) implies dm.dom().contains(x) by {
            assert(ks.contains(x));
            let i = choose|i: int| 0 <= i < ks.len() && ks[i] == x;
            assert(m@.contains_key(*s[i].0));
        }
        assert forall|x: i64| dm.dom().contains(x) implies ks.to_set().contains(x) by {
            assert(m@.contains_key(x));
            assert(s.contains((&x, &m@[x])));
            let i = choose|i: int| 0 <= i < s.len() && s[i] == (&x, &m@[x]);
            assert(ks[i] == x);
            assert(ks.contains(x));
        }
        assert(ks.to_set() =~= dm.dom());
        assert(ks.take(0) =~= Seq::<i64>::empty());
    }
    let mut out: Vec<(ForeignValue, ForeignValue)> = Vec::new();
    proof {
        assert(entry_models(out@) =~= Seq::<(Foreign, Foreign)>::empty());
    }
    for (k, v) in it: iter
        invariant
            it.seq() == s,
            ks == s.map_values(|kv: (&i64, &V)| *kv.0),
            ks.len() == s.len(),
            lists_once(ks, dm.dom()),
            dm == m.deep_view(),
            forall|i: int| 0 <= i < s.len() ==> m@.contains_key(*s[i].0) && m@[*s[i].0] == *s[i].1,
            forall|k: i64| #[trigger]
                m@.contains_key(k) ==> dm.contains_key(k) && dm[k] == m@[k].deep_view(),
            dm.dom() == m@.dom(),
            out@.len() == it.index(),
            encode_entries::<V>(ks.take(it.index() as int), dm) == Ok::<
                Seq<(Foreign, Foreign)>,
                ConversionError,
            >(entry_models(out@)),
    {
        let ghost i = it.index() as int;
        proof {
            assert(ks.take(i + 1).drop_last() =~= ks.take(i));
            assert(ks.take(i + 1).last() == *k);
            assert(dm[*k] == v.deep_view());
        }
        match v.to_python() {
            Ok(f) => {
                let ghost before = entry_models(out@);
                out.push((ForeignValue::Int(*k as i128), f));
                proof {
                    assert(entry_models(out@) =~= before.push((Foreign::Int(*k as int), f@)));
                }
            },
            Err(e) => {
                proof {
                    assert(dm.contains_key(*k));
                    assert(V::encode(dm[*k]) == Err::<Foreign, ConversionError>(e));
                }
                return Err(e);
            },
        }
    }
    proof {
        assert(ks.take(ks.len() as int) =~= ks);
    }
    Ok(make_dict(out))
}

/// Converts a hash set to a foreign set holding each element once, in the
/// set's iteration order.
pub fn hash_set_to_python(m: &HashSet<i64>) -> (r: ForeignValue)
    ensures
        r@ matches Foreign::FrozenSet(es) && exists|ks: Seq<i64>| lists_once(ks, m@) && es == int_models(ks),
{
    let iter = m.iter();
    let ghost s = IteratorSpec::remaining(&iter);
    let ghost ks = s.unref();
    proof {
        assert forall|i: int, j: int| 0 <= i < j < ks.len() implies ks[i] != ks[j] by {
            assert(s[i] != s[j]);
        }
        assert(lists_once(ks, m@));
    }
    let mut out: Vec<ForeignValue> = Vec::new();
    for k in it: iter
        invariant
            it.seq() == s,
            ks == s.unref(),
            ks.len() == s.len(),
            out@.len() == it.index(),
            forall|j: int| 0 <= j < out@.len() ==> #[trigger] model(out@[j]) == Foreign::Int(ks[j] as int),
    {
        out.push(ForeignValue::Int(*k as i128));
    }
    proof {
        assert(out@.len() == ks.len());
        assert(models(out@) =~= int_models(ks));
    }
    make_frozen_set(out)
}

impl<V: PyTryFrom> PyTryFrom for HashMap<i64, V> {
    open spec fn decode(v: Foreign) -> Result<Map<i64, <V as DeepView>::V>, ConversionError> {
        match v {
            Foreign::Dict(es) => decode_entries::<V>(es),
            _ => Err(ConversionError::WrongShape),
        }
    }

    fn py_try_from(v: &ForeignValue) -> (r: Result<HashMap<i64, V>, ConversionError>) {
        match v {
            ForeignValue::Dict(entries) => {
                let ghost es = v@->Dict_0;
                assert(es =~= entry_models(entries@));
                let mut out: HashMap<i64, V> = HashMap::new();
                proof {
                    lemma_hash_deep_view_keys(out);
                    assert(out.deep_view() =~= Map::<i64, <V as DeepView>::V>::empty());
                    assert(es.take(0) =~= Seq::<(Foreign, Foreign)>::empty());
                }
                let mut i: usize = 0;
                while i < entries.len()
                    invariant
                        i <= entries@.len(),
                        es == entry_models(entries@),
                        v@ == Foreign::Dict(es),
                        decode_entries::<V>(es.take(i as int)) == Ok::<
                            Map<i64, <V as DeepView>::V>,
                            ConversionError,
                        >(out.deep_view()),
                    decreases entries@.len() - i,
                {
                    assert(es.take(i + 1).drop_last() =~= es.take(i as int));
                    assert(es.take(i + 1).last() == (model(entries@[i as int].0), model(entries@[i as int].1)));
                    let k = match i64::py_try_from(&entries[i].0) {
                        Ok(k) => k,
                        Err(e) => {
                            proof {
                                lemma_decode_entries_error::<V>(es, i + 1);
                            }
                            return Err(e);
                        },
                    };
                    let x = match V::py_try_from(&entries[i].1) {
                        Ok(x) => x,
                        Err(e) => {
                            proof {
                                lemma_decode_entries_error::<V>(es, i + 1);
                            }
                            return Err(e);
                        },
                    };
                    let ghost before = out;
                    out.insert(k, x);
                    proof {
                        lemma_hash_deep_view_keys(before);
                        lemma_hash_deep_view_keys(out);
                        assert(out.deep_view() =~= before.deep_view().insert(k, x.deep_view()));
                    }
                    i = i + 1;
                }
                assert(es.take(i as int) =~= es);
                Ok(out)
            },
            _ => Err(ConversionError::WrongShape),
        }
    }
}

impl PyTryFrom for HashSet<i64> {
    open spec fn decode(v: Foreign) -> Result<Set<i64>, ConversionError> {
        match v {
            Foreign::FrozenSet(s) => decode_members(s),
            _ => Err(ConversionError::WrongShape),
        }
    }

    fn py_try_from(v: &ForeignValue) -> (r: Result<HashSet<i64>, ConversionError>) {
        match v {
            ForeignValue::FrozenSet(items) => {
                let ghost s = v@->FrozenSet_0;
                assert(s =~= models(items@));
                let mut out: HashSet<i64> = HashSet::new();
                proof {
                    assert(s.take(0) =~= Seq::<Foreign>::empty());
                    assert(out@ =~= Set::<i64>::empty());
                }
                let mut i: usize = 0;
                while i < items.len()
                    invariant
                        i <= items@.len(),
                        s == models(items@),
                        v@ == Foreign::FrozenSet(s),
                        decode_members(s.take(i as int)) == Ok::<Set<i64>, ConversionError>(out@),
                    decreases items@.len() - i,
                {
                    assert(s.take(i + 1).drop_last() =~= s.take(i as int));
                    assert(s.take(i + 1).last() == model(items@[i as int]));
                    let k = match i64::py_try_from(&items[i]) {
                        Ok(k) => k,
                        Err(e) => {
                            proof {
                                lemma_decode_members_error(s, i + 1);
                            }
                            return Err(e);
                        },
                    };
                    out.insert(k);
                    i = i + 1;
                }
                proof {
                    assert(s.take(i as int) =~= s);
                    lemma_hash_set_deep_view(out);
                }
                Ok(out)
            },
            _ => Err(ConversionError::WrongShape),
        }
    }
}

/// A hash map read back from any foreign mapping it converts to is the
/// same map: the entries hold every key once.
pub proof fn lemma_hash_map_round_trip<V: RoundTrip>(
    m: Map<i64, <V as DeepView>::V>,
    ks: Seq<i64>,
    es: Seq<(Foreign, Foreign)>,
)
    requires
        lists_once(ks, m.dom()),
        encode_entries::<V>(ks, m) == Ok::<Seq<(Foreign, Foreign)>, ConversionError>(es),
    ensures
        <HashMap<i64, V> as PyTryFrom>::decode(Foreign::Dict(es)) == Ok::<
            Map<i64, <V as DeepView>::V>,
            ConversionError,
        >(m),
{
    assert forall|i: int| 0 <= i < ks.len() implies m.dom().contains(#[trigger] ks[i]) by {
        broadcast use vstd::seq_lib::group_seq_properties;

        assert(ks.contains(ks[i]));
    }
    lemma_decode_encode_entries::<V>(ks, m);
    assert(m.restrict(ks.to_set()) =~= m);
}

/// A hash set read back from any foreign set it converts to is the same
/// set.
pub proof fn lemma_hash_set_round_trip(x: Set<i64>, ks: Seq<i64>)
    requires
        lists_once(ks, x),
    ensures
        <HashSet<i64> as PyTryFrom>::decode(Foreign::FrozenSet(int_models(ks))) == Ok::<
            Set<i64>,
            ConversionError,
        >(x),
{
    lemma_decode_int_models(ks);
}

} // verus!
