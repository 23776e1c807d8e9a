//! Wrappers of data structures whose fields the foreign side reads and
//! writes one by one.
use vstd::prelude::*;

use crate::value::{
    conforms, entry_models, shape_check, ConversionError, Foreign, ForeignValue, Shape,
};

verus! {

/// One field: its name, the foreign shape its conversion accepts, and its
/// current value.
#[derive(Debug, Clone, PartialEq)]
pub struct Field {
    pub name: String,
    pub shape: Shape,
    pub value: ForeignValue,
}

/// A data structure exposed field by field.
#[derive(Debug, Clone, PartialEq)]
pub struct Record {
    pub fields: Vec<Field>,
}

/// Whether `k` is the first field called `name`.
pub open spec fn first_named(fs: Seq<Field>, name: Seq<char>, k: int) -> bool {
    &&& 0 <= k < fs.len()
    &&& fs[k].name@ == name
    &&& forall|j: int| 0 <= j < k ==> (#[trigger] fs[j]).name@ != name
}

/// Whether no field is called `name`.
pub open spec fn unnamed(fs: Seq<Field>, name: Seq<char>) -> bool {
    forall|j: int| 0 <= j < fs.len() ==> (#[trigger] fs[j]).name@ != name
}

/// Whether every field's value has the field's shape.
pub open spec fn well_typed(fs: Seq<Field>) -> bool {
    forall|j: int| 0 <= j < fs.len() ==> conforms((#[trigger] fs[j]).value@, fs[j].shape)
}

/// A declared field: its name and the foreign shape its conversion accepts.
#[derive(Debug, Clone, PartialEq)]
pub struct FieldDef {
    pub name: String,
    pub shape: Shape,
}

/// A foreign shape a record can be built from.
#[derive(Debug, Clone, Copy, PartialEq, Eq)]
pub enum Source {
    /// A sequence holding one value per field, in field order.
    Positional,
    /// A mapping from field names, as strings, to values; the first entry
    /// for a name counts.
    Named,
}

/// How a source is named in error messages.
pub open spec fn source_name(s: Source) -> Seq<char> {
    match s {
        Source::Positional => "positional"@,
        Source::Named => "named"@,
    }
}

/// The message of a failed construction: the sources tried, in order.
pub open spec fn expected_message(srcs: Seq<Source>) -> Seq<char>
    decreases srcs.len(),
{
    if srcs.len() == 0 {
        "expected one of:"@
    } else {
        expected_message(srcs.drop_last()) + " "@ + source_name(srcs.last())
    }
}

impl Source {
    /// How this source is named in error messages.
    pub fn name(&self) -> (r: &'static str)
        ensures
            r@ == source_name(*self),
    {
        match self {
            Source::Positional => "positional",
            Source::Named => "named",
        }
    }
}

/// The value of the first entry whose key is the string `name`.
pub open spec fn lookup(es: Seq<(Foreign, Foreign)>, name: Seq<char>) -> Option<Foreign>
    decreases es.len(),
{
    if es.len() == 0 {
        None
    } else if es[0].0 == Foreign::Str(name) {
        Some(es[0].1)
    } else {
        lookup(es.drop_first(), name)
    }
}

/// The field values a source yields from a foreign value, if it applies
/// and every value has its field's shape.
pub open spec fn source_values(defs: Seq<FieldDef>, src: Source, v: Foreign) -> Option<Seq<Foreign>> {
    match src {
        Source::Positional => match v {
            Foreign::List(items) => if items.len() == defs.len() && forall|i: int|
                0 <= i < defs.len() ==> conforms(#[trigger] items[i], defs[i].shape) {
                Some(items)
            } else {
                None
            },
            _ => None,
        },
        Source::Named => match v {
            Foreign::Dict(es) => if forall|i: int|
                0 <= i < defs.len() ==> (#[trigger] lookup(es, defs[i].name@) matches Some(x) && conforms(
                    x,
                    defs[i].shape,
                )) {
                Some(Seq::new(defs.len(), |i: int| lookup(es, defs[i].name@)->Some_0))
            } else {
                None
            },
            _ => None,
        },
    }
}

/// The first source, in declaration order, that yields field values.
pub open spec fn first_source(defs: Seq<FieldDef>, srcs: Seq<Source>, v: Foreign) -> Option<int>
    decreases srcs.len(),
{
    if srcs.len() == 0 {
        None
    } else {
        match first_source(defs, srcs.drop_last(), v) {
            Some(k) => Some(k),
            None => if source_values(defs, srcs.last(), v) is Some {
                Some(srcs.len() - 1)
            } else {
                None
            },
        }
    }
}

proof fn lemma_first_source(defs: Seq<FieldDef>, srcs: Seq<Source>, v: Foreign)
    ensures
        match first_source(defs, srcs, v) {
            Some(k) => 0 <= k < srcs.len() && source_values(defs, srcs[k], v) is Some && forall|j: int|
                0 <= j < k ==> source_values(defs, #[trigger] srcs[j], v) is None,
            None => forall|j: int| 0 <= j < srcs.len() ==> source_values(defs, #[trigger] srcs[j], v) is None,
        },
    decreases srcs.len(),
{
    if srcs.len() > 0 {
        let init = srcs.drop_last();
        lemma_first_source(defs, init, v);
        assert forall|j: int| 0 <= j < init.len() implies init[j] == srcs[j] by {}
    }
}

/// The first entry for the string key `name`.
fn find_entry(entries: &Vec<(ForeignValue, ForeignValue)>, name: &String) -> (r: Option<usize>)
    ensures
        match lookup(entry_models(entries@), name@) {
            Some(x) => r matches Some(i) && i < entries@.len() && entries@[i as int].1@ == x,
            None => r is None,
        },
{
    let ghost es = entry_models(entries@);
    let mut i: usize = 0;
    assert(es.subrange(0, es.len() as int) =~= es);
    while i < entries.len()
        invariant
            i <= entries@.len(),
            es == entry_models(entries@),
            lookup(es, name@) == lookup(es.subrange(i as int, es.len() as int), name@),
        decreases entries@.len() - i,
    {
        let ghost rest = es.subrange(i as int, es.len() as int);
        assert(rest.drop_first() =~= es.subrange(i + 1, es.len() as int));
        assert(rest[0] == (entries@[i as int].0@, entries@[i as int].1@));
        if let ForeignValue::Str(key) = &entries[i].0 {
            if *key == *name {
                return Some(i);
            }
        }
        i = i + 1;
    }
    None
}

/// Whether `fs` are the declared fields with the values `vals`, in order.
pub open spec fn fields_match(defs: Seq<FieldDef>, fs: Seq<Field>, vals: Seq<Foreign>) -> bool {
    &&& fs.len() == defs.len()
    &&& vals.len() == defs.len()
    &&& forall|i: int|
        0 <= i < defs.len() ==> (#[trigger] fs[i]).name == defs[i].name && fs[i].shape == defs[i].shape
            && fs[i].value@ == vals[i]
}

/// The fields one source yields from a foreign value, if it applies.
fn from_source(defs: &Vec<FieldDef>, src: Source, input: &ForeignValue) -> (r: Option<Vec<Field>>)
    ensures
        match source_values(defs@, src, input@) {
            Some(vals) => r matches Some(fs) && fields_match(defs@, fs@, vals),
            None => r is None,
        },
{
    let mut fields: Vec<Field> = Vec::new();
    match src {
        Source::Positional => match input {
            ForeignValue::List(items) => {
                if items.len() != defs.len() {
                    return None;
                }
                let ghost s = input@->List_0;
                assert(s =~= crate::value::models(items@));
                let mut i: usize = 0;
                while i < defs.len()
                    invariant
                        i <= defs@.len(),
                        items@.len() == defs@.len(),
                        s == crate::value::models(items@),
                        input@ == Foreign::List(s),
                        fields@.len() == i,
                        forall|j: int| 0 <= j < i ==> conforms(#[trigger] s[j], defs@[j].shape),
                        forall|j: int|
                            0 <= j < i ==> (#[trigger] fields@[j]).name == defs@[j].name
                                && fields@[j].shape == defs@[j].shape && fields@[j].value@ == s[j],
                    decreases defs@.len() - i,
                {
                    if !defs[i].shape.accepts(&items[i]) {
                        assert(s[i as int] == items@[i as int]@);
                        assert(!conforms(s[i as int], defs@[i as int].shape));
                        return None;
                    }
                    fields.push(
                        Field {
                            name: defs[i].name.clone(),
                            shape: defs[i].shape,
                            value: items[i].duplicate(),
                        },
                    );
                    i = i + 1;
                }
                Some(fields)
            },
            _ => None,
        },
        Source::Named => match input {
            ForeignValue::Dict(entries) => {
                let ghost es = input@->Dict_0;
                assert(es =~= entry_models(entries@));
                let ghost vals = Seq::new(defs@.len(), |i: int| lookup(es, defs@[i].name@)->Some_0);
                let mut i: usize = 0;
                while i < defs.len()
                    invariant
                        i <= defs@.len(),
                        es == entry_models(entries@),
                        input@ == Foreign::Dict(es),
                        vals == Seq::new(defs@.len(), |i: int| lookup(es, defs@[i].name@)->Some_0),
                        fields@.len() == i,
                        forall|j: int|
                            0 <= j < i ==> (#[trigger] lookup(es, defs@[j].name@) matches Some(x)
                                && conforms(x, defs@[j].shape)),
                        forall|j: int|
                            0 <= j < i ==> (#[trigger] fields@[j]).name == defs@[j].name
                                && fields@[j].shape == defs@[j].shape && fields@[j].value@ == vals[j],
                    decreases defs@.len() - i,
                {
                    let k = match find_entry(entries, &defs[i].name) {
                        Some(k) => k,
                        None => return None,
                    };
                    if !defs[i].shape.accepts(&entries[k].1) {
                        return None;
                    }
                    fields.push(
                        Field {
                            name: defs[i].name.clone(),
                            shape: defs[i].shape,
                            value: entries[k].1.duplicate(),
                        },
                    );
                    i = i + 1;
                }
                Some(fields)
            },
            _ => None,
        },
    }
}

impl Record {
    /// Builds a record, checking each value against its field's shape; the
    /// first field that fails decides the error.
    pub fn new(fields: Vec<Field>) -> (r: Result<Record, ConversionError>)
        ensures
            well_typed(fields@) ==> r == Ok::<Record, ConversionError>(Record { fields }),
            !well_typed(fields@) ==> exists|k: int|
                0 <= k < fields@.len() && well_typed(fields@.take(k)) && r == Err::<
                    Record,
                    ConversionError,
                >(#[trigger] shape_check(fields@[k].value@, fields@[k].shape)->Err_0) && !conforms(
                    fields@[k].value@,
                    fields@[k].shape,
                ),
    {
        let mut i: usize = 0;
        while i < fields.len()
            invariant
                i <= fields@.len(),
                well_typed(fields@.take(i as int)),
            decreases fields@.len() - i,
        {
            let f = &fields[i];
            match f.shape.check(&f.value) {
                Ok(()) => {},
                Err(e) => {
                    return Err(e);
                },
            }
            assert(well_typed(fields@.take(i + 1))) by {
                assert forall|j: int| 0 <= j < i + 1 implies conforms(
                    (#[trigger] fields@.take(i + 1)[j]).value@,
                    fields@.take(i + 1)[j].shape,
                ) by {
                    if j < i {
                        assert(fields@.take(i + 1)[j] == fields@.take(i as int)[j]);
                    }
                }
            }
            i = i + 1;
        }
        assert(fields@.take(i as int) =~= fields@);
        Ok(Record { fields })
    }

    /// Builds a record from a foreign value, trying each declared source in
    /// order; the first that yields a value of the right shape for every
    /// field wins.
    pub fn from_foreign(defs: &Vec<FieldDef>, sources: &Vec<Source>, input: &ForeignValue) -> (r: Result<
        Record,
        ConversionError,
    >)
        ensures
            match first_source(defs@, sources@, input@) {
                Some(k) => r matches Ok(rec) && fields_match(
                    defs@,
                    rec.fields@,
                    source_values(defs@, sources@[k], input@)->Some_0,
                ),
                None => r matches Err(ConversionError::NoVariantMatched(m)) && m@ == expected_message(
                    sources@,
                ),
            },
    {
        let mut i: usize = 0;
        let mut message = String::from_str("expected one of:");
        assert(sources@.take(0) =~= Seq::<Source>::empty());
        while i < sources.len()
            invariant
                i <= sources@.len(),
                first_source(defs@, sources@.take(i as int), input@) is None,
                message@ == expected_message(sources@.take(i as int)),
            decreases sources@.len() - i,
        {
            let ghost srcs = sources@;
            assert(srcs.take(i + 1).drop_last() =~= srcs.take(i as int));
            assert(srcs.take(i + 1).last() == srcs[i as int]);
            if let Some(fields) = from_source(defs, sources[i], input) {
                proof {
                    lemma_first_source(defs@, srcs, input@);
                    lemma_first_source(defs@, srcs.take(i + 1), input@);
                    let k = first_source(defs@, srcs, input@);
                    if k != Some(i as int) {
                        match k {
                            Some(k) => {
                                if k < i {
                                    assert(srcs.take(i + 1)[k] == srcs[k]);
                                }
                            },
                            None => {},
                        }
                    }
                }
                return Ok(Record { fields });
            }
            message.append(" ");
            message.append(sources[i].name());
            i = i + 1;
        }
        proof {
            assert(sources@.take(i as int) =~= sources@);
        }
        Err(ConversionError::NoVariantMatched(message))
    }

    /// The index of the first field called `name`.
    fn find(&self, name: &String) -> (r: Option<usize>)
        ensures
            match r {
                Some(k) => first_named(self.fields@, name@, k as int),
                None => unnamed(self.fields@, name@),
            },
    {
        let mut i: usize = 0;
        while i < self.fields.len()
            invariant
                i <= self.fields@.len(),
                forall|j: int| 0 <= j < i ==> (#[trigger] self.fields@[j]).name@ != name@,
            decreases self.fields@.len() - i,
        {
            if self.fields[i].name == *name {
                return Some(i);
            }
            i = i + 1;
        }
        None
    }

    /// A copy of the value of the field called `name`.
    pub fn get(&self, name: &String) -> (r: Result<ForeignValue, ConversionError>)
        ensures
            match r {
                Ok(v) => exists|k: int|
                    first_named(self.fields@, name@, k) && v@ == (#[trigger] self.fields@[k]).value@,
                Err(e) => e == ConversionError::UnknownField && unnamed(self.fields@, name@),
            },
    {
        match self.find(name) {
            Some(k) => Ok(self.fields[k].value.duplicate()),
            None => Err(ConversionError::UnknownField),
        }
    }

    /// Replaces the value of the field called `name`, if the new value has
    /// the field's shape; otherwise nothing changes.
    pub fn set(&mut self, name: &String, v: ForeignValue) -> (r: Result<(), ConversionError>)
        ensures
            unnamed(old(self).fields@, name@) ==> r == Err::<(), ConversionError>(
                ConversionError::UnknownField,
            ) && *final(self) == *old(self),
            forall|k: int|
                #[trigger] first_named(old(self).fields@, name@, k) ==> {
                    let f = old(self).fields@[k];
                    match shape_check(v@, f.shape) {
                        Ok(_) => r is Ok && final(self).fields@ == old(self).fields@.update(
                            k,
                            Field { name: f.name, shape: f.shape, value: v },
                        ),
                        Err(e) => r == Err::<(), ConversionError>(e) && *final(self) == *old(self),
                    }
                },
    {
        match self.find(name) {
            Some(k) => {
                let shape = self.fields[k].shape;
                match shape.check(&v) {
                    Ok(()) => {
                        let f = Field { name: self.fields[k].name.clone(), shape, value: v };
                        self.fields.set(k, f);
                        Ok(())
                    },
                    Err(e) => Err(e),
                }
            },
            None => Err(ConversionError::UnknownField),
        }
    }
}

} // verus!
