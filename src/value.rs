//! Plain-data model of the interpreter's objects.
//!
//! A [`ForeignValue`] is what a value looks like on the interpreter's side of
//! the boundary; its view, [`Foreign`], is the same tree with mathematical
//! integers and sequences in it.
use vstd::prelude::*;

verus! {

/// A value of the interpreter's object model.
#[derive(Debug, PartialEq, Eq)]
pub enum ForeignValue {
    /// The interpreter's null object.
    Null,
    Bool(bool),
    /// An integer object whose value fits `i128`.
    Int(i128),
    /// An integer object above `i128::MAX`, up to `u128::MAX`.
    LargeInt(u128),
    Str(String),
    /// A bytes or byte array object.
    Bytes(Vec<u8>),
    /// An ordered sequence object.
    List(Vec<ForeignValue>),
    /// A fixed-length tuple object, by its items.
    Tuple(Vec<ForeignValue>),
    /// A mapping object, by its entries in iteration order.
    Dict(Vec<(ForeignValue, ForeignValue)>),
    /// A set or frozen set object, by its elements in iteration order.
    FrozenSet(Vec<ForeignValue>),
    /// A calendar date object, by its year, month and day attributes.
    Date(i32, u8, u8),
    /// A time-of-day object, by its hour, minute, second and microsecond
    /// attributes, and the zone offset in seconds when it is aware of one.
    Time(u8, u8, u8, u32, Option<i32>),
    /// A fixed-offset time zone object, by its offset from UTC in seconds.
    Offset(i32),
    /// A time difference object, by its normalized days, seconds and
    /// microseconds attributes.
    Delta(i32, i32, i32),
    /// A date-and-time object: year, month, day, hour, minute, second,
    /// microsecond, and the zone offset in seconds when it is aware of one.
    DateTime(i32, u8, u8, u8, u8, u8, u32, Option<i32>),
}

/// The view of a [`ForeignValue`].
pub ghost enum Foreign {
    Null,
    Bool(bool),
    Int(int),
    Str(Seq<char>),
    Bytes(Seq<u8>),
    List(Seq<Foreign>),
    Tuple(Seq<Foreign>),
    Dict(Seq<(Foreign, Foreign)>),
    FrozenSet(Seq<Foreign>),
    Date(int, int, int),
    Time(int, int, int, int, Option<int>),
    Offset(int),
    Delta(int, int, int),
    DateTime(int, int, int, int, int, int, int, Option<int>),
}

/// The view of one foreign value, element by element for sequences.
pub open spec fn model(v: ForeignValue) -> Foreign
    decreases v,
{
    match v {
        ForeignValue::Null => Foreign::Null,
        ForeignValue::Bool(b) => Foreign::Bool(b),
        ForeignValue::Int(n) => Foreign::Int(n as int),
        ForeignValue::LargeInt(n) => Foreign::Int(n as int),
        ForeignValue::Str(s) => Foreign::Str(s@),
        ForeignValue::Bytes(b) => Foreign::Bytes(b@),
        ForeignValue::List(items) => Foreign::List(
            Seq::new(
                items@.len(),
                |i: int|
                    if 0 <= i < items@.len() {
                        model(items@[i])
                    } else {
                        Foreign::Null
                    },
            ),
        ),
        ForeignValue::Tuple(items) => Foreign::Tuple(
            Seq::new(
                items@.len(),
                |i: int|
                    if 0 <= i < items@.len() {
                        model(items@[i])
                    } else {
                        Foreign::Null
                    },
            ),
        ),
        ForeignValue::Dict(entries) => Foreign::Dict(
            Seq::new(
                entries@.len(),
                |i: int|
                    if 0 <= i < entries@.len() {
                        (model(entries@[i].0), model(entries@[i].1))
                    } else {
                        (Foreign::Null, Foreign::Null)
                    },
            ),
        ),
        ForeignValue::FrozenSet(items) => Foreign::FrozenSet(
            Seq::new(
                items@.len(),
                |i: int|
                    if 0 <= i < items@.len() {
                        model(items@[i])
                    } else {
                        Foreign::Null
                    },
            ),
        ),
        ForeignValue::Date(y, m, d) => Foreign::Date(y as int, m as int, d as int),
        ForeignValue::Time(h, mi, sec, us, tz) => Foreign::Time(
            h as int,
            mi as int,
            sec as int,
            us as int,
            match tz {
                Some(o) => Some(o as int),
                None => None,
            },
        ),
        ForeignValue::Offset(o) => Foreign::Offset(o as int),
        ForeignValue::Delta(d, s, us) => Foreign::Delta(d as int, s as int, us as int),
        ForeignValue::DateTime(y, m, d, h, mi, sec, us, tz) => Foreign::DateTime(
            y as int,
            m as int,
            d as int,
            h as int,
            mi as int,
            sec as int,
            us as int,
            match tz {
                Some(o) => Some(o as int),
                None => None,
            },
        ),
    }
}

impl View for ForeignValue {
    type V = Foreign;

    open spec fn view(&self) -> Foreign {
        model(*self)
    }
}

/// The view of a sequence of foreign values, element by element.
pub open spec fn models(items: Seq<ForeignValue>) -> Seq<Foreign> {
    Seq::new(items.len(), |i: int| model(items[i]))
}

/// Builds a foreign sequence from its elements.
pub fn make_list(items: Vec<ForeignValue>) -> (r: ForeignValue)
    ensures
        r@ == Foreign::List(models(items@)),
{
    let r = ForeignValue::List(items);
    proof {
        assert(r@->List_0 =~= models(items@));
    }
    r
}

impl ForeignValue {
    /// A copy of this value, with the same view.
    pub fn duplicate(&self) -> (r: ForeignValue)
        ensures
            r@ == self@,
        decreases self, 1nat,
    {
        match self {
            ForeignValue::Null => ForeignValue::Null,
            ForeignValue::Bool(b) => ForeignValue::Bool(*b),
            ForeignValue::Int(n) => ForeignValue::Int(*n),
            ForeignValue::LargeInt(n) => ForeignValue::LargeInt(*n),
            ForeignValue::Str(s) => ForeignValue::Str(s.clone()),
            ForeignValue::Bytes(b) => ForeignValue::Bytes(copy_bytes(b)),
            ForeignValue::Date(y, m, d) => ForeignValue::Date(*y, *m, *d),
            ForeignValue::Time(h, mi, sec, us, tz) => ForeignValue::Time(*h, *mi, *sec, *us, *tz),
            ForeignValue::Offset(o) => ForeignValue::Offset(*o),
            ForeignValue::Delta(d, s, us) => ForeignValue::Delta(*d, *s, *us),
            ForeignValue::DateTime(y, m, d, h, mi, sec, us, tz) => ForeignValue::DateTime(
                *y,
                *m,
                *d,
                *h,
                *mi,
                *sec,
                *us,
                *tz,
            ),
            ForeignValue::Dict(entries) => {
                let mut out: Vec<(ForeignValue, ForeignValue)> = Vec::new();
                let mut i: usize = 0;
                while i < entries.len()
                    invariant
                        i <= entries@.len(),
                        out@.len() == i,
                        *self == ForeignValue::Dict(*entries),
                        forall|j: int|
                            0 <= j < i ==> model((#[trigger] out@[j]).0) == model(entries@[j].0)
                                && model(out@[j].1) == model(entries@[j].1),
                    decreases entries@.len() - i,
                {
                    proof {
                        let ghost whole = *self;
                        assert(decreases_to!(whole => whole->Dict_0));
                        vstd::std_specs::vec::axiom_vec_index_decreases(*entries, i as int);
                        assert(decreases_to!(whole => entries[i as int]));
                        assert(decreases_to!(entries[i as int] => entries[i as int].0));
                        assert(decreases_to!(entries[i as int] => entries[i as int].1));
                    }
                    let k = entries[i].0.duplicate();
                    let v = entries[i].1.duplicate();
                    out.push((k, v));
                    i = i + 1;
                }
                let r = make_dict(out);
                proof {
                    assert(entry_models(out@) =~= self@->Dict_0);
                }
                r
            },
            ForeignValue::List(items) => {
                proof {
                    let ghost whole = *self;
                    assert(decreases_to!(whole => whole->List_0));
                }
                let out = duplicate_all(items);
                assert(models(items@) =~= self@->List_0);
                make_list(out)
            },
            ForeignValue::Tuple(items) => {
                proof {
                    let ghost whole = *self;
                    assert(decreases_to!(whole => whole->Tuple_0));
                }
                let out = duplicate_all(items);
                assert(models(items@) =~= self@->Tuple_0);
                make_tuple(out)
            },
            ForeignValue::FrozenSet(items) => {
                proof {
                    let ghost whole = *self;
                    assert(decreases_to!(whole => whole->FrozenSet_0));
                }
                let out = duplicate_all(items);
                assert(models(items@) =~= self@->FrozenSet_0);
                make_frozen_set(out)
            },
        }
    }
}

impl Clone for ForeignValue {
    fn clone(&self) -> (r: ForeignValue) {
        self.duplicate()
    }
}

/// A copy of a byte sequence.
pub fn copy_bytes(b: &Vec<u8>) -> (r: Vec<u8>)
    ensures
        r@ == b@,
{
    let mut out: Vec<u8> = Vec::new();
    let mut i: usize = 0;
    while i < b.len()
        invariant
            i <= b@.len(),
            out@ == b@.take(i as int),
        decreases b@.len() - i,
    {
        out.push(b[i]);
        i = i + 1;
        assert(out@ =~= b@.take(i as int));
    }
    assert(b@.take(i as int) =~= b@);
    out
}

/// Copies of each of the values, with the same views.
fn duplicate_all(items: &Vec<ForeignValue>) -> (r: Vec<ForeignValue>)
    ensures
        models(r@) == models(items@),
    decreases items, 0nat,
{
    let mut out: Vec<ForeignValue> = Vec::new();
    let mut i: usize = 0;
    while i < items.len()
        invariant
            i <= items@.len(),
            out@.len() == i,
            forall|j: int| 0 <= j < i ==> model(#[trigger] out@[j]) == model(items@[j]),
        decreases items@.len() - i,
    {
        proof {
            vstd::std_specs::vec::axiom_vec_index_decreases(*items, i as int);
        }
        let v = items[i].duplicate();
        out.push(v);
        i = i + 1;
    }
    assert(models(out@) =~= models(items@));
    out
}

/// The foreign shape a declared conversion accepts.
#[derive(Debug, Clone, Copy, PartialEq, Eq)]
pub enum Shape {
    /// Any foreign value.
    Any,
    Bool,
    /// An integer within `lo..=hi`.
    Int(i128, i128),
    Str,
    Bytes,
    /// A sequence, whatever its elements.
    List,
    /// A tuple, whatever its items.
    Tuple,
    /// A mapping, whatever its entries.
    Dict,
    /// A set, whatever its elements.
    FrozenSet,
    Date,
    Time,
    Offset,
    Delta,
    DateTime,
}

/// Whether a foreign value has the given shape.
pub open spec fn conforms(v: Foreign, s: Shape) -> bool {
    match s {
        Shape::Any => true,
        Shape::Bool => v is Bool,
        Shape::Int(lo, hi) => v matches Foreign::Int(n) && lo <= n <= hi,
        Shape::Str => v is Str,
        Shape::Bytes => v is Bytes,
        Shape::List => v is List,
        Shape::Tuple => v is Tuple,
        Shape::Dict => v is Dict,
        Shape::FrozenSet => v is FrozenSet,
        Shape::Date => v is Date,
        Shape::Time => v is Time,
        Shape::Offset => v is Offset,
        Shape::Delta => v is Delta,
        Shape::DateTime => v is DateTime,
    }
}

/// Why a foreign value fails a shape, if it does: an integer out of range
/// is a narrowing failure, anything else of the wrong kind a shape mismatch.
pub open spec fn shape_check(v: Foreign, s: Shape) -> Result<(), ConversionError> {
    if conforms(v, s) {
        Ok(())
    } else if s is Int && v is Int {
        Err(ConversionError::Narrowing)
    } else {
        Err(ConversionError::WrongShape)
    }
}

impl Shape {
    /// Tests a foreign value against this shape.
    pub fn accepts(&self, v: &ForeignValue) -> (r: bool)
        ensures
            r == conforms(v@, *self),
    {
        match self {
            Shape::Any => true,
            Shape::Bool => matches!(v, ForeignValue::Bool(_)),
            Shape::Int(lo, hi) => match v {
                ForeignValue::Int(n) => *lo <= *n && *n <= *hi,
                ForeignValue::LargeInt(n) => *hi >= 0 && *n <= *hi as u128 && (*lo <= 0 || *n >= *lo as u128),
                _ => false,
            },
            Shape::Str => matches!(v, ForeignValue::Str(_)),
            Shape::Bytes => matches!(v, ForeignValue::Bytes(_)),
            Shape::List => matches!(v, ForeignValue::List(_)),
            Shape::Tuple => matches!(v, ForeignValue::Tuple(_)),
            Shape::Dict => matches!(v, ForeignValue::Dict(_)),
            Shape::FrozenSet => matches!(v, ForeignValue::FrozenSet(_)),
            Shape::Date => matches!(v, ForeignValue::Date(..)),
            Shape::Time => matches!(v, ForeignValue::Time(..)),
            Shape::Offset => matches!(v, ForeignValue::Offset(_)),
            Shape::Delta => matches!(v, ForeignValue::Delta(..)),
            Shape::DateTime => matches!(v, ForeignValue::DateTime(..)),
        }
    }

    /// Tests a foreign value against this shape, saying why it fails.
    pub fn check(&self, v: &ForeignValue) -> (r: Result<(), ConversionError>)
        ensures
            r == shape_check(v@, *self),
    {
        if self.accepts(v) {
            Ok(())
        } else if matches!(self, Shape::Int(_, _)) && (matches!(v, ForeignValue::Int(_)) || matches!(
            v,
            ForeignValue::LargeInt(_),
        )) {
            Err(ConversionError::Narrowing)
        } else {
            Err(ConversionError::WrongShape)
        }
    }
}

/// Builds a foreign tuple from its items.
pub fn make_tuple(items: Vec<ForeignValue>) -> (r: ForeignValue)
    ensures
        r@ == Foreign::Tuple(models(items@)),
{
    let r = ForeignValue::Tuple(items);
    proof {
        assert(r@->Tuple_0 =~= models(items@));
    }
    r
}

/// Builds a foreign set from its elements, in iteration order.
pub fn make_frozen_set(items: Vec<ForeignValue>) -> (r: ForeignValue)
    ensures
        r@ == Foreign::FrozenSet(models(items@)),
{
    let r = ForeignValue::FrozenSet(items);
    proof {
        assert(r@->FrozenSet_0 =~= models(items@));
    }
    r
}

/// The view of a sequence of foreign entries, entry by entry.
pub open spec fn entry_models(entries: Seq<(ForeignValue, ForeignValue)>) -> Seq<(Foreign, Foreign)> {
    Seq::new(entries.len(), |i: int| (model(entries[i].0), model(entries[i].1)))
}

/// Builds a foreign mapping from its entries.
pub fn make_dict(entries: Vec<(ForeignValue, ForeignValue)>) -> (r: ForeignValue)
    ensures
        r@ == Foreign::Dict(entry_models(entries@)),
{
    let r = ForeignValue::Dict(entries);
    proof {
        assert(r@->Dict_0 =~= entry_models(entries@));
    }
    r
}

/// Why a value could not cross the boundary.
#[derive(Debug, Clone, PartialEq, Eq)]
pub enum ConversionError {
    /// The foreign value does not have the shape the target type needs.
    WrongShape,
    /// A foreign number lies outside the target type's range.
    Narrowing,
    /// None of the declared source shapes of a constructor matched; holds
    /// the message saying what was tried.
    NoVariantMatched(String),
    /// The active variant's conversion was left unimplemented; holds its name.
    Unimplemented(String),
    /// The active variant carries no payload; holds its name.
    NoPayload(String),
    /// The value is not the variant that was asked for.
    WrongVariant,
    /// The wrapped structure has no field of that name.
    UnknownField,
    /// The components read do not make a valid value of the target type.
    Invalid,
}

} // verus!
