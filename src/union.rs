//! Wrappers of tagged unions: a union is described by its variants, in
//! declaration order, and a wrapped value is always in exactly one of them.
use vstd::prelude::*;

use crate::value::{conforms, ConversionError, Foreign, ForeignValue, Shape};

verus! {

/// What a variant carries and how it converts.
#[derive(Debug, Clone, Copy, PartialEq, Eq)]
pub enum Payload {
    /// No payload.
    Unit,
    /// A payload whose conversion was deliberately left out.
    Unimplemented,
    /// A payload that converts through the given foreign shape.
    Shaped(Shape),
}

/// One declared variant of a union.
#[derive(Debug, Clone, PartialEq)]
pub struct Variant {
    pub name: String,
    pub payload: Payload,
}

/// A union wrapper's declaration: its variants in declaration order.
#[derive(Debug, Clone, PartialEq)]
pub struct UnionDef {
    pub name: String,
    pub variants: Vec<Variant>,
}

/// A wrapped union value: the active variant and its payload, if any.
#[derive(Debug, Clone, PartialEq)]
pub struct UnionValue {
    pub variant: usize,
    pub payload: Option<ForeignValue>,
}

/// The message of a failed construction of union `name` from the input
/// whose representation is `input_repr`.
pub open spec fn no_match_message(name: Seq<char>, input_repr: Seq<char>) -> Seq<char> {
    "could not create "@ + name + " from "@ + input_repr
}

/// Whether a variant's declared conversion accepts a foreign value.
pub open spec fn accepts(var: Variant, v: Foreign) -> bool {
    var.payload matches Payload::Shaped(s) && conforms(v, s)
}

/// The first variant, in declaration order, that accepts a foreign value.
pub open spec fn first_accepting(vs: Seq<Variant>, v: Foreign) -> Option<int>
    decreases vs.len(),
{
    if vs.len() == 0 {
        None
    } else {
        match first_accepting(vs.drop_last(), v) {
            Some(i) => Some(i),
            None => if accepts(vs.last(), v) {
                Some(vs.len() - 1)
            } else {
                None
            },
        }
    }
}

/// `first_accepting` names the least accepting index, or none when no
/// variant accepts.
proof fn lemma_first_accepting(vs: Seq<Variant>, v: Foreign)
    ensures
        match first_accepting(vs, v) {
            Some(k) => 0 <= k < vs.len() && accepts(vs[k], v) && forall|j: int|
                0 <= j < k ==> !accepts(#[trigger] vs[j], v),
            None => forall|j: int| 0 <= j < vs.len() ==> !accepts(#[trigger] vs[j], v),
        },
    decreases vs.len(),
{
    if vs.len() > 0 {
        let init = vs.drop_last();
        lemma_first_accepting(init, v);
        assert forall|j: int| 0 <= j < init.len() implies init[j] == vs[j] by {}
    }
}

/// Construction from a foreign value picks the first declared variant that
/// accepts it: variant `a` is chosen exactly when it accepts the value and
/// no variant declared before it does.
pub proof fn lemma_first_declared_wins(vs: Seq<Variant>, v: Foreign, a: int)
    requires
        0 <= a < vs.len(),
        accepts(vs[a], v),
        forall|j: int| 0 <= j < a ==> !accepts(#[trigger] vs[j], v),
    ensures
        first_accepting(vs, v) == Some(a),
{
    lemma_first_accepting(vs, v);
}

impl UnionDef {
    /// Whether `u` is a value of this union: its variant exists and its
    /// payload agrees with the variant's declaration.
    pub open spec fn holds(&self, u: UnionValue) -> bool {
        &&& u.variant < self.variants@.len()
        &&& match self.variants@[u.variant as int].payload {
            Payload::Unit => u.payload is None,
            Payload::Unimplemented => u.payload is Some,
            Payload::Shaped(s) => u.payload matches Some(p) && conforms(p@, s),
        }
    }

    /// Builds a value from a foreign value, trying each variant's declared
    /// conversion in declaration order; the first that accepts wins. When
    /// none does, the error names the union and the input, by `input_repr`,
    /// the interpreter's own representation of it.
    pub fn construct(&self, input: &ForeignValue, input_repr: &str) -> (r: Result<
        UnionValue,
        ConversionError,
    >)
        ensures
            match first_accepting(self.variants@, input@) {
                Some(k) => r matches Ok(u) && u.variant == k && self.holds(u) && (u.payload matches Some(p)
                    && p@ == input@),
                None => r matches Err(ConversionError::NoVariantMatched(m)) && m@ == no_match_message(
                    self.name@,
                    input_repr@,
                ),
            },
    {
        let mut i: usize = 0;
        while i < self.variants.len()
            invariant
                i <= self.variants@.len(),
                first_accepting(self.variants@.take(i as int), input@) is None,
            decreases self.variants@.len() - i,
        {
            let ghost vs = self.variants@;
            assert(vs.take(i + 1).drop_last() =~= vs.take(i as int));
            if let Payload::Shaped(s) = &self.variants[i].payload {
                if s.accepts(input) {
                    proof {
                        lemma_first_accepting(vs.take(i + 1), input@);
                        lemma_first_accepting(vs, input@);
                        let k = first_accepting(vs, input@);
                        if k != Some(i as int) {
                            match k {
                                Some(k) => {
                                    if k < i {
                                        assert(vs.take(i + 1)[k] == vs[k]);
                                    } else {
                                        assert(vs.take(i + 1)[i as int] == vs[i as int]);
                                    }
                                },
                                None => {},
                            }
                        }
                    }
                    return Ok(UnionValue { variant: i, payload: Some(input.duplicate()) });
                }
            }
            i = i + 1;
        }
        proof {
            assert(self.variants@.take(i as int) =~= self.variants@);
        }
        let mut message = String::from_str("could not create ");
        message.append(self.name.as_str());
        message.append(" from ");
        message.append(input_repr);
        Err(ConversionError::NoVariantMatched(message))
    }

    /// Builds a value of variant `i` from a foreign value of its declared
    /// shape.
    pub fn from_variant(&self, i: usize, input: &ForeignValue) -> (r: Result<UnionValue, ConversionError>)
        requires
            i < self.variants@.len(),
        ensures
            match self.variants@[i as int].payload {
                Payload::Shaped(s) => if conforms(input@, s) {
                    r matches Ok(u) && u.variant == i && self.holds(u) && (u.payload matches Some(p)
                        && p@ == input@)
                } else {
                    r == Err::<UnionValue, ConversionError>(ConversionError::WrongShape)
                },
                Payload::Unit => r == Err::<UnionValue, ConversionError>(
                    ConversionError::NoPayload(self.variants@[i as int].name),
                ),
                Payload::Unimplemented => r == Err::<UnionValue, ConversionError>(
                    ConversionError::Unimplemented(self.variants@[i as int].name),
                ),
            },
    {
        match &self.variants[i].payload {
            Payload::Shaped(s) => if s.accepts(input) {
                Ok(UnionValue { variant: i, payload: Some(input.duplicate()) })
            } else {
                Err(ConversionError::WrongShape)
            },
            Payload::Unit => Err(ConversionError::NoPayload(self.variants[i].name.clone())),
            Payload::Unimplemented => Err(ConversionError::Unimplemented(self.variants[i].name.clone())),
        }
    }

    /// Builds a value of the payload-free variant `i`.
    pub fn new_unit(&self, i: usize) -> (r: Result<UnionValue, ConversionError>)
        requires
            i < self.variants@.len(),
        ensures
            match self.variants@[i as int].payload {
                Payload::Unit => r == Ok::<UnionValue, ConversionError>(
                    UnionValue { variant: i, payload: None },
                ),
                _ => r == Err::<UnionValue, ConversionError>(ConversionError::WrongVariant),
            },
    {
        match &self.variants[i].payload {
            Payload::Unit => Ok(UnionValue { variant: i, payload: None }),
            _ => Err(ConversionError::WrongVariant),
        }
    }

    /// The active variant's payload as a foreign value.
    ///
    /// Fails, naming the variant, when its conversion was left
    /// unimplemented or when it carries no payload.
    pub fn inner(&self, u: &UnionValue) -> (r: Result<ForeignValue, ConversionError>)
        requires
            self.holds(*u),
        ensures
            match self.variants@[u.variant as int].payload {
                Payload::Shaped(_) => r matches Ok(v) && u.payload matches Some(p) && v@ == p@,
                Payload::Unit => r == Err::<ForeignValue, ConversionError>(
                    ConversionError::NoPayload(self.variants@[u.variant as int].name),
                ),
                Payload::Unimplemented => r == Err::<ForeignValue, ConversionError>(
                    ConversionError::Unimplemented(self.variants@[u.variant as int].name),
                ),
            },
    {
        match &self.variants[u.variant].payload {
            Payload::Shaped(_) => match &u.payload {
                Some(p) => Ok(p.duplicate()),
                None => Err(ConversionError::NoPayload(self.variants[u.variant].name.clone())),
            },
            Payload::Unit => Err(ConversionError::NoPayload(self.variants[u.variant].name.clone())),
            Payload::Unimplemented => Err(
                ConversionError::Unimplemented(self.variants[u.variant].name.clone()),
            ),
        }
    }

    /// The payload of variant `i`, failing when `u` is another variant.
    pub fn to_variant(&self, u: &UnionValue, i: usize) -> (r: Result<ForeignValue, ConversionError>)
        requires
            self.holds(*u),
            i < self.variants@.len(),
        ensures
            if u.variant != i {
                r == Err::<ForeignValue, ConversionError>(ConversionError::WrongVariant)
            } else {
                match self.variants@[i as int].payload {
                    Payload::Shaped(_) => r matches Ok(v) && u.payload matches Some(p) && v@ == p@,
                    Payload::Unit => r == Err::<ForeignValue, ConversionError>(
                        ConversionError::NoPayload(self.variants@[i as int].name),
                    ),
                    Payload::Unimplemented => r == Err::<ForeignValue, ConversionError>(
                        ConversionError::Unimplemented(self.variants@[i as int].name),
                    ),
                }
            },
    {
        if u.variant != i {
            Err(ConversionError::WrongVariant)
        } else {
            self.inner(u)
        }
    }

    /// The payload of variant `i`, or `None` when `u` is another variant or
    /// the payload cannot be had.
    pub fn as_variant(&self, u: &UnionValue, i: usize) -> (r: Option<ForeignValue>)
        requires
            self.holds(*u),
            i < self.variants@.len(),
        ensures
            match r {
                Some(v) => u.variant == i && self.variants@[i as int].payload is Shaped && (
                u.payload matches Some(p) && v@ == p@),
                None => u.variant != i || !(self.variants@[i as int].payload is Shaped),
            },
    {
        match self.to_variant(u, i) {
            Ok(v) => Some(v),
            Err(_) => None,
        }
    }
}

impl UnionValue {
    /// Whether this value is variant `i`.
    pub fn is_variant(&self, i: usize) -> (r: bool)
        ensures
            r == (self.variant == i),
    {
        self.variant == i
    }
}

} // verus!
