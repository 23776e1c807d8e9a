//! Wrappers of fieldless enumerations, with optional renaming of variants on
//! the foreign side.
use vstd::prelude::*;

verus! {

/// One declared variant: its native name and, optionally, the name the
/// foreign side knows it by.
#[derive(Debug, Clone, PartialEq, Eq)]
pub struct UnitVariant {
    pub name: String,
    pub alias: Option<String>,
}

/// Why an enumeration's declaration was refused.
#[derive(Debug, Clone, Copy, PartialEq, Eq)]
pub enum DefinitionError {
    /// An enumeration needs at least one variant.
    NoVariants,
    /// Some variants are renamed and others are not.
    MixedAliases,
}

/// A declared enumeration: the native and foreign name of each variant, by
/// discriminant.
#[derive(Debug, Clone, PartialEq, Eq)]
pub struct UnitEnum {
    pub native_names: Vec<String>,
    pub foreign_names: Vec<String>,
}

pub open spec fn all_aliased(vs: Seq<UnitVariant>) -> bool {
    forall|i: int| 0 <= i < vs.len() ==> (#[trigger] vs[i]).alias is Some
}

pub open spec fn none_aliased(vs: Seq<UnitVariant>) -> bool {
    forall|i: int| 0 <= i < vs.len() ==> (#[trigger] vs[i]).alias is None
}

/// The name the foreign side uses for a variant.
pub open spec fn foreign_name_of(v: UnitVariant) -> Seq<char> {
    match v.alias {
        Some(a) => a@,
        None => v.name@,
    }
}

impl UnitEnum {
    pub open spec fn wf(&self) -> bool {
        &&& self.native_names@.len() == self.foreign_names@.len()
        &&& self.native_names@.len() > 0
    }

    /// Declares an enumeration. Renaming is all or nothing: either every
    /// variant has an alias or none has.
    pub fn define(variants: &Vec<UnitVariant>) -> (r: Result<UnitEnum, DefinitionError>)
        ensures
            variants@.len() == 0 ==> r == Err::<UnitEnum, DefinitionError>(DefinitionError::NoVariants),
            variants@.len() > 0 && !all_aliased(variants@) && !none_aliased(variants@) ==> r == Err::<
                UnitEnum,
                DefinitionError,
            >(DefinitionError::MixedAliases),
            variants@.len() > 0 && (all_aliased(variants@) || none_aliased(variants@)) ==> (r matches Ok(
                e,
            ) && e.wf() && e.native_names@.len() == variants@.len() && forall|i: int|
                0 <= i < variants@.len() ==> (#[trigger] e.native_names@[i])@ == variants@[i].name@
                    && e.foreign_names@[i]@ == foreign_name_of(variants@[i])),
    {
        if variants.len() == 0 {
            return Err(DefinitionError::NoVariants);
        }
        let mut any_aliased = false;
        let mut any_plain = false;
        let mut native_names: Vec<String> = Vec::new();
        let mut foreign_names: Vec<String> = Vec::new();
        let mut i: usize = 0;
        while i < variants.len()
            invariant
                i <= variants@.len(),
                native_names@.len() == i,
                foreign_names@.len() == i,
                !any_aliased ==> forall|j: int| 0 <= j < i ==> (#[trigger] variants@[j]).alias is None,
                !any_plain ==> forall|j: int| 0 <= j < i ==> (#[trigger] variants@[j]).alias is Some,
                any_aliased ==> exists|j: int| 0 <= j < i && (#[trigger] variants@[j]).alias is Some,
                any_plain ==> exists|j: int| 0 <= j < i && (#[trigger] variants@[j]).alias is None,
                forall|j: int| 0 <= j < i ==> (#[trigger] native_names@[j])@ == variants@[j].name@,
                forall|j: int|
                    0 <= j < i ==> (#[trigger] foreign_names@[j])@ == foreign_name_of(variants@[j]),
            decreases variants@.len() - i,
        {
            let v = &variants[i];
            native_names.push(v.name.clone());
            match &v.alias {
                Some(a) => {
                    foreign_names.push(a.clone());
                    any_aliased = true;
                },
                None => {
                    foreign_names.push(v.name.clone());
                    any_plain = true;
                },
            }
            assert(native_names@[i as int]@ == variants@[i as int].name@);
            assert(foreign_names@[i as int]@ == foreign_name_of(variants@[i as int]));
            i = i + 1;
        }
        if any_aliased && any_plain {
            return Err(DefinitionError::MixedAliases);
        }
        Ok(UnitEnum { native_names, foreign_names })
    }

    /// The foreign name of the variant with discriminant `i`.
    pub fn foreign_name(&self, i: usize) -> (r: &String)
        requires
            self.wf(),
            i < self.foreign_names@.len(),
        ensures
            *r == self.foreign_names@[i as int],
    {
        &self.foreign_names[i]
    }

    /// The native name of the variant with discriminant `i`.
    pub fn native_name(&self, i: usize) -> (r: &String)
        requires
            self.wf(),
            i < self.native_names@.len(),
        ensures
            *r == self.native_names@[i as int],
    {
        &self.native_names[i]
    }

    /// The discriminant of the first variant the foreign side calls `name`.
    pub fn from_foreign_name(&self, name: &String) -> (r: Option<usize>)
        requires
            self.wf(),
        ensures
            match r {
                Some(i) => i < self.foreign_names@.len() && self.foreign_names@[i as int]@ == name@
                    && forall|j: int| 0 <= j < i ==> (#[trigger] self.foreign_names@[j])@ != name@,
                None => forall|j: int|
                    0 <= j < self.foreign_names@.len() ==> (#[trigger] self.foreign_names@[j])@ != name@,
            },
    {
        let mut i: usize = 0;
        while i < self.foreign_names.len()
            invariant
                i <= self.foreign_names@.len(),
                forall|j: int| 0 <= j < i ==> (#[trigger] self.foreign_names@[j])@ != name@,
            decreases self.foreign_names@.len() - i,
        {
            if self.foreign_names[i] == *name {
                return Some(i);
            }
            i = i + 1;
        }
        None
    }
}

} // verus!
