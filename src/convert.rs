//! The two conversion directions between native values and foreign values.
use vstd::prelude::*;

use crate::value::{
    copy_bytes, make_list, model, models, ConversionError, Foreign, ForeignValue,
};

verus! {

/// Native-to-foreign conversion.
pub trait ToPython: DeepView {
    /// The foreign value that a native value (by its deep view) converts
    /// to, or why it cannot be had.
    spec fn encode(x: <Self as DeepView>::V) -> Result<Foreign, ConversionError>;

    fn to_python(&self) -> (r: Result<ForeignValue, ConversionError>)
        ensures
            match r {
                Ok(v) => Self::encode(self.deep_view()) == Ok::<Foreign, ConversionError>(v@),
                Err(e) => Self::encode(self.deep_view()) == Err::<Foreign, ConversionError>(e),
            },
    ;
}

/// Foreign-to-native conversion.
pub trait PyTryFrom: Sized + DeepView {
    /// The native value (by its deep view) a foreign value converts to, or
    /// why it does not.
    spec fn decode(v: Foreign) -> Result<<Self as DeepView>::V, ConversionError>;

    fn py_try_from(v: &ForeignValue) -> (r: Result<Self, ConversionError>)
        ensures
            match r {
                Ok(x) => Self::decode(v@) == Ok::<<Self as DeepView>::V, ConversionError>(x.deep_view()),
                Err(e) => Self::decode(v@) == Err::<<Self as DeepView>::V, ConversionError>(e),
            },
    ;
}

/// Types whose two conversions undo each other: a value that converts to a
/// foreign value reads back from it unchanged.
pub trait RoundTrip: ToPython + PyTryFrom {
    proof fn lemma_round_trip(x: <Self as DeepView>::V)
        ensures
            Self::encode(x) matches Ok(f) ==> Self::decode(f) == Ok::<
                <Self as DeepView>::V,
                ConversionError,
            >(x),
    ;
}

/// Types that never convert to the foreign null object, so that an optional
/// value of them keeps `None` and `Some` apart.
pub trait NonNull: ToPython {
    proof fn lemma_not_null(x: <Self as DeepView>::V)
        ensures
            Self::encode(x) matches Ok(f) ==> !(f is Null),
    ;
}

impl ToPython for bool {
    open spec fn encode(x: bool) -> Result<Foreign, ConversionError> {
        Ok(Foreign::Bool(x))
    }

    fn to_python(&self) -> (r: Result<ForeignValue, ConversionError>) {
        Ok(ForeignValue::Bool(*self))
    }
}

impl PyTryFrom for bool {
    open spec fn decode(v: Foreign) -> Result<bool, ConversionError> {
        match v {
            Foreign::Bool(b) => Ok(b),
            _ => Err(ConversionError::WrongShape),
        }
    }

    fn py_try_from(v: &ForeignValue) -> (r: Result<bool, ConversionError>) {
        match v {
            ForeignValue::Bool(b) => Ok(*b),
            _ => Err(ConversionError::WrongShape),
        }
    }
}

impl RoundTrip for bool {
    proof fn lemma_round_trip(x: bool) {
    }
}

impl NonNull for bool {
    proof fn lemma_not_null(x: bool) {
    }
}

/// The result of reading a foreign integer into the range `lo..=hi`.
pub open spec fn decode_int(v: Foreign, lo: int, hi: int) -> Result<int, ConversionError> {
    match v {
        Foreign::Int(n) => if lo <= n <= hi {
            Ok(n)
        } else {
            Err(ConversionError::Narrowing)
        },
        _ => Err(ConversionError::WrongShape),
    }
}

impl ToPython for i32 {
    open spec fn encode(x: i32) -> Result<Foreign, ConversionError> {
        Ok(Foreign::Int(x as int))
    }

    fn to_python(&self) -> (r: Result<ForeignValue, ConversionError>) {
        Ok(ForeignValue::Int(*self as i128))
    }
}

impl PyTryFrom for i32 {
    open spec fn decode(v: Foreign) -> Result<i32, ConversionError> {
        match decode_int(v, i32::MIN as int, i32::MAX as int) {
            Ok(n) => Ok(n as i32),
            Err(e) => Err(e),
        }
    }

    fn py_try_from(v: &ForeignValue) -> (r: Result<i32, ConversionError>) {
        match v {
            ForeignValue::Int(n) => if i32::MIN as i128 <= *n && *n <= i32::MAX as i128 {
                Ok(*n as i32)
            } else {
                Err(ConversionError::Narrowing)
            },
            ForeignValue::LargeInt(n) => if *n <= i32::MAX as u128 {
                Ok(*n as i32)
            } else {
                Err(ConversionError::Narrowing)
            },
            _ => Err(ConversionError::WrongShape),
        }
    }
}

impl RoundTrip for i32 {
    proof fn lemma_round_trip(x: i32) {
    }
}

impl NonNull for i32 {
    proof fn lemma_not_null(x: i32) {
    }
}

impl ToPython for i128 {
    open spec fn encode(x: i128) -> Result<Foreign, ConversionError> {
        Ok(Foreign::Int(x as int))
    }

    fn to_python(&self) -> (r: Result<ForeignValue, ConversionError>) {
        Ok(ForeignValue::Int(*self as i128))
    }
}

impl PyTryFrom for i128 {
    open spec fn decode(v: Foreign) -> Result<i128, ConversionError> {
        match decode_int(v, i128::MIN as int, i128::MAX as int) {
            Ok(n) => Ok(n as i128),
            Err(e) => Err(e),
        }
    }

    fn py_try_from(v: &ForeignValue) -> (r: Result<i128, ConversionError>) {
        match v {
            ForeignValue::Int(n) => if i128::MIN as i128 <= *n && *n <= i128::MAX as i128 {
                Ok(*n as i128)
            } else {
                Err(ConversionError::Narrowing)
            },
            ForeignValue::LargeInt(n) => if *n <= i128::MAX as u128 {
                Ok(*n as i128)
            } else {
                Err(ConversionError::Narrowing)
            },
            _ => Err(ConversionError::WrongShape),
        }
    }
}

impl RoundTrip for i128 {
    proof fn lemma_round_trip(x: i128) {
    }
}

impl NonNull for i128 {
    proof fn lemma_not_null(x: i128) {
    }
}

impl ToPython for isize {
    open spec fn encode(x: isize) -> Result<Foreign, ConversionError> {
        Ok(Foreign::Int(x as int))
    }

    fn to_python(&self) -> (r: Result<ForeignValue, ConversionError>) {
        Ok(ForeignValue::Int(*self as i128))
    }
}

impl PyTryFrom for isize {
    open spec fn decode(v: Foreign) -> Result<isize, ConversionError> {
        match decode_int(v, isize::MIN as int, isize::MAX as int) {
            Ok(n) => Ok(n as isize),
            Err(e) => Err(e),
        }
    }

    fn py_try_from(v: &ForeignValue) -> (r: Result<isize, ConversionError>) {
        match v {
            ForeignValue::Int(n) => if isize::MIN as i128 <= *n && *n <= isize::MAX as i128 {
                Ok(*n as isize)
            } else {
                Err(ConversionError::Narrowing)
            },
            ForeignValue::LargeInt(n) => if *n <= isize::MAX as u128 {
                Ok(*n as isize)
            } else {
                Err(ConversionError::Narrowing)
            },
            _ => Err(ConversionError::WrongShape),
        }
    }
}

impl RoundTrip for isize {
    proof fn lemma_round_trip(x: isize) {
    }
}

impl NonNull for isize {
    proof fn lemma_not_null(x: isize) {
    }
}

impl ToPython for usize {
    open spec fn encode(x: usize) -> Result<Foreign, ConversionError> {
        Ok(Foreign::Int(x as int))
    }

    fn to_python(&self) -> (r: Result<ForeignValue, ConversionError>) {
        Ok(ForeignValue::Int(*self as i128))
    }
}

impl PyTryFrom for usize {
    open spec fn decode(v: Foreign) -> Result<usize, ConversionError> {
        match decode_int(v, usize::MIN as int, usize::MAX as int) {
            Ok(n) => Ok(n as usize),
            Err(e) => Err(e),
        }
    }

    fn py_try_from(v: &ForeignValue) -> (r: Result<usize, ConversionError>) {
        match v {
            ForeignValue::Int(n) => if usize::MIN as i128 <= *n && *n <= usize::MAX as i128 {
                Ok(*n as usize)
            } else {
                Err(ConversionError::Narrowing)
            },
            ForeignValue::LargeInt(n) => if *n <= usize::MAX as u128 {
                Ok(*n as usize)
            } else {
                Err(ConversionError::Narrowing)
            },
            _ => Err(ConversionError::WrongShape),
        }
    }
}

impl RoundTrip for usize {
    proof fn lemma_round_trip(x: usize) {
    }
}

impl NonNull for usize {
    proof fn lemma_not_null(x: usize) {
    }
}

impl ToPython for u128 {
    open spec fn encode(x: u128) -> Result<Foreign, ConversionError> {
        Ok(Foreign::Int(x as int))
    }

    fn to_python(&self) -> (r: Result<ForeignValue, ConversionError>) {
        if *self <= i128::MAX as u128 {
            Ok(ForeignValue::Int(*self as i128))
        } else {
            Ok(ForeignValue::LargeInt(*self))
        }
    }
}

impl PyTryFrom for u128 {
    open spec fn decode(v: Foreign) -> Result<u128, ConversionError> {
        match decode_int(v, 0, u128::MAX as int) {
            Ok(n) => Ok(n as u128),
            Err(e) => Err(e),
        }
    }

    fn py_try_from(v: &ForeignValue) -> (r: Result<u128, ConversionError>) {
        match v {
            ForeignValue::Int(n) => if 0 <= *n {
                Ok(*n as u128)
            } else {
                Err(ConversionError::Narrowing)
            },
            ForeignValue::LargeInt(n) => Ok(*n),
            _ => Err(ConversionError::WrongShape),
        }
    }
}

impl RoundTrip for u128 {
    proof fn lemma_round_trip(x: u128) {
    }
}

impl NonNull for u128 {
    proof fn lemma_not_null(x: u128) {
    }
}

impl ToPython for i8 {
    open spec fn encode(x: i8) -> Result<Foreign, ConversionError> {
        Ok(Foreign::Int(x as int))
    }

    fn to_python(&self) -> (r: Result<ForeignValue, ConversionError>) {
        Ok(ForeignValue::Int(*self as i128))
    }
}

impl PyTryFrom for i8 {
    open spec fn decode(v: Foreign) -> Result<i8, ConversionError> {
        match decode_int(v, i8::MIN as int, i8::MAX as int) {
            Ok(n) => Ok(n as i8),
            Err(e) => Err(e),
        }
    }

    fn py_try_from(v: &ForeignValue) -> (r: Result<i8, ConversionError>) {
        match v {
            ForeignValue::Int(n) => if i8::MIN as i128 <= *n && *n <= i8::MAX as i128 {
                Ok(*n as i8)
            } else {
                Err(ConversionError::Narrowing)
            },
            ForeignValue::LargeInt(n) => if *n <= i8::MAX as u128 {
                Ok(*n as i8)
            } else {
                Err(ConversionError::Narrowing)
            },
            _ => Err(ConversionError::WrongShape),
        }
    }
}

impl RoundTrip for i8 {
    proof fn lemma_round_trip(x: i8) {
    }
}

impl NonNull for i8 {
    proof fn lemma_not_null(x: i8) {
    }
}

impl ToPython for i16 {
    open spec fn encode(x: i16) -> Result<Foreign, ConversionError> {
        Ok(Foreign::Int(x as int))
    }

    fn to_python(&self) -> (r: Result<ForeignValue, ConversionError>) {
        Ok(ForeignValue::Int(*self as i128))
    }
}

impl PyTryFrom for i16 {
    open spec fn decode(v: Foreign) -> Result<i16, ConversionError> {
        match decode_int(v, i16::MIN as int, i16::MAX as int) {
            Ok(n) => Ok(n as i16),
            Err(e) => Err(e),
        }
    }

    fn py_try_from(v: &ForeignValue) -> (r: Result<i16, ConversionError>) {
        match v {
            ForeignValue::Int(n) => if i16::MIN as i128 <= *n && *n <= i16::MAX as i128 {
                Ok(*n as i16)
            } else {
                Err(ConversionError::Narrowing)
            },
            ForeignValue::LargeInt(n) => if *n <= i16::MAX as u128 {
                Ok(*n as i16)
            } else {
                Err(ConversionError::Narrowing)
            },
            _ => Err(ConversionError::WrongShape),
        }
    }
}

impl RoundTrip for i16 {
    proof fn lemma_round_trip(x: i16) {
    }
}

impl NonNull for i16 {
    proof fn lemma_not_null(x: i16) {
    }
}

impl ToPython for i64 {
    open spec fn encode(x: i64) -> Result<Foreign, ConversionError> {
        Ok(Foreign::Int(x as int))
    }

    fn to_python(&self) -> (r: Result<ForeignValue, ConversionError>) {
        Ok(ForeignValue::Int(*self as i128))
    }
}

impl PyTryFrom for i64 {
    open spec fn decode(v: Foreign) -> Result<i64, ConversionError> {
        match decode_int(v, i64::MIN as int, i64::MAX as int) {
            Ok(n) => Ok(n as i64),
            Err(e) => Err(e),
        }
    }

    fn py_try_from(v: &ForeignValue) -> (r: Result<i64, ConversionError>) {
        match v {
            ForeignValue::Int(n) => if i64::MIN as i128 <= *n && *n <= i64::MAX as i128 {
                Ok(*n as i64)
            } else {
                Err(ConversionError::Narrowing)
            },
            ForeignValue::LargeInt(n) => if *n <= i64::MAX as u128 {
                Ok(*n as i64)
            } else {
                Err(ConversionError::Narrowing)
            },
            _ => Err(ConversionError::WrongShape),
        }
    }
}

impl RoundTrip for i64 {
    proof fn lemma_round_trip(x: i64) {
    }
}

impl NonNull for i64 {
    proof fn lemma_not_null(x: i64) {
    }
}

impl ToPython for u8 {
    open spec fn encode(x: u8) -> Result<Foreign, ConversionError> {
        Ok(Foreign::Int(x as int))
    }

    fn to_python(&self) -> (r: Result<ForeignValue, ConversionError>) {
        Ok(ForeignValue::Int(*self as i128))
    }
}

impl PyTryFrom for u8 {
    open spec fn decode(v: Foreign) -> Result<u8, ConversionError> {
        match decode_int(v, u8::MIN as int, u8::MAX as int) {
            Ok(n) => Ok(n as u8),
            Err(e) => Err(e),
        }
    }

    fn py_try_from(v: &ForeignValue) -> (r: Result<u8, ConversionError>) {
        match v {
            ForeignValue::Int(n) => if u8::MIN as i128 <= *n && *n <= u8::MAX as i128 {
                Ok(*n as u8)
            } else {
                Err(ConversionError::Narrowing)
            },
            ForeignValue::LargeInt(n) => if *n <= u8::MAX as u128 {
                Ok(*n as u8)
            } else {
                Err(ConversionError::Narrowing)
            },
            _ => Err(ConversionError::WrongShape),
        }
    }
}

impl RoundTrip for u8 {
    proof fn lemma_round_trip(x: u8) {
    }
}

impl NonNull for u8 {
    proof fn lemma_not_null(x: u8) {
    }
}

impl ToPython for u16 {
    open spec fn encode(x: u16) -> Result<Foreign, ConversionError> {
        Ok(Foreign::Int(x as int))
    }

    fn to_python(&self) -> (r: Result<ForeignValue, ConversionError>) {
        Ok(ForeignValue::Int(*self as i128))
    }
}

impl PyTryFrom for u16 {
    open spec fn decode(v: Foreign) -> Result<u16, ConversionError> {
        match decode_int(v, u16::MIN as int, u16::MAX as int) {
            Ok(n) => Ok(n as u16),
            Err(e) => Err(e),
        }
    }

    fn py_try_from(v: &ForeignValue) -> (r: Result<u16, ConversionError>) {
        match v {
            ForeignValue::Int(n) => if u16::MIN as i128 <= *n && *n <= u16::MAX as i128 {
                Ok(*n as u16)
            } else {
                Err(ConversionError::Narrowing)
            },
            ForeignValue::LargeInt(n) => if *n <= u16::MAX as u128 {
                Ok(*n as u16)
            } else {
                Err(ConversionError::Narrowing)
            },
            _ => Err(ConversionError::WrongShape),
        }
    }
}

impl RoundTrip for u16 {
    proof fn lemma_round_trip(x: u16) {
    }
}

impl NonNull for u16 {
    proof fn lemma_not_null(x: u16) {
    }
}

impl ToPython for u32 {
    open spec fn encode(x: u32) -> Result<Foreign, ConversionError> {
        Ok(Foreign::Int(x as int))
    }

    fn to_python(&self) -> (r: Result<ForeignValue, ConversionError>) {
        Ok(ForeignValue::Int(*self as i128))
    }
}

impl PyTryFrom for u32 {
    open spec fn decode(v: Foreign) -> Result<u32, ConversionError> {
        match decode_int(v, u32::MIN as int, u32::MAX as int) {
            Ok(n) => Ok(n as u32),
            Err(e) => Err(e),
        }
    }

    fn py_try_from(v: &ForeignValue) -> (r: Result<u32, ConversionError>) {
        match v {
            ForeignValue::Int(n) => if u32::MIN as i128 <= *n && *n <= u32::MAX as i128 {
                Ok(*n as u32)
            } else {
                Err(ConversionError::Narrowing)
            },
            ForeignValue::LargeInt(n) => if *n <= u32::MAX as u128 {
                Ok(*n as u32)
            } else {
                Err(ConversionError::Narrowing)
            },
            _ => Err(ConversionError::WrongShape),
        }
    }
}

impl RoundTrip for u32 {
    proof fn lemma_round_trip(x: u32) {
    }
}

impl NonNull for u32 {
    proof fn lemma_not_null(x: u32) {
    }
}

impl ToPython for u64 {
    open spec fn encode(x: u64) -> Result<Foreign, ConversionError> {
        Ok(Foreign::Int(x as int))
    }

    fn to_python(&self) -> (r: Result<ForeignValue, ConversionError>) {
        Ok(ForeignValue::Int(*self as i128))
    }
}

impl PyTryFrom for u64 {
    open spec fn decode(v: Foreign) -> Result<u64, ConversionError> {
        match decode_int(v, u64::MIN as int, u64::MAX as int) {
            Ok(n) => Ok(n as u64),
            Err(e) => Err(e),
        }
    }

    fn py_try_from(v: &ForeignValue) -> (r: Result<u64, ConversionError>) {
        match v {
            ForeignValue::Int(n) => if u64::MIN as i128 <= *n && *n <= u64::MAX as i128 {
                Ok(*n as u64)
            } else {
                Err(ConversionError::Narrowing)
            },
            ForeignValue::LargeInt(n) => if *n <= u64::MAX as u128 {
                Ok(*n as u64)
            } else {
                Err(ConversionError::Narrowing)
            },
            _ => Err(ConversionError::WrongShape),
        }
    }
}

impl RoundTrip for u64 {
    proof fn lemma_round_trip(x: u64) {
    }
}

impl NonNull for u64 {
    proof fn lemma_not_null(x: u64) {
    }
}

impl ToPython for String {
    open spec fn encode(x: Seq<char>) -> Result<Foreign, ConversionError> {
        Ok(Foreign::Str(x))
    }

    fn to_python(&self) -> (r: Result<ForeignValue, ConversionError>) {
        Ok(ForeignValue::Str(self.clone()))
    }
}

impl PyTryFrom for String {
    open spec fn decode(v: Foreign) -> Result<Seq<char>, ConversionError> {
        match v {
            Foreign::Str(s) => Ok(s),
            _ => Err(ConversionError::WrongShape),
        }
    }

    fn py_try_from(v: &ForeignValue) -> (r: Result<String, ConversionError>) {
        match v {
            ForeignValue::Str(s) => Ok(s.clone()),
            _ => Err(ConversionError::WrongShape),
        }
    }
}

impl RoundTrip for String {
    proof fn lemma_round_trip(x: Seq<char>) {
    }
}

impl NonNull for String {
    proof fn lemma_not_null(x: Seq<char>) {
    }
}

/// A byte string: converts to and from the foreign bytes object, where a
/// `Vec<u8>` converts to a sequence of integers.
#[derive(Debug, Clone, PartialEq, Eq)]
pub struct Bytes {
    pub bytes: Vec<u8>,
}

impl DeepView for Bytes {
    type V = Seq<u8>;

    open spec fn deep_view(&self) -> Seq<u8> {
        self.bytes@
    }
}

impl ToPython for Bytes {
    open spec fn encode(x: Seq<u8>) -> Result<Foreign, ConversionError> {
        Ok(Foreign::Bytes(x))
    }

    fn to_python(&self) -> (r: Result<ForeignValue, ConversionError>) {
        Ok(ForeignValue::Bytes(copy_bytes(&self.bytes)))
    }
}

impl PyTryFrom for Bytes {
    open spec fn decode(v: Foreign) -> Result<Seq<u8>, ConversionError> {
        match v {
            Foreign::Bytes(b) => Ok(b),
            _ => Err(ConversionError::WrongShape),
        }
    }

    fn py_try_from(v: &ForeignValue) -> (r: Result<Bytes, ConversionError>) {
        match v {
            ForeignValue::Bytes(b) => Ok(Bytes { bytes: copy_bytes(b) }),
            _ => Err(ConversionError::WrongShape),
        }
    }
}

impl RoundTrip for Bytes {
    proof fn lemma_round_trip(x: Seq<u8>) {
    }
}

impl NonNull for Bytes {
    proof fn lemma_not_null(x: Seq<u8>) {
    }
}

impl<T: ToPython> ToPython for Option<T> {
    open spec fn encode(x: Option<<T as DeepView>::V>) -> Result<Foreign, ConversionError> {
        match x {
            None => Ok(Foreign::Null),
            Some(y) => T::encode(y),
        }
    }

    fn to_python(&self) -> (r: Result<ForeignValue, ConversionError>) {
        match self {
            None => Ok(ForeignValue::Null),
            Some(y) => y.to_python(),
        }
    }
}

impl<T: PyTryFrom> PyTryFrom for Option<T> {
    open spec fn decode(v: Foreign) -> Result<Option<<T as DeepView>::V>, ConversionError> {
        match v {
            Foreign::Null => Ok(None),
            _ => match T::decode(v) {
                Ok(y) => Ok(Some(y)),
                Err(e) => Err(e),
            },
        }
    }

    fn py_try_from(v: &ForeignValue) -> (r: Result<Option<T>, ConversionError>) {
        match v {
            ForeignValue::Null => Ok(None),
            _ => match T::py_try_from(v) {
                Ok(y) => Ok(Some(y)),
                Err(e) => Err(e),
            },
        }
    }
}

impl<T: RoundTrip + NonNull> RoundTrip for Option<T> {
    proof fn lemma_round_trip(x: Option<<T as DeepView>::V>) {
        if let Some(y) = x {
            T::lemma_round_trip(y);
            T::lemma_not_null(y);
        }
    }
}


impl<T: ToPython> ToPython for Box<T> {
    open spec fn encode(x: <T as DeepView>::V) -> Result<Foreign, ConversionError> {
        T::encode(x)
    }

    fn to_python(&self) -> (r: Result<ForeignValue, ConversionError>) {
        (**self).to_python()
    }
}

impl<T: PyTryFrom> PyTryFrom for Box<T> {
    open spec fn decode(v: Foreign) -> Result<<T as DeepView>::V, ConversionError> {
        T::decode(v)
    }

    fn py_try_from(v: &ForeignValue) -> (r: Result<Box<T>, ConversionError>) {
        match T::py_try_from(v) {
            Ok(x) => Ok(Box::new(x)),
            Err(e) => Err(e),
        }
    }
}

impl<T: RoundTrip> RoundTrip for Box<T> {
    proof fn lemma_round_trip(x: <T as DeepView>::V) {
        T::lemma_round_trip(x);
    }
}

impl<T: NonNull> NonNull for Box<T> {
    proof fn lemma_not_null(x: <T as DeepView>::V) {
        T::lemma_not_null(x);
    }
}

/// Element-wise encoding of a native sequence; the first element that
/// fails decides the error.
pub open spec fn encode_seq<T: ToPython>(xs: Seq<<T as DeepView>::V>) -> Result<Seq<Foreign>, ConversionError>
    decreases xs.len(),
{
    if xs.len() == 0 {
        Ok(Seq::empty())
    } else {
        match encode_seq::<T>(xs.drop_last()) {
            Err(e) => Err(e),
            Ok(prefix) => match T::encode(xs.last()) {
                Err(e) => Err(e),
                Ok(f) => Ok(prefix.push(f)),
            },
        }
    }
}

/// Element-wise decoding of a foreign sequence; the first element that
/// fails decides the error.
pub open spec fn decode_seq<T: PyTryFrom>(s: Seq<Foreign>) -> Result<Seq<<T as DeepView>::V>, ConversionError>
    decreases s.len(),
{
    if s.len() == 0 {
        Ok(Seq::empty())
    } else {
        match decode_seq::<T>(s.drop_last()) {
            Err(e) => Err(e),
            Ok(prefix) => match T::decode(s.last()) {
                Err(e) => Err(e),
                Ok(x) => Ok(prefix.push(x)),
            },
        }
    }
}

/// Once a prefix fails to encode, the whole sequence fails the same way.
proof fn lemma_encode_seq_error<T: ToPython>(xs: Seq<<T as DeepView>::V>, i: int)
    requires
        0 <= i <= xs.len(),
        encode_seq::<T>(xs.take(i)) is Err,
    ensures
        encode_seq::<T>(xs) == encode_seq::<T>(xs.take(i)),
    decreases xs.len() - i,
{
    if i < xs.len() {
        assert(xs.take(i + 1).drop_last() =~= xs.take(i));
        lemma_encode_seq_error::<T>(xs, i + 1);
    } else {
        assert(xs.take(i) =~= xs);
    }
}

/// Once a prefix fails to decode, the whole sequence fails the same way.
proof fn lemma_decode_seq_error<T: PyTryFrom>(s: Seq<Foreign>, i: int)
    requires
        0 <= i <= s.len(),
        decode_seq::<T>(s.take(i)) is Err,
    ensures
        decode_seq::<T>(s) == decode_seq::<T>(s.take(i)),
    decreases s.len() - i,
{
    if i < s.len() {
        assert(s.take(i + 1).drop_last() =~= s.take(i));
        lemma_decode_seq_error::<T>(s, i + 1);
    } else {
        assert(s.take(i) =~= s);
    }
}

/// Encoding a sequence keeps its length and order.
proof fn lemma_encode_seq_order<T: ToPython>(xs: Seq<<T as DeepView>::V>)
    ensures
        encode_seq::<T>(xs) matches Ok(fs) ==> fs.len() == xs.len() && forall|i: int|
            0 <= i < xs.len() ==> T::encode(#[trigger] xs[i]) == Ok::<Foreign, ConversionError>(fs[i]),
    decreases xs.len(),
{
    if xs.len() > 0 {
        let init = xs.drop_last();
        lemma_encode_seq_order::<T>(init);
        if let Ok(fs) = encode_seq::<T>(xs) {
            assert forall|i: int| 0 <= i < xs.len() implies T::encode(#[trigger] xs[i]) == Ok::<
                Foreign,
                ConversionError,
            >(fs[i]) by {
                if i < xs.len() - 1 {
                    assert(xs[i] == init[i]);
                }
            }
        }
    }
}

/// Decoding a sequence keeps its length and order.
proof fn lemma_decode_seq_order<T: PyTryFrom>(s: Seq<Foreign>)
    ensures
        decode_seq::<T>(s) matches Ok(ys) ==> ys.len() == s.len() && forall|i: int|
            0 <= i < s.len() ==> T::decode(#[trigger] s[i]) == Ok::<<T as DeepView>::V, ConversionError>(
                ys[i],
            ),
    decreases s.len(),
{
    if s.len() > 0 {
        let init = s.drop_last();
        lemma_decode_seq_order::<T>(init);
        if let Ok(ys) = decode_seq::<T>(s) {
            assert forall|i: int| 0 <= i < s.len() implies T::decode(#[trigger] s[i]) == Ok::<
                <T as DeepView>::V,
                ConversionError,
            >(ys[i]) by {
                if i < s.len() - 1 {
                    assert(s[i] == init[i]);
                }
            }
        }
    }
}

/// Decoding the element-wise encoding of a sequence gives the sequence back.
proof fn lemma_decode_encode_seq<T: RoundTrip>(xs: Seq<<T as DeepView>::V>)
    ensures
        encode_seq::<T>(xs) matches Ok(fs) ==> decode_seq::<T>(fs) == Ok::<
            Seq<<T as DeepView>::V>,
            ConversionError,
        >(xs),
    decreases xs.len(),
{
    if xs.len() > 0 {
        let init = xs.drop_last();
        lemma_decode_encode_seq::<T>(init);
        if let Ok(fs) = encode_seq::<T>(xs) {
            let fs_init = encode_seq::<T>(init)->Ok_0;
            T::lemma_round_trip(xs.last());
            assert(fs.drop_last() =~= fs_init);
            assert(init.push(xs.last()) =~= xs);
        }
    } else {
        assert(xs =~= Seq::<<T as DeepView>::V>::empty());
    }
}

impl<T: ToPython> ToPython for Vec<T> {
    open spec fn encode(x: Seq<<T as DeepView>::V>) -> Result<Foreign, ConversionError> {
        match encode_seq::<T>(x) {
            Ok(fs) => Ok(Foreign::List(fs)),
            Err(e) => Err(e),
        }
    }

    fn to_python(&self) -> (r: Result<ForeignValue, ConversionError>) {
        let ghost xs = self.deep_view();
        let mut out: Vec<ForeignValue> = Vec::new();
        let mut i: usize = 0;
        assert(xs.take(0) =~= Seq::<<T as DeepView>::V>::empty());
        assert(models(out@) =~= Seq::<Foreign>::empty());
        while i < self.len()
            invariant
                i <= self@.len(),
                xs == self.deep_view(),
                encode_seq::<T>(xs.take(i as int)) == Ok::<Seq<Foreign>, ConversionError>(models(out@)),
            decreases self@.len() - i,
        {
            assert(xs.take(i + 1).drop_last() =~= xs.take(i as int));
            assert(xs.take(i + 1).last() == self@[i as int].deep_view());
            match self[i].to_python() {
                Ok(v) => {
                    let ghost before = models(out@);
                    out.push(v);
                    assert(models(out@) =~= before.push(v@));
                },
                Err(e) => {
                    proof {
                        lemma_encode_seq_error::<T>(xs, i + 1);
                    }
                    return Err(e);
                },
            }
            i = i + 1;
        }
        assert(xs.take(i as int) =~= xs);
        Ok(make_list(out))
    }
}

impl<T: PyTryFrom> PyTryFrom for Vec<T> {
    open spec fn decode(v: Foreign) -> Result<Seq<<T as DeepView>::V>, ConversionError> {
        match v {
            Foreign::List(s) => decode_seq::<T>(s),
            _ => Err(ConversionError::WrongShape),
        }
    }

    fn py_try_from(v: &ForeignValue) -> (r: Result<Vec<T>, ConversionError>) {
        match v {
            ForeignValue::List(items) => {
                let ghost s = v@->List_0;
                assert(s =~= models(items@));
                let mut out: Vec<T> = Vec::new();
                let mut i: usize = 0;
                assert(s.take(0) =~= Seq::<Foreign>::empty());
                assert(out.deep_view() =~= Seq::<<T as DeepView>::V>::empty());
                while i < items.len()
                    invariant
                        i <= items@.len(),
                        s == models(items@),
                        v@ == Foreign::List(s),
                        decode_seq::<T>(s.take(i as int)) == Ok::<Seq<<T as DeepView>::V>, ConversionError>(
                            out.deep_view(),
                        ),
                    decreases items@.len() - i,
                {
                    assert(s.take(i + 1).drop_last() =~= s.take(i as int));
                    assert(s.take(i + 1).last() == model(items@[i as int]));
                    match T::py_try_from(&items[i]) {
                        Ok(x) => {
                            let ghost before = out.deep_view();
                            out.push(x);
                            assert(out.deep_view() =~= before.push(x.deep_view()));
                        },
                        Err(e) => {
                            proof {
                                lemma_decode_seq_error::<T>(s, i + 1);
                            }
                            return Err(e);
                        },
                    }
                    i = i + 1;
                }
                assert(s.take(i as int) =~= s);
                Ok(out)
            },
            _ => Err(ConversionError::WrongShape),
        }
    }
}

impl<T: RoundTrip> RoundTrip for Vec<T> {
    proof fn lemma_round_trip(x: Seq<<T as DeepView>::V>) {
        lemma_decode_encode_seq::<T>(x);
    }
}

impl<T: ToPython> NonNull for Vec<T> {
    proof fn lemma_not_null(x: Seq<<T as DeepView>::V>) {
    }
}

/// Converting a native value to a foreign value and back gives the native
/// value again, for every type with both conversions and every value that
/// converts.
pub proof fn lemma_round_trip_law<T: RoundTrip>(x: <T as DeepView>::V)
    ensures
        T::encode(x) matches Ok(f) ==> T::decode(f) == Ok::<<T as DeepView>::V, ConversionError>(x),
{
    T::lemma_round_trip(x);
}

/// A sequence converts element by element, in order, in both directions:
/// the `i`-th foreign element is the conversion of the `i`-th native one,
/// and the `i`-th native element read back is the reading of the `i`-th
/// foreign one.
pub proof fn lemma_order_preserved<T: ToPython + PyTryFrom>(xs: Seq<<T as DeepView>::V>, s: Seq<Foreign>)
    ensures
        <Vec<T> as ToPython>::encode(xs) matches Ok(f) ==> f matches Foreign::List(fs) && fs.len()
            == xs.len() && forall|i: int|
            0 <= i < xs.len() ==> T::encode(#[trigger] xs[i]) == Ok::<Foreign, ConversionError>(fs[i]),
        <Vec<T> as PyTryFrom>::decode(Foreign::List(s)) matches Ok(ys) ==> ys.len() == s.len()
            && forall|i: int|
            0 <= i < s.len() ==> T::decode(#[trigger] s[i]) == Ok::<<T as DeepView>::V, ConversionError>(
                ys[i],
            ),
{
    lemma_encode_seq_order::<T>(xs);
    lemma_decode_seq_order::<T>(s);
}

/// Reading a foreign integer into a fixed-width type succeeds exactly at the
/// type's bounds and fails with a narrowing error one past either bound.
pub proof fn lemma_narrowing_boundary()
    ensures
        <i8 as PyTryFrom>::decode(Foreign::Int(i8::MIN as int)) == Ok::<i8, ConversionError>(i8::MIN),
        <i8 as PyTryFrom>::decode(Foreign::Int(i8::MAX as int)) == Ok::<i8, ConversionError>(i8::MAX),
        <i8 as PyTryFrom>::decode(Foreign::Int(i8::MIN - 1)) == Err::<i8, ConversionError>(ConversionError::Narrowing),
        <i8 as PyTryFrom>::decode(Foreign::Int(i8::MAX + 1)) == Err::<i8, ConversionError>(ConversionError::Narrowing),
        <i16 as PyTryFrom>::decode(Foreign::Int(i16::MIN as int)) == Ok::<i16, ConversionError>(i16::MIN),
        <i16 as PyTryFrom>::decode(Foreign::Int(i16::MAX as int)) == Ok::<i16, ConversionError>(i16::MAX),
        <i16 as PyTryFrom>::decode(Foreign::Int(i16::MIN - 1)) == Err::<i16, ConversionError>(ConversionError::Narrowing),
        <i16 as PyTryFrom>::decode(Foreign::Int(i16::MAX + 1)) == Err::<i16, ConversionError>(ConversionError::Narrowing),
        <i32 as PyTryFrom>::decode(Foreign::Int(i32::MIN as int)) == Ok::<i32, ConversionError>(i32::MIN),
        <i32 as PyTryFrom>::decode(Foreign::Int(i32::MAX as int)) == Ok::<i32, ConversionError>(i32::MAX),
        <i32 as PyTryFrom>::decode(Foreign::Int(i32::MIN - 1)) == Err::<i32, ConversionError>(ConversionError::Narrowing),
        <i32 as PyTryFrom>::decode(Foreign::Int(i32::MAX + 1)) == Err::<i32, ConversionError>(ConversionError::Narrowing),
        <i64 as PyTryFrom>::decode(Foreign::Int(i64::MIN as int)) == Ok::<i64, ConversionError>(i64::MIN),
        <i64 as PyTryFrom>::decode(Foreign::Int(i64::MAX as int)) == Ok::<i64, ConversionError>(i64::MAX),
        <i64 as PyTryFrom>::decode(Foreign::Int(i64::MIN - 1)) == Err::<i64, ConversionError>(ConversionError::Narrowing),
        <i64 as PyTryFrom>::decode(Foreign::Int(i64::MAX + 1)) == Err::<i64, ConversionError>(ConversionError::Narrowing),
        <u8 as PyTryFrom>::decode(Foreign::Int(0)) == Ok::<u8, ConversionError>(0),
        <u8 as PyTryFrom>::decode(Foreign::Int(u8::MAX as int)) == Ok::<u8, ConversionError>(u8::MAX),
        <u8 as PyTryFrom>::decode(Foreign::Int(-1)) == Err::<u8, ConversionError>(ConversionError::Narrowing),
        <u8 as PyTryFrom>::decode(Foreign::Int(u8::MAX + 1)) == Err::<u8, ConversionError>(ConversionError::Narrowing),
        <u16 as PyTryFrom>::decode(Foreign::Int(0)) == Ok::<u16, ConversionError>(0),
        <u16 as PyTryFrom>::decode(Foreign::Int(u16::MAX as int)) == Ok::<u16, ConversionError>(u16::MAX),
        <u16 as PyTryFrom>::decode(Foreign::Int(-1)) == Err::<u16, ConversionError>(ConversionError::Narrowing),
        <u16 as PyTryFrom>::decode(Foreign::Int(u16::MAX + 1)) == Err::<u16, ConversionError>(ConversionError::Narrowing),
        <u32 as PyTryFrom>::decode(Foreign::Int(0)) == Ok::<u32, ConversionError>(0),
        <u32 as PyTryFrom>::decode(Foreign::Int(u32::MAX as int)) == Ok::<u32, ConversionError>(u32::MAX),
        <u32 as PyTryFrom>::decode(Foreign::Int(-1)) == Err::<u32, ConversionError>(ConversionError::Narrowing),
        <u32 as PyTryFrom>::decode(Foreign::Int(u32::MAX + 1)) == Err::<u32, ConversionError>(ConversionError::Narrowing),
        <u64 as PyTryFrom>::decode(Foreign::Int(0)) == Ok::<u64, ConversionError>(0),
        <u64 as PyTryFrom>::decode(Foreign::Int(u64::MAX as int)) == Ok::<u64, ConversionError>(u64::MAX),
        <u64 as PyTryFrom>::decode(Foreign::Int(-1)) == Err::<u64, ConversionError>(ConversionError::Narrowing),
        <u64 as PyTryFrom>::decode(Foreign::Int(u64::MAX + 1)) == Err::<u64, ConversionError>(ConversionError::Narrowing),
        <i128 as PyTryFrom>::decode(Foreign::Int(i128::MIN as int)) == Ok::<i128, ConversionError>(i128::MIN),
        <i128 as PyTryFrom>::decode(Foreign::Int(i128::MIN - 1)) == Err::<i128, ConversionError>(ConversionError::Narrowing),
        <i128 as PyTryFrom>::decode(Foreign::Int(i128::MAX as int)) == Ok::<i128, ConversionError>(i128::MAX),
        <i128 as PyTryFrom>::decode(Foreign::Int(i128::MAX + 1)) == Err::<i128, ConversionError>(ConversionError::Narrowing),
        <isize as PyTryFrom>::decode(Foreign::Int(isize::MIN as int)) == Ok::<isize, ConversionError>(isize::MIN),
        <isize as PyTryFrom>::decode(Foreign::Int(isize::MIN - 1)) == Err::<isize, ConversionError>(ConversionError::Narrowing),
        <isize as PyTryFrom>::decode(Foreign::Int(isize::MAX as int)) == Ok::<isize, ConversionError>(isize::MAX),
        <isize as PyTryFrom>::decode(Foreign::Int(isize::MAX + 1)) == Err::<isize, ConversionError>(ConversionError::Narrowing),
        <u128 as PyTryFrom>::decode(Foreign::Int(0)) == Ok::<u128, ConversionError>(0),
        <u128 as PyTryFrom>::decode(Foreign::Int(-1)) == Err::<u128, ConversionError>(ConversionError::Narrowing),
        <u128 as PyTryFrom>::decode(Foreign::Int(u128::MAX as int)) == Ok::<u128, ConversionError>(u128::MAX),
        <u128 as PyTryFrom>::decode(Foreign::Int(u128::MAX + 1)) == Err::<u128, ConversionError>(ConversionError::Narrowing),
        <usize as PyTryFrom>::decode(Foreign::Int(0)) == Ok::<usize, ConversionError>(0),
        <usize as PyTryFrom>::decode(Foreign::Int(-1)) == Err::<usize, ConversionError>(ConversionError::Narrowing),
        <usize as PyTryFrom>::decode(Foreign::Int(usize::MAX as int)) == Ok::<usize, ConversionError>(usize::MAX),
        <usize as PyTryFrom>::decode(Foreign::Int(usize::MAX + 1)) == Err::<usize, ConversionError>(ConversionError::Narrowing),
{
}


} // verus!
