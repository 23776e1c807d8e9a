//! Tuples of one to twelve items, converted item by item to foreign tuples.
use vstd::prelude::*;

use crate::convert::{NonNull, PyTryFrom, RoundTrip, ToPython};
use crate::value::{make_tuple, models, ConversionError, Foreign, ForeignValue};

verus! {

impl<T0: ToPython> ToPython for (T0,) {
    open spec fn encode(x: (<T0 as DeepView>::V,)) -> Result<Foreign, ConversionError> {
        match T0::encode(x.0) {
            Err(e) => Err(e),
            Ok(f0) => Ok(Foreign::Tuple(seq![f0])),
        }
    }

    fn to_python(&self) -> (r: Result<ForeignValue, ConversionError>) {
        let f0 = match self.0.to_python() {
            Ok(f) => f,
            Err(e) => return Err(e),
        };
        let mut items: Vec<ForeignValue> = Vec::new();
        items.push(f0);
        proof {
            assert(models(items@) =~= seq![f0@]);
        }
        Ok(make_tuple(items))
    }
}

impl<T0: PyTryFrom> PyTryFrom for (T0,) {
    open spec fn decode(v: Foreign) -> Result<(<T0 as DeepView>::V,), ConversionError> {
        match v {
            Foreign::Tuple(s) => if s.len() == 1 {
                match T0::decode(s[0]) {
                    Err(e) => Err(e),
                    Ok(a0) => Ok((a0,)),
                }
            } else {
                Err(ConversionError::WrongShape)
            },
            _ => Err(ConversionError::WrongShape),
        }
    }

    fn py_try_from(v: &ForeignValue) -> (r: Result<(T0,), ConversionError>) {
        match v {
            ForeignValue::Tuple(items) => {
                if items.len() != 1 {
                    return Err(ConversionError::WrongShape);
                }
                let a0 = match T0::py_try_from(&items[0]) {
                    Ok(a) => a,
                    Err(e) => return Err(e),
                };
                Ok((a0,))
            },
            _ => Err(ConversionError::WrongShape),
        }
    }
}

impl<T0: RoundTrip> RoundTrip for (T0,) {
    proof fn lemma_round_trip(x: (<T0 as DeepView>::V,)) {
        T0::lemma_round_trip(x.0);
    }
}

impl<T0: ToPython> NonNull for (T0,) {
    proof fn lemma_not_null(x: (<T0 as DeepView>::V,)) {
    }
}

impl<T0: ToPython, T1: ToPython> ToPython for (T0, T1) {
    open spec fn encode(x: (<T0 as DeepView>::V, <T1 as DeepView>::V)) -> Result<Foreign, ConversionError> {
        match T0::encode(x.0) {
            Err(e) => Err(e),
            Ok(f0) => match T1::encode(x.1) {
                Err(e) => Err(e),
                Ok(f1) => Ok(Foreign::Tuple(seq![f0, f1])),
            },
        }
    }

    fn to_python(&self) -> (r: Result<ForeignValue, ConversionError>) {
        let f0 = match self.0.to_python() {
            Ok(f) => f,
            Err(e) => return Err(e),
        };
        let f1 = match self.1.to_python() {
            Ok(f) => f,
            Err(e) => return Err(e),
        };
        let mut items: Vec<ForeignValue> = Vec::new();
        items.push(f0);
        items.push(f1);
        proof {
            assert(models(items@) =~= seq![f0@, f1@]);
        }
        Ok(make_tuple(items))
    }
}

impl<T0: PyTryFrom, T1: PyTryFrom> PyTryFrom for (T0, T1) {
    open spec fn decode(v: Foreign) -> Result<(<T0 as DeepView>::V, <T1 as DeepView>::V), ConversionError> {
        match v {
            Foreign::Tuple(s) => if s.len() == 2 {
                match T0::decode(s[0]) {
                    Err(e) => Err(e),
                    Ok(a0) => match T1::decode(s[1]) {
                        Err(e) => Err(e),
                        Ok(a1) => Ok((a0, a1)),
                    },
                }
            } else {
                Err(ConversionError::WrongShape)
            },
            _ => Err(ConversionError::WrongShape),
        }
    }

    fn py_try_from(v: &ForeignValue) -> (r: Result<(T0, T1), ConversionError>) {
        match v {
            ForeignValue::Tuple(items) => {
                if items.len() != 2 {
                    return Err(ConversionError::WrongShape);
                }
                let a0 = match T0::py_try_from(&items[0]) {
                    Ok(a) => a,
                    Err(e) => return Err(e),
                };
                let a1 = match T1::py_try_from(&items[1]) {
                    Ok(a) => a,
                    Err(e) => return Err(e),
                };
                Ok((a0, a1))
            },
            _ => Err(ConversionError::WrongShape),
        }
    }
}

impl<T0: RoundTrip, T1: RoundTrip> RoundTrip for (T0, T1) {
    proof fn lemma_round_trip(x: (<T0 as DeepView>::V, <T1 as DeepView>::V)) {
        T0::lemma_round_trip(x.0);
        T1::lemma_round_trip(x.1);
    }
}

impl<T0: ToPython, T1: ToPython> NonNull for (T0, T1) {
    proof fn lemma_not_null(x: (<T0 as DeepView>::V, <T1 as DeepView>::V)) {
    }
}

impl<T0: ToPython, T1: ToPython, T2: ToPython> ToPython for (T0, T1, T2) {
    open spec fn encode(x: (<T0 as DeepView>::V, <T1 as DeepView>::V, <T2 as DeepView>::V)) -> Result<Foreign, ConversionError> {
        match T0::encode(x.0) {
            Err(e) => Err(e),
            Ok(f0) => match T1::encode(x.1) {
                Err(e) => Err(e),
                Ok(f1) => match T2::encode(x.2) {
                    Err(e) => Err(e),
                    Ok(f2) => Ok(Foreign::Tuple(seq![f0, f1, f2])),
                },
            },
        }
    }

    fn to_python(&self) -> (r: Result<ForeignValue, ConversionError>) {
        let f0 = match self.0.to_python() {
            Ok(f) => f,
            Err(e) => return Err(e),
        };
        let f1 = match self.1.to_python() {
            Ok(f) => f,
            Err(e) => return Err(e),
        };
        let f2 = match self.2.to_python() {
            Ok(f) => f,
            Err(e) => return Err(e),
        };
        let mut items: Vec<ForeignValue> = Vec::new();
        items.push(f0);
        items.push(f1);
        items.push(f2);
        proof {
            assert(models(items@) =~= seq![f0@, f1@, f2@]);
        }
        Ok(make_tuple(items))
    }
}

impl<T0: PyTryFrom, T1: PyTryFrom, T2: PyTryFrom> PyTryFrom for (T0, T1, T2) {
    open spec fn decode(v: Foreign) -> Result<(<T0 as DeepView>::V, <T1 as DeepView>::V, <T2 as DeepView>::V), ConversionError> {
        match v {
            Foreign::Tuple(s) => if s.len() == 3 {
                match T0::decode(s[0]) {
                    Err(e) => Err(e),
                    Ok(a0) => match T1::decode(s[1]) {
                        Err(e) => Err(e),
                        Ok(a1) => match T2::decode(s[2]) {
                            Err(e) => Err(e),
                            Ok(a2) => Ok((a0, a1, a2)),
                        },
                    },
                }
            } else {
                Err(ConversionError::WrongShape)
            },
            _ => Err(ConversionError::WrongShape),
        }
    }

    fn py_try_from(v: &ForeignValue) -> (r: Result<(T0, T1, T2), ConversionError>) {
        match v {
            ForeignValue::Tuple(items) => {
                if items.len() != 3 {
                    return Err(ConversionError::WrongShape);
                }
                let a0 = match T0::py_try_from(&items[0]) {
                    Ok(a) => a,
                    Err(e) => return Err(e),
                };
                let a1 = match T1::py_try_from(&items[1]) {
                    Ok(a) => a,
                    Err(e) => return Err(e),
                };
                let a2 = match T2::py_try_from(&items[2]) {
                    Ok(a) => a,
                    Err(e) => return Err(e),
                };
                Ok((a0, a1, a2))
            },
            _ => Err(ConversionError::WrongShape),
        }
    }
}

impl<T0: RoundTrip, T1: RoundTrip, T2: RoundTrip> RoundTrip for (T0, T1, T2) {
    proof fn lemma_round_trip(x: (<T0 as DeepView>::V, <T1 as DeepView>::V, <T2 as DeepView>::V)) {
        T0::lemma_round_trip(x.0);
        T1::lemma_round_trip(x.1);
        T2::lemma_round_trip(x.2);
    }
}

impl<T0: ToPython, T1: ToPython, T2: ToPython> NonNull for (T0, T1, T2) {
    proof fn lemma_not_null(x: (<T0 as DeepView>::V, <T1 as DeepView>::V, <T2 as DeepView>::V)) {
    }
}

impl<T0: ToPython, T1: ToPython, T2: ToPython, T3: ToPython> ToPython for (T0, T1, T2, T3) {
    open spec fn encode(x: (<T0 as DeepView>::V, <T1 as DeepView>::V, <T2 as DeepView>::V, <T3 as DeepView>::V)) -> Result<Foreign, ConversionError> {
        match T0::encode(x.0) {
            Err(e) => Err(e),
            Ok(f0) => match T1::encode(x.1) {
                Err(e) => Err(e),
                Ok(f1) => match T2::encode(x.2) {
                    Err(e) => Err(e),
                    Ok(f2) => match T3::encode(x.3) {
                        Err(e) => Err(e),
                        Ok(f3) => Ok(Foreign::Tuple(seq![f0, f1, f2, f3])),
                    },
                },
            },
        }
    }

    fn to_python(&self) -> (r: Result<ForeignValue, ConversionError>) {
        let f0 = match self.0.to_python() {
            Ok(f) => f,
            Err(e) => return Err(e),
        };
        let f1 = match self.1.to_python() {
            Ok(f) => f,
            Err(e) => return Err(e),
        };
        let f2 = match self.2.to_python() {
            Ok(f) => f,
            Err(e) => return Err(e),
        };
        let f3 = match self.3.to_python() {
            Ok(f) => f,
            Err(e) => return Err(e),
        };
        let mut items: Vec<ForeignValue> = Vec::new();
        items.push(f0);
        items.push(f1);
        items.push(f2);
        items.push(f3);
        proof {
            assert(models(items@) =~= seq![f0@, f1@, f2@, f3@]);
        }
        Ok(make_tuple(items))
    }
}

impl<T0: PyTryFrom, T1: PyTryFrom, T2: PyTryFrom, T3: PyTryFrom> PyTryFrom for (T0, T1, T2, T3) {
    open spec fn decode(v: Foreign) -> Result<(<T0 as DeepView>::V, <T1 as DeepView>::V, <T2 as DeepView>::V, <T3 as DeepView>::V), ConversionError> {
        match v {
            Foreign::Tuple(s) => if s.len() == 4 {
                match T0::decode(s[0]) {
                    Err(e) => Err(e),
                    Ok(a0) => match T1::decode(s[1]) {
                        Err(e) => Err(e),
                        Ok(a1) => match T2::decode(s[2]) {
                            Err(e) => Err(e),
                            Ok(a2) => match T3::decode(s[3]) {
                                Err(e) => Err(e),
                                Ok(a3) => Ok((a0, a1, a2, a3)),
                            },
                        },
                    },
                }
            } else {
                Err(ConversionError::WrongShape)
            },
            _ => Err(ConversionError::WrongShape),
        }
    }

    fn py_try_from(v: &ForeignValue) -> (r: Result<(T0, T1, T2, T3), ConversionError>) {
        match v {
            ForeignValue::Tuple(items) => {
                if items.len() != 4 {
                    return Err(ConversionError::WrongShape);
                }
                let a0 = match T0::py_try_from(&items[0]) {
                    Ok(a) => a,
                    Err(e) => return Err(e),
                };
                let a1 = match T1::py_try_from(&items[1]) {
                    Ok(a) => a,
                    Err(e) => return Err(e),
                };
                let a2 = match T2::py_try_from(&items[2]) {
                    Ok(a) => a,
                    Err(e) => return Err(e),
                };
                let a3 = match T3::py_try_from(&items[3]) {
                    Ok(a) => a,
                    Err(e) => return Err(e),
                };
                Ok((a0, a1, a2, a3))
            },
            _ => Err(ConversionError::WrongShape),
        }
    }
}

impl<T0: RoundTrip, T1: RoundTrip, T2: RoundTrip, T3: RoundTrip> RoundTrip for (T0, T1, T2, T3) {
    proof fn lemma_round_trip(x: (<T0 as DeepView>::V, <T1 as DeepView>::V, <T2 as DeepView>::V, <T3 as DeepView>::V)) {
        T0::lemma_round_trip(x.0);
        T1::lemma_round_trip(x.1);
        T2::lemma_round_trip(x.2);
        T3::lemma_round_trip(x.3);
    }
}

impl<T0: ToPython, T1: ToPython, T2: ToPython, T3: ToPython> NonNull for (T0, T1, T2, T3) {
    proof fn lemma_not_null(x: (<T0 as DeepView>::V, <T1 as DeepView>::V, <T2 as DeepView>::V, <T3 as DeepView>::V)) {
    }
}

impl<T0: ToPython, T1: ToPython, T2: ToPython, T3: ToPython, T4: ToPython> ToPython for (T0, T1, T2, T3, T4) {
    open spec fn encode(x: (<T0 as DeepView>::V, <T1 as DeepView>::V, <T2 as DeepView>::V, <T3 as DeepView>::V, <T4 as DeepView>::V)) -> Result<Foreign, ConversionError> {
        match T0::encode(x.0) {
            Err(e) => Err(e),
            Ok(f0) => match T1::encode(x.1) {
                Err(e) => Err(e),
                Ok(f1) => match T2::encode(x.2) {
                    Err(e) => Err(e),
                    Ok(f2) => match T3::encode(x.3) {
                        Err(e) => Err(e),
                        Ok(f3) => match T4::encode(x.4) {
                            Err(e) => Err(e),
                            Ok(f4) => Ok(Foreign::Tuple(seq![f0, f1, f2, f3, f4])),
                        },
                    },
                },
            },
        }
    }

    fn to_python(&self) -> (r: Result<ForeignValue, ConversionError>) {
        let f0 = match self.0.to_python() {
            Ok(f) => f,
            Err(e) => return Err(e),
        };
        let f1 = match self.1.to_python() {
            Ok(f) => f,
            Err(e) => return Err(e),
        };
        let f2 = match self.2.to_python() {
            Ok(f) => f,
            Err(e) => return Err(e),
        };
        let f3 = match self.3.to_python() {
            Ok(f) => f,
            Err(e) => return Err(e),
        };
        let f4 = match self.4.to_python() {
            Ok(f) => f,
            Err(e) => return Err(e),
        };
        let mut items: Vec<ForeignValue> = Vec::new();
        items.push(f0);
        items.push(f1);
        items.push(f2);
        items.push(f3);
        items.push(f4);
        proof {
            assert(models(items@) =~= seq![f0@, f1@, f2@, f3@, f4@]);
        }
        Ok(make_tuple(items))
    }
}

impl<T0: PyTryFrom, T1: PyTryFrom, T2: PyTryFrom, T3: PyTryFrom, T4: PyTryFrom> PyTryFrom for (T0, T1, T2, T3, T4) {
    open spec fn decode(v: Foreign) -> Result<(<T0 as DeepView>::V, <T1 as DeepView>::V, <T2 as DeepView>::V, <T3 as DeepView>::V, <T4 as DeepView>::V), ConversionError> {
        match v {
            Foreign::Tuple(s) => if s.len() == 5 {
                match T0::decode(s[0]) {
                    Err(e) => Err(e),
                    Ok(a0) => match T1::decode(s[1]) {
                        Err(e) => Err(e),
                        Ok(a1) => match T2::decode(s[2]) {
                            Err(e) => Err(e),
                            Ok(a2) => match T3::decode(s[3]) {
                                Err(e) => Err(e),
                                Ok(a3) => match T4::decode(s[4]) {
                                    Err(e) => Err(e),
                                    Ok(a4) => Ok((a0, a1, a2, a3, a4)),
                                },
                            },
                        },
                    },
                }
            } else {
                Err(ConversionError::WrongShape)
            },
            _ => Err(ConversionError::WrongShape),
        }
    }

    fn py_try_from(v: &ForeignValue) -> (r: Result<(T0, T1, T2, T3, T4), ConversionError>) {
        match v {
            ForeignValue::Tuple(items) => {
                if items.len() != 5 {
                    return Err(ConversionError::WrongShape);
                }
                let a0 = match T0::py_try_from(&items[0]) {
                    Ok(a) => a,
                    Err(e) => return Err(e),
                };
                let a1 = match T1::py_try_from(&items[1]) {
                    Ok(a) => a,
                    Err(e) => return Err(e),
                };
                let a2 = match T2::py_try_from(&items[2]) {
                    Ok(a) => a,
                    Err(e) => return Err(e),
                };
                let a3 = match T3::py_try_from(&items[3]) {
                    Ok(a) => a,
                    Err(e) => return Err(e),
                };
                let a4 = match T4::py_try_from(&items[4]) {
                    Ok(a) => a,
                    Err(e) => return Err(e),
                };
                Ok((a0, a1, a2, a3, a4))
            },
            _ => Err(ConversionError::WrongShape),
        }
    }
}

impl<T0: RoundTrip, T1: RoundTrip, T2: RoundTrip, T3: RoundTrip, T4: RoundTrip> RoundTrip for (T0, T1, T2, T3, T4) {
    proof fn lemma_round_trip(x: (<T0 as DeepView>::V, <T1 as DeepView>::V, <T2 as DeepView>::V, <T3 as DeepView>::V, <T4 as DeepView>::V)) {
        T0::lemma_round_trip(x.0);
        T1::lemma_round_trip(x.1);
        T2::lemma_round_trip(x.2);
        T3::lemma_round_trip(x.3);
        T4::lemma_round_trip(x.4);
    }
}

impl<T0: ToPython, T1: ToPython, T2: ToPython, T3: ToPython, T4: ToPython> NonNull for (T0, T1, T2, T3, T4) {
    proof fn lemma_not_null(x: (<T0 as DeepView>::V, <T1 as DeepView>::V, <T2 as DeepView>::V, <T3 as DeepView>::V, <T4 as DeepView>::V)) {
    }
}

impl<T0: ToPython, T1: ToPython, T2: ToPython, T3: ToPython, T4: ToPython, T5: ToPython> ToPython for (T0, T1, T2, T3, T4, T5) {
    open spec fn encode(x: (<T0 as DeepView>::V, <T1 as DeepView>::V, <T2 as DeepView>::V, <T3 as DeepView>::V, <T4 as DeepView>::V, <T5 as DeepView>::V)) -> Result<Foreign, ConversionError> {
        match T0::encode(x.0) {
            Err(e) => Err(e),
            Ok(f0) => match T1::encode(x.1) {
                Err(e) => Err(e),
                Ok(f1) => match T2::encode(x.2) {
                    Err(e) => Err(e),
                    Ok(f2) => match T3::encode(x.3) {
                        Err(e) => Err(e),
                        Ok(f3) => match T4::encode(x.4) {
                            Err(e) => Err(e),
                            Ok(f4) => match T5::encode(x.5) {
                                Err(e) => Err(e),
                                Ok(f5) => Ok(Foreign::Tuple(seq![f0, f1, f2, f3, f4, f5])),
                            },
                        },
                    },
                },
            },
        }
    }

    fn to_python(&self) -> (r: Result<ForeignValue, ConversionError>) {
        let f0 = match self.0.to_python() {
            Ok(f) => f,
            Err(e) => return Err(e),
        };
        let f1 = match self.1.to_python() {
            Ok(f) => f,
            Err(e) => return Err(e),
        };
        let f2 = match self.2.to_python() {
            Ok(f) => f,
            Err(e) => return Err(e),
        };
        let f3 = match self.3.to_python() {
            Ok(f) => f,
            Err(e) => return Err(e),
        };
        let f4 = match self.4.to_python() {
            Ok(f) => f,
            Err(e) => return Err(e),
        };
        let f5 = match self.5.to_python() {
            Ok(f) => f,
            Err(e) => return Err(e),
        };
        let mut items: Vec<ForeignValue> = Vec::new();
        items.push(f0);
        items.push(f1);
        items.push(f2);
        items.push(f3);
        items.push(f4);
        items.push(f5);
        proof {
            assert(models(items@) =~= seq![f0@, f1@, f2@, f3@, f4@, f5@]);
        }
        Ok(make_tuple(items))
    }
}

impl<T0: PyTryFrom, T1: PyTryFrom, T2: PyTryFrom, T3: PyTryFrom, T4: PyTryFrom, T5: PyTryFrom> PyTryFrom for (T0, T1, T2, T3, T4, T5) {
    open spec fn decode(v: Foreign) -> Result<(<T0 as DeepView>::V, <T1 as DeepView>::V, <T2 as DeepView>::V, <T3 as DeepView>::V, <T4 as DeepView>::V, <T5 as DeepView>::V), ConversionError> {
        match v {
            Foreign::Tuple(s) => if s.len() == 6 {
                match T0::decode(s[0]) {
                    Err(e) => Err(e),
                    Ok(a0) => match T1::decode(s[1]) {
                        Err(e) => Err(e),
                        Ok(a1) => match T2::decode(s[2]) {
                            Err(e) => Err(e),
                            Ok(a2) => match T3::decode(s[3]) {
                                Err(e) => Err(e),
                                Ok(a3) => match T4::decode(s[4]) {
                                    Err(e) => Err(e),
                                    Ok(a4) => match T5::decode(s[5]) {
                                        Err(e) => Err(e),
                                        Ok(a5) => Ok((a0, a1, a2, a3, a4, a5)),
                                    },
                                },
                            },
                        },
                    },
                }
            } else {
                Err(ConversionError::WrongShape)
            },
            _ => Err(ConversionError::WrongShape),
        }
    }

    fn py_try_from(v: &ForeignValue) -> (r: Result<(T0, T1, T2, T3, T4, T5), ConversionError>) {
        match v {
            ForeignValue::Tuple(items) => {
                if items.len() != 6 {
                    return Err(ConversionError::WrongShape);
                }
                let a0 = match T0::py_try_from(&items[0]) {
                    Ok(a) => a,
                    Err(e) => return Err(e),
                };
                let a1 = match T1::py_try_from(&items[1]) {
                    Ok(a) => a,
                    Err(e) => return Err(e),
                };
                let a2 = match T2::py_try_from(&items[2]) {
                    Ok(a) => a,
                    Err(e) => return Err(e),
                };
                let a3 = match T3::py_try_from(&items[3]) {
                    Ok(a) => a,
                    Err(e) => return Err(e),
                };
                let a4 = match T4::py_try_from(&items[4]) {
                    Ok(a) => a,
                    Err(e) => return Err(e),
                };
                let a5 = match T5::py_try_from(&items[5]) {
                    Ok(a) => a,
                    Err(e) => return Err(e),
                };
                Ok((a0, a1, a2, a3, a4, a5))
            },
            _ => Err(ConversionError::WrongShape),
        }
    }
}

impl<T0: RoundTrip, T1: RoundTrip, T2: RoundTrip, T3: RoundTrip, T4: RoundTrip, T5: RoundTrip> RoundTrip for (T0, T1, T2, T3, T4, T5) {
    proof fn lemma_round_trip(x: (<T0 as DeepView>::V, <T1 as DeepView>::V, <T2 as DeepView>::V, <T3 as DeepView>::V, <T4 as DeepView>::V, <T5 as DeepView>::V)) {
        T0::lemma_round_trip(x.0);
        T1::lemma_round_trip(x.1);
        T2::lemma_round_trip(x.2);
        T3::lemma_round_trip(x.3);
        T4::lemma_round_trip(x.4);
        T5::lemma_round_trip(x.5);
    }
}

impl<T0: ToPython, T1: ToPython, T2: ToPython, T3: ToPython, T4: ToPython, T5: ToPython> NonNull for (T0, T1, T2, T3, T4, T5) {
    proof fn lemma_not_null(x: (<T0 as DeepView>::V, <T1 as DeepView>::V, <T2 as DeepView>::V, <T3 as DeepView>::V, <T4 as DeepView>::V, <T5 as DeepView>::V)) {
    }
}

impl<T0: ToPython, T1: ToPython, T2: ToPython, T3: ToPython, T4: ToPython, T5: ToPython, T6: ToPython> ToPython for (T0, T1, T2, T3, T4, T5, T6) {
    open spec fn encode(x: (<T0 as DeepView>::V, <T1 as DeepView>::V, <T2 as DeepView>::V, <T3 as DeepView>::V, <T4 as DeepView>::V, <T5 as DeepView>::V, <T6 as DeepView>::V)) -> Result<Foreign, ConversionError> {
        match T0::encode(x.0) {
            Err(e) => Err(e),
            Ok(f0) => match T1::encode(x.1) {
                Err(e) => Err(e),
                Ok(f1) => match T2::encode(x.2) {
                    Err(e) => Err(e),
                    Ok(f2) => match T3::encode(x.3) {
                        Err(e) => Err(e),
                        Ok(f3) => match T4::encode(x.4) {
                            Err(e) => Err(e),
                            Ok(f4) => match T5::encode(x.5) {
                                Err(e) => Err(e),
                                Ok(f5) => match T6::encode(x.6) {
                                    Err(e) => Err(e),
                                    Ok(f6) => Ok(Foreign::Tuple(seq![f0, f1, f2, f3, f4, f5, f6])),
                                },
                            },
                        },
                    },
                },
            },
        }
    }

    fn to_python(&self) -> (r: Result<ForeignValue, ConversionError>) {
        let f0 = match self.0.to_python() {
            Ok(f) => f,
            Err(e) => return Err(e),
        };
        let f1 = match self.1.to_python() {
            Ok(f) => f,
            Err(e) => return Err(e),
        };
        let f2 = match self.2.to_python() {
            Ok(f) => f,
            Err(e) => return Err(e),
        };
        let f3 = match self.3.to_python() {
            Ok(f) => f,
            Err(e) => return Err(e),
        };
        let f4 = match self.4.to_python() {
            Ok(f) => f,
            Err(e) => return Err(e),
        };
        let f5 = match self.5.to_python() {
            Ok(f) => f,
            Err(e) => return Err(e),
        };
        let f6 = match self.6.to_python() {
            Ok(f) => f,
            Err(e) => return Err(e),
        };
        let mut items: Vec<ForeignValue> = Vec::new();
        items.push(f0);
        items.push(f1);
        items.push(f2);
        items.push(f3);
        items.push(f4);
        items.push(f5);
        items.push(f6);
        proof {
            assert(models(items@) =~= seq![f0@, f1@, f2@, f3@, f4@, f5@, f6@]);
        }
        Ok(make_tuple(items))
    }
}

impl<T0: PyTryFrom, T1: PyTryFrom, T2: PyTryFrom, T3: PyTryFrom, T4: PyTryFrom, T5: PyTryFrom, T6: PyTryFrom> PyTryFrom for (T0, T1, T2, T3, T4, T5, T6) {
    open spec fn decode(v: Foreign) -> Result<(<T0 as DeepView>::V, <T1 as DeepView>::V, <T2 as DeepView>::V, <T3 as DeepView>::V, <T4 as DeepView>::V, <T5 as DeepView>::V, <T6 as DeepView>::V), ConversionError> {
        match v {
            Foreign::Tuple(s) => if s.len() == 7 {
                match T0::decode(s[0]) {
                    Err(e) => Err(e),
                    Ok(a0) => match T1::decode(s[1]) {
                        Err(e) => Err(e),
                        Ok(a1) => match T2::decode(s[2]) {
                            Err(e) => Err(e),
                            Ok(a2) => match T3::decode(s[3]) {
                                Err(e) => Err(e),
                                Ok(a3) => match T4::decode(s[4]) {
                                    Err(e) => Err(e),
                                    Ok(a4) => match T5::decode(s[5]) {
                                        Err(e) => Err(e),
                                        Ok(a5) => match T6::decode(s[6]) {
                                            Err(e) => Err(e),
                                            Ok(a6) => Ok((a0, a1, a2, a3, a4, a5, a6)),
                                        },
                                    },
                                },
                            },
                        },
                    },
                }
            } else {
                Err(ConversionError::WrongShape)
            },
            _ => Err(ConversionError::WrongShape),
        }
    }

    fn py_try_from(v: &ForeignValue) -> (r: Result<(T0, T1, T2, T3, T4, T5, T6), ConversionError>) {
        match v {
            ForeignValue::Tuple(items) => {
                if items.len() != 7 {
                    return Err(ConversionError::WrongShape);
                }
                let a0 = match T0::py_try_from(&items[0]) {
                    Ok(a) => a,
                    Err(e) => return Err(e),
                };
                let a1 = match T1::py_try_from(&items[1]) {
                    Ok(a) => a,
                    Err(e) => return Err(e),
                };
                let a2 = match T2::py_try_from(&items[2]) {
                    Ok(a) => a,
                    Err(e) => return Err(e),
                };
                let a3 = match T3::py_try_from(&items[3]) {
                    Ok(a) => a,
                    Err(e) => return Err(e),
                };
                let a4 = match T4::py_try_from(&items[4]) {
                    Ok(a) => a,
                    Err(e) => return Err(e),
                };
                let a5 = match T5::py_try_from(&items[5]) {
                    Ok(a) => a,
                    Err(e) => return Err(e),
                };
                let a6 = match T6::py_try_from(&items[6]) {
                    Ok(a) => a,
                    Err(e) => return Err(e),
                };
                Ok((a0, a1, a2, a3, a4, a5, a6))
            },
            _ => Err(ConversionError::WrongShape),
        }
    }
}

impl<T0: RoundTrip, T1: RoundTrip, T2: RoundTrip, T3: RoundTrip, T4: RoundTrip, T5: RoundTrip, T6: RoundTrip> RoundTrip for (T0, T1, T2, T3, T4, T5, T6) {
    proof fn lemma_round_trip(x: (<T0 as DeepView>::V, <T1 as DeepView>::V, <T2 as DeepView>::V, <T3 as DeepView>::V, <T4 as DeepView>::V, <T5 as DeepView>::V, <T6 as DeepView>::V)) {
        T0::lemma_round_trip(x.0);
        T1::lemma_round_trip(x.1);
        T2::lemma_round_trip(x.2);
        T3::lemma_round_trip(x.3);
        T4::lemma_round_trip(x.4);
        T5::lemma_round_trip(x.5);
        T6::lemma_round_trip(x.6);
    }
}

impl<T0: ToPython, T1: ToPython, T2: ToPython, T3: ToPython, T4: ToPython, T5: ToPython, T6: ToPython> NonNull for (T0, T1, T2, T3, T4, T5, T6) {
    proof fn lemma_not_null(x: (<T0 as DeepView>::V, <T1 as DeepView>::V, <T2 as DeepView>::V, <T3 as DeepView>::V, <T4 as DeepView>::V, <T5 as DeepView>::V, <T6 as DeepView>::V)) {
    }
}

impl<T0: ToPython, T1: ToPython, T2: ToPython, T3: ToPython, T4: ToPython, T5: ToPython, T6: ToPython, T7: ToPython> ToPython for (T0, T1, T2, T3, T4, T5, T6, T7) {
    open spec fn encode(x: (<T0 as DeepView>::V, <T1 as DeepView>::V, <T2 as DeepView>::V, <T3 as DeepView>::V, <T4 as DeepView>::V, <T5 as DeepView>::V, <T6 as DeepView>::V, <T7 as DeepView>::V)) -> Result<Foreign, ConversionError> {
        match T0::encode(x.0) {
            Err(e) => Err(e),
            Ok(f0) => match T1::encode(x.1) {
                Err(e) => Err(e),
                Ok(f1) => match T2::encode(x.2) {
                    Err(e) => Err(e),
                    Ok(f2) => match T3::encode(x.3) {
                        Err(e) => Err(e),
                        Ok(f3) => match T4::encode(x.4) {
                            Err(e) => Err(e),
                            Ok(f4) => match T5::encode(x.5) {
                                Err(e) => Err(e),
                                Ok(f5) => match T6::encode(x.6) {
                                    Err(e) => Err(e),
                                    Ok(f6) => match T7::encode(x.7) {
                                        Err(e) => Err(e),
                                        Ok(f7) => Ok(Foreign::Tuple(seq![f0, f1, f2, f3, f4, f5, f6, f7])),
                                    },
                                },
                            },
                        },
                    },
                },
            },
        }
    }

    fn to_python(&self) -> (r: Result<ForeignValue, ConversionError>) {
        let f0 = match self.0.to_python() {
            Ok(f) => f,
            Err(e) => return Err(e),
        };
        let f1 = match self.1.to_python() {
            Ok(f) => f,
            Err(e) => return Err(e),
        };
        let f2 = match self.2.to_python() {
            Ok(f) => f,
            Err(e) => return Err(e),
        };
        let f3 = match self.3.to_python() {
            Ok(f) => f,
            Err(e) => return Err(e),
        };
        let f4 = match self.4.to_python() {
            Ok(f) => f,
            Err(e) => return Err(e),
        };
        let f5 = match self.5.to_python() {
            Ok(f) => f,
            Err(e) => return Err(e),
        };
        let f6 = match self.6.to_python() {
            Ok(f) => f,
            Err(e) => return Err(e),
        };
        let f7 = match self.7.to_python() {
            Ok(f) => f,
            Err(e) => return Err(e),
        };
        let mut items: Vec<ForeignValue> = Vec::new();
        items.push(f0);
        items.push(f1);
        items.push(f2);
        items.push(f3);
        items.push(f4);
        items.push(f5);
        items.push(f6);
        items.push(f7);
        proof {
            assert(models(items@) =~= seq![f0@, f1@, f2@, f3@, f4@, f5@, f6@, f7@]);
        }
        Ok(make_tuple(items))
    }
}

impl<T0: PyTryFrom, T1: PyTryFrom, T2: PyTryFrom, T3: PyTryFrom, T4: PyTryFrom, T5: PyTryFrom, T6: PyTryFrom, T7: PyTryFrom> PyTryFrom for (T0, T1, T2, T3, T4, T5, T6, T7) {
    open spec fn decode(v: Foreign) -> Result<(<T0 as DeepView>::V, <T1 as DeepView>::V, <T2 as DeepView>::V, <T3 as DeepView>::V, <T4 as DeepView>::V, <T5 as DeepView>::V, <T6 as DeepView>::V, <T7 as DeepView>::V), ConversionError> {
        match v {
            Foreign::Tuple(s) => if s.len() == 8 {
                match T0::decode(s[0]) {
                    Err(e) => Err(e),
                    Ok(a0) => match T1::decode(s[1]) {
                        Err(e) => Err(e),
                        Ok(a1) => match T2::decode(s[2]) {
                            Err(e) => Err(e),
                            Ok(a2) => match T3::decode(s[3]) {
                                Err(e) => Err(e),
                                Ok(a3) => match T4::decode(s[4]) {
                                    Err(e) => Err(e),
                                    Ok(a4) => match T5::decode(s[5]) {
                                        Err(e) => Err(e),
                                        Ok(a5) => match T6::decode(s[6]) {
                                            Err(e) => Err(e),
                                            Ok(a6) => match T7::decode(s[7]) {
                                                Err(e) => Err(e),
                                                Ok(a7) => Ok((a0, a1, a2, a3, a4, a5, a6, a7)),
                                            },
                                        },
                                    },
                                },
                            },
                        },
                    },
                }
            } else {
                Err(ConversionError::WrongShape)
            },
            _ => Err(ConversionError::WrongShape),
        }
    }

    fn py_try_from(v: &ForeignValue) -> (r: Result<(T0, T1, T2, T3, T4, T5, T6, T7), ConversionError>) {
        match v {
            ForeignValue::Tuple(items) => {
                if items.len() != 8 {
                    return Err(ConversionError::WrongShape);
                }
                let a0 = match T0::py_try_from(&items[0]) {
                    Ok(a) => a,
                    Err(e) => return Err(e),
                };
                let a1 = match T1::py_try_from(&items[1]) {
                    Ok(a) => a,
                    Err(e) => return Err(e),
                };
                let a2 = match T2::py_try_from(&items[2]) {
                    Ok(a) => a,
                    Err(e) => return Err(e),
                };
                let a3 = match T3::py_try_from(&items[3]) {
                    Ok(a) => a,
                    Err(e) => return Err(e),
                };
                let a4 = match T4::py_try_from(&items[4]) {
                    Ok(a) => a,
                    Err(e) => return Err(e),
                };
                let a5 = match T5::py_try_from(&items[5]) {
                    Ok(a) => a,
                    Err(e) => return Err(e),
                };
                let a6 = match T6::py_try_from(&items[6]) {
                    Ok(a) => a,
                    Err(e) => return Err(e),
                };
                let a7 = match T7::py_try_from(&items[7]) {
                    Ok(a) => a,
                    Err(e) => return Err(e),
                };
                Ok((a0, a1, a2, a3, a4, a5, a6, a7))
            },
            _ => Err(ConversionError::WrongShape),
        }
    }
}

impl<T0: RoundTrip, T1: RoundTrip, T2: RoundTrip, T3: RoundTrip, T4: RoundTrip, T5: RoundTrip, T6: RoundTrip, T7: RoundTrip> RoundTrip for (T0, T1, T2, T3, T4, T5, T6, T7) {
    proof fn lemma_round_trip(x: (<T0 as DeepView>::V, <T1 as DeepView>::V, <T2 as DeepView>::V, <T3 as DeepView>::V, <T4 as DeepView>::V, <T5 as DeepView>::V, <T6 as DeepView>::V, <T7 as DeepView>::V)) {
        T0::lemma_round_trip(x.0);
        T1::lemma_round_trip(x.1);
        T2::lemma_round_trip(x.2);
        T3::lemma_round_trip(x.3);
        T4::lemma_round_trip(x.4);
        T5::lemma_round_trip(x.5);
        T6::lemma_round_trip(x.6);
        T7::lemma_round_trip(x.7);
    }
}

impl<T0: ToPython, T1: ToPython, T2: ToPython, T3: ToPython, T4: ToPython, T5: ToPython, T6: ToPython, T7: ToPython> NonNull for (T0, T1, T2, T3, T4, T5, T6, T7) {
    proof fn lemma_not_null(x: (<T0 as DeepView>::V, <T1 as DeepView>::V, <T2 as DeepView>::V, <T3 as DeepView>::V, <T4 as DeepView>::V, <T5 as DeepView>::V, <T6 as DeepView>::V, <T7 as DeepView>::V)) {
    }
}

impl<T0: ToPython, T1: ToPython, T2: ToPython, T3: ToPython, T4: ToPython, T5: ToPython, T6: ToPython, T7: ToPython, T8: ToPython> ToPython for (T0, T1, T2, T3, T4, T5, T6, T7, T8) {
    open spec fn encode(x: (<T0 as DeepView>::V, <T1 as DeepView>::V, <T2 as DeepView>::V, <T3 as DeepView>::V, <T4 as DeepView>::V, <T5 as DeepView>::V, <T6 as DeepView>::V, <T7 as DeepView>::V, <T8 as DeepView>::V)) -> Result<Foreign, ConversionError> {
        match T0::encode(x.0) {
            Err(e) => Err(e),
            Ok(f0) => match T1::encode(x.1) {
                Err(e) => Err(e),
                Ok(f1) => match T2::encode(x.2) {
                    Err(e) => Err(e),
                    Ok(f2) => match T3::encode(x.3) {
                        Err(e) => Err(e),
                        Ok(f3) => match T4::encode(x.4) {
                            Err(e) => Err(e),
                            Ok(f4) => match T5::encode(x.5) {
                                Err(e) => Err(e),
                                Ok(f5) => match T6::encode(x.6) {
                                    Err(e) => Err(e),
                                    Ok(f6) => match T7::encode(x.7) {
                                        Err(e) => Err(e),
                                        Ok(f7) => match T8::encode(x.8) {
                                            Err(e) => Err(e),
                                            Ok(f8) => Ok(Foreign::Tuple(seq![f0, f1, f2, f3, f4, f5, f6, f7, f8])),
                                        },
                                    },
                                },
                            },
                        },
                    },
                },
            },
        }
    }

    fn to_python(&self) -> (r: Result<ForeignValue, ConversionError>) {
        let f0 = match self.0.to_python() {
            Ok(f) => f,
            Err(e) => return Err(e),
        };
        let f1 = match self.1.to_python() {
            Ok(f) => f,
            Err(e) => return Err(e),
        };
        let f2 = match self.2.to_python() {
            Ok(f) => f,
            Err(e) => return Err(e),
        };
        let f3 = match self.3.to_python() {
            Ok(f) => f,
            Err(e) => return Err(e),
        };
        let f4 = match self.4.to_python() {
            Ok(f) => f,
            Err(e) => return Err(e),
        };
        let f5 = match self.5.to_python() {
            Ok(f) => f,
            Err(e) => return Err(e),
        };
        let f6 = match self.6.to_python() {
            Ok(f) => f,
            Err(e) => return Err(e),
        };
        let f7 = match self.7.to_python() {
            Ok(f) => f,
            Err(e) => return Err(e),
        };
        let f8 = match self.8.to_python() {
            Ok(f) => f,
            Err(e) => return Err(e),
        };
        let mut items: Vec<ForeignValue> = Vec::new();
        items.push(f0);
        items.push(f1);
        items.push(f2);
        items.push(f3);
        items.push(f4);
        items.push(f5);
        items.push(f6);
        items.push(f7);
        items.push(f8);
        proof {
            assert(models(items@) =~= seq![f0@, f1@, f2@, f3@, f4@, f5@, f6@, f7@, f8@]);
        }
        Ok(make_tuple(items))
    }
}

impl<T0: PyTryFrom, T1: PyTryFrom, T2: PyTryFrom, T3: PyTryFrom, T4: PyTryFrom, T5: PyTryFrom, T6: PyTryFrom, T7: PyTryFrom, T8: PyTryFrom> PyTryFrom for (T0, T1, T2, T3, T4, T5, T6, T7, T8) {
    open spec fn decode(v: Foreign) -> Result<(<T0 as DeepView>::V, <T1 as DeepView>::V, <T2 as DeepView>::V, <T3 as DeepView>::V, <T4 as DeepView>::V, <T5 as DeepView>::V, <T6 as DeepView>::V, <T7 as DeepView>::V, <T8 as DeepView>::V), ConversionError> {
        match v {
            Foreign::Tuple(s) => if s.len() == 9 {
                match T0::decode(s[0]) {
                    Err(e) => Err(e),
                    Ok(a0) => match T1::decode(s[1]) {
                        Err(e) => Err(e),
                        Ok(a1) => match T2::decode(s[2]) {
                            Err(e) => Err(e),
                            Ok(a2) => match T3::decode(s[3]) {
                                Err(e) => Err(e),
                                Ok(a3) => match T4::decode(s[4]) {
                                    Err(e) => Err(e),
                                    Ok(a4) => match T5::decode(s[5]) {
                                        Err(e) => Err(e),
                                        Ok(a5) => match T6::decode(s[6]) {
                                            Err(e) => Err(e),
                                            Ok(a6) => match T7::decode(s[7]) {
                                                Err(e) => Err(e),
                                                Ok(a7) => match T8::decode(s[8]) {
                                                    Err(e) => Err(e),
                                                    Ok(a8) => Ok((a0, a1, a2, a3, a4, a5, a6, a7, a8)),
                                                },
                                            },
                                        },
                                    },
                                },
                            },
                        },
                    },
                }
            } else {
                Err(ConversionError::WrongShape)
            },
            _ => Err(ConversionError::WrongShape),
        }
    }

    fn py_try_from(v: &ForeignValue) -> (r: Result<(T0, T1, T2, T3, T4, T5, T6, T7, T8), ConversionError>) {
        match v {
            ForeignValue::Tuple(items) => {
                if items.len() != 9 {
                    return Err(ConversionError::WrongShape);
                }
                let a0 = match T0::py_try_from(&items[0]) {
                    Ok(a) => a,
                    Err(e) => return Err(e),
                };
                let a1 = match T1::py_try_from(&items[1]) {
                    Ok(a) => a,
                    Err(e) => return Err(e),
                };
                let a2 = match T2::py_try_from(&items[2]) {
                    Ok(a) => a,
                    Err(e) => return Err(e),
                };
                let a3 = match T3::py_try_from(&items[3]) {
                    Ok(a) => a,
                    Err(e) => return Err(e),
                };
                let a4 = match T4::py_try_from(&items[4]) {
                    Ok(a) => a,
                    Err(e) => return Err(e),
                };
                let a5 = match T5::py_try_from(&items[5]) {
                    Ok(a) => a,
                    Err(e) => return Err(e),
                };
                let a6 = match T6::py_try_from(&items[6]) {
                    Ok(a) => a,
                    Err(e) => return Err(e),
                };
                let a7 = match T7::py_try_from(&items[7]) {
                    Ok(a) => a,
                    Err(e) => return Err(e),
                };
                let a8 = match T8::py_try_from(&items[8]) {
                    Ok(a) => a,
                    Err(e) => return Err(e),
                };
                Ok((a0, a1, a2, a3, a4, a5, a6, a7, a8))
            },
            _ => Err(ConversionError::WrongShape),
        }
    }
}

impl<T0: RoundTrip, T1: RoundTrip, T2: RoundTrip, T3: RoundTrip, T4: RoundTrip, T5: RoundTrip, T6: RoundTrip, T7: RoundTrip, T8: RoundTrip> RoundTrip for (T0, T1, T2, T3, T4, T5, T6, T7, T8) {
    proof fn lemma_round_trip(x: (<T0 as DeepView>::V, <T1 as DeepView>::V, <T2 as DeepView>::V, <T3 as DeepView>::V, <T4 as DeepView>::V, <T5 as DeepView>::V, <T6 as DeepView>::V, <T7 as DeepView>::V, <T8 as DeepView>::V)) {
        T0::lemma_round_trip(x.0);
        T1::lemma_round_trip(x.1);
        T2::lemma_round_trip(x.2);
        T3::lemma_round_trip(x.3);
        T4::lemma_round_trip(x.4);
        T5::lemma_round_trip(x.5);
        T6::lemma_round_trip(x.6);
        T7::lemma_round_trip(x.7);
        T8::lemma_round_trip(x.8);
    }
}

impl<T0: ToPython, T1: ToPython, T2: ToPython, T3: ToPython, T4: ToPython, T5: ToPython, T6: ToPython, T7: ToPython, T8: ToPython> NonNull for (T0, T1, T2, T3, T4, T5, T6, T7, T8) {
    proof fn lemma_not_null(x: (<T0 as DeepView>::V, <T1 as DeepView>::V, <T2 as DeepView>::V, <T3 as DeepView>::V, <T4 as DeepView>::V, <T5 as DeepView>::V, <T6 as DeepView>::V, <T7 as DeepView>::V, <T8 as DeepView>::V)) {
    }
}

impl<T0: ToPython, T1: ToPython, T2: ToPython, T3: ToPython, T4: ToPython, T5: ToPython, T6: ToPython, T7: ToPython, T8: ToPython, T9: ToPython> ToPython for (T0, T1, T2, T3, T4, T5, T6, T7, T8, T9) {
    open spec fn encode(x: (<T0 as DeepView>::V, <T1 as DeepView>::V, <T2 as DeepView>::V, <T3 as DeepView>::V, <T4 as DeepView>::V, <T5 as DeepView>::V, <T6 as DeepView>::V, <T7 as DeepView>::V, <T8 as DeepView>::V, <T9 as DeepView>::V)) -> Result<Foreign, ConversionError> {
        match T0::encode(x.0) {
            Err(e) => Err(e),
            Ok(f0) => match T1::encode(x.1) {
                Err(e) => Err(e),
                Ok(f1) => match T2::encode(x.2) {
                    Err(e) => Err(e),
                    Ok(f2) => match T3::encode(x.3) {
                        Err(e) => Err(e),
                        Ok(f3) => match T4::encode(x.4) {
                            Err(e) => Err(e),
                            Ok(f4) => match T5::encode(x.5) {
                                Err(e) => Err(e),
                                Ok(f5) => match T6::encode(x.6) {
                                    Err(e) => Err(e),
                                    Ok(f6) => match T7::encode(x.7) {
                                        Err(e) => Err(e),
                                        Ok(f7) => match T8::encode(x.8) {
                                            Err(e) => Err(e),
                                            Ok(f8) => match T9::encode(x.9) {
                                                Err(e) => Err(e),
                                                Ok(f9) => Ok(Foreign::Tuple(seq![f0, f1, f2, f3, f4, f5, f6, f7, f8, f9])),
                                            },
                                        },
                                    },
                                },
                            },
                        },
                    },
                },
            },
        }
    }

    fn to_python(&self) -> (r: Result<ForeignValue, ConversionError>) {
        let f0 = match self.0.to_python() {
            Ok(f) => f,
            Err(e) => return Err(e),
        };
        let f1 = match self.1.to_python() {
            Ok(f) => f,
            Err(e) => return Err(e),
        };
        let f2 = match self.2.to_python() {
            Ok(f) => f,
            Err(e) => return Err(e),
        };
        let f3 = match self.3.to_python() {
            Ok(f) => f,
            Err(e) => return Err(e),
        };
        let f4 = match self.4.to_python() {
            Ok(f) => f,
            Err(e) => return Err(e),
        };
        let f5 = match self.5.to_python() {
            Ok(f) => f,
            Err(e) => return Err(e),
        };
        let f6 = match self.6.to_python() {
            Ok(f) => f,
            Err(e) => return Err(e),
        };
        let f7 = match self.7.to_python() {
            Ok(f) => f,
            Err(e) => return Err(e),
        };
        let f8 = match self.8.to_python() {
            Ok(f) => f,
            Err(e) => return Err(e),
        };
        let f9 = match self.9.to_python() {
            Ok(f) => f,
            Err(e) => return Err(e),
        };
        let mut items: Vec<ForeignValue> = Vec::new();
        items.push(f0);
        items.push(f1);
        items.push(f2);
        items.push(f3);
        items.push(f4);
        items.push(f5);
        items.push(f6);
        items.push(f7);
        items.push(f8);
        items.push(f9);
        proof {
            assert(models(items@) =~= seq![f0@, f1@, f2@, f3@, f4@, f5@, f6@, f7@, f8@, f9@]);
        }
        Ok(make_tuple(items))
    }
}

impl<T0: PyTryFrom, T1: PyTryFrom, T2: PyTryFrom, T3: PyTryFrom, T4: PyTryFrom, T5: PyTryFrom, T6: PyTryFrom, T7: PyTryFrom, T8: PyTryFrom, T9: PyTryFrom> PyTryFrom for (T0, T1, T2, T3, T4, T5, T6, T7, T8, T9) {
    open spec fn decode(v: Foreign) -> Result<(<T0 as DeepView>::V, <T1 as DeepView>::V, <T2 as DeepView>::V, <T3 as DeepView>::V, <T4 as DeepView>::V, <T5 as DeepView>::V, <T6 as DeepView>::V, <T7 as DeepView>::V, <T8 as DeepView>::V, <T9 as DeepView>::V), ConversionError> {
        match v {
            Foreign::Tuple(s) => if s.len() == 10 {
                match T0::decode(s[0]) {
                    Err(e) => Err(e),
                    Ok(a0) => match T1::decode(s[1]) {
                        Err(e) => Err(e),
                        Ok(a1) => match T2::decode(s[2]) {
                            Err(e) => Err(e),
                            Ok(a2) => match T3::decode(s[3]) {
                                Err(e) => Err(e),
                                Ok(a3) => match T4::decode(s[4]) {
                                    Err(e) => Err(e),
                                    Ok(a4) => match T5::decode(s[5]) {
                                        Err(e) => Err(e),
                                        Ok(a5) => match T6::decode(s[6]) {
                                            Err(e) => Err(e),
                                            Ok(a6) => match T7::decode(s[7]) {
                                                Err(e) => Err(e),
                                                Ok(a7) => match T8::decode(s[8]) {
                                                    Err(e) => Err(e),
                                                    Ok(a8) => match T9::decode(s[9]) {
                                                        Err(e) => Err(e),
                                                        Ok(a9) => Ok((a0, a1, a2, a3, a4, a5, a6, a7, a8, a9)),
                                                    },
                                                },
                                            },
                                        },
                                    },
                                },
                            },
                        },
                    },
                }
            } else {
                Err(ConversionError::WrongShape)
            },
            _ => Err(ConversionError::WrongShape),
        }
    }

    fn py_try_from(v: &ForeignValue) -> (r: Result<(T0, T1, T2, T3, T4, T5, T6, T7, T8, T9), ConversionError>) {
        match v {
            ForeignValue::Tuple(items) => {
                if items.len() != 10 {
                    return Err(ConversionError::WrongShape);
                }
                let a0 = match T0::py_try_from(&items[0]) {
                    Ok(a) => a,
                    Err(e) => return Err(e),
                };
                let a1 = match T1::py_try_from(&items[1]) {
                    Ok(a) => a,
                    Err(e) => return Err(e),
                };
                let a2 = match T2::py_try_from(&items[2]) {
                    Ok(a) => a,
                    Err(e) => return Err(e),
                };
                let a3 = match T3::py_try_from(&items[3]) {
                    Ok(a) => a,
                    Err(e) => return Err(e),
                };
                let a4 = match T4::py_try_from(&items[4]) {
                    Ok(a) => a,
                    Err(e) => return Err(e),
                };
                let a5 = match T5::py_try_from(&items[5]) {
                    Ok(a) => a,
                    Err(e) => return Err(e),
                };
                let a6 = match T6::py_try_from(&items[6]) {
                    Ok(a) => a,
                    Err(e) => return Err(e),
                };
                let a7 = match T7::py_try_from(&items[7]) {
                    Ok(a) => a,
                    Err(e) => return Err(e),
                };
                let a8 = match T8::py_try_from(&items[8]) {
                    Ok(a) => a,
                    Err(e) => return Err(e),
                };
                let a9 = match T9::py_try_from(&items[9]) {
                    Ok(a) => a,
                    Err(e) => return Err(e),
                };
                Ok((a0, a1, a2, a3, a4, a5, a6, a7, a8, a9))
            },
            _ => Err(ConversionError::WrongShape),
        }
    }
}

impl<T0: RoundTrip, T1: RoundTrip, T2: RoundTrip, T3: RoundTrip, T4: RoundTrip, T5: RoundTrip, T6: RoundTrip, T7: RoundTrip, T8: RoundTrip, T9: RoundTrip> RoundTrip for (T0, T1, T2, T3, T4, T5, T6, T7, T8, T9) {
    proof fn lemma_round_trip(x: (<T0 as DeepView>::V, <T1 as DeepView>::V, <T2 as DeepView>::V, <T3 as DeepView>::V, <T4 as DeepView>::V, <T5 as DeepView>::V, <T6 as DeepView>::V, <T7 as DeepView>::V, <T8 as DeepView>::V, <T9 as DeepView>::V)) {
        T0::lemma_round_trip(x.0);
        T1::lemma_round_trip(x.1);
        T2::lemma_round_trip(x.2);
        T3::lemma_round_trip(x.3);
        T4::lemma_round_trip(x.4);
        T5::lemma_round_trip(x.5);
        T6::lemma_round_trip(x.6);
        T7::lemma_round_trip(x.7);
        T8::lemma_round_trip(x.8);
        T9::lemma_round_trip(x.9);
    }
}

impl<T0: ToPython, T1: ToPython, T2: ToPython, T3: ToPython, T4: ToPython, T5: ToPython, T6: ToPython, T7: ToPython, T8: ToPython, T9: ToPython> NonNull for (T0, T1, T2, T3, T4, T5, T6, T7, T8, T9) {
    proof fn lemma_not_null(x: (<T0 as DeepView>::V, <T1 as DeepView>::V, <T2 as DeepView>::V, <T3 as DeepView>::V, <T4 as DeepView>::V, <T5 as DeepView>::V, <T6 as DeepView>::V, <T7 as DeepView>::V, <T8 as DeepView>::V, <T9 as DeepView>::V)) {
    }
}

impl<T0: ToPython, T1: ToPython, T2: ToPython, T3: ToPython, T4: ToPython, T5: ToPython, T6: ToPython, T7: ToPython, T8: ToPython, T9: ToPython, T10: ToPython> ToPython for (T0, T1, T2, T3, T4, T5, T6, T7, T8, T9, T10) {
    open spec fn encode(x: (<T0 as DeepView>::V, <T1 as DeepView>::V, <T2 as DeepView>::V, <T3 as DeepView>::V, <T4 as DeepView>::V, <T5 as DeepView>::V, <T6 as DeepView>::V, <T7 as DeepView>::V, <T8 as DeepView>::V, <T9 as DeepView>::V, <T10 as DeepView>::V)) -> Result<Foreign, ConversionError> {
        match T0::encode(x.0) {
            Err(e) => Err(e),
            Ok(f0) => match T1::encode(x.1) {
                Err(e) => Err(e),
                Ok(f1) => match T2::encode(x.2) {
                    Err(e) => Err(e),
                    Ok(f2) => match T3::encode(x.3) {
                        Err(e) => Err(e),
                        Ok(f3) => match T4::encode(x.4) {
                            Err(e) => Err(e),
                            Ok(f4) => match T5::encode(x.5) {
                                Err(e) => Err(e),
                                Ok(f5) => match T6::encode(x.6) {
                                    Err(e) => Err(e),
                                    Ok(f6) => match T7::encode(x.7) {
                                        Err(e) => Err(e),
                                        Ok(f7) => match T8::encode(x.8) {
                                            Err(e) => Err(e),
                                            Ok(f8) => match T9::encode(x.9) {
                                                Err(e) => Err(e),
                                                Ok(f9) => match T10::encode(x.10) {
                                                    Err(e) => Err(e),
                                                    Ok(f10) => Ok(Foreign::Tuple(seq![f0, f1, f2, f3, f4, f5, f6, f7, f8, f9, f10])),
                                                },
                                            },
                                        },
                                    },
                                },
                            },
                        },
                    },
                },
            },
        }
    }

    fn to_python(&self) -> (r: Result<ForeignValue, ConversionError>) {
        let f0 = match self.0.to_python() {
            Ok(f) => f,
            Err(e) => return Err(e),
        };
        let f1 = match self.1.to_python() {
            Ok(f) => f,
            Err(e) => return Err(e),
        };
        let f2 = match self.2.to_python() {
            Ok(f) => f,
            Err(e) => return Err(e),
        };
        let f3 = match self.3.to_python() {
            Ok(f) => f,
            Err(e) => return Err(e),
        };
        let f4 = match self.4.to_python() {
            Ok(f) => f,
            Err(e) => return Err(e),
        };
        let f5 = match self.5.to_python() {
            Ok(f) => f,
            Err(e) => return Err(e),
        };
        let f6 = match self.6.to_python() {
            Ok(f) => f,
            Err(e) => return Err(e),
        };
        let f7 = match self.7.to_python() {
            Ok(f) => f,
            Err(e) => return Err(e),
        };
        let f8 = match self.8.to_python() {
            Ok(f) => f,
            Err(e) => return Err(e),
        };
        let f9 = match self.9.to_python() {
            Ok(f) => f,
            Err(e) => return Err(e),
        };
        let f10 = match self.10.to_python() {
            Ok(f) => f,
            Err(e) => return Err(e),
        };
        let mut items: Vec<ForeignValue> = Vec::new();
        items.push(f0);
        items.push(f1);
        items.push(f2);
        items.push(f3);
        items.push(f4);
        items.push(f5);
        items.push(f6);
        items.push(f7);
        items.push(f8);
        items.push(f9);
        items.push(f10);
        proof {
            assert(models(items@) =~= seq![f0@, f1@, f2@, f3@, f4@, f5@, f6@, f7@, f8@, f9@, f10@]);
        }
        Ok(make_tuple(items))
    }
}

impl<T0: PyTryFrom, T1: PyTryFrom, T2: PyTryFrom, T3: PyTryFrom, T4: PyTryFrom, T5: PyTryFrom, T6: PyTryFrom, T7: PyTryFrom, T8: PyTryFrom, T9: PyTryFrom, T10: PyTryFrom> PyTryFrom for (T0, T1, T2, T3, T4, T5, T6, T7, T8, T9, T10) {
    open spec fn decode(v: Foreign) -> Result<(<T0 as DeepView>::V, <T1 as DeepView>::V, <T2 as DeepView>::V, <T3 as DeepView>::V, <T4 as DeepView>::V, <T5 as DeepView>::V, <T6 as DeepView>::V, <T7 as DeepView>::V, <T8 as DeepView>::V, <T9 as DeepView>::V, <T10 as DeepView>::V), ConversionError> {
        match v {
            Foreign::Tuple(s) => if s.len() == 11 {
                match T0::decode(s[0]) {
                    Err(e) => Err(e),
                    Ok(a0) => match T1::decode(s[1]) {
                        Err(e) => Err(e),
                        Ok(a1) => match T2::decode(s[2]) {
                            Err(e) => Err(e),
                            Ok(a2) => match T3::decode(s[3]) {
                                Err(e) => Err(e),
                                Ok(a3) => match T4::decode(s[4]) {
                                    Err(e) => Err(e),
                                    Ok(a4) => match T5::decode(s[5]) {
                                        Err(e) => Err(e),
                                        Ok(a5) => match T6::decode(s[6]) {
                                            Err(e) => Err(e),
                                            Ok(a6) => match T7::decode(s[7]) {
                                                Err(e) => Err(e),
                                                Ok(a7) => match T8::decode(s[8]) {
                                                    Err(e) => Err(e),
                                                    Ok(a8) => match T9::decode(s[9]) {
                                                        Err(e) => Err(e),
                                                        Ok(a9) => match T10::decode(s[10]) {
                                                            Err(e) => Err(e),
                                                            Ok(a10) => Ok((a0, a1, a2, a3, a4, a5, a6, a7, a8, a9, a10)),
                                                        },
                                                    },
                                                },
                                            },
                                        },
                                    },
                                },
                            },
                        },
                    },
                }
            } else {
                Err(ConversionError::WrongShape)
            },
            _ => Err(ConversionError::WrongShape),
        }
    }

    fn py_try_from(v: &ForeignValue) -> (r: Result<(T0, T1, T2, T3, T4, T5, T6, T7, T8, T9, T10), ConversionError>) {
        match v {
            ForeignValue::Tuple(items) => {
                if items.len() != 11 {
                    return Err(ConversionError::WrongShape);
                }
                let a0 = match T0::py_try_from(&items[0]) {
                    Ok(a) => a,
                    Err(e) => return Err(e),
                };
                let a1 = match T1::py_try_from(&items[1]) {
                    Ok(a) => a,
                    Err(e) => return Err(e),
                };
                let a2 = match T2::py_try_from(&items[2]) {
                    Ok(a) => a,
                    Err(e) => return Err(e),
                };
                let a3 = match T3::py_try_from(&items[3]) {
                    Ok(a) => a,
                    Err(e) => return Err(e),
                };
                let a4 = match T4::py_try_from(&items[4]) {
                    Ok(a) => a,
                    Err(e) => return Err(e),
                };
                let a5 = match T5::py_try_from(&items[5]) {
                    Ok(a) => a,
                    Err(e) => return Err(e),
                };
                let a6 = match T6::py_try_from(&items[6]) {
                    Ok(a) => a,
                    Err(e) => return Err(e),
                };
                let a7 = match T7::py_try_from(&items[7]) {
                    Ok(a) => a,
                    Err(e) => return Err(e),
                };
                let a8 = match T8::py_try_from(&items[8]) {
                    Ok(a) => a,
                    Err(e) => return Err(e),
                };
                let a9 = match T9::py_try_from(&items[9]) {
                    Ok(a) => a,
                    Err(e) => return Err(e),
                };
                let a10 = match T10::py_try_from(&items[10]) {
                    Ok(a) => a,
                    Err(e) => return Err(e),
                };
                Ok((a0, a1, a2, a3, a4, a5, a6, a7, a8, a9, a10))
            },
            _ => Err(ConversionError::WrongShape),
        }
    }
}

impl<T0: RoundTrip, T1: RoundTrip, T2: RoundTrip, T3: RoundTrip, T4: RoundTrip, T5: RoundTrip, T6: RoundTrip, T7: RoundTrip, T8: RoundTrip, T9: RoundTrip, T10: RoundTrip> RoundTrip for (T0, T1, T2, T3, T4, T5, T6, T7, T8, T9, T10) {
    proof fn lemma_round_trip(x: (<T0 as DeepView>::V, <T1 as DeepView>::V, <T2 as DeepView>::V, <T3 as DeepView>::V, <T4 as DeepView>::V, <T5 as DeepView>::V, <T6 as DeepView>::V, <T7 as DeepView>::V, <T8 as DeepView>::V, <T9 as DeepView>::V, <T10 as DeepView>::V)) {
        T0::lemma_round_trip(x.0);
        T1::lemma_round_trip(x.1);
        T2::lemma_round_trip(x.2);
        T3::lemma_round_trip(x.3);
        T4::lemma_round_trip(x.4);
        T5::lemma_round_trip(x.5);
        T6::lemma_round_trip(x.6);
        T7::lemma_round_trip(x.7);
        T8::lemma_round_trip(x.8);
        T9::lemma_round_trip(x.9);
        T10::lemma_round_trip(x.10);
    }
}

impl<T0: ToPython, T1: ToPython, T2: ToPython, T3: ToPython, T4: ToPython, T5: ToPython, T6: ToPython, T7: ToPython, T8: ToPython, T9: ToPython, T10: ToPython> NonNull for (T0, T1, T2, T3, T4, T5, T6, T7, T8, T9, T10) {
    proof fn lemma_not_null(x: (<T0 as DeepView>::V, <T1 as DeepView>::V, <T2 as DeepView>::V, <T3 as DeepView>::V, <T4 as DeepView>::V, <T5 as DeepView>::V, <T6 as DeepView>::V, <T7 as DeepView>::V, <T8 as DeepView>::V, <T9 as DeepView>::V, <T10 as DeepView>::V)) {
    }
}

impl<T0: ToPython, T1: ToPython, T2: ToPython, T3: ToPython, T4: ToPython, T5: ToPython, T6: ToPython, T7: ToPython, T8: ToPython, T9: ToPython, T10: ToPython, T11: ToPython> ToPython for (T0, T1, T2, T3, T4, T5, T6, T7, T8, T9, T10, T11) {
    open spec fn encode(x: (<T0 as DeepView>::V, <T1 as DeepView>::V, <T2 as DeepView>::V, <T3 as DeepView>::V, <T4 as DeepView>::V, <T5 as DeepView>::V, <T6 as DeepView>::V, <T7 as DeepView>::V, <T8 as DeepView>::V, <T9 as DeepView>::V, <T10 as DeepView>::V, <T11 as DeepView>::V)) -> Result<Foreign, ConversionError> {
        match T0::encode(x.0) {
            Err(e) => Err(e),
            Ok(f0) => match T1::encode(x.1) {
                Err(e) => Err(e),
                Ok(f1) => match T2::encode(x.2) {
                    Err(e) => Err(e),
                    Ok(f2) => match T3::encode(x.3) {
                        Err(e) => Err(e),
                        Ok(f3) => match T4::encode(x.4) {
                            Err(e) => Err(e),
                            Ok(f4) => match T5::encode(x.5) {
                                Err(e) => Err(e),
                                Ok(f5) => match T6::encode(x.6) {
                                    Err(e) => Err(e),
                                    Ok(f6) => match T7::encode(x.7) {
                                        Err(e) => Err(e),
                                        Ok(f7) => match T8::encode(x.8) {
                                            Err(e) => Err(e),
                                            Ok(f8) => match T9::encode(x.9) {
                                                Err(e) => Err(e),
                                                Ok(f9) => match T10::encode(x.10) {
                                                    Err(e) => Err(e),
                                                    Ok(f10) => match T11::encode(x.11) {
                                                        Err(e) => Err(e),
                                                        Ok(f11) => Ok(Foreign::Tuple(seq![f0, f1, f2, f3, f4, f5, f6, f7, f8, f9, f10, f11])),
                                                    },
                                                },
                                            },
                                        },
                                    },
                                },
                            },
                        },
                    },
                },
            },
        }
    }

    fn to_python(&self) -> (r: Result<ForeignValue, ConversionError>) {
        let f0 = match self.0.to_python() {
            Ok(f) => f,
            Err(e) => return Err(e),
        };
        let f1 = match self.1.to_python() {
            Ok(f) => f,
            Err(e) => return Err(e),
        };
        let f2 = match self.2.to_python() {
            Ok(f) => f,
            Err(e) => return Err(e),
        };
        let f3 = match self.3.to_python() {
            Ok(f) => f,
            Err(e) => return Err(e),
        };
        let f4 = match self.4.to_python() {
            Ok(f) => f,
            Err(e) => return Err(e),
        };
        let f5 = match self.5.to_python() {
            Ok(f) => f,
            Err(e) => return Err(e),
        };
        let f6 = match self.6.to_python() {
            Ok(f) => f,
            Err(e) => return Err(e),
        };
        let f7 = match self.7.to_python() {
            Ok(f) => f,
            Err(e) => return Err(e),
        };
        let f8 = match self.8.to_python() {
            Ok(f) => f,
            Err(e) => return Err(e),
        };
        let f9 = match self.9.to_python() {
            Ok(f) => f,
            Err(e) => return Err(e),
        };
        let f10 = match self.10.to_python() {
            Ok(f) => f,
            Err(e) => return Err(e),
        };
        let f11 = match self.11.to_python() {
            Ok(f) => f,
            Err(e) => return Err(e),
        };
        let mut items: Vec<ForeignValue> = Vec::new();
        items.push(f0);
        items.push(f1);
        items.push(f2);
        items.push(f3);
        items.push(f4);
        items.push(f5);
        items.push(f6);
        items.push(f7);
        items.push(f8);
        items.push(f9);
        items.push(f10);
        items.push(f11);
        proof {
            assert(models(items@) =~= seq![f0@, f1@, f2@, f3@, f4@, f5@, f6@, f7@, f8@, f9@, f10@, f11@]);
        }
        Ok(make_tuple(items))
    }
}

impl<T0: PyTryFrom, T1: PyTryFrom, T2: PyTryFrom, T3: PyTryFrom, T4: PyTryFrom, T5: PyTryFrom, T6: PyTryFrom, T7: PyTryFrom, T8: PyTryFrom, T9: PyTryFrom, T10: PyTryFrom, T11: PyTryFrom> PyTryFrom for (T0, T1, T2, T3, T4, T5, T6, T7, T8, T9, T10, T11) {
    open spec fn decode(v: Foreign) -> Result<(<T0 as DeepView>::V, <T1 as DeepView>::V, <T2 as DeepView>::V, <T3 as DeepView>::V, <T4 as DeepView>::V, <T5 as DeepView>::V, <T6 as DeepView>::V, <T7 as DeepView>::V, <T8 as DeepView>::V, <T9 as DeepView>::V, <T10 as DeepView>::V, <T11 as DeepView>::V), ConversionError> {
        match v {
            Foreign::Tuple(s) => if s.len() == 12 {
                match T0::decode(s[0]) {
                    Err(e) => Err(e),
                    Ok(a0) => match T1::decode(s[1]) {
                        Err(e) => Err(e),
                        Ok(a1) => match T2::decode(s[2]) {
                            Err(e) => Err(e),
                            Ok(a2) => match T3::decode(s[3]) {
                                Err(e) => Err(e),
                                Ok(a3) => match T4::decode(s[4]) {
                                    Err(e) => Err(e),
                                    Ok(a4) => match T5::decode(s[5]) {
                                        Err(e) => Err(e),
                                        Ok(a5) => match T6::decode(s[6]) {
                                            Err(e) => Err(e),
                                            Ok(a6) => match T7::decode(s[7]) {
                                                Err(e) => Err(e),
                                                Ok(a7) => match T8::decode(s[8]) {
                                                    Err(e) => Err(e),
                                                    Ok(a8) => match T9::decode(s[9]) {
                                                        Err(e) => Err(e),
                                                        Ok(a9) => match T10::decode(s[10]) {
                                                            Err(e) => Err(e),
                                                            Ok(a10) => match T11::decode(s[11]) {
                                                                Err(e) => Err(e),
                                                                Ok(a11) => Ok((a0, a1, a2, a3, a4, a5, a6, a7, a8, a9, a10, a11)),
                                                            },
                                                        },
                                                    },
                                                },
                                            },
                                        },
                                    },
                                },
                            },
                        },
                    },
                }
            } else {
                Err(ConversionError::WrongShape)
            },
            _ => Err(ConversionError::WrongShape),
        }
    }

    fn py_try_from(v: &ForeignValue) -> (r: Result<(T0, T1, T2, T3, T4, T5, T6, T7, T8, T9, T10, T11), ConversionError>) {
        match v {
            ForeignValue::Tuple(items) => {
                if items.len() != 12 {
                    return Err(ConversionError::WrongShape);
                }
                let a0 = match T0::py_try_from(&items[0]) {
                    Ok(a) => a,
                    Err(e) => return Err(e),
                };
                let a1 = match T1::py_try_from(&items[1]) {
                    Ok(a) => a,
                    Err(e) => return Err(e),
                };
                let a2 = match T2::py_try_from(&items[2]) {
                    Ok(a) => a,
                    Err(e) => return Err(e),
                };
                let a3 = match T3::py_try_from(&items[3]) {
                    Ok(a) => a,
                    Err(e) => return Err(e),
                };
                let a4 = match T4::py_try_from(&items[4]) {
                    Ok(a) => a,
                    Err(e) => return Err(e),
                };
                let a5 = match T5::py_try_from(&items[5]) {
                    Ok(a) => a,
                    Err(e) => return Err(e),
                };
                let a6 = match T6::py_try_from(&items[6]) {
                    Ok(a) => a,
                    Err(e) => return Err(e),
                };
                let a7 = match T7::py_try_from(&items[7]) {
                    Ok(a) => a,
                    Err(e) => return Err(e),
                };
                let a8 = match T8::py_try_from(&items[8]) {
                    Ok(a) => a,
                    Err(e) => return Err(e),
                };
                let a9 = match T9::py_try_from(&items[9]) {
                    Ok(a) => a,
                    Err(e) => return Err(e),
                };
                let a10 = match T10::py_try_from(&items[10]) {
                    Ok(a) => a,
                    Err(e) => return Err(e),
                };
                let a11 = match T11::py_try_from(&items[11]) {
                    Ok(a) => a,
                    Err(e) => return Err(e),
                };
                Ok((a0, a1, a2, a3, a4, a5, a6, a7, a8, a9, a10, a11))
            },
            _ => Err(ConversionError::WrongShape),
        }
    }
}

impl<T0: RoundTrip, T1: RoundTrip, T2: RoundTrip, T3: RoundTrip, T4: RoundTrip, T5: RoundTrip, T6: RoundTrip, T7: RoundTrip, T8: RoundTrip, T9: RoundTrip, T10: RoundTrip, T11: RoundTrip> RoundTrip for (T0, T1, T2, T3, T4, T5, T6, T7, T8, T9, T10, T11) {
    proof fn lemma_round_trip(x: (<T0 as DeepView>::V, <T1 as DeepView>::V, <T2 as DeepView>::V, <T3 as DeepView>::V, <T4 as DeepView>::V, <T5 as DeepView>::V, <T6 as DeepView>::V, <T7 as DeepView>::V, <T8 as DeepView>::V, <T9 as DeepView>::V, <T10 as DeepView>::V, <T11 as DeepView>::V)) {
        T0::lemma_round_trip(x.0);
        T1::lemma_round_trip(x.1);
        T2::lemma_round_trip(x.2);
        T3::lemma_round_trip(x.3);
        T4::lemma_round_trip(x.4);
        T5::lemma_round_trip(x.5);
        T6::lemma_round_trip(x.6);
        T7::lemma_round_trip(x.7);
        T8::lemma_round_trip(x.8);
        T9::lemma_round_trip(x.9);
        T10::lemma_round_trip(x.10);
        T11::lemma_round_trip(x.11);
    }
}

impl<T0: ToPython, T1: ToPython, T2: ToPython, T3: ToPython, T4: ToPython, T5: ToPython, T6: ToPython, T7: ToPython, T8: ToPython, T9: ToPython, T10: ToPython, T11: ToPython> NonNull for (T0, T1, T2, T3, T4, T5, T6, T7, T8, T9, T10, T11) {
    proof fn lemma_not_null(x: (<T0 as DeepView>::V, <T1 as DeepView>::V, <T2 as DeepView>::V, <T3 as DeepView>::V, <T4 as DeepView>::V, <T5 as DeepView>::V, <T6 as DeepView>::V, <T7 as DeepView>::V, <T8 as DeepView>::V, <T9 as DeepView>::V, <T10 as DeepView>::V, <T11 as DeepView>::V)) {
    }
}

} // verus!
