//! Tuples of two to twenty values as named types, decoded from tuple records.
use vstd::prelude::*;
use crate::record::{FromRecord, Record, wrong_record_error, wrong_record_message};

verus! {

/// A tuple of 2 values.
#[derive(Clone, Debug, PartialEq, Eq, PartialOrd, Ord, Hash)]
pub struct tuple2<T1, T2>(pub T1, pub T2);

impl<T1: FromRecord, T2: FromRecord> FromRecord for tuple2<T1, T2> {
    open spec fn decodes(r: Record) -> bool {
        r matches Record::Tuple(args) && args@.len() == 2
            && T1::decodes(args@[0])
            && T2::decodes(args@[1])
    }

    open spec fn decodes_to(r: Record, v: tuple2<T1, T2>) -> bool {
        r matches Record::Tuple(args) && args@.len() == 2
            && T1::decodes_to(args@[0], v.0)
            && T2::decodes_to(args@[1], v.1)
    }

    /// The error of the first element that does not decode, or the message
    /// for a record that is not a tuple of this length.
    open spec fn decode_error(r: Record) -> Seq<char> {
        match r {
            Record::Tuple(args) => if args@.len() != 2 {
                wrong_record_message("a 2-tuple"@, r)
            } else if !T1::decodes(args@[0]) {
                T1::decode_error(args@[0])
            } else {
                T2::decode_error(args@[1])
            },
            _ => wrong_record_message("a 2-tuple"@, r),
        }
    }

    fn from_record(val: &Record) -> (res: Result<tuple2<T1, T2>, String>) {
        match val {
            Record::Tuple(args) => {
                if args.len() != 2 {
                    return Err(wrong_record_error("a 2-tuple", val));
                }
                let x0 = match T1::from_record(&args[0]) {
                    Ok(v) => v,
                    Err(e) => return Err(e),
                };
                let x1 = match T2::from_record(&args[1]) {
                    Ok(v) => v,
                    Err(e) => return Err(e),
                };
                Ok(tuple2(x0, x1))
            },
            _ => Err(wrong_record_error("a 2-tuple", val)),
        }
    }
}

/// A tuple of 3 values.
#[derive(Clone, Debug, PartialEq, Eq, PartialOrd, Ord, Hash)]
pub struct tuple3<T1, T2, T3>(pub T1, pub T2, pub T3);

impl<T1: FromRecord, T2: FromRecord, T3: FromRecord> FromRecord for tuple3<T1, T2, T3> {
    open spec fn decodes(r: Record) -> bool {
        r matches Record::Tuple(args) && args@.len() == 3
            && T1::decodes(args@[0])
            && T2::decodes(args@[1])
            && T3::decodes(args@[2])
    }

    open spec fn decodes_to(r: Record, v: tuple3<T1, T2, T3>) -> bool {
        r matches Record::Tuple(args) && args@.len() == 3
            && T1::decodes_to(args@[0], v.0)
            && T2::decodes_to(args@[1], v.1)
            && T3::decodes_to(args@[2], v.2)
    }

    /// The error of the first element that does not decode, or the message
    /// for a record that is not a tuple of this length.
    open spec fn decode_error(r: Record) -> Seq<char> {
        match r {
            Record::Tuple(args) => if args@.len() != 3 {
                wrong_record_message("a 3-tuple"@, r)
            } else if !T1::decodes(args@[0]) {
                T1::decode_error(args@[0])
            } else if !T2::decodes(args@[1]) {
                T2::decode_error(args@[1])
            } else {
                T3::decode_error(args@[2])
            },
            _ => wrong_record_message("a 3-tuple"@, r),
        }
    }

    fn from_record(val: &Record) -> (res: Result<tuple3<T1, T2, T3>, String>) {
        match val {
            Record::Tuple(args) => {
                if args.len() != 3 {
                    return Err(wrong_record_error("a 3-tuple", val));
                }
                let x0 = match T1::from_record(&args[0]) {
                    Ok(v) => v,
                    Err(e) => return Err(e),
                };
                let x1 = match T2::from_record(&args[1]) {
                    Ok(v) => v,
                    Err(e) => return Err(e),
                };
                let x2 = match T3::from_record(&args[2]) {
                    Ok(v) => v,
                    Err(e) => return Err(e),
                };
                Ok(tuple3(x0, x1, x2))
            },
            _ => Err(wrong_record_error("a 3-tuple", val)),
        }
    }
}

/// A tuple of 4 values.
#[derive(Clone, Debug, PartialEq, Eq, PartialOrd, Ord, Hash)]
pub struct tuple4<T1, T2, T3, T4>(pub T1, pub T2, pub T3, pub T4);

impl<T1: FromRecord, T2: FromRecord, T3: FromRecord, T4: FromRecord> FromRecord for tuple4<T1, T2, T3, T4> {
    open spec fn decodes(r: Record) -> bool {
        r matches Record::Tuple(args) && args@.len() == 4
            && T1::decodes(args@[0])
            && T2::decodes(args@[1])
            && T3::decodes(args@[2])
            && T4::decodes(args@[3])
    }

    open spec fn decodes_to(r: Record, v: tuple4<T1, T2, T3, T4>) -> bool {
        r matches Record::Tuple(args) && args@.len() == 4
            && T1::decodes_to(args@[0], v.0)
            && T2::decodes_to(args@[1], v.1)
            && T3::decodes_to(args@[2], v.2)
            && T4::decodes_to(args@[3], v.3)
    }

    /// The error of the first element that does not decode, or the message
    /// for a record that is not a tuple of this length.
    open spec fn decode_error(r: Record) -> Seq<char> {
        match r {
            Record::Tuple(args) => if args@.len() != 4 {
                wrong_record_message("a 4-tuple"@, r)
            } else if !T1::decodes(args@[0]) {
                T1::decode_error(args@[0])
            } else if !T2::decodes(args@[1]) {
                T2::decode_error(args@[1])
            } else if !T3::decodes(args@[2]) {
                T3::decode_error(args@[2])
            } else {
                T4::decode_error(args@[3])
            },
            _ => wrong_record_message("a 4-tuple"@, r),
        }
    }

    fn from_record(val: &Record) -> (res: Result<tuple4<T1, T2, T3, T4>, String>) {
        match val {
            Record::Tuple(args) => {
                if args.len() != 4 {
                    return Err(wrong_record_error("a 4-tuple", val));
                }
                let x0 = match T1::from_record(&args[0]) {
                    Ok(v) => v,
                    Err(e) => return Err(e),
                };
                let x1 = match T2::from_record(&args[1]) {
                    Ok(v) => v,
                    Err(e) => return Err(e),
                };
                let x2 = match T3::from_record(&args[2]) {
                    Ok(v) => v,
                    Err(e) => return Err(e),
                };
                let x3 = match T4::from_record(&args[3]) {
                    Ok(v) => v,
                    Err(e) => return Err(e),
                };
                Ok(tuple4(x0, x1, x2, x3))
            },
            _ => Err(wrong_record_error("a 4-tuple", val)),
        }
    }
}

/// A tuple of 5 values.
#[derive(Clone, Debug, PartialEq, Eq, PartialOrd, Ord, Hash)]
pub struct tuple5<T1, T2, T3, T4, T5>(pub T1, pub T2, pub T3, pub T4, pub T5);

impl<T1: FromRecord, T2: FromRecord, T3: FromRecord, T4: FromRecord, T5: FromRecord> FromRecord for tuple5<T1, T2, T3, T4, T5> {
    open spec fn decodes(r: Record) -> bool {
        r matches Record::Tuple(args) && args@.len() == 5
            && T1::decodes(args@[0])
            && T2::decodes(args@[1])
            && T3::decodes(args@[2])
            && T4::decodes(args@[3])
            && T5::decodes(args@[4])
    }

    open spec fn decodes_to(r: Record, v: tuple5<T1, T2, T3, T4, T5>) -> bool {
        r matches Record::Tuple(args) && args@.len() == 5
            && T1::decodes_to(args@[0], v.0)
            && T2::decodes_to(args@[1], v.1)
            && T3::decodes_to(args@[2], v.2)
            && T4::decodes_to(args@[3], v.3)
            && T5::decodes_to(args@[4], v.4)
    }

    /// The error of the first element that does not decode, or the message
    /// for a record that is not a tuple of this length.
    open spec fn decode_error(r: Record) -> Seq<char> {
        match r {
            Record::Tuple(args) => if args@.len() != 5 {
                wrong_record_message("a 5-tuple"@, r)
            } else if !T1::decodes(args@[0]) {
                T1::decode_error(args@[0])
            } else if !T2::decodes(args@[1]) {
                T2::decode_error(args@[1])
            } else if !T3::decodes(args@[2]) {
                T3::decode_error(args@[2])
            } else if !T4::decodes(args@[3]) {
                T4::decode_error(args@[3])
            } else {
                T5::decode_error(args@[4])
            },
            _ => wrong_record_message("a 5-tuple"@, r),
        }
    }

    fn from_record(val: &Record) -> (res: Result<tuple5<T1, T2, T3, T4, T5>, String>) {
        match val {
            Record::Tuple(args) => {
                if args.len() != 5 {
                    return Err(wrong_record_error("a 5-tuple", val));
                }
                let x0 = match T1::from_record(&args[0]) {
                    Ok(v) => v,
                    Err(e) => return Err(e),
                };
                let x1 = match T2::from_record(&args[1]) {
                    Ok(v) => v,
                    Err(e) => return Err(e),
                };
                let x2 = match T3::from_record(&args[2]) {
                    Ok(v) => v,
                    Err(e) => return Err(e),
                };
                let x3 = match T4::from_record(&args[3]) {
                    Ok(v) => v,
                    Err(e) => return Err(e),
                };
                let x4 = match T5::from_record(&args[4]) {
                    Ok(v) => v,
                    Err(e) => return Err(e),
                };
                Ok(tuple5(x0, x1, x2, x3, x4))
            },
            _ => Err(wrong_record_error("a 5-tuple", val)),
        }
    }
}

/// A tuple of 6 values.
#[derive(Clone, Debug, PartialEq, Eq, PartialOrd, Ord, Hash)]
pub struct tuple6<T1, T2, T3, T4, T5, T6>(pub T1, pub T2, pub T3, pub T4, pub T5, pub T6);

impl<T1: FromRecord, T2: FromRecord, T3: FromRecord, T4: FromRecord, T5: FromRecord, T6: FromRecord> FromRecord for tuple6<T1, T2, T3, T4, T5, T6> {
    open spec fn decodes(r: Record) -> bool {
        r matches Record::Tuple(args) && args@.len() == 6
            && T1::decodes(args@[0])
            && T2::decodes(args@[1])
            && T3::decodes(args@[2])
            && T4::decodes(args@[3])
            && T5::decodes(args@[4])
            && T6::decodes(args@[5])
    }

    open spec fn decodes_to(r: Record, v: tuple6<T1, T2, T3, T4, T5, T6>) -> bool {
        r matches Record::Tuple(args) && args@.len() == 6
            && T1::decodes_to(args@[0], v.0)
            && T2::decodes_to(args@[1], v.1)
            && T3::decodes_to(args@[2], v.2)
            && T4::decodes_to(args@[3], v.3)
            && T5::decodes_to(args@[4], v.4)
            && T6::decodes_to(args@[5], v.5)
    }

    /// The error of the first element that does not decode, or the message
    /// for a record that is not a tuple of this length.
    open spec fn decode_error(r: Record) -> Seq<char> {
        match r {
            Record::Tuple(args) => if args@.len() != 6 {
                wrong_record_message("a 6-tuple"@, r)
            } else if !T1::decodes(args@[0]) {
                T1::decode_error(args@[0])
            } else if !T2::decodes(args@[1]) {
                T2::decode_error(args@[1])
            } else if !T3::decodes(args@[2]) {
                T3::decode_error(args@[2])
            } else if !T4::decodes(args@[3]) {
                T4::decode_error(args@[3])
            } else if !T5::decodes(args@[4]) {
                T5::decode_error(args@[4])
            } else {
                T6::decode_error(args@[5])
            },
            _ => wrong_record_message("a 6-tuple"@, r),
        }
    }

    fn from_record(val: &Record) -> (res: Result<tuple6<T1, T2, T3, T4, T5, T6>, String>) {
        match val {
            Record::Tuple(args) => {
                if args.len() != 6 {
                    return Err(wrong_record_error("a 6-tuple", val));
                }
                let x0 = match T1::from_record(&args[0]) {
                    Ok(v) => v,
                    Err(e) => return Err(e),
                };
                let x1 = match T2::from_record(&args[1]) {
                    Ok(v) => v,
                    Err(e) => return Err(e),
                };
                let x2 = match T3::from_record(&args[2]) {
                    Ok(v) => v,
                    Err(e) => return Err(e),
                };
                let x3 = match T4::from_record(&args[3]) {
                    Ok(v) => v,
                    Err(e) => return Err(e),
                };
                let x4 = match T5::from_record(&args[4]) {
                    Ok(v) => v,
                    Err(e) => return Err(e),
                };
                let x5 = match T6::from_record(&args[5]) {
                    Ok(v) => v,
                    Err(e) => return Err(e),
                };
                Ok(tuple6(x0, x1, x2, x3, x4, x5))
            },
            _ => Err(wrong_record_error("a 6-tuple", val)),
        }
    }
}

/// A tuple of 7 values.
#[derive(Clone, Debug, PartialEq, Eq, PartialOrd, Ord, Hash)]
pub struct tuple7<T1, T2, T3, T4, T5, T6, T7>(pub T1, pub T2, pub T3, pub T4, pub T5, pub T6, pub T7);

impl<T1: FromRecord, T2: FromRecord, T3: FromRecord, T4: FromRecord, T5: FromRecord, T6: FromRecord, T7: FromRecord> FromRecord for tuple7<T1, T2, T3, T4, T5, T6, T7> {
    open spec fn decodes(r: Record) -> bool {
        r matches Record::Tuple(args) && args@.len() == 7
            && T1::decodes(args@[0])
            && T2::decodes(args@[1])
            && T3::decodes(args@[2])
            && T4::decodes(args@[3])
            && T5::decodes(args@[4])
            && T6::decodes(args@[5])
            && T7::decodes(args@[6])
    }

    open spec fn decodes_to(r: Record, v: tuple7<T1, T2, T3, T4, T5, T6, T7>) -> bool {
        r matches Record::Tuple(args) && args@.len() == 7
            && T1::decodes_to(args@[0], v.0)
            && T2::decodes_to(args@[1], v.1)
            && T3::decodes_to(args@[2], v.2)
            && T4::decodes_to(args@[3], v.3)
            && T5::decodes_to(args@[4], v.4)
            && T6::decodes_to(args@[5], v.5)
            && T7::decodes_to(args@[6], v.6)
    }

    /// The error of the first element that does not decode, or the message
    /// for a record that is not a tuple of this length.
    open spec fn decode_error(r: Record) -> Seq<char> {
        match r {
            Record::Tuple(args) => if args@.len() != 7 {
                wrong_record_message("a 7-tuple"@, r)
            } else if !T1::decodes(args@[0]) {
                T1::decode_error(args@[0])
            } else if !T2::decodes(args@[1]) {
                T2::decode_error(args@[1])
            } else if !T3::decodes(args@[2]) {
                T3::decode_error(args@[2])
            } else if !T4::decodes(args@[3]) {
                T4::decode_error(args@[3])
            } else if !T5::decodes(args@[4]) {
                T5::decode_error(args@[4])
            } else if !T6::decodes(args@[5]) {
                T6::decode_error(args@[5])
            } else {
                T7::decode_error(args@[6])
            },
            _ => wrong_record_message("a 7-tuple"@, r),
        }
    }

    fn from_record(val: &Record) -> (res: Result<tuple7<T1, T2, T3, T4, T5, T6, T7>, String>) {
        match val {
            Record::Tuple(args) => {
                if args.len() != 7 {
                    return Err(wrong_record_error("a 7-tuple", val));
                }
                let x0 = match T1::from_record(&args[0]) {
                    Ok(v) => v,
                    Err(e) => return Err(e),
                };
                let x1 = match T2::from_record(&args[1]) {
                    Ok(v) => v,
                    Err(e) => return Err(e),
                };
                let x2 = match T3::from_record(&args[2]) {
                    Ok(v) => v,
                    Err(e) => return Err(e),
                };
                let x3 = match T4::from_record(&args[3]) {
                    Ok(v) => v,
                    Err(e) => return Err(e),
                };
                let x4 = match T5::from_record(&args[4]) {
                    Ok(v) => v,
                    Err(e) => return Err(e),
                };
                let x5 = match T6::from_record(&args[5]) {
                    Ok(v) => v,
                    Err(e) => return Err(e),
                };
                let x6 = match T7::from_record(&args[6]) {
                    Ok(v) => v,
                    Err(e) => return Err(e),
                };
                Ok(tuple7(x0, x1, x2, x3, x4, x5, x6))
            },
            _ => Err(wrong_record_error("a 7-tuple", val)),
        }
    }
}

/// A tuple of 8 values.
#[derive(Clone, Debug, PartialEq, Eq, PartialOrd, Ord, Hash)]
pub struct tuple8<T1, T2, T3, T4, T5, T6, T7, T8>(pub T1, pub T2, pub T3, pub T4, pub T5, pub T6, pub T7, pub T8);

impl<T1: FromRecord, T2: FromRecord, T3: FromRecord, T4: FromRecord, T5: FromRecord, T6: FromRecord, T7: FromRecord, T8: FromRecord> FromRecord for tuple8<T1, T2, T3, T4, T5, T6, T7, T8> {
    open spec fn decodes(r: Record) -> bool {
        r matches Record::Tuple(args) && args@.len() == 8
            && T1::decodes(args@[0])
            && T2::decodes(args@[1])
            && T3::decodes(args@[2])
            && T4::decodes(args@[3])
            && T5::decodes(args@[4])
            && T6::decodes(args@[5])
            && T7::decodes(args@[6])
            && T8::decodes(args@[7])
    }

    open spec fn decodes_to(r: Record, v: tuple8<T1, T2, T3, T4, T5, T6, T7, T8>) -> bool {
        r matches Record::Tuple(args) && args@.len() == 8
            && T1::decodes_to(args@[0], v.0)
            && T2::decodes_to(args@[1], v.1)
            && T3::decodes_to(args@[2], v.2)
            && T4::decodes_to(args@[3], v.3)
            && T5::decodes_to(args@[4], v.4)
            && T6::decodes_to(args@[5], v.5)
            && T7::decodes_to(args@[6], v.6)
            && T8::decodes_to(args@[7], v.7)
    }

    /// The error of the first element that does not decode, or the message
    /// for a record that is not a tuple of this length.
    open spec fn decode_error(r: Record) -> Seq<char> {
        match r {
            Record::Tuple(args) => if args@.len() != 8 {
                wrong_record_message("a 8-tuple"@, r)
            } else if !T1::decodes(args@[0]) {
                T1::decode_error(args@[0])
            } else if !T2::decodes(args@[1]) {
                T2::decode_error(args@[1])
            } else if !T3::decodes(args@[2]) {
                T3::decode_error(args@[2])
            } else if !T4::decodes(args@[3]) {
                T4::decode_error(args@[3])
            } else if !T5::decodes(args@[4]) {
                T5::decode_error(args@[4])
            } else if !T6::decodes(args@[5]) {
                T6::decode_error(args@[5])
            } else if !T7::decodes(args@[6]) {
                T7::decode_error(args@[6])
            } else {
                T8::decode_error(args@[7])
            },
            _ => wrong_record_message("a 8-tuple"@, r),
        }
    }

    fn from_record(val: &Record) -> (res: Result<tuple8<T1, T2, T3, T4, T5, T6, T7, T8>, String>) {
        match val {
            Record::Tuple(args) => {
                if args.len() != 8 {
                    return Err(wrong_record_error("a 8-tuple", val));
                }
                let x0 = match T1::from_record(&args[0]) {
                    Ok(v) => v,
                    Err(e) => return Err(e),
                };
                let x1 = match T2::from_record(&args[1]) {
                    Ok(v) => v,
                    Err(e) => return Err(e),
                };
                let x2 = match T3::from_record(&args[2]) {
                    Ok(v) => v,
                    Err(e) => return Err(e),
                };
                let x3 = match T4::from_record(&args[3]) {
                    Ok(v) => v,
                    Err(e) => return Err(e),
                };
                let x4 = match T5::from_record(&args[4]) {
                    Ok(v) => v,
                    Err(e) => return Err(e),
                };
                let x5 = match T6::from_record(&args[5]) {
                    Ok(v) => v,
                    Err(e) => return Err(e),
                };
                let x6 = match T7::from_record(&args[6]) {
                    Ok(v) => v,
                    Err(e) => return Err(e),
                };
                let x7 = match T8::from_record(&args[7]) {
                    Ok(v) => v,
                    Err(e) => return Err(e),
                };
                Ok(tuple8(x0, x1, x2, x3, x4, x5, x6, x7))
            },
            _ => Err(wrong_record_error("a 8-tuple", val)),
        }
    }
}

/// A tuple of 9 values.
#[derive(Clone, Debug, PartialEq, Eq, PartialOrd, Ord, Hash)]
pub struct tuple9<T1, T2, T3, T4, T5, T6, T7, T8, T9>(pub T1, pub T2, pub T3, pub T4, pub T5, pub T6, pub T7, pub T8, pub T9);

impl<T1: FromRecord, T2: FromRecord, T3: FromRecord, T4: FromRecord, T5: FromRecord, T6: FromRecord, T7: FromRecord, T8: FromRecord, T9: FromRecord> FromRecord for tuple9<T1, T2, T3, T4, T5, T6, T7, T8, T9> {
    open spec fn decodes(r: Record) -> bool {
        r matches Record::Tuple(args) && args@.len() == 9
            && T1::decodes(args@[0])
            && T2::decodes(args@[1])
            && T3::decodes(args@[2])
            && T4::decodes(args@[3])
            && T5::decodes(args@[4])
            && T6::decodes(args@[5])
            && T7::decodes(args@[6])
            && T8::decodes(args@[7])
            && T9::decodes(args@[8])
    }

    open spec fn decodes_to(r: Record, v: tuple9<T1, T2, T3, T4, T5, T6, T7, T8, T9>) -> bool {
        r matches Record::Tuple(args) && args@.len() == 9
            && T1::decodes_to(args@[0], v.0)
            && T2::decodes_to(args@[1], v.1)
            && T3::decodes_to(args@[2], v.2)
            && T4::decodes_to(args@[3], v.3)
            && T5::decodes_to(args@[4], v.4)
            && T6::decodes_to(args@[5], v.5)
            && T7::decodes_to(args@[6], v.6)
            && T8::decodes_to(args@[7], v.7)
            && T9::decodes_to(args@[8], v.8)
    }

    /// The error of the first element that does not decode, or the message
    /// for a record that is not a tuple of this length.
    open spec fn decode_error(r: Record) -> Seq<char> {
        match r {
            Record::Tuple(args) => if args@.len() != 9 {
                wrong_record_message("a 9-tuple"@, r)
            } else if !T1::decodes(args@[0]) {
                T1::decode_error(args@[0])
            } else if !T2::decodes(args@[1]) {
                T2::decode_error(args@[1])
            } else if !T3::decodes(args@[2]) {
                T3::decode_error(args@[2])
            } else if !T4::decodes(args@[3]) {
                T4::decode_error(args@[3])
            } else if !T5::decodes(args@[4]) {
                T5::decode_error(args@[4])
            } else if !T6::decodes(args@[5]) {
                T6::decode_error(args@[5])
            } else if !T7::decodes(args@[6]) {
                T7::decode_error(args@[6])
            } else if !T8::decodes(args@[7]) {
                T8::decode_error(args@[7])
            } else {
                T9::decode_error(args@[8])
            },
            _ => wrong_record_message("a 9-tuple"@, r),
        }
    }

    fn from_record(val: &Record) -> (res: Result<tuple9<T1, T2, T3, T4, T5, T6, T7, T8, T9>, String>) {
        match val {
            Record::Tuple(args) => {
                if args.len() != 9 {
                    return Err(wrong_record_error("a 9-tuple", val));
                }
                let x0 = match T1::from_record(&args[0]) {
                    Ok(v) => v,
                    Err(e) => return Err(e),
                };
                let x1 = match T2::from_record(&args[1]) {
                    Ok(v) => v,
                    Err(e) => return Err(e),
                };
                let x2 = match T3::from_record(&args[2]) {
                    Ok(v) => v,
                    Err(e) => return Err(e),
                };
                let x3 = match T4::from_record(&args[3]) {
                    Ok(v) => v,
                    Err(e) => return Err(e),
                };
                let x4 = match T5::from_record(&args[4]) {
                    Ok(v) => v,
                    Err(e) => return Err(e),
                };
                let x5 = match T6::from_record(&args[5]) {
                    Ok(v) => v,
                    Err(e) => return Err(e),
                };
                let x6 = match T7::from_record(&args[6]) {
                    Ok(v) => v,
                    Err(e) => return Err(e),
                };
                let x7 = match T8::from_record(&args[7]) {
                    Ok(v) => v,
                    Err(e) => return Err(e),
                };
                let x8 = match T9::from_record(&args[8]) {
                    Ok(v) => v,
                    Err(e) => return Err(e),
                };
                Ok(tuple9(x0, x1, x2, x3, x4, x5, x6, x7, x8))
            },
            _ => Err(wrong_record_error("a 9-tuple", val)),
        }
    }
}

/// A tuple of 10 values.
#[derive(Clone, Debug, PartialEq, Eq, PartialOrd, Ord, Hash)]
pub struct tuple10<T1, T2, T3, T4, T5, T6, T7, T8, T9, T10>(pub T1, pub T2, pub T3, pub T4, pub T5, pub T6, pub T7, pub T8, pub T9, pub T10);

impl<T1: FromRecord, T2: FromRecord, T3: FromRecord, T4: FromRecord, T5: FromRecord, T6: FromRecord, T7: FromRecord, T8: FromRecord, T9: FromRecord, T10: FromRecord> FromRecord for tuple10<T1, T2, T3, T4, T5, T6, T7, T8, T9, T10> {
    open spec fn decodes(r: Record) -> bool {
        r matches Record::Tuple(args) && args@.len() == 10
            && T1::decodes(args@[0])
            && T2::decodes(args@[1])
            && T3::decodes(args@[2])
            && T4::decodes(args@[3])
            && T5::decodes(args@[4])
            && T6::decodes(args@[5])
            && T7::decodes(args@[6])
            && T8::decodes(args@[7])
            && T9::decodes(args@[8])
            && T10::decodes(args@[9])
    }

    open spec fn decodes_to(r: Record, v: tuple10<T1, T2, T3, T4, T5, T6, T7, T8, T9, T10>) -> bool {
        r matches Record::Tuple(args) && args@.len() == 10
            && T1::decodes_to(args@[0], v.0)
            && T2::decodes_to(args@[1], v.1)
            && T3::decodes_to(args@[2], v.2)
            && T4::decodes_to(args@[3], v.3)
            && T5::decodes_to(args@[4], v.4)
            && T6::decodes_to(args@[5], v.5)
            && T7::decodes_to(args@[6], v.6)
            && T8::decodes_to(args@[7], v.7)
            && T9::decodes_to(args@[8], v.8)
            && T10::decodes_to(args@[9], v.9)
    }

    /// The error of the first element that does not decode, or the message
    /// for a record that is not a tuple of this length.
    open spec fn decode_error(r: Record) -> Seq<char> {
        match r {
            Record::Tuple(args) => if args@.len() != 10 {
                wrong_record_message("a 10-tuple"@, r)
            } else if !T1::decodes(args@[0]) {
                T1::decode_error(args@[0])
            } else if !T2::decodes(args@[1]) {
                T2::decode_error(args@[1])
            } else if !T3::decodes(args@[2]) {
                T3::decode_error(args@[2])
            } else if !T4::decodes(args@[3]) {
                T4::decode_error(args@[3])
            } else if !T5::decodes(args@[4]) {
                T5::decode_error(args@[4])
            } else if !T6::decodes(args@[5]) {
                T6::decode_error(args@[5])
            } else if !T7::decodes(args@[6]) {
                T7::decode_error(args@[6])
            } else if !T8::decodes(args@[7]) {
                T8::decode_error(args@[7])
            } else if !T9::decodes(args@[8]) {
                T9::decode_error(args@[8])
            } else {
                T10::decode_error(args@[9])
            },
            _ => wrong_record_message("a 10-tuple"@, r),
        }
    }

    fn from_record(val: &Record) -> (res: Result<tuple10<T1, T2, T3, T4, T5, T6, T7, T8, T9, T10>, String>) {
        match val {
            Record::Tuple(args) => {
                if args.len() != 10 {
                    return Err(wrong_record_error("a 10-tuple", val));
                }
                let x0 = match T1::from_record(&args[0]) {
                    Ok(v) => v,
                    Err(e) => return Err(e),
                };
                let x1 = match T2::from_record(&args[1]) {
                    Ok(v) => v,
                    Err(e) => return Err(e),
                };
                let x2 = match T3::from_record(&args[2]) {
                    Ok(v) => v,
                    Err(e) => return Err(e),
                };
                let x3 = match T4::from_record(&args[3]) {
                    Ok(v) => v,
                    Err(e) => return Err(e),
                };
                let x4 = match T5::from_record(&args[4]) {
                    Ok(v) => v,
                    Err(e) => return Err(e),
                };
                let x5 = match T6::from_record(&args[5]) {
                    Ok(v) => v,
                    Err(e) => return Err(e),
                };
                let x6 = match T7::from_record(&args[6]) {
                    Ok(v) => v,
                    Err(e) => return Err(e),
                };
                let x7 = match T8::from_record(&args[7]) {
                    Ok(v) => v,
                    Err(e) => return Err(e),
                };
                let x8 = match T9::from_record(&args[8]) {
                    Ok(v) => v,
                    Err(e) => return Err(e),
                };
                let x9 = match T10::from_record(&args[9]) {
                    Ok(v) => v,
                    Err(e) => return Err(e),
                };
                Ok(tuple10(x0, x1, x2, x3, x4, x5, x6, x7, x8, x9))
            },
            _ => Err(wrong_record_error("a 10-tuple", val)),
        }
    }
}

/// A tuple of 11 values.
#[derive(Clone, Debug, PartialEq, Eq, PartialOrd, Ord, Hash)]
pub struct tuple11<T1, T2, T3, T4, T5, T6, T7, T8, T9, T10, T11>(pub T1, pub T2, pub T3, pub T4, pub T5, pub T6, pub T7, pub T8, pub T9, pub T10, pub T11);

impl<T1: FromRecord, T2: FromRecord, T3: FromRecord, T4: FromRecord, T5: FromRecord, T6: FromRecord, T7: FromRecord, T8: FromRecord, T9: FromRecord, T10: FromRecord, T11: FromRecord> FromRecord for tuple11<T1, T2, T3, T4, T5, T6, T7, T8, T9, T10, T11> {
    open spec fn decodes(r: Record) -> bool {
        r matches Record::Tuple(args) && args@.len() == 11
            && T1::decodes(args@[0])
            && T2::decodes(args@[1])
            && T3::decodes(args@[2])
            && T4::decodes(args@[3])
            && T5::decodes(args@[4])
            && T6::decodes(args@[5])
            && T7::decodes(args@[6])
            && T8::decodes(args@[7])
            && T9::decodes(args@[8])
            && T10::decodes(args@[9])
            && T11::decodes(args@[10])
    }

    open spec fn decodes_to(r: Record, v: tuple11<T1, T2, T3, T4, T5, T6, T7, T8, T9, T10, T11>) -> bool {
        r matches Record::Tuple(args) && args@.len() == 11
            && T1::decodes_to(args@[0], v.0)
            && T2::decodes_to(args@[1], v.1)
            && T3::decodes_to(args@[2], v.2)
            && T4::decodes_to(args@[3], v.3)
            && T5::decodes_to(args@[4], v.4)
            && T6::decodes_to(args@[5], v.5)
            && T7::decodes_to(args@[6], v.6)
            && T8::decodes_to(args@[7], v.7)
            && T9::decodes_to(args@[8], v.8)
            && T10::decodes_to(args@[9], v.9)
            && T11::decodes_to(args@[10], v.10)
    }

    /// The error of the first element that does not decode, or the message
    /// for a record that is not a tuple of this length.
    open spec fn decode_error(r: Record) -> Seq<char> {
        match r {
            Record::Tuple(args) => if args@.len() != 11 {
                wrong_record_message("a 11-tuple"@, r)
            } else if !T1::decodes(args@[0]) {
                T1::decode_error(args@[0])
            } else if !T2::decodes(args@[1]) {
                T2::decode_error(args@[1])
            } else if !T3::decodes(args@[2]) {
                T3::decode_error(args@[2])
            } else if !T4::decodes(args@[3]) {
                T4::decode_error(args@[3])
            } else if !T5::decodes(args@[4]) {
                T5::decode_error(args@[4])
            } else if !T6::decodes(args@[5]) {
                T6::decode_error(args@[5])
            } else if !T7::decodes(args@[6]) {
                T7::decode_error(args@[6])
            } else if !T8::decodes(args@[7]) {
                T8::decode_error(args@[7])
            } else if !T9::decodes(args@[8]) {
                T9::decode_error(args@[8])
            } else if !T10::decodes(args@[9]) {
                T10::decode_error(args@[9])
            } else {
                T11::decode_error(args@[10])
            },
            _ => wrong_record_message("a 11-tuple"@, r),
        }
    }

    fn from_record(val: &Record) -> (res: Result<tuple11<T1, T2, T3, T4, T5, T6, T7, T8, T9, T10, T11>, String>) {
        match val {
            Record::Tuple(args) => {
                if args.len() != 11 {
                    return Err(wrong_record_error("a 11-tuple", val));
                }
                let x0 = match T1::from_record(&args[0]) {
                    Ok(v) => v,
                    Err(e) => return Err(e),
                };
                let x1 = match T2::from_record(&args[1]) {
                    Ok(v) => v,
                    Err(e) => return Err(e),
                };
                let x2 = match T3::from_record(&args[2]) {
                    Ok(v) => v,
                    Err(e) => return Err(e),
                };
                let x3 = match T4::from_record(&args[3]) {
                    Ok(v) => v,
                    Err(e) => return Err(e),
                };
                let x4 = match T5::from_record(&args[4]) {
                    Ok(v) => v,
                    Err(e) => return Err(e),
                };
                let x5 = match T6::from_record(&args[5]) {
                    Ok(v) => v,
                    Err(e) => return Err(e),
                };
                let x6 = match T7::from_record(&args[6]) {
                    Ok(v) => v,
                    Err(e) => return Err(e),
                };
                let x7 = match T8::from_record(&args[7]) {
                    Ok(v) => v,
                    Err(e) => return Err(e),
                };
                let x8 = match T9::from_record(&args[8]) {
                    Ok(v) => v,
                    Err(e) => return Err(e),
                };
                let x9 = match T10::from_record(&args[9]) {
                    Ok(v) => v,
                    Err(e) => return Err(e),
                };
                let x10 = match T11::from_record(&args[10]) {
                    Ok(v) => v,
                    Err(e) => return Err(e),
                };
                Ok(tuple11(x0, x1, x2, x3, x4, x5, x6, x7, x8, x9, x10))
            },
            _ => Err(wrong_record_error("a 11-tuple", val)),
        }
    }
}

/// A tuple of 12 values.
#[derive(Clone, Debug, PartialEq, Eq, PartialOrd, Ord, Hash)]
pub struct tuple12<T1, T2, T3, T4, T5, T6, T7, T8, T9, T10, T11, T12>(pub T1, pub T2, pub T3, pub T4, pub T5, pub T6, pub T7, pub T8, pub T9, pub T10, pub T11, pub T12);

impl<T1: FromRecord, T2: FromRecord, T3: FromRecord, T4: FromRecord, T5: FromRecord, T6: FromRecord, T7: FromRecord, T8: FromRecord, T9: FromRecord, T10: FromRecord, T11: FromRecord, T12: FromRecord> FromRecord for tuple12<T1, T2, T3, T4, T5, T6, T7, T8, T9, T10, T11, T12> {
    open spec fn decodes(r: Record) -> bool {
        r matches Record::Tuple(args) && args@.len() == 12
            && T1::decodes(args@[0])
            && T2::decodes(args@[1])
            && T3::decodes(args@[2])
            && T4::decodes(args@[3])
            && T5::decodes(args@[4])
            && T6::decodes(args@[5])
            && T7::decodes(args@[6])
            && T8::decodes(args@[7])
            && T9::decodes(args@[8])
            && T10::decodes(args@[9])
            && T11::decodes(args@[10])
            && T12::decodes(args@[11])
    }

    open spec fn decodes_to(r: Record, v: tuple12<T1, T2, T3, T4, T5, T6, T7, T8, T9, T10, T11, T12>) -> bool {
        r matches Record::Tuple(args) && args@.len() == 12
            && T1::decodes_to(args@[0], v.0)
            && T2::decodes_to(args@[1], v.1)
            && T3::decodes_to(args@[2], v.2)
            && T4::decodes_to(args@[3], v.3)
            && T5::decodes_to(args@[4], v.4)
            && T6::decodes_to(args@[5], v.5)
            && T7::decodes_to(args@[6], v.6)
            && T8::decodes_to(args@[7], v.7)
            && T9::decodes_to(args@[8], v.8)
            && T10::decodes_to(args@[9], v.9)
            && T11::decodes_to(args@[10], v.10)
            && T12::decodes_to(args@[11], v.11)
    }

    /// The error of the first element that does not decode, or the message
    /// for a record that is not a tuple of this length.
    open spec fn decode_error(r: Record) -> Seq<char> {
        match r {
            Record::Tuple(args) => if args@.len() != 12 {
                wrong_record_message("a 12-tuple"@, r)
            } else if !T1::decodes(args@[0]) {
                T1::decode_error(args@[0])
            } else if !T2::decodes(args@[1]) {
                T2::decode_error(args@[1])
            } else if !T3::decodes(args@[2]) {
                T3::decode_error(args@[2])
            } else if !T4::decodes(args@[3]) {
                T4::decode_error(args@[3])
            } else if !T5::decodes(args@[4]) {
                T5::decode_error(args@[4])
            } else if !T6::decodes(args@[5]) {
                T6::decode_error(args@[5])
            } else if !T7::decodes(args@[6]) {
                T7::decode_error(args@[6])
            } else if !T8::decodes(args@[7]) {
                T8::decode_error(args@[7])
            } else if !T9::decodes(args@[8]) {
                T9::decode_error(args@[8])
            } else if !T10::decodes(args@[9]) {
                T10::decode_error(args@[9])
            } else if !T11::decodes(args@[10]) {
                T11::decode_error(args@[10])
            } else {
                T12::decode_error(args@[11])
            },
            _ => wrong_record_message("a 12-tuple"@, r),
        }
    }

    fn from_record(val: &Record) -> (res: Result<tuple12<T1, T2, T3, T4, T5, T6, T7, T8, T9, T10, T11, T12>, String>) {
        match val {
            Record::Tuple(args) => {
                if args.len() != 12 {
                    return Err(wrong_record_error("a 12-tuple", val));
                }
                let x0 = match T1::from_record(&args[0]) {
                    Ok(v) => v,
                    Err(e) => return Err(e),
                };
                let x1 = match T2::from_record(&args[1]) {
                    Ok(v) => v,
                    Err(e) => return Err(e),
                };
                let x2 = match T3::from_record(&args[2]) {
                    Ok(v) => v,
                    Err(e) => return Err(e),
                };
                let x3 = match T4::from_record(&args[3]) {
                    Ok(v) => v,
                    Err(e) => return Err(e),
                };
                let x4 = match T5::from_record(&args[4]) {
                    Ok(v) => v,
                    Err(e) => return Err(e),
                };
                let x5 = match T6::from_record(&args[5]) {
                    Ok(v) => v,
                    Err(e) => return Err(e),
                };
                let x6 = match T7::from_record(&args[6]) {
                    Ok(v) => v,
                    Err(e) => return Err(e),
                };
                let x7 = match T8::from_record(&args[7]) {
                    Ok(v) => v,
                    Err(e) => return Err(e),
                };
                let x8 = match T9::from_record(&args[8]) {
                    Ok(v) => v,
                    Err(e) => return Err(e),
                };
                let x9 = match T10::from_record(&args[9]) {
                    Ok(v) => v,
                    Err(e) => return Err(e),
                };
                let x10 = match T11::from_record(&args[10]) {
                    Ok(v) => v,
                    Err(e) => return Err(e),
                };
                let x11 = match T12::from_record(&args[11]) {
                    Ok(v) => v,
                    Err(e) => return Err(e),
                };
                Ok(tuple12(x0, x1, x2, x3, x4, x5, x6, x7, x8, x9, x10, x11))
            },
            _ => Err(wrong_record_error("a 12-tuple", val)),
        }
    }
}

/// A tuple of 13 values.
#[derive(Clone, Debug, PartialEq, Eq, PartialOrd, Ord, Hash)]
pub struct tuple13<T1, T2, T3, T4, T5, T6, T7, T8, T9, T10, T11, T12, T13>(pub T1, pub T2, pub T3, pub T4, pub T5, pub T6, pub T7, pub T8, pub T9, pub T10, pub T11, pub T12, pub T13);

impl<T1: FromRecord, T2: FromRecord, T3: FromRecord, T4: FromRecord, T5: FromRecord, T6: FromRecord, T7: FromRecord, T8: FromRecord, T9: FromRecord, T10: FromRecord, T11: FromRecord, T12: FromRecord, T13: FromRecord> FromRecord for tuple13<T1, T2, T3, T4, T5, T6, T7, T8, T9, T10, T11, T12, T13> {
    open spec fn decodes(r: Record) -> bool {
        r matches Record::Tuple(args) && args@.len() == 13
            && T1::decodes(args@[0])
            && T2::decodes(args@[1])
            && T3::decodes(args@[2])
            && T4::decodes(args@[3])
            && T5::decodes(args@[4])
            && T6::decodes(args@[5])
            && T7::decodes(args@[6])
            && T8::decodes(args@[7])
            && T9::decodes(args@[8])
            && T10::decodes(args@[9])
            && T11::decodes(args@[10])
            && T12::decodes(args@[11])
            && T13::decodes(args@[12])
    }

    open spec fn decodes_to(r: Record, v: tuple13<T1, T2, T3, T4, T5, T6, T7, T8, T9, T10, T11, T12, T13>) -> bool {
        r matches Record::Tuple(args) && args@.len() == 13
            && T1::decodes_to(args@[0], v.0)
            && T2::decodes_to(args@[1], v.1)
            && T3::decodes_to(args@[2], v.2)
            && T4::decodes_to(args@[3], v.3)
            && T5::decodes_to(args@[4], v.4)
            && T6::decodes_to(args@[5], v.5)
            && T7::decodes_to(args@[6], v.6)
            && T8::decodes_to(args@[7], v.7)
            && T9::decodes_to(args@[8], v.8)
            && T10::decodes_to(args@[9], v.9)
            && T11::decodes_to(args@[10], v.10)
            && T12::decodes_to(args@[11], v.11)
            && T13::decodes_to(args@[12], v.12)
    }

    /// The error of the first element that does not decode, or the message
    /// for a record that is not a tuple of this length.
    open spec fn decode_error(r: Record) -> Seq<char> {
        match r {
            Record::Tuple(args) => if args@.len() != 13 {
                wrong_record_message("a 13-tuple"@, r)
            } else if !T1::decodes(args@[0]) {
                T1::decode_error(args@[0])
            } else if !T2::decodes(args@[1]) {
                T2::decode_error(args@[1])
            } else if !T3::decodes(args@[2]) {
                T3::decode_error(args@[2])
            } else if !T4::decodes(args@[3]) {
                T4::decode_error(args@[3])
            } else if !T5::decodes(args@[4]) {
                T5::decode_error(args@[4])
            } else if !T6::decodes(args@[5]) {
                T6::decode_error(args@[5])
            } else if !T7::decodes(args@[6]) {
                T7::decode_error(args@[6])
            } else if !T8::decodes(args@[7]) {
                T8::decode_error(args@[7])
            } else if !T9::decodes(args@[8]) {
                T9::decode_error(args@[8])
            } else if !T10::decodes(args@[9]) {
                T10::decode_error(args@[9])
            } else if !T11::decodes(args@[10]) {
                T11::decode_error(args@[10])
            } else if !T12::decodes(args@[11]) {
                T12::decode_error(args@[11])
            } else {
                T13::decode_error(args@[12])
            },
            _ => wrong_record_message("a 13-tuple"@, r),
        }
    }

    fn from_record(val: &Record) -> (res: Result<tuple13<T1, T2, T3, T4, T5, T6, T7, T8, T9, T10, T11, T12, T13>, String>) {
        match val {
            Record::Tuple(args) => {
                if args.len() != 13 {
                    return Err(wrong_record_error("a 13-tuple", val));
                }
                let x0 = match T1::from_record(&args[0]) {
                    Ok(v) => v,
                    Err(e) => return Err(e),
                };
                let x1 = match T2::from_record(&args[1]) {
                    Ok(v) => v,
                    Err(e) => return Err(e),
                };
                let x2 = match T3::from_record(&args[2]) {
                    Ok(v) => v,
                    Err(e) => return Err(e),
                };
                let x3 = match T4::from_record(&args[3]) {
                    Ok(v) => v,
                    Err(e) => return Err(e),
                };
                let x4 = match T5::from_record(&args[4]) {
                    Ok(v) => v,
                    Err(e) => return Err(e),
                };
                let x5 = match T6::from_record(&args[5]) {
                    Ok(v) => v,
                    Err(e) => return Err(e),
                };
                let x6 = match T7::from_record(&args[6]) {
                    Ok(v) => v,
                    Err(e) => return Err(e),
                };
                let x7 = match T8::from_record(&args[7]) {
                    Ok(v) => v,
                    Err(e) => return Err(e),
                };
                let x8 = match T9::from_record(&args[8]) {
                    Ok(v) => v,
                    Err(e) => return Err(e),
                };
                let x9 = match T10::from_record(&args[9]) {
                    Ok(v) => v,
                    Err(e) => return Err(e),
                };
                let x10 = match T11::from_record(&args[10]) {
                    Ok(v) => v,
                    Err(e) => return Err(e),
                };
                let x11 = match T12::from_record(&args[11]) {
                    Ok(v) => v,
                    Err(e) => return Err(e),
                };
                let x12 = match T13::from_record(&args[12]) {
                    Ok(v) => v,
                    Err(e) => return Err(e),
                };
                Ok(tuple13(x0, x1, x2, x3, x4, x5, x6, x7, x8, x9, x10, x11, x12))
            },
            _ => Err(wrong_record_error("a 13-tuple", val)),
        }
    }
}

/// A tuple of 14 values.
#[derive(Clone, Debug, PartialEq, Eq, PartialOrd, Ord, Hash)]
pub struct tuple14<T1, T2, T3, T4, T5, T6, T7, T8, T9, T10, T11, T12, T13, T14>(pub T1, pub T2, pub T3, pub T4, pub T5, pub T6, pub T7, pub T8, pub T9, pub T10, pub T11, pub T12, pub T13, pub T14);

impl<T1: FromRecord, T2: FromRecord, T3: FromRecord, T4: FromRecord, T5: FromRecord, T6: FromRecord, T7: FromRecord, T8: FromRecord, T9: FromRecord, T10: FromRecord, T11: FromRecord, T12: FromRecord, T13: FromRecord, T14: FromRecord> FromRecord for tuple14<T1, T2, T3, T4, T5, T6, T7, T8, T9, T10, T11, T12, T13, T14> {
    open spec fn decodes(r: Record) -> bool {
        r matches Record::Tuple(args) && args@.len() == 14
            && T1::decodes(args@[0])
            && T2::decodes(args@[1])
            && T3::decodes(args@[2])
            && T4::decodes(args@[3])
            && T5::decodes(args@[4])
            && T6::decodes(args@[5])
            && T7::decodes(args@[6])
            && T8::decodes(args@[7])
            && T9::decodes(args@[8])
            && T10::decodes(args@[9])
            && T11::decodes(args@[10])
            && T12::decodes(args@[11])
            && T13::decodes(args@[12])
            && T14::decodes(args@[13])
    }

    open spec fn decodes_to(r: Record, v: tuple14<T1, T2, T3, T4, T5, T6, T7, T8, T9, T10, T11, T12, T13, T14>) -> bool {
        r matches Record::Tuple(args) && args@.len() == 14
            && T1::decodes_to(args@[0], v.0)
            && T2::decodes_to(args@[1], v.1)
            && T3::decodes_to(args@[2], v.2)
            && T4::decodes_to(args@[3], v.3)
            && T5::decodes_to(args@[4], v.4)
            && T6::decodes_to(args@[5], v.5)
            && T7::decodes_to(args@[6], v.6)
            && T8::decodes_to(args@[7], v.7)
            && T9::decodes_to(args@[8], v.8)
            && T10::decodes_to(args@[9], v.9)
            && T11::decodes_to(args@[10], v.10)
            && T12::decodes_to(args@[11], v.11)
            && T13::decodes_to(args@[12], v.12)
            && T14::decodes_to(args@[13], v.13)
    }

    /// The error of the first element that does not decode, or the message
    /// for a record that is not a tuple of this length.
    open spec fn decode_error(r: Record) -> Seq<char> {
        match r {
            Record::Tuple(args) => if args@.len() != 14 {
                wrong_record_message("a 14-tuple"@, r)
            } else if !T1::decodes(args@[0]) {
                T1::decode_error(args@[0])
            } else if !T2::decodes(args@[1]) {
                T2::decode_error(args@[1])
            } else if !T3::decodes(args@[2]) {
                T3::decode_error(args@[2])
            } else if !T4::decodes(args@[3]) {
                T4::decode_error(args@[3])
            } else if !T5::decodes(args@[4]) {
                T5::decode_error(args@[4])
            } else if !T6::decodes(args@[5]) {
                T6::decode_error(args@[5])
            } else if !T7::decodes(args@[6]) {
                T7::decode_error(args@[6])
            } else if !T8::decodes(args@[7]) {
                T8::decode_error(args@[7])
            } else if !T9::decodes(args@[8]) {
                T9::decode_error(args@[8])
            } else if !T10::decodes(args@[9]) {
                T10::decode_error(args@[9])
            } else if !T11::decodes(args@[10]) {
                T11::decode_error(args@[10])
            } else if !T12::decodes(args@[11]) {
                T12::decode_error(args@[11])
            } else if !T13::decodes(args@[12]) {
                T13::decode_error(args@[12])
            } else {
                T14::decode_error(args@[13])
            },
            _ => wrong_record_message("a 14-tuple"@, r),
        }
    }

    fn from_record(val: &Record) -> (res: Result<tuple14<T1, T2, T3, T4, T5, T6, T7, T8, T9, T10, T11, T12, T13, T14>, String>) {
        match val {
            Record::Tuple(args) => {
                if args.len() != 14 {
                    return Err(wrong_record_error("a 14-tuple", val));
                }
                let x0 = match T1::from_record(&args[0]) {
                    Ok(v) => v,
                    Err(e) => return Err(e),
                };
                let x1 = match T2::from_record(&args[1]) {
                    Ok(v) => v,
                    Err(e) => return Err(e),
                };
                let x2 = match T3::from_record(&args[2]) {
                    Ok(v) => v,
                    Err(e) => return Err(e),
                };
                let x3 = match T4::from_record(&args[3]) {
                    Ok(v) => v,
                    Err(e) => return Err(e),
                };
                let x4 = match T5::from_record(&args[4]) {
                    Ok(v) => v,
                    Err(e) => return Err(e),
                };
                let x5 = match T6::from_record(&args[5]) {
                    Ok(v) => v,
                    Err(e) => return Err(e),
                };
                let x6 = match T7::from_record(&args[6]) {
                    Ok(v) => v,
                    Err(e) => return Err(e),
                };
                let x7 = match T8::from_record(&args[7]) {
                    Ok(v) => v,
                    Err(e) => return Err(e),
                };
                let x8 = match T9::from_record(&args[8]) {
                    Ok(v) => v,
                    Err(e) => return Err(e),
                };
                let x9 = match T10::from_record(&args[9]) {
                    Ok(v) => v,
                    Err(e) => return Err(e),
                };
                let x10 = match T11::from_record(&args[10]) {
                    Ok(v) => v,
                    Err(e) => return Err(e),
                };
                let x11 = match T12::from_record(&args[11]) {
                    Ok(v) => v,
                    Err(e) => return Err(e),
                };
                let x12 = match T13::from_record(&args[12]) {
                    Ok(v) => v,
                    Err(e) => return Err(e),
                };
                let x13 = match T14::from_record(&args[13]) {
                    Ok(v) => v,
                    Err(e) => return Err(e),
                };
                Ok(tuple14(x0, x1, x2, x3, x4, x5, x6, x7, x8, x9, x10, x11, x12, x13))
            },
            _ => Err(wrong_record_error("a 14-tuple", val)),
        }
    }
}

/// A tuple of 15 values.
#[derive(Clone, Debug, PartialEq, Eq, PartialOrd, Ord, Hash)]
pub struct tuple15<T1, T2, T3, T4, T5, T6, T7, T8, T9, T10, T11, T12, T13, T14, T15>(pub T1, pub T2, pub T3, pub T4, pub T5, pub T6, pub T7, pub T8, pub T9, pub T10, pub T11, pub T12, pub T13, pub T14, pub T15);

impl<T1: FromRecord, T2: FromRecord, T3: FromRecord, T4: FromRecord, T5: FromRecord, T6: FromRecord, T7: FromRecord, T8: FromRecord, T9: FromRecord, T10: FromRecord, T11: FromRecord, T12: FromRecord, T13: FromRecord, T14: FromRecord, T15: FromRecord> FromRecord for tuple15<T1, T2, T3, T4, T5, T6, T7, T8, T9, T10, T11, T12, T13, T14, T15> {
    open spec fn decodes(r: Record) -> bool {
        r matches Record::Tuple(args) && args@.len() == 15
            && T1::decodes(args@[0])
            && T2::decodes(args@[1])
            && T3::decodes(args@[2])
            && T4::decodes(args@[3])
            && T5::decodes(args@[4])
            && T6::decodes(args@[5])
            && T7::decodes(args@[6])
            && T8::decodes(args@[7])
            && T9::decodes(args@[8])
            && T10::decodes(args@[9])
            && T11::decodes(args@[10])
            && T12::decodes(args@[11])
            && T13::decodes(args@[12])
            && T14::decodes(args@[13])
            && T15::decodes(args@[14])
    }

    open spec fn decodes_to(r: Record, v: tuple15<T1, T2, T3, T4, T5, T6, T7, T8, T9, T10, T11, T12, T13, T14, T15>) -> bool {
        r matches Record::Tuple(args) && args@.len() == 15
            && T1::decodes_to(args@[0], v.0)
            && T2::decodes_to(args@[1], v.1)
            && T3::decodes_to(args@[2], v.2)
            && T4::decodes_to(args@[3], v.3)
            && T5::decodes_to(args@[4], v.4)
            && T6::decodes_to(args@[5], v.5)
            && T7::decodes_to(args@[6], v.6)
            && T8::decodes_to(args@[7], v.7)
            && T9::decodes_to(args@[8], v.8)
            && T10::decodes_to(args@[9], v.9)
            && T11::decodes_to(args@[10], v.10)
            && T12::decodes_to(args@[11], v.11)
            && T13::decodes_to(args@[12], v.12)
            && T14::decodes_to(args@[13], v.13)
            && T15::decodes_to(args@[14], v.14)
    }

    /// The error of the first element that does not decode, or the message
    /// for a record that is not a tuple of this length.
    open spec fn decode_error(r: Record) -> Seq<char> {
        match r {
            Record::Tuple(args) => if args@.len() != 15 {
                wrong_record_message("a 15-tuple"@, r)
            } else if !T1::decodes(args@[0]) {
                T1::decode_error(args@[0])
            } else if !T2::decodes(args@[1]) {
                T2::decode_error(args@[1])
            } else if !T3::decodes(args@[2]) {
                T3::decode_error(args@[2])
            } else if !T4::decodes(args@[3]) {
                T4::decode_error(args@[3])
            } else if !T5::decodes(args@[4]) {
                T5::decode_error(args@[4])
            } else if !T6::decodes(args@[5]) {
                T6::decode_error(args@[5])
            } else if !T7::decodes(args@[6]) {
                T7::decode_error(args@[6])
            } else if !T8::decodes(args@[7]) {
                T8::decode_error(args@[7])
            } else if !T9::decodes(args@[8]) {
                T9::decode_error(args@[8])
            } else if !T10::decodes(args@[9]) {
                T10::decode_error(args@[9])
            } else if !T11::decodes(args@[10]) {
                T11::decode_error(args@[10])
            } else if !T12::decodes(args@[11]) {
                T12::decode_error(args@[11])
            } else if !T13::decodes(args@[12]) {
                T13::decode_error(args@[12])
            } else if !T14::decodes(args@[13]) {
                T14::decode_error(args@[13])
            } else {
                T15::decode_error(args@[14])
            },
            _ => wrong_record_message("a 15-tuple"@, r),
        }
    }

    fn from_record(val: &Record) -> (res: Result<tuple15<T1, T2, T3, T4, T5, T6, T7, T8, T9, T10, T11, T12, T13, T14, T15>, String>) {
        match val {
            Record::Tuple(args) => {
                if args.len() != 15 {
                    return Err(wrong_record_error("a 15-tuple", val));
                }
                let x0 = match T1::from_record(&args[0]) {
                    Ok(v) => v,
                    Err(e) => return Err(e),
                };
                let x1 = match T2::from_record(&args[1]) {
                    Ok(v) => v,
                    Err(e) => return Err(e),
                };
                let x2 = match T3::from_record(&args[2]) {
                    Ok(v) => v,
                    Err(e) => return Err(e),
                };
                let x3 = match T4::from_record(&args[3]) {
                    Ok(v) => v,
                    Err(e) => return Err(e),
                };
                let x4 = match T5::from_record(&args[4]) {
                    Ok(v) => v,
                    Err(e) => return Err(e),
                };
                let x5 = match T6::from_record(&args[5]) {
                    Ok(v) => v,
                    Err(e) => return Err(e),
                };
                let x6 = match T7::from_record(&args[6]) {
                    Ok(v) => v,
                    Err(e) => return Err(e),
                };
                let x7 = match T8::from_record(&args[7]) {
                    Ok(v) => v,
                    Err(e) => return Err(e),
                };
                let x8 = match T9::from_record(&args[8]) {
                    Ok(v) => v,
                    Err(e) => return Err(e),
                };
                let x9 = match T10::from_record(&args[9]) {
                    Ok(v) => v,
                    Err(e) => return Err(e),
                };
                let x10 = match T11::from_record(&args[10]) {
                    Ok(v) => v,
                    Err(e) => return Err(e),
                };
                let x11 = match T12::from_record(&args[11]) {
                    Ok(v) => v,
                    Err(e) => return Err(e),
                };
                let x12 = match T13::from_record(&args[12]) {
                    Ok(v) => v,
                    Err(e) => return Err(e),
                };
                let x13 = match T14::from_record(&args[13]) {
                    Ok(v) => v,
                    Err(e) => return Err(e),
                };
                let x14 = match T15::from_record(&args[14]) {
                    Ok(v) => v,
                    Err(e) => return Err(e),
                };
                Ok(tuple15(x0, x1, x2, x3, x4, x5, x6, x7, x8, x9, x10, x11, x12, x13, x14))
            },
            _ => Err(wrong_record_error("a 15-tuple", val)),
        }
    }
}

/// A tuple of 16 values.
#[derive(Clone, Debug, PartialEq, Eq, PartialOrd, Ord, Hash)]
pub struct tuple16<T1, T2, T3, T4, T5, T6, T7, T8, T9, T10, T11, T12, T13, T14, T15, T16>(pub T1, pub T2, pub T3, pub T4, pub T5, pub T6, pub T7, pub T8, pub T9, pub T10, pub T11, pub T12, pub T13, pub T14, pub T15, pub T16);

impl<T1: FromRecord, T2: FromRecord, T3: FromRecord, T4: FromRecord, T5: FromRecord, T6: FromRecord, T7: FromRecord, T8: FromRecord, T9: FromRecord, T10: FromRecord, T11: FromRecord, T12: FromRecord, T13: FromRecord, T14: FromRecord, T15: FromRecord, T16: FromRecord> FromRecord for tuple16<T1, T2, T3, T4, T5, T6, T7, T8, T9, T10, T11, T12, T13, T14, T15, T16> {
    open spec fn decodes(r: Record) -> bool {
        r matches Record::Tuple(args) && args@.len() == 16
            && T1::decodes(args@[0])
            && T2::decodes(args@[1])
            && T3::decodes(args@[2])
            && T4::decodes(args@[3])
            && T5::decodes(args@[4])
            && T6::decodes(args@[5])
            && T7::decodes(args@[6])
            && T8::decodes(args@[7])
            && T9::decodes(args@[8])
            && T10::decodes(args@[9])
            && T11::decodes(args@[10])
            && T12::decodes(args@[11])
            && T13::decodes(args@[12])
            && T14::decodes(args@[13])
            && T15::decodes(args@[14])
            && T16::decodes(args@[15])
    }

    open spec fn decodes_to(r: Record, v: tuple16<T1, T2, T3, T4, T5, T6, T7, T8, T9, T10, T11, T12, T13, T14, T15, T16>) -> bool {
        r matches Record::Tuple(args) && args@.len() == 16
            && T1::decodes_to(args@[0], v.0)
            && T2::decodes_to(args@[1], v.1)
            && T3::decodes_to(args@[2], v.2)
            && T4::decodes_to(args@[3], v.3)
            && T5::decodes_to(args@[4], v.4)
            && T6::decodes_to(args@[5], v.5)
            && T7::decodes_to(args@[6], v.6)
            && T8::decodes_to(args@[7], v.7)
            && T9::decodes_to(args@[8], v.8)
            && T10::decodes_to(args@[9], v.9)
            && T11::decodes_to(args@[10], v.10)
            && T12::decodes_to(args@[11], v.11)
            && T13::decodes_to(args@[12], v.12)
            && T14::decodes_to(args@[13], v.13)
            && T15::decodes_to(args@[14], v.14)
            && T16::decodes_to(args@[15], v.15)
    }

    /// The error of the first element that does not decode, or the message
    /// for a record that is not a tuple of this length.
    open spec fn decode_error(r: Record) -> Seq<char> {
        match r {
            Record::Tuple(args) => if args@.len() != 16 {
                wrong_record_message("a 16-tuple"@, r)
            } else if !T1::decodes(args@[0]) {
                T1::decode_error(args@[0])
            } else if !T2::decodes(args@[1]) {
                T2::decode_error(args@[1])
            } else if !T3::decodes(args@[2]) {
                T3::decode_error(args@[2])
            } else if !T4::decodes(args@[3]) {
                T4::decode_error(args@[3])
            } else if !T5::decodes(args@[4]) {
                T5::decode_error(args@[4])
            } else if !T6::decodes(args@[5]) {
                T6::decode_error(args@[5])
            } else if !T7::decodes(args@[6]) {
                T7::decode_error(args@[6])
            } else if !T8::decodes(args@[7]) {
                T8::decode_error(args@[7])
            } else if !T9::decodes(args@[8]) {
                T9::decode_error(args@[8])
            } else if !T10::decodes(args@[9]) {
                T10::decode_error(args@[9])
            } else if !T11::decodes(args@[10]) {
                T11::decode_error(args@[10])
            } else if !T12::decodes(args@[11]) {
                T12::decode_error(args@[11])
            } else if !T13::decodes(args@[12]) {
                T13::decode_error(args@[12])
            } else if !T14::decodes(args@[13]) {
                T14::decode_error(args@[13])
            } else if !T15::decodes(args@[14]) {
                T15::decode_error(args@[14])
            } else {
                T16::decode_error(args@[15])
            },
            _ => wrong_record_message("a 16-tuple"@, r),
        }
    }

    fn from_record(val: &Record) -> (res: Result<tuple16<T1, T2, T3, T4, T5, T6, T7, T8, T9, T10, T11, T12, T13, T14, T15, T16>, String>) {
        match val {
            Record::Tuple(args) => {
                if args.len() != 16 {
                    return Err(wrong_record_error("a 16-tuple", val));
                }
                let x0 = match T1::from_record(&args[0]) {
                    Ok(v) => v,
                    Err(e) => return Err(e),
                };
                let x1 = match T2::from_record(&args[1]) {
                    Ok(v) => v,
                    Err(e) => return Err(e),
                };
                let x2 = match T3::from_record(&args[2]) {
                    Ok(v) => v,
                    Err(e) => return Err(e),
                };
                let x3 = match T4::from_record(&args[3]) {
                    Ok(v) => v,
                    Err(e) => return Err(e),
                };
                let x4 = match T5::from_record(&args[4]) {
                    Ok(v) => v,
                    Err(e) => return Err(e),
                };
                let x5 = match T6::from_record(&args[5]) {
                    Ok(v) => v,
                    Err(e) => return Err(e),
                };
                let x6 = match T7::from_record(&args[6]) {
                    Ok(v) => v,
                    Err(e) => return Err(e),
                };
                let x7 = match T8::from_record(&args[7]) {
                    Ok(v) => v,
                    Err(e) => return Err(e),
                };
                let x8 = match T9::from_record(&args[8]) {
                    Ok(v) => v,
                    Err(e) => return Err(e),
                };
                let x9 = match T10::from_record(&args[9]) {
                    Ok(v) => v,
                    Err(e) => return Err(e),
                };
                let x10 = match T11::from_record(&args[10]) {
                    Ok(v) => v,
                    Err(e) => return Err(e),
                };
                let x11 = match T12::from_record(&args[11]) {
                    Ok(v) => v,
                    Err(e) => return Err(e),
                };
                let x12 = match T13::from_record(&args[12]) {
                    Ok(v) => v,
                    Err(e) => return Err(e),
                };
                let x13 = match T14::from_record(&args[13]) {
                    Ok(v) => v,
                    Err(e) => return Err(e),
                };
                let x14 = match T15::from_record(&args[14]) {
                    Ok(v) => v,
                    Err(e) => return Err(e),
                };
                let x15 = match T16::from_record(&args[15]) {
                    Ok(v) => v,
                    Err(e) => return Err(e),
                };
                Ok(tuple16(x0, x1, x2, x3, x4, x5, x6, x7, x8, x9, x10, x11, x12, x13, x14, x15))
            },
            _ => Err(wrong_record_error("a 16-tuple", val)),
        }
    }
}

/// A tuple of 17 values.
#[derive(Clone, Debug, PartialEq, Eq, PartialOrd, Ord, Hash)]
pub struct tuple17<T1, T2, T3, T4, T5, T6, T7, T8, T9, T10, T11, T12, T13, T14, T15, T16, T17>(pub T1, pub T2, pub T3, pub T4, pub T5, pub T6, pub T7, pub T8, pub T9, pub T10, pub T11, pub T12, pub T13, pub T14, pub T15, pub T16, pub T17);

impl<T1: FromRecord, T2: FromRecord, T3: FromRecord, T4: FromRecord, T5: FromRecord, T6: FromRecord, T7: FromRecord, T8: FromRecord, T9: FromRecord, T10: FromRecord, T11: FromRecord, T12: FromRecord, T13: FromRecord, T14: FromRecord, T15: FromRecord, T16: FromRecord, T17: FromRecord> FromRecord for tuple17<T1, T2, T3, T4, T5, T6, T7, T8, T9, T10, T11, T12, T13, T14, T15, T16, T17> {
    open spec fn decodes(r: Record) -> bool {
        r matches Record::Tuple(args) && args@.len() == 17
            && T1::decodes(args@[0])
            && T2::decodes(args@[1])
            && T3::decodes(args@[2])
            && T4::decodes(args@[3])
            && T5::decodes(args@[4])
            && T6::decodes(args@[5])
            && T7::decodes(args@[6])
            && T8::decodes(args@[7])
            && T9::decodes(args@[8])
            && T10::decodes(args@[9])
            && T11::decodes(args@[10])
            && T12::decodes(args@[11])
            && T13::decodes(args@[12])
            && T14::decodes(args@[13])
            && T15::decodes(args@[14])
            && T16::decodes(args@[15])
            && T17::decodes(args@[16])
    }

    open spec fn decodes_to(r: Record, v: tuple17<T1, T2, T3, T4, T5, T6, T7, T8, T9, T10, T11, T12, T13, T14, T15, T16, T17>) -> bool {
        r matches Record::Tuple(args) && args@.len() == 17
            && T1::decodes_to(args@[0], v.0)
            && T2::decodes_to(args@[1], v.1)
            && T3::decodes_to(args@[2], v.2)
            && T4::decodes_to(args@[3], v.3)
            && T5::decodes_to(args@[4], v.4)
            && T6::decodes_to(args@[5], v.5)
            && T7::decodes_to(args@[6], v.6)
            && T8::decodes_to(args@[7], v.7)
            && T9::decodes_to(args@[8], v.8)
            && T10::decodes_to(args@[9], v.9)
            && T11::decodes_to(args@[10], v.10)
            && T12::decodes_to(args@[11], v.11)
            && T13::decodes_to(args@[12], v.12)
            && T14::decodes_to(args@[13], v.13)
            && T15::decodes_to(args@[14], v.14)
            && T16::decodes_to(args@[15], v.15)
            && T17::decodes_to(args@[16], v.16)
    }

    /// The error of the first element that does not decode, or the message
    /// for a record that is not a tuple of this length.
    open spec fn decode_error(r: Record) -> Seq<char> {
        match r {
            Record::Tuple(args) => if args@.len() != 17 {
                wrong_record_message("a 17-tuple"@, r)
            } else if !T1::decodes(args@[0]) {
                T1::decode_error(args@[0])
            } else if !T2::decodes(args@[1]) {
                T2::decode_error(args@[1])
            } else if !T3::decodes(args@[2]) {
                T3::decode_error(args@[2])
            } else if !T4::decodes(args@[3]) {
                T4::decode_error(args@[3])
            } else if !T5::decodes(args@[4]) {
                T5::decode_error(args@[4])
            } else if !T6::decodes(args@[5]) {
                T6::decode_error(args@[5])
            } else if !T7::decodes(args@[6]) {
                T7::decode_error(args@[6])
            } else if !T8::decodes(args@[7]) {
                T8::decode_error(args@[7])
            } else if !T9::decodes(args@[8]) {
                T9::decode_error(args@[8])
            } else if !T10::decodes(args@[9]) {
                T10::decode_error(args@[9])
            } else if !T11::decodes(args@[10]) {
                T11::decode_error(args@[10])
            } else if !T12::decodes(args@[11]) {
                T12::decode_error(args@[11])
            } else if !T13::decodes(args@[12]) {
                T13::decode_error(args@[12])
            } else if !T14::decodes(args@[13]) {
                T14::decode_error(args@[13])
            } else if !T15::decodes(args@[14]) {
                T15::decode_error(args@[14])
            } else if !T16::decodes(args@[15]) {
                T16::decode_error(args@[15])
            } else {
                T17::decode_error(args@[16])
            },
            _ => wrong_record_message("a 17-tuple"@, r),
        }
    }

    fn from_record(val: &Record) -> (res: Result<tuple17<T1, T2, T3, T4, T5, T6, T7, T8, T9, T10, T11, T12, T13, T14, T15, T16, T17>, String>) {
        match val {
            Record::Tuple(args) => {
                if args.len() != 17 {
                    return Err(wrong_record_error("a 17-tuple", val));
                }
                let x0 = match T1::from_record(&args[0]) {
                    Ok(v) => v,
                    Err(e) => return Err(e),
                };
                let x1 = match T2::from_record(&args[1]) {
                    Ok(v) => v,
                    Err(e) => return Err(e),
                };
                let x2 = match T3::from_record(&args[2]) {
                    Ok(v) => v,
                    Err(e) => return Err(e),
                };
                let x3 = match T4::from_record(&args[3]) {
                    Ok(v) => v,
                    Err(e) => return Err(e),
                };
                let x4 = match T5::from_record(&args[4]) {
                    Ok(v) => v,
                    Err(e) => return Err(e),
                };
                let x5 = match T6::from_record(&args[5]) {
                    Ok(v) => v,
                    Err(e) => return Err(e),
                };
                let x6 = match T7::from_record(&args[6]) {
                    Ok(v) => v,
                    Err(e) => return Err(e),
                };
                let x7 = match T8::from_record(&args[7]) {
                    Ok(v) => v,
                    Err(e) => return Err(e),
                };
                let x8 = match T9::from_record(&args[8]) {
                    Ok(v) => v,
                    Err(e) => return Err(e),
                };
                let x9 = match T10::from_record(&args[9]) {
                    Ok(v) => v,
                    Err(e) => return Err(e),
                };
                let x10 = match T11::from_record(&args[10]) {
                    Ok(v) => v,
                    Err(e) => return Err(e),
                };
                let x11 = match T12::from_record(&args[11]) {
                    Ok(v) => v,
                    Err(e) => return Err(e),
                };
                let x12 = match T13::from_record(&args[12]) {
                    Ok(v) => v,
                    Err(e) => return Err(e),
                };
                let x13 = match T14::from_record(&args[13]) {
                    Ok(v) => v,
                    Err(e) => return Err(e),
                };
                let x14 = match T15::from_record(&args[14]) {
                    Ok(v) => v,
                    Err(e) => return Err(e),
                };
                let x15 = match T16::from_record(&args[15]) {
                    Ok(v) => v,
                    Err(e) => return Err(e),
                };
                let x16 = match T17::from_record(&args[16]) {
                    Ok(v) => v,
                    Err(e) => return Err(e),
                };
                Ok(tuple17(x0, x1, x2, x3, x4, x5, x6, x7, x8, x9, x10, x11, x12, x13, x14, x15, x16))
            },
            _ => Err(wrong_record_error("a 17-tuple", val)),
        }
    }
}

/// A tuple of 18 values.
#[derive(Clone, Debug, PartialEq, Eq, PartialOrd, Ord, Hash)]
pub struct tuple18<T1, T2, T3, T4, T5, T6, T7, T8, T9, T10, T11, T12, T13, T14, T15, T16, T17, T18>(pub T1, pub T2, pub T3, pub T4, pub T5, pub T6, pub T7, pub T8, pub T9, pub T10, pub T11, pub T12, pub T13, pub T14, pub T15, pub T16, pub T17, pub T18);

impl<T1: FromRecord, T2: FromRecord, T3: FromRecord, T4: FromRecord, T5: FromRecord, T6: FromRecord, T7: FromRecord, T8: FromRecord, T9: FromRecord, T10: FromRecord, T11: FromRecord, T12: FromRecord, T13: FromRecord, T14: FromRecord, T15: FromRecord, T16: FromRecord, T17: FromRecord, T18: FromRecord> FromRecord for tuple18<T1, T2, T3, T4, T5, T6, T7, T8, T9, T10, T11, T12, T13, T14, T15, T16, T17, T18> {
    open spec fn decodes(r: Record) -> bool {
        r matches Record::Tuple(args) && args@.len() == 18
            && T1::decodes(args@[0])
            && T2::decodes(args@[1])
            && T3::decodes(args@[2])
            && T4::decodes(args@[3])
            && T5::decodes(args@[4])
            && T6::decodes(args@[5])
            && T7::decodes(args@[6])
            && T8::decodes(args@[7])
            && T9::decodes(args@[8])
            && T10::decodes(args@[9])
            && T11::decodes(args@[10])
            && T12::decodes(args@[11])
            && T13::decodes(args@[12])
            && T14::decodes(args@[13])
            && T15::decodes(args@[14])
            && T16::decodes(args@[15])
            && T17::decodes(args@[16])
            && T18::decodes(args@[17])
    }

    open spec fn decodes_to(r: Record, v: tuple18<T1, T2, T3, T4, T5, T6, T7, T8, T9, T10, T11, T12, T13, T14, T15, T16, T17, T18>) -> bool {
        r matches Record::Tuple(args) && args@.len() == 18
            && T1::decodes_to(args@[0], v.0)
            && T2::decodes_to(args@[1], v.1)
            && T3::decodes_to(args@[2], v.2)
            && T4::decodes_to(args@[3], v.3)
            && T5::decodes_to(args@[4], v.4)
            && T6::decodes_to(args@[5], v.5)
            && T7::decodes_to(args@[6], v.6)
            && T8::decodes_to(args@[7], v.7)
            && T9::decodes_to(args@[8], v.8)
            && T10::decodes_to(args@[9], v.9)
            && T11::decodes_to(args@[10], v.10)
            && T12::decodes_to(args@[11], v.11)
            && T13::decodes_to(args@[12], v.12)
            && T14::decodes_to(args@[13], v.13)
            && T15::decodes_to(args@[14], v.14)
            && T16::decodes_to(args@[15], v.15)
            && T17::decodes_to(args@[16], v.16)
            && T18::decodes_to(args@[17], v.17)
    }

    /// The error of the first element that does not decode, or the message
    /// for a record that is not a tuple of this length.
    open spec fn decode_error(r: Record) -> Seq<char> {
        match r {
            Record::Tuple(args) => if args@.len() != 18 {
                wrong_record_message("a 18-tuple"@, r)
            } else if !T1::decodes(args@[0]) {
                T1::decode_error(args@[0])
            } else if !T2::decodes(args@[1]) {
                T2::decode_error(args@[1])
            } else if !T3::decodes(args@[2]) {
                T3::decode_error(args@[2])
            } else if !T4::decodes(args@[3]) {
                T4::decode_error(args@[3])
            } else if !T5::decodes(args@[4]) {
                T5::decode_error(args@[4])
            } else if !T6::decodes(args@[5]) {
                T6::decode_error(args@[5])
            } else if !T7::decodes(args@[6]) {
                T7::decode_error(args@[6])
            } else if !T8::decodes(args@[7]) {
                T8::decode_error(args@[7])
            } else if !T9::decodes(args@[8]) {
                T9::decode_error(args@[8])
            } else if !T10::decodes(args@[9]) {
                T10::decode_error(args@[9])
            } else if !T11::decodes(args@[10]) {
                T11::decode_error(args@[10])
            } else if !T12::decodes(args@[11]) {
                T12::decode_error(args@[11])
            } else if !T13::decodes(args@[12]) {
                T13::decode_error(args@[12])
            } else if !T14::decodes(args@[13]) {
                T14::decode_error(args@[13])
            } else if !T15::decodes(args@[14]) {
                T15::decode_error(args@[14])
            } else if !T16::decodes(args@[15]) {
                T16::decode_error(args@[15])
            } else if !T17::decodes(args@[16]) {
                T17::decode_error(args@[16])
            } else {
                T18::decode_error(args@[17])
            },
            _ => wrong_record_message("a 18-tuple"@, r),
        }
    }

    fn from_record(val: &Record) -> (res: Result<tuple18<T1, T2, T3, T4, T5, T6, T7, T8, T9, T10, T11, T12, T13, T14, T15, T16, T17, T18>, String>) {
        match val {
            Record::Tuple(args) => {
                if args.len() != 18 {
                    return Err(wrong_record_error("a 18-tuple", val));
                }
                let x0 = match T1::from_record(&args[0]) {
                    Ok(v) => v,
                    Err(e) => return Err(e),
                };
                let x1 = match T2::from_record(&args[1]) {
                    Ok(v) => v,
                    Err(e) => return Err(e),
                };
                let x2 = match T3::from_record(&args[2]) {
                    Ok(v) => v,
                    Err(e) => return Err(e),
                };
                let x3 = match T4::from_record(&args[3]) {
                    Ok(v) => v,
                    Err(e) => return Err(e),
                };
                let x4 = match T5::from_record(&args[4]) {
                    Ok(v) => v,
                    Err(e) => return Err(e),
                };
                let x5 = match T6::from_record(&args[5]) {
                    Ok(v) => v,
                    Err(e) => return Err(e),
                };
                let x6 = match T7::from_record(&args[6]) {
                    Ok(v) => v,
                    Err(e) => return Err(e),
                };
                let x7 = match T8::from_record(&args[7]) {
                    Ok(v) => v,
                    Err(e) => return Err(e),
                };
                let x8 = match T9::from_record(&args[8]) {
                    Ok(v) => v,
                    Err(e) => return Err(e),
                };
                let x9 = match T10::from_record(&args[9]) {
                    Ok(v) => v,
                    Err(e) => return Err(e),
                };
                let x10 = match T11::from_record(&args[10]) {
                    Ok(v) => v,
                    Err(e) => return Err(e),
                };
                let x11 = match T12::from_record(&args[11]) {
                    Ok(v) => v,
                    Err(e) => return Err(e),
                };
                let x12 = match T13::from_record(&args[12]) {
                    Ok(v) => v,
                    Err(e) => return Err(e),
                };
                let x13 = match T14::from_record(&args[13]) {
                    Ok(v) => v,
                    Err(e) => return Err(e),
                };
                let x14 = match T15::from_record(&args[14]) {
                    Ok(v) => v,
                    Err(e) => return Err(e),
                };
                let x15 = match T16::from_record(&args[15]) {
                    Ok(v) => v,
                    Err(e) => return Err(e),
                };
                let x16 = match T17::from_record(&args[16]) {
                    Ok(v) => v,
                    Err(e) => return Err(e),
                };
                let x17 = match T18::from_record(&args[17]) {
                    Ok(v) => v,
                    Err(e) => return Err(e),
                };
                Ok(tuple18(x0, x1, x2, x3, x4, x5, x6, x7, x8, x9, x10, x11, x12, x13, x14, x15, x16, x17))
            },
            _ => Err(wrong_record_error("a 18-tuple", val)),
        }
    }
}

/// A tuple of 19 values.
#[derive(Clone, Debug, PartialEq, Eq, PartialOrd, Ord, Hash)]
pub struct tuple19<T1, T2, T3, T4, T5, T6, T7, T8, T9, T10, T11, T12, T13, T14, T15, T16, T17, T18, T19>(pub T1, pub T2, pub T3, pub T4, pub T5, pub T6, pub T7, pub T8, pub T9, pub T10, pub T11, pub T12, pub T13, pub T14, pub T15, pub T16, pub T17, pub T18, pub T19);

impl<T1: FromRecord, T2: FromRecord, T3: FromRecord, T4: FromRecord, T5: FromRecord, T6: FromRecord, T7: FromRecord, T8: FromRecord, T9: FromRecord, T10: FromRecord, T11: FromRecord, T12: FromRecord, T13: FromRecord, T14: FromRecord, T15: FromRecord, T16: FromRecord, T17: FromRecord, T18: FromRecord, T19: FromRecord> FromRecord for tuple19<T1, T2, T3, T4, T5, T6, T7, T8, T9, T10, T11, T12, T13, T14, T15, T16, T17, T18, T19> {
    open spec fn decodes(r: Record) -> bool {
        r matches Record::Tuple(args) && args@.len() == 19
            && T1::decodes(args@[0])
            && T2::decodes(args@[1])
            && T3::decodes(args@[2])
            && T4::decodes(args@[3])
            && T5::decodes(args@[4])
            && T6::decodes(args@[5])
            && T7::decodes(args@[6])
            && T8::decodes(args@[7])
            && T9::decodes(args@[8])
            && T10::decodes(args@[9])
            && T11::decodes(args@[10])
            && T12::decodes(args@[11])
            && T13::decodes(args@[12])
            && T14::decodes(args@[13])
            && T15::decodes(args@[14])
            && T16::decodes(args@[15])
            && T17::decodes(args@[16])
            && T18::decodes(args@[17])
            && T19::decodes(args@[18])
    }

    open spec fn decodes_to(r: Record, v: tuple19<T1, T2, T3, T4, T5, T6, T7, T8, T9, T10, T11, T12, T13, T14, T15, T16, T17, T18, T19>) -> bool {
        r matches Record::Tuple(args) && args@.len() == 19
            && T1::decodes_to(args@[0], v.0)
            && T2::decodes_to(args@[1], v.1)
            && T3::decodes_to(args@[2], v.2)
            && T4::decodes_to(args@[3], v.3)
            && T5::decodes_to(args@[4], v.4)
            && T6::decodes_to(args@[5], v.5)
            && T7::decodes_to(args@[6], v.6)
            && T8::decodes_to(args@[7], v.7)
            && T9::decodes_to(args@[8], v.8)
            && T10::decodes_to(args@[9], v.9)
            && T11::decodes_to(args@[10], v.10)
            && T12::decodes_to(args@[11], v.11)
            && T13::decodes_to(args@[12], v.12)
            && T14::decodes_to(args@[13], v.13)
            && T15::decodes_to(args@[14], v.14)
            && T16::decodes_to(args@[15], v.15)
            && T17::decodes_to(args@[16], v.16)
            && T18::decodes_to(args@[17], v.17)
            && T19::decodes_to(args@[18], v.18)
    }

    /// The error of the first element that does not decode, or the message
    /// for a record that is not a tuple of this length.
    open spec fn decode_error(r: Record) -> Seq<char> {
        match r {
            Record::Tuple(args) => if args@.len() != 19 {
                wrong_record_message("a 19-tuple"@, r)
            } else if !T1::decodes(args@[0]) {
                T1::decode_error(args@[0])
            } else if !T2::decodes(args@[1]) {
                T2::decode_error(args@[1])
            } else if !T3::decodes(args@[2]) {
                T3::decode_error(args@[2])
            } else if !T4::decodes(args@[3]) {
                T4::decode_error(args@[3])
            } else if !T5::decodes(args@[4]) {
                T5::decode_error(args@[4])
            } else if !T6::decodes(args@[5]) {
                T6::decode_error(args@[5])
            } else if !T7::decodes(args@[6]) {
                T7::decode_error(args@[6])
            } else if !T8::decodes(args@[7]) {
                T8::decode_error(args@[7])
            } else if !T9::decodes(args@[8]) {
                T9::decode_error(args@[8])
            } else if !T10::decodes(args@[9]) {
                T10::decode_error(args@[9])
            } else if !T11::decodes(args@[10]) {
                T11::decode_error(args@[10])
            } else if !T12::decodes(args@[11]) {
                T12::decode_error(args@[11])
            } else if !T13::decodes(args@[12]) {
                T13::decode_error(args@[12])
            } else if !T14::decodes(args@[13]) {
                T14::decode_error(args@[13])
            } else if !T15::decodes(args@[14]) {
                T15::decode_error(args@[14])
            } else if !T16::decodes(args@[15]) {
                T16::decode_error(args@[15])
            } else if !T17::decodes(args@[16]) {
                T17::decode_error(args@[16])
            } else if !T18::decodes(args@[17]) {
                T18::decode_error(args@[17])
            } else {
                T19::decode_error(args@[18])
            },
            _ => wrong_record_message("a 19-tuple"@, r),
        }
    }

    fn from_record(val: &Record) -> (res: Result<tuple19<T1, T2, T3, T4, T5, T6, T7, T8, T9, T10, T11, T12, T13, T14, T15, T16, T17, T18, T19>, String>) {
        match val {
            Record::Tuple(args) => {
                if args.len() != 19 {
                    return Err(wrong_record_error("a 19-tuple", val));
                }
                let x0 = match T1::from_record(&args[0]) {
                    Ok(v) => v,
                    Err(e) => return Err(e),
                };
                let x1 = match T2::from_record(&args[1]) {
                    Ok(v) => v,
                    Err(e) => return Err(e),
                };
                let x2 = match T3::from_record(&args[2]) {
                    Ok(v) => v,
                    Err(e) => return Err(e),
                };
                let x3 = match T4::from_record(&args[3]) {
                    Ok(v) => v,
                    Err(e) => return Err(e),
                };
                let x4 = match T5::from_record(&args[4]) {
                    Ok(v) => v,
                    Err(e) => return Err(e),
                };
                let x5 = match T6::from_record(&args[5]) {
                    Ok(v) => v,
                    Err(e) => return Err(e),
                };
                let x6 = match T7::from_record(&args[6]) {
                    Ok(v) => v,
                    Err(e) => return Err(e),
                };
                let x7 = match T8::from_record(&args[7]) {
                    Ok(v) => v,
                    Err(e) => return Err(e),
                };
                let x8 = match T9::from_record(&args[8]) {
                    Ok(v) => v,
                    Err(e) => return Err(e),
                };
                let x9 = match T10::from_record(&args[9]) {
                    Ok(v) => v,
                    Err(e) => return Err(e),
                };
                let x10 = match T11::from_record(&args[10]) {
                    Ok(v) => v,
                    Err(e) => return Err(e),
                };
                let x11 = match T12::from_record(&args[11]) {
                    Ok(v) => v,
                    Err(e) => return Err(e),
                };
                let x12 = match T13::from_record(&args[12]) {
                    Ok(v) => v,
                    Err(e) => return Err(e),
                };
                let x13 = match T14::from_record(&args[13]) {
                    Ok(v) => v,
                    Err(e) => return Err(e),
                };
                let x14 = match T15::from_record(&args[14]) {
                    Ok(v) => v,
                    Err(e) => return Err(e),
                };
                let x15 = match T16::from_record(&args[15]) {
                    Ok(v) => v,
                    Err(e) => return Err(e),
                };
                let x16 = match T17::from_record(&args[16]) {
                    Ok(v) => v,
                    Err(e) => return Err(e),
                };
                let x17 = match T18::from_record(&args[17]) {
                    Ok(v) => v,
                    Err(e) => return Err(e),
                };
                let x18 = match T19::from_record(&args[18]) {
                    Ok(v) => v,
                    Err(e) => return Err(e),
                };
                Ok(tuple19(x0, x1, x2, x3, x4, x5, x6, x7, x8, x9, x10, x11, x12, x13, x14, x15, x16, x17, x18))
            },
            _ => Err(wrong_record_error("a 19-tuple", val)),
        }
    }
}

/// A tuple of 20 values.
#[derive(Clone, Debug, PartialEq, Eq, PartialOrd, Ord, Hash)]
pub struct tuple20<T1, T2, T3, T4, T5, T6, T7, T8, T9, T10, T11, T12, T13, T14, T15, T16, T17, T18, T19, T20>(pub T1, pub T2, pub T3, pub T4, pub T5, pub T6, pub T7, pub T8, pub T9, pub T10, pub T11, pub T12, pub T13, pub T14, pub T15, pub T16, pub T17, pub T18, pub T19, pub T20);

impl<T1: FromRecord, T2: FromRecord, T3: FromRecord, T4: FromRecord, T5: FromRecord, T6: FromRecord, T7: FromRecord, T8: FromRecord, T9: FromRecord, T10: FromRecord, T11: FromRecord, T12: FromRecord, T13: FromRecord, T14: FromRecord, T15: FromRecord, T16: FromRecord, T17: FromRecord, T18: FromRecord, T19: FromRecord, T20: FromRecord> FromRecord for tuple20<T1, T2, T3, T4, T5, T6, T7, T8, T9, T10, T11, T12, T13, T14, T15, T16, T17, T18, T19, T20> {
    open spec fn decodes(r: Record) -> bool {
        r matches Record::Tuple(args) && args@.len() == 20
            && T1::decodes(args@[0])
            && T2::decodes(args@[1])
            && T3::decodes(args@[2])
            && T4::decodes(args@[3])
            && T5::decodes(args@[4])
            && T6::decodes(args@[5])
            && T7::decodes(args@[6])
            && T8::decodes(args@[7])
            && T9::decodes(args@[8])
            && T10::decodes(args@[9])
            && T11::decodes(args@[10])
            && T12::decodes(args@[11])
            && T13::decodes(args@[12])
            && T14::decodes(args@[13])
            && T15::decodes(args@[14])
            && T16::decodes(args@[15])
            && T17::decodes(args@[16])
            && T18::decodes(args@[17])
            && T19::decodes(args@[18])
            && T20::decodes(args@[19])
    }

    open spec fn decodes_to(r: Record, v: tuple20<T1, T2, T3, T4, T5, T6, T7, T8, T9, T10, T11, T12, T13, T14, T15, T16, T17, T18, T19, T20>) -> bool {
        r matches Record::Tuple(args) && args@.len() == 20
            && T1::decodes_to(args@[0], v.0)
            && T2::decodes_to(args@[1], v.1)
            && T3::decodes_to(args@[2], v.2)
            && T4::decodes_to(args@[3], v.3)
            && T5::decodes_to(args@[4], v.4)
            && T6::decodes_to(args@[5], v.5)
            && T7::decodes_to(args@[6], v.6)
            && T8::decodes_to(args@[7], v.7)
            && T9::decodes_to(args@[8], v.8)
            && T10::decodes_to(args@[9], v.9)
            && T11::decodes_to(args@[10], v.10)
            && T12::decodes_to(args@[11], v.11)
            && T13::decodes_to(args@[12], v.12)
            && T14::decodes_to(args@[13], v.13)
            && T15::decodes_to(args@[14], v.14)
            && T16::decodes_to(args@[15], v.15)
            && T17::decodes_to(args@[16], v.16)
            && T18::decodes_to(args@[17], v.17)
            && T19::decodes_to(args@[18], v.18)
            && T20::decodes_to(args@[19], v.19)
    }

    /// The error of the first element that does not decode, or the message
    /// for a record that is not a tuple of this length.
    open spec fn decode_error(r: Record) -> Seq<char> {
        match r {
            Record::Tuple(args) => if args@.len() != 20 {
                wrong_record_message("a 20-tuple"@, r)
            } else if !T1::decodes(args@[0]) {
                T1::decode_error(args@[0])
            } else if !T2::decodes(args@[1]) {
                T2::decode_error(args@[1])
            } else if !T3::decodes(args@[2]) {
                T3::decode_error(args@[2])
            } else if !T4::decodes(args@[3]) {
                T4::decode_error(args@[3])
            } else if !T5::decodes(args@[4]) {
                T5::decode_error(args@[4])
            } else if !T6::decodes(args@[5]) {
                T6::decode_error(args@[5])
            } else if !T7::decodes(args@[6]) {
                T7::decode_error(args@[6])
            } else if !T8::decodes(args@[7]) {
                T8::decode_error(args@[7])
            } else if !T9::decodes(args@[8]) {
                T9::decode_error(args@[8])
            } else if !T10::decodes(args@[9]) {
                T10::decode_error(args@[9])
            } else if !T11::decodes(args@[10]) {
                T11::decode_error(args@[10])
            } else if !T12::decodes(args@[11]) {
                T12::decode_error(args@[11])
            } else if !T13::decodes(args@[12]) {
                T13::decode_error(args@[12])
            } else if !T14::decodes(args@[13]) {
                T14::decode_error(args@[13])
            } else if !T15::decodes(args@[14]) {
                T15::decode_error(args@[14])
            } else if !T16::decodes(args@[15]) {
                T16::decode_error(args@[15])
            } else if !T17::decodes(args@[16]) {
                T17::decode_error(args@[16])
            } else if !T18::decodes(args@[17]) {
                T18::decode_error(args@[17])
            } else if !T19::decodes(args@[18]) {
                T19::decode_error(args@[18])
            } else {
                T20::decode_error(args@[19])
            },
            _ => wrong_record_message("a 20-tuple"@, r),
        }
    }

    fn from_record(val: &Record) -> (res: Result<tuple20<T1, T2, T3, T4, T5, T6, T7, T8, T9, T10, T11, T12, T13, T14, T15, T16, T17, T18, T19, T20>, String>) {
        match val {
            Record::Tuple(args) => {
                if args.len() != 20 {
                    return Err(wrong_record_error("a 20-tuple", val));
                }
                let x0 = match T1::from_record(&args[0]) {
                    Ok(v) => v,
                    Err(e) => return Err(e),
                };
                let x1 = match T2::from_record(&args[1]) {
                    Ok(v) => v,
                    Err(e) => return Err(e),
                };
                let x2 = match T3::from_record(&args[2]) {
                    Ok(v) => v,
                    Err(e) => return Err(e),
                };
                let x3 = match T4::from_record(&args[3]) {
                    Ok(v) => v,
                    Err(e) => return Err(e),
                };
                let x4 = match T5::from_record(&args[4]) {
                    Ok(v) => v,
                    Err(e) => return Err(e),
                };
                let x5 = match T6::from_record(&args[5]) {
                    Ok(v) => v,
                    Err(e) => return Err(e),
                };
                let x6 = match T7::from_record(&args[6]) {
                    Ok(v) => v,
                    Err(e) => return Err(e),
                };
                let x7 = match T8::from_record(&args[7]) {
                    Ok(v) => v,
                    Err(e) => return Err(e),
                };
                let x8 = match T9::from_record(&args[8]) {
                    Ok(v) => v,
                    Err(e) => return Err(e),
                };
                let x9 = match T10::from_record(&args[9]) {
                    Ok(v) => v,
                    Err(e) => return Err(e),
                };
                let x10 = match T11::from_record(&args[10]) {
                    Ok(v) => v,
                    Err(e) => return Err(e),
                };
                let x11 = match T12::from_record(&args[11]) {
                    Ok(v) => v,
                    Err(e) => return Err(e),
                };
                let x12 = match T13::from_record(&args[12]) {
                    Ok(v) => v,
                    Err(e) => return Err(e),
                };
                let x13 = match T14::from_record(&args[13]) {
                    Ok(v) => v,
                    Err(e) => return Err(e),
                };
                let x14 = match T15::from_record(&args[14]) {
                    Ok(v) => v,
                    Err(e) => return Err(e),
                };
                let x15 = match T16::from_record(&args[15]) {
                    Ok(v) => v,
                    Err(e) => return Err(e),
                };
                let x16 = match T17::from_record(&args[16]) {
                    Ok(v) => v,
                    Err(e) => return Err(e),
                };
                let x17 = match T18::from_record(&args[17]) {
                    Ok(v) => v,
                    Err(e) => return Err(e),
                };
                let x18 = match T19::from_record(&args[18]) {
                    Ok(v) => v,
                    Err(e) => return Err(e),
                };
                let x19 = match T20::from_record(&args[19]) {
                    Ok(v) => v,
                    Err(e) => return Err(e),
                };
                Ok(tuple20(x0, x1, x2, x3, x4, x5, x6, x7, x8, x9, x10, x11, x12, x13, x14, x15, x16, x17, x18, x19))
            },
            _ => Err(wrong_record_error("a 20-tuple", val)),
        }
    }
}

} // verus!
