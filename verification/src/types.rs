//! The typed values of the `redistributionspan` program: the records of its
//! relations and the values that flow between its rules.
use vstd::prelude::*;
use crate::set::std_Set;
use crate::record::{
    FromRecord, Record, str_eq, arg_extract, field_decodes, field_decodes_to, field_error,
    unknown_constructor_error, not_a_struct_error, wrong_record_error,
    unknown_constructor_message, not_a_struct_message, wrong_record_message,
};

verus! {

/// Identifies an entity.
pub type redistributionspan_entid_t = u32;

/// Identifies a transport node.
pub type redistributionspan_tnid_t = u16;

/// Transport node `tn` is bound to entity `entity`.
#[derive(PartialEq, Eq, PartialOrd, Ord, Hash, Default)]
pub struct redistributionspan_DdlogBinding {
    pub tn: redistributionspan_tnid_t,
    pub entity: redistributionspan_entid_t,
}

/// A dependency between entities: the span of `child` takes in the span of
/// `parent`.
#[derive(PartialEq, Eq, PartialOrd, Ord, Hash, Default)]
pub struct redistributionspan_DdlogDependency {
    pub parent: redistributionspan_entid_t,
    pub child: redistributionspan_entid_t,
}

/// Entity `id` exists.
#[derive(PartialEq, Eq, PartialOrd, Ord, Hash, Default)]
pub struct redistributionspan_DdlogNode {
    pub id: redistributionspan_entid_t,
}

/// The transport nodes `tns` that the span of entity `entity` reaches.
#[derive(PartialEq, Eq, PartialOrd, Ord, Hash, Default)]
pub struct redistributionspan_Span {
    pub entity: redistributionspan_entid_t,
    pub tns: std_Set<redistributionspan_tnid_t>,
}

/// The empty tuple.
#[derive(Debug, PartialEq, Eq, PartialOrd, Ord, Hash)]
pub struct tuple0;

impl Clone for redistributionspan_DdlogBinding {
    fn clone(&self) -> (res: Self)
        ensures
            res == *self,
    {
        redistributionspan_DdlogBinding { tn: self.tn, entity: self.entity }
    }
}

impl Clone for redistributionspan_DdlogDependency {
    fn clone(&self) -> (res: Self)
        ensures
            res == *self,
    {
        redistributionspan_DdlogDependency { parent: self.parent, child: self.child }
    }
}

impl Clone for redistributionspan_DdlogNode {
    fn clone(&self) -> (res: Self)
        ensures
            res == *self,
    {
        redistributionspan_DdlogNode { id: self.id }
    }
}

impl Clone for redistributionspan_Span {
    fn clone(&self) -> (res: Self)
        ensures
            res.entity == self.entity,
            res.tns@ == self.tns@,
    {
        redistributionspan_Span { entity: self.entity, tns: self.tns.clone() }
    }
}

impl Clone for tuple0 {
    fn clone(&self) -> (res: Self)
        ensures
            res == *self,
    {
        tuple0
    }
}

/// The values that the relations and the rules of the program hold.
#[derive(PartialEq, Eq, PartialOrd, Ord, Hash)]
pub enum Value {
    bit32(u32),
    tuple0__(()),
    tuple2__bit32_bit16((u32, u16)),
    tuple2__bit32_bit32((u32, u32)),
    tuple2__bit32_std_Set__bit16(Box<(u32, std_Set<u16>)>),
    tuple3__bit32_std_Set__bit16_bit32(Box<(u32, std_Set<u16>, u32)>),
    tuple2__std_Set__bit16_bit32(Box<(std_Set<u16>, u32)>),
    redistributionspan_DdlogBinding(redistributionspan_DdlogBinding),
    redistributionspan_DdlogDependency(redistributionspan_DdlogDependency),
    redistributionspan_DdlogNode(redistributionspan_DdlogNode),
    redistributionspan_Span(Box<redistributionspan_Span>),
}

/// `a` and `b` are the same variant and hold the same numbers and sets.
pub open spec fn same_value(a: Value, b: Value) -> bool {
    match (a, b) {
        (Value::tuple2__bit32_std_Set__bit16(p), Value::tuple2__bit32_std_Set__bit16(q)) => p.0
            == q.0 && p.1@ == q.1@,
        (
            Value::tuple3__bit32_std_Set__bit16_bit32(p),
            Value::tuple3__bit32_std_Set__bit16_bit32(q),
        ) => p.0 == q.0 && p.1@ == q.1@ && p.2 == q.2,
        (Value::tuple2__std_Set__bit16_bit32(p), Value::tuple2__std_Set__bit16_bit32(q)) => p.0@
            == q.0@ && p.1 == q.1,
        (Value::redistributionspan_Span(p), Value::redistributionspan_Span(q)) => p.entity
            == q.entity && p.tns@ == q.tns@,
        (Value::tuple2__bit32_std_Set__bit16(_), _) => false,
        (Value::tuple3__bit32_std_Set__bit16_bit32(_), _) => false,
        (Value::tuple2__std_Set__bit16_bit32(_), _) => false,
        (Value::redistributionspan_Span(_), _) => false,
        _ => a == b,
    }
}

impl Clone for Value {
    /// The same variant, with clones of what it holds.
    fn clone(&self) -> (res: Self)
        ensures
            same_value(*self, res),
    {
        match self {
            Value::bit32(x) => Value::bit32(*x),
            Value::tuple0__(_) => Value::tuple0__(()),
            Value::tuple2__bit32_bit16(p) => Value::tuple2__bit32_bit16(*p),
            Value::tuple2__bit32_bit32(p) => Value::tuple2__bit32_bit32(*p),
            Value::tuple2__bit32_std_Set__bit16(p) => Value::tuple2__bit32_std_Set__bit16(
                Box::new((p.0, p.1.clone())),
            ),
            Value::tuple3__bit32_std_Set__bit16_bit32(t) => Value::tuple3__bit32_std_Set__bit16_bit32(
                Box::new((t.0, t.1.clone(), t.2)),
            ),
            Value::tuple2__std_Set__bit16_bit32(p) => Value::tuple2__std_Set__bit16_bit32(
                Box::new((p.0.clone(), p.1)),
            ),
            Value::redistributionspan_DdlogBinding(b) => Value::redistributionspan_DdlogBinding(
                b.clone(),
            ),
            Value::redistributionspan_DdlogDependency(d) => Value::redistributionspan_DdlogDependency(
                d.clone(),
            ),
            Value::redistributionspan_DdlogNode(n) => Value::redistributionspan_DdlogNode(n.clone()),
            Value::redistributionspan_Span(sp) => Value::redistributionspan_Span(
                Box::new((**sp).clone()),
            ),
        }
    }
}

impl Default for Value {
    /// The default value is the empty tuple.
    fn default() -> (res: Value)
        ensures
            res == Value::tuple0__(()),
    {
        Value::tuple0__(())
    }
}

impl FromRecord for tuple0 {
    open spec fn decodes(r: Record) -> bool {
        r matches Record::Tuple(args) && args@.len() == 0
    }

    open spec fn decodes_to(r: Record, v: tuple0) -> bool {
        r matches Record::Tuple(args) && args@.len() == 0
    }

    open spec fn decode_error(r: Record) -> Seq<char> {
        match r {
            Record::Tuple(_) => wrong_record_message("an empty tuple"@, r),
            _ => wrong_record_message("a tuple"@, r),
        }
    }

    fn from_record(val: &Record) -> (res: Result<tuple0, String>) {
        match val {
            Record::Tuple(args) => {
                if args.len() == 0 {
                    Ok(tuple0)
                } else {
                    Err(wrong_record_error("an empty tuple", val))
                }
            },
            _ => Err(wrong_record_error("a tuple", val)),
        }
    }
}

impl FromRecord for redistributionspan_DdlogBinding {
    open spec fn decodes(r: Record) -> bool {
        match r {
            Record::PosStruct(c, args) => {
                &&& c@ == "redistributionspan.DdlogBinding"@
                &&& args@.len() == 2
                &&& u16::decodes(args@[0])
                &&& u32::decodes(args@[1])
            },
            Record::NamedStruct(c, args) => {
                &&& c@ == "redistributionspan.DdlogBinding"@
                &&& field_decodes::<u16>(args@, "tn"@)
                &&& field_decodes::<u32>(args@, "entity"@)
            },
            _ => false,
        }
    }

    open spec fn decodes_to(r: Record, v: redistributionspan_DdlogBinding) -> bool {
        match r {
            Record::PosStruct(c, args) => {
                &&& c@ == "redistributionspan.DdlogBinding"@
                &&& args@.len() == 2
                &&& u16::decodes_to(args@[0], v.tn)
                &&& u32::decodes_to(args@[1], v.entity)
            },
            Record::NamedStruct(c, args) => {
                &&& c@ == "redistributionspan.DdlogBinding"@
                &&& field_decodes_to(args@, "tn"@, v.tn)
                &&& field_decodes_to(args@, "entity"@, v.entity)
            },
            _ => false,
        }
    }

    /// The error of the first field that does not decode, or the message for
    /// an unknown constructor or a record that is not a struct.
    open spec fn decode_error(r: Record) -> Seq<char> {
        match r {
            Record::PosStruct(c, args) => if c@ == "redistributionspan.DdlogBinding"@ && args@.len() == 2 {
                if !u16::decodes(args@[0]) {
                    u16::decode_error(args@[0])
                } else {
                    u32::decode_error(args@[1])
                }
            } else {
                unknown_constructor_message(c@, "redistributionspan_DdlogBinding"@, r)
            },
            Record::NamedStruct(c, args) => if c@ == "redistributionspan.DdlogBinding"@ {
                if !field_decodes::<u16>(args@, "tn"@) {
                    field_error::<u16>(args@, "tn"@)
                } else {
                    field_error::<u32>(args@, "entity"@)
                }
            } else {
                unknown_constructor_message(c@, "redistributionspan_DdlogBinding"@, r)
            },
            _ => not_a_struct_message(r),
        }
    }

    fn from_record(val: &Record) -> (res: Result<redistributionspan_DdlogBinding, String>) {
        match val {
            Record::PosStruct(constr, args) => {
                if str_eq(constr.as_str(), "redistributionspan.DdlogBinding") && args.len() == 2 {
                    let tn = match u16::from_record(&args[0]) {
                        Ok(v) => v,
                        Err(e) => return Err(e),
                    };
                    let entity = match u32::from_record(&args[1]) {
                        Ok(v) => v,
                        Err(e) => return Err(e),
                    };
                    Ok(redistributionspan_DdlogBinding { tn, entity })
                } else {
                    Err(
                        unknown_constructor_error(
                            constr.as_str(),
                            "redistributionspan_DdlogBinding",
                            val,
                        ),
                    )
                }
            },
            Record::NamedStruct(constr, args) => {
                if str_eq(constr.as_str(), "redistributionspan.DdlogBinding") {
                    let tn = match arg_extract::<u16>(args, "tn") {
                        Ok(v) => v,
                        Err(e) => return Err(e),
                    };
                    let entity = match arg_extract::<u32>(args, "entity") {
                        Ok(v) => v,
                        Err(e) => return Err(e),
                    };
                    Ok(redistributionspan_DdlogBinding { tn, entity })
                } else {
                    Err(
                        unknown_constructor_error(
                            constr.as_str(),
                            "redistributionspan_DdlogBinding",
                            val,
                        ),
                    )
                }
            },
            _ => Err(not_a_struct_error(val)),
        }
    }
}

impl FromRecord for redistributionspan_DdlogDependency {
    open spec fn decodes(r: Record) -> bool {
        match r {
            Record::PosStruct(c, args) => {
                &&& c@ == "redistributionspan.DdlogDependency"@
                &&& args@.len() == 2
                &&& u32::decodes(args@[0])
                &&& u32::decodes(args@[1])
            },
            Record::NamedStruct(c, args) => {
                &&& c@ == "redistributionspan.DdlogDependency"@
                &&& field_decodes::<u32>(args@, "parent"@)
                &&& field_decodes::<u32>(args@, "child"@)
            },
            _ => false,
        }
    }

    open spec fn decodes_to(r: Record, v: redistributionspan_DdlogDependency) -> bool {
        match r {
            Record::PosStruct(c, args) => {
                &&& c@ == "redistributionspan.DdlogDependency"@
                &&& args@.len() == 2
                &&& u32::decodes_to(args@[0], v.parent)
                &&& u32::decodes_to(args@[1], v.child)
            },
            Record::NamedStruct(c, args) => {
                &&& c@ == "redistributionspan.DdlogDependency"@
                &&& field_decodes_to(args@, "parent"@, v.parent)
                &&& field_decodes_to(args@, "child"@, v.child)
            },
            _ => false,
        }
    }

    /// The error of the first field that does not decode, or the message for
    /// an unknown constructor or a record that is not a struct.
    open spec fn decode_error(r: Record) -> Seq<char> {
        match r {
            Record::PosStruct(c, args) => if c@ == "redistributionspan.DdlogDependency"@ && args@.len() == 2 {
                if !u32::decodes(args@[0]) {
                    u32::decode_error(args@[0])
                } else {
                    u32::decode_error(args@[1])
                }
            } else {
                unknown_constructor_message(c@, "redistributionspan_DdlogDependency"@, r)
            },
            Record::NamedStruct(c, args) => if c@ == "redistributionspan.DdlogDependency"@ {
                if !field_decodes::<u32>(args@, "parent"@) {
                    field_error::<u32>(args@, "parent"@)
                } else {
                    field_error::<u32>(args@, "child"@)
                }
            } else {
                unknown_constructor_message(c@, "redistributionspan_DdlogDependency"@, r)
            },
            _ => not_a_struct_message(r),
        }
    }

    fn from_record(val: &Record) -> (res: Result<redistributionspan_DdlogDependency, String>) {
        match val {
            Record::PosStruct(constr, args) => {
                if str_eq(constr.as_str(), "redistributionspan.DdlogDependency") && args.len() == 2 {
                    let parent = match u32::from_record(&args[0]) {
                        Ok(v) => v,
                        Err(e) => return Err(e),
                    };
                    let child = match u32::from_record(&args[1]) {
                        Ok(v) => v,
                        Err(e) => return Err(e),
                    };
                    Ok(redistributionspan_DdlogDependency { parent, child })
                } else {
                    Err(
                        unknown_constructor_error(
                            constr.as_str(),
                            "redistributionspan_DdlogDependency",
                            val,
                        ),
                    )
                }
            },
            Record::NamedStruct(constr, args) => {
                if str_eq(constr.as_str(), "redistributionspan.DdlogDependency") {
                    let parent = match arg_extract::<u32>(args, "parent") {
                        Ok(v) => v,
                        Err(e) => return Err(e),
                    };
                    let child = match arg_extract::<u32>(args, "child") {
                        Ok(v) => v,
                        Err(e) => return Err(e),
                    };
                    Ok(redistributionspan_DdlogDependency { parent, child })
                } else {
                    Err(
                        unknown_constructor_error(
                            constr.as_str(),
                            "redistributionspan_DdlogDependency",
                            val,
                        ),
                    )
                }
            },
            _ => Err(not_a_struct_error(val)),
        }
    }
}

impl FromRecord for redistributionspan_DdlogNode {
    open spec fn decodes(r: Record) -> bool {
        match r {
            Record::PosStruct(c, args) => {
                &&& c@ == "redistributionspan.DdlogNode"@
                &&& args@.len() == 1
                &&& u32::decodes(args@[0])
            },
            Record::NamedStruct(c, args) => {
                &&& c@ == "redistributionspan.DdlogNode"@
                &&& field_decodes::<u32>(args@, "id"@)
            },
            _ => false,
        }
    }

    open spec fn decodes_to(r: Record, v: redistributionspan_DdlogNode) -> bool {
        match r {
            Record::PosStruct(c, args) => {
                &&& c@ == "redistributionspan.DdlogNode"@
                &&& args@.len() == 1
                &&& u32::decodes_to(args@[0], v.id)
            },
            Record::NamedStruct(c, args) => {
                &&& c@ == "redistributionspan.DdlogNode"@
                &&& field_decodes_to(args@, "id"@, v.id)
            },
            _ => false,
        }
    }

    /// The error of the first field that does not decode, or the message for
    /// an unknown constructor or a record that is not a struct.
    open spec fn decode_error(r: Record) -> Seq<char> {
        match r {
            Record::PosStruct(c, args) => if c@ == "redistributionspan.DdlogNode"@ && args@.len() == 1 {
                u32::decode_error(args@[0])
            } else {
                unknown_constructor_message(c@, "redistributionspan_DdlogNode"@, r)
            },
            Record::NamedStruct(c, args) => if c@ == "redistributionspan.DdlogNode"@ {
                field_error::<u32>(args@, "id"@)
            } else {
                unknown_constructor_message(c@, "redistributionspan_DdlogNode"@, r)
            },
            _ => not_a_struct_message(r),
        }
    }

    fn from_record(val: &Record) -> (res: Result<redistributionspan_DdlogNode, String>) {
        match val {
            Record::PosStruct(constr, args) => {
                if str_eq(constr.as_str(), "redistributionspan.DdlogNode") && args.len() == 1 {
                    let id = match u32::from_record(&args[0]) {
                        Ok(v) => v,
                        Err(e) => return Err(e),
                    };
                    Ok(redistributionspan_DdlogNode { id })
                } else {
                    Err(
                        unknown_constructor_error(
                            constr.as_str(),
                            "redistributionspan_DdlogNode",
                            val,
                        ),
                    )
                }
            },
            Record::NamedStruct(constr, args) => {
                if str_eq(constr.as_str(), "redistributionspan.DdlogNode") {
                    let id = match arg_extract::<u32>(args, "id") {
                        Ok(v) => v,
                        Err(e) => return Err(e),
                    };
                    Ok(redistributionspan_DdlogNode { id })
                } else {
                    Err(
                        unknown_constructor_error(
                            constr.as_str(),
                            "redistributionspan_DdlogNode",
                            val,
                        ),
                    )
                }
            },
            _ => Err(not_a_struct_error(val)),
        }
    }
}

impl FromRecord for redistributionspan_Span {
    open spec fn decodes(r: Record) -> bool {
        match r {
            Record::PosStruct(c, args) => {
                &&& c@ == "redistributionspan.Span"@
                &&& args@.len() == 2
                &&& u32::decodes(args@[0])
                &&& std_Set::<u16>::decodes(args@[1])
            },
            Record::NamedStruct(c, args) => {
                &&& c@ == "redistributionspan.Span"@
                &&& field_decodes::<u32>(args@, "entity"@)
                &&& field_decodes::<std_Set<u16>>(args@, "tns"@)
            },
            _ => false,
        }
    }

    open spec fn decodes_to(r: Record, v: redistributionspan_Span) -> bool {
        match r {
            Record::PosStruct(c, args) => {
                &&& c@ == "redistributionspan.Span"@
                &&& args@.len() == 2
                &&& u32::decodes_to(args@[0], v.entity)
                &&& std_Set::<u16>::decodes_to(args@[1], v.tns)
            },
            Record::NamedStruct(c, args) => {
                &&& c@ == "redistributionspan.Span"@
                &&& field_decodes_to(args@, "entity"@, v.entity)
                &&& field_decodes_to(args@, "tns"@, v.tns)
            },
            _ => false,
        }
    }

    /// The error of the first field that does not decode, or the message for
    /// an unknown constructor or a record that is not a struct.
    open spec fn decode_error(r: Record) -> Seq<char> {
        match r {
            Record::PosStruct(c, args) => if c@ == "redistributionspan.Span"@ && args@.len() == 2 {
                if !u32::decodes(args@[0]) {
                    u32::decode_error(args@[0])
                } else {
                    std_Set::<u16>::decode_error(args@[1])
                }
            } else {
                unknown_constructor_message(c@, "redistributionspan_Span"@, r)
            },
            Record::NamedStruct(c, args) => if c@ == "redistributionspan.Span"@ {
                if !field_decodes::<u32>(args@, "entity"@) {
                    field_error::<u32>(args@, "entity"@)
                } else {
                    field_error::<std_Set<u16>>(args@, "tns"@)
                }
            } else {
                unknown_constructor_message(c@, "redistributionspan_Span"@, r)
            },
            _ => not_a_struct_message(r),
        }
    }

    fn from_record(val: &Record) -> (res: Result<redistributionspan_Span, String>) {
        match val {
            Record::PosStruct(constr, args) => {
                if str_eq(constr.as_str(), "redistributionspan.Span") && args.len() == 2 {
                    let entity = match u32::from_record(&args[0]) {
                        Ok(v) => v,
                        Err(e) => return Err(e),
                    };
                    let tns = match std_Set::<u16>::from_record(&args[1]) {
                        Ok(v) => v,
                        Err(e) => return Err(e),
                    };
                    Ok(redistributionspan_Span { entity, tns })
                } else {
                    Err(
                        unknown_constructor_error(
                            constr.as_str(),
                            "redistributionspan_Span",
                            val,
                        ),
                    )
                }
            },
            Record::NamedStruct(constr, args) => {
                if str_eq(constr.as_str(), "redistributionspan.Span") {
                    let entity = match arg_extract::<u32>(args, "entity") {
                        Ok(v) => v,
                        Err(e) => return Err(e),
                    };
                    let tns = match arg_extract::<std_Set<u16>>(args, "tns") {
                        Ok(v) => v,
                        Err(e) => return Err(e),
                    };
                    Ok(redistributionspan_Span { entity, tns })
                } else {
                    Err(
                        unknown_constructor_error(
                            constr.as_str(),
                            "redistributionspan_Span",
                            val,
                        ),
                    )
                }
            },
            _ => Err(not_a_struct_error(val)),
        }
    }
}

} // verus!
