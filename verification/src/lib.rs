//! The verified core of the `redistributionspan` Datalog program: the
//! standard library of collections, options and strings that its rules use,
//! the records through which relations are read, and the rules themselves.
#![allow(non_camel_case_types, non_snake_case, non_upper_case_globals)]

pub mod order;
pub mod option;
pub mod vec;
pub mod set;
pub mod map;
pub mod record;
pub mod types;
pub mod tuples;
pub mod relations;
pub mod group;
pub mod rules;
pub mod strings;
pub mod format;
pub mod misc;
pub mod log;
pub mod laws;
