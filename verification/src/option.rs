//! Optional and alternative values of the Datalog standard library.
use vstd::prelude::*;

verus! {

/// An optional value, as the Datalog standard library spells it.
#[derive(Clone, Debug, PartialEq, Eq, PartialOrd, Ord, Hash)]
pub enum std_Option<A> {
    std_Some { x: A },
    std_None,
}

/// One value of two possible types.
#[derive(Clone, Debug, PartialEq, Eq, PartialOrd, Ord, Hash)]
pub enum std_Either<A, B> {
    std_Left { l: A },
    std_Right { r: B },
}

/// The library option that stands for a Rust option.
pub open spec fn spec_option2std<T>(x: Option<T>) -> std_Option<T> {
    match x {
        None => std_Option::std_None,
        Some(v) => std_Option::std_Some { x: v },
    }
}

/// The Rust option that stands for a library option.
pub open spec fn spec_std2option<T>(x: std_Option<T>) -> Option<T> {
    match x {
        std_Option::std_None => None,
        std_Option::std_Some { x } => Some(x),
    }
}

/// Converts a Rust option into a library option.
pub fn option2std<T: Clone>(x: Option<T>) -> (res: std_Option<T>)
    ensures
        res == spec_option2std(x),
{
    match x {
        None => std_Option::std_None,
        Some(v) => std_Option::std_Some { x: v },
    }
}

/// Whether an option holds no value.
pub fn std_is_none<A>(x: &std_Option<A>) -> (res: bool)
    ensures
        res <==> *x is std_None,
{
    match x {
        std_Option::std_None => true,
        _ => false,
    }
}

/// Whether an option holds a value.
pub fn std_is_some<A>(x: &std_Option<A>) -> (res: bool)
    ensures
        res <==> *x is std_Some,
{
    match x {
        std_Option::std_Some { x: _ } => true,
        _ => false,
    }
}

impl<A: Default> Default for std_Option<A> {
    /// The default option holds the default value of its type.
    fn default() -> (res: Self)
        ensures
            res matches std_Option::std_Some { x } && call_ensures(A::default, (), x),
    {
        std_Option::std_Some { x: A::default() }
    }
}

impl<A: Default, B: Default> Default for std_Either<A, B> {
    /// The default alternative is the left one, holding the default value.
    fn default() -> (res: Self)
        ensures
            res matches std_Either::std_Left { l } && call_ensures(A::default, (), l),
    {
        std_Either::std_Left { l: A::default() }
    }
}

/// A round trip through the library option gives the Rust option back.
pub proof fn lemma_option_round_trip<T>(x: Option<T>)
    ensures
        spec_std2option(spec_option2std(x)) == x,
        spec_option2std(spec_std2option(spec_option2std(x))) == spec_option2std(x),
{
}

} // verus!
