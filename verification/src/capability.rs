//! The `Truthy` capability, and its implementations for booleans and text.

use crate::matcher::{classify, string_is_truthy};
use crate::terms::stock_tables;
use vstd::prelude::*;

verus! {

/// Trait that provides truthy attributes for an implementing type.
///
/// An implementation says how a value is classified; whether it is falsey
/// or truey follows from that.
pub trait Truthy {
    /// Indicates whether the instance can be classed as "falsey": whether
    /// `is_truthy` gives `Some(false)` for it.
    fn is_falsey(&self) -> (falsey: bool)
        ensures
            exists|class: Option<bool>| #[trigger]
                call_ensures(Self::is_truthy, (self,), class) && falsey == (class == Some(false)),
    {
        Some(false) == self.is_truthy()
    }

    /// Indicates whether the instance can be classed as "truey": whether
    /// `is_truthy` gives `Some(true)` for it.
    fn is_truey(&self) -> (truey: bool)
        ensures
            exists|class: Option<bool>| #[trigger]
                call_ensures(Self::is_truthy, (self,), class) && truey == (class == Some(true)),
    {
        Some(true) == self.is_truthy()
    }

    /// Indicates whether the instance can be classed as "truthy", and, if
    /// so, whether it is "truey" or "falsey".
    fn is_truthy(&self) -> Option<bool>;
}

impl Truthy for bool {
    fn is_truthy(&self) -> (class: Option<bool>)
        ensures
            class == Some(*self),
    {
        Some(*self)
    }
}

impl Truthy for &bool {
    fn is_truthy(&self) -> (class: Option<bool>)
        ensures
            class == Some(**self),
    {
        Some(**self)
    }
}

impl Truthy for Option<bool> {
    fn is_truthy(&self) -> (class: Option<bool>)
        ensures
            class == *self,
    {
        *self
    }
}

impl Truthy for &Option<bool> {
    fn is_truthy(&self) -> (class: Option<bool>)
        ensures
            class == **self,
    {
        **self
    }
}

impl Truthy for Option<&bool> {
    fn is_truthy(&self) -> (class: Option<bool>)
        ensures
            class == (match *self {
                Some(b) => Some(*b),
                None => None,
            }),
    {
        match *self {
            Some(b) => Some(*b),
            None => None,
        }
    }
}

impl Truthy for &Option<&bool> {
    fn is_truthy(&self) -> (class: Option<bool>)
        ensures
            class == (match **self {
                Some(b) => Some(*b),
                None => None,
            }),
    {
        match **self {
            Some(b) => Some(*b),
            None => None,
        }
    }
}

impl Truthy for &str {
    fn is_truthy(&self) -> (class: Option<bool>)
        ensures
            class == classify(self@, stock_tables()),
    {
        string_is_truthy(self)
    }
}

impl Truthy for &&str {
    fn is_truthy(&self) -> (class: Option<bool>)
        ensures
            class == classify(self@, stock_tables()),
    {
        string_is_truthy(*self)
    }
}

impl Truthy for String {
    fn is_truthy(&self) -> (class: Option<bool>)
        ensures
            class == classify(self@, stock_tables()),
    {
        string_is_truthy(self.as_str())
    }
}

impl Truthy for &String {
    fn is_truthy(&self) -> (class: Option<bool>)
        ensures
            class == classify(self@, stock_tables()),
    {
        string_is_truthy(self.as_str())
    }
}

} // verus!
