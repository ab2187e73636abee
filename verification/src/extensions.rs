//! Small conveniences on strings, vectors and optional strings.
use vstd::prelude::*;

verus! {

/// Turning an empty value into `None`.
pub trait NoneIfEmptyExt: Sized {
    /// Whether the value is empty.
    spec fn empty_value(&self) -> bool;

    /// `None` for an empty value, else the value itself.
    fn none_if_empty(self) -> (r: Option<Self>)
        ensures
            r is None <==> self.empty_value(),
            r matches Some(v) ==> v == self,
    ;
}

impl NoneIfEmptyExt for String {
    open spec fn empty_value(&self) -> bool {
        self@.len() == 0
    }

    fn none_if_empty(self) -> (r: Option<String>) {
        if crate::text::chars_of(self.as_str()).len() == 0 {
            return None;
        }
        Some(self)
    }
}

impl<T> NoneIfEmptyExt for Vec<T> {
    open spec fn empty_value(&self) -> bool {
        self@.len() == 0
    }

    fn none_if_empty(self) -> (r: Option<Vec<T>>) {
        if self.len() == 0 {
            return None;
        }
        Some(self)
    }
}

/// Borrowing an optional string as an optional `&str`.
pub trait AsOptStrExt {
    /// The characters of the string, if there is one.
    spec fn opt_text(&self) -> Option<Seq<char>>;

    fn as_str(&self) -> (r: Option<&str>)
        ensures
            match r {
                Some(s) => self.opt_text() == Some(s@),
                None => self.opt_text() is None,
            },
    ;
}

impl AsOptStrExt for Option<&String> {
    open spec fn opt_text(&self) -> Option<Seq<char>> {
        match self {
            Some(s) => Some(s@),
            None => None,
        }
    }

    fn as_str(&self) -> (r: Option<&str>) {
        match self {
            Some(s) => Some(s.as_str()),
            None => None,
        }
    }
}

impl AsOptStrExt for Option<String> {
    open spec fn opt_text(&self) -> Option<Seq<char>> {
        match self {
            Some(s) => Some(s@),
            None => None,
        }
    }

    fn as_str(&self) -> (r: Option<&str>) {
        match self {
            Some(s) => Some(s.as_str()),
            None => None,
        }
    }
}

/// Borrowing an optional string as a `&str`, empty where there is none.
pub trait AsStrUnwrappedOrEmptyExt: AsOptStrExt {
    fn as_str_unwrapped_or_empty(&self) -> (r: &str)
        ensures
            r@ == match self.opt_text() {
                Some(t) => t,
                None => Seq::<char>::empty(),
            },
    ;
}

impl AsStrUnwrappedOrEmptyExt for Option<&String> {
    fn as_str_unwrapped_or_empty(&self) -> (r: &str) {
        proof {
            reveal_strlit("");
        }
        match self.as_str() {
            Some(s) => s,
            None => "",
        }
    }
}

impl AsStrUnwrappedOrEmptyExt for Option<String> {
    fn as_str_unwrapped_or_empty(&self) -> (r: &str) {
        proof {
            reveal_strlit("");
        }
        match self.as_str() {
            Some(s) => s,
            None => "",
        }
    }
}

} // verus!
