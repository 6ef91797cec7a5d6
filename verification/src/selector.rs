//! Which printed value of a program a check looks at.
use vstd::prelude::*;
use crate::render::DebugText;
use crate::value::{decimal, int_text};

verus! {

#[derive(Debug, Clone, Copy, PartialEq, Eq, Structural)]
pub enum Selector {
    LastLine,
    FirstLine,
    /// First line is `n = 0`, second `n = 1`, ...
    NthLineFromStart { n: u16 },
    /// Last line is `n = 0`, second to last `n = 1`, ...
    NthLineFromEnd { n: u16 },
}

impl Selector {
    /// The position that the selector picks among `len` printed values, if there is one.
    pub open spec fn target(self, len: int) -> Option<int> {
        match self {
            Selector::LastLine => if len > 0 { Some(len - 1) } else { None },
            Selector::FirstLine => if len > 0 { Some(0) } else { None },
            Selector::NthLineFromStart { n } => if n < len { Some(n as int) } else { None },
            Selector::NthLineFromEnd { n } => if n < len { Some(len - 1 - n) } else { None },
        }
    }

    /// The position that the selector picks among `len` printed values.
    pub fn position(&self, len: usize) -> (r: Option<usize>)
        ensures
            match self.target(len as int) {
                Some(i) => r == Some(i as usize),
                None => r is None,
            },
    {
        match self {
            Selector::LastLine => if len > 0 { Some(len - 1) } else { None },
            Selector::FirstLine => if len > 0 { Some(0) } else { None },
            Selector::NthLineFromStart { n } => if (*n as usize) < len { Some(*n as usize) } else { None },
            Selector::NthLineFromEnd { n } => if (*n as usize) < len { Some(len - 1 - *n as usize) } else { None },
        }
    }
}

impl DebugText for Selector {
    open spec fn spec_debug(&self) -> Seq<char> {
        match self {
            Selector::LastLine => "LastLine"@,
            Selector::FirstLine => "FirstLine"@,
            Selector::NthLineFromStart { n } => "NthLineFromStart { n: "@ + decimal(*n as int) + " }"@,
            Selector::NthLineFromEnd { n } => "NthLineFromEnd { n: "@ + decimal(*n as int) + " }"@,
        }
    }

    fn debug_text(&self) -> (r: String) {
        match self {
            Selector::LastLine => String::from_str("LastLine"),
            Selector::FirstLine => String::from_str("FirstLine"),
            Selector::NthLineFromStart { n } => {
                let mut r = String::from_str("NthLineFromStart { n: ");
                r.append(int_text(*n as i64).as_str());
                r.append(" }");
                r
            },
            Selector::NthLineFromEnd { n } => {
                let mut r = String::from_str("NthLineFromEnd { n: ");
                r.append(int_text(*n as i64).as_str());
                r.append(" }");
                r
            },
        }
    }
}

} // verus!
