use vstd::prelude::*;

verus! {

/// A switch that a parameter object may leave unset, turn off or turn on.
#[derive(Debug, Clone, Copy, PartialEq, Eq, Structural)]
pub enum Flag {
    /// Off: written `0`.
    False,
    /// On: written `1`.
    True,
}

impl Flag {
    /// The text that the upstream API reads for this flag.
    pub open spec fn text(self) -> Seq<char> {
        match self {
            Flag::True => "1"@,
            Flag::False => "0"@,
        }
    }

    /// `"1"` for `True` and `"0"` for `False`.
    pub fn value(&self) -> (text: &'static str)
        ensures
            text@ == self.text(),
    {
        match self {
            Flag::True => "1",
            Flag::False => "0",
        }
    }
}

} // verus!
