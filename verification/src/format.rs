use vstd::prelude::*;

verus! {

/// Output target of a conversion call.
#[derive(Clone, Copy, Debug, PartialEq, Eq, Structural)]
pub enum Format {
    Chorddown,
    Html,
}

/// Naming convention for the natural note one semitone below C: the
/// English "B" or the northern-European "H".
#[derive(Clone, Copy, Debug, PartialEq, Eq, Structural)]
pub enum BNotation {
    B,
    H,
}

/// Render configuration, passed by value into every converter call and
/// immutable for the call's duration.
#[derive(Clone, Copy, Debug, PartialEq, Eq, Structural)]
pub struct Formatting {
    pub format: Format,
    pub b_notation: BNotation,
}

impl Formatting {
    /// A configuration for the given target with the default note naming.
    pub fn with_format(format: Format) -> (r: Self)
        ensures
            r == (Formatting { format, b_notation: BNotation::B }),
    {
        Formatting { format, b_notation: BNotation::B }
    }
}

impl Default for Formatting {
    /// Chorddown output with English note names.
    fn default() -> (r: Self)
        ensures
            r == (Formatting { format: Format::Chorddown, b_notation: BNotation::B }),
    {
        Formatting { format: Format::Chorddown, b_notation: BNotation::B }
    }
}

} // verus!
