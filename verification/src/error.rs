use vstd::prelude::*;

verus! {

/// The one fatal error of the conversion boundary: a converter was asked
/// to render a token kind in a position where it can never legally
/// appear. Trees built by the parser never trigger it; hand-built trees
/// can. A converter that fails returns no partial output.
#[derive(Clone, Copy, Debug, PartialEq, Eq, Structural)]
pub enum ConvertError {
    UnexpectedToken,
}

} // verus!
