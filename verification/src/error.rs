//! Why a node could not be built.

use vstd::prelude::*;

verus! {

/// The kind of function that a name was meant to resolve to.
#[derive(Clone, Copy, Debug, PartialEq, Eq, Hash, Structural)]
pub enum FunctionKind {
    Scalar,
    Aggregate,
    Window,
}

/// The failure of a builder. A builder either returns a complete node or one of
/// these; the shape of the arguments is never a reason to fail.
#[derive(Clone, Copy, Debug, PartialEq, Eq, Hash, Structural)]
pub enum BuildError {
    /// The name resolved to no function of the kind asked for.
    FunctionNotFound(FunctionKind),
}

impl BuildError {
    /// The text of the error.
    pub open spec fn spec_message(self) -> Seq<char> {
        match self {
            BuildError::FunctionNotFound(FunctionKind::Scalar) => "scalar function not found"@,
            BuildError::FunctionNotFound(FunctionKind::Aggregate) => {
                "aggregate function not found"@
            },
            BuildError::FunctionNotFound(FunctionKind::Window) => "window function not found"@,
        }
    }

    /// The text of the error.
    pub fn message(self) -> (text: String)
        ensures
            text@ == self.spec_message(),
    {
        match self {
            BuildError::FunctionNotFound(FunctionKind::Scalar) => {
                "scalar function not found".to_owned()
            },
            BuildError::FunctionNotFound(FunctionKind::Aggregate) => {
                "aggregate function not found".to_owned()
            },
            BuildError::FunctionNotFound(FunctionKind::Window) => {
                "window function not found".to_owned()
            },
        }
    }
}

} // verus!
