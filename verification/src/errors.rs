//! Configuration errors.
//!
//! Every error here is fatal to the operation that raises it: nothing in
//! this design retries or recovers mid-frame.

use vstd::prelude::*;

verus! {

#[derive(Debug, Clone, Copy, PartialEq, Eq, Structural)]
pub enum GraphicsError {
    /// An attribute name passed at pipeline creation is not exposed by the
    /// shader program.
    UnknownAttribute,
    /// A resolved attribute location falls outside the layout's slots.
    AttributeLocationOverflow,
    /// A slot below the highest used attribute location was left empty.
    IncompleteAttributeLayout,
    /// A declared image name was not resolved by the program.
    UnknownImage,
    /// A declared uniform name was not resolved by the program.
    UnknownUniform,
    /// An update payload exceeds the buffer's byte capacity.
    BufferCapacityExceeded,
    /// A supplied uniform data block is shorter than the declared layout.
    UniformBlockTooSmall,
}

impl GraphicsError {
    /// A short diagnostic name for the error.
    pub fn describe(&self) -> (r: &'static str)
        ensures
            self == GraphicsError::UnknownAttribute ==> r@ == "unknown attribute name"@,
            self == GraphicsError::AttributeLocationOverflow ==> r@
                == "attribute location outside of the allocated attributes array"@,
            self == GraphicsError::IncompleteAttributeLayout ==> r@
                == "empty attribute below the highest used location"@,
            self == GraphicsError::UnknownImage ==> r@ == "unknown image name"@,
            self == GraphicsError::UnknownUniform ==> r@ == "unknown uniform name"@,
            self == GraphicsError::BufferCapacityExceeded ==> r@
                == "update payload exceeds the buffer capacity"@,
            self == GraphicsError::UniformBlockTooSmall ==> r@
                == "uniform data block is too small for the declared uniforms"@,
            r@.len() > 0,
    {
        proof {
            reveal_strlit("unknown attribute name");
            reveal_strlit("attribute location outside of the allocated attributes array");
            reveal_strlit("empty attribute below the highest used location");
            reveal_strlit("unknown image name");
            reveal_strlit("unknown uniform name");
            reveal_strlit("update payload exceeds the buffer capacity");
            reveal_strlit("uniform data block is too small for the declared uniforms");
        }
        match self {
            GraphicsError::UnknownAttribute => "unknown attribute name",
            GraphicsError::AttributeLocationOverflow => {
                "attribute location outside of the allocated attributes array"
            },
            GraphicsError::IncompleteAttributeLayout => {
                "empty attribute below the highest used location"
            },
            GraphicsError::UnknownImage => "unknown image name",
            GraphicsError::UnknownUniform => "unknown uniform name",
            GraphicsError::BufferCapacityExceeded => "update payload exceeds the buffer capacity",
            GraphicsError::UniformBlockTooSmall => {
                "uniform data block is too small for the declared uniforms"
            },
        }
    }
}

} // verus!
