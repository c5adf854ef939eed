//! The width of the entries of an index buffer.

use vstd::prelude::*;

verus! {

/// How the entries of an index buffer are laid out.
#[derive(Clone, Copy, Debug, PartialEq, Eq, Structural)]
pub enum IndexFormat {
    /// Each index takes two bytes.
    Uint16,
    /// Each index takes four bytes.
    Uint32,
}

impl IndexFormat {
    /// Bytes taken by one index of this format.
    pub open spec fn spec_element_size(&self) -> u32 {
        match self {
            IndexFormat::Uint16 => 2,
            IndexFormat::Uint32 => 4,
        }
    }

    /// The integer by which the engine knows this format.
    pub open spec fn spec_code(&self) -> u32 {
        match self {
            IndexFormat::Uint16 => 0,
            IndexFormat::Uint32 => 1,
        }
    }

    /// Bytes taken by one index of this format.
    #[verifier::when_used_as_spec(spec_element_size)]
    pub fn element_size(&self) -> (size: u32)
        ensures
            size == self.spec_element_size(),
    {
        match self {
            IndexFormat::Uint16 => 2,
            IndexFormat::Uint32 => 4,
        }
    }

    /// The integer by which the engine knows this format.
    #[verifier::when_used_as_spec(spec_code)]
    pub fn code(&self) -> (code: u32)
        ensures
            code == self.spec_code(),
    {
        match self {
            IndexFormat::Uint16 => 0,
            IndexFormat::Uint32 => 1,
        }
    }
}

impl Default for IndexFormat {
    /// Sixteen-bit indices are the default.
    fn default() -> (format: IndexFormat)
        ensures
            format == IndexFormat::Uint16,
    {
        IndexFormat::Uint16
    }
}

} // verus!
