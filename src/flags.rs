use vstd::prelude::*;

verus! {

/// Geometry-based anti-aliasing.
pub const ANTIALIAS: u32 = 1;

/// Strokes drawn through the stencil buffer, so overlapping parts are not
/// painted twice.
pub const STENCIL_STROKES: u32 = 2;

/// Extra checks inside the backend.
pub const DEBUG: u32 = 4;

/// The options a session is created with: independent bits, combined by
/// bitwise or.
#[derive(Clone, Copy, Debug, PartialEq, Eq, Structural)]
pub struct CreateFlags {
    flags: u32,
}

impl CreateFlags {
    pub closed spec fn view(self) -> u32 {
        self.flags
    }

    /// No option set.
    pub fn new() -> (f: CreateFlags)
        ensures
            f@ == 0,
    {
        CreateFlags { flags: 0 }
    }

    pub fn antialias(self) -> (f: CreateFlags)
        ensures
            f@ == self@ | ANTIALIAS,
    {
        CreateFlags { flags: self.flags | ANTIALIAS }
    }

    pub fn stencil_strokes(self) -> (f: CreateFlags)
        ensures
            f@ == self@ | STENCIL_STROKES,
    {
        CreateFlags { flags: self.flags | STENCIL_STROKES }
    }

    pub fn debug(self) -> (f: CreateFlags)
        ensures
            f@ == self@ | DEBUG,
    {
        CreateFlags { flags: self.flags | DEBUG }
    }

    /// The bitmask handed to the backend's factory.
    pub fn bits(&self) -> (b: u32)
        ensures
            b == self@,
    {
        self.flags
    }
}

} // verus!
