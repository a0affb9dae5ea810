//! The error taxonomy of the machine. Every failure a run can surface is
//! one of these structured values; rendering them is left to the host.

use vstd::prelude::*;

verus! {

/// A fatal condition met while decoding or executing a program.
///
/// `UnknownRegister` and `UnknownTrapRoutine` carry the offending raw field
/// value. `UnknownInstruction` carries the raw word; it is reachable only
/// defensively, since every 4-bit opcode selector decodes to some variant.
/// `IoError` reports an input stream that ended during a required read.
#[derive(Clone, Copy, Debug, PartialEq, Eq, Structural)]
pub enum Error {
    UnknownRegister(u16),
    UnknownInstruction(u16),
    UnknownTrapRoutine(u16),
    IoError,
}

impl Error {
    /// A short human-readable description of the error class.
    pub fn describe(&self) -> (r: &'static str)
        ensures
            (self is UnknownRegister ==> r@ == "not a known register"@),
            (self is UnknownInstruction ==> r@ == "not a known instruction"@),
            (self is UnknownTrapRoutine ==> r@ == "not a known trap routine"@),
            (self is IoError ==> r@ == "input or output failed"@),
    {
        match self {
            Error::UnknownRegister(_) => "not a known register",
            Error::UnknownInstruction(_) => "not a known instruction",
            Error::UnknownTrapRoutine(_) => "not a known trap routine",
            Error::IoError => "input or output failed",
        }
    }
}

} // verus!
