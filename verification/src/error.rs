//! The two error kinds the core can surface: compiler and linker diagnostics.
//!
//! Both carry the verbatim driver-provided log text and nothing else; callers
//! may only display or log them.

use vstd::prelude::*;

verus! {

/// Diagnostic text reported by the driver when a shader stage failed to
/// compile.
pub struct CompileError {
    log: String,
}

impl CompileError {
    /// The log text, as a sequence of characters.
    pub closed spec fn log_view(&self) -> Seq<char> {
        self.log@
    }

    /// Wraps the verbatim compiler log.
    pub fn new(log: String) -> (e: CompileError)
        ensures
            e.log_view() == log@,
    {
        CompileError { log }
    }

    /// The verbatim diagnostic text.
    pub fn log(&self) -> (r: &String)
        ensures
            r@ == self.log_view(),
    {
        &self.log
    }
}

/// An exact-size buffer of ASCII spaces, ready to receive a driver log of
/// `len` bytes.
pub fn whitespace_buffer(len: usize) -> (v: Vec<u8>)
    ensures
        v@.len() == len,
        forall|i: int| 0 <= i < len ==> v@[i] == 32u8,
{
    let mut v: Vec<u8> = Vec::new();
    let mut i: usize = 0;
    while i < len
        invariant
            i <= len,
            v@.len() == i,
            forall|k: int| 0 <= k < i ==> v@[k] == 32u8,
        decreases len - i,
    {
        v.push(32u8);
        i += 1;
    }
    v
}

/// Diagnostic text reported by the driver when a pipeline failed to link.
pub struct LinkError {
    log: String,
}

impl LinkError {
    /// The log text, as a sequence of characters.
    pub closed spec fn log_view(&self) -> Seq<char> {
        self.log@
    }

    /// Wraps the verbatim linker log.
    pub fn new(log: String) -> (e: LinkError)
        ensures
            e.log_view() == log@,
    {
        LinkError { log }
    }

    /// The verbatim diagnostic text.
    pub fn log(&self) -> (r: &String)
        ensures
            r@ == self.log_view(),
    {
        &self.log
    }
}

} // verus!
