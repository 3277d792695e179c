//! Typed wrappers for remote resource identifiers.
//!
//! The provider hands back plain string identifiers for three kinds of
//! resource: assistants, threads and uploaded files. Each kind gets its
//! own opaque wrapper so that an identifier of one kind can never be
//! passed where another kind is expected.

use vstd::prelude::*;

verus! {

/// Identifier of a remote assistant resource.
#[derive(Debug)]
pub struct AssistantId {
    raw: String,
}

/// Identifier of a remote conversation thread.
#[derive(Debug)]
pub struct ThreadId {
    raw: String,
}

/// Identifier of a remote uploaded file.
#[derive(Debug)]
pub struct FileId {
    raw: String,
}

impl View for AssistantId {
    type V = Seq<char>;

    closed spec fn view(&self) -> Seq<char> {
        self.raw@
    }
}

impl View for ThreadId {
    type V = Seq<char>;

    closed spec fn view(&self) -> Seq<char> {
        self.raw@
    }
}

impl View for FileId {
    type V = Seq<char>;

    closed spec fn view(&self) -> Seq<char> {
        self.raw@
    }
}

impl AssistantId {
    /// Wraps a raw identifier string.
    pub fn new(raw: String) -> (r: AssistantId)
        ensures
            r@ == raw@,
    {
        AssistantId { raw }
    }

    /// The raw identifier, for display and transport.
    pub fn as_str(&self) -> (r: &str)
        ensures
            r@ == self@,
    {
        self.raw.as_str()
    }

    /// A copy holding the same raw identifier.
    pub fn dup(&self) -> (r: AssistantId)
        ensures
            r@ == self@,
    {
        AssistantId { raw: self.raw.clone() }
    }
}

impl ThreadId {
    /// Wraps a raw identifier string.
    pub fn new(raw: String) -> (r: ThreadId)
        ensures
            r@ == raw@,
    {
        ThreadId { raw }
    }

    /// The raw identifier, for display and transport.
    pub fn as_str(&self) -> (r: &str)
        ensures
            r@ == self@,
    {
        self.raw.as_str()
    }

    /// A copy holding the same raw identifier.
    pub fn dup(&self) -> (r: ThreadId)
        ensures
            r@ == self@,
    {
        ThreadId { raw: self.raw.clone() }
    }
}

impl FileId {
    /// Wraps a raw identifier string.
    pub fn new(raw: String) -> (r: FileId)
        ensures
            r@ == raw@,
    {
        FileId { raw }
    }

    /// The raw identifier, for display and transport.
    pub fn as_str(&self) -> (r: &str)
        ensures
            r@ == self@,
    {
        self.raw.as_str()
    }

    /// A copy holding the same raw identifier.
    pub fn dup(&self) -> (r: FileId)
        ensures
            r@ == self@,
    {
        FileId { raw: self.raw.clone() }
    }
}

} // verus!
