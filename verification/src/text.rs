//! Files, offsets and ranges of text.
use vstd::prelude::*;

verus! {

/// Identifies one source file. The number is an opaque key: nothing is
/// assumed about the file it names.
#[derive(Clone, Copy, Debug, PartialEq, Eq, Hash, Structural)]
pub struct FileId(pub u32);

/// A half-open span of bytes, `[start, end)`.
#[derive(Clone, Copy, Debug, PartialEq, Eq, Hash, Structural)]
pub struct TextRange {
    pub start: u32,
    pub end: u32,
}

impl TextRange {
    /// The number of bytes in the range; an inverted range holds none.
    pub open spec fn spec_len(self) -> nat {
        if self.start <= self.end {
            (self.end - self.start) as nat
        } else {
            0
        }
    }

    /// `inner` lies within `self`.
    pub open spec fn spec_contains_range(&self, inner: TextRange) -> bool {
        self.start <= inner.start && inner.end <= self.end
    }

    /// `offset` lies within `self` or at its end.
    pub open spec fn spec_contains_offset(&self, offset: u32) -> bool {
        self.start <= offset && offset <= self.end
    }

    pub fn from_to(start: u32, end: u32) -> (range: TextRange)
        ensures
            range == (TextRange { start, end }),
    {
        TextRange { start, end }
    }

    pub fn start(&self) -> (start: u32)
        ensures
            start == self.start,
    {
        self.start
    }

    pub fn end(&self) -> (end: u32)
        ensures
            end == self.end,
    {
        self.end
    }

    pub fn len(&self) -> (len: u32)
        ensures
            len == self.spec_len(),
    {
        if self.start <= self.end {
            self.end - self.start
        } else {
            0
        }
    }

    pub fn is_empty(&self) -> (empty: bool)
        ensures
            empty == (self.spec_len() == 0),
    {
        self.end <= self.start
    }

    #[verifier::when_used_as_spec(spec_contains_range)]
    pub fn contains_range(&self, inner: TextRange) -> (inside: bool)
        ensures
            inside == self.spec_contains_range(inner),
    {
        self.start <= inner.start && inner.end <= self.end
    }

    #[verifier::when_used_as_spec(spec_contains_offset)]
    pub fn contains_offset(&self, offset: u32) -> (inside: bool)
        ensures
            inside == self.spec_contains_offset(offset),
    {
        self.start <= offset && offset <= self.end
    }
}

/// A place in a file: the cursor.
#[derive(Clone, Copy, Debug, PartialEq, Eq, Hash, Structural)]
pub struct FilePosition {
    pub file_id: FileId,
    pub offset: u32,
}

/// A span of a file: a selection.
#[derive(Clone, Copy, Debug, PartialEq, Eq, Hash, Structural)]
pub struct FileRange {
    pub file_id: FileId,
    pub range: TextRange,
}

/// An answer together with the range of source text that it is about.
#[derive(Debug)]
pub struct RangeInfo<T> {
    pub range: TextRange,
    pub info: T,
}

impl<T> RangeInfo<T> {
    pub fn new(range: TextRange, info: T) -> (res: RangeInfo<T>)
        ensures
            res.range == range,
            res.info == info,
    {
        RangeInfo { range, info }
    }
}

} // verus!
