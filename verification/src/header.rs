//! The decoded metadata model: the header of a recognized file and its
//! ordered keyword records.

use vstd::prelude::*;

verus! {

/// Storage width and signedness code of one sample, as the format
/// declares it.  Used for provenance display only.
#[derive(Clone, Copy, Debug, PartialEq, Eq, Structural)]
pub enum Bitpix {
    /// Unsigned 8-bit integers (code 8).
    Byte,
    /// 16-bit two's-complement integers (code 16).
    Short,
    /// 32-bit two's-complement integers (code 32).
    Long,
    /// 64-bit two's-complement integers (code 64).
    LongLong,
    /// 32-bit floating-point samples (code -32).
    Single,
    /// 64-bit floating-point samples (code -64).
    Double,
}

impl Bitpix {
    /// The integer code the format uses for this variant.
    pub open spec fn code_spec(self) -> int {
        match self {
            Bitpix::Byte => 8,
            Bitpix::Short => 16,
            Bitpix::Long => 32,
            Bitpix::LongLong => 64,
            Bitpix::Single => -32,
            Bitpix::Double => -64,
        }
    }

    /// The integer code the format uses for this variant.
    pub fn code(self) -> (r: i32)
        ensures
            r as int == self.code_spec(),
    {
        match self {
            Bitpix::Byte => 8,
            Bitpix::Short => 16,
            Bitpix::Long => 32,
            Bitpix::LongLong => 64,
            Bitpix::Single => -32,
            Bitpix::Double => -64,
        }
    }
}

/// One metadata record.  File order is meaningful and is preserved; no
/// two records are ever merged or deduplicated.
#[derive(Clone, Debug, PartialEq)]
pub enum Keyword {
    /// A named entry: key, value, comment.
    Value(String, String, String),
    /// A free-text provenance line.
    History(String),
    /// A free-text annotation line.
    Comment(String),
    /// A continuation of a prior long value: key, value, comment.
    Continue(String, String, String),
}

/// The text shown in the first column of a metadata table for a record:
/// the record's key, or the fixed marker of a history or comment line.
pub open spec fn label_spec(k: Keyword) -> Seq<char> {
    match k {
        Keyword::Value(key, _, _) => key@,
        Keyword::History(_) => "HISTORY"@,
        Keyword::Comment(_) => "COMMENT"@,
        Keyword::Continue(key, _, _) => key@,
    }
}

impl Keyword {
    /// The text shown in the first column of a metadata table.
    pub fn label(&self) -> (r: &str)
        ensures
            r@ == label_spec(*self),
    {
        match self {
            Keyword::Value(key, _, _) => key.as_str(),
            Keyword::History(_) => "HISTORY",
            Keyword::Comment(_) => "COMMENT",
            Keyword::Continue(key, _, _) => key.as_str(),
        }
    }
}

/// The structured metadata block of a recognized file.  It holds
/// already-validated values: once built, reading it cannot fail.
#[derive(Clone, Debug, PartialEq)]
pub struct Header {
    /// Format compliance flag.
    pub simple: bool,
    /// Sample storage code.
    pub bitpix: Bitpix,
    /// Number of axes; always equal to `axes.len()`.
    pub naxis: usize,
    /// Per-dimension sizes, fastest-varying dimension first.
    pub axes: Vec<usize>,
    /// The metadata records, in file order.
    pub keywords: Vec<Keyword>,
}

impl Header {
    /// The declared axis count matches the axis list.
    pub open spec fn wf(&self) -> bool {
        self.naxis == self.axes@.len()
    }

    /// Builds a header; the axis count is taken from the axis list, so
    /// the result is always well formed.
    pub fn new(simple: bool, bitpix: Bitpix, axes: Vec<usize>, keywords: Vec<Keyword>) -> (h:
        Header)
        ensures
            h.wf(),
            h.simple == simple,
            h.bitpix == bitpix,
            h.naxis == axes@.len(),
            h.axes@ == axes@,
            h.keywords@ == keywords@,
    {
        let naxis = axes.len();
        Header { simple, bitpix, naxis, axes, keywords }
    }

    /// Format compliance flag.
    pub fn simple(&self) -> (r: bool)
        ensures
            r == self.simple,
    {
        self.simple
    }

    /// Sample storage code.
    pub fn bitpix(&self) -> (r: Bitpix)
        ensures
            r == self.bitpix,
    {
        self.bitpix
    }

    /// Number of axes.
    pub fn naxis(&self) -> (r: usize)
        ensures
            r == self.naxis,
    {
        self.naxis
    }

    /// Per-dimension sizes.
    pub fn axes(&self) -> (r: &Vec<usize>)
        ensures
            r@ == self.axes@,
    {
        &self.axes
    }

    /// The metadata records, in file order.
    pub fn keywords(&self) -> (r: &Vec<Keyword>)
        ensures
            r@ == self.keywords@,
    {
        &self.keywords
    }
}

} // verus!
