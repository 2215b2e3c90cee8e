//! The ingestion adapter's model side.  The binary-format decoder is an
//! outside collaborator that turns raw bytes into plain header values
//! and a flat sample array, or reports "not a valid file"; this module
//! assembles and validates the decoded-file model from those plain
//! values.

use vstd::prelude::*;

use crate::data::{shape_product, DataContainer};
use crate::header::{Bitpix, Header, Keyword};

verus! {

/// A fully decoded file: its header and its sample container, with the
/// container shaped exactly as the header's axes declare.
#[derive(Clone, Debug, PartialEq)]
pub struct DecodedFile {
    /// The structured metadata block.
    pub header: Header,
    /// The numeric samples.
    pub data: DataContainer,
}

impl DecodedFile {
    /// Header and container are well formed and agree on the axes.
    pub open spec fn wf(&self) -> bool {
        &&& self.header.wf()
        &&& self.data.wf()
        &&& self.header.axes@ == self.data.shape@
    }

    /// True when the file offers a drawable two-dimensional image: the
    /// sample array is non-empty and the header declares exactly two
    /// axes.
    pub fn has_drawable_image(&self) -> (r: bool)
        ensures
            r == (self.data.samples@.len() > 0 && self.header.naxis == 2),
    {
        self.data.sample_count() > 0 && self.header.naxis() == 2
    }
}

/// Assembles the decoded-file model from the plain values an outside
/// decoder produced.  Returns the model when the sample count matches
/// the declared axes, and nothing otherwise; the header's axis count is
/// the axis list's length, so a successful result always satisfies
/// `header.naxis == data.shape.len()`.
pub fn ingest(
    simple: bool,
    bitpix: Bitpix,
    axes: Vec<usize>,
    keywords: Vec<Keyword>,
    samples: Vec<u64>,
) -> (r: Option<DecodedFile>)
    ensures
        r is Some <==> shape_product(axes@) == samples@.len(),
        r matches Some(d) ==> {
            &&& d.wf()
            &&& d.header.naxis == d.data.shape@.len()
            &&& d.header.simple == simple
            &&& d.header.bitpix == bitpix
            &&& d.header.axes@ == axes@
            &&& d.header.keywords@ == keywords@
            &&& d.data.samples@ == samples@
            &&& d.data.shape@ == axes@
        },
{
    match DataContainer::new(samples, axes.clone()) {
        Some(data) => {
            let header = Header::new(simple, bitpix, axes, keywords);
            Some(DecodedFile { header, data })
        },
        None => None,
    }
}

} // verus!
