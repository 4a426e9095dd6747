//! Source positions and their order.

use vstd::prelude::*;

verus! {

/// A region of source text: the offsets of its first byte and of the byte after
/// its last, and the expansion context it was produced in.
///
/// Spans are ordered by `lo`, then `hi`, then `ctxt`.
#[derive(Clone, Copy, Debug, PartialEq, Eq, Structural)]
pub struct Span {
    pub lo: u32,
    pub hi: u32,
    pub ctxt: u32,
}

impl Span {
    /// `self` comes before `other`, or is the same span.
    pub open spec fn at_or_before(self, other: Span) -> bool {
        self.lo < other.lo || (self.lo == other.lo && (self.hi < other.hi || (self.hi == other.hi
            && self.ctxt <= other.ctxt)))
    }

    /// `self` comes strictly before `other`.
    pub open spec fn before(self, other: Span) -> bool {
        self.at_or_before(other) && self != other
    }

    pub fn new(lo: u32, hi: u32) -> (span: Span)
        ensures
            span == (Span { lo, hi, ctxt: 0 }),
    {
        Span { lo, hi, ctxt: 0 }
    }

    /// Whether `self` is ordered at or before `other`.
    pub fn le(&self, other: &Span) -> (r: bool)
        ensures
            r == self.at_or_before(*other),
    {
        if self.lo != other.lo {
            self.lo < other.lo
        } else if self.hi != other.hi {
            self.hi < other.hi
        } else {
            self.ctxt <= other.ctxt
        }
    }
}

/// The order on spans is total.
pub proof fn lemma_span_order_total(a: Span, b: Span)
    ensures
        a.at_or_before(b) || b.at_or_before(a),
        a.at_or_before(b) && b.at_or_before(a) ==> a == b,
{
}

/// The order on spans is transitive.
pub proof fn lemma_span_order_transitive(a: Span, b: Span, c: Span)
    requires
        a.at_or_before(b),
        b.at_or_before(c),
    ensures
        a.at_or_before(c),
{
}

} // verus!
