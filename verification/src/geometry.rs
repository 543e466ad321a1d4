//! Terminal size as columns and rows.

use vstd::prelude::*;

verus! {

/// The size of a terminal. Both dimensions are at least one.
#[derive(Debug, Clone, Copy, PartialEq, Eq, Structural)]
pub struct Geometry {
    cols: u16,
    rows: u16,
}

impl Geometry {
    #[verifier::type_invariant]
    spec fn well_formed(self) -> bool {
        self.cols >= 1 && self.rows >= 1
    }

    /// The number of columns.
    pub closed spec fn spec_cols(self) -> u16 {
        self.cols
    }

    /// The number of rows.
    pub closed spec fn spec_rows(self) -> u16 {
        self.rows
    }

    /// A geometry of the given size, or `None` when a dimension is zero.
    pub fn new(cols: u16, rows: u16) -> (g: Option<Geometry>)
        ensures
            g is Some <==> cols >= 1 && rows >= 1,
            g matches Some(v) ==> v.spec_cols() == cols && v.spec_rows() == rows,
    {
        if cols >= 1 && rows >= 1 {
            Some(Geometry { cols, rows })
        } else {
            None
        }
    }

    /// The number of columns, at least one.
    pub fn cols(&self) -> (c: u16)
        ensures
            c == self.spec_cols(),
            c >= 1,
    {
        proof {
            use_type_invariant(self);
        }
        self.cols
    }

    /// The number of rows, at least one.
    pub fn rows(&self) -> (r: u16)
        ensures
            r == self.spec_rows(),
            r >= 1,
    {
        proof {
            use_type_invariant(self);
        }
        self.rows
    }

    /// Whether two geometries have the same size.
    pub fn same_as(&self, other: &Geometry) -> (b: bool)
        ensures
            b == (*self == *other),
    {
        self.cols == other.cols && self.rows == other.rows
    }

    /// Two geometries are equal exactly when both dimensions agree.
    pub proof fn lemma_equal_by_size(a: Geometry, b: Geometry)
        ensures
            (a == b) <==> (a.spec_cols() == b.spec_cols() && a.spec_rows() == b.spec_rows()),
    {
    }
}

} // verus!
