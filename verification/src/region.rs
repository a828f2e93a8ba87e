//! Rectangles on the cell grid, start inclusive and end exclusive.
use vstd::prelude::*;
use crate::le::{i16_le, push_i16_le};

verus! {

/// The rectangle of columns `x0..x1` and rows `y0..y1`.
#[derive(Clone, Copy, Debug, PartialEq, Eq, Structural)]
pub struct Region {
    pub x0: i16,
    pub y0: i16,
    pub x1: i16,
    pub y1: i16,
}

/// The smaller of two numbers.
pub open spec fn spec_min(a: i16, b: i16) -> i16 {
    if a <= b { a } else { b }
}

/// The larger of two numbers.
pub open spec fn spec_max(a: i16, b: i16) -> i16 {
    if a >= b { a } else { b }
}

/// The smaller of two numbers.
fn min_i16(a: i16, b: i16) -> (r: i16)
    ensures
        r == spec_min(a, b),
{
    if a <= b { a } else { b }
}

/// The larger of two numbers.
fn max_i16(a: i16, b: i16) -> (r: i16)
    ensures
        r == spec_max(a, b),
{
    if a >= b { a } else { b }
}

impl Region {
    /// The region without cells that `Default` gives.
    pub open spec fn empty() -> Region {
        Region { x0: 0, y0: 0, x1: 0, y1: 0 }
    }

    /// The region with the edges `data`: first column, first row, the column
    /// past the last, the row past the last.
    pub open spec fn spec_new(data: Seq<i16>) -> Region {
        Region { x0: data[0], y0: data[1], x1: data[2], y1: data[3] }
    }

    /// The four edges of the region, as `new` takes them.
    pub open spec fn spec_data(self) -> Seq<i16> {
        seq![self.x0, self.y0, self.x1, self.y1]
    }

    /// The region of a whole grid of `w` columns and `h` rows.
    pub open spec fn spec_sizebox(w: i16, h: i16) -> Region {
        Region { x0: 0, y0: 0, x1: w, y1: h }
    }

    /// A region holds no cell when it has no column or no row.
    pub open spec fn spec_is_empty(self) -> bool {
        self.x1 <= self.x0 || self.y1 <= self.y0
    }

    /// Whether the cell in column `x` of row `y` lies in the region.
    pub open spec fn contains(self, x: int, y: int) -> bool {
        self.x0 <= x < self.x1 && self.y0 <= y < self.y1
    }

    /// Whether the rectangle lies within `other`, edge by edge.
    pub open spec fn within(self, other: Region) -> bool {
        other.x0 <= self.x0 && self.x1 <= other.x1 && other.y0 <= self.y0 && self.y1 <= other.y1
    }

    /// Two regions are the same area when they hold the same cells: both
    /// hold none, or they are the same rectangle.
    pub open spec fn same_area(self, other: Region) -> bool {
        (self.spec_is_empty() && other.spec_is_empty()) || self == other
    }

    /// The rectangle that both have in common; empty where they share no cell.
    pub open spec fn spec_intersect(self, other: Region) -> Region {
        Region {
            x0: spec_max(self.x0, other.x0),
            y0: spec_max(self.y0, other.y0),
            x1: spec_min(self.x1, other.x1),
            y1: spec_min(self.y1, other.y1),
        }
    }

    /// The bounding rectangle of both; an empty side gives the other one.
    pub open spec fn spec_union(self, other: Region) -> Region {
        if self.spec_is_empty() {
            other
        } else if other.spec_is_empty() {
            self
        } else {
            Region {
                x0: spec_min(self.x0, other.x0),
                y0: spec_min(self.y0, other.y0),
                x1: spec_max(self.x1, other.x1),
                y1: spec_max(self.y1, other.y1),
            }
        }
    }

    /// The eight bytes of the region on the wire.
    pub open spec fn le_bytes(self) -> Seq<u8> {
        i16_le(self.x0) + i16_le(self.y0) + i16_le(self.x1) + i16_le(self.y1)
    }

    /// The region with the edges `data`: first column, first row, the column
    /// past the last, the row past the last.
    pub fn new(data: [i16; 4]) -> (r: Region)
        ensures
            r == Region::spec_new(data@),
    {
        Region { x0: data[0], y0: data[1], x1: data[2], y1: data[3] }
    }

    /// The four edges of the region, as `new` takes them.
    pub fn data(&self) -> (d: [i16; 4])
        ensures
            d@ == self.spec_data(),
    {
        let d: [i16; 4] = [self.x0, self.y0, self.x1, self.y1];
        d
    }

    /// The region of a whole grid of `size[0]` columns and `size[1]` rows.
    pub fn sizebox(size: [i16; 2]) -> (r: Region)
        ensures
            r == Region::spec_sizebox(size[0], size[1]),
    {
        Region { x0: 0, y0: 0, x1: size[0], y1: size[1] }
    }

    /// Whether the region holds no cell.
    pub fn is_empty(&self) -> (b: bool)
        ensures
            b == self.spec_is_empty(),
    {
        self.x1 <= self.x0 || self.y1 <= self.y0
    }

    /// The rectangle that both have in common; empty where they share no cell.
    pub fn intersect(&self, other: &Region) -> (r: Region)
        ensures
            r == self.spec_intersect(*other),
    {
        Region {
            x0: max_i16(self.x0, other.x0),
            y0: max_i16(self.y0, other.y0),
            x1: min_i16(self.x1, other.x1),
            y1: min_i16(self.y1, other.y1),
        }
    }

    /// The bounding rectangle of both; an empty side gives the other one.
    pub fn union(&self, other: &Region) -> (r: Region)
        ensures
            r == self.spec_union(*other),
    {
        if self.is_empty() {
            *other
        } else if other.is_empty() {
            *self
        } else {
            Region {
                x0: min_i16(self.x0, other.x0),
                y0: min_i16(self.y0, other.y0),
                x1: max_i16(self.x1, other.x1),
                y1: max_i16(self.y1, other.y1),
            }
        }
    }

    /// Appends the wire bytes of the region to `out`.
    pub fn write_le_bytes(&self, out: &mut Vec<u8>)
        ensures
            final(out)@ == old(out)@ + self.le_bytes(),
    {
        push_i16_le(out, self.x0);
        push_i16_le(out, self.y0);
        push_i16_le(out, self.x1);
        push_i16_le(out, self.y1);
    }
}

impl Default for Region {
    /// The empty region at the origin.
    fn default() -> (r: Region)
        ensures
            r == Region::empty(),
    {
        Region { x0: 0, y0: 0, x1: 0, y1: 0 }
    }
}

/// Two regions are the same area exactly when they hold the same cells.
pub proof fn lemma_same_area_same_cells(a: Region, b: Region)
    ensures
        a.same_area(b) <==> (forall|x: int, y: int| a.contains(x, y) == b.contains(x, y)),
{
    if forall|x: int, y: int| a.contains(x, y) == b.contains(x, y) {
        if !a.spec_is_empty() {
            assert(b.contains(a.x0 as int, a.y0 as int));
            assert(b.contains(a.x1 - 1, a.y1 - 1));
            assert(a.contains(b.x0 as int, b.y0 as int));
            assert(a.contains(b.x1 - 1, b.y1 - 1));
        } else if !b.spec_is_empty() {
            assert(a.contains(b.x0 as int, b.y0 as int));
        }
    }
}

/// The union does not depend on the order of its sides: both orders give
/// the same area, and the same rectangle unless both sides are empty.
pub proof fn lemma_union_commutative(a: Region, b: Region)
    ensures
        a.spec_union(b).same_area(b.spec_union(a)),
        !(a.spec_is_empty() && b.spec_is_empty()) ==> a.spec_union(b) == b.spec_union(a),
{
}

/// The union of three regions does not depend on how they are grouped.
pub proof fn lemma_union_associative(a: Region, b: Region, c: Region)
    ensures
        a.spec_union(b).spec_union(c) == a.spec_union(b.spec_union(c)),
{
}

/// An empty region adds nothing to a union: the area stays, and on the
/// left the rectangle itself does.
pub proof fn lemma_union_absorbs_empty(a: Region, e: Region)
    requires
        e.spec_is_empty(),
    ensures
        e.spec_union(a) == a,
        a.spec_union(e).same_area(a),
        !a.spec_is_empty() ==> a.spec_union(e) == a,
{
}

/// The union holds every cell of both sides.
pub proof fn lemma_union_covers(a: Region, b: Region, x: int, y: int)
    requires
        a.contains(x, y) || b.contains(x, y),
    ensures
        a.spec_union(b).contains(x, y),
{
}

/// The intersection holds exactly the cells that both sides hold.
pub proof fn lemma_intersect_cells(a: Region, b: Region, x: int, y: int)
    ensures
        a.spec_intersect(b).contains(x, y) <==> a.contains(x, y) && b.contains(x, y),
{
}

/// What is left of a region on a grid is empty or lies within the grid.
pub proof fn lemma_intersect_sizebox(r: Region, w: i16, h: i16)
    ensures
        ({
            let clipped = r.spec_intersect(Region::spec_sizebox(w, h));
            clipped.spec_is_empty() || clipped.within(Region::spec_sizebox(w, h))
        }),
{
}

} // verus!
