use vstd::prelude::*;

verus! {

/// What a tuple `(x, y, z, w)` stands for. It is read off `w` each time a
/// tuple is made and never carried over from an operand.
#[derive(PartialEq, Eq, Structural, Debug, Clone, Copy)]
pub enum TupleTypes {
    /// A direction or displacement: `w` is not within tolerance of one.
    Vector,
    /// A location: `w` is within tolerance of one.
    Point,
}

impl TupleTypes {
    /// The classification of a tuple, given whether its `w` lies within
    /// tolerance of one.
    pub open spec fn of(w_is_one: bool) -> TupleTypes {
        if w_is_one {
            TupleTypes::Point
        } else {
            TupleTypes::Vector
        }
    }

    /// Whether dot and cross products are defined for a left operand of this
    /// classification. They are direction-only, so a point has none.
    pub open spec fn has_products(self) -> bool {
        self != TupleTypes::Point
    }

    /// Guards a dot or cross product whose left operand has this
    /// classification. `value` is the product as computed from the
    /// components; it is handed on unless the operand is a point, for which
    /// the result is absent.
    pub fn when_vector<T>(self, value: T) -> (r: Option<T>)
        ensures
            self.has_products() ==> r == Some(value),
            !self.has_products() ==> r is None,
    {
        match self {
            TupleTypes::Point => None,
            TupleTypes::Vector => Some(value),
        }
    }
}

/// Classifies a tuple. `w_is_one` is the outcome of comparing the tuple's `w`
/// with one under the tolerance: a point exactly when it holds, a vector
/// otherwise.
pub fn decide_type(w_is_one: bool) -> (kind: TupleTypes)
    ensures
        kind == TupleTypes::of(w_is_one),
{
    if w_is_one {
        TupleTypes::Point
    } else {
        TupleTypes::Vector
    }
}

/// Decides whether two tuples are equal. Each argument is the outcome of
/// comparing one pair of components under the tolerance; the tuples are equal
/// exactly when all four pairs are, `w` included.
pub fn tuples_equal(x: bool, y: bool, z: bool, w: bool) -> (r: bool)
    ensures
        r == (x && y && z && w),
{
    x && y && z && w
}

/// A tuple is a point exactly when its `w` compared equal to one and a vector
/// in every other case, and products are defined exactly for the vectors.
pub proof fn lemma_products_follow_w(w_is_one: bool)
    ensures
        TupleTypes::of(w_is_one) == TupleTypes::Point <==> w_is_one,
        TupleTypes::of(w_is_one) == TupleTypes::Vector <==> !w_is_one,
        TupleTypes::of(w_is_one).has_products() <==> !w_is_one,
{
}

} // verus!
