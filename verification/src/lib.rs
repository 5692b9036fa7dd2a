//! Rules of a point-or-vector tuple in homogeneous coordinates that do not
//! depend on the arithmetic of its components: how a tuple is classified,
//! when two tuples count as equal, and which tuples take part in products.

pub mod tuple;
