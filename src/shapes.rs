use vstd::prelude::*;

verus! {

/// A circle given by its centre and radius, in any coordinate type.
pub struct Circle<T> {
    pub center_x: T,
    pub center_y: T,
    pub radius: T,
}

impl<T> Circle<T> {
    pub fn new(center_x: T, center_y: T, radius: T) -> (r: Circle<T>)
        ensures
            r.center_x == center_x,
            r.center_y == center_y,
            r.radius == radius,
    {
        Circle { center_x, center_y, radius }
    }
}

} // verus!
