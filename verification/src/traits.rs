//! What the compositor asks of anything that is painted.

use vstd::prelude::*;

verus! {

/// Something that is painted at a place. The vertical part of the place is the
/// anchor by which the compositor orders what it paints.
pub trait Drawable {
    /// Where the entity stands.
    spec fn position(&self) -> (i64, i64);

    /// Reads where the entity stands.
    fn get_position(&self) -> (p: (i64, i64))
        ensures
            p == self.position(),
    ;
}

} // verus!
