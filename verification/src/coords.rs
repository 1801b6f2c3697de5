//! Pairs of integers read as coordinates.

use vstd::prelude::*;

verus! {

/// A pair whose first part is `x` and whose second part is `y`.
pub trait Vec2<T> {
    /// The pair as a tuple.
    spec fn parts(&self) -> (T, T);

    fn x(&self) -> (out: T)
        ensures
            out == self.parts().0,
    ;

    fn y(&self) -> (out: T)
        ensures
            out == self.parts().1,
    ;

    fn set_x(&mut self, x: T)
        ensures
            final(self).parts() == (x, old(self).parts().1),
    ;

    fn set_y(&mut self, y: T)
        ensures
            final(self).parts() == (old(self).parts().0, y),
    ;
}

impl Vec2<i32> for (i32, i32) {
    open spec fn parts(&self) -> (i32, i32) {
        *self
    }

    fn x(&self) -> (out: i32) {
        self.0
    }

    fn y(&self) -> (out: i32) {
        self.1
    }

    fn set_x(&mut self, x: i32) {
        self.0 = x;
    }

    fn set_y(&mut self, y: i32) {
        self.1 = y;
    }
}

impl Vec2<u32> for (u32, u32) {
    open spec fn parts(&self) -> (u32, u32) {
        *self
    }

    fn x(&self) -> (out: u32) {
        self.0
    }

    fn y(&self) -> (out: u32) {
        self.1
    }

    fn set_x(&mut self, x: u32) {
        self.0 = x;
    }

    fn set_y(&mut self, y: u32) {
        self.1 = y;
    }
}

impl Vec2<u64> for (u64, u64) {
    open spec fn parts(&self) -> (u64, u64) {
        *self
    }

    fn x(&self) -> (out: u64) {
        self.0
    }

    fn y(&self) -> (out: u64) {
        self.1
    }

    fn set_x(&mut self, x: u64) {
        self.0 = x;
    }

    fn set_y(&mut self, y: u64) {
        self.1 = y;
    }
}

impl Vec2<i64> for (i64, i64) {
    open spec fn parts(&self) -> (i64, i64) {
        *self
    }

    fn x(&self) -> (out: i64) {
        self.0
    }

    fn y(&self) -> (out: i64) {
        self.1
    }

    fn set_x(&mut self, x: i64) {
        self.0 = x;
    }

    fn set_y(&mut self, y: i64) {
        self.1 = y;
    }
}

} // verus!
