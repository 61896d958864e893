//! Fixed-shape states: tuples of two through nine components.
//!
//! The degree of freedom of a tuple is its arity, a compile-time
//! constant.  Access dispatches on the index; an out-of-range index is a
//! caller bug, excluded by precondition, and aborts for unverified
//! callers.

use vstd::pervasive::unreached;
use vstd::prelude::*;
use crate::types::OdeType;

verus! {

impl OdeType for (i64, i64) {
    open spec fn items(&self) -> Seq<int> {
        seq![self.0 as int, self.1 as int]
    }

    fn dof(&self) -> (n: usize) {
        2
    }

    fn get(&self, index: usize) -> (r: i64) {
        if index == 0 {
            self.0
        } else if index == 1 {
            self.1
        } else {
            unreached()
        }
    }

    fn get_mut(&mut self, index: usize) -> (r: &mut i64) {
        if index == 0 {
            &mut self.0
        } else if index == 1 {
            &mut self.1
        } else {
            unreached()
        }
    }

    fn insert(&mut self, index: usize, item: i64) {
        let t = *self;
        if index == 0 {
            *self = (item, t.1);
        } else if index == 1 {
            *self = (t.0, item);
        } else {
            unreached::<()>();
        }
        proof {
            assert(self.items() =~= old(self).items().update(index as int, item as int));
        }
    }
}

impl OdeType for (i64, i64, i64) {
    open spec fn items(&self) -> Seq<int> {
        seq![self.0 as int, self.1 as int, self.2 as int]
    }

    fn dof(&self) -> (n: usize) {
        3
    }

    fn get(&self, index: usize) -> (r: i64) {
        if index == 0 {
            self.0
        } else if index == 1 {
            self.1
        } else if index == 2 {
            self.2
        } else {
            unreached()
        }
    }

    fn get_mut(&mut self, index: usize) -> (r: &mut i64) {
        if index == 0 {
            &mut self.0
        } else if index == 1 {
            &mut self.1
        } else if index == 2 {
            &mut self.2
        } else {
            unreached()
        }
    }

    fn insert(&mut self, index: usize, item: i64) {
        let t = *self;
        if index == 0 {
            *self = (item, t.1, t.2);
        } else if index == 1 {
            *self = (t.0, item, t.2);
        } else if index == 2 {
            *self = (t.0, t.1, item);
        } else {
            unreached::<()>();
        }
        proof {
            assert(self.items() =~= old(self).items().update(index as int, item as int));
        }
    }
}

impl OdeType for (i64, i64, i64, i64) {
    open spec fn items(&self) -> Seq<int> {
        seq![self.0 as int, self.1 as int, self.2 as int, self.3 as int]
    }

    fn dof(&self) -> (n: usize) {
        4
    }

    fn get(&self, index: usize) -> (r: i64) {
        if index == 0 {
            self.0
        } else if index == 1 {
            self.1
        } else if index == 2 {
            self.2
        } else if index == 3 {
            self.3
        } else {
            unreached()
        }
    }

    fn get_mut(&mut self, index: usize) -> (r: &mut i64) {
        if index == 0 {
            &mut self.0
        } else if index == 1 {
            &mut self.1
        } else if index == 2 {
            &mut self.2
        } else if index == 3 {
            &mut self.3
        } else {
            unreached()
        }
    }

    fn insert(&mut self, index: usize, item: i64) {
        let t = *self;
        if index == 0 {
            *self = (item, t.1, t.2, t.3);
        } else if index == 1 {
            *self = (t.0, item, t.2, t.3);
        } else if index == 2 {
            *self = (t.0, t.1, item, t.3);
        } else if index == 3 {
            *self = (t.0, t.1, t.2, item);
        } else {
            unreached::<()>();
        }
        proof {
            assert(self.items() =~= old(self).items().update(index as int, item as int));
        }
    }
}

impl OdeType for (i64, i64, i64, i64, i64) {
    open spec fn items(&self) -> Seq<int> {
        seq![self.0 as int, self.1 as int, self.2 as int, self.3 as int, self.4 as int]
    }

    fn dof(&self) -> (n: usize) {
        5
    }

    fn get(&self, index: usize) -> (r: i64) {
        if index == 0 {
            self.0
        } else if index == 1 {
            self.1
        } else if index == 2 {
            self.2
        } else if index == 3 {
            self.3
        } else if index == 4 {
            self.4
        } else {
            unreached()
        }
    }

    fn get_mut(&mut self, index: usize) -> (r: &mut i64) {
        if index == 0 {
            &mut self.0
        } else if index == 1 {
            &mut self.1
        } else if index == 2 {
            &mut self.2
        } else if index == 3 {
            &mut self.3
        } else if index == 4 {
            &mut self.4
        } else {
            unreached()
        }
    }

    fn insert(&mut self, index: usize, item: i64) {
        let t = *self;
        if index == 0 {
            *self = (item, t.1, t.2, t.3, t.4);
        } else if index == 1 {
            *self = (t.0, item, t.2, t.3, t.4);
        } else if index == 2 {
            *self = (t.0, t.1, item, t.3, t.4);
        } else if index == 3 {
            *self = (t.0, t.1, t.2, item, t.4);
        } else if index == 4 {
            *self = (t.0, t.1, t.2, t.3, item);
        } else {
            unreached::<()>();
        }
        proof {
            assert(self.items() =~= old(self).items().update(index as int, item as int));
        }
    }
}

impl OdeType for (i64, i64, i64, i64, i64, i64) {
    open spec fn items(&self) -> Seq<int> {
        seq![self.0 as int, self.1 as int, self.2 as int, self.3 as int, self.4 as int, self.5 as int]
    }

    fn dof(&self) -> (n: usize) {
        6
    }

    fn get(&self, index: usize) -> (r: i64) {
        if index == 0 {
            self.0
        } else if index == 1 {
            self.1
        } else if index == 2 {
            self.2
        } else if index == 3 {
            self.3
        } else if index == 4 {
            self.4
        } else if index == 5 {
            self.5
        } else {
            unreached()
        }
    }

    fn get_mut(&mut self, index: usize) -> (r: &mut i64) {
        if index == 0 {
            &mut self.0
        } else if index == 1 {
            &mut self.1
        } else if index == 2 {
            &mut self.2
        } else if index == 3 {
            &mut self.3
        } else if index == 4 {
            &mut self.4
        } else if index == 5 {
            &mut self.5
        } else {
            unreached()
        }
    }

    fn insert(&mut self, index: usize, item: i64) {
        let t = *self;
        if index == 0 {
            *self = (item, t.1, t.2, t.3, t.4, t.5);
        } else if index == 1 {
            *self = (t.0, item, t.2, t.3, t.4, t.5);
        } else if index == 2 {
            *self = (t.0, t.1, item, t.3, t.4, t.5);
        } else if index == 3 {
            *self = (t.0, t.1, t.2, item, t.4, t.5);
        } else if index == 4 {
            *self = (t.0, t.1, t.2, t.3, item, t.5);
        } else if index == 5 {
            *self = (t.0, t.1, t.2, t.3, t.4, item);
        } else {
            unreached::<()>();
        }
        proof {
            assert(self.items() =~= old(self).items().update(index as int, item as int));
        }
    }
}

impl OdeType for (i64, i64, i64, i64, i64, i64, i64) {
    open spec fn items(&self) -> Seq<int> {
        seq![self.0 as int, self.1 as int, self.2 as int, self.3 as int, self.4 as int, self.5 as int, self.6 as int]
    }

    fn dof(&self) -> (n: usize) {
        7
    }

    fn get(&self, index: usize) -> (r: i64) {
        if index == 0 {
            self.0
        } else if index == 1 {
            self.1
        } else if index == 2 {
            self.2
        } else if index == 3 {
            self.3
        } else if index == 4 {
            self.4
        } else if index == 5 {
            self.5
        } else if index == 6 {
            self.6
        } else {
            unreached()
        }
    }

    fn get_mut(&mut self, index: usize) -> (r: &mut i64) {
        if index == 0 {
            &mut self.0
        } else if index == 1 {
            &mut self.1
        } else if index == 2 {
            &mut self.2
        } else if index == 3 {
            &mut self.3
        } else if index == 4 {
            &mut self.4
        } else if index == 5 {
            &mut self.5
        } else if index == 6 {
            &mut self.6
        } else {
            unreached()
        }
    }

    fn insert(&mut self, index: usize, item: i64) {
        let t = *self;
        if index == 0 {
            *self = (item, t.1, t.2, t.3, t.4, t.5, t.6);
        } else if index == 1 {
            *self = (t.0, item, t.2, t.3, t.4, t.5, t.6);
        } else if index == 2 {
            *self = (t.0, t.1, item, t.3, t.4, t.5, t.6);
        } else if index == 3 {
            *self = (t.0, t.1, t.2, item, t.4, t.5, t.6);
        } else if index == 4 {
            *self = (t.0, t.1, t.2, t.3, item, t.5, t.6);
        } else if index == 5 {
            *self = (t.0, t.1, t.2, t.3, t.4, item, t.6);
        } else if index == 6 {
            *self = (t.0, t.1, t.2, t.3, t.4, t.5, item);
        } else {
            unreached::<()>();
        }
        proof {
            assert(self.items() =~= old(self).items().update(index as int, item as int));
        }
    }
}

impl OdeType for (i64, i64, i64, i64, i64, i64, i64, i64) {
    open spec fn items(&self) -> Seq<int> {
        seq![self.0 as int, self.1 as int, self.2 as int, self.3 as int, self.4 as int, self.5 as int, self.6 as int, self.7 as int]
    }

    fn dof(&self) -> (n: usize) {
        8
    }

    fn get(&self, index: usize) -> (r: i64) {
        if index == 0 {
            self.0
        } else if index == 1 {
            self.1
        } else if index == 2 {
            self.2
        } else if index == 3 {
            self.3
        } else if index == 4 {
            self.4
        } else if index == 5 {
            self.5
        } else if index == 6 {
            self.6
        } else if index == 7 {
            self.7
        } else {
            unreached()
        }
    }

    fn get_mut(&mut self, index: usize) -> (r: &mut i64) {
        if index == 0 {
            &mut self.0
        } else if index == 1 {
            &mut self.1
        } else if index == 2 {
            &mut self.2
        } else if index == 3 {
            &mut self.3
        } else if index == 4 {
            &mut self.4
        } else if index == 5 {
            &mut self.5
        } else if index == 6 {
            &mut self.6
        } else if index == 7 {
            &mut self.7
        } else {
            unreached()
        }
    }

    fn insert(&mut self, index: usize, item: i64) {
        let t = *self;
        if index == 0 {
            *self = (item, t.1, t.2, t.3, t.4, t.5, t.6, t.7);
        } else if index == 1 {
            *self = (t.0, item, t.2, t.3, t.4, t.5, t.6, t.7);
        } else if index == 2 {
            *self = (t.0, t.1, item, t.3, t.4, t.5, t.6, t.7);
        } else if index == 3 {
            *self = (t.0, t.1, t.2, item, t.4, t.5, t.6, t.7);
        } else if index == 4 {
            *self = (t.0, t.1, t.2, t.3, item, t.5, t.6, t.7);
        } else if index == 5 {
            *self = (t.0, t.1, t.2, t.3, t.4, item, t.6, t.7);
        } else if index == 6 {
            *self = (t.0, t.1, t.2, t.3, t.4, t.5, item, t.7);
        } else if index == 7 {
            *self = (t.0, t.1, t.2, t.3, t.4, t.5, t.6, item);
        } else {
            unreached::<()>();
        }
        proof {
            assert(self.items() =~= old(self).items().update(index as int, item as int));
        }
    }
}

impl OdeType for (i64, i64, i64, i64, i64, i64, i64, i64, i64) {
    open spec fn items(&self) -> Seq<int> {
        seq![self.0 as int, self.1 as int, self.2 as int, self.3 as int, self.4 as int, self.5 as int, self.6 as int, self.7 as int, self.8 as int]
    }

    fn dof(&self) -> (n: usize) {
        9
    }

    fn get(&self, index: usize) -> (r: i64) {
        if index == 0 {
            self.0
        } else if index == 1 {
            self.1
        } else if index == 2 {
            self.2
        } else if index == 3 {
            self.3
        } else if index == 4 {
            self.4
        } else if index == 5 {
            self.5
        } else if index == 6 {
            self.6
        } else if index == 7 {
            self.7
        } else if index == 8 {
            self.8
        } else {
            unreached()
        }
    }

    fn get_mut(&mut self, index: usize) -> (r: &mut i64) {
        if index == 0 {
            &mut self.0
        } else if index == 1 {
            &mut self.1
        } else if index == 2 {
            &mut self.2
        } else if index == 3 {
            &mut self.3
        } else if index == 4 {
            &mut self.4
        } else if index == 5 {
            &mut self.5
        } else if index == 6 {
            &mut self.6
        } else if index == 7 {
            &mut self.7
        } else if index == 8 {
            &mut self.8
        } else {
            unreached()
        }
    }

    fn insert(&mut self, index: usize, item: i64) {
        let t = *self;
        if index == 0 {
            *self = (item, t.1, t.2, t.3, t.4, t.5, t.6, t.7, t.8);
        } else if index == 1 {
            *self = (t.0, item, t.2, t.3, t.4, t.5, t.6, t.7, t.8);
        } else if index == 2 {
            *self = (t.0, t.1, item, t.3, t.4, t.5, t.6, t.7, t.8);
        } else if index == 3 {
            *self = (t.0, t.1, t.2, item, t.4, t.5, t.6, t.7, t.8);
        } else if index == 4 {
            *self = (t.0, t.1, t.2, t.3, item, t.5, t.6, t.7, t.8);
        } else if index == 5 {
            *self = (t.0, t.1, t.2, t.3, t.4, item, t.6, t.7, t.8);
        } else if index == 6 {
            *self = (t.0, t.1, t.2, t.3, t.4, t.5, item, t.7, t.8);
        } else if index == 7 {
            *self = (t.0, t.1, t.2, t.3, t.4, t.5, t.6, item, t.8);
        } else if index == 8 {
            *self = (t.0, t.1, t.2, t.3, t.4, t.5, t.6, t.7, item);
        } else {
            unreached::<()>();
        }
        proof {
            assert(self.items() =~= old(self).items().update(index as int, item as int));
        }
    }
}
} // verus!
