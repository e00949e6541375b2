use vstd::prelude::*;

verus! {

/// Component access and reordering on two-component vectors.
pub trait Swizzling2<T: Copy + Clone>: Sized {
    fn x(&self) -> T;

    fn y(&self) -> T;

    fn xy(&self) -> Self;

    fn yx(&self) -> Self;
}

/// Component access and reordering on three-component vectors.
pub trait Swizzling3<T: Copy + Clone>: Sized {
    fn x(&self) -> T;

    fn y(&self) -> T;

    fn z(&self) -> T;

    fn xy<Sw2: Swizzling2<T>>(&self) -> Sw2;

    fn yx<Sw2: Swizzling2<T>>(&self) -> Sw2;

    fn xz<Sw2: Swizzling2<T>>(&self) -> Sw2;

    fn zx<Sw2: Swizzling2<T>>(&self) -> Sw2;

    fn yz<Sw2: Swizzling2<T>>(&self) -> Sw2;

    fn zy<Sw2: Swizzling2<T>>(&self) -> Sw2;

    fn xyz(&self) -> Self;

    fn xzy(&self) -> Self;

    fn yxz(&self) -> Self;

    fn yzx(&self) -> Self;

    fn zxy(&self) -> Self;

    fn zyx(&self) -> Self;
}

impl<T: Copy + Clone> Swizzling2<T> for [T; 2] {
    fn x(&self) -> (r: T)
        ensures
            r == self@[0],
    {
        self[0]
    }

    fn y(&self) -> (r: T)
        ensures
            r == self@[1],
    {
        self[1]
    }

    fn xy(&self) -> (r: Self)
        ensures
            r@ == self@,
    {
        *self
    }

    fn yx(&self) -> (r: Self)
        ensures
            r@ == seq![self@[1], self@[0]],
    {
        let r = [self[1], self[0]];
        assert(r@ =~= seq![self@[1], self@[0]]);
        r
    }
}

} // verus!
