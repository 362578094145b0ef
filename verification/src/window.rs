use vstd::prelude::*;
use vstd::std_specs::ops::AddSpecImpl;
use vstd::std_specs::ops::SubSpecImpl;
use vstd::std_specs::ops::MulSpecImpl;
use vstd::std_specs::ops::DivSpecImpl;
use vstd::std_specs::convert::FromSpecImpl;
use core::ops::Add;
use core::ops::Sub;
use core::ops::Mul;
use core::ops::Div;
use core::ops::AddAssign;
use core::ops::SubAssign;
use core::ops::MulAssign;
use core::ops::DivAssign;

verus! {

/// A point or offset in window coordinates (pixels).
#[derive(Copy, Clone, PartialEq, Eq, Structural, Debug)]
pub struct Pos {
    pub x: i32,
    pub y: i32,
}

/// `true` when `v` fits in an `i32`.
pub open spec fn fits_i32(v: int) -> bool {
    i32::MIN <= v <= i32::MAX
}

/// Integer division rounding toward zero, as Rust's `/` on integers does.
pub open spec fn div_toward_zero(a: int, b: int) -> int {
    if a >= 0 {
        a / b
    } else {
        -((-a) / b)
    }
}

/// `true` when `a / b` on `i32` neither divides by zero nor overflows.
pub open spec fn div_ok(a: i32, b: i32) -> bool {
    b != 0 && !(a == i32::MIN && b == -1)
}

proof fn lemma_div_bounded(x: int, b: int)
    requires
        x >= 0,
        b != 0,
    ensures
        -x <= x / b <= x,
        b <= -2 ==> -x <= 2 * (x / b) <= 0,
{
    if b > 0 {
        assert(0 <= x / b <= x) by (nonlinear_arith)
            requires x >= 0, b > 0;
    } else if b == -1 {
        assert(x / b == -x) by (nonlinear_arith)
            requires x >= 0, b == -1;
    } else {
        assert(-x <= 2 * (x / b) <= 0) by (nonlinear_arith)
            requires x >= 0, b <= -2;
    }
}

fn div_i32(a: i32, b: i32) -> (r: i32)
    requires
        div_ok(a, b),
    ensures
        r == div_toward_zero(a as int, b as int),
{
    proof {
        lemma_div_bounded(if a >= 0 { a as int } else { -(a as int) }, b as int);
    }
    let r = a.div(b);
    assert(r == <i32 as vstd::std_specs::ops::DivSpec>::div_spec(a, b));
    r
}

impl Pos {
    pub fn new(x: i32, y: i32) -> (r: Self)
        ensures
            r.x == x,
            r.y == y,
    {
        Pos { x: x, y: y }
    }
}

impl Add for Pos {
    type Output = Pos;

    /// Componentwise sum.
    fn add(self, rhs: Pos) -> (r: Pos) {
        Pos { x: self.x + rhs.x, y: self.y + rhs.y }
    }
}

impl AddSpecImpl for Pos {
    open spec fn obeys_add_spec() -> bool {
        true
    }

    open spec fn add_req(self, rhs: Pos) -> bool {
        fits_i32(self.x + rhs.x) && fits_i32(self.y + rhs.y)
    }

    open spec fn add_spec(self, rhs: Pos) -> Pos {
        Pos { x: (self.x + rhs.x) as i32, y: (self.y + rhs.y) as i32 }
    }
}

impl Sub for Pos {
    type Output = Pos;

    /// Componentwise difference.
    fn sub(self, rhs: Pos) -> (r: Pos) {
        Pos { x: self.x - rhs.x, y: self.y - rhs.y }
    }
}

impl SubSpecImpl for Pos {
    open spec fn obeys_sub_spec() -> bool {
        true
    }

    open spec fn sub_req(self, rhs: Pos) -> bool {
        fits_i32(self.x - rhs.x) && fits_i32(self.y - rhs.y)
    }

    open spec fn sub_spec(self, rhs: Pos) -> Pos {
        Pos { x: (self.x - rhs.x) as i32, y: (self.y - rhs.y) as i32 }
    }
}

impl Mul<i32> for Pos {
    type Output = Pos;

    /// Scales both coordinates by `rhs`.
    fn mul(self, rhs: i32) -> (r: Pos) {
        Pos { x: self.x * rhs, y: self.y * rhs }
    }
}

impl MulSpecImpl<i32> for Pos {
    open spec fn obeys_mul_spec() -> bool {
        true
    }

    open spec fn mul_req(self, rhs: i32) -> bool {
        fits_i32(self.x * rhs) && fits_i32(self.y * rhs)
    }

    open spec fn mul_spec(self, rhs: i32) -> Pos {
        Pos { x: (self.x * rhs) as i32, y: (self.y * rhs) as i32 }
    }
}

impl Div<i32> for Pos {
    type Output = Pos;

    /// Divides both coordinates by `rhs`, rounding toward zero.
    fn div(self, rhs: i32) -> (r: Pos) {
        Pos { x: div_i32(self.x, rhs), y: div_i32(self.y, rhs) }
    }
}

impl DivSpecImpl<i32> for Pos {
    open spec fn obeys_div_spec() -> bool {
        true
    }

    open spec fn div_req(self, rhs: i32) -> bool {
        div_ok(self.x, rhs) && div_ok(self.y, rhs)
    }

    open spec fn div_spec(self, rhs: i32) -> Pos {
        Pos {
            x: div_toward_zero(self.x as int, rhs as int) as i32,
            y: div_toward_zero(self.y as int, rhs as int) as i32,
        }
    }
}

impl AddAssign for Pos {
    fn add_assign(&mut self, rhs: Pos)
        requires
            fits_i32(old(self).x + rhs.x),
            fits_i32(old(self).y + rhs.y),
        ensures
            final(self).x == old(self).x + rhs.x,
            final(self).y == old(self).y + rhs.y,
    {
        self.x = self.x + rhs.x;
        self.y = self.y + rhs.y;
    }
}

impl SubAssign for Pos {
    fn sub_assign(&mut self, rhs: Pos)
        requires
            fits_i32(old(self).x - rhs.x),
            fits_i32(old(self).y - rhs.y),
        ensures
            final(self).x == old(self).x - rhs.x,
            final(self).y == old(self).y - rhs.y,
    {
        self.x = self.x - rhs.x;
        self.y = self.y - rhs.y;
    }
}

impl MulAssign<i32> for Pos {
    fn mul_assign(&mut self, rhs: i32)
        requires
            fits_i32(old(self).x * rhs),
            fits_i32(old(self).y * rhs),
        ensures
            final(self).x == old(self).x * rhs,
            final(self).y == old(self).y * rhs,
    {
        self.x = self.x * rhs;
        self.y = self.y * rhs;
    }
}

impl DivAssign<i32> for Pos {
    fn div_assign(&mut self, rhs: i32)
        requires
            div_ok(old(self).x, rhs),
            div_ok(old(self).y, rhs),
        ensures
            final(self).x == div_toward_zero(old(self).x as int, rhs as int),
            final(self).y == div_toward_zero(old(self).y as int, rhs as int),
    {
        self.x = div_i32(self.x, rhs);
        self.y = div_i32(self.y, rhs);
    }
}

impl From<(i32, i32)> for Pos {
    fn from(v: (i32, i32)) -> (r: Pos) {
        Pos { x: v.0, y: v.1 }
    }
}

impl FromSpecImpl<(i32, i32)> for Pos {
    open spec fn obeys_from_spec() -> bool {
        true
    }

    open spec fn from_spec(v: (i32, i32)) -> Pos {
        Pos { x: v.0, y: v.1 }
    }
}

impl From<Pos> for (i32, i32) {
    fn from(p: Pos) -> (r: (i32, i32)) {
        (p.x, p.y)
    }
}

impl FromSpecImpl<Pos> for (i32, i32) {
    open spec fn obeys_from_spec() -> bool {
        true
    }

    open spec fn from_spec(p: Pos) -> (i32, i32) {
        (p.x, p.y)
    }
}

} // verus!
