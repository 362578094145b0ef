use dirty::window::Pos;

#[test]
fn pos_add_sub() {
    let a = Pos::new(3, -4);
    let b = Pos::new(10, 20);
    assert_eq!(a + b, Pos::new(13, 16));
    assert_eq!(b + a, a + b);
    assert_eq!((a + b) - b, a);
    assert_eq!(a - b, Pos::new(-7, -24));
}

#[test]
fn pos_scale() {
    let a = Pos::new(3, -4);
    assert_eq!(a * 3, Pos::new(9, -12));
    assert_eq!(Pos::new(-7, 9) / 2, Pos::new(-3, 4));
    assert_eq!(Pos::new(7, -9) / -2, Pos::new(-3, 4));
}

#[test]
fn pos_assign_ops() {
    let mut a = Pos::new(1, 1);
    a += Pos::new(2, 3);
    assert_eq!(a, Pos::new(3, 4));
    a -= Pos::new(1, 1);
    assert_eq!(a, Pos::new(2, 3));
    a *= 5;
    assert_eq!(a, Pos::new(10, 15));
    a /= 4;
    assert_eq!(a, Pos::new(2, 3));
}

#[test]
fn pos_pair_conversions() {
    let p: Pos = (5, -6).into();
    assert_eq!(p, Pos::new(5, -6));
    let t: (i32, i32) = p.into();
    assert_eq!(t, (5, -6));
    assert_eq!(Pos::from(<(i32, i32)>::from(p)), p);
}
