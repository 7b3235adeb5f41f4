use rust_hw::my_rc::{count_as_i32, MyRc, Rc};

#[test]
#[allow(non_snake_case)]
fn test_MyRc() {
    let five = MyRc::new(5);
    assert_eq!(five.strong_count(), 1);
    {
        let new_five = MyRc::clone(&five);
        assert_eq!(new_five.strong_count(), 2);
        assert_eq!(*new_five, 5);
    }
    assert_eq!(five.strong_count(), 1);
    assert_eq!(*five, 5);
}

#[test]
fn rc_counts_up_and_down() {
    let mut r = Rc::new("x");
    assert_eq!(r.inc_count(), 2);
    assert_eq!(r.inc_count(), 3);
    assert_eq!(r.dec_count(), 2);
    assert_eq!(r.dec_count(), 1);
    assert_eq!(r.dec_count(), 0);
}

#[test]
fn my_rc_clones_share_the_value() {
    let a = MyRc::new(String::from("shared"));
    let b = a.clone();
    let c = b.clone();
    assert_eq!(a.strong_count(), 3);
    assert_eq!(*c, "shared");
    drop(b);
    assert_eq!(c.strong_count(), 2);
}

#[test]
fn counts_saturate_at_i32_max() {
    assert_eq!(count_as_i32(1), 1);
    assert_eq!(count_as_i32(2147483647), i32::MAX);
    assert_eq!(count_as_i32(2147483648), i32::MAX);
}
