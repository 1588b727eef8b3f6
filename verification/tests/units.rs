use list_item_layout::units::{Au, AU_PER_PX, MAX_AU, MIN_AU};

#[test]
fn new_keeps_values_in_range() {
    assert_eq!(Au::new(0).to_i32(), 0);
    assert_eq!(Au::new(7).to_i32(), 7);
    assert_eq!(Au::new(-7).to_i32(), -7);
    assert_eq!(Au::new(MAX_AU).to_i32(), MAX_AU);
    assert_eq!(Au::new(MIN_AU).to_i32(), MIN_AU);
}

#[test]
fn new_saturates_out_of_range_values() {
    assert_eq!(Au::new(i32::MAX).to_i32(), MAX_AU);
    assert_eq!(Au::new(i32::MIN).to_i32(), MIN_AU);
    assert_eq!(Au::new(MAX_AU + 1).to_i32(), MAX_AU);
    assert_eq!(Au::new(MIN_AU - 1).to_i32(), MIN_AU);
}

#[test]
fn range_is_symmetric() {
    assert_eq!(MAX_AU, (1 << 30) - 1);
    assert_eq!(MIN_AU, -MAX_AU);
    assert_eq!(AU_PER_PX, 60);
}

#[test]
fn zero_is_zero() {
    assert_eq!(Au::zero(), Au::new(0));
    assert_eq!(Au::zero().to_i32(), 0);
}

#[test]
fn sub_subtracts() {
    assert_eq!(Au::new(7).sub(Au::new(5)), Au::new(2));
    assert_eq!(Au::new(5).sub(Au::new(7)).to_i32(), -2);
    assert_eq!(Au::new(100).sub(Au::new(-30)).to_i32(), 130);
}

#[test]
fn sub_saturates() {
    assert_eq!(Au::new(MIN_AU).sub(Au::new(1)).to_i32(), MIN_AU);
    assert_eq!(Au::new(MAX_AU).sub(Au::new(-1)).to_i32(), MAX_AU);
    assert_eq!(Au::new(MIN_AU).sub(Au::new(MAX_AU)).to_i32(), MIN_AU);
    assert_eq!(Au::new(MAX_AU).sub(Au::new(MIN_AU)).to_i32(), MAX_AU);
}

#[test]
fn neg_negates() {
    assert_eq!(Au::new(7).neg().to_i32(), -7);
    assert_eq!(Au::new(-7).neg().to_i32(), 7);
    assert_eq!(Au::zero().neg().to_i32(), 0);
    assert_eq!(Au::new(MAX_AU).neg().to_i32(), MIN_AU);
    assert_eq!(Au::new(MIN_AU).neg().to_i32(), MAX_AU);
}

#[test]
fn add_adds() {
    assert_eq!(Au::new(7).add(Au::new(5)).to_i32(), 12);
    assert_eq!(Au::new(7).add(Au::new(-9)).to_i32(), -2);
    assert_eq!(Au::new(18).add(Au::new(18)).to_i32(), 36);
}

#[test]
fn add_saturates() {
    assert_eq!(Au::new(MAX_AU).add(Au::new(1)).to_i32(), MAX_AU);
    assert_eq!(Au::new(MIN_AU).add(Au::new(-1)).to_i32(), MIN_AU);
    assert_eq!(Au::new(MAX_AU).add(Au::new(MAX_AU)).to_i32(), MAX_AU);
    assert_eq!(Au::new(MIN_AU).add(Au::new(MIN_AU)).to_i32(), MIN_AU);
}
