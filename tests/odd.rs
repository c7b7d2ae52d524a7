use voxel_pong::odd::Odd;
use voxel_pong::positive::Positive;

#[test]
fn test_odd() {
    assert_eq!(Odd::<u32>::new(3), Some(Odd::<u32>::new_panics(3)));
    assert_eq!(Odd::<u32>::new(2), None);
    assert_eq!(Odd::<u32>::new_panics(3).value(), 3);
}

#[test]
fn odd_rejects_even_and_keeps_odd_values() {
    assert_eq!(Odd::<u8>::new(0), None);
    assert_eq!(Odd::<u8>::new(255).map(|o| o.value()), Some(255));
    assert_eq!(Odd::<u64>::new(7).map(|o| o.value()), Some(7));
    assert_eq!(Odd::<usize>::new(10), None);
}

#[test]
fn positive_accepts_only_values_above_zero() {
    assert_eq!(Positive::<u32>::new(0), None);
    assert_eq!(Positive::<u32>::new(5).map(|p| p.value()), Some(5));
    assert_eq!(Positive::<i32>::new(-3), None);
    assert_eq!(Positive::<i64>::new(1).map(|p| p.value()), Some(1));
}
