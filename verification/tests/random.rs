use pebbles_game::{get_random_num_1_to_k, get_random_u32, PebblesError};

#[test]
fn random_u32_reads_the_first_four_bytes_least_significant_first() {
    let mut hash = [0u8; 32];
    hash[0] = 0x78;
    hash[1] = 0x56;
    hash[2] = 0x34;
    hash[3] = 0x12;
    assert_eq!(get_random_u32(&hash), 0x1234_5678);
    assert_eq!(get_random_u32(&hash), u32::from_le_bytes([0x78, 0x56, 0x34, 0x12]));
}

#[test]
fn random_u32_ignores_the_other_bytes() {
    let mut hash = [0xffu8; 32];
    hash[0] = 1;
    hash[1] = 0;
    hash[2] = 0;
    hash[3] = 0;
    assert_eq!(get_random_u32(&hash), 1);
}

#[test]
fn random_u32_covers_the_whole_range() {
    assert_eq!(get_random_u32(&[0u8; 32]), 0);
    assert_eq!(get_random_u32(&[0xffu8; 32]), u32::MAX);
}

#[test]
fn one_to_k_is_one_more_than_the_remainder() {
    assert_eq!(get_random_num_1_to_k(4, 10), Ok(3));
    assert_eq!(get_random_num_1_to_k(4, 0), Ok(1));
    assert_eq!(get_random_num_1_to_k(4, 3), Ok(4));
    assert_eq!(get_random_num_1_to_k(4, 4), Ok(1));
    assert_eq!(get_random_num_1_to_k(10, 123_456_789), Ok(10));
}

#[test]
fn one_to_k_with_a_range_of_one() {
    assert_eq!(get_random_num_1_to_k(1, 0), Ok(1));
    assert_eq!(get_random_num_1_to_k(1, u32::MAX), Ok(1));
}

#[test]
fn one_to_k_at_the_largest_values() {
    assert_eq!(get_random_num_1_to_k(u32::MAX, u32::MAX), Ok(1));
    assert_eq!(get_random_num_1_to_k(u32::MAX, u32::MAX - 1), Ok(u32::MAX));
}

#[test]
fn one_to_k_refuses_an_empty_range() {
    assert_eq!(get_random_num_1_to_k(0, 0), Err(PebblesError::InvalidArgument));
    assert_eq!(get_random_num_1_to_k(0, 17), Err(PebblesError::InvalidArgument));
}

#[test]
fn one_to_k_stays_in_range() {
    for k in 1..=20u32 {
        for r in 0..200u32 {
            let value = get_random_num_1_to_k(k, r).unwrap();
            assert!(1 <= value && value <= k);
            assert_eq!(value, 1 + r % k);
        }
    }
}
