use arch::bits::{bit_range_mask, check_subset, conditional_select, for_each_bitpos};

#[test]
fn check_subset_accepts_subset() {
    assert_eq!(check_subset(0b1010, 0b1110), Ok(()));
    assert_eq!(check_subset(0, 0), Ok(()));
    assert_eq!(check_subset(u64::MAX, u64::MAX), Ok(()));
}

#[test]
fn check_subset_reports_bits_only_in_src() {
    assert_eq!(check_subset(0b1011, 0b1010), Err(0b0001));
    assert_eq!(check_subset(u64::MAX, 0), Err(u64::MAX));
    assert_eq!(check_subset(1 << 63, 1 << 62), Err(1 << 63));
}

#[test]
fn conditional_select_picks_by_condition() {
    assert_eq!(conditional_select(0x481, 0x48d, true), 0x481);
    assert_eq!(conditional_select(0x481, 0x48d, false), 0x48d);
    assert_eq!(conditional_select(u32::MAX, 0, false), 0);
    assert_eq!(conditional_select(u32::MAX, 0, true), u32::MAX);
}

#[test]
fn for_each_bitpos_lists_set_bits_ascending() {
    assert_eq!(for_each_bitpos(0b1010_0001), vec![0, 5, 7]);
    assert_eq!(for_each_bitpos(0), Vec::<u8>::new());
    assert_eq!(for_each_bitpos(1 << 63), vec![63]);
    assert_eq!(for_each_bitpos(u64::MAX), (0u8..64).collect::<Vec<u8>>());
}

#[test]
fn bit_range_mask_sets_inclusive_range() {
    assert_eq!(bit_range_mask(16, 24), 0x01ff_0000);
    assert_eq!(bit_range_mask(25, 27), 0x0e00_0000);
    assert_eq!(bit_range_mask(1, 9), 0x3fe);
    assert_eq!(bit_range_mask(48, 53), 0x003f_0000_0000_0000);
    assert_eq!(bit_range_mask(0, 63), u64::MAX);
    assert_eq!(bit_range_mask(5, 5), 1 << 5);
    assert_eq!(bit_range_mask(6, 5), 0);
}
