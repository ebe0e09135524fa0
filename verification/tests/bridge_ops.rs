use minibreak::bridge::{combine_u32, File, BRIDGE_OP_COMPLETE};

#[test]
fn status_word_one_means_complete() {
    assert!(File::check_op_complete(BRIDGE_OP_COMPLETE));
    assert!(!File::check_op_complete(0));
    assert!(!File::check_op_complete(2));
}

#[test]
fn blocking_wait_ends_on_the_first_complete_poll() {
    assert_eq!(File::block_op_complete(&vec![0, 0, 1, 0, 1]), 2);
    assert_eq!(File::block_op_complete(&vec![1]), 0);
    assert_eq!(File::block_op_complete(&vec![3, 2, 0, 1]), 3);
}

#[test]
fn cycle_counter_halves_assemble_high_over_low() {
    assert_eq!(combine_u32(0x89AB_CDEF, 0x0123_4567), 0x0123_4567_89AB_CDEF);
    assert_eq!(combine_u32(0, 0), 0);
    assert_eq!(combine_u32(u32::MAX, u32::MAX), u64::MAX);
    assert_eq!(combine_u32(7, 0), 7);
    assert_eq!(combine_u32(0, 1), 0x1_0000_0000);
}
