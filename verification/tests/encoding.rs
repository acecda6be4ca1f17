use mock_relayer::encoding::render_signal;

#[test]
fn signal_of_zero_is_all_zeros() {
    assert_eq!(
        render_signal(0),
        "0x0000000000000000000000000000000000000000000000000000000000000000"
    );
}

#[test]
fn signal_of_the_largest_word() {
    assert_eq!(
        render_signal(u64::MAX),
        "0x000000000000000000000000000000000000000000000000ffffffffffffffff"
    );
}

#[test]
fn signal_digits_are_lower_case_and_most_significant_first() {
    assert_eq!(
        render_signal(0x0123_4567_89ab_cdef),
        "0x0000000000000000000000000000000000000000000000000123456789abcdef"
    );
}

#[test]
fn signal_agrees_with_padded_formatting() {
    for x in [1u64, 15, 16, 255, 4096, 0xdead_beef, 1 << 63, 0x1f2e_3d4c_5b6a_7988] {
        assert_eq!(render_signal(x), format!("0x{:064x}", x));
    }
}
