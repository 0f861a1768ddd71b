use td_layout_cli::{
    check_fw_top, validate_fw_top, ConfigType, Error, FW_TOP_ALIGNMENT, FW_TOP_CEILING,
};

#[test]
fn the_ceiling_is_four_gib_and_the_alignment_four_kib() {
    assert_eq!(FW_TOP_CEILING, 4294967296);
    assert_eq!(FW_TOP_ALIGNMENT, 4096);
}

#[test]
fn aligned_values_up_to_the_ceiling_pass() {
    assert_eq!(check_fw_top(0), Ok(0));
    assert_eq!(check_fw_top(0x1000), Ok(0x1000));
    assert_eq!(check_fw_top(0xffff_f000), Ok(0xffff_f000));
    assert_eq!(check_fw_top(0x1_0000_0000), Ok(0x1_0000_0000));
}

#[test]
fn values_above_the_ceiling_are_out_of_range() {
    assert_eq!(check_fw_top(0x1_0000_0001), Err(Error::Range));
    assert_eq!(check_fw_top(0x1_0000_1000), Err(Error::Range));
    assert_eq!(check_fw_top(u64::MAX), Err(Error::Range));
}

#[test]
fn values_off_the_boundary_are_misaligned() {
    assert_eq!(check_fw_top(1), Err(Error::Alignment));
    assert_eq!(check_fw_top(0xfff), Err(Error::Alignment));
    assert_eq!(check_fw_top(0x1001), Err(Error::Alignment));
    assert_eq!(check_fw_top(0x1800), Err(Error::Alignment));
    assert_eq!(check_fw_top(0xffff_ffff), Err(Error::Alignment));
}

#[test]
fn the_range_is_judged_before_the_alignment() {
    assert_eq!(check_fw_top(0x1_0000_0001), Err(Error::Range));
    assert_eq!(check_fw_top(0x2_0000_0fff), Err(Error::Range));
}

#[test]
fn check_accepts_exactly_the_aligned_values_within_range() {
    let samples: [u64; 10] = [
        0,
        1,
        0x0fff,
        0x1000,
        0x2000,
        0x2001,
        0xffff_f000,
        0x1_0000_0000,
        0x1_0000_0001,
        0x1_0000_1000,
    ];
    for value in samples {
        let accepted: bool = value <= 0x1_0000_0000 && value % 0x1000 == 0;
        assert_eq!(check_fw_top(value).is_ok(), accepted);
        if accepted {
            assert_eq!(check_fw_top(value), Ok(value));
        }
    }
}

#[test]
fn without_an_argument_the_bound_is_the_ceiling() {
    assert_eq!(validate_fw_top(ConfigType::Image, None), Ok(0x1_0000_0000));
    assert_eq!(validate_fw_top(ConfigType::Memory, None), Ok(0x1_0000_0000));
}

#[test]
fn an_argument_in_memory_mode_is_a_usage_error() {
    assert_eq!(validate_fw_top(ConfigType::Memory, Some("0x1000")), Err(Error::Usage));
}

#[test]
fn an_argument_in_memory_mode_is_not_even_parsed() {
    assert_eq!(validate_fw_top(ConfigType::Memory, Some("not an address")), Err(Error::Usage));
    assert_eq!(validate_fw_top(ConfigType::Memory, Some("0x1001")), Err(Error::Usage));
    assert_eq!(validate_fw_top(ConfigType::Memory, Some("")), Err(Error::Usage));
}

#[test]
fn image_mode_accepts_an_aligned_address() {
    assert_eq!(validate_fw_top(ConfigType::Image, Some("0x1000")), Ok(0x1000));
    assert_eq!(validate_fw_top(ConfigType::Image, Some("4096")), Ok(4096));
    assert_eq!(validate_fw_top(ConfigType::Image, Some("0x100000000")), Ok(0x1_0000_0000));
    assert_eq!(validate_fw_top(ConfigType::Image, Some("0")), Ok(0));
}

#[test]
fn image_mode_rejects_a_misaligned_address() {
    assert_eq!(validate_fw_top(ConfigType::Image, Some("0x1001")), Err(Error::Alignment));
    assert_eq!(validate_fw_top(ConfigType::Image, Some("4097")), Err(Error::Alignment));
}

#[test]
fn image_mode_rejects_an_address_above_four_gib() {
    assert_eq!(validate_fw_top(ConfigType::Image, Some("0x100000001")), Err(Error::Range));
    assert_eq!(validate_fw_top(ConfigType::Image, Some("0x200000000")), Err(Error::Range));
    assert_eq!(validate_fw_top(ConfigType::Image, Some("4294967297")), Err(Error::Range));
}

#[test]
fn image_mode_rejects_a_malformed_literal() {
    assert_eq!(validate_fw_top(ConfigType::Image, Some("top")), Err(Error::Parse));
    assert_eq!(validate_fw_top(ConfigType::Image, Some("")), Err(Error::Parse));
    assert_eq!(validate_fw_top(ConfigType::Image, Some("0x")), Err(Error::Parse));
    assert_eq!(
        validate_fw_top(ConfigType::Image, Some("0x10000000000000000")),
        Err(Error::Parse)
    );
}
