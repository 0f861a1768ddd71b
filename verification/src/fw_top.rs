//! The firmware-top address: the upper bound of the firmware image region.

use vstd::prelude::*;

use crate::address::{
    address_of, decimal_text, hex_text, lemma_decimal_round_trip, lemma_hex_round_trip,
    parse_address,
};
use crate::error::Error;
use crate::mode::ConfigType;

verus! {

/// No firmware image reaches above 4 GiB; this is also the bound when none is given.
pub const FW_TOP_CEILING: u64 = 0x1_0000_0000;

/// The firmware top lies on a 4 KiB boundary.
pub const FW_TOP_ALIGNMENT: u64 = 0x1000;

/// Whether `value` may serve as a firmware top: at most 4 GiB and 4 KiB-aligned.
pub open spec fn is_fw_top(value: u64) -> bool {
    value <= FW_TOP_CEILING && value % FW_TOP_ALIGNMENT == 0
}

/// The verdict on a parsed firmware top: the range is judged before the alignment.
pub open spec fn checked_fw_top(value: u64) -> Result<u64, Error> {
    if value > FW_TOP_CEILING {
        Err(Error::Range)
    } else if value % FW_TOP_ALIGNMENT != 0 {
        Err(Error::Alignment)
    } else {
        Ok(value)
    }
}

/// The verdict on the firmware-top argument as it came from the command line.
///
/// An argument is turned down outside the image mode before it is looked at;
/// without an argument the bound is the ceiling, whatever the mode.
pub open spec fn validated_fw_top(mode: ConfigType, fw_top: Option<Seq<char>>) -> Result<
    u64,
    Error,
> {
    match fw_top {
        None => Ok(FW_TOP_CEILING),
        Some(text) => if mode != ConfigType::Image {
            Err(Error::Usage)
        } else {
            match address_of(text) {
                None => Err(Error::Parse),
                Some(value) => checked_fw_top(value),
            }
        },
    }
}

/// Accepts `value` as a firmware top if it is at most 4 GiB and 4 KiB-aligned.
///
/// Fails with [`Error::Range`] above 4 GiB, else with [`Error::Alignment`]
/// off a 4 KiB boundary.
pub fn check_fw_top(value: u64) -> (r: Result<u64, Error>)
    ensures
        r == checked_fw_top(value),
        r is Ok <==> is_fw_top(value),
        r is Ok ==> r == Ok::<u64, Error>(value),
        value > FW_TOP_CEILING ==> r == Err::<u64, Error>(Error::Range),
        value <= FW_TOP_CEILING && value % FW_TOP_ALIGNMENT != 0 ==> r == Err::<u64, Error>(
            Error::Alignment,
        ),
{
    if value > FW_TOP_CEILING {
        Err(Error::Range)
    } else if value % FW_TOP_ALIGNMENT != 0 {
        Err(Error::Alignment)
    } else {
        Ok(value)
    }
}

/// Validates the firmware-top argument and yields the bound for the image layout.
///
/// Without an argument the bound is [`FW_TOP_CEILING`]. An argument outside the
/// image mode fails with [`Error::Usage`]; in the image mode it is parsed as an
/// address literal and judged by [`check_fw_top`].
pub fn validate_fw_top(mode: ConfigType, fw_top: Option<&str>) -> (r: Result<u64, Error>)
    ensures
        r == validated_fw_top(mode, fw_top.deep_view()),
        fw_top is None ==> r == Ok::<u64, Error>(FW_TOP_CEILING),
        fw_top is Some && mode == ConfigType::Memory ==> r == Err::<u64, Error>(Error::Usage),
        r matches Ok(bound) ==> is_fw_top(bound),
{
    match fw_top {
        None => Ok(FW_TOP_CEILING),
        Some(text) => {
            if mode != ConfigType::Image {
                return Err(Error::Usage);
            }
            match parse_address(text) {
                Err(_) => Err(Error::Parse),
                Ok(value) => check_fw_top(value),
            }
        },
    }
}

/// In the image mode an address literal passes exactly if the address it
/// denotes is at most 4 GiB and 4 KiB-aligned; the verdict is that of
/// [`check_fw_top`] on the address.
pub proof fn lemma_image_verdict(text: Seq<char>, value: u64)
    requires
        address_of(text) == Some(value),
    ensures
        validated_fw_top(ConfigType::Image, Some(text)) == checked_fw_top(value),
        validated_fw_top(ConfigType::Image, Some(text)) is Ok <==> is_fw_top(value),
{
}

/// Written in decimal or in hexadecimal, an address passes in the image mode
/// exactly if it is at most 4 GiB and 4 KiB-aligned, and then it is the bound.
pub proof fn lemma_written_fw_top(value: u64, upper: bool)
    ensures
        validated_fw_top(ConfigType::Image, Some(decimal_text(value as nat))) == checked_fw_top(
            value,
        ),
        validated_fw_top(ConfigType::Image, Some(hex_text(value as nat, upper))) == checked_fw_top(
            value,
        ),
        checked_fw_top(value) is Ok <==> is_fw_top(value),
        checked_fw_top(value) is Ok ==> checked_fw_top(value) == Ok::<u64, Error>(value),
{
    lemma_decimal_round_trip(value as nat);
    lemma_hex_round_trip(value as nat, upper);
}

} // verus!
