//! Input validation and dispatch for the TD layout configuration tool.
//!
//! The tool turns a configuration text into a memory layout or an image
//! layout and writes the result to standard output, to a file, or to both.
//! This library holds what the tool decides before and after the layout is
//! computed:
//!
//! - [`parse_address`] reads an address literal, decimal or hexadecimal;
//! - [`validate_fw_top`] holds the firmware-top argument to its mode, to the
//!   4 GiB ceiling and to 4 KiB alignment;
//! - [`InvocationRequest`] is one invocation after every check, and its
//!   [`dispatch`](InvocationRequest::dispatch) selects the layout computation;
//! - [`OutputSink`] plans the writes that deliver the layout.
//!
//! Nothing here reads or writes: the caller supplies the configuration text,
//! runs the computation named by a [`LayoutCall`] and performs each
//! [`Delivery`]. Every function is total and verified against a specification
//! over sequences of characters and bytes.

pub mod address;
pub mod error;
pub mod fw_top;
pub mod mode;
pub mod output;
pub mod request;

pub use address::parse_address;
pub use error::Error;
pub use fw_top::{check_fw_top, validate_fw_top, FW_TOP_ALIGNMENT, FW_TOP_CEILING};
pub use mode::ConfigType;
pub use output::{Delivery, OutputSink};
pub use request::{InvocationRequest, LayoutCall};
