//! Protocol constants for the two control surfaces.
//!
//! Every magic number, sub-command identifier and timing figure used by the
//! transports and codecs is named here so the rest of the crate references
//! named constants instead of raw hex.

use vstd::prelude::*;

verus! {

// ---------------------------------------------------------------------------
// USB device identifiers
// ---------------------------------------------------------------------------

/// Vendor ID shared by both card families.
pub const VENDOR_ID: u16 = 0x0fd9;

/// UVC-surface card, 10 Gbps / SuperSpeed+ mode.
pub const PID_4KX_10G: u16 = 0x009b;
/// UVC-surface card, 5 Gbps / SuperSpeed mode.
pub const PID_4KX_5G: u16 = 0x009c;
/// UVC-surface card, USB 2.0 fallback mode.
pub const PID_4KX_USB2: u16 = 0x009d;

/// HID-surface card, USB 3.0 mode.
pub const PID_4KS_USB3: u16 = 0x00af;
/// HID-surface card, USB 2.0 fallback mode.
pub const PID_4KS_USB2: u16 = 0x00ae;

// ---------------------------------------------------------------------------
// HID protocol (Surface B) — SET_REPORT / GET_REPORT on Interface 7
// ---------------------------------------------------------------------------

/// bmRequestType for host-to-device class request.
pub const HID_REQUEST_TYPE_OUT: u8 = 0x21;
/// bmRequestType for device-to-host class request.
pub const HID_REQUEST_TYPE_IN: u8 = 0xA1;
/// HID SET_REPORT bRequest.
pub const HID_SET_REPORT: u8 = 0x09;
/// HID GET_REPORT bRequest.
pub const HID_GET_REPORT: u8 = 0x01;
/// wValue for Output Report (Report Type=Output 0x02, Report ID=0x06).
pub const HID_REPORT_VALUE_OUTPUT: u16 = 0x0206;
/// wValue for Input Report (Report Type=Input 0x01, Report ID=0x06).
pub const HID_REPORT_VALUE_INPUT: u16 = 0x0106;
/// HID interface number on the HID-surface card.
pub const HID_INTERFACE: u16 = 7;
/// Fixed HID report size (all packets are zero-padded to 255 bytes).
pub const HID_PACKET_SIZE: usize = 255;
/// Report ID prepended to every HID packet.
pub const HID_REPORT_ID: u8 = 0x06;

/// HID read command byte (cmd field in read request packets).
pub const HID_READ_CMD: u8 = 0x55;

// ---------------------------------------------------------------------------
// HID sub-command IDs (Surface B)
// ---------------------------------------------------------------------------

/// Firmware version read, 8 bytes.
pub const SUBCMD_FIRMWARE_VERSION: u8 = 0x02;
/// Audio input selection, 1 byte.
pub const SUBCMD_AUDIO_INPUT: u8 = 0x08;
/// HDR tone mapping, 1 byte.
pub const SUBCMD_HDR_TONEMAPPING: u8 = 0x0a;
/// HDMI color range, 1 byte.
pub const SUBCMD_COLOR_RANGE: u8 = 0x0b;
/// EDID mode, 1 byte.
pub const SUBCMD_EDID_MODE: u8 = 0x12;
/// Commit/apply — written with value 0x01 as the second packet to apply changes.
pub const SUBCMD_COMMIT: u8 = 0x13;
/// Video scaler, 1 byte.
pub const SUBCMD_VIDEO_SCALER: u8 = 0x19;

// ---------------------------------------------------------------------------
// UVC Extension Unit protocol (Surface A)
// ---------------------------------------------------------------------------

/// bmRequestType for UVC class request (host-to-device).
pub const UVC_REQUEST_TYPE_OUT: u8 = 0x21;
/// bmRequestType for UVC class request (device-to-host).
pub const UVC_REQUEST_TYPE_IN: u8 = 0xA1;
/// SET_CUR bRequest.
pub const UVC_SET_CUR: u8 = 0x01;
/// GET_CUR bRequest.
pub const UVC_GET_CUR: u8 = 0x81;
/// GET_LEN bRequest — queries the current descriptor length for a selector.
/// The device changes this after a SET_CUR to reflect the response size.
pub const UVC_GET_LEN: u8 = 0x85;
/// UVC interface number carrying the Extension Unit.
pub const UVC_INTERFACE: u16 = 0;
/// Extension Unit entity ID.
pub const UVC_ENTITY_ID: u16 = 4;
/// Selector for trigger/length data.
pub const UVC_SELECTOR_TRIGGER: u16 = 0x02;
/// Selector for payload/value data.
pub const UVC_SELECTOR_VALUE: u16 = 0x01;

/// Family tag byte that begins every Extension-Unit payload.
pub const UVC_FAMILY_TAG: u8 = 0xa1;

/// Family byte of color-range read responses (9-byte layout).
pub const UVC_FAMILY_COLOR_RANGE: u8 = 0x06;
/// Family byte of HDR tone-mapping payloads and responses (10-byte layout).
pub const UVC_FAMILY_HDR: u8 = 0x07;
/// Family byte of EDID-range-policy payloads and responses (11-byte layout).
pub const UVC_FAMILY_EDID_RANGE: u8 = 0x08;
/// Family byte of EDID-source / custom-EDID payloads and responses (13-byte layout).
pub const UVC_FAMILY_EDID_SOURCE: u8 = 0x0a;

// ---------------------------------------------------------------------------
// UVC sub-command IDs (byte 4 in family 0x06/0x07 probe payloads)
// ---------------------------------------------------------------------------

/// Sub-command: read firmware version.
pub const UVC_SUBCMD_FIRMWARE_VERSION: u8 = 0x77;
/// Sub-command: read EDID range policy / HDMI color range (family 0x07,
/// 10-byte probe). Response byte 4 mirrors the write payload's byte 9:
/// 0x00=Auto, 0x03=Expand, 0x04=Shrink.
pub const UVC_SUBCMD_EDID_RANGE_READ: u8 = 0x91;
/// Sub-command: read HDR tone mapping state (family 0x06).
/// Response byte 4: 0x01=On, 0x00=Off.
pub const UVC_SUBCMD_HDR_READ: u8 = 0x90;
/// Sub-command: probe the USB-speed command through the family 0x06 layout.
/// Response byte 4 carries the mode: 0x00=5Gbps, 0x01=10Gbps.
pub const UVC_SUBCMD_USB_SPEED: u8 = 0x8e;
/// Extended-command ID for setting the USB speed (UVC-surface card only).
/// Input: `[01 00 00 00, speed 00 00 00]` with speed 0x00 (5G) or 0x03 (10G).
pub const AT_CMD_SET_USB_SPEED: u32 = 0x8e;

// ---------------------------------------------------------------------------
// BCD validation constants (for firmware version decoding)
// ---------------------------------------------------------------------------

/// Maximum valid BCD month (0x12 = December).
pub const BCD_MAX_MONTH: u8 = 0x12;
/// Maximum valid BCD day (0x31 = the 31st).
pub const BCD_MAX_DAY: u8 = 0x31;

// ---------------------------------------------------------------------------
// Timing
// ---------------------------------------------------------------------------
// The delays are reverse-engineered device-settling requirements observed in
// USB captures of the vendor's own software; shorter intervals make the
// device ignore or corrupt the second half of a sequence.

/// Default USB control transfer timeout, in milliseconds.
pub const USB_TIMEOUT_MS: u64 = 1000;
/// Inter-packet delay for two-packet HID writes, in milliseconds.
pub const HID_INTER_PACKET_DELAY_MS: u64 = 1;
/// Delay after a HID read request before GET_REPORT, in milliseconds.
pub const HID_READ_DELAY_MS: u64 = 10;
/// Delay between consecutive setting changes, in milliseconds.
pub const SETTING_APPLY_DELAY_MS: u64 = 100;

} // verus!
