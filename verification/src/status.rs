//! Status decoding: classify raw response bytes into typed values.
//!
//! Single status bytes from the HID surface are decoded by a direct
//! value-to-enum table per setting family; unmapped bytes become
//! [`ReadValue::Unknown`], never an error. UVC-surface responses are matched
//! by fixed offsets against a family tag and, where applicable, a secondary
//! type byte; a response that does not match the expected layout decodes to
//! nothing rather than an error. Firmware dates that fail their range check
//! fall back to the raw bytes rather than a parsed value.

use vstd::prelude::*;
use vstd::string::*;

use crate::error::ElgatoError;
use crate::protocol::BCD_MAX_DAY;
use crate::protocol::BCD_MAX_MONTH;
use crate::settings::AudioInput;
use crate::settings::CustomEdidMode;
use crate::settings::EdidRangePolicy;
use crate::settings::EdidSource;
use crate::settings::HdrToneMapping;
use crate::settings::VideoScaler;
use crate::text::push_dec;
use crate::text::push_dec2;
use crate::text::push_hex2;
use crate::text::push_hex8;
use crate::text::push_hex_dump;
use crate::text::spec_dec;
use crate::text::spec_dec2;
use crate::text::spec_hex2;
use crate::text::spec_hex8;
use crate::text::spec_hex_dump;

verus! {

// ---------------------------------------------------------------------------
// Public types
// ---------------------------------------------------------------------------

/// A value read from the device that may be a known enum variant or an
/// unrecognized raw byte.
#[derive(Debug, Clone, PartialEq, Eq)]
pub enum ReadValue<T> {
    /// A recognized, strongly-typed value.
    Known(T),
    /// An unrecognized byte from the device.
    Unknown(u8),
}

/// The label of an unrecognized status byte, rendered in hex.
pub open spec fn spec_unknown_label(b: u8) -> Seq<char> {
    "Unknown (0x"@ + spec_hex2(b) + ")"@
}

fn unknown_label(b: u8) -> (s: String)
    ensures
        s@ == spec_unknown_label(b),
{
    let mut s = String::from_str("Unknown (0x");
    push_hex2(&mut s, b);
    s.append(")");
    proof {
        assert(s@ =~= spec_unknown_label(b));
    }
    s
}

impl ReadValue<HdrToneMapping> {
    pub open spec fn spec_label(self) -> Seq<char> {
        match self {
            ReadValue::Known(v) => v.spec_label(),
            ReadValue::Unknown(b) => spec_unknown_label(b),
        }
    }

    /// The value's human-readable name; unknown bytes render in hex.
    pub fn to_string(&self) -> (s: String)
        ensures
            s@ == self.spec_label(),
    {
        match self {
            ReadValue::Known(v) => v.to_string(),
            ReadValue::Unknown(b) => unknown_label(*b),
        }
    }
}

impl ReadValue<EdidRangePolicy> {
    pub open spec fn spec_label(self) -> Seq<char> {
        match self {
            ReadValue::Known(v) => v.spec_label(),
            ReadValue::Unknown(b) => spec_unknown_label(b),
        }
    }

    /// The value's human-readable name; unknown bytes render in hex.
    pub fn to_string(&self) -> (s: String)
        ensures
            s@ == self.spec_label(),
    {
        match self {
            ReadValue::Known(v) => v.to_string(),
            ReadValue::Unknown(b) => unknown_label(*b),
        }
    }
}

impl ReadValue<EdidSource> {
    pub open spec fn spec_label(self) -> Seq<char> {
        match self {
            ReadValue::Known(v) => v.spec_label(),
            ReadValue::Unknown(b) => spec_unknown_label(b),
        }
    }

    /// The value's human-readable name; unknown bytes render in hex.
    pub fn to_string(&self) -> (s: String)
        ensures
            s@ == self.spec_label(),
    {
        match self {
            ReadValue::Known(v) => v.to_string(),
            ReadValue::Unknown(b) => unknown_label(*b),
        }
    }
}

impl ReadValue<AudioInput> {
    pub open spec fn spec_label(self) -> Seq<char> {
        match self {
            ReadValue::Known(v) => v.spec_label(),
            ReadValue::Unknown(b) => spec_unknown_label(b),
        }
    }

    /// The value's human-readable name; unknown bytes render in hex.
    pub fn to_string(&self) -> (s: String)
        ensures
            s@ == self.spec_label(),
    {
        match self {
            ReadValue::Known(v) => v.to_string(),
            ReadValue::Unknown(b) => unknown_label(*b),
        }
    }
}

impl ReadValue<VideoScaler> {
    pub open spec fn spec_label(self) -> Seq<char> {
        match self {
            ReadValue::Known(v) => v.spec_label(),
            ReadValue::Unknown(b) => spec_unknown_label(b),
        }
    }

    /// The value's human-readable name; unknown bytes render in hex.
    pub fn to_string(&self) -> (s: String)
        ensures
            s@ == self.spec_label(),
    {
        match self {
            ReadValue::Known(v) => v.to_string(),
            ReadValue::Unknown(b) => unknown_label(*b),
        }
    }
}

/// USB speed mode reported by the device (read-only status, not the
/// writable [`crate::settings::UsbSpeed`] setting).
#[derive(Debug, Clone, Copy, PartialEq, Eq, Structural)]
pub enum UsbSpeedStatus {
    /// 5 Gbps SuperSpeed.
    FiveGbps,
    /// 10 Gbps SuperSpeed+.
    TenGbps,
}

impl UsbSpeedStatus {
    pub open spec fn spec_label(self) -> Seq<char> {
        match self {
            UsbSpeedStatus::FiveGbps => "5Gbps (SuperSpeed)"@,
            UsbSpeedStatus::TenGbps => "10Gbps (SuperSpeed+)"@,
        }
    }

    /// The value's human-readable name.
    pub fn to_string(&self) -> (s: String)
        ensures
            s@ == self.spec_label(),
    {
        match self {
            UsbSpeedStatus::FiveGbps => String::from_str("5Gbps (SuperSpeed)"),
            UsbSpeedStatus::TenGbps => String::from_str("10Gbps (SuperSpeed+)"),
        }
    }
}

impl ReadValue<UsbSpeedStatus> {
    pub open spec fn spec_label(self) -> Seq<char> {
        match self {
            ReadValue::Known(v) => v.spec_label(),
            ReadValue::Unknown(b) => spec_unknown_label(b),
        }
    }

    /// The value's human-readable name; unknown bytes render in hex.
    pub fn to_string(&self) -> (s: String)
        ensures
            s@ == self.spec_label(),
    {
        match self {
            ReadValue::Known(v) => v.to_string(),
            ReadValue::Unknown(b) => unknown_label(*b),
        }
    }
}

/// Custom EDID preset state as read from the device (UVC-surface card only).
#[derive(Debug, Clone, PartialEq, Eq, Structural)]
pub enum CustomEdidStatus {
    /// Custom EDID is disabled.
    Off,
    /// Custom EDID is enabled with the given preset index.
    On {
        /// The preset index selected on the device.
        preset_index: u8,
    },
}

impl CustomEdidStatus {
    pub open spec fn spec_label(self) -> Seq<char> {
        match self {
            CustomEdidStatus::Off => "Off"@,
            CustomEdidStatus::On { preset_index } => {
                "On (preset index "@ + spec_dec(preset_index as int) + ")"@
            },
        }
    }

    /// The value's human-readable name.
    pub fn to_string(&self) -> (s: String)
        ensures
            s@ == self.spec_label(),
    {
        match self {
            CustomEdidStatus::Off => String::from_str("Off"),
            CustomEdidStatus::On { preset_index } => {
                let mut s = String::from_str("On (preset index ");
                push_dec(&mut s, *preset_index as u64);
                s.append(")");
                proof {
                    assert(s@ =~= self.spec_label());
                }
                s
            },
        }
    }
}

/// All readable settings from a device.
///
/// Fields are `None` when a setting is not applicable to the device model
/// or when the device returned an unexpected or unreadable response.
#[derive(Debug, Clone)]
pub struct DeviceStatus {
    /// Firmware version string (for example "25.02.10").
    pub firmware_version: String,
    /// USB speed mode (UVC-surface card only).
    pub usb_speed: Option<ReadValue<UsbSpeedStatus>>,
    /// HDMI color range setting.
    pub hdmi_color_range: Option<ReadValue<EdidRangePolicy>>,
    /// HDR tone mapping setting.
    pub hdr_tone_mapping: Option<ReadValue<HdrToneMapping>>,
    /// EDID range policy (UVC-surface card only).
    pub edid_range_policy: Option<ReadValue<EdidRangePolicy>>,
    /// EDID source selection.
    pub edid_source: Option<ReadValue<EdidSource>>,
    /// Custom EDID preset state (UVC-surface card only).
    pub custom_edid: Option<CustomEdidStatus>,
    /// Audio input source (HID-surface card only).
    pub audio_input: Option<ReadValue<AudioInput>>,
    /// Video scaler state (HID-surface card only).
    pub video_scaler: Option<ReadValue<VideoScaler>>,
}

// ---------------------------------------------------------------------------
// HID single-byte decode tables (Surface B)
// ---------------------------------------------------------------------------

pub open spec fn spec_decode_hdr(v: u8) -> ReadValue<HdrToneMapping> {
    if v == 0x01 {
        ReadValue::Known(HdrToneMapping::On)
    } else if v == 0x00 {
        ReadValue::Known(HdrToneMapping::Off)
    } else {
        ReadValue::Unknown(v)
    }
}

/// Decode an HDR tone mapping status byte.
pub fn decode_hdr(v: u8) -> (r: ReadValue<HdrToneMapping>)
    ensures
        r == spec_decode_hdr(v),
{
    if v == 0x01 {
        ReadValue::Known(HdrToneMapping::On)
    } else if v == 0x00 {
        ReadValue::Known(HdrToneMapping::Off)
    } else {
        ReadValue::Unknown(v)
    }
}

pub open spec fn spec_decode_color_range(v: u8) -> ReadValue<EdidRangePolicy> {
    if v == 0x00 {
        ReadValue::Known(EdidRangePolicy::Auto)
    } else if v == 0x01 {
        ReadValue::Known(EdidRangePolicy::Expand)
    } else if v == 0x02 {
        ReadValue::Known(EdidRangePolicy::Shrink)
    } else {
        ReadValue::Unknown(v)
    }
}

/// Decode an HDMI color range status byte.
pub fn decode_color_range(v: u8) -> (r: ReadValue<EdidRangePolicy>)
    ensures
        r == spec_decode_color_range(v),
{
    if v == 0x00 {
        ReadValue::Known(EdidRangePolicy::Auto)
    } else if v == 0x01 {
        ReadValue::Known(EdidRangePolicy::Expand)
    } else if v == 0x02 {
        ReadValue::Known(EdidRangePolicy::Shrink)
    } else {
        ReadValue::Unknown(v)
    }
}

pub open spec fn spec_decode_edid_mode(v: u8) -> ReadValue<EdidSource> {
    if v == 0x00 {
        ReadValue::Known(EdidSource::Merged)
    } else if v == 0x01 {
        ReadValue::Known(EdidSource::Display)
    } else if v == 0x02 {
        ReadValue::Known(EdidSource::Internal)
    } else {
        ReadValue::Unknown(v)
    }
}

/// Decode an EDID mode status byte.
pub fn decode_edid_mode(v: u8) -> (r: ReadValue<EdidSource>)
    ensures
        r == spec_decode_edid_mode(v),
{
    if v == 0x00 {
        ReadValue::Known(EdidSource::Merged)
    } else if v == 0x01 {
        ReadValue::Known(EdidSource::Display)
    } else if v == 0x02 {
        ReadValue::Known(EdidSource::Internal)
    } else {
        ReadValue::Unknown(v)
    }
}

pub open spec fn spec_decode_audio_input(v: u8) -> ReadValue<AudioInput> {
    if v == 0x00 || v == 0x01 {
        ReadValue::Known(AudioInput::Embedded)
    } else if v == 0x03 {
        ReadValue::Known(AudioInput::Analog)
    } else {
        ReadValue::Unknown(v)
    }
}

/// Decode an audio input status byte.
pub fn decode_audio_input(v: u8) -> (r: ReadValue<AudioInput>)
    ensures
        r == spec_decode_audio_input(v),
{
    if v == 0x00 || v == 0x01 {
        ReadValue::Known(AudioInput::Embedded)
    } else if v == 0x03 {
        ReadValue::Known(AudioInput::Analog)
    } else {
        ReadValue::Unknown(v)
    }
}

pub open spec fn spec_decode_video_scaler(v: u8) -> ReadValue<VideoScaler> {
    if v == 0x01 {
        ReadValue::Known(VideoScaler::On)
    } else if v == 0x00 {
        ReadValue::Known(VideoScaler::Off)
    } else {
        ReadValue::Unknown(v)
    }
}

/// Decode a video scaler status byte.
pub fn decode_video_scaler(v: u8) -> (r: ReadValue<VideoScaler>)
    ensures
        r == spec_decode_video_scaler(v),
{
    if v == 0x01 {
        ReadValue::Known(VideoScaler::On)
    } else if v == 0x00 {
        ReadValue::Known(VideoScaler::Off)
    } else {
        ReadValue::Unknown(v)
    }
}

/// A status byte outside a family's table decodes to `Unknown` carrying that
/// byte — never an error and never a default `Known` value.
pub proof fn lemma_unmapped_status_byte_is_unknown(v: u8)
    ensures
        !(v == 0x00 || v == 0x01) ==> spec_decode_hdr(v) == ReadValue::<HdrToneMapping>::Unknown(v),
        !(v == 0x00 || v == 0x01 || v == 0x02) ==> spec_decode_color_range(v)
            == ReadValue::<EdidRangePolicy>::Unknown(v),
        !(v == 0x00 || v == 0x01 || v == 0x02) ==> spec_decode_edid_mode(v)
            == ReadValue::<EdidSource>::Unknown(v),
        !(v == 0x00 || v == 0x01 || v == 0x03) ==> spec_decode_audio_input(v)
            == ReadValue::<AudioInput>::Unknown(v),
        !(v == 0x00 || v == 0x01) ==> spec_decode_video_scaler(v)
            == ReadValue::<VideoScaler>::Unknown(v),
{
}

// ---------------------------------------------------------------------------
// Encode/decode round trips
// ---------------------------------------------------------------------------

/// Decoding the byte that the Setting Codec writes for a value recovers
/// that value, for every HID-surface setting family. The audio input family
/// is the one exception: the device reports analog input as 0x03 while the
/// codec writes 0x01, so only the embedded value round-trips.
pub proof fn lemma_hid_value_round_trip(
    hdr: HdrToneMapping,
    range: EdidRangePolicy,
    source: EdidSource,
    scaler: VideoScaler,
)
    ensures
        spec_decode_hdr(hdr.spec_value_4ks()) == ReadValue::Known(hdr),
        spec_decode_color_range(range.spec_value_4ks()) == ReadValue::Known(range),
        spec_decode_edid_mode(source.spec_value_4ks()) == ReadValue::Known(source),
        spec_decode_video_scaler(scaler.spec_value_4ks()) == ReadValue::Known(scaler),
        spec_decode_audio_input(AudioInput::Embedded.spec_value_4ks())
            == ReadValue::Known(AudioInput::Embedded),
{
}

// ---------------------------------------------------------------------------
// UVC response decoders (Surface A)
// ---------------------------------------------------------------------------

pub open spec fn spec_decode_uvc_color_range(data: Seq<u8>) -> Option<
    ReadValue<EdidRangePolicy>,
> {
    if data.len() < 9 || data[0] != 0xa1 || data[1] != 0x06 {
        None
    } else if data[4] == 0x43 {
        Some(ReadValue::Known(EdidRangePolicy::Expand))
    } else if data[4] == 0x2b {
        Some(ReadValue::Known(EdidRangePolicy::Shrink))
    } else if data[4] == 0x37 {
        Some(ReadValue::Known(EdidRangePolicy::Auto))
    } else {
        Some(ReadValue::Unknown(data[4]))
    }
}

/// Decode a UVC color range response (family 0x06, 9 bytes).
pub fn decode_uvc_color_range(data: &[u8]) -> (r: Option<ReadValue<EdidRangePolicy>>)
    ensures
        r == spec_decode_uvc_color_range(data@),
{
    if data.len() < 9 || data[0] != 0xa1 || data[1] != 0x06 {
        return None;
    }
    if data[4] == 0x43 {
        Some(ReadValue::Known(EdidRangePolicy::Expand))
    } else if data[4] == 0x2b {
        Some(ReadValue::Known(EdidRangePolicy::Shrink))
    } else if data[4] == 0x37 {
        Some(ReadValue::Known(EdidRangePolicy::Auto))
    } else {
        Some(ReadValue::Unknown(data[4]))
    }
}

pub open spec fn spec_decode_uvc_hdr(data: Seq<u8>) -> Option<ReadValue<HdrToneMapping>> {
    if data.len() < 10 || data[0] != 0xa1 || data[1] != 0x07 || data[4] != 0x1f {
        None
    } else if data[8] == 0x01 {
        Some(ReadValue::Known(HdrToneMapping::On))
    } else if data[8] == 0x00 {
        Some(ReadValue::Known(HdrToneMapping::Off))
    } else {
        Some(ReadValue::Unknown(data[8]))
    }
}

/// Decode a UVC HDR tone mapping response (family 0x07, 10 bytes).
pub fn decode_uvc_hdr(data: &[u8]) -> (r: Option<ReadValue<HdrToneMapping>>)
    ensures
        r == spec_decode_uvc_hdr(data@),
{
    if data.len() < 10 || data[0] != 0xa1 || data[1] != 0x07 || data[4] != 0x1f {
        return None;
    }
    if data[8] == 0x01 {
        Some(ReadValue::Known(HdrToneMapping::On))
    } else if data[8] == 0x00 {
        Some(ReadValue::Known(HdrToneMapping::Off))
    } else {
        Some(ReadValue::Unknown(data[8]))
    }
}

pub open spec fn spec_decode_uvc_edid_range(data: Seq<u8>) -> Option<
    ReadValue<EdidRangePolicy>,
> {
    if data.len() < 11 || data[0] != 0xa1 || data[1] != 0x08 || data[4] != 0x7c {
        None
    } else if data[9] == 0x00 {
        Some(ReadValue::Known(EdidRangePolicy::Auto))
    } else if data[9] == 0x03 {
        Some(ReadValue::Known(EdidRangePolicy::Expand))
    } else if data[9] == 0x04 {
        Some(ReadValue::Known(EdidRangePolicy::Shrink))
    } else {
        Some(ReadValue::Unknown(data[9]))
    }
}

/// Decode a UVC EDID range policy response (family 0x08, 11 bytes).
pub fn decode_uvc_edid_range(data: &[u8]) -> (r: Option<ReadValue<EdidRangePolicy>>)
    ensures
        r == spec_decode_uvc_edid_range(data@),
{
    if data.len() < 11 || data[0] != 0xa1 || data[1] != 0x08 || data[4] != 0x7c {
        return None;
    }
    if data[9] == 0x00 {
        Some(ReadValue::Known(EdidRangePolicy::Auto))
    } else if data[9] == 0x03 {
        Some(ReadValue::Known(EdidRangePolicy::Expand))
    } else if data[9] == 0x04 {
        Some(ReadValue::Known(EdidRangePolicy::Shrink))
    } else {
        Some(ReadValue::Unknown(data[9]))
    }
}

pub open spec fn spec_decode_uvc_edid_source(data: Seq<u8>) -> (
    Option<ReadValue<EdidSource>>,
    Option<CustomEdidStatus>,
) {
    if data.len() < 13 || data[0] != 0xa1 || data[1] != 0x0a {
        (None, None)
    } else if data[4] == 0x4d {
        let v = if data[8] == 0x01 {
            ReadValue::Known(EdidSource::Display)
        } else if data[8] == 0x04 {
            ReadValue::Known(EdidSource::Merged)
        } else if data[8] == 0x00 {
            ReadValue::Known(EdidSource::Internal)
        } else {
            ReadValue::Unknown(data[8])
        };
        (Some(v), None)
    } else if data[4] == 0x54 {
        let status = if data[9] == 0x00 {
            CustomEdidStatus::Off
        } else {
            CustomEdidStatus::On { preset_index: data[9] }
        };
        (None, Some(status))
    } else {
        (None, None)
    }
}

/// Decode a UVC EDID source / custom EDID response (family 0x0a, 13 bytes).
///
/// The same read can legitimately return either shape; one interior type
/// byte disambiguates, so at most one side of the pair is populated.
pub fn decode_uvc_edid_source(data: &[u8]) -> (r: (
    Option<ReadValue<EdidSource>>,
    Option<CustomEdidStatus>,
))
    ensures
        r == spec_decode_uvc_edid_source(data@),
{
    if data.len() < 13 || data[0] != 0xa1 || data[1] != 0x0a {
        return (None, None);
    }
    if data[4] == 0x4d {
        let v = if data[8] == 0x01 {
            ReadValue::Known(EdidSource::Display)
        } else if data[8] == 0x04 {
            ReadValue::Known(EdidSource::Merged)
        } else if data[8] == 0x00 {
            ReadValue::Known(EdidSource::Internal)
        } else {
            ReadValue::Unknown(data[8])
        };
        (Some(v), None)
    } else if data[4] == 0x54 {
        let status = if data[9] == 0x00 {
            CustomEdidStatus::Off
        } else {
            CustomEdidStatus::On { preset_index: data[9] }
        };
        (None, Some(status))
    } else {
        (None, None)
    }
}

/// Decoding the UVC-surface payload that the Setting Codec writes for a
/// value recovers that value, for every UVC-surface setting family.
pub proof fn lemma_uvc_payload_round_trip(
    hdr: HdrToneMapping,
    range: EdidRangePolicy,
    source: EdidSource,
    custom: CustomEdidMode,
)
    ensures
        spec_decode_uvc_hdr(hdr.spec_payload_4kx()) == Some(ReadValue::Known(hdr)),
        spec_decode_uvc_edid_range(range.spec_payload_4kx()) == Some(ReadValue::Known(range)),
        spec_decode_uvc_edid_source(source.spec_payload_4kx())
            == (Some(ReadValue::Known(source)), None::<CustomEdidStatus>),
        spec_decode_uvc_edid_source(custom.spec_payload_4kx()) == (
            None::<ReadValue<EdidSource>>,
            Some(match custom {
                CustomEdidMode::Off => CustomEdidStatus::Off,
                CustomEdidMode::On => CustomEdidStatus::On { preset_index: 1 },
            }),
        ),
{
}

// ---------------------------------------------------------------------------
// Firmware version decoding
// ---------------------------------------------------------------------------

/// The 32-bit value of four little-endian bytes.
pub open spec fn spec_u32_of_le(data: Seq<u8>) -> int {
    data[0] + 256 * data[1] + 65536 * data[2] + 16777216 * data[3]
}

/// The firmware version string of a UVC-surface extended-command response:
/// a packed decimal date `YYMMDD` in the first four bytes as a 32-bit
/// little-endian value. An out-of-range month or day means the format
/// assumption was wrong; the raw value and bytes are presented instead.
pub open spec fn spec_fw_version_4kx(data: Seq<u8>) -> Seq<char> {
    let version = spec_u32_of_le(data);
    let yy = version / 10000;
    let mm = (version / 100) % 100;
    let dd = version % 100;
    if version == 0 {
        "Unknown (no version reported)"@
    } else if 1 <= mm <= 12 && 1 <= dd <= 31 {
        spec_dec2(yy) + "."@ + spec_dec2(mm) + "."@ + spec_dec2(dd) + " (raw: "@ + spec_dec(version)
            + ")"@
    } else {
        "Raw: "@ + spec_dec(version) + " (0x"@ + spec_hex8(version as u32) + ", bytes: "@
            + spec_hex_dump(data.subrange(0, if data.len() < 16 { data.len() as int } else { 16 }))
            + ")"@
    }
}

/// Format a firmware version from an extended-command response
/// (UVC surface): `YYMMDD` packed decimal in the first 4 bytes, as a 32-bit
/// little-endian value.
pub fn format_firmware_version_4kx(data: &[u8]) -> (s: String)
    requires
        data@.len() >= 4,
    ensures
        s@ == spec_fw_version_4kx(data@),
{
    let version: u32 = (data[0] as u32) + 256 * (data[1] as u32) + 65536 * (data[2] as u32)
        + 16777216 * (data[3] as u32);
    if version == 0 {
        return String::from_str("Unknown (no version reported)");
    }
    let yy = version / 10000;
    let mm = (version / 100) % 100;
    let dd = version % 100;
    if 1 <= mm && mm <= 12 && 1 <= dd && dd <= 31 {
        let mut s = String::new();
        push_dec2(&mut s, yy as u64);
        s.append(".");
        push_dec2(&mut s, mm as u64);
        s.append(".");
        push_dec2(&mut s, dd as u64);
        s.append(" (raw: ");
        push_dec(&mut s, version as u64);
        s.append(")");
        proof {
            assert(s@ =~= spec_fw_version_4kx(data@));
        }
        s
    } else {
        let mut s = String::from_str("Raw: ");
        push_dec(&mut s, version as u64);
        s.append(" (0x");
        push_hex8(&mut s, version);
        s.append(", bytes: ");
        let n: usize = if data.len() < 16 {
            data.len()
        } else {
            16
        };
        push_hex_dump(&mut s, data, n);
        s.append(")");
        proof {
            assert(s@ =~= spec_fw_version_4kx(data@));
        }
        s
    }
}

/// The firmware version string of a HID-surface response: year, month and
/// day as three binary-coded-decimal bytes at offsets 3 to 5. An
/// out-of-range month or day falls back to the raw bytes, never an error.
pub open spec fn spec_fw_version_4ks(data: Seq<u8>) -> Seq<char> {
    let yy = data[3];
    let mm = data[4];
    let dd = data[5];
    if yy == 0 && mm == 0 && dd == 0 {
        "Unknown (no version reported)"@
    } else if 1 <= mm <= BCD_MAX_MONTH && 1 <= dd <= BCD_MAX_DAY {
        spec_hex2(yy) + "."@ + spec_hex2(mm) + "."@ + spec_hex2(dd)
    } else {
        "Raw: "@ + spec_hex_dump(
            data.subrange(0, if data.len() < 8 { data.len() as int } else { 8 }),
        )
    }
}

/// Format a firmware version from a HID-surface response: the version sits
/// in bytes 3 to 5 as `[YY, MM, DD]` in BCD encoding.
pub fn format_firmware_version_4ks(data: &[u8]) -> (s: String)
    requires
        data@.len() >= 6,
    ensures
        s@ == spec_fw_version_4ks(data@),
{
    let yy = data[3];
    let mm = data[4];
    let dd = data[5];
    if yy == 0 && mm == 0 && dd == 0 {
        return String::from_str("Unknown (no version reported)");
    }
    if 1 <= mm && mm <= BCD_MAX_MONTH && 1 <= dd && dd <= BCD_MAX_DAY {
        let mut s = String::new();
        push_hex2(&mut s, yy);
        s.append(".");
        push_hex2(&mut s, mm);
        s.append(".");
        push_hex2(&mut s, dd);
        proof {
            assert(s@ =~= spec_fw_version_4ks(data@));
        }
        s
    } else {
        let mut s = String::from_str("Raw: ");
        let n: usize = if data.len() < 8 {
            data.len()
        } else {
            8
        };
        push_hex_dump(&mut s, data, n);
        proof {
            assert(s@ =~= spec_fw_version_4ks(data@));
        }
        s
    }
}

/// An out-of-range month or day byte in a HID-surface firmware response
/// yields the raw-byte fallback, not a parsed date and not an error.
pub proof fn lemma_fw_out_of_range_falls_back(data: Seq<u8>)
    requires
        data.len() >= 6,
        !(data[3] == 0 && data[4] == 0 && data[5] == 0),
        !(1 <= data[4] <= BCD_MAX_MONTH && 1 <= data[5] <= BCD_MAX_DAY),
    ensures
        spec_fw_version_4ks(data) == "Raw: "@ + spec_hex_dump(
            data.subrange(0, if data.len() < 8 { data.len() as int } else { 8 }),
        ),
{
}

// ---------------------------------------------------------------------------
// Full firmware read reports
// ---------------------------------------------------------------------------

/// The version string reported for a whole extended-command read outcome.
pub open spec fn spec_fw_report_4kx(r: Result<Seq<u8>, ElgatoError>) -> Seq<char> {
    match r {
        Result::Ok(data) => {
            if data.len() >= 4 {
                spec_fw_version_4kx(data)
            } else {
                "Unexpected response ("@ + spec_dec(data.len() as int) + " bytes): "@
                    + spec_hex_dump(data)
            }
        },
        Result::Err(e) => "Failed to read: "@ + e.spec_describe(),
    }
}

/// Turn the outcome of an extended-command firmware read (UVC surface) into
/// the reported version string. A too-short response or a failed read is
/// reported in the string itself, never as an error.
pub fn firmware_report_4kx(r: Result<Vec<u8>, ElgatoError>) -> (s: String)
    ensures
        s@ == spec_fw_report_4kx(match r {
            Result::Ok(data) => Result::Ok(data@),
            Result::Err(e) => Result::Err(e),
        }),
{
    match r {
        Result::Ok(data) => {
            if data.len() >= 4 {
                format_firmware_version_4kx(data.as_slice())
            } else {
                let mut s = String::from_str("Unexpected response (");
                push_dec(&mut s, data.len() as u64);
                s.append(" bytes): ");
                let n = data.len();
                push_hex_dump(&mut s, data.as_slice(), n);
                proof {
                    assert(data@.subrange(0, data@.len() as int) =~= data@);
                }
                s
            }
        },
        Result::Err(e) => {
            let mut s = String::from_str("Failed to read: ");
            let d = e.describe();
            s.append(d.as_str());
            s
        },
    }
}

/// The version string reported for a whole HID firmware read outcome.
pub open spec fn spec_fw_report_4ks(r: Result<Seq<u8>, ElgatoError>) -> Seq<char> {
    match r {
        Result::Ok(data) => {
            if data.len() >= 6 {
                spec_fw_version_4ks(data)
            } else {
                "Unexpected response ("@ + spec_dec(data.len() as int) + " bytes): "@
                    + spec_hex_dump(data)
            }
        },
        Result::Err(e) => "Failed to read: "@ + e.spec_describe(),
    }
}

/// Turn the outcome of a HID firmware read into the reported version
/// string. A response too short to carry the three date bytes or a failed
/// read is reported in the string itself, never as an error.
pub fn firmware_report_4ks(r: Result<Vec<u8>, ElgatoError>) -> (s: String)
    ensures
        s@ == spec_fw_report_4ks(match r {
            Result::Ok(data) => Result::Ok(data@),
            Result::Err(e) => Result::Err(e),
        }),
{
    match r {
        Result::Ok(data) => {
            if data.len() >= 6 {
                format_firmware_version_4ks(data.as_slice())
            } else {
                let mut s = String::from_str("Unexpected response (");
                push_dec(&mut s, data.len() as u64);
                s.append(" bytes): ");
                let n = data.len();
                push_hex_dump(&mut s, data.as_slice(), n);
                proof {
                    assert(data@.subrange(0, data@.len() as int) =~= data@);
                }
                s
            }
        },
        Result::Err(e) => {
            let mut s = String::from_str("Failed to read: ");
            let d = e.describe();
            s.append(d.as_str());
            s
        },
    }
}

// ---------------------------------------------------------------------------
// USB speed status decoding
// ---------------------------------------------------------------------------

pub open spec fn spec_decode_usb_speed(data: Seq<u8>) -> Option<ReadValue<UsbSpeedStatus>> {
    if data.len() > 4 {
        if data[4] == 0x00 {
            Some(ReadValue::Known(UsbSpeedStatus::FiveGbps))
        } else if data[4] == 0x01 {
            Some(ReadValue::Known(UsbSpeedStatus::TenGbps))
        } else {
            Some(ReadValue::Unknown(data[4]))
        }
    } else {
        None
    }
}

/// Decode a USB speed status response (UVC surface): byte 4 carries the
/// mode. A response too short to carry it decodes to nothing.
pub fn decode_usb_speed(data: &[u8]) -> (r: Option<ReadValue<UsbSpeedStatus>>)
    ensures
        r == spec_decode_usb_speed(data@),
{
    if data.len() > 4 {
        if data[4] == 0x00 {
            Some(ReadValue::Known(UsbSpeedStatus::FiveGbps))
        } else if data[4] == 0x01 {
            Some(ReadValue::Known(UsbSpeedStatus::TenGbps))
        } else {
            Some(ReadValue::Unknown(data[4]))
        }
    } else {
        None
    }
}

} // verus!
