//! Device setting enums and payload generation (the Setting Codec).
//!
//! Each setting value maps to an exact payload:
//! - **UVC surface:** fixed `0xa1`-prefixed byte sequences sent via SET_CUR.
//! - **HID surface:** 255-byte zero-padded packets with the `06 06 06 55 02`
//!   write header.
//!
//! Every payload function's contract pins the result to a spec-level byte
//! sequence, so the codec is a pure function of the setting value alone.
//! The UVC payloads all carry a trailing byte that balances the family
//! checksum: their bytes sum to zero modulo 256, which is proved below.

use vstd::prelude::*;
use vstd::string::*;

use crate::atcmd::byte_sum;
use crate::atcmd::byte_sum_to;
use crate::protocol::HID_PACKET_SIZE;
use crate::protocol::SUBCMD_AUDIO_INPUT;
use crate::protocol::SUBCMD_COLOR_RANGE;
use crate::protocol::SUBCMD_COMMIT;
use crate::protocol::SUBCMD_EDID_MODE;
use crate::protocol::SUBCMD_HDR_TONEMAPPING;
use crate::protocol::SUBCMD_VIDEO_SCALER;
use crate::protocol::UVC_FAMILY_TAG;

verus! {

/// Which card model (control surface) a session talks to.
#[derive(Debug, Clone, Copy, PartialEq, Eq, Structural)]
pub enum DeviceModel {
    Elgato4KX,
    Elgato4KS,
}

impl DeviceModel {
    pub open spec fn spec_label(self) -> Seq<char> {
        match self {
            DeviceModel::Elgato4KX => "4K X"@,
            DeviceModel::Elgato4KS => "4K S"@,
        }
    }

    /// The model's human-readable name.
    pub fn to_string(&self) -> (s: String)
        ensures
            s@ == self.spec_label(),
    {
        match self {
            DeviceModel::Elgato4KX => String::from_str("4K X"),
            DeviceModel::Elgato4KS => String::from_str("4K S"),
        }
    }
}

// ---------------------------------------------------------------------------
// Case-insensitive keyword matching for value parsing
// ---------------------------------------------------------------------------

/// ASCII case folding of one byte: the codes of `A` through `Z` map to the
/// codes of `a` through `z`; every other byte is unchanged.
pub open spec fn spec_fold_byte(b: u8) -> u8 {
    if 0x41 <= b <= 0x5a {
        (b + 0x20) as u8
    } else {
        b
    }
}

/// ASCII case folding of a byte string.
pub open spec fn spec_fold(s: Seq<u8>) -> Seq<u8> {
    s.map_values(|b: u8| spec_fold_byte(b))
}

/// Compare two byte strings for equality up to ASCII case.
fn ascii_eq_fold(a: &[u8], b: &[u8]) -> (r: bool)
    ensures
        r == (spec_fold(a@) == spec_fold(b@)),
{
    if a.len() != b.len() {
        return false;
    }
    let mut i: usize = 0;
    while i < a.len()
        invariant
            0 <= i <= a@.len(),
            a@.len() == b@.len(),
            forall|j: int| 0 <= j < i ==> spec_fold_byte(a@[j]) == spec_fold_byte(b@[j]),
        decreases a@.len() - i,
    {
        let mut ca: u8 = a[i];
        let mut cb: u8 = b[i];
        if 0x41 <= ca && ca <= 0x5a {
            ca = ca + 0x20;
        }
        if 0x41 <= cb && cb <= 0x5a {
            cb = cb + 0x20;
        }
        if ca != cb {
            proof {
                assert(spec_fold(a@)[i as int] != spec_fold(b@)[i as int]);
            }
            return false;
        }
        i += 1;
    }
    proof {
        assert(spec_fold(a@) =~= spec_fold(b@));
    }
    true
}

/// True when `s` matches the keyword `kw` up to ASCII case.
pub open spec fn spec_matches_keyword(s: Seq<u8>, kw: Seq<u8>) -> bool {
    spec_fold(s) == spec_fold(kw)
}

/// Exec counterpart of [`spec_matches_keyword`] on a keyword literal.
fn matches_keyword(s: &[u8], kw: &str) -> (r: bool)
    ensures
        r == spec_matches_keyword(s@, kw.spec_bytes()),
{
    ascii_eq_fold(s, kw.as_bytes())
}

// ---------------------------------------------------------------------------
// HID write packets
// ---------------------------------------------------------------------------

/// The five header bytes that begin every HID settings write packet:
/// report ID, magic preamble, command class 0x55, write indicator 0x02.
pub open spec fn spec_hid_write_header() -> Seq<u8> {
    seq![0x06u8, 0x06, 0x06, 0x55, 0x02]
}

/// A full 255-byte HID settings write packet: header, sub-command byte,
/// value byte, zero padding.
pub open spec fn spec_hid_write_packet(sub_cmd: u8, value: u8) -> Seq<u8> {
    spec_hid_write_header() + seq![sub_cmd, value] + Seq::new(248, |i: int| 0u8)
}

/// Build a single HID settings write packet: `[06 06 06 55 02] [sub_cmd]
/// [value]` zero-padded to [`HID_PACKET_SIZE`].
pub fn hid_write_packet(sub_cmd: u8, value: u8) -> (pkt: Vec<u8>)
    ensures
        pkt@ == spec_hid_write_packet(sub_cmd, value),
{
    let mut pkt: Vec<u8> = Vec::new();
    pkt.push(0x06);
    pkt.push(0x06);
    pkt.push(0x06);
    pkt.push(0x55);
    pkt.push(0x02);
    pkt.push(sub_cmd);
    pkt.push(value);
    while pkt.len() < HID_PACKET_SIZE
        invariant
            7 <= pkt.len() <= HID_PACKET_SIZE,
            pkt@.subrange(0, 7) =~= spec_hid_write_header() + seq![sub_cmd, value],
            forall|i: int| 7 <= i < pkt.len() ==> pkt@[i] == 0u8,
        decreases HID_PACKET_SIZE - pkt.len(),
    {
        pkt.push(0x00);
    }
    proof {
        assert(pkt@ =~= spec_hid_write_packet(sub_cmd, value));
    }
    pkt
}

/// The fixed commit packet that applies a previously written setting:
/// `[06 06 06 55 02 13 01]`, zero-padded.
pub open spec fn spec_hid_commit_packet() -> Seq<u8> {
    spec_hid_write_packet(SUBCMD_COMMIT, 0x01)
}

/// Build the commit packet sent as the second half of a two-packet write.
pub fn hid_commit_packet() -> (pkt: Vec<u8>)
    ensures
        pkt@ == spec_hid_commit_packet(),
{
    hid_write_packet(SUBCMD_COMMIT, 0x01)
}

/// Every HID packet the codec produces is exactly [`HID_PACKET_SIZE`] bytes
/// long and begins with the fixed five-byte write header.
pub proof fn lemma_hid_write_packet_well_formed(sub_cmd: u8, value: u8)
    ensures
        spec_hid_write_packet(sub_cmd, value).len() == HID_PACKET_SIZE,
        spec_hid_write_packet(sub_cmd, value).subrange(0, 5) == spec_hid_write_header(),
        spec_hid_write_packet(sub_cmd, value)[5] == sub_cmd,
        spec_hid_write_packet(sub_cmd, value)[6] == value,
        forall|i: int|
            7 <= i < HID_PACKET_SIZE ==> spec_hid_write_packet(sub_cmd, value)[i] == 0u8,
{
    assert(spec_hid_write_packet(sub_cmd, value).subrange(0, 5) =~= spec_hid_write_header());
}

/// The Setting Codec is a pure function: any two payloads built by one
/// encoding function from the same setting value are byte-identical.
pub proof fn lemma_codec_deterministic<T>(
    encode: spec_fn(T) -> Seq<u8>,
    v: T,
    a: Seq<u8>,
    b: Seq<u8>,
)
    requires
        a == encode(v),
        b == encode(v),
    ensures
        a == b,
{
}

// ---------------------------------------------------------------------------
// EDID Range Policy (HDMI Color Range)
// ---------------------------------------------------------------------------

/// EDID range policy (color range quantization).
#[derive(Debug, Clone, Copy, PartialEq, Eq, Structural)]
pub enum EdidRangePolicy {
    /// Full range (0 to 255).
    Expand,
    /// Limited range (16 to 235).
    Shrink,
    /// Auto-detect.
    Auto,
}

impl EdidRangePolicy {
    /// The UVC-surface payload (family 0x08, 11 bytes, trailing checksum).
    pub open spec fn spec_payload_4kx(self) -> Seq<u8> {
        match self {
            EdidRangePolicy::Auto => seq![
                0xa1u8, 0x08, 0x00, 0x00, 0x7c, 0x00, 0x00, 0x00, 0x01, 0x00, 0xda,
            ],
            EdidRangePolicy::Expand => seq![
                0xa1u8, 0x08, 0x00, 0x00, 0x7c, 0x00, 0x00, 0x00, 0x01, 0x03, 0xd7,
            ],
            EdidRangePolicy::Shrink => seq![
                0xa1u8, 0x08, 0x00, 0x00, 0x7c, 0x00, 0x00, 0x00, 0x01, 0x04, 0xd6,
            ],
        }
    }

    pub fn payload_4kx(&self) -> (p: Vec<u8>)
        ensures
            p@ == self.spec_payload_4kx(),
    {
        let mut p: Vec<u8> = Vec::new();
        p.push(0xa1);
        p.push(0x08);
        p.push(0x00);
        p.push(0x00);
        p.push(0x7c);
        p.push(0x00);
        p.push(0x00);
        p.push(0x00);
        p.push(0x01);
        match self {
            EdidRangePolicy::Auto => {
                p.push(0x00);
                p.push(0xda);
            },
            EdidRangePolicy::Expand => {
                p.push(0x03);
                p.push(0xd7);
            },
            EdidRangePolicy::Shrink => {
                p.push(0x04);
                p.push(0xd6);
            },
        }
        proof {
            assert(p@ =~= self.spec_payload_4kx());
        }
        p
    }

    /// The value byte carried in the HID-surface packet.
    pub open spec fn spec_value_4ks(self) -> u8 {
        match self {
            EdidRangePolicy::Auto => 0x00,
            EdidRangePolicy::Expand => 0x01,
            EdidRangePolicy::Shrink => 0x02,
        }
    }

    pub fn payload_4ks(&self) -> (pkt: Vec<u8>)
        ensures
            pkt@ == spec_hid_write_packet(SUBCMD_COLOR_RANGE, self.spec_value_4ks()),
    {
        let value: u8 = match self {
            EdidRangePolicy::Auto => 0x00,
            EdidRangePolicy::Expand => 0x01,
            EdidRangePolicy::Shrink => 0x02,
        };
        hid_write_packet(SUBCMD_COLOR_RANGE, value)
    }

    pub open spec fn spec_parse(s: Seq<u8>) -> Option<EdidRangePolicy> {
        if spec_matches_keyword(s, "expand".spec_bytes())
            || spec_matches_keyword(s, "full".spec_bytes()) {
            Some(EdidRangePolicy::Expand)
        } else if spec_matches_keyword(s, "shrink".spec_bytes())
            || spec_matches_keyword(s, "limited".spec_bytes()) {
            Some(EdidRangePolicy::Shrink)
        } else if spec_matches_keyword(s, "auto".spec_bytes()) {
            Some(EdidRangePolicy::Auto)
        } else {
            None
        }
    }

    /// Parse a value keyword, ignoring ASCII case.
    pub fn from_str(s: &str) -> (r: Option<EdidRangePolicy>)
        ensures
            r == Self::spec_parse(s.spec_bytes()),
    {
        let b = s.as_bytes();
        if matches_keyword(b, "expand") || matches_keyword(b, "full") {
            Some(EdidRangePolicy::Expand)
        } else if matches_keyword(b, "shrink") || matches_keyword(b, "limited") {
            Some(EdidRangePolicy::Shrink)
        } else if matches_keyword(b, "auto") {
            Some(EdidRangePolicy::Auto)
        } else {
            None
        }
    }

    pub open spec fn spec_label(self) -> Seq<char> {
        match self {
            EdidRangePolicy::Expand => "Expand (Full)"@,
            EdidRangePolicy::Shrink => "Shrink (Limited)"@,
            EdidRangePolicy::Auto => "Auto"@,
        }
    }

    /// The value's human-readable name.
    pub fn to_string(&self) -> (s: String)
        ensures
            s@ == self.spec_label(),
    {
        match self {
            EdidRangePolicy::Expand => String::from_str("Expand (Full)"),
            EdidRangePolicy::Shrink => String::from_str("Shrink (Limited)"),
            EdidRangePolicy::Auto => String::from_str("Auto"),
        }
    }
}

// ---------------------------------------------------------------------------
// EDID Source
// ---------------------------------------------------------------------------

/// EDID source selection.
#[derive(Debug, Clone, Copy, PartialEq, Eq, Structural)]
pub enum EdidSource {
    /// Passthrough monitor's EDID.
    Display,
    /// Combined EDID from all displays.
    Merged,
    /// Capture card's built-in EDID.
    Internal,
}

impl EdidSource {
    /// The UVC-surface payload (family 0x0a, 13 bytes, trailing checksum).
    pub open spec fn spec_payload_4kx(self) -> Seq<u8> {
        match self {
            EdidSource::Display => seq![
                0xa1u8, 0x0a, 0x00, 0x00, 0x4d, 0x00, 0x00, 0x00, 0x01, 0x00, 0x00, 0x00, 0x07,
            ],
            EdidSource::Merged => seq![
                0xa1u8, 0x0a, 0x00, 0x00, 0x4d, 0x00, 0x00, 0x00, 0x04, 0x00, 0x00, 0x00, 0x04,
            ],
            EdidSource::Internal => seq![
                0xa1u8, 0x0a, 0x00, 0x00, 0x4d, 0x00, 0x00, 0x00, 0x00, 0x00, 0x00, 0x00, 0x08,
            ],
        }
    }

    pub fn payload_4kx(&self) -> (p: Vec<u8>)
        ensures
            p@ == self.spec_payload_4kx(),
    {
        let mut p: Vec<u8> = Vec::new();
        p.push(0xa1);
        p.push(0x0a);
        p.push(0x00);
        p.push(0x00);
        p.push(0x4d);
        p.push(0x00);
        p.push(0x00);
        p.push(0x00);
        match self {
            EdidSource::Display => p.push(0x01),
            EdidSource::Merged => p.push(0x04),
            EdidSource::Internal => p.push(0x00),
        }
        p.push(0x00);
        p.push(0x00);
        p.push(0x00);
        match self {
            EdidSource::Display => p.push(0x07),
            EdidSource::Merged => p.push(0x04),
            EdidSource::Internal => p.push(0x08),
        }
        proof {
            assert(p@ =~= self.spec_payload_4kx());
        }
        p
    }

    /// The value byte carried in the HID-surface packet.
    pub open spec fn spec_value_4ks(self) -> u8 {
        match self {
            EdidSource::Merged => 0x00,
            EdidSource::Display => 0x01,
            EdidSource::Internal => 0x02,
        }
    }

    /// EDID source uses a single HID packet (no commit needed).
    pub fn payload_4ks(&self) -> (pkt: Vec<u8>)
        ensures
            pkt@ == spec_hid_write_packet(SUBCMD_EDID_MODE, self.spec_value_4ks()),
    {
        let value: u8 = match self {
            EdidSource::Merged => 0x00,
            EdidSource::Display => 0x01,
            EdidSource::Internal => 0x02,
        };
        hid_write_packet(SUBCMD_EDID_MODE, value)
    }

    pub open spec fn spec_parse(s: Seq<u8>) -> Option<EdidSource> {
        if spec_matches_keyword(s, "display".spec_bytes()) {
            Some(EdidSource::Display)
        } else if spec_matches_keyword(s, "merged".spec_bytes()) {
            Some(EdidSource::Merged)
        } else if spec_matches_keyword(s, "internal".spec_bytes()) {
            Some(EdidSource::Internal)
        } else {
            None
        }
    }

    /// Parse a value keyword, ignoring ASCII case.
    pub fn from_str(s: &str) -> (r: Option<EdidSource>)
        ensures
            r == Self::spec_parse(s.spec_bytes()),
    {
        let b = s.as_bytes();
        if matches_keyword(b, "display") {
            Some(EdidSource::Display)
        } else if matches_keyword(b, "merged") {
            Some(EdidSource::Merged)
        } else if matches_keyword(b, "internal") {
            Some(EdidSource::Internal)
        } else {
            None
        }
    }

    pub open spec fn spec_label(self) -> Seq<char> {
        match self {
            EdidSource::Display => "Display"@,
            EdidSource::Merged => "Merged"@,
            EdidSource::Internal => "Internal"@,
        }
    }

    /// The value's human-readable name.
    pub fn to_string(&self) -> (s: String)
        ensures
            s@ == self.spec_label(),
    {
        match self {
            EdidSource::Display => String::from_str("Display"),
            EdidSource::Merged => String::from_str("Merged"),
            EdidSource::Internal => String::from_str("Internal"),
        }
    }
}

// ---------------------------------------------------------------------------
// HDR Tone Mapping
// ---------------------------------------------------------------------------

/// HDR tone mapping toggle.
#[derive(Debug, Clone, Copy, PartialEq, Eq, Structural)]
pub enum HdrToneMapping {
    On,
    Off,
}

impl HdrToneMapping {
    /// The UVC-surface payload (family 0x07, 10 bytes, trailing checksum).
    pub open spec fn spec_payload_4kx(self) -> Seq<u8> {
        match self {
            HdrToneMapping::On => seq![
                0xa1u8, 0x07, 0x00, 0x00, 0x1f, 0x00, 0x00, 0x00, 0x01, 0x38,
            ],
            HdrToneMapping::Off => seq![
                0xa1u8, 0x07, 0x00, 0x00, 0x1f, 0x00, 0x00, 0x00, 0x00, 0x39,
            ],
        }
    }

    pub fn payload_4kx(&self) -> (p: Vec<u8>)
        ensures
            p@ == self.spec_payload_4kx(),
    {
        let mut p: Vec<u8> = Vec::new();
        p.push(0xa1);
        p.push(0x07);
        p.push(0x00);
        p.push(0x00);
        p.push(0x1f);
        p.push(0x00);
        p.push(0x00);
        p.push(0x00);
        match self {
            HdrToneMapping::On => {
                p.push(0x01);
                p.push(0x38);
            },
            HdrToneMapping::Off => {
                p.push(0x00);
                p.push(0x39);
            },
        }
        proof {
            assert(p@ =~= self.spec_payload_4kx());
        }
        p
    }

    /// The value byte carried in the HID-surface packet.
    pub open spec fn spec_value_4ks(self) -> u8 {
        match self {
            HdrToneMapping::On => 0x01,
            HdrToneMapping::Off => 0x00,
        }
    }

    pub fn payload_4ks(&self) -> (pkt: Vec<u8>)
        ensures
            pkt@ == spec_hid_write_packet(SUBCMD_HDR_TONEMAPPING, self.spec_value_4ks()),
    {
        let value: u8 = match self {
            HdrToneMapping::On => 0x01,
            HdrToneMapping::Off => 0x00,
        };
        hid_write_packet(SUBCMD_HDR_TONEMAPPING, value)
    }

    pub open spec fn spec_parse(s: Seq<u8>) -> Option<HdrToneMapping> {
        if spec_matches_keyword(s, "on".spec_bytes())
            || spec_matches_keyword(s, "true".spec_bytes())
            || spec_matches_keyword(s, "1".spec_bytes()) {
            Some(HdrToneMapping::On)
        } else if spec_matches_keyword(s, "off".spec_bytes())
            || spec_matches_keyword(s, "false".spec_bytes())
            || spec_matches_keyword(s, "0".spec_bytes()) {
            Some(HdrToneMapping::Off)
        } else {
            None
        }
    }

    /// Parse a value keyword, ignoring ASCII case.
    pub fn from_str(s: &str) -> (r: Option<HdrToneMapping>)
        ensures
            r == Self::spec_parse(s.spec_bytes()),
    {
        let b = s.as_bytes();
        if matches_keyword(b, "on") || matches_keyword(b, "true") || matches_keyword(b, "1") {
            Some(HdrToneMapping::On)
        } else if matches_keyword(b, "off") || matches_keyword(b, "false")
            || matches_keyword(b, "0") {
            Some(HdrToneMapping::Off)
        } else {
            None
        }
    }

    pub open spec fn spec_label(self) -> Seq<char> {
        match self {
            HdrToneMapping::On => "On"@,
            HdrToneMapping::Off => "Off"@,
        }
    }

    /// The value's human-readable name.
    pub fn to_string(&self) -> (s: String)
        ensures
            s@ == self.spec_label(),
    {
        match self {
            HdrToneMapping::On => String::from_str("On"),
            HdrToneMapping::Off => String::from_str("Off"),
        }
    }
}

// ---------------------------------------------------------------------------
// Custom EDID (UVC surface only)
// ---------------------------------------------------------------------------

/// Custom EDID preset toggle (UVC-surface card only).
#[derive(Debug, Clone, Copy, PartialEq, Eq, Structural)]
pub enum CustomEdidMode {
    Off,
    On,
}

impl CustomEdidMode {
    /// The UVC-surface payload (family 0x0a, 13 bytes, trailing checksum).
    pub open spec fn spec_payload_4kx(self) -> Seq<u8> {
        match self {
            CustomEdidMode::Off => seq![
                0xa1u8, 0x0a, 0x00, 0x00, 0x54, 0x00, 0x00, 0x00, 0x00, 0x00, 0x80, 0x00, 0x81,
            ],
            CustomEdidMode::On => seq![
                0xa1u8, 0x0a, 0x00, 0x00, 0x54, 0x00, 0x00, 0x00, 0x00, 0x01, 0x80, 0x00, 0x80,
            ],
        }
    }

    pub fn payload_4kx(&self) -> (p: Vec<u8>)
        ensures
            p@ == self.spec_payload_4kx(),
    {
        let mut p: Vec<u8> = Vec::new();
        p.push(0xa1);
        p.push(0x0a);
        p.push(0x00);
        p.push(0x00);
        p.push(0x54);
        p.push(0x00);
        p.push(0x00);
        p.push(0x00);
        p.push(0x00);
        match self {
            CustomEdidMode::Off => {
                p.push(0x00);
                p.push(0x80);
                p.push(0x00);
                p.push(0x81);
            },
            CustomEdidMode::On => {
                p.push(0x01);
                p.push(0x80);
                p.push(0x00);
                p.push(0x80);
            },
        }
        proof {
            assert(p@ =~= self.spec_payload_4kx());
        }
        p
    }

    pub open spec fn spec_parse(s: Seq<u8>) -> Option<CustomEdidMode> {
        if spec_matches_keyword(s, "on".spec_bytes())
            || spec_matches_keyword(s, "true".spec_bytes())
            || spec_matches_keyword(s, "1".spec_bytes()) {
            Some(CustomEdidMode::On)
        } else if spec_matches_keyword(s, "off".spec_bytes())
            || spec_matches_keyword(s, "false".spec_bytes())
            || spec_matches_keyword(s, "0".spec_bytes()) {
            Some(CustomEdidMode::Off)
        } else {
            None
        }
    }

    /// Parse a value keyword, ignoring ASCII case.
    pub fn from_str(s: &str) -> (r: Option<CustomEdidMode>)
        ensures
            r == Self::spec_parse(s.spec_bytes()),
    {
        let b = s.as_bytes();
        if matches_keyword(b, "on") || matches_keyword(b, "true") || matches_keyword(b, "1") {
            Some(CustomEdidMode::On)
        } else if matches_keyword(b, "off") || matches_keyword(b, "false")
            || matches_keyword(b, "0") {
            Some(CustomEdidMode::Off)
        } else {
            None
        }
    }

    pub open spec fn spec_label(self) -> Seq<char> {
        match self {
            CustomEdidMode::On => "On"@,
            CustomEdidMode::Off => "Off"@,
        }
    }

    /// The value's human-readable name.
    pub fn to_string(&self) -> (s: String)
        ensures
            s@ == self.spec_label(),
    {
        match self {
            CustomEdidMode::On => String::from_str("On"),
            CustomEdidMode::Off => String::from_str("Off"),
        }
    }
}

// ---------------------------------------------------------------------------
// Audio Input (HID surface only)
// ---------------------------------------------------------------------------

/// Audio input source selection (HID-surface card only).
#[derive(Debug, Clone, Copy, PartialEq, Eq, Structural)]
pub enum AudioInput {
    /// HDMI embedded audio (default).
    Embedded,
    /// Analog/line-in audio.
    Analog,
}

impl AudioInput {
    /// The value byte carried in the HID-surface packet.
    pub open spec fn spec_value_4ks(self) -> u8 {
        match self {
            AudioInput::Embedded => 0x00,
            AudioInput::Analog => 0x01,
        }
    }

    pub fn payload_4ks(&self) -> (pkt: Vec<u8>)
        ensures
            pkt@ == spec_hid_write_packet(SUBCMD_AUDIO_INPUT, self.spec_value_4ks()),
    {
        let value: u8 = match self {
            AudioInput::Embedded => 0x00,
            AudioInput::Analog => 0x01,
        };
        hid_write_packet(SUBCMD_AUDIO_INPUT, value)
    }

    pub open spec fn spec_parse(s: Seq<u8>) -> Option<AudioInput> {
        if spec_matches_keyword(s, "embedded".spec_bytes())
            || spec_matches_keyword(s, "hdmi".spec_bytes())
            || spec_matches_keyword(s, "digital".spec_bytes()) {
            Some(AudioInput::Embedded)
        } else if spec_matches_keyword(s, "analog".spec_bytes())
            || spec_matches_keyword(s, "line".spec_bytes())
            || spec_matches_keyword(s, "linein".spec_bytes()) {
            Some(AudioInput::Analog)
        } else {
            None
        }
    }

    /// Parse a value keyword, ignoring ASCII case.
    pub fn from_str(s: &str) -> (r: Option<AudioInput>)
        ensures
            r == Self::spec_parse(s.spec_bytes()),
    {
        let b = s.as_bytes();
        if matches_keyword(b, "embedded") || matches_keyword(b, "hdmi")
            || matches_keyword(b, "digital") {
            Some(AudioInput::Embedded)
        } else if matches_keyword(b, "analog") || matches_keyword(b, "line")
            || matches_keyword(b, "linein") {
            Some(AudioInput::Analog)
        } else {
            None
        }
    }

    pub open spec fn spec_label(self) -> Seq<char> {
        match self {
            AudioInput::Embedded => "Embedded (HDMI)"@,
            AudioInput::Analog => "Analog (line-in)"@,
        }
    }

    /// The value's human-readable name.
    pub fn to_string(&self) -> (s: String)
        ensures
            s@ == self.spec_label(),
    {
        match self {
            AudioInput::Embedded => String::from_str("Embedded (HDMI)"),
            AudioInput::Analog => String::from_str("Analog (line-in)"),
        }
    }
}

// ---------------------------------------------------------------------------
// Video Scaler (HID surface only)
// ---------------------------------------------------------------------------

/// Video scaler toggle (HID-surface card only).
#[derive(Debug, Clone, Copy, PartialEq, Eq, Structural)]
pub enum VideoScaler {
    On,
    Off,
}

impl VideoScaler {
    /// The value byte carried in the HID-surface packet.
    pub open spec fn spec_value_4ks(self) -> u8 {
        match self {
            VideoScaler::On => 0x01,
            VideoScaler::Off => 0x00,
        }
    }

    pub fn payload_4ks(&self) -> (pkt: Vec<u8>)
        ensures
            pkt@ == spec_hid_write_packet(SUBCMD_VIDEO_SCALER, self.spec_value_4ks()),
    {
        let value: u8 = match self {
            VideoScaler::On => 0x01,
            VideoScaler::Off => 0x00,
        };
        hid_write_packet(SUBCMD_VIDEO_SCALER, value)
    }

    pub open spec fn spec_parse(s: Seq<u8>) -> Option<VideoScaler> {
        if spec_matches_keyword(s, "on".spec_bytes())
            || spec_matches_keyword(s, "true".spec_bytes())
            || spec_matches_keyword(s, "1".spec_bytes()) {
            Some(VideoScaler::On)
        } else if spec_matches_keyword(s, "off".spec_bytes())
            || spec_matches_keyword(s, "false".spec_bytes())
            || spec_matches_keyword(s, "0".spec_bytes()) {
            Some(VideoScaler::Off)
        } else {
            None
        }
    }

    /// Parse a value keyword, ignoring ASCII case.
    pub fn from_str(s: &str) -> (r: Option<VideoScaler>)
        ensures
            r == Self::spec_parse(s.spec_bytes()),
    {
        let b = s.as_bytes();
        if matches_keyword(b, "on") || matches_keyword(b, "true") || matches_keyword(b, "1") {
            Some(VideoScaler::On)
        } else if matches_keyword(b, "off") || matches_keyword(b, "false")
            || matches_keyword(b, "0") {
            Some(VideoScaler::Off)
        } else {
            None
        }
    }

    pub open spec fn spec_label(self) -> Seq<char> {
        match self {
            VideoScaler::On => "On"@,
            VideoScaler::Off => "Off"@,
        }
    }

    /// The value's human-readable name.
    pub fn to_string(&self) -> (s: String)
        ensures
            s@ == self.spec_label(),
    {
        match self {
            VideoScaler::On => String::from_str("On"),
            VideoScaler::Off => String::from_str("Off"),
        }
    }
}

// ---------------------------------------------------------------------------
// USB Speed (UVC surface only)
// ---------------------------------------------------------------------------

/// USB speed mode (UVC-surface card only, set via extended command 0x8e).
#[derive(Debug, Clone, Copy, PartialEq, Eq, Structural)]
pub enum UsbSpeed {
    FiveGbps,
    TenGbps,
}

impl UsbSpeed {
    /// The 8-byte input of extended command 0x8e: a constant 1 as a 32-bit
    /// little-endian word, then the speed value (0x00 = 5 Gbps, 0x03 =
    /// 10 Gbps) as a second 32-bit little-endian word.
    pub open spec fn spec_at_input(self) -> Seq<u8> {
        match self {
            UsbSpeed::FiveGbps => seq![0x01u8, 0x00, 0x00, 0x00, 0x00, 0x00, 0x00, 0x00],
            UsbSpeed::TenGbps => seq![0x01u8, 0x00, 0x00, 0x00, 0x03, 0x00, 0x00, 0x00],
        }
    }

    pub fn at_input(&self) -> (p: Vec<u8>)
        ensures
            p@ == self.spec_at_input(),
    {
        let mut p: Vec<u8> = Vec::new();
        p.push(0x01);
        p.push(0x00);
        p.push(0x00);
        p.push(0x00);
        match self {
            UsbSpeed::FiveGbps => p.push(0x00),
            UsbSpeed::TenGbps => p.push(0x03),
        }
        p.push(0x00);
        p.push(0x00);
        p.push(0x00);
        proof {
            assert(p@ =~= self.spec_at_input());
        }
        p
    }

    pub open spec fn spec_parse(s: Seq<u8>) -> Option<UsbSpeed> {
        if spec_matches_keyword(s, "5g".spec_bytes())
            || spec_matches_keyword(s, "5gbps".spec_bytes())
            || spec_matches_keyword(s, "5".spec_bytes()) {
            Some(UsbSpeed::FiveGbps)
        } else if spec_matches_keyword(s, "10g".spec_bytes())
            || spec_matches_keyword(s, "10gbps".spec_bytes())
            || spec_matches_keyword(s, "10".spec_bytes()) {
            Some(UsbSpeed::TenGbps)
        } else {
            None
        }
    }

    /// Parse a value keyword, ignoring ASCII case.
    pub fn from_str(s: &str) -> (r: Option<UsbSpeed>)
        ensures
            r == Self::spec_parse(s.spec_bytes()),
    {
        let b = s.as_bytes();
        if matches_keyword(b, "5g") || matches_keyword(b, "5gbps") || matches_keyword(b, "5") {
            Some(UsbSpeed::FiveGbps)
        } else if matches_keyword(b, "10g") || matches_keyword(b, "10gbps")
            || matches_keyword(b, "10") {
            Some(UsbSpeed::TenGbps)
        } else {
            None
        }
    }

    pub open spec fn spec_label(self) -> Seq<char> {
        match self {
            UsbSpeed::FiveGbps => "5Gbps"@,
            UsbSpeed::TenGbps => "10Gbps"@,
        }
    }

    /// The value's human-readable name.
    pub fn to_string(&self) -> (s: String)
        ensures
            s@ == self.spec_label(),
    {
        match self {
            UsbSpeed::FiveGbps => String::from_str("5Gbps"),
            UsbSpeed::TenGbps => String::from_str("10Gbps"),
        }
    }
}

// ---------------------------------------------------------------------------
// std::str::FromStr, so values parse with `str::parse`
// ---------------------------------------------------------------------------

impl core::str::FromStr for EdidRangePolicy {
    type Err = ();

    fn from_str(s: &str) -> Result<EdidRangePolicy, ()> {
        match EdidRangePolicy::from_str(s) {
            Some(v) => Ok(v),
            None => Err(()),
        }
    }
}

impl core::str::FromStr for EdidSource {
    type Err = ();

    fn from_str(s: &str) -> Result<EdidSource, ()> {
        match EdidSource::from_str(s) {
            Some(v) => Ok(v),
            None => Err(()),
        }
    }
}

impl core::str::FromStr for HdrToneMapping {
    type Err = ();

    fn from_str(s: &str) -> Result<HdrToneMapping, ()> {
        match HdrToneMapping::from_str(s) {
            Some(v) => Ok(v),
            None => Err(()),
        }
    }
}

impl core::str::FromStr for CustomEdidMode {
    type Err = ();

    fn from_str(s: &str) -> Result<CustomEdidMode, ()> {
        match CustomEdidMode::from_str(s) {
            Some(v) => Ok(v),
            None => Err(()),
        }
    }
}

impl core::str::FromStr for AudioInput {
    type Err = ();

    fn from_str(s: &str) -> Result<AudioInput, ()> {
        match AudioInput::from_str(s) {
            Some(v) => Ok(v),
            None => Err(()),
        }
    }
}

impl core::str::FromStr for VideoScaler {
    type Err = ();

    fn from_str(s: &str) -> Result<VideoScaler, ()> {
        match VideoScaler::from_str(s) {
            Some(v) => Ok(v),
            None => Err(()),
        }
    }
}

impl core::str::FromStr for UsbSpeed {
    type Err = ();

    fn from_str(s: &str) -> Result<UsbSpeed, ()> {
        match UsbSpeed::from_str(s) {
            Some(v) => Ok(v),
            None => Err(()),
        }
    }
}

// ---------------------------------------------------------------------------
// Invariants of the UVC-surface payloads
// ---------------------------------------------------------------------------

/// Every UVC-surface payload the codec produces begins with the family tag
/// byte 0xa1 and satisfies the checksum invariant: its bytes sum to zero
/// modulo 256.
pub proof fn lemma_payloads_4kx_well_formed(
    range: EdidRangePolicy,
    source: EdidSource,
    hdr: HdrToneMapping,
    custom: CustomEdidMode,
)
    ensures
        range.spec_payload_4kx()[0] == UVC_FAMILY_TAG,
        byte_sum(range.spec_payload_4kx()) % 256 == 0,
        source.spec_payload_4kx()[0] == UVC_FAMILY_TAG,
        byte_sum(source.spec_payload_4kx()) % 256 == 0,
        hdr.spec_payload_4kx()[0] == UVC_FAMILY_TAG,
        byte_sum(hdr.spec_payload_4kx()) % 256 == 0,
        custom.spec_payload_4kx()[0] == UVC_FAMILY_TAG,
        byte_sum(custom.spec_payload_4kx()) % 256 == 0,
{
    reveal_with_fuel(byte_sum_to, 14);
}

} // verus!
