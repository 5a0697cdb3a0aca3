//! The control facade: device classification, the per-variant support
//! matrix, and the read-status composition for the UVC surface.
//!
//! Each setting operation is planned here before any transfer: the plan
//! function checks the support matrix and either hands back the exact
//! packets to deliver or refuses with the unsupported-feature error, so a
//! setting is never dispatched to a variant that does not support it. The
//! calling program executes a plan by delivering its packets in order with
//! the required delays.

use vstd::prelude::*;

use crate::error::ElgatoError;
use crate::protocol::AT_CMD_SET_USB_SPEED;
use crate::protocol::PID_4KS_USB2;
use crate::protocol::PID_4KS_USB3;
use crate::protocol::PID_4KX_10G;
use crate::protocol::PID_4KX_5G;
use crate::protocol::PID_4KX_USB2;
use crate::protocol::UVC_SUBCMD_FIRMWARE_VERSION;
use crate::protocol::UVC_SUBCMD_USB_SPEED;
use crate::protocol::VENDOR_ID;
use crate::settings::spec_hid_commit_packet;
use crate::settings::spec_hid_write_packet;
use crate::settings::AudioInput;
use crate::settings::CustomEdidMode;
use crate::settings::DeviceModel;
use crate::settings::EdidRangePolicy;
use crate::settings::EdidSource;
use crate::settings::HdrToneMapping;
use crate::settings::UsbSpeed;
use crate::settings::VideoScaler;
use crate::protocol::SUBCMD_AUDIO_INPUT;
use crate::protocol::SUBCMD_COLOR_RANGE;
use crate::protocol::SUBCMD_EDID_MODE;
use crate::protocol::SUBCMD_HDR_TONEMAPPING;
use crate::protocol::SUBCMD_VIDEO_SCALER;
use crate::settings::hid_commit_packet;
use crate::status::decode_usb_speed;
use crate::status::decode_uvc_color_range;
use crate::status::decode_uvc_edid_range;
use crate::status::decode_uvc_edid_source;
use crate::status::decode_uvc_hdr;
use crate::status::firmware_report_4kx;
use crate::status::spec_fw_report_4kx;
use crate::status::DeviceStatus;
use crate::usb::UsbHandle;
use crate::uvc::read_at_command;
use crate::uvc::read_uvc_raw;

verus! {

// ---------------------------------------------------------------------------
// Device identification
// ---------------------------------------------------------------------------

/// The model a vendor/product ID pair belongs to, if any. The UVC-surface
/// card re-enumerates under a different product ID per USB speed mode.
pub open spec fn spec_classify(vendor: u16, pid: u16) -> Option<DeviceModel> {
    if vendor != VENDOR_ID {
        None
    } else if pid == PID_4KX_10G || pid == PID_4KX_5G || pid == PID_4KX_USB2 {
        Some(DeviceModel::Elgato4KX)
    } else if pid == PID_4KS_USB3 || pid == PID_4KS_USB2 {
        Some(DeviceModel::Elgato4KS)
    } else {
        None
    }
}

/// The link-speed description that belongs to a known product ID.
pub open spec fn spec_speed_desc(pid: u16) -> Seq<char> {
    if pid == PID_4KX_10G {
        "10Gbps / SuperSpeed+"@
    } else if pid == PID_4KX_5G {
        "5Gbps / SuperSpeed"@
    } else if pid == PID_4KS_USB3 {
        "USB 3.0"@
    } else {
        "USB 2.0"@
    }
}

/// Classify a scanned device by its vendor and product IDs: the model it
/// is, and a description of the link speed its product ID implies.
pub fn classify_device(vendor: u16, pid: u16) -> (r: Option<(DeviceModel, &'static str)>)
    ensures
        r is Some <==> spec_classify(vendor, pid) is Some,
        r matches Some((m, d)) ==> spec_classify(vendor, pid) == Some(m) && d@ == spec_speed_desc(
            pid,
        ),
{
    if vendor != VENDOR_ID {
        return None;
    }
    if pid == PID_4KX_10G {
        Some((DeviceModel::Elgato4KX, "10Gbps / SuperSpeed+"))
    } else if pid == PID_4KX_5G {
        Some((DeviceModel::Elgato4KX, "5Gbps / SuperSpeed"))
    } else if pid == PID_4KX_USB2 {
        Some((DeviceModel::Elgato4KX, "USB 2.0"))
    } else if pid == PID_4KS_USB3 {
        Some((DeviceModel::Elgato4KS, "USB 3.0"))
    } else if pid == PID_4KS_USB2 {
        Some((DeviceModel::Elgato4KS, "USB 2.0"))
    } else {
        None
    }
}

// ---------------------------------------------------------------------------
// Write planning
// ---------------------------------------------------------------------------

/// The exact transfers one setting operation requires. The calling
/// program delivers them in order: a UVC payload through the two-step
/// Extension-Unit write, a single HID packet directly, a HID pair with the
/// inter-packet delay between them, and an extended command through the
/// full probe sequence.
#[derive(Debug, Clone, PartialEq, Eq)]
pub enum WritePlan {
    /// One payload for the Extension-Unit two-step write.
    Uvc(Vec<u8>),
    /// One 255-byte HID packet.
    HidSingle(Vec<u8>),
    /// A 255-byte settings packet, then the commit packet after the
    /// inter-packet delay.
    HidTwoPacket(Vec<u8>, Vec<u8>),
    /// A framed extended command for the probe sequence.
    AtCommand { cmd_id: u32, input: Vec<u8> },
}

/// Plan a color-range change. Supported on both variants.
pub fn plan_set_hdmi_range(model: DeviceModel, range: EdidRangePolicy) -> (r: Result<
    WritePlan,
    ElgatoError,
>)
    ensures
        model == DeviceModel::Elgato4KX ==> (r matches Ok(p) && p matches WritePlan::Uvc(v) && v@
            == range.spec_payload_4kx()),
        model == DeviceModel::Elgato4KS ==> (r matches Ok(p) && p matches WritePlan::HidTwoPacket(
            a,
            b,
        ) && a@ == spec_hid_write_packet(SUBCMD_COLOR_RANGE, range.spec_value_4ks()) && b@
            == spec_hid_commit_packet()),
{
    match model {
        DeviceModel::Elgato4KX => Ok(WritePlan::Uvc(range.payload_4kx())),
        DeviceModel::Elgato4KS => Ok(
            WritePlan::HidTwoPacket(range.payload_4ks(), hid_commit_packet()),
        ),
    }
}

/// Plan an EDID source change. Supported on both variants; the HID
/// surface applies it with a single packet, no commit needed.
pub fn plan_set_edid_source(model: DeviceModel, source: EdidSource) -> (r: Result<
    WritePlan,
    ElgatoError,
>)
    ensures
        model == DeviceModel::Elgato4KX ==> (r matches Ok(p) && p matches WritePlan::Uvc(v) && v@
            == source.spec_payload_4kx()),
        model == DeviceModel::Elgato4KS ==> (r matches Ok(p) && p matches WritePlan::HidSingle(v)
            && v@ == spec_hid_write_packet(SUBCMD_EDID_MODE, source.spec_value_4ks())),
{
    match model {
        DeviceModel::Elgato4KX => Ok(WritePlan::Uvc(source.payload_4kx())),
        DeviceModel::Elgato4KS => Ok(WritePlan::HidSingle(source.payload_4ks())),
    }
}

/// Plan an HDR tone mapping change. Supported on both variants.
pub fn plan_set_hdr_mapping(model: DeviceModel, mode: HdrToneMapping) -> (r: Result<
    WritePlan,
    ElgatoError,
>)
    ensures
        model == DeviceModel::Elgato4KX ==> (r matches Ok(p) && p matches WritePlan::Uvc(v) && v@
            == mode.spec_payload_4kx()),
        model == DeviceModel::Elgato4KS ==> (r matches Ok(p) && p matches WritePlan::HidTwoPacket(
            a,
            b,
        ) && a@ == spec_hid_write_packet(SUBCMD_HDR_TONEMAPPING, mode.spec_value_4ks()) && b@
            == spec_hid_commit_packet()),
{
    match model {
        DeviceModel::Elgato4KX => Ok(WritePlan::Uvc(mode.payload_4kx())),
        DeviceModel::Elgato4KS => Ok(
            WritePlan::HidTwoPacket(mode.payload_4ks(), hid_commit_packet()),
        ),
    }
}

/// Plan a custom-EDID change. UVC surface only: the HID-surface variant
/// is refused before any transfer.
pub fn plan_set_custom_edid(model: DeviceModel, mode: CustomEdidMode) -> (r: Result<
    WritePlan,
    ElgatoError,
>)
    ensures
        model == DeviceModel::Elgato4KX ==> (r matches Ok(p) && p matches WritePlan::Uvc(v) && v@
            == mode.spec_payload_4kx()),
        model == DeviceModel::Elgato4KS ==> (r matches Err(e) && e matches
            ElgatoError::UnsupportedFeature { feature, model: m } && feature@ == "Custom EDID"@
            && m@ == "4K S"@),
{
    match model {
        DeviceModel::Elgato4KX => Ok(WritePlan::Uvc(mode.payload_4kx())),
        DeviceModel::Elgato4KS => Err(
            ElgatoError::UnsupportedFeature { feature: "Custom EDID", model: "4K S" },
        ),
    }
}

/// Plan an audio input change. HID surface only: the UVC-surface variant
/// is refused before any transfer.
pub fn plan_set_audio_input(model: DeviceModel, input: AudioInput) -> (r: Result<
    WritePlan,
    ElgatoError,
>)
    ensures
        model == DeviceModel::Elgato4KS ==> (r matches Ok(p) && p matches WritePlan::HidTwoPacket(
            a,
            b,
        ) && a@ == spec_hid_write_packet(SUBCMD_AUDIO_INPUT, input.spec_value_4ks()) && b@
            == spec_hid_commit_packet()),
        model == DeviceModel::Elgato4KX ==> (r matches Err(e) && e matches
            ElgatoError::UnsupportedFeature { feature, model: m } && feature@
            == "Audio input selection"@ && m@ == "4K X"@),
{
    match model {
        DeviceModel::Elgato4KS => Ok(
            WritePlan::HidTwoPacket(input.payload_4ks(), hid_commit_packet()),
        ),
        DeviceModel::Elgato4KX => Err(
            ElgatoError::UnsupportedFeature { feature: "Audio input selection", model: "4K X" },
        ),
    }
}

/// Plan a video scaler change. HID surface only: the UVC-surface variant
/// is refused before any transfer.
pub fn plan_set_video_scaler(model: DeviceModel, scaler: VideoScaler) -> (r: Result<
    WritePlan,
    ElgatoError,
>)
    ensures
        model == DeviceModel::Elgato4KS ==> (r matches Ok(p) && p matches WritePlan::HidTwoPacket(
            a,
            b,
        ) && a@ == spec_hid_write_packet(SUBCMD_VIDEO_SCALER, scaler.spec_value_4ks()) && b@
            == spec_hid_commit_packet()),
        model == DeviceModel::Elgato4KX ==> (r matches Err(e) && e matches
            ElgatoError::UnsupportedFeature { feature, model: m } && feature@ == "Video scaler"@
            && m@ == "4K X"@),
{
    match model {
        DeviceModel::Elgato4KS => Ok(
            WritePlan::HidTwoPacket(scaler.payload_4ks(), hid_commit_packet()),
        ),
        DeviceModel::Elgato4KX => Err(
            ElgatoError::UnsupportedFeature { feature: "Video scaler", model: "4K X" },
        ),
    }
}

/// Plan a USB speed change. UVC surface only: the HID-surface variant is
/// refused before any transfer. The device re-enumerates under a
/// different product ID after the change.
pub fn plan_set_usb_speed(model: DeviceModel, speed: UsbSpeed) -> (r: Result<
    WritePlan,
    ElgatoError,
>)
    ensures
        model == DeviceModel::Elgato4KX ==> (r matches Ok(p) && p matches WritePlan::AtCommand {
            cmd_id,
            input,
        } && cmd_id == AT_CMD_SET_USB_SPEED && input@ == speed.spec_at_input()),
        model == DeviceModel::Elgato4KS ==> (r matches Err(e) && e matches
            ElgatoError::UnsupportedFeature { feature, model: m } && feature@
            == "USB speed switching"@ && m@ == "4K S"@),
{
    match model {
        DeviceModel::Elgato4KX => Ok(
            WritePlan::AtCommand { cmd_id: AT_CMD_SET_USB_SPEED, input: speed.at_input() },
        ),
        DeviceModel::Elgato4KS => Err(
            ElgatoError::UnsupportedFeature { feature: "USB speed switching", model: "4K S" },
        ),
    }
}

// ---------------------------------------------------------------------------
// Status reading, UVC surface
// ---------------------------------------------------------------------------

/// Read the firmware version string from the UVC-surface card: extended
/// command 0x77 through the probe sequence, decoded as a packed-decimal
/// date. A failed read or unexpected response is reported in the string
/// itself, never as an error: the result is always the firmware report of
/// the probe's outcome, whatever that outcome was.
pub fn read_firmware_version_4kx(h: &UsbHandle) -> (s: String)
    ensures
        exists|outcome: Result<Seq<u8>, ElgatoError>| s@ == spec_fw_report_4kx(outcome),
{
    let r = read_at_command(h, DeviceModel::Elgato4KX, UVC_SUBCMD_FIRMWARE_VERSION);
    let ghost outcome = match &r {
        Result::Ok(data) => Result::<Seq<u8>, ElgatoError>::Ok(data@),
        Result::Err(e) => Result::<Seq<u8>, ElgatoError>::Err(*e),
    };
    let s = firmware_report_4kx(r);
    proof {
        assert(s@ == spec_fw_report_4kx(outcome));
    }
    s
}

/// Read every readable setting of the UVC-surface card into a
/// [`DeviceStatus`]. Fields the variant cannot report stay `None`; a
/// response that does not match its family's layout decodes to `None`
/// rather than an error.
pub fn read_status_4kx(h: &UsbHandle) -> (r: Result<DeviceStatus, ElgatoError>)
    ensures
        r is Ok,
        r matches Ok(st) ==> st.audio_input is None && st.video_scaler is None,
{
    let firmware_version = read_firmware_version_4kx(h);

    let usb_speed = match read_at_command(h, DeviceModel::Elgato4KX, UVC_SUBCMD_USB_SPEED) {
        Ok(data) => decode_usb_speed(data.as_slice()),
        Err(_) => None,
    };

    let (edid_source, custom_edid) = match read_uvc_raw(h, 13) {
        Ok(data) => decode_uvc_edid_source(data.as_slice()),
        Err(_) => (None, None),
    };

    let hdmi_color_range = match read_uvc_raw(h, 9) {
        Ok(data) => decode_uvc_color_range(data.as_slice()),
        Err(_) => None,
    };

    let hdr_tone_mapping = match read_uvc_raw(h, 10) {
        Ok(data) => decode_uvc_hdr(data.as_slice()),
        Err(_) => None,
    };

    let edid_range_policy = match read_uvc_raw(h, 11) {
        Ok(data) => decode_uvc_edid_range(data.as_slice()),
        Err(_) => None,
    };

    Ok(
        DeviceStatus {
            firmware_version,
            usb_speed,
            hdmi_color_range,
            hdr_tone_mapping,
            edid_range_policy,
            edid_source,
            custom_edid,
            audio_input: None,
            video_scaler: None,
        },
    )
}

} // verus!
