//! Tests of the Status Decoder: single-byte tables, layout matching,
//! firmware version decoding, and value labels.

use elgato4k::status::decode_audio_input;
use elgato4k::status::decode_color_range;
use elgato4k::status::decode_edid_mode;
use elgato4k::status::decode_hdr;
use elgato4k::status::decode_usb_speed;
use elgato4k::status::decode_uvc_color_range;
use elgato4k::status::decode_uvc_edid_range;
use elgato4k::status::decode_uvc_edid_source;
use elgato4k::status::decode_uvc_hdr;
use elgato4k::status::decode_video_scaler;
use elgato4k::status::firmware_report_4kx;
use elgato4k::status::firmware_report_4ks;
use elgato4k::status::format_firmware_version_4kx;
use elgato4k::status::format_firmware_version_4ks;
use elgato4k::AudioInput;
use elgato4k::CustomEdidMode;
use elgato4k::CustomEdidStatus;
use elgato4k::EdidRangePolicy;
use elgato4k::EdidSource;
use elgato4k::ElgatoError;
use elgato4k::HdrToneMapping;
use elgato4k::ReadValue;
use elgato4k::UsbSpeedStatus;
use elgato4k::VideoScaler;

// --- HID decode tests ---

#[test]
fn decode_hdr_values() {
    assert_eq!(decode_hdr(0x01), ReadValue::Known(HdrToneMapping::On));
    assert_eq!(decode_hdr(0x00), ReadValue::Known(HdrToneMapping::Off));
    assert_eq!(decode_hdr(0xff), ReadValue::Unknown(0xff));
}

#[test]
fn decode_color_range_values() {
    assert_eq!(decode_color_range(0x00), ReadValue::Known(EdidRangePolicy::Auto));
    assert_eq!(decode_color_range(0x01), ReadValue::Known(EdidRangePolicy::Expand));
    assert_eq!(decode_color_range(0x02), ReadValue::Known(EdidRangePolicy::Shrink));
    assert_eq!(decode_color_range(0x99), ReadValue::Unknown(0x99));
}

#[test]
fn decode_edid_mode_values() {
    assert_eq!(decode_edid_mode(0x00), ReadValue::Known(EdidSource::Merged));
    assert_eq!(decode_edid_mode(0x01), ReadValue::Known(EdidSource::Display));
    assert_eq!(decode_edid_mode(0x02), ReadValue::Known(EdidSource::Internal));
    assert_eq!(decode_edid_mode(0x03), ReadValue::Unknown(0x03));
}

#[test]
fn decode_audio_input_values() {
    assert_eq!(decode_audio_input(0x00), ReadValue::Known(AudioInput::Embedded));
    assert_eq!(decode_audio_input(0x01), ReadValue::Known(AudioInput::Embedded));
    assert_eq!(decode_audio_input(0x03), ReadValue::Known(AudioInput::Analog));
    assert_eq!(decode_audio_input(0x02), ReadValue::Unknown(0x02));
}

#[test]
fn decode_video_scaler_values() {
    assert_eq!(decode_video_scaler(0x01), ReadValue::Known(VideoScaler::On));
    assert_eq!(decode_video_scaler(0x00), ReadValue::Known(VideoScaler::Off));
    assert_eq!(decode_video_scaler(0x02), ReadValue::Unknown(0x02));
}

#[test]
fn decode_usb_speed_values() {
    let five = [0xa1, 0x80, 0x00, 0x00, 0x00];
    assert_eq!(decode_usb_speed(&five), Some(ReadValue::Known(UsbSpeedStatus::FiveGbps)));
    let ten = [0xa1, 0x80, 0x00, 0x00, 0x01];
    assert_eq!(decode_usb_speed(&ten), Some(ReadValue::Known(UsbSpeedStatus::TenGbps)));
    let odd = [0xa1, 0x80, 0x00, 0x00, 0x07];
    assert_eq!(decode_usb_speed(&odd), Some(ReadValue::Unknown(0x07)));
    let short = [0xa1, 0x80];
    assert_eq!(decode_usb_speed(&short), None);
}

// --- Firmware version tests ---

#[test]
fn firmware_version_4kx_valid() {
    let data = 250210u32.to_le_bytes();
    let result = format_firmware_version_4kx(&data);
    assert_eq!(result, "25.02.10 (raw: 250210)");
}

#[test]
fn firmware_version_4kx_zero() {
    let data = 0u32.to_le_bytes();
    let result = format_firmware_version_4kx(&data);
    assert_eq!(result, "Unknown (no version reported)");
}

#[test]
fn firmware_version_4kx_out_of_range() {
    // 259999 would be month 99, day 99: present the raw value instead.
    let data = 259999u32.to_le_bytes();
    let result = format_firmware_version_4kx(&data);
    assert_eq!(result, "Raw: 259999 (0x0003f79f, bytes: [9f, f7, 03, 00])");
}

#[test]
fn firmware_version_4ks_valid() {
    let data = [0x00, 0x00, 0x00, 0x25, 0x0C, 0x03, 0x00, 0x00];
    let result = format_firmware_version_4ks(&data);
    assert_eq!(result, "25.0c.03");
}

#[test]
fn firmware_version_4ks_zero() {
    let data = [0x00; 8];
    let result = format_firmware_version_4ks(&data);
    assert_eq!(result, "Unknown (no version reported)");
}

#[test]
fn firmware_version_4ks_invalid_month() {
    let data = [0x00, 0x00, 0x00, 0x25, 0x15, 0x03, 0x00, 0x00];
    let result = format_firmware_version_4ks(&data);
    assert!(result.starts_with("Raw:"));
}

#[test]
fn firmware_version_4ks_invalid_month_exact() {
    let data = [0x00, 0x00, 0x00, 0x25, 0x15, 0x03, 0x00, 0x00];
    let result = format_firmware_version_4ks(&data);
    assert_eq!(result, "Raw: [00, 00, 00, 25, 15, 03, 00, 00]");
}

#[test]
fn firmware_report_4kx_outcomes() {
    let ok = firmware_report_4kx(Ok(250210u32.to_le_bytes().to_vec()));
    assert_eq!(ok, "25.02.10 (raw: 250210)");
    let short = firmware_report_4kx(Ok(vec![0x25, 0x02]));
    assert_eq!(short, "Unexpected response (2 bytes): [25, 02]");
    let failed = firmware_report_4kx(Err(ElgatoError::UvcTransfer("GET_CUR failed: timeout".to_string())));
    assert_eq!(failed, "Failed to read: UVC transfer failed: GET_CUR failed: timeout");
}

#[test]
fn firmware_report_4ks_outcomes() {
    let ok = firmware_report_4ks(Ok(vec![0x00, 0x00, 0x00, 0x25, 0x0C, 0x03, 0x00, 0x00]));
    assert_eq!(ok, "25.0c.03");
    let short = firmware_report_4ks(Ok(vec![0x01, 0x02, 0x03]));
    assert_eq!(short, "Unexpected response (3 bytes): [01, 02, 03]");
}

// --- UVC decode tests ---

#[test]
fn decode_uvc_color_range_expand() {
    let data = [0xa1, 0x06, 0x00, 0x00, 0x43, 0x00, 0x00, 0x00, 0x00];
    assert_eq!(
        decode_uvc_color_range(&data),
        Some(ReadValue::Known(EdidRangePolicy::Expand))
    );
}

#[test]
fn decode_uvc_hdr_on() {
    let data = [0xa1, 0x07, 0x00, 0x00, 0x1f, 0x00, 0x00, 0x00, 0x01, 0x38];
    assert_eq!(
        decode_uvc_hdr(&data),
        Some(ReadValue::Known(HdrToneMapping::On))
    );
}

#[test]
fn decode_uvc_edid_range_expand() {
    let data = [0xa1, 0x08, 0x00, 0x00, 0x7c, 0x00, 0x00, 0x00, 0x01, 0x03, 0xd7];
    assert_eq!(
        decode_uvc_edid_range(&data),
        Some(ReadValue::Known(EdidRangePolicy::Expand))
    );
}

#[test]
fn decode_uvc_edid_source_display() {
    let data = [0xa1, 0x0a, 0x00, 0x00, 0x4d, 0x00, 0x00, 0x00, 0x01, 0x00, 0x00, 0x00, 0x07];
    let (source, custom) = decode_uvc_edid_source(&data);
    assert_eq!(source, Some(ReadValue::Known(EdidSource::Display)));
    assert!(custom.is_none());
}

#[test]
fn decode_uvc_custom_edid_on() {
    let data = [0xa1, 0x0a, 0x00, 0x00, 0x54, 0x00, 0x00, 0x00, 0x00, 0x01, 0x80, 0x00, 0x80];
    let (source, custom) = decode_uvc_edid_source(&data);
    assert!(source.is_none());
    assert_eq!(custom, Some(CustomEdidStatus::On { preset_index: 1 }));
}

#[test]
fn decode_uvc_custom_edid_off() {
    let data = [0xa1, 0x0a, 0x00, 0x00, 0x54, 0x00, 0x00, 0x00, 0x00, 0x00, 0x80, 0x00, 0x80];
    let (source, custom) = decode_uvc_edid_source(&data);
    assert!(source.is_none());
    assert_eq!(custom, Some(CustomEdidStatus::Off));
}

#[test]
fn decode_uvc_invalid_header() {
    let data = [0xb2, 0x06, 0x00, 0x00, 0x43, 0x00, 0x00, 0x00, 0x00];
    assert_eq!(decode_uvc_color_range(&data), None);
}

#[test]
fn uvc_encode_decode_round_trip() {
    // Decoding the bytes the codec writes recovers the written value.
    let (_, custom) = decode_uvc_edid_source(&CustomEdidMode::On.payload_4kx());
    assert_eq!(custom, Some(CustomEdidStatus::On { preset_index: 1 }));
    let (source, _) = decode_uvc_edid_source(&EdidSource::Internal.payload_4kx());
    assert_eq!(source, Some(ReadValue::Known(EdidSource::Internal)));
    assert_eq!(
        decode_uvc_hdr(&HdrToneMapping::Off.payload_4kx()),
        Some(ReadValue::Known(HdrToneMapping::Off))
    );
    assert_eq!(
        decode_uvc_edid_range(&EdidRangePolicy::Auto.payload_4kx()),
        Some(ReadValue::Known(EdidRangePolicy::Auto))
    );
}

#[test]
fn hid_encode_decode_round_trip() {
    // The value byte the codec writes for a setting decodes back to it,
    // for example HDR on encodes to 0x01 and 0x01 decodes to Known(On).
    let pkt = HdrToneMapping::On.payload_4ks();
    assert_eq!(pkt[6], 0x01);
    assert_eq!(decode_hdr(pkt[6]), ReadValue::Known(HdrToneMapping::On));
    let pkt = EdidRangePolicy::Shrink.payload_4ks();
    assert_eq!(decode_color_range(pkt[6]), ReadValue::Known(EdidRangePolicy::Shrink));
    let pkt = EdidSource::Display.payload_4ks();
    assert_eq!(decode_edid_mode(pkt[6]), ReadValue::Known(EdidSource::Display));
    let pkt = VideoScaler::Off.payload_4ks();
    assert_eq!(decode_video_scaler(pkt[6]), ReadValue::Known(VideoScaler::Off));
    let pkt = AudioInput::Embedded.payload_4ks();
    assert_eq!(decode_audio_input(pkt[6]), ReadValue::Known(AudioInput::Embedded));
}

// --- ReadValue label tests ---

#[test]
fn read_value_display_known() {
    let v = ReadValue::Known(HdrToneMapping::On);
    assert_eq!(v.to_string(), "On");
}

#[test]
fn read_value_display_unknown() {
    let v: ReadValue<HdrToneMapping> = ReadValue::Unknown(0xab);
    assert_eq!(v.to_string(), "Unknown (0xab)");
}

#[test]
fn read_value_display_every_family() {
    assert_eq!(ReadValue::Known(EdidRangePolicy::Shrink).to_string(), "Shrink (Limited)");
    assert_eq!(ReadValue::<EdidRangePolicy>::Unknown(0x10).to_string(), "Unknown (0x10)");
    assert_eq!(ReadValue::Known(EdidSource::Merged).to_string(), "Merged");
    assert_eq!(ReadValue::Known(AudioInput::Analog).to_string(), "Analog (line-in)");
    assert_eq!(ReadValue::Known(VideoScaler::Off).to_string(), "Off");
    assert_eq!(ReadValue::Known(UsbSpeedStatus::TenGbps).to_string(), "10Gbps (SuperSpeed+)");
    assert_eq!(ReadValue::<UsbSpeedStatus>::Unknown(0x07).to_string(), "Unknown (0x07)");
}

// --- CustomEdidStatus label tests ---

#[test]
fn custom_edid_status_display() {
    assert_eq!(CustomEdidStatus::Off.to_string(), "Off");
    assert_eq!(CustomEdidStatus::On { preset_index: 3 }.to_string(), "On (preset index 3)");
}

// --- UsbSpeedStatus label tests ---

#[test]
fn usb_speed_status_display() {
    assert_eq!(UsbSpeedStatus::FiveGbps.to_string(), "5Gbps (SuperSpeed)");
    assert_eq!(UsbSpeedStatus::TenGbps.to_string(), "10Gbps (SuperSpeed+)");
}
