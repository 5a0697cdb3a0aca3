//! Tests of the Setting Codec: value parsing, labels, and exact payloads.

use elgato4k::protocol::HID_PACKET_SIZE;
use elgato4k::protocol::SUBCMD_AUDIO_INPUT;
use elgato4k::protocol::SUBCMD_COLOR_RANGE;
use elgato4k::protocol::SUBCMD_EDID_MODE;
use elgato4k::protocol::SUBCMD_HDR_TONEMAPPING;
use elgato4k::protocol::SUBCMD_VIDEO_SCALER;
use elgato4k::settings::hid_commit_packet;
use elgato4k::settings::hid_write_packet;
use elgato4k::AudioInput;
use elgato4k::CustomEdidMode;
use elgato4k::DeviceModel;
use elgato4k::EdidRangePolicy;
use elgato4k::EdidSource;
use elgato4k::HdrToneMapping;
use elgato4k::UsbSpeed;
use elgato4k::VideoScaler;

#[test]
fn edid_range_from_str() {
    assert_eq!("expand".parse(), Ok(EdidRangePolicy::Expand));
    assert_eq!("full".parse(), Ok(EdidRangePolicy::Expand));
    assert_eq!("shrink".parse(), Ok(EdidRangePolicy::Shrink));
    assert_eq!("limited".parse(), Ok(EdidRangePolicy::Shrink));
    assert_eq!("auto".parse(), Ok(EdidRangePolicy::Auto));
    assert_eq!("AUTO".parse(), Ok(EdidRangePolicy::Auto));
    assert!("bogus".parse::<EdidRangePolicy>().is_err());
}

#[test]
fn edid_range_display() {
    assert_eq!(EdidRangePolicy::Expand.to_string(), "Expand (Full)");
    assert_eq!(EdidRangePolicy::Shrink.to_string(), "Shrink (Limited)");
    assert_eq!(EdidRangePolicy::Auto.to_string(), "Auto");
}

#[test]
fn edid_source_from_str() {
    assert_eq!("display".parse(), Ok(EdidSource::Display));
    assert_eq!("merged".parse(), Ok(EdidSource::Merged));
    assert_eq!("internal".parse(), Ok(EdidSource::Internal));
    assert!("nope".parse::<EdidSource>().is_err());
}

#[test]
fn hdr_from_str() {
    assert_eq!("on".parse(), Ok(HdrToneMapping::On));
    assert_eq!("true".parse(), Ok(HdrToneMapping::On));
    assert_eq!("1".parse(), Ok(HdrToneMapping::On));
    assert_eq!("off".parse(), Ok(HdrToneMapping::Off));
    assert_eq!("false".parse(), Ok(HdrToneMapping::Off));
    assert_eq!("0".parse(), Ok(HdrToneMapping::Off));
}

#[test]
fn audio_input_from_str() {
    assert_eq!("embedded".parse(), Ok(AudioInput::Embedded));
    assert_eq!("hdmi".parse(), Ok(AudioInput::Embedded));
    assert_eq!("analog".parse(), Ok(AudioInput::Analog));
    assert_eq!("line".parse(), Ok(AudioInput::Analog));
}

#[test]
fn usb_speed_from_str() {
    assert_eq!("5g".parse(), Ok(UsbSpeed::FiveGbps));
    assert_eq!("10g".parse(), Ok(UsbSpeed::TenGbps));
    assert_eq!("5gbps".parse(), Ok(UsbSpeed::FiveGbps));
    assert!("20g".parse::<UsbSpeed>().is_err());
}

#[test]
fn custom_edid_from_str() {
    assert_eq!("on".parse(), Ok(CustomEdidMode::On));
    assert_eq!("OFF".parse(), Ok(CustomEdidMode::Off));
    assert!("maybe".parse::<CustomEdidMode>().is_err());
}

#[test]
fn video_scaler_from_str() {
    assert_eq!("on".parse(), Ok(VideoScaler::On));
    assert_eq!("false".parse(), Ok(VideoScaler::Off));
    assert!("half".parse::<VideoScaler>().is_err());
}

#[test]
fn payload_4kx_starts_with_a1() {
    assert_eq!(EdidRangePolicy::Auto.payload_4kx()[0], 0xa1);
    assert_eq!(EdidRangePolicy::Expand.payload_4kx()[0], 0xa1);
    assert_eq!(EdidSource::Display.payload_4kx()[0], 0xa1);
    assert_eq!(HdrToneMapping::On.payload_4kx()[0], 0xa1);
    assert_eq!(CustomEdidMode::Off.payload_4kx()[0], 0xa1);
}

#[test]
fn payload_4kx_exact_bytes() {
    assert_eq!(
        HdrToneMapping::On.payload_4kx(),
        [0xa1, 0x07, 0x00, 0x00, 0x1f, 0x00, 0x00, 0x00, 0x01, 0x38]
    );
    assert_eq!(
        EdidRangePolicy::Shrink.payload_4kx(),
        [0xa1, 0x08, 0x00, 0x00, 0x7c, 0x00, 0x00, 0x00, 0x01, 0x04, 0xd6]
    );
    assert_eq!(
        EdidSource::Merged.payload_4kx(),
        [0xa1, 0x0a, 0x00, 0x00, 0x4d, 0x00, 0x00, 0x00, 0x04, 0x00, 0x00, 0x00, 0x04]
    );
    assert_eq!(
        CustomEdidMode::On.payload_4kx(),
        [0xa1, 0x0a, 0x00, 0x00, 0x54, 0x00, 0x00, 0x00, 0x00, 0x01, 0x80, 0x00, 0x80]
    );
}

#[test]
fn payload_4kx_checksums_to_zero() {
    let payloads = [
        EdidRangePolicy::Auto.payload_4kx(),
        EdidRangePolicy::Expand.payload_4kx(),
        EdidRangePolicy::Shrink.payload_4kx(),
        EdidSource::Display.payload_4kx(),
        EdidSource::Merged.payload_4kx(),
        EdidSource::Internal.payload_4kx(),
        HdrToneMapping::On.payload_4kx(),
        HdrToneMapping::Off.payload_4kx(),
        CustomEdidMode::On.payload_4kx(),
        CustomEdidMode::Off.payload_4kx(),
    ];
    for p in payloads.iter() {
        let sum: u32 = p.iter().map(|&b| b as u32).sum();
        assert_eq!(sum % 256, 0, "payload {:02x?} does not sum to zero", p);
    }
}

#[test]
fn hid_packets_are_correct_size() {
    assert_eq!(EdidRangePolicy::Expand.payload_4ks().len(), HID_PACKET_SIZE);
    assert_eq!(EdidSource::Display.payload_4ks().len(), HID_PACKET_SIZE);
    assert_eq!(AudioInput::Analog.payload_4ks().len(), HID_PACKET_SIZE);
    assert_eq!(HdrToneMapping::On.payload_4ks().len(), HID_PACKET_SIZE);
    assert_eq!(VideoScaler::Off.payload_4ks().len(), HID_PACKET_SIZE);
}

#[test]
fn hid_packets_have_correct_header() {
    let pkt = HdrToneMapping::On.payload_4ks();
    assert_eq!(&pkt[..5], &[0x06, 0x06, 0x06, 0x55, 0x02]);
    assert_eq!(pkt[5], SUBCMD_HDR_TONEMAPPING);
    assert_eq!(pkt[6], 0x01); // On = 0x01
}

#[test]
fn hid_packets_correct_subcmds() {
    let pkt = EdidRangePolicy::Expand.payload_4ks();
    assert_eq!(pkt[5], SUBCMD_COLOR_RANGE);
    assert_eq!(pkt[6], 0x01);

    let pkt = EdidSource::Internal.payload_4ks();
    assert_eq!(pkt[5], SUBCMD_EDID_MODE);
    assert_eq!(pkt[6], 0x02);

    let pkt = AudioInput::Analog.payload_4ks();
    assert_eq!(pkt[5], SUBCMD_AUDIO_INPUT);
    assert_eq!(pkt[6], 0x01);

    let pkt = VideoScaler::On.payload_4ks();
    assert_eq!(pkt[5], SUBCMD_VIDEO_SCALER);
    assert_eq!(pkt[6], 0x01);
}

#[test]
fn hid_packets_zero_padded() {
    let pkt = VideoScaler::On.payload_4ks();
    // Bytes after the header + sub_cmd + value should all be zero
    assert!(pkt[7..].iter().all(|&b| b == 0));
}

#[test]
fn hid_commit_packet_exact() {
    let pkt = hid_commit_packet();
    assert_eq!(pkt.len(), HID_PACKET_SIZE);
    assert_eq!(&pkt[..7], &[0x06, 0x06, 0x06, 0x55, 0x02, 0x13, 0x01]);
    assert!(pkt[7..].iter().all(|&b| b == 0));
}

#[test]
fn hid_write_packet_builds_any_field() {
    let pkt = hid_write_packet(0x42, 0x99);
    assert_eq!(pkt.len(), HID_PACKET_SIZE);
    assert_eq!(&pkt[..7], &[0x06, 0x06, 0x06, 0x55, 0x02, 0x42, 0x99]);
    assert!(pkt[7..].iter().all(|&b| b == 0));
}

#[test]
fn codec_is_pure() {
    // Calling the codec twice with the same input yields identical bytes.
    assert_eq!(HdrToneMapping::On.payload_4kx(), HdrToneMapping::On.payload_4kx());
    assert_eq!(HdrToneMapping::On.payload_4ks(), HdrToneMapping::On.payload_4ks());
    assert_eq!(EdidSource::Merged.payload_4kx(), EdidSource::Merged.payload_4kx());
    assert_eq!(AudioInput::Analog.payload_4ks(), AudioInput::Analog.payload_4ks());
    assert_eq!(UsbSpeed::TenGbps.at_input(), UsbSpeed::TenGbps.at_input());
}

#[test]
fn usb_speed_at_input() {
    let five = UsbSpeed::FiveGbps.at_input();
    // Bytes 0-3: constant 1 (u32 LE), Bytes 4-7: speed 0x00=5Gbps
    assert_eq!(five, [0x01, 0x00, 0x00, 0x00, 0x00, 0x00, 0x00, 0x00]);
    let ten = UsbSpeed::TenGbps.at_input();
    // Bytes 0-3: constant 1 (u32 LE), Bytes 4-7: speed 0x03=10Gbps
    assert_eq!(ten, [0x01, 0x00, 0x00, 0x00, 0x03, 0x00, 0x00, 0x00]);
}

#[test]
fn display_device_model() {
    assert_eq!(DeviceModel::Elgato4KX.to_string(), "4K X");
    assert_eq!(DeviceModel::Elgato4KS.to_string(), "4K S");
}
