//! Tests of the framing protocols and the control facade: checksummed
//! frames, HID read requests, write planning and the support matrix, and
//! error rendering.

use elgato4k::atcmd::build_at_frame;
use elgato4k::atcmd::build_family06_probe;
use elgato4k::atcmd::build_family07_probe;
use elgato4k::control::plan_set_audio_input;
use elgato4k::control::plan_set_custom_edid;
use elgato4k::control::plan_set_edid_source;
use elgato4k::control::plan_set_hdmi_range;
use elgato4k::control::plan_set_hdr_mapping;
use elgato4k::control::plan_set_usb_speed;
use elgato4k::control::plan_set_video_scaler;
use elgato4k::hid::after_first_packet;
use elgato4k::hid::hid_extract_response;
use elgato4k::hid::hid_read_request;
use elgato4k::classify_device;
use elgato4k::AudioInput;
use elgato4k::CustomEdidMode;
use elgato4k::DeviceModel;
use elgato4k::EdidRangePolicy;
use elgato4k::EdidSource;
use elgato4k::ElgatoError;
use elgato4k::HdrToneMapping;
use elgato4k::UsbSpeed;
use elgato4k::VideoScaler;
use elgato4k::WritePlan;

fn byte_sum_mod_256(frame: &[u8]) -> u32 {
    frame.iter().map(|&b| b as u32).sum::<u32>() % 256
}

// --- Extended-command frames ---

#[test]
fn at_frame_exact_bytes() {
    // cmd 0x8e with no input: indicator (4 + 2) & 0x7f = 0x06,
    // sum a1 + 06 + 8e = 0x135, checksum 0x100 - 0x35 = 0xcb.
    let frame = build_at_frame(0x8e, &[]);
    assert_eq!(frame, [0xa1, 0x06, 0x00, 0x00, 0x8e, 0x00, 0x00, 0x00, 0xcb]);
}

#[test]
fn at_frame_with_input() {
    let input = UsbSpeed::TenGbps.at_input();
    let frame = build_at_frame(0x8e, &input);
    // [0xa1, indicator, 0, 0, cmd LE, input..., LRC]
    assert_eq!(frame.len(), 4 + 4 + 8 + 1);
    assert_eq!(frame[0], 0xa1);
    assert_eq!(frame[1], (8 + 4 + 2) & 0x7f);
    assert_eq!(&frame[4..8], &[0x8e, 0x00, 0x00, 0x00]);
    assert_eq!(&frame[8..16], &input[..]);
    assert_eq!(byte_sum_mod_256(&frame), 0);
}

#[test]
fn at_frame_checksum_always_balances() {
    let cases: [(u32, Vec<u8>); 4] = [
        (0x77, vec![]),
        (0x8e, vec![0xff, 0xff, 0xff]),
        (0xdeadbeef, vec![0x00]),
        (0x01020304, (0u8..=200).collect()),
    ];
    for (cmd, input) in cases.iter() {
        let frame = build_at_frame(*cmd, input);
        assert_eq!(byte_sum_mod_256(&frame), 0, "frame for {:#x} unbalanced", cmd);
    }
}

#[test]
fn family06_probe_exact() {
    // sum a1 + 06 + 77 = 0x11e, checksum 0x100 - 0x1e = 0xe2.
    let probe = build_family06_probe(0x77);
    assert_eq!(probe, [0xa1, 0x06, 0x00, 0x00, 0x77, 0x00, 0x00, 0x00, 0xe2]);
    assert_eq!(byte_sum_mod_256(&probe), 0);
}

#[test]
fn family07_probe_exact() {
    // sum a1 + 07 + 91 + 01 = 0x13a, checksum 0x100 - 0x3a = 0xc6.
    let probe = build_family07_probe(0x91, 0x01);
    assert_eq!(probe, [0xa1, 0x07, 0x00, 0x00, 0x91, 0x00, 0x00, 0x00, 0x01, 0xc6]);
    assert_eq!(byte_sum_mod_256(&probe), 0);
}

// --- HID read protocol ---

#[test]
fn hid_read_request_exact() {
    let pkt = hid_read_request(0x55, 0x02, 8);
    assert_eq!(pkt.len(), 255);
    assert_eq!(&pkt[..4], &[0x06, 0x55, 0x02, 0x08]);
    assert!(pkt[4..].iter().all(|&b| b == 0));
}

#[test]
fn hid_extract_drops_report_id_and_truncates() {
    let buf: Vec<u8> = vec![0x06, 0x11, 0x22, 0x33, 0x44, 0x55];
    assert_eq!(hid_extract_response(&buf, 4), vec![0x11, 0x22, 0x33]);
    // One byte returned means only the report ID: no data, not an error.
    assert_eq!(hid_extract_response(&buf, 1), Vec::<u8>::new());
    assert_eq!(hid_extract_response(&buf, 0), Vec::<u8>::new());
}

#[test]
fn two_packet_write_aborts_on_first_failure() {
    // A failed first packet must surface its error unchanged and must not
    // hand the commit packet out for sending.
    let commit = vec![0x06, 0x06, 0x06, 0x55, 0x02, 0x13, 0x01];
    let err = ElgatoError::HidTransfer("Failed to send HID packet: timeout".to_string());
    let r = after_first_packet(commit.clone(), Err(err.clone()));
    assert_eq!(r, Err(err));

    let r = after_first_packet(commit.clone(), Ok(()));
    assert_eq!(r, Ok(commit));
}

// --- Device classification ---

#[test]
fn classify_known_product_ids() {
    assert_eq!(classify_device(0x0fd9, 0x009b), Some((DeviceModel::Elgato4KX, "10Gbps / SuperSpeed+")));
    assert_eq!(classify_device(0x0fd9, 0x009c), Some((DeviceModel::Elgato4KX, "5Gbps / SuperSpeed")));
    assert_eq!(classify_device(0x0fd9, 0x009d), Some((DeviceModel::Elgato4KX, "USB 2.0")));
    assert_eq!(classify_device(0x0fd9, 0x00af), Some((DeviceModel::Elgato4KS, "USB 3.0")));
    assert_eq!(classify_device(0x0fd9, 0x00ae), Some((DeviceModel::Elgato4KS, "USB 2.0")));
    assert_eq!(classify_device(0x0fd9, 0x1234), None);
    assert_eq!(classify_device(0x1d6b, 0x009b), None);
}

// --- Write planning and the support matrix ---

#[test]
fn plan_routes_by_model() {
    match plan_set_hdmi_range(DeviceModel::Elgato4KX, EdidRangePolicy::Expand) {
        Ok(WritePlan::Uvc(p)) => assert_eq!(p, EdidRangePolicy::Expand.payload_4kx()),
        other => panic!("unexpected plan: {:?}", other.is_ok()),
    }
    match plan_set_hdmi_range(DeviceModel::Elgato4KS, EdidRangePolicy::Expand) {
        Ok(WritePlan::HidTwoPacket(a, b)) => {
            assert_eq!(a, EdidRangePolicy::Expand.payload_4ks());
            assert_eq!(&b[..7], &[0x06, 0x06, 0x06, 0x55, 0x02, 0x13, 0x01]);
        },
        _ => panic!("expected a two-packet plan"),
    }
    match plan_set_edid_source(DeviceModel::Elgato4KS, EdidSource::Display) {
        Ok(WritePlan::HidSingle(p)) => assert_eq!(p, EdidSource::Display.payload_4ks()),
        _ => panic!("expected a single-packet plan"),
    }
    match plan_set_hdr_mapping(DeviceModel::Elgato4KS, HdrToneMapping::Off) {
        Ok(WritePlan::HidTwoPacket(a, _)) => {
            assert_eq!(a, HdrToneMapping::Off.payload_4ks());
        },
        _ => panic!("expected a two-packet plan"),
    }
    match plan_set_usb_speed(DeviceModel::Elgato4KX, UsbSpeed::TenGbps) {
        Ok(WritePlan::AtCommand { cmd_id, input }) => {
            assert_eq!(cmd_id, 0x8e);
            assert_eq!(input, UsbSpeed::TenGbps.at_input());
        },
        _ => panic!("expected an extended-command plan"),
    }
}

#[test]
fn unsupported_setting_is_refused_without_transfer() {
    // Requesting a setting the attached variant does not support returns
    // the unsupported-feature error from planning alone: no transport is
    // involved in the refusal.
    assert_eq!(
        plan_set_custom_edid(DeviceModel::Elgato4KS, CustomEdidMode::On),
        Err(ElgatoError::UnsupportedFeature { feature: "Custom EDID", model: "4K S" })
    );
    assert_eq!(
        plan_set_audio_input(DeviceModel::Elgato4KX, AudioInput::Analog),
        Err(ElgatoError::UnsupportedFeature { feature: "Audio input selection", model: "4K X" })
    );
    assert_eq!(
        plan_set_video_scaler(DeviceModel::Elgato4KX, VideoScaler::On),
        Err(ElgatoError::UnsupportedFeature { feature: "Video scaler", model: "4K X" })
    );
    assert_eq!(
        plan_set_usb_speed(DeviceModel::Elgato4KS, UsbSpeed::FiveGbps),
        Err(ElgatoError::UnsupportedFeature { feature: "USB speed switching", model: "4K S" })
    );
}

// --- Error rendering ---

#[test]
fn error_messages_exact() {
    assert_eq!(
        ElgatoError::HidPacketSize { expected: 255, got: 7 }.describe(),
        "HID packet must be exactly 255 bytes, got 7"
    );
    assert_eq!(
        ElgatoError::UnsupportedFeature { feature: "Custom EDID", model: "4K S" }.describe(),
        "Custom EDID is not supported on 4K S"
    );
    assert_eq!(
        ElgatoError::UvcTransfer("GET_LEN failed: timeout".to_string()).describe(),
        "UVC transfer failed: GET_LEN failed: timeout"
    );
    assert_eq!(
        ElgatoError::HidTransfer("no device".to_string()).describe(),
        "HID transfer failed: no device"
    );
    assert_eq!(ElgatoError::Usb("busy".to_string()).describe(), "USB error: busy");
    assert_eq!(
        ElgatoError::MissingArgumentValue("--hdr-map".to_string()).describe(),
        "--hdr-map requires a value"
    );
    assert!(ElgatoError::DeviceNotFound.describe().starts_with("Elgato 4K X or 4K S not found"));
    assert_eq!(
        ElgatoError::InvalidArgument {
            arg: "--hdmi-range",
            value: "sideways".to_string(),
            valid: "expand, shrink, auto",
        }
        .describe(),
        "Invalid value 'sideways' for --hdmi-range.\nValid values: expand, shrink, auto"
    );
}
