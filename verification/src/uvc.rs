//! Extension-Unit transport for the UVC-surface card.
//!
//! Every setting change is a two-step write on one control endpoint: a
//! trigger announcing the payload's byte length goes to selector 0x02, then
//! the payload itself to selector 0x01. Reads are dynamically sized: a
//! GET_LEN query returns how many bytes the device currently holds for a
//! selector, and the read must ask for exactly that many. The device
//! changes that length in response to prior writes, so it is queried fresh
//! every time, never cached.
//!
//! The full probe sequence (write trigger, write payload, poll the trigger
//! selector's status, query GET_LEN, read the value selector) matches the
//! order the vendor's own software was observed to use; the status poll
//! gives the device time to prepare its response and is kept even though
//! its response bytes are discarded. Any step's transport failure aborts
//! the probe with that step's error.

use vstd::prelude::*;
use vstd::string::*;

use crate::atcmd::build_at_frame;
use crate::atcmd::build_family06_probe;
use crate::atcmd::build_family07_probe;
use crate::error::ElgatoError;
use crate::protocol::USB_TIMEOUT_MS;
use crate::protocol::UVC_ENTITY_ID;
use crate::protocol::UVC_GET_CUR;
use crate::protocol::UVC_GET_LEN;
use crate::protocol::UVC_INTERFACE;
use crate::protocol::UVC_REQUEST_TYPE_IN;
use crate::protocol::UVC_REQUEST_TYPE_OUT;
use crate::protocol::UVC_SELECTOR_TRIGGER;
use crate::protocol::UVC_SELECTOR_VALUE;
use crate::protocol::UVC_SET_CUR;
use crate::settings::DeviceModel;
use crate::text::push_dec;
use crate::usb::usb_read_control;
use crate::usb::usb_write_control;
use crate::usb::UsbHandle;

verus! {

/// The wIndex of every Extension-Unit request: entity ID in the high byte,
/// interface number in the low byte.
fn uvc_w_index() -> (i: u16)
    ensures
        i == UVC_ENTITY_ID * 256 + UVC_INTERFACE,
{
    UVC_ENTITY_ID * 256 + UVC_INTERFACE
}

/// Send a trigger with the given data to selector 0x02.
///
/// The trigger announces the byte count of the payload that follows on
/// selector 0x01; both plain setting writes and framed extended commands
/// use this length-announcement mechanism.
pub fn send_uvc_trigger_data(h: &UsbHandle, data: &[u8]) -> (r: Result<(), ElgatoError>)
    requires
        data@.len() <= 0xffff,
    ensures
        r matches Err(e) ==> e is UvcTransfer,
{
    let w_value = UVC_SELECTOR_TRIGGER * 256;
    match usb_write_control(
        h,
        UVC_REQUEST_TYPE_OUT,
        UVC_SET_CUR,
        w_value,
        uvc_w_index(),
        data,
        USB_TIMEOUT_MS,
    ) {
        Ok(_) => Ok(()),
        Err(e) => {
            let mut m = String::from_str("trigger SET_CUR failed: ");
            m.append(e.as_str());
            Err(ElgatoError::UvcTransfer(m))
        },
    }
}

/// Send a payload to selector 0x01.
pub fn send_uvc_payload(h: &UsbHandle, payload: &[u8]) -> (r: Result<(), ElgatoError>)
    requires
        payload@.len() <= 0xffff,
    ensures
        r matches Err(e) ==> e is UvcTransfer,
{
    let w_value = UVC_SELECTOR_VALUE * 256;
    match usb_write_control(
        h,
        UVC_REQUEST_TYPE_OUT,
        UVC_SET_CUR,
        w_value,
        uvc_w_index(),
        payload,
        USB_TIMEOUT_MS,
    ) {
        Ok(_) => Ok(()),
        Err(e) => {
            let mut m = String::from_str("payload SET_CUR failed: ");
            m.append(e.as_str());
            Err(ElgatoError::UvcTransfer(m))
        },
    }
}

/// The two little-endian bytes of a 16-bit value: what a length trigger
/// announces on the wire.
pub open spec fn spec_le16(n: u16) -> Seq<u8> {
    seq![(n % 256) as u8, (n / 256) as u8]
}

/// Build the trigger announcing a payload length of `n` bytes.
fn le16_trigger(n: u16) -> (t: Vec<u8>)
    ensures
        t@ == spec_le16(n),
{
    let mut t: Vec<u8> = Vec::new();
    t.push((n % 256) as u8);
    t.push((n / 256) as u8);
    proof {
        assert(t@ =~= spec_le16(n));
    }
    t
}

/// Two-step write: length trigger, then payload.
///
/// The trigger carries the payload's byte length as a 16-bit little-endian
/// value ([`spec_le16`] of the length). Failure of either step aborts the
/// operation with that step's error; if the trigger write fails, the
/// payload write is never attempted — there is no partial-write recovery.
pub fn set_uvc_setting(h: &UsbHandle, payload: &[u8]) -> (r: Result<(), ElgatoError>)
    requires
        payload@.len() <= 0xffff,
    ensures
        r matches Err(e) ==> e is UvcTransfer,
{
    let trigger = le16_trigger(payload.len() as u16);
    match send_uvc_trigger_data(h, trigger.as_slice()) {
        Err(e) => Err(e),
        Ok(_) => send_uvc_payload(h, payload),
    }
}

/// Assemble a 16-bit value from its two little-endian bytes.
fn le16_of(b0: u8, b1: u8) -> (n: u16)
    ensures
        n == b0 + 256 * b1,
{
    (b0 as u16) + 256 * (b1 as u16)
}

/// GET_LEN on a selector: how many bytes the device currently holds there,
/// as the 16-bit little-endian value of the reply's first two bytes.
///
/// The device updates this value after a SET_CUR to reflect the size of
/// the response it has prepared, so it must be re-queried after every
/// state-changing write. A reply shorter than two bytes cannot carry a
/// length and is reported as a transport error, like a failed transfer.
pub fn get_uvc_len(h: &UsbHandle, selector: u16) -> (r: Result<u16, ElgatoError>)
    requires
        selector <= 0xff,
    ensures
        r matches Err(e) ==> e is UvcTransfer,
{
    let w_value = selector * 256;
    let mut buf: Vec<u8> = Vec::new();
    buf.push(0);
    buf.push(0);
    match usb_read_control(
        h,
        UVC_REQUEST_TYPE_IN,
        UVC_GET_LEN,
        w_value,
        uvc_w_index(),
        &mut buf,
        USB_TIMEOUT_MS,
    ) {
        Err(e) => {
            let mut m = String::from_str("GET_LEN failed: ");
            m.append(e.as_str());
            Err(ElgatoError::UvcTransfer(m))
        },
        Ok(len) => {
            if len < 2 {
                let mut m = String::from_str("GET_LEN returned ");
                push_dec(&mut m, len as u64);
                m.append(" bytes");
                Err(ElgatoError::UvcTransfer(m))
            } else {
                Ok(le16_of(buf[0], buf[1]))
            }
        },
    }
}

/// GET_CUR on selector 0x01 with a specific buffer size. The result is
/// truncated to the number of bytes the device actually returned.
pub fn read_uvc_raw(h: &UsbHandle, length: usize) -> (r: Result<Vec<u8>, ElgatoError>)
    requires
        length <= 0xffff,
    ensures
        r matches Err(e) ==> e is UvcTransfer,
        r matches Ok(v) ==> v@.len() <= length,
{
    let w_value = UVC_SELECTOR_VALUE * 256;
    let mut buf: Vec<u8> = vec![0u8; length];
    match usb_read_control(
        h,
        UVC_REQUEST_TYPE_IN,
        UVC_GET_CUR,
        w_value,
        uvc_w_index(),
        &mut buf,
        USB_TIMEOUT_MS,
    ) {
        Err(e) => {
            let mut m = String::from_str("GET_CUR failed: ");
            m.append(e.as_str());
            Err(ElgatoError::UvcTransfer(m))
        },
        Ok(len) => {
            buf.truncate(len);
            Ok(buf)
        },
    }
}

/// GET_CUR on selector 0x01, sized by a fresh GET_LEN query.
pub fn read_uvc_setting(h: &UsbHandle) -> (r: Result<Vec<u8>, ElgatoError>)
    ensures
        r matches Err(e) ==> e is UvcTransfer,
        r matches Ok(v) ==> v@.len() <= 0xffff,
{
    match get_uvc_len(h, UVC_SELECTOR_VALUE) {
        Err(e) => Err(e),
        Ok(response_len) => read_uvc_raw(h, response_len as usize),
    }
}

/// Read GET_CUR on selector 0x02, the trigger/status register.
///
/// The vendor's software polls this after every payload write before
/// reading the response; the round-trip gives the device time to process
/// the command and update its response buffer, and is required even though
/// its response bytes are discarded.
pub fn poll_uvc_status(h: &UsbHandle) -> (r: Result<Vec<u8>, ElgatoError>)
    ensures
        r matches Err(e) ==> e is UvcTransfer,
{
    let response_len = match get_uvc_len(h, UVC_SELECTOR_TRIGGER) {
        Err(e) => {
            return Err(e);
        },
        Ok(n) => n as usize,
    };
    let w_value = UVC_SELECTOR_TRIGGER * 256;
    let mut buf: Vec<u8> = vec![0u8; response_len];
    match usb_read_control(
        h,
        UVC_REQUEST_TYPE_IN,
        UVC_GET_CUR,
        w_value,
        uvc_w_index(),
        &mut buf,
        USB_TIMEOUT_MS,
    ) {
        Err(e) => {
            let mut m = String::from_str("status GET_CUR failed: ");
            m.append(e.as_str());
            Err(ElgatoError::UvcTransfer(m))
        },
        Ok(len) => {
            buf.truncate(len);
            Ok(buf)
        },
    }
}

/// Write a probe payload, then read back the response.
///
/// Full sequence: write the length trigger, write the payload, poll the
/// trigger selector's status (its response bytes are discarded), query
/// GET_LEN for the value selector, read the value selector at exactly
/// that length. Any step's transport failure — the status poll's included
/// — aborts the whole probe with that step's error.
pub fn probe_uvc_setting(h: &UsbHandle, probe: &[u8]) -> (r: Result<Vec<u8>, ElgatoError>)
    requires
        probe@.len() <= 0xffff,
    ensures
        r matches Err(e) ==> e is UvcTransfer,
        r matches Ok(v) ==> v@.len() <= 0xffff,
{
    match set_uvc_setting(h, probe) {
        Err(e) => {
            return Err(e);
        },
        Ok(_) => {},
    }
    // Only the poll's timing matters and its response bytes are dropped,
    // but its failure aborts the probe like any other step's.
    match poll_uvc_status(h) {
        Err(e) => {
            return Err(e);
        },
        Ok(_) => {},
    }
    read_uvc_setting(h)
}

/// Send a framed extended command and read the response (UVC surface only).
///
/// Builds the checksummed `[0xa1, indicator, 0x00, 0x00, cmd_id, input...,
/// LRC]` frame and submits it through the full probe sequence; the read
/// half is required, since the device commits some changes only once the
/// response is read.
pub fn send_at_command(h: &UsbHandle, model: DeviceModel, cmd_id: u32, input: &[u8]) -> (r:
    Result<Vec<u8>, ElgatoError>)
    requires
        input@.len() + 9 <= 0xffff,
    ensures
        model != DeviceModel::Elgato4KX ==> (r matches Err(e) && e matches
            ElgatoError::UnsupportedFeature { feature, model: m } && feature@ == "AT commands"@
            && m@ == "4K S"@),
        model == DeviceModel::Elgato4KX ==> (r matches Err(e) ==> e is UvcTransfer),
        r matches Ok(v) ==> v@.len() <= 0xffff,
{
    if !matches!(model, DeviceModel::Elgato4KX) {
        return Err(ElgatoError::UnsupportedFeature { feature: "AT commands", model: "4K S" });
    }
    let frame = build_at_frame(cmd_id, input);
    probe_uvc_setting(h, frame.as_slice())
}

/// Read an extended command's response via a family 0x06 probe (UVC
/// surface only): a checksummed 9-byte probe with the sub-command at
/// byte 4, submitted through the full probe sequence.
pub fn read_at_command(h: &UsbHandle, model: DeviceModel, sub_cmd: u8) -> (r: Result<
    Vec<u8>,
    ElgatoError,
>)
    ensures
        model != DeviceModel::Elgato4KX ==> (r matches Err(e) && e matches
            ElgatoError::UnsupportedFeature { feature, model: m } && feature@ == "AT commands"@
            && m@ == "4K S"@),
        model == DeviceModel::Elgato4KX ==> (r matches Err(e) ==> e is UvcTransfer),
        r matches Ok(v) ==> v@.len() <= 0xffff,
{
    if !matches!(model, DeviceModel::Elgato4KX) {
        return Err(ElgatoError::UnsupportedFeature { feature: "AT commands", model: "4K S" });
    }
    let probe = build_family06_probe(sub_cmd);
    probe_uvc_setting(h, probe.as_slice())
}

/// Read an extended command's response via a family 0x07 probe (UVC
/// surface only): a checksummed 10-byte probe carrying one extra parameter
/// byte at byte 8.
pub fn read_at_command_family07(h: &UsbHandle, model: DeviceModel, sub_cmd: u8, param: u8) -> (r:
    Result<Vec<u8>, ElgatoError>)
    ensures
        model != DeviceModel::Elgato4KX ==> (r matches Err(e) && e matches
            ElgatoError::UnsupportedFeature { feature, model: m } && feature@ == "AT commands"@
            && m@ == "4K S"@),
        model == DeviceModel::Elgato4KX ==> (r matches Err(e) ==> e is UvcTransfer),
        r matches Ok(v) ==> v@.len() <= 0xffff,
{
    if !matches!(model, DeviceModel::Elgato4KX) {
        return Err(ElgatoError::UnsupportedFeature { feature: "AT commands", model: "4K S" });
    }
    let probe = build_family07_probe(sub_cmd, param);
    probe_uvc_setting(h, probe.as_slice())
}

} // verus!
