//! HID report transport for the HID-surface card.
//!
//! All packets are exactly 255 bytes, zero-padded, and travel as
//! SET_REPORT / GET_REPORT class requests on interface 7. A wrong-sized
//! packet is a local validation error caught before any transfer. Reads
//! follow a write-then-read protocol: a 255-byte request packet names the
//! wanted field, and after a short device-settling delay a GET_REPORT
//! returns the response, whose first byte is the report identifier.
//!
//! The delays themselves (between the two packets of a two-packet write,
//! and between a read request and its GET_REPORT) are performed by the
//! calling program; [`after_first_packet`] is the decision between the two
//! packets: the commit packet goes out only when the first packet
//! succeeded, and a first failure surfaces unchanged.

use vstd::prelude::*;
use vstd::string::*;

use crate::error::ElgatoError;
use crate::protocol::HID_GET_REPORT;
use crate::protocol::HID_INTERFACE;
use crate::protocol::HID_PACKET_SIZE;
use crate::protocol::HID_REPORT_ID;
use crate::protocol::HID_REPORT_VALUE_INPUT;
use crate::protocol::HID_REPORT_VALUE_OUTPUT;
use crate::protocol::HID_REQUEST_TYPE_IN;
use crate::protocol::HID_REQUEST_TYPE_OUT;
use crate::protocol::HID_SET_REPORT;
use crate::protocol::USB_TIMEOUT_MS;
use crate::usb::usb_read_control;
use crate::usb::usb_write_control;
use crate::usb::UsbHandle;

verus! {

/// Send a single HID output report. The packet must be exactly
/// [`HID_PACKET_SIZE`] bytes; a wrong length is rejected before any
/// transfer reaches the bus.
pub fn send_hid_packet(h: &UsbHandle, packet: &[u8]) -> (r: Result<(), ElgatoError>)
    ensures
        packet@.len() != HID_PACKET_SIZE ==> (r matches Err(e) && e matches
            ElgatoError::HidPacketSize { expected, got } && expected == HID_PACKET_SIZE && got
            == packet@.len()),
        packet@.len() == HID_PACKET_SIZE ==> (r matches Err(e) ==> e is HidTransfer),
{
    if packet.len() != HID_PACKET_SIZE {
        return Err(ElgatoError::HidPacketSize { expected: HID_PACKET_SIZE, got: packet.len() });
    }
    match usb_write_control(
        h,
        HID_REQUEST_TYPE_OUT,
        HID_SET_REPORT,
        HID_REPORT_VALUE_OUTPUT,
        HID_INTERFACE,
        packet,
        USB_TIMEOUT_MS,
    ) {
        Ok(_) => Ok(()),
        Err(e) => {
            let mut m = String::from_str("Failed to send HID packet: ");
            m.append(e.as_str());
            Err(ElgatoError::HidTransfer(m))
        },
    }
}

/// The decision between the two packets of a two-packet write: when the
/// first packet went through, the second (commit) packet is handed back to
/// be sent after the inter-packet delay; when the first packet failed, its
/// error surfaces unchanged and nothing more is to be sent.
pub fn after_first_packet(second: Vec<u8>, first_result: Result<(), ElgatoError>) -> (r: Result<
    Vec<u8>,
    ElgatoError,
>)
    ensures
        first_result matches Ok(_) ==> (r matches Ok(p) && p@ == second@),
        first_result matches Err(e) ==> (r matches Err(e2) && e2 == e),
{
    match first_result {
        Ok(_) => Ok(second),
        Err(e) => Err(e),
    }
}

/// The 255-byte read request packet: `[report_id, cmd, sub_cmd,
/// requested_length]`, zero-padded.
pub open spec fn spec_hid_read_request(cmd: u8, sub_cmd: u8, data_len: u8) -> Seq<u8> {
    seq![HID_REPORT_ID, cmd, sub_cmd, data_len] + Seq::new(251, |i: int| 0u8)
}

/// Build the read request packet for one field.
pub fn hid_read_request(cmd: u8, sub_cmd: u8, data_len: u8) -> (pkt: Vec<u8>)
    ensures
        pkt@ == spec_hid_read_request(cmd, sub_cmd, data_len),
{
    let mut pkt: Vec<u8> = Vec::new();
    pkt.push(HID_REPORT_ID);
    pkt.push(cmd);
    pkt.push(sub_cmd);
    pkt.push(data_len);
    while pkt.len() < HID_PACKET_SIZE
        invariant
            4 <= pkt.len() <= HID_PACKET_SIZE,
            pkt@.subrange(0, 4) =~= seq![HID_REPORT_ID, cmd, sub_cmd, data_len],
            forall|i: int| 4 <= i < pkt.len() ==> pkt@[i] == 0u8,
        decreases HID_PACKET_SIZE - pkt.len(),
    {
        pkt.push(0x00);
    }
    proof {
        assert(pkt@ =~= spec_hid_read_request(cmd, sub_cmd, data_len));
    }
    pkt
}

/// Send the read request that tells the device which field to prepare.
/// The calling program must wait the read delay before fetching the
/// response with [`hid_get_report`].
pub fn send_hid_read_request(h: &UsbHandle, cmd: u8, sub_cmd: u8, data_len: u8) -> (r: Result<
    (),
    ElgatoError,
>)
    ensures
        r matches Err(e) ==> e is HidTransfer,
{
    let request = hid_read_request(cmd, sub_cmd, data_len);
    match usb_write_control(
        h,
        HID_REQUEST_TYPE_OUT,
        HID_SET_REPORT,
        HID_REPORT_VALUE_OUTPUT,
        HID_INTERFACE,
        request.as_slice(),
        USB_TIMEOUT_MS,
    ) {
        Ok(_) => Ok(()),
        Err(e) => {
            let mut m = String::from_str("Failed to send HID read request: ");
            m.append(e.as_str());
            Err(ElgatoError::HidTransfer(m))
        },
    }
}

/// Everything after the leading report-identifier byte, truncated to the
/// bytes actually returned. An empty result after the identifier means
/// "no data", not an error.
pub fn hid_extract_response(buf: &Vec<u8>, len: usize) -> (r: Vec<u8>)
    requires
        len <= buf@.len(),
    ensures
        len > 1 ==> r@ == buf@.subrange(1, len as int),
        len <= 1 ==> r@ == Seq::<u8>::empty(),
{
    let mut out: Vec<u8> = Vec::new();
    if len > 1 {
        let mut i: usize = 1;
        while i < len
            invariant
                1 <= i <= len <= buf@.len(),
                out@ =~= buf@.subrange(1, i as int),
            decreases len - i,
        {
            out.push(buf[i]);
            proof {
                assert(out@ =~= buf@.subrange(1, i as int + 1));
            }
            i += 1;
        }
    }
    out
}

/// The 255-byte GET_REPORT receive buffer: the report identifier pre-set
/// in the first byte, zeroes after it.
pub open spec fn spec_hid_report_buffer() -> Seq<u8> {
    seq![HID_REPORT_ID] + Seq::new(254, |i: int| 0u8)
}

/// Build the GET_REPORT receive buffer.
fn hid_report_buffer() -> (v: Vec<u8>)
    ensures
        v@ == spec_hid_report_buffer(),
{
    let mut v: Vec<u8> = vec![0u8; HID_PACKET_SIZE];
    v[0] = HID_REPORT_ID;
    proof {
        assert(v@ =~= spec_hid_report_buffer());
    }
    v
}

/// Fetch the prepared response with GET_REPORT. The report identifier is
/// pre-set in the buffer ([`spec_hid_report_buffer`]), as the report
/// protocol requires even for a device-to-host transfer; the returned
/// bytes are everything after it.
pub fn hid_get_report(h: &UsbHandle) -> (r: Result<Vec<u8>, ElgatoError>)
    ensures
        r matches Err(e) ==> e is HidTransfer,
        r matches Ok(v) ==> v@.len() < HID_PACKET_SIZE,
{
    let mut buf: Vec<u8> = hid_report_buffer();
    match usb_read_control(
        h,
        HID_REQUEST_TYPE_IN,
        HID_GET_REPORT,
        HID_REPORT_VALUE_INPUT,
        HID_INTERFACE,
        &mut buf,
        USB_TIMEOUT_MS,
    ) {
        Err(e) => {
            let mut m = String::from_str("Failed to read HID response: ");
            m.append(e.as_str());
            Err(ElgatoError::HidTransfer(m))
        },
        Ok(len) => Ok(hid_extract_response(&buf, len)),
    }
}

} // verus!
