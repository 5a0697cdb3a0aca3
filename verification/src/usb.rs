//! Trusted declarations of the USB control-transfer primitive.
//!
//! The transports speak to the hardware through exactly two calls of the
//! `rusb` crate: `DeviceHandle::write_control` and
//! `DeviceHandle::read_control`. Both submit one synchronous control
//! transfer whose length field is the buffer's length as a 16-bit value and
//! return how many bytes the device actually transferred. Nothing can be
//! promised about a transfer's outcome — the device decides — so the
//! contracts state only what holds of every outcome: a reported count never
//! exceeds the buffer, and a read leaves the buffer's length unchanged.

use vstd::prelude::*;

verus! {

/// The claimed, exclusive connection to one device, opaque to
/// verification. The calling program opens the device, claims the proper
/// interface and places the `rusb` handle here; it takes the handle back
/// out for release when the session ends. (`rusb::DeviceHandle` itself
/// cannot be declared to the verifier: its generic parameter is bounded by
/// a trait of that crate.)
#[verifier::external_body]
pub struct UsbHandle {
    /// The claimed rusb device handle.
    pub inner: rusb::DeviceHandle<rusb::Context>,
}

/// Relies on rusb's `DeviceHandle::write_control`: submits one
/// host-to-device control transfer of `data` and returns the number of
/// bytes transferred, which cannot exceed the buffer's length. A failure is
/// returned as the transfer error's text.
#[verifier::external_body]
pub(crate) fn usb_write_control(
    h: &UsbHandle,
    request_type: u8,
    request: u8,
    value: u16,
    index: u16,
    data: &[u8],
    timeout_ms: u64,
) -> (r: Result<usize, String>)
    requires
        data@.len() <= 0xffff,
    ensures
        r matches Ok(n) ==> n <= data@.len(),
{
    match h.inner.write_control(
        request_type,
        request,
        value,
        index,
        data,
        core::time::Duration::from_millis(timeout_ms),
    ) {
        Ok(n) => Ok(n),
        Err(e) => Err(format!("{}", e)),
    }
}

/// Relies on rusb's `DeviceHandle::read_control`: submits one
/// device-to-host control transfer into `buf` and returns the number of
/// bytes received, which cannot exceed the buffer's length. The buffer
/// keeps its length; its contents after the call are whatever the device
/// sent. A failure is returned as the transfer error's text.
#[verifier::external_body]
pub(crate) fn usb_read_control(
    h: &UsbHandle,
    request_type: u8,
    request: u8,
    value: u16,
    index: u16,
    buf: &mut Vec<u8>,
    timeout_ms: u64,
) -> (r: Result<usize, String>)
    requires
        old(buf)@.len() <= 0xffff,
    ensures
        final(buf)@.len() == old(buf)@.len(),
        r matches Ok(n) ==> n <= old(buf)@.len(),
{
    match h.inner.read_control(
        request_type,
        request,
        value,
        index,
        buf.as_mut_slice(),
        core::time::Duration::from_millis(timeout_ms),
    ) {
        Ok(n) => Ok(n),
        Err(e) => Err(format!("{}", e)),
    }
}

} // verus!
