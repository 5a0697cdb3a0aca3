//! Error type shared by every operation of the crate.
//!
//! Structured errors let callers distinguish device-not-found, transport
//! failures, packet-size validation failures and unsupported features
//! programmatically. Transport errors carry the failing operation's name and
//! the underlying transfer error's text; [`ElgatoError::describe`] renders
//! each variant into the exact message the original tool printed.

use vstd::prelude::*;
use vstd::string::*;

verus! {

/// Top-level error type for all device operations.
#[derive(Debug, Clone, PartialEq, Eq)]
pub enum ElgatoError {
    /// No supported capture card was found on the USB bus.
    DeviceNotFound,
    /// A USB transport error outside a framed transfer, rendered as text.
    Usb(String),
    /// HID packet size mismatch, caught before any transfer.
    HidPacketSize { expected: usize, got: usize },
    /// A HID SET_REPORT or GET_REPORT transfer failed.
    HidTransfer(String),
    /// A UVC control transfer failed.
    UvcTransfer(String),
    /// The requested feature is not supported on this device model.
    UnsupportedFeature { feature: &'static str, model: &'static str },
    /// Invalid argument value.
    InvalidArgument { arg: &'static str, value: String, valid: &'static str },
    /// A required argument value is missing.
    MissingArgumentValue(String),
}

impl ElgatoError {
    /// The message that [`ElgatoError::describe`] renders.
    pub open spec fn spec_describe(self) -> Seq<char> {
        match self {
            ElgatoError::DeviceNotFound => {
                "Elgato 4K X or 4K S not found. Make sure it's connected.\nKnown PIDs: 4K X (009b, 009c, 009d), 4K S (00ae, 00af)"@
            },
            ElgatoError::Usb(e) => "USB error: "@ + e@,
            ElgatoError::HidPacketSize { expected, got } => {
                "HID packet must be exactly "@ + crate::text::spec_dec(expected as int)
                    + " bytes, got "@ + crate::text::spec_dec(got as int)
            },
            ElgatoError::HidTransfer(e) => "HID transfer failed: "@ + e@,
            ElgatoError::UvcTransfer(e) => "UVC transfer failed: "@ + e@,
            ElgatoError::UnsupportedFeature { feature, model } => {
                feature@ + " is not supported on "@ + model@
            },
            ElgatoError::InvalidArgument { arg, value, valid } => {
                "Invalid value '"@ + value@ + "' for "@ + arg@ + ".\nValid values: "@ + valid@
            },
            ElgatoError::MissingArgumentValue(what) => what@ + " requires a value"@,
        }
    }

    /// Render the error as the message the tool shows for it.
    pub fn describe(&self) -> (s: String)
        ensures
            s@ == self.spec_describe(),
    {
        match self {
            ElgatoError::DeviceNotFound => {
                String::from_str(
                    "Elgato 4K X or 4K S not found. Make sure it's connected.\nKnown PIDs: 4K X (009b, 009c, 009d), 4K S (00ae, 00af)",
                )
            },
            ElgatoError::Usb(e) => {
                let mut s = String::from_str("USB error: ");
                s.append(e.as_str());
                s
            },
            ElgatoError::HidPacketSize { expected, got } => {
                let mut s = String::from_str("HID packet must be exactly ");
                crate::text::push_dec(&mut s, *expected as u64);
                s.append(" bytes, got ");
                crate::text::push_dec(&mut s, *got as u64);
                s
            },
            ElgatoError::HidTransfer(e) => {
                let mut s = String::from_str("HID transfer failed: ");
                s.append(e.as_str());
                s
            },
            ElgatoError::UvcTransfer(e) => {
                let mut s = String::from_str("UVC transfer failed: ");
                s.append(e.as_str());
                s
            },
            ElgatoError::UnsupportedFeature { feature, model } => {
                let mut s = String::from_str(feature);
                s.append(" is not supported on ");
                s.append(model);
                s
            },
            ElgatoError::InvalidArgument { arg, value, valid } => {
                let mut s = String::from_str("Invalid value '");
                s.append(value.as_str());
                s.append("' for ");
                s.append(arg);
                s.append(".\nValid values: ");
                s.append(valid);
                s
            },
            ElgatoError::MissingArgumentValue(what) => {
                let mut s = what.clone();
                s.append(" requires a value");
                s
            },
        }
    }
}

} // verus!
