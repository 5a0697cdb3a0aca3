//! Control protocols for two families of USB capture cards that share one
//! vendor but expose two distinct control surfaces: a UVC Extension-Unit
//! byte channel and a fixed-size HID report channel.
//!
//! The crate proves the byte-exact shape of every payload it produces, the
//! checksum invariant of the framed extended-command protocol, and the
//! classification rules that turn raw response bytes back into typed values.
//! Device discovery, interface claiming and the timed delivery of packets
//! are left to the calling program; the verified core hands it exact bytes
//! and decodes exact bytes back.

pub mod atcmd;
pub mod control;
pub mod error;
pub mod hid;
pub mod protocol;
pub mod settings;
pub mod status;
pub mod text;
pub mod usb;
pub mod uvc;

pub use control::classify_device;
pub use control::WritePlan;
pub use error::ElgatoError;
pub use settings::AudioInput;
pub use settings::CustomEdidMode;
pub use settings::DeviceModel;
pub use settings::EdidRangePolicy;
pub use settings::EdidSource;
pub use settings::HdrToneMapping;
pub use settings::UsbSpeed;
pub use settings::VideoScaler;
pub use status::CustomEdidStatus;
pub use status::DeviceStatus;
pub use status::ReadValue;
pub use status::UsbSpeedStatus;
