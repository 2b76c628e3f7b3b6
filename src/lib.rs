//! Conversion between the SX1301 concentrator's radio frames and the gateway
//! wire messages, with resolution of downlink transmit timing.

pub mod codec;
pub mod downlink;
pub mod envelope;
pub mod error;
pub mod gw;
pub mod hal;
pub mod uplink;

pub use downlink::{downlink_from_proto, downlink_to_tx_info_proto};
pub use envelope::TxPacket;
pub use error::Error;
pub use uplink::uplink_to_proto;
