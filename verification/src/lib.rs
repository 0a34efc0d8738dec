//! NMEA 2000 frame headers and packet codecs, with the decisions of the
//! windlink firmware: answering address claims, serving boat data over BLE,
//! keeping a bounded log history, and the flash regions it uses.

pub mod ble;
pub mod boat;
pub mod flash;
pub mod header;
pub mod indicator;
pub mod logs;
pub mod node;
pub mod packets;
pub mod text;

pub use header::Header;
