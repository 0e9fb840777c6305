//! Protocol logic for driving Chrome (CDP), Firefox (WebDriver BiDi) and
//! Safari (WebDriver classic): message framing, response routing, result
//! decoding and the command parameters of every browser operation.

pub mod json;
pub mod text;
pub mod error;
pub mod router;
pub mod cdp;
pub mod bidi;
pub mod types;
pub mod chrome;
pub mod webdriver;
pub mod ieee;
pub mod bidi_value;
pub mod firefox;
pub mod safari;
pub mod launcher;
pub mod transport;
pub mod demo;

pub use error::BrowserError;
pub use types::{JsResult, TargetInfo};
pub use cdp::CdpEvent;
