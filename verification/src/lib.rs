//! The state machine behind the sniffer's graphical interface: which page is
//! shown, which overlay is open, the capture filters, the notification
//! settings and the favorite hosts, and what the interface asks its host to do
//! after each message.

pub mod pages;
pub mod notifications;
pub mod traffic;
pub mod settings;
pub mod chart;
pub mod timing;
pub mod svg;
pub mod sets;
pub mod text;
pub mod message;
pub mod sniffer;
pub mod capture;
pub mod update;
pub mod laws;
