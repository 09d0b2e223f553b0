//! Connectivity and power-lifecycle core of a battery powered e-ink clock.
//!
//! The library holds the logic that is worth stating precisely: the Wi-Fi
//! connection state machine and the mutual-exclusion broker in front of it,
//! the captive-portal responders (a one-lease DHCP server and a DNS
//! hijacker), the multipart provisioning form parser, the deep-sleep
//! scheduler with its wall-clock anchor, the flash record codecs, and the
//! CHIP-8 game core shown on the display.
//!
//! Everything that talks to hardware (the radio driver, sockets, flash,
//! the RTC) lives outside this crate and hands plain values in.

pub mod bytes;
pub mod chip8;
pub mod dhcp;
pub mod display;
pub mod dns;
pub mod ec11;
pub mod event;
pub mod model;
pub mod pages;
pub mod portal;
pub mod request;
pub mod sleep;
pub mod sound;
pub mod storage;
pub mod widgets;
pub mod wifi;
pub mod worldtime;
