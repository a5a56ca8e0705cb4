//! Verified core of a HID side-button mapper: report decoding, press/release
//! transition tracking, device selection and the parsing of its settings.

pub mod text;
pub mod numparse;
pub mod config;
pub mod mapper;
pub mod action;
pub mod args;
pub mod device;
pub mod report;
pub mod autodetect;
pub mod backend;
pub mod service;
pub mod monitor;
