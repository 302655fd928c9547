//! A file-conversion service: it recognises the target format of an upload,
//! decides whether a conversion is needed, lays out the working paths and
//! chooses the external tool and its arguments.

pub mod format;
pub mod error;
pub mod command;
pub mod random;
pub mod app_data;
pub mod convert;
pub mod upload;
