//! Virtual-terminal support: PSF console fonts, the vconsole
//! configuration file, systemd notification messages and the argument
//! handling of the VT tools, with their contracts.

pub mod error;
pub mod font;
pub mod text;
pub mod num;
pub mod console;
pub mod notify;
pub mod vt;
pub mod tools;
pub mod setup;
pub mod service;
