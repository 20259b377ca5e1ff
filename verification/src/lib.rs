//! Control-point logic for UPnP/DLNA media renderers.

pub mod control;
pub mod decimal;
pub mod descriptor;
pub mod device;
pub mod discovery;
pub mod network;
pub mod pattern;
pub mod soap;
pub mod status;
pub mod text;
pub mod wol;
