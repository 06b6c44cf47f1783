//! Casting a video, with an optional subtitle sidecar, to a UPnP AV media
//! renderer: building the DIDL-Lite metadata and the two AVTransport control
//! payloads, and sequencing the control calls against the renderer while a
//! streaming task serves the content.

pub mod descriptor;
pub mod escape;
pub mod metadata;
pub mod payload;
pub mod session;
