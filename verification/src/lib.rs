//! Verified core of a free-camera tool for the Yakuza games: version text,
//! game patches and how they are applied and undone, controller decoding,
//! and the state machines that drive the camera sessions.
pub mod common;
pub mod gamepad;
pub mod internal;
pub mod controller;
pub mod session;
pub mod kiwami2;
pub mod yakuza0;
pub mod kiwami;
pub mod likeadragon;
pub mod yakuza6;
pub mod string_list;
