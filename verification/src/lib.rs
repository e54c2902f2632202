//! Verified core of a showcase that runs a rendering engine inside a web
//! worker: the readout text shown on the page, the colour-picker parsing, the
//! game-side entity table that links subjects to engine entities, the
//! cube/helmet toggle, the pick request state, and the worker's frame count.
pub mod text;
pub mod ecs;
pub mod setup;
pub mod controls;
pub mod picking;
pub mod worker;
pub mod color;
pub mod protocol;
pub mod ui;
