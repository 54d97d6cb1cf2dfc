//! Render-loop engine of a windowed document viewer: the bookkeeping that keeps a
//! window surface, an asynchronous rendering backend and a scene builder consistent
//! from frame to frame.

pub mod command;
pub mod controller;
pub mod event;
pub mod geometry;
pub mod ids;
pub mod notifier;
pub mod scale;
pub mod trace;
