//! A composition engine that lets persistent HTML content appear visually
//! inside an immediate-mode, canvas-rendered GUI.
//!
//! The host GUI redraws its whole scene every frame and reports, through
//! plain values, which rectangular areas exist, in what stacking order, and
//! what the pointer is doing.  The engine tracks those areas in a
//! [`registry::Registry`], reconciles their order with the host's z-order,
//! computes which areas occlude which, and turns the result into masking
//! commands for the render surface.  The host adapter executes the commands;
//! the engine itself never touches the surface.

pub mod area;
pub mod aware;
pub mod browser_detection;
pub mod encode;
pub mod geometry;
pub mod hashing;
pub mod html_window_state;
pub mod id;
pub mod markup;
pub mod mask_strategies;
pub mod mask_strategy;
pub mod reconcile;
pub mod registry;
pub mod text;
pub mod widgets;
pub mod window_state;
