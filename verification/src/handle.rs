//! Handles of device objects.
//!
//! A handle names an object that lives on the device: a buffer, a view of a
//! target, a pipeline state. Whoever created the object chose the number; the
//! techniques copy handles into commands and never look behind them.

use vstd::prelude::*;

verus! {

/// A vertex or index buffer.
#[derive(Clone, Copy, Debug, PartialEq, Eq, Hash)]
pub struct Buffer(pub u64);

/// A view of a color target.
#[derive(Clone, Copy, Debug, PartialEq, Eq, Hash)]
pub struct RenderTargetView(pub u64);

/// A view of a depth and stencil target.
#[derive(Clone, Copy, Debug, PartialEq, Eq, Hash)]
pub struct DepthStencilView(pub u64);

/// A pipeline state object.
#[derive(Clone, Copy, Debug, PartialEq, Eq, Hash)]
pub struct Pipeline(pub u64);

} // verus!
