//! The errors of command recording and submission. Each variant carries the
//! native API's result code of the call that failed.
use vstd::prelude::*;

use crate::gfx::render_graph::RenderGraphRunError;

verus! {

#[derive(Debug, Clone, Copy, PartialEq, Eq, Structural)]
pub enum CommandManagerCreateError {
    CmdPoolCreation(i32),
    CmdBufferAllocation(i32),
    FenceCreation(i32),
}

#[derive(Debug, Clone, Copy, PartialEq, Eq, Structural)]
pub enum ImmediateCommandError {
    Begin(i32),
    Submission(i32),
    FenceWaiting(i32),
    Reset(i32),
}

#[derive(Debug, Clone, Copy, PartialEq, Eq, Structural)]
pub enum RenderCommandError {
    FenceSync(i32),
    FenceReset(i32),
    Reset(i32),
    Begin(i32),
    RenderGraphRun(RenderGraphRunError),
    CommandBufferEnd(i32),
    Submission(i32),
    FenceWaiting(i32),
}

} // verus!
