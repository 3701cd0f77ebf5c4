//! Recorded commands.

use crate::bits::Bits;
use crate::bits::GFormat;
use crate::flat;
use crate::handle::DepthStencilView;
use crate::handle::Pipeline;
use crate::handle::RenderTargetView;
use crate::pipeline::Layout;
use crate::scene::Slice;
use crate::wireframe;
use vstd::prelude::*;

verus! {

/// What a draw call binds, by the pipeline it is made for.
#[derive(Clone, Copy, Debug, PartialEq, Eq)]
pub enum Bindings {
    Flat(flat::Data),
    Wireframe(wireframe::Data),
}

impl Bindings {
    /// The bindings are those that a pipeline declared with `layout` expects.
    pub open spec fn fits(self, layout: Layout) -> bool {
        match self {
            Bindings::Flat(_) => layout is Flat,
            Bindings::Wireframe(_) => layout is Wireframe,
        }
    }
}

/// One recorded command.
#[derive(Clone, Copy, Debug, PartialEq, Eq)]
pub enum Command {
    /// Fill a color attachment with one color.
    ClearColor { target: RenderTargetView, color: GFormat },
    /// Fill a depth attachment with one depth.
    ClearDepth { depth_target: DepthStencilView, depth: Bits },
    /// Draw a slice with a pipeline and the values bound to it.
    Draw { slice: Slice, pipeline: Pipeline, bindings: Bindings },
}

/// A recorder of commands. Commands are appended and stay in the order in
/// which they were recorded; nothing is submitted from here.
pub struct CommandContext {
    commands: Vec<Command>,
}

impl View for CommandContext {
    type V = Seq<Command>;

    closed spec fn view(&self) -> Self::V {
        self.commands@
    }
}

impl CommandContext {
    /// A recorder that holds no command.
    pub fn new() -> (context: Self)
        ensures
            context@ == Seq::<Command>::empty(),
    {
        CommandContext { commands: Vec::new() }
    }

    /// Records a clear of the color attachment `target` to `color`.
    pub fn clear_color(&mut self, target: RenderTargetView, color: GFormat)
        ensures
            final(self)@ == old(self)@.push(Command::ClearColor { target, color }),
    {
        self.commands.push(Command::ClearColor { target, color });
    }

    /// Records a clear of the depth attachment `depth_target` to `depth`.
    pub fn clear_depth(&mut self, depth_target: DepthStencilView, depth: Bits)
        ensures
            final(self)@ == old(self)@.push(Command::ClearDepth { depth_target, depth }),
    {
        self.commands.push(Command::ClearDepth { depth_target, depth });
    }

    /// Records a draw of `slice` with `pipeline` and `bindings`.
    pub fn draw(&mut self, slice: Slice, pipeline: Pipeline, bindings: Bindings)
        ensures
            final(self)@ == old(self)@.push(Command::Draw { slice, pipeline, bindings }),
    {
        self.commands.push(Command::Draw { slice, pipeline, bindings });
    }

    /// The commands recorded so far, oldest first.
    pub fn commands(&self) -> (recorded: &Vec<Command>)
        ensures
            recorded@ == self@,
    {
        &self.commands
    }
}

} // verus!
