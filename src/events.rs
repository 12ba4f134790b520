use vstd::prelude::*;

use crate::surface::{resize_request, SurfaceSize};

verus! {

/// The window events that the renderer reacts to; every other event is
/// `Other`.
#[derive(Debug, Clone, Copy, PartialEq, Eq, Structural)]
pub enum WindowInput {
    CloseRequested,
    RedrawRequested,
    Resized { width: u32, height: u32 },
    Other,
}

/// What the window loop does next.
#[derive(Debug, Clone, Copy, PartialEq, Eq, Structural)]
pub enum FrameAction {
    /// Stop the event loop.
    Exit,
    /// Render a frame, then ask for the next redraw.
    RenderAndRequestRedraw,
    /// Reconfigure the surface to this size; the redraw that follows renders.
    Reconfigure(SurfaceSize),
    Nothing,
}

/// The action for `input`, where `ready` tells whether the window and its
/// renderer exist yet: nothing happens before they do, and a resize to an
/// empty size reconfigures nothing.
pub open spec fn action_for(ready: bool, input: WindowInput) -> FrameAction {
    if !ready {
        FrameAction::Nothing
    } else {
        match input {
            WindowInput::CloseRequested => FrameAction::Exit,
            WindowInput::RedrawRequested => FrameAction::RenderAndRequestRedraw,
            WindowInput::Resized { width, height } => if width > 0 && height > 0 {
                FrameAction::Reconfigure(SurfaceSize { width, height })
            } else {
                FrameAction::Nothing
            },
            WindowInput::Other => FrameAction::Nothing,
        }
    }
}

/// Decides what the window loop does with one event.
pub fn handle_input(ready: bool, input: WindowInput) -> (r: FrameAction)
    ensures
        r == action_for(ready, input),
{
    if !ready {
        return FrameAction::Nothing;
    }
    match input {
        WindowInput::CloseRequested => FrameAction::Exit,
        WindowInput::RedrawRequested => FrameAction::RenderAndRequestRedraw,
        WindowInput::Resized { width, height } => match resize_request(width, height) {
            Some(size) => FrameAction::Reconfigure(size),
            None => FrameAction::Nothing,
        },
        WindowInput::Other => FrameAction::Nothing,
    }
}

} // verus!
