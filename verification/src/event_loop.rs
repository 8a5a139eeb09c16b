//! What the frame loop does in answer to the window system and to the
//! outcome of a frame.

use vstd::prelude::*;

verus! {

/// An event of the window, as far as the loop acts on it.
#[derive(Clone, Copy, Debug, PartialEq, Eq, Structural)]
pub enum WindowSignal {
    /// The user asked to close the window.
    CloseRequested,
    /// The window has a new size.
    Resized { width: u32, height: u32 },
    /// The scale factor changed and the window has this new size.
    ScaleFactorChanged { width: u32, height: u32 },
    /// Any other event.
    Other,
}

/// Why a frame could not be presented.
#[derive(Clone, Copy, Debug, PartialEq, Eq, Structural)]
pub enum SurfaceFault {
    Timeout,
    Outdated,
    Lost,
    OutOfMemory,
}

/// What the loop does next.
#[derive(Clone, Copy, Debug, PartialEq, Eq, Structural)]
pub enum LoopAction {
    /// Nothing; go on with the next event.
    Continue,
    /// Set up the surface anew at this size.
    Resize { width: u32, height: u32 },
    /// Note that a frame was dropped, and go on.
    Warn,
    /// Leave the loop.
    Exit,
}

/// The action that a window event calls for. An event that the application
/// has `consumed` calls for none.
pub open spec fn window_action(consumed: bool, signal: WindowSignal) -> LoopAction {
    if consumed {
        LoopAction::Continue
    } else {
        match signal {
            WindowSignal::CloseRequested => LoopAction::Exit,
            WindowSignal::Resized { width, height } => LoopAction::Resize { width, height },
            WindowSignal::ScaleFactorChanged { width, height } => LoopAction::Resize {
                width,
                height,
            },
            WindowSignal::Other => LoopAction::Continue,
        }
    }
}

/// The action that the outcome of a frame calls for on a surface of the
/// given size: a lost or outdated surface is set up anew at the same size,
/// a timeout drops the frame, and a device out of memory ends the loop.
pub open spec fn frame_action(size: (u32, u32), outcome: Result<(), SurfaceFault>) -> LoopAction {
    match outcome {
        Ok(_) => LoopAction::Continue,
        Err(SurfaceFault::Lost) => LoopAction::Resize { width: size.0, height: size.1 },
        Err(SurfaceFault::Outdated) => LoopAction::Resize { width: size.0, height: size.1 },
        Err(SurfaceFault::OutOfMemory) => LoopAction::Exit,
        Err(SurfaceFault::Timeout) => LoopAction::Warn,
    }
}

/// Decides what a window event calls for.
pub fn on_window_event(consumed: bool, signal: WindowSignal) -> (action: LoopAction)
    ensures
        action == window_action(consumed, signal),
{
    if consumed {
        return LoopAction::Continue;
    }
    match signal {
        WindowSignal::CloseRequested => LoopAction::Exit,
        WindowSignal::Resized { width, height } => LoopAction::Resize { width, height },
        WindowSignal::ScaleFactorChanged { width, height } => LoopAction::Resize { width, height },
        WindowSignal::Other => LoopAction::Continue,
    }
}

/// Decides what the outcome of a frame calls for.
pub fn on_frame_outcome(size: (u32, u32), outcome: Result<(), SurfaceFault>) -> (action:
    LoopAction)
    ensures
        action == frame_action(size, outcome),
{
    match outcome {
        Ok(_) => LoopAction::Continue,
        Err(SurfaceFault::Lost) | Err(SurfaceFault::Outdated) => LoopAction::Resize {
            width: size.0,
            height: size.1,
        },
        Err(SurfaceFault::OutOfMemory) => LoopAction::Exit,
        Err(SurfaceFault::Timeout) => LoopAction::Warn,
    }
}

} // verus!
