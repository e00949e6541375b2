use vstd::prelude::*;

verus! {

/// Whether the surface is reconfigured for a window of this size: a window
/// with no area (minimized) keeps the last configuration.
pub fn accept_resize(width: u32, height: u32) -> (r: bool)
    ensures
        r == (width > 0 && height > 0),
{
    width > 0 && height > 0
}

/// Why the presentation surface could not give a frame.
#[derive(Clone, Copy, PartialEq, Eq, Structural, Debug)]
pub enum SurfaceFault {
    Timeout,
    Outdated,
    Lost,
    OutOfMemory,
}

/// What the frame driver does about a surface fault.
#[derive(Clone, Copy, PartialEq, Eq, Structural, Debug)]
pub enum SurfaceAction {
    /// Configure the surface again at the current size.
    Reconfigure,
    /// Stop the event loop.
    Exit,
    /// Report the fault and go on with the next frame.
    Report,
}

/// A lost surface is configured again, running out of memory ends the
/// program, and any other fault is reported.
pub fn on_surface_error(fault: SurfaceFault) -> (r: SurfaceAction)
    ensures
        r == (match fault {
            SurfaceFault::Lost => SurfaceAction::Reconfigure,
            SurfaceFault::OutOfMemory => SurfaceAction::Exit,
            _ => SurfaceAction::Report,
        }),
{
    match fault {
        SurfaceFault::Lost => SurfaceAction::Reconfigure,
        SurfaceFault::OutOfMemory => SurfaceAction::Exit,
        _ => SurfaceAction::Report,
    }
}

} // verus!
