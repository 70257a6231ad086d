//! Failure taxonomy of the render core.

use vstd::prelude::*;

verus! {

/// Everything that can go wrong while driving a frame.
#[derive(Clone, Copy, Debug, PartialEq, Eq, Structural)]
pub enum RenderError {
    /// Image acquisition did not finish within its bounded timeout.
    SurfaceTimeout,
    /// The image chain no longer matches the surface and must be rebuilt.
    SurfaceOutOfDate,
    /// The surface itself is gone.
    SurfaceLost,
    /// A submission was rejected because the device is lost.
    DeviceLost,
    /// An ordering signal was produced but never consumed.
    SignalLeak,
}

/// How the driver has to react to a failure.
#[derive(Clone, Copy, Debug, PartialEq, Eq, Structural)]
pub enum Severity {
    /// Nothing changed; try again on the next tick.
    Transient,
    /// The surface has to be rebuilt before the next acquisition.
    Recoverable,
    /// The run has to be torn down.
    Fatal,
}

impl RenderError {
    /// The severity class of each failure.
    pub open spec fn spec_severity(self) -> Severity {
        match self {
            RenderError::SurfaceTimeout => Severity::Transient,
            RenderError::SurfaceOutOfDate => Severity::Recoverable,
            RenderError::SurfaceLost => Severity::Fatal,
            RenderError::DeviceLost => Severity::Fatal,
            RenderError::SignalLeak => Severity::Fatal,
        }
    }

    /// Classifies the failure.
    pub fn severity(&self) -> (s: Severity)
        ensures
            s == self.spec_severity(),
    {
        match self {
            RenderError::SurfaceTimeout => Severity::Transient,
            RenderError::SurfaceOutOfDate => Severity::Recoverable,
            RenderError::SurfaceLost => Severity::Fatal,
            RenderError::DeviceLost => Severity::Fatal,
            RenderError::SignalLeak => Severity::Fatal,
        }
    }

    /// True when the whole run has to stop.
    pub fn is_fatal(&self) -> (b: bool)
        ensures
            b == (self.spec_severity() == Severity::Fatal),
    {
        match self {
            RenderError::SurfaceLost | RenderError::DeviceLost | RenderError::SignalLeak => true,
            _ => false,
        }
    }

    /// True when the failure asks for the surface to be rebuilt.
    pub fn requires_recreate(&self) -> (b: bool)
        ensures
            b == (self.spec_severity() == Severity::Recoverable),
    {
        match self {
            RenderError::SurfaceOutOfDate => true,
            _ => false,
        }
    }

    /// True when the frame is simply skipped and retried on the next tick.
    pub fn is_transient(&self) -> (b: bool)
        ensures
            b == (self.spec_severity() == Severity::Transient),
    {
        match self {
            RenderError::SurfaceTimeout => true,
            _ => false,
        }
    }
}

} // verus!
