//! Lifecycle of a capture: at most one runs at a time.

use vstd::prelude::*;
use vstd::string::StringExecFns;

verus! {

/// Why a start or stop request was refused.
#[derive(Clone, Copy, Debug, PartialEq, Eq, Structural)]
pub enum CaptureError {
    /// A capture is already running.
    AlreadyRunning,
    /// No capture is running.
    NotRunning,
}

impl CaptureError {
    /// The message shown for the error.
    pub fn message(&self) -> (r: String)
        ensures
            r@ == match self {
                CaptureError::AlreadyRunning => "capture already running"@,
                CaptureError::NotRunning => "no capture running"@,
            },
    {
        match self {
            CaptureError::AlreadyRunning => String::from_str("capture already running"),
            CaptureError::NotRunning => String::from_str("no capture running"),
        }
    }
}

/// Whether a capture is running.
pub struct CaptureLifecycle {
    running: bool,
}

impl CaptureLifecycle {
    pub closed spec fn spec_running(&self) -> bool {
        self.running
    }

    /// No capture running.
    pub fn new() -> (r: CaptureLifecycle)
        ensures
            !r.spec_running(),
    {
        CaptureLifecycle { running: false }
    }

    pub fn is_running(&self) -> (r: bool)
        ensures
            r == self.spec_running(),
    {
        self.running
    }

    /// Registers a new capture; refused while another runs.
    pub fn begin(&mut self) -> (r: Result<(), CaptureError>)
        ensures
            old(self).spec_running() ==> r == Err::<(), CaptureError>(CaptureError::AlreadyRunning)
                && final(self).spec_running(),
            !old(self).spec_running() ==> r == Ok::<(), CaptureError>(()) && final(self).spec_running(),
    {
        if self.running {
            Err(CaptureError::AlreadyRunning)
        } else {
            self.running = true;
            Ok(())
        }
    }

    /// Unregisters the running capture; refused when none runs.
    pub fn end(&mut self) -> (r: Result<(), CaptureError>)
        ensures
            !old(self).spec_running() ==> r == Err::<(), CaptureError>(CaptureError::NotRunning)
                && !final(self).spec_running(),
            old(self).spec_running() ==> r == Ok::<(), CaptureError>(()) && !final(self).spec_running(),
    {
        if self.running {
            self.running = false;
            Ok(())
        } else {
            Err(CaptureError::NotRunning)
        }
    }
}

} // verus!
