//! The discovery coordinator: the scan phase that runs before devices are
//! controlled, driven by notifications from the device client.

use vstd::prelude::*;

verus! {

/// The phase of device discovery. `Stopped` is final.
#[derive(Clone, Copy, Debug, PartialEq, Eq, Structural)]
pub enum Phase {
    Idle,
    Scanning,
    Stopped,
}

/// A notification from the device client during discovery.
#[derive(Clone, Copy, Debug, PartialEq, Eq, Structural)]
pub enum Notification {
    DeviceAdded { id: u32 },
    ScanComplete,
    ConnectionLost,
    Other,
}

/// What the caller reports after a notification.
#[derive(Clone, Copy, Debug, PartialEq, Eq, Structural)]
pub enum Report {
    /// A device joined and was recorded.
    Added { id: u32 },
    /// Scanning has ended: the device list may now be captured.
    Finished,
    /// The connection to the device server was lost; scanning goes on.
    ConnectionLost,
    /// Nothing of interest happened.
    Ignored,
}

/// The phase after a notification: only a completed scan ends scanning.
pub open spec fn next_phase(p: Phase, n: Notification) -> Phase {
    if p == Phase::Scanning && n == Notification::ScanComplete {
        Phase::Stopped
    } else {
        p
    }
}

/// The report for a notification received in a phase.
pub open spec fn report_of(p: Phase, n: Notification) -> Report {
    if p != Phase::Scanning {
        Report::Ignored
    } else {
        match n {
            Notification::DeviceAdded { id } => Report::Added { id },
            Notification::ScanComplete => Report::Finished,
            Notification::ConnectionLost => Report::ConnectionLost,
            Notification::Other => Report::Ignored,
        }
    }
}

/// The devices recorded after a notification.
pub open spec fn next_added(p: Phase, n: Notification, added: Seq<u32>) -> Seq<u32> {
    match n {
        Notification::DeviceAdded { id } => if p == Phase::Scanning {
            added.push(id)
        } else {
            added
        },
        _ => added,
    }
}

/// The state of one discovery: its phase and the identities of the devices
/// announced while scanning, in order of arrival.
pub struct Discovery {
    phase: Phase,
    added: Vec<u32>,
}

impl Discovery {
    pub closed spec fn phase_spec(&self) -> Phase {
        self.phase
    }

    pub closed spec fn added_spec(&self) -> Seq<u32> {
        self.added@
    }

    /// A discovery that has not started.
    pub fn new() -> (r: Discovery)
        ensures
            r.phase_spec() == Phase::Idle,
            r.added_spec() == Seq::<u32>::empty(),
    {
        Discovery { phase: Phase::Idle, added: Vec::new() }
    }

    pub fn phase(&self) -> (r: Phase)
        ensures
            r == self.phase_spec(),
    {
        self.phase
    }

    /// The devices announced while scanning.
    pub fn added(&self) -> (r: &Vec<u32>)
        ensures
            r@ == self.added_spec(),
    {
        &self.added
    }

    /// Starts scanning. Only an idle discovery starts; the result says whether
    /// it did.
    pub fn begin_scan(&mut self) -> (r: bool)
        ensures
            r == (old(self).phase_spec() == Phase::Idle),
            final(self).phase_spec() == (if r {
                Phase::Scanning
            } else {
                old(self).phase_spec()
            }),
            final(self).added_spec() == old(self).added_spec(),
    {
        if self.phase == Phase::Idle {
            self.phase = Phase::Scanning;
            true
        } else {
            false
        }
    }

    /// Handles one notification. A completed scan ends scanning; an added
    /// device is recorded; a lost connection is reported and scanning goes on.
    /// Outside the scanning phase nothing changes.
    pub fn handle(&mut self, n: Notification) -> (r: Report)
        ensures
            final(self).phase_spec() == next_phase(old(self).phase_spec(), n),
            final(self).added_spec() == next_added(old(self).phase_spec(), n, old(self).added_spec()),
            r == report_of(old(self).phase_spec(), n),
    {
        if self.phase != Phase::Scanning {
            return Report::Ignored;
        }
        match n {
            Notification::DeviceAdded { id } => {
                self.added.push(id);
                Report::Added { id }
            },
            Notification::ScanComplete => {
                self.phase = Phase::Stopped;
                Report::Finished
            },
            Notification::ConnectionLost => Report::ConnectionLost,
            Notification::Other => Report::Ignored,
        }
    }

    /// The notification stream ended: taken as a completed scan, keeping the
    /// devices recorded so far.
    pub fn stream_ended(&mut self) -> (r: Report)
        ensures
            final(self).phase_spec() == next_phase(old(self).phase_spec(), Notification::ScanComplete),
            final(self).added_spec() == old(self).added_spec(),
            r == report_of(old(self).phase_spec(), Notification::ScanComplete),
    {
        self.handle(Notification::ScanComplete)
    }

    /// An explicit stop request: scanning ends. Other phases are unchanged.
    pub fn request_stop(&mut self)
        ensures
            final(self).phase_spec() == (if old(self).phase_spec() == Phase::Scanning {
                Phase::Stopped
            } else {
                old(self).phase_spec()
            }),
            final(self).added_spec() == old(self).added_spec(),
    {
        if self.phase == Phase::Scanning {
            self.phase = Phase::Stopped;
        }
    }

    /// Whether the caller should keep waiting for notifications.
    pub fn is_scanning(&self) -> (r: bool)
        ensures
            r == (self.phase_spec() == Phase::Scanning),
    {
        self.phase == Phase::Scanning
    }
}

/// While scanning, a notification ends the phase exactly when it is a
/// completed scan: a lost connection, an added device or any other
/// notification leaves scanning on. Once stopped, nothing leaves `Stopped`.
pub proof fn lemma_only_completion_ends_scan(n: Notification)
    ensures
        (next_phase(Phase::Scanning, n) == Phase::Stopped) == (n == Notification::ScanComplete),
        next_phase(Phase::Scanning, Notification::ConnectionLost) == Phase::Scanning,
        next_phase(Phase::Stopped, n) == Phase::Stopped,
        next_phase(Phase::Idle, n) == Phase::Idle,
{
}

} // verus!
