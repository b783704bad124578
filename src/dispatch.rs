//! The command dispatcher: which command goes to which device of the
//! snapshot, for each new signal and at shutdown.

use vstd::prelude::*;
use crate::notes::Signal;

verus! {

/// A way in which a device can actuate.
#[derive(Clone, Copy, Debug, PartialEq, Eq, Structural)]
pub enum Capability {
    Intensity,
    Rotation,
    Linear,
}

/// The set of capabilities a device reports.
#[derive(Clone, Copy, Debug, PartialEq, Eq, Structural)]
pub struct Capabilities {
    pub intensity: bool,
    pub rotation: bool,
    pub linear: bool,
}

impl Capabilities {
    pub open spec fn has(self, c: Capability) -> bool {
        match c {
            Capability::Intensity => self.intensity,
            Capability::Rotation => self.rotation,
            Capability::Linear => self.linear,
        }
    }

    pub fn supports(&self, c: Capability) -> (r: bool)
        ensures
            r == self.has(c),
    {
        match c {
            Capability::Intensity => self.intensity,
            Capability::Rotation => self.rotation,
            Capability::Linear => self.linear,
        }
    }
}

/// A device of the snapshot: its identity and what it can do.
#[derive(Clone, Copy, Debug, PartialEq, Eq, Structural)]
pub struct Device {
    pub id: u32,
    pub caps: Capabilities,
}

/// A command for one device. An intensity is `level / MAX_SUM`.
#[derive(Clone, Copy, Debug, PartialEq, Eq, Structural)]
pub enum Command {
    SetIntensity { device: u32, level: u32 },
    Stop { device: u32 },
}

impl Command {
    pub open spec fn target(self) -> u32 {
        match self {
            Command::SetIntensity { device, .. } => device,
            Command::Stop { device } => device,
        }
    }
}

/// The devices of a snapshot have distinct identities.
pub open spec fn distinct_ids(devs: Seq<Device>) -> bool {
    forall|i: int, j: int| 0 <= i < devs.len() && 0 <= j < devs.len() && i != j ==> devs[i].id != devs[j].id
}

/// The commands for one signal: one intensity command per device that
/// supports intensity control, in snapshot order.
pub open spec fn dispatch_of(level: u32, devs: Seq<Device>) -> Seq<Command>
    decreases devs.len(),
{
    if devs.len() == 0 {
        Seq::empty()
    } else {
        let rest = dispatch_of(level, devs.drop_last());
        let d = devs.last();
        if d.caps.has(Capability::Intensity) {
            rest.push(Command::SetIntensity { device: d.id, level })
        } else {
            rest
        }
    }
}

/// The commands at shutdown: one stop command per device, in snapshot order.
pub open spec fn shutdown_of(devs: Seq<Device>) -> Seq<Command> {
    Seq::new(devs.len(), |i: int| Command::Stop { device: devs[i].id })
}

/// Plans the commands that carry a signal to the devices: devices without
/// intensity control get none.
pub fn plan_dispatch(signal: Signal, devices: &Vec<Device>) -> (r: Vec<Command>)
    ensures
        r@ == dispatch_of(signal.level, devices@),
{
    let mut r: Vec<Command> = Vec::new();
    let mut i: usize = 0;
    while i < devices.len()
        invariant
            i <= devices@.len(),
            r@ == dispatch_of(signal.level, devices@.subrange(0, i as int)),
        decreases devices@.len() - i,
    {
        let d = devices[i];
        assert(devices@.subrange(0, i + 1).drop_last() =~= devices@.subrange(0, i as int));
        if d.caps.supports(Capability::Intensity) {
            r.push(Command::SetIntensity { device: d.id, level: signal.level });
        }
        i = i + 1;
    }
    assert(devices@.subrange(0, i as int) =~= devices@);
    r
}

/// Plans the commands that bring every device of the snapshot to rest.
pub fn plan_shutdown(devices: &Vec<Device>) -> (r: Vec<Command>)
    ensures
        r@ == shutdown_of(devices@),
        r@.len() == devices@.len(),
        forall|i: int| 0 <= i < r@.len() ==> r@[i] == (Command::Stop { device: devices@[i].id }),
{
    let mut r: Vec<Command> = Vec::new();
    let mut i: usize = 0;
    while i < devices.len()
        invariant
            i <= devices@.len(),
            r@.len() == i,
            forall|j: int| 0 <= j < i ==> r@[j] == (Command::Stop { device: devices@[j].id }),
        decreases devices@.len() - i,
    {
        r.push(Command::Stop { device: devices[i].id });
        i = i + 1;
    }
    assert(r@ =~= shutdown_of(devices@));
    r
}

/// Every command planned for a signal carries that signal's level to a device
/// of the snapshot that supports intensity control; with distinct identities,
/// a device without it is never the target of a command.
pub proof fn lemma_dispatch_skips_incapable(level: u32, devs: Seq<Device>)
    ensures
        forall|j: int| 0 <= j < dispatch_of(level, devs).len() ==> exists|i: int|
            0 <= i < devs.len() && devs[i].caps.has(Capability::Intensity) && #[trigger] dispatch_of(
                level,
                devs,
            )[j] == (Command::SetIntensity { device: devs[i].id, level }),
        distinct_ids(devs) ==> forall|i: int, j: int|
            0 <= i < devs.len() && !devs[i].caps.has(Capability::Intensity) && 0 <= j < dispatch_of(
                level,
                devs,
            ).len() ==> #[trigger] dispatch_of(level, devs)[j].target() != #[trigger] devs[i].id,
    decreases devs.len(),
{
    if devs.len() > 0 {
        let init = devs.drop_last();
        lemma_dispatch_skips_incapable(level, init);
        let r = dispatch_of(level, devs);
        assert forall|j: int| 0 <= j < r.len() implies exists|i: int|
            0 <= i < devs.len() && devs[i].caps.has(Capability::Intensity) && #[trigger] r[j]
                == (Command::SetIntensity { device: devs[i].id, level }) by {
            if j < dispatch_of(level, init).len() {
                let i = choose|i: int|
                    0 <= i < init.len() && init[i].caps.has(Capability::Intensity) && #[trigger] dispatch_of(
                        level,
                        init,
                    )[j] == (Command::SetIntensity { device: init[i].id, level });
                assert(devs[i] == init[i]);
            } else {
                assert(devs[devs.len() - 1] == devs.last());
            }
        }
    }
}

/// At shutdown every device of the snapshot receives exactly one stop command,
/// whatever was dispatched before.
pub proof fn lemma_shutdown_stops_each_once(devs: Seq<Device>)
    requires
        distinct_ids(devs),
    ensures
        forall|i: int| 0 <= i < devs.len() ==> {
            &&& shutdown_of(devs)[i] == (Command::Stop { device: devs[i].id })
            &&& forall|j: int| 0 <= j < shutdown_of(devs).len() && j != i ==> #[trigger] shutdown_of(devs)[j].target() != devs[i].id
        },
        shutdown_of(devs).len() == devs.len(),
{
}

} // verus!
