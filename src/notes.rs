//! The note aggregation engine: one intensity per note ever touched, summed
//! into a bounded level on every note event.

use vstd::prelude::*;

verus! {

/// Number of MIDI channels.
pub const CHANNELS: u8 = 16;

/// Number of pitches on a MIDI channel.
pub const PITCHES: u8 = 128;

/// Number of distinct note keys (`CHANNELS * PITCHES`).
pub const SLOTS: usize = 2048;

/// The intensity sum that maps to full level.
pub const MAX_SUM: u32 = 254;

/// Identity of a note: its channel (0..16) and its pitch (0..128).
#[derive(Clone, Copy, Debug, PartialEq, Eq, Structural)]
pub struct NoteKey {
    pub channel: u8,
    pub note: u8,
}

impl NoteKey {
    pub open spec fn wf(self) -> bool {
        self.channel < CHANNELS && self.note < PITCHES
    }

    /// Where the key's intensity is kept in the engine's table.
    pub open spec fn slot_spec(self) -> int {
        self.channel as int * PITCHES as int + self.note as int
    }

    pub fn slot(&self) -> (r: usize)
        requires
            self.wf(),
        ensures
            r as int == self.slot_spec(),
            r < SLOTS,
    {
        self.channel as usize * 128 + self.note as usize
    }
}

/// A decoded note message: a key pressed with a velocity, or released.
#[derive(Clone, Copy, Debug, PartialEq, Eq, Structural)]
pub enum NoteEvent {
    Press { key: NoteKey, velocity: u8 },
    Release { key: NoteKey },
}

impl NoteEvent {
    pub open spec fn key(self) -> NoteKey {
        match self {
            NoteEvent::Press { key, .. } => key,
            NoteEvent::Release { key } => key,
        }
    }

    /// The intensity the event leaves on its key: the velocity, or zero.
    pub open spec fn intensity(self) -> u8 {
        match self {
            NoteEvent::Press { velocity, .. } => velocity,
            NoteEvent::Release { .. } => 0,
        }
    }

    pub open spec fn wf(self) -> bool {
        self.key().wf()
    }
}

/// What a MIDI message means to the engine. A message of three or more bytes
/// whose two data bytes are below 0x80 is a note message when its status
/// nibble is 0x8 (release) or 0x9 (press; a press of velocity zero is a
/// release). Everything else carries no note event.
pub open spec fn note_event_of(b: Seq<u8>) -> Option<NoteEvent> {
    if b.len() >= 3 && b[1] < 0x80 && b[2] < 0x80 {
        let key = NoteKey { channel: b[0] % 16, note: b[1] };
        if b[0] / 16 == 8 || (b[0] / 16 == 9 && b[2] == 0) {
            Some(NoteEvent::Release { key })
        } else if b[0] / 16 == 9 {
            Some(NoteEvent::Press { key, velocity: b[2] })
        } else {
            None
        }
    } else {
        None
    }
}

/// Relies on wmidi's `TryFrom<&[u8]> for MidiMessage`: a note-off (status
/// 0x8n) or note-on (0x9n) message decodes when two data bytes below 0x80
/// follow the status byte, and a note-on of velocity zero decodes as a
/// note-off. `Channel::index` and `u8::from(Note)` give the channel and pitch.
#[verifier::external_body]
fn midi_note_event(bytes: &[u8]) -> (r: Option<NoteEvent>)
    ensures
        r == note_event_of(bytes@),
{
    match wmidi::MidiMessage::try_from(bytes) {
        Ok(wmidi::MidiMessage::NoteOn(c, n, v)) => Some(
            NoteEvent::Press { key: NoteKey { channel: c.index(), note: u8::from(n) }, velocity: u8::from(v) },
        ),
        Ok(wmidi::MidiMessage::NoteOff(c, n, _)) => Some(
            NoteEvent::Release { key: NoteKey { channel: c.index(), note: u8::from(n) } },
        ),
        _ => None,
    }
}

/// Decodes raw MIDI bytes into a note event, if they hold one.
pub fn decode_note_event(bytes: &[u8]) -> (r: Option<NoteEvent>)
    ensures
        r == note_event_of(bytes@),
        r matches Some(ev) ==> ev.wf(),
{
    midi_note_event(bytes)
}

/// The contribution of one table slot to the sum.
pub open spec fn slot_level(x: Option<u8>) -> int {
    match x {
        Some(v) => v as int,
        None => 0,
    }
}

/// The sum of all intensities in a table.
pub open spec fn total(s: Seq<Option<u8>>) -> int
    decreases s.len(),
{
    if s.len() == 0 {
        0
    } else {
        total(s.drop_last()) + slot_level(s.last())
    }
}

/// The sum mapped to a level in `0..=MAX_SUM`; the intensity sent to the
/// devices is this level divided by `MAX_SUM`.
pub open spec fn clamp_level(sum: int) -> int {
    if sum < 0 {
        0
    } else if sum < MAX_SUM as int {
        sum
    } else {
        MAX_SUM as int
    }
}

/// The table after an event: the event's key holds the event's intensity.
pub open spec fn applied(s: Seq<Option<u8>>, ev: NoteEvent) -> Seq<Option<u8>> {
    s.update(ev.key().slot_spec(), Some(ev.intensity()))
}

/// The signal computed after an event: the raw sum and its clamped level.
#[derive(Clone, Copy, Debug, PartialEq, Eq, Structural)]
pub struct Signal {
    pub sum: u32,
    pub level: u32,
}

impl Signal {
    pub open spec fn of_total(t: int) -> Signal {
        Signal { sum: t as u32, level: clamp_level(t) as u32 }
    }
}

/// Holds the intensity of every note touched so far, `None` for a note never
/// touched. A released note keeps its entry, at zero.
pub struct NoteEngine {
    slots: Vec<Option<u8>>,
}

impl View for NoteEngine {
    type V = Seq<Option<u8>>;

    closed spec fn view(&self) -> Seq<Option<u8>> {
        self.slots@
    }
}


/// Each slot contributes at most 255.
pub proof fn lemma_total_bounds(s: Seq<Option<u8>>)
    ensures
        0 <= total(s) <= 255 * s.len(),
    decreases s.len(),
{
    if s.len() > 0 {
        lemma_total_bounds(s.drop_last());
    }
}

/// A table of untouched notes sums to zero.
pub proof fn lemma_total_untouched(s: Seq<Option<u8>>)
    requires
        forall|i: int| 0 <= i < s.len() ==> s[i] is None,
    ensures
        total(s) == 0,
    decreases s.len(),
{
    if s.len() > 0 {
        lemma_total_untouched(s.drop_last());
    }
}

/// Changing one slot changes the sum by the difference of the two values.
pub proof fn lemma_total_update(s: Seq<Option<u8>>, i: int, x: Option<u8>)
    requires
        0 <= i < s.len(),
    ensures
        total(s.update(i, x)) == total(s) - slot_level(s[i]) + slot_level(x),
    decreases s.len(),
{
    let t = s.update(i, x);
    if i == s.len() - 1 {
        assert(t.drop_last() =~= s.drop_last());
    } else {
        lemma_total_update(s.drop_last(), i, x);
        assert(t.drop_last() =~= s.drop_last().update(i, x));
    }
}

impl NoteEngine {
    /// A well-formed engine has one slot per note key.
    pub open spec fn wf(&self) -> bool {
        self@.len() == SLOTS
    }

    /// An engine that has seen no note.
    pub fn new() -> (r: NoteEngine)
        ensures
            r.wf(),
            forall|i: int| 0 <= i < SLOTS ==> r@[i] is None,
            total(r@) == 0,
    {
        let mut slots: Vec<Option<u8>> = Vec::new();
        while slots.len() < SLOTS
            invariant
                slots@.len() <= SLOTS,
                forall|i: int| 0 <= i < slots@.len() ==> slots@[i] is None,
            decreases SLOTS - slots@.len(),
        {
            slots.push(None);
        }
        proof {
            lemma_total_untouched(slots@);
        }
        NoteEngine { slots }
    }

    /// The intensity held for a key: `None` if the key was never touched.
    pub fn intensity(&self, key: NoteKey) -> (r: Option<u8>)
        requires
            self.wf(),
            key.wf(),
        ensures
            r == self@[key.slot_spec()],
    {
        self.slots[key.slot()]
    }

    /// The sum of the intensities of all notes touched so far.
    pub fn sum(&self) -> (r: u32)
        requires
            self.wf(),
        ensures
            r as int == total(self@),
    {
        let mut acc: u32 = 0;
        let mut i: usize = 0;
        while i < self.slots.len()
            invariant
                self.wf(),
                i <= SLOTS,
                acc as int == total(self@.subrange(0, i as int)),
                acc <= 255 * i,
            decreases SLOTS - i,
        {
            let ghost prefix = self@.subrange(0, i + 1);
            assert(prefix.drop_last() =~= self@.subrange(0, i as int));
            let v: u32 = match self.slots[i] {
                Some(v) => v as u32,
                None => 0,
            };
            acc = acc + v;
            i = i + 1;
        }
        assert(self@.subrange(0, i as int) =~= self@);
        acc
    }

    /// The signal for the current table: the sum and its clamped level.
    pub fn signal(&self) -> (r: Signal)
        requires
            self.wf(),
        ensures
            r == Signal::of_total(total(self@)),
            r.sum as int == total(self@),
            r.level as int == clamp_level(total(self@)),
    {
        let sum = self.sum();
        let level = if sum < MAX_SUM { sum } else { MAX_SUM };
        Signal { sum, level }
    }

    /// Records a note event and returns the signal recomputed from the whole
    /// table: a press sets its key to the velocity, a release sets it to zero.
    pub fn apply(&mut self, ev: NoteEvent) -> (r: Signal)
        requires
            old(self).wf(),
            ev.wf(),
        ensures
            final(self).wf(),
            final(self)@ == applied(old(self)@, ev),
            r == Signal::of_total(total(final(self)@)),
            r.sum as int == total(final(self)@),
            r.level as int == clamp_level(total(final(self)@)),
    {
        let (key, v) = match ev {
            NoteEvent::Press { key, velocity } => (key, velocity),
            NoteEvent::Release { key } => (key, 0u8),
        };
        let i = key.slot();
        self.slots.set(i, Some(v));
        self.signal()
    }

    /// Handles one raw MIDI message. A note message updates the table and
    /// yields the new signal; any other message yields nothing and leaves the
    /// engine as it was.
    pub fn on_event(&mut self, bytes: &[u8]) -> (r: Option<Signal>)
        requires
            old(self).wf(),
        ensures
            final(self).wf(),
            match note_event_of(bytes@) {
                None => r is None && final(self)@ == old(self)@,
                Some(ev) => final(self)@ == applied(old(self)@, ev) && r == Some(
                    Signal::of_total(total(final(self)@)),
                ),
            },
    {
        match decode_note_event(bytes) {
            Some(ev) => Some(self.apply(ev)),
            None => None,
        }
    }
}


/// Releasing a key twice in a row leaves the same table, and so the same sum
/// and signal, as releasing it once.
pub proof fn lemma_release_twice_same(s: Seq<Option<u8>>, key: NoteKey)
    requires
        s.len() == SLOTS,
        key.wf(),
    ensures
        applied(applied(s, NoteEvent::Release { key }), NoteEvent::Release { key }) == applied(
            s,
            NoteEvent::Release { key },
        ),
        total(applied(applied(s, NoteEvent::Release { key }), NoteEvent::Release { key })) == total(
            applied(s, NoteEvent::Release { key }),
        ),
{
    let once = applied(s, NoteEvent::Release { key });
    assert(applied(once, NoteEvent::Release { key }) =~= once);
}

/// Releasing a key that was never pressed adds a zero entry for it and leaves
/// the sum unchanged.
pub proof fn lemma_release_untouched_keeps_total(s: Seq<Option<u8>>, key: NoteKey)
    requires
        s.len() == SLOTS,
        key.wf(),
        s[key.slot_spec()] is None,
    ensures
        applied(s, NoteEvent::Release { key })[key.slot_spec()] == Some(0u8),
        total(applied(s, NoteEvent::Release { key })) == total(s),
{
    lemma_total_update(s, key.slot_spec(), Some(0u8));
}

/// Every signal's level is the clamped sum, and never exceeds `MAX_SUM`.
pub proof fn lemma_signal_level_bounded(s: Seq<Option<u8>>)
    requires
        s.len() == SLOTS,
    ensures
        0 <= total(s) <= 255 * SLOTS,
        0 <= clamp_level(total(s)) <= MAX_SUM,
        total(s) <= MAX_SUM ==> clamp_level(total(s)) == total(s),
{
    lemma_total_bounds(s);
}

} // verus!
