//! Sidecar state: what the bridge keeps beside a native object.
//!
//! The native engine grants every object one user-data slot, a single machine
//! word. The bridge needs more than a word per object (registered callables and
//! a script's payload), so it keeps the records in an arena and stores in the
//! native slot only the number of the record. Slot value `0` is what the engine
//! hands out for an object that nobody touched yet; record `k` of the arena is
//! named by slot value `k + 1`. A record that was released stays behind as an
//! empty cell, so that a number is never given to a second record and a stale
//! slot value resolves to nothing.

use crate::handle::Value;
use vstd::prelude::*;

verus! {

/// Sidecar state of a studio system.
#[derive(Clone, Copy, Debug, PartialEq, Eq)]
pub struct StudioUserData {
    pub callback: Option<Value>,
    pub userdata: Option<Value>,
}

/// Sidecar state of an event description or of an event instance.
#[derive(Clone, Copy, Debug, PartialEq, Eq)]
pub struct EventUserData {
    pub callback: Option<Value>,
    pub userdata: Option<Value>,
}

/// Sidecar state of a command replay.
#[derive(Clone, Copy, Debug, PartialEq, Eq)]
pub struct CommandUserData {
    pub userdata: Option<Value>,
    pub create_instance: Option<Value>,
    pub frame: Option<Value>,
    pub bank: Option<Value>,
}

impl Default for StudioUserData {
    fn default() -> (r: Self)
        ensures
            r == (StudioUserData { callback: None, userdata: None }),
    {
        StudioUserData { callback: None, userdata: None }
    }
}

impl Default for EventUserData {
    fn default() -> (r: Self)
        ensures
            r == (EventUserData { callback: None, userdata: None }),
    {
        EventUserData { callback: None, userdata: None }
    }
}

impl Default for CommandUserData {
    fn default() -> (r: Self)
        ensures
            r == (CommandUserData { userdata: None, create_instance: None, frame: None, bank: None }),
    {
        CommandUserData { userdata: None, create_instance: None, frame: None, bank: None }
    }
}

/// The record that slot value `slot` names among `cells`, if it names one.
pub open spec fn record<T>(cells: Seq<Option<T>>, slot: usize) -> Option<T> {
    if 0 < slot <= cells.len() {
        cells[slot - 1]
    } else {
        None
    }
}

/// Whether slot value `slot` names a record that is still there.
pub open spec fn live<T>(cells: Seq<Option<T>>, slot: usize) -> bool {
    record(cells, slot) is Some
}

/// The sidecar a fresh child starts with: the parent's callable if the parent
/// has a record with one registered, and nothing else.
pub open spec fn inherited(parent: Option<EventUserData>) -> EventUserData {
    EventUserData {
        callback: match parent {
            Some(p) => p.callback,
            None => None,
        },
        userdata: None,
    }
}

/// The slot whose record answers an event raised on a child: the child's own
/// where it has one, else the parent's, else none (`0`).
pub open spec fn answering_slot(cells: Seq<Option<EventUserData>>, slot: usize, parent: usize) -> usize {
    if live(cells, slot) {
        slot
    } else if live(cells, parent) {
        parent
    } else {
        0
    }
}

/// The slot value an object holds after its sidecar was asked for: its own
/// where that names a record, else the number of the record made for it, else
/// `0` where the arena cannot number another record.
pub open spec fn opened_slot<T>(cells: Seq<Option<T>>, slot: usize) -> usize {
    if live(cells, slot) {
        slot
    } else if cells.len() < usize::MAX {
        (cells.len() + 1) as usize
    } else {
        0
    }
}

/// The cells after the sidecar of an object holding `slot` was asked for, where
/// a record made on that occasion holds `fresh`.
pub open spec fn opened<T>(cells: Seq<Option<T>>, slot: usize, fresh: T) -> Seq<Option<T>> {
    if live(cells, slot) || cells.len() >= usize::MAX {
        cells
    } else {
        cells.push(Some(fresh))
    }
}

/// The cells with the record that `slot` names replaced by `value`; unchanged
/// where `slot` names none.
pub open spec fn stored<T>(cells: Seq<Option<T>>, slot: usize, value: T) -> Seq<Option<T>> {
    if live(cells, slot) {
        cells.update(slot - 1, Some(value))
    } else {
        cells
    }
}

/// The cells after the sidecar of an object holding `slot` was asked for and
/// its record then passed through `change`.
pub open spec fn amended<T>(
    cells: Seq<Option<T>>,
    slot: usize,
    fresh: T,
    change: spec_fn(T) -> T,
) -> Seq<Option<T>> {
    let made = opened(cells, slot, fresh);
    let id = opened_slot(cells, slot);
    match record(made, id) {
        Some(data) => stored(made, id, change(data)),
        None => made,
    }
}

/// The records of one kind of native object.
pub struct Arena<T> {
    cells: Vec<Option<T>>,
}

impl<T> Arena<T> {
    /// The cells of the arena, in the order the records were made. Cell `k` is
    /// named by slot value `k + 1`.
    pub closed spec fn view(&self) -> Seq<Option<T>> {
        self.cells@
    }

    /// An arena without records.
    pub fn new() -> (arena: Self)
        ensures
            arena@ == Seq::<Option<T>>::empty(),
    {
        Arena { cells: Vec::new() }
    }

    /// The number of records ever made, released ones included.
    pub fn len(&self) -> (n: usize)
        ensures
            n == self@.len(),
    {
        self.cells.len()
    }

    /// The record that `slot` names.
    pub fn get(&self, slot: usize) -> (found: Option<&T>)
        ensures
            match found {
                Some(r) => record(self@, slot) == Some(*r),
                None => record(self@, slot) is None,
            },
    {
        if 0 < slot && slot <= self.cells.len() {
            self.cells[slot - 1].as_ref()
        } else {
            None
        }
    }

    /// Reads the slot of an object on first or later access: a slot that names a
    /// record is answered with itself and nothing changes; any other slot gets a
    /// new record holding `fresh`, and the answer is the slot value to store in
    /// the native object. Only when the arena cannot number another record is
    /// the answer `0` and `fresh` dropped.
    pub fn get_or_create(&mut self, slot: usize, fresh: T) -> (id: usize)
        ensures
            id == opened_slot(old(self)@, slot),
            final(self)@ == opened(old(self)@, slot, fresh),
    {
        if 0 < slot && slot <= self.cells.len() && self.cells[slot - 1].is_some() {
            return slot;
        }
        let n = self.cells.len();
        if n == usize::MAX {
            return 0;
        }
        self.cells.push(Some(fresh));
        n + 1
    }

    /// Replaces the record that `slot` names; says whether there was one.
    pub fn set(&mut self, slot: usize, value: T) -> (done: bool)
        ensures
            done == live(old(self)@, slot),
            final(self)@ == stored(old(self)@, slot, value),
    {
        if 0 < slot && slot <= self.cells.len() && self.cells[slot - 1].is_some() {
            self.cells.set(slot - 1, Some(value));
            true
        } else {
            false
        }
    }

    /// Takes the record that `slot` names out of the arena, for the moment the
    /// native object is released. The cell stays, empty, so every other slot
    /// value keeps its meaning and `slot` names nothing from now on.
    pub fn release(&mut self, slot: usize) -> (gone: Option<T>)
        ensures
            gone == record(old(self)@, slot),
            live(old(self)@, slot) ==> final(self)@ == old(self)@.update(slot - 1, None),
            !live(old(self)@, slot) ==> final(self)@ == old(self)@,
            !live(final(self)@, slot),
    {
        if 0 < slot && slot <= self.cells.len() {
            let mut taken: Option<T> = None;
            let ghost before = self.cells@;
            core::mem::swap(&mut taken, &mut self.cells[slot - 1]);
            proof {
                assert(self.cells@ =~= before.update(slot - 1, None));
            }
            taken
        } else {
            None
        }
    }
}

/// An empty record of a studio system.
pub open spec fn studio_blank() -> StudioUserData {
    StudioUserData { callback: None, userdata: None }
}

/// An empty record of a command replay.
pub open spec fn command_blank() -> CommandUserData {
    CommandUserData { userdata: None, create_instance: None, frame: None, bank: None }
}

impl Arena<StudioUserData> {
    /// The sidecar of a studio system whose native slot holds `slot`, made
    /// empty if this is the first access. The answer is the slot value the
    /// system holds from now on.
    pub fn get_or_create_user_data(&mut self, slot: usize) -> (id: usize)
        ensures
            id == opened_slot(old(self)@, slot),
            final(self)@ == opened(old(self)@, slot, studio_blank()),
    {
        self.get_or_create(slot, StudioUserData::default())
    }

    /// Registers `callback` as the callable that answers the system's events.
    pub fn set_callback(&mut self, slot: usize, callback: Value) -> (id: usize)
        ensures
            id == opened_slot(old(self)@, slot),
            final(self)@ == amended(
                old(self)@,
                slot,
                studio_blank(),
                |d: StudioUserData| StudioUserData { callback: Some(callback), userdata: d.userdata },
            ),
    {
        let id = self.get_or_create_user_data(slot);
        let found = match self.get(id) {
            Some(data) => Some(*data),
            None => None,
        };
        if let Some(data) = found {
            self.set(id, StudioUserData { callback: Some(callback), userdata: data.userdata });
        }
        id
    }

    /// The payload a script attached to the system, with the slot value the
    /// system holds from now on.
    pub fn get_user_data(&mut self, slot: usize) -> (r: (usize, Option<Value>))
        ensures
            r.0 == opened_slot(old(self)@, slot),
            final(self)@ == opened(old(self)@, slot, studio_blank()),
            r.1 == match record(final(self)@, r.0) {
                Some(data) => data.userdata,
                None => None,
            },
    {
        let id = self.get_or_create_user_data(slot);
        let val = match self.get(id) {
            Some(data) => data.userdata,
            None => None,
        };
        (id, val)
    }

    /// Attaches the payload `val` to the system, or takes the payload away.
    pub fn set_user_data(&mut self, slot: usize, val: Option<Value>) -> (id: usize)
        ensures
            id == opened_slot(old(self)@, slot),
            final(self)@ == amended(
                old(self)@,
                slot,
                studio_blank(),
                |d: StudioUserData| StudioUserData { callback: d.callback, userdata: val },
            ),
    {
        let id = self.get_or_create_user_data(slot);
        let found = match self.get(id) {
            Some(data) => Some(*data),
            None => None,
        };
        if let Some(data) = found {
            self.set(id, StudioUserData { callback: data.callback, userdata: val });
        }
        id
    }
}

impl Arena<EventUserData> {
    /// The sidecar of an event object whose native slot holds `slot`, made on
    /// first access. `parent` is the slot value of the description the object is
    /// an instance of, or `0` for a description, which has no parent. A record
    /// made here starts with the callable registered on the parent at this
    /// moment; what is registered on the parent later does not reach it.
    pub fn get_or_create_user_data(&mut self, slot: usize, parent: usize) -> (id: usize)
        ensures
            id == opened_slot(old(self)@, slot),
            final(self)@ == opened(old(self)@, slot, inherited(record(old(self)@, parent))),
    {
        let callback = match self.get(parent) {
            Some(data) => data.callback,
            None => None,
        };
        self.get_or_create(slot, EventUserData { callback, userdata: None })
    }

    /// Registers `callback` as the callable that answers the object's events.
    pub fn set_callback(&mut self, slot: usize, parent: usize, callback: Value) -> (id: usize)
        ensures
            id == opened_slot(old(self)@, slot),
            final(self)@ == amended(
                old(self)@,
                slot,
                inherited(record(old(self)@, parent)),
                |d: EventUserData| EventUserData { callback: Some(callback), userdata: d.userdata },
            ),
    {
        let id = self.get_or_create_user_data(slot, parent);
        let found = match self.get(id) {
            Some(data) => Some(*data),
            None => None,
        };
        if let Some(data) = found {
            self.set(id, EventUserData { callback: Some(callback), userdata: data.userdata });
        }
        id
    }

    /// The payload a script attached to the object, with the slot value the
    /// object holds from now on.
    pub fn get_user_data(&mut self, slot: usize, parent: usize) -> (r: (usize, Option<Value>))
        ensures
            r.0 == opened_slot(old(self)@, slot),
            final(self)@ == opened(old(self)@, slot, inherited(record(old(self)@, parent))),
            r.1 == match record(final(self)@, r.0) {
                Some(data) => data.userdata,
                None => None,
            },
    {
        let id = self.get_or_create_user_data(slot, parent);
        let val = match self.get(id) {
            Some(data) => data.userdata,
            None => None,
        };
        (id, val)
    }

    /// Attaches the payload `val` to the object, or takes the payload away.
    pub fn set_user_data(&mut self, slot: usize, parent: usize, val: Option<Value>) -> (id: usize)
        ensures
            id == opened_slot(old(self)@, slot),
            final(self)@ == amended(
                old(self)@,
                slot,
                inherited(record(old(self)@, parent)),
                |d: EventUserData| EventUserData { callback: d.callback, userdata: val },
            ),
    {
        let id = self.get_or_create_user_data(slot, parent);
        let found = match self.get(id) {
            Some(data) => Some(*data),
            None => None,
        };
        if let Some(data) = found {
            self.set(id, EventUserData { callback: data.callback, userdata: val });
        }
        id
    }

    /// The slot whose record answers an event raised on an instance holding
    /// `slot` whose description holds `parent`. Nothing is created: an instance
    /// nobody touched is answered by its description, and where neither has a
    /// record the answer is `0`.
    pub fn answering(&self, slot: usize, parent: usize) -> (id: usize)
        ensures
            id == answering_slot(self@, slot, parent),
    {
        if self.get(slot).is_some() {
            slot
        } else if self.get(parent).is_some() {
            parent
        } else {
            0
        }
    }
}

impl Arena<CommandUserData> {
    /// The sidecar of a command replay whose native slot holds `slot`, made
    /// empty if this is the first access.
    pub fn get_or_create_user_data(&mut self, slot: usize) -> (id: usize)
        ensures
            id == opened_slot(old(self)@, slot),
            final(self)@ == opened(old(self)@, slot, command_blank()),
    {
        self.get_or_create(slot, CommandUserData::default())
    }

    /// The payload a script attached to the replay, with the slot value the
    /// replay holds from now on.
    pub fn get_user_data(&mut self, slot: usize) -> (r: (usize, Option<Value>))
        ensures
            r.0 == opened_slot(old(self)@, slot),
            final(self)@ == opened(old(self)@, slot, command_blank()),
            r.1 == match record(final(self)@, r.0) {
                Some(data) => data.userdata,
                None => None,
            },
    {
        let id = self.get_or_create_user_data(slot);
        let val = match self.get(id) {
            Some(data) => data.userdata,
            None => None,
        };
        (id, val)
    }

    /// Attaches the payload `val` to the replay, or takes the payload away.
    pub fn set_user_data(&mut self, slot: usize, val: Option<Value>) -> (id: usize)
        ensures
            id == opened_slot(old(self)@, slot),
            final(self)@ == amended(
                old(self)@,
                slot,
                command_blank(),
                |d: CommandUserData|
                    CommandUserData {
                        userdata: val,
                        create_instance: d.create_instance,
                        frame: d.frame,
                        bank: d.bank,
                    },
            ),
    {
        let id = self.get_or_create_user_data(slot);
        let found = match self.get(id) {
            Some(data) => Some(*data),
            None => None,
        };
        if let Some(data) = found {
            self.set(
                id,
                CommandUserData {
                    userdata: val,
                    create_instance: data.create_instance,
                    frame: data.frame,
                    bank: data.bank,
                },
            );
        }
        id
    }

    /// Registers `callback` for the moment the replay creates an event instance.
    pub fn set_create_instance_callback(&mut self, slot: usize, callback: Value) -> (id: usize)
        ensures
            id == opened_slot(old(self)@, slot),
            final(self)@ == amended(
                old(self)@,
                slot,
                command_blank(),
                |d: CommandUserData|
                    CommandUserData {
                        userdata: d.userdata,
                        create_instance: Some(callback),
                        frame: d.frame,
                        bank: d.bank,
                    },
            ),
    {
        let id = self.get_or_create_user_data(slot);
        let found = match self.get(id) {
            Some(data) => Some(*data),
            None => None,
        };
        if let Some(data) = found {
            self.set(
                id,
                CommandUserData {
                    userdata: data.userdata,
                    create_instance: Some(callback),
                    frame: data.frame,
                    bank: data.bank,
                },
            );
        }
        id
    }

    /// Registers `callback` for the frames of the replay.
    pub fn set_frame_callback(&mut self, slot: usize, callback: Value) -> (id: usize)
        ensures
            id == opened_slot(old(self)@, slot),
            final(self)@ == amended(
                old(self)@,
                slot,
                command_blank(),
                |d: CommandUserData|
                    CommandUserData {
                        userdata: d.userdata,
                        create_instance: d.create_instance,
                        frame: Some(callback),
                        bank: d.bank,
                    },
            ),
    {
        let id = self.get_or_create_user_data(slot);
        let found = match self.get(id) {
            Some(data) => Some(*data),
            None => None,
        };
        if let Some(data) = found {
            self.set(
                id,
                CommandUserData {
                    userdata: data.userdata,
                    create_instance: data.create_instance,
                    frame: Some(callback),
                    bank: data.bank,
                },
            );
        }
        id
    }

    /// Registers `callback` for the moment the replay loads a bank.
    pub fn set_load_bank_callback(&mut self, slot: usize, callback: Value) -> (id: usize)
        ensures
            id == opened_slot(old(self)@, slot),
            final(self)@ == amended(
                old(self)@,
                slot,
                command_blank(),
                |d: CommandUserData|
                    CommandUserData {
                        userdata: d.userdata,
                        create_instance: d.create_instance,
                        frame: d.frame,
                        bank: Some(callback),
                    },
            ),
    {
        let id = self.get_or_create_user_data(slot);
        let found = match self.get(id) {
            Some(data) => Some(*data),
            None => None,
        };
        if let Some(data) = found {
            self.set(
                id,
                CommandUserData {
                    userdata: data.userdata,
                    create_instance: data.create_instance,
                    frame: data.frame,
                    bank: Some(callback),
                },
            );
        }
        id
    }
}

/// The three arenas of a bridge, one for each kind of native object that
/// raises callbacks.
pub struct Sidecars {
    pub studio: Arena<StudioUserData>,
    pub events: Arena<EventUserData>,
    pub commands: Arena<CommandUserData>,
}

impl Sidecars {
    /// Three arenas without records.
    pub fn new() -> (sidecars: Self)
        ensures
            sidecars.studio@ == Seq::<Option<StudioUserData>>::empty(),
            sidecars.events@ == Seq::<Option<EventUserData>>::empty(),
            sidecars.commands@ == Seq::<Option<CommandUserData>>::empty(),
    {
        Sidecars { studio: Arena::new(), events: Arena::new(), commands: Arena::new() }
    }
}

/// A child whose sidecar is made on its first access carries a callable if and
/// only if its parent had one registered at that moment, and then it is the
/// parent's. The record is made unless the arena has run out of numbers, and
/// then none is made at all.
pub proof fn lemma_child_inherits(cells: Seq<Option<EventUserData>>, slot: usize, parent: usize)
    requires
        !live(cells, slot),
    ensures
        ({
            let after = opened(cells, slot, inherited(record(cells, parent)));
            let id = opened_slot(cells, slot);
            let child = record(after, id);
            &&& id == 0 <==> cells.len() >= usize::MAX
            &&& id == 0 ==> after == cells
            &&& id != 0 ==> {
                &&& child is Some
                &&& child->0.userdata is None
                &&& child->0.callback is Some <==> (record(cells, parent) matches Some(p)
                    && p.callback is Some)
                &&& child->0.callback is Some ==> child->0.callback == record(
                    cells,
                    parent,
                )->0.callback
            }
        }),
{
}

/// A child that already has a sidecar keeps it as it is on every later
/// access, whatever its parent holds by then.
pub proof fn lemma_child_keeps(cells: Seq<Option<EventUserData>>, slot: usize, parent: usize)
    requires
        live(cells, slot),
    ensures
        opened_slot(cells, slot) == slot,
        opened(cells, slot, inherited(record(cells, parent))) == cells,
{
}

/// What is registered on a parent after its child got a sidecar does not reach
/// the child: storing into the parent's record leaves the child's untouched.
pub proof fn lemma_parent_change_stays(
    cells: Seq<Option<EventUserData>>,
    slot: usize,
    parent: usize,
    later: EventUserData,
)
    requires
        slot != parent,
    ensures
        record(stored(cells, parent, later), slot) == record(cells, slot),
{
}

/// Making a record never disturbs the records that are already there.
pub proof fn lemma_open_keeps_others<T>(cells: Seq<Option<T>>, slot: usize, fresh: T, other: usize)
    requires
        live(cells, other),
    ensures
        record(opened(cells, slot, fresh), other) == record(cells, other),
{
}

} // verus!
