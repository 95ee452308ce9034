//! The scene table: the ordered sequence of (asset, transform) entries that
//! are drawn each frame, and the mapping from tracked-device identity to its
//! entry.
//!
//! Entries are append-only: startup objects are pushed once, and a tracked
//! device gets exactly one entry, appended the first frame its model and
//! texture both resolve. Every frame the freshly reported pose overwrites
//! the transform of each already-known device; devices that have not
//! resolved yet are left unmapped and retried, and neither invalid slots
//! nor the headset itself are ever inserted.

use vstd::prelude::*;

use std::collections::HashMap;

use crate::fence::WaitOutcome;
use crate::fence::poll_step_result;
use crate::model::Model;
use crate::model::polled_from;

verus! {

broadcast use vstd::std_specs::hash::group_hash_axioms;

/// What kind of entity a tracked slot is, as the pose provider reports it.
#[derive(Clone, Copy, PartialEq, Eq, Structural, Debug)]
pub enum TrackedDeviceClass {
    Invalid,
    HMD,
    Controller,
    GenericTracker,
    TrackingReference,
    DisplayRedirect,
}

impl TrackedDeviceClass {
    /// Whether a slot of this class may get a scene table entry: anything
    /// tracked except an invalid slot and the headset itself.
    pub open spec fn is_renderable(self) -> bool {
        !(self is Invalid) && !(self is HMD)
    }
}

/// What one per-frame pose observation asks the caller to do next.
#[derive(Clone, Copy, PartialEq, Eq, Structural, Debug)]
pub enum PoseAction {
    /// The slot is invalid or the headset: never inserted, nothing changed.
    Ignored,
    /// The slot was already mapped: its transform has been overwritten.
    Updated,
    /// The slot is renderable but unknown: try to resolve a model and
    /// texture for it, and attach the entry if both resolve.
    NeedsModel,
}

/// Whether a device-to-index mapping is well formed over `len` entries:
/// every mapped index names an existing entry, and no two devices share
/// one.
pub open spec fn table_map_wf(m: Map<u32, usize>, len: nat) -> bool {
    &&& forall|s: u32| m.contains_key(s) ==> #[trigger] m[s] < len
    &&& forall|s1: u32, s2: u32| #![trigger m[s1], m[s2]]
        m.contains_key(s1) && m.contains_key(s2) && s1 != s2 ==> m[s1] != m[s2]
}

/// One pose observation applied to the stored transforms: the transform of
/// a mapped slot is overwritten, anything else changes nothing.
pub open spec fn refresh_one<T>(tr: Seq<T>, m: Map<u32, usize>, obs: (u32, T)) -> Seq<T> {
    if m.contains_key(obs.0) && m[obs.0] < tr.len() {
        tr.update(m[obs.0] as int, obs.1)
    } else {
        tr
    }
}

/// A whole stream of pose observations applied in order.
pub open spec fn refresh_all<T>(tr: Seq<T>, m: Map<u32, usize>, obs: Seq<(u32, T)>) -> Seq<T>
    decreases obs.len(),
{
    if obs.len() == 0 {
        tr
    } else {
        refresh_all(refresh_one(tr, m, obs[0]), m, obs.drop_first())
    }
}

/// The most recently observed pose for `slot` in the stream, or `current`
/// when the stream never mentions it.
pub open spec fn latest_pose<T>(obs: Seq<(u32, T)>, slot: u32, current: T) -> T
    decreases obs.len(),
{
    if obs.len() == 0 {
        current
    } else {
        latest_pose(
            obs.drop_first(),
            slot,
            if obs[0].0 == slot {
                obs[0].1
            } else {
                current
            },
        )
    }
}

/// Law: no stale overwrite, no lost update. Under a well-formed mapping,
/// after any stream of pose observations the transform stored for a mapped
/// device equals the most recently observed pose for that device, or its
/// old transform when the stream never mentioned it.
pub proof fn lemma_latest_pose<T>(tr: Seq<T>, m: Map<u32, usize>, obs: Seq<(u32, T)>, slot: u32)
    requires
        table_map_wf(m, tr.len()),
        m.contains_key(slot),
    ensures
        refresh_all(tr, m, obs).len() == tr.len(),
        refresh_all(tr, m, obs)[m[slot] as int] == latest_pose(obs, slot, tr[m[slot] as int]),
    decreases obs.len(),
{
    if obs.len() > 0 {
        let tr1 = refresh_one(tr, m, obs[0]);
        assert(tr1.len() == tr.len());
        lemma_latest_pose(tr1, m, obs.drop_first(), slot);
    }
}

/// The scene table: entries in draw order, and the device-to-index
/// mapping.
pub struct SceneTable<T> {
    scene: Vec<(Model, T)>,
    devices: HashMap<u32, usize>,
}

impl<T> SceneTable<T> {
    /// The (asset, transform) entries, in the order they are drawn.
    pub closed spec fn entries(&self) -> Seq<(Model, T)> {
        self.scene@
    }

    /// The device-to-index mapping.
    pub closed spec fn device_map(&self) -> Map<u32, usize> {
        self.devices@
    }

    /// The stored transforms alone, in entry order.
    pub open spec fn transforms(&self) -> Seq<T> {
        self.entries().map_values(|e: (Model, T)| e.1)
    }

    /// Well-formedness: the device mapping names existing entries, one per
    /// device.
    pub open spec fn wf(&self) -> bool {
        table_map_wf(self.device_map(), self.entries().len())
    }

    /// An empty table.
    pub fn new() -> (t: SceneTable<T>)
        ensures
            t.wf(),
            t.entries() == Seq::<(Model, T)>::empty(),
            t.device_map() == Map::<u32, usize>::empty(),
    {
        SceneTable { scene: Vec::new(), devices: HashMap::new() }
    }

    /// How many entries the table holds.
    pub fn len(&self) -> (n: usize)
        ensures
            n == self.entries().len(),
    {
        self.scene.len()
    }

    /// The asset of one entry.
    pub fn model(&self, index: usize) -> (m: &Model)
        requires
            index < self.entries().len(),
        ensures
            *m == self.entries()[index as int].0,
    {
        &self.scene[index].0
    }

    /// The transform of one entry.
    pub fn transform(&self, index: usize) -> (t: &T)
        requires
            index < self.entries().len(),
        ensures
            *t == self.entries()[index as int].1,
    {
        &self.scene[index].1
    }

    /// Whether a device is already mapped to an entry.
    pub fn contains_device(&self, slot: u32) -> (b: bool)
        ensures
            b == self.device_map().contains_key(slot),
    {
        self.devices.contains_key(&slot)
    }

    /// The entry index a device is mapped to, if any.
    pub fn device_index(&self, slot: u32) -> (r: Option<usize>)
        ensures
            r == if self.device_map().contains_key(slot) {
                Some(self.device_map()[slot])
            } else {
                None::<usize>
            },
    {
        match self.devices.get(&slot) {
            Some(i) => Some(*i),
            None => None,
        }
    }

    /// Appends a startup entry that belongs to no tracked device.
    pub fn push(&mut self, model: Model, transform: T)
        requires
            old(self).wf(),
        ensures
            final(self).wf(),
            final(self).entries() == old(self).entries().push((model, transform)),
            final(self).device_map() == old(self).device_map(),
    {
        self.scene.push((model, transform));
    }

    /// Overwrites the transform of an already-mapped device with the
    /// freshly reported pose. Nothing else — not the entry's asset, not any
    /// other entry, not the mapping — changes.
    pub fn update_transform(&mut self, slot: u32, pose: T)
        requires
            old(self).wf(),
            old(self).device_map().contains_key(slot),
        ensures
            final(self).wf(),
            final(self).device_map() == old(self).device_map(),
            final(self).entries() == old(self).entries().update(
                old(self).device_map()[slot] as int,
                (old(self).entries()[old(self).device_map()[slot] as int].0, pose),
            ),
            final(self).transforms() == refresh_one(
                old(self).transforms(),
                old(self).device_map(),
                (slot, pose),
            ),
    {
        let index: usize = match self.devices.get(&slot) {
            Some(i) => *i,
            None => {
                proof {
                    assert(false);
                }
                0
            },
        };
        let entry = &mut self.scene[index];
        entry.1 = pose;
        proof {
            assert(final(self).transforms() =~= refresh_one(
                old(self).transforms(),
                old(self).device_map(),
                (slot, pose),
            ));
        }
    }

    /// One per-frame pose observation for one tracked slot: an invalid slot
    /// or the headset is ignored, a known device's transform is
    /// overwritten, and an unknown renderable device is reported back for
    /// resolution — the table itself is not grown here.
    pub fn observe_pose(&mut self, slot: u32, class: TrackedDeviceClass, pose: T) -> (a:
        PoseAction)
        requires
            old(self).wf(),
        ensures
            final(self).wf(),
            final(self).device_map() == old(self).device_map(),
            !class.is_renderable() ==> a == PoseAction::Ignored && final(self).entries() == old(
                self,
            ).entries(),
            class.is_renderable() && old(self).device_map().contains_key(slot) ==> a
                == PoseAction::Updated && final(self).entries() == old(self).entries().update(
                old(self).device_map()[slot] as int,
                (old(self).entries()[old(self).device_map()[slot] as int].0, pose),
            ),
            class.is_renderable() && !old(self).device_map().contains_key(slot) ==> a
                == PoseAction::NeedsModel && final(self).entries() == old(self).entries(),
            class.is_renderable() ==> final(self).transforms() == refresh_one(
                old(self).transforms(),
                old(self).device_map(),
                (slot, pose),
            ),
    {
        if class == TrackedDeviceClass::Invalid || class == TrackedDeviceClass::HMD {
            PoseAction::Ignored
        } else if self.contains_device(slot) {
            self.update_transform(slot, pose);
            PoseAction::Updated
        } else {
            proof {
                assert(final(self).transforms() =~= refresh_one(
                    old(self).transforms(),
                    old(self).device_map(),
                    (slot, pose),
                ));
            }
            PoseAction::NeedsModel
        }
    }

    /// Attaches a freshly resolved device: its entry is appended — never
    /// inserted mid-sequence — and the device is mapped to it.
    pub fn attach(&mut self, slot: u32, model: Model, pose: T)
        requires
            old(self).wf(),
            !old(self).device_map().contains_key(slot),
        ensures
            final(self).wf(),
            final(self).entries() == old(self).entries().push((model, pose)),
            final(self).device_map() == old(self).device_map().insert(
                slot,
                old(self).entries().len() as usize,
            ),
    {
        let index = self.scene.len();
        self.scene.push((model, pose));
        self.devices.insert(slot, index);
    }

    /// One non-blocking readiness poll of one entry's asset, leaving every
    /// other entry and the mapping untouched.
    pub fn poll_entry(&mut self, index: usize, outcome: WaitOutcome) -> (r: bool)
        requires
            old(self).wf(),
            index < old(self).entries().len(),
        ensures
            final(self).wf(),
            final(self).device_map() == old(self).device_map(),
            final(self).entries().len() == old(self).entries().len(),
            forall|j: int|
                0 <= j < old(self).entries().len() && j != index ==> final(self).entries()[j] == old(
                    self,
                ).entries()[j],
            polled_from(
                old(self).entries()[index as int].0,
                final(self).entries()[index as int].0,
                outcome,
            ),
            final(self).entries()[index as int].1 == old(self).entries()[index as int].1,
            r == poll_step_result(old(self).entries()[index as int].0.fence.state(), outcome),
    {
        let entry = &mut self.scene[index];
        entry.0.loaded(outcome)
    }

    /// Law: a device identity is never mapped to more than one entry — two
    /// distinct mapped devices always name distinct entries.
    pub proof fn lemma_device_unique(&self, s1: u32, s2: u32)
        requires
            self.wf(),
            self.device_map().contains_key(s1),
            self.device_map().contains_key(s2),
            s1 != s2,
        ensures
            self.device_map()[s1] != self.device_map()[s2],
    {
    }
}

} // verus!
