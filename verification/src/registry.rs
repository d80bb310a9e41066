//! The physical-device registry: endpoint discovery results merged into one
//! record per endpoint id, with identity, state and capability tracking.
//!
//! Records are created by the enumeration passes at instance construction
//! and updated only by applying queued hot-plug events afterwards: the
//! registry is never re-scanned wholesale within this design.

use vstd::prelude::*;

use crate::events::{DeviceState, Event};
use crate::flags::StreamFlags;
use crate::format::WaveFormat;

verus! {

/// The opened, not yet initialized native handle of an endpoint, holding
/// what later format queries need: the engine's mix format and the buffer
/// capacity the engine negotiates, both in the engine's own terms.
#[derive(Clone, Copy, PartialEq, Eq, Structural, Debug)]
pub struct AudioClient {
    /// The engine's mix format for this endpoint.
    pub mix_format: WaveFormat,
    /// The engine's buffer capacity for this endpoint, in frames.
    pub buffer_size: u32,
}

/// One row of a per-direction enumeration pass, as the backend reports it.
#[derive(Clone, Debug)]
pub struct EndpointDesc {
    /// The stable, OS-assigned endpoint id.
    pub id: String,
    /// The endpoint's friendly name.
    pub name: String,
    /// The endpoint's state at enumeration time.
    pub state: DeviceState,
    /// The engine's mix format; meaningful for an active endpoint.
    pub mix_format: WaveFormat,
    /// The engine's buffer capacity in frames; meaningful for an active
    /// endpoint.
    pub buffer_size: u32,
}

/// One OS-level endpoint: identity, state, merged capability flags, and the
/// native handle opened at first sight if the endpoint was active then.
/// An inactive endpoint is recorded for identity but never activated.
#[derive(Clone, Debug)]
pub struct PhysicalDevice {
    /// The stable, OS-assigned endpoint id: the registry key.
    pub id: String,
    /// The endpoint's friendly name.
    pub name: String,
    /// The endpoint's current state.
    pub state: DeviceState,
    /// Which directions the endpoint supports, merged over all passes that
    /// reported it.
    pub streams: StreamFlags,
    /// The opened native handle; `None` when the endpoint was not active
    /// when first seen, since activating an unavailable device is invalid.
    pub audio_client: Option<AudioClient>,
}

/// The native handle a pass row opens: a client for an active endpoint,
/// nothing for an inactive one.
pub open spec fn spec_client_for(e: EndpointDesc) -> Option<AudioClient> {
    if e.state is Active {
        Some(AudioClient { mix_format: e.mix_format, buffer_size: e.buffer_size })
    } else {
        None
    }
}

/// True when some row of a pass carries this id.
pub open spec fn spec_in_pass(endpoints: Seq<EndpointDesc>, id: Seq<char>) -> bool {
    exists|k: int| 0 <= k < endpoints.len() && (#[trigger] endpoints[k]).id@ == id
}

/// How the record list changes under one queued hot-plug event: an `Added`
/// id not yet present appends an identity-only record; `Removed` marks the
/// record not-present, keeping the identity so handles stay stable;
/// `Changed` updates the recorded state; a default-device notification
/// leaves the records alone.
pub open spec fn spec_event_applied(
    pre: Seq<PhysicalDevice>,
    event: Event,
    post: Seq<PhysicalDevice>,
) -> bool {
    match event {
        Event::Added(id) => {
            if exists|i: int| 0 <= i < pre.len() && (#[trigger] pre[i]).id@ == id@ {
                post =~= pre
            } else {
                post.len() == pre.len() + 1 && post.take(pre.len() as int) =~= pre && {
                    let d = post.last();
                    d.id@ == id@ && d.state is Unknown && d.streams == (StreamFlags {
                        input: false,
                        output: false,
                    }) && d.audio_client is None
                }
            }
        },
        Event::Removed(id) => {
            post.len() == pre.len() && forall|j: int|
                0 <= j < pre.len() ==> {
                    let d0 = #[trigger] pre[j];
                    let d1 = post[j];
                    d1.id@ == d0.id@ && d1.name@ == d0.name@ && d1.streams == d0.streams
                        && d1.audio_client == d0.audio_client && d1.state == (
                    if d0.id@ == id@ {
                        DeviceState::NotPresent
                    } else {
                        d0.state
                    })
                }
        },
        Event::Changed { device, state } => {
            post.len() == pre.len() && forall|j: int|
                0 <= j < pre.len() ==> {
                    let d0 = #[trigger] pre[j];
                    let d1 = post[j];
                    d1.id@ == d0.id@ && d1.name@ == d0.name@ && d1.streams == d0.streams
                        && d1.audio_client == d0.audio_client && d1.state == (
                    if d0.id@ == device@ {
                        state
                    } else {
                        d0.state
                    })
                }
        },
        Event::Default { .. } => post =~= pre,
    }
}

/// The registry: one record per endpoint id, in insertion order.
#[derive(Debug)]
pub struct Registry {
    /// The records, oldest first. Ids are unique: duplicate enumeration
    /// rows merge into the existing record instead of inserting.
    pub devices: Vec<PhysicalDevice>,
}

impl Registry {
    /// Well-formed: no id appears in two records.
    pub open spec fn wf(self) -> bool {
        forall|i: int, j: int|
            0 <= i < j < self.devices@.len() ==> (#[trigger] self.devices@[i]).id@ != (
            #[trigger] self.devices@[j]).id@
    }

    /// True when a record with this id exists.
    pub open spec fn contains_id(self, id: Seq<char>) -> bool {
        exists|i: int| 0 <= i < self.devices@.len() && (#[trigger] self.devices@[i]).id@ == id
    }

    /// An empty registry.
    pub fn new() -> (r: Registry)
        ensures
            r.devices@ =~= Seq::<PhysicalDevice>::empty(),
            r.wf(),
    {
        Registry { devices: Vec::new() }
    }

    /// How many records the registry holds.
    pub fn len(&self) -> (n: usize)
        ensures
            n == self.devices@.len(),
    {
        self.devices.len()
    }

    /// The index of the record with this id, or `None` when no record
    /// carries it.
    pub fn find_by_id(&self, id: &String) -> (r: Option<usize>)
        ensures
            r is Some ==> r->0 < self.devices@.len() && self.devices@[r->0 as int].id@ == id@,
            r is None ==> !self.contains_id(id@),
    {
        let n = self.devices.len();
        let mut i: usize = 0;
        while i < n
            invariant
                i <= n,
                n == self.devices@.len(),
                forall|j: int| 0 <= j < i ==> (#[trigger] self.devices@[j]).id@ != id@,
            decreases n - i,
        {
            if self.devices[i].id == *id {
                return Some(i);
            }
            i = i + 1;
        }
        None
    }

    /// Merges one per-direction enumeration pass into the registry: a row
    /// whose id is already recorded ORs this direction's flags into the
    /// existing record and changes nothing else of it; a row with a new id
    /// inserts a record behind all existing ones, with this direction's
    /// flags and with the native handle opened exactly when the row's state
    /// is active.
    pub fn merge_pass(&mut self, endpoints: &Vec<EndpointDesc>, flags: StreamFlags)
        requires
            old(self).wf(),
        ensures
            final(self).wf(),
            final(self).devices@.len() >= old(self).devices@.len(),
            // existing records keep place, identity and handle; flags are
            // OR'd exactly when the pass reports their id
            forall|j: int|
                0 <= j < old(self).devices@.len() ==> {
                    let d0 = #[trigger] old(self).devices@[j];
                    let d1 = final(self).devices@[j];
                    d1.id@ == d0.id@ && d1.name@ == d0.name@ && d1.state == d0.state
                        && d1.audio_client == d0.audio_client && d1.streams == (
                    if spec_in_pass(endpoints@, d0.id@) {
                        d0.streams.spec_union(flags)
                    } else {
                        d0.streams
                    })
                },
            // every id of the pass is recorded afterwards
            forall|k: int|
                0 <= k < endpoints@.len() ==> final(self).contains_id(
                    (#[trigger] endpoints@[k]).id@,
                ),
            // inserted records stem from the first row of the pass that
            // carried their id (the id was new), with this direction's flags
            forall|j: int|
                old(self).devices@.len() <= j < final(self).devices@.len() ==> {
                    let d1 = #[trigger] final(self).devices@[j];
                    d1.streams == flags && !old(self).contains_id(d1.id@) && exists|k: int|
                        0 <= k < endpoints@.len() && {
                            let e = #[trigger] endpoints@[k];
                            e.id@ == d1.id@ && e.name@ == d1.name@ && e.state == d1.state
                                && d1.audio_client == spec_client_for(e) && forall|k2: int|
                                0 <= k2 < k ==> (#[trigger] endpoints@[k2]).id@ != d1.id@
                        }
                },
            // and nothing else: every record was already there or comes
            // from the pass
            forall|j: int|
                0 <= j < final(self).devices@.len() ==> old(self).contains_id(
                    (#[trigger] final(self).devices@[j]).id@,
                ) || spec_in_pass(endpoints@, final(self).devices@[j].id@),
    {
        let n = endpoints.len();
        let mut k: usize = 0;
        while k < n
            invariant
                k <= n,
                n == endpoints@.len(),
                self.wf(),
                self.devices@.len() >= old(self).devices@.len(),
                forall|j: int|
                    0 <= j < old(self).devices@.len() ==> {
                        let d0 = #[trigger] old(self).devices@[j];
                        let d1 = self.devices@[j];
                        d1.id@ == d0.id@ && d1.name@ == d0.name@ && d1.state == d0.state
                            && d1.audio_client == d0.audio_client && d1.streams == (
                        if spec_in_pass(endpoints@.take(k as int), d0.id@) {
                            d0.streams.spec_union(flags)
                        } else {
                            d0.streams
                        })
                    },
                forall|k2: int|
                    0 <= k2 < k ==> self.contains_id((#[trigger] endpoints@[k2]).id@),
                forall|j: int|
                    old(self).devices@.len() <= j < self.devices@.len() ==> {
                        let d1 = #[trigger] self.devices@[j];
                        d1.streams == flags && !old(self).contains_id(d1.id@) && exists|k2: int|
                            0 <= k2 < endpoints@.len() && {
                                let e = #[trigger] endpoints@[k2];
                                e.id@ == d1.id@ && e.name@ == d1.name@ && e.state == d1.state
                                    && d1.audio_client == spec_client_for(e) && forall|k3: int|
                                    0 <= k3 < k2 ==> (#[trigger] endpoints@[k3]).id@ != d1.id@
                            }
                    },
                forall|j: int|
                    0 <= j < self.devices@.len() ==> old(self).contains_id(
                        (#[trigger] self.devices@[j]).id@,
                    ) || spec_in_pass(endpoints@.take(k as int), self.devices@[j].id@),
            decreases n - k,
        {
            let e = &endpoints[k];
            assert(endpoints@.take(k as int + 1)[k as int] == endpoints@[k as int]);
            assert(forall|id: Seq<char>|
                spec_in_pass(endpoints@.take(k as int), id) ==> spec_in_pass(
                    endpoints@.take(k as int + 1),
                    id,
                )) by {
                assert(forall|k2: int|
                    0 <= k2 < k ==> #[trigger] endpoints@.take(k as int)[k2] == endpoints@.take(
                        k as int + 1,
                    )[k2]);
            }
            match self.find_by_id(&e.id) {
                Some(i) => {
                    let ghost pre = self.devices@;
                    let merged = self.devices[i].streams.union(&flags);
                    self.devices[i].streams = merged;
                    proof {
                        assert(forall|id: Seq<char>|
                            id != e.id@ && spec_in_pass(endpoints@.take(k as int + 1), id)
                                ==> spec_in_pass(endpoints@.take(k as int), id)) by {
                            assert(forall|k2: int|
                                0 <= k2 < k + 1 ==> #[trigger] endpoints@.take(k as int + 1)[k2]
                                    == endpoints@[k2]);
                        }
                        assert forall|k2: int| 0 <= k2 < k + 1 implies self.contains_id(
                            (#[trigger] endpoints@[k2]).id@,
                        ) by {
                            if k2 < k {
                                let w = choose|w: int|
                                    0 <= w < pre.len() && (#[trigger] pre[w]).id@
                                        == endpoints@[k2].id@;
                                assert(self.devices@[w].id@ == endpoints@[k2].id@);
                            } else {
                                assert(self.devices@[i as int].id@ == endpoints@[k2].id@);
                            }
                        }
                    }
                }
                None => {
                    proof {
                        // no earlier row carried this id: each earlier row's
                        // id is already recorded, and this one is not
                        assert(forall|k3: int|
                            0 <= k3 < k ==> (#[trigger] endpoints@[k3]).id@ != e.id@);
                    }
                    let device = PhysicalDevice {
                        id: e.id.clone(),
                        name: e.name.clone(),
                        state: e.state,
                        streams: flags,
                        audio_client: if matches!(e.state, DeviceState::Active) {
                            Some(AudioClient { mix_format: e.mix_format, buffer_size: e.buffer_size })
                        } else {
                            None
                        },
                    };
                    let ghost pre = self.devices@;
                    self.devices.push(device);
                    proof {
                        assert(forall|id: Seq<char>|
                            id != e.id@ && spec_in_pass(endpoints@.take(k as int + 1), id)
                                ==> spec_in_pass(endpoints@.take(k as int), id)) by {
                            assert(forall|k2: int|
                                0 <= k2 < k + 1 ==> #[trigger] endpoints@.take(k as int + 1)[k2]
                                    == endpoints@[k2]);
                        }
                        assert forall|k2: int| 0 <= k2 < k + 1 implies self.contains_id(
                            (#[trigger] endpoints@[k2]).id@,
                        ) by {
                            if k2 < k {
                                let w = choose|w: int|
                                    0 <= w < pre.len() && (#[trigger] pre[w]).id@
                                        == endpoints@[k2].id@;
                                assert(self.devices@[w].id@ == endpoints@[k2].id@);
                            } else {
                                assert(self.devices@[pre.len() as int].id@ == endpoints@[k2].id@);
                            }
                        }
                    }
                }
            }
            k = k + 1;
        }
        proof {
            assert(endpoints@.take(n as int) =~= endpoints@);
        }
    }

    /// The handles (registry indices) of the currently usable devices, in
    /// insertion order: exactly the records whose state is active.
    pub fn list_active(&self) -> (r: Vec<usize>)
        ensures
            forall|p: int|
                0 <= p < r@.len() ==> (#[trigger] r@[p]) < self.devices@.len() && self.devices@[
                    r@[p] as int
                ].state is Active,
            forall|j: int|
                0 <= j < self.devices@.len() && (#[trigger] self.devices@[j]).state is Active
                    ==> exists|p: int| 0 <= p < r@.len() && #[trigger] r@[p] == j,
            forall|p: int, q: int| 0 <= p < q < r@.len() ==> #[trigger] r@[p] < #[trigger] r@[q],
    {
        let n = self.devices.len();
        let mut r: Vec<usize> = Vec::new();
        let mut i: usize = 0;
        while i < n
            invariant
                i <= n,
                n == self.devices@.len(),
                forall|p: int|
                    0 <= p < r@.len() ==> (#[trigger] r@[p]) < i && self.devices@[
                        r@[p] as int
                    ].state is Active,
                forall|j: int|
                    0 <= j < i && (#[trigger] self.devices@[j]).state is Active ==> exists|p: int|
                        0 <= p < r@.len() && #[trigger] r@[p] == j,
                forall|p: int, q: int| 0 <= p < q < r@.len() ==> #[trigger] r@[p] < #[trigger] r@[q],
            decreases n - i,
        {
            let active = matches!(self.devices[i].state, DeviceState::Active);
            if active {
                let ghost rpre = r@;
                r.push(i);
                proof {
                    assert forall|j: int|
                        0 <= j < i + 1 && (#[trigger] self.devices@[j]).state is Active implies
                        exists|p: int| 0 <= p < r@.len() && #[trigger] r@[p] == j by {
                        if j < i {
                            let p = choose|p: int| 0 <= p < rpre.len() && #[trigger] rpre[p] == j;
                            assert(r@[p] == j);
                        } else {
                            assert(r@[r@.len() - 1] == j);
                        }
                    }
                }
            }
            i = i + 1;
        }
        r
    }

    /// Applies one queued hot-plug event. `Added` records a new identity
    /// (with nothing else known yet) unless the id is already present;
    /// `Removed` marks the record not-present, keeping the identity so that
    /// handles stay stable; `Changed` updates the recorded state; a
    /// default-device notification does not touch the registry.
    pub fn apply_event(&mut self, event: &Event)
        requires
            old(self).wf(),
        ensures
            final(self).wf(),
            spec_event_applied(old(self).devices@, *event, final(self).devices@),
    {
        match event {
            Event::Added(id) => {
                match self.find_by_id(id) {
                    Some(_) => {}
                    None => {
                        self.devices.push(
                            PhysicalDevice {
                                id: id.clone(),
                                name: String::new(),
                                state: DeviceState::Unknown,
                                streams: StreamFlags::none(),
                                audio_client: None,
                            },
                        );
                    }
                }
            }
            Event::Removed(id) => {
                match self.find_by_id(id) {
                    Some(i) => {
                        self.devices[i].state = DeviceState::NotPresent;
                        proof {
                            assert(forall|j: int|
                                0 <= j < old(self).devices@.len() && j != i ==> (
                                #[trigger] old(self).devices@[j]).id@ != id@);
                        }
                    }
                    None => {}
                }
            }
            Event::Changed { device, state } => {
                match self.find_by_id(device) {
                    Some(i) => {
                        self.devices[i].state = *state;
                        proof {
                            assert(forall|j: int|
                                0 <= j < old(self).devices@.len() && j != i ==> (
                                #[trigger] old(self).devices@[j]).id@ != device@);
                        }
                    }
                    None => {}
                }
            }
            Event::Default { .. } => {}
        }
    }
}

/// In a well-formed registry a recorded id has exactly one entry: one
/// index carries it, and any two indices that carry it are the same. With
/// `merge_pass`, merging the same physical id across the capture and render
/// passes therefore yields exactly one record, whose flags are the OR of
/// both passes' flags.
pub proof fn lemma_registry_entry_unique(r: Registry, id: Seq<char>)
    requires
        r.wf(),
        r.contains_id(id),
    ensures
        exists|i: int| 0 <= i < r.devices@.len() && (#[trigger] r.devices@[i]).id@ == id,
        forall|i: int, j: int|
            0 <= i < r.devices@.len() && 0 <= j < r.devices@.len() && (
            #[trigger] r.devices@[i]).id@ == id && (#[trigger] r.devices@[j]).id@ == id ==> i == j,
{
}

/// The static capability report of a physical device: its friendly name
/// and which directions it supports.
#[derive(Clone, Debug)]
pub struct PhysicalDeviceProperties {
    /// The endpoint's friendly name.
    pub device_name: String,
    /// The directions the endpoint supports.
    pub streams: StreamFlags,
}

} // verus!
