//! The per-area script-object graph: layers of instances, their typed
//! property payloads, and their directed trigger/message connections.
//!
//! Spatial and timing quantities are held in thousandths of the engine's
//! unit (an integer), so that the model stays exact; the layer that talks to
//! the on-disc format converts them to its native encoding.

use vstd::prelude::*;

use crate::ids::ResKey;
use crate::vuln::DamageVulnerability;

verus! {

/// A point or extent, in thousandths of a unit.
#[derive(Clone, Copy, Debug, PartialEq, Eq, Structural)]
pub struct Vec3 {
    pub x: i32,
    pub y: i32,
    pub z: i32,
}

/// The state of the source instance on which a connection fires.
#[derive(Clone, Copy, Debug, PartialEq, Eq, Structural)]
pub enum ConnectionState {
    Active,
    Arrived,
    Closed,
    Dead,
    DeathRattle,
    Entered,
    Inside,
    MaxReached,
    Open,
    ReflectedDamage,
    Zero,
}

/// The message a connection delivers to its target instance.
#[derive(Clone, Copy, Debug, PartialEq, Eq, Structural)]
pub enum ConnectionMsg {
    Action,
    Activate,
    Close,
    Deactivate,
    Decrement,
    Increment,
    Open,
    ResetAndStart,
    SetToZero,
    Start,
}

/// A directed edge: when the owning instance reaches `state`, send `message`
/// to the instance `target_object_id`. Edges are non-unique and carry no
/// integrity guarantee beyond "the target should exist at runtime".
#[derive(Clone, Copy, Debug, PartialEq, Eq, Structural)]
pub struct Connection {
    pub state: ConnectionState,
    pub message: ConnectionMsg,
    pub target_object_id: u32,
}

/// A countdown that fires its connections when it reaches zero.
#[derive(Clone, Debug)]
pub struct Timer {
    pub name: String,
    pub start_time_ms: u32,
    pub max_random_add_ms: u32,
    pub reset_to_zero: bool,
    pub start_immediately: bool,
    pub active: bool,
}

/// Forwards a signal to its connections.
#[derive(Clone, Debug)]
pub struct Relay {
    pub name: String,
    pub active: bool,
}

/// A relay whose state persists in the save file.
#[derive(Clone, Debug)]
pub struct MemoryRelay {
    pub name: String,
    pub active: bool,
}

/// An engine-side function call; `type_code` 16 toggles a layer of another
/// room.
#[derive(Clone, Debug)]
pub struct SpecialFunction {
    pub name: String,
    pub type_code: u32,
    pub layer_change_room_id: u32,
    pub layer_change_layer_id: u32,
    pub item_id: u32,
}

/// A volume that fires on entry, exit or presence.
#[derive(Clone, Debug)]
pub struct Trigger {
    pub name: String,
    pub position: Vec3,
    pub scale: Vec3,
    pub active: bool,
}

/// A volume that takes damage; doors use one as their lock.
#[derive(Clone, Debug)]
pub struct DamageableTrigger {
    pub name: String,
    pub position: Vec3,
    pub scale: Vec3,
    pub health_ms: u32,
    pub damage_vulnerability: DamageVulnerability,
    pub render_side: u32,
    pub pattern_txtr0: u32,
    pub pattern_txtr1: u32,
    pub color_txtr: u32,
    pub lock_on: bool,
    pub active: bool,
    pub target_passthrough: bool,
}

/// A static model in the world; doors use one as their shield.
#[derive(Clone, Debug)]
pub struct Actor {
    pub name: String,
    pub position: Vec3,
    pub cmdl: u32,
    pub ancs_file_id: u32,
    pub active: bool,
    pub target_passthrough: bool,
}

/// A scannable point.
#[derive(Clone, Debug)]
pub struct PointOfInterest {
    pub name: String,
    pub active: bool,
    pub scan: u32,
}

/// A moving platform.
#[derive(Clone, Debug)]
pub struct Platform {
    pub name: String,
    pub active: bool,
}

/// A door's animated body.
#[derive(Clone, Debug)]
pub struct Door {
    pub name: String,
    pub ancs_file_id: u32,
    pub ancs_unknown: u32,
    pub projectiles_collide: bool,
}

/// An elevator: walking into it loads area `mrea` of world `mlvl`.
#[derive(Clone, Debug)]
pub struct WorldTransporter {
    pub name: String,
    pub mlvl: u32,
    pub mrea: u32,
    pub volume: u32,
    pub player_scale: Vec3,
}

/// A collectable item.
#[derive(Clone, Debug)]
pub struct Pickup {
    pub name: String,
    pub position: Vec3,
    pub scan_offset: Vec3,
    pub hitbox: Vec3,
    pub kind: u32,
    pub max_increase: u32,
    pub curr_increase: u32,
    pub cmdl: u32,
    pub ancs_file_id: u32,
    pub fade_in_timer_ms: u32,
    pub spawn_delay_ms: u32,
    pub active: bool,
}

/// The popup shown when an item is collected.
#[derive(Clone, Debug)]
pub struct HudMemo {
    pub name: String,
    pub first_message_timer_ms: u32,
    pub memo_type: u32,
    pub strg: u32,
}

/// The jingle played when an item is collected.
#[derive(Clone, Debug)]
pub struct StreamedAudio {
    pub name: String,
    pub audio_file_name: String,
}

/// Where the player appears, and with which items.
#[derive(Clone, Debug)]
pub struct SpawnPoint {
    pub name: String,
    pub scan_visor: u32,
    pub missiles: u32,
    pub energy_tanks: u32,
    pub power_bombs: u32,
    pub wave: u32,
    pub ice: u32,
    pub plasma: u32,
    pub charge: u32,
    pub morph_ball: u32,
    pub bombs: u32,
    pub spider_ball: u32,
    pub boost_ball: u32,
    pub varia_suit: u32,
    pub gravity_suit: u32,
    pub phazon_suit: u32,
    pub thermal_visor: u32,
    pub xray: u32,
    pub space_jump: u32,
    pub grapple: u32,
    pub super_missile: u32,
    pub wavebuster: u32,
    pub ice_spreader: u32,
    pub flamethrower: u32,
}

/// The typed payload of one script object. Object kinds this tool never
/// edits are carried through opaquely under their kind code.
#[derive(Clone, Debug)]
pub enum SclyProperty {
    Timer(Timer),
    Relay(Relay),
    MemoryRelay(MemoryRelay),
    SpecialFunction(SpecialFunction),
    Trigger(Trigger),
    DamageableTrigger(DamageableTrigger),
    Actor(Actor),
    PointOfInterest(PointOfInterest),
    Platform(Platform),
    Door(Door),
    WorldTransporter(WorldTransporter),
    Pickup(Pickup),
    HudMemo(HudMemo),
    StreamedAudio(StreamedAudio),
    SpawnPoint(SpawnPoint),
    Other(u32),
}

/// One script object: an id unique within its area, a typed payload, and
/// its outbound connections.
#[derive(Clone, Debug)]
pub struct SclyObject {
    pub instance_id: u32,
    pub property_data: SclyProperty,
    pub connections: Vec<Connection>,
}

/// One named layer of an area's script graph.
#[derive(Clone, Debug)]
pub struct SclyLayer {
    pub objects: Vec<SclyObject>,
}

/// One playable area: its script layers, the per-layer flags word, and the
/// per-layer local resource index that the serializer embeds.
#[derive(Clone, Debug)]
pub struct MlvlArea {
    pub mrea_id: u32,
    pub layer_flags: u32,
    pub layers: Vec<SclyLayer>,
    pub layer_names: Vec<String>,
    pub layer_deps: Vec<Vec<ResKey>>,
}

/// The index of the first object with `instance_id` in `objects`, if any.
pub open spec fn spec_find_object(objects: Seq<SclyObject>, instance_id: u32) -> Option<int> {
    if exists|i: int| 0 <= i < objects.len() && objects[i].instance_id == instance_id {
        Some(choose|i: int|
            0 <= i < objects.len() && objects[i].instance_id == instance_id && forall|j: int|
                0 <= j < i ==> objects[j].instance_id != instance_id)
    } else {
        None
    }
}

/// Find the first object with `instance_id` in a layer's object list.
pub fn find_object_idx(objects: &Vec<SclyObject>, instance_id: u32) -> (r: Option<usize>)
    ensures
        match r {
            Some(i) => {
                &&& i < objects@.len()
                &&& objects@[i as int].instance_id == instance_id
                &&& forall|j: int| 0 <= j < i ==> objects@[j].instance_id != instance_id
            },
            None => forall|j: int|
                0 <= j < objects@.len() ==> objects@[j].instance_id != instance_id,
        },
{
    let mut i: usize = 0;
    while i < objects.len()
        invariant
            i <= objects@.len(),
            forall|j: int| 0 <= j < i ==> objects@[j].instance_id != instance_id,
        decreases objects@.len() - i,
    {
        if objects[i].instance_id == instance_id {
            return Some(i);
        }
        i += 1;
    }
    None
}

impl MlvlArea {
    /// The layer count and the per-layer bookkeeping agree.
    pub open spec fn wf(self) -> bool {
        &&& self.layers.len() == self.layer_names@.len()
        &&& self.layers.len() == self.layer_deps@.len()
    }

    /// Append a new, empty, enabled layer; returns its index.
    pub fn add_layer(&mut self, name: String) -> (idx: usize)
        requires
            old(self).wf(),
            old(self).layers@.len() < 32,
        ensures
            final(self).wf(),
            idx == old(self).layers@.len(),
            final(self).layers@.len() == old(self).layers@.len() + 1,
            forall|l: int| 0 <= l < idx ==> final(self).layers@[l] == old(self).layers@[l],
            final(self).layers@[idx as int].objects@.len() == 0,
            final(self).layer_names@ == old(self).layer_names@.push(name),
            final(self).layer_deps@.len() == old(self).layer_deps@.len() + 1,
            forall|l: int| 0 <= l < idx ==> final(self).layer_deps@[l] == old(self).layer_deps@[l],
            final(self).layer_deps@[idx as int]@ == Seq::<ResKey>::empty(),
            final(self).layer_flags == old(self).layer_flags | (1u32 << (idx as u32)),
            final(self).mrea_id == old(self).mrea_id,
    {
        let idx = self.layers.len();
        self.layers.push(SclyLayer { objects: Vec::new() });
        self.layer_names.push(name);
        let empty_deps: Vec<ResKey> = Vec::new();
        self.layer_deps.push(empty_deps);
        self.layer_flags = self.layer_flags | (1u32 << (idx as u32));
        proof {
            assert(final(self).layer_deps@[idx as int]@ =~= Seq::<ResKey>::empty());
        }
        idx
    }

    /// Record that layer `layer_idx` of this area references each key of
    /// `deps`, so the serializer embeds them in the area's local resource
    /// index. Every key must already be resolvable.
    pub fn add_dependencies(
        &mut self,
        pool: &crate::pool::DependencyPool,
        layer_idx: usize,
        deps: &Vec<ResKey>,
    ) -> (r: Result<(), String>)
        requires
            old(self).wf(),
            layer_idx < old(self).layer_deps@.len(),
        ensures
            final(self).wf(),
            final(self).layers == old(self).layers,
            final(self).layer_flags == old(self).layer_flags,
            final(self).mrea_id == old(self).mrea_id,
            final(self).layer_names == old(self).layer_names,
            match r {
                Ok(()) => {
                    &&& (forall|k: ResKey| deps@.contains(k) ==> pool.spec_contains(k))
                    &&& final(self).layer_deps@[layer_idx as int]@
                        == old(self).layer_deps@[layer_idx as int]@ + deps@
                    &&& (forall|l: int|
                        0 <= l < final(self).layer_deps@.len() && l != layer_idx
                            ==> final(self).layer_deps@[l] == old(self).layer_deps@[l])
                },
                Err(_) => exists|k: ResKey| deps@.contains(k) && !pool.spec_contains(k),
            },
    {
        let ghost orig = self.layer_deps@[layer_idx as int]@;
        let mut i: usize = 0;
        while i < deps.len()
            invariant
                *self == *old(self),
                self.wf(),
                i <= deps@.len(),
                forall|j: int| 0 <= j < i ==> pool.spec_contains(deps@[j]),
            decreases deps@.len() - i,
        {
            if !pool.contains_key(&deps[i]) {
                return Err(String::from_str("unresolved dependency for area layer"));
            }
            i += 1;
        }
        let mut i: usize = 0;
        while i < deps.len()
            invariant
                old(self).wf(),
                self.wf(),
                i <= deps@.len(),
                layer_idx < self.layer_deps@.len(),
                self.layers == old(self).layers,
                self.layer_flags == old(self).layer_flags,
                self.mrea_id == old(self).mrea_id,
                self.layer_names == old(self).layer_names,
                self.layer_deps@.len() == old(self).layer_deps@.len(),
                self.layer_deps@[layer_idx as int]@ == orig + deps@.subrange(0, i as int),
                forall|l: int|
                    0 <= l < self.layer_deps@.len() && l != layer_idx
                        ==> self.layer_deps@[l] == old(self).layer_deps@[l],
            decreases deps@.len() - i,
        {
            let k = deps[i];
            let slot = &mut self.layer_deps[layer_idx];
            slot.push(k);
            proof {
                assert(self.layer_deps@[layer_idx as int]@
                    =~= orig + deps@.subrange(0, i as int + 1));
            }
            i += 1;
        }
        proof {
            assert(deps@.subrange(0, deps@.len() as int) =~= deps@);
            assert(forall|k: ResKey| deps@.contains(k) ==> pool.spec_contains(k));
        }
        Ok(())
    }
}

/// A monotone fresh-instance-id source, seeded above every id already
/// present, so a newly inserted instance can never collide.
#[derive(Clone, Copy, Debug)]
pub struct IdAllocator {
    pub next: u32,
}

impl IdAllocator {
    /// Start allocating strictly above `max_existing`.
    pub fn new_above(max_existing: u32) -> (a: IdAllocator)
        requires
            max_existing < u32::MAX,
        ensures
            a.next == max_existing + 1,
    {
        IdAllocator { next: max_existing + 1 }
    }

    /// Hand out the next id. Ids come out strictly increasing.
    pub fn fresh(&mut self) -> (id: u32)
        requires
            old(self).next < u32::MAX,
        ensures
            id == old(self).next,
            final(self).next == old(self).next + 1,
    {
        let id = self.next;
        self.next = self.next + 1;
        id
    }
}

/// The ids a run of `k` allocations starting at `next` hands out.
pub open spec fn alloc_run(next: u32, k: nat) -> Seq<u32>
    decreases k,
{
    if k == 0 {
        Seq::empty()
    } else {
        seq![next] + alloc_run((next + 1) as u32, (k - 1) as nat)
    }
}

/// Across an arbitrarily long run of allocations, no allocated id repeats
/// and none equals an id that was already present below the seed.
pub proof fn lemma_alloc_run_fresh(next: u32, k: nat, existing: Set<u32>)
    requires
        next + k <= u32::MAX,
        forall|id: u32| existing.contains(id) ==> id < next,
    ensures
        alloc_run(next, k).len() == k,
        forall|i: int| 0 <= i < k ==> alloc_run(next, k)[i] == next + i,
        forall|i: int, j: int| 0 <= i < j < k ==> alloc_run(next, k)[i] != alloc_run(next, k)[j],
        forall|i: int| 0 <= i < k ==> !existing.contains(alloc_run(next, k)[i]),
    decreases k,
{
    if k > 0 {
        lemma_alloc_run_fresh((next + 1) as u32, (k - 1) as nat, existing);
        assert(forall|i: int|
            1 <= i < k ==> alloc_run(next, k)[i] == alloc_run(
                (next + 1) as u32,
                (k - 1) as nat,
            )[i - 1]);
    }
}

} // verus!
