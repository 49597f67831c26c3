//! The patch operations and the per-area mutation logic behind them: every
//! mutation the scheduler can apply to an area's script graph, to a single
//! resource, or to a whole file, plus the door-color decision logic.

use vstd::prelude::*;

use crate::door_meta::{DoorType, DoorLocation, Weights, World};
use crate::ids::ResKey;
use crate::pickup_meta::{PickupType, PickupLocation, PickupTable};
use crate::pool::{DependencyPool, ResourceKind, Resource, StrgData, StrgTable, ScannableObject, MapaObject};
use crate::ids;
use crate::patcher::{PatcherState, FstEntryFile, Pak};
use crate::scly::{
    MlvlArea, SclyLayer, SclyObject, SclyProperty, Connection, ConnectionState, ConnectionMsg,
    Timer, Relay, SpecialFunction, Trigger, Vec3, find_object_idx, spec_find_object,
};
use crate::vuln::{VULN_NORMAL, VULN_REFLECT};

verus! {

/// The layer of the Artifact Temple that gates the final fight on the
/// Artifact of Truth.
pub const ARTIFACT_OF_TRUTH_REQ_LAYER: u32 = 24;

/// Pickup locations whose acquisition popup must stay modal, because a
/// cutscene follows immediately.
pub fn is_always_modal_hudmenu(location_idx: usize) -> (r: bool)
    ensures
        r == (location_idx == 23 || location_idx == 50 || location_idx == 63),
{
    location_idx == 23 || location_idx == 50 || location_idx == 63
}

/// Read-only inputs shared by every patch operation.
pub struct PatchContext {
    pub pickup_resources: DependencyPool,
    pub door_resources: DependencyPool,
    pub pickup_table: PickupTable,
    pub skip_hudmenus: bool,
    pub obfuscate_items: bool,
    pub powerbomb_lockpick: bool,
}

impl PatchContext {
    pub open spec fn wf(self) -> bool {
        self.pickup_table.complete()
    }
}

/// How artifact hints become available.
#[derive(Clone, Copy, Debug, PartialEq, Eq, Structural)]
pub enum ArtifactHintBehavior {
    Vanilla,
    Disabled,
    All,
}

impl Default for ArtifactHintBehavior {
    fn default() -> (r: Self)
        ensures
            r is Vanilla,
    {
        ArtifactHintBehavior::Vanilla
    }
}

/// The shapes a finished disc can be written in.
#[derive(Clone, Copy, Debug, PartialEq, Eq, Structural)]
pub enum IsoFormat {
    Iso,
    Gcz,
    Ciso,
}

impl Default for IsoFormat {
    fn default() -> (r: Self)
        ensures
            r is Iso,
    {
        IsoFormat::Iso
    }
}

/// Every patch operation the scheduler can carry.
#[derive(Clone, Debug)]
pub enum PatchOp {
    RemoveInstances { layer: usize, instance_ids: Vec<u32> },
    ModifyPickup { pickup_type: PickupType, location: PickupLocation, position_delta: Vec3 },
    PatchDoor { door_location: DoorLocation, door_type: DoorType },
    SetTransporterDest { scly_id: u32, mlvl: u32, mrea: u32, tiny_samus: bool },
    AutoEnableElevator,
    StartingPickups { starting_items: u64 },
    FrigateTeleporter { mlvl: u32, mrea: u32 },
    TempleSecurityTrigger,
    RidleyCinematic,
    SunTowerPrevent,
    SunchamberPrevent,
    ResearchLabHydraBarrier,
    ResearchLabAetherWall,
    ObservatorySecondPass,
    MainVentShaftDoor,
    HiveTotemTrigger,
    RuinedCourtyardConduits,
    GeothermalCoreRockPal,
    OreProcessingRockPal,
    MainQuarryDoorLockPal,
    MainQuarryDoorLock002,
    GeothermalCoreDoorLock002,
    MinesSecuritySoftLock,
    GravityChamberGrapple,
    LandingSiteCutscene,
    EndingSceneCredits,
    EliteResearchFlags,
    FixArtifactOfTruth { layout: Vec<PickupType> },
    ArtifactHint { behavior: ArtifactHintBehavior },
    MainPlazaLockedDoor { door_type: DoorType, use_custom_appearance: bool },
    SetStrgLastLine { text: String },
    ReplaceStrgSingle { text: String },
    MainStrg { msg: String },
    CreditsText { text: String },
    MinesSavwScan,
    MainMenuText,
    MapaDoorIcon { editor_id: u32, door_type: DoorType, respect_vertical: bool },
    ReplaceRawBytes { bytes: Vec<u8> },
    ReplaceFileBytes { bytes: Vec<u8> },
    EmptyFrigatePak,
    PatchBnr {
        pixels: Vec<u8>,
        game_name: Option<String>,
        developer: Option<String>,
        game_name_full: Option<String>,
        developer_full: Option<String>,
        description: Option<String>,
    },
}

/// Restore a removed-and-reinserted element as an update.
pub proof fn lemma_remove_insert<T>(s: Seq<T>, i: int, x: T)
    requires
        0 <= i < s.len(),
    ensures
        s.remove(i).insert(i, x) =~= s.update(i, x),
{
}

/// Everything about the area except its layers' object lists is unchanged.
pub open spec fn same_shape(a: MlvlArea, b: MlvlArea) -> bool {
    &&& b.mrea_id == a.mrea_id
    &&& b.layer_flags == a.layer_flags
    &&& b.layer_names == a.layer_names
    &&& b.layer_deps == a.layer_deps
    &&& b.layers@.len() == a.layers@.len()
}

/// Only layer `l`'s object list differs between the two areas.
pub open spec fn only_layer_changed(a: MlvlArea, b: MlvlArea, l: int) -> bool {
    &&& same_shape(a, b)
    &&& forall|k: int| 0 <= k < a.layers@.len() && k != l ==> b.layers@[k] == a.layers@[k]
}

/// `b` is `a` with the object at `(l, i)` replaced by `o`.
pub open spec fn object_updated(a: MlvlArea, b: MlvlArea, l: int, i: int, o: SclyObject) -> bool {
    &&& only_layer_changed(a, b, l)
    &&& 0 <= l < a.layers@.len()
    &&& 0 <= i < a.layers@[l].objects@.len()
    &&& b.layers@[l].objects@ == a.layers@[l].objects@.update(i, o)
}

/// `b` is `a` with `o` appended to layer `l`.
pub open spec fn object_appended(a: MlvlArea, b: MlvlArea, l: int, o: SclyObject) -> bool {
    &&& only_layer_changed(a, b, l)
    &&& 0 <= l < a.layers@.len()
    &&& b.layers@[l].objects@ == a.layers@[l].objects@.push(o)
}

/// The first `(layer, index)` holding `instance_id`, scanning layers in
/// order from `l`.
pub open spec fn spec_find_in_area_from(a: MlvlArea, instance_id: u32, l: int) -> Option<
    (int, int),
>
    decreases a.layers@.len() - l,
{
    if l < 0 || l >= a.layers@.len() {
        None
    } else {
        match spec_find_object(a.layers@[l].objects@, instance_id) {
            Some(i) => Some((l, i)),
            None => spec_find_in_area_from(a, instance_id, l + 1),
        }
    }
}

/// The first `(layer, index)` holding `instance_id`, scanning all layers.
pub open spec fn spec_find_in_area(a: MlvlArea, instance_id: u32) -> Option<(int, int)> {
    spec_find_in_area_from(a, instance_id, 0)
}

/// Find the first object with `instance_id`, scanning layers in order.
pub fn find_object_in_area(area: &MlvlArea, instance_id: u32) -> (r: Option<(usize, usize)>)
    ensures
        match r {
            Some(li) => {
                &&& spec_find_in_area(*area, instance_id) == Some((li.0 as int, li.1 as int))
                &&& li.0 < area.layers@.len()
                &&& li.1 < area.layers@[li.0 as int].objects@.len()
                &&& area.layers@[li.0 as int].objects@[li.1 as int].instance_id == instance_id
            },
            None => spec_find_in_area(*area, instance_id) is None,
        },
{
    let mut l: usize = 0;
    while l < area.layers.len()
        invariant
            l <= area.layers@.len(),
            spec_find_in_area(*area, instance_id) == spec_find_in_area_from(
                *area,
                instance_id,
                l as int,
            ),
        decreases area.layers@.len() - l,
    {
        match find_object_idx(&area.layers[l].objects, instance_id) {
            Some(i) => {
                proof {
                    lemma_find_object_agrees(
                        area.layers@[l as int].objects@,
                        instance_id,
                        i as int,
                    );
                }
                return Some((l, i));
            },
            None => {
                proof {
                    lemma_find_object_none(area.layers@[l as int].objects@, instance_id);
                }
            },
        }
        l += 1;
    }
    None
}

/// If index `i` is the first occurrence, the specification finder agrees.
proof fn lemma_find_object_agrees(objects: Seq<SclyObject>, instance_id: u32, i: int)
    requires
        0 <= i < objects.len(),
        objects[i].instance_id == instance_id,
        forall|j: int| 0 <= j < i ==> objects[j].instance_id != instance_id,
    ensures
        spec_find_object(objects, instance_id) == Some(i),
{
    let found = choose|k: int|
        0 <= k < objects.len() && objects[k].instance_id == instance_id && forall|j: int|
            0 <= j < k ==> objects[j].instance_id != instance_id;
    assert(objects[i].instance_id == instance_id);
    if found != i {
        if found < i {
            assert(objects[found].instance_id != instance_id);
        } else {
            assert(objects[i].instance_id != instance_id);
        }
    }
}

/// If no object carries the id, the specification finder agrees.
proof fn lemma_find_object_none(objects: Seq<SclyObject>, instance_id: u32)
    requires
        forall|j: int| 0 <= j < objects.len() ==> objects[j].instance_id != instance_id,
    ensures
        spec_find_object(objects, instance_id) is None,
{
}

/// Below any occurrence of the id sits a first occurrence.
proof fn lemma_exists_first(objects: Seq<SclyObject>, instance_id: u32, w: int)
    requires
        0 <= w < objects.len(),
        objects[w].instance_id == instance_id,
    ensures
        exists|k: int|
            0 <= k < objects.len() && objects[k].instance_id == instance_id && forall|j: int|
                0 <= j < k ==> objects[j].instance_id != instance_id,
    decreases w,
{
    if forall|j: int| 0 <= j < w ==> objects[j].instance_id != instance_id {
        assert(0 <= w < objects.len() && objects[w].instance_id == instance_id && forall|j: int|
            0 <= j < w ==> objects[j].instance_id != instance_id);
    } else {
        let j = choose|j: int| 0 <= j < w && objects[j].instance_id == instance_id;
        lemma_exists_first(objects, instance_id, j);
    }
}

/// What a successful find means: the index is in range, carries the id,
/// and is the first to do so.
proof fn lemma_find_object_inv(objects: Seq<SclyObject>, instance_id: u32, i: int)
    requires
        spec_find_object(objects, instance_id) == Some(i),
    ensures
        0 <= i < objects.len(),
        objects[i].instance_id == instance_id,
        forall|j: int| 0 <= j < i ==> objects[j].instance_id != instance_id,
{
    assert(exists|k: int| 0 <= k < objects.len() && objects[k].instance_id == instance_id);
    let w = choose|k: int| 0 <= k < objects.len() && objects[k].instance_id == instance_id;
    lemma_exists_first(objects, instance_id, w);
    let k = choose|k: int|
        0 <= k < objects.len() && objects[k].instance_id == instance_id && forall|j: int|
            0 <= j < k ==> objects[j].instance_id != instance_id;
    assert(objects[k].instance_id == instance_id && forall|j: int|
        0 <= j < k ==> objects[j].instance_id != instance_id);
    assert(k == i);
}

/// Replacing one object by another with the same id does not move any
/// object the finder locates.
proof fn lemma_find_object_update_same_id(
    objects: Seq<SclyObject>,
    i: int,
    o: SclyObject,
    instance_id: u32,
)
    requires
        0 <= i < objects.len(),
        o.instance_id == objects[i].instance_id,
    ensures
        spec_find_object(objects.update(i, o), instance_id) == spec_find_object(
            objects,
            instance_id,
        ),
{
    let updated = objects.update(i, o);
    match spec_find_object(objects, instance_id) {
        Some(k) => {
            lemma_find_object_inv(objects, instance_id, k);
            assert(updated[k].instance_id == instance_id);
            lemma_find_object_agrees(updated, instance_id, k);
        },
        None => {
            assert(forall|j: int|
                0 <= j < updated.len() ==> updated[j].instance_id != instance_id);
            lemma_find_object_none(updated, instance_id);
        },
    }
}

/// Replace the object at `(l, i)` with `o`.
fn set_object(area: &mut MlvlArea, l: usize, i: usize, o: SclyObject)
    requires
        l < old(area).layers@.len(),
        i < old(area).layers@[l as int].objects@.len(),
    ensures
        object_updated(*old(area), *final(area), l as int, i as int, o),
        final(area).layers@[l as int].objects@[i as int] == o,
{
    let ghost layers0 = area.layers@;
    let mut layer = self_take_layer(area, l);
    let ghost objs = layer.objects@;
    layer.objects.remove(i);
    layer.objects.insert(i, o);
    proof {
        lemma_remove_insert(objs, i as int, o);
    }
    self_put_layer(area, l, layer);
    proof {
        lemma_remove_insert(layers0, l as int, final(area).layers@[l as int]);
    }
}

/// Append `o` to layer `l`.
fn push_object(area: &mut MlvlArea, l: usize, o: SclyObject)
    requires
        l < old(area).layers@.len(),
    ensures
        object_appended(*old(area), *final(area), l as int, o),
{
    let ghost layers0 = area.layers@;
    let mut layer = self_take_layer(area, l);
    layer.objects.push(o);
    self_put_layer(area, l, layer);
    proof {
        lemma_remove_insert(layers0, l as int, final(area).layers@[l as int]);
    }
}

/// Detach layer `l` for in-place editing.
fn self_take_layer(area: &mut MlvlArea, l: usize) -> (layer: SclyLayer)
    requires
        l < old(area).layers@.len(),
    ensures
        layer == old(area).layers@[l as int],
        final(area).layers@ == old(area).layers@.remove(l as int),
        final(area).mrea_id == old(area).mrea_id,
        final(area).layer_flags == old(area).layer_flags,
        final(area).layer_names == old(area).layer_names,
        final(area).layer_deps == old(area).layer_deps,
{
    area.layers.remove(l)
}

/// Reattach an edited layer at its index.
fn self_put_layer(area: &mut MlvlArea, l: usize, layer: SclyLayer)
    requires
        l <= old(area).layers@.len(),
    ensures
        final(area).layers@ == old(area).layers@.insert(l as int, layer),
        final(area).mrea_id == old(area).mrea_id,
        final(area).layer_flags == old(area).layer_flags,
        final(area).layer_names == old(area).layer_names,
        final(area).layer_deps == old(area).layer_deps,
{
    area.layers.insert(l, layer);
}

/// Append one connection to the object at `(l, i)`.
fn add_connection_at(area: &mut MlvlArea, l: usize, i: usize, conn: Connection)
    requires
        l < old(area).layers@.len(),
        i < old(area).layers@[l as int].objects@.len(),
    ensures
        ({
            let o0 = old(area).layers@[l as int].objects@[i as int];
            exists|o: SclyObject|
                {
                    &&& object_updated(*old(area), *final(area), l as int, i as int, o)
                    &&& o.instance_id == o0.instance_id
                    &&& o.property_data == o0.property_data
                    &&& o.connections@ == o0.connections@.push(conn)
                }
        }),
{
    let mut layer = self_take_layer(area, l);
    let ghost layers0 = old(area).layers@;
    let mut o = layer.objects.remove(i);
    o.connections.push(conn);
    layer.objects.insert(i, o);
    proof {
        lemma_remove_insert(layers0[l as int].objects@, i as int, layer.objects@[i as int]);
    }
    self_put_layer(area, l, layer);
    proof {
        lemma_remove_insert(layers0, l as int, final(area).layers@[l as int]);
        let o2 = final(area).layers@[l as int].objects@[i as int];
        assert(object_updated(*old(area), *final(area), l as int, i as int, o2));
    }
}

/// Deactivate the trigger carrying `instance_id`, wherever it sits. The
/// vanilla layout guarantees its presence: a missing or differently-typed
/// instance aborts the run.
pub fn deactivate_trigger_anywhere(area: &mut MlvlArea, instance_id: u32) -> (r: Result<
    (),
    String,
>)
    ensures
        match r {
            Ok(()) => exists|l: int, i: int, o: SclyObject|
                {
                    &&& spec_find_in_area(*old(area), instance_id) == Some((l, i))
                    &&& old(area).layers@[l].objects@[i].property_data is Trigger
                    &&& object_updated(*old(area), *final(area), l, i, o)
                    &&& o.instance_id == instance_id
                    &&& o.connections == old(area).layers@[l].objects@[i].connections
                    &&& o.property_data == SclyProperty::Trigger(
                        Trigger {
                            active: false,
                            ..old(area).layers@[l].objects@[i].property_data->Trigger_0
                        },
                    )
                },
            Err(_) => {
                ||| spec_find_in_area(*old(area), instance_id) is None
                ||| {
                    &&& spec_find_in_area(*old(area), instance_id) matches Some((l, i))
                    &&& !(old(area).layers@[l].objects@[i].property_data is Trigger)
                }
            },
        },
{
    let (l, i) = match find_object_in_area(area, instance_id) {
        Some(li) => li,
        None => {
            return Err(String::from_str("expected trigger instance is absent"));
        },
    };
    let ghost layers0 = area.layers@;
    let mut layer = self_take_layer(area, l);
    let ghost objs0 = layer.objects@;
    let mut o = layer.objects.remove(i);
    match o.property_data {
        SclyProperty::Trigger(mut t) => {
            t.active = false;
            o.property_data = SclyProperty::Trigger(t);
        },
        other => {
            o.property_data = other;
            layer.objects.insert(i, o);
            self_put_layer(area, l, layer);
            return Err(String::from_str("expected instance is not a trigger"));
        },
    }
    layer.objects.insert(i, o);
    proof {
        lemma_remove_insert(objs0, i as int, layer.objects@[i as int]);
    }
    self_put_layer(area, l, layer);
    proof {
        lemma_remove_insert(layers0, l as int, final(area).layers@[l as int]);
        let o2 = final(area).layers@[l as int].objects@[i as int];
        assert(object_updated(*old(area), *final(area), l as int, i as int, o2));
    }
    Ok(())
}

/// A cutscene trigger at the Temple Security Station is disabled so the
/// pirate cinematic cannot soft-lock a shuffled game.
pub fn patch_temple_security_station_cutscene_trigger(
    _ps: &mut PatcherState,
    area: &mut MlvlArea,
) -> (r: Result<(), String>)
    ensures
        r is Ok ==> same_shape(*old(area), *final(area)),
{
    deactivate_trigger_anywhere(area, 0x70067)
}

/// The Ridley flyby layer of Phendrana Shorelines is emptied outright.
pub fn patch_ridley_phendrana_shorelines_cinematic(
    _ps: &mut PatcherState,
    area: &mut MlvlArea,
) -> (r: Result<(), String>)
    ensures
        match r {
            Ok(()) => {
                &&& old(area).layers@.len() > 4
                &&& only_layer_changed(*old(area), *final(area), 4)
                &&& final(area).layers@[4].objects@.len() == 0
            },
            Err(_) => old(area).layers@.len() <= 4,
        },
{
    if area.layers.len() <= 4 {
        return Err(String::from_str("area lacks the cinematic layer"));
    }
    let ghost layers0 = area.layers@;
    let mut layer = self_take_layer(area, 4);
    layer.objects = Vec::new();
    self_put_layer(area, 4, layer);
    proof {
        lemma_remove_insert(layers0, 4, final(area).layers@[4]);
    }
    Ok(())
}

/// Remove every instance listed in `ids` from layer `layer`.
pub fn remove_instances_from_layer(
    area: &mut MlvlArea,
    layer: usize,
    ids: &Vec<u32>,
) -> (r: Result<(), String>)
    ensures
        match r {
            Ok(()) => {
                &&& layer < old(area).layers@.len()
                &&& only_layer_changed(*old(area), *final(area), layer as int)
                &&& (forall|i: int|
                    0 <= i < final(area).layers@[layer as int].objects@.len() ==> !ids@.contains(
                        (#[trigger] final(area).layers@[layer as int].objects@[i]).instance_id,
                    ))
                &&& (forall|i: int|
                    0 <= i < final(area).layers@[layer as int].objects@.len()
                        ==> old(area).layers@[layer as int].objects@.contains(
                        #[trigger] final(area).layers@[layer as int].objects@[i],
                    ))
                &&& (forall|i: int|
                    0 <= i < old(area).layers@[layer as int].objects@.len() && !ids@.contains(
                        (#[trigger] old(area).layers@[layer as int].objects@[i]).instance_id,
                    ) ==> final(area).layers@[layer as int].objects@.contains(
                        old(area).layers@[layer as int].objects@[i],
                    ))
            },
            Err(_) => layer >= old(area).layers@.len(),
        },
{
    if layer >= area.layers.len() {
        return Err(String::from_str("layer index out of range"));
    }
    let ghost layers0 = area.layers@;
    let mut old_layer = self_take_layer(area, layer);
    let mut kept: Vec<SclyObject> = Vec::new();
    let ghost src = old_layer.objects@;
    let n = old_layer.objects.len();
    let mut i: usize = 0;
    while old_layer.objects.len() > 0
        invariant
            i <= n,
            n == src.len(),
            old_layer.objects@ == src.subrange(i as int, n as int),
            forall|k: int|
                0 <= k < kept@.len() ==> !ids@.contains((#[trigger] kept@[k]).instance_id),
            forall|k: int| 0 <= k < kept@.len() ==> src.contains(#[trigger] kept@[k]),
            forall|k: int|
                0 <= k < i && !ids@.contains((#[trigger] src[k]).instance_id) ==> kept@.contains(
                    src[k],
                ),
        decreases old_layer.objects@.len(),
    {
        proof {
            assert(old_layer.objects@[0] == src[i as int]);
        }
        let o = old_layer.objects.remove(0);
        proof {
            assert(old_layer.objects@ =~= src.subrange(i as int + 1, n as int));
        }
        let mut found = false;
        let o_id = o.instance_id;
        let mut j: usize = 0;
        while j < ids.len()
            invariant
                j <= ids@.len(),
                found == exists|k: int| 0 <= k < j && ids@[k] == o_id,
            decreases ids@.len() - j,
        {
            if ids[j] == o_id {
                found = true;
            }
            j += 1;
        }
        proof {
            assert(found == ids@.contains(o_id)) by {
                if found {
                    let k = choose|k: int| 0 <= k < ids@.len() && ids@[k] == o_id;
                    assert(ids@[k] == o_id);
                }
                if ids@.contains(o_id) {
                    let k = choose|k: int| 0 <= k < ids@.len() && ids@[k] == o_id;
                    assert(ids@[k] == o_id);
                }
            }
            assert(src[i as int].instance_id == o_id);
        }
        if !found {
            proof {
                assert(!ids@.contains(o_id));
                assert(src.contains(src[i as int]));
            }
            let ghost pre_kept = kept@;
            kept.push(o);
            proof {
                assert forall|k: int| 0 <= k < kept@.len() implies src.contains(
                    #[trigger] kept@[k],
                ) by {
                    if k < pre_kept.len() {
                        assert(kept@[k] == pre_kept[k]);
                    } else {
                        assert(kept@[k] == src[i as int]);
                    }
                }
                assert forall|k: int| 0 <= k < kept@.len() implies !ids@.contains(
                    (#[trigger] kept@[k]).instance_id,
                ) by {
                    if k < pre_kept.len() {
                        assert(kept@[k] == pre_kept[k]);
                    } else {
                        assert(kept@[k] == src[i as int]);
                        assert(kept@[k].instance_id == o_id);
                    }
                }
                assert forall|k: int|
                    0 <= k <= i && !ids@.contains((#[trigger] src[k]).instance_id)
                    implies kept@.contains(src[k]) by {
                    if k < i {
                        let j = choose|j: int| 0 <= j < pre_kept.len() && pre_kept[j] == src[k];
                        assert(kept@[j] == src[k]);
                    } else {
                        assert(kept@[kept@.len() - 1] == src[i as int]);
                    }
                }
            }
        }
        i += 1;
    }
    let new_layer = SclyLayer { objects: kept };
    self_put_layer(area, layer, new_layer);
    proof {
        lemma_remove_insert(layers0, layer as int, final(area).layers@[layer as int]);
    }
    Ok(())
}

/// A revision-specific door lock of Main Quarry is removed.
pub fn patch_main_quarry_door_lock_0_02(_ps: &mut PatcherState, area: &mut MlvlArea) -> (r: Result<
    (),
    String,
>)
    ensures
        r is Ok ==> same_shape(*old(area), *final(area)),
{
    let mut ids: Vec<u32> = Vec::new();
    ids.push(132563);
    remove_instances_from_layer(area, 0, &ids)
}

/// A revision-specific door lock of Geothermal Core is removed.
pub fn patch_geothermal_core_door_lock_0_02(
    _ps: &mut PatcherState,
    area: &mut MlvlArea,
) -> (r: Result<(), String>)
    ensures
        r is Ok ==> same_shape(*old(area), *final(area)),
{
    let mut ids: Vec<u32> = Vec::new();
    ids.push(1311646);
    remove_instances_from_layer(area, 0, &ids)
}

/// The object that turns off the Gravity Chamber stalactite layer is
/// removed, so its grapple point stays available.
pub fn patch_gravity_chamber_stalactite_grapple_point(
    _ps: &mut PatcherState,
    area: &mut MlvlArea,
) -> (r: Result<(), String>)
    ensures
        r is Ok ==> same_shape(*old(area), *final(area)),
{
    let mut ids: Vec<u32> = Vec::new();
    ids.push(3473722);
    remove_instances_from_layer(area, 0, &ids)
}

/// A one-field change to an instance's payload.
#[derive(Clone, Copy, Debug)]
pub enum SimpleEdit {
    ActorActive { active: bool },
    ActorPassthrough { on: bool },
    PlatformActive { active: bool },
    PoiActive { active: bool },
    DamageableTriggerActive { active: bool },
    TriggerActive { active: bool },
    TriggerBounds { position: Vec3, scale: Vec3 },
    PoiRetire {},
    DoorAncs { file_id: u32, unknown: u32, projectiles_collide: bool },
}

/// The payload after a one-field change, or nothing where the payload is of
/// the wrong kind.
pub open spec fn spec_simple_edit(p: SclyProperty, e: SimpleEdit) -> Option<SclyProperty> {
    match e {
        SimpleEdit::ActorActive { active } => match p {
            SclyProperty::Actor(a) => Some(
                SclyProperty::Actor(crate::scly::Actor { active, ..a }),
            ),
            _ => None,
        },
        SimpleEdit::ActorPassthrough { on } => match p {
            SclyProperty::Actor(a) => Some(
                SclyProperty::Actor(crate::scly::Actor { target_passthrough: on, ..a }),
            ),
            _ => None,
        },
        SimpleEdit::PlatformActive { active } => match p {
            SclyProperty::Platform(pl) => Some(
                SclyProperty::Platform(crate::scly::Platform { active, ..pl }),
            ),
            _ => None,
        },
        SimpleEdit::PoiActive { active } => match p {
            SclyProperty::PointOfInterest(poi) => Some(
                SclyProperty::PointOfInterest(crate::scly::PointOfInterest { active, ..poi }),
            ),
            _ => None,
        },
        SimpleEdit::DamageableTriggerActive { active } => match p {
            SclyProperty::DamageableTrigger(dt) => Some(
                SclyProperty::DamageableTrigger(crate::scly::DamageableTrigger { active, ..dt }),
            ),
            _ => None,
        },
        SimpleEdit::TriggerActive { active } => match p {
            SclyProperty::Trigger(t) => Some(SclyProperty::Trigger(Trigger { active, ..t })),
            _ => None,
        },
        SimpleEdit::TriggerBounds { position, scale } => match p {
            SclyProperty::Trigger(t) => Some(
                SclyProperty::Trigger(Trigger { position, scale, ..t }),
            ),
            _ => None,
        },
        SimpleEdit::PoiRetire {  } => match p {
            SclyProperty::PointOfInterest(poi) => Some(
                SclyProperty::PointOfInterest(
                    crate::scly::PointOfInterest { active: false, scan: 0xFFFFFFFF, ..poi },
                ),
            ),
            _ => None,
        },
        SimpleEdit::DoorAncs { file_id, unknown, projectiles_collide } => match p {
            SclyProperty::Door(d) => Some(
                SclyProperty::Door(
                    crate::scly::Door {
                        ancs_file_id: file_id,
                        ancs_unknown: unknown,
                        projectiles_collide,
                        ..d
                    },
                ),
            ),
            _ => None,
        },
    }
}

/// Apply a one-field change to the first instance carrying `instance_id`
/// within layer `layer`. The vanilla layout guarantees the instance and its
/// kind; anything else aborts the run.
pub fn edit_object_in_layer(
    area: &mut MlvlArea,
    layer: usize,
    instance_id: u32,
    e: SimpleEdit,
) -> (r: Result<(), String>)
    ensures
        match r {
            Ok(()) => exists|i: int, o: SclyObject|
                {
                    let o0 = old(area).layers@[layer as int].objects@[i];
                    &&& layer < old(area).layers@.len()
                    &&& spec_find_object(
                        old(area).layers@[layer as int].objects@,
                        instance_id,
                    ) == Some(i)
                    &&& #[trigger] object_updated(*old(area), *final(area), layer as int, i, o)
                    &&& o.instance_id == o0.instance_id
                    &&& o.connections == o0.connections
                    &&& Some(o.property_data) == spec_simple_edit(o0.property_data, e)
                },
            Err(_) => {
                ||| layer >= old(area).layers@.len()
                ||| spec_find_object(old(area).layers@[layer as int].objects@, instance_id)
                    is None
                ||| {
                    &&& spec_find_object(
                        old(area).layers@[layer as int].objects@,
                        instance_id,
                    ) matches Some(i)
                    &&& spec_simple_edit(
                        old(area).layers@[layer as int].objects@[i].property_data,
                        e,
                    ) is None
                }
            },
        },
{
    if layer >= area.layers.len() {
        return Err(String::from_str("layer index out of range"));
    }
    let i = match find_object_idx(&area.layers[layer].objects, instance_id) {
        Some(i) => i,
        None => {
            proof {
                lemma_find_object_none(area.layers@[layer as int].objects@, instance_id);
            }
            return Err(String::from_str("expected instance is absent"));
        },
    };
    proof {
        lemma_find_object_agrees(area.layers@[layer as int].objects@, instance_id, i as int);
    }
    let ghost layers0 = area.layers@;
    let mut lay = self_take_layer(area, layer);
    let ghost objs0 = lay.objects@;
    let mut o = lay.objects.remove(i);
    let p0 = o.property_data;
    let p1 = match apply_simple_edit_exec(p0, e) {
        Ok(p1) => p1,
        Err(p0) => {
            o.property_data = p0;
            lay.objects.insert(i, o);
            self_put_layer(area, layer, lay);
            return Err(String::from_str("expected instance has the wrong kind"));
        },
    };
    o.property_data = p1;
    lay.objects.insert(i, o);
    proof {
        lemma_remove_insert(objs0, i as int, lay.objects@[i as int]);
    }
    self_put_layer(area, layer, lay);
    proof {
        lemma_remove_insert(layers0, layer as int, final(area).layers@[layer as int]);
        let o2 = final(area).layers@[layer as int].objects@[i as int];
        assert(object_updated(*old(area), *final(area), layer as int, i as int, o2));
    }
    Ok(())
}

/// The executable form of [`spec_simple_edit`]; hands the payload back
/// unchanged when the kinds do not match.
fn apply_simple_edit_exec(p: SclyProperty, e: SimpleEdit) -> (r: Result<SclyProperty, SclyProperty>)
    ensures
        match r {
            Ok(p1) => Some(p1) == spec_simple_edit(p, e),
            Err(p0) => p0 == p && spec_simple_edit(p, e) is None,
        },
{
    match e {
        SimpleEdit::ActorActive { active } => match p {
            SclyProperty::Actor(mut a) => {
                a.active = active;
                Ok(SclyProperty::Actor(a))
            },
            other => Err(other),
        },
        SimpleEdit::ActorPassthrough { on } => match p {
            SclyProperty::Actor(mut a) => {
                a.target_passthrough = on;
                Ok(SclyProperty::Actor(a))
            },
            other => Err(other),
        },
        SimpleEdit::PlatformActive { active } => match p {
            SclyProperty::Platform(mut pl) => {
                pl.active = active;
                Ok(SclyProperty::Platform(pl))
            },
            other => Err(other),
        },
        SimpleEdit::PoiActive { active } => match p {
            SclyProperty::PointOfInterest(mut poi) => {
                poi.active = active;
                Ok(SclyProperty::PointOfInterest(poi))
            },
            other => Err(other),
        },
        SimpleEdit::DamageableTriggerActive { active } => match p {
            SclyProperty::DamageableTrigger(mut dt) => {
                dt.active = active;
                Ok(SclyProperty::DamageableTrigger(dt))
            },
            other => Err(other),
        },
        SimpleEdit::TriggerActive { active } => match p {
            SclyProperty::Trigger(mut t) => {
                t.active = active;
                Ok(SclyProperty::Trigger(t))
            },
            other => Err(other),
        },
        SimpleEdit::TriggerBounds { position, scale } => match p {
            SclyProperty::Trigger(mut t) => {
                t.position = position;
                t.scale = scale;
                Ok(SclyProperty::Trigger(t))
            },
            other => Err(other),
        },
        SimpleEdit::PoiRetire {  } => match p {
            SclyProperty::PointOfInterest(mut poi) => {
                poi.active = false;
                poi.scan = 0xFFFFFFFF;
                Ok(SclyProperty::PointOfInterest(poi))
            },
            other => Err(other),
        },
        SimpleEdit::DoorAncs { file_id, unknown, projectiles_collide } => match p {
            SclyProperty::Door(mut d) => {
                d.ancs_file_id = file_id;
                d.ancs_unknown = unknown;
                d.projectiles_collide = projectiles_collide;
                Ok(SclyProperty::Door(d))
            },
            other => Err(other),
        },
    }
}

/// Append one connection to the first instance carrying `instance_id`
/// within layer `layer`.
pub fn add_connection_in_layer(
    area: &mut MlvlArea,
    layer: usize,
    instance_id: u32,
    conn: Connection,
) -> (r: Result<(), String>)
    ensures
        match r {
            Ok(()) => exists|i: int, o: SclyObject|
                {
                    let o0 = old(area).layers@[layer as int].objects@[i];
                    &&& layer < old(area).layers@.len()
                    &&& spec_find_object(
                        old(area).layers@[layer as int].objects@,
                        instance_id,
                    ) == Some(i)
                    &&& #[trigger] object_updated(*old(area), *final(area), layer as int, i, o)
                    &&& o.instance_id == o0.instance_id
                    &&& o.property_data == o0.property_data
                    &&& o.connections@ == o0.connections@.push(conn)
                },
            Err(_) => {
                ||| layer >= old(area).layers@.len()
                ||| spec_find_object(old(area).layers@[layer as int].objects@, instance_id)
                    is None
            },
        },
{
    if layer >= area.layers.len() {
        return Err(String::from_str("layer index out of range"));
    }
    let i = match find_object_idx(&area.layers[layer].objects, instance_id) {
        Some(i) => i,
        None => {
            proof {
                lemma_find_object_none(area.layers@[layer as int].objects@, instance_id);
            }
            return Err(String::from_str("expected instance is absent"));
        },
    };
    proof {
        lemma_find_object_agrees(area.layers@[layer as int].objects@, instance_id, i as int);
    }
    add_connection_at(area, layer, i, conn);
    Ok(())
}

/// Append a freshly-built object to layer `layer`.
pub fn push_object_to_layer(area: &mut MlvlArea, layer: usize, o: SclyObject) -> (r: Result<
    (),
    String,
>)
    ensures
        match r {
            Ok(()) => object_appended(*old(area), *final(area), layer as int, o),
            Err(_) => layer >= old(area).layers@.len(),
        },
{
    if layer >= area.layers.len() {
        return Err(String::from_str("layer index out of range"));
    }
    push_object(area, layer, o);
    Ok(())
}

/// The Research Lab Hydra barrier becomes targetable through.
pub fn patch_research_lab_hydra_barrier(_ps: &mut PatcherState, area: &mut MlvlArea) -> (r: Result<
    (),
    String,
>)
    ensures
        r is Ok ==> same_shape(*old(area), *final(area)),
{
    edit_object_in_layer(area, 3, 202965810, SimpleEdit::ActorPassthrough { on: true })
}

/// The Hive Totem fight trigger is moved and widened so the room stays
/// completable when approached in reverse.
pub fn patch_hive_totem_boss_trigger_0_02(_ps: &mut PatcherState, area: &mut MlvlArea) -> (r:
    Result<(), String>)
    ensures
        r is Ok ==> same_shape(*old(area), *final(area)),
{
    edit_object_in_layer(
        area,
        1,
        0x4240140,
        SimpleEdit::TriggerBounds {
            position: Vec3 { x: 94571, y: 301616, z: 345 },
            scale: Vec3 { x: 6053, y: 24660, z: 7878 },
        },
    )
}

/// The Ruined Courtyard thermal conduits are active from the first visit.
pub fn patch_ruined_courtyard_thermal_conduits_0_02(
    _ps: &mut PatcherState,
    area: &mut MlvlArea,
) -> (r: Result<(), String>)
    ensures
        r is Ok ==> same_shape(*old(area), *final(area)),
{
    let r1 = edit_object_in_layer(area, 0, 0xF01C7, SimpleEdit::ActorActive { active: true });
    if let Err(e) = r1 {
        return Err(e);
    }
    edit_object_in_layer(area, 0, 0xF01C8, SimpleEdit::DamageableTriggerActive { active: true })
}

/// The pal-revision destructible rock of Geothermal Core starts removed.
pub fn patch_geothermal_core_destructible_rock_pal(
    _ps: &mut PatcherState,
    area: &mut MlvlArea,
) -> (r: Result<(), String>)
    ensures
        r is Ok ==> same_shape(*old(area), *final(area)),
{
    let r1 = edit_object_in_layer(area, 0, 0x1403AE, SimpleEdit::PlatformActive { active: false });
    if let Err(e) = r1 {
        return Err(e);
    }
    edit_object_in_layer(area, 0, 0x1403B4, SimpleEdit::PoiActive { active: false })
}

/// The pal-revision destructible rock of Ore Processing starts removed.
pub fn patch_ore_processing_destructible_rock_pal(
    _ps: &mut PatcherState,
    area: &mut MlvlArea,
) -> (r: Result<(), String>)
    ensures
        r is Ok ==> same_shape(*old(area), *final(area)),
{
    let r1 = edit_object_in_layer(area, 0, 0x60372, SimpleEdit::PlatformActive { active: false });
    if let Err(e) = r1 {
        return Err(e);
    }
    edit_object_in_layer(area, 0, 0x60378, SimpleEdit::PoiActive { active: false })
}

/// The pal-revision locked-door actor of Main Quarry starts hidden.
pub fn patch_main_quarry_door_lock_pal(_ps: &mut PatcherState, area: &mut MlvlArea) -> (r: Result<
    (),
    String,
>)
    ensures
        r is Ok ==> same_shape(*old(area), *final(area)),
{
    edit_object_in_layer(area, 7, 0x1c0205db, SimpleEdit::ActorActive { active: false })
}

/// Killing every pirate in the Mines Security Station also disables the
/// trigger that could re-lock the room.
pub fn patch_mines_security_station_soft_lock(
    _ps: &mut PatcherState,
    area: &mut MlvlArea,
) -> (r: Result<(), String>)
    ensures
        r is Ok ==> same_shape(*old(area), *final(area)),
{
    add_connection_in_layer(
        area,
        0,
        460074,
        Connection {
            state: ConnectionState::MaxReached,
            message: ConnectionMsg::Deactivate,
            target_object_id: 67568447,
        },
    )
}

/// The ending scene jumps straight to the credits.
pub fn patch_ending_scene_straight_to_credits(
    _ps: &mut PatcherState,
    area: &mut MlvlArea,
) -> (r: Result<(), String>)
    ensures
        r is Ok ==> same_shape(*old(area), *final(area)),
{
    add_connection_in_layer(
        area,
        0,
        1103,
        Connection {
            state: ConnectionState::Entered,
            message: ConnectionMsg::Action,
            target_object_id: 1241,
        },
    )
}

/// Both dead-pirate counters of the Observatory count toward the puzzle on
/// a second pass.
pub fn patch_observatory_2nd_pass_solvablility(
    _ps: &mut PatcherState,
    area: &mut MlvlArea,
) -> (r: Result<(), String>)
    ensures
        r is Ok ==> same_shape(*old(area), *final(area)),
{
    let conn = Connection {
        state: ConnectionState::DeathRattle,
        message: ConnectionMsg::Increment,
        target_object_id: 0x1E02EA,
    };
    let r1 = add_connection_in_layer(area, 2, 0x81E0460, conn);
    if let Err(e) = r1 {
        return Err(e);
    }
    add_connection_in_layer(area, 2, 0x81E0461, conn)
}

/// A second trigger opens the Main Ventilation Shaft Section B door from
/// behind, so the room cannot trap the player.
pub fn patch_main_ventilation_shaft_section_b_door(
    ps: &mut PatcherState,
    area: &mut MlvlArea,
) -> (r: Result<(), String>)
    requires
        old(ps).fresh_instance_id_range.next < u32::MAX,
    ensures
        r is Ok ==> same_shape(*old(area), *final(area)),
        final(ps).fresh_instance_id_range.next >= old(ps).fresh_instance_id_range.next,
{
    let id = ps.fresh_instance_id_range.fresh();
    let mut conns: Vec<Connection> = Vec::new();
    conns.push(
        Connection {
            state: ConnectionState::Inside,
            message: ConnectionMsg::SetToZero,
            target_object_id: 1376367,
        },
    );
    let o = SclyObject {
        instance_id: id,
        property_data: SclyProperty::Trigger(
            Trigger {
                name: String::from_str("Trigger_DoorOpen-component"),
                position: Vec3 { x: 31232, y: 442691, z: -64205 },
                scale: Vec3 { x: 6000, y: 17000, z: 6000 },
                active: true,
            },
        ),
        connections: conns,
    };
    push_object_to_layer(area, 0, o)
}

/// The Sunchamber layer-change trigger moves to the layer that only loads
/// once Flaahgra is dead, so the overgrown revisit cannot start early.
pub fn patch_sun_tower_prevent_wild_before_flaahgra(
    _ps: &mut PatcherState,
    area: &mut MlvlArea,
) -> (r: Result<(), String>)
    ensures
        r is Ok ==> exists|i: int|
            {
                &&& spec_find_object(old(area).layers@[0].objects@, 0x001d015b) == Some(i)
                &&& final(area).layers@.len() == old(area).layers@.len()
                &&& final(area).layers@[0].objects@ == old(area).layers@[0].objects@.remove(i)
                &&& final(area).layers@[1].objects@ == seq![
                    old(area).layers@[0].objects@[i],
                ]
                &&& (forall|k: int|
                    2 <= k < old(area).layers@.len() ==> final(area).layers@[k]
                        == old(area).layers@[k])
            },
        r is Err ==> {
            ||| old(area).layers@.len() < 2
            ||| spec_find_object(old(area).layers@[0].objects@, 0x001d015b) is None
        },
{
    if area.layers.len() < 2 {
        return Err(String::from_str("area lacks the expected layers"));
    }
    let i = match find_object_idx(&area.layers[0].objects, 0x001d015b) {
        Some(i) => i,
        None => {
            proof {
                lemma_find_object_none(area.layers@[0].objects@, 0x001d015b);
            }
            return Err(String::from_str("expected instance is absent"));
        },
    };
    proof {
        lemma_find_object_agrees(area.layers@[0].objects@, 0x001d015b, i as int);
    }
    let mut layer0 = self_take_layer(area, 0);
    let moved = layer0.objects.remove(i);
    self_put_layer(area, 0, layer0);
    let mut layer1 = self_take_layer(area, 1);
    layer1.objects = Vec::new();
    layer1.objects.push(moved);
    self_put_layer(area, 1, layer1);
    proof {
        assert(final(area).layers@[1].objects@ =~= seq![
            old(area).layers@[0].objects@[i as int],
        ]);
    }
    Ok(())
}

/// A layer-change function in the Sunchamber re-enables the Sun Tower
/// trigger only once Flaahgra's death relay fires.
pub fn patch_sunchamber_prevent_wild_before_flaahgra(
    ps: &mut PatcherState,
    area: &mut MlvlArea,
) -> (r: Result<(), String>)
    requires
        old(ps).fresh_instance_id_range.next < u32::MAX,
    ensures
        r is Ok ==> same_shape(*old(area), *final(area)),
{
    let enable_id = ps.fresh_instance_id_range.fresh();
    let o = SclyObject {
        instance_id: enable_id,
        connections: Vec::new(),
        property_data: SclyProperty::SpecialFunction(
            SpecialFunction {
                name: String::from_str("Enable Sun Tower Layer Change Trigger"),
                type_code: 16,
                layer_change_room_id: 0xcf4c7aa5,
                layer_change_layer_id: 1,
                item_id: 0,
            },
        ),
    };
    let r1 = push_object_to_layer(area, 1, o);
    if let Err(e) = r1 {
        return Err(e);
    }
    add_connection_in_layer(
        area,
        1,
        0x42500D4,
        Connection {
            state: ConnectionState::Zero,
            message: ConnectionMsg::Increment,
            target_object_id: enable_id,
        },
    )
}

/// A layer-change function lets the Research Core wall be removed once the
/// adjoining lab's wall has exploded.
pub fn patch_research_lab_aether_exploding_wall(
    ps: &mut PatcherState,
    area: &mut MlvlArea,
) -> (r: Result<(), String>)
    requires
        old(ps).fresh_instance_id_range.next < u32::MAX,
    ensures
        r is Ok ==> same_shape(*old(area), *final(area)),
{
    let id = ps.fresh_instance_id_range.fresh();
    let r1 = add_connection_in_layer(
        area,
        0,
        2622568,
        Connection {
            state: ConnectionState::Zero,
            message: ConnectionMsg::Decrement,
            target_object_id: id,
        },
    );
    if let Err(e) = r1 {
        return Err(e);
    }
    let o = SclyObject {
        instance_id: id,
        connections: Vec::new(),
        property_data: SclyProperty::SpecialFunction(
            SpecialFunction {
                name: String::from_str("SpecialFunction - Remove Research Lab Aether wall"),
                type_code: 16,
                layer_change_room_id: 0x354889CE,
                layer_change_layer_id: 3,
                item_id: 0,
            },
        ),
    };
    push_object_to_layer(area, 0, o)
}

/// The frigate escape teleporter is pointed at the chosen spawn room.
pub fn patch_frigate_teleporter(area: &mut MlvlArea, mlvl: u32, mrea: u32) -> (r: Result<
    (),
    String,
>)
    ensures
        r is Ok ==> same_shape(*old(area), *final(area)),
{
    let mut l: usize = 0;
    while l < area.layers.len()
        invariant
            l <= area.layers@.len(),
            same_shape(*old(area), *area),
        decreases area.layers@.len() - l,
    {
        let mut i: usize = 0;
        let n = area.layers[l].objects.len();
        while i < n
            invariant
                l < area.layers@.len(),
                n == area.layers@[l as int].objects@.len(),
                i <= n,
                same_shape(*old(area), *area),
            decreases n - i,
        {
            let is_wt = match &area.layers[l].objects[i].property_data {
                SclyProperty::WorldTransporter(_) => true,
                _ => false,
            };
            if is_wt {
                let ghost layers0 = area.layers@;
                let mut lay = self_take_layer(area, l);
                let ghost objs0 = lay.objects@;
                let mut o = lay.objects.remove(i);
                match o.property_data {
                    SclyProperty::WorldTransporter(mut wt) => {
                        wt.mlvl = mlvl;
                        wt.mrea = mrea;
                        o.property_data = SclyProperty::WorldTransporter(wt);
                    },
                    other => {
                        o.property_data = other;
                    },
                }
                lay.objects.insert(i, o);
                proof {
                    lemma_remove_insert(objs0, i as int, lay.objects@[i as int]);
                }
                self_put_layer(area, l, lay);
                proof {
                    lemma_remove_insert(layers0, l as int, area.layers@[l as int]);
                }
                return Ok(());
            }
            i += 1;
        }
        l += 1;
    }
    Err(String::from_str("no transporter found in area"))
}

/// Repoint one elevator of the area: new destination, muted travel sound,
/// and optionally the shrunken traveler model.
pub fn set_transporter_dest(
    area: &mut MlvlArea,
    scly_id: u32,
    mlvl: u32,
    mrea: u32,
    tiny_samus: bool,
) -> (r: Result<(), String>)
    ensures
        same_shape(*old(area), *final(area)),
{
    let mut l: usize = 0;
    while l < area.layers.len()
        invariant
            l <= area.layers@.len(),
            same_shape(*old(area), *area),
        decreases area.layers@.len() - l,
    {
        match find_object_idx(&area.layers[l].objects, scly_id) {
            Some(i) => {
                let ghost layers0 = area.layers@;
                let mut lay = self_take_layer(area, l);
                let ghost objs0 = lay.objects@;
                let mut o = lay.objects.remove(i);
                match o.property_data {
                    SclyProperty::WorldTransporter(mut wt) => {
                        wt.mlvl = mlvl;
                        wt.mrea = mrea;
                        wt.volume = 0;
                        if tiny_samus {
                            wt.player_scale = Vec3 { x: 330, y: 330, z: 330 };
                        }
                        o.property_data = SclyProperty::WorldTransporter(wt);
                    },
                    other => {
                        o.property_data = other;
                        lay.objects.insert(i, o);
                        self_put_layer(area, l, lay);
                        return Err(String::from_str("elevator instance is not a transporter"));
                    },
                }
                lay.objects.insert(i, o);
                proof {
                    lemma_remove_insert(objs0, i as int, lay.objects@[i as int]);
                }
                self_put_layer(area, l, lay);
                proof {
                    lemma_remove_insert(layers0, l as int, area.layers@[l as int]);
                }
                return Ok(());
            },
            None => {},
        }
        l += 1;
    }
    Ok(())
}

/// The Elite Research fight prerequisites: turn on the third-pass bustout
/// layer and turn off the dummy elite.
pub fn patch_elite_research_flags(area: &mut MlvlArea) -> (r: Result<(), String>)
    ensures
        r is Ok ==> {
            &&& final(area).layer_flags == (old(area).layer_flags | 2u32) & !(1u32 << 5)
            &&& final(area).layers == old(area).layers
        },
{
    area.layer_flags = (area.layer_flags | 2u32) & !(1u32 << 5);
    Ok(())
}

/// A pickup as configured, or disguised as "Nothing" when item obfuscation
/// is on: the disguised form keeps the real item's identity and counts but
/// borrows the Nothing model.
#[derive(Clone, Copy, Debug)]
pub enum MaybeObfuscatedPickup {
    Unobfuscated(PickupType),
    Obfuscated(PickupType),
}

impl MaybeObfuscatedPickup {
    pub open spec fn spec_orig(self) -> PickupType {
        match self {
            MaybeObfuscatedPickup::Unobfuscated(pt) => pt,
            MaybeObfuscatedPickup::Obfuscated(pt) => pt,
        }
    }

    pub fn orig(&self) -> (r: PickupType)
        ensures
            r == self.spec_orig(),
    {
        match self {
            MaybeObfuscatedPickup::Unobfuscated(pt) => *pt,
            MaybeObfuscatedPickup::Obfuscated(pt) => *pt,
        }
    }

    /// An obfuscated pickup pulls in the Nothing model's dependencies.
    pub fn dependencies<'a>(&self, table: &'a PickupTable) -> (r: &'a Vec<ResKey>)
        requires
            table.complete(),
        ensures
            *r == match self {
                MaybeObfuscatedPickup::Unobfuscated(pt) => table.entries@[pt.spec_idx()].dependencies,
                MaybeObfuscatedPickup::Obfuscated(_) => table.entries@[PickupType::Nothing.spec_idx()].dependencies,
            },
    {
        match self {
            MaybeObfuscatedPickup::Unobfuscated(pt) => &table.get(*pt).dependencies,
            MaybeObfuscatedPickup::Obfuscated(_) => &table.get(PickupType::Nothing).dependencies,
        }
    }

    pub fn hudmemo_strg(&self, table: &PickupTable) -> (r: u32)
        requires
            table.complete(),
        ensures
            r == table.entries@[self.spec_orig().spec_idx()].hudmemo_strg,
    {
        table.get(self.orig()).hudmemo_strg
    }

    pub fn skip_hudmemos_strg(&self) -> (r: u32)
        ensures
            r == ids::SKIP_HUDMEMO_STRG_START + self.spec_orig().spec_idx(),
    {
        self.orig().skip_hudmemos_strg()
    }

    pub fn attainment_audio_file_name(&self, table: &PickupTable) -> (r: String)
        requires
            table.complete(),
        ensures
            r@ == table.entries@[self.spec_orig().spec_idx()].attainment_audio_file_name@,
    {
        let s: &String = &table.get(self.orig()).attainment_audio_file_name;
        String::from_str(s.as_str())
    }

    /// The template instance written over the location: the real item's
    /// identity and counts, wearing the Nothing model when obfuscated.
    pub fn pickup_data(&self, table: &PickupTable) -> (r: crate::scly::Pickup)
        requires
            table.complete(),
        ensures
            r == self.spec_pickup_data(*table),
    {
        match self {
            MaybeObfuscatedPickup::Unobfuscated(pt) => clone_pickup(&table.get(*pt).pickup),
            MaybeObfuscatedPickup::Obfuscated(pt) => {
                let original = table.get(*pt);
                let mut p = clone_pickup(&table.get(PickupType::Nothing).pickup);
                p.name = original.pickup.name.clone();
                p.kind = original.pickup.kind;
                p.max_increase = original.pickup.max_increase;
                p.curr_increase = original.pickup.curr_increase;
                p
            },
        }
    }

    pub open spec fn spec_pickup_data(self, table: PickupTable) -> crate::scly::Pickup {
        match self {
            MaybeObfuscatedPickup::Unobfuscated(pt) => table.entries@[pt.spec_idx()].pickup,
            MaybeObfuscatedPickup::Obfuscated(pt) => crate::scly::Pickup {
                name: table.entries@[pt.spec_idx()].pickup.name,
                kind: table.entries@[pt.spec_idx()].pickup.kind,
                max_increase: table.entries@[pt.spec_idx()].pickup.max_increase,
                curr_increase: table.entries@[pt.spec_idx()].pickup.curr_increase,
                ..table.entries@[PickupType::Nothing.spec_idx()].pickup
            },
        }
    }
}

/// An exact copy of a pickup template.
fn clone_pickup(p: &crate::scly::Pickup) -> (r: crate::scly::Pickup)
    ensures
        r == *p,
{
    crate::scly::Pickup {
        name: p.name.clone(),
        position: p.position,
        scan_offset: p.scan_offset,
        hitbox: p.hitbox,
        kind: p.kind,
        max_increase: p.max_increase,
        curr_increase: p.curr_increase,
        cmdl: p.cmdl,
        ancs_file_id: p.ancs_file_id,
        fade_in_timer_ms: p.fade_in_timer_ms,
        spawn_delay_ms: p.spawn_delay_ms,
        active: p.active,
    }
}

/// The script object that flips an artifact layer of the Artifact Temple
/// when its artifact is collected.
pub fn artifact_layer_change_template(instance_id: u32, pickup_kind: u32) -> (o: SclyObject)
    requires
        29 <= pickup_kind <= 40,
    ensures
        o.instance_id == instance_id,
        o.connections@.len() == 0,
        o.property_data matches SclyProperty::SpecialFunction(sf) && sf.type_code == 16
            && sf.layer_change_room_id == 0xCD2B0EA2 && sf.layer_change_layer_id == (
        if pickup_kind > 29 {
            (pickup_kind - 28) as u32
        } else {
            ARTIFACT_OF_TRUTH_REQ_LAYER
        }),
{
    let layer = if pickup_kind > 29 {
        pickup_kind - 28
    } else {
        ARTIFACT_OF_TRUTH_REQ_LAYER
    };
    SclyObject {
        instance_id,
        connections: Vec::new(),
        property_data: SclyProperty::SpecialFunction(
            SpecialFunction {
                name: String::from_str("Artifact Layer Switch"),
                type_code: 16,
                layer_change_room_id: 0xCD2B0EA2,
                layer_change_layer_id: layer,
                item_id: 0,
            },
        ),
    }
}

/// The relay fired after a pickup is collected, for cutscene skipping.
pub fn post_pickup_relay_template(instance_id: u32, connections: &Vec<Connection>) -> (o:
    SclyObject)
    ensures
        o.instance_id == instance_id,
        o.connections@ == connections@,
        o.property_data matches SclyProperty::Relay(r2) && r2.active,
{
    let mut conns: Vec<Connection> = Vec::new();
    let mut i: usize = 0;
    while i < connections.len()
        invariant
            i <= connections@.len(),
            conns@ == connections@.subrange(0, i as int),
        decreases connections@.len() - i,
    {
        conns.push(connections[i]);
        proof {
            assert(conns@ =~= connections@.subrange(0, i as int + 1));
        }
        i += 1;
    }
    proof {
        assert(connections@.subrange(0, connections@.len() as int) =~= connections@);
    }
    SclyObject {
        instance_id,
        connections: conns,
        property_data: SclyProperty::Relay(
            Relay { name: String::from_str("Randomizer Post Pickup Relay"), active: true },
        ),
    }
}

/// Replace the vanilla pickup payload: the new item's template, shifted so
/// the model's center sits where the old model's center sat, while the
/// location's own hitbox, timing and activation carry over.
/// The recentering shift keeps every coordinate representable.
pub open spec fn spec_pickup_shift_fits(orig: crate::scly::Pickup, delta: Vec3) -> bool {
    &&& i32::MIN <= orig.position.x - delta.x <= i32::MAX
    &&& i32::MIN <= orig.position.y - delta.y <= i32::MAX
    &&& i32::MIN <= orig.position.z - delta.z <= i32::MAX
    &&& i32::MIN <= orig.scan_offset.x + delta.x <= i32::MAX
    &&& i32::MIN <= orig.scan_offset.y + delta.y <= i32::MAX
    &&& i32::MIN <= orig.scan_offset.z + delta.z <= i32::MAX
}

pub fn update_pickup(obj: &mut SclyObject, template: &crate::scly::Pickup, delta: Vec3) -> (r:
    Result<(), String>)
    ensures
        final(obj).instance_id == old(obj).instance_id,
        final(obj).connections == old(obj).connections,
        r is Ok <==> (old(obj).property_data matches SclyProperty::Pickup(orig)
            && spec_pickup_shift_fits(orig, delta)),
        match r {
            Ok(()) => {
                &&& old(obj).property_data is Pickup
                &&& final(obj).property_data matches SclyProperty::Pickup(p) && {
                    let orig = old(obj).property_data->Pickup_0;
                    &&& p.position.x == orig.position.x - delta.x
                    &&& p.position.y == orig.position.y - delta.y
                    &&& p.position.z == orig.position.z - delta.z
                    &&& p.scan_offset.x == orig.scan_offset.x + delta.x
                    &&& p.scan_offset.y == orig.scan_offset.y + delta.y
                    &&& p.scan_offset.z == orig.scan_offset.z + delta.z
                    &&& p.hitbox == orig.hitbox
                    &&& p.fade_in_timer_ms == orig.fade_in_timer_ms
                    &&& p.spawn_delay_ms == orig.spawn_delay_ms
                    &&& p.active == orig.active
                    &&& p.kind == template.kind
                    &&& p.cmdl == template.cmdl
                    &&& p.ancs_file_id == template.ancs_file_id
                    &&& p.max_increase == template.max_increase
                    &&& p.curr_increase == template.curr_increase
                    &&& p.name@ == template.name@
                }
            },
            Err(_) => final(obj).property_data == old(obj).property_data,
        },
{
    let p0 = core_take_property(obj);
    match p0 {
        SclyProperty::Pickup(orig) => {
            let px = match checked_sub_i32(orig.position.x, delta.x) {
                Some(v) => v,
                None => {
                    obj.property_data = SclyProperty::Pickup(orig);
                    return Err(String::from_str("pickup offset out of range"));
                },
            };
            let py = match checked_sub_i32(orig.position.y, delta.y) {
                Some(v) => v,
                None => {
                    obj.property_data = SclyProperty::Pickup(orig);
                    return Err(String::from_str("pickup offset out of range"));
                },
            };
            let pz = match checked_sub_i32(orig.position.z, delta.z) {
                Some(v) => v,
                None => {
                    obj.property_data = SclyProperty::Pickup(orig);
                    return Err(String::from_str("pickup offset out of range"));
                },
            };
            let sx = match checked_add_i32(orig.scan_offset.x, delta.x) {
                Some(v) => v,
                None => {
                    obj.property_data = SclyProperty::Pickup(orig);
                    return Err(String::from_str("pickup offset out of range"));
                },
            };
            let sy = match checked_add_i32(orig.scan_offset.y, delta.y) {
                Some(v) => v,
                None => {
                    obj.property_data = SclyProperty::Pickup(orig);
                    return Err(String::from_str("pickup offset out of range"));
                },
            };
            let sz = match checked_add_i32(orig.scan_offset.z, delta.z) {
                Some(v) => v,
                None => {
                    obj.property_data = SclyProperty::Pickup(orig);
                    return Err(String::from_str("pickup offset out of range"));
                },
            };
            let p = crate::scly::Pickup {
                position: Vec3 { x: px, y: py, z: pz },
                scan_offset: Vec3 { x: sx, y: sy, z: sz },
                hitbox: orig.hitbox,
                fade_in_timer_ms: orig.fade_in_timer_ms,
                spawn_delay_ms: orig.spawn_delay_ms,
                active: orig.active,
                ..clone_pickup(template)
            };
            obj.property_data = SclyProperty::Pickup(p);
            Ok(())
        },
        other => {
            obj.property_data = other;
            Err(String::from_str("location does not hold a pickup"))
        },
    }
}

/// `a - b` when it fits in the type.
fn checked_sub_i32(a: i32, b: i32) -> (r: Option<i32>)
    ensures
        r matches Some(v) ==> v == a - b,
        r is None ==> !(i32::MIN <= a - b <= i32::MAX),
{
    let wide: i64 = (a as i64) - (b as i64);
    if wide < i32::MIN as i64 || wide > i32::MAX as i64 {
        Option::None
    } else {
        Option::Some(wide as i32)
    }
}

/// `a + b` when it fits in the type.
fn checked_add_i32(a: i32, b: i32) -> (r: Option<i32>)
    ensures
        r matches Some(v) ==> v == a + b,
        r is None ==> !(i32::MIN <= a + b <= i32::MAX),
{
    let wide: i64 = (a as i64) + (b as i64);
    if wide < i32::MIN as i64 || wide > i32::MAX as i64 {
        Option::None
    } else {
        Option::Some(wide as i32)
    }
}

/// Detach an object's payload for rebuilding.
fn core_take_property(obj: &mut SclyObject) -> (p: SclyProperty)
    ensures
        p == old(obj).property_data,
        final(obj).instance_id == old(obj).instance_id,
        final(obj).connections == old(obj).connections,
{
    let mut tmp = SclyProperty::Other(0);
    core::mem::swap(&mut tmp, &mut obj.property_data);
    tmp
}

/// Repoint the location's acquisition popup at the right string table: the
/// quick non-modal form when popups are skipped, the modal one otherwise.
pub fn update_hudmemo(
    obj: &mut SclyObject,
    strg: u32,
    skip_hudmenus: bool,
    always_modal: bool,
) -> (r: Result<(), String>)
    ensures
        final(obj).instance_id == old(obj).instance_id,
        final(obj).connections == old(obj).connections,
        match r {
            Ok(()) => {
                &&& old(obj).property_data is HudMemo
                &&& final(obj).property_data matches SclyProperty::HudMemo(h) && {
                    let orig = old(obj).property_data->HudMemo_0;
                    &&& h.strg == strg
                    &&& (skip_hudmenus && !always_modal ==> h.first_message_timer_ms == 5000
                        && h.memo_type == 0)
                    &&& (!(skip_hudmenus && !always_modal)
                        ==> h.first_message_timer_ms == orig.first_message_timer_ms
                        && h.memo_type == orig.memo_type)
                }
            },
            Err(_) => {
                &&& !(old(obj).property_data is HudMemo)
                &&& final(obj).property_data == old(obj).property_data
            },
        },
{
    let p0 = core_take_property(obj);
    match p0 {
        SclyProperty::HudMemo(mut h) => {
            if skip_hudmenus && !always_modal {
                h.first_message_timer_ms = 5000;
                h.memo_type = 0;
            }
            h.strg = strg;
            obj.property_data = SclyProperty::HudMemo(h);
            Ok(())
        },
        other => {
            obj.property_data = other;
            Err(String::from_str("location does not hold a hudmemo"))
        },
    }
}

/// Repoint the location's acquisition jingle at the right stream.
pub fn update_attainment_audio(obj: &mut SclyObject, file_name: &String) -> (r: Result<
    (),
    String,
>)
    ensures
        final(obj).instance_id == old(obj).instance_id,
        final(obj).connections == old(obj).connections,
        match r {
            Ok(()) => {
                &&& old(obj).property_data is StreamedAudio
                &&& final(obj).property_data matches SclyProperty::StreamedAudio(a)
                    && a.audio_file_name@ == file_name@
            },
            Err(_) => {
                &&& !(old(obj).property_data is StreamedAudio)
                &&& final(obj).property_data == old(obj).property_data
            },
        },
{
    let p0 = core_take_property(obj);
    match p0 {
        SclyProperty::StreamedAudio(mut a) => {
            a.audio_file_name = String::from_str(file_name.as_str());
            obj.property_data = SclyProperty::StreamedAudio(a);
            Ok(())
        },
        other => {
            obj.property_data = other;
            Err(String::from_str("location does not hold an audio stream"))
        },
    }
}

/// Take an object out of a layer by position.
fn take_object_at(area: &mut MlvlArea, l: usize, i: usize) -> (o: SclyObject)
    requires
        l < old(area).layers@.len(),
        i < old(area).layers@[l as int].objects@.len(),
    ensures
        o == old(area).layers@[l as int].objects@[i as int],
        same_shape_but_layer(*old(area), *final(area), l as int),
        final(area).layers@[l as int].objects@ == old(area).layers@[l as int].objects@.remove(
            i as int,
        ),
{
    let ghost layers0 = area.layers@;
    let mut lay = self_take_layer(area, l);
    let o = lay.objects.remove(i);
    self_put_layer(area, l, lay);
    proof {
        lemma_remove_insert(layers0, l as int, final(area).layers@[l as int]);
    }
    o
}

/// Reinsert an object into a layer by position.
fn put_object_at(area: &mut MlvlArea, l: usize, i: usize, o: SclyObject)
    requires
        l < old(area).layers@.len(),
        i <= old(area).layers@[l as int].objects@.len(),
    ensures
        same_shape_but_layer(*old(area), *final(area), l as int),
        final(area).layers@[l as int].objects@ == old(area).layers@[l as int].objects@.insert(
            i as int,
            o,
        ),
{
    let ghost layers0 = area.layers@;
    let mut lay = self_take_layer(area, l);
    lay.objects.insert(i, o);
    self_put_layer(area, l, lay);
    proof {
        lemma_remove_insert(layers0, l as int, final(area).layers@[l as int]);
    }
}

/// Shape preserved, and every layer except `l` untouched.
pub open spec fn same_shape_but_layer(a: MlvlArea, b: MlvlArea, l: int) -> bool {
    &&& b.mrea_id == a.mrea_id
    &&& b.layer_flags == a.layer_flags
    &&& b.layer_names == a.layer_names
    &&& b.layer_deps == a.layer_deps
    &&& b.layers@.len() == a.layers@.len()
    &&& forall|k: int| 0 <= k < a.layers@.len() && k != l ==> b.layers@[k] == a.layers@[k]
}

/// The pickup as it will be written, under the run's obfuscation setting.
pub open spec fn spec_obfuscation(obfuscate: bool, pickup_type: PickupType)
    -> MaybeObfuscatedPickup {
    if obfuscate {
        MaybeObfuscatedPickup::Obfuscated(pickup_type)
    } else {
        MaybeObfuscatedPickup::Unobfuscated(pickup_type)
    }
}

/// The object at index `i` of the location's layer now carries the chosen
/// item's identity and counts.
pub open spec fn spec_location_rewritten(
    a: MlvlArea,
    i: int,
    loc: crate::pickup_meta::ScriptObjectLocation,
    tpl: crate::scly::Pickup,
) -> bool {
    &&& 0 <= loc.layer < a.layers@.len()
    &&& 0 <= i < a.layers@[loc.layer as int].objects@.len()
    &&& a.layers@[loc.layer as int].objects@[i].instance_id == loc.instance_id
    &&& a.layers@[loc.layer as int].objects@[i].property_data matches SclyProperty::Pickup(p)
        && p.kind == tpl.kind && p.cmdl == tpl.cmdl && p.ancs_file_id == tpl.ancs_file_id
        && p.max_increase == tpl.max_increase && p.curr_increase == tpl.curr_increase
}

/// Rewrite one pickup location to hand out a different item: a fresh layer
/// carries the item's dependencies and the post-pickup relay (plus an
/// artifact layer switch where the item is an artifact), and the location's
/// pickup, popup and jingle objects are repointed.
pub fn modify_pickups_in_mrea(
    ps: &mut PatcherState,
    area: &mut MlvlArea,
    pickup_type: PickupType,
    pickup_location: &PickupLocation,
    pickup_resources: &DependencyPool,
    table: &PickupTable,
    skip_hudmenus: bool,
    obfuscate: bool,
    position_delta: Vec3,
) -> (r: Result<(), String>)
    requires
        table.complete(),
        old(ps).fresh_instance_id_range.next < u32::MAX - 2,
    ensures
        final(ps).fresh_instance_id_range.next >= old(ps).fresh_instance_id_range.next,
        r is Ok ==> {
            &&& final(area).layers@.len() == old(area).layers@.len() + 1
            &&& (exists|i: int|
                spec_location_rewritten(
                    *final(area),
                    i,
                    pickup_location.location,
                    spec_obfuscation(obfuscate, pickup_type).spec_pickup_data(*table),
                ))
        },
        // The inserted relay (and, for an artifact, the layer switch) take
        // consecutive fresh ids, so with an allocator seeded above every
        // existing id they can never collide with it or with each other.
        r is Ok ==> {
            &&& 1 <= final(area).layers@[old(area).layers@.len() as int].objects@.len() <= 2
            &&& (forall|k: int|
                0 <= k < final(area).layers@[old(area).layers@.len() as int].objects@.len()
                    ==> (#[trigger] final(area).layers@[old(area).layers@.len() as int].objects@[k]).instance_id
                    == old(ps).fresh_instance_id_range.next + k)
            &&& final(ps).fresh_instance_id_range.next
                == old(ps).fresh_instance_id_range.next + final(area).layers@[old(
                area,
            ).layers@.len() as int].objects@.len()
        },
{
    if !(area.layers.len() == area.layer_names.len() && area.layers.len()
        == area.layer_deps.len()) {
        return Err(String::from_str("area bookkeeping out of step"));
    }
    if area.layers.len() >= 32 {
        return Err(String::from_str("area has no free layer"));
    }
    let vanilla_layers = area.layers.len();
    let location_idx: usize = 0;
    let mop = if obfuscate {
        MaybeObfuscatedPickup::Obfuscated(pickup_type)
    } else {
        MaybeObfuscatedPickup::Unobfuscated(pickup_type)
    };
    let template = mop.pickup_data(table);

    let mut deps: Vec<ResKey> = Vec::new();
    let base_deps = mop.dependencies(table);
    let mut di: usize = 0;
    while di < base_deps.len()
        invariant
            di <= base_deps@.len(),
        decreases base_deps@.len() - di,
    {
        deps.push(base_deps[di]);
        di += 1;
    }
    let hudmemo_strg = if skip_hudmenus && !is_always_modal_hudmenu(location_idx) {
        mop.skip_hudmemos_strg()
    } else {
        mop.hudmemo_strg(table)
    };
    deps.push(ResKey { id: hudmemo_strg, fourcc: ids::FOURCC_STRG });

    let name = String::from_str("Randomizer - Pickup 0 (").concat(
        template.name.as_str(),
    ).concat(")");
    let new_layer_idx = area.add_layer(name);
    match area.add_dependencies(pickup_resources, new_layer_idx, &deps) {
        Ok(()) => {},
        Err(e) => {
            return Err(e);
        },
    }

    let mut additional_connections: Vec<Connection> = Vec::new();
    let relay_id = ps.fresh_instance_id_range.fresh();
    let relay = post_pickup_relay_template(
        relay_id,
        &pickup_location.post_pickup_relay_connections,
    );
    match push_object_to_layer(area, new_layer_idx, relay) {
        Ok(()) => {},
        Err(e) => {
            return Err(e);
        },
    }
    additional_connections.push(
        Connection {
            state: ConnectionState::Arrived,
            message: ConnectionMsg::SetToZero,
            target_object_id: relay_id,
        },
    );

    let pickup_kind = template.kind;
    if 29 <= pickup_kind && pickup_kind <= 40 {
        let func_id = ps.fresh_instance_id_range.fresh();
        let function = artifact_layer_change_template(func_id, pickup_kind);
        match push_object_to_layer(area, new_layer_idx, function) {
            Ok(()) => {},
            Err(e) => {
                return Err(e);
            },
        }
        additional_connections.push(
            Connection {
                state: ConnectionState::Arrived,
                message: ConnectionMsg::Increment,
                target_object_id: func_id,
            },
        );
    }

    let hudmemo_layer = pickup_location.hudmemo.layer as usize;
    if hudmemo_layer >= vanilla_layers {
        return Err(String::from_str("hudmemo layer out of range"));
    }
    let hi = match find_object_idx(
        &area.layers[hudmemo_layer].objects,
        pickup_location.hudmemo.instance_id,
    ) {
        Some(i) => i,
        None => {
            return Err(String::from_str("expected hudmemo instance is absent"));
        },
    };
    let mut hud_obj = take_object_at(area, hudmemo_layer, hi);
    let uh = update_hudmemo(
        &mut hud_obj,
        hudmemo_strg,
        skip_hudmenus,
        is_always_modal_hudmenu(location_idx),
    );
    put_object_at(area, hudmemo_layer, hi, hud_obj);
    if let Err(e) = uh {
        return Err(e);
    }

    let audio_layer = pickup_location.attainment_audio.layer as usize;
    if audio_layer >= vanilla_layers {
        return Err(String::from_str("attainment audio layer out of range"));
    }
    let ai = match find_object_idx(
        &area.layers[audio_layer].objects,
        pickup_location.attainment_audio.instance_id,
    ) {
        Some(i) => i,
        None => {
            return Err(String::from_str("expected audio instance is absent"));
        },
    };
    let audio_name = mop.attainment_audio_file_name(table);
    let mut audio_obj = take_object_at(area, audio_layer, ai);
    let ua = update_attainment_audio(&mut audio_obj, &audio_name);
    put_object_at(area, audio_layer, ai, audio_obj);
    if let Err(e) = ua {
        return Err(e);
    }

    let pickup_layer = pickup_location.location.layer as usize;
    if pickup_layer >= vanilla_layers {
        return Err(String::from_str("pickup layer out of range"));
    }
    let pi = match find_object_idx(
        &area.layers[pickup_layer].objects,
        pickup_location.location.instance_id,
    ) {
        Some(i) => i,
        None => {
            return Err(String::from_str("expected pickup instance is absent"));
        },
    };
    let ghost pre_pickup = area.layers@[pickup_layer as int].objects@;
    let mut pickup_obj = take_object_at(area, pickup_layer, pi);
    let up = update_pickup(&mut pickup_obj, &template, position_delta);
    let ghost updated = pickup_obj;
    let mut ci: usize = 0;
    while ci < additional_connections.len()
        invariant
            ci <= additional_connections@.len(),
            pickup_obj.property_data == updated.property_data,
            pickup_obj.instance_id == updated.instance_id,
        decreases additional_connections@.len() - ci,
    {
        pickup_obj.connections.push(additional_connections[ci]);
        ci += 1;
    }
    let ghost new_pickup = pickup_obj;
    put_object_at(area, pickup_layer, pi, pickup_obj);
    if let Err(e) = up {
        return Err(e);
    }
    proof {
        lemma_remove_insert(pre_pickup, pi as int, new_pickup);
        assert(final(area).layers@[pickup_layer as int].objects@ =~= pre_pickup.update(
            pi as int,
            new_pickup,
        ));
        assert(final(area).layers@[pickup_layer as int].objects@[pi as int] == new_pickup);
        assert(mop == spec_obfuscation(obfuscate, pickup_type));
        assert(spec_location_rewritten(
            *final(area),
            pi as int,
            pickup_location.location,
            spec_obfuscation(obfuscate, pickup_type).spec_pickup_data(*table),
        ));
    }
    Ok(())
}

/// The vulnerability a patched door lock carries: the variant's profile,
/// with power bombs forced to land when the lock-pick override is on.
pub open spec fn spec_door_vulnerability(door_type: DoorType, lockpick: bool)
    -> crate::vuln::DamageVulnerability {
    if lockpick {
        crate::vuln::DamageVulnerability {
            power_bomb: VULN_NORMAL,
            ..door_type.spec_vulnerability()
        }
    } else {
        door_type.spec_vulnerability()
    }
}

/// Recolor and rekey one door: its dependencies are registered with the
/// area, its lock takes the variant's forcefield texture and interaction
/// profile, and its shield takes the variant's frame model.
/// When a door patch is owed success: the area's bookkeeping lines up,
/// layer 0 exists, every dependency of the variant resolves in the pool,
/// the lock instance is a damageable trigger in layer 0, and where a
/// shield is named it is an actor there.
pub open spec fn spec_patch_door_pre(
    a: MlvlArea,
    door_loc: crate::door_meta::DoorLocation,
    door_type: DoorType,
    pool: DependencyPool,
) -> bool {
    &&& a.layers@.len() == a.layer_names@.len()
    &&& a.layers@.len() == a.layer_deps@.len()
    &&& a.layers@.len() > 0
    &&& (forall|k: ResKey|
        door_type.spec_dependencies().contains(k) ==> #[trigger] pool.spec_contains(k))
    &&& (spec_find_object(a.layers@[0].objects@, door_loc.door_force_location.instance_id)
        matches Some(i) && a.layers@[0].objects@[i].property_data is DamageableTrigger)
    &&& (door_loc.door_shield_location matches Some(sl) ==> (spec_find_object(
        a.layers@[0].objects@,
        sl.instance_id,
    ) matches Some(j) && a.layers@[0].objects@[j].property_data is Actor))
}

pub fn patch_door(
    area: &mut MlvlArea,
    door_loc: &DoorLocation,
    door_type: DoorType,
    door_resources: &DependencyPool,
    lockpick: bool,
) -> (r: Result<(), String>)
    ensures
        r is Ok <==> spec_patch_door_pre(*old(area), *door_loc, door_type, *door_resources),
        r is Ok ==> final(area).layer_deps@[0]@ == old(area).layer_deps@[0]@
            + door_type.spec_dependencies(),
        r is Ok ==> exists|i: int|
            {
                &&& 0 <= i < final(area).layers@[0].objects@.len()
                &&& (#[trigger] final(area).layers@[0].objects@[i]).instance_id
                    == door_loc.door_force_location.instance_id
                &&& final(area).layers@[0].objects@[i].property_data matches
                    SclyProperty::DamageableTrigger(dt) && dt.color_txtr
                    == door_type.spec_forcefield_txtr() && dt.damage_vulnerability
                    == spec_door_vulnerability(door_type, lockpick)
            },
        r is Ok ==> (door_loc.door_shield_location matches Some(sl) ==> exists|j: int|
            {
                &&& 0 <= j < final(area).layers@[0].objects@.len()
                &&& (#[trigger] final(area).layers@[0].objects@[j]).instance_id == sl.instance_id
                &&& final(area).layers@[0].objects@[j].property_data matches SclyProperty::Actor(
                    a,
                ) && a.cmdl == door_type.spec_shield_cmdl()
            }),
{
    if !(area.layers.len() == area.layer_names.len() && area.layers.len()
        == area.layer_deps.len()) {
        return Err(String::from_str("area bookkeeping out of step"));
    }
    if area.layers.len() == 0 {
        return Err(String::from_str("area has no layers"));
    }
    let deps = door_type.dependencies();
    match area.add_dependencies(door_resources, 0, &deps) {
        Ok(()) => {},
        Err(e) => {
            return Err(e);
        },
    }

    proof {
        assert(area.layers@[0].objects@ == old(area).layers@[0].objects@);
    }
    let force_id = door_loc.door_force_location.instance_id;
    let fi = match find_object_idx(&area.layers[0].objects, force_id) {
        Some(i) => i,
        None => {
            proof {
                lemma_find_object_none(old(area).layers@[0].objects@, force_id);
            }
            return Err(String::from_str("expected door lock instance is absent"));
        },
    };
    proof {
        lemma_find_object_agrees(old(area).layers@[0].objects@, force_id, fi as int);
    }
    let ghost pre_force = area.layers@[0].objects@;
    let mut force_obj = take_object_at(area, 0, fi);
    let p0 = core_take_property(&mut force_obj);
    match p0 {
        SclyProperty::DamageableTrigger(mut dt) => {
            dt.color_txtr = door_type.forcefield_txtr();
            dt.damage_vulnerability = door_type.vulnerability();
            if lockpick {
                dt.damage_vulnerability.power_bomb = VULN_NORMAL;
            }
            force_obj.property_data = SclyProperty::DamageableTrigger(dt);
        },
        other => {
            force_obj.property_data = other;
            put_object_at(area, 0, fi, force_obj);
            return Err(String::from_str("door lock is not a damageable trigger"));
        },
    }
    let ghost new_force = force_obj;
    put_object_at(area, 0, fi, force_obj);
    proof {
        lemma_remove_insert(pre_force, fi as int, new_force);
        assert(area.layers@[0].objects@ =~= pre_force.update(fi as int, new_force));
    }

    match &door_loc.door_shield_location {
        Some(shield_loc) => {
            let shield_id = shield_loc.instance_id;
            proof {
                lemma_find_object_update_same_id(pre_force, fi as int, new_force, shield_id);
            }
            let si = match find_object_idx(&area.layers[0].objects, shield_id) {
                Some(i) => i,
                None => {
                    proof {
                        lemma_find_object_none(area.layers@[0].objects@, shield_id);
                    }
                    return Err(String::from_str("expected door shield instance is absent"));
                },
            };
            proof {
                lemma_find_object_agrees(area.layers@[0].objects@, shield_id, si as int);
            }
            if si == fi {
                // The shield slot resolved to the lock itself, so no actor
                // stands there; the vanilla layout never does this.
                return Err(String::from_str("door shield and lock coincide"));
            }
            let ghost pre = area.layers@[0].objects@;
            let mut shield_obj = take_object_at(area, 0, si);
            let p0 = core_take_property(&mut shield_obj);
            match p0 {
                SclyProperty::Actor(mut a) => {
                    a.cmdl = door_type.shield_cmdl();
                    shield_obj.property_data = SclyProperty::Actor(a);
                },
                other => {
                    shield_obj.property_data = other;
                    put_object_at(area, 0, si, shield_obj);
                    return Err(String::from_str("door shield is not an actor"));
                },
            }
            let ghost newo = shield_obj;
            put_object_at(area, 0, si, shield_obj);
            proof {
                lemma_remove_insert(pre, si as int, newo);
                assert(final(area).layers@[0].objects@ =~= pre.update(si as int, newo));
                assert(final(area).layers@[0].objects@[fi as int] == pre[fi as int]);
                assert(final(area).layers@[0].objects@[si as int] == newo);
            }
            Ok(())
        },
        None => Ok(()),
    }
}

/// At a non-default start the Landing Site cutscene triggers would fight
/// the ship spawn: a fixup timer re-activates the relays and the offending
/// trigger is disabled.
pub fn patch_landing_site_cutscene_triggers(ps: &mut PatcherState, area: &mut MlvlArea) -> (r:
    Result<(), String>)
    requires
        old(ps).fresh_instance_id_range.next < u32::MAX,
    ensures
        r is Ok ==> final(area).layers@.len() == old(area).layers@.len(),
{
    let timer_id = ps.fresh_instance_id_range.fresh();
    let r1 = add_connection_in_layer(
        area,
        0,
        427,
        Connection {
            state: ConnectionState::Active,
            message: ConnectionMsg::Deactivate,
            target_object_id: timer_id,
        },
    );
    if let Err(e) = r1 {
        return Err(e);
    }
    let r2 = edit_object_in_layer(area, 0, 221, SimpleEdit::TriggerActive { active: false });
    if let Err(e) = r2 {
        return Err(e);
    }
    let mut conns: Vec<Connection> = Vec::new();
    conns.push(
        Connection {
            state: ConnectionState::Zero,
            message: ConnectionMsg::Activate,
            target_object_id: 323,
        },
    );
    conns.push(
        Connection {
            state: ConnectionState::Zero,
            message: ConnectionMsg::Activate,
            target_object_id: 427,
        },
    );
    conns.push(
        Connection {
            state: ConnectionState::Zero,
            message: ConnectionMsg::Activate,
            target_object_id: 484,
        },
    );
    conns.push(
        Connection {
            state: ConnectionState::Zero,
            message: ConnectionMsg::Activate,
            target_object_id: 463,
        },
    );
    let timer = SclyObject {
        instance_id: timer_id,
        property_data: SclyProperty::Timer(
            Timer {
                name: String::from_str("Cutscene fixup timer"),
                start_time_ms: 1,
                max_random_add_ms: 0,
                reset_to_zero: false,
                start_immediately: true,
                active: true,
            },
        ),
        connections: conns,
    };
    push_object_to_layer(area, 0, timer)
}

/// Auto-enable one elevator: a short timer activates the memory relay that
/// normally waits for the hologram scan.
pub fn auto_enable_elevator(ps: &mut PatcherState, area: &mut MlvlArea) -> (r: Result<(), String>)
    requires
        old(ps).fresh_instance_id_range.next < u32::MAX,
    ensures
        r is Ok ==> final(area).layers@.len() == old(area).layers@.len(),
{
    if area.layers.len() == 0 {
        return Err(String::from_str("area has no layers"));
    }
    let mut mr_id: Option<u32> = Option::None;
    let n = area.layers[0].objects.len();
    let mut i: usize = 0;
    while i < n
        invariant
            i <= n,
            n == area.layers@[0].objects@.len(),
            area.layers@.len() > 0,
        decreases n - i,
    {
        let o = &area.layers[0].objects[i];
        match &o.property_data {
            SclyProperty::MemoryRelay(mr) => {
                if crate::text::str_eq(mr.name.as_str(), "Memory Relay - dim scan holo") {
                    mr_id = Option::Some(o.instance_id);
                }
            },
            _ => {},
        }
        i += 1;
    }
    match mr_id {
        Option::Some(target) => {
            let timer_id = ps.fresh_instance_id_range.fresh();
            let mut conns: Vec<Connection> = Vec::new();
            conns.push(
                Connection {
                    state: ConnectionState::Zero,
                    message: ConnectionMsg::Activate,
                    target_object_id: target,
                },
            );
            let timer = SclyObject {
                instance_id: timer_id,
                property_data: SclyProperty::Timer(
                    Timer {
                        name: String::from_str("Auto enable elevator"),
                        start_time_ms: 1,
                        max_random_add_ms: 0,
                        reset_to_zero: false,
                        start_immediately: true,
                        active: true,
                    },
                ),
                connections: conns,
            };
            push_object_to_layer(area, 0, timer)
        },
        Option::None => Ok(()),
    }
}

/// The id of the `k`-th artifact hint relay of the Artifact Temple.
pub fn hint_relay_id(k: u32) -> (r: u32)
    requires
        k < 12,
    ensures
        r == 68157732 + 3 * k,
{
    68157732 + 3 * k
}

/// Choose how artifact hints unlock: left as shipped, all unlocked
/// unconditionally, or removed outright.
pub fn patch_artifact_hint_availability(
    _ps: &mut PatcherState,
    area: &mut MlvlArea,
    behavior: ArtifactHintBehavior,
) -> (r: Result<(), String>)
    ensures
        r is Ok ==> final(area).layers@.len() == old(area).layers@.len(),
{
    match behavior {
        ArtifactHintBehavior::Vanilla => Ok(()),
        ArtifactHintBehavior::All => {
            if area.layers.len() == 0 {
                return Err(String::from_str("area has no layers"));
            }
            let i = match find_object_idx(&area.layers[0].objects, 1048956) {
                Some(i) => i,
                None => {
                    return Err(String::from_str("expected hint relay is absent"));
                },
            };
            let mut o = take_object_at(area, 0, i);
            let mut k: u32 = 0;
            while k < 12
                invariant
                    k <= 12,
                decreases 12 - k,
            {
                o.connections.push(
                    Connection {
                        state: ConnectionState::Zero,
                        message: ConnectionMsg::SetToZero,
                        target_object_id: hint_relay_id(k),
                    },
                );
                k += 1;
            }
            put_object_at(area, 0, i, o);
            Ok(())
        },
        ArtifactHintBehavior::Disabled => {
            let mut ids: Vec<u32> = Vec::new();
            let mut k: u32 = 0;
            while k < 12
                invariant
                    k <= 12,
                decreases 12 - k,
            {
                ids.push(hint_relay_id(k));
                k += 1;
            }
            remove_instances_from_layer(area, 1, &ids)
        },
    }
}

/// Does any slot of the layout hand out an item of this in-game kind?
pub open spec fn spec_kind_in_layout(
    layout: Seq<PickupType>,
    table: PickupTable,
    kind: u32,
) -> bool {
    exists|j: int|
        0 <= j < layout.len() && table.entries@[(#[trigger] layout[j]).spec_idx()].pickup.kind
            == kind
}

/// The layer the Artifact Temple dedicates to the artifact of in-game kind
/// `29 + i`.
pub open spec fn spec_artifact_layer_number(i: u32) -> u32 {
    if i == 0 {
        ARTIFACT_OF_TRUTH_REQ_LAYER
    } else {
        (i + 1) as u32
    }
}

/// Should the artifact's layer start disabled: the artifact exists in the
/// layout, but not at the temple itself?
pub open spec fn spec_artifact_layer_off(
    layout: Seq<PickupType>,
    table: PickupTable,
    i: u32,
) -> bool {
    spec_kind_in_layout(layout, table, (29 + i) as u32) && table.entries@[layout[63].spec_idx()].pickup.kind
        != 29 + i
}

/// Setting one bit leaves every other bit alone.
proof fn lemma_set_bit(x: u32, a: u32, b: u32)
    requires
        a < 32,
        b < 32,
    ensures
        ((x | (1u32 << a)) >> a) & 1 == 1,
        a != b ==> ((x | (1u32 << a)) >> b) & 1 == (x >> b) & 1,
{
    assert(((x | (1u32 << a)) >> a) & 1 == 1) by (bit_vector)
        requires
            a < 32,
    ;
    assert(a != b && b < 32 && a < 32 ==> ((x | (1u32 << a)) >> b) & 1 == (x >> b) & 1)
        by (bit_vector);
}

/// Clearing one bit leaves every other bit alone.
proof fn lemma_clear_bit(x: u32, a: u32, b: u32)
    requires
        a < 32,
        b < 32,
    ensures
        ((x & !(1u32 << a)) >> a) & 1 == 0,
        a != b ==> ((x & !(1u32 << a)) >> b) & 1 == (x >> b) & 1,
{
    assert(((x & !(1u32 << a)) >> a) & 1 == 0) by (bit_vector)
        requires
            a < 32,
    ;
    assert(a != b && b < 32 && a < 32 ==> ((x & !(1u32 << a)) >> b) & 1 == (x >> b) & 1)
        by (bit_vector);
}

/// Mark every artifact layer of the Artifact Temple per the shuffled
/// layout: an artifact that exists elsewhere starts with its layer off
/// (collected later), one missing or already at the temple starts on; a new
/// relay wired into the progress chain gates the temple's own layer.
pub fn fix_artifact_of_truth_requirements(
    ps: &mut PatcherState,
    area: &mut MlvlArea,
    pickup_layout: &Vec<PickupType>,
    table: &PickupTable,
) -> (r: Result<(), String>)
    requires
        table.complete(),
        old(ps).fresh_instance_id_range.next < u32::MAX,
    ensures
        r is Ok <==> {
            &&& old(area).layers@.len() == old(area).layer_names@.len()
            &&& old(area).layers@.len() == old(area).layer_deps@.len()
            &&& old(area).layers@.len() == 24
            &&& pickup_layout@.len() >= 64
            &&& spec_find_object(old(area).layers@[1].objects@, 68158836) is Some
        },
        r is Ok ==> {
            &&& final(area).layers@.len() == old(area).layers@.len() + 1
            &&& (forall|i: u32|
                i < 12 ==> (final(area).layer_flags >> spec_artifact_layer_number(i)) & 1 == (
                if spec_artifact_layer_off(pickup_layout@, *table, i) {
                    0u32
                } else {
                    1u32
                }))
        },
{
    if !(area.layers.len() == area.layer_names.len() && area.layers.len()
        == area.layer_deps.len()) {
        return Err(String::from_str("area bookkeeping out of step"));
    }
    if area.layers.len() != 24 {
        return Err(String::from_str("the area's layer count is not the expected one"));
    }
    if pickup_layout.len() < 64 {
        return Err(String::from_str("pickup layout does not cover every location"));
    }
    let new_layer_idx = area.add_layer(String::from_str("Randomizer - Got Artifact 1"));

    let at_pickup_kind = table.get(pickup_layout[63]).pickup.kind;
    let mut i: u32 = 0;
    while i < 12
        invariant
            i <= 12,
            area.layers@.len() == old(area).layers@.len() + 1,
            area.layers@.len() == 25,
            area.layer_names@.len() == 25,
            area.layer_deps@.len() == 25,
            area.layers@[1].objects@ == old(area).layers@[1].objects@,
            table.complete(),
            pickup_layout@.len() >= 64,
            at_pickup_kind == table.entries@[pickup_layout@[63].spec_idx()].pickup.kind,
            forall|i2: u32|
                i2 < i ==> (area.layer_flags >> spec_artifact_layer_number(i2)) & 1 == (
                if spec_artifact_layer_off(pickup_layout@, *table, i2) {
                    0u32
                } else {
                    1u32
                }),
        decreases 12 - i,
    {
        let layer_number = if i == 0 {
            ARTIFACT_OF_TRUTH_REQ_LAYER
        } else {
            i + 1
        };
        let kind = i + 29;
        let mut exists_in_layout = false;
        let mut j: usize = 0;
        while j < pickup_layout.len()
            invariant
                j <= pickup_layout@.len(),
                table.complete(),
                kind == 29 + i,
                exists_in_layout == exists|j2: int|
                    0 <= j2 < j && table.entries@[(#[trigger] pickup_layout@[j2]).spec_idx()].pickup.kind
                        == kind,
            decreases pickup_layout@.len() - j,
        {
            if table.get(pickup_layout[j]).pickup.kind == kind {
                exists_in_layout = true;
            }
            j += 1;
        }
        proof {
            assert(layer_number == spec_artifact_layer_number(i));
            assert(layer_number < 32);
            assert(exists_in_layout == spec_kind_in_layout(pickup_layout@, *table, kind));
        }
        let ghost flags0 = area.layer_flags;
        if exists_in_layout && at_pickup_kind != kind {
            area.layer_flags = area.layer_flags & !(1u32 << layer_number);
            proof {
                assert forall|i2: u32| i2 < i + 1 implies (area.layer_flags
                    >> spec_artifact_layer_number(i2)) & 1 == (
                if spec_artifact_layer_off(pickup_layout@, *table, i2) {
                    0u32
                } else {
                    1u32
                }) by {
                    lemma_clear_bit(flags0, layer_number, spec_artifact_layer_number(i2));
                }
            }
        } else {
            area.layer_flags = area.layer_flags | (1u32 << layer_number);
            proof {
                assert(!spec_artifact_layer_off(pickup_layout@, *table, i));
                assert forall|i2: u32| i2 < i + 1 implies (area.layer_flags
                    >> spec_artifact_layer_number(i2)) & 1 == (
                if spec_artifact_layer_off(pickup_layout@, *table, i2) {
                    0u32
                } else {
                    1u32
                }) by {
                    lemma_set_bit(flags0, layer_number, spec_artifact_layer_number(i2));
                }
            }
        }
        i += 1;
    }

    let new_relay_id = ps.fresh_instance_id_range.fresh();
    let mut conns: Vec<Connection> = Vec::new();
    conns.push(
        Connection {
            state: ConnectionState::Zero,
            message: ConnectionMsg::SetToZero,
            target_object_id: 1048869,
        },
    );
    let new_relay = SclyObject {
        instance_id: new_relay_id,
        connections: conns,
        property_data: SclyProperty::Relay(
            Relay { name: String::from_str("Relay Show Progress1"), active: true },
        ),
    };
    let r1 = push_object_to_layer(area, 24, new_relay);
    if let Err(e) = r1 {
        return Err(e);
    }

    proof {
        assert(area.layers@[1].objects@ == old(area).layers@[1].objects@);
    }
    let ri = match find_object_idx(&area.layers[1].objects, 68158836) {
        Some(i) => i,
        None => {
            proof {
                lemma_find_object_none(old(area).layers@[1].objects@, 68158836);
            }
            return Err(String::from_str("expected progress relay is absent"));
        },
    };
    proof {
        lemma_find_object_agrees(old(area).layers@[1].objects@, 68158836, ri as int);
    }
    let mut relay_obj = take_object_at(area, 1, ri);
    let mut kept: Vec<Connection> = Vec::new();
    let n = relay_obj.connections.len();
    let mut k: usize = 0;
    while k < n
        invariant
            k <= n,
            n == relay_obj.connections@.len(),
        decreases n - k,
    {
        let c = relay_obj.connections[k];
        if c.target_object_id != 1048869 {
            kept.push(c);
        }
        k += 1;
    }
    kept.push(
        Connection {
            state: ConnectionState::Zero,
            message: ConnectionMsg::SetToZero,
            target_object_id: new_relay_id,
        },
    );
    relay_obj.connections = kept;
    put_object_at(area, 1, ri, relay_obj);
    Ok(())
}

/// The items a spawn point grants, decoded from the packed configuration
/// word: the low bit is the scan visor, then eight bits of missiles, four
/// of energy tanks, four of power bombs, and one for each remaining item.
pub open spec fn spec_apply_starting(sp: crate::scly::SpawnPoint, v: u64)
    -> crate::scly::SpawnPoint {
    crate::scly::SpawnPoint {
        name: sp.name,
        scan_visor: (v & 0x1) as u32,
        missiles: ((v >> 1) & 0xFF) as u32,
        energy_tanks: ((v >> 9) & 0xF) as u32,
        power_bombs: ((v >> 13) & 0xF) as u32,
        wave: ((v >> 17) & 0x1) as u32,
        ice: ((v >> 18) & 0x1) as u32,
        plasma: ((v >> 19) & 0x1) as u32,
        charge: ((v >> 20) & 0x1) as u32,
        morph_ball: ((v >> 21) & 0x1) as u32,
        bombs: ((v >> 22) & 0x1) as u32,
        spider_ball: ((v >> 23) & 0x1) as u32,
        boost_ball: ((v >> 24) & 0x1) as u32,
        varia_suit: ((v >> 25) & 0x1) as u32,
        gravity_suit: ((v >> 26) & 0x1) as u32,
        phazon_suit: ((v >> 27) & 0x1) as u32,
        thermal_visor: ((v >> 28) & 0x1) as u32,
        xray: ((v >> 29) & 0x1) as u32,
        space_jump: ((v >> 30) & 0x1) as u32,
        grapple: ((v >> 31) & 0x1) as u32,
        super_missile: ((v >> 32) & 0x1) as u32,
        wavebuster: ((v >> 33) & 0x1) as u32,
        ice_spreader: ((v >> 34) & 0x1) as u32,
        flamethrower: ((v >> 35) & 0x1) as u32,
    }
}

/// An object after the starting-items rewrite: spawn points take the
/// decoded items, anything else is untouched.
pub open spec fn spec_starting_obj(o: SclyObject, v: u64) -> SclyObject {
    match o.property_data {
        SclyProperty::SpawnPoint(sp) => SclyObject {
            instance_id: o.instance_id,
            connections: o.connections,
            property_data: SclyProperty::SpawnPoint(spec_apply_starting(sp, v)),
        },
        _ => o,
    }
}

/// Rewrite every spawn point of the area to grant exactly the configured
/// starting items.
pub fn patch_starting_pickups(area: &mut MlvlArea, starting_items: u64) -> (r: Result<(), String>)
    ensures
        r is Ok,
        same_shape(*old(area), *final(area)),
        forall|l: int, i: int|
            0 <= l < old(area).layers@.len() && 0 <= i < old(area).layers@[l].objects@.len()
                ==> final(area).layers@[l].objects@[i] == spec_starting_obj(
                old(area).layers@[l].objects@[i],
                starting_items,
            ),
{
    let v = starting_items;
    let mut l: usize = 0;
    while l < area.layers.len()
        invariant
            l <= area.layers@.len(),
            same_shape(*old(area), *area),
            forall|a: int, i: int|
                0 <= a < l && 0 <= i < old(area).layers@[a].objects@.len()
                    ==> area.layers@[a].objects@[i] == spec_starting_obj(
                    old(area).layers@[a].objects@[i],
                    v,
                ),
            forall|a: int|
                l <= a < old(area).layers@.len() ==> area.layers@[a]
                    == old(area).layers@[a],
        decreases area.layers@.len() - l,
    {
        let ghost layers_before = area.layers@;
        let mut lay = self_take_layer(area, l);
        let ghost src = lay.objects@;
        let mut done: Vec<SclyObject> = Vec::new();
        let n = lay.objects.len();
        let mut i: usize = 0;
        while lay.objects.len() > 0
            invariant
                i <= n,
                n == src.len(),
                lay.objects@ == src.subrange(i as int, n as int),
                done@.len() == i,
                forall|k: int| 0 <= k < i ==> done@[k] == spec_starting_obj(src[k], v),
            decreases lay.objects@.len(),
        {
            proof {
                assert(lay.objects@[0] == src[i as int]);
            }
            let mut o = lay.objects.remove(0);
            proof {
                assert(lay.objects@ =~= src.subrange(i as int + 1, n as int));
            }
            let p0 = core_take_property(&mut o);
            match p0 {
                SclyProperty::SpawnPoint(sp) => {
                    let sp2 = crate::scly::SpawnPoint {
                        name: sp.name,
                        scan_visor: (v & 0x1) as u32,
                        missiles: ((v >> 1) & 0xFF) as u32,
                        energy_tanks: ((v >> 9) & 0xF) as u32,
                        power_bombs: ((v >> 13) & 0xF) as u32,
                        wave: ((v >> 17) & 0x1) as u32,
                        ice: ((v >> 18) & 0x1) as u32,
                        plasma: ((v >> 19) & 0x1) as u32,
                        charge: ((v >> 20) & 0x1) as u32,
                        morph_ball: ((v >> 21) & 0x1) as u32,
                        bombs: ((v >> 22) & 0x1) as u32,
                        spider_ball: ((v >> 23) & 0x1) as u32,
                        boost_ball: ((v >> 24) & 0x1) as u32,
                        varia_suit: ((v >> 25) & 0x1) as u32,
                        gravity_suit: ((v >> 26) & 0x1) as u32,
                        phazon_suit: ((v >> 27) & 0x1) as u32,
                        thermal_visor: ((v >> 28) & 0x1) as u32,
                        xray: ((v >> 29) & 0x1) as u32,
                        space_jump: ((v >> 30) & 0x1) as u32,
                        grapple: ((v >> 31) & 0x1) as u32,
                        super_missile: ((v >> 32) & 0x1) as u32,
                        wavebuster: ((v >> 33) & 0x1) as u32,
                        ice_spreader: ((v >> 34) & 0x1) as u32,
                        flamethrower: ((v >> 35) & 0x1) as u32,
                    };
                    o.property_data = SclyProperty::SpawnPoint(sp2);
                },
                other => {
                    o.property_data = other;
                },
            }
            done.push(o);
            i += 1;
        }
        lay.objects = done;
        self_put_layer(area, l, lay);
        proof {
            lemma_remove_insert(layers_before, l as int, area.layers@[l as int]);
        }
        l += 1;
    }
    Ok(())
}

/// The five lock objects inserted into the Main Plaza vault-side door.
fn main_plaza_lock_objects() -> (objs: Vec<SclyObject>)
    ensures
        objs@.len() == 5,
{
    let trigger_dooropen_id: u32 = 0x20007;
    let timer_doorclose_id: u32 = 0x20008;
    let actor_doorshield_id: u32 = 0x20004;
    let relay_unlock_id: u32 = 0x20159;
    let trigger_doorunlock_id: u32 = 0x2000F;
    let door_id: u32 = 0x20060;
    let relay_notice_ineffective_weapon_id: u32 = 0x202FD;

    let unlock_vuln = crate::vuln::DamageVulnerability {
        power: VULN_NORMAL,
        ice: VULN_NORMAL,
        wave: VULN_NORMAL,
        plasma: VULN_NORMAL,
        bomb: VULN_NORMAL,
        power_bomb: VULN_NORMAL,
        missile: VULN_REFLECT,
        boost_ball: VULN_REFLECT,
        phazon: VULN_NORMAL,
        enemy_weapon0: crate::vuln::VULN_IMMUNE,
        enemy_weapon1: VULN_REFLECT,
        enemy_weapon2: VULN_REFLECT,
        enemy_weapon3: VULN_REFLECT,
        unknown_weapon0: VULN_REFLECT,
        unknown_weapon1: VULN_REFLECT,
        unknown_weapon2: VULN_NORMAL,
        charged_beams: crate::vuln::ChargedBeams {
            power: VULN_NORMAL,
            ice: VULN_NORMAL,
            wave: VULN_NORMAL,
            plasma: VULN_NORMAL,
            phazon: VULN_NORMAL,
        },
        beam_combos: crate::vuln::BeamCombos {
            power: VULN_REFLECT,
            ice: VULN_REFLECT,
            wave: VULN_REFLECT,
            plasma: VULN_REFLECT,
            phazon: VULN_NORMAL,
        },
    };

    let mut unlock_conns: Vec<Connection> = Vec::new();
    unlock_conns.push(
        Connection {
            state: ConnectionState::ReflectedDamage,
            message: ConnectionMsg::SetToZero,
            target_object_id: relay_notice_ineffective_weapon_id,
        },
    );
    unlock_conns.push(
        Connection {
            state: ConnectionState::Dead,
            message: ConnectionMsg::Deactivate,
            target_object_id: actor_doorshield_id,
        },
    );
    unlock_conns.push(
        Connection {
            state: ConnectionState::MaxReached,
            message: ConnectionMsg::Activate,
            target_object_id: actor_doorshield_id,
        },
    );
    unlock_conns.push(
        Connection {
            state: ConnectionState::Dead,
            message: ConnectionMsg::Activate,
            target_object_id: trigger_dooropen_id,
        },
    );
    unlock_conns.push(
        Connection {
            state: ConnectionState::Dead,
            message: ConnectionMsg::SetToZero,
            target_object_id: door_id,
        },
    );
    let trigger_doorunlock = SclyObject {
        instance_id: trigger_doorunlock_id,
        property_data: SclyProperty::DamageableTrigger(
            crate::scly::DamageableTrigger {
                name: String::from_str("Trigger_DoorUnlock"),
                position: Vec3 { x: 152232, y: 86451, z: 24472 },
                scale: Vec3 { x: 250, y: 4500, z: 4000 },
                health_ms: 1000,
                damage_vulnerability: unlock_vuln,
                render_side: 3,
                pattern_txtr0: 0x544A9892,
                pattern_txtr1: 0x544A9892,
                color_txtr: 0x8A7F3683,
                lock_on: false,
                active: true,
                target_passthrough: false,
            },
        ),
        connections: unlock_conns,
    };

    let mut relay_conns: Vec<Connection> = Vec::new();
    relay_conns.push(
        Connection {
            state: ConnectionState::Zero,
            message: ConnectionMsg::Activate,
            target_object_id: actor_doorshield_id,
        },
    );
    relay_conns.push(
        Connection {
            state: ConnectionState::Zero,
            message: ConnectionMsg::Activate,
            target_object_id: trigger_doorunlock_id,
        },
    );
    let relay_unlock = SclyObject {
        instance_id: relay_unlock_id,
        property_data: SclyProperty::Relay(
            Relay { name: String::from_str("Relay_Unlock"), active: true },
        ),
        connections: relay_conns,
    };

    let mut open_conns: Vec<Connection> = Vec::new();
    open_conns.push(
        Connection {
            state: ConnectionState::Inside,
            message: ConnectionMsg::Open,
            target_object_id: door_id,
        },
    );
    open_conns.push(
        Connection {
            state: ConnectionState::Inside,
            message: ConnectionMsg::ResetAndStart,
            target_object_id: timer_doorclose_id,
        },
    );
    let trigger_dooropen = SclyObject {
        instance_id: trigger_dooropen_id,
        property_data: SclyProperty::Trigger(
            Trigger {
                name: String::from_str("Trigger_DoorOpen"),
                position: Vec3 { x: 149356, y: 86567, z: 26471 },
                scale: Vec3 { x: 5000, y: 5000, z: 8000 },
                active: false,
            },
        ),
        connections: open_conns,
    };

    let actor_doorshield = SclyObject {
        instance_id: actor_doorshield_id,
        property_data: SclyProperty::Actor(
            crate::scly::Actor {
                name: String::from_str("Actor_DoorShield"),
                position: Vec3 { x: 151951, y: 86412, z: 24403 },
                cmdl: 0x0734977A,
                ancs_file_id: 0xFFFFFFFF,
                active: true,
                target_passthrough: false,
            },
        ),
        connections: Vec::new(),
    };

    let mut close_conns: Vec<Connection> = Vec::new();
    close_conns.push(
        Connection {
            state: ConnectionState::Zero,
            message: ConnectionMsg::Close,
            target_object_id: door_id,
        },
    );
    close_conns.push(
        Connection {
            state: ConnectionState::Zero,
            message: ConnectionMsg::Deactivate,
            target_object_id: trigger_dooropen_id,
        },
    );
    let timer_doorclose = SclyObject {
        instance_id: timer_doorclose_id,
        property_data: SclyProperty::Timer(
            Timer {
                name: String::from_str("Timer_DoorClose"),
                start_time_ms: 250,
                max_random_add_ms: 0,
                reset_to_zero: true,
                start_immediately: false,
                active: true,
            },
        ),
        connections: close_conns,
    };

    let mut objs: Vec<SclyObject> = Vec::new();
    objs.push(trigger_doorunlock);
    objs.push(relay_unlock);
    objs.push(trigger_dooropen);
    objs.push(actor_doorshield);
    objs.push(timer_doorclose);
    objs
}

/// Rebuild the vault-side lock of the Main Plaza blocked door so it can be
/// opened, and closed again, from either side: a damageable lock, an unlock
/// relay, an open trigger, a shield actor and a close timer are inserted,
/// the old scan target is retired, and the door is rewired through them.
#[verifier::rlimit(100)]
pub fn make_main_plaza_locked_door_two_ways(
    _ps: &mut PatcherState,
    area: &mut MlvlArea,
    door_type: DoorType,
    use_custom_appearance: bool,
    powerbomb_lockpick: bool,
) -> (r: Result<(), String>)
    ensures
        r is Ok ==> {
            &&& final(area).layers@.len() == old(area).layers@.len()
            &&& final(area).layers@[0].objects@.len() == old(area).layers@[0].objects@.len() + 5
        },
{
    if area.layers.len() == 0 {
        return Err(String::from_str("area has no layers"));
    }
    let trigger_dooropen_id: u32 = 0x20007;
    let timer_doorclose_id: u32 = 0x20008;
    let actor_doorshield_id: u32 = 0x20004;
    let relay_unlock_id: u32 = 0x20159;
    let trigger_doorunlock_id: u32 = 0x2000F;
    let door_id: u32 = 0x20060;
    let trigger_remove_scan_target_locked_door_id: u32 = 0x202B8;
    let scan_target_locked_door_id: u32 = 0x202F4;

    let objs = main_plaza_lock_objects();
    let ghost base_len = area.layers@[0].objects@.len();
    let mut objs = objs;
    let mut pushed: usize = 0;
    while objs.len() > 0
        invariant
            pushed + objs@.len() == 5,
            area.layers@.len() > 0,
            same_shape(*old(area), *area),
            area.layers@[0].objects@.len() == base_len + pushed,
        decreases objs@.len(),
    {
        let o = objs.remove(0);
        match push_object_to_layer(area, 0, o) {
            Ok(()) => {},
            Err(e) => {
                return Err(e);
            },
        }
        pushed += 1;
    }

    let r6 = edit_object_in_layer(
        area,
        0,
        scan_target_locked_door_id,
        SimpleEdit::PoiRetire {  },
    );
    if let Err(e) = r6 {
        return Err(e);
    }
    let r7 = edit_object_in_layer(
        area,
        0,
        door_id,
        SimpleEdit::DoorAncs { file_id: 0x26886945, unknown: 2, projectiles_collide: false },
    );
    if let Err(e) = r7 {
        return Err(e);
    }

    if use_custom_appearance {
        let power_bomb_vuln = if !(door_type == DoorType::Blue) && !powerbomb_lockpick {
            VULN_REFLECT
        } else {
            VULN_NORMAL
        };
        let fi = match find_object_idx(&area.layers[0].objects, trigger_doorunlock_id) {
            Some(i) => i,
            None => {
                return Err(String::from_str("door lock vanished"));
            },
        };
        let mut force_obj = take_object_at(area, 0, fi);
        let p0 = core_take_property(&mut force_obj);
        match p0 {
            SclyProperty::DamageableTrigger(mut dt) => {
                dt.color_txtr = door_type.forcefield_txtr();
                dt.damage_vulnerability = door_type.vulnerability();
                dt.damage_vulnerability.power_bomb = power_bomb_vuln;
                force_obj.property_data = SclyProperty::DamageableTrigger(dt);
            },
            other => {
                force_obj.property_data = other;
                put_object_at(area, 0, fi, force_obj);
                return Err(String::from_str("door lock is not a damageable trigger"));
            },
        }
        put_object_at(area, 0, fi, force_obj);

        let si = match find_object_idx(&area.layers[0].objects, actor_doorshield_id) {
            Some(i) => i,
            None => {
                return Err(String::from_str("door shield vanished"));
            },
        };
        let mut shield_obj = take_object_at(area, 0, si);
        let p0 = core_take_property(&mut shield_obj);
        match p0 {
            SclyProperty::Actor(mut a) => {
                a.cmdl = door_type.shield_cmdl();
                shield_obj.property_data = SclyProperty::Actor(a);
            },
            other => {
                shield_obj.property_data = other;
                put_object_at(area, 0, si, shield_obj);
                return Err(String::from_str("door shield is not an actor"));
            },
        }
        put_object_at(area, 0, si, shield_obj);
    }

    let r8 = edit_object_in_layer(
        area,
        0,
        trigger_remove_scan_target_locked_door_id,
        SimpleEdit::TriggerActive { active: false },
    );
    if let Err(e) = r8 {
        return Err(e);
    }

    let di = match find_object_idx(&area.layers[0].objects, door_id) {
        Some(i) => i,
        None => {
            return Err(String::from_str("expected door instance is absent"));
        },
    };
    let mut door_obj = take_object_at(area, 0, di);
    door_obj.connections.push(
        Connection {
            state: ConnectionState::Open,
            message: ConnectionMsg::Activate,
            target_object_id: trigger_dooropen_id,
        },
    );
    door_obj.connections.push(
        Connection {
            state: ConnectionState::Open,
            message: ConnectionMsg::Start,
            target_object_id: timer_doorclose_id,
        },
    );
    door_obj.connections.push(
        Connection {
            state: ConnectionState::Closed,
            message: ConnectionMsg::Deactivate,
            target_object_id: trigger_dooropen_id,
        },
    );
    door_obj.connections.push(
        Connection {
            state: ConnectionState::Open,
            message: ConnectionMsg::Deactivate,
            target_object_id: trigger_doorunlock_id,
        },
    );
    door_obj.connections.push(
        Connection {
            state: ConnectionState::Open,
            message: ConnectionMsg::Deactivate,
            target_object_id: actor_doorshield_id,
        },
    );
    door_obj.connections.push(
        Connection {
            state: ConnectionState::Closed,
            message: ConnectionMsg::SetToZero,
            target_object_id: relay_unlock_id,
        },
    );
    door_obj.connections.push(
        Connection {
            state: ConnectionState::MaxReached,
            message: ConnectionMsg::Deactivate,
            target_object_id: actor_doorshield_id,
        },
    );
    door_obj.connections.push(
        Connection {
            state: ConnectionState::MaxReached,
            message: ConnectionMsg::Deactivate,
            target_object_id: trigger_doorunlock_id,
        },
    );
    put_object_at(area, 0, di, door_obj);
    Ok(())
}

/// Replace the last string of every language table of a scan's string
/// table with the shuffled hint text.
pub fn patch_artifact_totem_scan_strg(res: &mut Resource, text: &String) -> (r: Result<
    (),
    String,
>)
    ensures
        final(res).file_id == old(res).file_id,
        final(res).fourcc == old(res).fourcc,
        r is Ok <==> (old(res).kind matches ResourceKind::Strg(sd) && forall|t: int|
            0 <= t < sd.tables@.len() ==> (#[trigger] sd.tables@[t]).strings@.len() > 0),
        r is Ok ==> {
            &&& old(res).kind is Strg
            &&& final(res).kind matches ResourceKind::Strg(sd) && sd.tables@.len()
                == old(res).kind->Strg_0.tables@.len() && (forall|t: int|
                0 <= t < sd.tables@.len() ==> (#[trigger] sd.tables@[t]).lang
                    == old(res).kind->Strg_0.tables@[t].lang && sd.tables@[t].strings@.len()
                    == old(res).kind->Strg_0.tables@[t].strings@.len()
                    && sd.tables@[t].strings@.last()@ == text@)
        },
{
    let k0 = core_take_kind(res);
    match k0 {
        ResourceKind::Strg(mut sd) => {
            let ghost src = sd.tables@;
            let mut done: Vec<StrgTable> = Vec::new();
            let n = sd.tables.len();
            let mut i: usize = 0;
            while sd.tables.len() > 0
                invariant
                    i <= n,
                    n == src.len(),
                    res.file_id == old(res).file_id,
                    res.fourcc == old(res).fourcc,
                    sd.tables@ == src.subrange(i as int, n as int),
                    done@.len() == i,
                    old(res).kind is Strg,
                    old(res).kind->Strg_0.tables@ == src,
                    forall|k: int| 0 <= k < i ==> (#[trigger] src[k]).strings@.len() > 0,
                    forall|k: int|
                        0 <= k < i ==> (#[trigger] done@[k]).lang == src[k].lang
                            && done@[k].strings@.len() == src[k].strings@.len()
                            && done@[k].strings@.last()@ == text@,
                decreases sd.tables@.len(),
            {
                proof {
                    assert(sd.tables@[0] == src[i as int]);
                }
                let mut table = sd.tables.remove(0);
                proof {
                    assert(sd.tables@ =~= src.subrange(i as int + 1, n as int));
                }
                if table.strings.len() == 0 {
                    proof {
                        assert(old(res).kind->Strg_0.tables@[i as int].strings@.len() == 0);
                    }
                    res.kind = ResourceKind::Strg(StrgData { tables: done });
                    return Err(String::from_str("string table holds no strings"));
                }
                let last = table.strings.len() - 1;
                table.strings.remove(last);
                table.strings.push(String::from_str(text.as_str()));
                done.push(table);
                i += 1;
            }
            res.kind = ResourceKind::Strg(StrgData { tables: done });
            Ok(())
        },
        other => {
            res.kind = other;
            Err(String::from_str("resource is not a string table"))
        },
    }
}

/// Detach a resource's payload for rebuilding.
fn core_take_kind(res: &mut Resource) -> (k: ResourceKind)
    ensures
        k == old(res).kind,
        final(res).file_id == old(res).file_id,
        final(res).fourcc == old(res).fourcc,
        final(res).compressed == old(res).compressed,
{
    let mut tmp = ResourceKind::Raw(Vec::new());
    core::mem::swap(&mut tmp, &mut res.kind);
    tmp
}

/// Replace the whole resource with a single-language, single-string table.
pub fn replace_strg_single(res: &mut Resource, text: &String)
    ensures
        final(res).file_id == old(res).file_id,
        final(res).fourcc == old(res).fourcc,
        final(res).kind matches ResourceKind::Strg(sd) && sd.tables@.len() == 1
            && sd.tables@[0].lang == crate::ids::FOURCC_STRG_LANG_ENGL && sd.tables@[0].strings@.len()
            == 1 && sd.tables@[0].strings@[0]@ == text@,
{
    let mut strings: Vec<String> = Vec::new();
    strings.push(String::from_str(text.as_str()));
    let mut tables: Vec<StrgTable> = Vec::new();
    tables.push(StrgTable { lang: crate::ids::FOURCC_STRG_LANG_ENGL, strings });
    res.kind = ResourceKind::Strg(StrgData { tables });
}

/// Retitle the stale extras entry of the main menu's string table and
/// append the configured message line.
/// The first English table's strings hold the stale extras title.
pub open spec fn spec_first_engl_has_marker(tables: Seq<StrgTable>) -> bool {
    exists|t: int|
        {
            &&& 0 <= t < tables.len()
            &&& (#[trigger] tables[t]).lang == crate::ids::FOURCC_STRG_LANG_ENGL
            &&& (forall|u: int|
                0 <= u < t ==> (#[trigger] tables[u]).lang != crate::ids::FOURCC_STRG_LANG_ENGL)
            &&& (exists|s: int|
                0 <= s < tables[t].strings@.len() && (#[trigger] tables[t].strings@[s])@
                    == "Metroid Fusion Connection Bonuses\0"@)
        }
}

pub fn patch_main_strg(res: &mut Resource, msg: &String) -> (r: Result<(), String>)
    ensures
        final(res).file_id == old(res).file_id,
        final(res).fourcc == old(res).fourcc,
        r is Ok <==> (old(res).kind matches ResourceKind::Strg(sd) && spec_first_engl_has_marker(
            sd.tables@,
        )),
        r is Ok ==> (old(res).kind matches ResourceKind::Strg(sd)
            && (final(res).kind matches ResourceKind::Strg(sd2) && exists|t: int, m: int|
            {
                &&& 0 <= t < sd.tables@.len()
                &&& (#[trigger] sd.tables@[t]).lang == crate::ids::FOURCC_STRG_LANG_ENGL
                &&& 0 <= m < sd.tables@[t].strings@.len()
                &&& (#[trigger] sd.tables@[t].strings@[m])@
                    == "Metroid Fusion Connection Bonuses\0"@
                &&& sd2.tables@.len() == sd.tables@.len()
                &&& (forall|k: int| 0 <= k < sd.tables@.len() && k != t
                    ==> #[trigger] sd2.tables@[k] == sd.tables@[k])
                &&& sd2.tables@[t].lang == sd.tables@[t].lang
                &&& sd2.tables@[t].strings@.len() == sd.tables@[t].strings@.len() + 1
                &&& sd2.tables@[t].strings@[m]@ == "Extras\0"@
                &&& (forall|k: int|
                    0 <= k < sd.tables@[t].strings@.len() && k != m
                        ==> #[trigger] sd2.tables@[t].strings@[k]
                        == sd.tables@[t].strings@[k])
                &&& sd2.tables@[t].strings@.last()@ == msg@ + "\0"@
            })),
{
    let k0 = core_take_kind(res);
    match k0 {
        ResourceKind::Strg(mut sd) => {
            let ghost tables0 = sd.tables@;
            let mut ti: usize = 0;
            let mut engl: Option<usize> = Option::None;
            while ti < sd.tables.len()
                invariant
                    ti <= sd.tables@.len(),
                    sd.tables@ == tables0,
                    engl matches Some(x) ==> x < sd.tables@.len() && sd.tables@[x as int].lang
                        == crate::ids::FOURCC_STRG_LANG_ENGL && (forall|u: int|
                        0 <= u < x ==> (#[trigger] sd.tables@[u]).lang
                            != crate::ids::FOURCC_STRG_LANG_ENGL),
                    engl is None ==> forall|u: int|
                        0 <= u < ti ==> (#[trigger] sd.tables@[u]).lang
                            != crate::ids::FOURCC_STRG_LANG_ENGL,
                decreases sd.tables@.len() - ti,
            {
                if sd.tables[ti].lang == crate::ids::FOURCC_STRG_LANG_ENGL {
                    if engl.is_none() {
                        engl = Option::Some(ti);
                    }
                }
                ti += 1;
            }
            let ti = match engl {
                Option::Some(t) => t,
                Option::None => {
                    res.kind = ResourceKind::Strg(sd);
                    return Err(String::from_str("no english string table"));
                },
            };
            let mut table = sd.tables.remove(ti);
            let ghost strings0 = table.strings@;
            let mut si: usize = 0;
            let mut found: Option<usize> = Option::None;
            while si < table.strings.len()
                invariant
                    si <= table.strings@.len(),
                    table.strings@ == strings0,
                    found matches Some(x) ==> x < table.strings@.len()
                        && table.strings@[x as int]@ == "Metroid Fusion Connection Bonuses\0"@,
                    found is None ==> forall|u: int|
                        0 <= u < si ==> (#[trigger] table.strings@[u])@ != "Metroid Fusion Connection Bonuses\0"@,
                decreases table.strings@.len() - si,
            {
                if crate::text::str_eq(
                    table.strings[si].as_str(),
                    "Metroid Fusion Connection Bonuses\0",
                ) {
                    if found.is_none() {
                        found = Option::Some(si);
                    }
                }
                si += 1;
            }
            match found {
                Option::Some(si) => {
                    table.strings.remove(si);
                    table.strings.insert(si, String::from_str("Extras\0"));
                    proof {
                        lemma_remove_insert(strings0, si as int, table.strings@[si as int]);
                        assert(table.strings@ =~= strings0.update(
                            si as int,
                            table.strings@[si as int],
                        ));
                    }
                },
                Option::None => {
                    sd.tables.insert(ti, table);
                    res.kind = ResourceKind::Strg(sd);
                    return Err(String::from_str("expected menu string is absent"));
                },
            }
            table.strings.push(String::from_str(msg.as_str()).concat("\0"));
            sd.tables.insert(ti, table);
            proof {
                lemma_remove_insert(tables0, ti as int, sd.tables@[ti as int]);
                assert(sd.tables@ =~= tables0.update(ti as int, sd.tables@[ti as int]));
            }
            res.kind = ResourceKind::Strg(sd);
            Ok(())
        },
        other => {
            res.kind = other;
            Err(String::from_str("resource is not a string table"))
        },
    }
}

/// Append the item-location listing to the English credits table.
pub fn patch_credits(res: &mut Resource, text: &String) -> (r: Result<(), String>)
    ensures
        final(res).file_id == old(res).file_id,
        final(res).fourcc == old(res).fourcc,
        r is Ok <==> (old(res).kind matches ResourceKind::Strg(sd) && exists|t: int|
            0 <= t < sd.tables@.len() && (#[trigger] sd.tables@[t]).lang
                == crate::ids::FOURCC_STRG_LANG_ENGL),
        r is Ok ==> (old(res).kind matches ResourceKind::Strg(sd)
            && (final(res).kind matches ResourceKind::Strg(sd2) && exists|t: int|
            {
                &&& 0 <= t < sd.tables@.len()
                &&& (#[trigger] sd.tables@[t]).lang == crate::ids::FOURCC_STRG_LANG_ENGL
                &&& (forall|u: int|
                    0 <= u < t ==> (#[trigger] sd.tables@[u]).lang
                        != crate::ids::FOURCC_STRG_LANG_ENGL)
                &&& sd2.tables@.len() == sd.tables@.len()
                &&& (forall|k: int| 0 <= k < sd.tables@.len() && k != t
                    ==> #[trigger] sd2.tables@[k] == sd.tables@[k])
                &&& sd2.tables@[t].lang == sd.tables@[t].lang
                &&& sd2.tables@[t].strings@.len() == sd.tables@[t].strings@.len() + 1
                &&& (forall|k: int|
                    0 <= k < sd.tables@[t].strings@.len()
                        ==> #[trigger] sd2.tables@[t].strings@[k]
                        == sd.tables@[t].strings@[k])
                &&& sd2.tables@[t].strings@.last()@ == text@
            })),
{
    let k0 = core_take_kind(res);
    match k0 {
        ResourceKind::Strg(mut sd) => {
            let ghost tables0 = sd.tables@;
            let mut ti: usize = 0;
            let mut engl: Option<usize> = Option::None;
            while ti < sd.tables.len()
                invariant
                    ti <= sd.tables@.len(),
                    sd.tables@ == tables0,
                    engl matches Some(x) ==> x < sd.tables@.len() && sd.tables@[x as int].lang
                        == crate::ids::FOURCC_STRG_LANG_ENGL && (forall|u: int|
                        0 <= u < x ==> (#[trigger] sd.tables@[u]).lang
                            != crate::ids::FOURCC_STRG_LANG_ENGL),
                    engl is None ==> forall|u: int|
                        0 <= u < ti ==> (#[trigger] sd.tables@[u]).lang
                            != crate::ids::FOURCC_STRG_LANG_ENGL,
                decreases sd.tables@.len() - ti,
            {
                if sd.tables[ti].lang == crate::ids::FOURCC_STRG_LANG_ENGL {
                    if engl.is_none() {
                        engl = Option::Some(ti);
                    }
                }
                ti += 1;
            }
            let ti = match engl {
                Option::Some(t) => t,
                Option::None => {
                    res.kind = ResourceKind::Strg(sd);
                    return Err(String::from_str("no english string table"));
                },
            };
            let mut table = sd.tables.remove(ti);
            let ghost strings0 = table.strings@;
            table.strings.push(String::from_str(text.as_str()));
            sd.tables.insert(ti, table);
            proof {
                lemma_remove_insert(tables0, ti as int, sd.tables@[ti as int]);
                assert(sd.tables@ =~= tables0.update(ti as int, sd.tables@[ti as int]));
            }
            res.kind = ResourceKind::Strg(sd);
            Ok(())
        },
        other => {
            res.kind = other;
            Err(String::from_str("resource is not a string table"))
        },
    }
}

/// Register the Phazon Suit scan in the mines save-world, so collecting it
/// can be logged.
pub fn patch_mines_savw_for_phazon_suit_scan(res: &mut Resource) -> (r: Result<(), String>)
    ensures
        final(res).file_id == old(res).file_id,
        final(res).fourcc == old(res).fourcc,
        r is Ok <==> old(res).kind is Savw,
        r is Ok ==> {
            &&& old(res).kind is Savw
            &&& final(res).kind matches ResourceKind::Savw(sw) && sw.scan_array@
                == old(res).kind->Savw_0.scan_array@.push(
                ScannableObject { scan: ids::PHAZON_SUIT_SCAN, logbook_category: 0 },
            )
        },
{
    let k0 = core_take_kind(res);
    match k0 {
        ResourceKind::Savw(mut sw) => {
            sw.scan_array.push(
                ScannableObject { scan: ids::PHAZON_SUIT_SCAN, logbook_category: 0 },
            );
            res.kind = ResourceKind::Savw(sw);
            Ok(())
        },
        other => {
            res.kind = other;
            Err(String::from_str("resource is not a save-world"))
        },
    }
}

/// Recolor one door's icon on the area map. A ceiling icon keeps its type
/// when `respect_vertical` is on, matching the in-world ceiling door.
pub fn patch_map_door_icon(
    res: &mut Resource,
    editor_id: u32,
    door_type: DoorType,
    respect_vertical: bool,
) -> (r: Result<(), String>)
    ensures
        final(res).file_id == old(res).file_id,
        final(res).fourcc == old(res).fourcc,
        r is Ok <==> (old(res).kind matches ResourceKind::Mapa(m) && exists|i: int|
            0 <= i < m.objects@.len() && (#[trigger] m.objects@[i]).editor_id == editor_id),
        r is Ok ==> (old(res).kind matches ResourceKind::Mapa(m)
            && (final(res).kind matches ResourceKind::Mapa(m2) && exists|i: int|
            {
                &&& 0 <= i < m.objects@.len()
                &&& (#[trigger] m.objects@[i]).editor_id == editor_id
                &&& m2.objects@ == m.objects@.update(
                    i,
                    MapaObject {
                        editor_id: m.objects@[i].editor_id,
                        type_code: if respect_vertical && m.objects@[i].is_vertical {
                            m.objects@[i].type_code
                        } else {
                            door_type.spec_map_object_type()
                        },
                        is_vertical: m.objects@[i].is_vertical,
                    },
                )
            })),
{
    let k0 = core_take_kind(res);
    match k0 {
        ResourceKind::Mapa(mut mapa) => {
            let ghost objects0 = mapa.objects@;
            let mut i: usize = 0;
            let mut found: Option<usize> = Option::None;
            while i < mapa.objects.len()
                invariant
                    i <= mapa.objects@.len(),
                    mapa.objects@ == objects0,
                    found matches Some(x) ==> x < mapa.objects@.len()
                        && mapa.objects@[x as int].editor_id == editor_id,
                    found is None ==> forall|u: int|
                        0 <= u < i ==> (#[trigger] mapa.objects@[u]).editor_id != editor_id,
                decreases mapa.objects@.len() - i,
            {
                if mapa.objects[i].editor_id == editor_id {
                    if found.is_none() {
                        found = Option::Some(i);
                    }
                }
                i += 1;
            }
            let i = match found {
                Option::Some(i) => i,
                Option::None => {
                    res.kind = ResourceKind::Mapa(mapa);
                    return Err(String::from_str("expected map icon is absent"));
                },
            };
            let mut icon = mapa.objects.remove(i);
            if !(respect_vertical && icon.is_vertical) {
                icon.type_code = door_type.map_object_type();
            }
            mapa.objects.insert(i, icon);
            proof {
                lemma_remove_insert(objects0, i as int, mapa.objects@[i as int]);
                assert(mapa.objects@ =~= objects0.update(i as int, mapa.objects@[i as int]));
            }
            res.kind = ResourceKind::Mapa(mapa);
            Ok(())
        },
        other => {
            res.kind = other;
            Err(String::from_str("resource is not an area map"))
        },
    }
}

/// Recolor the Main Plaza vault door's map icon.
pub fn patch_main_plaza_locked_door_map_icon(res: &mut Resource, door_type: DoorType) -> (r:
    Result<(), String>)
    ensures
        final(res).file_id == old(res).file_id,
        final(res).fourcc == old(res).fourcc,
        r is Ok <==> (old(res).kind matches ResourceKind::Mapa(m) && exists|i: int|
            0 <= i < m.objects@.len() && (#[trigger] m.objects@[i]).editor_id == 0x20060),
{
    patch_map_door_icon(res, 0x20060, door_type, false)
}

/// Replace a resource's payload outright with raw bytes.
pub fn patch_save_banner_txtr(res: &mut Resource, bytes: &Vec<u8>)
    ensures
        final(res).file_id == old(res).file_id,
        final(res).fourcc == old(res).fourcc,
        !final(res).compressed,
        final(res).kind matches ResourceKind::Raw(b) && b@ == bytes@,
{
    let mut copy: Vec<u8> = Vec::new();
    let mut i: usize = 0;
    while i < bytes.len()
        invariant
            i <= bytes@.len(),
            copy@ == bytes@.subrange(0, i as int),
        decreases bytes@.len() - i,
    {
        copy.push(bytes[i]);
        proof {
            assert(copy@ =~= bytes@.subrange(0, i as int + 1));
        }
        i += 1;
    }
    proof {
        assert(bytes@.subrange(0, bytes@.len() as int) =~= bytes@);
    }
    res.compressed = false;
    res.kind = ResourceKind::Raw(copy);
}

/// Reduce the frigate container to one placeholder entry, so the escape
/// sequence's data need not be copied into the output image.
pub fn empty_frigate_pak(file: &mut FstEntryFile) -> (r: Result<(), String>)
    ensures
        r is Ok <==> *old(file) is Pak,
        r is Ok ==> (*final(file) matches FstEntryFile::Pak(p) && p.resources@.len() == 1
            && p.resources@[0].file_id == 0 && p.resources@[0].fourcc == ids::FOURCC_XXXX
            && !p.resources@[0].compressed && (p.resources@[0].kind matches
        ResourceKind::External(b) && b@ == Seq::new(64, |i: int| 0u8))),
        r is Err ==> *final(file) == *old(file),
{
    match file {
        FstEntryFile::Pak(_) => {
            let mut placeholder: Vec<u8> = Vec::new();
            let mut i: usize = 0;
            while i < 64
                invariant
                    i <= 64,
                    placeholder@.len() == i,
                    forall|k: int| 0 <= k < i ==> placeholder@[k] == 0u8,
                decreases 64 - i,
            {
                placeholder.push(0u8);
                i += 1;
            }
            proof {
                assert(placeholder@ =~= Seq::new(64, |i: int| 0u8));
            }
            let res = crate::pool::build_resource(
                0,
                ids::FOURCC_XXXX,
                ResourceKind::External(placeholder),
            );
            let mut resources: Vec<Resource> = Vec::new();
            resources.push(res);
            *file = FstEntryFile::Pak(Pak { resources });
            Ok(())
        },
        _ => Err(String::from_str("file is not a container")),
    }
}

/// Replace a whole file with raw bytes.
pub fn replace_file_bytes(file: &mut FstEntryFile, bytes: &Vec<u8>)
    ensures
        *final(file) matches FstEntryFile::Unknown(b) && b@ == bytes@,
{
    let mut copy: Vec<u8> = Vec::new();
    let mut i: usize = 0;
    while i < bytes.len()
        invariant
            i <= bytes@.len(),
            copy@ == bytes@.subrange(0, i as int),
        decreases bytes@.len() - i,
    {
        copy.push(bytes[i]);
        proof {
            assert(copy@ =~= bytes@.subrange(0, i as int + 1));
        }
        i += 1;
    }
    proof {
        assert(bytes@.subrange(0, bytes@.len() as int) =~= bytes@);
    }
    *file = FstEntryFile::Unknown(copy);
}

/// Apply a script-graph operation to one area.
pub fn apply_scly_op(
    op: &PatchOp,
    area: &mut MlvlArea,
    ps: &mut PatcherState,
    ctx: &PatchContext,
) -> (r: Result<(), String>)
    requires
        ctx.wf(),
{
    if ps.fresh_instance_id_range.next >= u32::MAX - 4 {
        return Err(String::from_str("instance id space exhausted"));
    }
    match op {
        PatchOp::RemoveInstances { layer, instance_ids } => remove_instances_from_layer(
            area,
            *layer,
            instance_ids,
        ),
        PatchOp::ModifyPickup { pickup_type, location, position_delta } => {
            modify_pickups_in_mrea(
                ps,
                area,
                *pickup_type,
                location,
                &ctx.pickup_resources,
                &ctx.pickup_table,
                ctx.skip_hudmenus,
                ctx.obfuscate_items,
                *position_delta,
            )
        },
        PatchOp::PatchDoor { door_location, door_type } => patch_door(
            area,
            door_location,
            *door_type,
            &ctx.door_resources,
            ctx.powerbomb_lockpick,
        ),
        PatchOp::SetTransporterDest { scly_id, mlvl, mrea, tiny_samus } => set_transporter_dest(
            area,
            *scly_id,
            *mlvl,
            *mrea,
            *tiny_samus,
        ),
        PatchOp::AutoEnableElevator => auto_enable_elevator(ps, area),
        PatchOp::StartingPickups { starting_items } => patch_starting_pickups(
            area,
            *starting_items,
        ),
        PatchOp::FrigateTeleporter { mlvl, mrea } => patch_frigate_teleporter(area, *mlvl, *mrea),
        PatchOp::TempleSecurityTrigger => patch_temple_security_station_cutscene_trigger(ps, area),
        PatchOp::RidleyCinematic => patch_ridley_phendrana_shorelines_cinematic(ps, area),
        PatchOp::SunTowerPrevent => patch_sun_tower_prevent_wild_before_flaahgra(ps, area),
        PatchOp::SunchamberPrevent => patch_sunchamber_prevent_wild_before_flaahgra(ps, area),
        PatchOp::ResearchLabHydraBarrier => patch_research_lab_hydra_barrier(ps, area),
        PatchOp::ResearchLabAetherWall => patch_research_lab_aether_exploding_wall(ps, area),
        PatchOp::ObservatorySecondPass => patch_observatory_2nd_pass_solvablility(ps, area),
        PatchOp::MainVentShaftDoor => patch_main_ventilation_shaft_section_b_door(ps, area),
        PatchOp::HiveTotemTrigger => patch_hive_totem_boss_trigger_0_02(ps, area),
        PatchOp::RuinedCourtyardConduits => patch_ruined_courtyard_thermal_conduits_0_02(ps, area),
        PatchOp::GeothermalCoreRockPal => patch_geothermal_core_destructible_rock_pal(ps, area),
        PatchOp::OreProcessingRockPal => patch_ore_processing_destructible_rock_pal(ps, area),
        PatchOp::MainQuarryDoorLockPal => patch_main_quarry_door_lock_pal(ps, area),
        PatchOp::MainQuarryDoorLock002 => patch_main_quarry_door_lock_0_02(ps, area),
        PatchOp::GeothermalCoreDoorLock002 => patch_geothermal_core_door_lock_0_02(ps, area),
        PatchOp::MinesSecuritySoftLock => patch_mines_security_station_soft_lock(ps, area),
        PatchOp::GravityChamberGrapple => patch_gravity_chamber_stalactite_grapple_point(ps, area),
        PatchOp::LandingSiteCutscene => patch_landing_site_cutscene_triggers(ps, area),
        PatchOp::EndingSceneCredits => patch_ending_scene_straight_to_credits(ps, area),
        PatchOp::EliteResearchFlags => patch_elite_research_flags(area),
        PatchOp::FixArtifactOfTruth { layout } => fix_artifact_of_truth_requirements(
            ps,
            area,
            layout,
            &ctx.pickup_table,
        ),
        PatchOp::ArtifactHint { behavior } => patch_artifact_hint_availability(
            ps,
            area,
            *behavior,
        ),
        PatchOp::MainPlazaLockedDoor { door_type, use_custom_appearance } =>
            make_main_plaza_locked_door_two_ways(
            ps,
            area,
            *door_type,
            *use_custom_appearance,
            ctx.powerbomb_lockpick,
        ),
        _ => Err(String::from_str("operation does not apply to an area")),
    }
}

/// Apply a resource operation to one resource.
pub fn apply_resource_op(
    op: &PatchOp,
    res: &mut Resource,
    _ps: &mut PatcherState,
    _ctx: &PatchContext,
) -> (r: Result<(), String>)
{
    match op {
        PatchOp::SetStrgLastLine { text } => patch_artifact_totem_scan_strg(res, text),
        PatchOp::ReplaceStrgSingle { text } => {
            replace_strg_single(res, text);
            Ok(())
        },
        PatchOp::MainStrg { msg } => patch_main_strg(res, msg),
        PatchOp::CreditsText { text } => patch_credits(res, text),
        PatchOp::MinesSavwScan => patch_mines_savw_for_phazon_suit_scan(res),
        PatchOp::MainMenuText => patch_main_menu(res),
        PatchOp::MapaDoorIcon { editor_id, door_type, respect_vertical } => patch_map_door_icon(
            res,
            *editor_id,
            *door_type,
            *respect_vertical,
        ),
        PatchOp::ReplaceRawBytes { bytes } => {
            patch_save_banner_txtr(res, bytes);
            Ok(())
        },
        _ => Err(String::from_str("operation does not apply to a resource")),
    }
}

/// Apply a file operation to one filesystem entry.
pub fn apply_file_op(op: &PatchOp, file: &mut FstEntryFile, _ctx: &PatchContext) -> (r: Result<
    (),
    String,
>)
{
    match op {
        PatchOp::ReplaceFileBytes { bytes } => {
            replace_file_bytes(file, bytes);
            Ok(())
        },
        PatchOp::EmptyFrigatePak => empty_frigate_pak(file),
        PatchOp::PatchBnr { pixels, game_name, developer, game_name_full, developer_full, description } =>
            patch_bnr(
            file,
            pixels,
            game_name,
            developer,
            game_name_full,
            developer_full,
            description,
        ),
        _ => Err(String::from_str("operation does not apply to a file")),
    }
}

/// Two text panes naming this build are added to the main menu frame: the
/// label itself and a darker drop shadow behind it.
pub fn patch_main_menu(res: &mut Resource) -> (r: Result<(), String>)
    ensures
        final(res).file_id == old(res).file_id,
        final(res).fourcc == old(res).fourcc,
        r is Ok <==> old(res).kind is Frme,
        r is Ok ==> {
            &&& old(res).kind is Frme
            &&& final(res).kind matches ResourceKind::Frme(f) && f.widgets@.len()
                == old(res).kind->Frme_0.widgets@.len() + 2
        },
{
    let k0 = core_take_kind(res);
    match k0 {
        ResourceKind::Frme(mut frme) => {
            let label = crate::pool::FrmeWidget {
                name: String::from_str("textpane_identifier"),
                parent: String::from_str("kGSYS_HeadWidgetID"),
                origin: Vec3 { x: 9250, y: 1500, z: 0 },
                kind: crate::pool::FrmeWidgetKind::TextPane(
                    crate::pool::TextPaneWidget {
                        font: 3265024497,
                        word_wrap: false,
                        fill_color_m: Vec3 { x: 1000, y: 1000, z: 1000 },
                        outline_color_m: Vec3 { x: 0, y: 0, z: 0 },
                    },
                ),
            };
            let shadow = crate::pool::FrmeWidget {
                name: String::from_str("textpane_identifierb"),
                parent: String::from_str("kGSYS_HeadWidgetID"),
                origin: Vec3 { x: 9485, y: 1604, z: -176 },
                kind: crate::pool::FrmeWidgetKind::TextPane(
                    crate::pool::TextPaneWidget {
                        font: 3265024497,
                        word_wrap: false,
                        fill_color_m: Vec3 { x: 0, y: 0, z: 0 },
                        outline_color_m: Vec3 { x: 0, y: 0, z: 0 },
                    },
                ),
            };
            frme.widgets.push(label);
            frme.widgets.push(shadow);
            res.kind = ResourceKind::Frme(frme);
            Ok(())
        },
        other => {
            res.kind = other;
            Err(String::from_str("resource is not a GUI frame"))
        },
    }
}

/// The weight row that applies to a container: the five explorable regions
/// use their configured rows, the crater is always red, anything else blue.
pub open spec fn spec_weights_row(pak_name: Seq<char>, weights: Weights) -> Seq<u8> {
    match World::spec_from_pak(pak_name) {
        Some(World::ChozoRuins) => weights.chozo_ruins@,
        Some(World::PhendranaDrifts) => weights.phendrana_drifts@,
        Some(World::TallonOverworld) => weights.tallon_overworld@,
        Some(World::PhazonMines) => weights.phazon_mines@,
        Some(World::MagmoorCaverns) => weights.magmoor_caverns@,
        Some(World::ImpactCrater) => seq![0u8, 0u8, 0u8, 100u8],
        _ => seq![100u8, 0u8, 0u8, 0u8],
    }
}

pub fn weights_for_pak(pak_name: &str, weights: &Weights) -> (r: [u8; 4])
    ensures
        r@ == spec_weights_row(pak_name@, *weights),
{
    let r = match World::from_pak(pak_name) {
        Some(World::ChozoRuins) => weights.chozo_ruins,
        Some(World::PhendranaDrifts) => weights.phendrana_drifts,
        Some(World::TallonOverworld) => weights.tallon_overworld,
        Some(World::PhazonMines) => weights.phazon_mines,
        Some(World::MagmoorCaverns) => weights.magmoor_caverns,
        Some(World::ImpactCrater) => [0u8, 0u8, 0u8, 100u8],
        _ => [100u8, 0u8, 0u8, 0u8],
    };
    proof {
        if World::spec_from_pak(pak_name@) == Some(World::ImpactCrater) {
            assert(r@ =~= seq![0u8, 0u8, 0u8, 100u8]);
        }
        if World::spec_from_pak(pak_name@) is None || World::spec_from_pak(pak_name@) == Some(
            World::FrigateOrpheon,
        ) {
            assert(r@ =~= seq![100u8, 0u8, 0u8, 0u8]);
        }
    }
    r
}

/// The door color a weighted roll selects: the first color whose cumulative
/// weight exceeds the roll.
pub open spec fn spec_door_type_from_roll(w: Seq<u8>, roll: u8) -> DoorType {
    if roll < w[0] {
        DoorType::Blue
    } else if roll < w[0] + w[1] {
        DoorType::Purple
    } else if roll < w[0] + w[1] + w[2] {
        DoorType::White
    } else {
        DoorType::Red
    }
}

/// Select a door color from a percentage row and a roll below one hundred.
/// A row whose weights do not sum to exactly one hundred is refused.
pub fn door_type_from_roll(w: &[u8; 4], roll: u8) -> (r: Result<DoorType, String>)
    requires
        roll < 100,
    ensures
        match r {
            Ok(dt) => {
                &&& w@[0] + w@[1] + w@[2] + w@[3] == 100
                &&& dt == spec_door_type_from_roll(w@, roll)
            },
            Err(_) => w@[0] + w@[1] + w@[2] + w@[3] != 100,
        },
{
    let w0 = w[0] as u16;
    let w1 = w[1] as u16;
    let w2 = w[2] as u16;
    let w3 = w[3] as u16;
    if w0 + w1 + w2 + w3 != 100 {
        return Err(String::from_str(
            "the sum of all weights for each area must equal exactly 100",
        ));
    }
    let roll16 = roll as u16;
    if roll16 < w0 {
        Ok(DoorType::Blue)
    } else if roll16 < w0 + w1 {
        Ok(DoorType::Purple)
    } else if roll16 < w0 + w1 + w2 {
        Ok(DoorType::White)
    } else {
        Ok(DoorType::Red)
    }
}

/// A row that puts all its weight on the first color always selects blue,
/// whatever the roll.
pub proof fn lemma_full_weight_is_deterministic(w: Seq<u8>, roll: u8)
    requires
        w.len() == 4,
        w[0] == 100,
        roll < 100,
    ensures
        spec_door_type_from_roll(w, roll) == DoorType::Blue,
{
}

/// Draw a color for one door of a container, under the configured regional
/// weights: an error exactly when the selected row does not sum to one
/// hundred, and otherwise one of the four colors — always blue when the
/// row puts its whole weight on the first color, whatever the draw.
pub fn calculate_door_type(
    pak_name: &str,
    rng: &mut rand::rngs::StdRng,
    weights: &Weights,
) -> (r: Result<DoorType, String>)
    ensures
        r is Ok <==> spec_weights_row(pak_name@, *weights)[0] + spec_weights_row(
            pak_name@,
            *weights,
        )[1] + spec_weights_row(pak_name@, *weights)[2] + spec_weights_row(
            pak_name@,
            *weights,
        )[3] == 100,
        r matches Ok(dt) ==> (dt == DoorType::Blue || dt == DoorType::Purple || dt
            == DoorType::White || dt == DoorType::Red),
        spec_weights_row(pak_name@, *weights)[0] == 100 && spec_weights_row(pak_name@, *weights)[1]
            + spec_weights_row(pak_name@, *weights)[2] + spec_weights_row(pak_name@, *weights)[3]
            == 0 ==> r == Ok::<DoorType, String>(DoorType::Blue),
{
    let row = weights_for_pak(pak_name, weights);
    let roll = crate::rng::roll_percent(rng);
    let dt = match door_type_from_roll(&row, roll) {
        Ok(dt) => dt,
        Err(e) => {
            proof {
                assert(row@ == spec_weights_row(pak_name@, *weights));
            }
            return Err(e);
        },
    };
    proof {
        assert(row@ == spec_weights_row(pak_name@, *weights));
        assert(dt == spec_door_type_from_roll(row@, roll));
    }
    Ok(dt)
}

/// What the windows-1252 encoder produces for a string it can encode.
pub uninterp spec fn win1252_of(s: Seq<char>) -> Seq<u8>;

/// Relies on the encoding crate's WINDOWS_1252 codec with the strict trap:
/// the bytes depend on the characters alone, and an unencodable string
/// yields an error instead of replacement bytes.
#[verifier::external_body]
fn encode_windows1252(s: &str) -> (r: Option<Vec<u8>>)
    ensures
        r matches Some(b) ==> b@ == win1252_of(s@),
{
    match encoding::Encoding::encode(
        encoding::all::WINDOWS_1252,
        s,
        encoding::EncoderTrap::Strict,
    ) {
        Ok(v) => Some(v),
        Err(_) => Option::None,
    }
}

/// Write one banner text field: the encoded bytes must leave room for a
/// terminator within the fixed-width slot, and the rest of the slot is
/// zeroed.
fn write_encoded_str(s: &Option<String>, slot: &mut Vec<u8>) -> (r: Result<(), String>)
    ensures
        final(slot)@.len() == old(slot)@.len() || *s is None,
        match r {
            Ok(()) => match s {
                Some(text) => {
                    &&& win1252_of(text@).len() < old(slot)@.len()
                    &&& final(slot)@.len() == old(slot)@.len()
                    &&& final(slot)@.subrange(0, win1252_of(text@).len() as int)
                        == win1252_of(text@)
                    &&& forall|i: int|
                        win1252_of(text@).len() <= i < final(slot)@.len()
                            ==> final(slot)@[i] == 0
                },
                Option::None => final(slot)@ == old(slot)@,
            },
            Err(_) => *s is Some,
        },
{
    match s {
        Some(text) => {
            let bytes = match encode_windows1252(text.as_str()) {
                Some(b) => b,
                Option::None => {
                    return Err(String::from_str("banner field cannot be encoded"));
                },
            };
            if slot.len() == 0 || bytes.len() >= slot.len() {
                return Err(String::from_str("encoded banner field does not fit its slot"));
            }
            let width = slot.len();
            let mut out: Vec<u8> = Vec::new();
            let mut i: usize = 0;
            while i < bytes.len()
                invariant
                    i <= bytes@.len(),
                    out@ == bytes@.subrange(0, i as int),
                decreases bytes@.len() - i,
            {
                out.push(bytes[i]);
                proof {
                    assert(out@ =~= bytes@.subrange(0, i as int + 1));
                }
                i += 1;
            }
            proof {
                assert(bytes@.subrange(0, bytes@.len() as int) =~= bytes@);
            }
            while out.len() < width
                invariant
                    out@.len() <= width,
                    out@.subrange(0, bytes@.len() as int) == bytes@,
                    bytes@.len() <= out@.len(),
                    forall|k: int| bytes@.len() <= k < out@.len() ==> out@[k] == 0,
                decreases width - out@.len(),
            {
                out.push(0u8);
                proof {
                    assert(out@.subrange(0, bytes@.len() as int) =~= bytes@);
                }
            }
            *slot = out;
            Ok(())
        },
        Option::None => Ok(()),
    }
}

/// Rewrite the disc's opening banner: new image pixels, and each provided
/// text field encoded into its fixed-width slot.
pub fn patch_bnr(
    file: &mut FstEntryFile,
    pixels: &Vec<u8>,
    game_name: &Option<String>,
    developer: &Option<String>,
    game_name_full: &Option<String>,
    developer_full: &Option<String>,
    description: &Option<String>,
) -> (r: Result<(), String>)
    ensures
        r is Ok ==> *old(file) is Bnr && *final(file) is Bnr,
{
    match file {
        FstEntryFile::Bnr(bnr) => {
            let mut new_pixels: Vec<u8> = Vec::new();
            let mut i: usize = 0;
            while i < pixels.len()
                invariant
                    i <= pixels@.len(),
                decreases pixels@.len() - i,
            {
                new_pixels.push(pixels[i]);
                i += 1;
            }
            bnr.pixels = new_pixels;
            let r1 = write_encoded_str(game_name, &mut bnr.game_name);
            if let Err(e) = r1 {
                return Err(e);
            }
            let r2 = write_encoded_str(developer, &mut bnr.developer);
            if let Err(e) = r2 {
                return Err(e);
            }
            let r3 = write_encoded_str(game_name_full, &mut bnr.game_name_full);
            if let Err(e) = r3 {
                return Err(e);
            }
            let r4 = write_encoded_str(developer_full, &mut bnr.developer_full);
            if let Err(e) = r4 {
                return Err(e);
            }
            let r5 = write_encoded_str(description, &mut bnr.description);
            if let Err(e) = r5 {
                return Err(e);
            }
            Ok(())
        },
        _ => Err(String::from_str("file is not the banner")),
    }
}

} // verus!
