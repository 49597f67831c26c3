//! The patch scheduler: an ordered registry of patch operations keyed by
//! container, resource or area, applied in registration order over one walk
//! of the disc, with the fresh-instance-id allocator threaded through every
//! script-graph patch.

use vstd::prelude::*;

use crate::ids::{ResKey, FOURCC_MREA};
use crate::pool::{Resource, ResourceKind};
use crate::scly::{IdAllocator, MlvlArea};
use crate::patches::{PatchOp, PatchContext, apply_scly_op, apply_resource_op, apply_file_op};

verus! {

/// One archive of resources within the disc's filesystem.
#[derive(Clone, Debug)]
pub struct Pak {
    pub resources: Vec<Resource>,
}

/// The payload of one filesystem entry.
#[derive(Clone, Debug)]
pub enum FstEntryFile {
    Pak(Pak),
    /// The opening banner: image pixels and the fixed-width text fields.
    Bnr(BnrData),
    /// Any other file, carried as bytes.
    Unknown(Vec<u8>),
}

/// The disc's opening banner.
#[derive(Clone, Debug)]
pub struct BnrData {
    pub pixels: Vec<u8>,
    pub game_name: Vec<u8>,
    pub developer: Vec<u8>,
    pub game_name_full: Vec<u8>,
    pub developer_full: Vec<u8>,
    pub description: Vec<u8>,
}

/// One entry of the disc's filesystem table.
#[derive(Clone, Debug)]
pub struct FstFile {
    pub name: String,
    pub file: FstEntryFile,
}

/// The disc header fields that identify the title and revision.
#[derive(Clone, Debug)]
pub struct GcDiscHeader {
    pub game_id: Vec<u8>,
    pub disc_id: u8,
    pub version: u8,
}

/// The in-memory model of the disc: header plus filesystem.
#[derive(Clone, Debug)]
pub struct GcDisc {
    pub header: GcDiscHeader,
    pub files: Vec<FstFile>,
}

impl GcDisc {
    /// The index of the first file named `name`, if any.
    pub fn find_file(&self, name: &str) -> (r: Option<usize>)
        ensures
            match r {
                Some(i) => i < self.files@.len() && self.files@[i as int].name@ == name@
                    && forall|j: int| 0 <= j < i ==> self.files@[j].name@ != name@,
                None => forall|j: int|
                    0 <= j < self.files@.len() ==> self.files@[j].name@ != name@,
            },
    {
        let mut i: usize = 0;
        while i < self.files.len()
            invariant
                i <= self.files@.len(),
                forall|j: int| 0 <= j < i ==> self.files@[j].name@ != name@,
            decreases self.files@.len() - i,
        {
            if crate::text::str_eq(self.files[i].name.as_str(), name) {
                return Some(i);
            }
            i += 1;
        }
        None
    }

    /// Append a new file to the filesystem table.
    pub fn add_file(&mut self, name: String, file: FstEntryFile)
        ensures
            final(self).files@.len() == old(self).files@.len() + 1,
            forall|i: int|
                0 <= i < old(self).files@.len()
                    ==> final(self).files@[i] == old(self).files@[i],
            final(self).files@.last().name == name,
            final(self).header == old(self).header,
    {
        self.files.push(FstFile { name, file });
    }
}

impl GcDisc {
    /// The position of one resource of one container: the file index of
    /// the container and the resource's index within it.
    pub fn find_resource(&self, pak_name: &str, key: ResKey) -> (r: Option<(usize, usize)>)
        ensures
            r matches Some(pos) ==> {
                &&& pos.0 < self.files@.len()
                &&& self.files@[pos.0 as int].name@ == pak_name@
                &&& self.files@[pos.0 as int].file matches FstEntryFile::Pak(pak)
                    && pos.1 < pak.resources@.len() && pak.resources@[pos.1 as int].spec_key()
                    == key
            },
            r is None ==> {
                ||| (forall|j: int|
                    0 <= j < self.files@.len() ==> (#[trigger] self.files@[j]).name@
                        != pak_name@)
                ||| (exists|i: int|
                    {
                        &&& 0 <= i < self.files@.len()
                        &&& (#[trigger] self.files@[i]).name@ == pak_name@
                        &&& (forall|j: int| 0 <= j < i ==> self.files@[j].name@ != pak_name@)
                        &&& (self.files@[i].file matches FstEntryFile::Pak(p) ==> forall|k: int|
                            0 <= k < p.resources@.len()
                                ==> (#[trigger] p.resources@[k]).spec_key() != key)
                    })
            },
    {
        let fi = match self.find_file(pak_name) {
            Some(fi) => fi,
            None => {
                return None;
            },
        };
        match &self.files[fi].file {
            FstEntryFile::Pak(pak) => match find_resource_idx(&pak.resources, key) {
                Some(ri) => Some((fi, ri)),
                None => None,
            },
            _ => None,
        }
    }
}

/// The index of the first resource with key `k` in `resources`.
pub fn find_resource_idx(resources: &Vec<Resource>, k: ResKey) -> (r: Option<usize>)
    ensures
        match r {
            Some(i) => i < resources@.len() && resources@[i as int].spec_key() == k,
            None => forall|j: int| 0 <= j < resources@.len() ==> resources@[j].spec_key() != k,
        },
{
    let mut i: usize = 0;
    while i < resources.len()
        invariant
            i <= resources@.len(),
            forall|j: int| 0 <= j < i ==> resources@[j].spec_key() != k,
        decreases resources@.len() - i,
    {
        let rk = resources[i].key();
        if rk == k {
            return Some(i);
        }
        i += 1;
    }
    None
}

/// The per-run mutable state threaded through every script-graph patch:
/// primarily the fresh-instance-id allocator.
pub struct PatcherState {
    pub fresh_instance_id_range: IdAllocator,
}

/// What one registration targets.
#[derive(Clone, Debug)]
pub enum PatchTarget {
    /// A file of the disc's filesystem, by name.
    File { name: String },
    /// One resource of one container.
    Res { pak: String, key: ResKey },
    /// The script graph of one area of one container.
    Scly { pak: String, mrea_id: u32 },
}

/// The filesystem entry a target is looked up under: the file itself for a
/// file patch, the containing pak for a resource or area patch.
pub open spec fn spec_target_file_name(t: PatchTarget) -> Seq<char> {
    match t {
        PatchTarget::File { name } => name@,
        PatchTarget::Res { pak, key } => pak@,
        PatchTarget::Scly { pak, mrea_id } => pak@,
    }
}

/// One registered patch: where it applies, and what it does.
#[derive(Clone, Debug)]
pub struct Registration {
    pub target: PatchTarget,
    pub op: PatchOp,
}

/// The ordered patch registry. Registrations are applied in registration
/// order; a later patch on the same target observes the cumulative effect
/// of every earlier patch.
pub struct PrimePatcher {
    pub regs: Vec<Registration>,
}

impl PrimePatcher {
    pub fn new() -> (p: PrimePatcher)
        ensures
            p.regs@.len() == 0,
    {
        PrimePatcher { regs: Vec::new() }
    }

    pub fn add_file_patch(&mut self, name: String, op: PatchOp)
        ensures
            final(self).regs@ == old(self).regs@.push(
                Registration { target: PatchTarget::File { name }, op },
            ),
    {
        self.regs.push(Registration { target: PatchTarget::File { name }, op });
    }

    pub fn add_resource_patch(&mut self, pak: String, key: ResKey, op: PatchOp)
        ensures
            final(self).regs@ == old(self).regs@.push(
                Registration { target: PatchTarget::Res { pak, key }, op },
            ),
    {
        self.regs.push(Registration { target: PatchTarget::Res { pak, key }, op });
    }

    pub fn add_scly_patch(&mut self, pak: String, mrea_id: u32, op: PatchOp)
        ensures
            final(self).regs@ == old(self).regs@.push(
                Registration { target: PatchTarget::Scly { pak, mrea_id }, op },
            ),
    {
        self.regs.push(Registration { target: PatchTarget::Scly { pak, mrea_id }, op });
    }

    /// Walk the registry in order over the disc. A missing target is a
    /// fatal error, never silently skipped; the first failing operation
    /// aborts the run, and nothing is serialized after a failed run.
    pub fn run(&self, disc: &mut GcDisc, ctx: &PatchContext) -> (r: Result<(), String>)
        requires
            ctx.wf(),
        ensures
            r is Ok ==> {
                &&& final(disc).files@.len() == old(disc).files@.len()
                &&& (forall|i: int|
                    0 <= i < final(disc).files@.len()
                        ==> final(disc).files@[i].name == old(disc).files@[i].name)
                &&& final(disc).header == old(disc).header
            },
            // No registration is silently skipped: on success, every
            // registration's file or container was found on the disc.
            r is Ok ==> forall|k: int|
                0 <= k < self.regs@.len() ==> exists|j: int|
                    0 <= j < final(disc).files@.len()
                        && (#[trigger] final(disc).files@[j]).name@ == spec_target_file_name(
                        (#[trigger] self.regs@[k]).target,
                    ),
    {
        let max_id = max_instance_id(disc);
        if max_id == u32::MAX {
            return Err(String::from_str("instance id space exhausted"));
        }
        let mut ps = PatcherState { fresh_instance_id_range: IdAllocator::new_above(max_id) };
        let mut i: usize = 0;
        while i < self.regs.len()
            invariant
                ctx.wf(),
                i <= self.regs@.len(),
                disc.files@.len() == old(disc).files@.len(),
                forall|j: int|
                    0 <= j < disc.files@.len()
                        ==> disc.files@[j].name == old(disc).files@[j].name,
                disc.header == old(disc).header,
                forall|k: int|
                    0 <= k < i ==> exists|j: int|
                        0 <= j < disc.files@.len() && (#[trigger] disc.files@[j]).name@
                            == spec_target_file_name((#[trigger] self.regs@[k]).target),
            decreases self.regs@.len() - i,
        {
            let ghost files0 = disc.files@;
            let reg = &self.regs[i];
            match &reg.target {
                PatchTarget::File { name } => {
                    let idx = match disc.find_file(name.as_str()) {
                        Some(idx) => idx,
                        None => {
                            return Err(String::from_str("patch target file not found"));
                        },
                    };
                    let mut entry = self.take_file(disc, idx);
                    let res = apply_file_op(&reg.op, &mut entry.file, ctx);
                    self.put_file(disc, idx, entry);
                    if let Err(e) = res {
                        return Err(e);
                    }
                    proof {
                        assert(disc.files@[idx as int].name@ == spec_target_file_name(
                            self.regs@[i as int].target,
                        ));
                    }
                },
                PatchTarget::Res { pak, key } => {
                    match self.patch_resource(disc, &mut ps, pak.as_str(), *key, &reg.op, ctx) {
                        Ok(()) => {},
                        Err(e) => {
                            return Err(e);
                        },
                    }
                },
                PatchTarget::Scly { pak, mrea_id } => {
                    let key = ResKey { id: *mrea_id, fourcc: FOURCC_MREA };
                    match self.patch_area(disc, &mut ps, pak.as_str(), key, &reg.op, ctx) {
                        Ok(()) => {},
                        Err(e) => {
                            return Err(e);
                        },
                    }
                },
            }
            proof {
                assert forall|k: int| 0 <= k < i + 1 implies exists|j: int|
                    0 <= j < disc.files@.len() && (#[trigger] disc.files@[j]).name@
                        == spec_target_file_name((#[trigger] self.regs@[k]).target) by {
                    if k < i {
                        let j = choose|j: int|
                            0 <= j < files0.len() && files0[j].name@ == spec_target_file_name(
                                self.regs@[k].target,
                            );
                        assert(disc.files@[j].name == old(disc).files@[j].name);
                        assert(files0[j].name == old(disc).files@[j].name);
                    }
                }
            }
            i += 1;
        }
        Ok(())
    }

    /// Remove file `idx` from the table for in-place editing.
    fn take_file(&self, disc: &mut GcDisc, idx: usize) -> (f: FstFile)
        requires
            idx < old(disc).files@.len(),
        ensures
            f == old(disc).files@[idx as int],
            final(disc).files@ == old(disc).files@.remove(idx as int),
            final(disc).header == old(disc).header,
    {
        disc.files.remove(idx)
    }

    /// Put an edited file back at its index.
    fn put_file(&self, disc: &mut GcDisc, idx: usize, f: FstFile)
        requires
            idx <= old(disc).files@.len(),
        ensures
            final(disc).files@ == old(disc).files@.insert(idx as int, f),
            final(disc).header == old(disc).header,
    {
        disc.files.insert(idx, f);
    }

    /// Locate one resource of one container and apply a resource operation
    /// to it in place.
    fn patch_resource(
        &self,
        disc: &mut GcDisc,
        ps: &mut PatcherState,
        pak_name: &str,
        key: ResKey,
        op: &PatchOp,
        ctx: &PatchContext,
    ) -> (r: Result<(), String>)
        requires
            ctx.wf(),
        ensures
            final(disc).files@.len() == old(disc).files@.len(),
            forall|j: int|
                0 <= j < final(disc).files@.len()
                    ==> final(disc).files@[j].name == old(disc).files@[j].name,
            final(disc).header == old(disc).header,
            r is Ok ==> exists|j: int|
                0 <= j < final(disc).files@.len() && (#[trigger] final(disc).files@[j]).name@
                    == pak_name@,
    {
        let idx = match disc.find_file(pak_name) {
            Some(idx) => idx,
            None => {
                return Err(String::from_str("patch target container not found"));
            },
        };
        let mut entry = self.take_file(disc, idx);
        let ghost name = entry.name;
        let result = match &mut entry.file {
            FstEntryFile::Pak(pak) => {
                match find_resource_idx(&pak.resources, key) {
                    Some(ri) => {
                        let mut res = pak.resources.remove(ri);
                        let out = apply_resource_op(op, &mut res, ps, ctx);
                        pak.resources.insert(ri, res);
                        out
                    },
                    None => Err(String::from_str("patch target resource not found")),
                }
            },
            _ => Err(String::from_str("patch target is not a container")),
        };
        self.put_file(disc, idx, entry);
        proof {
            assert(final(disc).files@[idx as int].name@ == pak_name@);
        }
        result
    }

    /// Locate one area of one container and apply a script-graph operation
    /// to it in place, threading the patcher state through.
    fn patch_area(
        &self,
        disc: &mut GcDisc,
        ps: &mut PatcherState,
        pak_name: &str,
        key: ResKey,
        op: &PatchOp,
        ctx: &PatchContext,
    ) -> (r: Result<(), String>)
        requires
            ctx.wf(),
        ensures
            final(disc).files@.len() == old(disc).files@.len(),
            forall|j: int|
                0 <= j < final(disc).files@.len()
                    ==> final(disc).files@[j].name == old(disc).files@[j].name,
            final(disc).header == old(disc).header,
            r is Ok ==> exists|j: int|
                0 <= j < final(disc).files@.len() && (#[trigger] final(disc).files@[j]).name@
                    == pak_name@,
    {
        let idx = match disc.find_file(pak_name) {
            Some(idx) => idx,
            None => {
                return Err(String::from_str("patch target container not found"));
            },
        };
        let mut entry = self.take_file(disc, idx);
        let result = match &mut entry.file {
            FstEntryFile::Pak(pak) => {
                match find_resource_idx(&pak.resources, key) {
                    Some(ri) => {
                        let mut res = pak.resources.remove(ri);
                        let out = match res.kind {
                            ResourceKind::Area(mut area) => {
                                let out2 = apply_scly_op(op, &mut area, ps, ctx);
                                res.kind = ResourceKind::Area(area);
                                out2
                            },
                            other => {
                                res.kind = other;
                                Err(String::from_str("patch target is not an area"))
                            },
                        };
                        pak.resources.insert(ri, res);
                        out
                    },
                    None => Err(String::from_str("patch target area not found")),
                }
            },
            _ => Err(String::from_str("patch target is not a container")),
        };
        self.put_file(disc, idx, entry);
        proof {
            assert(final(disc).files@[idx as int].name@ == pak_name@);
        }
        result
    }
}

/// The largest instance id of one area, or zero for an empty area.
pub fn area_max_instance_id(area: &MlvlArea) -> (r: u32)
    ensures
        forall|l: int, i: int|
            0 <= l < area.layers@.len() && 0 <= i < area.layers@[l].objects@.len()
                ==> area.layers@[l].objects@[i].instance_id <= r,
{
    let mut max: u32 = 0;
    let mut l: usize = 0;
    while l < area.layers.len()
        invariant
            l <= area.layers@.len(),
            forall|a: int, i: int|
                0 <= a < l && 0 <= i < area.layers@[a].objects@.len()
                    ==> area.layers@[a].objects@[i].instance_id <= max,
        decreases area.layers@.len() - l,
    {
        let ghost max_before_layer = max;
        let objs = &area.layers[l].objects;
        let mut i: usize = 0;
        while i < objs.len()
            invariant
                i <= objs@.len(),
                max_before_layer <= max,
                objs@ == area.layers@[l as int].objects@,
                l < area.layers@.len(),
                forall|k: int| 0 <= k < i ==> objs@[k].instance_id <= max,
            decreases objs@.len() - i,
        {
            if objs[i].instance_id > max {
                max = objs[i].instance_id;
            }
            i += 1;
        }
        l += 1;
    }
    max
}

/// The largest instance id observed anywhere on the disc, so the fresh-id
/// allocator can be seeded strictly above every existing id.
pub fn max_instance_id(disc: &GcDisc) -> (r: u32)
    ensures
        forall|f: int, ri: int, l: int, i: int|
            {
                &&& 0 <= f < disc.files@.len()
                &&& disc.files@[f].file is Pak
                &&& 0 <= ri < disc.files@[f].file->Pak_0.resources@.len()
                &&& disc.files@[f].file->Pak_0.resources@[ri].kind is Area
                &&& 0 <= l
                    < disc.files@[f].file->Pak_0.resources@[ri].kind->Area_0.layers@.len()
                &&& 0 <= i
                    < disc.files@[f].file->Pak_0.resources@[ri].kind->Area_0.layers@[l].objects@.len()
            } ==> disc.files@[f].file->Pak_0.resources@[ri].kind->Area_0.layers@[l].objects@[i].instance_id
                <= r,
{
    let mut max: u32 = 0;
    let mut f: usize = 0;
    while f < disc.files.len()
        invariant
            f <= disc.files@.len(),
            forall|a: int, ri: int, l: int, i: int|
                {
                    &&& 0 <= a < f
                    &&& disc.files@[a].file is Pak
                    &&& 0 <= ri < disc.files@[a].file->Pak_0.resources@.len()
                    &&& disc.files@[a].file->Pak_0.resources@[ri].kind is Area
                    &&& 0 <= l
                        < disc.files@[a].file->Pak_0.resources@[ri].kind->Area_0.layers@.len()
                    &&& 0 <= i
                        < disc.files@[a].file->Pak_0.resources@[ri].kind->Area_0.layers@[l].objects@.len()
                } ==> disc.files@[a].file->Pak_0.resources@[ri].kind->Area_0.layers@[l].objects@[i].instance_id
                    <= max,
        decreases disc.files@.len() - f,
    {
        let ghost max_before_file = max;
        match &disc.files[f].file {
            FstEntryFile::Pak(pak) => {
                let mut ri: usize = 0;
                while ri < pak.resources.len()
                    invariant
                        ri <= pak.resources@.len(),
                        max_before_file <= max,
                        f < disc.files@.len(),
                        disc.files@[f as int].file is Pak,
                        pak.resources@ == disc.files@[f as int].file->Pak_0.resources@,
                        forall|b: int, l: int, i: int|
                            {
                                &&& 0 <= b < ri
                                &&& pak.resources@[b].kind is Area
                                &&& 0 <= l < pak.resources@[b].kind->Area_0.layers@.len()
                                &&& 0 <= i
                                    < pak.resources@[b].kind->Area_0.layers@[l].objects@.len()
                            } ==> pak.resources@[b].kind->Area_0.layers@[l].objects@[i].instance_id
                                <= max,
                    decreases pak.resources@.len() - ri,
                {
                    let ghost max_before_res = max;
                    match &pak.resources[ri].kind {
                        ResourceKind::Area(area) => {
                            let m = area_max_instance_id(area);
                            if m > max {
                                max = m;
                            }
                        },
                        _ => {},
                    }
                    ri += 1;
                }
            },
            _ => {},
        }
        f += 1;
    }
    max
}

} // verus!
