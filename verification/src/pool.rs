//! Resources and the Dependency Pool: the fully-resolved mapping from every
//! `(id, type)` key a patch run needs to its concrete resource data.

use vstd::prelude::*;

use crate::ids::{ResKey, FourCC};
use crate::scly::{MlvlArea, Vec3};

verus! {

/// A parsed model: the texture ids its material set references, and the
/// remaining geometry carried through opaquely.
#[derive(Clone, Debug)]
pub struct ModelData {
    pub texture_ids: Vec<u32>,
    pub geometry: Vec<u8>,
}

/// A parsed character animation set: the model it binds, the particle
/// effects it spawns, its event table and animation, and the rest opaque.
#[derive(Clone, Debug)]
pub struct AnimSetData {
    pub cmdl: u32,
    pub part_assets: Vec<u32>,
    pub evnt: u32,
    pub anim: u32,
    pub body: Vec<u8>,
}

/// A parsed animation event table: the effect id each event spawns.
#[derive(Clone, Debug)]
pub struct EvntData {
    pub effect_events: Vec<u32>,
}

/// A parsed scan point definition.
#[derive(Clone, Debug)]
pub struct ScanData {
    pub frme: u32,
    pub strg: u32,
    pub scan_speed: u32,
    pub category: u32,
    pub icon_flag: u32,
}

/// One entry of a save-world's scan list.
#[derive(Clone, Copy, Debug, PartialEq, Eq, Structural)]
pub struct ScannableObject {
    pub scan: u32,
    pub logbook_category: u32,
}

/// A parsed save-world table.
#[derive(Clone, Debug)]
pub struct SavwData {
    pub scan_array: Vec<ScannableObject>,
}

/// One language's table within a string-table resource.
#[derive(Clone, Debug)]
pub struct StrgTable {
    pub lang: FourCC,
    pub strings: Vec<String>,
}

/// A parsed string-table resource.
#[derive(Clone, Debug)]
pub struct StrgData {
    pub tables: Vec<StrgTable>,
}

/// One icon on an area's map.
#[derive(Clone, Copy, Debug, PartialEq, Eq, Structural)]
pub struct MapaObject {
    pub editor_id: u32,
    pub type_code: u32,
    pub is_vertical: bool,
}

/// A parsed area map.
#[derive(Clone, Debug)]
pub struct MapaData {
    pub objects: Vec<MapaObject>,
}

/// A text pane of a GUI frame.
#[derive(Clone, Debug)]
pub struct TextPaneWidget {
    pub font: u32,
    pub word_wrap: bool,
    pub fill_color_m: Vec3,
    pub outline_color_m: Vec3,
}

/// The typed part of a GUI widget.
#[derive(Clone, Debug)]
pub enum FrmeWidgetKind {
    TextPane(TextPaneWidget),
    Other(u32),
}

/// One widget of a GUI frame.
#[derive(Clone, Debug)]
pub struct FrmeWidget {
    pub name: String,
    pub parent: String,
    pub origin: Vec3,
    pub kind: FrmeWidgetKind,
}

/// A parsed GUI frame.
#[derive(Clone, Debug)]
pub struct FrmeData {
    pub widgets: Vec<FrmeWidget>,
}

/// A resource's payload: raw bytes as read from a container, re-serialized
/// bytes produced by this tool, or a fully-parsed typed structure.
#[derive(Clone, Debug)]
pub enum ResourceKind {
    /// Undecoded bytes, exactly as the container holds them.
    Raw(Vec<u8>),
    /// Bytes this tool produced; written back verbatim.
    External(Vec<u8>),
    Model(ModelData),
    AnimSet(AnimSetData),
    Evnt(EvntData),
    Scan(ScanData),
    Savw(SavwData),
    Strg(StrgData),
    Mapa(MapaData),
    Frme(FrmeData),
    Area(MlvlArea),
}

/// One typed, identifiable resource of a container.
#[derive(Clone, Debug)]
pub struct Resource {
    pub file_id: u32,
    pub fourcc: FourCC,
    pub compressed: bool,
    pub kind: ResourceKind,
}

impl Resource {
    pub open spec fn spec_key(self) -> ResKey {
        ResKey { id: self.file_id, fourcc: self.fourcc }
    }

    pub fn key(&self) -> (k: ResKey)
        ensures
            k == self.spec_key(),
    {
        ResKey { id: self.file_id, fourcc: self.fourcc }
    }
}

/// Assemble an uncompressed resource, as for newly synthesized assets.
pub fn build_resource(file_id: u32, fourcc: FourCC, kind: ResourceKind) -> (r: Resource)
    ensures
        r.file_id == file_id,
        r.fourcc == fourcc,
        !r.compressed,
        r.kind == kind,
{
    Resource { file_id, fourcc, compressed: false, kind }
}

/// The mapping from every `(id, type)` key the patch run needs to its
/// resource, assembled once before any patch runs.
#[derive(Clone, Debug)]
pub struct DependencyPool {
    pub resources: Vec<Resource>,
}

impl DependencyPool {
    /// Keys are unique within the pool.
    pub open spec fn wf(self) -> bool {
        forall|i: int, j: int|
            0 <= i < j < self.resources@.len()
                ==> self.resources@[i].spec_key() != self.resources@[j].spec_key()
    }

    pub open spec fn spec_contains(self, k: ResKey) -> bool {
        exists|i: int| 0 <= i < self.resources@.len() && self.resources@[i].spec_key() == k
    }

    /// The entry stored under `k`; meaningful only where the pool holds the
    /// key and its keys are unique.
    pub open spec fn spec_entry(self, k: ResKey) -> Resource {
        self.resources@[choose|i: int|
            0 <= i < self.resources@.len() && self.resources@[i].spec_key() == k]
    }

    pub fn new() -> (p: DependencyPool)
        ensures
            p.wf(),
            p.resources@.len() == 0,
    {
        DependencyPool { resources: Vec::new() }
    }

    /// The index of the entry with key `k`, if the pool holds one.
    pub fn find(&self, k: &ResKey) -> (r: Option<usize>)
        ensures
            match r {
                Some(i) => i < self.resources@.len() && self.resources@[i as int].spec_key()
                    == *k,
                None => !self.spec_contains(*k),
            },
    {
        let mut i: usize = 0;
        while i < self.resources.len()
            invariant
                i <= self.resources@.len(),
                forall|j: int| 0 <= j < i ==> self.resources@[j].spec_key() != *k,
            decreases self.resources@.len() - i,
        {
            let rk = self.resources[i].key();
            if rk == *k {
                return Some(i);
            }
            i += 1;
        }
        None
    }

    pub fn contains_key(&self, k: &ResKey) -> (r: bool)
        ensures
            r == self.spec_contains(*k),
    {
        self.find(k).is_some()
    }

    /// Borrow the entry with key `k`.
    pub fn get(&self, k: &ResKey) -> (r: Option<&Resource>)
        requires
            self.wf(),
        ensures
            match r {
                Some(res) => self.spec_contains(*k) && res.spec_key() == *k
                    && self.resources@.contains(*res) && *res == self.spec_entry(*k),
                None => !self.spec_contains(*k),
            },
    {
        match self.find(k) {
            Some(i) => {
                let res = &self.resources[i];
                proof {
                    assert(self.resources@.contains(self.resources@[i as int]));
                    let j = choose|j: int|
                        0 <= j < self.resources@.len() && self.resources@[j].spec_key() == *k;
                    assert(self.resources@[j].spec_key() == *k);
                    assert(j == i);
                }
                Some(res)
            },
            None => None,
        }
    }

    /// Add `res` under its key; refuses a key the pool already holds, since
    /// a resource is read once and written back exactly once.
    pub fn insert(&mut self, res: Resource) -> (r: Result<(), String>)
        requires
            old(self).wf(),
        ensures
            final(self).wf(),
            match r {
                Ok(()) => {
                    &&& !old(self).spec_contains(res.spec_key())
                    &&& final(self).resources@ == old(self).resources@.push(res)
                    &&& final(self).spec_contains(res.spec_key())
                },
                Err(_) => {
                    &&& old(self).spec_contains(res.spec_key())
                    &&& *final(self) == *old(self)
                },
            },
    {
        let k = res.key();
        if self.contains_key(&k) {
            return Err(String::from_str("duplicate key in dependency pool"));
        }
        proof {
            assert(forall|i: int|
                0 <= i < self.resources@.len() ==> self.resources@[i].spec_key() != res.spec_key());
        }
        let ghost pre = self.resources@;
        self.resources.push(res);
        proof {
            assert(self.resources@[pre.len() as int] == res);
            assert forall|i: int, j: int| 0 <= i < j < self.resources@.len()
                implies self.resources@[i].spec_key() != self.resources@[j].spec_key() by {
                if j < pre.len() {
                    assert(self.resources@[i] == pre[i] && self.resources@[j] == pre[j]);
                } else {
                    assert(self.resources@[i] == pre[i]);
                    assert(self.resources@[j] == res);
                }
            }
        }
        Ok(())
    }
}

/// Remove the first occurrence of `k` from `outstanding`, if present;
/// reports whether it was there.
pub fn remove_key(outstanding: &mut Vec<ResKey>, k: ResKey) -> (r: bool)
    ensures
        r == old(outstanding)@.contains(k),
        r ==> exists|i: int|
            0 <= i < old(outstanding)@.len() && old(outstanding)@[i] == k && final(outstanding)@
                == old(outstanding)@.remove(i),
        !r ==> final(outstanding)@ == old(outstanding)@,
        forall|x: ResKey| final(outstanding)@.contains(x) ==> old(outstanding)@.contains(x),
        forall|x: ResKey| x != k && old(outstanding)@.contains(x) ==> final(outstanding)@.contains(x),
{
    let mut i: usize = 0;
    while i < outstanding.len()
        invariant
            i <= outstanding@.len(),
            outstanding@ == old(outstanding)@,
            forall|j: int| 0 <= j < i ==> outstanding@[j] != k,
        decreases outstanding@.len() - i,
    {
        if outstanding[i] == k {
            let ghost pre = outstanding@;
            outstanding.remove(i);
            proof {
                assert(pre.contains(k));
                assert forall|x: ResKey| final(outstanding)@.contains(x)
                    implies pre.contains(x) by {
                    let j = choose|j: int|
                        0 <= j < outstanding@.len() && outstanding@[j] == x;
                    if j < i {
                        assert(pre[j] == x);
                    } else {
                        assert(pre[j + 1] == x);
                    }
                }
                assert forall|x: ResKey| x != k && pre.contains(x)
                    implies final(outstanding)@.contains(x) by {
                    let j = choose|j: int| 0 <= j < pre.len() && pre[j] == x;
                    if j < i {
                        assert(outstanding@[j] == x);
                    } else {
                        assert(j != i);
                        assert(outstanding@[j - 1] == x);
                    }
                }
            }
            return true;
        }
        i += 1;
    }
    false
}

} // verus!
