//! Kernel extensions (file systems, disks and other device services run
//! outside the kernel): their registration, endpoints and revocation.

pub mod disk;

use vstd::prelude::*;

verus! {

#[derive(Clone, Copy, Debug, PartialEq, Eq, Structural)]
pub enum CextKind {
    Filesystem,
    BlockDevice,
    DeviceService,
    Other,
}

/// An IPC endpoint, by its kernel id.
#[derive(Clone, Copy, Debug, PartialEq, Eq, Structural)]
pub struct IpcEndpoint(pub u64);

/// A registered extension.
#[derive(Clone, Debug)]
pub struct CextInstance {
    pub id: u64,
    pub name: String,
    pub kind: CextKind,
    pub process_id: Option<u64>,
    pub endpoint: Option<IpcEndpoint>,
    pub loaded: bool,
}

/// What the registry holds of an extension.
pub struct CextRecord {
    pub name: Seq<char>,
    pub kind: CextKind,
    pub process_id: Option<u64>,
    pub endpoint: Option<IpcEndpoint>,
    pub loaded: bool,
}

/// Registered extensions by id, and the next id to hand out.
pub struct CextRegistry {
    next_id: u64,
    instances: Vec<CextInstance>,
}

pub open spec fn record_of(c: CextInstance) -> CextRecord {
    CextRecord { name: c.name@, kind: c.kind, process_id: c.process_id, endpoint: c.endpoint, loaded: c.loaded }
}

impl CextRegistry {
    pub closed spec fn next(&self) -> u64 {
        self.next_id
    }

    /// Extensions by id.
    pub closed spec fn records(&self) -> Map<u64, CextRecord> {
        records_of(self.instances@)
    }

    #[verifier::type_invariant]
    spec fn unique_ids(self) -> bool {
        ids_unique(self.instances@)
    }

    pub fn new() -> (r: Self)
        ensures
            r.next() == 1,
            r.records() == Map::<u64, CextRecord>::empty(),
    {
        let r = CextRegistry { next_id: 1, instances: Vec::new() };
        assert(r.records() =~= Map::<u64, CextRecord>::empty());
        r
    }

    fn position(&self, id: u64) -> (r: Option<usize>)
        ensures
            r matches Some(i) ==> i < self.instances@.len() && self.instances@[i as int].id == id,
            r is None ==> !self.records().contains_key(id),
    {
        let mut i: usize = 0;
        while i < self.instances.len()
            invariant
                i <= self.instances@.len(),
                forall|j: int| 0 <= j < i ==> #[trigger] self.instances@[j].id != id,
            decreases self.instances@.len() - i,
        {
            if self.instances[i].id == id {
                return Some(i);
            }
            i = i + 1;
        }
        None
    }

    /// Registers a loaded extension named `name` under the next id, which it
    /// returns; the id counter wraps.
    pub fn load_cext(&mut self, name: &str, kind: CextKind, process_id: Option<u64>) -> (id: u64)
        ensures
            id == old(self).next(),
            final(self).next() == (if old(self).next() == u64::MAX { 0 } else { old(self).next() + 1 }),
            final(self).records() == old(self).records().insert(id, CextRecord {
                name: name@,
                kind,
                process_id,
                endpoint: None,
                loaded: true,
            }),
    {
        proof {
            use_type_invariant(&*self);
        }
        let id = self.next_id;
        self.next_id = self.next_id.wrapping_add(1);
        let instance = CextInstance { id, name: name.to_owned(), kind, process_id, endpoint: None, loaded: true };
        let ghost before = self.instances@;
        let mut instances = Vec::new();
        std::mem::swap(&mut instances, &mut self.instances);
        match position_in(&instances, id) {
            Some(i) => {
                instances.set(i, instance);
                proof {
                    lemma_replace_record(before, i as int, instance);
                }
            },
            None => {
                instances.push(instance);
                proof {
                    lemma_push_record(before, instance);
                }
            },
        }
        self.instances = instances;
        id
    }

    /// Attaches `endpoint` to extension `id`; whether it is registered.
    pub fn register_endpoint(&mut self, id: u64, endpoint: IpcEndpoint) -> (r: bool)
        ensures
            r == old(self).records().contains_key(id),
            final(self).next() == old(self).next(),
            r ==> final(self).records() == old(self).records().insert(id, CextRecord {
                endpoint: Some(endpoint),
                ..old(self).records()[id]
            }),
            !r ==> final(self).records() == old(self).records(),
    {
        proof {
            use_type_invariant(&*self);
        }
        match self.position(id) {
            None => false,
            Some(i) => {
                let current = &self.instances[i];
                let instance = CextInstance {
                    id: current.id,
                    name: current.name.clone(),
                    kind: current.kind,
                    process_id: current.process_id,
                    endpoint: Some(endpoint),
                    loaded: current.loaded,
                };
                proof {
                    lemma_record_at(self.instances@, i as int);
                }
                let ghost before = self.instances@;
                let mut instances = Vec::new();
                std::mem::swap(&mut instances, &mut self.instances);
                instances.set(i, instance);
                proof {
                    lemma_replace_record(before, i as int, instance);
                }
                self.instances = instances;
                true
            },
        }
    }

    pub fn endpoint_for(&self, id: u64) -> (r: Option<IpcEndpoint>)
        ensures
            r == (if self.records().contains_key(id) { self.records()[id].endpoint } else { None }),
    {
        proof {
            use_type_invariant(self);
        }
        match self.position(id) {
            None => None,
            Some(i) => {
                proof {
                    lemma_record_at(self.instances@, i as int);
                }
                self.instances[i].endpoint
            },
        }
    }

    /// Marks extension `id` unloaded and drops its endpoint; whether it is registered.
    pub fn revoke(&mut self, id: u64) -> (r: bool)
        ensures
            r == old(self).records().contains_key(id),
            final(self).next() == old(self).next(),
            r ==> final(self).records() == old(self).records().insert(id, CextRecord {
                loaded: false,
                endpoint: None,
                ..old(self).records()[id]
            }),
            !r ==> final(self).records() == old(self).records(),
    {
        proof {
            use_type_invariant(&*self);
        }
        match self.position(id) {
            None => false,
            Some(i) => {
                let current = &self.instances[i];
                let instance = CextInstance {
                    id: current.id,
                    name: current.name.clone(),
                    kind: current.kind,
                    process_id: current.process_id,
                    endpoint: None,
                    loaded: false,
                };
                proof {
                    lemma_record_at(self.instances@, i as int);
                }
                let ghost before = self.instances@;
                let mut instances = Vec::new();
                std::mem::swap(&mut instances, &mut self.instances);
                instances.set(i, instance);
                proof {
                    lemma_replace_record(before, i as int, instance);
                }
                self.instances = instances;
                true
            },
        }
    }

    /// Forgets extension `id`; whether it was registered.
    pub fn unregister(&mut self, id: u64) -> (r: bool)
        ensures
            r == old(self).records().contains_key(id),
            final(self).next() == old(self).next(),
            final(self).records() == old(self).records().remove(id),
    {
        proof {
            use_type_invariant(&*self);
        }
        match self.position(id) {
            None => {
                assert(old(self).records().remove(id) =~= old(self).records());
                false
            },
            Some(i) => {
                let ghost before = self.instances@;
                let mut instances = Vec::new();
                std::mem::swap(&mut instances, &mut self.instances);
                let _ = instances.remove(i);
                proof {
                    lemma_remove_record(before, i as int);
                }
                self.instances = instances;
                true
            },
        }
    }
}

/// Runtime configuration of extensions: the kernel keeps none of its own.
pub fn init_runtime_config() {
}

/// Extension modules built into the kernel: there are none to load.
pub fn load_modules() {
}

spec fn instance_index(instances: Seq<CextInstance>, id: u64) -> int {
    choose|i: int| 0 <= i < instances.len() && #[trigger] instances[i].id == id
}

spec fn ids_unique(instances: Seq<CextInstance>) -> bool {
    forall|i: int, j: int| 0 <= i < j < instances.len() ==> #[trigger] instances[i].id != #[trigger] instances[j].id
}

spec fn records_of(instances: Seq<CextInstance>) -> Map<u64, CextRecord> {
    Map::new(
        |id: u64| exists|i: int| 0 <= i < instances.len() && #[trigger] instances[i].id == id,
        |id: u64| record_of(instances[instance_index(instances, id)]),
    )
}

fn position_in(instances: &Vec<CextInstance>, id: u64) -> (r: Option<usize>)
    ensures
        r matches Some(i) ==> i < instances@.len() && instances@[i as int].id == id,
        r is None ==> forall|j: int| 0 <= j < instances@.len() ==> #[trigger] instances@[j].id != id,
{
    let mut i: usize = 0;
    while i < instances.len()
        invariant
            i <= instances@.len(),
            forall|j: int| 0 <= j < i ==> #[trigger] instances@[j].id != id,
        decreases instances@.len() - i,
    {
        if instances[i].id == id {
            return Some(i);
        }
        i = i + 1;
    }
    None
}

proof fn lemma_record_at(instances: Seq<CextInstance>, i: int)
    requires
        ids_unique(instances),
        0 <= i < instances.len(),
    ensures
        records_of(instances).contains_key(instances[i].id),
        records_of(instances)[instances[i].id] == record_of(instances[i]),
{
    let id = instances[i].id;
    assert(exists|k: int| 0 <= k < instances.len() && #[trigger] instances[k].id == id);
    let k = instance_index(instances, id);
    if k != i {
        if k < i {
            assert(instances[k].id != instances[i].id);
        } else {
            assert(instances[i].id != instances[k].id);
        }
    }
}

proof fn lemma_replace_record(instances: Seq<CextInstance>, i: int, instance: CextInstance)
    requires
        ids_unique(instances),
        0 <= i < instances.len(),
        instance.id == instances[i].id,
    ensures
        ids_unique(instances.update(i, instance)),
        records_of(instances.update(i, instance)) == records_of(instances).insert(instance.id, record_of(instance)),
{
    let n = instances.update(i, instance);
    assert forall|a: int, b: int| 0 <= a < b < n.len() implies #[trigger] n[a].id != #[trigger] n[b].id by {
        assert(n[a].id == instances[a].id && n[b].id == instances[b].id);
    }
    assert forall|id: u64| records_of(n).contains_key(id) <==> records_of(instances).insert(instance.id, record_of(instance)).contains_key(id) by {
        if records_of(n).contains_key(id) {
            let k = instance_index(n, id);
            assert(n[k].id == instances[k].id);
        }
        if records_of(instances).contains_key(id) {
            let k = instance_index(instances, id);
            assert(n[k].id == instances[k].id);
        }
        if id == instance.id {
            assert(n[i].id == id);
        }
    }
    assert forall|id: u64| #[trigger] records_of(n).contains_key(id) implies records_of(n)[id] == records_of(instances).insert(instance.id, record_of(instance))[id] by {
        let k = instance_index(n, id);
        lemma_record_at(n, k);
        if k != i {
            lemma_record_at(instances, k);
        }
    }
    assert(records_of(n) =~= records_of(instances).insert(instance.id, record_of(instance)));
}

proof fn lemma_push_record(instances: Seq<CextInstance>, instance: CextInstance)
    requires
        ids_unique(instances),
        forall|j: int| 0 <= j < instances.len() ==> #[trigger] instances[j].id != instance.id,
    ensures
        ids_unique(instances.push(instance)),
        records_of(instances.push(instance)) == records_of(instances).insert(instance.id, record_of(instance)),
{
    let n = instances.push(instance);
    assert forall|a: int, b: int| 0 <= a < b < n.len() implies #[trigger] n[a].id != #[trigger] n[b].id by {
        if b == instances.len() {
            assert(n[a].id == instances[a].id);
        }
    }
    assert forall|id: u64| records_of(n).contains_key(id) <==> records_of(instances).insert(instance.id, record_of(instance)).contains_key(id) by {
        if records_of(n).contains_key(id) {
            let k = instance_index(n, id);
            if k < instances.len() {
                assert(n[k] == instances[k]);
            }
        }
        if records_of(instances).contains_key(id) {
            let k = instance_index(instances, id);
            assert(n[k] == instances[k]);
        }
        if id == instance.id {
            assert(n[instances.len() as int].id == id);
        }
    }
    assert forall|id: u64| #[trigger] records_of(n).contains_key(id) implies records_of(n)[id] == records_of(instances).insert(instance.id, record_of(instance))[id] by {
        let k = instance_index(n, id);
        lemma_record_at(n, k);
        if k < instances.len() {
            assert(n[k] == instances[k]);
            lemma_record_at(instances, k);
        }
    }
    assert(records_of(n) =~= records_of(instances).insert(instance.id, record_of(instance)));
}

proof fn lemma_remove_record(instances: Seq<CextInstance>, i: int)
    requires
        ids_unique(instances),
        0 <= i < instances.len(),
    ensures
        ids_unique(instances.remove(i)),
        records_of(instances.remove(i)) == records_of(instances).remove(instances[i].id),
{
    let n = instances.remove(i);
    let gone = instances[i].id;
    assert forall|a: int, b: int| 0 <= a < b < n.len() implies #[trigger] n[a].id != #[trigger] n[b].id by {
        let a0 = if a < i { a } else { a + 1 };
        let b0 = if b < i { b } else { b + 1 };
        assert(n[a] == instances[a0] && n[b] == instances[b0]);
    }
    assert forall|id: u64| records_of(n).contains_key(id) <==> records_of(instances).remove(gone).contains_key(id) by {
        if records_of(n).contains_key(id) {
            let k = instance_index(n, id);
            let k0 = if k < i { k } else { k + 1 };
            assert(n[k] == instances[k0]);
            assert(k0 != i);
        }
        if records_of(instances).contains_key(id) && id != gone {
            let k = instance_index(instances, id);
            assert(k != i);
            if k < i {
                assert(n[k] == instances[k]);
            } else {
                assert(n[k - 1] == instances[k]);
            }
        }
    }
    assert forall|id: u64| #[trigger] records_of(n).contains_key(id) implies records_of(n)[id] == records_of(instances).remove(gone)[id] by {
        let k = instance_index(n, id);
        lemma_record_at(n, k);
        let k0 = if k < i { k } else { k + 1 };
        assert(n[k] == instances[k0]);
        lemma_record_at(instances, k0);
    }
    assert(records_of(n) =~= records_of(instances).remove(gone));
}

} // verus!
