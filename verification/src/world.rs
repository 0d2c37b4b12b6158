//! Plain-value model of the live simulation state.
//!
//! The target's world and schedule are opaque, version-fragile structures;
//! the collaborator that walks them hands the library these records, which
//! hold exactly what the dump passes read: names, sizes, flags, raw bytes,
//! and the per-process slot ids that access resolution works on.

use vstd::prelude::*;

verus! {

/// One entry of the world's component registry.
pub struct ComponentInfo {
    pub id: u64,
    pub name: String,
    pub size: u64,
}

/// One component slot of an archetype: which component it stores, the
/// per-process slot id of that storage, and whether it is table-stored
/// (contiguous) rather than sparse-set-stored.
pub struct ArchetypeComponent {
    pub component_id: u64,
    pub archetype_component_id: u64,
    pub table: bool,
}

/// One archetype: id, live entity count, the structural-hook and observer
/// flag pairs, and its component slots in the target's own enumeration
/// order.
pub struct ArchetypeRecord {
    pub id: u64,
    pub entities: u64,
    pub has_add_hook: bool,
    pub has_insert_hook: bool,
    pub has_remove_hook: bool,
    pub has_add_observer: bool,
    pub has_insert_observer: bool,
    pub has_remove_observer: bool,
    pub components: Vec<ArchetypeComponent>,
}

/// One registered global resource: its component id, the slot id of its
/// storage, its name, and its raw byte image, captured verbatim.
pub struct ResourceRecord {
    pub component_id: u64,
    pub archetype_component_id: u64,
    pub name: String,
    pub bytes: Vec<u8>,
}

/// The storage slot of one thread-affine global resource.
pub struct ResourceSlot {
    pub component_id: u64,
    pub archetype_component_id: u64,
}

/// A snapshot of one world incarnation. The id is the world's stable
/// identity; a destroyed and recreated world carries a fresh one.
pub struct WorldSnapshot {
    pub id: u64,
    pub components: Vec<ComponentInfo>,
    pub archetypes: Vec<ArchetypeRecord>,
    pub resources: Vec<ResourceRecord>,
    pub non_send_resources: Vec<ResourceSlot>,
}

/// A node of the schedule's cached topological order.
#[derive(Debug, PartialEq, Eq, Structural, Clone, Copy)]
pub enum NodeId {
    System(u64),
    SystemSet(u64),
}

/// One system of the dependency graph, with its run conditions.
pub struct GraphSystem {
    pub id: u64,
    pub name: String,
    pub conditions: Vec<String>,
}

/// One system set of the dependency graph, with its run conditions.
pub struct GraphSet {
    pub id: u64,
    pub debug_name: String,
    pub anonymous: bool,
    pub conditions: Vec<String>,
}

/// One system of the compiled executable list, with its flags and its
/// resolved-access slot ids.
pub struct SystemRecord {
    pub name: String,
    pub exclusive: bool,
    pub send: bool,
    pub deferred: bool,
    pub reads: Vec<u64>,
    pub writes: Vec<u64>,
}

/// A snapshot of one compiled schedule: its label, executor kind, graph
/// systems and sets, the cached topological order (reproduced verbatim,
/// never recomputed), and the finalized executable run sequence.
pub struct ScheduleSnapshot {
    pub label: String,
    pub executor_kind: String,
    pub systems: Vec<GraphSystem>,
    pub sets: Vec<GraphSet>,
    pub topology: Vec<NodeId>,
    pub executable: Vec<SystemRecord>,
}

/// The component registry entry for `id`, scanning from position `i`:
/// the first entry with that id wins.
pub open spec fn info_for_from(comps: Seq<ComponentInfo>, id: u64, i: int) -> Option<ComponentInfo>
    decreases comps.len() - i,
{
    if i < 0 || i >= comps.len() {
        None
    } else if comps[i].id == id {
        Some(comps[i])
    } else {
        info_for_from(comps, id, i + 1)
    }
}

/// The component registry entry for `id`, first match.
pub open spec fn info_for(comps: Seq<ComponentInfo>, id: u64) -> Option<ComponentInfo> {
    info_for_from(comps, id, 0)
}

impl WorldSnapshot {
    /// Looks `id` up in the component registry; the first entry with that
    /// id wins.
    pub fn get_component_info(&self, id: u64) -> (r: Option<&ComponentInfo>)
        ensures
            match r {
                Some(info) => info_for(self.components@, id) == Some(*info),
                None => info_for(self.components@, id) is None,
            },
    {
        let n = self.components.len();
        let mut i: usize = 0;
        while i < n
            invariant
                i <= n,
                n == self.components@.len(),
                info_for(self.components@, id) == info_for_from(self.components@, id, i as int),
            decreases n - i,
        {
            if self.components[i].id == id {
                return Some(&self.components[i]);
            }
            i += 1;
        }
        None
    }

    /// The first registered resource with the given name, as the typed
    /// resource accessors look it up.
    pub fn resource_by_name(&self, name: &str) -> (r: Option<&ResourceRecord>)
        ensures
            match r {
                Some(res) => resource_for(self.resources@, name@) == Some(*res),
                None => resource_for(self.resources@, name@) is None,
            },
    {
        let n = self.resources.len();
        let mut i: usize = 0;
        while i < n
            invariant
                i <= n,
                n == self.resources@.len(),
                resource_for(self.resources@, name@) == resource_for_from(
                    self.resources@,
                    name@,
                    i as int,
                ),
            decreases n - i,
        {
            if crate::text::str_eq(self.resources[i].name.as_str(), name) {
                return Some(&self.resources[i]);
            }
            i += 1;
        }
        None
    }
}

/// The first resource named `name`, scanning from position `i`.
pub open spec fn resource_for_from(rs: Seq<ResourceRecord>, name: Seq<char>, i: int) -> Option<
    ResourceRecord,
>
    decreases rs.len() - i,
{
    if i < 0 || i >= rs.len() {
        None
    } else if rs[i].name@ == name {
        Some(rs[i])
    } else {
        resource_for_from(rs, name, i + 1)
    }
}

/// The first resource named `name`.
pub open spec fn resource_for(rs: Seq<ResourceRecord>, name: Seq<char>) -> Option<ResourceRecord> {
    resource_for_from(rs, name, 0)
}

/// The first graph system with the given id, scanning from position `i`.
pub open spec fn gsystem_for_from(ss: Seq<GraphSystem>, id: u64, i: int) -> Option<GraphSystem>
    decreases ss.len() - i,
{
    if i < 0 || i >= ss.len() {
        None
    } else if ss[i].id == id {
        Some(ss[i])
    } else {
        gsystem_for_from(ss, id, i + 1)
    }
}

/// The first graph system with the given id.
pub open spec fn gsystem_for(ss: Seq<GraphSystem>, id: u64) -> Option<GraphSystem> {
    gsystem_for_from(ss, id, 0)
}

/// The first graph set with the given id, scanning from position `i`.
pub open spec fn gset_for_from(ss: Seq<GraphSet>, id: u64, i: int) -> Option<GraphSet>
    decreases ss.len() - i,
{
    if i < 0 || i >= ss.len() {
        None
    } else if ss[i].id == id {
        Some(ss[i])
    } else {
        gset_for_from(ss, id, i + 1)
    }
}

/// The first graph set with the given id.
pub open spec fn gset_for(ss: Seq<GraphSet>, id: u64) -> Option<GraphSet> {
    gset_for_from(ss, id, 0)
}

impl ScheduleSnapshot {
    /// The graph system a topology node refers to, if the graph knows it.
    pub fn get_graph_system(&self, id: u64) -> (r: Option<&GraphSystem>)
        ensures
            match r {
                Some(sys) => gsystem_for(self.systems@, id) == Some(*sys),
                None => gsystem_for(self.systems@, id) is None,
            },
    {
        let n = self.systems.len();
        let mut i: usize = 0;
        while i < n
            invariant
                i <= n,
                n == self.systems@.len(),
                gsystem_for(self.systems@, id) == gsystem_for_from(self.systems@, id, i as int),
            decreases n - i,
        {
            if self.systems[i].id == id {
                return Some(&self.systems[i]);
            }
            i += 1;
        }
        None
    }

    /// The graph set a topology node refers to, if the graph knows it.
    pub fn get_graph_set(&self, id: u64) -> (r: Option<&GraphSet>)
        ensures
            match r {
                Some(st) => gset_for(self.sets@, id) == Some(*st),
                None => gset_for(self.sets@, id) is None,
            },
    {
        let n = self.sets.len();
        let mut i: usize = 0;
        while i < n
            invariant
                i <= n,
                n == self.sets@.len(),
                gset_for(self.sets@, id) == gset_for_from(self.sets@, id, i as int),
            decreases n - i,
        {
            if self.sets[i].id == id {
                return Some(&self.sets[i]);
            }
            i += 1;
        }
        None
    }
}

/// How one resolved-access slot id is presented: a component slot of some
/// archetype, a global resource, or a thread-affine global resource.
#[derive(Debug, PartialEq, Eq, Structural, Clone, Copy)]
pub enum ArchetypeIdUsage {
    Component(u64, u64),
    Resource(u64),
    NonSendResource(u64),
}

impl ArchetypeIdUsage {
    /// The component id the slot resolved to.
    pub open spec fn spec_component_id(self) -> u64 {
        match self {
            ArchetypeIdUsage::Component(component_id, _) => component_id,
            ArchetypeIdUsage::Resource(component_id) => component_id,
            ArchetypeIdUsage::NonSendResource(component_id) => component_id,
        }
    }

    /// The one-letter tag of the namespace the slot resolved in.
    pub open spec fn spec_flag(self) -> Seq<char> {
        match self {
            ArchetypeIdUsage::Component(_, _) => "C"@,
            ArchetypeIdUsage::Resource(_) => "R"@,
            ArchetypeIdUsage::NonSendResource(_) => "N"@,
        }
    }

    pub fn component_id(&self) -> (r: u64)
        ensures
            r == self.spec_component_id(),
    {
        match self {
            ArchetypeIdUsage::Component(component_id, _) => *component_id,
            ArchetypeIdUsage::Resource(component_id) => *component_id,
            ArchetypeIdUsage::NonSendResource(component_id) => *component_id,
        }
    }

    pub fn flag(&self) -> (r: &'static str)
        ensures
            r@ == self.spec_flag(),
    {
        match self {
            ArchetypeIdUsage::Component(_, _) => "C",
            ArchetypeIdUsage::Resource(_) => "R",
            ArchetypeIdUsage::NonSendResource(_) => "N",
        }
    }
}

/// The first component slot of `comps` with slot id `slot`, scanning from
/// position `j`.
pub open spec fn slot_comp_from(comps: Seq<ArchetypeComponent>, slot: u64, j: int) -> Option<
    ArchetypeComponent,
>
    decreases comps.len() - j,
{
    if j < 0 || j >= comps.len() {
        None
    } else if comps[j].archetype_component_id == slot {
        Some(comps[j])
    } else {
        slot_comp_from(comps, slot, j + 1)
    }
}

/// The first component slot of `comps` with slot id `slot`.
pub open spec fn slot_comp(comps: Seq<ArchetypeComponent>, slot: u64) -> Option<
    ArchetypeComponent,
> {
    slot_comp_from(comps, slot, 0)
}

/// Looks a slot id up among one archetype's component slots; the first slot
/// with that id wins.
pub fn lookup_archetype_component_id(archetype: &ArchetypeRecord, slot: u64) -> (r: Option<u64>)
    ensures
        match r {
            Some(component_id) => slot_comp(archetype.components@, slot) matches Some(c)
                && c.component_id == component_id,
            None => slot_comp(archetype.components@, slot) is None,
        },
{
    let n = archetype.components.len();
    let mut j: usize = 0;
    while j < n
        invariant
            j <= n,
            n == archetype.components@.len(),
            slot_comp(archetype.components@, slot) == slot_comp_from(
                archetype.components@,
                slot,
                j as int,
            ),
        decreases n - j,
    {
        if archetype.components[j].archetype_component_id == slot {
            return Some(archetype.components[j].component_id);
        }
        j += 1;
    }
    None
}

/// The component-in-archetype resolution of `slot`, scanning archetypes from
/// position `i`: the first archetype holding the slot wins, and within it
/// the first matching component slot.
pub open spec fn arch_usage_from(archs: Seq<ArchetypeRecord>, slot: u64, i: int) -> Option<
    ArchetypeIdUsage,
>
    decreases archs.len() - i,
{
    if i < 0 || i >= archs.len() {
        None
    } else {
        match slot_comp(archs[i].components@, slot) {
            Some(c) => Some(ArchetypeIdUsage::Component(c.component_id, archs[i].id)),
            None => arch_usage_from(archs, slot, i + 1),
        }
    }
}

/// The global-resource resolution of `slot`, scanning from position `i`.
pub open spec fn resource_slot_from(rs: Seq<ResourceRecord>, slot: u64, i: int) -> Option<u64>
    decreases rs.len() - i,
{
    if i < 0 || i >= rs.len() {
        None
    } else if rs[i].archetype_component_id == slot {
        Some(rs[i].component_id)
    } else {
        resource_slot_from(rs, slot, i + 1)
    }
}

/// The thread-affine-resource resolution of `slot`, scanning from position
/// `i`.
pub open spec fn non_send_slot_from(rs: Seq<ResourceSlot>, slot: u64, i: int) -> Option<u64>
    decreases rs.len() - i,
{
    if i < 0 || i >= rs.len() {
        None
    } else if rs[i].archetype_component_id == slot {
        Some(rs[i].component_id)
    } else {
        non_send_slot_from(rs, slot, i + 1)
    }
}

/// Full resolution of a slot id, trying the three namespaces in their fixed
/// priority order: component-in-archetype, then global resource, then
/// thread-affine global resource; the first match wins.
pub open spec fn usage_for(w: WorldSnapshot, slot: u64) -> Option<ArchetypeIdUsage> {
    match arch_usage_from(w.archetypes@, slot, 0) {
        Some(u) => Some(u),
        None => match resource_slot_from(w.resources@, slot, 0) {
            Some(component_id) => Some(ArchetypeIdUsage::Resource(component_id)),
            None => match non_send_slot_from(w.non_send_resources@, slot, 0) {
                Some(component_id) => Some(ArchetypeIdUsage::NonSendResource(component_id)),
                None => None,
            },
        },
    }
}

/// Resolves one slot id against the world, in priority order; an
/// unresolvable slot yields nothing and is the caller's to skip.
pub fn get_archetype_id_usage(world: &WorldSnapshot, slot: u64) -> (r: Option<ArchetypeIdUsage>)
    ensures
        r == usage_for(*world, slot),
{
    let n_archs = world.archetypes.len();
    let mut i: usize = 0;
    while i < n_archs
        invariant
            i <= n_archs,
            n_archs == world.archetypes@.len(),
            arch_usage_from(world.archetypes@, slot, 0) == arch_usage_from(
                world.archetypes@,
                slot,
                i as int,
            ),
        decreases n_archs - i,
    {
        match lookup_archetype_component_id(&world.archetypes[i], slot) {
            Some(component_id) => {
                return Some(ArchetypeIdUsage::Component(component_id, world.archetypes[i].id));
            },
            None => {},
        }
        i += 1;
    }

    let n_res = world.resources.len();
    let mut k: usize = 0;
    while k < n_res
        invariant
            k <= n_res,
            n_res == world.resources@.len(),
            arch_usage_from(world.archetypes@, slot, 0) is None,
            resource_slot_from(world.resources@, slot, 0) == resource_slot_from(
                world.resources@,
                slot,
                k as int,
            ),
        decreases n_res - k,
    {
        if world.resources[k].archetype_component_id == slot {
            return Some(ArchetypeIdUsage::Resource(world.resources[k].component_id));
        }
        k += 1;
    }

    let n_ns = world.non_send_resources.len();
    let mut m: usize = 0;
    while m < n_ns
        invariant
            m <= n_ns,
            n_ns == world.non_send_resources@.len(),
            arch_usage_from(world.archetypes@, slot, 0) is None,
            resource_slot_from(world.resources@, slot, 0) is None,
            non_send_slot_from(world.non_send_resources@, slot, 0) == non_send_slot_from(
                world.non_send_resources@,
                slot,
                m as int,
            ),
        decreases n_ns - m,
    {
        if world.non_send_resources[m].archetype_component_id == slot {
            return Some(
                ArchetypeIdUsage::NonSendResource(world.non_send_resources[m].component_id),
            );
        }
        m += 1;
    }

    None
}

} // verus!
