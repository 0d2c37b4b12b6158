//! The four snapshot passes.
//!
//! Each pass renders one text file from the plain-value model of the live
//! world and schedule. Rendering is total and deterministic: the text is a
//! function of the snapshot alone, stated block by block. Writing the
//! rendered files to disk is the collaborator's part; a plan hands it the
//! directory and the four files, so that one failed write never touches the
//! other three.

use vstd::prelude::*;

use crate::text::{concat_strs, dec_str, lemma_concat_strs_take, lemma_take_all, u64_to_dec};
use crate::world::{
    gset_for, gsystem_for, info_for, usage_for, ArchetypeComponent, ArchetypeIdUsage,
    ArchetypeRecord, ComponentInfo, NodeId, ResourceRecord, ScheduleSnapshot, SystemRecord,
    WorldSnapshot,
};

verus! {

/// The hexdump text of a byte image, a function of the bytes alone.
pub uninterp spec fn hexdump_of(bytes: Seq<u8>) -> Seq<char>;

/// Relies on hxdmp::hexdump: a byte-offset hexdump of the image, depending
/// on the bytes alone; nothing is written for an empty image.
#[verifier::external_body]
fn hexdump_str(data: &Vec<u8>) -> (r: String)
    ensures
        r@ == hexdump_of(data@),
        data@.len() == 0 ==> r@.len() == 0,
{
    let mut out: Vec<u8> = Vec::new();
    let _ = hxdmp::hexdump(data.as_slice(), &mut out);
    String::from_utf8_lossy(&out).into_owned()
}

/// One resource's section: name and byte size, the hexdump of its raw
/// image, and a blank separator line.
pub open spec fn resource_block(r: ResourceRecord) -> Seq<char> {
    r.name@ + " ("@ + dec_str(r.bytes@.len()) + ")\n"@ + hexdump_of(r.bytes@) + "\n\n"@
}

/// The sections of the resources pass, one per registered resource, in
/// registration order.
pub open spec fn resource_blocks(rs: Seq<ResourceRecord>) -> Seq<Seq<char>> {
    rs.map_values(|r: ResourceRecord| resource_block(r))
}

/// The full text of the resources pass.
pub open spec fn resources_text(rs: Seq<ResourceRecord>) -> Seq<char> {
    concat_strs(resource_blocks(rs))
}

/// The resources pass emits exactly one section per registered resource:
/// as many blocks as the world has resources, each that resource's own.
pub proof fn lemma_resources_block_count(rs: Seq<ResourceRecord>)
    ensures
        resource_blocks(rs).len() == rs.len(),
        forall|i: int| 0 <= i < rs.len() ==> resource_blocks(rs)[i] == resource_block(rs[i]),
{
}

/// Renders the resources pass: for every registered resource its name,
/// byte size and raw-byte hexdump, verbatim and in order.
pub fn dump_resources(world: &WorldSnapshot) -> (text: String)
    ensures
        text@ == resources_text(world.resources@),
{
    let ghost blocks = resource_blocks(world.resources@);
    let mut out = String::new();
    let n = world.resources.len();
    let mut i: usize = 0;
    while i < n
        invariant
            i <= n,
            n == world.resources@.len(),
            blocks == resource_blocks(world.resources@),
            out@ == concat_strs(blocks.take(i as int)),
        decreases n - i,
    {
        let r = &world.resources[i];
        out.append(r.name.as_str());
        out.append(" (");
        let size = u64_to_dec(r.bytes.len() as u64);
        out.append(size.as_str());
        out.append(")\n");
        let hex = hexdump_str(&r.bytes);
        out.append(hex.as_str());
        out.append("\n\n");
        proof {
            lemma_concat_strs_take(blocks, i as int);
            assert(blocks[i as int] == resource_block(world.resources@[i as int]));
            assert(out@ =~= concat_strs(blocks.take(i as int + 1)));
        }
        i += 1;
    }
    proof {
        lemma_take_all(blocks);
    }
    out
}

/// The presence mark of one hook or observer flag.
pub open spec fn presence_mark(b: bool) -> Seq<char> {
    if b {
        "+"@
    } else {
        "-"@
    }
}

fn check_mark(b: bool) -> (r: &'static str)
    ensures
        r@ == presence_mark(b),
{
    if b {
        "+"
    } else {
        "-"
    }
}

/// The tag of one storage class: table-stored or sparse-set-stored.
pub open spec fn comp_line_target(table: bool) -> Seq<char> {
    if table {
        "T"@
    } else {
        "S"@
    }
}

/// One component line of the archetypes pass: the storage tag, then the
/// component's registered name and byte size. A component id the registry
/// does not know yields nothing: that single record is skipped.
pub open spec fn comp_line(
    components: Seq<ComponentInfo>,
    tag: Seq<char>,
    component_id: u64,
) -> Seq<char> {
    match info_for(components, component_id) {
        Some(info) => tag + " "@ + info.name@ + " ("@ + dec_str(info.size as nat) + ")\n"@,
        None => Seq::empty(),
    }
}

/// The component lines of one storage class of an archetype, in the
/// archetype's own slot order: table-stored slots under `table == true`,
/// sparse-set-stored ones under `false`.
pub open spec fn storage_lines(
    components: Seq<ComponentInfo>,
    slots: Seq<ArchetypeComponent>,
    tag: Seq<char>,
    table: bool,
) -> Seq<char> {
    concat_strs(
        slots.map_values(
            |c: ArchetypeComponent|
                if c.table == table {
                    comp_line(components, tag, c.component_id)
                } else {
                    Seq::<char>::empty()
                },
        ),
    )
}

/// The title of one archetype's section: id, live entity count, and the
/// column head of the flag grid.
pub open spec fn archetype_title(a: ArchetypeRecord) -> Seq<char> {
    "Archetype: "@ + dec_str(a.id as nat) + " ("@ + dec_str(a.entities as nat) + " entities)\n"@
        + "  A I R\n"@
}

/// One row of the flag grid: the row head, then three presence marks.
pub open spec fn flag_row(head: Seq<char>, x: bool, y: bool, z: bool) -> Seq<char> {
    head + presence_mark(x) + " "@ + presence_mark(y) + " "@ + presence_mark(z) + "\n"@
}

/// The head of one archetype's section: the title, the structural-hook
/// row, and the observer row.
pub open spec fn archetype_header(a: ArchetypeRecord) -> Seq<char> {
    archetype_title(a) + flag_row("H "@, a.has_add_hook, a.has_insert_hook, a.has_remove_hook)
        + flag_row("O "@, a.has_add_observer, a.has_insert_observer, a.has_remove_observer)
}

/// One archetype's section: the header, then the table-stored and
/// sparse-set-stored component lines, and a blank separator line.
pub open spec fn archetype_block(components: Seq<ComponentInfo>, a: ArchetypeRecord) -> Seq<
    char,
> {
    archetype_header(a) + storage_lines(components, a.components@, "T"@, true) + storage_lines(
        components,
        a.components@,
        "S"@,
        false,
    ) + "\n"@
}

/// The sections of the archetypes pass, one per archetype, in enumeration
/// order.
pub open spec fn archetype_blocks(w: WorldSnapshot) -> Seq<Seq<char>> {
    w.archetypes@.map_values(|a: ArchetypeRecord| archetype_block(w.components@, a))
}

/// The full text of the archetypes pass.
pub open spec fn archetypes_text(w: WorldSnapshot) -> Seq<char> {
    concat_strs(archetype_blocks(w))
}

/// Appends the component lines of one storage class of one archetype.
fn append_storage_lines(
    out: &mut String,
    world: &WorldSnapshot,
    archetype: &ArchetypeRecord,
    table: bool,
)
    ensures
        final(out)@ == old(out)@ + storage_lines(
            world.components@,
            archetype.components@,
            comp_line_target(table),
            table,
        ),
{
    let ghost tag = comp_line_target(table);
    let ghost lines = archetype.components@.map_values(
        |c: ArchetypeComponent|
            if c.table == table {
                comp_line(world.components@, tag, c.component_id)
            } else {
                Seq::<char>::empty()
            },
    );
    let n = archetype.components.len();
    let mut j: usize = 0;
    while j < n
        invariant
            j <= n,
            n == archetype.components@.len(),
            lines == archetype.components@.map_values(
                |c: ArchetypeComponent|
                    if c.table == table {
                        comp_line(world.components@, tag, c.component_id)
                    } else {
                        Seq::<char>::empty()
                    },
            ),
            tag == comp_line_target(table),
            out@ == old(out)@ + concat_strs(lines.take(j as int)),
        decreases n - j,
    {
        let c = &archetype.components[j];
        if c.table == table {
            let tag_str = if table {
                "T"
            } else {
                "S"
            };
            match world.get_component_info(c.component_id) {
                Some(info) => {
                    out.append(tag_str);
                    out.append(" ");
                    out.append(info.name.as_str());
                    out.append(" (");
                    let size = u64_to_dec(info.size);
                    out.append(size.as_str());
                    out.append(")\n");
                },
                None => {},
            }
        }
        proof {
            lemma_concat_strs_take(lines, j as int);
            assert(lines[j as int] == (if archetype.components@[j as int].table == table {
                comp_line(world.components@, tag, archetype.components@[j as int].component_id)
            } else {
                Seq::<char>::empty()
            }));
            assert(out@ =~= old(out)@ + concat_strs(lines.take(j as int + 1)));
        }
        j += 1;
    }
    proof {
        lemma_take_all(lines);
    }
}

/// Appends the title line and grid head of one archetype's section.
fn append_archetype_title(out: &mut String, a: &ArchetypeRecord)
    ensures
        final(out)@ == old(out)@ + archetype_title(*a),
{
    out.append("Archetype: ");
    let id = u64_to_dec(a.id);
    out.append(id.as_str());
    out.append(" (");
    let entities = u64_to_dec(a.entities);
    out.append(entities.as_str());
    out.append(" entities)\n");
    out.append("  A I R\n");
    proof {
        assert(out@ =~= old(out)@ + archetype_title(*a));
    }
}

/// Appends one row of the flag grid.
fn append_flag_row(out: &mut String, head: &str, x: bool, y: bool, z: bool)
    ensures
        final(out)@ == old(out)@ + flag_row(head@, x, y, z),
{
    out.append(head);
    out.append(check_mark(x));
    out.append(" ");
    out.append(check_mark(y));
    out.append(" ");
    out.append(check_mark(z));
    out.append("\n");
    proof {
        assert(out@ =~= old(out)@ + flag_row(head@, x, y, z));
    }
}

/// Appends one archetype's section.
fn append_archetype_block(out: &mut String, world: &WorldSnapshot, a: &ArchetypeRecord)
    ensures
        final(out)@ == old(out)@ + archetype_block(world.components@, *a),
{
    append_archetype_title(out, a);
    append_flag_row(out, "H ", a.has_add_hook, a.has_insert_hook, a.has_remove_hook);
    append_flag_row(out, "O ", a.has_add_observer, a.has_insert_observer, a.has_remove_observer);
    proof {
        assert(out@ =~= old(out)@ + archetype_header(*a));
    }
    append_storage_lines(out, world, a, true);
    append_storage_lines(out, world, a, false);
    out.append("\n");
    proof {
        assert(out@ =~= old(out)@ + archetype_block(world.components@, *a));
    }
}

/// Renders the archetypes pass: every archetype's id, entity count, flag
/// grid and component lists, in the target's own enumeration order.
pub fn dump_archetypes(world: &WorldSnapshot) -> (text: String)
    ensures
        text@ == archetypes_text(*world),
{
    let ghost blocks = archetype_blocks(*world);
    let mut out = String::new();
    let n = world.archetypes.len();
    let mut i: usize = 0;
    while i < n
        invariant
            i <= n,
            n == world.archetypes@.len(),
            blocks == archetype_blocks(*world),
            out@ == concat_strs(blocks.take(i as int)),
        decreases n - i,
    {
        append_archetype_block(&mut out, world, &world.archetypes[i]);
        proof {
            lemma_concat_strs_take(blocks, i as int);
            assert(blocks[i as int] == archetype_block(
                world.components@,
                world.archetypes@[i as int],
            ));
        }
        i += 1;
    }
    proof {
        lemma_take_all(blocks);
    }
    out
}

/// One run-condition line under a schedule node.
pub open spec fn cond_line(c: Seq<char>) -> Seq<char> {
    "   "@ + c + "\n"@
}

/// The run-condition lines of one node, in the node's own order.
pub open spec fn cond_lines(cs: Seq<String>) -> Seq<char> {
    concat_strs(cs.map_values(|c: String| cond_line(c@)))
}

/// The anonymity mark of a system set.
pub open spec fn anon_mark(b: bool) -> Seq<char> {
    if b {
        "A"@
    } else {
        " "@
    }
}

/// The section of one node of the cached topological order: a system's id
/// and name, or a set's id, anonymity mark and debug representation, each
/// followed by its run-condition lines. A node the graph does not know
/// yields nothing.
pub open spec fn node_block(s: ScheduleSnapshot, n: NodeId) -> Seq<char> {
    match n {
        NodeId::System(id) => match gsystem_for(s.systems@, id) {
            Some(sys) => dec_str(id as nat) + " "@ + sys.name@ + "\n"@ + cond_lines(
                sys.conditions@,
            ),
            None => Seq::empty(),
        },
        NodeId::SystemSet(id) => match gset_for(s.sets@, id) {
            Some(st) => dec_str(id as nat) + " "@ + anon_mark(st.anonymous) + " "@
                + st.debug_name@ + "\n"@ + cond_lines(st.conditions@),
            None => Seq::empty(),
        },
    }
}

/// The head line of the schedule pass: label and executor kind.
pub open spec fn schedule_header(s: ScheduleSnapshot) -> Seq<char> {
    "Schedule: "@ + s.label@ + " ("@ + s.executor_kind@ + ")\n"@
}

/// The node sections of the schedule pass, exactly one per entry of the
/// cached topological order, in that order.
pub open spec fn schedule_node_blocks(s: ScheduleSnapshot) -> Seq<Seq<char>> {
    s.topology@.map_values(|n: NodeId| node_block(s, n))
}

/// The full text of the schedule pass.
pub open spec fn schedule_text(s: ScheduleSnapshot) -> Seq<char> {
    schedule_header(s) + concat_strs(schedule_node_blocks(s))
}

/// The schedule pass walks the cached topological order verbatim: one
/// section per node, in the cached order, never recomputed.
pub proof fn lemma_schedule_order_preserved(s: ScheduleSnapshot)
    ensures
        schedule_node_blocks(s).len() == s.topology@.len(),
        forall|i: int| 0 <= i < s.topology@.len() ==> schedule_node_blocks(s)[i] == node_block(
            s,
            s.topology@[i],
        ),
{
}

/// Appends the run-condition lines of one node.
fn append_cond_lines(out: &mut String, conds: &Vec<String>)
    ensures
        final(out)@ == old(out)@ + cond_lines(conds@),
{
    let ghost lines = conds@.map_values(|c: String| cond_line(c@));
    let n = conds.len();
    let mut i: usize = 0;
    while i < n
        invariant
            i <= n,
            n == conds@.len(),
            lines == conds@.map_values(|c: String| cond_line(c@)),
            out@ == old(out)@ + concat_strs(lines.take(i as int)),
        decreases n - i,
    {
        out.append("   ");
        out.append(conds[i].as_str());
        out.append("\n");
        proof {
            lemma_concat_strs_take(lines, i as int);
            assert(lines[i as int] == cond_line(conds@[i as int]@));
            assert(out@ =~= old(out)@ + concat_strs(lines.take(i as int + 1)));
        }
        i += 1;
    }
    proof {
        lemma_take_all(lines);
    }
}

/// Appends the section of one node of the cached topological order.
fn append_node_block(out: &mut String, s: &ScheduleSnapshot, n: &NodeId)
    ensures
        final(out)@ == old(out)@ + node_block(*s, *n),
{
    match n {
        NodeId::System(id) => {
            match s.get_graph_system(*id) {
                Some(sys) => {
                    let id_text = u64_to_dec(*id);
                    out.append(id_text.as_str());
                    out.append(" ");
                    out.append(sys.name.as_str());
                    out.append("\n");
                    append_cond_lines(out, &sys.conditions);
                    proof {
                        assert(out@ =~= old(out)@ + node_block(*s, *n));
                    }
                },
                None => {},
            }
        },
        NodeId::SystemSet(id) => {
            match s.get_graph_set(*id) {
                Some(st) => {
                    let id_text = u64_to_dec(*id);
                    out.append(id_text.as_str());
                    out.append(" ");
                    if st.anonymous {
                        out.append("A");
                    } else {
                        out.append(" ");
                    }
                    out.append(" ");
                    out.append(st.debug_name.as_str());
                    out.append("\n");
                    append_cond_lines(out, &st.conditions);
                    proof {
                        assert(out@ =~= old(out)@ + node_block(*s, *n));
                    }
                },
                None => {},
            }
        },
    }
}

/// Renders the schedule pass: the label and executor kind, then the cached
/// topological node order as-is, with each node's run conditions.
pub fn dump_schedule(schedule: &ScheduleSnapshot) -> (text: String)
    ensures
        text@ == schedule_text(*schedule),
{
    let ghost blocks = schedule_node_blocks(*schedule);
    let mut out = String::new();
    out.append("Schedule: ");
    out.append(schedule.label.as_str());
    out.append(" (");
    out.append(schedule.executor_kind.as_str());
    out.append(")\n");
    proof {
        assert(out@ =~= schedule_header(*schedule));
    }
    let n = schedule.topology.len();
    let mut i: usize = 0;
    while i < n
        invariant
            i <= n,
            n == schedule.topology@.len(),
            blocks == schedule_node_blocks(*schedule),
            out@ == schedule_header(*schedule) + concat_strs(blocks.take(i as int)),
        decreases n - i,
    {
        append_node_block(&mut out, schedule, &schedule.topology[i]);
        proof {
            lemma_concat_strs_take(blocks, i as int);
            assert(blocks[i as int] == node_block(*schedule, schedule.topology@[i as int]));
            assert(out@ =~= schedule_header(*schedule) + concat_strs(blocks.take(i as int + 1)));
        }
        i += 1;
    }
    proof {
        lemma_take_all(blocks);
    }
    out
}

/// One flag column of a system line: the mark when the flag is set, a
/// space when it is not.
pub open spec fn flag_mark(b: bool, mark: Seq<char>) -> Seq<char> {
    if b {
        mark
    } else {
        " "@
    }
}

/// One resolved access line of the systems pass: the namespace tag, the
/// access direction, the component's registered name, and for a
/// component-in-archetype access the archetype id. A slot that resolves
/// nowhere, or to a component the registry does not know, yields nothing:
/// that single access is skipped.
pub open spec fn access_line(w: WorldSnapshot, dir: Seq<char>, slot: u64) -> Seq<char> {
    match usage_for(w, slot) {
        Some(u) => match info_for(w.components@, u.spec_component_id()) {
            Some(info) => match u {
                ArchetypeIdUsage::Component(_, archetype_id) => u.spec_flag() + " "@ + dir + " "@
                    + info.name@ + " "@ + dec_str(archetype_id as nat) + "\n"@,
                _ => u.spec_flag() + " "@ + dir + " "@ + info.name@ + "\n"@,
            },
            None => Seq::empty(),
        },
        None => Seq::empty(),
    }
}

/// The access lines of one direction of one system, in declaration order.
pub open spec fn access_lines(w: WorldSnapshot, dir: Seq<char>, slots: Seq<u64>) -> Seq<char> {
    concat_strs(slots.map_values(|slot: u64| access_line(w, dir, slot)))
}

/// The head line of one system's section: name and the exclusive,
/// thread-affine and deferred-usage flag columns.
pub open spec fn system_header(sys: SystemRecord) -> Seq<char> {
    sys.name@ + " "@ + flag_mark(sys.exclusive, "E"@) + " "@ + flag_mark(sys.send, "S"@) + " "@
        + flag_mark(sys.deferred, "D"@) + "\n"@
}

/// One system's section: the head line, its resolved reads, its resolved
/// writes, and a blank separator line.
pub open spec fn system_block(w: WorldSnapshot, sys: SystemRecord) -> Seq<char> {
    system_header(sys) + access_lines(w, "R"@, sys.reads@) + access_lines(w, "W"@, sys.writes@)
        + "\n"@
}

/// The sections of the systems pass, one per system of the compiled
/// executable list, in its finalized run order.
pub open spec fn system_blocks(w: WorldSnapshot, s: ScheduleSnapshot) -> Seq<Seq<char>> {
    s.executable@.map_values(|sys: SystemRecord| system_block(w, sys))
}

/// The full text of the systems pass.
pub open spec fn systems_text(w: WorldSnapshot, s: ScheduleSnapshot) -> Seq<char> {
    concat_strs(system_blocks(w, s))
}

fn flag_str(b: bool, mark: &'static str) -> (r: &'static str)
    ensures
        r@ == flag_mark(b, mark@),
{
    if b {
        mark
    } else {
        " "
    }
}

/// Appends one resolved access line, skipping a slot that resolves nowhere.
fn append_access_line(out: &mut String, world: &WorldSnapshot, dir: &str, slot: u64)
    ensures
        final(out)@ == old(out)@ + access_line(*world, dir@, slot),
{
    match crate::world::get_archetype_id_usage(world, slot) {
        Some(usage) => {
            let component_id = usage.component_id();
            match world.get_component_info(component_id) {
                Some(info) => {
                    out.append(usage.flag());
                    out.append(" ");
                    out.append(dir);
                    out.append(" ");
                    out.append(info.name.as_str());
                    match usage {
                        ArchetypeIdUsage::Component(_, archetype_id) => {
                            out.append(" ");
                            let id_text = u64_to_dec(archetype_id);
                            out.append(id_text.as_str());
                        },
                        _ => {},
                    }
                    out.append("\n");
                    proof {
                        assert(out@ =~= old(out)@ + access_line(*world, dir@, slot));
                    }
                },
                None => {},
            }
        },
        None => {},
    }
}

/// Appends the access lines of one direction of one system.
fn append_access_lines(out: &mut String, world: &WorldSnapshot, dir: &str, slots: &Vec<u64>)
    ensures
        final(out)@ == old(out)@ + access_lines(*world, dir@, slots@),
{
    let ghost lines = slots@.map_values(|slot: u64| access_line(*world, dir@, slot));
    let n = slots.len();
    let mut i: usize = 0;
    while i < n
        invariant
            i <= n,
            n == slots@.len(),
            lines == slots@.map_values(|slot: u64| access_line(*world, dir@, slot)),
            out@ == old(out)@ + concat_strs(lines.take(i as int)),
        decreases n - i,
    {
        append_access_line(out, world, dir, slots[i]);
        proof {
            lemma_concat_strs_take(lines, i as int);
            assert(lines[i as int] == access_line(*world, dir@, slots@[i as int]));
        }
        i += 1;
    }
    proof {
        lemma_take_all(lines);
    }
}

/// Appends one system's section.
#[verifier::rlimit(100)]
fn append_system_block(out: &mut String, world: &WorldSnapshot, sys: &SystemRecord)
    ensures
        final(out)@ == old(out)@ + system_block(*world, *sys),
{
    out.append(sys.name.as_str());
    out.append(" ");
    out.append(flag_str(sys.exclusive, "E"));
    out.append(" ");
    out.append(flag_str(sys.send, "S"));
    out.append(" ");
    out.append(flag_str(sys.deferred, "D"));
    out.append("\n");
    proof {
        assert(out@ =~= old(out)@ + system_header(*sys));
    }
    append_access_lines(out, world, "R", &sys.reads);
    append_access_lines(out, world, "W", &sys.writes);
    out.append("\n");
    proof {
        assert(out@ =~= old(out)@ + system_block(*world, *sys));
    }
}

/// Renders the systems pass: every system of the compiled executable list,
/// with its flags and its resolved read and write accesses.
pub fn dump_systems(world: &WorldSnapshot, schedule: &ScheduleSnapshot) -> (text: String)
    ensures
        text@ == systems_text(*world, *schedule),
{
    let ghost blocks = system_blocks(*world, *schedule);
    let mut out = String::new();
    let n = schedule.executable.len();
    let mut i: usize = 0;
    while i < n
        invariant
            i <= n,
            n == schedule.executable@.len(),
            blocks == system_blocks(*world, *schedule),
            out@ == concat_strs(blocks.take(i as int)),
        decreases n - i,
    {
        append_system_block(&mut out, world, &schedule.executable[i]);
        proof {
            lemma_concat_strs_take(blocks, i as int);
            assert(blocks[i as int] == system_block(*world, schedule.executable@[i as int]));
        }
        i += 1;
    }
    proof {
        lemma_take_all(blocks);
    }
    out
}

/// The per-invocation dump directory under the output root: one level for
/// the world identity, one for the schedule label.
pub open spec fn dump_dir_spec(root: Seq<char>, world_id: u64, label: Seq<char>) -> Seq<char> {
    root + "/"@ + dec_str(world_id as nat) + "/"@ + label
}

/// One rendered file of a dump: its name within the dump directory and its
/// full contents.
pub struct DumpFile {
    pub name: String,
    pub contents: String,
}

/// One complete dump: the directory to create and the four files to write
/// into it. Writing is the collaborator's part; the plan keeps the four
/// passes independent, so a failed write of one file leaves the other
/// three to be written all the same.
pub struct DumpPlan {
    pub dir: String,
    pub files: Vec<DumpFile>,
}

/// What a complete dump plan holds: the per-invocation directory, and the
/// four pass files with their exact rendered contents — all four present
/// whatever the snapshot holds, so no pass can crowd out another.
pub open spec fn plan_for(
    p: DumpPlan,
    root: Seq<char>,
    w: WorldSnapshot,
    s: ScheduleSnapshot,
    label: Seq<char>,
) -> bool {
    &&& p.dir@ == dump_dir_spec(root, w.id, label)
    &&& p.files@.len() == 4
    &&& p.files@[0].name@ == "resources.txt"@
    &&& p.files@[0].contents@ == resources_text(w.resources@)
    &&& p.files@[1].name@ == "archetypes.txt"@
    &&& p.files@[1].contents@ == archetypes_text(w)
    &&& p.files@[2].name@ == "schedule.txt"@
    &&& p.files@[2].contents@ == schedule_text(s)
    &&& p.files@[3].name@ == "systems.txt"@
    &&& p.files@[3].contents@ == systems_text(w, s)
}

/// Renders one complete dump of a world and one of its schedules: the four
/// passes, each its own file, always all four, whatever the snapshot
/// holds.
pub fn dump(root: &str, world: &WorldSnapshot, schedule: &ScheduleSnapshot, label: &str) -> (p:
    DumpPlan)
    ensures
        plan_for(p, root@, *world, *schedule, label@),
{
    let mut dir = String::new();
    dir.append(root);
    dir.append("/");
    let world_id = u64_to_dec(world.id);
    dir.append(world_id.as_str());
    dir.append("/");
    dir.append(label);
    proof {
        assert(dir@ =~= dump_dir_spec(root@, world.id, label@));
    }
    let mut files: Vec<DumpFile> = Vec::new();
    files.push(DumpFile { name: String::from_str("resources.txt"), contents: dump_resources(world) });
    files.push(DumpFile { name: String::from_str("archetypes.txt"), contents: dump_archetypes(world) });
    files.push(DumpFile { name: String::from_str("schedule.txt"), contents: dump_schedule(schedule) });
    files.push(
        DumpFile { name: String::from_str("systems.txt"), contents: dump_systems(world, schedule) },
    );
    DumpPlan { dir, files }
}

/// Re-running any pass against an unmodified snapshot reproduces its text
/// byte for byte: each pass's output is a function of the snapshot alone,
/// with no hidden state and no mutation of the world.
pub proof fn lemma_passes_deterministic(
    w1: WorldSnapshot,
    w2: WorldSnapshot,
    s1: ScheduleSnapshot,
    s2: ScheduleSnapshot,
)
    requires
        w1 == w2,
        s1 == s2,
    ensures
        resources_text(w1.resources@) == resources_text(w2.resources@),
        archetypes_text(w1) == archetypes_text(w2),
        schedule_text(s1) == schedule_text(s2),
        systems_text(w1, s1) == systems_text(w2, s2),
{
}

/// The timestamp-named dump root, or a fixed fallback before the context
/// is armed.
pub fn dump_path(stamp: &Option<String>) -> (r: String)
    ensures
        match stamp {
            Some(s) => r@ == s@,
            None => r@ == "dump"@,
        },
{
    match stamp {
        Some(s) => s.clone(),
        None => String::from_str("dump"),
    }
}

} // verus!
