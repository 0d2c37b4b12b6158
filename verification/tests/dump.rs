use tiny_pinch::dump::{
    dump, dump_archetypes, dump_path, dump_resources, dump_schedule, dump_systems,
};
use tiny_pinch::text::u64_to_dec;
use tiny_pinch::world::{
    get_archetype_id_usage, lookup_archetype_component_id, ArchetypeComponent, ArchetypeIdUsage,
    ArchetypeRecord, ComponentInfo, GraphSet, GraphSystem, NodeId, ResourceRecord, ResourceSlot,
    ScheduleSnapshot, SystemRecord, WorldSnapshot,
};

fn component(id: u64, name: &str, size: u64) -> ComponentInfo {
    ComponentInfo { id, name: String::from(name), size }
}

fn sample_archetype() -> ArchetypeRecord {
    ArchetypeRecord {
        id: 0,
        entities: 3,
        has_add_hook: true,
        has_insert_hook: false,
        has_remove_hook: false,
        has_add_observer: false,
        has_insert_observer: true,
        has_remove_observer: false,
        components: vec![
            ArchetypeComponent { component_id: 10, archetype_component_id: 100, table: true },
            ArchetypeComponent { component_id: 11, archetype_component_id: 101, table: false },
            ArchetypeComponent { component_id: 99, archetype_component_id: 102, table: true },
        ],
    }
}

fn sample_world() -> WorldSnapshot {
    WorldSnapshot {
        id: 7,
        components: vec![
            component(10, "Position", 12),
            component(11, "Velocity", 4),
            component(12, "Clock", 8),
            component(13, "Window", 16),
        ],
        archetypes: vec![sample_archetype()],
        resources: vec![ResourceRecord {
            component_id: 12,
            archetype_component_id: 200,
            name: String::from("Clock"),
            bytes: vec![1, 2, 3, 4, 5, 6, 7, 8],
        }],
        non_send_resources: vec![ResourceSlot { component_id: 13, archetype_component_id: 300 }],
    }
}

fn sample_schedule() -> ScheduleSnapshot {
    ScheduleSnapshot {
        label: String::from("Update"),
        executor_kind: String::from("SingleThreaded"),
        systems: vec![
            GraphSystem { id: 0, name: String::from("SysA"), conditions: vec![String::from(
                "run_once",
            )] },
            GraphSystem { id: 3, name: String::from("SysB"), conditions: vec![] },
        ],
        sets: vec![
            GraphSet {
                id: 1,
                debug_name: String::from("MainSet"),
                anonymous: false,
                conditions: vec![String::from("in_state")],
            },
            GraphSet { id: 2, debug_name: String::from("AnonSet"), anonymous: true, conditions: vec![] },
        ],
        topology: vec![
            NodeId::System(0),
            NodeId::SystemSet(1),
            NodeId::SystemSet(2),
            NodeId::System(3),
            NodeId::System(9),
        ],
        executable: vec![SystemRecord {
            name: String::from("SysA"),
            exclusive: true,
            send: false,
            deferred: true,
            reads: vec![100, 200, 300, 999],
            writes: vec![101],
        }],
    }
}

fn empty_world() -> WorldSnapshot {
    WorldSnapshot {
        id: 1,
        components: vec![],
        archetypes: vec![],
        resources: vec![],
        non_send_resources: vec![],
    }
}

#[test]
fn decimal_rendering_is_exact() {
    assert_eq!(u64_to_dec(0), "0");
    assert_eq!(u64_to_dec(7), "7");
    assert_eq!(u64_to_dec(10), "10");
    assert_eq!(u64_to_dec(12345), "12345");
    assert_eq!(u64_to_dec(u64::MAX), "18446744073709551615");
}

#[test]
fn resources_pass_renders_header_and_hexdump() {
    let text = dump_resources(&sample_world());
    // One block: "Clock (8)", the 8-byte hexdump, a blank separator line.
    let hexline = format!(
        "0000: 01 02 03 04 05 06 07 08 {} ........",
        " ".repeat(24)
    );
    assert_eq!(text, format!("Clock (8)\n{hexline}\n\n"));
}

#[test]
fn resources_pass_hexdump_shows_printable_bytes() {
    let mut world = empty_world();
    world.resources.push(ResourceRecord {
        component_id: 1,
        archetype_component_id: 1,
        name: String::from("Tag"),
        bytes: vec![0x41, 0x42],
    });
    let hexline = format!("0000: 41 42 {} AB", " ".repeat(42));
    assert_eq!(dump_resources(&world), format!("Tag (2)\n{hexline}\n\n"));
}

#[test]
fn resources_pass_emits_one_block_per_resource() {
    let mut world = sample_world();
    world.resources.push(ResourceRecord {
        component_id: 13,
        archetype_component_id: 201,
        name: String::from("Window"),
        bytes: vec![],
    });
    let text = dump_resources(&world);
    assert_eq!(text.matches("(").count(), 2);
    assert!(text.contains("Clock (8)\n"));
    // An empty image dumps nothing between header and separator.
    assert!(text.ends_with("Window (0)\n\n\n"));
}

#[test]
fn resources_pass_is_deterministic() {
    let world = sample_world();
    assert_eq!(dump_resources(&world), dump_resources(&world));
}

#[test]
fn resources_pass_empty_world_is_empty() {
    assert_eq!(dump_resources(&empty_world()), "");
}

#[test]
fn archetypes_pass_renders_flags_and_storage_classes() {
    let text = dump_archetypes(&sample_world());
    assert_eq!(
        text,
        "Archetype: 0 (3 entities)\n\
         \x20 A I R\n\
         H + - -\n\
         O - + -\n\
         T Position (12)\n\
         S Velocity (4)\n\
         \n"
    );
}

#[test]
fn archetypes_pass_skips_unknown_component() {
    // Component id 99 is not registered: its line is skipped, the pass
    // continues.
    let text = dump_archetypes(&sample_world());
    assert!(!text.contains("99"));
    assert!(text.contains("T Position (12)\n"));
}

#[test]
fn schedule_pass_walks_cached_order_verbatim() {
    let text = dump_schedule(&sample_schedule());
    assert_eq!(
        text,
        "Schedule: Update (SingleThreaded)\n\
         0 SysA\n\
         \x20  run_once\n\
         1   MainSet\n\
         \x20  in_state\n\
         2 A AnonSet\n\
         3 SysB\n"
    );
}

#[test]
fn schedule_pass_is_stable_across_reruns() {
    let schedule = sample_schedule();
    assert_eq!(dump_schedule(&schedule), dump_schedule(&schedule));
}

#[test]
fn systems_pass_resolves_accesses_in_priority_order() {
    let text = dump_systems(&sample_world(), &sample_schedule());
    assert_eq!(
        text,
        "SysA E   D\n\
         C R Position 0\n\
         R R Clock\n\
         N R Window\n\
         C W Velocity 0\n\
         \n"
    );
}

#[test]
fn slot_resolution_prefers_archetypes_over_resources() {
    let mut world = sample_world();
    // A resource whose storage slot id collides with an archetype slot:
    // the archetype namespace wins.
    world.resources[0].archetype_component_id = 100;
    assert_eq!(
        get_archetype_id_usage(&world, 100),
        Some(ArchetypeIdUsage::Component(10, 0))
    );
    assert_eq!(
        get_archetype_id_usage(&world, 300),
        Some(ArchetypeIdUsage::NonSendResource(13))
    );
    assert_eq!(get_archetype_id_usage(&world, 999), None);
}

#[test]
fn slot_lookup_within_archetype_is_first_match() {
    let archetype = sample_archetype();
    assert_eq!(lookup_archetype_component_id(&archetype, 101), Some(11));
    assert_eq!(lookup_archetype_component_id(&archetype, 555), None);
}

#[test]
fn usage_accessors_expose_component_and_tag() {
    let usage = ArchetypeIdUsage::Component(10, 4);
    assert_eq!(usage.component_id(), 10);
    assert_eq!(usage.flag(), "C");
    assert_eq!(ArchetypeIdUsage::Resource(5).flag(), "R");
    assert_eq!(ArchetypeIdUsage::NonSendResource(6).flag(), "N");
}

#[test]
fn dump_plan_holds_all_four_files() {
    let world = sample_world();
    let schedule = sample_schedule();
    let plan = dump("out", &world, &schedule, "Update");
    assert_eq!(plan.dir, "out/7/Update");
    let names: Vec<&str> = plan.files.iter().map(|f| f.name.as_str()).collect();
    assert_eq!(names, vec!["resources.txt", "archetypes.txt", "schedule.txt", "systems.txt"]);
    assert_eq!(plan.files[0].contents, dump_resources(&world));
    assert_eq!(plan.files[1].contents, dump_archetypes(&world));
    assert_eq!(plan.files[2].contents, dump_schedule(&schedule));
    assert_eq!(plan.files[3].contents, dump_systems(&world, &schedule));
}

#[test]
fn resource_lookup_by_name_is_first_match() {
    let mut world = sample_world();
    world.resources.push(ResourceRecord {
        component_id: 14,
        archetype_component_id: 201,
        name: String::from("Clock"),
        bytes: vec![9],
    });
    let found = world.resource_by_name("Clock").unwrap();
    assert_eq!(found.component_id, 12);
    assert_eq!(found.bytes.len(), 8);
    assert!(world.resource_by_name("Missing").is_none());
}

#[test]
fn dump_path_uses_stamp_or_fallback() {
    assert_eq!(dump_path(&Some(String::from("2024-01-01-00-00-00"))), "2024-01-01-00-00-00");
    assert_eq!(dump_path(&None), "dump");
}
