use tiny_pinch::gate::Gate;
use tiny_pinch::hook::Hook;
use tiny_pinch::offsets::{ModuleImage, Offsets};
use tiny_pinch::runtime::{observe_schedule_run, operate};
use tiny_pinch::world::{
    ArchetypeComponent, ArchetypeRecord, ComponentInfo, GraphSystem, NodeId, ResourceRecord,
    ScheduleSnapshot, SystemRecord, WorldSnapshot,
};

fn world_w1() -> WorldSnapshot {
    WorldSnapshot {
        id: 1,
        components: vec![
            ComponentInfo { id: 10, name: String::from("Position"), size: 12 },
            ComponentInfo { id: 12, name: String::from("Clock"), size: 8 },
        ],
        archetypes: vec![ArchetypeRecord {
            id: 0,
            entities: 3,
            has_add_hook: false,
            has_insert_hook: false,
            has_remove_hook: false,
            has_add_observer: false,
            has_insert_observer: false,
            has_remove_observer: false,
            components: vec![ArchetypeComponent {
                component_id: 10,
                archetype_component_id: 100,
                table: true,
            }],
        }],
        resources: vec![ResourceRecord {
            component_id: 12,
            archetype_component_id: 200,
            name: String::from("Clock"),
            bytes: vec![1, 2, 3, 4, 5, 6, 7, 8],
        }],
        non_send_resources: vec![],
    }
}

fn update_schedule() -> ScheduleSnapshot {
    ScheduleSnapshot {
        label: String::from("Update"),
        executor_kind: String::from("MultiThreaded"),
        systems: vec![
            GraphSystem { id: 0, name: String::from("SysA"), conditions: vec![] },
            GraphSystem { id: 1, name: String::from("SysB"), conditions: vec![] },
        ],
        sets: vec![],
        topology: vec![NodeId::System(0), NodeId::System(1)],
        executable: vec![
            SystemRecord {
                name: String::from("SysA"),
                exclusive: false,
                send: true,
                deferred: false,
                reads: vec![100],
                writes: vec![],
            },
            SystemRecord {
                name: String::from("SysB"),
                exclusive: false,
                send: true,
                deferred: false,
                reads: vec![],
                writes: vec![100],
            },
        ],
    }
}

fn startup_schedule() -> ScheduleSnapshot {
    let mut s = update_schedule();
    s.label = String::from("Startup");
    s
}

#[test]
fn delayed_dump_end_to_end() {
    let t0: i64 = 1_000_000;
    let mut gate = Gate::new();
    gate.arm_at(t0, 2000, String::from("out"));
    let world = world_w1();
    let schedule = update_schedule();

    // Below the threshold: no dump.
    let (d, plan) = observe_schedule_run(&gate, &world, &schedule, t0 + 500);
    assert!(!d.startup && !d.delayed);
    assert!(plan.is_none());

    // Past the threshold: one dump, under out/<world>/<label>/.
    let (d, plan) = observe_schedule_run(&gate, &world, &schedule, t0 + 2100);
    assert!(d.delayed && !d.startup);
    let plan = plan.unwrap();
    assert_eq!(plan.dir, "out/1/Update");
    assert!(plan.files[0].contents.starts_with("Clock (8)\n0000: 01 02 03 04 05 06 07 08"));
    assert!(plan.files[1].contents.contains("Archetype: 0 (3 entities)\n"));
    assert!(plan.files[1].contents.contains("T Position (12)\n"));
    let schedule_txt = &plan.files[2].contents;
    let sys_a = schedule_txt.find("0 SysA\n").unwrap();
    let sys_b = schedule_txt.find("1 SysB\n").unwrap();
    assert!(sys_a < sys_b);
    gate.record_outcome(world.id, "Update", d.delayed, true);

    // Recorded: a later call of the same label produces nothing new.
    let (d, plan) = observe_schedule_run(&gate, &world, &schedule, t0 + 3000);
    assert!(!d.delayed);
    assert!(plan.is_none());

    // A recreated world, under a fresh identity, is dumped independently.
    let mut world2 = world_w1();
    world2.id = 2;
    let (d, plan) = observe_schedule_run(&gate, &world2, &schedule, t0 + 3500);
    assert!(d.delayed);
    assert_eq!(plan.unwrap().dir, "out/2/Update");
}

#[test]
fn startup_label_dumps_on_every_call() {
    let mut gate = Gate::new();
    gate.arm_at(0, 1_000_000, String::from("out"));
    let world = world_w1();
    let schedule = startup_schedule();
    for call in 0..3 {
        let (d, plan) = observe_schedule_run(&gate, &world, &schedule, call * 10);
        assert!(d.startup);
        assert!(plan.is_some());
    }
}

#[test]
fn failed_pass_leaves_other_files_and_retries() {
    let t0: i64 = 0;
    let mut gate = Gate::new();
    gate.arm_at(t0, 1000, String::from("out"));
    let world = world_w1();
    let schedule = update_schedule();

    let (d, plan) = observe_schedule_run(&gate, &world, &schedule, t0 + 1500);
    assert!(d.delayed);
    let plan = plan.unwrap();

    // Simulate the collaborator's write loop with an I/O failure on the
    // archetypes file: every other file is still written.
    let mut written: Vec<&str> = Vec::new();
    let mut all_ok = true;
    for file in plan.files.iter() {
        if file.name == "archetypes.txt" {
            all_ok = false;
            continue;
        }
        written.push(file.name.as_str());
    }
    assert_eq!(written, vec!["resources.txt", "schedule.txt", "systems.txt"]);

    // The failed dump is not recorded: the next invocation retries.
    gate.record_outcome(world.id, "Update", d.delayed, all_ok);
    let (d, plan) = observe_schedule_run(&gate, &world, &schedule, t0 + 2000);
    assert!(d.delayed);
    assert!(plan.is_some());
    gate.record_outcome(world.id, "Update", d.delayed, true);
    let (d, _) = observe_schedule_run(&gate, &world, &schedule, t0 + 2500);
    assert!(!d.delayed);
}

#[test]
fn operate_arms_and_hooks_once() {
    let mut gate = Gate::new();
    let mut hook = Hook::new();
    let image = ModuleImage { base: 0x10_0000 };
    let offsets = Offsets { run_schedule: 0x2bb30 };

    assert!(operate(&mut gate, &mut hook, &image, &offsets, 2000).is_ok());
    let record = hook.record.unwrap();
    assert_eq!(record.target, 0x12bb30);
    assert!(record.enabled);
    assert_eq!(gate.armed.as_ref().unwrap().delay_ms, 2000);

    // A second attach attempt is refused and leaves the hook untouched.
    assert!(operate(&mut gate, &mut hook, &image, &offsets, 2000).is_err());
    assert_eq!(hook.record.unwrap(), record);
}
