use tiny_pinch::gate::{startup_label, Gate};

#[test]
fn startup_labels_are_the_fixed_set() {
    assert!(startup_label("PreStartup"));
    assert!(startup_label("Startup"));
    assert!(startup_label("PostStartup"));
    assert!(!startup_label("Update"));
    assert!(!startup_label("startup"));
    assert!(!startup_label(""));
}

#[test]
fn unarmed_gate_never_fires_delayed_policy() {
    let gate = Gate::new();
    let d = gate.decide(1, "Update", i64::MAX);
    assert!(!d.delayed);
    assert!(!d.startup);
}

#[test]
fn startup_policy_fires_even_unarmed() {
    let gate = Gate::new();
    let d = gate.decide(1, "Startup", 0);
    assert!(d.startup);
}

#[test]
fn delayed_policy_waits_for_threshold() {
    let mut gate = Gate::new();
    gate.arm_at(1000, 2000, String::from("2024-01-01-00-00-00"));
    assert!(!gate.decide(1, "Update", 1500).delayed);
    assert!(!gate.decide(1, "Update", 2999).delayed);
    assert!(gate.decide(1, "Update", 3000).delayed);
    assert!(gate.decide(1, "Update", 9999).delayed);
}

#[test]
fn delayed_policy_fires_once_per_world_and_label() {
    let mut gate = Gate::new();
    gate.arm_at(0, 1000, String::from("stamp"));
    assert!(gate.decide(1, "Update", 5000).delayed);
    gate.record(1, "Update");
    assert!(!gate.decide(1, "Update", 5000).delayed);
    assert!(!gate.decide(1, "Update", i64::MAX).delayed);
    // A different label of the same world is still eligible.
    assert!(gate.decide(1, "FixedUpdate", 5000).delayed);
    // A recreated world under a fresh identity is eligible again.
    assert!(gate.decide(2, "Update", 5000).delayed);
}

#[test]
fn failed_dump_is_not_recorded_and_retries() {
    let mut gate = Gate::new();
    gate.arm_at(0, 1000, String::from("stamp"));
    let d = gate.decide(1, "Update", 2000);
    assert!(d.delayed);
    gate.record_outcome(1, "Update", d.delayed, false);
    // Not recorded: the next invocation of the same label retries.
    let d = gate.decide(1, "Update", 3000);
    assert!(d.delayed);
    gate.record_outcome(1, "Update", d.delayed, true);
    assert!(!gate.decide(1, "Update", 4000).delayed);
}

#[test]
fn startup_outcome_records_nothing() {
    let mut gate = Gate::new();
    gate.arm_at(0, 1000, String::from("stamp"));
    // A purely startup-triggered dump leaves the delayed policy untouched.
    gate.record_outcome(1, "Startup", false, true);
    assert!(gate.decide(1, "Startup", 5000).delayed);
}

#[test]
fn has_ran_key_tracks_recorded_pairs() {
    let mut gate = Gate::new();
    assert!(!gate.has_ran_key(1, "Update"));
    gate.record(1, "Update");
    assert!(gate.has_ran_key(1, "Update"));
    assert!(!gate.has_ran_key(2, "Update"));
    assert!(!gate.has_ran_key(1, "FixedUpdate"));
}

#[test]
fn dump_root_falls_back_before_arming() {
    let gate = Gate::new();
    assert_eq!(gate.dump_root(), "dump");
    let mut gate = Gate::new();
    gate.arm_at(0, 1000, String::from("2024-01-01-00-00-00"));
    assert_eq!(gate.dump_root(), "2024-01-01-00-00-00");
}

#[test]
fn arm_reads_the_clock_and_keeps_the_delay() {
    let mut gate = Gate::new();
    gate.record(7, "Update");
    gate.arm(2500);
    let armed = gate.armed.as_ref().unwrap();
    assert_eq!(armed.delay_ms, 2500);
    // The timestamp came from the clock: a plausible directory name.
    assert!(!armed.stamp.is_empty());
    // Arming keeps the recorded set.
    assert!(gate.has_ran_key(7, "Update"));
}
