//! Scenario tests of the translator's transition function.

use door_panel::commands::NODE_INPUT_COMMAND;
use door_panel::translate::process_message;
use door_panel::translate::step;
use door_panel::Attribute;
use door_panel::Command;
use door_panel::Node;
use door_panel::State;

fn leaf(id: u16, attributes: Vec<Attribute>) -> Node {
    Node { id, attributes, children: vec![] }
}

fn container(children: Vec<Node>) -> Node {
    Node { id: 0x02, attributes: vec![], children }
}

fn telemetry(attributes: Vec<Attribute>, children: Vec<Node>) -> Node {
    Node { id: 0x0A, attributes, children }
}

fn operation(children: Vec<Node>) -> Node {
    Node { id: 0x0B, attributes: vec![], children }
}

fn door_record(left: u8, right: u8) -> Node {
    leaf(
        0x66,
        vec![
            Attribute { id: 2, value: vec![left] },
            Attribute { id: 3, value: vec![right] },
        ],
    )
}

fn speed_attr(speed: f32) -> Attribute {
    Attribute { id: 1, value: speed.to_le_bytes().to_vec() }
}

fn key_event(assignment: u16, command: u16) -> Node {
    leaf(
        0x01,
        vec![
            Attribute { id: 1, value: assignment.to_le_bytes().to_vec() },
            Attribute { id: 2, value: command.to_le_bytes().to_vec() },
        ],
    )
}

fn switch_event(name: &str, notch: i16) -> Node {
    leaf(
        0x02,
        vec![
            Attribute { id: 1, value: name.as_bytes().to_vec() },
            Attribute { id: 3, value: notch.to_le_bytes().to_vec() },
        ],
    )
}

fn key(assignment: u16, command: u16) -> Command {
    Command::KeyPress { assignment, command }
}

fn switch(assignment: u16, position: u16) -> Command {
    Command::SwitchNotch { assignment, position }
}

/// A state that a message changing nothing leaves alone.
fn stable_state() -> State {
    State {
        side_selector_hardware: 0,
        door_status: 0,
        release_switch_notch: 1,
        side_selector_panel: 2,
        manual_override_active: false,
    }
}

#[test]
fn first_message_reports_initial_panel() {
    // On the very first cycle every reactive block fires against "no
    // previous state": door lamps off, green loop on, the right-selector
    // lamp lit, and no reconciliation keys (release switch is neutral).
    let (s, out) = process_message(None, &container(vec![]));
    assert_eq!(s, stable_state());
    assert_eq!(
        out,
        vec![
            switch(22, 0),
            switch(23, 0),
            switch(24, 0),
            switch(25, 0),
            switch(27, 0),
            switch(26, 1),
            switch(31, 0),
            switch(32, 1),
            switch(33, 0),
        ]
    );
}

#[test]
fn door_status_is_max_of_reported_levels() {
    let msg = container(vec![telemetry(vec![], vec![door_record(1, 3)])]);
    let (s, _) = process_message(Some(stable_state()), &msg);
    assert_eq!(s.door_status, 3);
    let msg2 = container(vec![telemetry(vec![], vec![door_record(2, 0)])]);
    let (s2, _) = process_message(Some(s), &msg2);
    assert_eq!(s2.door_status, 2);
}

#[test]
fn door_status_retained_when_one_side_missing() {
    let record = leaf(0x66, vec![Attribute { id: 2, value: vec![4] }]);
    let msg = container(vec![telemetry(vec![], vec![record])]);
    let mut prev = stable_state();
    prev.door_status = 1;
    let (s, out) = process_message(Some(prev), &msg);
    assert_eq!(s.door_status, 1);
    assert!(out.is_empty());
}

#[test]
fn hardware_selector_is_mirrored() {
    let record = leaf(0x66, vec![Attribute { id: 5, value: vec![3] }]);
    let msg = container(vec![telemetry(vec![], vec![record])]);
    let (s, out) = process_message(Some(stable_state()), &msg);
    assert_eq!(s.side_selector_hardware, 3);
    assert!(out.is_empty());
}

#[test]
fn scenario_lamps_on_door_opening() {
    // Door status goes 0 -> 2: four door-open lamps and the pram lamp on,
    // the green-loop lamp off, manual override untouched.
    let msg = container(vec![telemetry(vec![], vec![door_record(2, 1)])]);
    let (s, out) = process_message(Some(stable_state()), &msg);
    assert_eq!(s.door_status, 2);
    assert!(!s.manual_override_active);
    assert_eq!(
        out,
        vec![
            switch(22, 1),
            switch(23, 1),
            switch(24, 1),
            switch(25, 1),
            switch(27, 1),
            switch(26, 0),
        ]
    );
}

#[test]
fn scenario_hardware_reconciliation() {
    // Release switch moves to notch 0 while the panel's cursor is right and
    // the hardware selector is off: exactly one right-door-down keypress.
    let msg = container(vec![operation(vec![switch_event("Tuerfreigabe", 0)])]);
    let (s, out) = process_message(Some(stable_state()), &msg);
    assert_eq!(s.release_switch_notch, 0);
    assert_eq!(out, vec![key(36, 63)]);
}

#[test]
fn reconciliation_presses_both_sides_when_needed() {
    let mut prev = stable_state();
    prev.side_selector_panel = 3;
    let msg = container(vec![operation(vec![switch_event("Tuerfreigabe", 0)])]);
    let (_, out) = process_message(Some(prev), &msg);
    assert_eq!(out, vec![key(36, 61), key(36, 63)]);
}

#[test]
fn reconciliation_releases_hardware_on_neutral() {
    // Release switch back to neutral while the hardware holds the right
    // side: the desired position is off, so the right bit is toggled.
    let mut prev = stable_state();
    prev.release_switch_notch = 0;
    prev.side_selector_hardware = 2;
    let msg = container(vec![operation(vec![switch_event("Tuerfreigabe", 1)])]);
    let (s, out) = process_message(Some(prev), &msg);
    assert_eq!(s.release_switch_notch, 1);
    assert_eq!(out, vec![key(36, 63)]);
}

#[test]
fn scenario_post_departure_reset() {
    // Speed crosses the threshold with no manual override: the cursor is
    // forced to right and the override latches; a second sample above the
    // threshold changes nothing further.
    let mut prev = stable_state();
    prev.door_status = 2;
    prev.side_selector_panel = 1;
    let msg = container(vec![telemetry(vec![speed_attr(10.0)], vec![])]);
    let (s1, out1) = process_message(Some(prev), &msg);
    assert_eq!(s1.side_selector_panel, 2);
    assert!(s1.manual_override_active);
    assert_eq!(out1, vec![switch(31, 0), switch(32, 1), switch(33, 0)]);
    let (s2, out2) = process_message(Some(s1), &msg);
    assert_eq!(s2, s1);
    assert!(out2.is_empty());
}

#[test]
fn override_clears_when_doors_close() {
    // Once the doors fully close the override unlatches, so a later
    // above-threshold sample may fire again.
    let mut prev = stable_state();
    prev.door_status = 2;
    prev.manual_override_active = true;
    let closing = container(vec![telemetry(vec![], vec![door_record(0, 0)])]);
    let (s1, out1) = process_message(Some(prev), &closing);
    assert_eq!(s1.door_status, 0);
    assert!(!s1.manual_override_active);
    assert_eq!(
        out1,
        vec![
            switch(22, 0),
            switch(23, 0),
            switch(24, 0),
            switch(25, 0),
            switch(27, 0),
            switch(26, 1),
        ]
    );
    let moving = container(vec![telemetry(vec![speed_attr(6.0)], vec![])]);
    let (s2, _) = process_message(Some(s1), &moving);
    assert!(s2.manual_override_active);
    assert_eq!(s2.side_selector_panel, 2);
}

#[test]
fn speed_below_threshold_does_nothing() {
    let msg = container(vec![telemetry(vec![speed_attr(1.0)], vec![])]);
    let (s, out) = process_message(Some(stable_state()), &msg);
    assert_eq!(s, stable_state());
    assert!(out.is_empty());
}

#[test]
fn scenario_suppression() {
    // A message that changes no tracked field and triggers no direct event
    // produces no outbound send at all.
    let mut prev = stable_state();
    prev.door_status = 1;
    let msg = container(vec![telemetry(vec![speed_attr(0.5)], vec![door_record(1, 0)])]);
    let (s, sent) = step(Some(prev), &msg);
    assert_eq!(s, prev);
    assert!(sent.is_none());
}

#[test]
fn internal_down_is_echoed_with_up() {
    // Every internal "down" of the three door commands is answered by
    // exactly one "up" (id + 1), and the state is untouched.
    for down in [61u16, 63, 65] {
        let msg = container(vec![operation(vec![key_event(36, down)])]);
        let (s, out) = process_message(Some(stable_state()), &msg);
        assert_eq!(s, stable_state());
        assert_eq!(out, vec![key(36, down + 1)]);
    }
}

#[test]
fn internal_other_commands_not_echoed() {
    for other in [59u16, 60, 62, 64, 66] {
        let msg = container(vec![operation(vec![key_event(36, other)])]);
        let (s, out) = process_message(Some(stable_state()), &msg);
        assert_eq!(s, stable_state());
        assert!(out.is_empty());
    }
}

#[test]
fn external_toggle_key_flips_release_switch() {
    let msg = container(vec![operation(vec![key_event(10, 59)])]);
    // From a non-release notch the switch is driven to release (0)...
    let (_, out) = process_message(Some(stable_state()), &msg);
    assert_eq!(out, vec![switch(34, 0)]);
    // ...and from the release notch back to neutral (1).
    let mut prev = stable_state();
    prev.release_switch_notch = 0;
    let (_, out2) = process_message(Some(prev), &msg);
    assert_eq!(out2, vec![switch(34, 1)]);
}

#[test]
fn external_left_key_rotates_cursor() {
    // panel right (2) -> left (1); lamps follow; release is neutral so the
    // desired hardware position stays off and no key is synthesized.
    let msg = container(vec![operation(vec![key_event(10, 61)])]);
    let (s, out) = process_message(Some(stable_state()), &msg);
    assert_eq!(s.side_selector_panel, 1);
    assert_eq!(out, vec![switch(31, 1), switch(32, 0), switch(33, 0)]);
}

#[test]
fn external_right_key_rotates_cursor() {
    // panel right (2) -> both (3).
    let msg = container(vec![operation(vec![key_event(10, 63)])]);
    let (s, out) = process_message(Some(stable_state()), &msg);
    assert_eq!(s.side_selector_panel, 3);
    assert_eq!(out, vec![switch(31, 0), switch(32, 0), switch(33, 1)]);
}

#[test]
fn external_close_key_drives_all_close_switch() {
    let down = container(vec![operation(vec![key_event(10, 65)])]);
    let (_, out) = process_message(Some(stable_state()), &down);
    assert_eq!(out, vec![switch(35, 0)]);
    let up = container(vec![operation(vec![key_event(10, 66)])]);
    let (_, out2) = process_message(Some(stable_state()), &up);
    assert_eq!(out2, vec![switch(35, 1)]);
}

#[test]
fn all_close_switch_presses_internal_close() {
    let msg = container(vec![operation(vec![switch_event("Tueren Automatik/Alle zu", 0)])]);
    let (s, out) = process_message(Some(stable_state()), &msg);
    assert_eq!(s, stable_state());
    assert_eq!(out, vec![key(36, 65)]);
    // Any other notch of that switch is a no-op.
    let msg2 = container(vec![operation(vec![switch_event("Tueren Automatik/Alle zu", 1)])]);
    let (_, out2) = process_message(Some(stable_state()), &msg2);
    assert!(out2.is_empty());
}

#[test]
fn preselect_engaged_sets_cursor_and_latches_override() {
    let msg = container(vec![operation(vec![switch_event("Tuerseitenvorwahl links", 1)])]);
    let (s, out) = process_message(Some(stable_state()), &msg);
    assert_eq!(s.side_selector_panel, 1);
    assert!(s.manual_override_active);
    assert_eq!(out, vec![switch(31, 1), switch(32, 0), switch(33, 0)]);
}

#[test]
fn preselect_released_latches_override_only() {
    let msg = container(vec![operation(vec![switch_event("Tuerseitenvorwahl links", 0)])]);
    let (s, out) = process_message(Some(stable_state()), &msg);
    assert_eq!(s.side_selector_panel, 2);
    assert!(s.manual_override_active);
    assert!(out.is_empty());
}

#[test]
fn unknown_inputs_are_ignored() {
    let msg = container(vec![
        leaf(0x0C, vec![]),
        operation(vec![
            leaf(0x03, vec![]),
            switch_event("Sandstreuer", 1),
            key_event(11, 61),
        ]),
    ]);
    let (s, sent) = step(Some(stable_state()), &msg);
    assert_eq!(s, stable_state());
    assert!(sent.is_none());
    let other = leaf(0x05, vec![]);
    let (s2, sent2) = step(Some(stable_state()), &other);
    assert_eq!(s2, stable_state());
    assert!(sent2.is_none());
}

#[test]
fn outputs_keep_event_order_before_reactive_lamps() {
    // Direct event outputs come first, in event order; the reactive lamp
    // updates follow.
    let msg = container(vec![
        operation(vec![key_event(36, 61), key_event(10, 65)]),
        telemetry(vec![], vec![door_record(2, 2)]),
    ]);
    let (_, out) = process_message(Some(stable_state()), &msg);
    assert_eq!(
        out,
        vec![
            key(36, 62),
            switch(35, 0),
            switch(22, 1),
            switch(23, 1),
            switch(24, 1),
            switch(25, 1),
            switch(27, 1),
            switch(26, 0),
        ]
    );
}

#[test]
fn batch_wraps_rendered_commands() {
    let msg = container(vec![operation(vec![key_event(36, 61)])]);
    let (_, sent) = step(Some(stable_state()), &msg);
    let batch = sent.expect("one command was produced");
    assert_eq!(batch.id, 0x02);
    assert!(batch.attributes.is_empty());
    assert_eq!(batch.children.len(), 1);
    let input = &batch.children[0];
    assert_eq!(input.id, NODE_INPUT_COMMAND);
    assert_eq!(input.children.len(), 1);
    let node = &input.children[0];
    assert_eq!(node.id, 0x01);
    assert_eq!(node.attr_u16(1), Some(36));
    assert_eq!(node.attr_u16(2), Some(62));
}

#[test]
fn reapplying_telemetry_to_stable_state_is_silent() {
    // Apply a telemetry message once, then again: the second application
    // changes nothing and produces no output.
    let msg = container(vec![telemetry(
        vec![speed_attr(8.0)],
        vec![door_record(2, 1)],
    )]);
    let (s1, _) = process_message(Some(stable_state()), &msg);
    let (s2, sent) = step(Some(s1), &msg);
    assert_eq!(s2, s1);
    assert!(sent.is_none());
}
