//! General properties of the translator, stated and proved over the
//! specification model.

use vstd::prelude::*;
use crate::commands::Command;
use crate::commands::ASSIGN_DOORS_EXTERNAL;
use crate::commands::ASSIGN_DOORS_INTERNAL;
use crate::commands::ATTR_KEY_ASSIGNMENT;
use crate::commands::ATTR_KEY_COMMAND;
use crate::commands::CMD_DOORS_CLOSE_DOWN;
use crate::commands::CMD_DOORS_LEFT_DOWN;
use crate::commands::CMD_DOORS_RIGHT_DOWN;
use crate::commands::CMD_RELEASE_TOGGLE_DOWN;
use crate::commands::MSG_CLIENT_APPLICATION;
use crate::msg::spec_attr_bytes;
use crate::msg::spec_attr_i16;
use crate::msg::spec_attr_u16;
use crate::msg::spec_attr_u8;
use crate::msg::Node;
use crate::state::State;
use crate::switch_names::spec_switch_name;
use crate::switch_names::SwitchName;
use crate::translate::spec_apply_child;
use crate::translate::spec_apply_door_record;
use crate::translate::spec_apply_event_child;
use crate::translate::spec_apply_inputs;
use crate::translate::spec_apply_reactive;
use crate::translate::spec_door_changed;
use crate::translate::spec_fold_children;
use crate::translate::spec_fold_door_records;
use crate::translate::spec_fold_event_children;
use crate::translate::spec_panel_changed;
use crate::translate::spec_process;
use crate::translate::spec_release_changed;
use crate::translate::spec_rotate_toward_left;
use crate::translate::spec_rotate_toward_right;
use crate::translate::ATTR_DOOR_LEFT;
use crate::translate::ATTR_DOOR_RIGHT;
use crate::translate::ATTR_SWITCH_NAME;
use crate::translate::ATTR_SWITCH_NOTCH;
use crate::translate::FTD_DOOR_STATUS;
use crate::translate::NODE_DATA_OPERATION;
use crate::translate::NODE_KEY_EVENT;
use crate::translate::NODE_SWITCH_EVENT;

verus! {

// --- Well-formedness: the panel's side-selector cursor stays in range. ---

/// Door-status records never touch the panel-side fields.
proof fn lemma_fold_door_records_panel_fields(s: State, cs: Seq<Node>)
    ensures
        spec_fold_door_records(s, cs).side_selector_panel == s.side_selector_panel,
        spec_fold_door_records(s, cs).manual_override_active == s.manual_override_active,
        spec_fold_door_records(s, cs).release_switch_notch == s.release_switch_notch,
    decreases cs.len(),
{
    if cs.len() > 0 {
        lemma_fold_door_records_panel_fields(spec_apply_door_record(s, cs.first()), cs.drop_first());
    }
}

/// One operation event keeps the cursor well-formed.
proof fn lemma_apply_event_child_wf(s: State, c3: Node)
    ensures
        s.wf() ==> spec_apply_event_child(s, c3).0.wf(),
{
}

/// A sequence of operation events keeps the cursor well-formed.
proof fn lemma_fold_event_children_wf(s: State, cs: Seq<Node>)
    ensures
        s.wf() ==> spec_fold_event_children(s, cs).0.wf(),
    decreases cs.len(),
{
    if cs.len() > 0 {
        lemma_apply_event_child_wf(s, cs.first());
        lemma_fold_event_children_wf(spec_apply_event_child(s, cs.first()).0, cs.drop_first());
    }
}

/// One container child keeps the cursor well-formed.
proof fn lemma_apply_child_wf(s: State, c2: Node)
    ensures
        s.wf() ==> spec_apply_child(s, c2).0.wf(),
{
    lemma_fold_door_records_panel_fields(s, c2.children@);
    lemma_fold_event_children_wf(s, c2.children@);
}

/// A sequence of container children keeps the cursor well-formed.
proof fn lemma_fold_children_wf(s: State, cs: Seq<Node>)
    ensures
        s.wf() ==> spec_fold_children(s, cs).0.wf(),
    decreases cs.len(),
{
    if cs.len() > 0 {
        lemma_apply_child_wf(s, cs.first());
        lemma_fold_children_wf(spec_apply_child(s, cs.first()).0, cs.drop_first());
    }
}

/// The state invariant: from a well-formed state (or from the defaults),
/// processing any message leaves the panel's side-selector cursor at one of
/// its three values.
pub proof fn lemma_process_preserves_wf(prev: Option<State>, m: Node)
    requires
        prev matches Some(p) ==> p.wf(),
    ensures
        spec_process(prev, m).0.wf(),
{
    let s0 = match prev {
        None => State::spec_initial(),
        Some(s) => s,
    };
    if m.id == MSG_CLIENT_APPLICATION {
        lemma_fold_children_wf(s0, m.children@);
    }
}

// --- The door status is the maximum of the last reported levels. ---

/// After a door-status record in which both open-levels decode, the door
/// status is exactly their maximum; if either side is absent this cycle,
/// the previous door status is retained.
pub proof fn lemma_door_status_is_max(s: State, c: Node, l: u8, r: u8)
    requires
        c.id == FTD_DOOR_STATUS,
        spec_attr_u8(c, ATTR_DOOR_LEFT) == Some(l),
        spec_attr_u8(c, ATTR_DOOR_RIGHT) == Some(r),
    ensures
        spec_apply_door_record(s, c).door_status == if l >= r {
            l
        } else {
            r
        },
{
}

/// If either open-level is absent this cycle, the previous door status is
/// retained.
pub proof fn lemma_door_status_retained(s: State, c: Node)
    requires
        spec_attr_u8(c, ATTR_DOOR_LEFT) is None || spec_attr_u8(c, ATTR_DOOR_RIGHT) is None,
    ensures
        spec_apply_door_record(s, c).door_status == s.door_status,
{
}

// --- Side-selector rotation. ---

/// The rotation tables: a left press steps right to left, left to both and
/// both to right; a right press steps the opposite way; the two presses are
/// mutually inverse on the three selector values; and any value outside the
/// three is left unchanged (defensive, such a value should not occur).
pub proof fn lemma_selector_rotation(v: u8)
    ensures
        spec_rotate_toward_left(2) == 1 && spec_rotate_toward_left(1) == 3
            && spec_rotate_toward_left(3) == 2,
        spec_rotate_toward_right(1) == 2 && spec_rotate_toward_right(2) == 3
            && spec_rotate_toward_right(3) == 1,
        !(1 <= v <= 3) ==> spec_rotate_toward_left(v) == v && spec_rotate_toward_right(v) == v,
        spec_rotate_toward_right(spec_rotate_toward_left(v)) == spec_rotate_toward_left(
            spec_rotate_toward_right(v),
        ),
        1 <= v <= 3 ==> spec_rotate_toward_right(spec_rotate_toward_left(v)) == v,
{
}

// --- The internal-channel echo. ---

/// Every internal "down" keypress event for one of the three recognized
/// door commands yields exactly one synthetic "up" (id + 1) for the same
/// command, and nothing else; the state is untouched.
pub proof fn lemma_internal_echo(s: State, c3: Node, command: u16)
    requires
        c3.id == NODE_KEY_EVENT,
        spec_attr_u16(c3, ATTR_KEY_ASSIGNMENT) == Some(ASSIGN_DOORS_INTERNAL),
        spec_attr_u16(c3, ATTR_KEY_COMMAND) == Some(command),
        command == CMD_DOORS_LEFT_DOWN || command == CMD_DOORS_RIGHT_DOWN || command
            == CMD_DOORS_CLOSE_DOWN,
    ensures
        spec_apply_event_child(s, c3).0 == s,
        spec_apply_event_child(s, c3).1 == seq![
            Command::KeyPress { assignment: ASSIGN_DOORS_INTERNAL, command: (command + 1) as u16 }
        ],
{
}

/// The echo end to end: a message holding exactly one internal "down"
/// keypress event for a recognized door command produces, over the whole
/// cycle, exactly the one matching "up" — no more — and leaves the state
/// untouched.
pub proof fn lemma_internal_echo_batch(s: State, m: Node, command: u16)
    requires
        m.id == MSG_CLIENT_APPLICATION,
        m.children@.len() == 1,
        m.children@[0].id == NODE_DATA_OPERATION,
        m.children@[0].children@.len() == 1,
        m.children@[0].children@[0].id == NODE_KEY_EVENT,
        spec_attr_u16(m.children@[0].children@[0], ATTR_KEY_ASSIGNMENT) == Some(
            ASSIGN_DOORS_INTERNAL,
        ),
        spec_attr_u16(m.children@[0].children@[0], ATTR_KEY_COMMAND) == Some(command),
        command == CMD_DOORS_LEFT_DOWN || command == CMD_DOORS_RIGHT_DOWN || command
            == CMD_DOORS_CLOSE_DOWN,
    ensures
        spec_process(Some(s), m).0 == s,
        spec_process(Some(s), m).1 == seq![
            Command::KeyPress { assignment: ASSIGN_DOORS_INTERNAL, command: (command + 1) as u16 }
        ],
{
    let c2 = m.children@[0];
    let c3 = c2.children@[0];
    let echo = seq![
        Command::KeyPress { assignment: ASSIGN_DOORS_INTERNAL, command: (command + 1) as u16 }
    ];
    lemma_internal_echo(s, c3, command);
    assert(c2.children@.first() == c3);
    assert(c2.children@.drop_first() =~= Seq::<Node>::empty());
    assert(echo + Seq::<Command>::empty() =~= echo);
    assert(spec_fold_event_children(s, Seq::<Node>::empty()) == (
        s,
        Seq::<Command>::empty(),
    ));
    assert(spec_fold_event_children(s, c2.children@) == (s, echo));
    assert(m.children@.first() == c2);
    assert(m.children@.drop_first() =~= Seq::<Node>::empty());
    assert(spec_fold_children(s, Seq::<Node>::empty()) == (s, Seq::<Command>::empty()));
    assert(spec_fold_children(s, m.children@) == (s, echo));
    assert(!spec_door_changed(Some(s), s));
    assert(!spec_panel_changed(Some(s), s));
    assert(!spec_release_changed(Some(s), s));
    assert(spec_apply_reactive(Some(s), s).1 =~= Seq::<Command>::empty());
    assert(echo + spec_apply_reactive(Some(s), s).1 =~= echo);
}

// --- Suppression: a message that changes nothing sends nothing. ---

/// An operation-event child that triggers no direct synthetic command:
/// neither an internal echo, nor a reinterpreted external door key, nor an
/// auto/all-close engagement.
pub open spec fn spec_event_child_silent(c3: Node) -> bool {
    if c3.id == NODE_KEY_EVENT {
        match (spec_attr_u16(c3, ATTR_KEY_ASSIGNMENT), spec_attr_u16(c3, ATTR_KEY_COMMAND)) {
            (Some(assignment), Some(command)) => {
                &&& !(assignment == ASSIGN_DOORS_INTERNAL && (command == CMD_DOORS_LEFT_DOWN
                    || command == CMD_DOORS_RIGHT_DOWN || command == CMD_DOORS_CLOSE_DOWN))
                &&& !(assignment == ASSIGN_DOORS_EXTERNAL && (command == CMD_RELEASE_TOGGLE_DOWN
                    || command == CMD_DOORS_CLOSE_DOWN || command == CMD_DOORS_CLOSE_DOWN + 1))
            },
            _ => true,
        }
    } else if c3.id == NODE_SWITCH_EVENT {
        match (spec_attr_bytes(c3, ATTR_SWITCH_NAME), spec_attr_i16(c3, ATTR_SWITCH_NOTCH)) {
            (Some(name), Some(notch)) => !(spec_switch_name(name) == SwitchName::AutoAllClose
                && notch == 0),
            _ => true,
        }
    } else {
        true
    }
}

/// A container child none of whose events triggers a direct command.
pub open spec fn spec_child_silent(c2: Node) -> bool {
    c2.id == NODE_DATA_OPERATION ==> forall|j: int|
        #![auto]
        0 <= j < c2.children@.len() ==> spec_event_child_silent(c2.children@[j])
}

/// A message that triggers no direct synthetic command. Telemetry children
/// never do; operation children must be silent one by one.
pub open spec fn spec_no_direct_commands(m: Node) -> bool {
    forall|i: int| #![auto] 0 <= i < m.children@.len() ==> spec_child_silent(m.children@[i])
}

/// A silent event child emits nothing.
proof fn lemma_event_child_silent(s: State, c3: Node)
    requires
        spec_event_child_silent(c3),
    ensures
        spec_apply_event_child(s, c3).1 == Seq::<Command>::empty(),
{
}

/// A sequence of silent event children emits nothing.
proof fn lemma_fold_event_children_silent(s: State, cs: Seq<Node>)
    requires
        forall|j: int| #![auto] 0 <= j < cs.len() ==> spec_event_child_silent(cs[j]),
    ensures
        spec_fold_event_children(s, cs).1 == Seq::<Command>::empty(),
    decreases cs.len(),
{
    if cs.len() > 0 {
        lemma_event_child_silent(s, cs.first());
        let s1 = spec_apply_event_child(s, cs.first()).0;
        assert forall|j: int| 0 <= j < cs.drop_first().len() implies spec_event_child_silent(
            cs.drop_first()[j],
        ) by {
            assert(cs.drop_first()[j] == cs[j + 1]);
        }
        lemma_fold_event_children_silent(s1, cs.drop_first());
        assert(Seq::<Command>::empty() + Seq::<Command>::empty() =~= Seq::<Command>::empty());
    }
}

/// A silent container child emits nothing.
proof fn lemma_apply_child_silent(s: State, c2: Node)
    requires
        spec_child_silent(c2),
    ensures
        spec_apply_child(s, c2).1 == Seq::<Command>::empty(),
{
    if c2.id == NODE_DATA_OPERATION {
        lemma_fold_event_children_silent(s, c2.children@);
    }
}

/// A sequence of silent container children emits nothing.
proof fn lemma_fold_children_silent(s: State, cs: Seq<Node>)
    requires
        forall|i: int| #![auto] 0 <= i < cs.len() ==> spec_child_silent(cs[i]),
    ensures
        spec_fold_children(s, cs).1 == Seq::<Command>::empty(),
    decreases cs.len(),
{
    if cs.len() > 0 {
        lemma_apply_child_silent(s, cs.first());
        let s1 = spec_apply_child(s, cs.first()).0;
        assert forall|i: int| 0 <= i < cs.drop_first().len() implies spec_child_silent(
            cs.drop_first()[i],
        ) by {
            assert(cs.drop_first()[i] == cs[i + 1]);
        }
        lemma_fold_children_silent(s1, cs.drop_first());
        assert(Seq::<Command>::empty() + Seq::<Command>::empty() =~= Seq::<Command>::empty());
    }
}

/// Idempotence on a stable state: re-applying a message that triggers no
/// direct command, to a state that it leaves unchanged, yields zero
/// synthetic output commands. (A message with a direct event — an internal
/// down keypress, a reinterpreted external door key, or an auto/all-close
/// engagement — answers every application, so it is excluded here.)
pub proof fn lemma_stable_state_produces_no_output(s: State, m: Node)
    requires
        spec_no_direct_commands(m),
        spec_process(Some(s), m).0 == s,
    ensures
        spec_process(Some(s), m).1 == Seq::<Command>::empty(),
{
    let (s1, o1) = spec_apply_inputs(s, m);
    if m.id == MSG_CLIENT_APPLICATION {
        lemma_fold_children_silent(s, m.children@);
    }
    assert(o1 == Seq::<Command>::empty());
    let (s2, o2) = spec_apply_reactive(Some(s), s1);
    assert(s2 == s);
    assert(s2.door_status == s1.door_status);
    assert(s2.side_selector_panel == s1.side_selector_panel);
    assert(s2.release_switch_notch == s1.release_switch_notch);
    assert(!spec_door_changed(Some(s), s1));
    assert(!spec_panel_changed(Some(s), s1));
    assert(!spec_release_changed(Some(s), s1));
    assert(o2 =~= Seq::<Command>::empty());
    assert(o1 + o2 =~= Seq::<Command>::empty());
}

} // verus!
