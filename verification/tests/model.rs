//! Tests of the message model, the command builders, the switch-name
//! mapping, the selector rotation and the speed-threshold encoding.

use door_panel::commands::make_command_input_node;
use door_panel::commands::make_switch_input_node;
use door_panel::commands::ATTR_KEY_ACTION;
use door_panel::commands::ATTR_KEY_ASSIGNMENT;
use door_panel::commands::ATTR_KEY_COMMAND;
use door_panel::commands::ATTR_KEY_SWITCH_POSITION;
use door_panel::commands::KEY_ACTION_ABSOLUTE_NOTCH;
use door_panel::commands::NODE_KEY_INPUT;
use door_panel::switch_names::switch_name_of;
use door_panel::switch_names::SwitchName;
use door_panel::translate::rotate_toward_left;
use door_panel::translate::rotate_toward_right;
use door_panel::translate::speed_above_threshold;
use door_panel::translate::SPEED_THRESHOLD_BITS;
use door_panel::Attribute;
use door_panel::Node;

fn leaf(id: u16, attributes: Vec<Attribute>) -> Node {
    Node { id, attributes, children: vec![] }
}

#[test]
fn attr_decode_picks_first_match() {
    let n = leaf(
        0x66,
        vec![
            Attribute { id: 2, value: vec![7] },
            Attribute { id: 2, value: vec![9] },
        ],
    );
    assert_eq!(n.attr_u8(2), Some(7));
}

#[test]
fn attr_decode_absent_or_wrong_length() {
    let n = leaf(
        0x66,
        vec![
            Attribute { id: 2, value: vec![1, 2] },
            Attribute { id: 3, value: vec![] },
        ],
    );
    assert_eq!(n.attr_u8(2), None);
    assert_eq!(n.attr_u8(3), None);
    assert_eq!(n.attr_u8(4), None);
    assert_eq!(n.attr_u16(3), None);
    assert_eq!(n.attr_i16(3), None);
    assert_eq!(n.attr_u32_bits(2), None);
}

#[test]
fn attr_u16_little_endian() {
    let n = leaf(1, vec![Attribute { id: 1, value: vec![0x34, 0x12] }]);
    assert_eq!(n.attr_u16(1), Some(0x1234));
}

#[test]
fn attr_i16_two_complement() {
    let neg = leaf(1, vec![Attribute { id: 3, value: (-2i16).to_le_bytes().to_vec() }]);
    assert_eq!(neg.attr_i16(3), Some(-2));
    let pos = leaf(1, vec![Attribute { id: 3, value: 1234i16.to_le_bytes().to_vec() }]);
    assert_eq!(pos.attr_i16(3), Some(1234));
    let min = leaf(1, vec![Attribute { id: 3, value: i16::MIN.to_le_bytes().to_vec() }]);
    assert_eq!(min.attr_i16(3), Some(i16::MIN));
}

#[test]
fn attr_u32_bits_matches_float_bits() {
    let v: f32 = 12.75;
    let n = leaf(0x0A, vec![Attribute { id: 1, value: v.to_le_bytes().to_vec() }]);
    assert_eq!(n.attr_u32_bits(1), Some(v.to_bits()));
}

#[test]
fn command_input_node_structure() {
    let n = make_command_input_node(36, 62);
    assert_eq!(n.id, NODE_KEY_INPUT);
    assert!(n.children.is_empty());
    assert_eq!(n.attributes.len(), 2);
    assert_eq!(n.attributes[0].id, ATTR_KEY_ASSIGNMENT);
    assert_eq!(n.attributes[0].value, vec![36, 0]);
    assert_eq!(n.attributes[1].id, ATTR_KEY_COMMAND);
    assert_eq!(n.attributes[1].value, vec![62, 0]);
    assert_eq!(n.attr_u16(ATTR_KEY_ASSIGNMENT), Some(36));
    assert_eq!(n.attr_u16(ATTR_KEY_COMMAND), Some(62));
}

#[test]
fn switch_input_node_structure() {
    let n = make_switch_input_node(26, 1);
    assert_eq!(n.id, NODE_KEY_INPUT);
    assert!(n.children.is_empty());
    assert_eq!(n.attributes.len(), 3);
    assert_eq!(n.attributes[0].id, ATTR_KEY_ASSIGNMENT);
    assert_eq!(n.attributes[0].value, vec![26, 0]);
    assert_eq!(n.attributes[1].id, ATTR_KEY_ACTION);
    assert_eq!(n.attr_u16(ATTR_KEY_ACTION), Some(KEY_ACTION_ABSOLUTE_NOTCH));
    assert_eq!(n.attributes[2].id, ATTR_KEY_SWITCH_POSITION);
    assert_eq!(n.attr_u16(ATTR_KEY_SWITCH_POSITION), Some(1));
}

#[test]
fn switch_names_recognized() {
    assert_eq!(switch_name_of(&b"Tuerfreigabe".to_vec()), SwitchName::DoorRelease);
    assert_eq!(switch_name_of(&b"Tueren Automatik/Alle zu".to_vec()), SwitchName::AutoAllClose);
    assert_eq!(switch_name_of(&b"Tuerseitenvorwahl links".to_vec()), SwitchName::PreselectLeft);
    assert_eq!(switch_name_of(&b"Tuerseitenvorwahl rechts".to_vec()), SwitchName::PreselectRight);
    assert_eq!(
        switch_name_of(&b"Tuerseitenvorwahl links+rechts".to_vec()),
        SwitchName::PreselectBoth
    );
}

#[test]
fn switch_names_unknown_ignored() {
    assert_eq!(switch_name_of(&b"Tuerfreigabe ".to_vec()), SwitchName::Unknown);
    assert_eq!(switch_name_of(&b"".to_vec()), SwitchName::Unknown);
    assert_eq!(switch_name_of(&vec![0xFF, 0xFE, 0x80]), SwitchName::Unknown);
}

#[test]
fn rotation_tables() {
    // Left press: right -> left -> both -> right.
    assert_eq!(rotate_toward_left(2), 1);
    assert_eq!(rotate_toward_left(1), 3);
    assert_eq!(rotate_toward_left(3), 2);
    // Right press: left -> right -> both -> left.
    assert_eq!(rotate_toward_right(1), 2);
    assert_eq!(rotate_toward_right(2), 3);
    assert_eq!(rotate_toward_right(3), 1);
    // Values outside the three selector positions are unchanged.
    assert_eq!(rotate_toward_left(0), 0);
    assert_eq!(rotate_toward_right(0), 0);
    assert_eq!(rotate_toward_left(7), 7);
    assert_eq!(rotate_toward_right(7), 7);
}

#[test]
fn speed_threshold_bits_match_float_quotient() {
    assert_eq!((5.0f32 / 3.6f32).to_bits(), SPEED_THRESHOLD_BITS);
}

#[test]
fn speed_comparison_matches_float_semantics() {
    let threshold = 5.0f32 / 3.6f32;
    let samples: [f32; 14] = [
        0.0,
        -0.0,
        1.0,
        1.3888888,
        threshold,
        1.3888891,
        1.39,
        5.0,
        27.5,
        -1.0,
        -100.0,
        f32::INFINITY,
        f32::NEG_INFINITY,
        f32::NAN,
    ];
    for v in samples {
        assert_eq!(
            speed_above_threshold(v.to_bits()),
            v > threshold,
            "bit comparison disagrees with float comparison for {v}"
        );
    }
}
