//! The closed mapping from named toggle-switch events to recognized switch
//! kinds. Names arrive as raw bytes; they are compared byte for byte against
//! the recognized ASCII names, so an unknown or non-text name simply maps to
//! `Unknown` (a forward-compatible no-op).

use vstd::prelude::*;

verus! {

/// The recognized named toggle switches of the emulated panel.
#[derive(Clone, Copy, Debug, PartialEq, Eq, Structural)]
pub enum SwitchName {
    /// "Tuerfreigabe": the door-release toggle switch.
    DoorRelease,
    /// "Tueren Automatik/Alle zu": the auto/all-close toggle switch.
    AutoAllClose,
    /// "Tuerseitenvorwahl links": side preselection, left.
    PreselectLeft,
    /// "Tuerseitenvorwahl rechts": side preselection, right.
    PreselectRight,
    /// "Tuerseitenvorwahl links+rechts": side preselection, both sides.
    PreselectBoth,
    /// Any other name: ignored.
    Unknown,
}

/// The bytes of "Tuerfreigabe".
pub open spec fn spec_name_door_release() -> Seq<u8> {
    seq![84, 117, 101, 114, 102, 114, 101, 105, 103, 97, 98, 101]
}

/// The bytes of "Tueren Automatik/Alle zu".
pub open spec fn spec_name_auto_all_close() -> Seq<u8> {
    seq![84, 117, 101, 114, 101, 110, 32, 65, 117, 116, 111, 109, 97, 116, 105,
        107, 47, 65, 108, 108, 101, 32, 122, 117]
}

/// The bytes of "Tuerseitenvorwahl links".
pub open spec fn spec_name_preselect_left() -> Seq<u8> {
    seq![84, 117, 101, 114, 115, 101, 105, 116, 101, 110, 118, 111, 114, 119, 97,
        104, 108, 32, 108, 105, 110, 107, 115]
}

/// The bytes of "Tuerseitenvorwahl rechts".
pub open spec fn spec_name_preselect_right() -> Seq<u8> {
    seq![84, 117, 101, 114, 115, 101, 105, 116, 101, 110, 118, 111, 114, 119, 97,
        104, 108, 32, 114, 101, 99, 104, 116, 115]
}

/// The bytes of "Tuerseitenvorwahl links+rechts".
pub open spec fn spec_name_preselect_both() -> Seq<u8> {
    seq![84, 117, 101, 114, 115, 101, 105, 116, 101, 110, 118, 111, 114, 119, 97,
        104, 108, 32, 108, 105, 110, 107, 115, 43, 114, 101, 99, 104, 116, 115]
}

/// The switch kind a name maps to. The five recognized names are pairwise
/// distinct, so at most one branch applies.
pub open spec fn spec_switch_name(bytes: Seq<u8>) -> SwitchName {
    if bytes == spec_name_door_release() {
        SwitchName::DoorRelease
    } else if bytes == spec_name_auto_all_close() {
        SwitchName::AutoAllClose
    } else if bytes == spec_name_preselect_left() {
        SwitchName::PreselectLeft
    } else if bytes == spec_name_preselect_right() {
        SwitchName::PreselectRight
    } else if bytes == spec_name_preselect_both() {
        SwitchName::PreselectBoth
    } else {
        SwitchName::Unknown
    }
}

/// Whether the bytes in `v` are exactly the bytes of `pat`.
fn bytes_equal<const N: usize>(v: &Vec<u8>, pat: &[u8; N]) -> (r: bool)
    ensures
        r == (v@ == pat@),
{
    if v.len() != N {
        assert(v@.len() != pat@.len());
        return false;
    }
    let mut i: usize = 0;
    while i < N
        invariant
            i <= N,
            v@.len() == N,
            pat@.len() == N,
            forall|j: int| 0 <= j < i ==> v@[j] == pat@[j],
        decreases N - i,
    {
        if v[i] != pat[i] {
            return false;
        }
        i = i + 1;
    }
    assert(v@ =~= pat@);
    true
}

/// Map a raw switch-name value to its recognized kind.
pub fn switch_name_of(v: &Vec<u8>) -> (k: SwitchName)
    ensures
        k == spec_switch_name(v@),
{
    let door_release: [u8; 12] = [84, 117, 101, 114, 102, 114, 101, 105, 103, 97, 98,
        101];
    let auto_all_close: [u8; 24] = [84, 117, 101, 114, 101, 110, 32, 65, 117, 116,
        111, 109, 97, 116, 105, 107, 47, 65, 108, 108, 101, 32, 122, 117];
    let preselect_left: [u8; 23] = [84, 117, 101, 114, 115, 101, 105, 116, 101, 110,
        118, 111, 114, 119, 97, 104, 108, 32, 108, 105, 110, 107, 115];
    let preselect_right: [u8; 24] = [84, 117, 101, 114, 115, 101, 105, 116, 101, 110,
        118, 111, 114, 119, 97, 104, 108, 32, 114, 101, 99, 104, 116, 115];
    let preselect_both: [u8; 30] = [84, 117, 101, 114, 115, 101, 105, 116, 101, 110,
        118, 111, 114, 119, 97, 104, 108, 32, 108, 105, 110, 107, 115, 43, 114,
        101, 99, 104, 116, 115];
    assert(door_release@ =~= spec_name_door_release());
    assert(auto_all_close@ =~= spec_name_auto_all_close());
    assert(preselect_left@ =~= spec_name_preselect_left());
    assert(preselect_right@ =~= spec_name_preselect_right());
    assert(preselect_both@ =~= spec_name_preselect_both());
    if bytes_equal(v, &door_release) {
        SwitchName::DoorRelease
    } else if bytes_equal(v, &auto_all_close) {
        SwitchName::AutoAllClose
    } else if bytes_equal(v, &preselect_left) {
        SwitchName::PreselectLeft
    } else if bytes_equal(v, &preselect_right) {
        SwitchName::PreselectRight
    } else if bytes_equal(v, &preselect_both) {
        SwitchName::PreselectBoth
    } else {
        SwitchName::Unknown
    }
}

} // verus!
