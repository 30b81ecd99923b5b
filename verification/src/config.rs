//! Controller profiles: the static description of one emulated device and the
//! remapping ruleset that translates abstract control indices onto it.
//!
//! A profile is read-only after construction. The remap tables are small
//! ordered association lists; a lookup walks the list and takes the first
//! entry whose key matches, so the table's meaning is exactly
//! [`spec_table_lookup`].

use vstd::prelude::*;

verus! {

/// Capacity of the button-code table in the device-descriptor record.
pub const MAX_BTNS: usize = 512;

/// Capacity of the axis-code table in the device-descriptor record.
pub const MAX_AXES: usize = 64;

/// Capacity of the name field in the device-descriptor record.
pub const NAME_BYTES: usize = 255;

// Linux input-event key codes for the gamepad buttons of the canonical
// profile (uapi input-event-codes values).
pub const BTN_A: u16 = 0x130;

pub const BTN_B: u16 = 0x131;

pub const BTN_X: u16 = 0x133;

pub const BTN_Y: u16 = 0x134;

pub const BTN_TL: u16 = 0x136;

pub const BTN_TR: u16 = 0x137;

pub const BTN_SELECT: u16 = 0x13a;

pub const BTN_START: u16 = 0x13b;

pub const BTN_MODE: u16 = 0x13c;

pub const BTN_THUMBL: u16 = 0x13d;

pub const BTN_THUMBR: u16 = 0x13e;

// Linux input-event absolute-axis codes for the canonical profile.
pub const ABS_X: u16 = 0x00;

pub const ABS_Y: u16 = 0x01;

pub const ABS_Z: u16 = 0x02;

pub const ABS_RX: u16 = 0x03;

pub const ABS_RY: u16 = 0x04;

pub const ABS_RZ: u16 = 0x05;

pub const ABS_HAT0X: u16 = 0x10;

pub const ABS_HAT0Y: u16 = 0x11;

// Linux input-event record types, and the report code of a synchronization
// record.
pub const EV_SYN: u16 = 0x00;

pub const EV_KEY: u16 = 0x01;

pub const EV_ABS: u16 = 0x03;

pub const SYN_REPORT: u16 = 0x00;

/// The remapping ruleset of a profile.
///
/// `axes_to_btn` maps an abstract axis index to the abstract button indices
/// that stand for its extremes (d-pad-as-axis semantics); `axes` and `btns`
/// remap abstract indices to native indices, identity where a key is absent;
/// `trigger_axes` lists the abstract axis indices that use the asymmetric
/// trigger normalization.
#[derive(Clone)]
pub struct MappingConfig {
    pub axes_to_btn: Vec<(u8, Vec<u8>)>,
    pub axes: Vec<(u8, u8)>,
    pub btns: Vec<(u8, u8)>,
    pub trigger_axes: Vec<u8>,
}

/// Static description of one emulated controller.
#[derive(Clone)]
pub struct XpadConfig {
    pub name: String,
    pub vendor: u16,
    pub product: u16,
    pub version: u16,
    pub btn_map: Vec<u16>,
    pub axes_map: Vec<u16>,
    pub mapping: MappingConfig,
}

/// A profile fits the fixed-capacity descriptor record.
pub open spec fn xpad_wf(c: XpadConfig) -> bool {
    &&& c.btn_map@.len() <= MAX_BTNS
    &&& c.axes_map@.len() <= MAX_AXES
}

/// First value bound to `k` in the association list `t`, if any.
pub open spec fn spec_table_lookup(t: Seq<(u8, u8)>, k: u8) -> Option<u8>
    decreases t.len(),
{
    if t.len() == 0 {
        None
    } else if t[0].0 == k {
        Some(t[0].1)
    } else {
        spec_table_lookup(t.drop_first(), k)
    }
}

/// Walks `t` in order and returns the first value bound to `k`.
pub fn table_lookup(t: &Vec<(u8, u8)>, k: u8) -> (r: Option<u8>)
    ensures
        r == spec_table_lookup(t@, k),
{
    proof {
        assert(t@.skip(0) =~= t@);
    }
    let mut i: usize = 0;
    while i < t.len()
        invariant
            i <= t@.len(),
            spec_table_lookup(t@, k) == spec_table_lookup(t@.skip(i as int), k),
        decreases t@.len() - i,
    {
        let (key, val) = t[i];
        if key == k {
            proof {
                assert(t@.skip(i as int)[0] == t@[i as int]);
            }
            return Some(val);
        }
        proof {
            assert(t@.skip(i as int).drop_first() =~= t@.skip(i as int + 1));
            assert(t@.skip(i as int)[0] == t@[i as int]);
        }
        i = i + 1;
    }
    None
}

/// Membership test on a plain index list.
pub fn list_contains(t: &Vec<u8>, k: u8) -> (r: bool)
    ensures
        r == t@.contains(k),
{
    let mut i: usize = 0;
    while i < t.len()
        invariant
            i <= t@.len(),
            forall|j: int| 0 <= j < i ==> t@[j] != k,
        decreases t@.len() - i,
    {
        if t[i] == k {
            proof {
                assert(t@.contains(k)) by {
                    assert(t@[i as int] == k);
                }
            }
            return true;
        }
        i = i + 1;
    }
    proof {
        assert(!t@.contains(k)) by {
            assert(forall|j: int| 0 <= j < t@.len() ==> t@[j] != k);
        }
    }
    false
}

/// The canonical ten/eleven-button, eight-axis controller profile.
pub open spec fn is_standard_xpad_config(c: XpadConfig) -> bool {
    &&& c.name@ == "Selkies Controller"@
    &&& c.vendor == 0x045e
    &&& c.product == 0x028e
    &&& c.version == 1
    &&& c.btn_map@ == seq![
        BTN_A, BTN_B, BTN_X, BTN_Y,
        BTN_TL, BTN_TR, BTN_SELECT, BTN_START,
        BTN_MODE, BTN_THUMBL, BTN_THUMBR,
    ]
    &&& c.axes_map@ == seq![
        ABS_X, ABS_Y, ABS_Z, ABS_RX,
        ABS_RY, ABS_RZ, ABS_HAT0X, ABS_HAT0Y,
    ]
    &&& c.mapping.axes_to_btn@.len() == 4
    &&& c.mapping.axes_to_btn@[0].0 == 2 && c.mapping.axes_to_btn@[0].1@ == seq![6u8]
    &&& c.mapping.axes_to_btn@[1].0 == 5 && c.mapping.axes_to_btn@[1].1@ == seq![7u8]
    &&& c.mapping.axes_to_btn@[2].0 == 6 && c.mapping.axes_to_btn@[2].1@ == seq![15u8, 14u8]
    &&& c.mapping.axes_to_btn@[3].0 == 7 && c.mapping.axes_to_btn@[3].1@ == seq![13u8, 12u8]
    &&& c.mapping.axes@ == seq![(2u8, 3u8), (3u8, 4u8)]
    &&& c.mapping.btns@ == seq![(8u8, 6u8), (9u8, 7u8), (10u8, 9u8), (11u8, 10u8), (16u8, 8u8)]
    &&& c.mapping.trigger_axes@ == seq![2u8, 5u8]
}

/// Builds the canonical controller profile: a richer abstract control set
/// (two trigger axes, d-pad directions as two axes, extra shoulder and
/// thumbstick buttons) collapsed onto an eleven-button, eight-axis layout.
pub fn standard_xpad_config() -> (c: XpadConfig)
    ensures
        is_standard_xpad_config(c),
        xpad_wf(c),
{
    let c = XpadConfig {
        name: "Selkies Controller".to_owned(),
        vendor: 0x045e,
        product: 0x028e,
        version: 1,
        btn_map: vec![
            BTN_A, BTN_B, BTN_X, BTN_Y,
            BTN_TL, BTN_TR, BTN_SELECT, BTN_START,
            BTN_MODE, BTN_THUMBL, BTN_THUMBR,
        ],
        axes_map: vec![
            ABS_X, ABS_Y, ABS_Z, ABS_RX,
            ABS_RY, ABS_RZ, ABS_HAT0X, ABS_HAT0Y,
        ],
        mapping: MappingConfig {
            axes_to_btn: vec![
                (2u8, vec![6u8]),
                (5u8, vec![7u8]),
                (6u8, vec![15u8, 14u8]),
                (7u8, vec![13u8, 12u8]),
            ],
            axes: vec![(2u8, 3u8), (3u8, 4u8)],
            btns: vec![(8u8, 6u8), (9u8, 7u8), (10u8, 9u8), (11u8, 10u8), (16u8, 8u8)],
            trigger_axes: vec![2u8, 5u8],
        },
    };
    proof {
        assert(c.btn_map@ =~= seq![
            BTN_A, BTN_B, BTN_X, BTN_Y,
            BTN_TL, BTN_TR, BTN_SELECT, BTN_START,
            BTN_MODE, BTN_THUMBL, BTN_THUMBR,
        ]);
        assert(c.axes_map@ =~= seq![
            ABS_X, ABS_Y, ABS_Z, ABS_RX,
            ABS_RY, ABS_RZ, ABS_HAT0X, ABS_HAT0Y,
        ]);
        assert(c.mapping.axes_to_btn@[0].1@ =~= seq![6u8]);
        assert(c.mapping.axes_to_btn@[1].1@ =~= seq![7u8]);
        assert(c.mapping.axes_to_btn@[2].1@ =~= seq![15u8, 14u8]);
        assert(c.mapping.axes_to_btn@[3].1@ =~= seq![13u8, 12u8]);
        assert(c.mapping.axes@ =~= seq![(2u8, 3u8), (3u8, 4u8)]);
        assert(c.mapping.btns@ =~= seq![
            (8u8, 6u8), (9u8, 7u8), (10u8, 9u8), (11u8, 10u8), (16u8, 8u8),
        ]);
        assert(c.mapping.trigger_axes@ =~= seq![2u8, 5u8]);
    }
    c
}

} // verus!
