//! Remapping and normalization: from abstract button/axis changes to encoded
//! wire events.
//!
//! Axis values arrive as fixed-point integers: [`AXIS_UNIT`] stands for 1.0,
//! so a standard axis ranges over [-AXIS_UNIT, AXIS_UNIT] for [-1, 1] and a
//! trigger axis over [0, AXIS_UNIT] for [0, 1]. A standard axis maps linearly
//! onto [-32767, 32767], rounding halves away from zero; a trigger axis uses
//! the asymmetric offset form, so that a released trigger encodes as -32767
//! rather than looking half-pressed.
//!
//! Remapping consults the profile's tables and never drops an input: an index
//! without an entry is used unchanged, and an entry whose target is at or
//! beyond the native table degrades to the original index. The fallback is
//! reported to the caller as a flag so that it can be logged.

use vstd::prelude::*;

verus! {

use crate::config::{
    XpadConfig, spec_table_lookup, table_lookup, list_contains, EV_KEY, EV_ABS,
};
use crate::events::{
    Event, JSEvent, EVEvent, JS_EVENT_BUTTON, JS_EVENT_AXIS, TS_CYCLE_MS,
};

/// Smallest encoded axis value.
pub const ABS_MIN: i16 = -32767;

/// Largest encoded axis value.
pub const ABS_MAX: i16 = 32767;

/// Fixed-point unit: the integer standing for an axis reading of 1.0. It
/// equals the full encoded span `ABS_MAX - ABS_MIN`, so trigger normalization
/// is exact and standard normalization rounds only by halves.
pub const AXIS_UNIT: i32 = 65534;

/// One clock sample, in the resolutions the two wire formats use. The caller
/// reads the clock once per change and passes it in.
#[derive(Clone, Copy)]
pub struct Timestamp {
    pub millis: u64,
    pub secs: i64,
    pub micros: i64,
}

/// Standard-axis normalization: `round(n / 2)` with halves away from zero,
/// the linear map from [-AXIS_UNIT, AXIS_UNIT] onto [-32767, 32767].
pub open spec fn spec_normalize_axis(n: int) -> int {
    if n >= 0 {
        (n + 1) / 2
    } else {
        -((1 - n) / 2)
    }
}

/// Trigger normalization: the linear map from [0, AXIS_UNIT] onto
/// [-32767, 32767].
pub open spec fn spec_normalize_trigger(n: int) -> int {
    n - 32767
}

/// Encodes a standard axis reading.
pub fn normalize_axis_val(n: i32) -> (r: i16)
    requires
        -65534 <= n <= 65534,
    ensures
        r == spec_normalize_axis(n as int),
        ABS_MIN <= r <= ABS_MAX,
{
    if n >= 0 {
        ((n + 1) / 2) as i16
    } else {
        (-((1 - n) / 2)) as i16
    }
}

/// Encodes a trigger axis reading.
pub fn normalize_trigger_val(n: i32) -> (r: i16)
    requires
        0 <= n <= 65534,
    ensures
        r == spec_normalize_trigger(n as int),
        ABS_MIN <= r <= ABS_MAX,
{
    (n - 32767) as i16
}

/// Law: standard-axis normalization round-trips. Decoding an encoded value
/// back to fixed point (doubling it) recovers the input to within one step,
/// and the two extremes encode exactly.
pub proof fn lemma_axis_normalization_round_trip(n: int)
    requires
        -65534 <= n <= 65534,
    ensures
        -1 <= 2 * spec_normalize_axis(n) - n <= 1,
        spec_normalize_axis(-65534) == -32767,
        spec_normalize_axis(65534) == 32767,
{
}

/// Law: trigger normalization sends a released trigger to -32767 and a fully
/// pressed one to 32767.
pub proof fn lemma_trigger_normalization_extremes()
    ensures
        spec_normalize_trigger(0) == -32767,
        spec_normalize_trigger(65534) == 32767,
{
}

/// Native button index abstract index `k` encodes to: the remap-table entry
/// when present and in range, the original index otherwise.
pub open spec fn spec_mapped_btn(c: XpadConfig, k: u8) -> u8 {
    match spec_table_lookup(c.mapping.btns@, k) {
        Some(m) => if (m as int) < c.btn_map@.len() { m } else { k },
        None => k,
    }
}

/// True when the button remap table points at or beyond the native button
/// count, so the original index was used instead.
pub open spec fn spec_btn_remap_out_of_range(c: XpadConfig, k: u8) -> bool {
    match spec_table_lookup(c.mapping.btns@, k) {
        Some(m) => (m as int) >= c.btn_map@.len(),
        None => false,
    }
}

/// Native axis index abstract index `k` encodes to.
pub open spec fn spec_mapped_axis(c: XpadConfig, k: u8) -> u8 {
    match spec_table_lookup(c.mapping.axes@, k) {
        Some(m) => if (m as int) < c.axes_map@.len() { m } else { k },
        None => k,
    }
}

/// True when the axis remap table points at or beyond the native axis count.
pub open spec fn spec_axis_remap_out_of_range(c: XpadConfig, k: u8) -> bool {
    match spec_table_lookup(c.mapping.axes@, k) {
        Some(m) => (m as int) >= c.axes_map@.len(),
        None => false,
    }
}

/// Law: a button index with no remap-table entry is encoded unchanged.
pub proof fn lemma_remap_fallback_identity(c: XpadConfig, k: u8)
    requires
        spec_table_lookup(c.mapping.btns@, k) is None,
    ensures
        spec_mapped_btn(c, k) == k,
{
}

/// Law: a remap target at or beyond the native button count degrades to the
/// original abstract index — the input is re-aimed, never dropped.
pub proof fn lemma_remap_out_of_range_degrades(c: XpadConfig, k: u8, m: u8)
    requires
        spec_table_lookup(c.mapping.btns@, k) == Some(m),
        m as int >= c.btn_map@.len(),
    ensures
        spec_mapped_btn(c, k) == k,
        spec_btn_remap_out_of_range(c, k),
{
}

/// Button remap lookup with range check. The second component reports the
/// out-of-range fallback so the caller can log the misconfigured entry.
pub fn remap_btn(c: &XpadConfig, k: u8) -> (r: (u8, bool))
    ensures
        r.0 == spec_mapped_btn(*c, k),
        r.1 == spec_btn_remap_out_of_range(*c, k),
{
    match table_lookup(&c.mapping.btns, k) {
        Some(m) => {
            if (m as usize) < c.btn_map.len() {
                (m, false)
            } else {
                (k, true)
            }
        },
        None => (k, false),
    }
}

/// Axis remap lookup with range check, as [`remap_btn`].
pub fn remap_axis(c: &XpadConfig, k: u8) -> (r: (u8, bool))
    ensures
        r.0 == spec_mapped_axis(*c, k),
        r.1 == spec_axis_remap_out_of_range(*c, k),
{
    match table_lookup(&c.mapping.axes, k) {
        Some(m) => {
            if (m as usize) < c.axes_map.len() {
                (m, false)
            } else {
                (k, true)
            }
        },
        None => (k, false),
    }
}

/// The normalized wire value of an axis reading, trigger or standard.
pub open spec fn spec_normalized_axis_value(c: XpadConfig, k: u8, n: int) -> i16 {
    if c.mapping.trigger_axes@.contains(k) {
        spec_normalize_trigger(n) as i16
    } else {
        spec_normalize_axis(n) as i16
    }
}

/// The legacy-joystick event for a native button index.
pub open spec fn spec_js_btn_event(now: Timestamp, num: u8, val: u8) -> Event {
    Event::Js(JSEvent {
        ts: (now.millis % TS_CYCLE_MS) as u32,
        value: val as i16,
        event_type: JS_EVENT_BUTTON,
        number: num,
    })
}

/// The legacy-joystick event for a native axis index and normalized value.
pub open spec fn spec_js_axis_event(now: Timestamp, num: u8, value: i16) -> Event {
    Event::Js(JSEvent {
        ts: (now.millis % TS_CYCLE_MS) as u32,
        value: value,
        event_type: JS_EVENT_AXIS,
        number: num,
    })
}

/// The native key code of button index `num`: the profile's table entry, or
/// 0 when the index lies beyond the table.
pub open spec fn spec_btn_code(c: XpadConfig, num: u8) -> u16 {
    if (num as int) < c.btn_map@.len() {
        c.btn_map@[num as int]
    } else {
        0
    }
}

/// The native absolute-axis code of axis index `num`, 0 beyond the table.
pub open spec fn spec_axis_code(c: XpadConfig, num: u8) -> u16 {
    if (num as int) < c.axes_map@.len() {
        c.axes_map@[num as int]
    } else {
        0
    }
}

/// The generic-input event for a native button index.
pub open spec fn spec_ev_btn_event(c: XpadConfig, now: Timestamp, num: u8, val: u8) -> Event {
    Event::Ev(EVEvent {
        ts_sec: now.secs,
        ts_usec: now.micros,
        event_type: EV_KEY,
        code: spec_btn_code(c, num),
        value: val as i32,
    })
}

/// The generic-input event for a native axis index and normalized value.
pub open spec fn spec_ev_axis_event(c: XpadConfig, now: Timestamp, num: u8, value: i16) -> Event {
    Event::Ev(EVEvent {
        ts_sec: now.secs,
        ts_usec: now.micros,
        event_type: EV_ABS,
        code: spec_axis_code(c, num),
        value: value as i32,
    })
}

/// Emits legacy joystick events.
pub struct JSGamepadMapper;

impl JSGamepadMapper {
    /// Legacy button event for an already-remapped native index.
    pub fn get_btn_event(&self, now: Timestamp, btn_num: u8, btn_val: u8) -> (e: Event)
        ensures
            e == spec_js_btn_event(now, btn_num, btn_val),
    {
        Event::Js(JSEvent::new(now.millis, JS_EVENT_BUTTON, btn_num, btn_val as i16))
    }

    /// Legacy axis event for an already-remapped native index.
    pub fn get_axis_event(&self, now: Timestamp, axis_num: u8, axis_val: i16) -> (e: Event)
        ensures
            e == spec_js_axis_event(now, axis_num, axis_val),
    {
        Event::Js(JSEvent::new(now.millis, JS_EVENT_AXIS, axis_num, axis_val))
    }
}

/// Emits generic input events; owns the profile whose code tables it reads.
pub struct EVGamepadMapper {
    pub config: XpadConfig,
}

impl EVGamepadMapper {
    pub fn new(config: XpadConfig) -> (m: Self)
        ensures
            m.config == config,
    {
        EVGamepadMapper { config }
    }

    /// Generic button event: the native index becomes its key code.
    pub fn get_btn_event(&self, now: Timestamp, btn_num: u8, btn_val: u8) -> (e: Event)
        ensures
            e == spec_ev_btn_event(self.config, now, btn_num, btn_val),
    {
        let code: u16 = if (btn_num as usize) < self.config.btn_map.len() {
            self.config.btn_map[btn_num as usize]
        } else {
            0
        };
        Event::Ev(EVEvent::new(now.secs, now.micros, EV_KEY, code, btn_val as i32))
    }

    /// Generic axis event: the native index becomes its absolute-axis code.
    pub fn get_axis_event(&self, now: Timestamp, axis_num: u8, axis_val: i16) -> (e: Event)
        ensures
            e == spec_ev_axis_event(self.config, now, axis_num, axis_val),
    {
        let code: u16 = if (axis_num as usize) < self.config.axes_map.len() {
            self.config.axes_map[axis_num as usize]
        } else {
            0
        };
        Event::Ev(EVEvent::new(now.secs, now.micros, EV_ABS, code, axis_val as i32))
    }
}

/// The closed set of mapper variants, dispatched statically.
pub enum Mapper {
    Js(JSGamepadMapper),
    Ev(EVGamepadMapper),
}

impl Mapper {
    /// The event this mapper emits for a native button index.
    pub open spec fn spec_btn_event(self, now: Timestamp, num: u8, val: u8) -> Event {
        match self {
            Mapper::Js(_) => spec_js_btn_event(now, num, val),
            Mapper::Ev(m) => spec_ev_btn_event(m.config, now, num, val),
        }
    }

    /// The event this mapper emits for a native axis index.
    pub open spec fn spec_axis_event(self, now: Timestamp, num: u8, value: i16) -> Event {
        match self {
            Mapper::Js(_) => spec_js_axis_event(now, num, value),
            Mapper::Ev(m) => spec_ev_axis_event(m.config, now, num, value),
        }
    }

    /// Variant-specific button encoding for a native index.
    pub fn get_btn_event(&self, now: Timestamp, btn_num: u8, btn_val: u8) -> (e: Event)
        ensures
            e == self.spec_btn_event(now, btn_num, btn_val),
    {
        match self {
            Mapper::Js(m) => m.get_btn_event(now, btn_num, btn_val),
            Mapper::Ev(m) => m.get_btn_event(now, btn_num, btn_val),
        }
    }

    /// Variant-specific axis encoding for a native index.
    pub fn get_axis_event(&self, now: Timestamp, axis_num: u8, axis_val: i16) -> (e: Event)
        ensures
            e == self.spec_axis_event(now, axis_num, axis_val),
    {
        match self {
            Mapper::Js(m) => m.get_axis_event(now, axis_num, axis_val),
            Mapper::Ev(m) => m.get_axis_event(now, axis_num, axis_val),
        }
    }

    /// Remaps an abstract button index through the profile and encodes the
    /// event. The flag reports an out-of-range fallback for the caller to
    /// log; the event itself is produced either way.
    pub fn get_mapped_btn(&self, config: &XpadConfig, now: Timestamp, btn_num: u8, btn_val: u8) -> (r: (
        Event,
        bool,
    ))
        ensures
            r.0 == self.spec_btn_event(now, spec_mapped_btn(*config, btn_num), btn_val),
            r.1 == spec_btn_remap_out_of_range(*config, btn_num),
    {
        let (mapped, fell_back) = remap_btn(config, btn_num);
        let e = self.get_btn_event(now, mapped, btn_val);
        (e, fell_back)
    }

    /// Remaps an abstract axis index, normalizes the fixed-point reading
    /// (trigger or standard form per the profile), and encodes the event.
    pub fn get_mapped_axis(&self, config: &XpadConfig, now: Timestamp, axis_num: u8, axis_val: i32) -> (r: (
        Event,
        bool,
    ))
        requires
            config.mapping.trigger_axes@.contains(axis_num) ==> 0 <= axis_val <= 65534,
            !config.mapping.trigger_axes@.contains(axis_num) ==> -65534 <= axis_val <= 65534,
        ensures
            r.0 == self.spec_axis_event(
                now,
                spec_mapped_axis(*config, axis_num),
                spec_normalized_axis_value(*config, axis_num, axis_val as int),
            ),
            r.1 == spec_axis_remap_out_of_range(*config, axis_num),
    {
        let is_trigger = list_contains(&config.mapping.trigger_axes, axis_num);
        let value: i16 = if is_trigger {
            normalize_trigger_val(axis_val)
        } else {
            normalize_axis_val(axis_val)
        };
        let (mapped, fell_back) = remap_axis(config, axis_num);
        let e = self.get_axis_event(now, mapped, value);
        (e, fell_back)
    }
}

} // verus!
