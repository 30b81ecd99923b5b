//! The two wire-event variants.
//!
//! A legacy joystick event is always 8 bytes. A generic input event is a
//! value-change sub-record followed by a synchronization sub-record with the
//! same timestamp and value 0; the width of its time and value words depends
//! on the word length the client negotiated (8 selects 8-byte time words,
//! anything else the 4-byte layout, which truncates the timestamps).
//!
//! Timestamps are taken as plain arguments — the caller samples the clock —
//! so that every byte of an encoded event is a function of the constructor's
//! inputs.

use vstd::prelude::*;

verus! {

use vstd::bytes::*;
use crate::wire::{
    spec_i16_to_le_bytes, spec_i32_to_le_bytes, spec_i64_to_le_bytes, push_u8, push_u16_le,
    push_u32_le, push_i16_le, push_i32_le, push_i64_le,
};
use crate::config::{EV_SYN, SYN_REPORT};

/// Type tag of a legacy joystick button event.
pub const JS_EVENT_BUTTON: u8 = 0x01;

/// Type tag of a legacy joystick axis event.
pub const JS_EVENT_AXIS: u8 = 0x02;

/// Legacy millisecond timestamps wrap at this bound (a 9-digit cycle).
pub const TS_CYCLE_MS: u64 = 1_000_000_000;

/// A legacy joystick event: wrapped millisecond timestamp, signed 16-bit
/// value, type tag, native index.
#[derive(Clone, Copy)]
pub struct JSEvent {
    pub ts: u32,
    pub value: i16,
    pub event_type: u8,
    pub number: u8,
}

impl JSEvent {
    /// Builds a legacy event; `ts_ms` is the clock's millisecond reading,
    /// truncated here to the 9-digit cycle the wire format carries.
    pub fn new(ts_ms: u64, event_type: u8, number: u8, value: i16) -> (e: Self)
        ensures
            e.ts == ts_ms % TS_CYCLE_MS,
            e.value == value,
            e.event_type == event_type,
            e.number == number,
    {
        let ts: u32 = (ts_ms % TS_CYCLE_MS) as u32;
        JSEvent { ts, value, event_type, number }
    }

    /// The 8-byte record: `timestamp:u32 | value:i16 | type:u8 | index:u8`,
    /// little-endian.
    pub open spec fn spec_bytes(self) -> Seq<u8> {
        spec_u32_to_le_bytes(self.ts) + spec_i16_to_le_bytes(self.value)
            + seq![self.event_type, self.number]
    }

    /// Serializes the event; the word length does not affect this format.
    pub fn get_data(&self, word_len: usize) -> (r: Vec<u8>)
        ensures
            r@ == self.spec_bytes(),
            r@.len() == 8,
    {
        let mut buf: Vec<u8> = Vec::new();
        push_u32_le(&mut buf, self.ts);
        push_i16_le(&mut buf, self.value);
        push_u8(&mut buf, self.event_type);
        push_u8(&mut buf, self.number);
        proof {
            lemma_auto_spec_u32_to_from_le_bytes();
            lemma_auto_spec_u16_to_from_le_bytes();
            assert(buf@ =~= self.spec_bytes());
        }
        buf
    }
}

/// A generic input event: one value-change record, always followed on the
/// wire by a synchronization record with the same timestamp.
#[derive(Clone, Copy)]
pub struct EVEvent {
    pub ts_sec: i64,
    pub ts_usec: i64,
    pub event_type: u16,
    pub code: u16,
    pub value: i32,
}

impl EVEvent {
    /// Builds a generic input event from a clock reading and the
    /// type/code/value triple of the change.
    pub fn new(ts_sec: i64, ts_usec: i64, event_type: u16, code: u16, value: i32) -> (e: Self)
        ensures
            e == (EVEvent { ts_sec, ts_usec, event_type, code, value }),
    {
        EVEvent { ts_sec, ts_usec, event_type, code, value }
    }

    /// One sub-record: `sec | usec | type:u16 | code:u16 | value:i32`, with
    /// 8-byte time words when `word_len` is 8 and truncated 4-byte time words
    /// otherwise.
    pub open spec fn spec_sub_record_bytes(self, word_len: int, ty: u16, code: u16, value: i32) -> Seq<u8> {
        if word_len == 8 {
            spec_i64_to_le_bytes(self.ts_sec) + spec_i64_to_le_bytes(self.ts_usec)
                + spec_u16_to_le_bytes(ty) + spec_u16_to_le_bytes(code)
                + spec_i32_to_le_bytes(value)
        } else {
            spec_i32_to_le_bytes(self.ts_sec as i32) + spec_i32_to_le_bytes(self.ts_usec as i32)
                + spec_u16_to_le_bytes(ty) + spec_u16_to_le_bytes(code)
                + spec_i32_to_le_bytes(value)
        }
    }

    /// The full wire form: the value record, then a synchronization record
    /// with the same timestamp and value 0.
    pub open spec fn spec_bytes(self, word_len: int) -> Seq<u8> {
        self.spec_sub_record_bytes(word_len, self.event_type, self.code, self.value)
            + self.spec_sub_record_bytes(word_len, EV_SYN, SYN_REPORT, 0)
    }

    fn push_sub_record(&self, buf: &mut Vec<u8>, word_len: usize, ty: u16, code: u16, value: i32)
        ensures
            final(buf)@ == old(buf)@ + self.spec_sub_record_bytes(word_len as int, ty, code, value),
    {
        if word_len == 8 {
            push_i64_le(buf, self.ts_sec);
            push_i64_le(buf, self.ts_usec);
        } else {
            push_i32_le(buf, #[verifier::truncate] (self.ts_sec as i32));
            push_i32_le(buf, #[verifier::truncate] (self.ts_usec as i32));
        }
        push_u16_le(buf, ty);
        push_u16_le(buf, code);
        push_i32_le(buf, value);
        proof {
            assert(buf@ =~= old(buf)@ + self.spec_sub_record_bytes(word_len as int, ty, code, value));
        }
    }

    /// Serializes the value record and its trailing synchronization record:
    /// 48 bytes in 8-byte word mode, 32 bytes otherwise.
    pub fn get_data(&self, word_len: usize) -> (r: Vec<u8>)
        ensures
            r@ == self.spec_bytes(word_len as int),
            word_len == 8 ==> r@.len() == 48,
            word_len != 8 ==> r@.len() == 32,
    {
        let mut buf: Vec<u8> = Vec::new();
        self.push_sub_record(&mut buf, word_len, self.event_type, self.code, self.value);
        self.push_sub_record(&mut buf, word_len, EV_SYN, SYN_REPORT, 0);
        proof {
            lemma_auto_spec_u16_to_from_le_bytes();
            lemma_auto_spec_u32_to_from_le_bytes();
            lemma_auto_spec_u64_to_from_le_bytes();
            assert(buf@ =~= self.spec_bytes(word_len as int));
        }
        buf
    }
}

/// The closed set of wire-event variants.
#[derive(Clone, Copy)]
pub enum Event {
    Js(JSEvent),
    Ev(EVEvent),
}

impl Event {
    /// The bytes this event puts on the wire for a client with the given
    /// word length.
    pub open spec fn spec_bytes(self, word_len: int) -> Seq<u8> {
        match self {
            Event::Js(e) => e.spec_bytes(),
            Event::Ev(e) => e.spec_bytes(word_len),
        }
    }

    /// Serializes the event for one client's negotiated word length.
    pub fn get_data(&self, word_len: usize) -> (r: Vec<u8>)
        ensures
            r@ == self.spec_bytes(word_len as int),
    {
        match self {
            Event::Js(e) => e.get_data(word_len),
            Event::Ev(e) => e.get_data(word_len),
        }
    }
}

} // verus!
