//! Protocol servers: the device-descriptor handshake record, the
//! per-protocol server state, and the dual facade.
//!
//! A server owns one socket path, one profile, one mapper variant and one
//! client registry. The caller runs the accept and broadcast loops and the
//! socket I/O around it: it writes the descriptor bytes produced here to a
//! new connection, reads the client's word-length byte, registers the client
//! here, asks for the broadcast plan of each dequeued event, performs the
//! writes, and hands back the identifiers whose write failed.

use vstd::prelude::*;

verus! {

use vstd::bytes::{spec_u16_to_le_bytes, lemma_auto_spec_u16_to_from_le_bytes};
use vstd::string::StringSliceAdditionalSpecFns;
use vstd::utf8::encode_utf8;
use crate::config::{
    XpadConfig, xpad_wf, standard_xpad_config, is_standard_xpad_config, MAX_BTNS, MAX_AXES,
    NAME_BYTES,
};
use crate::events::Event;
use crate::mapper::{
    Mapper, Timestamp, JSGamepadMapper, EVGamepadMapper, spec_mapped_btn, spec_mapped_axis,
    spec_btn_remap_out_of_range, spec_axis_remap_out_of_range, spec_normalized_axis_value,
};
use crate::registry::{ClientRegistry, ClientInfo, Delivery};
use crate::wire::{spec_u16s_to_le_bytes, push_u16_le, push_u16s_le, lemma_u16s_to_le_bytes_len};

/// Total size of the descriptor record on the wire.
pub const DESCRIPTOR_BYTES: usize = 1353;

/// `s` truncated or zero-padded to exactly `n` entries.
pub open spec fn spec_pad_bytes(s: Seq<u8>, n: int) -> Seq<u8> {
    Seq::new(n as nat, |i: int| if i < s.len() { s[i] } else { 0u8 })
}

/// `s` truncated or zero-padded to exactly `n` entries.
pub open spec fn spec_pad_u16s(s: Seq<u16>, n: int) -> Seq<u16> {
    Seq::new(n as nat, |i: int| if i < s.len() { s[i] } else { 0u16 })
}

/// Axis codes narrowed to single bytes (the descriptor's axis table is
/// byte-wide) and zero-padded to `n` entries.
pub open spec fn spec_axis_code_bytes(s: Seq<u16>, n: int) -> Seq<u8> {
    Seq::new(n as nat, |i: int| if i < s.len() { s[i] as u8 } else { 0u8 })
}

/// The fixed-layout device-descriptor record, written once to every new
/// connection before any event traffic.
pub struct InterposerConfig {
    pub name: Vec<u8>,
    pub vendor: u16,
    pub product: u16,
    pub version: u16,
    pub num_btns: u16,
    pub num_axes: u16,
    pub btn_map: Vec<u16>,
    pub axes_map: Vec<u8>,
}

impl InterposerConfig {
    /// The tables hold exactly their fixed wire capacities.
    pub open spec fn wf(self) -> bool {
        &&& self.name@.len() == NAME_BYTES
        &&& self.btn_map@.len() == MAX_BTNS
        &&& self.axes_map@.len() == MAX_AXES
    }

    /// Wire layout, little-endian, no padding between fields:
    /// `name[255] | vendor:u16 | product:u16 | version:u16 | num_btns:u16 |
    /// num_axes:u16 | btn_map[512]:u16 | axes_map[64]:u8`.
    pub open spec fn spec_bytes(self) -> Seq<u8> {
        self.name@ + spec_u16_to_le_bytes(self.vendor) + spec_u16_to_le_bytes(self.product)
            + spec_u16_to_le_bytes(self.version) + spec_u16_to_le_bytes(self.num_btns)
            + spec_u16_to_le_bytes(self.num_axes) + spec_u16s_to_le_bytes(self.btn_map@)
            + self.axes_map@
    }

    /// Serializes the record field by field; never relies on memory layout.
    pub fn to_bytes(&self) -> (r: Vec<u8>)
        requires
            self.wf(),
        ensures
            r@ == self.spec_bytes(),
            r@.len() == DESCRIPTOR_BYTES,
    {
        let mut buf: Vec<u8> = Vec::new();
        let mut i: usize = 0;
        while i < self.name.len()
            invariant
                i <= self.name@.len(),
                buf@ == self.name@.take(i as int),
            decreases self.name@.len() - i,
        {
            buf.push(self.name[i]);
            proof {
                assert(buf@ =~= self.name@.take(i as int + 1));
            }
            i = i + 1;
        }
        proof {
            assert(self.name@.take(self.name@.len() as int) =~= self.name@);
        }
        push_u16_le(&mut buf, self.vendor);
        push_u16_le(&mut buf, self.product);
        push_u16_le(&mut buf, self.version);
        push_u16_le(&mut buf, self.num_btns);
        push_u16_le(&mut buf, self.num_axes);
        push_u16s_le(&mut buf, &self.btn_map);
        let mut j: usize = 0;
        let ghost mid = buf@;
        while j < self.axes_map.len()
            invariant
                j <= self.axes_map@.len(),
                buf@ == mid + self.axes_map@.take(j as int),
            decreases self.axes_map@.len() - j,
        {
            buf.push(self.axes_map[j]);
            proof {
                assert(buf@ =~= mid + self.axes_map@.take(j as int + 1));
            }
            j = j + 1;
        }
        proof {
            assert(self.axes_map@.take(self.axes_map@.len() as int) =~= self.axes_map@);
            lemma_auto_spec_u16_to_from_le_bytes();
            lemma_u16s_to_le_bytes_len(self.btn_map@);
            assert(buf@ =~= self.spec_bytes());
        }
        buf
    }
}

/// A protocol server's lifecycle: constructed, socket bound, or serving with
/// both the accept loop and the broadcast loop active.
#[derive(Clone, Copy, PartialEq, Eq, Structural, Debug)]
pub enum ServerState {
    Idle,
    Listening,
    Running,
}

/// One protocol variant's server: socket path, profile, mapper variant and
/// connected-client registry.
pub struct GamepadServer {
    pub js_index: u8,
    pub socket_path: String,
    pub config: XpadConfig,
    pub mapper: Mapper,
    pub clients: ClientRegistry,
    pub state: ServerState,
}

impl GamepadServer {
    pub open spec fn wf(self) -> bool {
        &&& xpad_wf(self.config)
        &&& self.clients.wf()
    }

    pub fn new(js_index: u8, socket_path: String, config: XpadConfig, mapper: Mapper) -> (s: Self)
        requires
            xpad_wf(config),
        ensures
            s.js_index == js_index,
            s.socket_path == socket_path,
            s.config == config,
            s.mapper == mapper,
            s.clients@ == Seq::<ClientInfo>::empty(),
            s.state == ServerState::Idle,
            s.wf(),
    {
        GamepadServer {
            js_index,
            socket_path,
            config,
            mapper,
            clients: ClientRegistry::new(),
            state: ServerState::Idle,
        }
    }

    /// The socket is bound: only an idle server binds, and binding changes
    /// nothing but the state.
    pub fn mark_listening(&mut self)
        requires
            old(self).state == ServerState::Idle,
        ensures
            *final(self) == (GamepadServer { state: ServerState::Listening, ..*old(self) }),
    {
        self.state = ServerState::Listening;
    }

    /// Both loops are active: a listening server starts its broadcast loop.
    pub fn mark_running(&mut self)
        requires
            old(self).state == ServerState::Listening,
        ensures
            *final(self) == (GamepadServer { state: ServerState::Running, ..*old(self) }),
    {
        self.state = ServerState::Running;
    }

    /// Builds the descriptor record for a new client: name and code tables
    /// truncated or zero-padded to the record's fixed capacities, counts
    /// taken from the profile.
    pub fn make_config(&self) -> (r: InterposerConfig)
        requires
            xpad_wf(self.config),
        ensures
            r.wf(),
            r.name@ == spec_pad_bytes(encode_utf8(self.config.name@), NAME_BYTES as int),
            r.vendor == self.config.vendor,
            r.product == self.config.product,
            r.version == self.config.version,
            r.num_btns == self.config.btn_map@.len(),
            r.num_axes == self.config.axes_map@.len(),
            r.btn_map@ == spec_pad_u16s(self.config.btn_map@, MAX_BTNS as int),
            r.axes_map@ == spec_axis_code_bytes(self.config.axes_map@, MAX_AXES as int),
    {
        let nb: &[u8] = self.config.name.as_str().as_bytes();
        let mut name: Vec<u8> = Vec::new();
        let mut i: usize = 0;
        while i < NAME_BYTES
            invariant
                i <= NAME_BYTES,
                nb@ == encode_utf8(self.config.name@),
                name@ == spec_pad_bytes(nb@, NAME_BYTES as int).take(i as int),
            decreases NAME_BYTES - i,
        {
            let b: u8 = if i < nb.len() {
                nb[i]
            } else {
                0
            };
            name.push(b);
            proof {
                assert(name@ =~= spec_pad_bytes(nb@, NAME_BYTES as int).take(i as int + 1));
            }
            i = i + 1;
        }
        let mut btn_map: Vec<u16> = Vec::new();
        let mut j: usize = 0;
        while j < MAX_BTNS
            invariant
                j <= MAX_BTNS,
                btn_map@ == spec_pad_u16s(self.config.btn_map@, MAX_BTNS as int).take(j as int),
            decreases MAX_BTNS - j,
        {
            let v: u16 = if j < self.config.btn_map.len() {
                self.config.btn_map[j]
            } else {
                0
            };
            btn_map.push(v);
            proof {
                assert(btn_map@ =~= spec_pad_u16s(self.config.btn_map@, MAX_BTNS as int).take(
                    j as int + 1,
                ));
            }
            j = j + 1;
        }
        let mut axes_map: Vec<u8> = Vec::new();
        let mut k: usize = 0;
        while k < MAX_AXES
            invariant
                k <= MAX_AXES,
                axes_map@ == spec_axis_code_bytes(self.config.axes_map@, MAX_AXES as int).take(
                    k as int,
                ),
            decreases MAX_AXES - k,
        {
            let v: u8 = if k < self.config.axes_map.len() {
                #[verifier::truncate] (self.config.axes_map[k] as u8)
            } else {
                0
            };
            axes_map.push(v);
            proof {
                assert(axes_map@ =~= spec_axis_code_bytes(self.config.axes_map@, MAX_AXES as int)
                    .take(k as int + 1));
            }
            k = k + 1;
        }
        proof {
            assert(spec_pad_bytes(nb@, NAME_BYTES as int).take(NAME_BYTES as int) =~= spec_pad_bytes(
                nb@,
                NAME_BYTES as int,
            ));
            assert(spec_pad_u16s(self.config.btn_map@, MAX_BTNS as int).take(MAX_BTNS as int)
                =~= spec_pad_u16s(self.config.btn_map@, MAX_BTNS as int));
            assert(spec_axis_code_bytes(self.config.axes_map@, MAX_AXES as int).take(MAX_AXES as int)
                =~= spec_axis_code_bytes(self.config.axes_map@, MAX_AXES as int));
        }
        InterposerConfig {
            name,
            vendor: self.config.vendor,
            product: self.config.product,
            version: self.config.version,
            num_btns: self.config.btn_map.len() as u16,
            num_axes: self.config.axes_map.len() as u16,
            btn_map,
            axes_map,
        }
    }

    /// Registers a client once its handshake finished: the caller wrote the
    /// descriptor, read the client's word-length byte, and passes that byte
    /// as negotiated. A failed handshake never reaches this point — the
    /// candidate is simply discarded outside.
    pub fn register_client(&mut self, id: u32, word_length: u8)
        requires
            !old(self).clients.spec_has_id(id),
        ensures
            final(self).clients@ == old(self).clients@.push(ClientInfo { id, word_length }),
            old(self).clients.wf() ==> final(self).clients.wf(),
            final(self).js_index == old(self).js_index,
            final(self).socket_path == old(self).socket_path,
            final(self).config == old(self).config,
            final(self).mapper == old(self).mapper,
            final(self).state == old(self).state,
    {
        self.clients.register(id, word_length);
    }

    /// Remaps and encodes one abstract button change. The flag reports an
    /// out-of-range remap entry for the caller to log; the caller then
    /// enqueues the event on this server's bounded queue.
    pub fn send_btn(&self, now: Timestamp, btn_num: u8, btn_val: u8) -> (r: (Event, bool))
        ensures
            r.0 == self.mapper.spec_btn_event(now, spec_mapped_btn(self.config, btn_num), btn_val),
            r.1 == spec_btn_remap_out_of_range(self.config, btn_num),
    {
        self.mapper.get_mapped_btn(&self.config, now, btn_num, btn_val)
    }

    /// Remaps, normalizes and encodes one abstract axis change, as
    /// [`GamepadServer::send_btn`].
    pub fn send_axis(&self, now: Timestamp, axis_num: u8, axis_val: i32) -> (r: (Event, bool))
        requires
            self.config.mapping.trigger_axes@.contains(axis_num) ==> 0 <= axis_val <= 65534,
            !self.config.mapping.trigger_axes@.contains(axis_num) ==> -65534 <= axis_val <= 65534,
        ensures
            r.0 == self.mapper.spec_axis_event(
                now,
                spec_mapped_axis(self.config, axis_num),
                spec_normalized_axis_value(self.config, axis_num, axis_val as int),
            ),
            r.1 == spec_axis_remap_out_of_range(self.config, axis_num),
    {
        self.mapper.get_mapped_axis(&self.config, now, axis_num, axis_val)
    }

    /// The writes of one broadcast pass: one delivery per registered client,
    /// each in that client's word length.
    pub fn broadcast_plan(&self, event: &Event) -> (plan: Vec<Delivery>)
        ensures
            plan@.len() == self.clients@.len(),
            forall|i: int|
                0 <= i < plan@.len() ==> (#[trigger] plan@[i]).client_id == self.clients@[i].id,
            forall|i: int|
                0 <= i < plan@.len() ==> (#[trigger] plan@[i]).bytes@ == event.spec_bytes(
                    self.clients@[i].word_length as int,
                ),
            self.clients.wf() ==> forall|i: int, j: int|
                0 <= i < j < plan@.len() ==> plan@[i].client_id != plan@[j].client_id,
    {
        self.clients.broadcast_plan(event)
    }

    /// The removal phase after a broadcast pass: drops exactly the clients
    /// whose writes failed.
    pub fn prune_clients(&mut self, failed: &Vec<u32>)
        ensures
            forall|c: ClientInfo| #[trigger]
                final(self).clients@.contains(c) <==> (old(self).clients@.contains(c)
                    && !failed@.contains(c.id)),
            old(self).clients.wf() ==> final(self).clients.wf(),
            final(self).js_index == old(self).js_index,
            final(self).socket_path == old(self).socket_path,
            final(self).config == old(self).config,
            final(self).mapper == old(self).mapper,
            final(self).state == old(self).state,
    {
        self.clients.prune(failed);
    }
}

/// Law: a failed write isolates only the failing client. Under the pruning
/// rule — membership afterwards is membership before minus the failed
/// identifiers — every still-healthy client keeps its registration, every
/// delivery of the pass's plan still addressed it, and no record with a
/// failed identifier survives.
pub proof fn lemma_disconnect_isolation(
    before: Seq<ClientInfo>,
    after: Seq<ClientInfo>,
    failed: Seq<u32>,
    a: ClientInfo,
    b: ClientInfo,
)
    requires
        forall|c: ClientInfo| #[trigger]
            after.contains(c) <==> (before.contains(c) && !failed.contains(c.id)),
        before.contains(a),
        before.contains(b),
        failed.contains(a.id),
        !failed.contains(b.id),
    ensures
        after.contains(b),
        !after.contains(a),
        forall|c: ClientInfo| #[trigger] after.contains(c) ==> c.id != a.id,
{
}

/// The dual facade: one legacy-joystick server and one generic-input server,
/// both built over the canonical profile; every ingress call fans out to
/// both.
pub struct SelkiesGamepad {
    pub js_server: GamepadServer,
    pub ev_server: GamepadServer,
}

impl SelkiesGamepad {
    pub fn new(js_index: u8, js_socket_path: String, ev_socket_path: String) -> (g: Self)
        ensures
            g.js_server.wf(),
            g.ev_server.wf(),
            is_standard_xpad_config(g.js_server.config),
            is_standard_xpad_config(g.ev_server.config),
            g.js_server.mapper is Js,
            g.ev_server.mapper is Ev,
            (match g.ev_server.mapper {
                Mapper::Ev(m) => is_standard_xpad_config(m.config),
                _ => true,
            }),
            g.js_server.clients@ == Seq::<ClientInfo>::empty(),
            g.ev_server.clients@ == Seq::<ClientInfo>::empty(),
            g.js_server.state == ServerState::Idle,
            g.ev_server.state == ServerState::Idle,
            g.js_server.socket_path == js_socket_path,
            g.ev_server.socket_path == ev_socket_path,
            g.js_server.js_index == js_index,
            g.ev_server.js_index == js_index,
    {
        let js_config = standard_xpad_config();
        let ev_config = standard_xpad_config();
        let ev_mapper = EVGamepadMapper::new(standard_xpad_config());
        let js_server = GamepadServer::new(
            js_index,
            js_socket_path,
            js_config,
            Mapper::Js(JSGamepadMapper),
        );
        let ev_server = GamepadServer::new(js_index, ev_socket_path, ev_config, Mapper::Ev(ev_mapper));
        SelkiesGamepad { js_server, ev_server }
    }

    /// Fans one abstract button change into both servers, legacy first; each
    /// result carries its event and its remap-fallback flag.
    pub fn send_btn(&self, now: Timestamp, btn_num: u8, btn_val: u8) -> (r: ((Event, bool), (Event, bool)))
        ensures
            r.0.0 == self.js_server.mapper.spec_btn_event(
                now,
                spec_mapped_btn(self.js_server.config, btn_num),
                btn_val,
            ),
            r.0.1 == spec_btn_remap_out_of_range(self.js_server.config, btn_num),
            r.1.0 == self.ev_server.mapper.spec_btn_event(
                now,
                spec_mapped_btn(self.ev_server.config, btn_num),
                btn_val,
            ),
            r.1.1 == spec_btn_remap_out_of_range(self.ev_server.config, btn_num),
    {
        let js = self.js_server.send_btn(now, btn_num, btn_val);
        let ev = self.ev_server.send_btn(now, btn_num, btn_val);
        (js, ev)
    }

    /// Fans one abstract axis change into both servers, legacy first.
    pub fn send_axis(&self, now: Timestamp, axis_num: u8, axis_val: i32) -> (r: ((Event, bool), (Event, bool)))
        requires
            self.js_server.config.mapping.trigger_axes@.contains(axis_num) ==> 0 <= axis_val
                <= 65534,
            !self.js_server.config.mapping.trigger_axes@.contains(axis_num) ==> -65534 <= axis_val
                <= 65534,
            self.ev_server.config.mapping.trigger_axes@.contains(axis_num) ==> 0 <= axis_val
                <= 65534,
            !self.ev_server.config.mapping.trigger_axes@.contains(axis_num) ==> -65534 <= axis_val
                <= 65534,
        ensures
            r.0.0 == self.js_server.mapper.spec_axis_event(
                now,
                spec_mapped_axis(self.js_server.config, axis_num),
                spec_normalized_axis_value(self.js_server.config, axis_num, axis_val as int),
            ),
            r.0.1 == spec_axis_remap_out_of_range(self.js_server.config, axis_num),
            r.1.0 == self.ev_server.mapper.spec_axis_event(
                now,
                spec_mapped_axis(self.ev_server.config, axis_num),
                spec_normalized_axis_value(self.ev_server.config, axis_num, axis_val as int),
            ),
            r.1.1 == spec_axis_remap_out_of_range(self.ev_server.config, axis_num),
    {
        let js = self.js_server.send_axis(now, axis_num, axis_val);
        let ev = self.ev_server.send_axis(now, axis_num, axis_val);
        (js, ev)
    }
}

} // verus!
