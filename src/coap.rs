//! The request router: maps a resource path and method to a handler that
//! reads or changes the shared state, and builds the reply body.
//!
//! Payloads arrive here already decoded (`None` when decoding failed) and
//! replies leave as values; the wire encoding is done by the caller.

use vstd::prelude::*;
use crate::identity::{
    apply_write, apply_writes, opt_view, writes_view, RecordModel, StoreWrite, WriteModel,
};
use crate::protocol;
use crate::protocol::{
    clamp_angle, clamp_spec, same_text, DeviceConfig, DeviceHealth, PowerSource, TargetRequest,
    TargetResponse, VentPosition,
};
use crate::state::{intent_recorded, state_of, AppState};

verus! {

/// Battery voltage reported while the battery is not measured.
pub const NOMINAL_BATTERY_MV: u16 = 3300;

/// Code of a GET request (0.01).
pub const CODE_GET: u32 = 1;

/// Code of a PUT request (0.03).
pub const CODE_PUT: u32 = 3;

/// Code of a reply with content (2.05).
pub const CODE_CONTENT: u32 = 69;

/// Code of a reply to a change (2.04).
pub const CODE_CHANGED: u32 = 68;

/// Code of a bad request (4.00).
pub const CODE_BAD_REQUEST: u32 = 128;

/// Code of a resource not found (4.04).
pub const CODE_NOT_FOUND: u32 = 132;

/// Code of an internal error (5.00).
pub const CODE_INTERNAL_ERROR: u32 = 160;

/// Longest request path kept, in bytes.
pub const PATH_MAX: usize = 128;

/// Request methods the router knows.
#[derive(Debug, Clone, Copy, PartialEq, Eq, Structural)]
pub enum CoapMethod {
    Get,
    Put,
}

/// The resources served, each with its method.
#[derive(Debug, Clone, Copy, PartialEq, Eq, Structural)]
pub enum Route {
    GetPosition,
    PutTarget,
    GetIdentity,
    GetConfig,
    PutConfig,
    GetHealth,
}

/// Reply bodies.
#[derive(Debug)]
pub enum Body {
    Position(VentPosition),
    Target(TargetResponse),
    Identity(protocol::DeviceIdentity),
    Config(DeviceConfig),
    Health(DeviceHealth),
}

/// Outcome of a request.
#[derive(Debug)]
pub enum CoapResponse {
    Content(Body),
    Changed(Body),
    BadRequest,
    NotFound,
    InternalError,
}

impl CoapMethod {
    /// The method of a request code; `None` for a method not served.
    pub fn from_code(code: u32) -> (r: Option<CoapMethod>)
        ensures
            code == CODE_GET ==> r == Some(CoapMethod::Get),
            code == CODE_PUT ==> r == Some(CoapMethod::Put),
            code != CODE_GET && code != CODE_PUT ==> r is None,
    {
        if code == CODE_GET {
            Some(CoapMethod::Get)
        } else if code == CODE_PUT {
            Some(CoapMethod::Put)
        } else {
            None
        }
    }
}

impl CoapResponse {
    /// The response code of the outcome.
    pub fn code(&self) -> (r: u32)
        ensures
            self is Content ==> r == CODE_CONTENT,
            self is Changed ==> r == CODE_CHANGED,
            self is BadRequest ==> r == CODE_BAD_REQUEST,
            self is NotFound ==> r == CODE_NOT_FOUND,
            self is InternalError ==> r == CODE_INTERNAL_ERROR,
    {
        match self {
            CoapResponse::Content(_) => CODE_CONTENT,
            CoapResponse::Changed(_) => CODE_CHANGED,
            CoapResponse::BadRequest => CODE_BAD_REQUEST,
            CoapResponse::NotFound => CODE_NOT_FOUND,
            CoapResponse::InternalError => CODE_INTERNAL_ERROR,
        }
    }
}

/// Bytes of a path segment; an unreadable segment counts as empty.
pub open spec fn segment_bytes(s: Option<Seq<u8>>) -> Seq<u8> {
    match s {
        Some(b) => b,
        None => Seq::empty(),
    }
}

/// Path segments joined by '/'.
pub open spec fn uri_join(segs: Seq<Option<Seq<u8>>>) -> Seq<u8>
    decreases segs.len(),
{
    if segs.len() == 0 {
        Seq::empty()
    } else if segs.len() == 1 {
        segment_bytes(segs[0])
    } else {
        uri_join(segs.drop_last()).push(0x2f) + segment_bytes(segs.last())
    }
}

/// At most the first `PATH_MAX` bytes of `b`.
pub open spec fn cap_path(b: Seq<u8>) -> Seq<u8> {
    if b.len() <= PATH_MAX {
        b
    } else {
        b.take(PATH_MAX as int)
    }
}

proof fn lemma_cap_append(a: Seq<u8>, b: Seq<u8>)
    ensures
        cap_path(cap_path(a) + b) == cap_path(a + b),
{
    assert(cap_path(cap_path(a) + b) =~= cap_path(a + b));
}

/// Append `seg` to `path`, keeping at most `PATH_MAX` bytes.
fn append_capped(path: &mut Vec<u8>, seg: &[u8])
    requires
        old(path)@.len() <= PATH_MAX,
    ensures
        final(path)@ == cap_path(old(path)@ + seg@),
{
    let mut i: usize = 0;
    while i < seg.len() && path.len() < PATH_MAX
        invariant
            i <= seg@.len(),
            path@.len() <= PATH_MAX,
            path@ == old(path)@ + seg@.take(i as int),
            path@.len() == old(path)@.len() + i,
        decreases seg@.len() - i,
    {
        path.push(seg[i]);
        i = i + 1;
        assert(path@ =~= old(path)@ + seg@.take(i as int));
    }
    assert(final(path)@ =~= cap_path(old(path)@ + seg@));
}

/// The request path from its segments, in order: joined by '/', and cut
/// at `PATH_MAX` bytes. A segment that could not be read (`None`) adds
/// nothing but its separator.
pub fn join_uri_path(segments: &Vec<Option<Vec<u8>>>) -> (r: Vec<u8>)
    ensures
        r@ == cap_path(uri_join(segments@.map_values(|s: Option<Vec<u8>>| opt_bytes(s)))),
{
    let ghost segs = segments@.map_values(|s: Option<Vec<u8>>| opt_bytes(s));
    let mut path: Vec<u8> = Vec::new();
    let mut i: usize = 0;
    while i < segments.len()
        invariant
            i <= segments@.len(),
            segs == segments@.map_values(|s: Option<Vec<u8>>| opt_bytes(s)),
            path@.len() <= PATH_MAX,
            path@ == cap_path(uri_join(segs.take(i as int))),
        decreases segments@.len() - i,
    {
        let ghost before = path@;
        let ghost prev = uri_join(segs.take(i as int));
        if i > 0 {
            append_capped(&mut path, &[0x2fu8]);
            proof {
                lemma_cap_append(prev, seq![0x2fu8]);
                assert(prev + seq![0x2fu8] =~= prev.push(0x2f));
            }
        }
        let ghost mid = path@;
        match &segments[i] {
            Some(seg) => {
                append_capped(&mut path, seg.as_slice());
            },
            None => {
                append_capped(&mut path, &[]);
            },
        }
        proof {
            let next = segs.take(i + 1);
            assert(next.drop_last() =~= segs.take(i as int));
            assert(next.last() == segs[i as int]);
            if i == 0 {
                assert(prev =~= Seq::<u8>::empty());
                lemma_cap_append(prev, segment_bytes(segs[0]));
                assert(prev + segment_bytes(segs[0]) =~= segment_bytes(segs[0]));
            } else {
                lemma_cap_append(prev.push(0x2f), segment_bytes(segs[i as int]));
            }
        }
        i = i + 1;
    }
    assert(segs.take(segments@.len() as int) =~= segs);
    path
}

/// The model of an optional byte vector.
pub open spec fn opt_bytes(s: Option<Vec<u8>>) -> Option<Seq<u8>> {
    match s {
        Some(v) => Some(v@),
        None => None,
    }
}

/// The route for a path and method; `None` for any other pair.
pub open spec fn route_of(path: Seq<char>, method: CoapMethod) -> Option<Route> {
    if path == "vent/position"@ && method == CoapMethod::Get {
        Some(Route::GetPosition)
    } else if path == "vent/target"@ && method == CoapMethod::Put {
        Some(Route::PutTarget)
    } else if path == "device/identity"@ && method == CoapMethod::Get {
        Some(Route::GetIdentity)
    } else if path == "device/config"@ && method == CoapMethod::Get {
        Some(Route::GetConfig)
    } else if path == "device/config"@ && method == CoapMethod::Put {
        Some(Route::PutConfig)
    } else if path == "device/health"@ && method == CoapMethod::Get {
        Some(Route::GetHealth)
    } else {
        None
    }
}

/// Find the route for a path and method; an unmatched pair is not found.
pub fn route_request(path: &str, method: CoapMethod) -> (r: Option<Route>)
    ensures
        r == route_of(path@, method),
{
    let get = method == CoapMethod::Get;
    let put = method == CoapMethod::Put;
    if same_text(path, "vent/position") && get {
        Some(Route::GetPosition)
    } else if same_text(path, "vent/target") && put {
        Some(Route::PutTarget)
    } else if same_text(path, "device/identity") && get {
        Some(Route::GetIdentity)
    } else if same_text(path, "device/config") && get {
        Some(Route::GetConfig)
    } else if same_text(path, "device/config") && put {
        Some(Route::PutConfig)
    } else if same_text(path, "device/health") && get {
        Some(Route::GetHealth)
    } else {
        None
    }
}

/// Reply to a position read: the current angle and the derived state.
pub fn handle_get_position(state: &AppState) -> (r: CoapResponse)
    ensures
        r matches CoapResponse::Content(Body::Position(p)) && p.angle as int
            == state.vent.current() && p.state == state_of(
            state.vent.current(),
            state.vent.target(),
        ),
{
    let pos = VentPosition { angle: state.vent.current_angle(), state: state.vent.state() };
    CoapResponse::Content(Body::Position(pos))
}

/// `r` is the reply to a target request that moved the target to `angle`
/// while the flap stood at `previous`.
pub open spec fn is_target_reply(r: CoapResponse, angle: int, previous: int) -> bool {
    r matches CoapResponse::Changed(Body::Target(t)) && t.angle as int == angle
        && t.previous_angle as int == previous && t.state == state_of(previous, angle)
}

/// The writes that must be durable before a target request takes effect.
pub fn put_target_writes(state: &AppState, req: &TargetRequest) -> (ws: Vec<StoreWrite>)
    ensures
        writes_view(ws@) == crate::identity::write_ahead_writes(
            clamp_spec(req.angle as int) as u8,
        ),
{
    state.intent_writes(req.angle)
}

/// Apply a target request once the store has tried its write-ahead;
/// `persisted` says whether every one of those writes succeeded.
/// An undecodable payload is a bad request. A failed write-ahead, or a
/// request whose intent the record does not show, is an internal error.
/// None of these changes anything. Otherwise the clamped angle becomes the
/// target and the reply holds it, the new state and the angle the flap
/// stood at.
pub fn handle_put_target(
    state: &mut AppState,
    req: Option<TargetRequest>,
    persisted: bool,
) -> (r: CoapResponse)
    ensures
        final(state).identity == old(state).identity,
        final(state).power_source == old(state).power_source,
        final(state).poll_period_ms == old(state).poll_period_ms,
        final(state).vent.current() == old(state).vent.current(),
        req is None ==> r is BadRequest && final(state).vent == old(state).vent,
        req is Some && !persisted ==> r is InternalError && final(state).vent == old(state).vent,
        req is Some && persisted && !intent_recorded(
            old(state).identity.record(),
            clamp_spec(req->0.angle as int),
        ) ==> r is InternalError && final(state).vent == old(state).vent,
        req is Some && persisted && intent_recorded(
            old(state).identity.record(),
            clamp_spec(req->0.angle as int),
        ) ==> final(state).vent.target() == clamp_spec(req->0.angle as int) && is_target_reply(
            r,
            clamp_spec(req->0.angle as int),
            old(state).vent.current(),
        ),
        old(state).vent.wf() ==> final(state).vent.wf(),
{
    let req = match req {
        Some(q) => q,
        None => return CoapResponse::BadRequest,
    };
    if !persisted {
        return CoapResponse::InternalError;
    }
    let clamped = clamp_angle(req.angle);
    match state.apply_target(req.angle) {
        Some(previous_angle) => {
            let resp = TargetResponse { angle: clamped, state: state.vent.state(), previous_angle };
            CoapResponse::Changed(Body::Target(resp))
        },
        None => CoapResponse::InternalError,
    }
}

/// Reply to an identity read.
pub fn handle_get_identity(state: &AppState, firmware_version: &str, uptime_s: u32) -> (r:
    CoapResponse)
    ensures
        r matches CoapResponse::Content(Body::Identity(i)) && i.eui64@
            == state.identity.spec_eui64() && i.firmware_version@ == firmware_version@
            && i.uptime_s == uptime_s,
{
    let identity = protocol::DeviceIdentity {
        eui64: state.identity.eui64().to_owned(),
        firmware_version: firmware_version.to_owned(),
        uptime_s,
    };
    CoapResponse::Content(Body::Identity(identity))
}

/// `c` holds the room, floor and name of the record `m`.
pub open spec fn config_of(c: DeviceConfig, m: RecordModel) -> bool {
    opt_view(c.room) == m.room && opt_view(c.floor) == m.floor && opt_view(c.name) == m.name
}

/// Reply to a configuration read: every field as the record holds it.
pub fn handle_get_config(state: &AppState) -> (r: CoapResponse)
    ensures
        r matches CoapResponse::Content(Body::Config(c)) && config_of(c, state.identity.record()),
{
    let config = DeviceConfig {
        room: state.identity.get_room(),
        floor: state.identity.get_floor(),
        name: state.identity.get_name(),
    };
    CoapResponse::Content(Body::Config(config))
}

/// The write for one optional field: none when the field is absent.
pub open spec fn field_write(field: Option<Seq<char>>, w: WriteModel) -> Seq<WriteModel> {
    if field is Some {
        seq![w]
    } else {
        seq![]
    }
}

/// The writes of a partial configuration update: room, floor and name, in
/// that order, each only when the request sets it.
pub open spec fn config_writes(room: Option<Seq<char>>, floor: Option<Seq<char>>, name: Option<
    Seq<char>,
>) -> Seq<WriteModel> {
    field_write(room, WriteModel::Room(room->0)) + field_write(floor, WriteModel::Floor(floor->0))
        + field_write(name, WriteModel::Name(name->0))
}

/// The writes that carry out a configuration update, one per field the
/// request sets. The store performs them in order and stops at the first
/// that fails; the ones before it stay applied.
pub fn put_config_writes(state: &AppState, req: &DeviceConfig) -> (ws: Vec<StoreWrite>)
    ensures
        writes_view(ws@) == config_writes(opt_view(req.room), opt_view(req.floor), opt_view(req.name)),
{
    let mut ws: Vec<StoreWrite> = Vec::new();
    if let Some(room) = &req.room {
        ws.push(state.identity.set_room(room.as_str()));
    }
    if let Some(floor) = &req.floor {
        ws.push(state.identity.set_floor(floor.as_str()));
    }
    if let Some(name) = &req.name {
        ws.push(state.identity.set_name(name.as_str()));
    }
    assert(writes_view(ws@) =~= config_writes(
        opt_view(req.room),
        opt_view(req.floor),
        opt_view(req.name),
    ));
    ws
}

/// Whether `stored` holds what `requested` sets; an absent request field
/// asks for nothing.
pub open spec fn field_held(stored: Option<Seq<char>>, requested: Option<Seq<char>>) -> bool {
    requested is Some ==> stored == requested
}

fn field_matches(stored: &Option<String>, requested: &Option<String>) -> (r: bool)
    ensures
        r == field_held(opt_view(*stored), opt_view(*requested)),
{
    match requested {
        None => true,
        Some(q) => match stored {
            Some(v) => same_text(v.as_str(), q.as_str()),
            None => false,
        },
    }
}

/// Reply to a configuration update once the store has carried out its
/// writes; `persisted` says whether all of them succeeded (the store stops
/// at the first failure and keeps the writes before it). On success the
/// reply is the full configuration, not only the fields changed. An
/// undecodable payload is a bad request; a failed write, or a field that
/// the record does not hold as requested, is an internal error.
pub fn handle_put_config(state: &AppState, req: Option<DeviceConfig>, persisted: bool) -> (r:
    CoapResponse)
    ensures
        req is None ==> r is BadRequest,
        req is Some && !persisted ==> r is InternalError,
        req is Some && persisted && !(field_held(state.identity.record().room, opt_view(req->0.room))
            && field_held(state.identity.record().floor, opt_view(req->0.floor)) && field_held(
            state.identity.record().name,
            opt_view(req->0.name),
        )) ==> r is InternalError,
        req is Some && persisted && field_held(state.identity.record().room, opt_view(req->0.room))
            && field_held(state.identity.record().floor, opt_view(req->0.floor)) && field_held(
            state.identity.record().name,
            opt_view(req->0.name),
        ) ==> (r matches CoapResponse::Content(Body::Config(c)) && config_of(
            c,
            state.identity.record(),
        )),
{
    let req = match req {
        Some(c) => c,
        None => return CoapResponse::BadRequest,
    };
    if !persisted {
        return CoapResponse::InternalError;
    }
    let room = state.identity.get_room();
    let floor = state.identity.get_floor();
    let name = state.identity.get_name();
    if field_matches(&room, &req.room) && field_matches(&floor, &req.floor) && field_matches(
        &name,
        &req.name,
    ) {
        CoapResponse::Content(Body::Config(DeviceConfig { room, floor, name }))
    } else {
        CoapResponse::InternalError
    }
}

/// Reply to a health read. The battery voltage is reported, as a nominal
/// value, only on battery power.
pub fn handle_get_health(state: &AppState, rssi: i8, free_heap: u32) -> (r: CoapResponse)
    ensures
        r matches CoapResponse::Content(Body::Health(h)) && h.rssi == rssi && h.poll_period_ms
            == state.poll_period_ms && h.power_source == state.power_source && h.free_heap
            == free_heap && h.battery_mv == (if state.power_source == PowerSource::Battery {
            Some(NOMINAL_BATTERY_MV)
        } else {
            None
        }),
{
    let battery_mv = match state.power_source {
        PowerSource::Battery => Some(NOMINAL_BATTERY_MV),
        PowerSource::Usb => None,
    };
    let health = DeviceHealth {
        rssi,
        poll_period_ms: state.poll_period_ms,
        power_source: state.power_source,
        free_heap,
        battery_mv,
    };
    CoapResponse::Content(Body::Health(health))
}

/// Writes carried out one after another act as their first part followed
/// by the rest.
pub proof fn lemma_apply_writes_append(m: RecordModel, a: Seq<WriteModel>, b: Seq<WriteModel>)
    ensures
        apply_writes(m, a + b) == apply_writes(apply_writes(m, a), b),
    decreases a.len(),
{
    if a.len() == 0 {
        assert(a + b =~= b);
    } else {
        assert((a + b).drop_first() =~= a.drop_first() + b);
        assert((a + b)[0] == a[0]);
        lemma_apply_writes_append(apply_write(m, a[0]), a.drop_first(), b);
    }
}

/// A configuration update changes exactly the fields it sets: every field
/// it leaves out, and the whole intent record, keep their stored values.
pub proof fn lemma_partial_config_update(
    m: RecordModel,
    room: Option<Seq<char>>,
    floor: Option<Seq<char>>,
    name: Option<Seq<char>>,
)
    ensures
        ({
            let r = apply_writes(m, config_writes(room, floor, name));
            &&& r.room == (if room is Some { room } else { m.room })
            &&& r.floor == (if floor is Some { floor } else { m.floor })
            &&& r.name == (if name is Some { name } else { m.name })
            &&& r.angle == m.angle
            &&& r.target == m.target
            &&& r.wal == m.wal
            &&& r.init == m.init
        }),
{
    let a = field_write(room, WriteModel::Room(room->0));
    let b = field_write(floor, WriteModel::Floor(floor->0));
    let c = field_write(name, WriteModel::Name(name->0));
    lemma_apply_writes_append(m, a + b, c);
    lemma_apply_writes_append(m, a, b);
    let ma = apply_writes(m, a);
    let mb = apply_writes(ma, b);
    assert(apply_writes(mb, c) == (if name is Some {
        apply_write(mb, WriteModel::Name(name->0))
    } else {
        mb
    })) by {
        reveal_with_fuel(apply_writes, 2);
    }
    assert(mb == (if floor is Some {
        apply_write(ma, WriteModel::Floor(floor->0))
    } else {
        ma
    })) by {
        reveal_with_fuel(apply_writes, 2);
    }
    assert(ma == (if room is Some {
        apply_write(m, WriteModel::Room(room->0))
    } else {
        m
    })) by {
        reveal_with_fuel(apply_writes, 2);
    }
}

} // verus!
