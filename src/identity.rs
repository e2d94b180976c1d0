//! The device's durable record: the write-ahead intent cells that make
//! position recovery after power loss deterministic, the room / floor /
//! name settings, and the first-boot marker.
//!
//! The record is held here as the device last left it in its key-value
//! store. Every change is first handed out as a `StoreWrite`; the store
//! carries it out, and only a write it reports durable is passed back to
//! `DeviceIdentity::apply`. The record therefore never runs ahead of what
//! survives a restart.

use vstd::prelude::*;
use vstd::string::StrSliceExecFns;
use vstd::utf8::encode_utf8;
use crate::hex::{hex_grouped, hex_text};

verus! {

/// Value of the commit flag while a move is pending.
pub const WAL_PENDING: u8 = 0;

/// Value of the commit flag once the last move has finished.
pub const WAL_COMMITTED: u8 = 1;

/// The cells of the key-value store that the device uses.
#[derive(Debug, Clone, Copy, PartialEq, Eq, Structural)]
pub enum StoreKey {
    /// Checkpoint: the last committed angle.
    Angle,
    /// Pending intent: the target recorded before a move starts.
    Target,
    /// Commit flag.
    Wal,
    /// First-boot marker.
    Init,
    Room,
    Floor,
    Name,
}

impl StoreKey {
    /// Name of the cell in the store.
    pub fn as_str(&self) -> (r: &'static str)
        ensures
            *self == StoreKey::Angle ==> r@ == "angle"@,
            *self == StoreKey::Target ==> r@ == "target"@,
            *self == StoreKey::Wal ==> r@ == "wal"@,
            *self == StoreKey::Init ==> r@ == "init"@,
            *self == StoreKey::Room ==> r@ == "room"@,
            *self == StoreKey::Floor ==> r@ == "floor"@,
            *self == StoreKey::Name ==> r@ == "name"@,
    {
        match self {
            StoreKey::Angle => "angle",
            StoreKey::Target => "target",
            StoreKey::Wal => "wal",
            StoreKey::Init => "init",
            StoreKey::Room => "room",
            StoreKey::Floor => "floor",
            StoreKey::Name => "name",
        }
    }
}

/// One write to the store: a cell and its new value.
#[derive(Debug, Clone)]
pub enum StoreWrite {
    Angle(u8),
    Target(u8),
    Wal(u8),
    Init(u8),
    Room(String),
    Floor(String),
    Name(String),
}

/// A `StoreWrite` in the model, strings as character sequences.
pub ghost enum WriteModel {
    Angle(u8),
    Target(u8),
    Wal(u8),
    Init(u8),
    Room(Seq<char>),
    Floor(Seq<char>),
    Name(Seq<char>),
}

impl View for StoreWrite {
    type V = WriteModel;

    open spec fn view(&self) -> WriteModel {
        match self {
            StoreWrite::Angle(v) => WriteModel::Angle(*v),
            StoreWrite::Target(v) => WriteModel::Target(*v),
            StoreWrite::Wal(v) => WriteModel::Wal(*v),
            StoreWrite::Init(v) => WriteModel::Init(*v),
            StoreWrite::Room(s) => WriteModel::Room(s@),
            StoreWrite::Floor(s) => WriteModel::Floor(s@),
            StoreWrite::Name(s) => WriteModel::Name(s@),
        }
    }
}

/// The bytes a write stores: one byte for the numeric cells, the UTF-8
/// encoding for the strings.
pub open spec fn write_bytes(w: &StoreWrite) -> Seq<u8> {
    match w {
        StoreWrite::Angle(v) => seq![*v],
        StoreWrite::Target(v) => seq![*v],
        StoreWrite::Wal(v) => seq![*v],
        StoreWrite::Init(v) => seq![*v],
        StoreWrite::Room(s) => encode_utf8(s@),
        StoreWrite::Floor(s) => encode_utf8(s@),
        StoreWrite::Name(s) => encode_utf8(s@),
    }
}

impl StoreWrite {
    /// The cell this write goes to.
    pub fn key(&self) -> (r: StoreKey)
        ensures
            r == (match self@ {
                WriteModel::Angle(_) => StoreKey::Angle,
                WriteModel::Target(_) => StoreKey::Target,
                WriteModel::Wal(_) => StoreKey::Wal,
                WriteModel::Init(_) => StoreKey::Init,
                WriteModel::Room(_) => StoreKey::Room,
                WriteModel::Floor(_) => StoreKey::Floor,
                WriteModel::Name(_) => StoreKey::Name,
            }),
    {
        match self {
            StoreWrite::Angle(_) => StoreKey::Angle,
            StoreWrite::Target(_) => StoreKey::Target,
            StoreWrite::Wal(_) => StoreKey::Wal,
            StoreWrite::Init(_) => StoreKey::Init,
            StoreWrite::Room(_) => StoreKey::Room,
            StoreWrite::Floor(_) => StoreKey::Floor,
            StoreWrite::Name(_) => StoreKey::Name,
        }
    }

    /// The bytes to store in the cell.
    pub fn bytes(&self) -> (r: Vec<u8>)
        ensures
            r@ == write_bytes(self),
    {
        match self {
            StoreWrite::Angle(v) => vec![*v],
            StoreWrite::Target(v) => vec![*v],
            StoreWrite::Wal(v) => vec![*v],
            StoreWrite::Init(v) => vec![*v],
            StoreWrite::Room(s) => s.as_str().as_bytes_vec(),
            StoreWrite::Floor(s) => s.as_str().as_bytes_vec(),
            StoreWrite::Name(s) => s.as_str().as_bytes_vec(),
        }
    }
}

/// The contents of the store's cells; `None` where a cell was never written.
pub struct StoredRecord {
    pub angle: Option<u8>,
    pub target: Option<u8>,
    pub wal: Option<u8>,
    pub init: Option<u8>,
    pub room: Option<String>,
    pub floor: Option<String>,
    pub name: Option<String>,
}

/// A `StoredRecord` in the model.
pub ghost struct RecordModel {
    pub angle: Option<u8>,
    pub target: Option<u8>,
    pub wal: Option<u8>,
    pub init: Option<u8>,
    pub room: Option<Seq<char>>,
    pub floor: Option<Seq<char>>,
    pub name: Option<Seq<char>>,
}

/// The model of an optional string.
pub open spec fn opt_view(s: Option<String>) -> Option<Seq<char>> {
    match s {
        Some(v) => Some(v@),
        None => None,
    }
}

impl View for StoredRecord {
    type V = RecordModel;

    open spec fn view(&self) -> RecordModel {
        RecordModel {
            angle: self.angle,
            target: self.target,
            wal: self.wal,
            init: self.init,
            room: opt_view(self.room),
            floor: opt_view(self.floor),
            name: opt_view(self.name),
        }
    }
}

/// The record after one durable write.
pub open spec fn apply_write(m: RecordModel, w: WriteModel) -> RecordModel {
    match w {
        WriteModel::Angle(v) => RecordModel { angle: Some(v), ..m },
        WriteModel::Target(v) => RecordModel { target: Some(v), ..m },
        WriteModel::Wal(v) => RecordModel { wal: Some(v), ..m },
        WriteModel::Init(v) => RecordModel { init: Some(v), ..m },
        WriteModel::Room(s) => RecordModel { room: Some(s), ..m },
        WriteModel::Floor(s) => RecordModel { floor: Some(s), ..m },
        WriteModel::Name(s) => RecordModel { name: Some(s), ..m },
    }
}

/// The record after a sequence of durable writes, in order.
pub open spec fn apply_writes(m: RecordModel, ws: Seq<WriteModel>) -> RecordModel
    decreases ws.len(),
{
    if ws.len() == 0 {
        m
    } else {
        apply_writes(apply_write(m, ws[0]), ws.drop_first())
    }
}

/// The models of a sequence of writes.
pub open spec fn writes_view(ws: Seq<StoreWrite>) -> Seq<WriteModel> {
    ws.map_values(|w: StoreWrite| w@)
}

/// Whether the last move finished: an absent flag counts as finished.
pub open spec fn committed(m: RecordModel) -> bool {
    match m.wal {
        Some(v) => v == WAL_COMMITTED,
        None => true,
    }
}

/// The writes that record the intent to move to `target`: the intent
/// first, then the cleared commit flag.
pub open spec fn write_ahead_writes(target: u8) -> Seq<WriteModel> {
    seq![WriteModel::Target(target), WriteModel::Wal(WAL_PENDING)]
}

/// The writes that close a move at `angle`: the checkpoint first, then the
/// set commit flag.
pub open spec fn commit_writes(angle: u8) -> Seq<WriteModel> {
    seq![WriteModel::Angle(angle), WriteModel::Wal(WAL_COMMITTED)]
}

/// The device's permanent identifier and its durable record.
pub struct DeviceIdentity {
    eui64: String,
    record: StoredRecord,
}

impl DeviceIdentity {
    /// The record, in the model.
    pub closed spec fn record(&self) -> RecordModel {
        self.record@
    }

    /// The identifier, in the model.
    pub closed spec fn spec_eui64(&self) -> Seq<char> {
        self.eui64@
    }

    /// An identity with identifier `eui64` whose store holds `record`.
    pub fn new(eui64: String, record: StoredRecord) -> (r: Self)
        ensures
            r.spec_eui64() == eui64@,
            r.record() == record@,
    {
        DeviceIdentity { eui64, record }
    }

    /// Text of a factory MAC address: two lower-case hex digits per byte,
    /// separated by ':'.
    pub fn format_eui64(mac: &[u8]) -> (r: String)
        ensures
            r@ == hex_grouped(mac@, 1),
    {
        hex_text(mac, 1)
    }

    /// The device's permanent identifier.
    pub fn eui64(&self) -> (r: &str)
        ensures
            r@ == self.spec_eui64(),
    {
        self.eui64.as_str()
    }

    /// Whether the store holds no first-boot marker yet.
    pub fn is_first_boot(&self) -> (r: bool)
        ensures
            r == (self.record().init is None),
    {
        self.record.init.is_none()
    }

    /// The write that sets the first-boot marker.
    pub fn mark_initialized(&self) -> (w: StoreWrite)
        ensures
            w@ == WriteModel::Init(1),
    {
        StoreWrite::Init(1)
    }

    pub fn get_room(&self) -> (r: Option<String>)
        ensures
            opt_view(r) == self.record().room,
    {
        clone_opt(&self.record.room)
    }

    /// The write that sets the room.
    pub fn set_room(&self, room: &str) -> (w: StoreWrite)
        ensures
            w@ == WriteModel::Room(room@),
    {
        StoreWrite::Room(room.to_owned())
    }

    pub fn get_floor(&self) -> (r: Option<String>)
        ensures
            opt_view(r) == self.record().floor,
    {
        clone_opt(&self.record.floor)
    }

    /// The write that sets the floor.
    pub fn set_floor(&self, floor: &str) -> (w: StoreWrite)
        ensures
            w@ == WriteModel::Floor(floor@),
    {
        StoreWrite::Floor(floor.to_owned())
    }

    pub fn get_name(&self) -> (r: Option<String>)
        ensures
            opt_view(r) == self.record().name,
    {
        clone_opt(&self.record.name)
    }

    /// The write that sets the device name.
    pub fn set_name(&self, name: &str) -> (w: StoreWrite)
        ensures
            w@ == WriteModel::Name(name@),
    {
        StoreWrite::Name(name.to_owned())
    }

    /// The last committed angle, if one was ever recorded.
    pub fn checkpoint_angle(&self) -> (r: Option<u8>)
        ensures
            r == self.record().angle,
    {
        self.record.angle
    }

    /// The writes that record the intent to move to `target`. They must be
    /// durable before the actuator is given any new value.
    pub fn write_ahead(&self, target: u8) -> (ws: Vec<StoreWrite>)
        ensures
            writes_view(ws@) == write_ahead_writes(target),
    {
        let ws = vec![StoreWrite::Target(target), StoreWrite::Wal(WAL_PENDING)];
        assert(writes_view(ws@) =~= write_ahead_writes(target));
        ws
    }

    /// The intended target of the last move that was written ahead.
    pub fn get_pending(&self) -> (r: Option<u8>)
        ensures
            r == self.record().target,
    {
        self.record.target
    }

    /// The writes that close a move that ended at `angle`.
    pub fn commit(&self, angle: u8) -> (ws: Vec<StoreWrite>)
        ensures
            writes_view(ws@) == commit_writes(angle),
    {
        let ws = vec![StoreWrite::Angle(angle), StoreWrite::Wal(WAL_COMMITTED)];
        assert(writes_view(ws@) =~= commit_writes(angle));
        ws
    }

    /// Whether the last move finished; false when power was lost between
    /// its write-ahead and its commit.
    pub fn is_committed(&self) -> (r: bool)
        ensures
            r == committed(self.record()),
    {
        match self.record.wal {
            Some(v) => v == WAL_COMMITTED,
            None => true,
        }
    }

    /// Take into the record a write that the store reports durable.
    pub fn apply(&mut self, w: StoreWrite)
        ensures
            final(self).record() == apply_write(old(self).record(), w@),
            final(self).spec_eui64() == old(self).spec_eui64(),
    {
        match w {
            StoreWrite::Angle(v) => self.record.angle = Some(v),
            StoreWrite::Target(v) => self.record.target = Some(v),
            StoreWrite::Wal(v) => self.record.wal = Some(v),
            StoreWrite::Init(v) => self.record.init = Some(v),
            StoreWrite::Room(s) => self.record.room = Some(s),
            StoreWrite::Floor(s) => self.record.floor = Some(s),
            StoreWrite::Name(s) => self.record.name = Some(s),
        }
    }
}

/// A copy of an optional string.
fn clone_opt(s: &Option<String>) -> (r: Option<String>)
    ensures
        opt_view(r) == opt_view(*s),
{
    match s {
        Some(v) => Some(v.clone()),
        None => None,
    }
}

} // verus!
