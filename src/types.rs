use vstd::prelude::*;

verus! {

/// The largest serial or sequence number that keeps its value at the boundary.
pub const BOUNDARY_MAX: u64 = 0x7fff_ffff_ffff_ffff;

/// A numeric namespace partitioning the actor-identifier space.
#[derive(Debug, Clone, Copy, PartialEq, Eq, Structural)]
pub struct Realm {
    pub realm_id: u32,
}

/// A capability descriptor: the class of an actor, used for discovery.
#[derive(Debug, Clone)]
pub struct ActrType {
    pub manufacturer: String,
    pub name: String,
}

/// An actor identifier as the host sees it: the serial number is signed.
#[derive(Debug, Clone)]
pub struct ActrId {
    pub realm: Realm,
    pub serial_number: i64,
    pub actr_type: ActrType,
}

/// An actor identifier as the native runtime holds it.
#[derive(Debug, Clone)]
pub struct NativeActrId {
    pub realm: Realm,
    pub serial_number: u64,
    pub actr_type: ActrType,
}

/// The delivery-guarantee intent carried with a payload.
#[derive(Debug, Clone, Copy, PartialEq, Eq, Structural)]
pub enum PayloadType {
    RpcReliable,
    RpcSignal,
    StreamReliable,
    StreamLatencyFirst,
    MediaRtp,
}

/// One metadata pair of a stream chunk; order and duplicates are kept.
#[derive(Debug, Clone)]
pub struct MetadataEntry {
    pub key: String,
    pub value: String,
}

/// A stream chunk as the host sees it: the sequence number is signed.
#[derive(Debug, Clone)]
pub struct DataStream {
    pub stream_id: String,
    pub sequence: i64,
    pub payload: Vec<u8>,
    pub metadata: Vec<MetadataEntry>,
    pub timestamp_ms: Option<i64>,
}

/// A stream chunk as the native runtime holds it.
#[derive(Debug, Clone)]
pub struct NativeDataStream {
    pub stream_id: String,
    pub sequence: u64,
    pub payload: Vec<u8>,
    pub metadata: Vec<MetadataEntry>,
    pub timestamp_ms: Option<i64>,
}

/// An inbound RPC envelope as the native runtime holds it; no payload is a signal.
#[derive(Debug, Clone)]
pub struct NativeRpcEnvelope {
    pub route_key: String,
    pub payload: Option<Vec<u8>>,
    pub request_id: String,
}

/// An RPC envelope as the host sees it; a signal has an empty payload.
#[derive(Debug, Clone)]
pub struct RpcEnvelopeBridge {
    pub route_key: String,
    pub payload: Vec<u8>,
    pub request_id: String,
}

/// The two's-complement reading of an unsigned 64-bit quantity.
pub open spec fn to_boundary(n: u64) -> i64 {
    if n <= BOUNDARY_MAX {
        n as i64
    } else {
        (n - 0x1_0000_0000_0000_0000) as i64
    }
}

/// The unsigned reading of a signed 64-bit boundary value.
pub open spec fn to_native(v: i64) -> u64 {
    if v >= 0 {
        v as u64
    } else {
        (v + 0x1_0000_0000_0000_0000) as u64
    }
}

/// Converts an unsigned native quantity to its signed boundary form.
pub fn boundary_from_native(n: u64) -> (r: i64)
    ensures
        r == to_boundary(n),
        n <= BOUNDARY_MAX ==> r == n,
{
    if n <= BOUNDARY_MAX {
        n as i64
    } else {
        ((n - 0x8000_0000_0000_0000u64) as i64) + i64::MIN
    }
}

/// Converts a signed boundary value back to its unsigned native form.
pub fn native_from_boundary(v: i64) -> (r: u64)
    ensures
        r == to_native(v),
        v >= 0 ==> r == v,
{
    if v >= 0 {
        v as u64
    } else {
        ((v - i64::MIN) as u64) + 0x8000_0000_0000_0000u64
    }
}

/// The host form of a native identifier.
pub open spec fn id_to_boundary(n: NativeActrId) -> ActrId {
    ActrId { realm: n.realm, serial_number: to_boundary(n.serial_number), actr_type: n.actr_type }
}

/// The native form of a host identifier.
pub open spec fn id_to_native(b: ActrId) -> NativeActrId {
    NativeActrId { realm: b.realm, serial_number: to_native(b.serial_number), actr_type: b.actr_type }
}

/// The host form of a native stream chunk.
pub open spec fn stream_to_boundary(n: NativeDataStream) -> DataStream {
    DataStream {
        stream_id: n.stream_id,
        sequence: to_boundary(n.sequence),
        payload: n.payload,
        metadata: n.metadata,
        timestamp_ms: n.timestamp_ms,
    }
}

/// The native form of a host stream chunk.
pub open spec fn stream_to_native(b: DataStream) -> NativeDataStream {
    NativeDataStream {
        stream_id: b.stream_id,
        sequence: to_native(b.sequence),
        payload: b.payload,
        metadata: b.metadata,
        timestamp_ms: b.timestamp_ms,
    }
}

/// The bytes a host sees for an envelope's optional payload.
pub open spec fn envelope_bytes(p: Option<Vec<u8>>) -> Seq<u8> {
    match p {
        Some(v) => v@,
        None => Seq::empty(),
    }
}

impl ActrId {
    /// The host form of a native identifier.
    pub fn from_native(id: NativeActrId) -> (r: ActrId)
        ensures
            r == id_to_boundary(id),
    {
        ActrId {
            realm: id.realm,
            serial_number: boundary_from_native(id.serial_number),
            actr_type: id.actr_type,
        }
    }

    /// The native form of a host identifier.
    pub fn into_native(self) -> (r: NativeActrId)
        ensures
            r == id_to_native(self),
    {
        NativeActrId {
            realm: self.realm,
            serial_number: native_from_boundary(self.serial_number),
            actr_type: self.actr_type,
        }
    }
}

impl DataStream {
    /// The host form of a native stream chunk.
    pub fn from_native(chunk: NativeDataStream) -> (r: DataStream)
        ensures
            r == stream_to_boundary(chunk),
    {
        DataStream {
            stream_id: chunk.stream_id,
            sequence: boundary_from_native(chunk.sequence),
            payload: chunk.payload,
            metadata: chunk.metadata,
            timestamp_ms: chunk.timestamp_ms,
        }
    }

    /// The native form of a host stream chunk.
    pub fn into_native(self) -> (r: NativeDataStream)
        ensures
            r == stream_to_native(self),
    {
        NativeDataStream {
            stream_id: self.stream_id,
            sequence: native_from_boundary(self.sequence),
            payload: self.payload,
            metadata: self.metadata,
            timestamp_ms: self.timestamp_ms,
        }
    }
}

impl RpcEnvelopeBridge {
    /// The host form of an inbound envelope; a signal gets an empty payload.
    pub fn from_native(envelope: NativeRpcEnvelope) -> (r: RpcEnvelopeBridge)
        ensures
            r.route_key == envelope.route_key,
            r.request_id == envelope.request_id,
            r.payload@ == envelope_bytes(envelope.payload),
    {
        let payload = match envelope.payload {
            Some(p) => p,
            None => Vec::new(),
        };
        RpcEnvelopeBridge { route_key: envelope.route_key, payload, request_id: envelope.request_id }
    }
}

/// Every unsigned quantity up to the boundary maximum survives the trip to
/// the signed boundary form and back unchanged.
pub proof fn lemma_quantity_round_trip(n: u64)
    requires
        n <= BOUNDARY_MAX,
    ensures
        to_boundary(n) == n,
        to_native(to_boundary(n)) == n,
{
}

/// An actor identifier whose serial number is at most 2^63 - 1 comes back
/// unchanged from the boundary form.
pub proof fn lemma_actr_id_round_trip(id: NativeActrId)
    requires
        id.serial_number <= BOUNDARY_MAX,
    ensures
        id_to_native(id_to_boundary(id)) == id,
        id_to_boundary(id).serial_number == id.serial_number,
{
    lemma_quantity_round_trip(id.serial_number);
}

/// A host identifier with a non-negative serial number comes back unchanged
/// from the native form.
pub proof fn lemma_boundary_id_round_trip(id: ActrId)
    requires
        id.serial_number >= 0,
    ensures
        id_to_boundary(id_to_native(id)) == id,
{
}

/// A stream chunk whose sequence number is at most 2^63 - 1 comes back
/// unchanged from the boundary form.
pub proof fn lemma_stream_round_trip(chunk: NativeDataStream)
    requires
        chunk.sequence <= BOUNDARY_MAX,
    ensures
        stream_to_native(stream_to_boundary(chunk)) == chunk,
{
    lemma_quantity_round_trip(chunk.sequence);
}

} // verus!
