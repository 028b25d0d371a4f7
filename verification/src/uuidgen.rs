//! UUID generation: time-based (version 1), name-based (versions 3 and 5)
//! and random (version 4).
//!
//! The name-based versions are deterministic functions of the namespace and
//! name; the time-based and random versions promise only the version and
//! variant fields of every outcome.

use crate::codec::spec_hex_encode;
use crate::codec::to_hex;
use rand::Rng;
use rand::RngCore;
use vstd::prelude::*;

verus! {

/// The UUID versions the generator can produce.
pub enum UuidVersion {
    V1,
    V3,
    V4,
    V5,
}

/// A 128-bit UUID held as its sixteen bytes in big-endian field order.
#[derive(Clone, Copy, Debug)]
pub struct Uuid {
    pub bytes: [u8; 16],
}

impl View for Uuid {
    type V = Seq<u8>;

    open spec fn view(&self) -> Seq<u8> {
        self.bytes@
    }
}

impl Uuid {
    /// Builds a UUID from its sixteen bytes.
    pub fn from_bytes(bytes: [u8; 16]) -> (r: Uuid)
        ensures
            r@ == bytes@,
    {
        Uuid { bytes }
    }

    /// The version field of the UUID: the high nibble of byte 6.
    pub open spec fn spec_version_field(self) -> int {
        self@[6] as int / 16
    }

    /// The variant field of the UUID: the high two bits of byte 8; the value
    /// 2 marks the RFC 4122 bit layout.
    pub open spec fn spec_variant_field(self) -> int {
        self@[8] as int / 64
    }

    /// The version field of the UUID.
    pub fn version_field(&self) -> (r: u8)
        ensures
            r == self.spec_version_field(),
    {
        self.bytes[6] / 16
    }
}

/// The number a version writes into the UUID's version field.
pub open spec fn spec_version_number(version: UuidVersion) -> int {
    match version {
        UuidVersion::V1 => 1,
        UuidVersion::V3 => 3,
        UuidVersion::V4 => 4,
        UuidVersion::V5 => 5,
    }
}

/// A generated UUID carries the version field of the requested version and
/// the RFC 4122 variant bits.
pub open spec fn spec_marked(u: Uuid, version: UuidVersion) -> bool {
    u.spec_version_field() == spec_version_number(version) && u.spec_variant_field() == 2
}

/// The bytes of the version-3 UUID of a namespace and a name: the MD5-based
/// construction of RFC 9562 over the namespace bytes followed by the UTF-8
/// bytes of the name.
pub uninterp spec fn v3_uuid_of(namespace: Seq<u8>, name: Seq<char>) -> Seq<u8>;

/// The bytes of the version-5 UUID of a namespace and a name: the SHA-1
/// based construction of RFC 9562 over the namespace bytes followed by the
/// UTF-8 bytes of the name.
pub uninterp spec fn v5_uuid_of(namespace: Seq<u8>, name: Seq<char>) -> Seq<u8>;

/// Relies on uuid::Uuid::new_v3: the version-3 (MD5) UUID of the namespace
/// and the name's UTF-8 bytes, a deterministic function of its arguments,
/// with the version field set to 3 and the RFC 4122 variant bits set.
#[verifier::external_body]
fn new_v3_bytes(namespace: &[u8; 16], name: &str) -> (r: [u8; 16])
    ensures
        r@ == v3_uuid_of(namespace@, name@),
        r@[6] as int / 16 == 3,
        r@[8] as int / 64 == 2,
{
    uuid::Uuid::new_v3(&uuid::Uuid::from_bytes(*namespace), name.as_bytes()).into_bytes()
}

/// Relies on uuid::Uuid::new_v5: the version-5 (SHA-1) UUID of the namespace
/// and the name's UTF-8 bytes, a deterministic function of its arguments,
/// with the version field set to 5 and the RFC 4122 variant bits set.
#[verifier::external_body]
fn new_v5_bytes(namespace: &[u8; 16], name: &str) -> (r: [u8; 16])
    ensures
        r@ == v5_uuid_of(namespace@, name@),
        r@[6] as int / 16 == 5,
        r@[8] as int / 64 == 2,
{
    uuid::Uuid::new_v5(&uuid::Uuid::from_bytes(*namespace), name.as_bytes()).into_bytes()
}

/// Relies on uuid::Uuid::new_v4: a UUID from 122 bits of operating-system
/// randomness.  The result is random, so of every outcome only the version
/// field 4 and the RFC 4122 variant bits are promised.
#[verifier::external_body]
fn new_v4_bytes() -> (r: [u8; 16])
    ensures
        r@[6] as int / 16 == 4,
        r@[8] as int / 64 == 2,
{
    uuid::Uuid::new_v4().into_bytes()
}

#[verifier::external_type_specification]
#[verifier::external_body]
pub struct ExContextV1(uuid::ContextV1);

#[verifier::external_type_specification]
#[verifier::external_body]
pub struct ExTimestamp(uuid::Timestamp);

/// Relies on rand::rngs::OsRng::next_u64: a random value from the operating
/// system's entropy source, here truncated to seed a clock sequence; the
/// value is random, so nothing is promised of it.
#[verifier::external_body]
fn random_clock_seed() -> u16 {
    rand::rngs::OsRng.next_u64() as u16
}

/// Relies on uuid::Context::new: a fresh version-1 clock-sequence context
/// initialized with the given count.
#[verifier::external_body]
fn clock_context(seed: u16) -> uuid::ContextV1 {
    uuid::Context::new(seed)
}

/// Relies on uuid::Timestamp::now: the current system time paired with the
/// context's next clock-sequence value.  It depends on the clock, so
/// nothing is promised of it.
#[verifier::external_body]
fn timestamp_now(context: &uuid::ContextV1) -> uuid::Timestamp {
    uuid::Timestamp::now(context)
}

/// Relies on rand::Rng::gen on rand::rngs::OsRng: six random bytes for the
/// node id; they are random, so nothing is promised of them.
#[verifier::external_body]
fn random_node_id() -> [u8; 6] {
    rand::rngs::OsRng.gen()
}

/// Relies on uuid::Uuid::new_v1: a version-1 UUID assembled from the
/// timestamp, its clock sequence and the node id, with the version field
/// set to 1 and the RFC 4122 variant bits set.
#[verifier::external_body]
fn new_v1_bytes(ts: uuid::Timestamp, node_id: &[u8; 6]) -> (r: [u8; 16])
    ensures
        r@[6] as int / 16 == 1,
        r@[8] as int / 64 == 2,
{
    uuid::Uuid::new_v1(ts, node_id).into_bytes()
}

/// The error reported when a name-based version lacks its namespace or name.
pub open spec fn spec_missing_param_error(version: UuidVersion) -> Seq<char> {
    match version {
        UuidVersion::V3 => "Namespace and name are required for UUID V3"@,
        UuidVersion::V5 => "Namespace and name are required for UUID V5"@,
        _ => Seq::<char>::empty(),
    }
}

/// Generates a UUID of the requested version.
///
/// Versions 1 and 4 always succeed and ignore the namespace and name; the
/// result carries the requested version field and the RFC 4122 variant bits.
/// Versions 3 and 5 succeed exactly when both namespace and name are given,
/// and then return the deterministic name-based UUID of those arguments;
/// with either argument missing they return the descriptive error naming the
/// version.
pub fn generate_uuid(version: UuidVersion, namespace: Option<Uuid>, name: Option<&str>) -> (r:
    Result<Uuid, String>)
    ensures
        match version {
            UuidVersion::V1 => r is Ok && spec_marked(r->Ok_0, version),
            UuidVersion::V4 => r is Ok && spec_marked(r->Ok_0, version),
            UuidVersion::V3 => if namespace is Some && name is Some {
                &&& r is Ok
                &&& r->Ok_0@ == v3_uuid_of(namespace.unwrap()@, name.unwrap()@)
                &&& spec_marked(r->Ok_0, version)
            } else {
                r is Err && r->Err_0@ == spec_missing_param_error(version)
            },
            UuidVersion::V5 => if namespace is Some && name is Some {
                &&& r is Ok
                &&& r->Ok_0@ == v5_uuid_of(namespace.unwrap()@, name.unwrap()@)
                &&& spec_marked(r->Ok_0, version)
            } else {
                r is Err && r->Err_0@ == spec_missing_param_error(version)
            },
        },
{
    match version {
        UuidVersion::V1 => {
            let context = clock_context(random_clock_seed());
            let ts = timestamp_now(&context);
            let node_id = random_node_id();
            Ok(Uuid { bytes: new_v1_bytes(ts, &node_id) })
        },
        UuidVersion::V3 => {
            if let (Some(ns), Some(n)) = (namespace, name) {
                Ok(Uuid { bytes: new_v3_bytes(&ns.bytes, n) })
            } else {
                Err(String::from_str("Namespace and name are required for UUID V3"))
            }
        },
        UuidVersion::V4 => Ok(Uuid { bytes: new_v4_bytes() }),
        UuidVersion::V5 => {
            if let (Some(ns), Some(n)) = (namespace, name) {
                Ok(Uuid { bytes: new_v5_bytes(&ns.bytes, n) })
            } else {
                Err(String::from_str("Namespace and name are required for UUID V5"))
            }
        },
    }
}

/// Two UUIDs whose version fields differ are distinct.  In particular a
/// version-3 and a version-5 UUID derived from the same namespace and name
/// never coincide, since their version fields are 3 and 5.
pub proof fn lemma_distinct_version_fields(a: Seq<u8>, b: Seq<u8>)
    requires
        a.len() == 16,
        b.len() == 16,
        a[6] as int / 16 != b[6] as int / 16,
    ensures
        a != b,
{
    assert(a[6] != b[6]);
}

/// A version-3 UUID is deterministic: any two results derived from the same
/// namespace and name are equal.
pub proof fn lemma_v3_deterministic(ns: Seq<u8>, name: Seq<char>, a: Seq<u8>, b: Seq<u8>)
    requires
        a == v3_uuid_of(ns, name),
        b == v3_uuid_of(ns, name),
    ensures
        a == b,
{
}

/// A version-5 UUID is deterministic: any two results derived from the same
/// namespace and name are equal.
pub proof fn lemma_v5_deterministic(ns: Seq<u8>, name: Seq<char>, a: Seq<u8>, b: Seq<u8>)
    requires
        a == v5_uuid_of(ns, name),
        b == v5_uuid_of(ns, name),
    ensures
        a == b,
{
}

/// The standard hyphenated textual form of a UUID: lowercase hexadecimal
/// groups of 8, 4, 4, 4 and 12 digits separated by hyphens.
pub open spec fn spec_hyphenated(b: Seq<u8>) -> Seq<char> {
    spec_hex_encode(b.subrange(0, 4)) + seq!['-'] + spec_hex_encode(b.subrange(4, 6)) + seq!['-']
        + spec_hex_encode(b.subrange(6, 8)) + seq!['-'] + spec_hex_encode(b.subrange(8, 10))
        + seq!['-'] + spec_hex_encode(b.subrange(10, 16))
}

fn copy_segment(bytes: &[u8; 16], lo: usize, hi: usize) -> (r: Vec<u8>)
    requires
        lo <= hi <= 16,
    ensures
        r@ == bytes@.subrange(lo as int, hi as int),
{
    let mut v: Vec<u8> = Vec::new();
    let mut i: usize = lo;
    while i < hi
        invariant
            lo <= i <= hi <= 16,
            v@ == bytes@.subrange(lo as int, i as int),
        decreases hi - i,
    {
        v.push(bytes[i]);
        i = i + 1;
        assert(v@ =~= bytes@.subrange(lo as int, i as int));
    }
    v
}

impl Uuid {
    /// Renders the UUID in its standard hyphenated textual form.
    pub fn to_hyphenated_string(&self) -> (r: String)
        ensures
            r@ == spec_hyphenated(self@),
    {
        proof {
            reveal_strlit("-");
        }
        let mut out = String::new();
        let seg = copy_segment(&self.bytes, 0, 4);
        let h = to_hex(&seg);
        out.append(h.as_str());
        out.append("-");
        let seg = copy_segment(&self.bytes, 4, 6);
        let h = to_hex(&seg);
        out.append(h.as_str());
        out.append("-");
        let seg = copy_segment(&self.bytes, 6, 8);
        let h = to_hex(&seg);
        out.append(h.as_str());
        out.append("-");
        let seg = copy_segment(&self.bytes, 8, 10);
        let h = to_hex(&seg);
        out.append(h.as_str());
        out.append("-");
        let seg = copy_segment(&self.bytes, 10, 16);
        let h = to_hex(&seg);
        out.append(h.as_str());
        proof {
            assert(out@ =~= spec_hyphenated(self@));
        }
        out
    }
}

} // verus!
