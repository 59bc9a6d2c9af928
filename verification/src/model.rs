//! The data model that the server and the client share: user identities,
//! audio packets, the protocol version and the handshake constants.
use vstd::prelude::*;

use crate::payload::{bytes_from_vec, bytes_view};
use crate::text::{dec_digits, hex_digits, push_decimal, push_hex_padded, push_text, zero_padded};

verus! {

/// The greeting that both ends send first.
pub open spec fn spec_hello_signal() -> Seq<u8> {
    seq![0x63u8, 0x72u8, 0x61u8, 0x62u8, 0x6du8, 0x69u8, 0x63u8]
}

/// Length of the greeting, in bytes.
pub const HELLO_SIGNAL_SIZE: usize = 7;

/// Length of an encoded protocol version, in bytes.
pub const PROTOCOL_VERSION_SIZE: usize = 6;

/// The greeting `b"crabmic"` that both ends send first.
pub fn hello_signal() -> (signal: [u8; HELLO_SIGNAL_SIZE])
    ensures
        signal@ == spec_hello_signal(),
{
    [0x63u8, 0x72u8, 0x61u8, 0x62u8, 0x6du8, 0x69u8, 0x63u8]
}

/// The ALPN protocol name `b"crabmic"` under which the QUIC connection is made.
pub fn crabmic_alpn() -> (alpn: Vec<u8>)
    ensures
        alpn@ == spec_hello_signal(),
{
    let signal = hello_signal();
    let mut alpn: Vec<u8> = Vec::new();
    let mut i: usize = 0;
    while i < HELLO_SIGNAL_SIZE
        invariant
            i <= HELLO_SIGNAL_SIZE,
            signal@ == spec_hello_signal(),
            alpn@ == signal@.subrange(0, i as int),
        decreases HELLO_SIGNAL_SIZE - i,
    {
        alpn.push(signal[i]);
        assert(signal@.subrange(0, i + 1) == signal@.subrange(0, i as int).push(signal@[i as int]));
        i = i + 1;
    }
    assert(signal@.subrange(0, HELLO_SIGNAL_SIZE as int) == signal@);
    alpn
}

/// Unique identifier of a user in an audio room.
#[derive(Clone, Copy, PartialEq, Eq, Structural, PartialOrd, Ord, Hash)]
pub struct RoomUserId(u64);

impl RoomUserId {
    /// The number that identifies the user.
    pub closed spec fn value(self) -> u64 {
        self.0
    }

    /// The identifier that follows this one.
    pub fn next(&self) -> (id: RoomUserId)
        requires
            self.value() < u64::MAX,
        ensures
            id.value() == self.value() + 1,
    {
        RoomUserId(self.0 + 1)
    }

    /// The number that identifies the user.
    pub fn into_inner(self) -> (n: u64)
        ensures
            n == self.value(),
    {
        self.0
    }

    /// The identifier rendered as at least eight lower-case hexadecimal
    /// digits (`{:08x}`), as the type's `Display` shows it.
    pub fn to_string(&self) -> (s: String)
        ensures
            s@ == zero_padded(hex_digits(self.value() as nat), 8),
    {
        let mut s = String::new();
        push_hex_padded(&mut s, self.0, 8);
        s
    }

    /// The identifier as the type's `Debug` shows it: `RoomUserId(` and the
    /// eight-digit hexadecimal rendering, then `)`.
    pub fn debug_string(&self) -> (s: String)
        ensures
            s@ == "RoomUserId("@ + zero_padded(hex_digits(self.value() as nat), 8) + ")"@,
    {
        let mut s = String::new();
        push_text(&mut s, "RoomUserId(");
        push_hex_padded(&mut s, self.0, 8);
        push_text(&mut s, ")");
        s
    }
}

impl Default for RoomUserId {
    fn default() -> (id: RoomUserId)
        ensures
            id.value() == 0,
    {
        RoomUserId(0)
    }
}

impl From<u64> for RoomUserId {
    fn from(value: u64) -> (id: RoomUserId) {
        RoomUserId(value)
    }
}

impl vstd::std_specs::convert::FromSpecImpl<u64> for RoomUserId {
    open spec fn obeys_from_spec() -> bool {
        true
    }

    closed spec fn from_spec(value: u64) -> RoomUserId {
        RoomUserId(value)
    }
}

impl From<RoomUserId> for u64 {
    fn from(id: RoomUserId) -> (value: u64) {
        id.0
    }
}

impl vstd::std_specs::convert::FromSpecImpl<RoomUserId> for u64 {
    open spec fn obeys_from_spec() -> bool {
        true
    }

    closed spec fn from_spec(id: RoomUserId) -> u64 {
        id.0
    }
}

/// Two identifiers are the same exactly when their numbers are.
pub proof fn lemma_user_id_is_its_value(a: RoomUserId, b: RoomUserId)
    ensures
        a == b <==> a.value() == b.value(),
{
}

/// The conversions between identifiers and numbers undo each other: an
/// identifier made from a number has that number, and the number of an
/// identifier gives that identifier back.
pub proof fn lemma_user_id_conversions(n: u64, id: RoomUserId)
    ensures
        <RoomUserId as vstd::std_specs::convert::FromSpec<u64>>::from_spec(n).value() == n,
        <u64 as vstd::std_specs::convert::FromSpec<RoomUserId>>::from_spec(id) == id.value(),
        <RoomUserId as vstd::std_specs::convert::FromSpec<u64>>::from_spec(
            <u64 as vstd::std_specs::convert::FromSpec<RoomUserId>>::from_spec(id),
        ) == id,
{
}

/// Encoded audio sent by one user of the room.
#[derive(Clone)]
pub struct RoomAudioPacket {
    pub user_id: RoomUserId,
    pub data: bytes::Bytes,
}

impl RoomAudioPacket {
    /// A packet from the user with number `user_id` that carries `data`.
    pub fn new(user_id: u64, data: Vec<u8>) -> (packet: RoomAudioPacket)
        ensures
            packet.user_id.value() == user_id,
            bytes_view(packet.data) == data@,
    {
        RoomAudioPacket { user_id: RoomUserId(user_id), data: bytes_from_vec(data) }
    }
}

/// The high byte of a 16-bit number.
pub open spec fn high_byte(x: u16) -> u8 {
    (x / 256) as u8
}

/// The low byte of a 16-bit number.
pub open spec fn low_byte(x: u16) -> u8 {
    (x % 256) as u8
}

/// The 16-bit number whose high and low bytes are `hi` and `lo`.
pub open spec fn u16_of_bytes(hi: u8, lo: u8) -> u16 {
    (hi * 256 + lo) as u16
}

/// A semantic version of the wire protocol.
#[derive(Debug, Clone, Copy, PartialEq, Eq, Structural)]
pub struct ProtocolVersion {
    major: u16,
    minor: u16,
    patch: u16,
}

impl ProtocolVersion {
    pub closed spec fn spec_major(self) -> u16 {
        self.major
    }

    pub closed spec fn spec_minor(self) -> u16 {
        self.minor
    }

    pub closed spec fn spec_patch(self) -> u16 {
        self.patch
    }

    /// The six bytes of the version on the wire: major, minor and patch,
    /// each as two bytes, high byte first.
    pub open spec fn encoded(self) -> Seq<u8> {
        seq![
            high_byte(self.spec_major()),
            low_byte(self.spec_major()),
            high_byte(self.spec_minor()),
            low_byte(self.spec_minor()),
            high_byte(self.spec_patch()),
            low_byte(self.spec_patch()),
        ]
    }

    /// The version that six bytes on the wire stand for.
    pub closed spec fn decoded(bytes: Seq<u8>) -> ProtocolVersion {
        ProtocolVersion {
            major: u16_of_bytes(bytes[0], bytes[1]),
            minor: u16_of_bytes(bytes[2], bytes[3]),
            patch: u16_of_bytes(bytes[4], bytes[5]),
        }
    }

    /// Whether two versions can talk to each other: same major and minor.
    pub open spec fn spec_compatible(self, other: ProtocolVersion) -> bool {
        self.spec_major() == other.spec_major() && self.spec_minor() == other.spec_minor()
    }

    /// The version as `Display` shows it: `major.minor.patch` in decimal.
    pub open spec fn rendered(self) -> Seq<char> {
        dec_digits(self.spec_major() as nat) + "."@ + dec_digits(self.spec_minor() as nat) + "."@
            + dec_digits(self.spec_patch() as nat)
    }

    pub fn new(major: u16, minor: u16, patch: u16) -> (v: ProtocolVersion)
        ensures
            v.spec_major() == major,
            v.spec_minor() == minor,
            v.spec_patch() == patch,
    {
        ProtocolVersion { major, minor, patch }
    }

    pub fn major(&self) -> (m: u16)
        ensures
            m == self.spec_major(),
    {
        self.major
    }

    pub fn minor(&self) -> (m: u16)
        ensures
            m == self.spec_minor(),
    {
        self.minor
    }

    pub fn patch(&self) -> (p: u16)
        ensures
            p == self.spec_patch(),
    {
        self.patch
    }

    /// The six bytes that stand for this version on the wire.
    pub fn to_bytes(&self) -> (bytes: [u8; PROTOCOL_VERSION_SIZE])
        ensures
            bytes@ == self.encoded(),
    {
        let mut bytes = [0u8; PROTOCOL_VERSION_SIZE];
        let major = self.major;
        let minor = self.minor;
        let patch = self.patch;
        proof {
            lemma_u16_split(major);
            lemma_u16_split(minor);
            lemma_u16_split(patch);
        }
        bytes[0] = (major >> 8) as u8;
        bytes[1] = major as u8;
        bytes[2] = (minor >> 8) as u8;
        bytes[3] = minor as u8;
        bytes[4] = (patch >> 8) as u8;
        bytes[5] = patch as u8;
        assert(bytes@ =~= self.encoded());
        bytes
    }

    /// The version that six bytes on the wire stand for.
    pub fn from_bytes(bytes: [u8; PROTOCOL_VERSION_SIZE]) -> (v: ProtocolVersion)
        ensures
            v == ProtocolVersion::decoded(bytes@),
            v.spec_major() == u16_of_bytes(bytes[0], bytes[1]),
            v.spec_minor() == u16_of_bytes(bytes[2], bytes[3]),
            v.spec_patch() == u16_of_bytes(bytes[4], bytes[5]),
    {
        let (b0, b1, b2, b3, b4, b5) = (bytes[0], bytes[1], bytes[2], bytes[3], bytes[4], bytes[5]);
        proof {
            lemma_u16_join(b0, b1);
            lemma_u16_join(b2, b3);
            lemma_u16_join(b4, b5);
        }
        ProtocolVersion {
            major: ((b0 as u16) << 8) | (b1 as u16),
            minor: ((b2 as u16) << 8) | (b3 as u16),
            patch: ((b4 as u16) << 8) | (b5 as u16),
        }
    }

    /// Whether the two versions agree on major and minor.
    pub fn compatible(&self, other: &Self) -> (c: bool)
        ensures
            c == self.spec_compatible(*other),
    {
        self.major == other.major && self.minor == other.minor
    }

    /// The version rendered as `major.minor.patch`.
    pub fn to_string(&self) -> (s: String)
        ensures
            s@ == self.rendered(),
    {
        let mut s = String::new();
        push_decimal(&mut s, self.major as u64);
        push_text(&mut s, ".");
        push_decimal(&mut s, self.minor as u64);
        push_text(&mut s, ".");
        push_decimal(&mut s, self.patch as u64);
        s
    }
}

/// The version of the protocol that this library speaks: 0.1.0.
pub closed spec fn spec_protocol_version() -> ProtocolVersion {
    ProtocolVersion { major: 0, minor: 1, patch: 0 }
}

/// The fields of the version that six bytes stand for.
pub broadcast proof fn lemma_decoded_fields(bytes: Seq<u8>)
    ensures
        #[trigger] ProtocolVersion::decoded(bytes).spec_major() == u16_of_bytes(bytes[0], bytes[1]),
        ProtocolVersion::decoded(bytes).spec_minor() == u16_of_bytes(bytes[2], bytes[3]),
        ProtocolVersion::decoded(bytes).spec_patch() == u16_of_bytes(bytes[4], bytes[5]),
{
}

/// The fields of the version that this library speaks.
pub broadcast proof fn lemma_own_version_fields()
    ensures
        #[trigger] spec_protocol_version().spec_major() == 0,
        spec_protocol_version().spec_minor() == 1,
        spec_protocol_version().spec_patch() == 0,
{
}

/// What a caller needs to know of versions given by bytes and of this
/// library's own version.
pub broadcast group group_version_fields {
    lemma_decoded_fields,
    lemma_own_version_fields,
}

/// The version of the protocol that this library speaks: 0.1.0.
pub fn protocol_version() -> (v: ProtocolVersion)
    ensures
        v == spec_protocol_version(),
        v.spec_major() == 0,
        v.spec_minor() == 1,
        v.spec_patch() == 0,
{
    ProtocolVersion::new(0, 1, 0)
}

/// The bytes that each end sends first: the greeting, then the version of
/// the protocol that it speaks.
pub open spec fn spec_greeting() -> Seq<u8> {
    spec_hello_signal() + spec_protocol_version().encoded()
}

/// The bytes that each end sends first: `b"crabmic"`, then the six bytes of
/// the version 0.1.0.
pub fn greeting() -> (bytes: Vec<u8>)
    ensures
        bytes@ == spec_greeting(),
{
    let mut bytes = crabmic_alpn();
    let version = protocol_version().to_bytes();
    let mut i: usize = 0;
    let ghost start = bytes@;
    while i < PROTOCOL_VERSION_SIZE
        invariant
            i <= PROTOCOL_VERSION_SIZE,
            bytes@ == start + version@.subrange(0, i as int),
        decreases PROTOCOL_VERSION_SIZE - i,
    {
        bytes.push(version[i]);
        assert(version@.subrange(0, i + 1) == version@.subrange(0, i as int).push(version@[i as int]));
        i = i + 1;
    }
    assert(version@.subrange(0, PROTOCOL_VERSION_SIZE as int) == version@);
    bytes
}

/// Whether two byte slices hold the same bytes.
pub(crate) fn same_bytes(a: &[u8], b: &[u8]) -> (same: bool)
    ensures
        same == (a@ == b@),
{
    if a.len() != b.len() {
        return false;
    }
    let mut i: usize = 0;
    while i < a.len()
        invariant
            a.len() == b.len(),
            i <= a.len(),
            a@.subrange(0, i as int) == b@.subrange(0, i as int),
        decreases a.len() - i,
    {
        if a[i] != b[i] {
            assert(a@[i as int] != b@[i as int]);
            return false;
        }
        assert(a@.subrange(0, i + 1) == a@.subrange(0, i as int).push(a@[i as int]));
        assert(b@.subrange(0, i + 1) == b@.subrange(0, i as int).push(b@[i as int]));
        i = i + 1;
    }
    assert(a@ == a@.subrange(0, a.len() as int));
    assert(b@ == b@.subrange(0, b.len() as int));
    true
}

/// Shifting and truncating a 16-bit number gives its high and low bytes.
proof fn lemma_u16_split(x: u16)
    ensures
        (x >> 8) as u8 == high_byte(x),
        x as u8 == low_byte(x),
{
    assert((x >> 8) as u8 == (x / 256) as u8) by (bit_vector);
    assert(x as u8 == (x % 256) as u8) by (bit_vector);
}

/// Shifting the high byte up and or-ing in the low byte gives the number.
proof fn lemma_u16_join(hi: u8, lo: u8)
    ensures
        ((hi as u16) << 8) | (lo as u16) == u16_of_bytes(hi, lo),
{
    assert(((hi as u16) << 8) | (lo as u16) == hi * 256 + lo) by (bit_vector);
}

/// Encoding a version and decoding the bytes gives the version back.
pub proof fn lemma_version_bytes_roundtrip(v: ProtocolVersion)
    ensures
        ProtocolVersion::decoded(v.encoded()) == v,
{
}

/// Decoding six bytes and encoding the version gives the bytes back.
pub proof fn lemma_bytes_version_roundtrip(bytes: Seq<u8>)
    requires
        bytes.len() == PROTOCOL_VERSION_SIZE,
    ensures
        ProtocolVersion::decoded(bytes).encoded() == bytes,
{
    assert(ProtocolVersion::decoded(bytes).encoded() =~= bytes);
}

/// Compatibility is an equivalence: reflexive, symmetric and transitive.
pub proof fn lemma_compatible_equivalence(a: ProtocolVersion, b: ProtocolVersion, c: ProtocolVersion)
    ensures
        a.spec_compatible(a),
        a.spec_compatible(b) == b.spec_compatible(a),
        a.spec_compatible(b) && b.spec_compatible(c) ==> a.spec_compatible(c),
{
}

/// Two versions that differ only in the patch number are compatible.
pub proof fn lemma_patch_does_not_matter(a: ProtocolVersion, b: ProtocolVersion)
    requires
        a.spec_major() == b.spec_major(),
        a.spec_minor() == b.spec_minor(),
    ensures
        a.spec_compatible(b),
{
}

} // verus!
