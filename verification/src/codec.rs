//! Wire codec: keys and framed messages as byte sequences.
//!
//! Every multi-byte field of the protocol is little-endian: the message
//! kind tag, the timestamp, the payload length, a key's length suffix and
//! the frame length prefix all use one byte order.

use vstd::bytes::*;
use vstd::prelude::*;
use vstd::slice::{slice_subrange, slice_to_vec};
use vstd::string::StringSliceAdditionalSpecFns;
use vstd::utf8::valid_utf8;

use crate::KVError;

verus! {

/// Capacity of a key's fixed byte slot.
pub const KEY_CAPACITY: usize = 256;

/// Encoded size of a key: the fixed slot plus an 8-byte length suffix.
pub const KEY_ENCODED_LEN: usize = 264;

/// A key: a fixed-capacity byte slot plus an explicit logical length.
///
/// Only the length-bounded prefix is the key; slot bytes past the logical
/// length are kept zero, so equality over the prefix and equality over the
/// whole slot coincide.
#[derive(Debug)]
pub struct KVKey {
    data: Vec<u8>,
    len: usize,
}

impl View for KVKey {
    type V = Seq<u8>;

    /// The logical content of the key: the length-bounded prefix.
    closed spec fn view(&self) -> Seq<u8> {
        self.data@.take(self.len as int)
    }
}

/// Encoding of a key's logical bytes: the bytes, zero padding up to the
/// fixed slot size, then the length as a little-endian 8-byte suffix.
pub open spec fn spec_encode_key(s: Seq<u8>) -> Seq<u8>
    recommends
        s.len() <= KEY_CAPACITY,
{
    s + Seq::new((KEY_CAPACITY - s.len()) as nat, |i: int| 0u8) + spec_u64_to_le_bytes(
        s.len() as u64,
    )
}

/// Decoding of a key from bytes: at least the full encoded size must be
/// present and the length suffix must fit the slot; trailing bytes and
/// slot bytes past the decoded length are ignored.
pub open spec fn spec_decode_key(b: Seq<u8>) -> Option<Seq<u8>> {
    if b.len() < KEY_ENCODED_LEN {
        None
    } else {
        let klen = spec_u64_from_le_bytes(b.subrange(KEY_CAPACITY as int, KEY_ENCODED_LEN as int));
        if klen > KEY_CAPACITY {
            None
        } else {
            Some(b.take(klen as int))
        }
    }
}

impl KVKey {
    /// Well-formed: the slot is full-sized, the logical length fits it,
    /// and slot bytes past the logical length are zero.
    pub closed spec fn wf(&self) -> bool {
        &&& self.data@.len() == KEY_CAPACITY
        &&& self.len <= KEY_CAPACITY
        &&& forall|i: int| self.len <= i < KEY_CAPACITY ==> self.data@[i] == 0
    }

    /// Builds a key from a string; fails when the string's bytes exceed
    /// the slot capacity.
    pub fn new(s: &str) -> (r: Result<KVKey, KVError>)
        ensures
            s.spec_bytes().len() > KEY_CAPACITY ==> (r matches Err(e) && e
                == KVError::MalformedKey),
            s.spec_bytes().len() <= KEY_CAPACITY ==> (r matches Ok(k) && k.wf() && k@
                == s.spec_bytes()),
    {
        let bytes: &[u8] = s.as_bytes();
        let klen: usize = bytes.len();
        if klen > KEY_CAPACITY {
            return Err(KVError::MalformedKey);
        }
        let mut data: Vec<u8> = slice_to_vec(bytes);
        while data.len() < KEY_CAPACITY
            invariant
                klen <= data@.len() <= KEY_CAPACITY,
                data@.take(klen as int) == s.spec_bytes(),
                forall|i: int| klen <= i < data@.len() ==> data@[i] == 0,
            decreases KEY_CAPACITY - data@.len(),
        {
            data.push(0u8);
            proof {
                assert(data@.take(klen as int) =~= s.spec_bytes());
            }
        }
        let k = KVKey { data, len: klen };
        proof {
            assert(k@ =~= s.spec_bytes());
        }
        Ok(k)
    }

    /// The key's logical prefix as a string slice.
    ///
    /// The prefix must be valid UTF-8; a key built by [`KVKey::new`]
    /// always is.
    pub fn as_str(&self) -> (r: &str)
        requires
            self.wf(),
            valid_utf8(self@),
        ensures
            r.spec_bytes() == self@,
    {
        let prefix: &[u8] = slice_subrange(self.data.as_slice(), 0, self.len);
        match bytes_as_str(prefix) {
            Some(s) => s,
            None => {
                proof {
                    assert(false);
                }
                ""
            },
        }
    }

    /// Serializes the key: the fixed slot followed by the little-endian
    /// length suffix.
    pub fn to_bytes(&self) -> (r: Vec<u8>)
        requires
            self.wf(),
        ensures
            r@ == spec_encode_key(self@),
            r@.len() == KEY_ENCODED_LEN,
    {
        let mut bytes: Vec<u8> = slice_to_vec(self.data.as_slice());
        let mut suffix: Vec<u8> = u64_to_le_bytes(self.len as u64);
        bytes.append(&mut suffix);
        proof {
            lemma_auto_spec_u64_to_from_le_bytes();
            assert(bytes@ =~= spec_encode_key(self@));
        }
        bytes
    }

    /// Deserializes a key; fails with `MalformedKey` when fewer than the
    /// full encoded size is present or the length suffix exceeds the slot
    /// capacity.
    pub fn from_bytes(bytes: &[u8]) -> (r: Result<KVKey, KVError>)
        ensures
            match r {
                Ok(k) => spec_decode_key(bytes@) == Some(k@) && k.wf(),
                Err(e) => spec_decode_key(bytes@) is None && e == KVError::MalformedKey,
            },
    {
        if bytes.len() < KEY_ENCODED_LEN {
            return Err(KVError::MalformedKey);
        }
        let suffix: &[u8] = slice_subrange(bytes, KEY_CAPACITY, KEY_ENCODED_LEN);
        let klen64: u64 = u64_from_le_bytes(suffix);
        if klen64 > KEY_CAPACITY as u64 {
            return Err(KVError::MalformedKey);
        }
        let klen: usize = klen64 as usize;
        let mut data: Vec<u8> = slice_to_vec(slice_subrange(bytes, 0, klen));
        while data.len() < KEY_CAPACITY
            invariant
                klen <= data@.len() <= KEY_CAPACITY,
                data@.take(klen as int) == bytes@.take(klen as int),
                forall|i: int| klen <= i < data@.len() ==> data@[i] == 0,
            decreases KEY_CAPACITY - data@.len(),
        {
            data.push(0u8);
            proof {
                assert(data@.take(klen as int) =~= bytes@.take(klen as int));
            }
        }
        let k = KVKey { data, len: klen };
        proof {
            assert(k@ =~= bytes@.take(klen as int));
        }
        Ok(k)
    }
}

impl PartialEq for KVKey {
    /// Keys are equal exactly when their logical prefixes are.  Slot
    /// bytes past the logical length are kept zero, so comparing the
    /// whole slot decides prefix equality.
    fn eq(&self, other: &KVKey) -> (r: bool) {
        if self.len != other.len {
            return false;
        }
        let same = self.data == other.data;
        proof {
            if same {
                assert(self.data@ =~= other.data@);
            } else if self.data@ == other.data@ {
                assert(same);
            }
        }
        same
    }
}

impl vstd::std_specs::cmp::PartialEqSpecImpl for KVKey {
    closed spec fn obeys_eq_spec() -> bool {
        true
    }

    closed spec fn eq_spec(&self, other: &KVKey) -> bool {
        self.len == other.len && self.data@ == other.data@
    }
}

/// What `==` means on well-formed keys: equality of the logical prefixes.
pub proof fn lemma_key_eq_is_prefix_eq(a: &KVKey, b: &KVKey)
    requires
        a.wf(),
        b.wf(),
    ensures
        vstd::std_specs::cmp::PartialEqSpec::eq_spec(a, b) <==> a@ == b@,
{
    if a@ == b@ {
        assert(a@.len() == a.len && b@.len() == b.len);
        assert forall|i: int| 0 <= i < KEY_CAPACITY implies a.data@[i] == b.data@[i] by {
            if i < a.len {
                assert(a@[i] == a.data@[i]);
                assert(b@[i] == b.data@[i]);
            }
        }
        assert(a.data@ =~= b.data@);
    }
}

/// Relies on core::str::from_utf8: it succeeds exactly on valid UTF-8,
/// and the returned string slice views the same bytes.
#[verifier::external_body]
fn bytes_as_str(v: &[u8]) -> (r: Option<&str>)
    ensures
        match r {
            Some(s) => valid_utf8(v@) && s.spec_bytes() =~= v@,
            None => !valid_utf8(v@),
        },
{
    core::str::from_utf8(v).ok()
}

/// Byte offset of the timestamp seconds field in an encoded message.
pub const MSG_SECS_OFFSET: usize = 4;

/// Byte offset of the timestamp nanoseconds field in an encoded message.
pub const MSG_NANOS_OFFSET: usize = 12;

/// Byte offset of the payload length field in an encoded message.
pub const MSG_LEN_OFFSET: usize = 16;

/// Size of an encoded message header: kind tag, seconds, nanoseconds and
/// payload length.
pub const MSG_HEADER_LEN: usize = 24;

/// The kind of a protocol message: three request kinds and the reply kind
/// belonging to each.
#[derive(Clone, Copy, PartialEq, Eq, Structural, Debug)]
pub enum KVMsgType {
    Get,
    SetOp,
    Delete,
    GetReturn,
    SetReturn,
    DeleteReturn,
}

impl KVMsgType {
    /// The tag under which this kind travels on the wire.
    pub open spec fn spec_tag(self) -> u32 {
        match self {
            KVMsgType::Get => 0,
            KVMsgType::SetOp => 1,
            KVMsgType::Delete => 2,
            KVMsgType::GetReturn => 3,
            KVMsgType::SetReturn => 4,
            KVMsgType::DeleteReturn => 5,
        }
    }

    /// Executable counterpart of [`KVMsgType::spec_tag`].
    pub fn to_u32(self) -> (r: u32)
        ensures
            r == self.spec_tag(),
    {
        match self {
            KVMsgType::Get => 0,
            KVMsgType::SetOp => 1,
            KVMsgType::Delete => 2,
            KVMsgType::GetReturn => 3,
            KVMsgType::SetReturn => 4,
            KVMsgType::DeleteReturn => 5,
        }
    }

    /// Converts a wire tag to a message kind; fails on an unknown tag.
    pub fn from_u32(val: u32) -> (r: Result<KVMsgType, KVError>)
        ensures
            match r {
                Ok(k) => spec_kind_of_tag(val) == Some(k),
                Err(e) => spec_kind_of_tag(val) is None && e == KVError::MalformedFrame,
            },
    {
        match val {
            0 => Ok(KVMsgType::Get),
            1 => Ok(KVMsgType::SetOp),
            2 => Ok(KVMsgType::Delete),
            3 => Ok(KVMsgType::GetReturn),
            4 => Ok(KVMsgType::SetReturn),
            5 => Ok(KVMsgType::DeleteReturn),
            _ => Err(KVError::MalformedFrame),
        }
    }
}

/// The message kind a wire tag stands for, if any.
pub open spec fn spec_kind_of_tag(val: u32) -> Option<KVMsgType> {
    if val == 0 {
        Some(KVMsgType::Get)
    } else if val == 1 {
        Some(KVMsgType::SetOp)
    } else if val == 2 {
        Some(KVMsgType::Delete)
    } else if val == 3 {
        Some(KVMsgType::GetReturn)
    } else if val == 4 {
        Some(KVMsgType::SetReturn)
    } else if val == 5 {
        Some(KVMsgType::DeleteReturn)
    } else {
        None
    }
}

/// The mathematical content of a message: kind, timestamp and payload.
pub struct MsgModel {
    pub kind: KVMsgType,
    pub secs: u64,
    pub nanos: u32,
    pub payload: Seq<u8>,
}

/// A protocol message: a kind, the creation timestamp (seconds and
/// sub-second nanoseconds since the Unix epoch) and an opaque payload.
#[derive(Debug)]
pub struct KVMsg {
    pub msgtype: KVMsgType,
    pub sendtime_secs: u64,
    pub sendtime_nanos: u32,
    pub msg: Vec<u8>,
}

impl View for KVMsg {
    type V = MsgModel;

    open spec fn view(&self) -> MsgModel {
        MsgModel {
            kind: self.msgtype,
            secs: self.sendtime_secs,
            nanos: self.sendtime_nanos,
            payload: self.msg@,
        }
    }
}

/// Encoding of a message: little-endian kind tag, seconds, nanoseconds and
/// payload length, then the raw payload bytes.
pub open spec fn spec_encode_msg(m: MsgModel) -> Seq<u8>
    recommends
        m.payload.len() <= u64::MAX,
{
    spec_u32_to_le_bytes(m.kind.spec_tag()) + spec_u64_to_le_bytes(m.secs) + spec_u32_to_le_bytes(
        m.nanos,
    ) + spec_u64_to_le_bytes(m.payload.len() as u64) + m.payload
}

/// Decoding of a message from bytes.  It fails when fewer than the header
/// size is present, when the kind tag is unknown, or when the declared
/// payload length exceeds the bytes actually supplied; it never reads past
/// the declared payload boundary.
pub open spec fn spec_decode_msg(b: Seq<u8>) -> Option<MsgModel> {
    if b.len() < MSG_HEADER_LEN {
        None
    } else {
        let tag = spec_u32_from_le_bytes(b.subrange(0, MSG_SECS_OFFSET as int));
        match spec_kind_of_tag(tag) {
            None => None,
            Some(kind) => {
                let plen = spec_u64_from_le_bytes(
                    b.subrange(MSG_LEN_OFFSET as int, MSG_HEADER_LEN as int),
                );
                if b.len() < MSG_HEADER_LEN + plen {
                    None
                } else {
                    Some(
                        MsgModel {
                            kind,
                            secs: spec_u64_from_le_bytes(
                                b.subrange(MSG_SECS_OFFSET as int, MSG_NANOS_OFFSET as int),
                            ),
                            nanos: spec_u32_from_le_bytes(
                                b.subrange(MSG_NANOS_OFFSET as int, MSG_LEN_OFFSET as int),
                            ),
                            payload: b.subrange(
                                MSG_HEADER_LEN as int,
                                MSG_HEADER_LEN + plen as int,
                            ),
                        },
                    )
                }
            },
        }
    }
}

impl KVMsg {
    /// Builds a message of the given kind and payload, stamped with the
    /// current Unix time.
    pub fn new(msgtype: KVMsgType, msg: Vec<u8>) -> (r: KVMsg)
        ensures
            r.msgtype == msgtype,
            r.msg@ == msg@,
            r.sendtime_nanos < 1_000_000_000,
    {
        let (secs, nanos) = unix_now();
        KVMsg { msgtype, sendtime_secs: secs, sendtime_nanos: nanos, msg }
    }

    /// Serializes the message in the fixed field order.
    pub fn to_bytes(&self) -> (r: Vec<u8>)
        ensures
            r@ == spec_encode_msg(self@),
            r@.len() == MSG_HEADER_LEN + self.msg@.len(),
    {
        let mut bytes: Vec<u8> = u32_to_le_bytes(self.msgtype.to_u32());
        let mut secs: Vec<u8> = u64_to_le_bytes(self.sendtime_secs);
        let mut nanos: Vec<u8> = u32_to_le_bytes(self.sendtime_nanos);
        let mut plen: Vec<u8> = u64_to_le_bytes(self.msg.len() as u64);
        let mut payload: Vec<u8> = slice_to_vec(self.msg.as_slice());
        bytes.append(&mut secs);
        bytes.append(&mut nanos);
        bytes.append(&mut plen);
        bytes.append(&mut payload);
        bytes
    }

    /// Deserializes a message; fails with `MalformedFrame` when fewer than
    /// the header size is present, when the declared payload length exceeds
    /// the bytes supplied, or when the kind tag is unknown.  Trailing bytes
    /// past the declared payload are ignored.
    pub fn from_bytes(bytes: &[u8]) -> (r: Result<KVMsg, KVError>)
        ensures
            match r {
                Ok(m) => spec_decode_msg(bytes@) == Some(m@),
                Err(e) => spec_decode_msg(bytes@) is None && e == KVError::MalformedFrame,
            },
    {
        if bytes.len() < MSG_HEADER_LEN {
            return Err(KVError::MalformedFrame);
        }
        let tag: u32 = u32_from_le_bytes(slice_subrange(bytes, 0, MSG_SECS_OFFSET));
        let msgtype: KVMsgType = match KVMsgType::from_u32(tag) {
            Ok(k) => k,
            Err(e) => {
                return Err(e);
            },
        };
        let secs: u64 = u64_from_le_bytes(slice_subrange(bytes, MSG_SECS_OFFSET, MSG_NANOS_OFFSET));
        let nanos: u32 = u32_from_le_bytes(slice_subrange(bytes, MSG_NANOS_OFFSET, MSG_LEN_OFFSET));
        let plen64: u64 = u64_from_le_bytes(slice_subrange(bytes, MSG_LEN_OFFSET, MSG_HEADER_LEN));
        if plen64 > (bytes.len() - MSG_HEADER_LEN) as u64 {
            return Err(KVError::MalformedFrame);
        }
        let plen: usize = plen64 as usize;
        let msg: Vec<u8> = slice_to_vec(slice_subrange(bytes, MSG_HEADER_LEN, MSG_HEADER_LEN + plen));
        Ok(KVMsg { msgtype, sendtime_secs: secs, sendtime_nanos: nanos, msg })
    }
}

/// Relies on std::time::SystemTime::now and duration_since: the current
/// Unix time as whole seconds and sub-second nanoseconds; the nanosecond
/// part of a duration is below one billion.  A clock before the epoch is
/// reported as the epoch itself.
#[verifier::external_body]
fn unix_now() -> (r: (u64, u32))
    ensures
        r.1 < 1_000_000_000,
{
    match std::time::SystemTime::now().duration_since(std::time::UNIX_EPOCH) {
        Ok(d) => (d.as_secs(), d.subsec_nanos()),
        Err(_) => (0, 0),
    }
}

/// Round trip: decoding an encoded message reproduces its kind, both
/// timestamp components and the exact payload bytes.
pub proof fn lemma_msg_round_trip(m: MsgModel)
    requires
        m.payload.len() <= u64::MAX,
    ensures
        spec_decode_msg(spec_encode_msg(m)) == Some(m),
{
    lemma_auto_spec_u32_to_from_le_bytes();
    lemma_auto_spec_u64_to_from_le_bytes();
    let b = spec_encode_msg(m);
    assert(b.subrange(0, MSG_SECS_OFFSET as int) =~= spec_u32_to_le_bytes(m.kind.spec_tag()));
    assert(b.subrange(MSG_SECS_OFFSET as int, MSG_NANOS_OFFSET as int) =~= spec_u64_to_le_bytes(
        m.secs,
    ));
    assert(b.subrange(MSG_NANOS_OFFSET as int, MSG_LEN_OFFSET as int) =~= spec_u32_to_le_bytes(
        m.nanos,
    ));
    assert(b.subrange(MSG_LEN_OFFSET as int, MSG_HEADER_LEN as int) =~= spec_u64_to_le_bytes(
        m.payload.len() as u64,
    ));
    assert(b.subrange(MSG_HEADER_LEN as int, MSG_HEADER_LEN + m.payload.len() as int)
        =~= m.payload);
}

/// A buffer shorter than the message header, or one whose declared payload
/// length exceeds the bytes actually supplied, never decodes.
pub proof fn lemma_truncated_frame_rejected(b: Seq<u8>)
    ensures
        b.len() < MSG_HEADER_LEN ==> spec_decode_msg(b) is None,
        b.len() >= MSG_HEADER_LEN && MSG_HEADER_LEN + spec_u64_from_le_bytes(
            b.subrange(MSG_LEN_OFFSET as int, MSG_HEADER_LEN as int),
        ) > b.len() ==> spec_decode_msg(b) is None,
{
}

/// Round trip: decoding an encoded key gives back its logical bytes.
pub proof fn lemma_key_round_trip(s: Seq<u8>)
    requires
        s.len() <= KEY_CAPACITY,
    ensures
        spec_decode_key(spec_encode_key(s)) == Some(s),
{
    lemma_auto_spec_u64_to_from_le_bytes();
    let b = spec_encode_key(s);
    assert(b.subrange(KEY_CAPACITY as int, KEY_ENCODED_LEN as int) =~= spec_u64_to_le_bytes(
        s.len() as u64,
    ));
    assert(b.take(s.len() as int) =~= s);
}

} // verus!
