//! The block header digest as the pallet reads it: which consensus engines left
//! pre-runtime digests, and the slot that the AURA pre-runtime digest carries.

use parity_scale_codec::Decode;
use vstd::prelude::*;

verus! {

/// A consensus engine identifier: four bytes, such as `b"aura"` or `b"BABE"`.
pub type EngineId = [u8; 4];

/// One item of a block header digest.
#[derive(Debug)]
pub enum DigestLog {
    /// A message from the consensus engine to the runtime.
    PreRuntime(EngineId, Vec<u8>),
    /// A message from the runtime to the consensus engine.
    Consensus(EngineId, Vec<u8>),
    /// A seal added by the block author.
    Seal(EngineId, Vec<u8>),
    /// Some other item.
    Other(Vec<u8>),
    /// The runtime execution environment was updated.
    RuntimeEnvironmentUpdated,
}

/// The bytes of AURA's engine identifier, `b"aura"`.
pub open spec fn aura_engine_id_bytes() -> Seq<u8> {
    seq![0x61u8, 0x75u8, 0x72u8, 0x61u8]
}

/// The bytes of BABE's engine identifier, `b"BABE"`.
pub open spec fn babe_engine_id_bytes() -> Seq<u8> {
    seq![0x42u8, 0x41u8, 0x42u8, 0x45u8]
}

/// The unsigned integer whose little-endian encoding starts `bytes` (its first
/// eight bytes).
pub open spec fn u64_from_le_bytes(bytes: Seq<u8>) -> int {
    bytes[0] + bytes[1] * 0x100 + bytes[2] * 0x1_0000 + bytes[3] * 0x100_0000 + bytes[4]
        * 0x1_0000_0000 + bytes[5] * 0x100_0000_0000 + bytes[6] * 0x1_0000_0000_0000 + bytes[7]
        * 0x100_0000_0000_0000
}

/// `log` is a pre-runtime digest left by the engine whose identifier is `engine`.
pub open spec fn is_pre_runtime_of(log: DigestLog, engine: Seq<u8>) -> bool {
    log matches DigestLog::PreRuntime(id, _) && id@ == engine
}

/// Some item of `logs` is a pre-runtime digest left by `engine`.
pub open spec fn has_pre_runtime_of(logs: Seq<DigestLog>, engine: Seq<u8>) -> bool {
    exists|i: int| 0 <= i < logs.len() && #[trigger] is_pre_runtime_of(logs[i], engine)
}

/// The slot that `log` announces: `log` is an AURA pre-runtime digest whose data
/// holds an encoded slot (at least eight bytes; any further bytes are ignored).
pub open spec fn aura_slot_of(log: DigestLog) -> Option<u64> {
    match log {
        DigestLog::PreRuntime(id, data) => if id@ == aura_engine_id_bytes() && data@.len() >= 8 {
            Some(u64_from_le_bytes(data@) as u64)
        } else {
            None
        },
        _ => None,
    }
}

/// The slot announced by the first item of `logs`, from index `i` on, that
/// announces one.
pub open spec fn aura_slot_from(logs: Seq<DigestLog>, i: int) -> Option<u64>
    decreases logs.len() - i,
{
    if i >= logs.len() {
        None
    } else if aura_slot_of(logs[i]) is Some {
        aura_slot_of(logs[i])
    } else {
        aura_slot_from(logs, i + 1)
    }
}

/// The current slot as the AURA pre-runtime digest announces it: that of the
/// first AURA pre-runtime item whose data decodes to a slot.
pub open spec fn aura_slot(logs: Seq<DigestLog>) -> Option<u64> {
    aura_slot_from(logs, 0)
}

/// The identifier of the AURA consensus engine.
///
/// Trusted: `sp_consensus_aura::AURA_ENGINE_ID`, declared there as
/// `[b'a', b'u', b'r', b'a']`.
#[verifier::external_body]
fn aura_engine_id() -> (id: EngineId)
    ensures
        id@ == aura_engine_id_bytes(),
{
    sp_consensus_aura::AURA_ENGINE_ID
}

/// The identifier of the BABE consensus engine.
///
/// Trusted: `sp_consensus_babe::BABE_ENGINE_ID`, declared there as `*b"BABE"`.
#[verifier::external_body]
fn babe_engine_id() -> (id: EngineId)
    ensures
        id@ == babe_engine_id_bytes(),
{
    sp_consensus_babe::BABE_ENGINE_ID
}

/// Decodes a slot from the front of `data`.
///
/// Trusted: `sp_consensus_slots::Slot::decode` (the SCALE decoding of the `u64`
/// that `Slot` wraps), read through `From<Slot> for u64`. The codec reads the
/// first eight bytes as a little-endian `u64` and fails when fewer than eight
/// bytes remain; bytes after the eighth are left unread.
#[verifier::external_body]
fn decode_slot(data: &[u8]) -> (slot: Option<u64>)
    ensures
        data@.len() >= 8 ==> slot is Some && slot->0 as int == u64_from_le_bytes(data@),
        data@.len() < 8 ==> slot is None,
{
    let mut input: &[u8] = data;
    sp_consensus_slots::Slot::decode(&mut input).ok().map(u64::from)
}

/// A pre-runtime item of `engine`, at any position of the digest, is detected.
pub proof fn lemma_pre_runtime_detected_at_any_position(logs: Seq<DigestLog>, i: int, engine: Seq<u8>)
    requires
        0 <= i < logs.len(),
        logs[i] matches DigestLog::PreRuntime(id, _) && id@ == engine,
    ensures
        has_pre_runtime_of(logs, engine),
{
    assert(is_pre_runtime_of(logs[i], engine));
}

/// Detection, item by item: the empty digest carries no pre-runtime item, and
/// a digest carries one of `engine` exactly when its first item is one or the
/// rest carries one.
pub proof fn lemma_pre_runtime_detection_by_items(x: DigestLog, rest: Seq<DigestLog>, engine: Seq<u8>)
    ensures
        !has_pre_runtime_of(Seq::<DigestLog>::empty(), engine),
        has_pre_runtime_of(seq![x] + rest, engine) <==> ((x matches DigestLog::PreRuntime(id, _)
            && id@ == engine) || has_pre_runtime_of(rest, engine)),
{
    let logs = seq![x] + rest;
    assert(logs[0] == x);
    if has_pre_runtime_of(logs, engine) {
        let i = choose|i: int| 0 <= i < logs.len() && #[trigger] is_pre_runtime_of(logs[i], engine);
        if i > 0 {
            assert(logs[i] == rest[i - 1]);
            assert(is_pre_runtime_of(rest[i - 1], engine));
        }
    }
    if has_pre_runtime_of(rest, engine) {
        let j = choose|j: int| 0 <= j < rest.len() && #[trigger] is_pre_runtime_of(rest[j], engine);
        assert(logs[j + 1] == rest[j]);
        assert(is_pre_runtime_of(logs[j + 1], engine));
    }
    if x matches DigestLog::PreRuntime(id, _) && id@ == engine {
        assert(is_pre_runtime_of(logs[0], engine));
    }
}

/// A digest carries a BABE pre-runtime item exactly when some item, at any
/// position, is a pre-runtime item whose engine identifier is `b"BABE"`.
pub proof fn lemma_babe_pre_digest_anywhere(logs: Seq<DigestLog>)
    ensures
        has_pre_runtime_of(logs, babe_engine_id_bytes()) <==> exists|i: int|
            #![trigger logs[i]]
            0 <= i < logs.len() && (logs[i] matches DigestLog::PreRuntime(id, _) && id@ == seq![
                0x42u8,
                0x41u8,
                0x42u8,
                0x45u8,
            ]),
{
    if has_pre_runtime_of(logs, babe_engine_id_bytes()) {
        let i = choose|i: int|
            0 <= i < logs.len() && #[trigger] is_pre_runtime_of(logs[i], babe_engine_id_bytes());
        assert(logs[i] matches DigestLog::PreRuntime(id, _) && id@ == seq![
            0x42u8,
            0x41u8,
            0x42u8,
            0x45u8,
        ]);
    }
    if exists|i: int|
        #![trigger logs[i]]
        0 <= i < logs.len() && (logs[i] matches DigestLog::PreRuntime(id, _) && id@ == seq![
            0x42u8,
            0x41u8,
            0x42u8,
            0x45u8,
        ]) {
        let i = choose|i: int|
            #![trigger logs[i]]
            0 <= i < logs.len() && (logs[i] matches DigestLog::PreRuntime(id, _) && id@ == seq![
                0x42u8,
                0x41u8,
                0x42u8,
                0x45u8,
            ]);
        assert(is_pre_runtime_of(logs[i], babe_engine_id_bytes()));
    }
}

proof fn lemma_aura_slot_from_shift(x: DigestLog, rest: Seq<DigestLog>, i: int)
    requires
        0 <= i,
    ensures
        aura_slot_from(seq![x] + rest, i + 1) == aura_slot_from(rest, i),
    decreases rest.len() - i,
{
    let logs = seq![x] + rest;
    if i < rest.len() {
        assert(logs[i + 1] == rest[i]);
        lemma_aura_slot_from_shift(x, rest, i + 1);
    }
}

/// The slot a digest announces, item by item: the empty digest announces none;
/// a first item that is an AURA (`b"aura"`) pre-runtime item with at least
/// eight bytes of data announces the little-endian value of its first eight
/// bytes, whatever follows; any other first item is skipped.
pub proof fn lemma_aura_slot_by_items(x: DigestLog, rest: Seq<DigestLog>)
    ensures
        aura_slot(Seq::<DigestLog>::empty()) is None,
        (match x {
            DigestLog::PreRuntime(id, data) => id@ == seq![0x61u8, 0x75u8, 0x72u8, 0x61u8]
                && data@.len() >= 8 ==> aura_slot(seq![x] + rest) is Some && aura_slot(seq![x]
                + rest)->0 as int == data@[0] + data@[1] * 0x100 + data@[2] * 0x1_0000 + data@[3]
                * 0x100_0000 + data@[4] * 0x1_0000_0000 + data@[5] * 0x100_0000_0000 + data@[6]
                * 0x1_0000_0000_0000 + data@[7] * 0x100_0000_0000_0000,
            _ => true,
        }),
        !(x matches DigestLog::PreRuntime(id, data) && id@ == seq![0x61u8, 0x75u8, 0x72u8, 0x61u8]
            && data@.len() >= 8) ==> aura_slot(seq![x] + rest) == aura_slot(rest),
{
    let logs = seq![x] + rest;
    assert(logs[0] == x);
    lemma_aura_slot_from_shift(x, rest, 0);
}

/// Two engine identifiers are the same four bytes.
fn same_engine(a: &EngineId, b: &EngineId) -> (same: bool)
    ensures
        same == (a@ == b@),
{
    let same = a[0] == b[0] && a[1] == b[1] && a[2] == b[2] && a[3] == b[3];
    proof {
        if same {
            assert(a@ =~= b@);
        }
    }
    same
}

/// Whether the digest carries a BABE pre-runtime item.
pub fn has_babe_pre_digest(logs: &[DigestLog]) -> (found: bool)
    ensures
        found == has_pre_runtime_of(logs@, babe_engine_id_bytes()),
{
    let babe = babe_engine_id();
    let mut i: usize = 0;
    while i < logs.len()
        invariant
            i <= logs@.len(),
            babe@ == babe_engine_id_bytes(),
            forall|j: int| 0 <= j < i ==> !is_pre_runtime_of(#[trigger] logs@[j], babe_engine_id_bytes()),
        decreases logs@.len() - i,
    {
        if let DigestLog::PreRuntime(id, _) = &logs[i] {
            if same_engine(id, &babe) {
                assert(is_pre_runtime_of(logs@[i as int], babe_engine_id_bytes()));
                return true;
            }
        }
        i = i + 1;
    }
    false
}

/// The current slot, read from the AURA pre-runtime digest: that of the first
/// AURA pre-runtime item whose data decodes to a slot, or `None` when there is
/// no such item.
pub fn current_slot_from_aura_digest(logs: &[DigestLog]) -> (slot: Option<u64>)
    ensures
        slot == aura_slot(logs@),
{
    let aura = aura_engine_id();
    let mut i: usize = 0;
    while i < logs.len()
        invariant
            i <= logs@.len(),
            aura@ == aura_engine_id_bytes(),
            aura_slot(logs@) == aura_slot_from(logs@, i as int),
        decreases logs@.len() - i,
    {
        if let DigestLog::PreRuntime(id, data) = &logs[i] {
            if same_engine(id, &aura) {
                let decoded = decode_slot(data.as_slice());
                if decoded.is_some() {
                    return decoded;
                }
            }
        }
        i = i + 1;
    }
    None
}

} // verus!
