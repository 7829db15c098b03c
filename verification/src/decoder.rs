//! The event decoder: fixed-width slot encoding of a log payload. Each field
//! occupies one 32-byte slot; an address sits right-aligned behind twelve zero
//! bytes, an unsigned 256-bit word fills its slot. Decoding is positional
//! against an ordered schema and is all-or-nothing.

use vstd::prelude::*;
use crate::types::{Address, DecodeError, Uint256};

verus! {

/// The declared kind of one schema position.
#[derive(Clone, Copy, PartialEq, Eq, Structural, Debug)]
pub enum ParamKind {
    Address,
    Uint256,
}

/// One decoded field: its kind and its value.
#[derive(Debug, PartialEq, Eq)]
pub enum DecodedValue {
    AddressValue(Address),
    UintValue(Uint256),
}

impl DecodedValue {
    pub open spec fn kind(self) -> ParamKind {
        match self {
            DecodedValue::AddressValue(_) => ParamKind::Address,
            DecodedValue::UintValue(_) => ParamKind::Uint256,
        }
    }

    /// The field's own bytes: 20 for an address, 32 for a word.
    pub open spec fn field_view(self) -> Seq<u8> {
        match self {
            DecodedValue::AddressValue(a) => a@,
            DecodedValue::UintValue(u) => u@,
        }
    }

    pub open spec fn wf(self) -> bool {
        match self {
            DecodedValue::AddressValue(a) => a.wf(),
            DecodedValue::UintValue(u) => u.wf(),
        }
    }
}

/// Byte `k` (0 <= k < 32) of the slot a well-formed value encodes to.
pub open spec fn slot_byte(v: DecodedValue, k: int) -> u8 {
    match v {
        DecodedValue::AddressValue(a) => if k < 12 {
            0u8
        } else {
            a@[k - 12]
        },
        DecodedValue::UintValue(u) => u@[k],
    }
}

/// The whole encoded payload: one 32-byte slot per field, in order.
pub open spec fn encoded(fields: Seq<DecodedValue>) -> Seq<u8> {
    Seq::new((fields.len() * 32) as nat, |j: int| slot_byte(fields[j / 32], j % 32))
}

/// Slot `i` of a payload.
pub open spec fn slot_at(payload: Seq<u8>, i: int) -> Seq<u8> {
    payload.subrange(32 * i, 32 * i + 32)
}

/// Whether a 32-byte slot converts to the given kind: an address slot must
/// carry twelve zero padding bytes; any slot is a valid word.
pub open spec fn slot_ok(slot: Seq<u8>, kind: ParamKind) -> bool {
    match kind {
        ParamKind::Address => forall|m: int| 0 <= m < 12 ==> slot[m] == 0u8,
        ParamKind::Uint256 => true,
    }
}

/// The field bytes a 32-byte slot decodes to under the given kind.
pub open spec fn field_of(slot: Seq<u8>, kind: ParamKind) -> Seq<u8> {
    match kind {
        ParamKind::Address => slot.subrange(12, 32),
        ParamKind::Uint256 => slot,
    }
}

/// A payload decodes under a schema: aligned, slot count equal to the schema
/// length, and every slot convertible to its declared kind.
pub open spec fn decode_ok(payload: Seq<u8>, schema: Seq<ParamKind>) -> bool {
    &&& payload.len() % 32 == 0
    &&& payload.len() == 32 * schema.len()
    &&& forall|i: int| 0 <= i < schema.len() ==> slot_ok(#[trigger] slot_at(payload, i), schema[i])
}

/// The decoded fields are exactly the slots of the payload read under the
/// schema, kind by kind.
pub open spec fn decoded_fields(
    fields: Seq<DecodedValue>,
    payload: Seq<u8>,
    schema: Seq<ParamKind>,
) -> bool {
    &&& fields.len() == schema.len()
    &&& forall|i: int| 0 <= i < schema.len() ==> (#[trigger] fields[i]).kind() == schema[i]
    &&& forall|i: int| 0 <= i < schema.len() ==> (#[trigger] fields[i]).field_view() == field_of(
        slot_at(payload, i),
        schema[i],
    )
    &&& forall|i: int| 0 <= i < schema.len() ==> (#[trigger] fields[i]).wf()
}

/// Which shape fault a payload fails with under a schema, error by error.
pub open spec fn decode_fails_with(
    payload: Seq<u8>,
    schema: Seq<ParamKind>,
    e: DecodeError,
) -> bool {
    match e {
        DecodeError::LengthNotAligned => payload.len() % 32 != 0,
        DecodeError::SlotCountMismatch => payload.len() % 32 == 0 && payload.len() != 32
            * schema.len(),
        DecodeError::FieldMiscast => payload.len() % 32 == 0 && payload.len() == 32 * schema.len()
            && exists|i: int|
            0 <= i < schema.len() && !slot_ok(#[trigger] slot_at(payload, i), schema[i]),
    }
}

proof fn lemma_slot_index(i: int, m: int)
    requires
        0 <= m < 32,
    ensures
        (32 * i + m) / 32 == i,
        (32 * i + m) % 32 == m,
{
    assert((32 * i + m) / 32 == i && (32 * i + m) % 32 == m) by (nonlinear_arith)
        requires 0 <= m < 32;
}

/// Appends the 32-byte slot of one well-formed value.
fn push_slot(out: &mut Vec<u8>, v: &DecodedValue)
    requires
        v.wf(),
        old(out)@.len() + 32 <= usize::MAX,
    ensures
        final(out)@.len() == old(out)@.len() + 32,
        forall|j: int| 0 <= j < old(out)@.len() ==> final(out)@[j] == old(out)@[j],
        forall|j: int|
            old(out)@.len() <= j < old(out)@.len() + 32 ==> final(out)@[j] == slot_byte(
                *v,
                j - old(out)@.len(),
            ),
{
    match v {
        DecodedValue::AddressValue(a) => {
            let ghost base = out@.len() as int;
            let mut m: usize = 0;
            while m < 12
                invariant
                    base == old(out)@.len(),
                    m <= 12,
                    out@.len() == base + m,
                    base + 32 <= usize::MAX,
                    forall|j: int| 0 <= j < base ==> out@[j] == old(out)@[j],
                    forall|j: int| base <= j < base + m ==> out@[j] == 0u8,
                decreases 12 - m,
            {
                out.push(0u8);
                m += 1;
            }
            let bytes = a.bytes();
            let mut k: usize = 0;
            while k < 20
                invariant
                    base == old(out)@.len(),
                    k <= 20,
                    bytes@ == a@,
                    a.wf(),
                    out@.len() == base + 12 + k,
                    base + 32 <= usize::MAX,
                    forall|j: int| 0 <= j < base ==> out@[j] == old(out)@[j],
                    forall|j: int| base <= j < base + 12 ==> out@[j] == 0u8,
                    forall|j: int| base + 12 <= j < base + 12 + k ==> out@[j] == a@[j - base - 12],
                decreases 20 - k,
            {
                out.push(bytes[k]);
                k += 1;
            }
            assert forall|j: int| base <= j < base + 32 implies out@[j] == slot_byte(
                *v,
                j - base,
            ) by {}
        },
        DecodedValue::UintValue(u) => {
            let ghost base = out@.len() as int;
            let bytes = u.bytes();
            let mut k: usize = 0;
            while k < 32
                invariant
                    base == old(out)@.len(),
                    k <= 32,
                    bytes@ == u@,
                    u.wf(),
                    out@.len() == base + k,
                    base + 32 <= usize::MAX,
                    forall|j: int| 0 <= j < base ==> out@[j] == old(out)@[j],
                    forall|j: int| base <= j < base + k ==> out@[j] == u@[j - base],
                decreases 32 - k,
            {
                out.push(bytes[k]);
                k += 1;
            }
        },
    }
}

/// Encodes the fields positionally: slot after slot, in order.
pub fn encode(fields: &Vec<DecodedValue>) -> (r: Vec<u8>)
    requires
        forall|i: int| 0 <= i < fields@.len() ==> (#[trigger] fields@[i]).wf(),
        fields@.len() * 32 <= usize::MAX,
    ensures
        r@ == encoded(fields@),
{
    let n = fields.len();
    let mut out: Vec<u8> = Vec::new();
    let mut i: usize = 0;
    while i < n
        invariant
            n == fields@.len(),
            i <= n,
            n * 32 <= usize::MAX,
            forall|k: int| 0 <= k < n ==> (#[trigger] fields@[k]).wf(),
            out@.len() == i * 32,
            forall|j: int|
                0 <= j < i * 32 ==> out@[j] == slot_byte(fields@[j / 32], j % 32),
        decreases n - i,
    {
        let ghost prev = out@;
        assert(i * 32 + 32 <= n * 32) by (nonlinear_arith)
            requires i < n;
        push_slot(&mut out, &fields[i]);
        assert forall|j: int| 0 <= j < (i + 1) * 32 implies out@[j] == slot_byte(
            fields@[j / 32],
            j % 32,
        ) by {
            if j < i * 32 {
                assert(out@[j] == prev[j]);
            } else {
                let m = j - 32 * i;
                lemma_slot_index(i as int, m);
                assert(out@[j] == slot_byte(fields@[i as int], j - prev.len()));
            }
        }
        i += 1;
    }
    assert(out@ =~= encoded(fields@)) by {
        assert forall|j: int| 0 <= j < n * 32 implies out@[j] == slot_byte(
            fields@[j / 32],
            j % 32,
        ) by {}
    }
    out
}

/// Decodes a payload positionally against a schema. Fails iff the payload is
/// not slot-aligned, the slot count differs from the schema length, or some
/// slot does not convert to its declared kind; succeeds otherwise, every field
/// read from its own slot.
pub fn decode(payload: &Vec<u8>, schema: &Vec<ParamKind>) -> (r: Result<
    Vec<DecodedValue>,
    DecodeError,
>)
    ensures
        match r {
            Ok(fields) => decode_ok(payload@, schema@) && decoded_fields(
                fields@,
                payload@,
                schema@,
            ),
            Err(e) => decode_fails_with(payload@, schema@, e),
        },
{
    if payload.len() % 32 != 0 {
        return Err(DecodeError::LengthNotAligned);
    }
    let count = payload.len() / 32;
    if count != schema.len() {
        assert(payload@.len() != 32 * schema@.len());
        return Err(DecodeError::SlotCountMismatch);
    }
    assert(payload@.len() == 32 * schema@.len());
    let mut fields: Vec<DecodedValue> = Vec::new();
    let mut i: usize = 0;
    while i < count
        invariant
            count == schema@.len(),
            payload@.len() == 32 * count,
            payload@.len() <= usize::MAX,
            payload@.len() % 32 == 0,
            i <= count,
            fields@.len() == i,
            forall|k: int| 0 <= k < i ==> slot_ok(#[trigger] slot_at(payload@, k), schema@[k]),
            forall|k: int| 0 <= k < i ==> (#[trigger] fields@[k]).kind() == schema@[k],
            forall|k: int|
                0 <= k < i ==> (#[trigger] fields@[k]).field_view() == field_of(
                    slot_at(payload@, k),
                    schema@[k],
                ),
            forall|k: int| 0 <= k < i ==> (#[trigger] fields@[k]).wf(),
        decreases count - i,
    {
        proof {
            assert(32 * (i as int) + 32 <= payload@.len()) by (nonlinear_arith)
                requires i < count, payload@.len() == 32 * count;
        }
        let base: usize = 32 * i;
        match schema[i] {
            ParamKind::Address => {
                let mut m: usize = 0;
                while m < 12
                    invariant
                        i < count,
                        count == schema@.len(),
                        payload@.len() == 32 * count,
                        payload@.len() % 32 == 0,
                        base == 32 * i,
                        base + 32 <= payload@.len(),
                        m <= 12,
                        schema@[i as int] == ParamKind::Address,
                        forall|j: int| base <= j < base + m ==> payload@[j] == 0u8,
                    decreases 12 - m,
                {
                    if payload[base + m] != 0 {
                        proof {
                            assert(slot_at(payload@, i as int)[m as int] == payload@[base + m]);
                            assert(!slot_ok(slot_at(payload@, i as int), ParamKind::Address));
                        }
                        return Err(DecodeError::FieldMiscast);
                    }
                    m += 1;
                }
                let mut b: Vec<u8> = Vec::new();
                let mut k: usize = 0;
                while k < 20
                    invariant
                        base + 32 <= payload@.len(),
                        base == 32 * i,
                        k <= 20,
                        b@.len() == k,
                        forall|j: int| 0 <= j < k ==> b@[j] == payload@[base + 12 + j],
                    decreases 20 - k,
                {
                    b.push(payload[base + 12 + k]);
                    k += 1;
                }
                proof {
                    assert forall|j: int| 0 <= j < 20 implies b@[j] == slot_at(
                        payload@,
                        i as int,
                    ).subrange(12, 32)[j] by {
                        assert(b@[j] == payload@[base + 12 + j]);
                    }
                    assert(b@ =~= field_of(slot_at(payload@, i as int), ParamKind::Address));
                    assert forall|j: int| 0 <= j < 12 implies slot_at(payload@, i as int)[j]
                        == 0u8 by {
                        assert(slot_at(payload@, i as int)[j] == payload@[base + j]);
                    }
                    assert(slot_ok(slot_at(payload@, i as int), ParamKind::Address));
                }
                fields.push(DecodedValue::AddressValue(Address::new(b)));
            },
            ParamKind::Uint256 => {
                let mut b: Vec<u8> = Vec::new();
                let mut k: usize = 0;
                while k < 32
                    invariant
                        base + 32 <= payload@.len(),
                        base == 32 * i,
                        k <= 32,
                        b@.len() == k,
                        forall|j: int| 0 <= j < k ==> b@[j] == payload@[base + j],
                    decreases 32 - k,
                {
                    b.push(payload[base + k]);
                    k += 1;
                }
                proof {
                    assert forall|j: int| 0 <= j < 32 implies b@[j] == slot_at(
                        payload@,
                        i as int,
                    )[j] by {
                        assert(b@[j] == payload@[base + j]);
                    }
                    assert(b@ =~= field_of(slot_at(payload@, i as int), ParamKind::Uint256));
                }
                fields.push(DecodedValue::UintValue(Uint256::new(b)));
            },
        }
        i += 1;
    }
    Ok(fields)
}

/// The kinds of a field sequence, position by position: its own schema.
pub open spec fn kinds_of(fields: Seq<DecodedValue>) -> Seq<ParamKind> {
    fields.map(|i: int, v: DecodedValue| v.kind())
}

/// Round-trip law: a well-formed field sequence encoded and then decoded under
/// its own schema decodes cleanly, and every slot reads back exactly the field
/// it was encoded from. Together with the contract of `decode`, decoding
/// `encode(fields)` against `kinds_of(fields)` returns fields with the
/// same kinds and byte values it started from.
pub proof fn lemma_encode_decode_roundtrip(fields: Seq<DecodedValue>)
    requires
        forall|i: int| 0 <= i < fields.len() ==> (#[trigger] fields[i]).wf(),
    ensures
        decode_ok(encoded(fields), kinds_of(fields)),
        forall|i: int|
            0 <= i < fields.len() ==> field_of(
                #[trigger] slot_at(encoded(fields), i),
                kinds_of(fields)[i],
            ) == fields[i].field_view(),
{
    let payload = encoded(fields);
    let schema = kinds_of(fields);
    assert(payload.len() == fields.len() * 32);
    assert(payload.len() % 32 == 0) by (nonlinear_arith)
        requires payload.len() == fields.len() * 32;
    assert(payload.len() == 32 * schema.len()) by (nonlinear_arith)
        requires payload.len() == fields.len() * 32, schema.len() == fields.len();
    assert forall|i: int, m: int| 0 <= i < fields.len() && 0 <= m < 32 implies slot_at(
        payload,
        i,
    )[m] == slot_byte(fields[i], m) by {
        lemma_slot_index(i, m);
        assert(32 * i + m < payload.len()) by (nonlinear_arith)
            requires 0 <= i < fields.len(), 0 <= m < 32, payload.len() == fields.len() * 32;
        assert(slot_at(payload, i)[m] == payload[32 * i + m]);
        assert(payload[32 * i + m] == slot_byte(fields[(32 * i + m) / 32], (32 * i + m) % 32));
    }
    assert forall|i: int| 0 <= i < schema.len() implies slot_ok(
        #[trigger] slot_at(payload, i),
        schema[i],
    ) by {
        match fields[i] {
            DecodedValue::AddressValue(a) => {
                assert forall|m: int| 0 <= m < 12 implies slot_at(payload, i)[m] == 0u8 by {
                    assert(slot_at(payload, i)[m] == slot_byte(fields[i], m));
                }
            },
            DecodedValue::UintValue(u) => {},
        }
    }
    assert forall|i: int| 0 <= i < fields.len() implies field_of(
        #[trigger] slot_at(payload, i),
        kinds_of(fields)[i],
    ) == fields[i].field_view() by {
        match fields[i] {
            DecodedValue::AddressValue(a) => {
                assert(field_of(slot_at(payload, i), ParamKind::Address) =~= a@) by {
                    assert forall|k: int| 0 <= k < 20 implies slot_at(payload, i).subrange(
                        12,
                        32,
                    )[k] == a@[k] by {
                        assert(slot_at(payload, i)[12 + k] == slot_byte(fields[i], 12 + k));
                    }
                }
            },
            DecodedValue::UintValue(u) => {
                assert(field_of(slot_at(payload, i), ParamKind::Uint256) =~= u@) by {
                    assert forall|k: int| 0 <= k < 32 implies slot_at(payload, i)[k] == u@[k] by {
                        assert(slot_at(payload, i)[k] == slot_byte(fields[i], k));
                    }
                }
            },
        }
    }
}

} // verus!
