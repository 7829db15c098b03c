//! The transaction-linked event finder: once a transaction's receipt is in
//! hand, scan the lookback window for the first record carrying the loop
//! creation event's signature and decode its payload into the event's four
//! typed fields.

use vstd::prelude::*;
use crate::decoder::{
    decode, decode_fails_with, decode_ok, field_of, slot_at, DecodedValue, ParamKind,
};
use crate::types::{Address, FinderError, Hash256, LogRecord, Uint256, WatchError, WatchMode};
use crate::watcher::{has_match, is_first_match, watch};

verus! {

/// The Keccak-256 digest, as 32 bytes, of a string's UTF-8 bytes.
pub uninterp spec fn keccak_of(s: Seq<char>) -> Seq<u8>;

/// Relies on ethers::utils::keccak256: the Keccak-256 digest of the string's
/// UTF-8 bytes — 32 bytes, a function of the characters alone.
#[verifier::external_body]
fn keccak256_str(s: &str) -> (r: Vec<u8>)
    ensures
        r@ == keccak_of(s@),
        r@.len() == 32,
{
    ethers::utils::keccak256(s.as_bytes()).to_vec()
}

/// The signature hash identifying the event with the given canonical string:
/// the Keccak-256 digest of its UTF-8 bytes, conventionally topic zero of
/// every record the event emits.
pub fn event_signature(canonical: &str) -> (sig: Hash256)
    ensures
        sig@ == keccak_of(canonical@),
        sig.wf(),
{
    let bytes = keccak256_str(canonical);
    Hash256::new(bytes)
}

/// The canonical string of the loop creation event.
pub open spec fn loop_created_canonical() -> Seq<char> {
    "LoopCreated(address,address,uint256,uint256)"@
}

/// The signature hash of the loop creation event.
pub open spec fn loop_created_sig() -> Seq<u8> {
    keccak_of(loop_created_canonical())
}

pub fn loop_created_signature() -> (sig: Hash256)
    ensures
        sig@ == loop_created_sig(),
        sig.wf(),
{
    event_signature("LoopCreated(address,address,uint256,uint256)")
}

/// The parameter schema of the loop creation event: two addresses, then two
/// unsigned 256-bit words.
pub open spec fn loop_created_schema() -> Seq<ParamKind> {
    seq![ParamKind::Address, ParamKind::Address, ParamKind::Uint256, ParamKind::Uint256]
}

fn loop_created_schema_vec() -> (r: Vec<ParamKind>)
    ensures
        r@ == loop_created_schema(),
{
    let mut v: Vec<ParamKind> = Vec::new();
    v.push(ParamKind::Address);
    v.push(ParamKind::Address);
    v.push(ParamKind::Uint256);
    v.push(ParamKind::Uint256);
    assert(v@ =~= loop_created_schema());
    v
}

/// The decoded loop creation event: the new loop's address, the token it
/// runs on, the period length, and the percent released per period.
#[derive(Debug)]
pub struct LoopCreatedEvent {
    pub loop_address: Address,
    pub token: Address,
    pub period_length: Uint256,
    pub percent_per_period: Uint256,
}

impl LoopCreatedEvent {
    pub open spec fn wf(self) -> bool {
        self.loop_address.wf() && self.token.wf() && self.period_length.wf()
            && self.percent_per_period.wf()
    }
}

/// The event's four fields are exactly the four slots of the payload, read
/// under the event's schema.
pub open spec fn event_fields_of(ev: LoopCreatedEvent, payload: Seq<u8>) -> bool {
    &&& ev.loop_address@ == field_of(slot_at(payload, 0), ParamKind::Address)
    &&& ev.token@ == field_of(slot_at(payload, 1), ParamKind::Address)
    &&& ev.period_length@ == field_of(slot_at(payload, 2), ParamKind::Uint256)
    &&& ev.percent_per_period@ == field_of(slot_at(payload, 3), ParamKind::Uint256)
}

/// Scans the delivered lookback records for the first one matching the loop
/// creation signature and decodes its payload. Absence of a match is a
/// distinct failure, never a defaulted value; a record found with an empty
/// payload carries nothing to decode and is reported as such; a payload that
/// does not fit the schema fails the whole find.
pub fn find_loop_created_event(logs: Vec<LogRecord>) -> (r: Result<
    Option<LoopCreatedEvent>,
    FinderError,
>)
    ensures
        match r {
            Ok(Some(ev)) => exists|i: int|
                {
                    &&& #[trigger] is_first_match(logs@, loop_created_sig(), i)
                    &&& logs@[i].data@.len() > 0
                    &&& decode_ok(logs@[i].data@, loop_created_schema())
                    &&& event_fields_of(ev, logs@[i].data@)
                    &&& ev.wf()
                },
            Ok(None) => exists|i: int|
                #[trigger] is_first_match(logs@, loop_created_sig(), i) && logs@[i].data@.len()
                    == 0,
            Err(FinderError::Watch(e)) => !has_match(logs@, loop_created_sig()) && e
                == WatchError::NoPastEvent,
            Err(FinderError::Decode(e)) => exists|i: int|
                {
                    &&& #[trigger] is_first_match(logs@, loop_created_sig(), i)
                    &&& logs@[i].data@.len() > 0
                    &&& decode_fails_with(logs@[i].data@, loop_created_schema(), e)
                },
        },
{
    let sig = loop_created_signature();
    match watch(logs, &sig, WatchMode::Lookback) {
        Err(e) => Err(FinderError::Watch(e)),
        Ok(log) => {
            if log.data.len() == 0 {
                Ok(None)
            } else {
                let schema = loop_created_schema_vec();
                match decode(&log.data, &schema) {
                    Err(e) => Err(FinderError::Decode(e)),
                    Ok(fields) => {
                        let mut fields = fields;
                        let loop_address = match fields.remove(0) {
                            DecodedValue::AddressValue(a) => a,
                            DecodedValue::UintValue(_) => vstd::pervasive::unreached(),
                        };
                        let token = match fields.remove(0) {
                            DecodedValue::AddressValue(a) => a,
                            DecodedValue::UintValue(_) => vstd::pervasive::unreached(),
                        };
                        let period_length = match fields.remove(0) {
                            DecodedValue::UintValue(u) => u,
                            DecodedValue::AddressValue(_) => vstd::pervasive::unreached(),
                        };
                        let percent_per_period = match fields.remove(0) {
                            DecodedValue::UintValue(u) => u,
                            DecodedValue::AddressValue(_) => vstd::pervasive::unreached(),
                        };
                        Ok(
                            Some(
                                LoopCreatedEvent {
                                    loop_address,
                                    token,
                                    period_length,
                                    percent_per_period,
                                },
                            ),
                        )
                    },
                }
            }
        },
    }
}

} // verus!
