//! The data the watcher and decoder work on: addresses, topic hashes,
//! 256-bit words, observed log records, filters, and the error taxonomy.

use vstd::prelude::*;

verus! {

/// Compares two byte vectors for exact equality.
pub fn bytes_eq(a: &Vec<u8>, b: &Vec<u8>) -> (r: bool)
    ensures
        r == (a@ == b@),
{
    if a.len() != b.len() {
        assert(a@ != b@) by {
            assert(a@.len() != b@.len());
        }
        return false;
    }
    let n = a.len();
    let mut k: usize = 0;
    while k < n
        invariant
            n == a@.len(),
            n == b@.len(),
            k <= n,
            forall|j: int| 0 <= j < k ==> a@[j] == b@[j],
        decreases n - k,
    {
        if a[k] != b[k] {
            return false;
        }
        k += 1;
    }
    assert(a@ =~= b@);
    true
}

/// A 20-byte on-chain account or contract identifier, compared by exact byte
/// equality and immutable once constructed.
#[derive(Debug, PartialEq, Eq)]
pub struct Address {
    bytes: Vec<u8>,
}

impl View for Address {
    type V = Seq<u8>;

    closed spec fn view(&self) -> Seq<u8> {
        self.bytes@
    }
}

impl Address {
    /// An address is exactly 20 bytes long.
    pub open spec fn wf(&self) -> bool {
        self@.len() == 20
    }

    pub fn new(bytes: Vec<u8>) -> (r: Address)
        requires
            bytes@.len() == 20,
        ensures
            r@ == bytes@,
            r.wf(),
    {
        Address { bytes }
    }

    /// Accepts exactly 20 bytes; anything else is rejected.
    pub fn from_bytes(bytes: Vec<u8>) -> (r: Option<Address>)
        ensures
            match r {
                Some(a) => bytes@.len() == 20 && a@ == bytes@ && a.wf(),
                None => bytes@.len() != 20,
            },
    {
        if bytes.len() == 20 {
            Some(Address { bytes })
        } else {
            None
        }
    }

    pub fn bytes(&self) -> (r: &Vec<u8>)
        ensures
            r@ == self@,
    {
        &self.bytes
    }
}

/// A 32-byte hash: an event signature (topic zero), any other topic, or a
/// transaction hash. Compared by exact byte equality.
#[derive(Debug, PartialEq, Eq)]
pub struct Hash256 {
    bytes: Vec<u8>,
}

impl View for Hash256 {
    type V = Seq<u8>;

    closed spec fn view(&self) -> Seq<u8> {
        self.bytes@
    }
}

impl Hash256 {
    /// A hash is exactly 32 bytes long.
    pub open spec fn wf(&self) -> bool {
        self@.len() == 32
    }

    pub fn new(bytes: Vec<u8>) -> (r: Hash256)
        requires
            bytes@.len() == 32,
        ensures
            r@ == bytes@,
            r.wf(),
    {
        Hash256 { bytes }
    }

    /// Accepts exactly 32 bytes; anything else is rejected.
    pub fn from_bytes(bytes: Vec<u8>) -> (r: Option<Hash256>)
        ensures
            match r {
                Some(h) => bytes@.len() == 32 && h@ == bytes@ && h.wf(),
                None => bytes@.len() != 32,
            },
    {
        if bytes.len() == 32 {
            Some(Hash256 { bytes })
        } else {
            None
        }
    }

    pub fn bytes(&self) -> (r: &Vec<u8>)
        ensures
            r@ == self@,
    {
        &self.bytes
    }

    pub fn equals(&self, other: &Hash256) -> (r: bool)
        ensures
            r == (self@ == other@),
    {
        bytes_eq(&self.bytes, &other.bytes)
    }

    /// A fresh hash holding the same bytes.
    pub fn duplicate(&self) -> (r: Hash256)
        ensures
            r@ == self@,
    {
        let n = self.bytes.len();
        let mut bytes: Vec<u8> = Vec::new();
        let mut k: usize = 0;
        while k < n
            invariant
                n == self.bytes@.len(),
                k <= n,
                bytes@.len() == k,
                forall|j: int| 0 <= j < k ==> bytes@[j] == self.bytes@[j],
            decreases n - k,
        {
            bytes.push(self.bytes[k]);
            k += 1;
        }
        assert(bytes@ =~= self@);
        Hash256 { bytes }
    }
}

/// The big-endian byte of `x` at position `k` (0 is the most significant of
/// the eight bytes).
pub open spec fn u64_be_byte(x: u64, k: int) -> u8 {
    (x >> (((7 - k) * 8) as u64)) as u8
}

/// An unsigned 256-bit word, stored as 32 big-endian bytes.
#[derive(Debug, PartialEq, Eq)]
pub struct Uint256 {
    bytes: Vec<u8>,
}

impl View for Uint256 {
    type V = Seq<u8>;

    closed spec fn view(&self) -> Seq<u8> {
        self.bytes@
    }
}

impl Uint256 {
    /// A 256-bit word is exactly 32 bytes long.
    pub open spec fn wf(&self) -> bool {
        self@.len() == 32
    }

    pub fn new(bytes: Vec<u8>) -> (r: Uint256)
        requires
            bytes@.len() == 32,
        ensures
            r@ == bytes@,
            r.wf(),
    {
        Uint256 { bytes }
    }

    /// Accepts exactly 32 bytes; anything else is rejected.
    pub fn from_bytes(bytes: Vec<u8>) -> (r: Option<Uint256>)
        ensures
            match r {
                Some(u) => bytes@.len() == 32 && u@ == bytes@ && u.wf(),
                None => bytes@.len() != 32,
            },
    {
        if bytes.len() == 32 {
            Some(Uint256 { bytes })
        } else {
            None
        }
    }

    pub fn bytes(&self) -> (r: &Vec<u8>)
        ensures
            r@ == self@,
    {
        &self.bytes
    }

    /// The word whose value is `x`: 24 leading zero bytes followed by the
    /// eight big-endian bytes of `x`.
    pub fn from_u64(x: u64) -> (r: Uint256)
        ensures
            r.wf(),
            forall|i: int| 0 <= i < 24 ==> r@[i] == 0u8,
            forall|i: int| 24 <= i < 32 ==> r@[i] == u64_be_byte(x, i - 24),
    {
        let mut bytes: Vec<u8> = Vec::new();
        let mut k: usize = 0;
        while k < 24
            invariant
                k <= 24,
                bytes@.len() == k,
                forall|i: int| 0 <= i < k ==> bytes@[i] == 0u8,
            decreases 24 - k,
        {
            bytes.push(0u8);
            k += 1;
        }
        let mut m: usize = 0;
        while m < 8
            invariant
                m <= 8,
                bytes@.len() == 24 + m,
                forall|i: int| 0 <= i < 24 ==> bytes@[i] == 0u8,
                forall|i: int| 24 <= i < 24 + m ==> bytes@[i] == u64_be_byte(x, i - 24),
            decreases 8 - m,
    {
            let shift: u64 = ((7 - m) * 8) as u64;
            let b: u8 = (x >> shift) as u8;
            assert(b == u64_be_byte(x, m as int));
            bytes.push(b);
            m += 1;
        }
        Uint256 { bytes }
    }
}

/// An observed on-chain log entry: its topic hashes (topic zero conventionally
/// holds the event signature), its raw payload bytes, and its provenance.
/// Read-only once received from the provider.
#[derive(Debug)]
pub struct LogRecord {
    pub topics: Vec<Hash256>,
    pub data: Vec<u8>,
    pub block_number: u64,
    pub tx_hash: Hash256,
    pub log_index: u64,
}

/// A query specification handed to the provider: target address and an
/// optional block range. Built once per watch operation.
pub struct Filter {
    pub address: Address,
    pub from_block: Option<u64>,
    pub to_block: Option<u64>,
}

/// Selects historical-scan or live-subscription behaviour; fixed for the
/// whole of one watch call.
#[derive(Clone, Copy, PartialEq, Eq, Structural, Debug)]
pub enum WatchMode {
    Lookback,
    Live,
}

/// A well-formed watch ran to completion without any record matching the
/// signature. Distinct from a transport failure, and the two modes fail
/// distinguishably.
#[derive(Clone, Copy, PartialEq, Eq, Structural, Debug)]
pub enum WatchError {
    /// The historical range was exhausted without a match.
    NoPastEvent,
    /// The live stream ended without a match.
    NoLiveEvent,
}

impl WatchError {
    pub fn message(&self) -> (r: &'static str)
        ensures
            *self == WatchError::NoPastEvent ==> r@ == "no past event matched"@,
            *self == WatchError::NoLiveEvent ==> r@ == "expected live event not observed"@,
    {
        match self {
            WatchError::NoPastEvent => "no past event matched",
            WatchError::NoLiveEvent => "expected live event not observed",
        }
    }
}

/// A payload's shape did not fit the schema it was decoded against.
#[derive(Clone, Copy, PartialEq, Eq, Structural, Debug)]
pub enum DecodeError {
    /// The payload length is not a multiple of the 32-byte slot width.
    LengthNotAligned,
    /// The slot count differs from the schema length.
    SlotCountMismatch,
    /// Some slot does not convert to its declared kind.
    FieldMiscast,
}

/// What the transaction-linked event finder can fail with once the receipt is
/// in hand: no matching record, or a payload that does not decode.
#[derive(Clone, Copy, PartialEq, Eq, Structural, Debug)]
pub enum FinderError {
    Watch(WatchError),
    Decode(DecodeError),
}

} // verus!
