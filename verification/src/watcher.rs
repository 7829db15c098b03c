//! The dual-mode event watcher: scan a historical batch of log records, or
//! consume a live delivery, and hand back the first record whose topic zero
//! equals the wanted event signature.

use vstd::prelude::*;
use crate::types::{Address, Filter, Hash256, LogRecord, WatchError, WatchMode};
use crate::types::bytes_eq;

verus! {

/// A record is matched to a signature iff its first topic equals that
/// signature exactly.
pub open spec fn log_matches(log: LogRecord, sig: Seq<u8>) -> bool {
    log.topics@.len() > 0 && log.topics@[0]@ == sig
}

/// Position `i` holds the first record of `logs`, in delivered order, that
/// matches `sig`.
pub open spec fn is_first_match(logs: Seq<LogRecord>, sig: Seq<u8>, i: int) -> bool {
    &&& 0 <= i < logs.len()
    &&& log_matches(logs[i], sig)
    &&& forall|j: int| 0 <= j < i ==> !log_matches(logs[j], sig)
}

/// Some record of `logs` matches `sig`.
pub open spec fn has_match(logs: Seq<LogRecord>, sig: Seq<u8>) -> bool {
    exists|i: int| 0 <= i < logs.len() && log_matches(logs[i], sig)
}

/// The client-side topic filter shared by both watch modes.
pub fn matches_signature(log: &LogRecord, signature: &Hash256) -> (r: bool)
    ensures
        r == log_matches(*log, signature@),
{
    if log.topics.len() > 0 {
        let first: &Hash256 = &log.topics[0];
        bytes_eq(first.bytes(), signature.bytes())
    } else {
        false
    }
}

/// Scans `logs` in delivered order for the first record matching `signature`.
pub fn first_match(logs: &Vec<LogRecord>, signature: &Hash256) -> (r: Option<usize>)
    ensures
        match r {
            Some(i) => is_first_match(logs@, signature@, i as int),
            None => !has_match(logs@, signature@),
        },
{
    let n = logs.len();
    let mut k: usize = 0;
    while k < n
        invariant
            n == logs@.len(),
            k <= n,
            forall|j: int| 0 <= j < k ==> !log_matches(logs@[j], signature@),
        decreases n - k,
    {
        if matches_signature(&logs[k], signature) {
            return Some(k);
        }
        k += 1;
    }
    None
}

/// The first block of the lookback window: the most recent tenth of the
/// chain's height is scanned, so the window starts at `height - height / 10`
/// (integer division, truncating).
pub fn lookback_from(height: u64) -> (r: u64)
    ensures
        r == height - height / 10,
{
    height - height / 10
}

/// The filter a lookback watch hands to the provider: the target address over
/// the block range `[height - height / 10, height]`.
pub fn lookback_filter(address: Address, height: u64) -> (f: Filter)
    ensures
        f.address == address,
        f.from_block == Some((height - height / 10) as u64),
        f.to_block == Some(height),
{
    Filter { address, from_block: Some(lookback_from(height)), to_block: Some(height) }
}

/// The filter a live watch hands to the provider: the target address with no
/// block bounds; topic filtering happens client-side.
pub fn live_filter(address: Address) -> (f: Filter)
    ensures
        f.address == address,
        f.from_block == None::<u64>,
        f.to_block == None::<u64>,
{
    Filter { address, from_block: None, to_block: None }
}

/// Which not-found failure a mode exhausts into.
pub open spec fn not_found_error(mode: WatchMode) -> WatchError {
    match mode {
        WatchMode::Lookback => WatchError::NoPastEvent,
        WatchMode::Live => WatchError::NoLiveEvent,
    }
}

/// Returns the first record of `logs`, in delivered order, whose topic zero
/// equals `signature`; exhausting the whole delivery without a match fails
/// with the not-found error of the given mode. Exactly one record is returned
/// per successful call.
pub fn watch(logs: Vec<LogRecord>, signature: &Hash256, mode: WatchMode) -> (r: Result<
    LogRecord,
    WatchError,
>)
    ensures
        match r {
            Ok(log) => exists|i: int|
                #[trigger] is_first_match(logs@, signature@, i) && log == logs@[i],
            Err(e) => !has_match(logs@, signature@) && e == not_found_error(mode),
        },
{
    let mut logs = logs;
    match first_match(&logs, signature) {
        Some(i) => {
            let log = logs.remove(i);
            Ok(log)
        },
        None => {
            match mode {
                WatchMode::Lookback => Err(WatchError::NoPastEvent),
                WatchMode::Live => Err(WatchError::NoLiveEvent),
            }
        },
    }
}

/// Where one watch operation stands: which answer from the connection it is
/// waiting for, or that it is over.
#[derive(Clone, Copy, PartialEq, Eq, Structural, Debug)]
pub enum WatchPhase {
    /// Lookback: the chain height must be asked first.
    AwaitingHeight,
    /// Lookback: the logs of the window must be asked.
    AwaitingLogs { from_block: u64, to_block: u64 },
    /// Live: the subscription's records are consumed one by one.
    Streaming,
    /// The operation is over and holds its outcome.
    Finished,
}

/// One watch operation as a state machine: the driving loop asks the
/// connection what the current phase calls for and hands the answer back;
/// every decision — the window, the match, the failure — is made here.
pub struct WatchSession {
    pub signature: Hash256,
    pub mode: WatchMode,
    pub phase: WatchPhase,
    pub outcome: Option<Result<LogRecord, WatchError>>,
}

impl WatchSession {
    /// Each phase belongs to its mode, and the outcome is held exactly when
    /// the operation is over.
    pub open spec fn wf(self) -> bool {
        &&& (match self.phase {
            WatchPhase::AwaitingHeight => self.mode == WatchMode::Lookback,
            WatchPhase::AwaitingLogs { .. } => self.mode == WatchMode::Lookback,
            WatchPhase::Streaming => self.mode == WatchMode::Live,
            WatchPhase::Finished => true,
        })
        &&& (match self.outcome {
            Some(_) => self.phase == WatchPhase::Finished,
            None => self.phase != WatchPhase::Finished,
        })
    }

    /// Starts a watch: lookback first needs the height, live goes straight to
    /// the stream.
    pub fn start(signature: Hash256, mode: WatchMode) -> (s: WatchSession)
        ensures
            s.wf(),
            s.signature == signature,
            s.mode == mode,
            s.outcome == None::<Result<LogRecord, WatchError>>,
            mode == WatchMode::Lookback ==> s.phase == WatchPhase::AwaitingHeight,
            mode == WatchMode::Live ==> s.phase == WatchPhase::Streaming,
    {
        let phase = match mode {
            WatchMode::Lookback => WatchPhase::AwaitingHeight,
            WatchMode::Live => WatchPhase::Streaming,
        };
        WatchSession { signature, mode, phase, outcome: None }
    }

    /// The height answer: the session now awaits the logs of the window
    /// `[height - height / 10, height]`.
    pub fn on_height(&mut self, height: u64)
        requires
            old(self).wf(),
            old(self).phase == WatchPhase::AwaitingHeight,
        ensures
            final(self).wf(),
            final(self).signature == old(self).signature,
            final(self).mode == old(self).mode,
            final(self).outcome == old(self).outcome,
            final(self).phase == (WatchPhase::AwaitingLogs {
                from_block: (height - height / 10) as u64,
                to_block: height,
            }),
    {
        let from_block = lookback_from(height);
        self.phase = WatchPhase::AwaitingLogs { from_block, to_block: height };
    }

    /// The logs answer: the operation finishes with the first matching record
    /// of the delivery, or with the lookback not-found failure.
    pub fn on_logs(&mut self, logs: Vec<LogRecord>)
        requires
            old(self).wf(),
            old(self).phase matches WatchPhase::AwaitingLogs { .. },
        ensures
            final(self).wf(),
            final(self).signature == old(self).signature,
            final(self).mode == old(self).mode,
            final(self).phase == WatchPhase::Finished,
            match final(self).outcome {
                Some(Ok(log)) => exists|i: int|
                    #[trigger] is_first_match(logs@, old(self).signature@, i) && log == logs@[i],
                Some(Err(e)) => !has_match(logs@, old(self).signature@) && e
                    == WatchError::NoPastEvent,
                None => false,
            },
    {
        let r = watch(logs, &self.signature, WatchMode::Lookback);
        self.outcome = Some(r);
        self.phase = WatchPhase::Finished;
    }

    /// One record from the live stream: a match finishes the operation with
    /// that record — nothing further is consumed — and anything else leaves
    /// the session unchanged, still streaming.
    pub fn on_live_record(&mut self, log: LogRecord)
        requires
            old(self).wf(),
            old(self).phase == WatchPhase::Streaming,
        ensures
            final(self).wf(),
            final(self).signature == old(self).signature,
            final(self).mode == old(self).mode,
            log_matches(log, old(self).signature@) ==> final(self).phase == WatchPhase::Finished
                && final(self).outcome == Some(Ok::<LogRecord, WatchError>(log)),
            !log_matches(log, old(self).signature@) ==> *final(self) == *old(self),
    {
        if matches_signature(&log, &self.signature) {
            self.outcome = Some(Ok(log));
            self.phase = WatchPhase::Finished;
        }
    }

    /// The stream closed without a match: the operation finishes with the
    /// live not-found failure.
    pub fn on_stream_end(&mut self)
        requires
            old(self).wf(),
            old(self).phase == WatchPhase::Streaming,
        ensures
            final(self).wf(),
            final(self).signature == old(self).signature,
            final(self).mode == old(self).mode,
            final(self).phase == WatchPhase::Finished,
            final(self).outcome == Some(Err::<LogRecord, WatchError>(WatchError::NoLiveEvent)),
    {
        self.outcome = Some(Err(WatchError::NoLiveEvent));
        self.phase = WatchPhase::Finished;
    }

    /// Hands out the outcome of a finished operation.
    pub fn finish(self) -> (r: Result<LogRecord, WatchError>)
        requires
            self.wf(),
            self.phase == WatchPhase::Finished,
        ensures
            self.outcome == Some(r),
    {
        match self.outcome {
            Some(r) => r,
            None => vstd::pervasive::unreached(),
        }
    }
}

/// Live-mode consumption over a delivered sequence: stops at the first match,
/// so `r.0` items were consumed — the matching record's position plus one, or
/// the whole delivery when nothing matched and the stream ended.
pub fn scan_live(logs: Vec<LogRecord>, signature: &Hash256) -> (r: (usize, Result<
    LogRecord,
    WatchError,
>))
    ensures
        match r.1 {
            Ok(log) => is_first_match(logs@, signature@, r.0 - 1) && log == logs@[r.0 - 1],
            Err(e) => r.0 == logs@.len() && !has_match(logs@, signature@) && e
                == WatchError::NoLiveEvent,
        },
{
    let mut logs = logs;
    match first_match(&logs, signature) {
        Some(i) => {
            let log = logs.remove(i);
            (i + 1, Ok(log))
        },
        None => (logs.len(), Err(WatchError::NoLiveEvent)),
    }
}

} // verus!
