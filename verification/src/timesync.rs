//! The time-synchronization protocol: request/response correlation,
//! per-peer session tracking, heartbeat sequencing and timestamp-skew
//! validation.
//!
//! The protocol is a consumer of the network service: its handlers take the
//! clock readings as plain arguments and return the reply to send, and the
//! surrounding shell performs the unicast or broadcast and reports back. A
//! server-side time query is tracked in `pending_requests` from arrival
//! until the reply is sent (`complete_time_request`); a peer's
//! `SyncSession` is created on first contact and updated in place on every
//! later request from the same peer.
//!
//! Numeric conventions: timestamps are milliseconds since the epoch,
//! signed; an offset is server time minus client time, positive when the
//! server's clock is ahead. Counters saturate at their maximum instead of
//! wrapping.

use crate::clock::current_timestamp_ms;
use crate::errors::TimeSyncError;
use crate::message::{MessageType, NetworkMessage, Payload, UnicastOptions};
use vstd::arithmetic::div_mod::{
    lemma_div_is_ordered,
    lemma_div_multiples_vanish,
    lemma_div_pos_is_pos,
};
use vstd::prelude::*;

verus! {

/// Largest accepted distance between a client timestamp and the server's
/// clock, in milliseconds (one hour, inclusive).
pub const MAX_TIMESTAMP_SKEW_MS: i64 = 3600000;

/// Smallest accepted sync interval, in milliseconds (inclusive).
pub const MIN_SYNC_INTERVAL_MS: u64 = 1000;

/// Largest accepted sync interval, in milliseconds (inclusive).
pub const MAX_SYNC_INTERVAL_MS: u64 = 3600000;

/// The fixed round-trip figure reported in sync responses; the protocol
/// does not measure actual latency.
pub const ROUND_TRIP_PLACEHOLDER_MS: u64 = 10;

/// The protocol messages exchanged by the time-synchronization module.
#[derive(Debug, Clone, Copy, PartialEq, Eq, Structural)]
pub enum TimeSyncMessageType {
    /// A query for the server's clock.
    TimeRequest { request_id: u128, client_timestamp: i64 },
    /// The answer to a time query.
    TimeResponse {
        request_id: u128,
        server_timestamp: i64,
        client_timestamp: i64,
        processing_time_ns: u64,
    },
    /// A request to synchronize clocks at a given interval.
    SyncRequest { request_id: u128, client_time: i64, sync_interval_ms: u64 },
    /// The answer to a synchronization request.
    SyncResponse {
        request_id: u128,
        server_time: i64,
        client_time: i64,
        time_offset_ms: i64,
        round_trip_time_ms: u64,
    },
    /// A periodic liveness beacon.
    Heartbeat { timestamp: i64, sequence: u64 },
}

/// Relies on chrono::Utc's Display implementation, which prints "UTC".
#[verifier::external_body]
fn utc_timezone_name() -> (r: String)
    ensures
        r@ == "UTC"@,
{
    chrono::Utc::now().timezone().to_string()
}

/// Whether `timestamp` lies within the accepted skew of `now_ms`
/// (inclusive at the boundary).
pub open spec fn timestamp_valid(now_ms: i64, timestamp: i64) -> bool {
    -(MAX_TIMESTAMP_SKEW_MS as int) <= now_ms - timestamp <= MAX_TIMESTAMP_SKEW_MS as int
}

/// Whether `interval_ms` is an accepted sync interval (inclusive at both
/// boundaries).
pub open spec fn sync_interval_valid(interval_ms: u64) -> bool {
    MIN_SYNC_INTERVAL_MS <= interval_ms <= MAX_SYNC_INTERVAL_MS
}

/// A counter bumped by one, sticking at its maximum instead of wrapping.
pub open spec fn sat_inc(x: u64) -> u64 {
    if x == u64::MAX {
        x
    } else {
        (x + 1) as u64
    }
}

/// The running average after one more sample: the previous average weighted
/// by `n - 1`, plus the sample, divided by the post-increment count `n`.
pub open spec fn avg_after(avg: u64, sample: u64, n: u64) -> int
    recommends
        n >= 1,
{
    (avg * (n - 1) + sample) / (n as int)
}

/// The running average never leaves the range spanned by its inputs.
pub proof fn lemma_avg_after_bounds(avg: u64, sample: u64, n: u64)
    requires
        n >= 1,
    ensures
        0 <= avg_after(avg, sample, n) <= u64::MAX,
{
    let m: int = if avg >= sample {
        avg as int
    } else {
        sample as int
    };
    let x: int = avg as int * (n as int - 1) + sample as int;
    assert(0 <= avg as int * (n as int - 1) + sample as int && avg as int * (n as int - 1)
        + sample as int <= m * (n as int)) by (nonlinear_arith)
        requires
            avg as int <= m,
            sample as int <= m,
            0 <= avg as int,
            0 <= sample as int,
            0 <= m,
            n >= 1,
    ;
    lemma_div_is_ordered(x, m * (n as int), n as int);
    lemma_div_multiples_vanish(m, n as int);
    assert((n as int) * m == m * (n as int)) by (nonlinear_arith);
    lemma_div_pos_is_pos(x, n as int);
    assert(avg_after(avg, sample, n) == x / (n as int));
}

/// A transient server-side record of a time query, keyed by its request
/// id; created when the query arrives and removed once the reply is sent.
#[derive(Debug)]
pub struct TimeRequest {
    pub request_id: u128,
    pub from_node: String,
    pub client_timestamp: i64,
    /// Monotonic reading (nanoseconds) taken when the query arrived.
    pub receive_time_ns: u64,
}

/// A peer's long-lived synchronization state, keyed by node id; created on
/// the peer's first sync request and updated in place afterwards.
#[derive(Debug)]
pub struct SyncSession {
    pub node_id: String,
    pub last_sync_time: i64,
    pub time_offset_ms: i64,
    pub sync_interval_ms: u64,
    pub request_count: u64,
}

/// Aggregate protocol counters; a read-only snapshot is returned to
/// callers.
#[derive(Debug, Clone, Copy, PartialEq, Eq, Structural)]
pub struct SyncStats {
    pub total_requests: u64,
    pub total_responses: u64,
    /// Running average of response-time samples, in milliseconds.
    pub avg_response_time_ms: u64,
    pub last_sync_time: Option<i64>,
    pub active_sessions: usize,
    pub heartbeat_count: u64,
}

/// The server's current clock and identity.
#[derive(Debug, Clone)]
pub struct TimeInfo {
    pub current_time: i64,
    pub timezone: String,
    pub precision_ns: u64,
    pub server_id: String,
}

/// No request id occurs twice.
pub open spec fn pending_distinct(s: Seq<TimeRequest>) -> bool {
    forall|i: int, j: int| 0 <= i < j < s.len() ==> s[i].request_id != s[j].request_id
}

/// Whether some record carries the given request id.
pub open spec fn pending_contains(s: Seq<TimeRequest>, rid: u128) -> bool {
    exists|i: int| 0 <= i < s.len() && s[i].request_id == rid
}

/// The record stored for the given request id (meaningful under
/// `pending_distinct` when `pending_contains` holds).
pub open spec fn pending_at(s: Seq<TimeRequest>, rid: u128) -> TimeRequest {
    s[choose|i: int| 0 <= i < s.len() && s[i].request_id == rid]
}

/// With distinct request ids, the record at any index is the one
/// `pending_at` finds for its id.
pub proof fn lemma_pending_lookup_at(s: Seq<TimeRequest>, i: int)
    requires
        pending_distinct(s),
        0 <= i < s.len(),
    ensures
        pending_contains(s, s[i].request_id),
        pending_at(s, s[i].request_id) == s[i],
{
    let rid = s[i].request_id;
    assert(pending_contains(s, rid));
    let j = choose|j: int| 0 <= j < s.len() && s[j].request_id == rid;
    if i < j {
        assert(s[i].request_id != s[j].request_id);
    } else if j < i {
        assert(s[j].request_id != s[i].request_id);
    }
}

/// No node id occurs twice.
pub open spec fn sessions_distinct(s: Seq<SyncSession>) -> bool {
    forall|i: int, j: int| 0 <= i < j < s.len() ==> s[i].node_id@ != s[j].node_id@
}

/// Whether some session belongs to the given node.
pub open spec fn sessions_contain(s: Seq<SyncSession>, id: Seq<char>) -> bool {
    exists|i: int| 0 <= i < s.len() && s[i].node_id@ == id
}

/// The session stored for the given node (meaningful under
/// `sessions_distinct` when `sessions_contain` holds).
pub open spec fn session_at(s: Seq<SyncSession>, id: Seq<char>) -> SyncSession {
    s[choose|i: int| 0 <= i < s.len() && s[i].node_id@ == id]
}

/// With distinct node ids, the session at any index is the one
/// `session_at` finds for its id.
pub proof fn lemma_session_lookup_at(s: Seq<SyncSession>, i: int)
    requires
        sessions_distinct(s),
        0 <= i < s.len(),
    ensures
        sessions_contain(s, s[i].node_id@),
        session_at(s, s[i].node_id@) == s[i],
{
    let id = s[i].node_id@;
    assert(sessions_contain(s, id));
    let j = choose|j: int| 0 <= j < s.len() && s[j].node_id@ == id;
    if i < j {
        assert(s[i].node_id@ != s[j].node_id@);
    } else if j < i {
        assert(s[j].node_id@ != s[i].node_id@);
    }
}

/// How the session table changes when a sync request from `from` is
/// served: the peer's session exists afterwards, carries this exchange's
/// clock values, counts one more request than before (one on first
/// contact), every other peer's session is untouched, and the table grows
/// exactly on first contact.
pub open spec fn session_upserted(
    pre: Seq<SyncSession>,
    post: Seq<SyncSession>,
    from: Seq<char>,
    now_ms: i64,
    time_offset_ms: i64,
    interval: u64,
) -> bool {
    &&& sessions_contain(post, from)
    &&& session_at(post, from).node_id@ == from
    &&& session_at(post, from).last_sync_time == now_ms
    &&& session_at(post, from).time_offset_ms == time_offset_ms
    &&& session_at(post, from).sync_interval_ms == interval
    &&& session_at(post, from).request_count == if sessions_contain(pre, from) {
        sat_inc(session_at(pre, from).request_count)
    } else {
        1u64
    }
    &&& forall|k: Seq<char>| k != from ==> sessions_contain(post, k) == sessions_contain(pre, k)
    &&& forall|k: Seq<char>|
        k != from && sessions_contain(pre, k) ==> session_at(post, k) == session_at(pre, k)
    &&& post.len() == if sessions_contain(pre, from) {
        pre.len()
    } else {
        pre.len() + 1
    }
}

/// The time-synchronization service: a state machine over pending
/// requests, per-peer sessions, counters and the heartbeat.
#[derive(Debug)]
pub struct TimeSyncService {
    /// The identity stamped on every outbound protocol message.
    pub server_id: String,
    /// In-flight server-side time queries, keyed by request id.
    pub pending_requests: Vec<TimeRequest>,
    /// Per-peer synchronization sessions, keyed by node id.
    pub sync_sessions: Vec<SyncSession>,
    /// Aggregate counters.
    pub stats: SyncStats,
    /// Whether the periodic heartbeat task should be running.
    pub heartbeat_running: bool,
    /// The interval the heartbeat was started with.
    pub heartbeat_interval_ms: u64,
    /// Monotonic sequence number carried by heartbeats.
    pub heartbeat_sequence: u64,
}

impl TimeSyncService {
    /// Keys are unique and the session counter mirrors the session table.
    pub open spec fn wf(&self) -> bool {
        &&& pending_distinct(self.pending_requests@)
        &&& sessions_distinct(self.sync_sessions@)
        &&& self.stats.active_sessions == self.sync_sessions@.len()
    }

    /// Creates an idle service with no sessions, no pending requests and
    /// all counters at zero.
    pub fn new(server_id: String) -> (r: Self)
        ensures
            r.wf(),
            r.server_id == server_id,
            r.pending_requests@.len() == 0,
            r.sync_sessions@.len() == 0,
            r.stats == (SyncStats {
                total_requests: 0u64,
                total_responses: 0u64,
                avg_response_time_ms: 0u64,
                last_sync_time: None::<i64>,
                active_sessions: 0usize,
                heartbeat_count: 0u64,
            }),
            r.heartbeat_running == false,
            r.heartbeat_sequence == 0,
    {
        TimeSyncService {
            server_id,
            pending_requests: Vec::new(),
            sync_sessions: Vec::new(),
            stats: SyncStats {
                total_requests: 0,
                total_responses: 0,
                avg_response_time_ms: 0,
                last_sync_time: None,
                active_sessions: 0,
                heartbeat_count: 0,
            },
            heartbeat_running: false,
            heartbeat_interval_ms: 0,
            heartbeat_sequence: 0,
        }
    }

    /// Checks a client timestamp against a given clock reading: accepted
    /// exactly when it lies within the maximum skew, boundary included.
    pub fn validate_timestamp_at(now_ms: i64, timestamp: i64) -> (r: Result<(), TimeSyncError>)
        ensures
            r is Ok <==> timestamp_valid(now_ms, timestamp),
            !timestamp_valid(now_ms, timestamp) ==> r == Err::<(), TimeSyncError>(
                TimeSyncError::InvalidTimestamp(timestamp),
            ),
    {
        let diff: i128 = now_ms as i128 - timestamp as i128;
        if diff > MAX_TIMESTAMP_SKEW_MS as i128 || diff < -(MAX_TIMESTAMP_SKEW_MS as i128) {
            Err(TimeSyncError::InvalidTimestamp(timestamp))
        } else {
            Ok(())
        }
    }

    /// Checks a client timestamp against the current clock. Whatever the
    /// clock reads, a rejection always names the offending timestamp.
    pub fn validate_timestamp(timestamp: i64) -> (r: Result<(), TimeSyncError>)
        ensures
            r matches Err(e) ==> e == TimeSyncError::InvalidTimestamp(timestamp),
    {
        let now_ms = current_timestamp_ms();
        Self::validate_timestamp_at(now_ms, timestamp)
    }

    /// The difference of two timestamps in milliseconds.
    pub fn calculate_time_diff_ms(time1: i64, time2: i64) -> (r: i64)
        requires
            i64::MIN <= time1 - time2 <= i64::MAX,
        ensures
            r == time1 - time2,
    {
        time1 - time2
    }

    /// Serves a time query: validates the client timestamp, records the
    /// in-flight query and returns the reply to send, which echoes the
    /// client timestamp unchanged and carries this very clock reading as
    /// the server timestamp. The in-flight record stays until
    /// `complete_time_request` reports the reply sent.
    pub fn handle_time_request(
        &mut self,
        from: String,
        request_id: u128,
        client_timestamp: i64,
        now_ms: i64,
        receive_ns: u64,
        now_ns: u64,
    ) -> (r: Result<TimeSyncMessageType, TimeSyncError>)
        requires
            old(self).wf(),
        ensures
            final(self).wf(),
            !timestamp_valid(now_ms, client_timestamp) ==> {
                &&& r == Err::<TimeSyncMessageType, TimeSyncError>(
                    TimeSyncError::InvalidTimestamp(client_timestamp),
                )
                &&& *final(self) == *old(self)
            },
            timestamp_valid(now_ms, client_timestamp) ==> {
                &&& r == Ok::<TimeSyncMessageType, TimeSyncError>(
                    TimeSyncMessageType::TimeResponse {
                        request_id,
                        server_timestamp: now_ms,
                        client_timestamp,
                        processing_time_ns: if now_ns >= receive_ns {
                            (now_ns - receive_ns) as u64
                        } else {
                            0u64
                        },
                    },
                )
                &&& pending_contains(final(self).pending_requests@, request_id)
                &&& pending_at(final(self).pending_requests@, request_id)
                    == (TimeRequest {
                    request_id,
                    from_node: pending_at(final(self).pending_requests@, request_id).from_node,
                    client_timestamp,
                    receive_time_ns: receive_ns,
                })
                &&& pending_at(final(self).pending_requests@, request_id).from_node@ == from@
                &&& forall|rid: u128|
                    rid != request_id ==> pending_contains(final(self).pending_requests@, rid)
                        == pending_contains(old(self).pending_requests@, rid)
                &&& final(self).pending_requests@.len() == if pending_contains(
                    old(self).pending_requests@,
                    request_id,
                ) {
                    old(self).pending_requests@.len()
                } else {
                    old(self).pending_requests@.len() + 1
                }
                &&& final(self).sync_sessions == old(self).sync_sessions
                &&& final(self).stats == old(self).stats
                &&& final(self).server_id == old(self).server_id
                &&& final(self).heartbeat_running == old(self).heartbeat_running
                &&& final(self).heartbeat_sequence == old(self).heartbeat_sequence
            },
    {
        if let Err(e) = Self::validate_timestamp_at(now_ms, client_timestamp) {
            return Err(e);
        }
        let processing_time_ns: u64 = if now_ns >= receive_ns {
            now_ns - receive_ns
        } else {
            0
        };
        let record = TimeRequest {
            request_id,
            from_node: from,
            client_timestamp,
            receive_time_ns: receive_ns,
        };
        self.insert_pending(record);
        Ok(
            TimeSyncMessageType::TimeResponse {
                request_id,
                server_timestamp: now_ms,
                client_timestamp,
                processing_time_ns,
            },
        )
    }

    /// Stores an in-flight query record; an existing record with the same
    /// request id is replaced.
    fn insert_pending(&mut self, record: TimeRequest)
        requires
            old(self).wf(),
        ensures
            final(self).wf(),
            pending_contains(final(self).pending_requests@, record.request_id),
            pending_at(final(self).pending_requests@, record.request_id) == record,
            forall|rid: u128|
                rid != record.request_id ==> pending_contains(final(self).pending_requests@, rid)
                    == pending_contains(old(self).pending_requests@, rid),
            final(self).pending_requests@.len() == if pending_contains(
                old(self).pending_requests@,
                record.request_id,
            ) {
                old(self).pending_requests@.len()
            } else {
                old(self).pending_requests@.len() + 1
            },
            final(self).sync_sessions == old(self).sync_sessions,
            final(self).stats == old(self).stats,
            final(self).server_id == old(self).server_id,
            final(self).heartbeat_running == old(self).heartbeat_running,
            final(self).heartbeat_interval_ms == old(self).heartbeat_interval_ms,
            final(self).heartbeat_sequence == old(self).heartbeat_sequence,
    {
        let rid = record.request_id;
        let n = self.pending_requests.len();
        let mut i: usize = 0;
        while i < n
            invariant
                rid == record.request_id,
                *self == *old(self),
                old(self).wf(),
                n == self.pending_requests@.len(),
                0 <= i <= n,
                forall|k: int| 0 <= k < i ==> self.pending_requests@[k].request_id != rid,
            decreases n - i,
        {
            if self.pending_requests[i].request_id == rid {
                let ghost before = self.pending_requests@;
                self.pending_requests[i] = record;
                proof {
                    let after = self.pending_requests@;
                    assert(after[i as int] == record);
                    assert(before[i as int].request_id == rid);
                    assert forall|a: int, b: int|
                        0 <= a < b < after.len() implies after[a].request_id
                        != after[b].request_id by {
                        assert(before[a].request_id != before[b].request_id);
                        if a == i {
                            assert(after[a].request_id == before[a].request_id);
                            assert(after[b] == before[b]);
                        } else if b == i {
                            assert(after[b].request_id == before[b].request_id);
                            assert(after[a] == before[a]);
                        } else {
                            assert(after[a] == before[a]);
                            assert(after[b] == before[b]);
                        }
                    }
                    lemma_pending_lookup_at(after, i as int);
                    assert forall|r2: u128| r2 != rid implies pending_contains(after, r2)
                        == pending_contains(before, r2) by {
                        if pending_contains(before, r2) {
                            let w = choose|w: int|
                                0 <= w < before.len() && before[w].request_id == r2;
                            if w == i {
                                assert(false);
                            } else {
                                assert(after[w] == before[w]);
                                assert(after[w].request_id == r2);
                            }
                        }
                        if pending_contains(after, r2) {
                            let w = choose|w: int| 0 <= w < after.len() && after[w].request_id
                                == r2;
                            if w == i {
                                assert(false);
                            } else {
                                assert(after[w] == before[w]);
                                assert(before[w].request_id == r2);
                            }
                        }
                    }
                    assert(pending_contains(before, rid)) by {
                        assert(before[i as int].request_id == rid);
                    }
                }
                return ;
            }
            i += 1;
        }
        let ghost before = self.pending_requests@;
        self.pending_requests.push(record);
        proof {
            let after = self.pending_requests@;
            assert(after[before.len() as int].request_id == rid);
            assert forall|a: int, b: int|
                0 <= a < b < after.len() implies after[a].request_id != after[b].request_id by {
                if b < before.len() {
                    assert(before[a].request_id != before[b].request_id);
                } else {
                    assert(after[a] == before[a]);
                    assert(!pending_contains(before, rid));
                }
            }
            lemma_pending_lookup_at(after, before.len() as int);
            assert forall|r2: u128| r2 != rid implies pending_contains(after, r2)
                == pending_contains(before, r2) by {
                if pending_contains(before, r2) {
                    let w = choose|w: int| 0 <= w < before.len() && before[w].request_id == r2;
                    assert(after[w].request_id == r2);
                }
                if pending_contains(after, r2) {
                    let w = choose|w: int| 0 <= w < after.len() && after[w].request_id == r2;
                    assert(w < before.len());
                    assert(before[w].request_id == r2);
                }
            }
        }
    }

    /// Reports a time reply as sent: discards the in-flight record and
    /// counts the served request, stamping the moment.
    pub fn complete_time_request(&mut self, request_id: u128, now_ms: i64) -> (removed: bool)
        requires
            old(self).wf(),
        ensures
            final(self).wf(),
            removed == pending_contains(old(self).pending_requests@, request_id),
            !pending_contains(final(self).pending_requests@, request_id),
            forall|rid: u128|
                rid != request_id ==> pending_contains(final(self).pending_requests@, rid)
                    == pending_contains(old(self).pending_requests@, rid),
            final(self).pending_requests@.len() == if pending_contains(
                old(self).pending_requests@,
                request_id,
            ) {
                old(self).pending_requests@.len() - 1
            } else {
                old(self).pending_requests@.len() as int
            },
            final(self).stats == (SyncStats {
                total_requests: sat_inc(old(self).stats.total_requests),
                last_sync_time: Some(now_ms),
                ..old(self).stats
            }),
            final(self).sync_sessions == old(self).sync_sessions,
            final(self).server_id == old(self).server_id,
            final(self).heartbeat_running == old(self).heartbeat_running,
            final(self).heartbeat_sequence == old(self).heartbeat_sequence,
    {
        let removed = self.remove_pending(request_id);
        if self.stats.total_requests < u64::MAX {
            self.stats.total_requests = self.stats.total_requests + 1;
        }
        self.stats.last_sync_time = Some(now_ms);
        removed
    }

    /// Drops the in-flight record for a request id, if one exists.
    fn remove_pending(&mut self, request_id: u128) -> (removed: bool)
        requires
            old(self).wf(),
        ensures
            final(self).wf(),
            removed == pending_contains(old(self).pending_requests@, request_id),
            !pending_contains(final(self).pending_requests@, request_id),
            forall|rid: u128|
                rid != request_id ==> pending_contains(final(self).pending_requests@, rid)
                    == pending_contains(old(self).pending_requests@, rid),
            final(self).pending_requests@.len() == if pending_contains(
                old(self).pending_requests@,
                request_id,
            ) {
                old(self).pending_requests@.len() - 1
            } else {
                old(self).pending_requests@.len() as int
            },
            final(self).sync_sessions == old(self).sync_sessions,
            final(self).stats == old(self).stats,
            final(self).server_id == old(self).server_id,
            final(self).heartbeat_running == old(self).heartbeat_running,
            final(self).heartbeat_interval_ms == old(self).heartbeat_interval_ms,
            final(self).heartbeat_sequence == old(self).heartbeat_sequence,
    {
        let n = self.pending_requests.len();
        let mut i: usize = 0;
        while i < n
            invariant
                *self == *old(self),
                old(self).wf(),
                n == self.pending_requests@.len(),
                0 <= i <= n,
                forall|k: int| 0 <= k < i ==> self.pending_requests@[k].request_id != request_id,
            decreases n - i,
        {
            if self.pending_requests[i].request_id == request_id {
                let ghost before = self.pending_requests@;
                self.pending_requests.remove(i);
                proof {
                    let after = self.pending_requests@;
                    before.remove_ensures(i as int);
                    assert forall|a: int, b: int|
                        0 <= a < b < after.len() implies after[a].request_id
                        != after[b].request_id by {
                        let oa: int = if a < i {
                            a
                        } else {
                            a + 1
                        };
                        let ob: int = if b < i {
                            b
                        } else {
                            b + 1
                        };
                        assert(after[a] == before[oa]);
                        assert(after[b] == before[ob]);
                        assert(before[oa].request_id != before[ob].request_id);
                    }
                    assert forall|k: int| 0 <= k < after.len() implies after[k].request_id
                        != request_id by {
                        if k < i {
                            assert(after[k] == before[k]);
                        } else {
                            assert(after[k] == before[k + 1]);
                        }
                    }
                    assert forall|r2: u128| r2 != request_id implies pending_contains(after, r2)
                        == pending_contains(before, r2) by {
                        if pending_contains(before, r2) {
                            let w = choose|w: int|
                                0 <= w < before.len() && before[w].request_id == r2;
                            if w < i {
                                assert(after[w] == before[w]);
                                assert(after[w].request_id == r2);
                            } else if w == i {
                                assert(before[i as int].request_id == request_id);
                                assert(false);
                            } else {
                                assert(after[w - 1] == before[w]);
                                assert(after[w - 1].request_id == r2);
                            }
                        }
                        if pending_contains(after, r2) {
                            let w = choose|w: int| 0 <= w < after.len() && after[w].request_id
                                == r2;
                            if w < i {
                                assert(after[w] == before[w]);
                                assert(before[w].request_id == r2);
                            } else {
                                assert(after[w] == before[w + 1]);
                                assert(before[w + 1].request_id == r2);
                            }
                        }
                    }
                    assert(pending_contains(before, request_id)) by {
                        assert(before[i as int].request_id == request_id);
                    }
                }
                return true;
            }
            i += 1;
        }
        false
    }

    /// Serves a synchronization request: validates the client timestamp
    /// and the requested interval, computes the clock offset (server time
    /// minus client time), creates or updates the peer's session in place,
    /// counts the exchange into the running average, and returns the reply
    /// to send. The reported round-trip time is the fixed placeholder.
    pub fn handle_sync_request(
        &mut self,
        from: String,
        request_id: u128,
        client_time: i64,
        sync_interval_ms: u64,
        now_ms: i64,
    ) -> (r: Result<TimeSyncMessageType, TimeSyncError>)
        requires
            old(self).wf(),
        ensures
            final(self).wf(),
            !timestamp_valid(now_ms, client_time) ==> {
                &&& r == Err::<TimeSyncMessageType, TimeSyncError>(
                    TimeSyncError::InvalidTimestamp(client_time),
                )
                &&& *final(self) == *old(self)
            },
            timestamp_valid(now_ms, client_time) && !sync_interval_valid(sync_interval_ms) ==> {
                &&& r == Err::<TimeSyncMessageType, TimeSyncError>(
                    TimeSyncError::InvalidSyncInterval(sync_interval_ms),
                )
                &&& *final(self) == *old(self)
            },
            timestamp_valid(now_ms, client_time) && sync_interval_valid(sync_interval_ms) ==> {
                &&& r == Ok::<TimeSyncMessageType, TimeSyncError>(
                    TimeSyncMessageType::SyncResponse {
                        request_id,
                        server_time: now_ms,
                        client_time,
                        time_offset_ms: (now_ms - client_time) as i64,
                        round_trip_time_ms: ROUND_TRIP_PLACEHOLDER_MS as u64,
                    },
                )
                &&& session_upserted(
                    old(self).sync_sessions@,
                    final(self).sync_sessions@,
                    from@,
                    now_ms,
                    (now_ms - client_time) as i64,
                    sync_interval_ms,
                )
                &&& final(self).stats.total_requests == sat_inc(old(self).stats.total_requests)
                &&& final(self).stats.total_responses == sat_inc(old(self).stats.total_responses)
                &&& final(self).stats.avg_response_time_ms == avg_after(
                    old(self).stats.avg_response_time_ms,
                    ROUND_TRIP_PLACEHOLDER_MS as u64,
                    sat_inc(old(self).stats.total_responses),
                )
                &&& final(self).stats.last_sync_time == Some(now_ms)
                &&& final(self).stats.heartbeat_count == old(self).stats.heartbeat_count
                &&& final(self).pending_requests == old(self).pending_requests
                &&& final(self).server_id == old(self).server_id
                &&& final(self).heartbeat_running == old(self).heartbeat_running
                &&& final(self).heartbeat_sequence == old(self).heartbeat_sequence
            },
    {
        if let Err(e) = Self::validate_timestamp_at(now_ms, client_time) {
            return Err(e);
        }
        if sync_interval_ms < MIN_SYNC_INTERVAL_MS || sync_interval_ms > MAX_SYNC_INTERVAL_MS {
            return Err(TimeSyncError::InvalidSyncInterval(sync_interval_ms));
        }
        let time_offset_ms = now_ms - client_time;
        self.upsert_session(from, now_ms, time_offset_ms, sync_interval_ms);
        proof {
            lemma_avg_after_bounds(
                self.stats.avg_response_time_ms,
                ROUND_TRIP_PLACEHOLDER_MS as u64,
                sat_inc(self.stats.total_responses),
            );
        }
        self.record_sync_served(now_ms);
        Ok(
            TimeSyncMessageType::SyncResponse {
                request_id,
                server_time: now_ms,
                client_time,
                time_offset_ms,
                round_trip_time_ms: ROUND_TRIP_PLACEHOLDER_MS,
            },
        )
    }

    /// Creates or updates the session of `from`: the new session carries
    /// this exchange's clock values and a request count one higher than
    /// before (one on first contact).
    fn upsert_session(&mut self, from: String, now_ms: i64, time_offset_ms: i64, interval: u64)
        requires
            old(self).wf(),
        ensures
            final(self).wf(),
            session_upserted(
                old(self).sync_sessions@,
                final(self).sync_sessions@,
                from@,
                now_ms,
                time_offset_ms,
                interval,
            ),
            final(self).stats == (SyncStats {
                active_sessions: final(self).sync_sessions@.len() as usize,
                ..old(self).stats
            }),
            final(self).pending_requests == old(self).pending_requests,
            final(self).server_id == old(self).server_id,
            final(self).heartbeat_running == old(self).heartbeat_running,
            final(self).heartbeat_interval_ms == old(self).heartbeat_interval_ms,
            final(self).heartbeat_sequence == old(self).heartbeat_sequence,
    {
        let n = self.sync_sessions.len();
        let mut i: usize = 0;
        while i < n
            invariant
                *self == *old(self),
                old(self).wf(),
                n == self.sync_sessions@.len(),
                0 <= i <= n,
                forall|k: int| 0 <= k < i ==> self.sync_sessions@[k].node_id@ != from@,
            decreases n - i,
        {
            if self.sync_sessions[i].node_id == from {
                let ghost before = self.sync_sessions@;
                let prev_count = self.sync_sessions[i].request_count;
                let new_count: u64 = if prev_count < u64::MAX {
                    prev_count + 1
                } else {
                    prev_count
                };
                self.sync_sessions[i] = SyncSession {
                    node_id: from,
                    last_sync_time: now_ms,
                    time_offset_ms,
                    sync_interval_ms: interval,
                    request_count: new_count,
                };
                self.stats.active_sessions = self.sync_sessions.len();
                proof {
                    let after = self.sync_sessions@;
                    assert forall|a: int, b: int|
                        0 <= a < b < after.len() implies after[a].node_id@ != after[b].node_id@ by {
                        assert(before[a].node_id@ != before[b].node_id@);
                        assert(before[i as int].node_id@ == from@);
                    }
                    lemma_session_lookup_at(before, i as int);
                    lemma_session_lookup_at(after, i as int);
                    assert forall|k: Seq<char>| k != from@ implies sessions_contain(after, k)
                        == sessions_contain(before, k) by {
                        if sessions_contain(before, k) {
                            let w = choose|w: int| 0 <= w < before.len() && before[w].node_id@
                                == k;
                            assert(after[w].node_id@ == k);
                        }
                        if sessions_contain(after, k) {
                            let w = choose|w: int| 0 <= w < after.len() && after[w].node_id@ == k;
                            assert(before[w].node_id@ == k);
                        }
                    }
                    assert forall|k: Seq<char>|
                        k != from@ && sessions_contain(before, k) implies session_at(after, k)
                        == session_at(before, k) by {
                        let w = choose|w: int| 0 <= w < before.len() && before[w].node_id@ == k;
                        lemma_session_lookup_at(before, w);
                        assert(after[w].node_id@ == k);
                        lemma_session_lookup_at(after, w);
                    }
                }
                return ;
            }
            i += 1;
        }
        let ghost before = self.sync_sessions@;
        let ghost fromv = from@;
        self.sync_sessions.push(
            SyncSession {
                node_id: from,
                last_sync_time: now_ms,
                time_offset_ms,
                sync_interval_ms: interval,
                request_count: 1,
            },
        );
        self.stats.active_sessions = self.sync_sessions.len();
        proof {
            let after = self.sync_sessions@;
            assert(after[before.len() as int].node_id@ == fromv);
            assert forall|a: int, b: int|
                0 <= a < b < after.len() implies after[a].node_id@ != after[b].node_id@ by {
                if b < before.len() {
                    assert(before[a].node_id@ != before[b].node_id@);
                } else {
                    assert(after[a] == before[a]);
                    assert(!sessions_contain(before, fromv));
                }
            }
            lemma_session_lookup_at(after, before.len() as int);
            assert forall|k: Seq<char>| k != fromv implies sessions_contain(after, k)
                == sessions_contain(before, k) by {
                if sessions_contain(before, k) {
                    let w = choose|w: int| 0 <= w < before.len() && before[w].node_id@ == k;
                    assert(after[w].node_id@ == k);
                }
                if sessions_contain(after, k) {
                    let w = choose|w: int| 0 <= w < after.len() && after[w].node_id@ == k;
                    assert(w < before.len());
                    assert(before[w].node_id@ == k);
                }
            }
            assert forall|k: Seq<char>|
                k != fromv && sessions_contain(before, k) implies session_at(after, k)
                == session_at(before, k) by {
                let w = choose|w: int| 0 <= w < before.len() && before[w].node_id@ == k;
                lemma_session_lookup_at(before, w);
                assert(after[w].node_id@ == k);
                lemma_session_lookup_at(after, w);
            }
        }
    }

    /// Counts one served synchronization exchange: both counters are
    /// bumped and the running average takes the placeholder round-trip
    /// sample, with the post-increment response count as its weight.
    fn record_sync_served(&mut self, now_ms: i64)
        ensures
            final(self).stats == (SyncStats {
                total_requests: sat_inc(old(self).stats.total_requests),
                total_responses: sat_inc(old(self).stats.total_responses),
                avg_response_time_ms: avg_after(
                    old(self).stats.avg_response_time_ms,
                    ROUND_TRIP_PLACEHOLDER_MS as u64,
                    sat_inc(old(self).stats.total_responses),
                ) as u64,
                last_sync_time: Some(now_ms),
                ..old(self).stats
            }),
            final(self).pending_requests == old(self).pending_requests,
            final(self).sync_sessions == old(self).sync_sessions,
            final(self).server_id == old(self).server_id,
            final(self).heartbeat_running == old(self).heartbeat_running,
            final(self).heartbeat_interval_ms == old(self).heartbeat_interval_ms,
            final(self).heartbeat_sequence == old(self).heartbeat_sequence,
    {
        if self.stats.total_requests < u64::MAX {
            self.stats.total_requests = self.stats.total_requests + 1;
        }
        if self.stats.total_responses < u64::MAX {
            self.stats.total_responses = self.stats.total_responses + 1;
        }
        let n: u64 = self.stats.total_responses;
        let avg: u64 = self.stats.avg_response_time_ms;
        proof {
            lemma_avg_after_bounds(avg, ROUND_TRIP_PLACEHOLDER_MS as u64, n);
            assert(avg as int * (n as int - 1) <= u64::MAX as int * u64::MAX as int)
                by (nonlinear_arith)
                requires
                    0 <= avg as int <= u64::MAX as int,
                    1 <= n as int,
                    n as int - 1 <= u64::MAX as int,
            ;
        }
        let weighted: u128 = avg as u128 * (n - 1) as u128 + ROUND_TRIP_PLACEHOLDER_MS as u128;
        let new_avg: u64 = (weighted / n as u128) as u64;
        self.stats.avg_response_time_ms = new_avg;
        self.stats.last_sync_time = Some(now_ms);
    }

    /// Builds the time query to send to a peer: the protocol payload
    /// carries the request id and this clock reading, and the options ask
    /// for a response.
    pub fn request_time(&self, request_id: u128, now_ms: i64) -> (r: (
        NetworkMessage,
        UnicastOptions,
    ))
        ensures
            r.0.message_type.0@ == "timesync"@,
            r.0.sender == self.server_id,
            r.0.payload == Payload::TimeSync(
                TimeSyncMessageType::TimeRequest { request_id, client_timestamp: now_ms },
            ),
            r.1.wait_for_response == true,
            r.1.timeout_ms == Some(5000u64),
            r.1.retry_count == 2,
    {
        let payload = Payload::TimeSync(
            TimeSyncMessageType::TimeRequest { request_id, client_timestamp: now_ms },
        );
        let message = NetworkMessage::new(MessageType::timesync(), self.server_id.clone(), payload);
        let options = UnicastOptions {
            wait_for_response: true,
            timeout_ms: Some(5000),
            retry_count: 2,
        };
        (message, options)
    }

    /// Builds the synchronization request to send to a peer.
    pub fn request_sync(&self, request_id: u128, now_ms: i64, sync_interval_ms: u64) -> (r: (
        NetworkMessage,
        UnicastOptions,
    ))
        ensures
            r.0.message_type.0@ == "timesync"@,
            r.0.sender == self.server_id,
            r.0.payload == Payload::TimeSync(
                TimeSyncMessageType::SyncRequest {
                    request_id,
                    client_time: now_ms,
                    sync_interval_ms,
                },
            ),
            r.1.wait_for_response == true,
            r.1.timeout_ms == Some(5000u64),
            r.1.retry_count == 2,
    {
        let payload = Payload::TimeSync(
            TimeSyncMessageType::SyncRequest { request_id, client_time: now_ms, sync_interval_ms },
        );
        let message = NetworkMessage::new(MessageType::timesync(), self.server_id.clone(), payload);
        let options = UnicastOptions {
            wait_for_response: true,
            timeout_ms: Some(5000),
            retry_count: 2,
        };
        (message, options)
    }

    /// Wraps a protocol reply in an envelope addressed from this server,
    /// with the send options replies use.
    pub fn response_message(&self, reply: TimeSyncMessageType) -> (r: (
        NetworkMessage,
        UnicastOptions,
    ))
        ensures
            r.0.message_type.0@ == "timesync"@,
            r.0.sender == self.server_id,
            r.0.payload == Payload::TimeSync(reply),
            r.1.wait_for_response == false,
            r.1.timeout_ms == Some(3000u64),
            r.1.retry_count == 1,
    {
        let message = NetworkMessage::new(
            MessageType::timesync(),
            self.server_id.clone(),
            Payload::TimeSync(reply),
        );
        let options = UnicastOptions {
            wait_for_response: false,
            timeout_ms: Some(3000),
            retry_count: 1,
        };
        (message, options)
    }

    /// Starts the heartbeat: fails with an already-started error, changing
    /// nothing, if one is running.
    pub fn start_heartbeat(&mut self, interval_ms: u64) -> (r: Result<(), TimeSyncError>)
        ensures
            old(self).heartbeat_running ==> {
                &&& r == Err::<(), TimeSyncError>(TimeSyncError::HeartbeatAlreadyStarted)
                &&& *final(self) == *old(self)
            },
            !old(self).heartbeat_running ==> {
                &&& r is Ok
                &&& final(self).heartbeat_running == true
                &&& final(self).heartbeat_interval_ms == interval_ms
                &&& final(self).heartbeat_sequence == old(self).heartbeat_sequence
                &&& final(self).pending_requests == old(self).pending_requests
                &&& final(self).sync_sessions == old(self).sync_sessions
                &&& final(self).stats == old(self).stats
                &&& final(self).server_id == old(self).server_id
            },
    {
        if self.heartbeat_running {
            return Err(TimeSyncError::HeartbeatAlreadyStarted);
        }
        self.heartbeat_running = true;
        self.heartbeat_interval_ms = interval_ms;
        Ok(())
    }

    /// Stops the heartbeat: fails with a not-started error, changing
    /// nothing, if none is running. The sequence number is kept.
    pub fn stop_heartbeat(&mut self) -> (r: Result<(), TimeSyncError>)
        ensures
            !old(self).heartbeat_running ==> {
                &&& r == Err::<(), TimeSyncError>(TimeSyncError::HeartbeatNotStarted)
                &&& *final(self) == *old(self)
            },
            old(self).heartbeat_running ==> {
                &&& r is Ok
                &&& final(self).heartbeat_running == false
                &&& final(self).heartbeat_interval_ms == old(self).heartbeat_interval_ms
                &&& final(self).heartbeat_sequence == old(self).heartbeat_sequence
                &&& final(self).pending_requests == old(self).pending_requests
                &&& final(self).sync_sessions == old(self).sync_sessions
                &&& final(self).stats == old(self).stats
                &&& final(self).server_id == old(self).server_id
            },
    {
        if !self.heartbeat_running {
            return Err(TimeSyncError::HeartbeatNotStarted);
        }
        self.heartbeat_running = false;
        Ok(())
    }

    /// One heartbeat tick: bumps the sequence and returns the beacon to
    /// broadcast. Fails with a not-started error if no heartbeat runs.
    pub fn heartbeat_tick(&mut self, now_ms: i64) -> (r: Result<NetworkMessage, TimeSyncError>)
        ensures
            !old(self).heartbeat_running ==> {
                &&& r == Err::<NetworkMessage, TimeSyncError>(TimeSyncError::HeartbeatNotStarted)
                &&& *final(self) == *old(self)
            },
            old(self).heartbeat_running ==> {
                &&& final(self).heartbeat_sequence == sat_inc(old(self).heartbeat_sequence)
                &&& r matches Ok(msg) && msg.message_type.0@ == "timesync"@ && msg.sender == old(
                    self,
                ).server_id && msg.payload == Payload::TimeSync(
                    TimeSyncMessageType::Heartbeat {
                        timestamp: now_ms,
                        sequence: final(self).heartbeat_sequence,
                    },
                )
                &&& final(self).heartbeat_running == true
                &&& final(self).heartbeat_interval_ms == old(self).heartbeat_interval_ms
                &&& final(self).pending_requests == old(self).pending_requests
                &&& final(self).sync_sessions == old(self).sync_sessions
                &&& final(self).stats == old(self).stats
                &&& final(self).server_id == old(self).server_id
            },
    {
        if !self.heartbeat_running {
            return Err(TimeSyncError::HeartbeatNotStarted);
        }
        if self.heartbeat_sequence < u64::MAX {
            self.heartbeat_sequence = self.heartbeat_sequence + 1;
        }
        let payload = Payload::TimeSync(
            TimeSyncMessageType::Heartbeat { timestamp: now_ms, sequence: self.heartbeat_sequence },
        );
        let message = NetworkMessage::new(MessageType::timesync(), self.server_id.clone(), payload);
        Ok(message)
    }

    /// Counts one heartbeat broadcast that went out.
    pub fn record_heartbeat_sent(&mut self)
        ensures
            final(self).stats == (SyncStats {
                heartbeat_count: sat_inc(old(self).stats.heartbeat_count),
                ..old(self).stats
            }),
            final(self).pending_requests == old(self).pending_requests,
            final(self).sync_sessions == old(self).sync_sessions,
            final(self).server_id == old(self).server_id,
            final(self).heartbeat_running == old(self).heartbeat_running,
            final(self).heartbeat_interval_ms == old(self).heartbeat_interval_ms,
            final(self).heartbeat_sequence == old(self).heartbeat_sequence,
    {
        if self.stats.heartbeat_count < u64::MAX {
            self.stats.heartbeat_count = self.stats.heartbeat_count + 1;
        }
    }

    /// The server's current clock and identity: millisecond precision,
    /// UTC.
    pub fn get_time_info(&self) -> (r: Result<TimeInfo, TimeSyncError>)
        ensures
            r matches Ok(info) && info.server_id == self.server_id && info.timezone@ == "UTC"@
                && info.precision_ns == 1000000,
    {
        let current_time = current_timestamp_ms();
        let timezone = utc_timezone_name();
        Ok(
            TimeInfo {
                current_time,
                timezone,
                precision_ns: 1000000,
                server_id: self.server_id.clone(),
            },
        )
    }

    /// A snapshot of the aggregate counters.
    pub fn get_sync_stats(&self) -> (r: Result<SyncStats, TimeSyncError>)
        ensures
            r == Ok::<SyncStats, TimeSyncError>(self.stats),
    {
        Ok(self.stats)
    }

    /// A copy of the session tracked for `node_id`, if any.
    pub fn get_sync_session(&self, node_id: &String) -> (r: Option<SyncSession>)
        requires
            self.wf(),
        ensures
            match r {
                Some(s) => sessions_contain(self.sync_sessions@, node_id@) && s == session_at(
                    self.sync_sessions@,
                    node_id@,
                ),
                None => !sessions_contain(self.sync_sessions@, node_id@),
            },
    {
        let n = self.sync_sessions.len();
        let mut i: usize = 0;
        while i < n
            invariant
                self.wf(),
                n == self.sync_sessions@.len(),
                0 <= i <= n,
                forall|k: int| 0 <= k < i ==> self.sync_sessions@[k].node_id@ != node_id@,
            decreases n - i,
        {
            if self.sync_sessions[i].node_id == *node_id {
                proof {
                    lemma_session_lookup_at(self.sync_sessions@, i as int);
                }
                let s = &self.sync_sessions[i];
                return Some(
                    SyncSession {
                        node_id: s.node_id.clone(),
                        last_sync_time: s.last_sync_time,
                        time_offset_ms: s.time_offset_ms,
                        sync_interval_ms: s.sync_interval_ms,
                        request_count: s.request_count,
                    },
                );
            }
            i += 1;
        }
        None
    }

    /// How many peer sessions are tracked.
    pub fn session_count(&self) -> (r: usize)
        ensures
            r == self.sync_sessions@.len(),
    {
        self.sync_sessions.len()
    }

    /// How many time queries are in flight.
    pub fn pending_count(&self) -> (r: usize)
        ensures
            r == self.pending_requests@.len(),
    {
        self.pending_requests.len()
    }
}

} // verus!
