//! Crate-wide laws: properties that relate several operations, stated and
//! proved over the same spec functions the operations' contracts use.

use crate::registry::{reg_contains, reg_keys_distinct, NodeEntry};
use crate::service::{
    broadcast_targets,
    is_broadcast_target,
    str_seq_contains,
    strs_distinct,
    NetworkService,
};
use crate::timesync::{sat_inc, session_at, session_upserted, sessions_contain, SyncSession};
use vstd::prelude::*;

verus! {

/// A node never lists itself among its connected nodes: while a service
/// runs, its local node id is registered, yet any list satisfying the
/// `get_connected_nodes` contract holds only ids different from it.
pub proof fn lemma_local_node_excluded(s: NetworkService, nodes: Seq<String>)
    requires
        s.wf(),
        s.is_running,
        s.connected_nodes_ok(nodes),
    ensures
        s.registry.spec_contains(s.spec_local_id()),
        forall|i: int| 0 <= i < nodes.len() ==> #[trigger] nodes[i]@ != s.spec_local_id(),
{
}

/// Dropping the last element keeps registry keys distinct.
proof fn lemma_drop_last_distinct(entries: Seq<NodeEntry>)
    requires
        reg_keys_distinct(entries),
        entries.len() > 0,
    ensures
        reg_keys_distinct(entries.drop_last()),
{
    let s = entries.drop_last();
    assert forall|i: int, j: int|
        0 <= i < j < s.len() implies s[i].node_id@ != s[j].node_id@ by {
        assert(s[i] == entries[i]);
        assert(s[j] == entries[j]);
    }
}

/// The counting generalization behind the broadcast fan-out bound: the
/// targets, the excluded-and-present nodes and the local node (if
/// registered) are pairwise disjoint classes of registry entries.
proof fn lemma_targets_count(entries: Seq<NodeEntry>, local: Seq<char>, excluded: Seq<String>)
    requires
        reg_keys_distinct(entries),
        strs_distinct(excluded),
        forall|j: int|
            0 <= j < excluded.len() ==> reg_contains(entries, #[trigger] excluded[j]@)
                && excluded[j]@ != local,
    ensures
        broadcast_targets(entries, local, excluded).len() + excluded.len() + (
        if reg_contains(entries, local) {
            1int
        } else {
            0int
        }) <= entries.len(),
    decreases entries.len(),
{
    if entries.len() == 0 {
        if excluded.len() > 0 {
            assert(reg_contains(entries, excluded[0]@));
            assert(false);
        }
        assert(!reg_contains(entries, local));
    } else {
        let e = entries.last();
        let s = entries.drop_last();
        let last_idx = entries.len() - 1;
        lemma_drop_last_distinct(entries);
        if e.node_id@ == local {
            assert forall|j: int|
                0 <= j < excluded.len() implies reg_contains(s, #[trigger] excluded[j]@)
                && excluded[j]@ != local by {
                let w = choose|w: int|
                    0 <= w < entries.len() && entries[w].node_id@ == excluded[j]@;
                assert(w != last_idx);
                assert(s[w] == entries[w]);
            }
            lemma_targets_count(s, local, excluded);
            assert(!is_broadcast_target(e, local, excluded));
            assert(reg_contains(entries, local)) by {
                assert(entries[last_idx].node_id@ == local);
            }
        } else if str_seq_contains(excluded, e.node_id@) {
            let j = choose|j: int| 0 <= j < excluded.len() && excluded[j]@ == e.node_id@;
            let shorter = excluded.remove(j);
            excluded.remove_ensures(j);
            assert forall|a: int, b: int|
                0 <= a < b < shorter.len() implies shorter[a]@ != shorter[b]@ by {
                let oa: int = if a < j {
                    a
                } else {
                    a + 1
                };
                let ob: int = if b < j {
                    b
                } else {
                    b + 1
                };
                assert(shorter[a] == excluded[oa]);
                assert(shorter[b] == excluded[ob]);
            }
            assert forall|m: int|
                0 <= m < shorter.len() implies reg_contains(s, #[trigger] shorter[m]@)
                && shorter[m]@ != local by {
                let om: int = if m < j {
                    m
                } else {
                    m + 1
                };
                assert(shorter[m] == excluded[om]);
                assert(shorter[m]@ != excluded[j]@);
                let w = choose|w: int|
                    0 <= w < entries.len() && entries[w].node_id@ == excluded[om]@;
                assert(w != last_idx);
                assert(s[w] == entries[w]);
            }
            lemma_targets_count(s, local, shorter);
            // In `s` the two exclude lists agree: the one extra excluded id
            // names the dropped last entry, whose id no other entry carries.
            assert forall|i: int|
                0 <= i < s.len() implies is_broadcast_target(#[trigger] s[i], local, excluded)
                == is_broadcast_target(s[i], local, shorter) by {
                assert(s[i] == entries[i]);
                assert(entries[i].node_id@ != e.node_id@);
                if str_seq_contains(excluded, s[i].node_id@) {
                    let m = choose|m: int|
                        0 <= m < excluded.len() && excluded[m]@ == s[i].node_id@;
                    assert(m != j);
                    if m < j {
                        assert(shorter[m]@ == s[i].node_id@);
                    } else {
                        assert(shorter[m - 1] == excluded[m]);
                        assert(shorter[m - 1]@ == s[i].node_id@);
                    }
                    assert(str_seq_contains(shorter, s[i].node_id@));
                }
                if str_seq_contains(shorter, s[i].node_id@) {
                    let m = choose|m: int| 0 <= m < shorter.len() && shorter[m]@ == s[i].node_id@;
                    let om: int = if m < j {
                        m
                    } else {
                        m + 1
                    };
                    assert(shorter[m] == excluded[om]);
                    assert(str_seq_contains(excluded, s[i].node_id@));
                }
            }
            lemma_targets_agree(s, local, excluded, shorter);
            assert(!is_broadcast_target(e, local, excluded));
            // The local node, if registered at all, sits among the first
            // entries: the last entry carries an excluded id instead.
            if reg_contains(entries, local) {
                let w = choose|w: int|
                    0 <= w < entries.len() && entries[w].node_id@ == local;
                assert(w != last_idx);
                assert(s[w] == entries[w]);
                assert(reg_contains(s, local));
            }
        } else {
            assert forall|j: int|
                0 <= j < excluded.len() implies reg_contains(s, #[trigger] excluded[j]@)
                && excluded[j]@ != local by {
                let w = choose|w: int|
                    0 <= w < entries.len() && entries[w].node_id@ == excluded[j]@;
                assert(w != last_idx) by {
                    if w == last_idx {
                        assert(str_seq_contains(excluded, e.node_id@));
                    }
                }
                assert(s[w] == entries[w]);
            }
            lemma_targets_count(s, local, excluded);
            assert(is_broadcast_target(e, local, excluded));
            if reg_contains(entries, local) {
                let w = choose|w: int|
                    0 <= w < entries.len() && entries[w].node_id@ == local;
                assert(w != last_idx);
                assert(s[w] == entries[w]);
                assert(reg_contains(s, local));
            }
            if reg_contains(s, local) {
                let w = choose|w: int| 0 <= w < s.len() && s[w].node_id@ == local;
                assert(entries[w].node_id@ == local);
                assert(reg_contains(entries, local));
            }
        }
    }
}

/// Two exclude lists that agree on every entry of a registry slice yield
/// the same broadcast targets for it.
proof fn lemma_targets_agree(
    entries: Seq<NodeEntry>,
    local: Seq<char>,
    excl1: Seq<String>,
    excl2: Seq<String>,
)
    requires
        forall|i: int|
            0 <= i < entries.len() ==> is_broadcast_target(#[trigger] entries[i], local, excl1)
                == is_broadcast_target(entries[i], local, excl2),
    ensures
        broadcast_targets(entries, local, excl1) == broadcast_targets(entries, local, excl2),
    decreases entries.len(),
{
    if entries.len() > 0 {
        let s = entries.drop_last();
        assert forall|i: int|
            0 <= i < s.len() implies is_broadcast_target(#[trigger] s[i], local, excl1)
            == is_broadcast_target(s[i], local, excl2) by {
            assert(s[i] == entries[i]);
        }
        lemma_targets_agree(s, local, excl1, excl2);
        assert(entries.last() == entries[entries.len() - 1]);
    }
}

/// The broadcast fan-out bound: with the local node registered among `N`
/// entries and `k` distinct excluded nodes, all registered and none the
/// local node, a broadcast plans at most `N - 1 - k` outbound calls (the
/// local node is always skipped).
pub proof fn lemma_broadcast_target_bound(
    entries: Seq<NodeEntry>,
    local: Seq<char>,
    excluded: Seq<String>,
)
    requires
        reg_keys_distinct(entries),
        strs_distinct(excluded),
        reg_contains(entries, local),
        forall|j: int|
            0 <= j < excluded.len() ==> reg_contains(entries, #[trigger] excluded[j]@)
                && excluded[j]@ != local,
    ensures
        broadcast_targets(entries, local, excluded).len() <= entries.len() - 1 - excluded.len(),
{
    lemma_targets_count(entries, local, excluded);
}

/// Two sequential sync requests from one peer update a single session in
/// place: the first contact creates the session with a request count of
/// one, the second updates the same session to a count of two, and the
/// session table does not grow again.
pub proof fn lemma_two_syncs_one_session(
    a: Seq<SyncSession>,
    b: Seq<SyncSession>,
    c: Seq<SyncSession>,
    from: Seq<char>,
    now1: i64,
    offset1: i64,
    interval1: u64,
    now2: i64,
    offset2: i64,
    interval2: u64,
)
    requires
        !sessions_contain(a, from),
        session_upserted(a, b, from, now1, offset1, interval1),
        session_upserted(b, c, from, now2, offset2, interval2),
    ensures
        b.len() == a.len() + 1,
        c.len() == b.len(),
        session_at(b, from).request_count == 1,
        session_at(c, from).request_count == 2,
        session_at(c, from).last_sync_time == now2,
        session_at(c, from).time_offset_ms == offset2,
        session_at(c, from).sync_interval_ms == interval2,
{
    assert(session_at(b, from).request_count == 1);
    assert(sessions_contain(b, from));
    assert(session_at(c, from).request_count == sat_inc(1u64));
}

} // verus!
