use vstd::prelude::*;

use crate::error::ChainError;
use crate::mailbox::ContractLocator;
use crate::sequence::SequenceQuery;

verus! {

/// Length of a dispatched message's fixed header: version (1 byte), nonce (4),
/// origin (4), sender (32), destination (4), recipient (32).
pub const MESSAGE_HEADER_LEN: usize = 77;

/// Where a log entry came from.
#[derive(Debug, Clone, Copy, PartialEq, Eq)]
pub struct LogMeta {
    pub block_number: u64,
    pub transaction_hash: [u8; 32],
    pub transaction_index: u64,
    pub log_index: u64,
}

/// A dispatched message, kept in its canonical encoding, with the nonce read from it.
#[derive(Debug)]
pub struct DispatchedMessage {
    pub message: Vec<u8>,
    pub nonce: u32,
}

/// The nonce of an encoded message: bytes 1 to 4, big-endian.
pub open spec fn message_nonce(m: Seq<u8>) -> u32 {
    (m[1] as u32 * 0x1000000 + m[2] as u32 * 0x10000 + m[3] as u32 * 0x100 + m[4] as u32) as u32
}

/// `d` is the decoding of the encoded message `m`.
pub open spec fn decodes_to(m: Seq<u8>, d: DispatchedMessage) -> bool {
    &&& m.len() >= MESSAGE_HEADER_LEN
    &&& d.message@ == m
    &&& d.nonce == message_nonce(m)
}

/// Every encoded message in `logs` holds at least a full header.
pub open spec fn all_well_formed(logs: Seq<(Vec<u8>, LogMeta)>) -> bool {
    forall|i: int| 0 <= i < logs.len() ==> #[trigger] logs[i].0@.len() >= MESSAGE_HEADER_LEN
}

pub open spec fn raw_view(l: (Vec<u8>, LogMeta)) -> (Seq<u8>, LogMeta) {
    (l.0@, l.1)
}

pub open spec fn decoded_view(e: (DispatchedMessage, LogMeta)) -> (Seq<u8>, LogMeta) {
    (e.0.message@, e.1)
}

/// `out` decodes `logs` one for one, in the same order.
pub open spec fn decodes_in_order(logs: Seq<(Vec<u8>, LogMeta)>, out: Seq<(DispatchedMessage, LogMeta)>) -> bool {
    &&& out.len() == logs.len()
    &&& forall|i: int|
        0 <= i < logs.len() ==> decodes_to(logs[i].0@, #[trigger] out[i].0) && out[i].1 == logs[i].1
}

/// Ascending by nonce.
pub open spec fn sorted_by_nonce(out: Seq<(DispatchedMessage, LogMeta)>) -> bool {
    forall|i: int, j: int| 0 <= i < j < out.len() ==> #[trigger] out[i].0.nonce <= #[trigger] out[j].0.nonce
}

/// `out` holds the decoded entries of `logs`, each once, ordered by nonce;
/// entries with equal nonces keep their order in `logs`.
pub open spec fn is_dispatch_order_of(logs: Seq<(Vec<u8>, LogMeta)>, out: Seq<(DispatchedMessage, LogMeta)>) -> bool {
    &&& decoded_views(out).to_multiset() == raw_views(logs).to_multiset()
    &&& forall|v: u32| #[trigger] with_nonce(decoded_views(out), v) == with_nonce(raw_views(logs), v)
    &&& nonces_consistent(out)
    &&& sorted_by_nonce(out)
}

/// Reads the nonce of an encoded message; one shorter than the header is malformed.
pub fn decode_dispatch(message: Vec<u8>) -> (r: Result<DispatchedMessage, ChainError>)
    ensures
        message@.len() < MESSAGE_HEADER_LEN ==> r == Err::<DispatchedMessage, ChainError>(ChainError::ProtocolDecode),
        message@.len() >= MESSAGE_HEADER_LEN ==> (r matches Ok(d) && decodes_to(message@, d)),
{
    if message.len() < MESSAGE_HEADER_LEN {
        return Err(ChainError::ProtocolDecode);
    }
    let b1 = message[1] as u32;
    let b2 = message[2] as u32;
    let b3 = message[3] as u32;
    let b4 = message[4] as u32;
    assert(b1 * 0x1000000 + b2 * 0x10000 + b3 * 0x100 + b4 <= u32::MAX) by (nonlinear_arith)
        requires b1 <= 255, b2 <= 255, b3 <= 255, b4 <= 255;
    let nonce = b1 * 0x1000000 + b2 * 0x10000 + b3 * 0x100 + b4;
    Ok(DispatchedMessage { message, nonce })
}

/// Decodes dispatch logs, keeping their order. Any malformed message fails the whole lot.
pub fn decode_dispatches(logs: Vec<(Vec<u8>, LogMeta)>) -> (r: Result<Vec<(DispatchedMessage, LogMeta)>, ChainError>)
    ensures
        !all_well_formed(logs@) ==> r == Err::<Vec<(DispatchedMessage, LogMeta)>, ChainError>(ChainError::ProtocolDecode),
        all_well_formed(logs@) ==> (r matches Ok(out) && decodes_in_order(logs@, out@)),
{
    let ghost orig = logs@;
    let n = logs.len();
    let mut rest = logs;
    let mut out: Vec<(DispatchedMessage, LogMeta)> = Vec::new();
    let mut i: usize = 0;
    while i < n
        invariant
            n == orig.len(),
            orig == logs@,
            i <= n,
            rest@ == orig.subrange(i as int, n as int),
            out@.len() == i,
            forall|k: int| 0 <= k < i ==> decodes_to(orig[k].0@, #[trigger] out@[k].0) && out@[k].1 == orig[k].1,
            forall|k: int| 0 <= k < i ==> #[trigger] orig[k].0@.len() >= MESSAGE_HEADER_LEN,
        decreases n - i,
    {
        let (message, meta) = rest.remove(0);
        assert(message@ == orig[i as int].0@);
        match decode_dispatch(message) {
            Ok(d) => {
                out.push((d, meta));
            },
            Err(e) => {
                assert(orig[i as int].0@.len() < MESSAGE_HEADER_LEN);
                assert(!all_well_formed(orig));
                return Err(e);
            },
        }
        i = i + 1;
        assert(rest@ =~= orig.subrange(i as int, n as int));
    }
    Ok(out)
}

/// The (message, provenance) pairs of decoded entries.
pub open spec fn decoded_views(s: Seq<(DispatchedMessage, LogMeta)>) -> Seq<(Seq<u8>, LogMeta)> {
    s.map_values(|e: (DispatchedMessage, LogMeta)| decoded_view(e))
}

/// The (message, provenance) pairs of raw log entries.
pub open spec fn raw_views(s: Seq<(Vec<u8>, LogMeta)>) -> Seq<(Seq<u8>, LogMeta)> {
    s.map_values(|l: (Vec<u8>, LogMeta)| raw_view(l))
}

/// Each entry's nonce is the one its encoded message holds.
pub open spec fn nonces_consistent(s: Seq<(DispatchedMessage, LogMeta)>) -> bool {
    forall|i: int|
        0 <= i < s.len() ==> #[trigger] s[i].0.nonce == message_nonce(s[i].0.message@)
            && s[i].0.message@.len() >= MESSAGE_HEADER_LEN
}

/// The entries of `s` whose message carries nonce `v`, in their order in `s`.
pub open spec fn with_nonce(s: Seq<(Seq<u8>, LogMeta)>, v: u32) -> Seq<(Seq<u8>, LogMeta)>
    decreases s.len(),
{
    if s.len() == 0 {
        seq![]
    } else if message_nonce(s.last().0) == v {
        with_nonce(s.drop_last(), v).push(s.last())
    } else {
        with_nonce(s.drop_last(), v)
    }
}

proof fn lemma_with_nonce_add(a: Seq<(Seq<u8>, LogMeta)>, b: Seq<(Seq<u8>, LogMeta)>, v: u32)
    ensures
        with_nonce(a + b, v) == with_nonce(a, v) + with_nonce(b, v),
    decreases b.len(),
{
    if b.len() == 0 {
        assert(a + b =~= a);
        assert(with_nonce(a, v) + with_nonce(b, v) =~= with_nonce(a, v));
    } else {
        lemma_with_nonce_add(a, b.drop_last(), v);
        assert((a + b).drop_last() =~= a + b.drop_last());
        assert((a + b).last() == b.last());
        if message_nonce(b.last().0) == v {
            assert(with_nonce(a + b, v) =~= with_nonce(a, v) + with_nonce(b, v));
        }
    }
}

proof fn lemma_with_nonce_none(s: Seq<(Seq<u8>, LogMeta)>, v: u32)
    requires
        forall|k: int| 0 <= k < s.len() ==> message_nonce(#[trigger] s[k].0) != v,
    ensures
        with_nonce(s, v) == Seq::<(Seq<u8>, LogMeta)>::empty(),
    decreases s.len(),
{
    if s.len() > 0 {
        lemma_with_nonce_none(s.drop_last(), v);
        assert(message_nonce(s[s.len() - 1].0) != v);
    }
}

/// Orders decoded entries by ascending nonce; entries with equal nonces keep
/// their relative order.
fn sort_by_nonce(events: Vec<(DispatchedMessage, LogMeta)>) -> (out: Vec<(DispatchedMessage, LogMeta)>)
    requires
        nonces_consistent(events@),
    ensures
        decoded_views(out@).to_multiset() == decoded_views(events@).to_multiset(),
        forall|v: u32| #[trigger] with_nonce(decoded_views(out@), v) == with_nonce(decoded_views(events@), v),
        nonces_consistent(out@),
        sorted_by_nonce(out@),
{
    broadcast use vstd::seq_lib::group_to_multiset_ensures;

    let ghost orig = events@;
    let n = events.len();
    let mut rest = events;
    let mut out: Vec<(DispatchedMessage, LogMeta)> = Vec::new();
    let mut i: usize = 0;
    while i < n
        invariant
            n == orig.len(),
            nonces_consistent(orig),
            i <= n,
            rest@ == orig.subrange(i as int, n as int),
            decoded_views(out@).to_multiset() == decoded_views(orig.subrange(0, i as int)).to_multiset(),
            forall|v: u32| #[trigger] with_nonce(decoded_views(out@), v) == with_nonce(
                decoded_views(orig.subrange(0, i as int)), v),
            nonces_consistent(out@),
            sorted_by_nonce(out@),
        decreases n - i,
    {
        let item = rest.remove(0);
        assert(item == orig[i as int]);
        let mut j: usize = 0;
        while j < out.len() && out[j].0.nonce <= item.0.nonce
            invariant
                j <= out@.len(),
                sorted_by_nonce(out@),
                nonces_consistent(out@),
                nonces_consistent(orig),
                i < n,
                n == orig.len(),
                item == orig[i as int],
                forall|k: int| 0 <= k < j ==> #[trigger] out@[k].0.nonce <= item.0.nonce,
            decreases out@.len() - j,
        {
            j = j + 1;
        }
        let ghost before = out@;
        assert(forall|k: int| j <= k < before.len() ==> #[trigger] before[k].0.nonce > item.0.nonce) by {
            if j < before.len() {
                assert(before[j as int].0.nonce > item.0.nonce);
            }
        }
        out.insert(j, item);
        proof {
            before.insert_ensures(j as int, item);
            assert(out@ == before.insert(j as int, item));
            assert(sorted_by_nonce(out@)) by {
                assert forall|a: int, b: int| 0 <= a < b < out@.len() implies #[trigger] out@[a].0.nonce
                    <= #[trigger] out@[b].0.nonce by {
                    if b < j {
                    } else if b == j {
                    } else if a < j {
                        assert(out@[b] == before[b - 1]);
                    } else if a == j {
                        assert(out@[b] == before[b - 1]);
                    } else {
                        assert(out@[b] == before[b - 1]);
                        assert(out@[a] == before[a - 1]);
                    }
                }
            }
            assert(nonces_consistent(out@)) by {
                assert forall|k: int| 0 <= k < out@.len() implies #[trigger] out@[k].0.nonce
                    == message_nonce(out@[k].0.message@) && out@[k].0.message@.len()
                    >= MESSAGE_HEADER_LEN by {
                    if k < j {
                        assert(out@[k] == before[k]);
                        assert(before[k].0.nonce == message_nonce(before[k].0.message@));
                    } else if k == j {
                        assert(out@[k] == orig[i as int]);
                        assert(orig[i as int].0.nonce == message_nonce(orig[i as int].0.message@));
                    } else {
                        assert(out@[k] == before[k - 1]);
                        assert(before[k - 1].0.nonce == message_nonce(before[k - 1].0.message@));
                    }
                }
            }
            assert(decoded_views(out@) =~= decoded_views(before).insert(j as int, decoded_view(item)));
            vstd::seq_lib::to_multiset_insert(decoded_views(before), j as int, decoded_view(item));
            assert(decoded_views(orig.subrange(0, i + 1)) =~= decoded_views(orig.subrange(0, i as int)).push(decoded_view(item)));
            vstd::seq_lib::to_multiset_build(decoded_views(orig.subrange(0, i as int)), decoded_view(item));
            let dv = decoded_views(before);
            let vx = decoded_view(item);
            let p = dv.subrange(0, j as int);
            let sfx = dv.subrange(j as int, dv.len() as int);
            let q = decoded_views(orig.subrange(0, i as int));
            assert(dv =~= p + sfx);
            assert(decoded_views(out@) =~= (p + seq![vx]) + sfx);
            assert(message_nonce(vx.0) == item.0.nonce);
            assert forall|k: int| 0 <= k < sfx.len() implies message_nonce(#[trigger] sfx[k].0) != item.0.nonce by {
                assert(sfx[k] == decoded_view(before[j + k]));
                assert(before[j + k].0.nonce == message_nonce(before[j + k].0.message@));
            }
            lemma_with_nonce_none(sfx, item.0.nonce);
            assert(q.push(vx).drop_last() =~= q);
            assert(seq![vx].drop_last() =~= Seq::<(Seq<u8>, LogMeta)>::empty());
            assert forall|v: u32| #[trigger] with_nonce(decoded_views(out@), v) == with_nonce(
                decoded_views(orig.subrange(0, i + 1)), v) by {
                lemma_with_nonce_add(p + seq![vx], sfx, v);
                lemma_with_nonce_add(p, seq![vx], v);
                lemma_with_nonce_add(p, sfx, v);
                assert(with_nonce(dv, v) == with_nonce(q, v));
                let r = decoded_views(orig.subrange(0, i + 1));
                assert(r == q.push(vx));
                assert(r.last() == vx);
                assert(r.drop_last() == q);
                assert(seq![vx].last() == vx);
                assert(with_nonce(Seq::<(Seq<u8>, LogMeta)>::empty(), v) == Seq::<(Seq<u8>, LogMeta)>::empty());
                if v == item.0.nonce {
                    assert(with_nonce(r, v) == with_nonce(q, v).push(vx));
                    assert(with_nonce(seq![vx], v) == seq![vx]);
                    assert(with_nonce(p, v) + seq![vx] =~= with_nonce(p, v).push(vx));
                    assert(with_nonce(p, v) + Seq::<(Seq<u8>, LogMeta)>::empty() =~= with_nonce(p, v));
                    assert(with_nonce(p, v).push(vx) + Seq::<(Seq<u8>, LogMeta)>::empty() =~= with_nonce(p, v).push(vx));
                } else {
                    assert(with_nonce(r, v) == with_nonce(q, v));
                    assert(with_nonce(seq![vx], v) == Seq::<(Seq<u8>, LogMeta)>::empty());
                    assert(with_nonce(p, v) + Seq::<(Seq<u8>, LogMeta)>::empty() =~= with_nonce(p, v));
                    assert(with_nonce(dv, v) == with_nonce(p, v) + with_nonce(sfx, v));
                }
            }
        }
        i = i + 1;
        assert(rest@ =~= orig.subrange(i as int, n as int));
    }
    assert(orig.subrange(0, n as int) =~= orig);
    out
}

/// The dispatches of a block range, decoded and ordered by nonce.
///
/// `logs` is what the ledger returned for `start..=end`. The order of logs within
/// a block need not match the order in which nonces were assigned, hence the
/// sort. Duplicates from the transport are kept.
pub fn dispatches_in_range(start: u32, end: u32, logs: Vec<(Vec<u8>, LogMeta)>) -> (r: Result<
    Vec<(DispatchedMessage, LogMeta)>,
    ChainError,
>)
    ensures
        start > end ==> r == Err::<Vec<(DispatchedMessage, LogMeta)>, ChainError>(ChainError::EmptyRange),
        start <= end && !all_well_formed(logs@) ==> r == Err::<Vec<(DispatchedMessage, LogMeta)>, ChainError>(
            ChainError::ProtocolDecode,
        ),
        start <= end && all_well_formed(logs@) ==> (r matches Ok(out) && is_dispatch_order_of(logs@, out@)),
{
    check_range(start, end)?;
    let decoded = decode_dispatches(logs)?;
    proof {
        assert(decoded_views(decoded@) =~= raw_views(logs@));
    }
    Ok(sort_by_nonce(decoded))
}

/// Every entry of `logs` comes from a block in `start..=end`.
pub open spec fn blocks_within(logs: Seq<(Vec<u8>, LogMeta)>, start: u32, end: u32) -> bool {
    forall|i: int| 0 <= i < logs.len() ==> start <= #[trigger] logs[i].1.block_number <= end
}

/// Range fetches stay in range: when the ledger's logs for `start..=end` all come
/// from blocks in that range, so does every ordered dispatch, and the dispatches
/// are in ascending nonce order.
pub proof fn lemma_dispatches_stay_in_range(
    start: u32,
    end: u32,
    logs: Seq<(Vec<u8>, LogMeta)>,
    out: Seq<(DispatchedMessage, LogMeta)>,
)
    requires
        start <= end,
        blocks_within(logs, start, end),
        is_dispatch_order_of(logs, out),
    ensures
        forall|k: int| 0 <= k < out.len() ==> start <= #[trigger] out[k].1.block_number <= end,
        forall|a: int, b: int| 0 <= a < b < out.len() ==> #[trigger] out[a].0.nonce <= #[trigger] out[b].0.nonce,
{
    broadcast use vstd::seq_lib::group_to_multiset_ensures;

    assert forall|k: int| 0 <= k < out.len() implies start <= #[trigger] out[k].1.block_number <= end by {
        let v = decoded_view(out[k]);
        assert(decoded_views(out)[k] == v);
        assert(decoded_views(out).contains(v));
        assert(raw_views(logs).to_multiset().count(v) > 0);
        assert(raw_views(logs).contains(v));
        let j = choose|j: int| 0 <= j < raw_views(logs).len() && raw_views(logs)[j] == v;
        assert(logs[j].1 == out[k].1);
    }
}

/// Reads the dispatch and delivery events of a mailbox contract.
#[derive(Debug, Clone, Copy)]
pub struct EthereumMailboxIndexer {
    pub address: [u8; 32],
}

impl EthereumMailboxIndexer {
    pub fn new(locator: &ContractLocator) -> (r: Self)
        ensures
            r.address == locator.address,
    {
        EthereumMailboxIndexer { address: locator.address }
    }

    /// Dispatches are sequenced by the mailbox's nonce counter.
    pub fn dispatch_sequence_query(&self) -> (r: SequenceQuery)
        ensures
            r == (SequenceQuery { has_counter: true, tip: None }),
    {
        SequenceQuery::new(true)
    }

    /// Deliveries have no counter of their own: they are ordered by log position.
    pub fn delivery_sequence_query(&self) -> (r: SequenceQuery)
        ensures
            r == (SequenceQuery { has_counter: false, tip: None }),
    {
        SequenceQuery::new(false)
    }
}

/// Refuses a block range whose start lies after its end.
pub fn check_range(start: u32, end: u32) -> (r: Result<(), ChainError>)
    ensures
        start <= end ==> r is Ok,
        start > end ==> r == Err::<(), ChainError>(ChainError::EmptyRange),
{
    if start > end {
        Err(ChainError::EmptyRange)
    } else {
        Ok(())
    }
}

} // verus!
