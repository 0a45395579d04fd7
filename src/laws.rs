use vstd::prelude::*;

use crate::cache::Token;
use crate::error::SurgeError;
use crate::ping::{elapsed, IcmpPacket, Message, Pinger, Reply};

verus! {

/// The cache after the probe `seq_cnt` has ended: resolved by `msg` where that
/// message resolves the wait, else by the deadline.
pub open spec fn cache_after_probe(p: Pinger, cache: Map<Token, u64>, seq_cnt: u16, msg: Option<Message>) -> Map<Token, u64> {
    match p.spec_recv_step(cache, seq_cnt, msg) {
        Some(o) => p.spec_finish_cache(p.spec_recv_cache(cache, seq_cnt, msg), seq_cnt, Some(o)),
        None => p.spec_finish_cache(cache, seq_cnt, None),
    }
}

/// A matching reply that arrives after the send was recorded ends the wait
/// with success, its round-trip time is the receipt time less the send time,
/// and the key's entry is gone afterwards.
pub proof fn lemma_matched_reply_succeeds(p: Pinger, cache: Map<Token, u64>, seq_cnt: u16, m: Message, reply: IcmpPacket)
    requires
        cache.contains_key(p.token(seq_cnt)),
        m.packet == Ok::<IcmpPacket, SurgeError>(reply),
        reply.is_reply_to(p.destination, seq_cnt, p.ident),
        m.when >= cache[p.token(seq_cnt)],
    ensures
        p.spec_recv_step(cache, seq_cnt, Some(m)) == Some(
            Ok::<Reply, SurgeError>((reply, (m.when - cache[p.token(seq_cnt)]) as u64)),
        ),
        p.spec_finish(seq_cnt, p.spec_recv_step(cache, seq_cnt, Some(m))) == Ok::<Reply, SurgeError>(
            (reply, (m.when - cache[p.token(seq_cnt)]) as u64),
        ),
        !cache_after_probe(p, cache, seq_cnt, Some(m)).contains_key(p.token(seq_cnt)),
{
}

/// When the deadline comes first the probe fails with a timeout that carries
/// its sequence number, and no entry for its key is left.
pub proof fn lemma_deadline_times_out(p: Pinger, cache: Map<Token, u64>, seq_cnt: u16)
    ensures
        p.spec_finish(seq_cnt, None) == Err::<Reply, SurgeError>(SurgeError::Timeout { seq: seq_cnt }),
        !p.spec_finish_cache(cache, seq_cnt, None).contains_key(p.token(seq_cnt)),
{
}

/// Whatever ends a probe (a match, an error, a closed channel or the
/// deadline), no entry for its key is left, and entries of other keys stay.
pub proof fn lemma_every_exit_clears_key(p: Pinger, cache: Map<Token, u64>, seq_cnt: u16, msg: Option<Message>)
    ensures
        !cache_after_probe(p, cache, seq_cnt, msg).contains_key(p.token(seq_cnt)),
        cache_after_probe(p, cache, seq_cnt, msg) == cache.remove(p.token(seq_cnt)),
{
}

/// A second probe that reuses the sequence number of an ended one sees nothing
/// of it: a matching reply before the new send is recorded does not end the
/// wait, and after the new record the round-trip time is measured from it.
pub proof fn lemma_reused_sequence_starts_clean(
    p: Pinger,
    cache: Map<Token, u64>,
    seq_cnt: u16,
    msg: Option<Message>,
    sent: u64,
    m: Message,
    reply: IcmpPacket,
)
    requires
        m.packet == Ok::<IcmpPacket, SurgeError>(reply),
        reply.is_reply_to(p.destination, seq_cnt, p.ident),
    ensures
        p.spec_recv_step(cache_after_probe(p, cache, seq_cnt, msg), seq_cnt, Some(m)) is None,
        p.spec_recv_step(cache_after_probe(p, cache, seq_cnt, msg).insert(p.token(seq_cnt), sent), seq_cnt, Some(m))
            == Some(Ok::<Reply, SurgeError>((reply, elapsed(m.when, sent)))),
{
    lemma_every_exit_clears_key(p, cache, seq_cnt, msg);
}

/// A reply from another destination, or with another identifier or sequence
/// number, never ends the wait and leaves the cache as it was.
pub proof fn lemma_foreign_reply_ignored(p: Pinger, cache: Map<Token, u64>, seq_cnt: u16, m: Message, reply: IcmpPacket)
    requires
        m.packet == Ok::<IcmpPacket, SurgeError>(reply),
        reply.source != p.destination || reply.ident != p.ident || reply.seq_cnt != seq_cnt,
    ensures
        p.spec_recv_step(cache, seq_cnt, Some(m)) is None,
        p.spec_recv_cache(cache, seq_cnt, Some(m)) == cache,
{
}

/// Of two sessions with different identifiers, a reply matches at most one.
pub proof fn lemma_reply_attributed_to_one_session(a: Pinger, b: Pinger, seq_a: u16, seq_b: u16, reply: IcmpPacket)
    requires
        a.ident != b.ident,
    ensures
        !(reply.is_reply_to(a.destination, seq_a, a.ident) && reply.is_reply_to(b.destination, seq_b, b.ident)),
{
}

/// The session's own echo request, looped back, never ends the wait and
/// leaves the cache as it was.
pub proof fn lemma_own_echo_request_ignored(p: Pinger, cache: Map<Token, u64>, seq_cnt: u16, m: Message)
    requires
        m.packet == Err::<IcmpPacket, SurgeError>(SurgeError::EchoRequestPacket),
    ensures
        p.spec_recv_step(cache, seq_cnt, Some(m)) is None,
        p.spec_recv_cache(cache, seq_cnt, Some(m)) == cache,
{
}

} // verus!
