use std::collections::HashMap;
use vstd::prelude::*;
use vstd::std_specs::hash::obeys_key_model;

verus! {

broadcast use vstd::std_specs::hash::group_hash_axioms;

/// The correlation key of one probe: its identifier and its sequence number.
pub type Token = (u16, u16);

/// The map key that stands for a token: the identifier in the high half.
pub open spec fn token_key(t: Token) -> u32 {
    (t.0 as int * 0x10000 + t.1 as int) as u32
}

/// Distinct tokens have distinct keys.
pub proof fn lemma_token_key_injective(a: Token, b: Token)
    ensures
        token_key(a) == token_key(b) <==> a == b,
{
}

/// Send timestamps of the outstanding probes, keyed by their token.
///
/// A timestamp is a count of nanoseconds from an epoch that the caller fixes.
#[derive(Debug)]
pub struct Cache {
    inner: HashMap<u32, u64>,
}

impl View for Cache {
    type V = Map<Token, u64>;

    closed spec fn view(&self) -> Map<Token, u64> {
        Map::new(|t: Token| self.inner@.contains_key(token_key(t)), |t: Token| self.inner@[token_key(t)])
    }
}

fn key_of(ident: u16, seq_cnt: u16) -> (k: u32)
    ensures
        k == token_key((ident, seq_cnt)),
{
    ident as u32 * 0x10000 + seq_cnt as u32
}

impl Cache {
    /// An empty cache.
    pub fn new() -> (c: Cache)
        ensures
            c@ == Map::<Token, u64>::empty(),
    {
        let c = Cache { inner: HashMap::new() };
        assert(c@ =~= Map::<Token, u64>::empty());
        c
    }

    /// Records `time` for the token `(ident, seq_cnt)`, replacing an earlier record.
    pub fn insert(&mut self, ident: u16, seq_cnt: u16, time: u64)
        ensures
            final(self)@ == old(self)@.insert((ident, seq_cnt), time),
    {
        proof {
            lemma_key_model();
        }
        let k = key_of(ident, seq_cnt);
        self.inner.insert(k, time);
        proof {
            lemma_keys_distinct((ident, seq_cnt));
        }
        assert(self@ =~= old(self)@.insert((ident, seq_cnt), time));
    }

    /// Takes the record of the token `(ident, seq_cnt)` out, if there is one.
    pub fn remove(&mut self, ident: u16, seq_cnt: u16) -> (r: Option<u64>)
        ensures
            final(self)@ == old(self)@.remove((ident, seq_cnt)),
            r == (if old(self)@.contains_key((ident, seq_cnt)) {
                Some(old(self)@[(ident, seq_cnt)])
            } else {
                None
            }),
    {
        proof {
            lemma_key_model();
        }
        let k = key_of(ident, seq_cnt);
        let r = self.inner.remove(&k);
        proof {
            lemma_keys_distinct((ident, seq_cnt));
        }
        assert(self@ =~= old(self)@.remove((ident, seq_cnt)));
        r
    }
}

proof fn lemma_key_model()
    ensures
        obeys_key_model::<u32>(),
        vstd::std_specs::hash::builds_valid_hashers::<std::hash::RandomState>(),
{
}

proof fn lemma_keys_distinct(t: Token)
    ensures
        forall|u: Token| token_key(u) == token_key(t) <==> u == t,
{
    assert forall|u: Token| token_key(u) == token_key(t) <==> u == t by {
        lemma_token_key_injective(u, t);
    }
}

} // verus!
