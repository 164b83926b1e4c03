//! Keys and lifetimes of the cached answers.
use vstd::prelude::*;

use crate::error::joined;
use crate::vin::{unicode_uppercase, uppercase};

verus! {

/// A connection to the Redis cache.
#[verifier::external_type_specification]
#[verifier::external_body]
pub struct ExMultiplexedConnection(redis::aio::MultiplexedConnection);

/// The cache of source answers and assembled reports.
pub struct Cache {
    pool: redis::aio::MultiplexedConnection,
}

/// Seconds an assembled report stays cached (one hour).
pub const REPORT_TTL_SECS: u64 = 3600;

/// The key a source's answer about a VIN is cached under, as text.
pub open spec fn vin_key_text(source_id: Seq<char>, vin: Seq<char>) -> Seq<char> {
    "v1:"@ + source_id + ":"@ + unicode_uppercase(vin)
}

/// Two different source ids without a `:` in them give different cache keys
/// for the same VIN, so one source's answer is never read as another's.
pub proof fn lemma_vin_keys_differ(a: Seq<char>, b: Seq<char>, vin: Seq<char>)
    requires
        a != b,
        !a.contains(':'),
        !b.contains(':'),
    ensures
        vin_key_text(a, vin) != vin_key_text(b, vin),
{
    reveal_strlit("v1:");
    reveal_strlit(":");
    let u = unicode_uppercase(vin);
    let ka = vin_key_text(a, vin);
    let kb = vin_key_text(b, vin);
    if ka == kb {
        if a.len() == b.len() {
            assert(a =~= ka.subrange(3, 3 + a.len() as int));
            assert(b =~= kb.subrange(3, 3 + b.len() as int));
        } else if a.len() < b.len() {
            assert(ka[3 + a.len() as int] == ':');
            assert(kb[3 + a.len() as int] == b[a.len() as int]);
            assert(b.contains(b[a.len() as int]));
        } else {
            assert(kb[3 + b.len() as int] == ':');
            assert(ka[3 + b.len() as int] == a[b.len() as int]);
            assert(a.contains(a[b.len() as int]));
        }
    }
}

impl Cache {
    /// The connection the cache is reached through.
    pub closed spec fn spec_pool(&self) -> redis::aio::MultiplexedConnection {
        self.pool
    }

    /// A cache reached through `pool`.
    pub fn from_connection(pool: redis::aio::MultiplexedConnection) -> (c: Cache)
        ensures
            c.spec_pool() == pool,
    {
        Cache { pool }
    }

    /// The connection the cache is reached through.
    pub fn connection(&self) -> (r: &redis::aio::MultiplexedConnection)
        ensures
            *r == self.spec_pool(),
    {
        &self.pool
    }

    /// The key a source's answer about a VIN is cached under:
    /// `v1:<source id>:<VIN upper-cased>`.
    pub fn vin_key(source_id: &str, vin: &str) -> (r: String)
        ensures
            r@ == vin_key_text(source_id@, vin@),
    {
        let mut key = joined("v1:", source_id);
        key.append(":");
        let upper = uppercase(vin);
        key.append(upper.as_str());
        key
    }
}

} // verus!
