//! The cache that clients on the same repository share: its key, who
//! refreshes it and where the data of a refresh comes from.

use vstd::prelude::*;
use vstd::string::*;
use vstd::utf8::encode_utf8;
use crate::config::TimeSpan;
use crate::text::{
    decimal, decimal_text, decimal_text_wide, digit_char, digits_value, hex16_text, hex_digits,
    is_digit, lemma_decimal_digits, lemma_first_piece, normalize, normalized_text, split_on,
};

verus! {

/// What the dashboard knows of the shared cache.
#[derive(Debug, Clone, Copy, PartialEq, Eq, Structural)]
pub struct GlobalCacheStatus {
    pub client_count: usize,
    pub is_owner: bool,
    pub cache_age: Option<TimeSpan>,
}

/// The 64-bit FNV-1a hash of `bytes`.
pub open spec fn spec_fnv1a(bytes: Seq<u8>) -> u64
    decreases bytes.len(),
{
    if bytes.len() == 0 {
        0xcbf29ce484222325u64
    } else {
        let h = spec_fnv1a(bytes.drop_last()) ^ (bytes.last() as u64);
        ((h as nat * 0x100000001b3nat) % 0x10000000000000000nat) as u64
    }
}

/// The 64-bit FNV-1a hash of `bytes`.
pub fn fnv1a(bytes: &[u8]) -> (r: u64)
    ensures
        r == spec_fnv1a(bytes@),
{
    let mut hash: u64 = 0xcbf29ce484222325;
    let mut i: usize = 0;
    while i < bytes.len()
        invariant
            i <= bytes@.len(),
            hash == spec_fnv1a(bytes@.take(i as int)),
        decreases bytes@.len() - i,
    {
        assert(bytes@.take(i + 1).drop_last() =~= bytes@.take(i as int));
        hash = hash ^ (bytes[i] as u64);
        hash = hash.wrapping_mul(0x100000001b3);
        i = i + 1;
    }
    assert(bytes@.take(i as int) =~= bytes@);
    hash
}

/// The directory name of the cache of `repo`: sixteen hexadecimal digits
/// of the FNV-1a hash of the UTF-8 bytes of the trimmed, ASCII lower-cased
/// repository name.
pub open spec fn spec_repo_key(repo: Seq<char>) -> Seq<char> {
    hex_digits(spec_fnv1a(encode_utf8(normalized_text(repo))) as nat, 16)
}

/// The directory name of the cache of `repo`.
pub fn repo_key(repo: &str) -> (r: String)
    ensures
        r@ == spec_repo_key(repo@),
{
    let key = normalize(repo);
    let bytes = key.as_str().as_bytes();
    hex16_text(fnv1a(bytes))
}

/// Names of one repository that differ only in surrounding white space and
/// in the case of ASCII letters share one cache.
pub proof fn lemma_repo_key_ignores_case_and_space(a: Seq<char>, b: Seq<char>)
    requires
        normalized_text(a) == normalized_text(b),
    ensures
        spec_repo_key(a) == spec_repo_key(b),
{
}

/// A client's membership in the shared cache of a repository.
#[derive(Debug)]
pub struct GlobalCacheSession {
    pub repo_dir: String,
    pub client_path: String,
    pub owner_path: String,
    pub is_owner: bool,
}

/// What a refresh worker needs of the shared cache.
#[derive(Debug, Clone)]
pub struct GlobalCacheWorker {
    pub repo_dir: String,
    pub is_owner: bool,
}

/// What a client does with the owner mark on each turn, after renewing its
/// own client mark.
#[derive(Debug, Clone, Copy, PartialEq, Eq, Structural)]
pub enum MaintainStep {
    /// Renew the owner mark: this client refreshes the cache.
    RenewOwnership,
    /// Remove a stale owner mark and try to take ownership.
    ClaimOwnership,
}

/// Where the data of a refresh comes from.
#[derive(Debug, Clone, Copy, PartialEq, Eq, Structural)]
pub enum FetchSource {
    /// From GitHub, for a client on its own.
    GitHub,
    /// From the shared cache, for a client that does not own it.
    SharedCache,
    /// From GitHub, then written to the shared cache, for its owner.
    GitHubThenShare,
}

impl GlobalCacheSession {
    /// What to do with the owner mark on this turn.
    pub fn maintain(&self) -> (r: MaintainStep)
        ensures
            r == if self.is_owner {
                MaintainStep::RenewOwnership
            } else {
                MaintainStep::ClaimOwnership
            },
    {
        if self.is_owner {
            MaintainStep::RenewOwnership
        } else {
            MaintainStep::ClaimOwnership
        }
    }

    /// Records whether an attempt to take ownership succeeded.
    pub fn record_claim(&mut self, claimed: bool)
        ensures
            final(self).is_owner == claimed,
            final(self).repo_dir == old(self).repo_dir,
            final(self).client_path == old(self).client_path,
            final(self).owner_path == old(self).owner_path,
    {
        self.is_owner = claimed;
    }

    /// What a refresh worker of this client needs.
    pub fn worker(&self) -> (r: GlobalCacheWorker)
        ensures
            r.repo_dir@ == self.repo_dir@,
            r.is_owner == self.is_owner,
    {
        GlobalCacheWorker { repo_dir: self.repo_dir.clone(), is_owner: self.is_owner }
    }
}

impl GlobalCacheWorker {
    /// Whether this client refreshes the shared cache.
    pub fn is_owner(&self) -> (r: bool)
        ensures
            r == self.is_owner,
    {
        self.is_owner
    }
}

/// Where the data of a refresh comes from: GitHub without a shared cache,
/// the cache for a client that does not own it, and GitHub then the cache
/// for its owner.
pub fn fetch_source(cache: &Option<GlobalCacheWorker>) -> (r: FetchSource)
    ensures
        r == match cache {
            None => FetchSource::GitHub,
            Some(w) => if w.is_owner {
                FetchSource::GitHubThenShare
            } else {
                FetchSource::SharedCache
            },
        },
{
    match cache {
        None => FetchSource::GitHub,
        Some(w) => if w.is_owner() {
            FetchSource::GitHubThenShare
        } else {
            FetchSource::SharedCache
        },
    }
}

/// Whether a mark last touched `age` ago is stale: older than thirty
/// seconds. A mark whose age is not known is not stale.
pub open spec fn spec_is_stale(age: Option<TimeSpan>) -> bool {
    match age {
        Some(a) => a.secs as int * 1_000_000_000 + a.nanos as int > 30_000_000_000,
        None => false,
    }
}

/// Whether a mark last touched `age` ago is stale.
pub fn is_stale(age: Option<TimeSpan>) -> (r: bool)
    ensures
        r == spec_is_stale(age),
{
    match age {
        Some(a) => a.secs > 30 || (a.secs == 30 && a.nanos > 0) || (a.secs == 29 && a.nanos
            > 1_000_000_000) || (a.secs < 29 && (a.nanos as u64) > (30 - a.secs) * 1_000_000_000),
        None => false,
    }
}

/// Whether `pid` is another process than `current`.
pub open spec fn other_than(current: u32) -> spec_fn(u32) -> bool {
    |pid: u32| pid != current
}

/// The processes that closing sessions stops: every listed one but the
/// current process, in their order.
pub fn kill_targets(pids: &Vec<u32>, current: u32) -> (r: Vec<u32>)
    ensures
        r@ == pids@.filter(other_than(current)),
{
    let ghost keep = other_than(current);
    let mut out: Vec<u32> = Vec::new();
    let mut i: usize = 0;
    while i < pids.len()
        invariant
            i <= pids@.len(),
            keep == other_than(current),
            out@ == pids@.take(i as int).filter(keep),
        decreases pids@.len() - i,
    {
        let ghost prefix = pids@.take(i + 1);
        assert(prefix.drop_last() =~= pids@.take(i as int));
        assert(prefix.last() == pids@[i as int]);
        if pids[i] != current {
            out.push(pids[i]);
        }
        assert(out@ == prefix.filter(keep)) by {
            reveal(Seq::filter);
        }
        i = i + 1;
    }
    assert(pids@.take(i as int) =~= pids@);
    out
}

/// The process id that a client mark's file name starts with: the decimal
/// digits before its first `-`, where they are digits only and fit in 32
/// bits.
pub open spec fn spec_client_pid(name: Seq<char>) -> Option<u32> {
    let part = split_on(name, '-')[0];
    if part.len() > 0 && (forall|j: int| 0 <= j < part.len() ==> is_digit(#[trigger] part[j]))
        && digits_value(part) <= u32::MAX {
        Some(digits_value(part) as u32)
    } else {
        None
    }
}

/// The process id that a client mark's file name starts with.
pub fn client_pid(name: &str) -> (r: Option<u32>)
    ensures
        r == spec_client_pid(name@),
{
    let n = name.unicode_len();
    let mut i: usize = 0;
    let mut value: u64 = 0;
    let mut digits = true;
    let mut overflow = false;
    while i < n && name.get_char(i) != '-'
        invariant
            n == name@.len(),
            i <= n,
            forall|j: int| 0 <= j < i ==> name@[j] != '-',
            digits == (forall|j: int| 0 <= j < i ==> is_digit(#[trigger] name@[j])),
            digits && !overflow ==> value == digits_value(name@.take(i as int)),
            digits && overflow ==> digits_value(name@.take(i as int)) > u32::MAX,
            value <= u32::MAX,
        decreases n - i,
    {
        let c = name.get_char(i);
        let ghost before = name@.take(i as int);
        assert(name@.take(i + 1).drop_last() =~= before);
        assert(name@.take(i + 1).last() == c);
        if (c as u32) < 48 || (c as u32) > 57 {
            digits = false;
        } else if digits && !overflow {
            let next = value * 10 + ((c as u32) - 48) as u64;
            if next > 0xffff_ffffu64 {
                overflow = true;
            } else {
                value = next;
            }
        }
        i = i + 1;
    }
    proof {
        lemma_first_piece(name@, '-', i as int);
        let part = name@.take(i as int);
        assert forall|j: int| 0 <= j < part.len() implies part[j] == name@[j] by {}
        if !digits {
            let j = choose|j: int| 0 <= j < i && !is_digit(#[trigger] name@[j]);
            assert(!is_digit(part[j]));
        } else {
            assert forall|j: int| 0 <= j < part.len() implies is_digit(#[trigger] part[j]) by {
                assert(is_digit(name@[j]));
            }
        }
        assert(split_on(name@, '-')[0] == part);
    }
    if i > 0 && digits && !overflow {
        Some(value as u32)
    } else {
        None
    }
}

/// The file name of a client's mark: its process id, `-`, and a suffix
/// that tells apart clients of one process.
pub open spec fn spec_client_key(pid: u32, suffix: u128) -> Seq<char> {
    decimal(pid as nat) + "-"@ + decimal(suffix as nat)
}

/// The file name of a client's mark.
pub fn client_key(pid: u32, suffix: u128) -> (r: String)
    ensures
        r@ == spec_client_key(pid, suffix),
{
    let mut out = decimal_text(pid as u64);
    out.append("-");
    out.append(decimal_text_wide(suffix).as_str());
    out
}

/// A client's mark names the process that made it.
pub proof fn lemma_client_key_names_its_process(pid: u32, suffix: u128)
    ensures
        spec_client_pid(spec_client_key(pid, suffix)) == Some(pid),
{
    reveal_strlit("-");
    let p = decimal(pid as nat);
    let key = spec_client_key(pid, suffix);
    lemma_decimal_digits(pid as nat);
    assert forall|j: int| 0 <= j < p.len() implies key[j] != '-' by {
        assert(key[j] == p[j]);
        assert(is_digit(p[j]));
    }
    assert(key[p.len() as int] == '-');
    lemma_first_piece(key, '-', p.len() as int);
    assert(key.take(p.len() as int) =~= p);
}

/// How many of the marks with these ages are not stale.
pub open spec fn live_count(ages: Seq<Option<TimeSpan>>) -> nat
    decreases ages.len(),
{
    if ages.len() == 0 {
        0
    } else {
        live_count(ages.drop_last()) + if spec_is_stale(ages.last()) {
            0nat
        } else {
            1nat
        }
    }
}

/// How many clients are live: those whose marks are not stale.
pub fn live_client_count(ages: &Vec<Option<TimeSpan>>) -> (r: usize)
    ensures
        r == live_count(ages@),
{
    let mut count: usize = 0;
    let mut i: usize = 0;
    while i < ages.len()
        invariant
            i <= ages@.len(),
            count == live_count(ages@.take(i as int)),
            count <= i,
        decreases ages@.len() - i,
    {
        assert(ages@.take(i + 1).drop_last() =~= ages@.take(i as int));
        if !is_stale(ages[i]) {
            count = count + 1;
        }
        i = i + 1;
    }
    assert(ages@.take(i as int) =~= ages@);
    count
}

} // verus!
