//! The filter engine: a pure, deterministic decision from an event record
//! and a filter configuration to keep or drop.
//!
//! Three independently optional rules apply in fixed precedence: the
//! identity filter first, then the exclude-name rule, then the include-name
//! rule. An empty name list means the rule does not apply; absence of a
//! rule is neutral.

use vstd::prelude::*;
use vstd::array::array_as_slice;
use vstd::slice::slice_index_get;
use crate::event::TcpEvent;

verus! {

/// The name bytes trimmed of their trailing null padding.
pub open spec fn spec_trimmed(comm: Seq<u8>) -> Seq<u8>
    decreases comm.len(),
{
    if comm.len() == 0 {
        comm
    } else if comm.last() == 0 {
        spec_trimmed(comm.drop_last())
    } else {
        comm
    }
}

/// The needle occurs in the haystack starting at position `i`.
pub open spec fn subseq_at(hay: Seq<u8>, needle: Seq<u8>, i: int) -> bool {
    0 <= i && i + needle.len() <= hay.len() && hay.subrange(i, i + needle.len()) == needle
}

/// The needle occurs somewhere in the haystack.
pub open spec fn contains_seq(hay: Seq<u8>, needle: Seq<u8>) -> bool {
    exists|i: int| subseq_at(hay, needle, i)
}

/// Some name of the list occurs in the haystack.
pub open spec fn some_name_matches(hay: Seq<u8>, names: Seq<Vec<u8>>) -> bool {
    exists|k: int| 0 <= k < names.len() && contains_seq(hay, (#[trigger] names[k])@)
}

/// Copies the name with its trailing null padding removed.
pub fn trim_comm(comm: &[u8]) -> (r: Vec<u8>)
    ensures
        r@ == spec_trimmed(comm@),
{
    let mut end = comm.len();
    proof {
        assert(comm@.take(comm@.len() as int) =~= comm@);
    }
    while end > 0 && *slice_index_get(comm, end - 1) == 0
        invariant
            end <= comm@.len(),
            spec_trimmed(comm@) == spec_trimmed(comm@.take(end as int)),
        decreases end,
    {
        proof {
            assert(comm@.take(end as int).drop_last() =~= comm@.take(end - 1));
        }
        end = end - 1;
    }
    let mut r: Vec<u8> = Vec::new();
    let mut i: usize = 0;
    while i < end
        invariant
            i <= end,
            end <= comm@.len(),
            r@ == comm@.take(end as int).take(i as int),
        decreases end - i,
    {
        r.push(*slice_index_get(comm, i));
        proof {
            assert(comm@.take(end as int).take(i + 1 as int) =~= comm@.take(end as int).take(
                i as int,
            ).push(comm@[i as int]));
        }
        i = i + 1;
    }
    proof {
        assert(comm@.take(end as int).take(end as int) =~= comm@.take(end as int));
    }
    r
}

/// Whether the needle occurs in the haystack as a contiguous run of bytes.
pub fn contains_bytes(hay: &[u8], needle: &[u8]) -> (r: bool)
    ensures
        r == contains_seq(hay@, needle@),
{
    let n = needle.len();
    let h = hay.len();
    if n > h {
        return false;
    }
    if n == 0 {
        proof {
            assert(hay@.subrange(0, 0) =~= needle@);
            assert(subseq_at(hay@, needle@, 0));
        }
        return true;
    }
    let mut i: usize = 0;
    while i <= h - n
        invariant
            n == needle@.len(),
            h == hay@.len(),
            0 < n <= h,
            i <= h - n + 1,
            forall|p: int| 0 <= p < i ==> !subseq_at(hay@, needle@, p),
        decreases h - i,
    {
        let mut j: usize = 0;
        let mut matches = true;
        while j < n
            invariant
                n == needle@.len(),
                h == hay@.len(),
                i + n <= h,
                j <= n,
                matches ==> forall|q: int| 0 <= q < j ==> hay@[i + q] == needle@[q],
                !matches ==> !subseq_at(hay@, needle@, i as int),
            decreases n - j,
        {
            if *slice_index_get(hay, i + j) != *slice_index_get(needle, j) {
                proof {
                    if subseq_at(hay@, needle@, i as int) {
                        assert(hay@.subrange(i as int, i + n)[j as int] == hay@[i + j]);
                    }
                }
                matches = false;
                j = n;
            } else {
                j = j + 1;
            }
        }
        if matches {
            proof {
                assert(hay@.subrange(i as int, i + n) =~= needle@);
                assert(subseq_at(hay@, needle@, i as int));
            }
            return true;
        }
        i = i + 1;
    }
    proof {
        assert forall|p: int| !subseq_at(hay@, needle@, p) by {
            if subseq_at(hay@, needle@, p) {
                assert(p + n <= h);
            }
        }
    }
    false
}

/// Whether some name of the list occurs in the haystack.
pub fn any_name_matches(hay: &[u8], names: &Vec<Vec<u8>>) -> (r: bool)
    ensures
        r == some_name_matches(hay@, names@),
{
    let mut k: usize = 0;
    while k < names.len()
        invariant
            k <= names@.len(),
            forall|p: int| 0 <= p < k ==> !contains_seq(hay@, (#[trigger] names@[p])@),
        decreases names@.len() - k,
    {
        if contains_bytes(hay, names[k].as_slice()) {
            return true;
        }
        k = k + 1;
    }
    false
}

/// What the filter engine is configured with: an optional target process
/// identity and the two optional name lists.
pub struct FilterConfig {
    /// Keep only records of this owning process, when set.
    pub target_tgid: Option<u32>,
    /// When non-empty, keep only records whose name contains some entry.
    pub include_names: Vec<Vec<u8>>,
    /// When non-empty, drop records whose name contains some entry.
    pub exclude_names: Vec<Vec<u8>>,
}

/// The identity rule: with a target configured, only its records pass.
pub open spec fn identity_ok(ev: TcpEvent, cfg: FilterConfig) -> bool {
    match cfg.target_tgid {
        Some(t) => ev.tgid == t,
        None => true,
    }
}

/// The whole filter: identity first, then exclude, then include. Empty
/// name lists are neutral.
pub open spec fn spec_keep(ev: TcpEvent, cfg: FilterConfig) -> bool {
    &&& identity_ok(ev, cfg)
    &&& !(cfg.exclude_names@.len() > 0 && some_name_matches(
        spec_trimmed(ev.comm@),
        cfg.exclude_names@,
    ))
    &&& (cfg.include_names@.len() == 0 || some_name_matches(
        spec_trimmed(ev.comm@),
        cfg.include_names@,
    ))
}

/// Decides whether a record passes the configured filter.
pub fn filter_keep(ev: &TcpEvent, cfg: &FilterConfig) -> (keep: bool)
    ensures
        keep == spec_keep(*ev, *cfg),
{
    match cfg.target_tgid {
        Some(t) => {
            if ev.tgid != t {
                return false;
            }
        },
        None => {},
    }
    let trimmed = trim_comm(array_as_slice(&ev.comm));
    if cfg.exclude_names.len() > 0 && any_name_matches(trimmed.as_slice(), &cfg.exclude_names) {
        return false;
    }
    if cfg.include_names.len() > 0 && !any_name_matches(trimmed.as_slice(), &cfg.include_names) {
        return false;
    }
    true
}

/// Precedence of the identity filter: with a target configured, a record of
/// another owning process is dropped whatever the name rules say.
pub proof fn lemma_identity_precedence(ev: TcpEvent, cfg: FilterConfig, t: u32)
    requires
        cfg.target_tgid == Some(t),
        ev.tgid != t,
    ensures
        !spec_keep(ev, cfg),
{
}

/// Neutrality of empty name lists: with both lists empty, the decision is
/// the identity rule alone; nothing is dropped or admitted by name.
pub proof fn lemma_empty_name_lists_neutral(ev: TcpEvent, cfg: FilterConfig)
    requires
        cfg.include_names@.len() == 0,
        cfg.exclude_names@.len() == 0,
    ensures
        spec_keep(ev, cfg) == identity_ok(ev, cfg),
{
}

} // verus!
