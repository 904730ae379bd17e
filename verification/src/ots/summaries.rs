//! The per-server audit log summaries a registry carries: for each server,
//! in order of first appearance, how many entries it logged, the first and
//! last entry hashes, and a Merkle root over the raw 32-byte entry hashes.

use vstd::prelude::*;
use vstd::string::*;
use vstd::utf8::encode_utf8;
use crate::audit::entry::{canonical_text, AuditLogEntry};
use crate::digest::{sha256, spec_sha256, tag_digest, hash_tag};
use crate::ots::anchor::{AuditLogSummary, Maintainer, MultisigConfig};
use crate::text::{hex_encode, str_eq, starts_with};

verus! {

/// The value of a hexadecimal digit, either case.
pub open spec fn hex_digit_value(c: char) -> Option<u8> {
    if '0' <= c <= '9' {
        Some((c as u32 - '0' as u32) as u8)
    } else if 'a' <= c <= 'f' {
        Some((c as u32 - 'a' as u32 + 10) as u8)
    } else if 'A' <= c <= 'F' {
        Some((c as u32 - 'A' as u32 + 10) as u8)
    } else {
        None
    }
}

/// The bytes a hexadecimal text denotes: two digits per byte, high digit
/// first; none for an odd length or a non-digit.
pub open spec fn hex_decoded(s: Seq<char>) -> Option<Seq<u8>>
    decreases s.len(),
{
    if s.len() == 0 {
        Some(Seq::empty())
    } else if s.len() == 1 {
        None
    } else {
        match (hex_digit_value(s[0]), hex_digit_value(s[1]), hex_decoded(s.subrange(2, s.len() as int))) {
            (Some(h), Some(l), Some(rest)) => Some(seq![(h * 16 + l) as u8] + rest),
            _ => None,
        }
    }
}

/// Calls `hex::decode`. Trusted: the crate decodes exactly as
/// `hex_decoded` says (pairs of digits of either case, an error for an odd
/// length or any other character).
#[verifier::external_body]
pub(crate) fn hex_decode(text: &str) -> (r: Option<Vec<u8>>)
    ensures
        match r {
            Some(v) => hex_decoded(text@) == Some(v@),
            None => hex_decoded(text@) is None,
        },
{
    hex::decode(text).ok()
}

/// The hexadecimal part of a stored hash: without its `sha256:` tag.
pub open spec fn hash_hex_part(h: Seq<char>) -> Seq<char> {
    if h.len() >= 7 && h.subrange(0, 7) == hash_tag() { h.subrange(7, h.len() as int) } else { h }
}

/// The raw hash of an entry for the Merkle tree: the first 32 bytes its
/// stored hash decodes to, or, where it does not decode, the SHA-256 of its
/// canonical text.
pub open spec fn leaf_bytes(e: AuditLogEntry) -> Seq<u8> {
    match hex_decoded(hash_hex_part(e.this_log_hash@)) {
        Some(b) => b.subrange(0, 32),
        None => spec_sha256(encode_utf8(canonical_text(e))),
    }
}

/// The entry's stored hash, where it decodes, gives at least 32 bytes.
pub open spec fn leaf_decodable(e: AuditLogEntry) -> bool {
    hex_decoded(hash_hex_part(e.this_log_hash@)) matches Some(b) ==> b.len() >= 32
}

/// The combined hash of two raw hashes.
pub open spec fn byte_pair_hash(l: Seq<Seq<u8>>, k: int) -> Seq<u8> {
    if 2 * k + 1 < l.len() {
        spec_sha256(l[2 * k] + l[2 * k + 1])
    } else {
        spec_sha256(l[2 * k] + l[2 * k])
    }
}

/// The level of raw hashes above `l`.
pub open spec fn byte_next_level(l: Seq<Seq<u8>>) -> Seq<Seq<u8>> {
    Seq::new(((l.len() + 1) / 2) as nat, |k: int| byte_pair_hash(l, k))
}

/// The raw Merkle root of a non-empty level.
pub open spec fn byte_merkle_root(l: Seq<Seq<u8>>) -> Seq<u8>
    decreases l.len(),
{
    if l.len() <= 1 {
        l[0]
    } else {
        byte_merkle_root(byte_next_level(l))
    }
}

/// The ids of the servers in order of first appearance.
pub open spec fn server_ids(s: Seq<AuditLogEntry>) -> Seq<Seq<char>>
    decreases s.len(),
{
    if s.len() == 0 {
        Seq::empty()
    } else {
        let ids = server_ids(s.drop_last());
        if ids.contains(s.last().server_id@) { ids } else { ids.push(s.last().server_id@) }
    }
}

/// The summaries are keyed like a map from server ids: each server that
/// logged an entry appears exactly once, and no other id appears.
pub proof fn lemma_server_ids_keyed(s: Seq<AuditLogEntry>)
    ensures
        forall|i: int, j: int| 0 <= i < j < server_ids(s).len() ==> #[trigger] server_ids(s)[i] != #[trigger] server_ids(s)[j],
        forall|k: int| 0 <= k < s.len() ==> server_ids(s).contains(#[trigger] s[k].server_id@),
        forall|j: int| 0 <= j < server_ids(s).len() ==> exists|k: int| 0 <= k < s.len() && #[trigger] s[k].server_id@ == #[trigger] server_ids(s)[j],
    decreases s.len(),
{
    if s.len() > 0 {
        let p = s.drop_last();
        lemma_server_ids_keyed(p);
        let ids = server_ids(p);
        let last = s.last().server_id@;
        assert forall|k: int| 0 <= k < s.len() implies server_ids(s).contains(#[trigger] s[k].server_id@) by {
            if k < p.len() {
                assert(s[k] == p[k]);
                assert(ids.contains(p[k].server_id@));
                if !ids.contains(last) {
                    let m = choose|m: int| 0 <= m < ids.len() && ids[m] == p[k].server_id@;
                    assert(server_ids(s)[m] == ids[m]);
                }
            } else if ids.contains(last) {
            } else {
                assert(server_ids(s)[ids.len() as int] == last);
            }
        }
        assert forall|j: int| 0 <= j < server_ids(s).len() implies exists|k: int| 0 <= k < s.len() && #[trigger] s[k].server_id@ == #[trigger] server_ids(s)[j] by {
            if j < ids.len() {
                assert(server_ids(s)[j] == ids[j]);
                let k = choose|k: int| 0 <= k < p.len() && #[trigger] p[k].server_id@ == ids[j];
                assert(s[k] == p[k]);
            } else {
                assert(s[s.len() - 1].server_id@ == server_ids(s)[j]);
            }
        }
    }
}

/// The entries of one server, in order.
pub open spec fn entries_of(s: Seq<AuditLogEntry>, id: Seq<char>) -> Seq<AuditLogEntry>
    decreases s.len(),
{
    if s.len() == 0 {
        Seq::empty()
    } else if s.last().server_id@ == id {
        entries_of(s.drop_last(), id).push(s.last())
    } else {
        entries_of(s.drop_last(), id)
    }
}

/// The summary of a server's entries.
pub open spec fn summary_of(es: Seq<AuditLogEntry>, sm: AuditLogSummary) -> bool {
    &&& sm.entries_count == es.len()
    &&& sm.first_entry_hash@ == es[0].this_log_hash@
    &&& sm.last_entry_hash@ == es.last().this_log_hash@
    &&& sm.merkle_root@ == hash_tag() + hex_encode(byte_merkle_root(Seq::new(es.len(), |i: int| leaf_bytes(es[i]))))
}

fn leaf_of(e: &AuditLogEntry) -> (r: Vec<u8>)
    requires
        leaf_decodable(*e),
    ensures
        r@ == leaf_bytes(*e),
{
    let h = e.this_log_hash.as_str();
    let hex_part = if starts_with(h, "sha256:") {
        proof {
            reveal_strlit("sha256:");
        }
        h.substring_char(7, h.unicode_len())
    } else {
        proof {
            reveal_strlit("sha256:");
        }
        h
    };
    proof {
        assert(hash_tag() =~= "sha256:"@);
        assert(hex_part@ == hash_hex_part(e.this_log_hash@));
    }
    match hex_decode(hex_part) {
        Some(bytes) => {
            let mut out: Vec<u8> = Vec::new();
            let mut i: usize = 0;
            while i < 32
                invariant
                    bytes@.len() >= 32,
                    i <= 32,
                    out@ == bytes@.subrange(0, i as int),
                decreases 32 - i,
            {
                out.push(bytes[i]);
                proof {
                    assert(bytes@.subrange(0, i + 1) =~= bytes@.subrange(0, i as int).push(bytes@[i as int]));
                }
                i = i + 1;
            }
            out
        },
        None => {
            let text = e.canonical_string();
            sha256(text.as_str().as_bytes_vec().as_slice())
        },
    }
}

fn concat_bytes(a: &Vec<u8>, b: &Vec<u8>) -> (r: Vec<u8>)
    ensures
        r@ == a@ + b@,
{
    let mut out = vstd::slice::slice_to_vec(a.as_slice());
    let mut tail = vstd::slice::slice_to_vec(b.as_slice());
    out.append(&mut tail);
    out
}

/// The raw Merkle root of a non-empty level of raw hashes.
pub fn byte_root(leaves: Vec<Vec<u8>>) -> (r: Vec<u8>)
    requires
        leaves@.len() > 0,
    ensures
        r@ == byte_merkle_root(Seq::new(leaves@.len(), |i: int| leaves@[i]@)),
{
    let mut level = leaves;
    let ghost first = Seq::new(level@.len(), |i: int| level@[i]@);
    while level.len() > 1
        invariant
            level@.len() > 0,
            byte_merkle_root(Seq::new(level@.len(), |i: int| level@[i]@)) == byte_merkle_root(first),
        decreases level@.len(),
    {
        let ghost cur = Seq::new(level@.len(), |i: int| level@[i]@);
        let n = level.len();
        let mut next: Vec<Vec<u8>> = Vec::new();
        let mut k: usize = 0;
        while k < n / 2 + n % 2
            invariant
                n == level@.len(),
                n > 1,
                cur == Seq::new(level@.len(), |i: int| level@[i]@),
                k <= n / 2 + n % 2,
                next@.len() == k,
                forall|j: int| 0 <= j < k ==> (#[trigger] next@[j])@ == byte_pair_hash(cur, j),
            decreases n / 2 + n % 2 - k,
        {
            let left = &level[2 * k];
            let combined = if 2 * k + 1 < n {
                concat_bytes(left, &level[2 * k + 1])
            } else {
                concat_bytes(left, left)
            };
            let h = sha256(combined.as_slice());
            next.push(h);
            k = k + 1;
        }
        proof {
            assert(Seq::new(next@.len(), |i: int| next@[i]@) =~= byte_next_level(cur));
        }
        level = next;
    }
    proof {
        assert(Seq::new(level@.len(), |i: int| level@[i]@).len() == 1);
    }
    let mut level = level;
    level.remove(0)
}

proof fn lemma_entries_step(s: Seq<AuditLogEntry>, i: int, id: Seq<char>)
    requires
        0 <= i < s.len(),
    ensures
        entries_of(s.subrange(0, i + 1), id) == (if s[i].server_id@ == id {
            entries_of(s.subrange(0, i), id).push(s[i])
        } else {
            entries_of(s.subrange(0, i), id)
        }),
        server_ids(s.subrange(0, i + 1)) == (if server_ids(s.subrange(0, i)).contains(s[i].server_id@) {
            server_ids(s.subrange(0, i))
        } else {
            server_ids(s.subrange(0, i)).push(s[i].server_id@)
        }),
{
    assert(s.subrange(0, i + 1).drop_last() =~= s.subrange(0, i));
}

proof fn lemma_ids_have_entries(s: Seq<AuditLogEntry>, j: int)
    requires
        0 <= j < server_ids(s).len(),
    ensures
        entries_of(s, server_ids(s)[j]).len() > 0,
    decreases s.len(),
{
    let ids = server_ids(s.drop_last());
    if j < ids.len() {
        lemma_ids_have_entries(s.drop_last(), j);
    }
}

/// Summarizes each server's entries, servers in order of first appearance.
pub fn get_audit_log_summaries(entries: &[AuditLogEntry]) -> (r: Vec<(String, AuditLogSummary)>)
    requires
        forall|i: int| 0 <= i < entries@.len() ==> leaf_decodable(#[trigger] entries@[i]),
        entries@.len() <= u64::MAX,
    ensures
        r@.len() == server_ids(entries@).len(),
        forall|j: int| 0 <= j < r@.len() ==> {
            let (id, sm) = #[trigger] r@[j];
            id@ == server_ids(entries@)[j] && summary_of(entries_of(entries@, id@), sm)
        },
{
    let n = entries.len();
    let mut ids: Vec<String> = Vec::new();
    let mut i: usize = 0;
    while i < n
        invariant
            n == entries@.len(),
            i <= n,
            crate::text::views(ids@) == server_ids(entries@.subrange(0, i as int)),
        decreases n - i,
    {
        proof {
            lemma_entries_step(entries@, i as int, Seq::empty());
        }
        let id = &entries[i].server_id;
        let mut seen = false;
        let mut k: usize = 0;
        while k < ids.len()
            invariant
                k <= ids@.len(),
                seen == exists|x: int| 0 <= x < k && ids@[x]@ == id@,
            decreases ids@.len() - k,
        {
            if str_eq(ids[k].as_str(), id.as_str()) {
                seen = true;
            }
            k = k + 1;
        }
        proof {
            let v = crate::text::views(ids@);
            if seen {
                let x = choose|x: int| 0 <= x < k && ids@[x]@ == id@;
                assert(v[x] == id@);
            } else {
                assert forall|x: int| 0 <= x < v.len() implies v[x] != id@ by {
                    assert(v[x] == ids@[x]@);
                }
            }
        }
        if !seen {
            let ghost before = ids@;
            ids.push(id.clone());
            proof {
                assert(crate::text::views(ids@) =~= crate::text::views(before).push(id@));
            }
        }
        i = i + 1;
    }
    proof {
        assert(entries@.subrange(0, n as int) =~= entries@);
    }
    let mut out: Vec<(String, AuditLogSummary)> = Vec::new();
    let m = ids.len();
    let mut j: usize = 0;
    while j < m
        invariant
            n == entries@.len(),
            n <= u64::MAX,
            m == ids@.len(),
            crate::text::views(ids@) == server_ids(entries@),
            forall|x: int| 0 <= x < entries@.len() ==> leaf_decodable(#[trigger] entries@[x]),
            j <= m,
            out@.len() == j,
            forall|x: int| 0 <= x < j ==> {
                let (id, sm) = #[trigger] out@[x];
                id@ == server_ids(entries@)[x] && summary_of(entries_of(entries@, id@), sm)
            },
        decreases m - j,
    {
        let id = &ids[j];
        proof {
            assert(crate::text::views(ids@)[j as int] == id@);
            lemma_ids_have_entries(entries@, j as int);
        }
        let mut leaves: Vec<Vec<u8>> = Vec::new();
        let mut count: u64 = 0;
        let mut first: Option<String> = None;
        let mut last: Option<String> = None;
        let mut i: usize = 0;
        while i < n
            invariant
                n == entries@.len(),
                n <= u64::MAX,
                i <= n,
                forall|x: int| 0 <= x < entries@.len() ==> leaf_decodable(#[trigger] entries@[x]),
                count == entries_of(entries@.subrange(0, i as int), id@).len(),
                count <= i,
                leaves@.len() == count,
                forall|x: int| 0 <= x < count ==> (#[trigger] leaves@[x])@ == leaf_bytes(entries_of(entries@.subrange(0, i as int), id@)[x]),
                count == 0 <==> first is None,
                count == 0 <==> last is None,
                first matches Some(f) ==> f@ == entries_of(entries@.subrange(0, i as int), id@)[0].this_log_hash@,
                last matches Some(l) ==> l@ == entries_of(entries@.subrange(0, i as int), id@).last().this_log_hash@,
            decreases n - i,
        {
            proof {
                lemma_entries_step(entries@, i as int, id@);
            }
            let e = &entries[i];
            if str_eq(e.server_id.as_str(), id.as_str()) {
                let leaf = leaf_of(e);
                leaves.push(leaf);
                count = count + 1;
                if first.is_none() {
                    first = Some(e.this_log_hash.clone());
                }
                last = Some(e.this_log_hash.clone());
            }
            i = i + 1;
        }
        proof {
            assert(entries@.subrange(0, n as int) =~= entries@);
        }
        let ghost es = entries_of(entries@, id@);
        proof {
            assert(Seq::new(leaves@.len(), |x: int| leaves@[x]@) =~= Seq::new(es.len(), |x: int| leaf_bytes(es[x])));
        }
        let root = byte_root(leaves);
        let merkle_root = tag_digest(root.as_slice());
        let first_hash = match first { Some(f) => f, None => String::new() };
        let last_hash = match last { Some(l) => l, None => String::new() };
        out.push((id.clone(), AuditLogSummary {
            entries_count: count,
            first_entry_hash: first_hash,
            last_entry_hash: last_hash,
            merkle_root,
        }));
        j = j + 1;
    }
    out
}

/// The registry entry of a maintainer from its database record: name from
/// the GitHub user name, key as the npub, and `active` or `inactive`.
pub fn registry_maintainer(id: i32, github_username: &str, public_key: &str, active: bool, last_updated: i64) -> (r: Maintainer)
    ensures
        r.id == id,
        r.name@ == github_username@,
        r.npub@ == public_key@,
        r.added_at == last_updated,
        r.status@ == (if active { "active"@ } else { "inactive"@ }),
{
    Maintainer {
        id,
        name: String::from_str(github_username),
        npub: String::from_str(public_key),
        added_at: last_updated,
        status: if active { String::from_str("active") } else { String::from_str("inactive") },
    }
}

/// The multisignature requirement registries record: three of five.
pub fn default_multisig_config() -> (r: MultisigConfig)
    ensures
        r.required_signatures == 3,
        r.total_maintainers == 5,
{
    MultisigConfig { required_signatures: 3, total_maintainers: 5 }
}

} // verus!
