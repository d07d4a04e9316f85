//! SHA-256 digests, hexadecimal encoding and the Merkle root of the audit trail.
use vstd::prelude::*;

use sha2::Digest;

verus! {

broadcast use vstd::string::group_string_axioms;

/// The SHA-256 digest of a byte string.
pub uninterp spec fn spec_sha256(data: Seq<u8>) -> Seq<u8>;

/// `sha2::Sha256::digest`: the 32-byte SHA-256 digest of `data`. The
/// contract names the digest and states only its length (256 bits); which
/// bytes it holds is what the `sha2` crate computes.
#[verifier::external_body]
pub(crate) fn sha256(data: &[u8]) -> (r: Vec<u8>)
    ensures
        r@ == spec_sha256(data@),
        r@.len() == 32,
{
    sha2::Sha256::digest(data).to_vec()
}

/// The lowercase hexadecimal digit for `n` in `0..16`.
pub open spec fn hex_digit(n: int) -> char {
    if n < 10 {
        (('0' as int) + n) as char
    } else {
        (('a' as int) + n - 10) as char
    }
}

/// Lowercase hexadecimal, two digits per byte, high nibble first.
pub open spec fn hex(bytes: Seq<u8>) -> Seq<char>
    decreases bytes.len(),
{
    if bytes.len() == 0 {
        Seq::empty()
    } else {
        hex(bytes.drop_last()) + seq![
            hex_digit(bytes.last() as int / 16),
            hex_digit(bytes.last() as int % 16),
        ]
    }
}

pub proof fn lemma_hex_len(bytes: Seq<u8>)
    ensures
        hex(bytes).len() == 2 * bytes.len(),
    decreases bytes.len(),
{
    if bytes.len() > 0 {
        lemma_hex_len(bytes.drop_last());
    }
}

/// The hexadecimal digit `d` as a one-character string.
fn hex_digit_str(d: u8) -> (r: &'static str)
    requires
        d < 16,
    ensures
        r@ == seq![hex_digit(d as int)],
{
    let digits = "0123456789abcdef";
    proof {
        reveal_strlit("0123456789abcdef");
    }
    digits.substring_char(d as usize, (d + 1) as usize)
}

/// Encodes bytes as lowercase hexadecimal.
pub fn hex_bytes(bytes: &[u8]) -> (r: String)
    ensures
        r@ == hex(bytes@),
{
    let mut out = String::new();
    let mut i: usize = 0;
    while i < bytes.len()
        invariant
            i <= bytes@.len(),
            out@ == hex(bytes@.take(i as int)),
        decreases bytes@.len() - i,
    {
        let b = bytes[i];
        let ghost cur = bytes@.take(i + 1);
        assert(cur.drop_last() =~= bytes@.take(i as int));
        assert(cur.last() == b);
        out.append(hex_digit_str(b / 16));
        out.append(hex_digit_str(b % 16));
        assert(out@ =~= hex(cur));
        i = i + 1;
    }
    assert(bytes@.take(bytes@.len() as int) =~= bytes@);
    out
}

/// The hexadecimal SHA-256 digest of `data`.
pub fn sha256_hex(data: &[u8]) -> (r: String)
    ensures
        r@ == hex(spec_sha256(data@)),
{
    let d = sha256(data);
    hex_bytes(d.as_slice())
}

/// One level of the Merkle tree: each pair of nodes is hashed together,
/// and a last node without a partner is paired with itself.
pub open spec fn next_level(level: Seq<Seq<u8>>) -> Seq<Seq<u8>> {
    Seq::new(
        ((level.len() + 1) / 2) as nat,
        |i: int|
            spec_sha256(
                level[2 * i] + if 2 * i + 1 < level.len() {
                    level[2 * i + 1]
                } else {
                    level[2 * i]
                },
            ),
    )
}

/// The node that remains when levels are folded until one is left.
pub open spec fn merkle_top(level: Seq<Seq<u8>>) -> Seq<u8>
    decreases level.len(),
{
    if level.len() <= 1 {
        level[0]
    } else {
        merkle_top(next_level(level))
    }
}

/// The Merkle root over the SHA-256 digests of the given payloads, in
/// hexadecimal; `None` when there is no payload.
pub open spec fn spec_merkle_root(payloads: Seq<Seq<u8>>) -> Option<Seq<char>> {
    if payloads.len() == 0 {
        None
    } else {
        Some(hex(merkle_top(payloads.map_values(|p: Seq<u8>| spec_sha256(p)))))
    }
}

fn concat_bytes(a: &Vec<u8>, b: &Vec<u8>) -> (r: Vec<u8>)
    ensures
        r@ == a@ + b@,
{
    let mut out: Vec<u8> = Vec::new();
    let mut i: usize = 0;
    while i < a.len()
        invariant
            i <= a@.len(),
            out@ == a@.take(i as int),
        decreases a@.len() - i,
    {
        out.push(a[i]);
        assert(out@ =~= a@.take(i + 1));
        i = i + 1;
    }
    let mut j: usize = 0;
    while j < b.len()
        invariant
            j <= b@.len(),
            out@ == a@ + b@.take(j as int),
        decreases b@.len() - j,
    {
        out.push(b[j]);
        assert(out@ =~= a@ + b@.take(j + 1));
        j = j + 1;
    }
    assert(b@.take(b@.len() as int) =~= b@);
    assert(a@.take(a@.len() as int) =~= a@);
    out
}

/// The byte strings held by a vector of byte vectors.
pub open spec fn byte_views(v: Seq<Vec<u8>>) -> Seq<Seq<u8>> {
    v.map_values(|x: Vec<u8>| x@)
}

/// Hashes one level of the tree into the next.
fn fold_level(level: &Vec<Vec<u8>>) -> (r: Vec<Vec<u8>>)
    requires
        level@.len() >= 1,
    ensures
        byte_views(r@) == next_level(byte_views(level@)),
{
    let ghost lv = byte_views(level@);
    let n = level.len();
    let m = n / 2 + n % 2;
    let mut next: Vec<Vec<u8>> = Vec::new();
    let mut j: usize = 0;
    while j < m
        invariant
            n == level@.len(),
            m == (n + 1) / 2,
            lv == byte_views(level@),
            j <= m,
            next@.len() == j,
            forall|k: int| 0 <= k < j ==> #[trigger] next@[k]@ == next_level(lv)[k],
        decreases m - j,
    {
        let i = 2 * j;
        let left = &level[i];
        let right = if i + 1 < n {
            &level[i + 1]
        } else {
            &level[i]
        };
        let buf = concat_bytes(left, right);
        let h = sha256(buf.as_slice());
        let ghost old_next = next@;
        next.push(h);
        proof {
            assert(lv[i as int] == left@);
            assert forall|k: int| 0 <= k < j + 1 implies #[trigger] next@[k]@ == next_level(lv)[k] by {
                if k < j {
                    assert(next@[k] == old_next[k]);
                }
            }
        }
        j = j + 1;
    }
    assert(byte_views(next@) =~= next_level(lv));
    next
}

/// Folds the tree up to its root.
fn merkle_top_exec(leaves: Vec<Vec<u8>>) -> (r: Vec<u8>)
    requires
        leaves@.len() >= 1,
    ensures
        r@ == merkle_top(byte_views(leaves@)),
{
    let ghost goal = merkle_top(byte_views(leaves@));
    let mut level = leaves;
    while level.len() > 1
        invariant
            level@.len() >= 1,
            merkle_top(byte_views(level@)) == goal,
        decreases level@.len(),
    {
        let next = fold_level(&level);
        assert(byte_views(next@).len() == next@.len());
        level = next;
    }
    let top = level[0].clone();
    assert(top@ == byte_views(level@)[0]);
    top
}

/// The Merkle root of the audit trail whose canonical event payloads are
/// given in order: each payload is hashed with SHA-256 into a leaf, the
/// leaves are folded pairwise, and the root is given in hexadecimal.
pub fn merkle_root_of_payloads(payloads: &Vec<Vec<u8>>) -> (r: Option<String>)
    ensures
        match r {
            Some(s) => spec_merkle_root(byte_views(payloads@)) == Some(s@),
            None => spec_merkle_root(byte_views(payloads@)) is None,
        },
{
    let ghost pv = byte_views(payloads@);
    if payloads.len() == 0 {
        return None;
    }
    let mut leaves: Vec<Vec<u8>> = Vec::new();
    let mut i: usize = 0;
    while i < payloads.len()
        invariant
            i <= payloads@.len(),
            pv == byte_views(payloads@),
            leaves@.len() == i,
            forall|k: int| 0 <= k < i ==> #[trigger] leaves@[k]@ == spec_sha256(pv[k]),
        decreases payloads@.len() - i,
    {
        let h = sha256(payloads[i].as_slice());
        let ghost old_leaves = leaves@;
        leaves.push(h);
        assert forall|k: int| 0 <= k < i + 1 implies #[trigger] leaves@[k]@ == spec_sha256(pv[k]) by {
            if k < i {
                assert(leaves@[k] == old_leaves[k]);
            }
        }
        i = i + 1;
    }
    assert(byte_views(leaves@) =~= pv.map_values(|p: Seq<u8>| spec_sha256(p)));
    let top = merkle_top_exec(leaves);
    Some(hex_bytes(top.as_slice()))
}

// ---------------------------------------------------------------------------
// Laws of the Merkle root
// ---------------------------------------------------------------------------

/// A trail of one event has the digest of its payload as root.
pub proof fn law_merkle_root_of_one(a: Seq<u8>)
    ensures
        spec_merkle_root(seq![a]) == Some(hex(spec_sha256(a))),
{
    let l = seq![a].map_values(|p: Seq<u8>| spec_sha256(p));
    assert(l =~= seq![spec_sha256(a)]);
    assert(merkle_top(l) == l[0]);
}

/// A trail of two events has as root the digest of the two leaves joined.
pub proof fn law_merkle_root_of_two(a: Seq<u8>, b: Seq<u8>)
    ensures
        spec_merkle_root(seq![a, b]) == Some(hex(spec_sha256(spec_sha256(a) + spec_sha256(b)))),
{
    let l = seq![a, b].map_values(|p: Seq<u8>| spec_sha256(p));
    assert(l =~= seq![spec_sha256(a), spec_sha256(b)]);
    let n1 = next_level(l);
    assert(n1 =~= seq![spec_sha256(spec_sha256(a) + spec_sha256(b))]);
    assert(merkle_top(l) == merkle_top(n1));
    assert(merkle_top(n1) == n1[0]);
}

/// A trail of three events: the first two leaves are joined and hashed,
/// the unpaired third leaf is joined with itself and hashed, and the root
/// is the digest of those two nodes joined.
pub proof fn law_merkle_root_of_three(a: Seq<u8>, b: Seq<u8>, c: Seq<u8>)
    ensures
        spec_merkle_root(seq![a, b, c]) == Some(
            hex(
                spec_sha256(
                    spec_sha256(spec_sha256(a) + spec_sha256(b)) + spec_sha256(
                        spec_sha256(c) + spec_sha256(c),
                    ),
                ),
            ),
        ),
{
    let l = seq![a, b, c].map_values(|p: Seq<u8>| spec_sha256(p));
    assert(l =~= seq![spec_sha256(a), spec_sha256(b), spec_sha256(c)]);
    let x = spec_sha256(spec_sha256(a) + spec_sha256(b));
    let y = spec_sha256(spec_sha256(c) + spec_sha256(c));
    let n1 = next_level(l);
    assert(n1 =~= seq![x, y]);
    let n2 = next_level(n1);
    assert(n2 =~= seq![spec_sha256(x + y)]);
    assert(merkle_top(l) == merkle_top(n1));
    assert(merkle_top(n1) == merkle_top(n2));
    assert(merkle_top(n2) == n2[0]);
}

/// A trail of four events: the leaves are hashed pairwise, and the root is
/// the digest of the two pair nodes joined.
pub proof fn law_merkle_root_of_four(a: Seq<u8>, b: Seq<u8>, c: Seq<u8>, d: Seq<u8>)
    ensures
        spec_merkle_root(seq![a, b, c, d]) == Some(
            hex(
                spec_sha256(
                    spec_sha256(spec_sha256(a) + spec_sha256(b)) + spec_sha256(
                        spec_sha256(c) + spec_sha256(d),
                    ),
                ),
            ),
        ),
{
    let l = seq![a, b, c, d].map_values(|p: Seq<u8>| spec_sha256(p));
    assert(l =~= seq![spec_sha256(a), spec_sha256(b), spec_sha256(c), spec_sha256(d)]);
    let x = spec_sha256(spec_sha256(a) + spec_sha256(b));
    let y = spec_sha256(spec_sha256(c) + spec_sha256(d));
    let n1 = next_level(l);
    assert(n1 =~= seq![x, y]);
    let n2 = next_level(n1);
    assert(n2 =~= seq![spec_sha256(x + y)]);
    assert(merkle_top(l) == merkle_top(n1));
    assert(merkle_top(n1) == merkle_top(n2));
    assert(merkle_top(n2) == n2[0]);
}

/// For a trail of an odd number of events, three or more, the root is the
/// same as that of the trail with its last event repeated once more: an
/// unpaired node is hashed together with itself.
pub proof fn law_unpaired_event_is_paired_with_itself(payloads: Seq<Seq<u8>>)
    requires
        payloads.len() >= 3,
        payloads.len() % 2 == 1,
    ensures
        spec_merkle_root(payloads) == spec_merkle_root(payloads.push(payloads.last())),
{
    let n = payloads.len();
    let l = payloads.map_values(|p: Seq<u8>| spec_sha256(p));
    let m = payloads.push(payloads.last()).map_values(|p: Seq<u8>| spec_sha256(p));
    assert(m =~= l.push(l.last()));
    let a = next_level(l);
    let b = next_level(m);
    assert(a.len() == b.len());
    assert forall|i: int| 0 <= i < a.len() implies a[i] == b[i] by {
        if 2 * i + 1 < n {
            assert(m[2 * i] == l[2 * i]);
            assert(m[2 * i + 1] == l[2 * i + 1]);
        } else {
            assert(2 * i == n - 1);
            assert(m[2 * i] == l[2 * i]);
            assert(m[2 * i + 1] == l[2 * i]);
        }
    }
    assert(a =~= b);
    assert(merkle_top(l) == merkle_top(a));
    assert(merkle_top(m) == merkle_top(b));
}

} // verus!
