use vstd::prelude::*;

verus! {

/// The four bytes of `x`, least significant first when `le`, most
/// significant first otherwise.
pub open spec fn bytes32(x: u32, le: bool) -> Seq<u8> {
    let b = seq![x as u8, (x >> 8u32) as u8, (x >> 16u32) as u8, (x >> 24u32) as u8];
    if le {
        b
    } else {
        b.reverse()
    }
}

/// The two bytes of `x`, least significant first when `le`, most
/// significant first otherwise.
pub open spec fn bytes16(x: u16, le: bool) -> Seq<u8> {
    if le {
        seq![x as u8, (x >> 8u16) as u8]
    } else {
        seq![(x >> 8u16) as u8, x as u8]
    }
}

/// `w` laid out in memory word after word, in the byte order that `le`
/// picks.
pub open spec fn image32(w: Seq<u32>, le: bool) -> Seq<u8> {
    w.map_values(|x: u32| bytes32(x, le)).flatten()
}

/// `w` laid out in memory item after item, in the byte order that `le`
/// picks.
pub open spec fn image16(w: Seq<u16>, le: bool) -> Seq<u8> {
    w.map_values(|x: u16| bytes16(x, le)).flatten()
}

/// `r` holds `w` as this machine lays it out: in one byte order or the
/// other, the same for every word.
pub open spec fn memory_image32(w: Seq<u32>, r: Seq<u8>) -> bool {
    r == image32(w, true) || r == image32(w, false)
}

/// `r` holds `w` as this machine lays it out: in one byte order or the
/// other, the same for every item.
pub open spec fn memory_image16(w: Seq<u16>, r: Seq<u8>) -> bool {
    r == image16(w, true) || r == image16(w, false)
}

/// Relies on `bytemuck::cast_slice::<u32, u8>`: it reinterprets the words'
/// memory as bytes, four per word in the machine's byte order, and cannot
/// fail since `u8` has alignment one.
#[verifier::external_body]
pub(crate) fn words32_as_bytes(w: &[u32]) -> (r: Vec<u8>)
    ensures
        memory_image32(w@, r@),
{
    bytemuck::cast_slice::<u32, u8>(w).to_vec()
}

/// Relies on `bytemuck::cast_slice::<u16, u8>`: it reinterprets the items'
/// memory as bytes, two per item in the machine's byte order, and cannot
/// fail since `u8` has alignment one.
#[verifier::external_body]
pub(crate) fn words16_as_bytes(w: &[u16]) -> (r: Vec<u8>)
    ensures
        memory_image16(w@, r@),
{
    bytemuck::cast_slice::<u16, u8>(w).to_vec()
}

/// Laying out items that take `k` places each takes `k` places per item.
pub proof fn lemma_flat_len<A, B>(s: Seq<A>, f: spec_fn(A) -> Seq<B>, k: nat)
    requires
        forall|x: A| #[trigger] f(x).len() == k,
    ensures
        s.map_values(f).flatten().len() == k * s.len(),
    decreases s.len(),
{
    let m = s.map_values(f);
    if s.len() == 0 {
        assert(m.flatten().len() == 0);
        assert(k * s.len() == 0);
    } else {
        lemma_flat_len(s.drop_first(), f, k);
        assert(m.drop_first() =~= s.drop_first().map_values(f));
        assert(m.flatten() == m.first() + m.drop_first().flatten());
        assert(m.first().len() == k) by {
            assert(m.first() == f(s[0]));
        }
        assert(k * s.len() == k + k * (s.len() - 1)) by (nonlinear_arith)
            requires
                s.len() > 0,
        ;
    }
}

/// Where items that take `k` places each are laid out one after another,
/// item `i` takes the places from `k * i` to `k * i + k`.
pub proof fn lemma_flat_chunk<A, B>(s: Seq<A>, f: spec_fn(A) -> Seq<B>, k: nat, i: int)
    requires
        forall|x: A| #[trigger] f(x).len() == k,
        0 <= i < s.len(),
    ensures
        s.map_values(f).flatten().subrange(k * i, k * i + k) == f(s[i]),
    decreases s.len(),
{
    let m = s.map_values(f);
    let rest = s.drop_first();
    lemma_flat_len(rest, f, k);
    assert(m.drop_first() =~= rest.map_values(f));
    assert(m.flatten() == m.first() + m.drop_first().flatten());
    assert(m.first() == f(s[0]));
    if i == 0 {
        assert(k * i == 0);
        assert(m.flatten().subrange(0, k as int) =~= f(s[0]));
    } else {
        lemma_flat_chunk(rest, f, k, i - 1);
        assert(k * i == k + k * (i - 1)) by (nonlinear_arith);
        assert(0 <= k * (i - 1)) by (nonlinear_arith)
            requires
                i >= 1,
        ;
        assert(k * (i - 1) + k <= k * rest.len()) by (nonlinear_arith)
            requires
                i - 1 < rest.len(),
        ;
        assert(rest[i - 1] == s[i]);
        assert(m.flatten().subrange(k * i, k * i + k) =~= rest.map_values(f).flatten().subrange(
            k * (i - 1),
            k * (i - 1) + k,
        ));
    }
}

/// Each word takes four bytes of its memory image.
pub proof fn lemma_image32_len(w: Seq<u32>, r: Seq<u8>)
    requires
        memory_image32(w, r),
    ensures
        r.len() == 4 * w.len(),
{
    lemma_flat_len(w, |x: u32| bytes32(x, true), 4);
    lemma_flat_len(w, |x: u32| bytes32(x, false), 4);
}

/// Each item takes two bytes of its memory image.
pub proof fn lemma_image16_len(w: Seq<u16>, r: Seq<u8>)
    requires
        memory_image16(w, r),
    ensures
        r.len() == 2 * w.len(),
{
    lemma_flat_len(w, |x: u16| bytes16(x, true), 2);
    lemma_flat_len(w, |x: u16| bytes16(x, false), 2);
}

/// Word `j` of `w` takes bytes `4 * j` to `4 * j + 4` of its image.
pub proof fn lemma_image32_word(w: Seq<u32>, le: bool, j: int)
    requires
        0 <= j < w.len(),
    ensures
        image32(w, le).subrange(4 * j, 4 * j + 4) == bytes32(w[j], le),
{
    lemma_flat_chunk(w, |x: u32| bytes32(x, le), 4, j);
}

} // verus!
