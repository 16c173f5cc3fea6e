//! The hash commitment utility.
//!
//! A commitment binds a hidden [`Reveal`] through a digest of a canonical
//! byte encoding of it. The protocol asks two things of this digest: that it
//! is a deterministic function of the reveal's value alone, so that every
//! ledger participant recomputes the same digest, and that it is collision
//! resistant, so that a reveal cannot be swapped after the fact. The
//! encoding frames every field by its length; the digest itself is computed
//! by an outside hash crate and named by [`sha2_256_of`].

use vstd::prelude::*;
use vstd::string::StrSliceExecFns;
use vstd::string::StringSliceAdditionalSpecFns;
use vstd::utf8::encode_utf8;

use crate::types::Reveal;
use crate::types::RevealView;

verus! {

/// The little-endian bytes of a 64-bit count, used to frame each field of
/// the canonical encoding.
pub open spec fn spec_u64_le(n: u64) -> Seq<u8> {
    seq![
        (n % 256) as u8,
        ((n / 256) % 256) as u8,
        ((n / 0x10000) % 256) as u8,
        ((n / 0x1000000) % 256) as u8,
        ((n / 0x100000000) % 256) as u8,
        ((n / 0x10000000000) % 256) as u8,
        ((n / 0x1000000000000) % 256) as u8,
        ((n / 0x100000000000000) % 256) as u8,
    ]
}

/// A string field: its UTF-8 byte length, then its UTF-8 bytes.
pub open spec fn spec_encode_str(s: Seq<char>) -> Seq<u8> {
    spec_u64_le(encode_utf8(s).len() as u64) + encode_utf8(s)
}

/// The string fields of a list, one after the other.
pub open spec fn spec_encode_str_entries(l: Seq<Seq<char>>) -> Seq<u8>
    decreases l.len(),
{
    if l.len() == 0 {
        Seq::empty()
    } else {
        spec_encode_str_entries(l.drop_last()) + spec_encode_str(l.last())
    }
}

/// A list field: its entry count, then its entries.
pub open spec fn spec_encode_str_list(l: Seq<Seq<char>>) -> Seq<u8> {
    spec_u64_le(l.len() as u64) + spec_encode_str_entries(l)
}

/// The canonical byte encoding of a reveal: every field framed by its
/// length, in a fixed order, so that reveals with equal values encode
/// equally on every replica.
pub open spec fn spec_encode_reveal(r: RevealView) -> Seq<u8> {
    spec_encode_str(r.component.name) + spec_encode_str_list(r.component.wins_against)
        + spec_encode_str_list(r.component.loses_against) + spec_encode_str(r.nonce)
}

/// Whether a string's UTF-8 encoding fits the 64-bit length frame. Every
/// string held in memory does.
pub open spec fn encodable_str(s: Seq<char>) -> bool {
    encode_utf8(s).len() < 0x10000000000000000
}

/// Whether a list and each of its strings fit their 64-bit frames. Every
/// list held in memory does.
pub open spec fn encodable_str_list(l: Seq<Seq<char>>) -> bool {
    &&& l.len() < 0x10000000000000000
    &&& forall|i: int| 0 <= i < l.len() ==> #[trigger] encodable_str(l[i])
}

/// Whether every field of a reveal fits its 64-bit frame. Every reveal held
/// in memory does, as [`encode_reveal`]'s contract records.
pub open spec fn encodable_reveal(r: RevealView) -> bool {
    &&& encodable_str(r.component.name)
    &&& encodable_str_list(r.component.wins_against)
    &&& encodable_str_list(r.component.loses_against)
    &&& encodable_str(r.nonce)
}

/// The SHA2-256 multihash (hash code, digest length, digest) of a byte
/// string: a fixed function of the bytes alone, computed by an outside
/// crate and only named here.
pub uninterp spec fn sha2_256_of(bytes: Seq<u8>) -> Seq<u8>;

/// The commit digest of a reveal: the SHA2-256 multihash of its canonical
/// encoding.
pub open spec fn spec_commit_hash(r: RevealView) -> Seq<u8> {
    sha2_256_of(spec_encode_reveal(r))
}

/// Relies on multihash's Sha2_256::digest: the returned multihash wraps the
/// SHA2-256 digest of the input and depends on the input bytes alone.
#[verifier::external_body]
fn sha2_256_digest(bytes: &Vec<u8>) -> (r: Vec<u8>)
    ensures
        r@ == sha2_256_of(bytes@),
{
    multihash::Sha2_256::digest(bytes.as_slice()).into_bytes()
}

fn push_u64_le(out: &mut Vec<u8>, n: u64)
    ensures
        final(out)@ == old(out)@ + spec_u64_le(n),
{
    out.push((n % 256) as u8);
    out.push(((n / 256) % 256) as u8);
    out.push(((n / 0x10000) % 256) as u8);
    out.push(((n / 0x1000000) % 256) as u8);
    out.push(((n / 0x100000000) % 256) as u8);
    out.push(((n / 0x10000000000) % 256) as u8);
    out.push(((n / 0x1000000000000) % 256) as u8);
    out.push(((n / 0x100000000000000) % 256) as u8);
    proof {
        assert(out@ =~= old(out)@ + spec_u64_le(n));
    }
}

fn push_str(out: &mut Vec<u8>, s: &str)
    ensures
        final(out)@ == old(out)@ + spec_encode_str(s@),
        encodable_str(s@),
{
    let mut bytes = s.as_bytes_vec();
    let len = bytes.len();
    push_u64_le(out, len as u64);
    out.append(&mut bytes);
    proof {
        assert(out@ =~= old(out)@ + spec_encode_str(s@));
    }
}

fn push_str_list(out: &mut Vec<u8>, l: &Vec<String>)
    ensures
        final(out)@ == old(out)@ + spec_encode_str_list(l.deep_view()),
        encodable_str_list(l.deep_view()),
{
    push_u64_le(out, l.len() as u64);
    let mut i: usize = 0;
    while i < l.len()
        invariant
            i <= l@.len(),
            out@ == old(out)@ + spec_u64_le(l@.len() as u64) + spec_encode_str_entries(
                l.deep_view().take(i as int),
            ),
            forall|j: int| 0 <= j < i ==> #[trigger] encodable_str(l.deep_view()[j]),
        decreases l@.len() - i,
    {
        push_str(out, l[i].as_str());
        proof {
            let dv = l.deep_view();
            let i1 = (i as int) + 1;
            assert(dv.take(i1).drop_last() =~= dv.take(i as int));
            assert(dv.take(i1).last() == dv[i as int]);
            assert(spec_encode_str_entries(dv.take(i1)) == spec_encode_str_entries(
                dv.take(i1).drop_last(),
            ) + spec_encode_str(dv.take(i1).last()));
            assert(out@ =~= old(out)@ + spec_u64_le(l@.len() as u64) + spec_encode_str_entries(
                dv.take(i1),
            ));
        }
        i += 1;
    }
    proof {
        assert(l.deep_view().take(l@.len() as int) =~= l.deep_view());
    }
}

/// The canonical byte encoding of a reveal, as [`spec_encode_reveal`]
/// states it.
pub fn encode_reveal(reveal: &Reveal) -> (r: Vec<u8>)
    ensures
        r@ == spec_encode_reveal(reveal@),
        encodable_reveal(reveal@),
{
    let mut out: Vec<u8> = Vec::new();
    push_str(&mut out, reveal.component.name.as_str());
    push_str_list(&mut out, &reveal.component.wins_against);
    push_str_list(&mut out, &reveal.component.loses_against);
    push_str(&mut out, reveal.nonce.as_str());
    proof {
        assert(out@ =~= spec_encode_reveal(reveal@));
    }
    out
}

proof fn lemma_u64_le_injective(a: u64, b: u64)
    requires
        spec_u64_le(a) == spec_u64_le(b),
    ensures
        a == b,
{
    let s1 = spec_u64_le(a);
    let s2 = spec_u64_le(b);
    assert(s1[0] == s2[0] && s1[1] == s2[1] && s1[2] == s2[2] && s1[3] == s2[3] && s1[4] == s2[4]
        && s1[5] == s2[5] && s1[6] == s2[6] && s1[7] == s2[7]);
    assert(a == b) by (bit_vector)
        requires
            a % 256 == b % 256,
            (a / 256) % 256 == (b / 256) % 256,
            (a / 0x10000) % 256 == (b / 0x10000) % 256,
            (a / 0x1000000) % 256 == (b / 0x1000000) % 256,
            (a / 0x100000000) % 256 == (b / 0x100000000) % 256,
            (a / 0x10000000000) % 256 == (b / 0x10000000000) % 256,
            (a / 0x1000000000000) % 256 == (b / 0x1000000000000) % 256,
            (a / 0x100000000000000) % 256 == (b / 0x100000000000000) % 256,
    ;
}

proof fn lemma_concat_assoc(a: Seq<u8>, b: Seq<u8>, c: Seq<u8>)
    ensures
        (a + b) + c == a + (b + c),
{
    assert((a + b) + c =~= a + (b + c));
}

proof fn lemma_concat_split(x1: Seq<u8>, y1: Seq<u8>, x2: Seq<u8>, y2: Seq<u8>)
    requires
        x1.len() == x2.len(),
        x1 + y1 == x2 + y2,
    ensures
        x1 == x2,
        y1 == y2,
{
    assert((x1 + y1).len() == x1.len() + y1.len());
    assert((x2 + y2).len() == x2.len() + y2.len());
    assert((x1 + y1).len() == (x2 + y2).len());
    assert(y1.len() == y2.len());
    assert(x1 =~= (x1 + y1).subrange(0, x1.len() as int));
    assert(x2 =~= (x2 + y2).subrange(0, x2.len() as int));
    assert(y1 =~= (x1 + y1).subrange(x1.len() as int, (x1 + y1).len() as int));
    assert(y2 =~= (x2 + y2).subrange(x2.len() as int, (x2 + y2).len() as int));
}

proof fn lemma_encode_str_prefix(s1: Seq<char>, rest1: Seq<u8>, s2: Seq<char>, rest2: Seq<u8>)
    requires
        encodable_str(s1),
        encodable_str(s2),
        spec_encode_str(s1) + rest1 == spec_encode_str(s2) + rest2,
    ensures
        s1 == s2,
        rest1 == rest2,
{
    let b1 = encode_utf8(s1);
    let b2 = encode_utf8(s2);
    let p1 = spec_u64_le(b1.len() as u64);
    let p2 = spec_u64_le(b2.len() as u64);
    assert(spec_encode_str(s1) + rest1 =~= p1 + (b1 + rest1));
    assert(spec_encode_str(s2) + rest2 =~= p2 + (b2 + rest2));
    lemma_concat_split(p1, b1 + rest1, p2, b2 + rest2);
    lemma_u64_le_injective(b1.len() as u64, b2.len() as u64);
    assert(b1.len() == b2.len());
    lemma_concat_split(b1, rest1, b2, rest2);
    vstd::utf8::encode_utf8_decode_utf8(s1);
    vstd::utf8::encode_utf8_decode_utf8(s2);
}

proof fn lemma_entries_first(l: Seq<Seq<char>>)
    requires
        l.len() > 0,
    ensures
        spec_encode_str_entries(l) == spec_encode_str(l.first()) + spec_encode_str_entries(
            l.drop_first(),
        ),
    decreases l.len(),
{
    if l.len() == 1 {
        assert(l.drop_last() =~= Seq::<Seq<char>>::empty());
        assert(l.drop_first() =~= Seq::<Seq<char>>::empty());
        assert(l.last() == l.first());
        assert(Seq::<u8>::empty() + spec_encode_str(l.first()) =~= spec_encode_str(l.first())
            + Seq::<u8>::empty());
    } else {
        lemma_entries_first(l.drop_last());
        assert(l.drop_last().first() == l.first());
        assert(l.drop_last().drop_first() =~= l.drop_first().drop_last());
        assert(l.drop_first().last() == l.last());
        assert(spec_encode_str_entries(l) == (spec_encode_str(l.first()) + spec_encode_str_entries(
            l.drop_first().drop_last(),
        )) + spec_encode_str(l.drop_first().last()));
        assert((spec_encode_str(l.first()) + spec_encode_str_entries(l.drop_first().drop_last()))
            + spec_encode_str(l.drop_first().last()) =~= spec_encode_str(l.first()) + (
        spec_encode_str_entries(l.drop_first().drop_last()) + spec_encode_str(
            l.drop_first().last(),
        )));
    }
}

proof fn lemma_entries_prefix(l1: Seq<Seq<char>>, rest1: Seq<u8>, l2: Seq<Seq<char>>, rest2: Seq<
    u8,
>)
    requires
        l1.len() == l2.len(),
        forall|i: int| 0 <= i < l1.len() ==> #[trigger] encodable_str(l1[i]),
        forall|i: int| 0 <= i < l2.len() ==> #[trigger] encodable_str(l2[i]),
        spec_encode_str_entries(l1) + rest1 == spec_encode_str_entries(l2) + rest2,
    ensures
        l1 == l2,
        rest1 == rest2,
    decreases l1.len(),
{
    if l1.len() == 0 {
        assert(l1 =~= l2);
        assert(Seq::<u8>::empty() + rest1 =~= rest1);
        assert(Seq::<u8>::empty() + rest2 =~= rest2);
    } else {
        lemma_entries_first(l1);
        lemma_entries_first(l2);
        assert(l1.first() == l1[0] && l2.first() == l2[0]);
        assert(encodable_str(l1[0]) && encodable_str(l2[0]));
        assert(forall|i: int| 0 <= i < l1.drop_first().len() ==> #[trigger] encodable_str(
            l1.drop_first()[i],
        )) by {
            assert(forall|i: int|
                0 <= i < l1.drop_first().len() ==> l1.drop_first()[i] == l1[i + 1]
                    && #[trigger] encodable_str(l1[i + 1]));
        }
        assert(forall|i: int| 0 <= i < l2.drop_first().len() ==> #[trigger] encodable_str(
            l2.drop_first()[i],
        )) by {
            assert(forall|i: int|
                0 <= i < l2.drop_first().len() ==> l2.drop_first()[i] == l2[i + 1]
                    && #[trigger] encodable_str(l2[i + 1]));
        }
        let e1 = spec_encode_str(l1.first());
        let t1 = spec_encode_str_entries(l1.drop_first());
        let e2 = spec_encode_str(l2.first());
        let t2 = spec_encode_str_entries(l2.drop_first());
        lemma_concat_assoc(e1, t1, rest1);
        lemma_concat_assoc(e2, t2, rest2);
        assert(spec_encode_str_entries(l1) + rest1 == e1 + (t1 + rest1));
        assert(spec_encode_str_entries(l2) + rest2 == e2 + (t2 + rest2));
        lemma_encode_str_prefix(l1.first(), t1 + rest1, l2.first(), t2 + rest2);
        lemma_entries_prefix(l1.drop_first(), rest1, l2.drop_first(), rest2);
        assert(l1 =~= l2) by {
            assert forall|i: int| 0 <= i < l1.len() implies l1[i] == l2[i] by {
                if i == 0 {
                    assert(l1[0] == l1.first() && l2[0] == l2.first());
                } else {
                    assert(l1[i] == l1.drop_first()[i - 1]);
                    assert(l2[i] == l2.drop_first()[i - 1]);
                }
            }
        }
    }
}

proof fn lemma_encode_str_list_prefix(
    l1: Seq<Seq<char>>,
    rest1: Seq<u8>,
    l2: Seq<Seq<char>>,
    rest2: Seq<u8>,
)
    requires
        encodable_str_list(l1),
        encodable_str_list(l2),
        spec_encode_str_list(l1) + rest1 == spec_encode_str_list(l2) + rest2,
    ensures
        l1 == l2,
        rest1 == rest2,
{
    let p1 = spec_u64_le(l1.len() as u64);
    let p2 = spec_u64_le(l2.len() as u64);
    assert(spec_encode_str_list(l1) + rest1 =~= p1 + (spec_encode_str_entries(l1) + rest1));
    assert(spec_encode_str_list(l2) + rest2 =~= p2 + (spec_encode_str_entries(l2) + rest2));
    lemma_concat_split(p1, spec_encode_str_entries(l1) + rest1, p2, spec_encode_str_entries(l2)
        + rest2);
    lemma_u64_le_injective(l1.len() as u64, l2.len() as u64);
    assert(l1.len() == l2.len());
    lemma_entries_prefix(l1, rest1, l2, rest2);
}

/// The canonical encoding is injective: two reveals encode to the same
/// bytes only when they are the same value. So the only way a swapped
/// reveal can carry the committed digest is a collision of the hash
/// itself, which its collision resistance excludes.
pub proof fn lemma_encode_reveal_injective(r1: RevealView, r2: RevealView)
    requires
        encodable_reveal(r1),
        encodable_reveal(r2),
        spec_encode_reveal(r1) == spec_encode_reveal(r2),
    ensures
        r1 == r2,
{
    let name1 = spec_encode_str(r1.component.name);
    let name2 = spec_encode_str(r2.component.name);
    let wins1 = spec_encode_str_list(r1.component.wins_against);
    let wins2 = spec_encode_str_list(r2.component.wins_against);
    let loses1 = spec_encode_str_list(r1.component.loses_against);
    let loses2 = spec_encode_str_list(r2.component.loses_against);
    let nonce1 = spec_encode_str(r1.nonce);
    let nonce2 = spec_encode_str(r2.nonce);
    assert(spec_encode_reveal(r1) =~= name1 + (wins1 + (loses1 + nonce1)));
    assert(spec_encode_reveal(r2) =~= name2 + (wins2 + (loses2 + nonce2)));
    lemma_encode_str_prefix(
        r1.component.name,
        wins1 + (loses1 + nonce1),
        r2.component.name,
        wins2 + (loses2 + nonce2),
    );
    lemma_encode_str_list_prefix(
        r1.component.wins_against,
        loses1 + nonce1,
        r2.component.wins_against,
        loses2 + nonce2,
    );
    lemma_encode_str_list_prefix(
        r1.component.loses_against,
        nonce1,
        r2.component.loses_against,
        nonce2,
    );
    assert(nonce1 + Seq::<u8>::empty() =~= nonce1);
    assert(nonce2 + Seq::<u8>::empty() =~= nonce2);
    lemma_encode_str_prefix(r1.nonce, Seq::<u8>::empty(), r2.nonce, Seq::<u8>::empty());
    assert(r1.component =~= r2.component);
    assert(r1 =~= r2);
}

/// The commit digest of a reveal: the hash of its canonical encoding.
/// Challenger and validators alike derive the digest through this one
/// function, which is what makes the commitment scheme replayable.
pub fn calculate_hash(reveal: &Reveal) -> (r: Vec<u8>)
    ensures
        r@ == spec_commit_hash(reveal@),
        encodable_reveal(reveal@),
{
    let encoded = encode_reveal(reveal);
    sha2_256_digest(&encoded)
}

} // verus!
