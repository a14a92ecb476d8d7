use vstd::prelude::*;
use vstd::bytes::spec_u64_to_le_bytes;
use crate::state::AccountId;

verus! {

broadcast use vstd::array::group_array_axioms;

/// The fixed ASCII domain tag `X402_FLOW_SETTLE` that opens every canonical
/// settlement message.
pub open spec fn spec_settle_tag() -> Seq<u8> {
    seq![
        88u8, 52u8, 48u8, 50u8, 95u8, 70u8, 76u8, 79u8,
        87u8, 95u8, 83u8, 69u8, 84u8, 84u8, 76u8, 69u8,
    ]
}

/// The canonical message an agent must sign to authorize one settlement:
/// the domain tag, the vault identity, the provider identity, then the
/// amount and the nonce as 8-byte little-endian integers — 96 bytes in all.
pub open spec fn spec_canonical_message(
    vault: Seq<u8>,
    provider: Seq<u8>,
    amount: u64,
    nonce: u64,
) -> Seq<u8> {
    spec_settle_tag() + vault + provider + spec_u64_to_le_bytes(amount)
        + spec_u64_to_le_bytes(nonce)
}

/// Builds the canonical settlement message for one payment.
pub fn canonical_message(
    vault: &AccountId,
    provider: &AccountId,
    amount: u64,
    nonce: u64,
) -> (m: Vec<u8>)
    ensures
        m@ == spec_canonical_message(vault@, provider@, amount, nonce),
        m@.len() == 96,
{
    let tag: [u8; 16] = [
        88u8, 52u8, 48u8, 50u8, 95u8, 70u8, 76u8, 79u8,
        87u8, 95u8, 83u8, 69u8, 84u8, 84u8, 76u8, 69u8,
    ];
    proof {
        assert(tag@ =~= spec_settle_tag());
    }
    let mut m: Vec<u8> = Vec::new();
    append_bytes(&mut m, &tag);
    append_bytes(&mut m, vault);
    append_bytes(&mut m, provider);
    let amount_le = vstd::bytes::u64_to_le_bytes(amount);
    let nonce_le = vstd::bytes::u64_to_le_bytes(nonce);
    append_vec(&mut m, &amount_le);
    append_vec(&mut m, &nonce_le);
    proof {
        vstd::bytes::lemma_auto_spec_u64_to_from_le_bytes();
        assert(m@ =~= spec_canonical_message(vault@, provider@, amount, nonce));
    }
    m
}

/// Appends every byte of a fixed-size array to `out`, in order.
fn append_bytes<const N: usize>(out: &mut Vec<u8>, bytes: &[u8; N])
    ensures
        final(out)@ == old(out)@ + bytes@,
{
    let mut i: usize = 0;
    while i < N
        invariant
            i <= N,
            out@ == old(out)@ + bytes@.take(i as int),
        decreases N - i,
    {
        out.push(bytes[i]);
        i = i + 1;
        proof {
            assert(out@ =~= old(out)@ + bytes@.take(i as int));
        }
    }
    proof {
        assert(final(out)@ =~= old(out)@ + bytes@);
    }
}

/// Appends every byte of `bytes` to `out`, in order.
fn append_vec(out: &mut Vec<u8>, bytes: &Vec<u8>)
    ensures
        final(out)@ == old(out)@ + bytes@,
{
    let mut i: usize = 0;
    while i < bytes.len()
        invariant
            i <= bytes@.len(),
            out@ == old(out)@ + bytes@.take(i as int),
        decreases bytes@.len() - i,
    {
        out.push(bytes[i]);
        i = i + 1;
        proof {
            assert(out@ =~= old(out)@ + bytes@.take(i as int));
        }
    }
    proof {
        assert(final(out)@ =~= old(out)@ + bytes@);
    }
}

/// Compares two account identities byte for byte.
pub fn id_eq(a: &AccountId, b: &AccountId) -> (r: bool)
    ensures
        r <==> a@ == b@,
{
    let mut i: usize = 0;
    while i < 32
        invariant
            i <= 32,
            forall|j: int| 0 <= j < i ==> a@[j] == b@[j],
        decreases 32 - i,
    {
        if a[i] != b[i] {
            return false;
        }
        i = i + 1;
    }
    proof {
        assert(a@ =~= b@);
    }
    true
}

/// Compares two byte strings for exact, length-and-content equality.
pub fn bytes_eq(a: &Vec<u8>, b: &Vec<u8>) -> (r: bool)
    ensures
        r <==> a@ == b@,
{
    if a.len() != b.len() {
        proof {
            assert(a@ != b@);
        }
        return false;
    }
    let mut i: usize = 0;
    while i < a.len()
        invariant
            i <= a@.len(),
            a@.len() == b@.len(),
            forall|j: int| 0 <= j < i ==> a@[j] == b@[j],
        decreases a@.len() - i,
    {
        if a[i] != b[i] {
            return false;
        }
        i = i + 1;
    }
    proof {
        assert(a@ =~= b@);
    }
    true
}

} // verus!
