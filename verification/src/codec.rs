//! Byte-level encodings the relay constructs and checks.
//!
//! Every encoding here is fixed by the wire format of the bridged
//! chains: little-endian integers, compact length prefixes, and the
//! domain-separated statement framing. Each exec function is proved
//! against a spec function giving the exact bytes.

use vstd::prelude::*;

use crate::types::RelayError;

verus! {

/// Little-endian bytes of a `u32`.
pub open spec fn u32_le(v: u32) -> Seq<u8> {
    seq![
        (v & 0xff) as u8,
        ((v >> 8) & 0xff) as u8,
        ((v >> 16) & 0xff) as u8,
        ((v >> 24) & 0xff) as u8,
    ]
}

/// Little-endian bytes of a `u64`.
pub open spec fn u64_le(v: u64) -> Seq<u8> {
    seq![
        (v & 0xff) as u8,
        ((v >> 8) & 0xff) as u8,
        ((v >> 16) & 0xff) as u8,
        ((v >> 24) & 0xff) as u8,
        ((v >> 32) & 0xff) as u8,
        ((v >> 40) & 0xff) as u8,
        ((v >> 48) & 0xff) as u8,
        ((v >> 56) & 0xff) as u8,
    ]
}

/// Append the little-endian bytes of `v`.
pub fn push_u32_le(out: &mut Vec<u8>, v: u32)
    ensures
        final(out)@ == old(out)@ + u32_le(v),
{
    let ghost before = out@;
    out.push((v & 0xff) as u8);
    out.push(((v >> 8) & 0xff) as u8);
    out.push(((v >> 16) & 0xff) as u8);
    out.push(((v >> 24) & 0xff) as u8);
    assert(out@ =~= before + u32_le(v));
}

/// Append the little-endian bytes of `v`.
pub fn push_u64_le(out: &mut Vec<u8>, v: u64)
    ensures
        final(out)@ == old(out)@ + u64_le(v),
{
    let ghost before = out@;
    out.push((v & 0xff) as u8);
    out.push(((v >> 8) & 0xff) as u8);
    out.push(((v >> 16) & 0xff) as u8);
    out.push(((v >> 24) & 0xff) as u8);
    out.push(((v >> 32) & 0xff) as u8);
    out.push(((v >> 40) & 0xff) as u8);
    out.push(((v >> 48) & 0xff) as u8);
    out.push(((v >> 56) & 0xff) as u8);
    assert(out@ =~= before + u64_le(v));
}

/// Little-endian bytes of a `u128`.
pub open spec fn u128_le(v: u128) -> Seq<u8> {
    u64_le((v & 0xffff_ffff_ffff_ffff) as u64) + u64_le((v >> 64) as u64)
}

/// Append the little-endian bytes of `v`.
pub fn push_u128_le(out: &mut Vec<u8>, v: u128)
    ensures
        final(out)@ == old(out)@ + u128_le(v),
{
    let low: u64 = (v & 0xffff_ffff_ffff_ffff) as u64;
    let high: u64 = (v >> 64) as u64;
    push_u64_le(out, low);
    push_u64_le(out, high);
    assert(out@ =~= old(out)@ + u128_le(v));
}

/// Append a whole byte slice.
pub fn push_bytes(out: &mut Vec<u8>, bytes: &[u8])
    ensures
        final(out)@ == old(out)@ + bytes@,
{
    let mut i: usize = 0;
    while i < bytes.len()
        invariant
            i <= bytes@.len(),
            out@ == old(out)@ + bytes@.take(i as int),
        decreases bytes@.len() - i,
    {
        out.push(bytes[i]);
        assert(out@ =~= old(out)@ + bytes@.take(i + 1));
        i = i + 1;
    }
    assert(bytes@.take(bytes@.len() as int) =~= bytes@);
}

/// The compact (variable-width) encoding of a collection length `n`.
///
/// Lengths below 2^6 take one byte, below 2^14 two bytes, below 2^30
/// four bytes; the two low bits of the first byte select the width.
pub open spec fn compact_len(n: u32) -> Seq<u8>
    recommends
        n < 0x4000_0000,
{
    if n < 0x40 {
        seq![(n << 2) as u8]
    } else if n < 0x4000 {
        seq![(((n << 2) | 0x01) & 0xff) as u8, ((n >> 6) & 0xff) as u8]
    } else {
        seq![
            (((n << 2) | 0x02) & 0xff) as u8,
            ((n >> 6) & 0xff) as u8,
            ((n >> 14) & 0xff) as u8,
            ((n >> 22) & 0xff) as u8,
        ]
    }
}

/// Append the compact encoding of the length `n`.
pub fn push_compact_len(out: &mut Vec<u8>, n: u32)
    requires
        n < 0x4000_0000,
    ensures
        final(out)@ == old(out)@ + compact_len(n),
{
    let ghost before = out@;
    if n < 0x40 {
        out.push((n << 2) as u8);
    } else if n < 0x4000 {
        out.push((((n << 2) | 0x01) & 0xff) as u8);
        out.push(((n >> 6) & 0xff) as u8);
    } else {
        out.push((((n << 2) | 0x02) & 0xff) as u8);
        out.push(((n >> 6) & 0xff) as u8);
        out.push(((n >> 14) & 0xff) as u8);
        out.push(((n >> 22) & 0xff) as u8);
    }
    assert(out@ =~= before + compact_len(n));
}

/// Statements about parachain candidates that validators sign, referring
/// to a candidate by its hash.
#[derive(Clone, Copy, Debug)]
pub enum CompactStatement {
    /// Proposal of a parachain candidate.
    Seconded([u8; 32]),
    /// A parachain candidate is valid.
    Valid([u8; 32]),
}

impl CompactStatement {
    /// The candidate hash the statement refers to.
    pub fn candidate_hash(&self) -> (h: &[u8; 32])
        ensures
            h@ == match *self {
                CompactStatement::Seconded(x) => x@,
                CompactStatement::Valid(x) => x@,
            },
    {
        match self {
            CompactStatement::Seconded(h) => h,
            CompactStatement::Valid(h) => h,
        }
    }
}

/// Domain-separation prefix of every signed backing statement.
pub open spec fn backing_statement_magic() -> Seq<u8> {
    seq![0x42u8, 0x4bu8, 0x4eu8, 0x47u8]
}

/// The signed bytes of a statement: the magic prefix, a tag byte, and
/// the candidate hash.
pub open spec fn compact_statement_bytes(s: CompactStatement) -> Seq<u8> {
    backing_statement_magic() + match s {
        CompactStatement::Seconded(h) => seq![1u8] + h@,
        CompactStatement::Valid(h) => seq![2u8] + h@,
    }
}

/// Encode a statement for signing or transport.
pub fn encode_compact_statement(s: &CompactStatement) -> (out: Vec<u8>)
    ensures
        out@ == compact_statement_bytes(*s),
{
    let mut out: Vec<u8> = Vec::new();
    out.push(0x42);
    out.push(0x4b);
    out.push(0x4e);
    out.push(0x47);
    match s {
        CompactStatement::Seconded(h) => {
            out.push(1);
            push_bytes(&mut out, h);
        },
        CompactStatement::Valid(h) => {
            out.push(2);
            push_bytes(&mut out, h);
        },
    }
    assert(out@ =~= compact_statement_bytes(*s));
    out
}

/// Decode a statement, rejecting any input that does not carry the
/// domain-separation magic, a known tag and a whole candidate hash.
///
/// Succeeds exactly on the encodings that `encode_compact_statement`
/// produces, and never accepts a partially valid input.
pub fn decode_compact_statement(input: &[u8]) -> (r: Result<CompactStatement, RelayError>)
    ensures
        r is Ok <==> exists|s: CompactStatement| input@ == compact_statement_bytes(s),
        r matches Ok(s) ==> input@ == compact_statement_bytes(s),
        r is Err ==> r == Err::<CompactStatement, RelayError>(RelayError::MalformedEncoding),
{
    if input.len() != 37 {
        assert forall|s: CompactStatement| input@ != compact_statement_bytes(s) by {
            assert(compact_statement_bytes(s).len() == 37);
        }
        return Err(RelayError::MalformedEncoding);
    }
    if !(input[0] == 0x42 && input[1] == 0x4b && input[2] == 0x4e && input[3] == 0x47) {
        assert forall|s: CompactStatement| input@ != compact_statement_bytes(s) by {
            assert(compact_statement_bytes(s)[0] == 0x42);
            assert(compact_statement_bytes(s)[1] == 0x4b);
            assert(compact_statement_bytes(s)[2] == 0x4e);
            assert(compact_statement_bytes(s)[3] == 0x47);
        }
        return Err(RelayError::MalformedEncoding);
    }
    let tag = input[4];
    if tag != 1 && tag != 2 {
        assert forall|s: CompactStatement| input@ != compact_statement_bytes(s) by {
            assert(compact_statement_bytes(s)[4] == 1 || compact_statement_bytes(s)[4] == 2);
        }
        return Err(RelayError::MalformedEncoding);
    }
    let mut hash = [0u8; 32];
    let mut i: usize = 0;
    while i < 32
        invariant
            i <= 32,
            input@.len() == 37,
            forall|j: int| 0 <= j < i ==> hash@[j] == input@[5 + j],
        decreases 32 - i,
    {
        hash[i] = input[5 + i];
        i = i + 1;
    }
    let s = if tag == 1 {
        CompactStatement::Seconded(hash)
    } else {
        CompactStatement::Valid(hash)
    };
    assert(input@ =~= compact_statement_bytes(s));
    Ok(s)
}

/// Decoding inverts encoding: every statement round-trips through its
/// byte form, and is the only statement those bytes decode to.
pub proof fn lemma_compact_statement_round_trip(s: CompactStatement, t: CompactStatement)
    ensures
        compact_statement_bytes(s).len() == 37,
        compact_statement_bytes(s) == compact_statement_bytes(t) ==> s == t,
{
    if compact_statement_bytes(s) == compact_statement_bytes(t) {
        assert(compact_statement_bytes(s)[4] == compact_statement_bytes(t)[4]);
        match (s, t) {
            (CompactStatement::Seconded(a), CompactStatement::Seconded(b)) => {
                assert forall|j: int| 0 <= j < 32 implies a[j] == b[j] by {
                    assert(compact_statement_bytes(s)[5 + j] == a@[j]);
                    assert(compact_statement_bytes(t)[5 + j] == b@[j]);
                }
                assert(a =~= b);
            },
            (CompactStatement::Valid(a), CompactStatement::Valid(b)) => {
                assert forall|j: int| 0 <= j < 32 implies a[j] == b[j] by {
                    assert(compact_statement_bytes(s)[5 + j] == a@[j]);
                    assert(compact_statement_bytes(t)[5 + j] == b@[j]);
                }
                assert(a =~= b);
            },
            (CompactStatement::Seconded(_), CompactStatement::Valid(_)) => {
                assert(compact_statement_bytes(s)[4] == 1);
                assert(compact_statement_bytes(t)[4] == 2);
            },
            (CompactStatement::Valid(_), CompactStatement::Seconded(_)) => {
                assert(compact_statement_bytes(s)[4] == 2);
                assert(compact_statement_bytes(t)[4] == 1);
            },
        }
    }
}

/// The 68-byte payload a collator signs: the relay-parent hash, the
/// SCALE bytes of the parachain id, and the PoV-block hash.
pub open spec fn collator_payload_bytes(
    relay_parent: Seq<u8>,
    parachain_index: u32,
    pov_block_hash: Seq<u8>,
) -> Seq<u8> {
    relay_parent + u32_le(parachain_index) + pov_block_hash
}

/// Build the collator signature payload for a relay-parent,
/// parachain-id, block-data combination.
pub fn collator_signature_payload(
    relay_parent: &[u8; 32],
    parachain_index: u32,
    pov_block_hash: &[u8; 32],
) -> (payload: [u8; 68])
    ensures
        payload@ == collator_payload_bytes(relay_parent@, parachain_index, pov_block_hash@),
{
    let mut payload = [0u8; 68];
    let mut i: usize = 0;
    while i < 32
        invariant
            i <= 32,
            forall|j: int| 0 <= j < i ==> payload@[j] == relay_parent@[j],
        decreases 32 - i,
    {
        payload[i] = relay_parent[i];
        i = i + 1;
    }
    payload[32] = (parachain_index & 0xff) as u8;
    payload[33] = ((parachain_index >> 8) & 0xff) as u8;
    payload[34] = ((parachain_index >> 16) & 0xff) as u8;
    payload[35] = ((parachain_index >> 24) & 0xff) as u8;
    let mut i: usize = 0;
    while i < 32
        invariant
            i <= 32,
            forall|j: int| 0 <= j < 32 ==> payload@[j] == relay_parent@[j],
            payload@[32] == (parachain_index & 0xff) as u8,
            payload@[33] == ((parachain_index >> 8) & 0xff) as u8,
            payload@[34] == ((parachain_index >> 16) & 0xff) as u8,
            payload@[35] == ((parachain_index >> 24) & 0xff) as u8,
            forall|j: int| 0 <= j < i ==> payload@[36 + j] == pov_block_hash@[j],
        decreases 32 - i,
    {
        payload[36 + i] = pov_block_hash[i];
        i = i + 1;
    }
    assert(payload@ =~= collator_payload_bytes(relay_parent@, parachain_index, pov_block_hash@));
    payload
}

} // verus!
