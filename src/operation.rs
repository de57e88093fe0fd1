use vstd::prelude::*;

use crate::error::MintError;

verus! {

/// The operations that the program performs.
#[derive(Debug, Clone, Copy, PartialEq, Eq, Structural, Hash, PartialOrd, Ord)]
pub enum MintOperation {
    InitializeMint,
    MintTo(u64),
}

/// Tag byte of `InitializeMint` in the instruction data.
pub const INITIALIZE_MINT_TAG: u8 = 0;

/// Tag byte of `MintTo` in the instruction data.
pub const MINT_TO_TAG: u8 = 1;

/// `n` little-endian bytes of `v` (the higher bytes of `v` are dropped).
pub open spec fn le_bytes(v: nat, n: nat) -> Seq<u8>
    decreases n,
{
    if n == 0 {
        Seq::empty()
    } else {
        seq![(v % 256) as u8].add(le_bytes(v / 256, (n - 1) as nat))
    }
}

/// The number that the bytes `s` denote, least significant byte first.
pub open spec fn le_value(s: Seq<u8>) -> nat
    decreases s.len(),
{
    if s.len() == 0 {
        0
    } else {
        s[0] as nat + 256 * le_value(s.drop_first())
    }
}

/// The instruction data of an operation: a tag byte, then for `MintTo` the
/// amount as eight little-endian bytes.
pub open spec fn encoding(op: MintOperation) -> Seq<u8> {
    match op {
        MintOperation::InitializeMint => seq![INITIALIZE_MINT_TAG],
        MintOperation::MintTo(amount) => seq![MINT_TO_TAG].add(le_bytes(amount as nat, 8)),
    }
}

/// The operation that instruction data stands for, if any.
pub open spec fn decoded(data: Seq<u8>) -> Option<MintOperation> {
    if data.len() == 1 && data[0] == INITIALIZE_MINT_TAG {
        Some(MintOperation::InitializeMint)
    } else if data.len() == 9 && data[0] == MINT_TO_TAG {
        Some(MintOperation::MintTo(le_value(data.subrange(1, 9)) as u64))
    } else {
        None
    }
}

pub proof fn lemma_le_value_bound(s: Seq<u8>)
    ensures
        le_value(s) < pow256(s.len()),
    decreases s.len(),
{
    if s.len() > 0 {
        lemma_le_value_bound(s.drop_first());
    }
}

/// 256 to the power `n`.
pub open spec fn pow256(n: nat) -> nat
    decreases n,
{
    if n == 0 {
        1
    } else {
        256 * pow256((n - 1) as nat)
    }
}

pub proof fn lemma_le_round_trip(v: nat, n: nat)
    requires
        v < pow256(n),
    ensures
        le_bytes(v, n).len() == n,
        le_value(le_bytes(v, n)) == v,
    decreases n,
{
    if n > 0 {
        assert(v / 256 < pow256((n - 1) as nat)) by (nonlinear_arith)
            requires
                v < 256 * pow256((n - 1) as nat),
        ;
        lemma_le_round_trip(v / 256, (n - 1) as nat);
        let s = le_bytes(v, n);
        assert(s.drop_first() =~= le_bytes(v / 256, (n - 1) as nat));
    }
}

pub proof fn lemma_le_bytes_of_value(s: Seq<u8>)
    ensures
        le_bytes(le_value(s), s.len()) == s,
    decreases s.len(),
{
    if s.len() > 0 {
        let v = le_value(s);
        let rest = s.drop_first();
        lemma_le_bytes_of_value(rest);
        assert(v % 256 == s[0] as nat && v / 256 == le_value(rest)) by (nonlinear_arith)
            requires
                v == s[0] as nat + 256 * le_value(rest),
                s[0] < 256,
        ;
        assert(le_bytes(v, s.len()) =~= s);
    }
}

/// Decoding undoes encoding: the data of an operation stands for that operation.
pub proof fn lemma_decode_encoding(op: MintOperation)
    ensures
        decoded(encoding(op)) == Some(op),
{
    if let MintOperation::MintTo(amount) = op {
        lemma_pow256_8();
        lemma_le_round_trip(amount as nat, 8);
        assert(encoding(op).subrange(1, 9) =~= le_bytes(amount as nat, 8));
    }
}

/// Decoding yields an operation only for data that is exactly that operation's
/// encoding; on all other data it yields nothing.
pub proof fn lemma_decoded_is_exact(data: Seq<u8>)
    ensures
        decoded(data) matches Some(op) ==> encoding(op) == data,
        decoded(data) is None ==> forall|op: MintOperation| encoding(op) != data,
{
    if data.len() == 9 && data[0] == MINT_TO_TAG {
        let body = data.subrange(1, 9);
        lemma_le_value_bound(body);
        lemma_pow256_8();
        lemma_le_bytes_of_value(body);
        assert(data =~= seq![MINT_TO_TAG].add(body));
    }
    if decoded(data) is None {
        assert forall|op: MintOperation| encoding(op) != data by {
            if encoding(op) == data {
                lemma_decode_encoding(op);
            }
        }
    }
}

impl MintOperation {
    /// The instruction data of this operation.
    pub fn encode(&self) -> (r: Vec<u8>)
        ensures
            r@ == encoding(*self),
    {
        match *self {
            MintOperation::InitializeMint => vec![INITIALIZE_MINT_TAG],
            MintOperation::MintTo(amount) => {
                let mut out: Vec<u8> = vec![MINT_TO_TAG];
                let mut rest: u64 = amount;
                let mut i: usize = 0;
                while i < 8
                    invariant
                        i <= 8,
                        out@.add(le_bytes(rest as nat, (8 - i) as nat)) == encoding(*self),
                    decreases 8 - i,
                {
                    let ghost before = out@;
                    out.push((rest % 256) as u8);
                    proof {
                        let n = (8 - i) as nat;
                        assert(le_bytes(rest as nat, n) == seq![(rest % 256) as u8].add(
                            le_bytes((rest / 256) as nat, (n - 1) as nat),
                        ));
                        assert(before.add(le_bytes(rest as nat, n)) =~= out@.add(
                            le_bytes((rest / 256) as nat, (n - 1) as nat),
                        ));
                    }
                    rest = rest / 256;
                    i = i + 1;
                }
                assert(out@ =~= out@.add(le_bytes(rest as nat, 0)));
                out
            },
        }
    }

    /// Reads an operation from instruction data. Data that is not exactly the
    /// encoding of an operation is refused with `DecodingError`.
    pub fn decode(data: &[u8]) -> (r: Result<MintOperation, MintError>)
        ensures
            r == (match decoded(data@) {
                Some(op) => Ok::<MintOperation, MintError>(op),
                None => Err(MintError::DecodingError),
            }),
    {
        if data.len() == 1 && data[0] == INITIALIZE_MINT_TAG {
            return Ok(MintOperation::InitializeMint);
        }
        if data.len() != 9 || data[0] != MINT_TO_TAG {
            return Err(MintError::DecodingError);
        }
        let mut value: u64 = 0;
        let mut k: usize = 9;
        while k > 1
            invariant
                1 <= k <= 9,
                data@.len() == 9,
                value as nat == le_value(data@.subrange(k as int, 9)),
            decreases k,
        {
            k = k - 1;
            let ghost tail = data@.subrange(k as int, 9);
            proof {
                assert(tail.drop_first() =~= data@.subrange(k + 1, 9));
                lemma_le_value_bound(data@.subrange(k + 1, 9));
                lemma_le_value_bound(tail);
                lemma_pow256_8();
                lemma_pow256_mono(tail.len(), 8);
            }
            value = value * 256 + data[k] as u64;
        }
        Ok(MintOperation::MintTo(value))
    }
}

pub proof fn lemma_pow256_8()
    ensures
        pow256(8) == 0x1_0000_0000_0000_0000,
{
    reveal_with_fuel(pow256, 9);
}

pub proof fn lemma_pow256_mono(a: nat, b: nat)
    requires
        a <= b,
    ensures
        pow256(a) <= pow256(b),
    decreases b,
{
    if a < b {
        lemma_pow256_mono(a, (b - 1) as nat);
    }
}

} // verus!
