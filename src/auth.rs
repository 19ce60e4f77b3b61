use vstd::prelude::*;
use crate::bytes::{read_u16, u16_of_le};
use crate::error::SettleError;
use crate::key::Pubkey;

verus! {

/// An instruction of the invoking transaction, as the host hands it over.
#[derive(Clone, Debug)]
pub struct Instruction {
    pub program_id: Pubkey,
    pub data: Vec<u8>,
}

/// The address of the Ed25519 signature-verification program,
/// "Ed25519SigVerify111111111111111111111111111".
pub open spec fn ed25519_program_key() -> Seq<u8> {
    seq![
        3u8, 125u8, 70u8, 214u8, 124u8, 147u8, 251u8, 190u8, 18u8, 249u8, 66u8, 143u8, 131u8,
        141u8, 64u8, 255u8, 5u8, 112u8, 116u8, 73u8, 39u8, 244u8, 138u8, 100u8, 252u8, 202u8,
        112u8, 68u8, 128u8, 0u8, 0u8, 0u8,
    ]
}

/// The instruction index that points a verification entry at the
/// verification instruction's own data.
pub open spec fn this_instruction() -> u16 {
    0xffff
}

/// The little-endian 16-bit field at `at` of `data`.
pub open spec fn field_u16(data: Seq<u8>, at: int) -> int {
    u16_of_le(data.subrange(at, at + 2)) as int
}

/// `data` holds `expect` at `at`.
pub open spec fn holds_at(data: Seq<u8>, at: int, expect: Seq<u8>) -> bool {
    at + expect.len() <= data.len() && data.subrange(at, at + expect.len()) == expect
}

/// The verification instruction data checks at least one signature, and its
/// first entry takes the signature, the key and the message from its own
/// data, where they are `sig`, `key` and exactly `message`.
///
/// Layout: a count byte, a padding byte, then seven 16-bit fields: signature
/// offset and instruction index, key offset and instruction index, message
/// offset, message size and message instruction index.
pub open spec fn entry_covers(data: Seq<u8>, key: Seq<u8>, message: Seq<u8>, sig: Seq<u8>) -> bool {
    &&& data.len() >= 16
    &&& data[0] >= 1
    &&& field_u16(data, 4) == this_instruction()
    &&& field_u16(data, 8) == this_instruction()
    &&& field_u16(data, 14) == this_instruction()
    &&& field_u16(data, 12) == message.len()
    &&& holds_at(data, field_u16(data, 2), sig)
    &&& holds_at(data, field_u16(data, 6), key)
    &&& holds_at(data, field_u16(data, 10), message)
}

/// The companion instruction is a call of the Ed25519 verification program
/// that covers `message` signed by `key` with `sig`. The host rejects the
/// whole transaction before this runs unless that signature verifies.
pub open spec fn signature_attested(
    companion: Option<Instruction>,
    key: Seq<u8>,
    message: Seq<u8>,
    sig: Seq<u8>,
) -> bool {
    match companion {
        Some(c) => c.program_id@ == ed25519_program_key() && entry_covers(c.data@, key, message, sig),
        None => false,
    }
}

/// Relies on solana_program::ed25519_program::ID, declared from the address
/// "Ed25519SigVerify111111111111111111111111111".
#[verifier::external_body]
pub(crate) fn ed25519_program_id() -> (r: Pubkey)
    ensures
        r@ == ed25519_program_key(),
{
    Pubkey { bytes: solana_program::ed25519_program::ID.to_bytes() }
}

/// True iff `data` holds `expect` at `at`.
fn bytes_at(data: &[u8], at: usize, expect: &[u8]) -> (r: bool)
    ensures
        r == holds_at(data@, at as int, expect@),
{
    let n: usize = data.len();
    let m: usize = expect.len();
    if at > n || n - at < m {
        return false;
    }
    let mut i: usize = 0;
    while i < m
        invariant
            0 <= i <= m,
            n == data@.len(),
            m == expect@.len(),
            at + m <= n,
            forall|j: int| 0 <= j < i ==> data@[at + j] == expect@[j],
        decreases m - i,
    {
        if data[at + i] != expect[i] {
            assert(data@.subrange(at as int, at + m)[i as int] != expect@[i as int]);
            return false;
        }
        i = i + 1;
    }
    assert(data@.subrange(at as int, at + m) =~= expect@);
    true
}

/// Checks that the intent bytes carry the sender's signature, attested by
/// the verification instruction that accompanies the invocation.
pub fn verify_intent_signature(
    sender: &Pubkey,
    message: &[u8],
    signature: &[u8; 64],
    companion: &Option<Instruction>,
) -> (r: Result<(), SettleError>)
    ensures
        r is Ok <==> signature_attested(*companion, sender@, message@, signature@),
        r is Err ==> r == Err::<(), SettleError>(SettleError::Auth),
{
    let c = match companion {
        Some(c) => c,
        None => return Err(SettleError::Auth),
    };
    if !c.program_id.same_as(&ed25519_program_id()) {
        return Err(SettleError::Auth);
    }
    let data = c.data.as_slice();
    if data.len() < 16 || data[0] < 1 {
        return Err(SettleError::Auth);
    }
    if read_u16(data, 4) != 0xffff || read_u16(data, 8) != 0xffff || read_u16(data, 14) != 0xffff {
        return Err(SettleError::Auth);
    }
    if read_u16(data, 12) as usize != message.len() {
        return Err(SettleError::Auth);
    }
    if !bytes_at(data, read_u16(data, 2) as usize, signature.as_slice()) {
        return Err(SettleError::Auth);
    }
    if !bytes_at(data, read_u16(data, 6) as usize, sender.bytes.as_slice()) {
        return Err(SettleError::Auth);
    }
    if !bytes_at(data, read_u16(data, 10) as usize, message) {
        return Err(SettleError::Auth);
    }
    Ok(())
}

} // verus!
