use vstd::prelude::*;
use crate::bytes::{le_u32_bytes, lemma_u32_le_round_trip, push_bytes, push_u32, read_u32, u32_of_le};
use crate::error::SettleError;

verus! {

/// The operations the program offers.
#[derive(Clone, Debug)]
pub enum TossIntentInstruction {
    /// Settle an offline-signed intent.
    ProcessIntent {
        /// Ed25519 signature of the intent bytes.
        signature: [u8; 64],
        /// The intent, in its wire form.
        intent_data: Vec<u8>,
    },
}

impl View for TossIntentInstruction {
    /// The signature and the intent bytes.
    type V = (Seq<u8>, Seq<u8>);

    open spec fn view(&self) -> (Seq<u8>, Seq<u8>) {
        match self {
            TossIntentInstruction::ProcessIntent { signature, intent_data } => (
                signature@,
                intent_data@,
            ),
        }
    }
}

/// Length of an envelope without its intent bytes: tag, signature, length.
pub open spec fn envelope_header_len() -> int {
    69
}

/// The wire form of a `ProcessIntent` envelope: tag zero, the 64 signature
/// bytes, the intent length as four little-endian bytes, the intent bytes.
pub open spec fn encode_instruction(sig: Seq<u8>, data: Seq<u8>) -> Seq<u8>
    recommends
        data.len() <= u32::MAX,
{
    seq![0u8] + sig + le_u32_bytes(data.len() as u32) + data
}

/// The signature and intent bytes that `b` holds, if `b` is exactly one
/// encoded envelope.
pub open spec fn parse_instruction(b: Seq<u8>) -> Option<(Seq<u8>, Seq<u8>)> {
    if b.len() >= envelope_header_len() && b[0] == 0 && envelope_header_len() + u32_of_le(
        b.subrange(65, 69),
    ) == b.len() {
        Some((b.subrange(1, 65), b.subrange(69, b.len() as int)))
    } else {
        None
    }
}

/// Decoding an encoded envelope gives its signature and intent bytes back.
pub proof fn lemma_instruction_round_trip(sig: Seq<u8>, data: Seq<u8>)
    requires
        sig.len() == 64,
        data.len() <= u32::MAX,
    ensures
        parse_instruction(encode_instruction(sig, data)) == Some((sig, data)),
{
    let b = encode_instruction(sig, data);
    lemma_u32_le_round_trip(data.len() as u32);
    assert(b.subrange(65, 69) =~= le_u32_bytes(data.len() as u32));
    assert(b.subrange(1, 65) =~= sig);
    assert(b.subrange(69, b.len() as int) =~= data);
}

impl TossIntentInstruction {
    /// Decodes an envelope from exactly the bytes given.
    pub fn try_from_slice(b: &[u8]) -> (r: Result<TossIntentInstruction, SettleError>)
        ensures
            match r {
                Ok(ix) => parse_instruction(b@) == Some(ix@),
                Err(e) => parse_instruction(b@) is None && e == SettleError::InvalidInstruction,
            },
    {
        let n: usize = b.len();
        if n < 69 || b[0] != 0 {
            return Err(SettleError::InvalidInstruction);
        }
        let len: u32 = read_u32(b, 65);
        if n - 69 != len as usize {
            return Err(SettleError::InvalidInstruction);
        }
        let mut signature: [u8; 64] = [0u8; 64];
        let mut i: usize = 0;
        while i < 64
            invariant
                0 <= i <= 64,
                n == b@.len(),
                n >= 69,
                signature@.len() == 64,
                forall|j: int| 0 <= j < i ==> signature@[j] == b@[1 + j],
            decreases 64 - i,
        {
            signature[i] = b[1 + i];
            i = i + 1;
        }
        assert(signature@ =~= b@.subrange(1, 65));
        let mut intent_data: Vec<u8> = Vec::new();
        let mut j: usize = 69;
        while j < n
            invariant
                69 <= j <= n,
                n == b@.len(),
                intent_data@ == b@.subrange(69, j as int),
            decreases n - j,
        {
            intent_data.push(b[j]);
            j = j + 1;
            assert(intent_data@ =~= b@.subrange(69, j as int));
        }
        Ok(TossIntentInstruction::ProcessIntent { signature, intent_data })
    }

    /// The wire form of the envelope.
    pub fn to_bytes(&self) -> (r: Vec<u8>)
        requires
            self@.1.len() <= u32::MAX,
        ensures
            r@ == encode_instruction(self@.0, self@.1),
    {
        match self {
            TossIntentInstruction::ProcessIntent { signature, intent_data } => {
                let mut out: Vec<u8> = Vec::new();
                out.push(0u8);
                push_bytes(&mut out, signature.as_slice());
                push_u32(&mut out, intent_data.len() as u32);
                push_bytes(&mut out, intent_data.as_slice());
                assert(out@ =~= encode_instruction(self@.0, self@.1));
                out
            },
        }
    }
}

} // verus!
