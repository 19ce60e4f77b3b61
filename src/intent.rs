use vstd::prelude::*;
use crate::bytes::{
    le_u64_bytes, lemma_le_u64_canonical, lemma_u64_le_round_trip, push_bytes, push_u64, read_key,
    read_u64, u64_of_le,
};
use crate::error::SettleError;
use crate::key::Pubkey;

verus! {

/// A signed transfer authorization, as it travels on the wire: the two
/// durable-nonce fields are independently optional there.
#[derive(Clone, Debug)]
pub struct SolanaIntent {
    pub from: Pubkey,
    pub to: Pubkey,
    pub amount: u64,
    pub nonce: u64,
    pub expiry: u64,
    pub nonce_account: Option<Pubkey>,
    pub nonce_auth: Option<Pubkey>,
}

/// How an intent is protected against replay, once its two optional
/// durable-nonce fields are checked to be both present or both absent.
#[derive(Clone, Copy, Debug)]
pub enum NonceMode {
    NoDurableNonce,
    DurableNonce { account: Pubkey, authority: Pubkey },
}

/// The mathematical value of an intent: addresses as byte sequences.
pub struct IntentView {
    pub from: Seq<u8>,
    pub to: Seq<u8>,
    pub amount: u64,
    pub nonce: u64,
    pub expiry: u64,
    pub nonce_account: Option<Seq<u8>>,
    pub nonce_auth: Option<Seq<u8>>,
}

pub open spec fn key_option_view(k: Option<Pubkey>) -> Option<Seq<u8>> {
    match k {
        Some(k) => Some(k@),
        None => None,
    }
}

impl View for SolanaIntent {
    type V = IntentView;

    open spec fn view(&self) -> IntentView {
        IntentView {
            from: self.from@,
            to: self.to@,
            amount: self.amount,
            nonce: self.nonce,
            expiry: self.expiry,
            nonce_account: key_option_view(self.nonce_account),
            nonce_auth: key_option_view(self.nonce_auth),
        }
    }
}

/// Every address in the intent is 32 bytes long.
pub open spec fn key_option_wf(k: Option<Seq<u8>>) -> bool {
    match k {
        Some(k) => k.len() == 32,
        None => true,
    }
}

impl IntentView {
    pub open spec fn wf(self) -> bool {
        &&& self.from.len() == 32
        &&& self.to.len() == 32
        &&& key_option_wf(self.nonce_account)
        &&& key_option_wf(self.nonce_auth)
    }

    /// True iff `now` is strictly past the expiry.
    pub open spec fn expired_at(self, now: u64) -> bool {
        now > self.expiry
    }

    /// Both durable-nonce fields are present.
    pub open spec fn has_durable_nonce(self) -> bool {
        self.nonce_account is Some && self.nonce_auth is Some
    }

    /// Exactly one durable-nonce field is present: not a valid intent.
    pub open spec fn half_nonce_pair(self) -> bool {
        self.nonce_account is Some != self.nonce_auth is Some
    }
}

/// An optional address on the wire: a zero byte, or a one byte and the address.
pub open spec fn encode_key_option(k: Option<Seq<u8>>) -> Seq<u8> {
    match k {
        None => seq![0u8],
        Some(k) => seq![1u8] + k,
    }
}

/// The wire form of an intent: the two addresses, the three integers in
/// little-endian order, then the two optional addresses.
pub open spec fn encode_intent(v: IntentView) -> Seq<u8> {
    v.from + v.to + le_u64_bytes(v.amount) + le_u64_bytes(v.nonce) + le_u64_bytes(v.expiry)
        + encode_key_option(v.nonce_account) + encode_key_option(v.nonce_auth)
}

/// Reads an optional address at `at`: the value and the position after it.
pub open spec fn parse_key_option(b: Seq<u8>, at: int) -> Option<(Option<Seq<u8>>, int)> {
    if at < 0 || at >= b.len() {
        None
    } else if b[at] == 0 {
        Some((None, at + 1))
    } else if b[at] == 1 && at + 33 <= b.len() {
        Some((Some(b.subrange(at + 1, at + 33)), at + 33))
    } else {
        None
    }
}

/// Length of the fixed part of an intent: two addresses and three integers.
pub open spec fn intent_fixed_len() -> int {
    88
}

/// The intent that `b` encodes, if `b` is exactly one encoded intent.
pub open spec fn parse_intent(b: Seq<u8>) -> Option<IntentView> {
    if b.len() < intent_fixed_len() {
        None
    } else {
        match parse_key_option(b, 88) {
            None => None,
            Some((na, p)) => match parse_key_option(b, p) {
                None => None,
                Some((nu, q)) => if q == b.len() {
                    Some(
                        IntentView {
                            from: b.subrange(0, 32),
                            to: b.subrange(32, 64),
                            amount: u64_of_le(b.subrange(64, 72)),
                            nonce: u64_of_le(b.subrange(72, 80)),
                            expiry: u64_of_le(b.subrange(80, 88)),
                            nonce_account: na,
                            nonce_auth: nu,
                        },
                    )
                } else {
                    None
                },
            },
        }
    }
}

proof fn lemma_key_option_round_trip(k: Option<Seq<u8>>, pre: Seq<u8>, post: Seq<u8>)
    requires
        key_option_wf(k),
    ensures
        parse_key_option(pre + encode_key_option(k) + post, pre.len() as int) == Some(
            (k, pre.len() + encode_key_option(k).len() as int),
        ),
{
    let b = pre + encode_key_option(k) + post;
    assert(b[pre.len() as int] == encode_key_option(k)[0]);
    match k {
        Some(kk) => {
            assert(b.subrange(pre.len() + 1int, pre.len() + 33int) =~= kk);
        },
        None => {},
    }
}

/// Decoding an encoded intent gives it back.
pub proof fn lemma_decode_encoded(v: IntentView)
    requires
        v.wf(),
    ensures
        parse_intent(encode_intent(v)) == Some(v),
{
    let fixed = v.from + v.to + le_u64_bytes(v.amount) + le_u64_bytes(v.nonce) + le_u64_bytes(
        v.expiry,
    );
    let ea = encode_key_option(v.nonce_account);
    let eu = encode_key_option(v.nonce_auth);
    let b = encode_intent(v);
    assert(b =~= fixed + ea + eu);
    assert(fixed.len() == 88);
    lemma_key_option_round_trip(v.nonce_account, fixed, eu);
    assert(fixed + ea + eu =~= fixed + ea + Seq::<u8>::empty() + eu);
    lemma_key_option_round_trip(v.nonce_auth, fixed + ea, Seq::<u8>::empty());
    assert(fixed + ea + eu =~= (fixed + ea) + eu + Seq::<u8>::empty());
    assert(b.subrange(0, 32) =~= v.from);
    assert(b.subrange(32, 64) =~= v.to);
    assert(b.subrange(64, 72) =~= le_u64_bytes(v.amount));
    assert(b.subrange(72, 80) =~= le_u64_bytes(v.nonce));
    assert(b.subrange(80, 88) =~= le_u64_bytes(v.expiry));
    lemma_u64_le_round_trip(v.amount);
    lemma_u64_le_round_trip(v.nonce);
    lemma_u64_le_round_trip(v.expiry);
}

/// Only the encoding of an intent decodes to it: the encoding is canonical.
pub proof fn lemma_decoded_is_encoding(b: Seq<u8>)
    requires
        parse_intent(b) is Some,
    ensures
        parse_intent(b).unwrap().wf(),
        encode_intent(parse_intent(b).unwrap()) == b,
{
    let v = parse_intent(b).unwrap();
    let (na, p) = parse_key_option(b, 88).unwrap();
    let (nu, q) = parse_key_option(b, p).unwrap();
    lemma_le_u64_canonical(b.subrange(64, 72));
    lemma_le_u64_canonical(b.subrange(72, 80));
    lemma_le_u64_canonical(b.subrange(80, 88));
    assert(encode_key_option(na) =~= b.subrange(88, p));
    assert(encode_key_option(nu) =~= b.subrange(p, q));
    assert(encode_intent(v) =~= b);
}

/// Encoding, decoding and encoding again gives the first bytes back, for
/// every intent.
pub proof fn lemma_encode_decode_encode(i: SolanaIntent)
    ensures
        parse_intent(encode_intent(i@)) == Some(i@),
        encode_intent(parse_intent(encode_intent(i@)).unwrap()) == encode_intent(i@),
{
    lemma_decode_encoded(i@);
}

fn read_key_option(b: &[u8], at: usize) -> (r: Option<(Option<Pubkey>, usize)>)
    ensures
        match r {
            Some((k, p)) => parse_key_option(b@, at as int) == Some(
                (key_option_view(k), p as int),
            ),
            None => parse_key_option(b@, at as int) is None,
        },
{
    let n: usize = b.len();
    if at >= n {
        None
    } else if b[at] == 0 {
        Some((None, at + 1))
    } else if b[at] == 1 && n - at >= 33 {
        Some((Some(read_key(b, at + 1)), at + 33))
    } else {
        None
    }
}

impl SolanaIntent {
    /// Decodes an intent from exactly the bytes given.
    pub fn try_from_slice(b: &[u8]) -> (r: Result<SolanaIntent, SettleError>)
        ensures
            match r {
                Ok(i) => parse_intent(b@) == Some(i@),
                Err(e) => parse_intent(b@) is None && e == SettleError::Decode,
            },
    {
        let n: usize = b.len();
        if n < 88 {
            return Err(SettleError::Decode);
        }
        let (nonce_account, p) = match read_key_option(b, 88) {
            Some(x) => x,
            None => return Err(SettleError::Decode),
        };
        let (nonce_auth, q) = match read_key_option(b, p) {
            Some(x) => x,
            None => return Err(SettleError::Decode),
        };
        if q != n {
            return Err(SettleError::Decode);
        }
        Ok(
            SolanaIntent {
                from: read_key(b, 0),
                to: read_key(b, 32),
                amount: read_u64(b, 64),
                nonce: read_u64(b, 72),
                expiry: read_u64(b, 80),
                nonce_account,
                nonce_auth,
            },
        )
    }

    /// The wire form of the intent.
    pub fn to_bytes(&self) -> (r: Vec<u8>)
        ensures
            r@ == encode_intent(self@),
    {
        let mut out: Vec<u8> = Vec::new();
        push_bytes(&mut out, self.from.bytes.as_slice());
        push_bytes(&mut out, self.to.bytes.as_slice());
        push_u64(&mut out, self.amount);
        push_u64(&mut out, self.nonce);
        push_u64(&mut out, self.expiry);
        push_key_option(&mut out, &self.nonce_account);
        push_key_option(&mut out, &self.nonce_auth);
        assert(out@ =~= encode_intent(self@));
        out
    }

    /// True iff both durable-nonce fields are present.
    pub fn has_durable_nonce(&self) -> (r: bool)
        ensures
            r == self@.has_durable_nonce(),
    {
        self.nonce_account.is_some() && self.nonce_auth.is_some()
    }

    /// The replay protection the intent asks for; an intent with exactly one
    /// durable-nonce field is malformed.
    pub fn nonce_mode(&self) -> (r: Result<NonceMode, SettleError>)
        ensures
            match r {
                Ok(NonceMode::NoDurableNonce) => self.nonce_account is None
                    && self.nonce_auth is None,
                Ok(NonceMode::DurableNonce { account, authority }) => self.nonce_account == Some(
                    account,
                ) && self.nonce_auth == Some(authority),
                Err(e) => self@.half_nonce_pair() && e == SettleError::Decode,
            },
    {
        match (self.nonce_account, self.nonce_auth) {
            (None, None) => Ok(NonceMode::NoDurableNonce),
            (Some(account), Some(authority)) => Ok(NonceMode::DurableNonce { account, authority }),
            _ => Err(SettleError::Decode),
        }
    }

    /// True iff `now` is strictly past the expiry; at the expiry itself the
    /// intent is still valid.
    pub fn is_expired(&self, now: u64) -> (r: bool)
        ensures
            r == self@.expired_at(now),
    {
        now > self.expiry
    }
}

fn push_key_option(out: &mut Vec<u8>, k: &Option<Pubkey>)
    ensures
        final(out)@ == old(out)@ + encode_key_option(key_option_view(*k)),
{
    match k {
        None => {
            out.push(0u8);
            assert(final(out)@ =~= old(out)@ + encode_key_option(key_option_view(*k)));
        },
        Some(key) => {
            out.push(1u8);
            push_bytes(out, key.bytes.as_slice());
            assert(final(out)@ =~= old(out)@ + encode_key_option(key_option_view(*k)));
        },
    }
}

} // verus!
