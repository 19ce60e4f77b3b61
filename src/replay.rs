use vstd::prelude::*;
use crate::error::ReplayError;
use crate::key::{Pubkey, system_program_id, system_program_key};

verus! {

/// What the library reads of an account that the invocation presents.
#[derive(Clone, Copy, Debug)]
pub struct Account {
    pub key: Pubkey,
    pub is_signer: bool,
    pub owner: Pubkey,
    pub data_len: usize,
}

/// A request to advance a durable-nonce token, signed for by its authority.
#[derive(Clone, Copy, Debug)]
pub struct AdvanceRequest {
    pub token: Pubkey,
    pub authority: Pubkey,
}

impl View for AdvanceRequest {
    type V = (Seq<u8>, Seq<u8>);

    open spec fn view(&self) -> (Seq<u8>, Seq<u8>) {
        (self.token@, self.authority@)
    }
}

/// The fewest data bytes an initialized durable-nonce token holds.
pub const NONCE_ACCOUNT_MIN_LEN: usize = 48;

/// The token account is owned by the system program and long enough to be
/// an initialized token.
pub open spec fn token_well_formed(token: Account) -> bool {
    token.owner@ == system_program_key() && token.data_len >= NONCE_ACCOUNT_MIN_LEN
}

/// The checks of the replay guard, in order, and the advance they permit.
pub open spec fn replay_check(
    token: Account,
    authority: Account,
    claimed_token: Seq<u8>,
    claimed_authority: Seq<u8>,
) -> Result<(Seq<u8>, Seq<u8>), ReplayError> {
    if token.key@ != claimed_token {
        Err(ReplayError::TokenMismatch)
    } else if authority.key@ != claimed_authority {
        Err(ReplayError::AuthorityMismatch)
    } else if !authority.is_signer {
        Err(ReplayError::MissingAuthoritySignature)
    } else if !token_well_formed(token) {
        Err(ReplayError::MalformedToken)
    } else {
        Ok((token.key@, authority.key@))
    }
}

/// Checks that a durable-nonce token account is owned by the system program
/// and initialized.
pub fn validate_nonce_account(token: &Account) -> (r: Result<(), ReplayError>)
    ensures
        r is Ok <==> token_well_formed(*token),
        r is Err ==> r == Err::<(), ReplayError>(ReplayError::MalformedToken),
{
    if !token.owner.same_as(&system_program_id()) {
        return Err(ReplayError::MalformedToken);
    }
    if token.data_len < NONCE_ACCOUNT_MIN_LEN {
        return Err(ReplayError::MalformedToken);
    }
    Ok(())
}

/// Checks the token and authority accounts against the addresses the intent
/// names and produces the advance request to submit.
pub fn validate_and_consume(
    token: &Account,
    authority: &Account,
    claimed_token: &Pubkey,
    claimed_authority: &Pubkey,
) -> (r: Result<AdvanceRequest, ReplayError>)
    ensures
        match r {
            Ok(a) => replay_check(*token, *authority, claimed_token@, claimed_authority@) == Ok::<
                (Seq<u8>, Seq<u8>),
                ReplayError,
            >(a@),
            Err(e) => replay_check(*token, *authority, claimed_token@, claimed_authority@) == Err::<
                (Seq<u8>, Seq<u8>),
                ReplayError,
            >(e),
        },
{
    if !token.key.same_as(claimed_token) {
        return Err(ReplayError::TokenMismatch);
    }
    if !authority.key.same_as(claimed_authority) {
        return Err(ReplayError::AuthorityMismatch);
    }
    if !authority.is_signer {
        return Err(ReplayError::MissingAuthoritySignature);
    }
    validate_nonce_account(token)?;
    Ok(AdvanceRequest { token: token.key, authority: authority.key })
}

} // verus!
