use vstd::prelude::*;
use crate::auth::{Instruction, signature_attested, verify_intent_signature};
use crate::error::SettleError;
use crate::flow::{
    CallView, Settlement, calls_issued, initial_stage, lemma_advance_precedes_transfer,
    lemma_plain_plan_single_transfer, outcome_at, stage_after,
};
use crate::instruction::{TossIntentInstruction, parse_instruction};
use crate::intent::{IntentView, NonceMode, SolanaIntent, parse_intent};
use crate::key::Pubkey;
use crate::replay::{Account, AdvanceRequest, replay_check, validate_and_consume};

verus! {

/// A transfer of `amount` base units from `from` to `to`.
#[derive(Clone, Copy, Debug)]
pub struct TransferRequest {
    pub from: Pubkey,
    pub to: Pubkey,
    pub amount: u64,
}

impl View for TransferRequest {
    type V = (Seq<u8>, Seq<u8>, u64);

    open spec fn view(&self) -> (Seq<u8>, Seq<u8>, u64) {
        (self.from@, self.to@, self.amount)
    }
}

/// The ledger calls that an accepted intent permits: at most one token
/// advance, then exactly one transfer.
#[derive(Clone, Copy, Debug)]
pub struct SettlementPlan {
    pub advance: Option<AdvanceRequest>,
    pub transfer: TransferRequest,
}

pub struct PlanView {
    pub advance: Option<(Seq<u8>, Seq<u8>)>,
    pub transfer: (Seq<u8>, Seq<u8>, u64),
}

impl View for SettlementPlan {
    type V = PlanView;

    open spec fn view(&self) -> PlanView {
        PlanView {
            advance: match self.advance {
                Some(a) => Some(a@),
                None => None,
            },
            transfer: self.transfer@,
        }
    }
}

/// The validation sequence of a settlement, first failure first.
///
/// `accounts` lists sender, recipient, system program, then, in durable-nonce
/// mode, the token and its authority. `now` is the host's Unix time.
pub open spec fn settle_spec(
    accounts: Seq<Account>,
    sig: Seq<u8>,
    data: Seq<u8>,
    now: u64,
    companion: Option<Instruction>,
) -> Result<PlanView, SettleError> {
    match parse_intent(data) {
        None => Err(SettleError::Decode),
        Some(v) => if v.half_nonce_pair() {
            Err(SettleError::Decode)
        } else if !signature_attested(companion, v.from, data, sig) {
            Err(SettleError::Auth)
        } else if accounts.len() < 3 {
            Err(SettleError::NotEnoughAccounts)
        } else if accounts[0].key@ != v.from || accounts[1].key@ != v.to {
            Err(SettleError::IdentityMismatch)
        } else if v.expired_at(now) {
            Err(SettleError::Expired)
        } else {
            settle_with_nonce(accounts, v)
        },
    }
}

/// The replay-guard step and the plan that follows it.
pub open spec fn settle_with_nonce(accounts: Seq<Account>, v: IntentView) -> Result<
    PlanView,
    SettleError,
> {
    if v.has_durable_nonce() {
        if accounts.len() < 5 {
            Err(SettleError::NotEnoughAccounts)
        } else {
            match replay_check(
                accounts[3],
                accounts[4],
                v.nonce_account.unwrap(),
                v.nonce_auth.unwrap(),
            ) {
                Err(e) => Err(SettleError::Replay(e)),
                Ok(adv) => Ok(PlanView { advance: Some(adv), transfer: (v.from, v.to, v.amount) }),
            }
        }
    } else {
        Ok(PlanView { advance: None, transfer: (v.from, v.to, v.amount) })
    }
}

/// Validates an intent against the presented accounts, the time and the
/// accompanying signature-verification instruction, and plans its ledger
/// calls. Nothing is issued here: the plan is returned only when every check
/// passed.
pub fn process_intent(
    accounts: &[Account],
    signature: &[u8; 64],
    intent_data: &[u8],
    now: u64,
    companion: &Option<Instruction>,
) -> (r: Result<SettlementPlan, SettleError>)
    ensures
        match r {
            Ok(p) => settle_spec(accounts@, signature@, intent_data@, now, *companion) == Ok::<
                PlanView,
                SettleError,
            >(p@),
            Err(e) => settle_spec(accounts@, signature@, intent_data@, now, *companion) == Err::<
                PlanView,
                SettleError,
            >(e),
        },
{
    let intent = SolanaIntent::try_from_slice(intent_data)?;
    let mode = intent.nonce_mode()?;
    verify_intent_signature(&intent.from, intent_data, signature, companion)?;
    if accounts.len() < 3 {
        return Err(SettleError::NotEnoughAccounts);
    }
    if !accounts[0].key.same_as(&intent.from) || !accounts[1].key.same_as(&intent.to) {
        return Err(SettleError::IdentityMismatch);
    }
    if intent.is_expired(now) {
        return Err(SettleError::Expired);
    }
    let transfer = TransferRequest { from: intent.from, to: intent.to, amount: intent.amount };
    match mode {
        NonceMode::DurableNonce { account: token, authority } => {
            if accounts.len() < 5 {
                return Err(SettleError::NotEnoughAccounts);
            }
            match validate_and_consume(&accounts[3], &accounts[4], &token, &authority) {
                Ok(adv) => Ok(SettlementPlan { advance: Some(adv), transfer }),
                Err(e) => Err(SettleError::Replay(e)),
            }
        },
        NonceMode::NoDurableNonce => Ok(SettlementPlan { advance: None, transfer }),
    }
}

/// Decodes the instruction envelope and routes it. On success the returned
/// settlement holds the planned ledger calls, none of them made yet.
/// `program_id` is the program's own address; no check depends on it.
pub fn process_instruction(
    program_id: &Pubkey,
    accounts: &[Account],
    instruction_data: &[u8],
    now: u64,
    companion: &Option<Instruction>,
) -> (r: Result<Settlement, SettleError>)
    ensures
        match parse_instruction(instruction_data@) {
            None => r == Err::<Settlement, SettleError>(SettleError::InvalidInstruction),
            Some((sig, data)) => match r {
                Ok(s) => settle_spec(accounts@, sig, data, now, *companion) == Ok::<
                    PlanView,
                    SettleError,
                >(s.plan@) && s.stage == initial_stage(s.plan@),
                Err(e) => settle_spec(accounts@, sig, data, now, *companion) == Err::<
                    PlanView,
                    SettleError,
                >(e),
            },
        },
{
    let instruction = TossIntentInstruction::try_from_slice(instruction_data)?;
    match instruction {
        TossIntentInstruction::ProcessIntent { signature, intent_data } => {
            let plan = process_intent(
                accounts,
                &signature,
                intent_data.as_slice(),
                now,
                companion,
            )?;
            Ok(Settlement::new(plan))
        },
    }
}

/// An intent without durable-nonce fields that decodes, is attested by its
/// sender, matches the sender and recipient accounts and has not expired is
/// accepted; its settlement issues exactly one call, the transfer of `amount`
/// from `from` to `to`, and settles when the ledger accepts it.
pub proof fn lemma_plain_intent_settles(
    accounts: Seq<Account>,
    sig: Seq<u8>,
    data: Seq<u8>,
    now: u64,
    companion: Option<Instruction>,
)
    requires
        parse_intent(data) is Some,
        parse_intent(data).unwrap().nonce_account is None,
        parse_intent(data).unwrap().nonce_auth is None,
        signature_attested(companion, parse_intent(data).unwrap().from, data, sig),
        accounts.len() >= 3,
        accounts[0].key@ == parse_intent(data).unwrap().from,
        accounts[1].key@ == parse_intent(data).unwrap().to,
        !parse_intent(data).unwrap().expired_at(now),
    ensures
        ({
            let v = parse_intent(data).unwrap();
            let p = PlanView { advance: None, transfer: (v.from, v.to, v.amount) };
            &&& settle_spec(accounts, sig, data, now, companion) == Ok::<PlanView, SettleError>(p)
            &&& calls_issued(p, initial_stage(p), seq![true]) == seq![
                CallView::Transfer(v.from, v.to, v.amount),
            ]
            &&& outcome_at(stage_after(initial_stage(p), seq![true])) == Some(
                Ok::<(), SettleError>(()),
            )
        }),
{
    let v = parse_intent(data).unwrap();
    let p = PlanView { advance: None, transfer: (v.from, v.to, v.amount) };
    lemma_plain_plan_single_transfer(p);
}

/// An intent past its expiry is never accepted, so no transfer is issued;
/// once it decodes, is attested and names the presented sender and
/// recipient, the rejection is `Expired`.
pub proof fn lemma_expired_intent_rejected(
    accounts: Seq<Account>,
    sig: Seq<u8>,
    data: Seq<u8>,
    now: u64,
    companion: Option<Instruction>,
)
    requires
        parse_intent(data) is Some,
        parse_intent(data).unwrap().expired_at(now),
    ensures
        settle_spec(accounts, sig, data, now, companion) is Err,
        ({
            let v = parse_intent(data).unwrap();
            (!v.half_nonce_pair() && signature_attested(companion, v.from, data, sig)
                && accounts.len() >= 3 && accounts[0].key@ == v.from && accounts[1].key@ == v.to)
                ==> settle_spec(accounts, sig, data, now, companion) == Err::<
                PlanView,
                SettleError,
            >(SettleError::Expired)
        }),
{
}

/// A decoded, attested intent whose sender or recipient differs from the
/// account presented in that place is rejected with `IdentityMismatch`.
pub proof fn lemma_identity_mismatch_rejected(
    accounts: Seq<Account>,
    sig: Seq<u8>,
    data: Seq<u8>,
    now: u64,
    companion: Option<Instruction>,
)
    requires
        parse_intent(data) is Some,
        !parse_intent(data).unwrap().half_nonce_pair(),
        signature_attested(companion, parse_intent(data).unwrap().from, data, sig),
        accounts.len() >= 3,
        accounts[0].key@ != parse_intent(data).unwrap().from || accounts[1].key@ != parse_intent(
            data,
        ).unwrap().to,
    ensures
        settle_spec(accounts, sig, data, now, companion) == Err::<PlanView, SettleError>(
            SettleError::IdentityMismatch,
        ),
{
}

/// In durable-nonce mode an accepted intent advances the named token, once
/// and before the transfer. When the ledger refuses the advance (the token
/// was already advanced by an earlier settlement of the same bytes), the
/// settlement fails with `LedgerCall` and the transfer is never issued.
pub proof fn lemma_durable_intent_advances_once(
    accounts: Seq<Account>,
    sig: Seq<u8>,
    data: Seq<u8>,
    now: u64,
    companion: Option<Instruction>,
    rest: Seq<bool>,
)
    requires
        settle_spec(accounts, sig, data, now, companion) is Ok,
        parse_intent(data).unwrap().has_durable_nonce(),
    ensures
        ({
            let v = parse_intent(data).unwrap();
            let p = settle_spec(accounts, sig, data, now, companion).unwrap();
            let adv = CallView::Advance(v.nonce_account.unwrap(), v.nonce_auth.unwrap());
            let tr = CallView::Transfer(v.from, v.to, v.amount);
            &&& p.advance == Some((v.nonce_account.unwrap(), v.nonce_auth.unwrap()))
            &&& calls_issued(p, initial_stage(p), seq![false] + rest) == seq![adv]
            &&& outcome_at(stage_after(initial_stage(p), seq![false] + rest)) == Some(
                Err::<(), SettleError>(SettleError::LedgerCall),
            )
            &&& calls_issued(p, initial_stage(p), seq![true, true] + rest) == seq![adv, tr]
            &&& outcome_at(stage_after(initial_stage(p), seq![true, true] + rest)) == Some(
                Ok::<(), SettleError>(()),
            )
        }),
{
    let p = settle_spec(accounts, sig, data, now, companion).unwrap();
    lemma_advance_precedes_transfer(p, rest);
}

} // verus!
