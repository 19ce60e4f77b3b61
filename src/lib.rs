//! Settlement of offline-signed transfer intents.
//!
//! The library decodes an invocation, authenticates the intent against the
//! Ed25519 signature-verification instruction that accompanies it, checks the
//! accounts, the expiry and the durable-nonce token, and hands back the ledger
//! calls to make, in order. The host makes those calls and reports each
//! outcome to the [`Settlement`] state machine, which issues the transfer only
//! after the token advance (if any) succeeded.

pub mod auth;
pub mod bytes;
pub mod error;
pub mod flow;
pub mod instruction;
pub mod intent;
pub mod key;
pub mod replay;
pub mod settle;

pub use auth::{Instruction, verify_intent_signature};
pub use error::{ReplayError, SettleError};
pub use flow::{LedgerCall, Settlement, Stage};
pub use instruction::TossIntentInstruction;
pub use intent::{NonceMode, SolanaIntent};
pub use key::Pubkey;
pub use replay::{
    Account, AdvanceRequest, NONCE_ACCOUNT_MIN_LEN, validate_and_consume, validate_nonce_account,
};
pub use settle::{SettlementPlan, TransferRequest, process_instruction, process_intent};
