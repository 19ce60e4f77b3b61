use solana_program::pubkey::Pubkey as SolPubkey;
use toss_intent_processor::{
    Account, Instruction, LedgerCall, NonceMode, Pubkey, ReplayError, SettleError, Settlement, SolanaIntent,
    TossIntentInstruction, process_instruction, process_intent, validate_and_consume,
    validate_nonce_account, verify_intent_signature,
};

fn key(b: u8) -> Pubkey {
    Pubkey::new([b; 32])
}

fn ed25519_id() -> Pubkey {
    Pubkey::new(solana_program::ed25519_program::ID.to_bytes())
}

fn system_id() -> Pubkey {
    #[allow(deprecated)]
    let id = solana_program::system_program::ID;
    Pubkey::new(id.to_bytes())
}

fn sample_intent(from: Pubkey, to: Pubkey) -> SolanaIntent {
    SolanaIntent {
        from,
        to,
        amount: 1_000_000,
        nonce: 1,
        expiry: 9_999_999_999,
        nonce_account: None,
        nonce_auth: None,
    }
}

/// Verification instruction data in the layout the Ed25519 program takes:
/// key at 16, signature at 48, message at 112, all in this instruction.
fn companion_data(signer: &Pubkey, sig: &[u8; 64], message: &[u8]) -> Vec<u8> {
    let mut d = vec![1u8, 0u8];
    for v in [48u16, 0xffff, 16, 0xffff, 112, message.len() as u16, 0xffff] {
        d.extend_from_slice(&v.to_le_bytes());
    }
    d.extend_from_slice(&signer.to_bytes());
    d.extend_from_slice(sig);
    d.extend_from_slice(message);
    d
}

fn companion(signer: &Pubkey, sig: &[u8; 64], message: &[u8]) -> Option<Instruction> {
    Some(Instruction { program_id: ed25519_id(), data: companion_data(signer, sig, message) })
}

fn account(key: Pubkey, is_signer: bool) -> Account {
    Account { key, is_signer, owner: key_of_owner(), data_len: 0 }
}

fn key_of_owner() -> Pubkey {
    key(9)
}

fn token_account(key: Pubkey) -> Account {
    Account { key, is_signer: false, owner: system_id(), data_len: 80 }
}

fn plain_accounts(a: Pubkey, b: Pubkey) -> Vec<Account> {
    vec![account(a, true), account(b, false), account(system_id(), false)]
}

#[test]
fn test_intent_parsing() {
    let intent = SolanaIntent {
        from: Pubkey::new(SolPubkey::new_unique().to_bytes()),
        to: Pubkey::new(SolPubkey::new_unique().to_bytes()),
        amount: 1000000,
        nonce: 1,
        expiry: 9999999999,
        nonce_account: None,
        nonce_auth: None,
    };

    let serialized = intent.to_bytes();
    let deserialized = SolanaIntent::try_from_slice(&serialized).unwrap();

    assert_eq!(deserialized.amount, 1000000);
}

#[test]
fn intent_encoding_matches_borsh_layout() {
    let mut intent = sample_intent(key(1), key(2));
    intent.nonce_account = Some(key(3));
    intent.nonce_auth = Some(key(4));
    let expected = borsh::to_vec(&(
        [1u8; 32],
        [2u8; 32],
        1_000_000u64,
        1u64,
        9_999_999_999u64,
        Some([3u8; 32]),
        Some([4u8; 32]),
    ))
    .unwrap();
    assert_eq!(intent.to_bytes(), expected);
    let plain = borsh::to_vec(&(
        [1u8; 32],
        [2u8; 32],
        1_000_000u64,
        1u64,
        9_999_999_999u64,
        None::<[u8; 32]>,
        None::<[u8; 32]>,
    ))
    .unwrap();
    assert_eq!(sample_intent(key(1), key(2)).to_bytes(), plain);
    assert_eq!(plain.len(), 90);
}

#[test]
fn intent_round_trip_is_byte_identical() {
    let mut intent = sample_intent(key(1), key(2));
    intent.nonce_account = Some(key(3));
    intent.nonce_auth = Some(key(4));
    let bytes = intent.to_bytes();
    let decoded = SolanaIntent::try_from_slice(&bytes).unwrap();
    assert_eq!(decoded.to_bytes(), bytes);
    assert_eq!(decoded.amount, 1_000_000);
    assert_eq!(decoded.nonce, 1);
    assert_eq!(decoded.expiry, 9_999_999_999);
    assert_eq!(decoded.from.to_bytes(), [1u8; 32]);
    assert_eq!(decoded.to.to_bytes(), [2u8; 32]);
    assert_eq!(decoded.nonce_account.unwrap().to_bytes(), [3u8; 32]);
    assert_eq!(decoded.nonce_auth.unwrap().to_bytes(), [4u8; 32]);
}

#[test]
fn intent_decode_rejects_malformed_bytes() {
    let bytes = sample_intent(key(1), key(2)).to_bytes();
    assert_eq!(SolanaIntent::try_from_slice(&bytes[..89]).unwrap_err(), SettleError::Decode);
    let mut trailing = bytes.clone();
    trailing.push(0);
    assert_eq!(SolanaIntent::try_from_slice(&trailing).unwrap_err(), SettleError::Decode);
    let mut bad_flag = bytes.clone();
    bad_flag[88] = 2;
    assert_eq!(SolanaIntent::try_from_slice(&bad_flag).unwrap_err(), SettleError::Decode);
    assert_eq!(SolanaIntent::try_from_slice(&[]).unwrap_err(), SettleError::Decode);
}

#[test]
fn expiry_boundary_is_inclusive() {
    let mut intent = sample_intent(key(1), key(2));
    intent.expiry = 100;
    assert!(!intent.is_expired(99));
    assert!(!intent.is_expired(100));
    assert!(intent.is_expired(101));
}

#[test]
fn instruction_envelope_matches_borsh_layout() {
    let sig = [7u8; 64];
    let data = vec![5u8, 6, 7];
    let ix = TossIntentInstruction::ProcessIntent { signature: sig, intent_data: data.clone() };
    let bytes = ix.to_bytes();
    assert_eq!(bytes, borsh::to_vec(&(0u8, sig, data.clone())).unwrap());
    match TossIntentInstruction::try_from_slice(&bytes).unwrap() {
        TossIntentInstruction::ProcessIntent { signature, intent_data } => {
            assert_eq!(signature, sig);
            assert_eq!(intent_data, data);
        }
    }
}

#[test]
fn instruction_envelope_rejects_malformed_bytes() {
    let ix = TossIntentInstruction::ProcessIntent { signature: [7u8; 64], intent_data: vec![1] };
    let bytes = ix.to_bytes();
    let mut bad_tag = bytes.clone();
    bad_tag[0] = 1;
    assert_eq!(
        TossIntentInstruction::try_from_slice(&bad_tag).unwrap_err(),
        SettleError::InvalidInstruction
    );
    let mut trailing = bytes.clone();
    trailing.push(0);
    assert_eq!(
        TossIntentInstruction::try_from_slice(&trailing).unwrap_err(),
        SettleError::InvalidInstruction
    );
    assert_eq!(
        TossIntentInstruction::try_from_slice(&bytes[..68]).unwrap_err(),
        SettleError::InvalidInstruction
    );
}

#[test]
fn plain_intent_settles_with_one_transfer() {
    let (a, b) = (key(1), key(2));
    let data = sample_intent(a, b).to_bytes();
    let sig = [8u8; 64];
    let plan = process_intent(&plain_accounts(a, b), &sig, &data, 1_700_000_000, &companion(&a, &sig, &data))
        .unwrap();
    assert!(plan.advance.is_none());
    assert_eq!(plan.transfer.from.to_bytes(), [1u8; 32]);
    assert_eq!(plan.transfer.to.to_bytes(), [2u8; 32]);
    assert_eq!(plan.transfer.amount, 1_000_000);
    let mut s = Settlement::new(plan);
    match s.next_call() {
        Some(LedgerCall::Transfer(t)) => assert_eq!(t.amount, 1_000_000),
        _ => panic!("expected the transfer"),
    }
    assert_eq!(s.outcome(), None);
    s.record(true);
    assert!(s.next_call().is_none());
    assert_eq!(s.outcome(), Some(Ok(())));
}

#[test]
fn expired_intent_is_rejected() {
    let (a, b) = (key(1), key(2));
    let mut intent = sample_intent(a, b);
    intent.expiry = 0;
    let data = intent.to_bytes();
    let sig = [8u8; 64];
    let r = process_intent(&plain_accounts(a, b), &sig, &data, 1, &companion(&a, &sig, &data));
    assert_eq!(r.unwrap_err(), SettleError::Expired);
}

#[test]
fn half_nonce_pair_fails_before_account_checks() {
    let (a, b) = (key(1), key(2));
    let mut intent = sample_intent(a, b);
    intent.nonce_account = Some(key(3));
    let data = intent.to_bytes();
    let sig = [8u8; 64];
    let r = process_intent(&[], &sig, &data, 1, &None);
    assert_eq!(r.unwrap_err(), SettleError::Decode);
    let mut other = sample_intent(a, b);
    other.nonce_auth = Some(key(4));
    let data = other.to_bytes();
    let r = process_intent(&plain_accounts(a, b), &sig, &data, 1, &companion(&a, &sig, &data));
    assert_eq!(r.unwrap_err(), SettleError::Decode);
}

#[test]
fn sender_or_recipient_mismatch_is_rejected() {
    let (a, b) = (key(1), key(2));
    let data = sample_intent(a, b).to_bytes();
    let sig = [8u8; 64];
    let c = companion(&a, &sig, &data);
    let r = process_intent(&plain_accounts(key(5), b), &sig, &data, 1, &c);
    assert_eq!(r.unwrap_err(), SettleError::IdentityMismatch);
    let r = process_intent(&plain_accounts(a, key(5)), &sig, &data, 1, &c);
    assert_eq!(r.unwrap_err(), SettleError::IdentityMismatch);
}

#[test]
fn too_few_accounts_are_rejected() {
    let (a, b) = (key(1), key(2));
    let data = sample_intent(a, b).to_bytes();
    let sig = [8u8; 64];
    let c = companion(&a, &sig, &data);
    let two = vec![account(a, true), account(b, false)];
    assert_eq!(process_intent(&two, &sig, &data, 1, &c).unwrap_err(), SettleError::NotEnoughAccounts);
    let mut intent = sample_intent(a, b);
    intent.nonce_account = Some(key(3));
    intent.nonce_auth = Some(key(4));
    let data = intent.to_bytes();
    let c = companion(&a, &sig, &data);
    let r = process_intent(&plain_accounts(a, b), &sig, &data, 1, &c);
    assert_eq!(r.unwrap_err(), SettleError::NotEnoughAccounts);
}

#[test]
fn signature_must_be_attested() {
    let (a, b) = (key(1), key(2));
    let data = sample_intent(a, b).to_bytes();
    let sig = [8u8; 64];
    let accounts = plain_accounts(a, b);
    assert_eq!(process_intent(&accounts, &sig, &data, 1, &None).unwrap_err(), SettleError::Auth);
    let wrong_program = Some(Instruction { program_id: key(7), data: companion_data(&a, &sig, &data) });
    assert_eq!(process_intent(&accounts, &sig, &data, 1, &wrong_program).unwrap_err(), SettleError::Auth);
    let other_sig = companion(&a, &[9u8; 64], &data);
    assert_eq!(process_intent(&accounts, &sig, &data, 1, &other_sig).unwrap_err(), SettleError::Auth);
    let other_signer = companion(&b, &sig, &data);
    assert_eq!(process_intent(&accounts, &sig, &data, 1, &other_signer).unwrap_err(), SettleError::Auth);
    let other_message = companion(&a, &sig, &data[..89]);
    assert_eq!(process_intent(&accounts, &sig, &data, 1, &other_message).unwrap_err(), SettleError::Auth);
}

#[test]
fn companion_layout_is_checked() {
    let a = key(1);
    let sig = [8u8; 64];
    let msg = [1u8, 2, 3];
    assert!(verify_intent_signature(&a, &msg, &sig, &companion(&a, &sig, &msg)).is_ok());
    let mut no_entries = companion_data(&a, &sig, &msg);
    no_entries[0] = 0;
    let c = Some(Instruction { program_id: ed25519_id(), data: no_entries });
    assert_eq!(verify_intent_signature(&a, &msg, &sig, &c), Err(SettleError::Auth));
    let mut other_ix = companion_data(&a, &sig, &msg);
    other_ix[4] = 0;
    other_ix[5] = 0;
    let c = Some(Instruction { program_id: ed25519_id(), data: other_ix });
    assert_eq!(verify_intent_signature(&a, &msg, &sig, &c), Err(SettleError::Auth));
    let c = Some(Instruction { program_id: ed25519_id(), data: vec![1u8; 10] });
    assert_eq!(verify_intent_signature(&a, &msg, &sig, &c), Err(SettleError::Auth));
}

#[test]
fn ed25519_program_address_bytes() {
    let expected: [u8; 32] = [
        3, 125, 70, 214, 124, 147, 251, 190, 18, 249, 66, 143, 131, 141, 64, 255, 5, 112, 116, 73,
        39, 244, 138, 100, 252, 202, 112, 68, 128, 0, 0, 0,
    ];
    assert_eq!(solana_program::ed25519_program::ID.to_bytes(), expected);
    assert_eq!(system_id().to_bytes(), [0u8; 32]);
}

fn durable_setup() -> (Vec<Account>, [u8; 64], Vec<u8>, Option<Instruction>) {
    let (a, b, t, auth) = (key(1), key(2), key(3), key(4));
    let mut intent = sample_intent(a, b);
    intent.nonce_account = Some(t);
    intent.nonce_auth = Some(auth);
    let data = intent.to_bytes();
    let sig = [8u8; 64];
    let c = companion(&a, &sig, &data);
    let mut accounts = plain_accounts(a, b);
    accounts.push(token_account(t));
    accounts.push(account(auth, true));
    (accounts, sig, data, c)
}

#[test]
fn durable_intent_advances_then_transfers() {
    let (accounts, sig, data, c) = durable_setup();
    let plan = process_intent(&accounts, &sig, &data, 1, &c).unwrap();
    let adv = plan.advance.unwrap();
    assert_eq!(adv.token.to_bytes(), [3u8; 32]);
    assert_eq!(adv.authority.to_bytes(), [4u8; 32]);
    let mut s = Settlement::new(plan);
    assert!(matches!(s.next_call(), Some(LedgerCall::Advance(_))));
    s.record(true);
    assert!(matches!(s.next_call(), Some(LedgerCall::Transfer(_))));
    s.record(true);
    assert!(s.next_call().is_none());
    assert_eq!(s.outcome(), Some(Ok(())));
}

#[test]
fn refused_advance_blocks_the_transfer() {
    let (accounts, sig, data, c) = durable_setup();
    let plan = process_intent(&accounts, &sig, &data, 1, &c).unwrap();
    let mut s = Settlement::new(plan);
    assert!(matches!(s.next_call(), Some(LedgerCall::Advance(_))));
    s.record(false);
    assert!(s.next_call().is_none());
    assert_eq!(s.outcome(), Some(Err(SettleError::LedgerCall)));
    s.record(true);
    assert!(s.next_call().is_none());
    assert_eq!(s.outcome(), Some(Err(SettleError::LedgerCall)));
}

#[test]
fn failed_transfer_fails_the_settlement() {
    let (a, b) = (key(1), key(2));
    let data = sample_intent(a, b).to_bytes();
    let sig = [8u8; 64];
    let plan = process_intent(&plain_accounts(a, b), &sig, &data, 1, &companion(&a, &sig, &data)).unwrap();
    let mut s = Settlement::new(plan);
    s.record(false);
    assert_eq!(s.outcome(), Some(Err(SettleError::LedgerCall)));
}

#[test]
fn replay_guard_errors_in_order() {
    let (accounts, sig, data, c) = durable_setup();
    let mut wrong_token = accounts.clone();
    wrong_token[3] = token_account(key(5));
    assert_eq!(
        process_intent(&wrong_token, &sig, &data, 1, &c).unwrap_err(),
        SettleError::Replay(ReplayError::TokenMismatch)
    );
    let mut wrong_auth = accounts.clone();
    wrong_auth[4] = account(key(5), true);
    assert_eq!(
        process_intent(&wrong_auth, &sig, &data, 1, &c).unwrap_err(),
        SettleError::Replay(ReplayError::AuthorityMismatch)
    );
    let mut unsigned = accounts.clone();
    unsigned[4] = account(key(4), false);
    assert_eq!(
        process_intent(&unsigned, &sig, &data, 1, &c).unwrap_err(),
        SettleError::Replay(ReplayError::MissingAuthoritySignature)
    );
    let mut short = accounts.clone();
    short[3].data_len = 47;
    assert_eq!(
        process_intent(&short, &sig, &data, 1, &c).unwrap_err(),
        SettleError::Replay(ReplayError::MalformedToken)
    );
    let mut foreign = accounts.clone();
    foreign[3].owner = key(6);
    assert_eq!(
        process_intent(&foreign, &sig, &data, 1, &c).unwrap_err(),
        SettleError::Replay(ReplayError::MalformedToken)
    );
}

#[test]
fn nonce_account_shape() {
    let mut t = token_account(key(3));
    t.data_len = 48;
    assert_eq!(validate_nonce_account(&t), Ok(()));
    t.data_len = 47;
    assert_eq!(validate_nonce_account(&t), Err(ReplayError::MalformedToken));
    t.data_len = 48;
    t.owner = key(1);
    assert_eq!(validate_nonce_account(&t), Err(ReplayError::MalformedToken));
    let auth = account(key(4), true);
    let adv = validate_and_consume(&token_account(key(3)), &auth, &key(3), &key(4)).unwrap();
    assert_eq!(adv.token.to_bytes(), [3u8; 32]);
    assert_eq!(adv.authority.to_bytes(), [4u8; 32]);
}

#[test]
fn instruction_is_decoded_and_routed() {
    let (a, b) = (key(1), key(2));
    let data = sample_intent(a, b).to_bytes();
    let sig = [8u8; 64];
    let ix = TossIntentInstruction::ProcessIntent { signature: sig, intent_data: data.clone() };
    let c = companion(&a, &sig, &data);
    let program = key(11);
    let s = process_instruction(&program, &plain_accounts(a, b), &ix.to_bytes(), 1, &c).unwrap();
    assert_eq!(s.plan.transfer.amount, 1_000_000);
    assert!(matches!(s.next_call(), Some(LedgerCall::Transfer(_))));
    let r = process_instruction(&program, &plain_accounts(a, b), &[1u8, 2, 3], 1, &c);
    assert_eq!(r.err(), Some(SettleError::InvalidInstruction));
    let bad = TossIntentInstruction::ProcessIntent { signature: sig, intent_data: vec![0u8; 3] };
    let r = process_instruction(&program, &plain_accounts(a, b), &bad.to_bytes(), 1, &c);
    assert_eq!(r.err(), Some(SettleError::Decode));
}

#[test]
fn nonce_mode_is_both_or_neither() {
    let mut intent = sample_intent(key(1), key(2));
    assert!(matches!(intent.nonce_mode(), Ok(NonceMode::NoDurableNonce)));
    assert!(!intent.has_durable_nonce());
    intent.nonce_account = Some(key(3));
    assert_eq!(intent.nonce_mode().unwrap_err(), SettleError::Decode);
    assert!(!intent.has_durable_nonce());
    intent.nonce_auth = Some(key(4));
    assert!(intent.has_durable_nonce());
    match intent.nonce_mode() {
        Ok(NonceMode::DurableNonce { account, authority }) => {
            assert_eq!(account.to_bytes(), [3u8; 32]);
            assert_eq!(authority.to_bytes(), [4u8; 32]);
        }
        _ => panic!("expected durable-nonce mode"),
    }
}
