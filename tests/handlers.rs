use base64::Engine;
use solana_api::message::{sign_message, signature_from_bytes, verify_message};
use solana_api::models::{
    CreateTokenRequest, MintTokenRequest, SendSolRequest, SendTokenRequest, SignMessageRequest,
    Status, VerifyMessageRequest,
};
use solana_api::token::{create_token, mint_token};
use solana_api::transfer::{send_sol, send_token};
use solana_sdk::signer::keypair::Keypair;
use solana_sdk::signer::Signer;

const TOKEN_PROGRAM: &str = "TokenkegQfeZyiNwAJbNbGKPFXCWuBvf9Ss623VQ5DA";
const RENT_SYSVAR: &str = "SysvarRent111111111111111111111111111111111";
const SYSTEM_PROGRAM: &str = "11111111111111111111111111111111";

fn b64(s: &str) -> Vec<u8> {
    base64::engine::general_purpose::STANDARD.decode(s).unwrap()
}

fn keypair(seed: u8) -> Keypair {
    Keypair::new_from_array([seed; 32])
}

fn address(seed: u8) -> String {
    keypair(seed).pubkey().to_string()
}

fn bytes_of(text: &str) -> Vec<u8> {
    text.parse::<solana_sdk::pubkey::Pubkey>().unwrap().to_bytes().to_vec()
}

#[test]
fn address_text_round_trips_through_create_token() {
    for seed in [1u8, 2, 200] {
        let mint = address(seed);
        let resp = create_token(CreateTokenRequest {
            mint_authority: address(seed + 1),
            mint: mint.clone(),
            decimals: 6,
        })
        .unwrap();
        let data = resp.data.unwrap();
        assert_eq!(data.accounts[0].pubkey, mint);
        assert_eq!(bytes_of(&data.accounts[0].pubkey).len(), 32);
    }
}

#[test]
fn system_address_round_trips() {
    let resp = create_token(CreateTokenRequest {
        mint_authority: SYSTEM_PROGRAM.to_string(),
        mint: SYSTEM_PROGRAM.to_string(),
        decimals: 0,
    })
    .unwrap();
    assert_eq!(resp.data.unwrap().accounts[0].pubkey, SYSTEM_PROGRAM);
}

#[test]
fn sign_then_verify_is_valid() {
    let kp = keypair(9);
    let signed = sign_message(SignMessageRequest {
        message: "Hello, Solana!".to_string(),
        secret: kp.to_base58_string(),
    })
    .unwrap();
    assert!(signed.success);
    let d = signed.data.unwrap();
    assert_eq!(d.public_key, kp.pubkey().to_string());
    assert_eq!(d.message, "Hello, Solana!");
    assert_eq!(b64(&d.signature).len(), 64);
    let expected = kp.sign_message(b"Hello, Solana!");
    assert_eq!(b64(&d.signature), expected.as_ref().to_vec());
    let verified = verify_message(VerifyMessageRequest {
        pubkey: d.public_key.clone(),
        signature: d.signature.clone(),
        message: d.message.clone(),
    })
    .unwrap();
    assert!(verified.success);
    let v = verified.data.unwrap();
    assert!(v.valid);
    assert_eq!(v.pubkey, d.public_key);
    assert_eq!(v.message, "Hello, Solana!");
}

#[test]
fn tampered_message_is_invalid() {
    let kp = keypair(3);
    let d = sign_message(SignMessageRequest { message: "pay 5".to_string(), secret: kp.to_base58_string() })
        .unwrap()
        .data
        .unwrap();
    let r = verify_message(VerifyMessageRequest {
        pubkey: d.public_key,
        signature: d.signature,
        message: "pay 6".to_string(),
    })
    .unwrap();
    assert!(r.success);
    assert!(!r.data.unwrap().valid);
}

#[test]
fn tampered_signature_is_invalid() {
    let kp = keypair(4);
    let d = sign_message(SignMessageRequest { message: "hello".to_string(), secret: kp.to_base58_string() })
        .unwrap()
        .data
        .unwrap();
    let mut sig = b64(&d.signature);
    sig[10] ^= 1;
    let r = verify_message(VerifyMessageRequest {
        pubkey: d.public_key,
        signature: base64::engine::general_purpose::STANDARD.encode(&sig),
        message: "hello".to_string(),
    })
    .unwrap();
    assert!(!r.data.unwrap().valid);
}

#[test]
fn signature_under_other_key_is_invalid() {
    let d = sign_message(SignMessageRequest { message: "hello".to_string(), secret: keypair(5).to_base58_string() })
        .unwrap()
        .data
        .unwrap();
    let r = verify_message(VerifyMessageRequest {
        pubkey: address(6),
        signature: d.signature,
        message: "hello".to_string(),
    })
    .unwrap();
    assert!(!r.data.unwrap().valid);
}

#[test]
fn verify_rejects_malformed_encodings() {
    let sig64 = base64::engine::general_purpose::STANDARD.encode([0u8; 64]);
    let sig63 = base64::engine::general_purpose::STANDARD.encode([0u8; 63]);
    let bad_key = verify_message(VerifyMessageRequest {
        pubkey: "not-a-key".to_string(),
        signature: sig64.clone(),
        message: "m".to_string(),
    });
    assert_eq!(bad_key.unwrap_err(), Status::BadRequest);
    let bad_b64 = verify_message(VerifyMessageRequest {
        pubkey: address(1),
        signature: "***".to_string(),
        message: "m".to_string(),
    });
    assert_eq!(bad_b64.unwrap_err(), Status::BadRequest);
    let short = verify_message(VerifyMessageRequest { pubkey: address(1), signature: sig63, message: "m".to_string() });
    assert_eq!(short.unwrap_err(), Status::BadRequest);
    let zero = verify_message(VerifyMessageRequest { pubkey: address(1), signature: sig64, message: "m".to_string() })
        .unwrap();
    assert!(!zero.data.unwrap().valid);
}

#[test]
fn sign_requires_both_fields() {
    let r = sign_message(SignMessageRequest { message: String::new(), secret: keypair(1).to_base58_string() }).unwrap();
    assert!(!r.success);
    assert!(r.data.is_none());
    assert_eq!(r.error.unwrap(), "Missing required fields");
    let r = sign_message(SignMessageRequest { message: "m".to_string(), secret: String::new() }).unwrap();
    assert_eq!(r.error.unwrap(), "Missing required fields");
}

#[test]
fn sign_rejects_malformed_secret() {
    let r = sign_message(SignMessageRequest { message: "m".to_string(), secret: "0OIl".to_string() });
    assert_eq!(r.unwrap_err(), Status::BadRequest);
    let r = sign_message(SignMessageRequest { message: "m".to_string(), secret: address(1) });
    assert_eq!(r.unwrap_err(), Status::BadRequest);
}

#[test]
fn signature_from_bytes_needs_exactly_64() {
    assert!(signature_from_bytes(&vec![1u8; 63]).is_none());
    assert!(signature_from_bytes(&vec![1u8; 65]).is_none());
    assert_eq!(signature_from_bytes(&vec![7u8; 64]).unwrap(), [7u8; 64]);
}

#[test]
fn send_sol_zero_lamports_fails() {
    let r = send_sol(SendSolRequest { from: address(1), to: address(2), lamports: 0 }).unwrap();
    assert!(!r.success);
    assert!(r.data.is_none());
    assert_eq!(r.error.unwrap(), "Amount must be greater than 0");
    let r = send_sol(SendSolRequest { from: "bad".to_string(), to: "bad".to_string(), lamports: 0 });
    assert_eq!(r.unwrap_err(), Status::BadRequest);
}

#[test]
fn send_sol_builds_system_transfer() {
    let r = send_sol(SendSolRequest { from: address(1), to: address(2), lamports: 1_000_000 }).unwrap();
    assert!(r.success);
    assert!(r.error.is_none());
    let d = r.data.unwrap();
    assert_eq!(d.program_id, SYSTEM_PROGRAM);
    assert_eq!(d.accounts, vec![address(1), address(2)]);
    let mut expected = vec![2u8, 0, 0, 0];
    expected.extend_from_slice(&1_000_000u64.to_le_bytes());
    assert_eq!(b64(&d.instruction_data), expected);
}

#[test]
fn send_sol_rejects_bad_address() {
    let r = send_sol(SendSolRequest { from: "invalid".to_string(), to: address(2), lamports: 5 });
    assert_eq!(r.unwrap_err(), Status::BadRequest);
    let r = send_sol(SendSolRequest { from: address(1), to: "0".to_string(), lamports: 5 });
    assert_eq!(r.unwrap_err(), Status::BadRequest);
}

#[test]
fn send_token_zero_amount_fails_regardless_of_addresses() {
    for (mint, owner, dest) in [
        (address(1), address(2), address(3)),
        ("x".to_string(), "y".to_string(), "z".to_string()),
    ] {
        let r = send_token(SendTokenRequest { mint, owner, destination: dest, amount: 0 }).unwrap();
        assert!(!r.success);
        assert!(r.data.is_none());
        assert_eq!(r.error.unwrap(), "Amount must be greater than 0");
    }
}

#[test]
fn send_token_builds_transfer_between_associated_accounts() {
    let (mint, owner, dest) = (keypair(1).pubkey(), keypair(2).pubkey(), keypair(3).pubkey());
    let r = send_token(SendTokenRequest {
        mint: mint.to_string(),
        owner: owner.to_string(),
        destination: dest.to_string(),
        amount: 42,
    })
    .unwrap();
    assert!(r.success);
    let d = r.data.unwrap();
    assert_eq!(d.program_id, TOKEN_PROGRAM);
    let ata = |w: &solana_sdk::pubkey::Pubkey| {
        let w = spl_token::solana_program::pubkey::Pubkey::new_from_array(w.to_bytes());
        let m = spl_token::solana_program::pubkey::Pubkey::new_from_array(mint.to_bytes());
        spl_associated_token_account::get_associated_token_address(&w, &m).to_string()
    };
    assert_eq!(d.accounts.len(), 3);
    assert_eq!(d.accounts[0].pubkey, ata(&owner));
    assert_eq!(d.accounts[1].pubkey, ata(&dest));
    assert_ne!(d.accounts[0].pubkey, owner.to_string());
    assert_eq!(d.accounts[2].pubkey, owner.to_string());
    assert_eq!(
        d.accounts.iter().map(|a| a.is_signer).collect::<Vec<_>>(),
        vec![false, false, true]
    );
    let mut expected = vec![3u8];
    expected.extend_from_slice(&42u64.to_le_bytes());
    assert_eq!(b64(&d.instruction_data), expected);
}

#[test]
fn send_token_rejects_bad_address() {
    let r = send_token(SendTokenRequest {
        mint: address(1),
        owner: "nope".to_string(),
        destination: address(3),
        amount: 1,
    });
    assert_eq!(r.unwrap_err(), Status::BadRequest);
}

#[test]
fn create_token_builds_initialize_mint() {
    let (authority, mint) = (address(7), address(8));
    let r = create_token(CreateTokenRequest { mint_authority: authority.clone(), mint: mint.clone(), decimals: 9 })
        .unwrap();
    assert!(r.success);
    let d = r.data.unwrap();
    assert_eq!(d.program_id, TOKEN_PROGRAM);
    assert_eq!(d.accounts.len(), 2);
    assert_eq!(d.accounts[0].pubkey, mint);
    assert!(!d.accounts[0].is_signer && d.accounts[0].is_writable);
    assert_eq!(d.accounts[1].pubkey, RENT_SYSVAR);
    assert!(!d.accounts[1].is_signer && !d.accounts[1].is_writable);
    let mut expected = vec![0u8, 9];
    expected.extend(bytes_of(&authority));
    expected.push(1);
    expected.extend(bytes_of(&authority));
    assert_eq!(b64(&d.instruction_data), expected);
}

#[test]
fn create_token_rejects_invalid_mint_authority() {
    let r = create_token(CreateTokenRequest { mint_authority: "invalid!".to_string(), mint: address(1), decimals: 6 });
    assert_eq!(r.unwrap_err(), Status::BadRequest);
    assert_eq!(Status::BadRequest.code(), 400);
    let r = create_token(CreateTokenRequest { mint_authority: address(1), mint: "".to_string(), decimals: 6 });
    assert_eq!(r.unwrap_err(), Status::BadRequest);
}

#[test]
fn mint_token_builds_mint_to() {
    let (mint, dest, authority) = (address(1), address(2), address(3));
    let r = mint_token(MintTokenRequest {
        mint: mint.clone(),
        destination: dest.clone(),
        authority: authority.clone(),
        amount: u64::MAX,
    })
    .unwrap();
    assert!(r.success);
    let d = r.data.unwrap();
    assert_eq!(d.program_id, TOKEN_PROGRAM);
    let keys: Vec<_> = d.accounts.iter().map(|a| (a.pubkey.clone(), a.is_signer, a.is_writable)).collect();
    assert_eq!(keys, vec![(mint, false, true), (dest, false, true), (authority, true, false)]);
    let mut expected = vec![7u8];
    expected.extend_from_slice(&u64::MAX.to_le_bytes());
    assert_eq!(b64(&d.instruction_data), expected);
}

#[test]
fn mint_token_rejects_bad_address() {
    let r = mint_token(MintTokenRequest {
        mint: address(1),
        destination: address(2),
        authority: "short".to_string(),
        amount: 1,
    });
    assert_eq!(r.unwrap_err(), Status::BadRequest);
    assert_eq!(Status::InternalServerError.code(), 500);
}

#[test]
fn mint_token_zero_amount_fails() {
    let r = mint_token(MintTokenRequest {
        mint: address(1),
        destination: address(2),
        authority: address(3),
        amount: 0,
    })
    .unwrap();
    assert!(!r.success);
    assert!(r.data.is_none());
    assert_eq!(r.error.unwrap(), "Amount must be greater than 0");
    let r = mint_token(MintTokenRequest {
        mint: "x".to_string(),
        destination: "y".to_string(),
        authority: "z".to_string(),
        amount: 0,
    });
    assert_eq!(r.unwrap_err(), Status::BadRequest);
}

#[test]
fn send_sol_accounts_are_the_request_texts() {
    let r = send_sol(SendSolRequest { from: SYSTEM_PROGRAM.to_string(), to: TOKEN_PROGRAM.to_string(), lamports: 1 })
        .unwrap();
    assert_eq!(r.data.unwrap().accounts, vec![SYSTEM_PROGRAM.to_string(), TOKEN_PROGRAM.to_string()]);
}
