//! The SDK calls that the handlers rely on, each behind one trusted item.
//!
//! Keys, signatures and instructions cross this boundary as plain bytes, so
//! the handlers can be verified over `Seq<u8>` models.
use vstd::prelude::*;

use base64::Engine;
use solana_sdk::signer::Signer;
use std::str::FromStr;

verus! {

/// An account reference of an instruction: its address and its two flags.
#[derive(Clone, Copy, Debug)]
pub struct AccountMeta {
    pub pubkey: [u8; 32],
    pub is_signer: bool,
    pub is_writable: bool,
}

/// An instruction as the SDK builds it: program, ordered accounts, payload.
#[derive(Clone, Debug)]
pub struct Instruction {
    pub program_id: [u8; 32],
    pub accounts: Vec<AccountMeta>,
    pub data: Vec<u8>,
}

/// The mathematical form of an account reference.
pub struct MetaView {
    pub pubkey: Seq<u8>,
    pub is_signer: bool,
    pub is_writable: bool,
}

/// The mathematical form of an instruction.
pub struct InstructionView {
    pub program_id: Seq<u8>,
    pub accounts: Seq<MetaView>,
    pub data: Seq<u8>,
}

impl View for AccountMeta {
    type V = MetaView;

    open spec fn view(&self) -> MetaView {
        MetaView { pubkey: self.pubkey@, is_signer: self.is_signer, is_writable: self.is_writable }
    }
}

impl View for Instruction {
    type V = InstructionView;

    open spec fn view(&self) -> InstructionView {
        InstructionView {
            program_id: self.program_id@,
            accounts: self.accounts@.map_values(|m: AccountMeta| m@),
            data: self.data@,
        }
    }
}

pub open spec fn meta(pubkey: Seq<u8>, is_signer: bool, is_writable: bool) -> MetaView {
    MetaView { pubkey, is_signer, is_writable }
}

/// The eight little-endian bytes of `v`.
pub open spec fn le_u64(v: u64) -> Seq<u8> {
    seq![
        (v & 0xff) as u8,
        ((v >> 8u64) & 0xff) as u8,
        ((v >> 16u64) & 0xff) as u8,
        ((v >> 24u64) & 0xff) as u8,
        ((v >> 32u64) & 0xff) as u8,
        ((v >> 40u64) & 0xff) as u8,
        ((v >> 48u64) & 0xff) as u8,
        ((v >> 56u64) & 0xff) as u8,
    ]
}

/// Address of the SPL token program, `TokenkegQfeZyiNwAJbNbGKPFXCWuBvf9Ss623VQ5DA`.
pub open spec fn token_program_address() -> Seq<u8> {
    seq![
        6u8, 221, 246, 225, 215, 101, 161, 147, 217, 203, 225, 70, 206, 235, 121, 172,
        28, 180, 133, 237, 95, 91, 55, 145, 58, 140, 245, 133, 126, 255, 0, 169,
    ]
}

/// Address of the rent sysvar, `SysvarRent111111111111111111111111111111111`.
pub open spec fn rent_sysvar_address() -> Seq<u8> {
    seq![
        6u8, 167, 213, 23, 25, 44, 92, 81, 33, 140, 201, 76, 61, 74, 241, 127,
        88, 218, 238, 8, 155, 161, 253, 68, 227, 219, 217, 138, 0, 0, 0, 0,
    ]
}

/// Address of the system program: thirty-two zero bytes.
pub open spec fn system_program_address() -> Seq<u8> {
    Seq::new(32, |i: int| 0u8)
}

/// The token program's `InitializeMint` with the mint authority as freeze
/// authority too.
pub open spec fn initialize_mint_view(mint: Seq<u8>, authority: Seq<u8>, decimals: u8) -> InstructionView {
    InstructionView {
        program_id: token_program_address(),
        accounts: seq![meta(mint, false, true), meta(rent_sysvar_address(), false, false)],
        data: seq![0u8, decimals] + authority + seq![1u8] + authority,
    }
}

/// The token program's `MintTo`, signed by a single authority.
pub open spec fn mint_to_view(mint: Seq<u8>, destination: Seq<u8>, authority: Seq<u8>, amount: u64) -> InstructionView {
    InstructionView {
        program_id: token_program_address(),
        accounts: seq![meta(mint, false, true), meta(destination, false, true), meta(authority, true, false)],
        data: seq![7u8] + le_u64(amount),
    }
}

/// The token program's `Transfer`, signed by a single authority.
pub open spec fn token_transfer_view(source: Seq<u8>, destination: Seq<u8>, authority: Seq<u8>, amount: u64) -> InstructionView {
    InstructionView {
        program_id: token_program_address(),
        accounts: seq![meta(source, false, true), meta(destination, false, true), meta(authority, true, false)],
        data: seq![3u8] + le_u64(amount),
    }
}

/// The system program's `Transfer` of lamports, signed by the payer.
pub open spec fn system_transfer_view(from: Seq<u8>, to: Seq<u8>, lamports: u64) -> InstructionView {
    InstructionView {
        program_id: system_program_address(),
        accounts: seq![meta(from, true, true), meta(to, false, true)],
        data: seq![2u8, 0, 0, 0] + le_u64(lamports),
    }
}

/// The 32 bytes that a base58 text denotes as an address, if it denotes one.
pub uninterp spec fn decoded_address(s: Seq<char>) -> Option<Seq<u8>>;

/// The base58 text of an address.
pub uninterp spec fn address_text_of(b: Seq<u8>) -> Seq<char>;

/// The 64 keypair bytes (secret seed, then public key) that a base58 text denotes.
pub uninterp spec fn decoded_keypair(s: Seq<char>) -> Option<Seq<u8>>;

/// The Ed25519 signature of a message under a keypair.
pub uninterp spec fn signature_of(keypair: Seq<u8>, message: Seq<u8>) -> Seq<u8>;

/// Whether a signature verifies for a public key and a message.
pub uninterp spec fn signature_valid(pubkey: Seq<u8>, message: Seq<u8>, signature: Seq<u8>) -> bool;

/// The standard, padded base64 text of some bytes.
pub uninterp spec fn base64_of(b: Seq<u8>) -> Seq<char>;

/// The bytes that a standard base64 text denotes, if it is well formed.
pub uninterp spec fn base64_decoded(s: Seq<char>) -> Option<Seq<u8>>;

/// The associated token account of a wallet for a mint.
pub uninterp spec fn associated_address(wallet: Seq<u8>, mint: Seq<u8>) -> Seq<u8>;

/// Keypair bytes that some base58 text denotes, hence a consistent keypair.
pub open spec fn is_keypair(b: Seq<u8>) -> bool {
    exists|s: Seq<char>| decoded_keypair(s) == Some(b)
}

#[verifier::external_type_specification]
#[verifier::external_body]
pub struct ExProgramError(spl_token::solana_program::program_error::ProgramError);

/// Relies on `Pubkey::from_str`: base58 text of exactly 32 bytes. Its decoder
/// (five8's `decode_32`) takes only canonical text, as many leading '1's as
/// leading zero bytes, so the text is the address's own base58 text.
#[verifier::external_body]
pub(crate) fn parse_address(s: &str) -> (r: Option<[u8; 32]>)
    ensures
        match r {
            Some(b) => decoded_address(s@) == Some(b@) && address_text_of(b@) == s@,
            None => decoded_address(s@) is None,
        },
{
    solana_sdk::pubkey::Pubkey::from_str(s).ok().map(|p| p.to_bytes())
}

/// Relies on `Pubkey`'s `Display`: base58 text that parses back to the same bytes.
#[verifier::external_body]
pub(crate) fn address_text(b: &[u8; 32]) -> (r: String)
    ensures
        r@ == address_text_of(b@),
        decoded_address(r@) == Some(b@),
{
    solana_sdk::pubkey::Pubkey::new_from_array(*b).to_string()
}

/// Relies on `Keypair::try_from_base58_string`: 64 bytes whose second half is
/// the public key derived from the first.
#[verifier::external_body]
pub(crate) fn parse_keypair(s: &str) -> (r: Option<[u8; 64]>)
    ensures
        match r {
            Some(b) => decoded_keypair(s@) == Some(b@),
            None => decoded_keypair(s@) is None,
        },
{
    solana_sdk::signer::keypair::Keypair::try_from_base58_string(s).ok().map(|k| k.to_bytes())
}

/// Relies on `Keypair::pubkey`: the public half of the keypair bytes.
#[verifier::external_body]
pub(crate) fn keypair_pubkey(keypair: &[u8; 64]) -> (r: [u8; 32])
    requires
        is_keypair(keypair@),
    ensures
        r@ == keypair@.subrange(32, 64),
{
    let k = solana_sdk::signer::keypair::Keypair::try_from(&keypair[..]).unwrap();
    k.pubkey().to_bytes()
}

/// Relies on `Keypair::sign_message`: a deterministic Ed25519 signature, which
/// verifies under the keypair's public key.
#[verifier::external_body]
pub(crate) fn sign_bytes(keypair: &[u8; 64], message: &[u8]) -> (r: [u8; 64])
    requires
        is_keypair(keypair@),
    ensures
        r@ == signature_of(keypair@, message@),
        signature_valid(keypair@.subrange(32, 64), message@, r@),
{
    let k = solana_sdk::signer::keypair::Keypair::try_from(&keypair[..]).unwrap();
    let sig: [u8; 64] = k.sign_message(message).into();
    sig
}

/// Relies on `Signature::verify`: Ed25519 verification, with no error path.
#[verifier::external_body]
pub(crate) fn verify_bytes(signature: &[u8; 64], pubkey: &[u8; 32], message: &[u8]) -> (r: bool)
    ensures
        r == signature_valid(pubkey@, message@, signature@),
{
    solana_sdk::signature::Signature::from(*signature).verify(&pubkey[..], message)
}

/// Relies on base64's `STANDARD.encode`: text that decodes back to the bytes.
#[verifier::external_body]
pub(crate) fn base64_text(b: &[u8]) -> (r: String)
    ensures
        r@ == base64_of(b@),
        base64_decoded(r@) == Some(b@),
{
    base64::engine::general_purpose::STANDARD.encode(b)
}

/// Relies on base64's `STANDARD.decode`.
#[verifier::external_body]
pub(crate) fn base64_bytes(s: &str) -> (r: Option<Vec<u8>>)
    ensures
        match r {
            Some(v) => base64_decoded(s@) == Some(v@),
            None => base64_decoded(s@) is None,
        },
{
    base64::engine::general_purpose::STANDARD.decode(s).ok()
}

/// Relies on `get_associated_token_address`: the derived account of a wallet
/// for a mint under the token program.
#[verifier::external_body]
pub(crate) fn associated_token_address(wallet: &[u8; 32], mint: &[u8; 32]) -> (r: [u8; 32])
    ensures
        r@ == associated_address(wallet@, mint@),
{
    let w = spl_token::solana_program::pubkey::Pubkey::new_from_array(*wallet);
    let m = spl_token::solana_program::pubkey::Pubkey::new_from_array(*mint);
    spl_associated_token_account::get_associated_token_address(&w, &m).to_bytes()
}

/// Relies on spl-token's `initialize_mint`, given the token program's own id,
/// which its program check accepts.
#[verifier::external_body]
pub(crate) fn initialize_mint(mint: &[u8; 32], authority: &[u8; 32], decimals: u8) -> (r: Result<Instruction, spl_token::solana_program::program_error::ProgramError>)
    ensures
        r is Ok,
        r->Ok_0@ == initialize_mint_view(mint@, authority@, decimals),
{
    let m = spl_token::solana_program::pubkey::Pubkey::new_from_array(*mint);
    let a = spl_token::solana_program::pubkey::Pubkey::new_from_array(*authority);
    spl_token::instruction::initialize_mint(&spl_token::id(), &m, &a, Some(&a), decimals).map(|i| Instruction {
        program_id: i.program_id.to_bytes(),
        accounts: i.accounts.iter().map(|x| AccountMeta { pubkey: x.pubkey.to_bytes(), is_signer: x.is_signer, is_writable: x.is_writable }).collect(),
        data: i.data,
    })
}

/// Relies on spl-token's `mint_to` with no multisig signers, given the token
/// program's own id, which its program check accepts.
#[verifier::external_body]
pub(crate) fn mint_to(mint: &[u8; 32], destination: &[u8; 32], authority: &[u8; 32], amount: u64) -> (r: Result<Instruction, spl_token::solana_program::program_error::ProgramError>)
    ensures
        r is Ok,
        r->Ok_0@ == mint_to_view(mint@, destination@, authority@, amount),
{
    let m = spl_token::solana_program::pubkey::Pubkey::new_from_array(*mint);
    let d = spl_token::solana_program::pubkey::Pubkey::new_from_array(*destination);
    let a = spl_token::solana_program::pubkey::Pubkey::new_from_array(*authority);
    spl_token::instruction::mint_to(&spl_token::id(), &m, &d, &a, &[], amount).map(|i| Instruction {
        program_id: i.program_id.to_bytes(),
        accounts: i.accounts.iter().map(|x| AccountMeta { pubkey: x.pubkey.to_bytes(), is_signer: x.is_signer, is_writable: x.is_writable }).collect(),
        data: i.data,
    })
}

/// Relies on spl-token's `transfer` with no multisig signers, given the token
/// program's own id, which its program check accepts.
#[verifier::external_body]
pub(crate) fn token_transfer(source: &[u8; 32], destination: &[u8; 32], authority: &[u8; 32], amount: u64) -> (r: Result<Instruction, spl_token::solana_program::program_error::ProgramError>)
    ensures
        r is Ok,
        r->Ok_0@ == token_transfer_view(source@, destination@, authority@, amount),
{
    let s = spl_token::solana_program::pubkey::Pubkey::new_from_array(*source);
    let d = spl_token::solana_program::pubkey::Pubkey::new_from_array(*destination);
    let a = spl_token::solana_program::pubkey::Pubkey::new_from_array(*authority);
    spl_token::instruction::transfer(&spl_token::id(), &s, &d, &a, &[], amount).map(|i| Instruction {
        program_id: i.program_id.to_bytes(),
        accounts: i.accounts.iter().map(|x| AccountMeta { pubkey: x.pubkey.to_bytes(), is_signer: x.is_signer, is_writable: x.is_writable }).collect(),
        data: i.data,
    })
}

/// Relies on the system program's `transfer`: bincode of `Transfer { lamports }`.
#[verifier::external_body]
pub(crate) fn system_transfer(from: &[u8; 32], to: &[u8; 32], lamports: u64) -> (r: Instruction)
    ensures
        r@ == system_transfer_view(from@, to@, lamports),
{
    let f = solana_sdk::pubkey::Pubkey::new_from_array(*from);
    let t = solana_sdk::pubkey::Pubkey::new_from_array(*to);
    let i = solana_system_interface::instruction::transfer(&f, &t, lamports);
    Instruction {
        program_id: i.program_id.to_bytes(),
        accounts: i.accounts.iter().map(|x| AccountMeta { pubkey: x.pubkey.to_bytes(), is_signer: x.is_signer, is_writable: x.is_writable }).collect(),
        data: i.data,
    }
}

} // verus!
