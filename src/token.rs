//! Token mint creation and minting instructions, rendered as text.
use vstd::prelude::*;

use crate::keys::parse_pubkey;
use crate::models::{
    is_failure, is_success, AccountMetaData, ApiResponse, CreateTokenRequest, InstructionData,
    MintTokenRequest, Status,
};
use crate::sdk::{
    address_text, address_text_of, base64_decoded, base64_of, base64_text, decoded_address,
    initialize_mint, initialize_mint_view, mint_to, mint_to_view, Instruction, InstructionView,
};

verus! {

/// `d` is the text form of the instruction `iv`: every address in base58,
/// the accounts in order with both flags, the payload in base64.
pub open spec fn describes(d: InstructionData, iv: InstructionView) -> bool {
    &&& d.program_id@ == address_text_of(iv.program_id)
    &&& d.accounts@.len() == iv.accounts.len()
    &&& forall|j: int|
        0 <= j < iv.accounts.len() ==> {
            &&& (#[trigger] d.accounts@[j]).pubkey@ == address_text_of(iv.accounts[j].pubkey)
            &&& d.accounts@[j].is_signer == iv.accounts[j].is_signer
            &&& d.accounts@[j].is_writable == iv.accounts[j].is_writable
        }
    &&& d.instruction_data@ == base64_of(iv.data)
    &&& base64_decoded(d.instruction_data@) == Some(iv.data)
}

/// Renders an instruction as text.
pub fn instruction_to_response(instruction: Instruction) -> (r: InstructionData)
    ensures
        describes(r, instruction@),
{
    let mut accounts: Vec<AccountMetaData> = Vec::new();
    let n = instruction.accounts.len();
    let mut i: usize = 0;
    while i < n
        invariant
            n == instruction.accounts@.len(),
            0 <= i <= n,
            accounts@.len() == i,
            forall|j: int|
                0 <= j < i ==> {
                    &&& (#[trigger] accounts@[j]).pubkey@ == address_text_of(
                        instruction.accounts@[j].pubkey@,
                    )
                    &&& accounts@[j].is_signer == instruction.accounts@[j].is_signer
                    &&& accounts@[j].is_writable == instruction.accounts@[j].is_writable
                },
        decreases n - i,
    {
        let m = instruction.accounts[i];
        accounts.push(
            AccountMetaData {
                pubkey: address_text(&m.pubkey),
                is_signer: m.is_signer,
                is_writable: m.is_writable,
            },
        );
        i = i + 1;
    }
    InstructionData {
        program_id: address_text(&instruction.program_id),
        accounts,
        instruction_data: base64_text(instruction.data.as_slice()),
    }
}

/// Builds `InitializeMint` for a mint whose mint and freeze authority is
/// `mint_authority`. A malformed address is a bad request.
pub fn create_token(req: CreateTokenRequest) -> (r: Result<ApiResponse<InstructionData>, Status>)
    ensures
        match (decoded_address(req.mint_authority@), decoded_address(req.mint@)) {
            (Some(authority), Some(mint)) => r matches Ok(resp) && is_success(resp) && describes(
                resp.data->Some_0,
                initialize_mint_view(mint, authority, req.decimals),
            ) && resp.data->Some_0.accounts@[0].pubkey@ == req.mint@,
            _ => r == Err::<ApiResponse<InstructionData>, Status>(Status::BadRequest),
        },
{
    let mint_authority = parse_pubkey(req.mint_authority.as_str())?;
    let mint = parse_pubkey(req.mint.as_str())?;
    match initialize_mint(&mint, &mint_authority, req.decimals) {
        Ok(instruction) => Ok(ApiResponse::success(instruction_to_response(instruction))),
        Err(_) => Err(Status::InternalServerError),
    }
}

/// Builds `MintTo` of `amount` into `destination`, signed by `authority`.
/// A malformed address is a bad request; with well-formed addresses, a zero
/// amount is a domain failure.
pub fn mint_token(req: MintTokenRequest) -> (r: Result<ApiResponse<InstructionData>, Status>)
    ensures
        match (
            decoded_address(req.mint@),
            decoded_address(req.destination@),
            decoded_address(req.authority@),
        ) {
            (Some(mint), Some(destination), Some(authority)) => if req.amount == 0 {
                r matches Ok(resp) && is_failure(resp, "Amount must be greater than 0"@)
            } else {
                r matches Ok(resp) && is_success(resp) && describes(
                    resp.data->Some_0,
                    mint_to_view(mint, destination, authority, req.amount),
                ) && resp.data->Some_0.accounts@[0].pubkey@ == req.mint@
                    && resp.data->Some_0.accounts@[1].pubkey@ == req.destination@
                    && resp.data->Some_0.accounts@[2].pubkey@ == req.authority@
            },
            _ => r == Err::<ApiResponse<InstructionData>, Status>(Status::BadRequest),
        },
{
    let mint = parse_pubkey(req.mint.as_str())?;
    let destination = parse_pubkey(req.destination.as_str())?;
    let authority = parse_pubkey(req.authority.as_str())?;
    if req.amount == 0 {
        return Ok(ApiResponse::failure("Amount must be greater than 0"));
    }
    match mint_to(&mint, &destination, &authority, req.amount) {
        Ok(instruction) => Ok(ApiResponse::success(instruction_to_response(instruction))),
        Err(_) => Err(Status::InternalServerError),
    }
}

} // verus!
