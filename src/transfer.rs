//! SOL and token transfer instructions, rendered as text.
use vstd::prelude::*;

use crate::keys::parse_pubkey;
use crate::models::{
    is_failure, is_success, ApiResponse, SendSolRequest, SendTokenRequest, SolTransferData,
    Status, TokenAccountInfo, TokenTransferData,
};
use crate::sdk::{
    address_text, address_text_of, associated_address, associated_token_address, base64_decoded,
    base64_of, base64_text, decoded_address, system_transfer, system_transfer_view, token_transfer,
    token_transfer_view, InstructionView,
};

verus! {

/// `d` is the text form of the SOL transfer `iv`: the accounts by address.
pub open spec fn describes_sol(d: SolTransferData, iv: InstructionView) -> bool {
    &&& d.program_id@ == address_text_of(iv.program_id)
    &&& d.accounts@.len() == iv.accounts.len()
    &&& forall|j: int|
        0 <= j < iv.accounts.len() ==> (#[trigger] d.accounts@[j])@ == address_text_of(
            iv.accounts[j].pubkey,
        )
    &&& d.instruction_data@ == base64_of(iv.data)
    &&& base64_decoded(d.instruction_data@) == Some(iv.data)
}

/// `d` is the text form of the token transfer `iv`: addresses with signer flags.
pub open spec fn describes_token(d: TokenTransferData, iv: InstructionView) -> bool {
    &&& d.program_id@ == address_text_of(iv.program_id)
    &&& d.accounts@.len() == iv.accounts.len()
    &&& forall|j: int|
        0 <= j < iv.accounts.len() ==> {
            &&& (#[trigger] d.accounts@[j]).pubkey@ == address_text_of(iv.accounts[j].pubkey)
            &&& d.accounts@[j].is_signer == iv.accounts[j].is_signer
        }
    &&& d.instruction_data@ == base64_of(iv.data)
    &&& base64_decoded(d.instruction_data@) == Some(iv.data)
}

/// Builds a system transfer of `lamports` from `from` to `to`. A malformed
/// address is a bad request; with well-formed addresses, a zero amount is a
/// domain failure.
pub fn send_sol(req: SendSolRequest) -> (r: Result<ApiResponse<SolTransferData>, Status>)
    ensures
        match (decoded_address(req.from@), decoded_address(req.to@)) {
            (Some(from), Some(to)) => if req.lamports == 0 {
                r matches Ok(resp) && is_failure(resp, "Amount must be greater than 0"@)
            } else {
                r matches Ok(resp) && is_success(resp) && describes_sol(
                    resp.data->Some_0,
                    system_transfer_view(from, to, req.lamports),
                ) && resp.data->Some_0.accounts@[0]@ == req.from@
                    && resp.data->Some_0.accounts@[1]@ == req.to@
            },
            _ => r == Err::<ApiResponse<SolTransferData>, Status>(Status::BadRequest),
        },
{
    let from = parse_pubkey(req.from.as_str())?;
    let to = parse_pubkey(req.to.as_str())?;
    if req.lamports == 0 {
        return Ok(ApiResponse::failure("Amount must be greater than 0"));
    }
    let instruction = system_transfer(&from, &to, req.lamports);
    let mut accounts: Vec<String> = Vec::new();
    let n = instruction.accounts.len();
    let mut i: usize = 0;
    while i < n
        invariant
            n == instruction.accounts@.len(),
            0 <= i <= n,
            accounts@.len() == i,
            forall|j: int|
                0 <= j < i ==> (#[trigger] accounts@[j])@ == address_text_of(
                    instruction.accounts@[j].pubkey@,
                ),
        decreases n - i,
    {
        accounts.push(address_text(&instruction.accounts[i].pubkey));
        i = i + 1;
    }
    let data = SolTransferData {
        program_id: address_text(&instruction.program_id),
        accounts,
        instruction_data: base64_text(instruction.data.as_slice()),
    };
    Ok(ApiResponse::success(data))
}

/// Builds a token transfer of `amount` from the owner's associated token
/// account to the destination's, both for `mint`, signed by the owner. A zero
/// amount is a domain failure whatever the addresses; a malformed address is
/// a bad request.
pub fn send_token(req: SendTokenRequest) -> (r: Result<ApiResponse<TokenTransferData>, Status>)
    ensures
        req.amount == 0 ==> (r matches Ok(resp) && is_failure(
            resp,
            "Amount must be greater than 0"@,
        )),
        req.amount > 0 ==> match (
            decoded_address(req.mint@),
            decoded_address(req.owner@),
            decoded_address(req.destination@),
        ) {
            (Some(mint), Some(owner), Some(destination)) => r matches Ok(resp) && is_success(resp)
                && describes_token(
                resp.data->Some_0,
                token_transfer_view(
                    associated_address(owner, mint),
                    associated_address(destination, mint),
                    owner,
                    req.amount,
                ),
            ) && resp.data->Some_0.accounts@[2].pubkey@ == req.owner@,
            _ => r == Err::<ApiResponse<TokenTransferData>, Status>(Status::BadRequest),
        },
{
    if req.amount == 0 {
        return Ok(ApiResponse::failure("Amount must be greater than 0"));
    }
    let mint = parse_pubkey(req.mint.as_str())?;
    let owner = parse_pubkey(req.owner.as_str())?;
    let destination = parse_pubkey(req.destination.as_str())?;
    let source_account = associated_token_address(&owner, &mint);
    let destination_account = associated_token_address(&destination, &mint);
    let instruction = match token_transfer(&source_account, &destination_account, &owner, req.amount) {
        Ok(i) => i,
        Err(_) => return Err(Status::InternalServerError),
    };
    let mut accounts: Vec<TokenAccountInfo> = Vec::new();
    let n = instruction.accounts.len();
    let mut i: usize = 0;
    while i < n
        invariant
            n == instruction.accounts@.len(),
            0 <= i <= n,
            accounts@.len() == i,
            forall|j: int|
                0 <= j < i ==> {
                    &&& (#[trigger] accounts@[j]).pubkey@ == address_text_of(
                        instruction.accounts@[j].pubkey@,
                    )
                    &&& accounts@[j].is_signer == instruction.accounts@[j].is_signer
                },
        decreases n - i,
    {
        let m = instruction.accounts[i];
        accounts.push(TokenAccountInfo { pubkey: address_text(&m.pubkey), is_signer: m.is_signer });
        i = i + 1;
    }
    let data = TokenTransferData {
        program_id: address_text(&instruction.program_id),
        accounts,
        instruction_data: base64_text(instruction.data.as_slice()),
    };
    Ok(ApiResponse::success(data))
}

} // verus!
