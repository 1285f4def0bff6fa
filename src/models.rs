//! Requests, responses and the response envelope shared by all handlers.
use vstd::prelude::*;

verus! {

/// How a request fails outside the envelope: malformed input, or a failure
/// of the SDK while building.
#[derive(Clone, Copy, Debug, PartialEq, Eq, Structural)]
pub enum Status {
    BadRequest,
    InternalServerError,
}

impl Status {
    /// The HTTP status code.
    pub fn code(&self) -> (r: u16)
        ensures
            *self == Status::BadRequest ==> r == 400,
            *self == Status::InternalServerError ==> r == 500,
    {
        match self {
            Status::BadRequest => 400,
            Status::InternalServerError => 500,
        }
    }
}

/// The uniform envelope: `success` with `data`, or a failure with `error`.
#[derive(Clone, Debug)]
pub struct ApiResponse<T> {
    pub success: bool,
    pub data: Option<T>,
    pub error: Option<String>,
}

/// A response that reports a domain failure with the given message.
pub open spec fn is_failure<T>(resp: ApiResponse<T>, message: Seq<char>) -> bool {
    &&& !resp.success
    &&& resp.data is None
    &&& resp.error matches Some(e) && e@ == message
}

/// A successful response carrying `data`.
pub open spec fn is_success<T>(resp: ApiResponse<T>) -> bool {
    &&& resp.success
    &&& resp.data is Some
    &&& resp.error is None
}

impl<T> ApiResponse<T> {
    pub fn success(data: T) -> (r: Self)
        ensures
            is_success(r),
            r.data == Some(data),
    {
        ApiResponse { success: true, data: Some(data), error: None }
    }

    pub fn failure(message: &str) -> (r: Self)
        ensures
            is_failure(r, message@),
    {
        ApiResponse { success: false, data: None, error: Some(message.to_owned()) }
    }
}

#[derive(Clone, Debug)]
pub struct SignMessageRequest {
    pub message: String,
    pub secret: String,
}

#[derive(Clone, Debug)]
pub struct SignMessageData {
    pub signature: String,
    pub public_key: String,
    pub message: String,
}

#[derive(Clone, Debug)]
pub struct VerifyMessageRequest {
    pub pubkey: String,
    pub signature: String,
    pub message: String,
}

#[derive(Clone, Debug)]
pub struct VerifyMessageData {
    pub valid: bool,
    pub message: String,
    pub pubkey: String,
}

#[derive(Clone, Debug)]
pub struct CreateTokenRequest {
    pub mint_authority: String,
    pub mint: String,
    pub decimals: u8,
}

#[derive(Clone, Debug)]
pub struct MintTokenRequest {
    pub mint: String,
    pub destination: String,
    pub authority: String,
    pub amount: u64,
}

#[derive(Clone, Debug)]
pub struct SendSolRequest {
    pub from: String,
    pub to: String,
    pub lamports: u64,
}

#[derive(Clone, Debug)]
pub struct SendTokenRequest {
    pub mint: String,
    pub owner: String,
    pub destination: String,
    pub amount: u64,
}

/// An account of an instruction, in text.
#[derive(Clone, Debug)]
pub struct AccountMetaData {
    pub pubkey: String,
    pub is_signer: bool,
    pub is_writable: bool,
}

/// An instruction in text: program, accounts, base64 payload.
#[derive(Clone, Debug)]
pub struct InstructionData {
    pub program_id: String,
    pub accounts: Vec<AccountMetaData>,
    pub instruction_data: String,
}

/// A SOL transfer in text: the accounts by address only.
#[derive(Clone, Debug)]
pub struct SolTransferData {
    pub program_id: String,
    pub accounts: Vec<String>,
    pub instruction_data: String,
}

/// A token account of a transfer, with its signer flag.
#[derive(Clone, Debug)]
pub struct TokenAccountInfo {
    pub pubkey: String,
    pub is_signer: bool,
}

/// A token transfer in text.
#[derive(Clone, Debug)]
pub struct TokenTransferData {
    pub program_id: String,
    pub accounts: Vec<TokenAccountInfo>,
    pub instruction_data: String,
}

} // verus!
