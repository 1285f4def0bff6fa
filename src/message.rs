//! Signing a message with a base58 keypair, and verifying a signature.
use vstd::prelude::*;

use crate::keys::{keypair_from_base58, parse_pubkey};
use crate::models::{
    is_failure, is_success, ApiResponse, SignMessageData, SignMessageRequest, Status,
    VerifyMessageData, VerifyMessageRequest,
};
use crate::sdk::{
    address_text, address_text_of, base64_bytes, base64_decoded, base64_of, base64_text,
    decoded_address, decoded_keypair, keypair_pubkey, sign_bytes, signature_of, signature_valid,
    verify_bytes,
};
use vstd::utf8::encode_utf8;

verus! {

/// What a signing response holds for a message and the keypair bytes: the
/// signature and public key in text, each of which decodes back, and a
/// signature that verifies.
pub open spec fn signed_by(message: Seq<char>, keypair: Seq<u8>, d: SignMessageData) -> bool {
    let sig = signature_of(keypair, encode_utf8(message));
    let pk = keypair.subrange(32, 64);
    &&& d.signature@ == base64_of(sig)
    &&& d.public_key@ == address_text_of(pk)
    &&& d.message@ == message
    &&& base64_decoded(d.signature@) == Some(sig)
    &&& decoded_address(d.public_key@) == Some(pk)
    &&& sig.len() == 64
    &&& signature_valid(pk, encode_utf8(message), sig)
}

/// The outcome of verification: `None` where an encoding is malformed,
/// else whether the signature holds.
pub open spec fn verify_outcome(pubkey: Seq<char>, signature: Seq<char>, message: Seq<char>) -> Option<bool> {
    match (decoded_address(pubkey), base64_decoded(signature)) {
        (Some(pk), Some(sig)) => if sig.len() == 64 {
            Some(signature_valid(pk, encode_utf8(message), sig))
        } else {
            None
        },
        _ => None,
    }
}

/// Signs the message's UTF-8 bytes with the keypair given in base58.
pub fn sign_message(req: SignMessageRequest) -> (r: Result<ApiResponse<SignMessageData>, Status>)
    ensures
        req.message@.len() == 0 || req.secret@.len() == 0 ==> (r matches Ok(resp) && is_failure(
            resp,
            "Missing required fields"@,
        )),
        req.message@.len() > 0 && req.secret@.len() > 0 ==> match decoded_keypair(req.secret@) {
            None => r == Err::<ApiResponse<SignMessageData>, Status>(Status::BadRequest),
            Some(kp) => r matches Ok(resp) && is_success(resp) && signed_by(
                req.message@,
                kp,
                resp.data->Some_0,
            ),
        },
{
    if req.message.as_str().is_empty() || req.secret.as_str().is_empty() {
        return Ok(ApiResponse::failure("Missing required fields"));
    }
    let keypair = keypair_from_base58(req.secret.as_str())?;
    let message_bytes = req.message.as_str().as_bytes();
    let signature = sign_bytes(&keypair, message_bytes);
    let pubkey = keypair_pubkey(&keypair);
    let data = SignMessageData {
        signature: base64_text(signature.as_slice()),
        public_key: address_text(&pubkey),
        message: req.message,
    };
    Ok(ApiResponse::success(data))
}

/// The signature held in `b`, where `b` has exactly its 64 bytes.
pub fn signature_from_bytes(b: &Vec<u8>) -> (r: Option<[u8; 64]>)
    ensures
        b@.len() == 64 <==> r is Some,
        r matches Some(s) ==> s@ == b@,
{
    if b.len() != 64 {
        return None;
    }
    let mut sig = [0u8; 64];
    let mut i: usize = 0;
    while i < 64
        invariant
            b@.len() == 64,
            0 <= i <= 64,
            sig@.len() == 64,
            forall|j: int| 0 <= j < i ==> sig@[j] == b@[j],
        decreases 64 - i,
    {
        sig.set(i, b[i]);
        i = i + 1;
    }
    assert(sig@ =~= b@);
    Some(sig)
}

/// Checks a base64 signature of the message's UTF-8 bytes under a base58
/// public key. A signature that does not hold is `valid: false`, not an error.
pub fn verify_message(req: VerifyMessageRequest) -> (r: Result<ApiResponse<VerifyMessageData>, Status>)
    ensures
        match verify_outcome(req.pubkey@, req.signature@, req.message@) {
            None => r == Err::<ApiResponse<VerifyMessageData>, Status>(Status::BadRequest),
            Some(valid) => r matches Ok(resp) && is_success(resp) && resp.data->Some_0.valid
                == valid && resp.data->Some_0.message@ == req.message@
                && resp.data->Some_0.pubkey@ == req.pubkey@,
        },
{
    let pubkey = parse_pubkey(req.pubkey.as_str())?;
    let signature_bytes = match base64_bytes(req.signature.as_str()) {
        Some(b) => b,
        None => return Err(Status::BadRequest),
    };
    let signature = match signature_from_bytes(&signature_bytes) {
        Some(s) => s,
        None => return Err(Status::BadRequest),
    };
    let valid = verify_bytes(&signature, &pubkey, req.message.as_str().as_bytes());
    Ok(ApiResponse::success(VerifyMessageData { valid, message: req.message, pubkey: req.pubkey }))
}

/// A message signed by `sign_message` verifies: handing the returned public
/// key, signature and message to `verify_message` gives `valid: true`.
pub proof fn lemma_sign_then_verify(message: Seq<char>, keypair: Seq<u8>, d: SignMessageData)
    requires
        signed_by(message, keypair, d),
    ensures
        verify_outcome(d.public_key@, d.signature@, d.message@) == Some(true),
{
}

} // verus!
