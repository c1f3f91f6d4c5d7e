//! The request logic of the notary service: signing the proof that the
//! notarization engine produced and answering with hex-encoded strings.
//! The engine itself and the transport are not part of it.

use crate::pubkey::{bytes_equal, Pubkey};
use ed25519_dalek::{Keypair, PublicKey, SecretKey, Signer};
use vstd::prelude::*;

verus! {

/// The public key that belongs to an Ed25519 secret key.
pub uninterp spec fn ed25519_public_key(secret: Seq<u8>) -> Seq<u8>;

/// The Ed25519 signature over `message` under the secret key `secret`.
pub uninterp spec fn ed25519_signature(secret: Seq<u8>, message: Seq<u8>) -> Seq<u8>;

/// The sixteen lower-case hexadecimal digits, in order.
pub open spec fn hex_digits() -> Seq<char> {
    seq!['0', '1', '2', '3', '4', '5', '6', '7', '8', '9', 'a', 'b', 'c', 'd', 'e', 'f']
}

/// The lower-case hexadecimal text of a byte string: two digits for each
/// byte, the high one first.
pub open spec fn hex_text(bytes: Seq<u8>) -> Seq<char> {
    Seq::new(
        2 * bytes.len(),
        |i: int|
            if i % 2 == 0 {
                hex_digits()[bytes[i / 2] as int / 16]
            } else {
                hex_digits()[bytes[i / 2] as int % 16]
            },
    )
}

/// A hexadecimal text is twice as long as its bytes and stands for no other
/// bytes: two byte strings with the same text are the same.
pub proof fn lemma_hex_text_injective(first: Seq<u8>, second: Seq<u8>)
    requires
        hex_text(first) == hex_text(second),
    ensures
        hex_text(first).len() == 2 * first.len(),
        first == second,
{
    assert(hex_text(first).len() == 2 * first.len());
    assert(hex_text(second).len() == 2 * second.len());
    assert forall|x: int, y: int| 0 <= x < 16 && 0 <= y < 16 && hex_digits()[x] == hex_digits()[y]
        implies x == y by {
        let digits = hex_digits();
        assert(digits[0] == '0' && digits[1] == '1' && digits[2] == '2' && digits[3] == '3');
        assert(digits[4] == '4' && digits[5] == '5' && digits[6] == '6' && digits[7] == '7');
        assert(digits[8] == '8' && digits[9] == '9' && digits[10] == 'a' && digits[11] == 'b');
        assert(digits[12] == 'c' && digits[13] == 'd' && digits[14] == 'e' && digits[15] == 'f');
    }
    assert forall|i: int| 0 <= i < first.len() implies first[i] == second[i] by {
        let a = first[i] as int;
        let b = second[i] as int;
        assert(hex_text(first)[2 * i] == hex_digits()[a / 16]);
        assert(hex_text(second)[2 * i] == hex_digits()[b / 16]);
        assert(hex_text(first)[2 * i + 1] == hex_digits()[a % 16]);
        assert(hex_text(second)[2 * i + 1] == hex_digits()[b % 16]);
        assert(a / 16 == b / 16);
        assert(a % 16 == b % 16);
    }
    assert(first =~= second);
}

/// Derives a public key with `ed25519_dalek::PublicKey::from`, after
/// decoding the secret key with `SecretKey::from_bytes`. Trusted: thirty-two
/// bytes always decode, and the key returned is a function of them alone.
#[verifier::external_body]
fn derive_public_key(secret: &[u8; 32]) -> (derived: Option<[u8; 32]>)
    ensures
        derived.is_some(),
        derived.unwrap()@ == ed25519_public_key(secret@),
{
    match SecretKey::from_bytes(secret) {
        Ok(key) => Some(PublicKey::from(&key).to_bytes()),
        Err(_) => None,
    }
}

/// Signs with `ed25519_dalek::Keypair::sign`, on a keypair made of the
/// decoded secret key and the public key derived from it. Trusted:
/// thirty-two bytes always decode, and the signature is a function of the
/// secret key and the message alone.
#[verifier::external_body]
fn sign(secret: &[u8; 32], message: &[u8]) -> (signed: Option<[u8; 64]>)
    ensures
        signed.is_some(),
        signed.unwrap()@ == ed25519_signature(secret@, message@),
{
    match SecretKey::from_bytes(secret) {
        Ok(key) => {
            let public = PublicKey::from(&key);
            Some(Keypair { secret: key, public }.sign(message).to_bytes())
        },
        Err(_) => None,
    }
}

/// Encodes with `hex::encode`. Trusted: the text holds two lower-case
/// hexadecimal digits for each byte, the high one first.
#[verifier::external_body]
fn hex_encode(bytes: &[u8]) -> (text: String)
    ensures
        text@ == hex_text(bytes@),
{
    hex::encode(bytes)
}

/// The notary's signing key with the public key that belongs to it.
pub struct NotaryKeypair {
    secret: [u8; 32],
    public: [u8; 32],
}

/// How the service answers a request.
#[derive(Clone, Copy, Debug, PartialEq, Eq, Structural)]
pub enum StatusCode {
    /// The request was served.
    Success,
    /// The request failed inside the service; nothing else is said.
    InternalServerError,
}

impl StatusCode {
    /// The number of each status.
    pub open spec fn number(self) -> u16 {
        match self {
            StatusCode::Success => 200,
            StatusCode::InternalServerError => 500,
        }
    }

    /// The number of this status.
    pub fn as_u16(&self) -> (code: u16)
        ensures
            code == self.number(),
    {
        match self {
            StatusCode::Success => 200,
            StatusCode::InternalServerError => 500,
        }
    }
}

/// A request to notarize a captured session.
#[derive(Debug, PartialEq, Eq)]
pub struct NotarizeRequest {
    pub session_id: String,
    pub transcript_data: Vec<u8>,
}

/// The signed proof of a notarized session.
#[derive(Debug, PartialEq, Eq)]
pub struct NotarizeResponse {
    pub proof: Vec<u8>,
    pub signature: String,
    pub notary_pubkey: String,
}

impl NotaryKeypair {
    /// The bytes of the secret key.
    pub closed spec fn secret_bytes(&self) -> Seq<u8> {
        self.secret@
    }

    /// The bytes of the public key.
    pub closed spec fn public_bytes(&self) -> Seq<u8> {
        self.public@
    }

    /// The public key is the one that belongs to the secret key.
    pub open spec fn wf(&self) -> bool {
        self.public_bytes() == ed25519_public_key(self.secret_bytes())
    }

    /// Reads a keypair from its sixty-four bytes, the secret key first. It
    /// is accepted if and only if the public half is the key that belongs
    /// to the secret half.
    pub fn from_bytes(bytes: &[u8; 64]) -> (outcome: Option<NotaryKeypair>)
        ensures
            outcome.is_some() == (bytes@.subrange(32, 64) == ed25519_public_key(
                bytes@.subrange(0, 32),
            )),
            outcome matches Some(keypair) ==> keypair.wf() && keypair.secret_bytes()
                == bytes@.subrange(0, 32) && keypair.public_bytes() == bytes@.subrange(32, 64),
    {
        let mut secret = [0u8; 32];
        let mut public = [0u8; 32];
        let mut i: usize = 0;
        while i < 32
            invariant
                i <= 32,
                forall|k: int| 0 <= k < i ==> secret@[k] == bytes@[k],
                forall|k: int| 0 <= k < i ==> public@[k] == bytes@[32 + k],
            decreases 32 - i,
        {
            secret[i] = bytes[i];
            public[i] = bytes[32 + i];
            i += 1;
        }
        proof {
            assert(secret@ =~= bytes@.subrange(0, 32));
            assert(public@ =~= bytes@.subrange(32, 64));
        }
        match derive_public_key(&secret) {
            Some(derived) => {
                if bytes_equal(&derived, &public) {
                    Some(NotaryKeypair { secret, public })
                } else {
                    None
                }
            },
            None => None,
        }
    }

    /// The keypair's sixty-four bytes, the secret key first.
    pub fn to_bytes(&self) -> (bytes: [u8; 64])
        ensures
            bytes@ == self.secret_bytes() + self.public_bytes(),
    {
        let mut bytes = [0u8; 64];
        let mut i: usize = 0;
        while i < 32
            invariant
                i <= 32,
                forall|k: int| 0 <= k < i ==> bytes@[k] == self.secret@[k],
                forall|k: int| 0 <= k < i ==> bytes@[32 + k] == self.public@[k],
            decreases 32 - i,
        {
            bytes[i] = self.secret[i];
            bytes[32 + i] = self.public[i];
            i += 1;
        }
        proof {
            assert(bytes@ =~= self.secret@ + self.public@);
        }
        bytes
    }

    /// The notary's public key, as the registry's configuration holds it.
    pub fn public_key(&self) -> (key: Pubkey)
        ensures
            key@ == self.public_bytes(),
    {
        Pubkey::new_from_array(self.public)
    }
}

/// The liveness probe: the service answers that it is up.
pub fn health_check() -> (status: StatusCode)
    ensures
        status == StatusCode::Success,
{
    StatusCode::Success
}

/// The answer to a notarize request once the proof has been signed: the
/// proof as it is, the signature and the notary's public key in
/// hexadecimal.
pub fn respond(keypair: &NotaryKeypair, proof: Vec<u8>, signature: &[u8; 64]) -> (response:
    NotarizeResponse)
    ensures
        response.proof == proof,
        response.signature@ == hex_text(signature@),
        response.notary_pubkey@ == hex_text(keypair.public_bytes()),
{
    let signature_hex = hex_encode(signature.as_slice());
    let notary_pubkey = hex_encode(keypair.public.as_slice());
    NotarizeResponse { proof, signature: signature_hex, notary_pubkey }
}

/// Answers a notarize request from what the notarization engine made of
/// the transcript. If the engine failed, whatever the reason, the answer is
/// an internal error and nothing of a proof. If it produced a proof, the
/// answer is that proof, signed.
pub fn notarize<E>(keypair: &NotaryKeypair, engine_outcome: Result<Vec<u8>, E>) -> (outcome: Result<
    NotarizeResponse,
    StatusCode,
>)
    ensures
        engine_outcome.is_err() ==> outcome == Err::<NotarizeResponse, StatusCode>(
            StatusCode::InternalServerError,
        ),
        engine_outcome matches Ok(proof) ==> {
            &&& outcome matches Ok(response)
            &&& response.proof == proof
            &&& response.signature@ == hex_text(
                ed25519_signature(keypair.secret_bytes(), proof@),
            )
            &&& response.notary_pubkey@ == hex_text(keypair.public_bytes())
        },
{
    let proof = match engine_outcome {
        Ok(proof) => proof,
        Err(_) => {
            return Err(StatusCode::InternalServerError);
        },
    };
    let signature = match sign(&keypair.secret, proof.as_slice()) {
        Some(signature) => signature,
        None => {
            return Err(StatusCode::InternalServerError);
        },
    };
    Ok(respond(keypair, proof, &signature))
}

/// The notary's public key in hexadecimal: the same text at every call on
/// the same keypair.
pub fn get_pubkey(keypair: &NotaryKeypair) -> (text: String)
    ensures
        text@ == hex_text(keypair.public_bytes()),
{
    hex_encode(keypair.public.as_slice())
}

} // verus!
