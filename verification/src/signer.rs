//! ECDSA signing over curve P-256 with a SHA-256 digest.

use crate::auth::TokenError;
use crate::segments::{dot_count, is_segment, lemma_segments_append, segments_of, token_text};
use vstd::prelude::*;

verus! {

/// `EncodingKey` of jsonwebtoken: a private key, ready for signing. Its
/// inside is not looked at.
#[verifier::external_type_specification]
#[verifier::external_body]
pub struct ExEncodingKey(jsonwebtoken::EncodingKey);

/// `errors::Error` of jsonwebtoken: why a key or a signature could not be
/// had. Its inside is not looked at.
#[verifier::external_type_specification]
#[verifier::external_body]
pub struct ExSigningFault(jsonwebtoken::errors::Error);

/// Whether `pem` is accepted as a PEM-encoded elliptic-curve private key.
pub uninterp spec fn ec_pem_accepted(pem: Seq<u8>) -> bool;

/// `EncodingKey::from_ec_pem` of jsonwebtoken. Trusted: whether a key comes
/// back depends on the bytes alone.
pub assume_specification[ jsonwebtoken::EncodingKey::from_ec_pem ](key: &[u8]) -> (parsed: Result<
    jsonwebtoken::EncodingKey,
    jsonwebtoken::errors::Error,
>)
    ensures
        parsed.is_ok() == ec_pem_accepted(key@),
;

/// The signing algorithm that a header declares.
#[derive(Clone, Copy, Debug, PartialEq, Eq, Structural)]
pub enum Algorithm {
    /// ECDSA over curve P-256 with SHA-256.
    ES256,
}

impl Algorithm {
    /// The algorithm's registered name.
    pub open spec fn name_text(self) -> Seq<char> {
        "ES256"@
    }

    /// The algorithm's registered name, as a header carries it.
    pub fn name(&self) -> (text: &'static str)
        ensures
            text@ == self.name_text(),
    {
        match self {
            Algorithm::ES256 => "ES256",
        }
    }
}

/// What an attempt to sign came to.
#[derive(Debug)]
pub enum SignOutcome {
    /// The signature, in unpadded URL-safe base64.
    Signed(String),
    /// The key was refused: it is no key on the algorithm's curve.
    KeyRejected,
    /// The signing operation itself failed.
    Failed,
}

impl SignOutcome {
    /// A signature is base64url text, and not empty.
    pub open spec fn wf(self) -> bool {
        self matches SignOutcome::Signed(signature) ==> is_segment(signature@)
    }
}

/// Calls `crypto::sign` of jsonwebtoken. Trusted: a signature that comes back
/// is text of the URL-safe base64 alphabet, and not empty. The crate encodes,
/// in unpadded URL-safe base64, the bytes that ring's `format_rs_fixed`
/// wrote: the two scalars of the signature, each as long as the curve's
/// order. Which outcome comes, and which signature, is left open: the
/// signature depends on fresh randomness.
#[verifier::external_body]
pub(crate) fn sign_message(
    message: &[u8],
    key: &jsonwebtoken::EncodingKey,
    algorithm: Algorithm,
) -> (outcome: SignOutcome)
    ensures
        outcome.wf(),
{
    let algorithm = match algorithm {
        Algorithm::ES256 => jsonwebtoken::Algorithm::ES256,
    };
    match jsonwebtoken::crypto::sign(message, key, algorithm) {
        Ok(signature) => SignOutcome::Signed(signature),
        Err(fault) => match fault.kind() {
            jsonwebtoken::errors::ErrorKind::InvalidEcdsaKey => SignOutcome::KeyRejected,
            _ => SignOutcome::Failed,
        },
    }
}

/// Turns the outcome of signing into the token or the error it stands for.
pub fn finish_token(signing_input: &str, outcome: SignOutcome) -> (token: Result<String, TokenError>)
    ensures
        match outcome {
            SignOutcome::Signed(signature) => token matches Ok(t) && t@ == token_text(
                signing_input@,
                signature@,
            ),
            SignOutcome::KeyRejected => token == Err::<String, TokenError>(TokenError::KeyParse),
            SignOutcome::Failed => token == Err::<String, TokenError>(TokenError::Signing),
        },
{
    match outcome {
        SignOutcome::Signed(signature) => {
            let mut token = signing_input.to_owned();
            token.append(".");
            token.append(signature.as_str());
            proof {
                reveal_strlit(".");
                assert("."@ =~= seq!['.']);
            }
            Ok(token)
        },
        SignOutcome::KeyRejected => Err(TokenError::KeyParse),
        SignOutcome::Failed => Err(TokenError::Signing),
    }
}

/// Signs `signing_input` with the PEM-encoded private key and appends the
/// signature. The key is refused exactly where it does not parse, or where
/// the signer finds it to be no key on the algorithm's curve.
pub fn sign(signing_input: &str, private_key: &[u8], algorithm: Algorithm) -> (token: Result<
    String,
    TokenError,
>)
    ensures
        !ec_pem_accepted(private_key@) ==> token == Err::<String, TokenError>(TokenError::KeyParse),
        token matches Ok(t) ==> exists|signature: Seq<char>|
            is_segment(signature) && t@ == #[trigger] token_text(signing_input@, signature),
        token matches Ok(t) ==> dot_count(t@) == dot_count(signing_input@) + 1 && segments_of(
            t@,
        ).drop_last() == segments_of(signing_input@),
        token matches Err(e) ==> e == TokenError::KeyParse || e == TokenError::Signing,
{
    match jsonwebtoken::EncodingKey::from_ec_pem(private_key) {
        Ok(key) => {
            let outcome = sign_message(signing_input.as_bytes(), &key, algorithm);
            let ghost signed = outcome;
            let token = finish_token(signing_input, outcome);
            proof {
                if let SignOutcome::Signed(signature) = signed {
                    lemma_segments_append(signing_input@, signature@);
                }
            }
            token
        },
        Err(_) => Err(TokenError::KeyParse),
    }
}

} // verus!
