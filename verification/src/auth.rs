//! The bearer credential: a compact, signed, three-segment token.
//!
//! A token is made in four steps. The signing identity is read from its
//! decrypted blobs; the claims are derived from the identity and the clock;
//! header and claims are written as two JSON objects, each encoded on its own
//! and joined by a dot; the result is signed and the signature appended.

use crate::clock::unix_seconds_now;
use crate::codec::{
    base64_len, base64url_encode, base64url_text, decimal, decimal_text, is_base64url,
    json_member, json_member_text, json_string, json_string_text,
};
use crate::segments::{
    dot_count, is_segment, lemma_segments_append, lemma_three_segments, segments_of, token_text,
};
use crate::signer::{ec_pem_accepted, sign, Algorithm};
use vstd::prelude::*;
use vstd::utf8::encode_utf8;

verus! {

/// The number of seconds in an hour: the lifetime of a token.
pub const ONE_HOUR: u64 = 3600;

/// Why no token could be made.
#[derive(Clone, Copy, Debug, PartialEq, Eq, Structural)]
pub enum TokenError {
    /// A protected blob could not be decrypted.
    AssetDecryption,
    /// The identity document is malformed or lacks a field.
    AssetParse,
    /// The clock cannot be read as an instant after the epoch.
    Clock,
    /// The private key is no elliptic-curve key on the expected curve.
    KeyParse,
    /// The signing operation itself failed.
    Signing,
}

/// The signing identity, as the identity document states it.
#[derive(Debug)]
pub struct TokenAssets {
    pub key_id: String,
    pub service_id: String,
    pub team_id: String,
}

/// The signing identity together with the private key.
#[derive(Debug)]
pub struct SigningAssets {
    pub identity: TokenAssets,
    /// The PEM text of the private key.
    pub private_key: Vec<u8>,
}

#[derive(Debug)]
pub struct Header {
    /// Always "JWT"
    pub typ: String,
    /// Always ES256
    pub alg: Algorithm,
    pub kid: String,
    pub id: String,
}

#[derive(Debug)]
pub struct Claims {
    /// Issuer claim key.
    pub iss: String,
    /// Issued-at claim key
    pub iat: u64,
    /// Expiration time claim key
    pub exp: u64,
    /// Subject public claim key
    pub sub: String,
}

#[derive(Debug)]
pub struct Token {
    pub header: Header,
    pub claims: Claims,
}

/// A signing identity as plain text.
pub struct Identity {
    pub key_id: Seq<char>,
    pub service_id: Seq<char>,
    pub team_id: Seq<char>,
}

/// A header as plain values.
pub struct HeaderFields {
    pub typ: Seq<char>,
    pub alg: Algorithm,
    pub kid: Seq<char>,
    pub id: Seq<char>,
}

/// Claims as plain values.
pub struct ClaimFields {
    pub iss: Seq<char>,
    pub iat: nat,
    pub exp: nat,
    pub sub: Seq<char>,
}

/// Header and claims as plain values.
pub struct TokenFields {
    pub header: HeaderFields,
    pub claims: ClaimFields,
}

impl View for TokenAssets {
    type V = Identity;

    open spec fn view(&self) -> Identity {
        Identity { key_id: self.key_id@, service_id: self.service_id@, team_id: self.team_id@ }
    }
}

impl View for Header {
    type V = HeaderFields;

    open spec fn view(&self) -> HeaderFields {
        HeaderFields { typ: self.typ@, alg: self.alg, kid: self.kid@, id: self.id@ }
    }
}

impl View for Claims {
    type V = ClaimFields;

    open spec fn view(&self) -> ClaimFields {
        ClaimFields { iss: self.iss@, iat: self.iat as nat, exp: self.exp as nat, sub: self.sub@ }
    }
}

impl View for Token {
    type V = TokenFields;

    open spec fn view(&self) -> TokenFields {
        TokenFields { header: self.header@, claims: self.claims@ }
    }
}

/// The header that declares `identity`: type "JWT", algorithm ES256, the key
/// by its id, and as `id` the team, a dot, the service.
pub open spec fn header_of(identity: Identity) -> HeaderFields {
    HeaderFields {
        typ: "JWT"@,
        alg: Algorithm::ES256,
        kid: identity.key_id,
        id: identity.team_id + seq!['.'] + identity.service_id,
    }
}

/// The claims that `identity` makes at `iat`: the team issues, the service
/// is the subject, and the claims expire one hour after they were issued.
pub open spec fn claims_of(identity: Identity, iat: nat) -> ClaimFields {
    ClaimFields {
        iss: identity.team_id,
        iat,
        exp: iat + ONE_HOUR as nat,
        sub: identity.service_id,
    }
}

/// Header and claims of the token that `identity` makes at `iat`.
pub open spec fn token_of(identity: Identity, iat: nat) -> TokenFields {
    TokenFields { header: header_of(identity), claims: claims_of(identity, iat) }
}

/// The identity that `document` states, where it gives all three
/// identifiers as strings.
pub open spec fn identity_in(document: Seq<u8>) -> Option<Identity> {
    identity_of_members(
        json_member_text(document, "key_id"@),
        json_member_text(document, "service_id"@),
        json_member_text(document, "team_id"@),
    )
}

/// A compact JSON object with the members `typ`, `alg`, `kid` and `id`, in
/// this order; each argument is the JSON text of a member's value.
pub open spec fn header_object_text(
    typ: Seq<char>,
    alg: Seq<char>,
    kid: Seq<char>,
    id: Seq<char>,
) -> Seq<char> {
    "{\"typ\":"@ + typ + ",\"alg\":"@ + alg + ",\"kid\":"@ + kid + ",\"id\":"@ + id + "}"@
}

/// A compact JSON object with the members `iss`, `iat`, `exp` and `sub`, in
/// this order; `iss` and `sub` are the JSON texts of the members' values.
pub open spec fn claims_object_text(iss: Seq<char>, iat: nat, exp: nat, sub: Seq<char>) -> Seq<
    char,
> {
    "{\"iss\":"@ + iss + ",\"iat\":"@ + decimal_text(iat) + ",\"exp\":"@ + decimal_text(exp)
        + ",\"sub\":"@ + sub + "}"@
}

/// The header as a compact JSON object: each text written as a JSON string.
pub open spec fn header_json_text(header: HeaderFields) -> Seq<char> {
    header_object_text(
        json_string_text(header.typ),
        json_string_text(header.alg.name_text()),
        json_string_text(header.kid),
        json_string_text(header.id),
    )
}

/// The claims as a compact JSON object: the texts written as JSON strings,
/// the instants as numbers.
pub open spec fn claims_json_text(claims: ClaimFields) -> Seq<char> {
    claims_object_text(
        json_string_text(claims.iss),
        claims.iat,
        claims.exp,
        json_string_text(claims.sub),
    )
}

/// The identity that the three members state, where each is there.
pub open spec fn identity_of_members(
    key_id: Option<Seq<char>>,
    service_id: Option<Seq<char>>,
    team_id: Option<Seq<char>>,
) -> Option<Identity> {
    match (key_id, service_id, team_id) {
        (Some(key_id), Some(service_id), Some(team_id)) => Some(
            Identity { key_id, service_id, team_id },
        ),
        _ => None,
    }
}

/// One segment of a token: the base64url text of a JSON text's bytes.
pub open spec fn segment_text(json: Seq<char>) -> Seq<char> {
    base64url_text(encode_utf8(json))
}

/// What is signed: the header's segment, a dot, the claims' segment. The two
/// objects are encoded apart and never merged into one.
pub open spec fn signing_input_text(token: TokenFields) -> Seq<char> {
    segment_text(header_json_text(token.header)) + seq!['.'] + segment_text(
        claims_json_text(token.claims),
    )
}

/// `token` is `parts` and `signature` put together: the signing input of
/// `parts`, a dot, and the signature; and its three segments are the
/// header's, the claims' and the signature, each of them base64url text and
/// not empty.
pub open spec fn is_token_of(token: Seq<char>, parts: TokenFields, signature: Seq<char>) -> bool {
    &&& is_segment(segment_text(header_json_text(parts.header)))
    &&& is_segment(segment_text(claims_json_text(parts.claims)))
    &&& is_segment(signature)
    &&& token == token_text(signing_input_text(parts), signature)
    &&& dot_count(token) == 2
    &&& segments_of(token) == seq![
        segment_text(header_json_text(parts.header)),
        segment_text(claims_json_text(parts.claims)),
        signature,
    ]
}

/// Whether claims can be issued at the clock's reading `now`: it is an
/// instant at or after the epoch, and so is the instant one hour later.
pub open spec fn can_issue_at(now: Option<u64>) -> bool {
    now matches Some(iat) && iat + ONE_HOUR <= u64::MAX
}

impl Header {
    pub fn new(kid: &str, id: &str) -> (header: Self)
        ensures
            header@ == (HeaderFields { typ: "JWT"@, alg: Algorithm::ES256, kid: kid@, id: id@ }),
    {
        Self { typ: "JWT".to_owned(), alg: Algorithm::ES256, kid: kid.to_owned(), id: id.to_owned() }
    }
}

/// The text held by an optional string.
pub open spec fn text_of(member: Option<String>) -> Option<Seq<char>> {
    match member {
        Some(text) => Some(text@),
        None => None,
    }
}

/// Puts the three members of an identity document together: the identity
/// where each is there, else a parse error.
pub fn assets_from_members(
    key_id: Option<String>,
    service_id: Option<String>,
    team_id: Option<String>,
) -> (assets: Result<TokenAssets, TokenError>)
    ensures
        match identity_of_members(text_of(key_id), text_of(service_id), text_of(team_id)) {
            Some(identity) => assets matches Ok(a) && a@ == identity,
            None => assets == Err::<TokenAssets, TokenError>(TokenError::AssetParse),
        },
{
    match (key_id, service_id, team_id) {
        (Some(key_id), Some(service_id), Some(team_id)) => Ok(
            TokenAssets { key_id, service_id, team_id },
        ),
        _ => Err(TokenError::AssetParse),
    }
}

/// Reads the signing identity from the decrypted identity document: a JSON
/// object whose members `key_id`, `service_id` and `team_id` are strings.
pub fn parse_token_assets(document: &[u8]) -> (assets: Result<TokenAssets, TokenError>)
    ensures
        match identity_in(document@) {
            Some(identity) => assets matches Ok(a) && a@ == identity,
            None => assets == Err::<TokenAssets, TokenError>(TokenError::AssetParse),
        },
{
    let key_id = json_member(document, "key_id");
    let service_id = json_member(document, "service_id");
    let team_id = json_member(document, "team_id");
    assets_from_members(key_id, service_id, team_id)
}

/// The signing identity from what decryption gave of the identity blob:
/// `None` stands for a blob that could not be decrypted, and ends in a
/// decryption error before anything is parsed; a decrypted document is
/// parsed.
pub fn get_token_assets(decrypted: Option<Vec<u8>>) -> (assets: Result<TokenAssets, TokenError>)
    ensures
        match decrypted {
            Some(document) => match identity_in(document@) {
                Some(identity) => assets matches Ok(a) && a@ == identity,
                None => assets == Err::<TokenAssets, TokenError>(TokenError::AssetParse),
            },
            None => assets == Err::<TokenAssets, TokenError>(TokenError::AssetDecryption),
        },
{
    match decrypted {
        Some(document) => parse_token_assets(document.as_slice()),
        None => Err(TokenError::AssetDecryption),
    }
}

/// Loads the signing assets from what decryption gave: `None` stands for a
/// blob that could not be decrypted. Decryption is looked at first, for both
/// blobs, then the identity document.
pub fn load_assets(identity_document: Option<Vec<u8>>, private_key: Option<Vec<u8>>) -> (assets:
    Result<SigningAssets, TokenError>)
    ensures
        match (identity_document, private_key) {
            (Some(document), Some(key)) => match identity_in(document@) {
                Some(identity) => assets matches Ok(a) && a.identity@ == identity
                    && a.private_key@ == key@,
                None => assets == Err::<SigningAssets, TokenError>(TokenError::AssetParse),
            },
            _ => assets == Err::<SigningAssets, TokenError>(TokenError::AssetDecryption),
        },
{
    match private_key {
        Some(key) => {
            match get_token_assets(identity_document) {
                Ok(identity) => Ok(SigningAssets { identity, private_key: key }),
                Err(e) => Err(e),
            }
        },
        None => Err(TokenError::AssetDecryption),
    }
}

/// The claims for `token_assets`, issued at `now` and expiring one hour
/// later. `now` is the clock's reading in whole seconds since the epoch, and
/// `None` where the clock stands before the epoch.
pub fn claims_at(token_assets: &TokenAssets, now: Option<u64>) -> (claims: Result<
    Claims,
    TokenError,
>)
    ensures
        claims.is_ok() == can_issue_at(now),
        claims matches Ok(c) ==> c@ == claims_of(token_assets@, now.unwrap() as nat) && c.exp
            - c.iat == 3600,
        claims matches Err(e) ==> e == TokenError::Clock,
{
    let iat = match now {
        Some(iat) => iat,
        None => {
            return Err(TokenError::Clock);
        },
    };
    match iat.checked_add(ONE_HOUR) {
        Some(exp) => Ok(
            Claims {
                iss: token_assets.team_id.clone(),
                iat,
                exp,
                sub: token_assets.service_id.clone(),
            },
        ),
        None => Err(TokenError::Clock),
    }
}

/// The claims for `token_assets`, issued now. Fails where the clock stands
/// before the epoch.
pub fn get_claims(token_assets: &TokenAssets) -> (claims: Result<Claims, TokenError>)
    ensures
        claims matches Ok(c) ==> c@ == claims_of(token_assets@, c.iat as nat) && c.exp - c.iat
            == 3600,
        claims matches Err(e) ==> e == TokenError::Clock,
{
    claims_at(token_assets, unix_seconds_now())
}

/// The header for `token_assets`.
pub fn header_for(token_assets: &TokenAssets) -> (header: Header)
    ensures
        header@ == header_of(token_assets@),
{
    let mut id = token_assets.team_id.clone();
    id.append(".");
    id.append(token_assets.service_id.as_str());
    proof {
        reveal_strlit(".");
        assert("."@ =~= seq!['.']);
    }
    Header::new(token_assets.key_id.as_str(), id.as_str())
}

/// Header and claims for `token_assets`, the claims issued at `now`.
pub fn token_at(token_assets: &TokenAssets, now: Option<u64>) -> (token: Result<Token, TokenError>)
    ensures
        token.is_ok() == can_issue_at(now),
        token matches Ok(t) ==> t@ == token_of(token_assets@, now.unwrap() as nat),
        token matches Err(e) ==> e == TokenError::Clock,
{
    let header = header_for(token_assets);
    match claims_at(token_assets, now) {
        Ok(claims) => Ok(Token { header, claims }),
        Err(e) => Err(e),
    }
}

/// Header and claims for `token_assets`, the claims issued now.
pub fn get_token(token_assets: &TokenAssets) -> (token: Result<Token, TokenError>)
    ensures
        token matches Ok(t) ==> t@ == token_of(token_assets@, t.claims.iat as nat),
        token matches Err(e) ==> e == TokenError::Clock,
{
    token_at(token_assets, unix_seconds_now())
}

/// The claims of a token expire exactly one hour after they were issued.
pub proof fn lemma_claims_last_one_hour(identity: Identity, iat: nat)
    ensures
        claims_of(identity, iat).exp - claims_of(identity, iat).iat == 3600,
        token_of(identity, iat).claims.exp - token_of(identity, iat).claims.iat == 3600,
{
}

/// Header and claims of a token stem from one identity: the header names its
/// key, and its team and service joined by a dot; the claims name the team
/// as issuer and the service as subject.
pub proof fn lemma_token_parts_agree(identity: Identity, iat: nat)
    ensures
        token_of(identity, iat).header.kid == identity.key_id,
        token_of(identity, iat).header.id == identity.team_id + seq!['.'] + identity.service_id,
        token_of(identity, iat).claims.iss == identity.team_id,
        token_of(identity, iat).claims.sub == identity.service_id,
        token_of(identity, iat).claims.iat == iat,
{
}

/// Writes a header object from the JSON texts of its members' values.
pub fn header_object(typ: &str, alg: &str, kid: &str, id: &str) -> (json: String)
    ensures
        json@ == header_object_text(typ@, alg@, kid@, id@),
        json@.len() > 0,
{
    proof {
        reveal_strlit("{\"typ\":");
    }
    let mut json = "{\"typ\":".to_owned();
    json.append(typ);
    json.append(",\"alg\":");
    json.append(alg);
    json.append(",\"kid\":");
    json.append(kid);
    json.append(",\"id\":");
    json.append(id);
    json.append("}");
    json
}

/// Writes a claims object; `iss` and `sub` are the JSON texts of the
/// members' values, the instants are written in decimal.
pub fn claims_object(iss: &str, iat: u64, exp: u64, sub: &str) -> (json: String)
    ensures
        json@ == claims_object_text(iss@, iat as nat, exp as nat, sub@),
        json@.len() > 0,
{
    proof {
        reveal_strlit("{\"iss\":");
    }
    let mut json = "{\"iss\":".to_owned();
    json.append(iss);
    json.append(",\"iat\":");
    json.append(decimal(iat).as_str());
    json.append(",\"exp\":");
    json.append(decimal(exp).as_str());
    json.append(",\"sub\":");
    json.append(sub);
    json.append("}");
    json
}

/// Writes the header as JSON.
pub fn header_json(header: &Header) -> (json: String)
    ensures
        json@ == header_json_text(header@),
        json@.len() > 0,
{
    let typ = json_string(header.typ.as_str());
    let alg = json_string(header.alg.name());
    let kid = json_string(header.kid.as_str());
    let id = json_string(header.id.as_str());
    header_object(typ.as_str(), alg.as_str(), kid.as_str(), id.as_str())
}

/// Writes the claims as JSON.
pub fn claims_json(claims: &Claims) -> (json: String)
    ensures
        json@ == claims_json_text(claims@),
        json@.len() > 0,
{
    let iss = json_string(claims.iss.as_str());
    let sub = json_string(claims.sub.as_str());
    claims_object(iss.as_str(), claims.iat, claims.exp, sub.as_str())
}

/// A text that is not empty has bytes in UTF-8.
pub proof fn lemma_utf8_not_empty(s: Seq<char>)
    requires
        s.len() > 0,
    ensures
        encode_utf8(s).len() > 0,
{
    assert(encode_utf8(s) == vstd::utf8::encode_scalar(s[0] as u32) + encode_utf8(
        s.drop_first(),
    ));
    assert(vstd::utf8::encode_scalar(s[0] as u32).len() > 0);
}

/// Encodes a JSON text as one segment of a token: base64url, unpadded. The
/// segment of a text that is not empty is not empty.
pub fn encode_as_b64(json: &str) -> (segment: String)
    ensures
        segment@ == segment_text(json@),
        is_base64url(segment@),
        segment@.len() == base64_len(encode_utf8(json@).len()),
        json@.len() > 0 ==> is_segment(segment@),
{
    proof {
        if json@.len() > 0 {
            lemma_utf8_not_empty(json@);
        }
    }
    base64url_encode(json.as_bytes())
}

/// Joins the two encoded segments by one dot.
pub fn join_segments(header_segment: &str, claims_segment: &str) -> (input: String)
    ensures
        input@ == header_segment@ + seq!['.'] + claims_segment@,
        is_base64url(header_segment@) && is_base64url(claims_segment@) ==> dot_count(input@) == 1
            && segments_of(input@) == seq![header_segment@, claims_segment@],
{
    let mut input = header_segment.to_owned();
    input.append(".");
    input.append(claims_segment);
    proof {
        reveal_strlit(".");
        assert("."@ =~= seq!['.']);
        if is_base64url(header_segment@) && is_base64url(claims_segment@) {
            lemma_three_segments(header_segment@, claims_segment@, Seq::<char>::empty());
        }
    }
    input
}

/// Assembles what is signed: header and claims, each written and encoded on
/// its own, joined by one dot.
pub fn signing_input(token: &Token) -> (input: String)
    ensures
        input@ == signing_input_text(token@),
        is_segment(segment_text(header_json_text(token@.header))),
        is_segment(segment_text(claims_json_text(token@.claims))),
        dot_count(input@) == 1,
        segments_of(input@) == seq![
            segment_text(header_json_text(token@.header)),
            segment_text(claims_json_text(token@.claims)),
        ],
{
    let header_chars = encode_as_b64(header_json(&token.header).as_str());
    let claims_chars = encode_as_b64(claims_json(&token.claims).as_str());
    join_segments(header_chars.as_str(), claims_chars.as_str())
}

/// Makes the token for `assets`, issued at `now`: builds header and claims,
/// assembles the signing input and signs it with the private key. `now` is
/// the clock's reading, as for `claims_at`.
pub fn generate_token_at(assets: &SigningAssets, now: Option<u64>) -> (token: Result<
    String,
    TokenError,
>)
    ensures
        !can_issue_at(now) ==> token == Err::<String, TokenError>(TokenError::Clock),
        can_issue_at(now) && !ec_pem_accepted(assets.private_key@) ==> token == Err::<
            String,
            TokenError,
        >(TokenError::KeyParse),
        can_issue_at(now) ==> (token matches Err(e) ==> e == TokenError::KeyParse || e
            == TokenError::Signing),
        token matches Ok(t) ==> exists|signature: Seq<char>| #[trigger]
            is_token_of(t@, token_of(assets.identity@, now.unwrap() as nat), signature),
{
    let parts = match token_at(&assets.identity, now) {
        Ok(parts) => parts,
        Err(e) => {
            return Err(e);
        },
    };
    let input = signing_input(&parts);
    let token = sign(input.as_str(), assets.private_key.as_slice(), parts.header.alg);
    proof {
        if let Ok(ref t) = token {
            let signature = choose|signature: Seq<char>|
                is_segment(signature) && t@ == #[trigger] token_text(input@, signature);
            lemma_segments_append(input@, signature);
            assert(segments_of(t@) =~= seq![
                segment_text(header_json_text(parts@.header)),
                segment_text(claims_json_text(parts@.claims)),
                signature,
            ]);
            assert(is_token_of(t@, token_of(assets.identity@, now.unwrap() as nat), signature));
        }
    }
    token
}

/// Makes the token for `assets`, issued now. No token comes back unless
/// every step succeeded: with a key that is not accepted, the outcome is an
/// error, of the clock or of the key.
pub fn generate_token_for(assets: &SigningAssets) -> (token: Result<String, TokenError>)
    ensures
        !ec_pem_accepted(assets.private_key@) ==> (token matches Err(e) && (e == TokenError::Clock
            || e == TokenError::KeyParse)),
        token matches Ok(t) ==> exists|iat: u64, signature: Seq<char>|
            iat + ONE_HOUR <= u64::MAX && #[trigger] is_token_of(
                t@,
                token_of(assets.identity@, iat as nat),
                signature,
            ),
        token matches Err(e) ==> e == TokenError::Clock || e == TokenError::KeyParse || e
            == TokenError::Signing,
{
    let now = unix_seconds_now();
    let token = generate_token_at(assets, now);
    proof {
        if let Ok(ref t) = token {
            let signature = choose|signature: Seq<char>| #[trigger]
                is_token_of(t@, token_of(assets.identity@, now.unwrap() as nat), signature);
            assert(is_token_of(
                t@,
                token_of(assets.identity@, now.unwrap() as nat),
                signature,
            ));
        }
    }
    token
}

/// Makes a token from what decryption gave, issued now. `None` stands for a
/// blob that could not be decrypted. No token comes back unless every step
/// succeeded: a blob that was not decrypted, or an identity document that
/// cannot be read, ends in its error whatever the clock and the key are; and
/// with a key that is not accepted, the outcome is an error, of the clock or
/// of the key.
pub fn generate_token(identity_document: Option<Vec<u8>>, private_key: Option<Vec<u8>>) -> (token:
    Result<String, TokenError>)
    ensures
        match (identity_document, private_key) {
            (Some(document), Some(key)) => match identity_in(document@) {
                Some(identity) => {
                    &&& !ec_pem_accepted(key@) ==> (token matches Err(e) && (e
                        == TokenError::Clock || e == TokenError::KeyParse))
                    &&& token matches Ok(t) ==> exists|iat: u64, signature: Seq<char>|
                        iat + ONE_HOUR <= u64::MAX && #[trigger] is_token_of(
                            t@,
                            token_of(identity, iat as nat),
                            signature,
                        )
                    &&& token matches Err(e) ==> e == TokenError::Clock || e
                        == TokenError::KeyParse || e == TokenError::Signing
                },
                None => token == Err::<String, TokenError>(TokenError::AssetParse),
            },
            _ => token == Err::<String, TokenError>(TokenError::AssetDecryption),
        },
{
    let assets = match load_assets(identity_document, private_key) {
        Ok(assets) => assets,
        Err(e) => {
            return Err(e);
        },
    };
    let token = generate_token_for(&assets);
    proof {
        if let Ok(ref t) = token {
            let (iat, signature) = choose|iat: u64, signature: Seq<char>|
                iat + ONE_HOUR <= u64::MAX && #[trigger] is_token_of(
                    t@,
                    token_of(assets.identity@, iat as nat),
                    signature,
                );
            assert(is_token_of(t@, token_of(assets.identity@, iat as nat), signature));
        }
    }
    token
}

} // verus!
