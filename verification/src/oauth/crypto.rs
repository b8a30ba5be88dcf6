//! The relay's signing key: generating it, writing it as JSON Web Keys,
//! reading the public half back, and provisioning a key store once.

use super::encoding::{all_url_safe, base64_url, is_base64_url_of, to_base64_url};
use super::json::{json_literal, json_members, literal, member_text, read_members, text_member};
use super::text::{entries_view, text_of};
use crate::error::OAuthError;
use vstd::prelude::*;
use vstd::string::StringExecFns;

verus! {

/// The size of the generated modulus, in bits.
pub const KEY_BITS: u32 = 2048;

/// The private half of the signing key as a JSON Web Key. Every number is the
/// URL-safe base64 text of its big-endian bytes.
pub struct SecretKey {
    pub kty: String,
    pub n: String,
    pub e: String,
    pub d: String,
    pub p: String,
    pub q: String,
    pub dp: String,
    pub dq: String,
    pub qi: String,
}

/// The public half of the signing key as a JSON Web Key.
pub struct PublicKey {
    pub kid: String,
    pub kty: String,
    pub n: String,
    pub e: String,
}

/// The numbers of an RSA key, each as the big-endian bytes of its value. The
/// factors and the three CRT values are absent from a key that has none.
pub struct RsaParts {
    pub n: Vec<u8>,
    pub e: Vec<u8>,
    pub d: Vec<u8>,
    pub p: Option<Vec<u8>>,
    pub q: Option<Vec<u8>>,
    pub dp: Option<Vec<u8>>,
    pub dq: Option<Vec<u8>>,
    pub qi: Option<Vec<u8>>,
}

/// A record that can be written as a JSON document.
pub trait Encodable {
    /// The JSON document that stands for this record.
    spec fn json(&self) -> Seq<char>;

    /// Writes the record as JSON. Every record can be written, so this
    /// succeeds on every input.
    fn encode(&self) -> (res: Result<String, OAuthError>)
        ensures
            res matches Ok(text) && text@ == self.json(),
    ;
}

/// A secret key document: one object with the members `kty`, `n`, `e`, `d`,
/// `p`, `q`, `dp`, `dq` and `qi`, in that order, each with the given JSON
/// text as its value.
pub open spec fn secret_key_layout(
    kty: Seq<char>,
    n: Seq<char>,
    e: Seq<char>,
    d: Seq<char>,
    p: Seq<char>,
    q: Seq<char>,
    dp: Seq<char>,
    dq: Seq<char>,
    qi: Seq<char>,
) -> Seq<char> {
    "{\"kty\":"@ + kty + ",\"n\":"@ + n + ",\"e\":"@ + e + ",\"d\":"@ + d + ",\"p\":"@ + p
        + ",\"q\":"@ + q + ",\"dp\":"@ + dp + ",\"dq\":"@ + dq + ",\"qi\":"@ + qi + "}"@
}

/// A public key document: one object with the members `kid`, `kty`, `n` and
/// `e`, in that order, each with the given JSON text as its value.
pub open spec fn public_key_layout(
    kid: Seq<char>,
    kty: Seq<char>,
    n: Seq<char>,
    e: Seq<char>,
) -> Seq<char> {
    "{\"kid\":"@ + kid + ",\"kty\":"@ + kty + ",\"n\":"@ + n + ",\"e\":"@ + e + "}"@
}

impl SecretKey {
    /// Lays a secret key document out from the JSON texts of its nine values.
    pub fn layout(
        kty: &str,
        n: &str,
        e: &str,
        d: &str,
        p: &str,
        q: &str,
        dp: &str,
        dq: &str,
        qi: &str,
    ) -> (text: String)
        ensures
            text@ == secret_key_layout(kty@, n@, e@, d@, p@, q@, dp@, dq@, qi@),
    {
        let mut text = String::from_str("{\"kty\":");
        text.append(kty);
        text.append(",\"n\":");
        text.append(n);
        text.append(",\"e\":");
        text.append(e);
        text.append(",\"d\":");
        text.append(d);
        text.append(",\"p\":");
        text.append(p);
        text.append(",\"q\":");
        text.append(q);
        text.append(",\"dp\":");
        text.append(dp);
        text.append(",\"dq\":");
        text.append(dq);
        text.append(",\"qi\":");
        text.append(qi);
        text.append("}");
        text
    }
}

impl PublicKey {
    /// Lays a public key document out from the JSON texts of its four values.
    pub fn layout(kid: &str, kty: &str, n: &str, e: &str) -> (text: String)
        ensures
            text@ == public_key_layout(kid@, kty@, n@, e@),
    {
        let mut text = String::from_str("{\"kid\":");
        text.append(kid);
        text.append(",\"kty\":");
        text.append(kty);
        text.append(",\"n\":");
        text.append(n);
        text.append(",\"e\":");
        text.append(e);
        text.append("}");
        text
    }
}

impl Encodable for SecretKey {
    /// The secret key document in which every value is a JSON string.
    open spec fn json(&self) -> Seq<char> {
        secret_key_layout(
            json_literal(self.kty@),
            json_literal(self.n@),
            json_literal(self.e@),
            json_literal(self.d@),
            json_literal(self.p@),
            json_literal(self.q@),
            json_literal(self.dp@),
            json_literal(self.dq@),
            json_literal(self.qi@),
        )
    }

    fn encode(&self) -> (res: Result<String, OAuthError>) {
        let kty = literal(self.kty.as_str())?;
        let n = literal(self.n.as_str())?;
        let e = literal(self.e.as_str())?;
        let d = literal(self.d.as_str())?;
        let p = literal(self.p.as_str())?;
        let q = literal(self.q.as_str())?;
        let dp = literal(self.dp.as_str())?;
        let dq = literal(self.dq.as_str())?;
        let qi = literal(self.qi.as_str())?;
        Ok(
            SecretKey::layout(
                kty.as_str(),
                n.as_str(),
                e.as_str(),
                d.as_str(),
                p.as_str(),
                q.as_str(),
                dp.as_str(),
                dq.as_str(),
                qi.as_str(),
            ),
        )
    }
}

impl Encodable for PublicKey {
    /// The public key document in which every value is a JSON string.
    open spec fn json(&self) -> Seq<char> {
        public_key_layout(
            json_literal(self.kid@),
            json_literal(self.kty@),
            json_literal(self.n@),
            json_literal(self.e@),
        )
    }

    fn encode(&self) -> (res: Result<String, OAuthError>) {
        let kid = literal(self.kid.as_str())?;
        let kty = literal(self.kty.as_str())?;
        let n = literal(self.n.as_str())?;
        let e = literal(self.e.as_str())?;
        Ok(PublicKey::layout(kid.as_str(), kty.as_str(), n.as_str(), e.as_str()))
    }
}

/// Whether a key carries its two factors and its three CRT values.
pub open spec fn is_complete(parts: RsaParts) -> bool {
    parts.p is Some && parts.q is Some && parts.dp is Some && parts.dq is Some && parts.qi is Some
}

/// Whether `secret` and `public` are the JSON Web Keys of `parts`: every
/// number in URL-safe base64, drawn from its alphabet and of the length its
/// bytes take, the key type `RSA`, the key identifier `dev-1`.
pub open spec fn encodes(parts: RsaParts, secret: SecretKey, public: PublicKey) -> bool {
    &&& is_complete(parts)
    &&& secret.kty@ == "RSA"@
    &&& is_base64_url_of(secret.n@, parts.n@)
    &&& is_base64_url_of(secret.e@, parts.e@)
    &&& is_base64_url_of(secret.d@, parts.d@)
    &&& is_base64_url_of(secret.p@, parts.p->0@)
    &&& is_base64_url_of(secret.q@, parts.q->0@)
    &&& is_base64_url_of(secret.dp@, parts.dp->0@)
    &&& is_base64_url_of(secret.dq@, parts.dq->0@)
    &&& is_base64_url_of(secret.qi@, parts.qi->0@)
    &&& public.kid@ == "dev-1"@
    &&& public.kty@ == "RSA"@
    &&& is_base64_url_of(public.n@, parts.n@)
    &&& is_base64_url_of(public.e@, parts.e@)
}

/// Whether `secret` and `public` belong together: the same key type, the
/// same modulus, the same public exponent.
pub open spec fn is_pair(secret: SecretKey, public: PublicKey) -> bool {
    public.kty@ == secret.kty@ && public.n@ == secret.n@ && public.e@ == secret.e@
}

/// The two keys that are written from one set of numbers belong together.
pub proof fn lemma_encoded_keys_are_a_pair(parts: RsaParts, secret: SecretKey, public: PublicKey)
    requires
        encodes(parts, secret, public),
    ensures
        is_pair(secret, public),
{
}

/// The bytes of 65537, the public exponent of every generated key.
pub open spec fn public_exponent() -> Seq<u8> {
    seq![1u8, 0u8, 1u8]
}

/// Generates an RSA key of `bits` bits with `openssl`'s `Rsa::generate` and
/// reads its numbers with `n`, `e`, `d`, `p`, `q`, `dmp1`, `dmq1`, `iqmp` and
/// `BigNumRef::to_vec`.
///
/// Trusted: a generated key has the public exponent 65537, whose big-endian
/// bytes are 01 00 01. Everything else about the key is left open, and so is
/// whether the call succeeds.
#[verifier::external_body]
fn generate_rsa(bits: u32) -> (res: Result<RsaParts, openssl::error::ErrorStack>)
    ensures
        res matches Ok(parts) ==> parts.e@ == public_exponent(),
{
    let rsa = openssl::rsa::Rsa::generate(bits)?;
    Ok(RsaParts {
        n: rsa.n().to_vec(),
        e: rsa.e().to_vec(),
        d: rsa.d().to_vec(),
        p: rsa.p().map(|v| v.to_vec()),
        q: rsa.q().map(|v| v.to_vec()),
        dp: rsa.dmp1().map(|v| v.to_vec()),
        dq: rsa.dmq1().map(|v| v.to_vec()),
        qi: rsa.iqmp().map(|v| v.to_vec()),
    })
}

/// The URL-safe base64 text of a number that must be present.
fn encode_part(part: &Option<Vec<u8>>) -> (res: Result<String, OAuthError>)
    ensures
        match res {
            Ok(text) => *part matches Some(bytes) && is_base64_url_of(text@, bytes@),
            Err(err) => *part is None && err is UnknownError,
        },
{
    match part {
        Some(bytes) => Ok(to_base64_url(bytes.as_slice())),
        None => Err(OAuthError::UnknownError(String::from_str("Error, RSA key is incomplete"))),
    }
}

/// Writes the numbers of an RSA key as a pair of JSON Web Keys.
///
/// Succeeds exactly when the key is complete; an incomplete key is an
/// unknown error.
pub fn keypair_from_parts(parts: &RsaParts) -> (res: Result<(SecretKey, PublicKey), OAuthError>)
    ensures
        match res {
            Ok((secret, public)) => encodes(*parts, secret, public) && is_pair(secret, public),
            Err(err) => !is_complete(*parts) && err is UnknownError,
        },
{
    let p = encode_part(&parts.p)?;
    let q = encode_part(&parts.q)?;
    let dp = encode_part(&parts.dp)?;
    let dq = encode_part(&parts.dq)?;
    let qi = encode_part(&parts.qi)?;
    let secret = SecretKey {
        kty: String::from_str("RSA"),
        n: to_base64_url(parts.n.as_slice()),
        e: to_base64_url(parts.e.as_slice()),
        d: to_base64_url(parts.d.as_slice()),
        p,
        q,
        dp,
        dq,
        qi,
    };
    let public = PublicKey {
        kid: String::from_str("dev-1"),
        kty: String::from_str("RSA"),
        n: to_base64_url(parts.n.as_slice()),
        e: to_base64_url(parts.e.as_slice()),
    };
    Ok((secret, public))
}

/// Whether `bytes` are a number that is not zero: there is at least one byte.
pub open spec fn is_nonzero(bytes: Option<Vec<u8>>) -> bool {
    bytes matches Some(number) && number@.len() > 0
}

/// What holds of every key that the provider generates: the modulus has
/// exactly `KEY_BITS` bits, the public exponent is 65537, and the private
/// exponent, both factors and the three CRT values are present and not zero.
pub open spec fn is_generated(parts: RsaParts) -> bool {
    &&& parts.n@.len() == KEY_BITS / 8
    &&& parts.n@[0] >= 0x80
    &&& parts.e@ == public_exponent()
    &&& parts.d@.len() > 0
    &&& is_nonzero(parts.p)
    &&& is_nonzero(parts.q)
    &&& is_nonzero(parts.dp)
    &&& is_nonzero(parts.dq)
    &&& is_nonzero(parts.qi)
}

/// Whether a text is a number of a generated key: not empty, and drawn from
/// the URL-safe alphabet.
pub open spec fn is_number_text(text: Seq<char>) -> bool {
    text.len() > 0 && all_url_safe(text)
}

/// How many characters the modulus of a generated key takes: 342, for its
/// 256 bytes.
pub open spec fn modulus_chars() -> nat {
    342
}

/// What holds of every generated pair: each number is a text that is not
/// empty and drawn from the URL-safe alphabet, the modulus takes 342
/// characters, and the public exponent takes four.
pub open spec fn is_generated_pair(secret: SecretKey, public: PublicKey) -> bool {
    &&& is_number_text(secret.n@)
    &&& is_number_text(secret.e@)
    &&& is_number_text(secret.d@)
    &&& is_number_text(secret.p@)
    &&& is_number_text(secret.q@)
    &&& is_number_text(secret.dp@)
    &&& is_number_text(secret.dq@)
    &&& is_number_text(secret.qi@)
    &&& is_number_text(public.n@)
    &&& is_number_text(public.e@)
    &&& secret.n@.len() == modulus_chars()
    &&& public.n@.len() == modulus_chars()
    &&& public.e@.len() == 4
    &&& public.e@ == base64_url(public_exponent())
}

/// Whether a number is present and not zero.
fn nonzero(bytes: &Option<Vec<u8>>) -> (res: bool)
    ensures
        res == is_nonzero(*bytes),
{
    match bytes {
        Some(number) => number.len() > 0,
        None => false,
    }
}

/// Tests whether the numbers are those of a generated key.
pub fn check_generated(parts: &RsaParts) -> (res: bool)
    ensures
        res == is_generated(*parts),
{
    let modulus = parts.n.len() == 256 && parts.n[0] >= 0x80;
    let exponent = parts.e.len() == 3 && parts.e[0] == 1 && parts.e[1] == 0 && parts.e[2] == 1;
    proof {
        if exponent {
            assert(parts.e@ =~= public_exponent());
        }
    }
    modulus && exponent && parts.d.len() > 0 && nonzero(&parts.p) && nonzero(&parts.q) && nonzero(
        &parts.dp,
    ) && nonzero(&parts.dq) && nonzero(&parts.qi)
}

/// The JSON Web Keys of the numbers of a generated key have the shape of a
/// generated pair.
pub proof fn lemma_generated_pair(parts: RsaParts, secret: SecretKey, public: PublicKey)
    requires
        is_generated(parts),
        encodes(parts, secret, public),
    ensures
        is_generated_pair(secret, public),
        is_pair(secret, public),
{
}

/// The size of the key that is asked of the provider: `KEY_BITS`, which is
/// 2048 bits or 256 bytes.
pub fn key_bits() -> (bits: u32)
    ensures
        bits == KEY_BITS,
        bits == 2048,
        bits == 8 * 256,
{
    KEY_BITS
}

/// Turns what the provider answered into a pair of JSON Web Keys.
///
/// A failure of the provider is an OpenSSL error that carries the
/// provider's own error. A key that came back is written as a pair exactly
/// when it is of the kind the provider generates: a modulus of 2048 bits,
/// the public exponent 65537 and no number missing or zero. Any other key
/// is an unknown error, and no part of it is handed out.
pub fn keypair_from_generated(generated: Result<RsaParts, openssl::error::ErrorStack>) -> (res: Result<(SecretKey, PublicKey), OAuthError>)
    ensures
        match generated {
            Ok(parts) => if is_generated(parts) {
                &&& res matches Ok((secret, public))
                &&& encodes(parts, secret, public)
                &&& is_pair(secret, public)
                &&& is_generated_pair(secret, public)
            } else {
                res matches Err(err) && err is UnknownError
            },
            Err(cause) => res matches Err(OAuthError::OpenSSLError(err)) && err == cause,
        },
{
    match generated {
        Ok(parts) => {
            if !check_generated(&parts) {
                return Err(
                    OAuthError::UnknownError(String::from_str("Error, RSA key is malformed")),
                );
            }
            let res = keypair_from_parts(&parts);
            proof {
                if res is Ok {
                    lemma_generated_pair(parts, res->Ok_0.0, res->Ok_0.1);
                }
            }
            res
        },
        Err(cause) => Err(OAuthError::OpenSSLError(cause)),
    }
}

/// Generates a 2048-bit RSA key and writes it as a pair of JSON Web Keys.
///
/// The provider is asked for a key of `key_bits()` bits, and what it answers
/// is turned into the result by `keypair_from_generated`. A pair that comes
/// back belongs together and is the encoding of one key with a modulus of
/// 2048 bits, the public exponent 65537 and no number missing or zero. A
/// failure of the provider is an OpenSSL error; a key that is not of that
/// kind is an unknown error.
pub fn generate_keypair() -> (res: Result<(SecretKey, PublicKey), OAuthError>)
    ensures
        match res {
            Ok((secret, public)) => {
                &&& is_pair(secret, public)
                &&& exists|parts: RsaParts|
                    is_generated(parts) && #[trigger] encodes(parts, secret, public)
                &&& is_generated_pair(secret, public)
                &&& public.kid@ == "dev-1"@
                &&& public.kty@ == "RSA"@
            },
            Err(err) => err is OpenSSLError || err is UnknownError,
        },
{
    keypair_from_generated(generate_rsa(key_bits()))
}

/// What a public key says.
pub struct PublicJwk {
    pub kid: Seq<char>,
    pub kty: Seq<char>,
    pub n: Seq<char>,
    pub e: Seq<char>,
}

impl View for PublicKey {
    type V = PublicJwk;

    open spec fn view(&self) -> PublicJwk {
        PublicJwk { kid: self.kid@, kty: self.kty@, n: self.n@, e: self.e@ }
    }
}

/// What `document` says as a public key: it must be a JSON object with texts
/// called `kid`, `kty`, `n` and `e`. Other members are ignored.
pub open spec fn public_jwk(document: Seq<char>) -> Option<PublicJwk> {
    match json_members(document) {
        Some(members) => match (
            member_text(members, "kid"@),
            member_text(members, "kty"@),
            member_text(members, "n"@),
            member_text(members, "e"@),
        ) {
            (Some(kid), Some(kty), Some(n), Some(e)) => Some(PublicJwk { kid, kty, n, e }),
            _ => None,
        },
        None => None,
    }
}

impl PublicKey {
    /// Picks a public key out of the members of a JSON object.
    pub fn from_members(members: &Vec<(String, String)>) -> (res: Result<PublicKey, OAuthError>)
        ensures
            match res {
                Ok(key) => {
                    &&& member_text(entries_view(members@), "kid"@) == Some(key@.kid)
                    &&& member_text(entries_view(members@), "kty"@) == Some(key@.kty)
                    &&& member_text(entries_view(members@), "n"@) == Some(key@.n)
                    &&& member_text(entries_view(members@), "e"@) == Some(key@.e)
                },
                Err(err) => {
                    &&& err is JSONError
                    &&& (member_text(entries_view(members@), "kid"@) is None || member_text(
                        entries_view(members@),
                        "kty"@,
                    ) is None || member_text(entries_view(members@), "n"@) is None || member_text(
                        entries_view(members@),
                        "e"@,
                    ) is None)
                },
            },
    {
        let kid = text_member(members, "kid")?;
        let kty = text_member(members, "kty")?;
        let n = text_member(members, "n")?;
        let e = text_member(members, "e")?;
        Ok(PublicKey { kid, kty, n, e })
    }

    /// Reads a public key from the JSON document it was written to.
    ///
    /// Succeeds exactly when the document says one; every failure is a JSON
    /// error.
    pub fn decode(document: &str) -> (res: Result<PublicKey, OAuthError>)
        ensures
            match res {
                Ok(key) => public_jwk(document@) == Some(key@),
                Err(err) => err is JSONError && public_jwk(document@) is None,
            },
    {
        let members = read_members(document)?;
        PublicKey::from_members(&members)
    }
}

/// Turns what reading the public key file gave into the public key.
///
/// A file that could not be read is an I/O error that carries the cause; a
/// file that does not say a public key is a JSON error; any other file gives
/// the key it says.
pub fn read_public_key(contents: Result<String, std::io::Error>) -> (res: Result<
    PublicKey,
    OAuthError,
>)
    ensures
        match contents {
            Ok(document) => match res {
                Ok(key) => public_jwk(document@) == Some(key@),
                Err(err) => err is JSONError && public_jwk(document@) is None,
            },
            Err(cause) => res matches Err(OAuthError::IOError(err)) && err == cause,
        },
{
    match contents {
        Ok(document) => PublicKey::decode(document.as_str()),
        Err(cause) => Err(OAuthError::IOError(cause)),
    }
}

/// The two places where the key pair is kept, each with the document it
/// holds, or nothing where no document was written yet.
pub struct KeyStore {
    pub secret: Option<String>,
    pub public: Option<String>,
}

/// How a provisioning run ended.
#[derive(Clone, Copy, Debug, PartialEq, Eq, Structural)]
pub enum Provisioning {
    /// The store held a secret key already; nothing was generated or written.
    AlreadyGenerated,
    /// A fresh pair was generated and written to the store.
    Generated,
}

/// Whether `store` holds the JSON documents of the two keys.
pub open spec fn holds_pair(store: KeyStore, secret: SecretKey, public: PublicKey) -> bool {
    text_of(store.secret) == Some(secret.json()) && text_of(store.public) == Some(public.json())
}

/// What a provisioning run does to a store. A store that holds a secret key
/// stays exactly as it is, and the run reports that without an error. An
/// empty store receives a fresh pair that belongs together and has the shape
/// of a generated pair, or, where generating the pair failed, stays exactly
/// as it is.
pub open spec fn provisions(
    before: KeyStore,
    after: KeyStore,
    res: Result<Provisioning, OAuthError>,
) -> bool {
    if before.secret is Some {
        after == before && res == Ok::<Provisioning, OAuthError>(Provisioning::AlreadyGenerated)
    } else {
        match res {
            Ok(Provisioning::Generated) => exists|secret: SecretKey, public: PublicKey|
                is_pair(secret, public) && is_generated_pair(secret, public) && #[trigger] holds_pair(
                    after,
                    secret,
                    public,
                ),
            Ok(Provisioning::AlreadyGenerated) => false,
            Err(err) => after == before && (err is OpenSSLError || err is UnknownError),
        }
    }
}

impl KeyStore {
    /// A store in which nothing was written yet.
    pub fn new() -> (store: KeyStore)
        ensures
            store.secret is None,
            store.public is None,
    {
        KeyStore { secret: None, public: None }
    }

    /// Writes both keys to the store as JSON. The store must not hold a
    /// secret key: an existing key is never overwritten.
    ///
    /// Both documents are written, on every input.
    pub fn persist(&mut self, secret: &SecretKey, public: &PublicKey) -> (res: Result<
        (),
        OAuthError,
    >)
        requires
            old(self).secret is None,
        ensures
            res is Ok,
            holds_pair(*final(self), *secret, *public),
    {
        let secret_json = secret.encode()?;
        let public_json = public.encode()?;
        self.secret = Some(secret_json);
        self.public = Some(public_json);
        Ok(())
    }
}

impl KeyStore {
    /// Takes what generating a pair gave into a store that holds no secret
    /// key.
    ///
    /// A pair is written to the store, both documents, and the run reports
    /// that it generated. A failure leaves the store as it is and is handed
    /// on as it came.
    pub fn store_generated(&mut self, generated: Result<(SecretKey, PublicKey), OAuthError>) -> (res: Result<Provisioning, OAuthError>)
        requires
            old(self).secret is None,
        ensures
            match generated {
                Ok((secret, public)) => {
                    &&& res == Ok::<Provisioning, OAuthError>(Provisioning::Generated)
                    &&& holds_pair(*final(self), secret, public)
                },
                Err(cause) => res == Err::<Provisioning, OAuthError>(cause) && *final(self) == *old(
                    self,
                ),
            },
    {
        match generated {
            Ok((secret, public)) => {
                let _ = self.persist(&secret, &public);
                Ok(Provisioning::Generated)
            },
            Err(cause) => Err(cause),
        }
    }
}

/// Provisions the store with a key pair, once: a store that holds a secret
/// key is left alone, and nothing is generated; an empty one receives what
/// `generate_keypair` gives, through `KeyStore::store_generated`.
pub fn provision_keys(store: &mut KeyStore) -> (res: Result<Provisioning, OAuthError>)
    ensures
        provisions(*old(store), *final(store), res),
        old(store).secret is Some ==> *final(store) == *old(store) && res == Ok::<
            Provisioning,
            OAuthError,
        >(Provisioning::AlreadyGenerated),
        res is Ok ==> final(store).secret is Some,
{
    if store.secret.is_some() {
        return Ok(Provisioning::AlreadyGenerated);
    }
    store.store_generated(generate_keypair())
}

/// Provisioning is safe to repeat: whatever a first run that succeeded left
/// in the store, a second run leaves every character of it in place and
/// reports, without an error, that the key was generated already.
pub proof fn lemma_provision_twice(
    empty: KeyStore,
    first: KeyStore,
    first_res: Result<Provisioning, OAuthError>,
    second: KeyStore,
    second_res: Result<Provisioning, OAuthError>,
)
    requires
        provisions(empty, first, first_res),
        first_res is Ok,
        provisions(first, second, second_res),
    ensures
        second == first,
        second_res == Ok::<Provisioning, OAuthError>(Provisioning::AlreadyGenerated),
{
}

} // verus!
