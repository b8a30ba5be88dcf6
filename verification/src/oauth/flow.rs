//! The registry of pending states: every sign-in flow that was started and
//! has not come back yet is remembered here by its nonce.

use super::encoding::{all_url_safe, base64_url, to_base64_url};
use super::OAuthRequest;
use rand::Rng;
use vstd::hash_map::StringHashMap;
use vstd::prelude::*;
use vstd::utf8::{encode_scalar, encode_utf8};

verus! {

/// How many random characters a nonce is made from.
pub const NONCE_CHARS: usize = 32;

/// What holds of every nonce the relay hands out: it is the URL-safe base64
/// text of the UTF-8 bytes of thirty-two characters, so it is drawn from the
/// URL-safe alphabet and is between 43 and 171 characters long.
pub open spec fn is_nonce(text: Seq<char>) -> bool {
    &&& exists|chars: Seq<char>|
        chars.len() == NONCE_CHARS && text == base64_url(#[trigger] encode_utf8(chars))
    &&& all_url_safe(text)
    &&& 43 <= text.len() <= 171
}

/// UTF-8 spends between one and four bytes on every character.
pub proof fn lemma_encode_utf8_len(chars: Seq<char>)
    ensures
        chars.len() <= encode_utf8(chars).len() <= 4 * chars.len(),
    decreases chars.len(),
{
    if chars.len() > 0 {
        lemma_encode_utf8_len(chars.drop_first());
        assert(1 <= encode_scalar(chars[0] as u32).len() <= 4);
    }
}

/// Draws `count` characters from `rand`'s thread-local generator with
/// `gen_iter`.
///
/// Trusted: the text has exactly `count` characters; which ones is left open.
/// The generator panics when the operating system offers no entropy.
#[verifier::external_body]
fn random_chars(count: usize) -> (text: String)
    ensures
        text@.len() == count,
{
    rand::thread_rng().gen_iter::<char>().take(count).collect()
}

/// A fresh random nonce: thirty-two random characters, UTF-8 encoded, in
/// URL-safe base64.
pub fn random_string() -> (nonce: String)
    ensures
        is_nonce(nonce@),
{
    let chars = random_chars(NONCE_CHARS);
    let nonce = to_base64_url(chars.as_str().as_bytes());
    proof {
        lemma_encode_utf8_len(chars@);
        assert(nonce@ == base64_url(encode_utf8(chars@)));
    }
    nonce
}

/// The nonces of the flows that are under way. A nonce is pending from the
/// moment it is issued until a callback consumes it; nothing else removes it.
pub struct Flow {
    pending: StringHashMap<bool>,
}

impl View for Flow {
    type V = Set<Seq<char>>;

    /// The set of pending nonces.
    closed spec fn view(&self) -> Set<Seq<char>> {
        self.pending@.dom()
    }
}

/// The pending set after `nonce` was issued.
pub open spec fn issued(pending: Set<Seq<char>>, nonce: Seq<char>) -> Set<Seq<char>> {
    pending.insert(nonce)
}

/// Whether an attempt to consume `nonce` succeeds.
pub open spec fn consumes(pending: Set<Seq<char>>, nonce: Seq<char>) -> bool {
    pending.contains(nonce)
}

/// The pending set after an attempt to consume `nonce`.
pub open spec fn consumed(pending: Set<Seq<char>>, nonce: Seq<char>) -> Set<Seq<char>> {
    pending.remove(nonce)
}

/// How many of `attempts` successive attempts to consume `nonce` succeed.
pub open spec fn successes(pending: Set<Seq<char>>, nonce: Seq<char>, attempts: nat) -> nat
    decreases attempts,
{
    if attempts == 0 {
        0
    } else {
        let first: nat = if consumes(pending, nonce) {
            1
        } else {
            0
        };
        first + successes(consumed(pending, nonce), nonce, (attempts - 1) as nat)
    }
}

/// Whether a callback passes verification: it carries a code, the nonce the
/// session stored is pending, and the callback echoes that nonce.
pub open spec fn verifies(
    pending: Set<Seq<char>>,
    code: Option<String>,
    state: Seq<char>,
    nonce: Seq<char>,
) -> bool {
    code is Some && pending.contains(nonce) && state == nonce
}

impl Flow {
    /// A registry with no pending nonce.
    pub fn new() -> (flow: Flow)
        ensures
            flow@ == Set::<Seq<char>>::empty(),
    {
        let flow = Flow { pending: StringHashMap::new() };
        proof {
            assert(flow.pending@.dom() =~= Set::<Seq<char>>::empty());
        }
        flow
    }

    /// Whether `nonce` is pending. Nothing changes.
    pub fn find(&self, nonce: String) -> (found: bool)
        ensures
            found == self@.contains(nonce@),
    {
        self.pending.contains_key(nonce.as_str())
    }

    /// Marks `nonce` as pending. Issuing a nonce that is pending already
    /// leaves the registry as it was.
    pub fn issue(&mut self, nonce: String)
        ensures
            final(self)@ == issued(old(self)@, nonce@),
    {
        self.pending.insert(nonce, true);
        proof {
            assert(self.pending@.dom() =~= old(self).pending@.dom().insert(nonce@));
        }
    }

    /// Draws a fresh nonce, marks it as pending and returns it.
    pub fn generate_persistent_nonce(&mut self) -> (nonce: String)
        ensures
            is_nonce(nonce@),
            final(self)@ == issued(old(self)@, nonce@),
            final(self)@.contains(nonce@),
    {
        let nonce = random_string();
        self.issue(nonce.clone());
        nonce
    }

    /// Consumes `nonce`: removes it if it is pending, and reports whether it
    /// was. Every other nonce stays as it is.
    pub fn remove(&mut self, nonce: String) -> (was_pending: bool)
        ensures
            was_pending == consumes(old(self)@, nonce@),
            final(self)@ == consumed(old(self)@, nonce@),
            !final(self)@.contains(nonce@),
    {
        let was_pending = self.pending.contains_key(nonce.as_str());
        self.pending.remove(nonce.as_str());
        proof {
            assert(self.pending@.dom() =~= old(self).pending@.dom().remove(nonce@));
        }
        was_pending
    }

    /// Checks a callback against the registry and against `nonce`, the value
    /// the session stored when the flow was started. Nothing changes.
    pub fn verify(&self, req: OAuthRequest, nonce: String) -> (ok: bool)
        ensures
            ok == verifies(self@, req.code, req.state@, nonce@),
    {
        match req.code {
            Some(_) => {
                if self.pending.contains_key(nonce.as_str()) {
                    req.state == nonce
                } else {
                    false
                }
            },
            None => false,
        }
    }
}

/// A nonce is pending right after it was issued, and no longer pending right
/// after it was consumed.
pub proof fn lemma_issue_then_consume(pending: Set<Seq<char>>, nonce: Seq<char>)
    ensures
        issued(pending, nonce).contains(nonce),
        consumes(issued(pending, nonce), nonce),
        !consumed(issued(pending, nonce), nonce).contains(nonce),
{
}

/// Of any number of attempts to consume one nonce, exactly one succeeds when
/// the nonce was pending, and none when it was not: after the first attempt
/// every later one finds nothing.
pub proof fn lemma_consume_once(pending: Set<Seq<char>>, nonce: Seq<char>, attempts: nat)
    ensures
        successes(pending, nonce, attempts) == if attempts > 0 && pending.contains(nonce) {
            1nat
        } else {
            0nat
        },
    decreases attempts,
{
    if attempts > 0 {
        lemma_consume_once(consumed(pending, nonce), nonce, (attempts - 1) as nat);
    }
}

/// Issuing or consuming one nonce leaves every other nonce as it was.
pub proof fn lemma_other_nonces_untouched(
    pending: Set<Seq<char>>,
    nonce: Seq<char>,
    other: Seq<char>,
)
    requires
        other != nonce,
    ensures
        issued(pending, nonce).contains(other) == pending.contains(other),
        consumed(pending, nonce).contains(other) == pending.contains(other),
{
}

} // verus!
