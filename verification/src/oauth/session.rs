//! What the relay keeps for one browser between requests.

use super::text::{entries_view, entry, find_entry, text_of};
use vstd::prelude::*;
use vstd::string::StringExecFns;

verus! {

/// The values bound to one browser session. Each is either absent or holds a
/// text; how they travel with the browser is the transport's business.
pub struct Session {
    /// The nonce of the flow this browser started, until a callback uses it.
    pub state: Option<String>,
    /// The authorization code that is being traded for a token.
    pub code: Option<String>,
    /// The granted scopes, separated by single spaces.
    pub scopes: Option<String>,
    /// The kind of the access token.
    pub token_type: Option<String>,
    /// The access token.
    pub token: Option<String>,
    /// The email of the signed-in user; present once an identity is bound.
    pub email: Option<String>,
    /// The identifier of the signed-in user.
    pub uid: Option<String>,
}

/// The texts a session holds.
pub struct SessionValues {
    pub state: Option<Seq<char>>,
    pub code: Option<Seq<char>>,
    pub scopes: Option<Seq<char>>,
    pub token_type: Option<Seq<char>>,
    pub token: Option<Seq<char>>,
    pub email: Option<Seq<char>>,
    pub uid: Option<Seq<char>>,
}

impl View for Session {
    type V = SessionValues;

    open spec fn view(&self) -> SessionValues {
        SessionValues {
            state: text_of(self.state),
            code: text_of(self.code),
            scopes: text_of(self.scopes),
            token_type: text_of(self.token_type),
            token: text_of(self.token),
            email: text_of(self.email),
            uid: text_of(self.uid),
        }
    }
}

impl Session {
    /// A session that holds nothing.
    pub fn new() -> (session: Session)
        ensures
            session == (Session {
                state: None,
                code: None,
                scopes: None,
                token_type: None,
                token: None,
                email: None,
                uid: None,
            }),
    {
        Session {
            state: None,
            code: None,
            scopes: None,
            token_type: None,
            token: None,
            email: None,
            uid: None,
        }
    }

    /// The stored nonce. The session must hold one.
    #[inline]
    pub fn state(&self) -> (state: String)
        requires
            self.state is Some,
        ensures
            Some(state) == self.state,
    {
        self.state.as_ref().unwrap().clone()
    }

    /// The stored authorization code. The session must hold one.
    #[inline]
    pub fn code(&self) -> (code: String)
        requires
            self.code is Some,
        ensures
            Some(code) == self.code,
    {
        self.code.as_ref().unwrap().clone()
    }

    /// Whether an identity is bound to the session.
    #[inline]
    pub fn has_identity(&self) -> (bound: bool)
        ensures
            bound == (self.email is Some),
    {
        self.email.is_some()
    }

    /// Stores `state` as the session's nonce.
    #[inline]
    pub fn set_state(&mut self, state: String)
        ensures
            *final(self) == (Session { state: Some(state), ..*old(self) }),
    {
        self.state = Some(state);
    }

    /// Forgets the session's nonce.
    #[inline]
    pub fn remove_state(&mut self)
        ensures
            *final(self) == (Session { state: None, ..*old(self) }),
    {
        self.state = None;
    }

    /// Stores `code` as the authorization code.
    #[inline]
    pub fn set_code(&mut self, code: String)
        ensures
            *final(self) == (Session { code: Some(code), ..*old(self) }),
    {
        self.code = Some(code);
    }

    /// Stores the granted scopes.
    #[inline]
    pub fn set_scopes(&mut self, scopes: String)
        ensures
            *final(self) == (Session { scopes: Some(scopes), ..*old(self) }),
    {
        self.scopes = Some(scopes);
    }

    /// Stores the kind of the access token.
    #[inline]
    pub fn set_token_type(&mut self, token_type: String)
        ensures
            *final(self) == (Session { token_type: Some(token_type), ..*old(self) }),
    {
        self.token_type = Some(token_type);
    }

    /// Stores the access token.
    #[inline]
    pub fn set_token(&mut self, token: String)
        ensures
            *final(self) == (Session { token: Some(token), ..*old(self) }),
    {
        self.token = Some(token);
    }

    /// Binds an identity to the session.
    #[inline]
    pub fn set_identity(&mut self, email: String, uid: String)
        ensures
            *final(self) == (Session { email: Some(email), uid: Some(uid), ..*old(self) }),
    {
        self.email = Some(email);
        self.uid = Some(uid);
    }
}

/// A cookie as the relay sets it: a name, a value, and where and how the
/// browser may use it.
pub struct Cookie {
    pub name: String,
    pub value: String,
    pub domain: String,
    pub path: String,
    pub http_only: bool,
}

/// Whether `cookie` carries `value` under `name` with the attributes of every
/// session cookie: the relay's domain, its API path, and no access for
/// scripts.
pub open spec fn is_session_cookie(cookie: Cookie, name: Seq<char>, value: Seq<char>) -> bool {
    &&& cookie.name@ == name
    &&& cookie.value@ == value
    &&& cookie.domain@ == "www.example.com"@
    &&& cookie.path@ == "/api"@
    &&& cookie.http_only
}

/// The cookie that carries `value` under `name`.
pub fn build_cookie(name: String, value: String) -> (cookie: Cookie)
    ensures
        is_session_cookie(cookie, name@, value@),
        cookie.name == name,
        cookie.value == value,
{
    Cookie {
        name,
        value,
        domain: String::from_str("www.example.com"),
        path: String::from_str("/api"),
        http_only: true,
    }
}

/// The entry that carries `value` under `name`, or none where the value is
/// absent.
pub open spec fn carried(name: Seq<char>, value: Option<Seq<char>>) -> Seq<(Seq<char>, Seq<char>)> {
    match value {
        Some(text) => seq![(name, text)],
        None => Seq::empty(),
    }
}

/// The names and values of the cookies that carry a session: one for each
/// value that is present, in the order state, code, scopes, token type,
/// token, email, user.
pub open spec fn session_entries(values: SessionValues) -> Seq<(Seq<char>, Seq<char>)> {
    carried("state"@, values.state) + carried("code"@, values.code) + carried(
        "scopes"@,
        values.scopes,
    ) + carried("token_type"@, values.token_type) + carried("token"@, values.token) + carried(
        "email"@,
        values.email,
    ) + carried("uid"@, values.uid)
}

/// The session that cookies with these names and values carry: each value is
/// that of the first cookie with its name.
pub open spec fn session_values(entries: Seq<(Seq<char>, Seq<char>)>) -> SessionValues {
    SessionValues {
        state: entry(entries, "state"@),
        code: entry(entries, "code"@),
        scopes: entry(entries, "scopes"@),
        token_type: entry(entries, "token_type"@),
        token: entry(entries, "token"@),
        email: entry(entries, "email"@),
        uid: entry(entries, "uid"@),
    }
}

/// Appends the cookie for `value` under `name` where the value is present.
fn carry(cookies: &mut Vec<Cookie>, name: &str, value: &Option<String>)
    requires
        forall|i: int|
            0 <= i < old(cookies)@.len() ==> #[trigger] is_session_cookie(
                old(cookies)@[i],
                old(cookies)@[i].name@,
                old(cookies)@[i].value@,
            ),
    ensures
        cookie_entries(final(cookies)@) == cookie_entries(old(cookies)@) + carried(
            name@,
            text_of(*value),
        ),
        forall|i: int|
            0 <= i < final(cookies)@.len() ==> #[trigger] is_session_cookie(
                final(cookies)@[i],
                final(cookies)@[i].name@,
                final(cookies)@[i].value@,
            ),
{
    match value {
        Some(text) => {
            cookies.push(build_cookie(String::from_str(name), text.clone()));
            proof {
                assert(cookie_entries(cookies@) =~= cookie_entries(old(cookies)@) + carried(
                    name@,
                    text_of(*value),
                ));
            }
        },
        None => {
            proof {
                assert(cookie_entries(cookies@) =~= cookie_entries(old(cookies)@) + carried(
                    name@,
                    text_of(*value),
                ));
            }
        },
    }
}

/// The names and values that a list of cookies holds, in order.
pub open spec fn cookie_entries(cookies: Seq<Cookie>) -> Seq<(Seq<char>, Seq<char>)> {
    Seq::new(cookies.len(), |i: int| (cookies[i].name@, cookies[i].value@))
}

impl Session {
    /// The cookies that carry this session to the browser.
    pub fn cookies(&self) -> (cookies: Vec<Cookie>)
        ensures
            cookie_entries(cookies@) == session_entries(self@),
            forall|i: int|
                0 <= i < cookies@.len() ==> #[trigger] is_session_cookie(
                    cookies@[i],
                    cookies@[i].name@,
                    cookies@[i].value@,
                ),
    {
        let mut cookies: Vec<Cookie> = Vec::new();
        proof {
            assert(cookie_entries(cookies@) =~= Seq::empty());
        }
        carry(&mut cookies, "state", &self.state);
        carry(&mut cookies, "code", &self.code);
        carry(&mut cookies, "scopes", &self.scopes);
        carry(&mut cookies, "token_type", &self.token_type);
        carry(&mut cookies, "token", &self.token);
        carry(&mut cookies, "email", &self.email);
        carry(&mut cookies, "uid", &self.uid);
        proof {
            assert(cookie_entries(cookies@) =~= session_entries(self@));
        }
        cookies
    }

    /// The session that the cookies of a request carry, given as names and
    /// values. Cookies with other names are not looked at.
    pub fn from_cookies(cookies: &Vec<(String, String)>) -> (session: Session)
        ensures
            session@ == session_values(entries_view(cookies@)),
    {
        Session {
            state: owned(find_entry(cookies, "state")),
            code: owned(find_entry(cookies, "code")),
            scopes: owned(find_entry(cookies, "scopes")),
            token_type: owned(find_entry(cookies, "token_type")),
            token: owned(find_entry(cookies, "token")),
            email: owned(find_entry(cookies, "email")),
            uid: owned(find_entry(cookies, "uid")),
        }
    }
}

/// The cookies of `before` that are carried no longer: those whose name is
/// not among the names of `kept`, in the order in which `before` holds them.
pub open spec fn dropped(before: Seq<Cookie>, kept: Seq<(Seq<char>, Seq<char>)>) -> Seq<Cookie>
    decreases before.len(),
{
    if before.len() == 0 {
        Seq::empty()
    } else {
        let earlier = dropped(before.drop_last(), kept);
        if entry(kept, before.last().name@) is None {
            earlier.push(before.last())
        } else {
            earlier
        }
    }
}

/// Whether one of `cookies` is called `name`.
fn names(cookies: &Vec<Cookie>, name: &String) -> (found: bool)
    ensures
        found == (entry(cookie_entries(cookies@), name@) is Some),
{
    let mut i: usize = 0;
    proof {
        assert(cookie_entries(cookies@).skip(0) == cookie_entries(cookies@));
    }
    while i < cookies.len()
        invariant
            i <= cookies.len(),
            entry(cookie_entries(cookies@), name@) == entry(
                cookie_entries(cookies@).skip(i as int),
                name@,
            ),
        decreases cookies.len() - i,
    {
        proof {
            let rest = cookie_entries(cookies@).skip(i as int);
            assert(rest[0] == (cookies@[i as int].name@, cookies@[i as int].value@));
            assert(rest.drop_first() == cookie_entries(cookies@).skip(i + 1));
        }
        if cookies[i].name == *name {
            return true;
        }
        i = i + 1;
    }
    false
}

/// A copy of a cookie.
fn copy_cookie(cookie: &Cookie) -> (copy: Cookie)
    ensures
        copy == *cookie,
{
    Cookie {
        name: cookie.name.clone(),
        value: cookie.value.clone(),
        domain: cookie.domain.clone(),
        path: cookie.path.clone(),
        http_only: cookie.http_only,
    }
}

impl Session {
    /// The cookies that the browser is to forget: those of `before`, the
    /// cookies that carried the session earlier, whose names this session
    /// carries no longer.
    pub fn dropped_cookies(&self, before: &Vec<Cookie>) -> (gone: Vec<Cookie>)
        ensures
            gone@ == dropped(before@, session_entries(self@)),
    {
        let carried = self.cookies();
        let mut gone: Vec<Cookie> = Vec::new();
        let mut i: usize = 0;
        proof {
            assert(before@.take(0) =~= Seq::empty());
        }
        while i < before.len()
            invariant
                i <= before.len(),
                cookie_entries(carried@) == session_entries(self@),
                gone@ == dropped(before@.take(i as int), session_entries(self@)),
            decreases before.len() - i,
        {
            proof {
                let next = before@.take(i + 1);
                assert(next.drop_last() =~= before@.take(i as int));
                assert(next.last() == before@[i as int]);
            }
            if !names(&carried, &before[i].name) {
                gone.push(copy_cookie(&before[i]));
            }
            i = i + 1;
        }
        proof {
            assert(before@.take(before@.len() as int) =~= before@);
        }
        gone
    }
}

/// An owned copy of an optional text.
fn owned(text: Option<&str>) -> (copy: Option<String>)
    ensures
        match (copy, text) {
            (Some(a), Some(b)) => a@ == b@,
            (None, None) => true,
            _ => false,
        },
{
    match text {
        Some(value) => Some(String::from_str(value)),
        None => None,
    }
}

/// Looking up `name` in a list that was extended by one carried value: an
/// earlier entry wins; failing that, the carried value is found when it is
/// present and the names agree.
proof fn lemma_entry_carried(
    entries: Seq<(Seq<char>, Seq<char>)>,
    carried_name: Seq<char>,
    value: Option<Seq<char>>,
    name: Seq<char>,
)
    ensures
        entry(entries + carried(carried_name, value), name) == if entry(entries, name) is Some {
            entry(entries, name)
        } else if carried_name == name {
            value
        } else {
            None
        },
    decreases entries.len(),
{
    let last = carried(carried_name, value);
    if entries.len() == 0 {
        assert(entries + last =~= last);
        assert(entry(entries, name) is None);
        if value is Some {
            assert(last.len() == 1);
            assert(last[0] == (carried_name, value->0));
            assert(last.drop_first() =~= Seq::empty());
            assert(entry(last.drop_first(), name) is None);
        } else {
            assert(last.len() == 0);
        }
    } else {
        assert((entries + last)[0] == entries[0]);
        assert((entries + last).drop_first() =~= entries.drop_first() + last);
        lemma_entry_carried(entries.drop_first(), carried_name, value, name);
    }
}

/// The seven cookie names differ from one another.
proof fn lemma_names_differ()
    ensures
        "state"@ != "code"@,
        "state"@ != "scopes"@,
        "state"@ != "token_type"@,
        "state"@ != "token"@,
        "state"@ != "email"@,
        "state"@ != "uid"@,
        "code"@ != "scopes"@,
        "code"@ != "token_type"@,
        "code"@ != "token"@,
        "code"@ != "email"@,
        "code"@ != "uid"@,
        "scopes"@ != "token_type"@,
        "scopes"@ != "token"@,
        "scopes"@ != "email"@,
        "scopes"@ != "uid"@,
        "token_type"@ != "token"@,
        "token_type"@ != "email"@,
        "token_type"@ != "uid"@,
        "token"@ != "email"@,
        "token"@ != "uid"@,
        "email"@ != "uid"@,
{
    reveal_strlit("state");
    reveal_strlit("code");
    reveal_strlit("scopes");
    reveal_strlit("token_type");
    reveal_strlit("token");
    reveal_strlit("email");
    reveal_strlit("uid");
    assert("state"@.len() == 5 && "state"@[0] == 's');
    assert("code"@.len() == 4);
    assert("scopes"@.len() == 6);
    assert("token_type"@.len() == 10);
    assert("token"@.len() == 5 && "token"@[0] == 't');
    assert("email"@.len() == 5 && "email"@[0] == 'e');
    assert("uid"@.len() == 3);
}

/// A session survives the trip to the browser and back: the cookies that
/// carry it carry exactly its values.
pub proof fn lemma_session_round_trip(values: SessionValues)
    ensures
        session_values(session_entries(values)) == values,
{
    lemma_names_differ();
    let e0 = Seq::<(Seq<char>, Seq<char>)>::empty();
    let e1 = carried("state"@, values.state);
    let e2 = e1 + carried("code"@, values.code);
    let e3 = e2 + carried("scopes"@, values.scopes);
    let e4 = e3 + carried("token_type"@, values.token_type);
    let e5 = e4 + carried("token"@, values.token);
    let e6 = e5 + carried("email"@, values.email);
    let e7 = e6 + carried("uid"@, values.uid);
    assert(e0 + e1 =~= e1);
    assert(e7 == session_entries(values));
    assert forall|name: Seq<char>| #![trigger entry(e7, name)] true implies {
        &&& entry(e0, name) is None
        &&& entry(e1, name) == if name == "state"@ { values.state } else { None }
        &&& entry(e2, name) == if entry(e1, name) is Some { entry(e1, name) } else if "code"@ == name { values.code } else { None }
        &&& entry(e3, name) == if entry(e2, name) is Some { entry(e2, name) } else if "scopes"@ == name { values.scopes } else { None }
        &&& entry(e4, name) == if entry(e3, name) is Some { entry(e3, name) } else if "token_type"@ == name { values.token_type } else { None }
        &&& entry(e5, name) == if entry(e4, name) is Some { entry(e4, name) } else if "token"@ == name { values.token } else { None }
        &&& entry(e6, name) == if entry(e5, name) is Some { entry(e5, name) } else if "email"@ == name { values.email } else { None }
        &&& entry(e7, name) == if entry(e6, name) is Some { entry(e6, name) } else if "uid"@ == name { values.uid } else { None }
    } by {
        lemma_entry_carried(e0, "state"@, values.state, name);
        lemma_entry_carried(e1, "code"@, values.code, name);
        lemma_entry_carried(e2, "scopes"@, values.scopes, name);
        lemma_entry_carried(e3, "token_type"@, values.token_type, name);
        lemma_entry_carried(e4, "token"@, values.token, name);
        lemma_entry_carried(e5, "email"@, values.email, name);
        lemma_entry_carried(e6, "uid"@, values.uid, name);
    }
    assert(entry(e7, "state"@) == values.state);
    assert(entry(e7, "code"@) == values.code);
    assert(entry(e7, "scopes"@) == values.scopes);
    assert(entry(e7, "token_type"@) == values.token_type);
    assert(entry(e7, "token"@) == values.token);
    assert(entry(e7, "email"@) == values.email);
    assert(entry(e7, "uid"@) == values.uid);
}

} // verus!
