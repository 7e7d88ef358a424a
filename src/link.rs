use crate::error::{ErrorResponse, ErrorResponseType};
use crate::outside::{now_unix, TIMESTAMP_BOUND};
use crate::usage::opt_view;
use vstd::prelude::*;

verus! {

/// One stored magic link.
#[derive(Debug)]
pub struct MagicLink {
    pub id: String,
    pub user_id: String,
    pub csrf_token: String,
    pub cookie: Option<String>,
    pub exp: i64,
    pub used: bool,
    pub usage: String,
}

/// The value of a magic link, with its texts as character sequences.
pub struct MagicLinkView {
    pub id: Seq<char>,
    pub user_id: Seq<char>,
    pub csrf_token: Seq<char>,
    pub cookie: Option<Seq<char>>,
    pub exp: i64,
    pub used: bool,
    pub usage: Seq<char>,
}

impl View for MagicLink {
    type V = MagicLinkView;

    open spec fn view(&self) -> MagicLinkView {
        MagicLinkView {
            id: self.id@,
            user_id: self.user_id@,
            csrf_token: self.csrf_token@,
            cookie: opt_view(self.cookie),
            exp: self.exp,
            used: self.used,
            usage: self.usage@,
        }
    }
}

pub(crate) fn clone_opt(o: &Option<String>) -> (r: Option<String>)
    ensures
        opt_view(r) == opt_view(*o),
{
    match o {
        Some(s) => Some(s.clone()),
        None => None,
    }
}

impl Clone for MagicLink {
    fn clone(&self) -> (r: Self)
        ensures
            r@ == self@,
    {
        MagicLink {
            id: self.id.clone(),
            user_id: self.user_id.clone(),
            csrf_token: self.csrf_token.clone(),
            cookie: clone_opt(&self.cookie),
            exp: self.exp,
            used: self.used,
            usage: self.usage.clone(),
        }
    }
}

/// What a request that follows a link carries: the value of the binding cookie
/// and of the CSRF header, where present (a header that is not visible ASCII
/// counts as present and empty).
pub struct LinkRequest {
    pub binding_cookie: Option<String>,
    pub csrf_header: Option<String>,
}

pub struct LinkRequestView {
    pub binding_cookie: Option<Seq<char>>,
    pub csrf_header: Option<Seq<char>>,
}

impl View for LinkRequest {
    type V = LinkRequestView;

    open spec fn view(&self) -> LinkRequestView {
        LinkRequestView {
            binding_cookie: opt_view(self.binding_cookie),
            csrf_header: opt_view(self.csrf_header),
        }
    }
}

/// Why a link was refused, in the order in which the checks run.
#[derive(Debug, Clone, Copy, PartialEq, Eq, Structural)]
pub enum Rejection {
    BoundToOtherSession,
    CsrfMissing,
    CsrfInvalid,
    WrongUser,
    Expired,
    AlreadyUsed,
}

pub open spec fn ends_with(s: Seq<char>, suffix: Seq<char>) -> bool {
    suffix.len() <= s.len() && s.subrange(s.len() - suffix.len(), s.len() as int) == suffix
}

/// The binding check passes: the link is unbound, or the request carries a
/// binding cookie whose value ends with the bound value.
pub open spec fn binding_holds(link: MagicLinkView, req: LinkRequestView) -> bool {
    match link.cookie {
        None => true,
        Some(bound) => match req.binding_cookie {
            Some(v) => ends_with(v, bound),
            None => false,
        },
    }
}

/// The first check that refuses the request at time `now`, if any.
pub open spec fn rejection(
    link: MagicLinkView,
    user_id: Seq<char>,
    req: LinkRequestView,
    with_csrf: bool,
    strict_binding: bool,
    now: i64,
) -> Option<Rejection> {
    if strict_binding && !binding_holds(link, req) {
        Some(Rejection::BoundToOtherSession)
    } else if with_csrf && req.csrf_header is None {
        Some(Rejection::CsrfMissing)
    } else if with_csrf && req.csrf_header != Some(link.csrf_token) {
        Some(Rejection::CsrfInvalid)
    } else if link.user_id != user_id {
        Some(Rejection::WrongUser)
    } else if link.exp < now {
        Some(Rejection::Expired)
    } else if link.used {
        Some(Rejection::AlreadyUsed)
    } else {
        None
    }
}

pub open spec fn rejection_kind(k: Rejection) -> ErrorResponseType {
    match k {
        Rejection::BoundToOtherSession => ErrorResponseType::Forbidden,
        Rejection::CsrfMissing => ErrorResponseType::Unauthorized,
        Rejection::CsrfInvalid => ErrorResponseType::Unauthorized,
        _ => ErrorResponseType::BadRequest,
    }
}

pub open spec fn rejection_message(k: Rejection) -> Seq<char> {
    match k {
        Rejection::BoundToOtherSession =>
            "The requested password reset link is already tied to another session"@,
        Rejection::CsrfMissing => "CSRF Token is missing"@,
        Rejection::CsrfInvalid => "Invalid CSRF Token"@,
        Rejection::WrongUser => "The user id is invalid"@,
        Rejection::Expired => "This link has expired already"@,
        Rejection::AlreadyUsed => "The requested passwort reset link was already used"@,
    }
}

/// `r` is the result that a validation refused for `k` (or accepted, for `None`) gives.
pub open spec fn reports(r: Result<(), ErrorResponse>, k: Option<Rejection>) -> bool {
    match k {
        None => r is Ok,
        Some(k) => r is Err && r->Err_0.is(rejection_kind(k), rejection_message(k)),
    }
}

fn str_ends_with(s: &str, suffix: &str) -> (r: bool)
    ensures
        r == ends_with(s@, suffix@),
{
    let n = s.unicode_len();
    let m = suffix.unicode_len();
    if m > n {
        return false;
    }
    let off = n - m;
    let mut i: usize = 0;
    while i < m
        invariant
            n == s@.len(),
            m == suffix@.len(),
            off == n - m,
            i <= m,
            forall|j: int| 0 <= j < i ==> s@[off + j] == suffix@[j],
        decreases m - i,
    {
        if s.get_char(off + i) != suffix.get_char(i) {
            assert(s@.subrange(off as int, n as int)[i as int] != suffix@[i as int]);
            return false;
        }
        i = i + 1;
    }
    assert(s@.subrange(off as int, n as int) =~= suffix@);
    true
}

fn reject(k: Rejection) -> (r: Result<(), ErrorResponse>)
    ensures
        reports(r, Some(k)),
{
    let (kind, msg) = match k {
        Rejection::BoundToOtherSession => (
            ErrorResponseType::Forbidden,
            "The requested password reset link is already tied to another session",
        ),
        Rejection::CsrfMissing => (ErrorResponseType::Unauthorized, "CSRF Token is missing"),
        Rejection::CsrfInvalid => (ErrorResponseType::Unauthorized, "Invalid CSRF Token"),
        Rejection::WrongUser => (ErrorResponseType::BadRequest, "The user id is invalid"),
        Rejection::Expired => (ErrorResponseType::BadRequest, "This link has expired already"),
        Rejection::AlreadyUsed => (
            ErrorResponseType::BadRequest,
            "The requested passwort reset link was already used",
        ),
    };
    Err(ErrorResponse::new(kind, String::from_str(msg)))
}

impl MagicLink {
    /// True when the link is bound to a session and the request does not prove
    /// that session; under relaxed binding the caller logs a warning for it.
    pub fn binding_mismatch(&self, req: &LinkRequest) -> (r: bool)
        ensures
            r == !binding_holds(self@, req@),
    {
        match &self.cookie {
            None => false,
            Some(bound) => match &req.binding_cookie {
                Some(v) => !str_ends_with(v.as_str(), bound.as_str()),
                None => true,
            },
        }
    }

    /// Checks the link against a request at time `now`; the first failing check
    /// decides the error.
    pub fn validate_at(
        &self,
        user_id: &str,
        req: &LinkRequest,
        with_csrf: bool,
        strict_binding: bool,
        now: i64,
    ) -> (r: Result<(), ErrorResponse>)
        ensures
            reports(r, rejection(self@, user_id@, req@, with_csrf, strict_binding, now)),
    {
        if strict_binding && self.binding_mismatch(req) {
            return reject(Rejection::BoundToOtherSession);
        }
        if with_csrf {
            match &req.csrf_header {
                None => {
                    return reject(Rejection::CsrfMissing);
                },
                Some(token) => {
                    if !(self.csrf_token == *token) {
                        return reject(Rejection::CsrfInvalid);
                    }
                },
            }
        }
        if !(self.user_id == String::from_str(user_id)) {
            return reject(Rejection::WrongUser);
        }
        if self.exp < now {
            return reject(Rejection::Expired);
        }
        if self.used {
            return reject(Rejection::AlreadyUsed);
        }
        Ok(())
    }

    /// Checks the link against a request at the current time.
    pub fn validate(&self, user_id: &str, req: &LinkRequest, with_csrf: bool, strict_binding: bool) -> (r:
        Result<(), ErrorResponse>)
        ensures
            exists|now: i64|
                -TIMESTAMP_BOUND <= now <= TIMESTAMP_BOUND && reports(
                    r,
                    rejection(self@, user_id@, req@, with_csrf, strict_binding, now),
                ),
    {
        let now = now_unix();
        self.validate_at(user_id, req, with_csrf, strict_binding, now)
    }
}

/// The pair of a link's user and id, used to index password-reset links by user.
#[derive(Debug)]
pub struct IdxMagicLinkPasswordUser {
    pub user_id: String,
    pub id: String,
}

impl IdxMagicLinkPasswordUser {
    pub fn from_magic_link(ml: &MagicLink) -> (r: Self)
        ensures
            r.user_id@ == ml.user_id@,
            r.id@ == ml.id@,
    {
        IdxMagicLinkPasswordUser { user_id: ml.user_id.clone(), id: ml.id.clone() }
    }
}

/// A fresh link (unbound, unused, unexpired) validates for its own user when the
/// request carries its CSRF token, or no token is asked for.
pub proof fn lemma_fresh_link_validates(
    link: MagicLinkView,
    req: LinkRequestView,
    with_csrf: bool,
    strict_binding: bool,
    now: i64,
)
    requires
        link.cookie is None,
        !link.used,
        now <= link.exp,
        with_csrf ==> req.csrf_header == Some(link.csrf_token),
    ensures
        rejection(link, link.user_id, req, with_csrf, strict_binding, now) is None,
{
}

/// A used link is refused, whatever the other fields and the request hold.
pub proof fn lemma_used_link_refused(
    link: MagicLinkView,
    user_id: Seq<char>,
    req: LinkRequestView,
    with_csrf: bool,
    strict_binding: bool,
    now: i64,
)
    requires
        link.used,
    ensures
        rejection(link, user_id, req, with_csrf, strict_binding, now) is Some,
{
}

/// A bound link followed without its cookie is refused with `Forbidden` under
/// strict binding; under relaxed binding the mismatch is reported for a warning
/// and the link is judged as if it were unbound.
pub proof fn lemma_binding_modes(
    link: MagicLinkView,
    user_id: Seq<char>,
    req: LinkRequestView,
    with_csrf: bool,
    now: i64,
)
    requires
        link.cookie is Some,
        req.binding_cookie is None,
    ensures
        rejection(link, user_id, req, with_csrf, true, now) == Some(Rejection::BoundToOtherSession),
        rejection_kind(Rejection::BoundToOtherSession) == ErrorResponseType::Forbidden,
        !binding_holds(link, req),
        rejection(link, user_id, req, with_csrf, false, now) == rejection(
            MagicLinkView { cookie: None, ..link },
            user_id,
            req,
            with_csrf,
            true,
            now,
        ),
{
}

/// Once the binding check is passed, a required CSRF header that is missing is
/// refused as missing, one that differs from the link's token as invalid, and
/// the right one lets validation go on as if no token were asked for.
pub proof fn lemma_csrf_check(
    link: MagicLinkView,
    user_id: Seq<char>,
    req: LinkRequestView,
    strict_binding: bool,
    now: i64,
)
    requires
        strict_binding ==> binding_holds(link, req),
    ensures
        req.csrf_header is None ==> rejection(link, user_id, req, true, strict_binding, now)
            == Some(Rejection::CsrfMissing),
        req.csrf_header is Some && req.csrf_header != Some(link.csrf_token) ==> rejection(
            link,
            user_id,
            req,
            true,
            strict_binding,
            now,
        ) == Some(Rejection::CsrfInvalid),
        req.csrf_header == Some(link.csrf_token) ==> rejection(
            link,
            user_id,
            req,
            true,
            strict_binding,
            now,
        ) == rejection(link, user_id, req, false, strict_binding, now),
        rejection_kind(Rejection::CsrfMissing) == ErrorResponseType::Unauthorized,
        rejection_kind(Rejection::CsrfInvalid) == ErrorResponseType::Unauthorized,
{
}

} // verus!
