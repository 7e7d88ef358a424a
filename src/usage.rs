use crate::error::{ErrorResponse, ErrorResponseType};
use vstd::prelude::*;

verus! {

/// What a magic link authorises, with its optional payload.
#[derive(Debug, Clone, PartialEq)]
pub enum MagicLinkUsage {
    EmailChange(String),
    PasswordReset(Option<String>),
    NewUser(Option<String>),
}

/// The mathematical value of a usage: its tag and payload as character sequences.
pub enum UsageView {
    EmailChange(Seq<char>),
    PasswordReset(Option<Seq<char>>),
    NewUser(Option<Seq<char>>),
}

pub open spec fn opt_view(o: Option<String>) -> Option<Seq<char>> {
    match o {
        Some(s) => Some(s@),
        None => None,
    }
}

impl View for MagicLinkUsage {
    type V = UsageView;

    open spec fn view(&self) -> UsageView {
        match self {
            MagicLinkUsage::EmailChange(e) => UsageView::EmailChange(e@),
            MagicLinkUsage::PasswordReset(r) => UsageView::PasswordReset(opt_view(*r)),
            MagicLinkUsage::NewUser(r) => UsageView::NewUser(opt_view(*r)),
        }
    }
}

/// The encoded form: the tag alone, or the tag, `$` and the payload.
pub open spec fn encode_usage(u: UsageView) -> Seq<char> {
    match u {
        UsageView::EmailChange(e) => "email_change$"@ + e,
        UsageView::NewUser(Some(r)) => "new_user$"@ + r,
        UsageView::NewUser(None) => "new_user"@,
        UsageView::PasswordReset(Some(r)) => "password_reset$"@ + r,
        UsageView::PasswordReset(None) => "password_reset"@,
    }
}

/// Position of the first `$` in `s`, or `s.len()` when there is none.
pub open spec fn sep_index(s: Seq<char>) -> int
    decreases s.len(),
{
    if s.len() == 0 {
        0
    } else if s[0] == '$' {
        0
    } else {
        1 + sep_index(s.drop_first())
    }
}

/// The part before the first `$` (all of `s` without one).
pub open spec fn usage_tag(s: Seq<char>) -> Seq<char> {
    s.take(sep_index(s))
}

/// The part after the first `$`, or `None` when there is no `$`.
pub open spec fn usage_payload(s: Seq<char>) -> Option<Seq<char>> {
    if sep_index(s) < s.len() {
        Some(s.skip(sep_index(s) + 1))
    } else {
        None
    }
}

/// The usage that an encoded string stands for, or `None` for an unknown tag or
/// an email change without an address.
pub open spec fn decode_usage(s: Seq<char>) -> Option<UsageView> {
    let tag = usage_tag(s);
    let payload = usage_payload(s);
    if tag == "email_change"@ {
        match payload {
            Some(e) if e.len() > 0 => Some(UsageView::EmailChange(e)),
            _ => None,
        }
    } else if tag == "new_user"@ {
        Some(UsageView::NewUser(payload))
    } else if tag == "password_reset"@ {
        Some(UsageView::PasswordReset(payload))
    } else {
        None
    }
}

/// A well-formed usage: an email change names a non-empty address.
pub open spec fn usage_valid(u: UsageView) -> bool {
    match u {
        UsageView::EmailChange(e) => e.len() > 0,
        _ => true,
    }
}

proof fn lemma_sep_index(s: Seq<char>, k: int)
    requires
        0 <= k <= s.len(),
        forall|j: int| 0 <= j < k ==> s[j] != '$',
        k < s.len() ==> s[k] == '$',
    ensures
        sep_index(s) == k,
    decreases s.len(),
{
    if s.len() > 0 && k > 0 {
        assert forall|j: int| 0 <= j < k - 1 implies s.drop_first()[j] != '$' by {
            assert(s.drop_first()[j] == s[j + 1]);
        }
        lemma_sep_index(s.drop_first(), k - 1);
    }
}

proof fn lemma_decode_tagged(tag: Seq<char>, p: Seq<char>)
    requires
        forall|j: int| 0 <= j < tag.len() ==> tag[j] != '$',
    ensures
        usage_tag(tag.push('$') + p) == tag,
        usage_payload(tag.push('$') + p) == Some(p),
{
    let s = tag.push('$') + p;
    lemma_sep_index(s, tag.len() as int);
    assert(s.take(tag.len() as int) =~= tag);
    assert(s.skip(tag.len() as int + 1) =~= p);
}

proof fn lemma_decode_bare(tag: Seq<char>)
    requires
        forall|j: int| 0 <= j < tag.len() ==> tag[j] != '$',
    ensures
        usage_tag(tag) == tag,
        usage_payload(tag) is None,
{
    lemma_sep_index(tag, tag.len() as int);
    assert(tag.take(tag.len() as int) =~= tag);
}

/// Decoding the encoding of a usage gives that usage back, for every variant
/// with or without its optional payload (an email change names an address).
pub proof fn lemma_usage_round_trip(u: UsageView)
    requires
        usage_valid(u),
    ensures
        decode_usage(encode_usage(u)) == Some(u),
{
    reveal_strlit("email_change");
    reveal_strlit("email_change$");
    reveal_strlit("new_user");
    reveal_strlit("new_user$");
    reveal_strlit("password_reset");
    reveal_strlit("password_reset$");
    assert("email_change$"@ =~= "email_change"@.push('$'));
    assert("new_user$"@ =~= "new_user"@.push('$'));
    assert("password_reset$"@ =~= "password_reset"@.push('$'));
    match u {
        UsageView::EmailChange(e) => {
            lemma_decode_tagged("email_change"@, e);
        },
        UsageView::NewUser(Some(r)) => {
            lemma_decode_tagged("new_user"@, r);
        },
        UsageView::NewUser(None) => {
            lemma_decode_bare("new_user"@);
        },
        UsageView::PasswordReset(Some(r)) => {
            lemma_decode_tagged("password_reset"@, r);
        },
        UsageView::PasswordReset(None) => {
            lemma_decode_bare("password_reset"@);
        },
    }
}

pub(crate) fn find_separator(s: &str) -> (k: usize)
    ensures
        k == sep_index(s@),
        k <= s@.len(),
{
    let n = s.unicode_len();
    let mut i: usize = 0;
    while i < n
        invariant
            n == s@.len(),
            i <= n,
            forall|j: int| 0 <= j < i ==> s@[j] != '$',
        decreases n - i,
    {
        if s.get_char(i) == '$' {
            proof {
                lemma_sep_index(s@, i as int);
            }
            return i;
        }
        i = i + 1;
    }
    proof {
        lemma_sep_index(s@, i as int);
    }
    i
}

impl MagicLinkUsage {
    /// Parses an encoded usage; an unknown tag, or an email change without an
    /// address, is an `InvalidUsage` error.
    pub fn try_from(value: &str) -> (r: Result<MagicLinkUsage, ErrorResponse>)
        ensures
            match decode_usage(value@) {
                Some(u) => r is Ok && r->Ok_0@ == u,
                None => r is Err && r->Err_0.error == ErrorResponseType::InvalidUsage,
            },
    {
        let n = value.unicode_len();
        let k = find_separator(value);
        let tag = String::from_str(value.substring_char(0, k));
        let payload = if k < n {
            Some(String::from_str(value.substring_char(k + 1, n)))
        } else {
            None
        };
        assert(opt_view(payload) == usage_payload(value@));
        if tag == String::from_str("email_change") {
            match payload {
                Some(email) => {
                    if email.as_str().unicode_len() > 0 {
                        return Ok(MagicLinkUsage::EmailChange(email));
                    }
                },
                None => {},
            }
        } else if tag == String::from_str("new_user") {
            return Ok(MagicLinkUsage::NewUser(payload));
        } else if tag == String::from_str("password_reset") {
            return Ok(MagicLinkUsage::PasswordReset(payload));
        }
        Err(
            ErrorResponse::new(
                ErrorResponseType::InvalidUsage,
                String::from_str("Invalid string for MagicLinkUsage parsing"),
            ),
        )
    }

    /// The encoded form of this usage.
    pub fn to_string(&self) -> (r: String)
        ensures
            r@ == encode_usage(self@),
    {
        match self {
            MagicLinkUsage::EmailChange(email) => String::from_str("email_change$").concat(
                email.as_str(),
            ),
            MagicLinkUsage::NewUser(redirect_uri) => match redirect_uri {
                Some(uri) => String::from_str("new_user$").concat(uri.as_str()),
                None => String::from_str("new_user"),
            },
            MagicLinkUsage::PasswordReset(redirect_uri) => match redirect_uri {
                Some(uri) => String::from_str("password_reset$").concat(uri.as_str()),
                None => String::from_str("password_reset"),
            },
        }
    }
}

} // verus!
