use crate::error::{ErrorResponse, ErrorResponseType};
use crate::link::{clone_opt, rejection, rejection_kind, LinkRequestView, MagicLink, MagicLinkView, Rejection};
use crate::outside::{now_unix, random_alphanumeric, is_ascii_alphanumeric, TIMESTAMP_BOUND};
use crate::usage::{encode_usage, find_separator, usage_tag, MagicLinkUsage};
use vstd::prelude::*;

verus! {

/// Length of a link id.
pub const ID_LEN: usize = 64;

/// Length of a link's CSRF token.
pub const CSRF_LEN: usize = 48;

/// Largest lifetime, in minutes either way, whose expiry always fits.
pub const MAX_LIFETIME_MINUTES: i64 = 100_000_000_000;

/// The table of magic links, in the order in which they were created.
pub struct MagicLinkStore {
    pub links: Vec<MagicLink>,
}

impl View for MagicLinkStore {
    type V = Seq<MagicLinkView>;

    open spec fn view(&self) -> Seq<MagicLinkView> {
        self.links@.map_values(|l: MagicLink| l@)
    }
}

/// No two rows share an id or a CSRF token.
pub open spec fn unique_tokens(rows: Seq<MagicLinkView>) -> bool {
    forall|i: int, j: int|
        0 <= i < rows.len() && 0 <= j < rows.len() && i != j ==> rows[i].id != rows[j].id
            && rows[i].csrf_token != rows[j].csrf_token && rows[i].id != rows[j].csrf_token
}

/// The row belongs to `user_id` and authorises an email change.
pub open spec fn is_email_change_of(row: MagicLinkView, user_id: Seq<char>) -> bool {
    row.user_id == user_id && usage_tag(row.usage) == "email_change"@
}

/// The rows that remain after removing every email change link of `user_id`.
pub open spec fn without_email_change(rows: Seq<MagicLinkView>, user_id: Seq<char>) -> Seq<
    MagicLinkView,
> {
    rows.filter(|r: MagicLinkView| !is_email_change_of(r, user_id))
}

/// A row after `link`'s mutable fields are merged into it, keeping each field's
/// one-way transition: a cookie once set stays, the expiry never grows, and a
/// used link stays used.
pub open spec fn with_state(row: MagicLinkView, link: MagicLinkView) -> MagicLinkView {
    MagicLinkView {
        cookie: if row.cookie is Some {
            row.cookie
        } else {
            link.cookie
        },
        exp: if row.exp <= link.exp {
            row.exp
        } else {
            link.exp
        },
        used: row.used || link.used,
        ..row
    }
}

/// The expiry that invalidating a link with expiry `exp` at `now` leaves: ten
/// seconds before `now`, unless it was already earlier.
pub open spec fn invalidated_exp(exp: i64, now: i64) -> int {
    if exp < now - 10 {
        exp as int
    } else {
        now - 10
    }
}

/// No row's id or CSRF token has length `n`.
pub open spec fn no_token_of_len(rows: Seq<MagicLinkView>, n: nat) -> bool {
    forall|i: int| 0 <= i < rows.len() ==> rows[i].id.len() != n && rows[i].csrf_token.len() != n
}

/// The rows after saving `link`: its mutable fields are merged into the row with its id.
pub open spec fn saved(rows: Seq<MagicLinkView>, link: MagicLinkView) -> Seq<MagicLinkView> {
    rows.map_values(
        |r: MagicLinkView|
            if r.id == link.id {
                with_state(r, link)
            } else {
                r
            },
    )
}

/// The expiry of a link created at `now` that lives `lifetime_minutes` minutes.
pub open spec fn expiry(now: i64, lifetime_minutes: i64) -> int {
    now + lifetime_minutes * 60
}

pub open spec fn fits_i64(x: int) -> bool {
    i64::MIN <= x <= i64::MAX
}

/// `id` is taken by a row, as its id or as its CSRF token.
pub open spec fn token_taken(rows: Seq<MagicLinkView>, t: Seq<char>) -> bool {
    exists|i: int| 0 <= i < rows.len() && (rows[i].id == t || rows[i].csrf_token == t)
}

fn is_email_change_usage(usage: &str) -> (r: bool)
    ensures
        r == (usage_tag(usage@) == "email_change"@),
{
    let k = find_separator(usage);
    String::from_str(usage.substring_char(0, k)) == String::from_str("email_change")
}

impl MagicLinkStore {
    pub open spec fn wf(&self) -> bool {
        unique_tokens(self@)
    }

    pub fn new() -> (r: MagicLinkStore)
        ensures
            r@ == Seq::<MagicLinkView>::empty(),
            r.wf(),
    {
        MagicLinkStore { links: Vec::new() }
    }

    fn token_in_use(&self, t: &String) -> (r: bool)
        ensures
            r == token_taken(self@, t@),
    {
        let mut i: usize = 0;
        while i < self.links.len()
            invariant
                i <= self.links@.len(),
                forall|j: int| 0 <= j < i ==> self@[j].id != t@ && self@[j].csrf_token != t@,
            decreases self.links@.len() - i,
        {
            if self.links[i].id == *t || self.links[i].csrf_token == *t {
                assert(self@[i as int] == self.links@[i as int]@);
                return true;
            }
            i = i + 1;
        }
        false
    }
}

impl MagicLink {
    /// Stores a new link with the given id and CSRF token, created at `now`.
    /// Fails with `BadRequest` when the expiry does not fit, and with `Storage`
    /// when the id or token is already in use.
    pub fn create_at(
        data: &mut MagicLinkStore,
        id: String,
        csrf_token: String,
        user_id: String,
        lifetime_minutes: i64,
        usage: MagicLinkUsage,
        now: i64,
    ) -> (r: Result<MagicLink, ErrorResponse>)
        requires
            old(data).wf(),
        ensures
            final(data).wf(),
            !fits_i64(expiry(now, lifetime_minutes)) ==> r is Err && r->Err_0.error
                == ErrorResponseType::BadRequest && final(data)@ == old(data)@,
            fits_i64(expiry(now, lifetime_minutes)) && (id@ == csrf_token@ || token_taken(
                old(data)@,
                id@,
            ) || token_taken(old(data)@, csrf_token@)) ==> r is Err && r->Err_0.error
                == ErrorResponseType::Storage && final(data)@ == old(data)@,
            fits_i64(expiry(now, lifetime_minutes)) && id@ != csrf_token@ && !token_taken(
                old(data)@,
                id@,
            ) && !token_taken(old(data)@, csrf_token@) ==> r is Ok,
            r is Ok ==> ({
                let l = r->Ok_0@;
                &&& l.id == id@
                &&& l.user_id == user_id@
                &&& l.csrf_token == csrf_token@
                &&& l.cookie is None
                &&& l.exp == expiry(now, lifetime_minutes)
                &&& !l.used
                &&& l.usage == encode_usage(usage@)
                &&& final(data)@ == old(data)@.push(l)
            }),
    {
        let exp_wide: i128 = now as i128 + lifetime_minutes as i128 * 60;
        if exp_wide < i64::MIN as i128 || exp_wide > i64::MAX as i128 {
            return Err(
                ErrorResponse::new(
                    ErrorResponseType::BadRequest,
                    String::from_str("The link lifetime is out of range"),
                ),
            );
        }
        if id == csrf_token || data.token_in_use(&id) || data.token_in_use(&csrf_token) {
            return Err(
                ErrorResponse::new(
                    ErrorResponseType::Storage,
                    String::from_str("A magic link with this id or token exists already"),
                ),
            );
        }
        let link = MagicLink {
            id,
            user_id,
            csrf_token,
            cookie: None,
            exp: exp_wide as i64,
            used: false,
            usage: usage.to_string(),
        };
        let row = link.clone();
        let ghost before = data@;
        data.links.push(row);
        assert(data@ =~= before.push(link@));
        Ok(link)
    }

    /// Stores a new link with fresh random tokens, expiring `lifetime_minutes`
    /// minutes from now.
    pub fn create(
        data: &mut MagicLinkStore,
        user_id: String,
        lifetime_minutes: i64,
        usage: MagicLinkUsage,
    ) -> (r: Result<MagicLink, ErrorResponse>)
        requires
            old(data).wf(),
        ensures
            final(data).wf(),
            r is Err ==> final(data)@ == old(data)@,
            r is Err && -MAX_LIFETIME_MINUTES <= lifetime_minutes <= MAX_LIFETIME_MINUTES
                ==> r->Err_0.error == ErrorResponseType::Storage,
            -MAX_LIFETIME_MINUTES <= lifetime_minutes <= MAX_LIFETIME_MINUTES && no_token_of_len(
                old(data)@,
                ID_LEN as nat,
            ) && no_token_of_len(old(data)@, CSRF_LEN as nat) ==> r is Ok,
            r is Ok ==> exists|now: i64|
                -TIMESTAMP_BOUND <= now <= TIMESTAMP_BOUND && ({
                    let l = r->Ok_0@;
                    &&& l.id.len() == ID_LEN
                    &&& l.csrf_token.len() == CSRF_LEN
                    &&& l.user_id == user_id@
                    &&& l.cookie is None
                    &&& l.exp == #[trigger] expiry(now, lifetime_minutes)
                    &&& !l.used
                    &&& l.usage == encode_usage(usage@)
                    &&& final(data)@ == old(data)@.push(l)
                }),
            r is Ok ==> forall|i: int|
                0 <= i < ID_LEN ==> is_ascii_alphanumeric(#[trigger] r->Ok_0@.id[i]),
            r is Ok ==> forall|i: int|
                0 <= i < CSRF_LEN ==> is_ascii_alphanumeric(#[trigger] r->Ok_0@.csrf_token[i]),
    {
        let id = random_alphanumeric(ID_LEN);
        let csrf_token = random_alphanumeric(CSRF_LEN);
        let now = now_unix();
        proof {
            if no_token_of_len(data@, ID_LEN as nat) && no_token_of_len(data@, CSRF_LEN as nat) {
                assert(id@.len() != csrf_token@.len());
                assert(!token_taken(data@, id@)) by {
                    if token_taken(data@, id@) {
                        let k = choose|k: int|
                            0 <= k < data@.len() && (data@[k].id == id@ || data@[k].csrf_token
                                == id@);
                        assert(data@[k].id.len() != ID_LEN && data@[k].csrf_token.len() != ID_LEN);
                    }
                }
                assert(!token_taken(data@, csrf_token@)) by {
                    if token_taken(data@, csrf_token@) {
                        let k = choose|k: int|
                            0 <= k < data@.len() && (data@[k].id == csrf_token@
                                || data@[k].csrf_token == csrf_token@);
                        assert(data@[k].id.len() != CSRF_LEN && data@[k].csrf_token.len()
                            != CSRF_LEN);
                    }
                }
            }
        }
        MagicLink::create_at(data, id, csrf_token, user_id, lifetime_minutes, usage, now)
    }

    /// The link with the given id, or `NotFound`.
    pub fn find(data: &MagicLinkStore, id: &str) -> (r: Result<MagicLink, ErrorResponse>)
        ensures
            match r {
                Ok(l) => exists|i: int| 0 <= i < data@.len() && data@[i] == l@ && l@.id == id@,
                Err(e) => e.error == ErrorResponseType::NotFound && forall|i: int|
                    0 <= i < data@.len() ==> data@[i].id != id@,
            },
    {
        let key = String::from_str(id);
        let mut i: usize = 0;
        while i < data.links.len()
            invariant
                key@ == id@,
                i <= data.links@.len(),
                forall|j: int| 0 <= j < i ==> data@[j].id != id@,
            decreases data.links@.len() - i,
        {
            if data.links[i].id == key {
                assert(data@[i as int] == data.links@[i as int]@);
                return Ok(data.links[i].clone());
            }
            i = i + 1;
        }
        Err(
            ErrorResponse::new(
                ErrorResponseType::NotFound,
                String::from_str("No magic link with this id"),
            ),
        )
    }

    /// The earliest created link of the user, or `NotFound`.
    pub fn find_by_user(data: &MagicLinkStore, user_id: String) -> (r: Result<
        MagicLink,
        ErrorResponse,
    >)
        ensures
            match r {
                Ok(l) => exists|i: int|
                    0 <= i < data@.len() && data@[i] == l@ && l@.user_id == user_id@ && forall|
                        j: int,
                    |
                        0 <= j < i ==> data@[j].user_id != user_id@,
                Err(e) => e.error == ErrorResponseType::NotFound && forall|i: int|
                    0 <= i < data@.len() ==> data@[i].user_id != user_id@,
            },
    {
        let mut i: usize = 0;
        while i < data.links.len()
            invariant
                i <= data.links@.len(),
                forall|j: int| 0 <= j < i ==> data@[j].user_id != user_id@,
            decreases data.links@.len() - i,
        {
            if data.links[i].user_id == user_id {
                assert(data@[i as int] == data.links@[i as int]@);
                return Ok(data.links[i].clone());
            }
            i = i + 1;
        }
        Err(
            ErrorResponse::new(
                ErrorResponseType::NotFound,
                String::from_str("No magic link for this user"),
            ),
        )
    }

    /// Deletes every email change link of the user, whatever its state.
    pub fn invalidate_all_email_change(data: &mut MagicLinkStore, user_id: &str) -> (r: Result<
        (),
        ErrorResponse,
    >)
        requires
            old(data).wf(),
        ensures
            r is Ok,
            final(data).wf(),
            final(data)@ == without_email_change(old(data)@, user_id@),
    {
        let ghost rows = data@;
        let key = String::from_str(user_id);
        let mut kept: Vec<MagicLink> = Vec::new();
        let mut i: usize = 0;
        while i < data.links.len()
            invariant
                rows == data@,
                key@ == user_id@,
                i <= data.links@.len(),
                kept@.map_values(|l: MagicLink| l@) == without_email_change(
                    rows.take(i as int),
                    user_id@,
                ),
            decreases data.links@.len() - i,
        {
            assert(rows.take(i + 1).drop_last() =~= rows.take(i as int));
            assert(rows.take(i + 1).last() == data.links@[i as int]@);
            reveal(Seq::filter);
            let drop = data.links[i].user_id == key && is_email_change_usage(
                data.links[i].usage.as_str(),
            );
            if !drop {
                let ghost before = kept@;
                kept.push(data.links[i].clone());
                assert(kept@.map_values(|l: MagicLink| l@) =~= before.map_values(
                    |l: MagicLink| l@,
                ).push(data.links@[i as int]@));
            }
            i = i + 1;
        }
        assert(rows.take(data.links@.len() as int) =~= rows);
        data.links = kept;
        proof {
            let p = |r: MagicLinkView| !is_email_change_of(r, user_id@);
            broadcast use vstd::seq_lib::group_filter_ensures;

            lemma_filter_unique(rows, p);
        }
        Ok(())
    }

    /// Merges the link's cookie, expiry and used flag into its row: a bound
    /// cookie is kept, the expiry only decreases, and a used row stays used.
    pub fn save(&self, data: &mut MagicLinkStore) -> (r: Result<(), ErrorResponse>)
        requires
            old(data).wf(),
        ensures
            r is Ok,
            final(data).wf(),
            final(data)@ == saved(old(data)@, self@),
    {
        let ghost rows = data@;
        let mut i: usize = 0;
        while i < data.links.len()
            invariant
                data.links@.len() == rows.len(),
                i <= rows.len(),
                forall|j: int|
                    0 <= j < i ==> #[trigger] data.links@[j]@ == (if rows[j].id == self@.id {
                        with_state(rows[j], self@)
                    } else {
                        rows[j]
                    }),
                forall|j: int| i <= j < rows.len() ==> #[trigger] data.links@[j]@ == rows[j],
            decreases rows.len() - i,
        {
            assert(data.links@[i as int]@ == rows[i as int]);
            if data.links[i].id == self.id {
                let cur = &data.links[i];
                let row = MagicLink {
                    id: cur.id.clone(),
                    user_id: cur.user_id.clone(),
                    csrf_token: cur.csrf_token.clone(),
                    cookie: if cur.cookie.is_some() {
                        clone_opt(&cur.cookie)
                    } else {
                        clone_opt(&self.cookie)
                    },
                    exp: if cur.exp <= self.exp {
                        cur.exp
                    } else {
                        self.exp
                    },
                    used: cur.used || self.used,
                    usage: cur.usage.clone(),
                };
                data.links.set(i, row);
            }
            i = i + 1;
        }
        assert(data@ =~= saved(rows, self@));
        Ok(())
    }

    /// Moves the expiry to ten seconds before `now` (never later than it was)
    /// and saves the link.
    pub fn invalidate_at(&mut self, data: &mut MagicLinkStore, now: i64) -> (r: Result<
        (),
        ErrorResponse,
    >)
        requires
            old(data).wf(),
            now >= i64::MIN + 10,
        ensures
            r is Ok,
            final(data).wf(),
            final(self).exp == invalidated_exp(old(self).exp, now),
            final(self)@ == (MagicLinkView { exp: final(self).exp, ..old(self)@ }),
            final(data)@ == saved(old(data)@, final(self)@),
    {
        let past = now - 10;
        if past < self.exp {
            self.exp = past;
        }
        self.save(data)
    }

    /// Moves the expiry into the past (never later than it was) and saves the link.
    pub fn invalidate(&mut self, data: &mut MagicLinkStore) -> (r: Result<(), ErrorResponse>)
        requires
            old(data).wf(),
        ensures
            r is Ok,
            final(data).wf(),
            final(self).exp <= old(self).exp,
            exists|now: i64|
                -TIMESTAMP_BOUND <= now <= TIMESTAMP_BOUND && final(self).exp
                    == #[trigger] invalidated_exp(old(self).exp, now),
            final(self)@ == (MagicLinkView { exp: final(self).exp, ..old(self)@ }),
            final(data)@ == saved(old(data)@, final(self)@),
    {
        let now = now_unix();
        self.invalidate_at(data, now)
    }
}

proof fn lemma_filter_unique(rows: Seq<MagicLinkView>, p: spec_fn(MagicLinkView) -> bool)
    requires
        unique_tokens(rows),
    ensures
        unique_tokens(rows.filter(p)),
    decreases rows.len(),
{
    reveal(Seq::filter);
    if rows.len() > 0 {
        let front = rows.drop_last();
        assert forall|i: int, j: int|
            0 <= i < front.len() && 0 <= j < front.len() && i != j implies front[i].id
            != front[j].id && front[i].csrf_token != front[j].csrf_token && front[i].id
            != front[j].csrf_token by {
            assert(front[i] == rows[i] && front[j] == rows[j]);
        }
        lemma_filter_unique(front, p);
        let sub = front.filter(p);
        broadcast use vstd::seq_lib::group_filter_ensures;

        if p(rows.last()) {
            let f = sub.push(rows.last());
            assert forall|i: int, j: int|
                0 <= i < f.len() && 0 <= j < f.len() && i != j implies f[i].id != f[j].id
                && f[i].csrf_token != f[j].csrf_token && f[i].id != f[j].csrf_token by {
                if i < sub.len() {
                    assert(sub.contains(sub[i]));
                    front.lemma_filter_contains_rev(p, sub[i]);
                    let k = choose|k: int| 0 <= k < front.len() && front[k] == sub[i];
                    assert(rows[k] == front[k]);
                }
                if j < sub.len() {
                    assert(sub.contains(sub[j]));
                    front.lemma_filter_contains_rev(p, sub[j]);
                    let k = choose|k: int| 0 <= k < front.len() && front[k] == sub[j];
                    assert(rows[k] == front[k]);
                }
            }
        }
    }
}

/// Removing a user's email change links keeps exactly the other rows: every
/// row left was there before and is no email change link of that user, and every
/// row of another user or of another usage stays.
pub proof fn lemma_email_change_invalidation(rows: Seq<MagicLinkView>, user_id: Seq<char>)
    ensures
        forall|r: MagicLinkView|
            #[trigger] without_email_change(rows, user_id).contains(r) ==> rows.contains(r)
                && !is_email_change_of(r, user_id),
        forall|i: int|
            0 <= i < rows.len() && !is_email_change_of(rows[i], user_id) ==> #[trigger]
            without_email_change(rows, user_id).contains(rows[i]),
        forall|i: int|
            0 <= i < rows.len() && rows[i].user_id != user_id ==> #[trigger]
            without_email_change(rows, user_id).contains(rows[i]),
{
    broadcast use vstd::seq_lib::group_filter_ensures;

    let p = |r: MagicLinkView| !is_email_change_of(r, user_id);
    assert forall|r: MagicLinkView|
        #[trigger] without_email_change(rows, user_id).contains(r) implies rows.contains(r)
        && !is_email_change_of(r, user_id) by {
        rows.lemma_filter_contains_rev(p, r);
        let k = choose|k: int| 0 <= k < rows.filter(p).len() && rows.filter(p)[k] == r;
        assert(p(rows.filter(p)[k]));
    }
    assert forall|i: int| 0 <= i < rows.len() && !is_email_change_of(rows[i], user_id) implies
        #[trigger] without_email_change(rows, user_id).contains(rows[i]) by {
        rows.lemma_filter_contains(p, i);
    }
}

/// A password reset link created at `now` with a fifteen minute lifetime expires
/// nine hundred seconds later, validates at once for its user with its CSRF
/// token, and once marked used is refused with `BadRequest`.
pub proof fn lemma_reset_link_lifecycle(
    link: MagicLinkView,
    req: LinkRequestView,
    strict_binding: bool,
    now: i64,
)
    requires
        link.exp == expiry(now, 15),
        link.cookie is None,
        !link.used,
        req.csrf_header == Some(link.csrf_token),
    ensures
        link.exp == now + 900,
        rejection(link, link.user_id, req, true, strict_binding, now) is None,
        rejection(MagicLinkView { used: true, ..link }, link.user_id, req, true, strict_binding, now)
            == Some(Rejection::AlreadyUsed),
        rejection_kind(Rejection::AlreadyUsed) == ErrorResponseType::BadRequest,
{
}

} // verus!
