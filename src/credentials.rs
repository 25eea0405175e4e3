//! Bearer credentials: the stored token file, expiry, and the choice between
//! using, refreshing and acquiring a credential. The exchanges themselves
//! are performed by the caller.

use vstd::prelude::*;
use crate::decimal::{parse_u64, u64_of_text};

verus! {

/// Whether a credential that expires at `expires_at` (seconds since the
/// epoch) has expired at `now`.
pub fn is_token_expired(expires_at: u64, now: u64) -> (r: bool)
    ensures
        r == (now >= expires_at),
{
    now >= expires_at
}

/// When a credential issued at `now` and valid for `expires_in` seconds
/// expires; the latest time there is, where the sum goes past it.
pub fn expiry_after(now: u64, expires_in: u64) -> (r: u64)
    ensures
        r == (if now + expires_in > u64::MAX {
            u64::MAX as int
        } else {
            now + expires_in
        }),
{
    now.saturating_add(expires_in)
}

/// A stored credential.
pub struct StoredTokens {
    pub access_token: String,
    pub refresh_token: String,
    pub expires_at: u64,
}

/// Why a token file could not be read.
#[derive(Debug, Clone, Copy, PartialEq, Eq, Structural)]
pub enum TokenFileError {
    /// The file does not hold exactly three lines.
    WrongLineCount,
    /// The third line is not a number of seconds.
    BadExpiry,
}

/// How often `c` occurs in `s`.
pub open spec fn count_char(s: Seq<char>, c: char) -> nat
    decreases s.len(),
{
    if s.len() == 0 {
        0
    } else {
        count_char(s.drop_last(), c) + if s.last() == c {
            1nat
        } else {
            0nat
        }
    }
}

/// No line break in `s`.
pub open spec fn one_line(s: Seq<char>) -> bool {
    forall|i: int| 0 <= i < s.len() ==> s[i] != '\n'
}

/// The token file's text: the access token, the refresh token and the
/// expiry, one per line.
pub open spec fn token_file(access: Seq<char>, refresh: Seq<char>, expiry: Seq<char>) -> Seq<
    char,
> {
    access + seq!['\n'] + refresh + seq!['\n'] + expiry
}

/// Reads a token file: three lines, the access token, the refresh token
/// and the expiry in seconds since the epoch.
pub fn parse_token_file(contents: &str) -> (r: Result<StoredTokens, TokenFileError>)
    ensures
        (r == Err::<StoredTokens, TokenFileError>(TokenFileError::WrongLineCount)) == (count_char(
            contents@,
            '\n',
        ) != 2),
        r is Ok ==> exists|e: Seq<char>|
            one_line(r->Ok_0.access_token@) && one_line(r->Ok_0.refresh_token@) && one_line(e)
                && contents@ == token_file(r->Ok_0.access_token@, r->Ok_0.refresh_token@, e)
                && u64_of_text(e) == Some(r->Ok_0.expires_at),
        r == Err::<StoredTokens, TokenFileError>(TokenFileError::BadExpiry) ==> exists|
            a: Seq<char>,
            b: Seq<char>,
            e: Seq<char>,
        |
            one_line(a) && one_line(b) && one_line(e) && contents@ == token_file(a, b, e)
                && u64_of_text(e) is None,
{
    let ghost s = contents@;
    let n = contents.unicode_len();
    let mut count: usize = 0;
    let mut first_break: usize = 0;
    let mut second_break: usize = 0;
    let mut i: usize = 0;
    while i < n
        invariant
            i <= n,
            n == s.len(),
            s == contents@,
            count == count_char(s.take(i as int), '\n'),
            count <= i,
            count >= 1 ==> first_break < i && s[first_break as int] == '\n',
            count >= 2 ==> first_break < second_break < i && s[second_break as int] == '\n',
            forall|j: int|
                0 <= j < i && #[trigger] s[j] == '\n' ==> count > 2 || (count >= 1 && j == first_break) || (
                count >= 2 && j == second_break),
        decreases n - i,
    {
        let c = contents.get_char(i);
        assert(s.take(i + 1).drop_last() =~= s.take(i as int));
        if c == '\n' {
            if count == 0 {
                first_break = i;
            } else if count == 1 {
                second_break = i;
            }
            count = count + 1;
        }
        i = i + 1;
    }
    assert(s.take(n as int) =~= s);
    if count != 2 {
        return Err(TokenFileError::WrongLineCount);
    }
    let access = contents.substring_char(0, first_break);
    let refresh = contents.substring_char(first_break + 1, second_break);
    let expiry = contents.substring_char(second_break + 1, n);
    proof {
        assert(s =~= token_file(access@, refresh@, expiry@));
        assert forall|k: int| 0 <= k < access@.len() implies access@[k] != '\n' by {
            assert(access@[k] == s[k]);
        }
        assert forall|k: int| 0 <= k < refresh@.len() implies refresh@[k] != '\n' by {
            assert(refresh@[k] == s[first_break + 1 + k]);
        }
        assert forall|k: int| 0 <= k < expiry@.len() implies expiry@[k] != '\n' by {
            assert(expiry@[k] == s[second_break + 1 + k]);
        }
    }
    match parse_u64(expiry) {
        Some(e) => Ok(
            StoredTokens {
                access_token: access.to_owned(),
                refresh_token: refresh.to_owned(),
                expires_at: e,
            },
        ),
        None => Err(TokenFileError::BadExpiry),
    }
}

/// The credential to go on with after a refresh: the new access token, the
/// new refresh token where the service issued one (else the previous one
/// stays), and the new expiry.
pub fn refreshed_tokens(
    access_token: String,
    issued_refresh: Option<String>,
    previous_refresh: String,
    expires_at: u64,
) -> (r: StoredTokens)
    ensures
        r.access_token == access_token,
        r.refresh_token == (match issued_refresh {
            Some(t) => t,
            None => previous_refresh,
        }),
        r.expires_at == expires_at,
{
    let refresh_token = match issued_refresh {
        Some(t) => t,
        None => previous_refresh,
    };
    StoredTokens { access_token, refresh_token, expires_at }
}

/// What to do for a credential.
pub enum CredentialPlan {
    /// The stored access token is still valid.
    Use { access_token: String },
    /// The stored access token has expired: exchange this refresh token.
    Refresh { refresh_token: String },
    /// There is no stored credential: the user must authorize the client.
    Authorize,
}

/// Chooses, at `now`, between the stored credential, a refresh of it, and a
/// new authorization.
pub fn credential_plan(stored: Option<StoredTokens>, now: u64) -> (r: CredentialPlan)
    ensures
        stored is None ==> r is Authorize,
        stored is Some && now < stored->0.expires_at ==> r == (CredentialPlan::Use {
            access_token: stored->0.access_token,
        }),
        stored is Some && now >= stored->0.expires_at ==> r == (CredentialPlan::Refresh {
            refresh_token: stored->0.refresh_token,
        }),
{
    match stored {
        None => CredentialPlan::Authorize,
        Some(t) => if !is_token_expired(t.expires_at, now) {
            CredentialPlan::Use { access_token: t.access_token }
        } else {
            CredentialPlan::Refresh { refresh_token: t.refresh_token }
        },
    }
}

/// Whether `pat` occurs in `s` at `p`.
pub open spec fn occurs_at(s: Seq<char>, pat: Seq<char>, p: int) -> bool {
    0 <= p && p + pat.len() <= s.len() && s.subrange(p, p + pat.len()) == pat
}

/// Where `pat` first occurs in `s` at or after `from`, if it does.
pub open spec fn find_from(s: Seq<char>, pat: Seq<char>, from: int) -> Option<int>
    decreases s.len() + 1 - from,
{
    if from < 0 || from + pat.len() > s.len() {
        None
    } else if occurs_at(s, pat, from) {
        Some(from)
    } else {
        find_from(s, pat, from + 1)
    }
}

proof fn lemma_find_from(s: Seq<char>, pat: Seq<char>, from: int)
    ensures
        find_from(s, pat, from) is Some ==> from <= find_from(s, pat, from)->0 && occurs_at(
            s,
            pat,
            find_from(s, pat, from)->0,
        ),
    decreases s.len() + 1 - from,
{
    if !(from < 0 || from + pat.len() > s.len()) && !occurs_at(s, pat, from) {
        lemma_find_from(s, pat, from + 1);
    }
}

/// What comes before the first occurrence of `pat` in `s`; all of `s`
/// where `pat` does not occur.
pub open spec fn before_first(s: Seq<char>, pat: Seq<char>) -> Seq<char> {
    match find_from(s, pat, 0) {
        Some(p) => s.take(p),
        None => s,
    }
}

/// What announces the authorization code in a redirect address.
pub const CODE_MARK: &'static str = "code=";

/// The authorization code in a redirect address: what follows the first
/// `code=`, up to the next `code=` and then up to the first `&`.
pub open spec fn auth_code(url: Seq<char>) -> Option<Seq<char>> {
    match find_from(url, CODE_MARK@, 0) {
        Some(p) => Some(
            before_first(before_first(url.skip(p + CODE_MARK@.len()), CODE_MARK@), seq!['&']),
        ),
        None => None,
    }
}

fn occurs_at_exec(s: &str, pat: &str, p: usize) -> (r: bool)
    ensures
        r == occurs_at(s@, pat@, p as int),
{
    let n = s.unicode_len();
    let m = pat.unicode_len();
    if p > n || m > n - p {
        return false;
    }
    let mut k: usize = 0;
    while k < m
        invariant
            k <= m,
            m == pat@.len(),
            n == s@.len(),
            p + m <= n,
            forall|j: int| 0 <= j < k ==> s@[p + j] == #[trigger] pat@[j],
        decreases m - k,
    {
        if s.get_char(p + k) != pat.get_char(k) {
            assert(s@.subrange(p as int, p + m)[k as int] != pat@[k as int]);
            return false;
        }
        k = k + 1;
    }
    assert(s@.subrange(p as int, p + m) =~= pat@);
    true
}

fn find_exec(s: &str, pat: &str) -> (r: Option<usize>)
    ensures
        match r {
            Some(p) => find_from(s@, pat@, 0) == Some(p as int),
            None => find_from(s@, pat@, 0) is None,
        },
{
    let n = s.unicode_len();
    let m = pat.unicode_len();
    if m > n {
        return None;
    }
    let mut i: usize = 0;
    while i <= n - m
        invariant
            n == s@.len(),
            m == pat@.len(),
            m <= n,
            find_from(s@, pat@, 0) == find_from(s@, pat@, i as int),
        decreases n + 1 - i,
    {
        if m == 0 {
            assert(s@.subrange(i as int, i as int) =~= pat@);
        }
        if occurs_at_exec(s, pat, i) {
            return Some(i);
        }
        i = i + 1;
    }
    None
}

fn before_first_exec<'a>(s: &'a str, pat: &str) -> (r: &'a str)
    ensures
        r@ == before_first(s@, pat@),
{
    match find_exec(s, pat) {
        Some(p) => {
            proof {
                lemma_find_from(s@, pat@, 0);
            }
            let r = s.substring_char(0, p);
            assert(r@ =~= s@.take(p as int));
            r
        },
        None => s,
    }
}

/// The authorization code in the address that the service redirected the
/// user to; `None` where it holds no `code=`.
pub fn extract_auth_code(redirect_url: &str) -> (r: Option<String>)
    ensures
        opt_view(r) == auth_code(redirect_url@),
{
    match find_exec(redirect_url, CODE_MARK) {
        None => None,
        Some(p) => {
            proof {
                lemma_find_from(redirect_url@, CODE_MARK@, 0);
            }
            let n = redirect_url.unicode_len();
            let m = CODE_MARK.unicode_len();
            let rest = redirect_url.substring_char(p + m, n);
            assert(rest@ =~= redirect_url@.skip(p + CODE_MARK@.len()));
            let segment = before_first_exec(rest, CODE_MARK);
            let code = before_first_exec(segment, "&");
            proof {
                reveal_strlit("&");
                assert("&"@ =~= seq!['&']);
            }
            Some(code.to_owned())
        },
    }
}

/// The view of an optional string.
pub open spec fn opt_view(v: Option<String>) -> Option<Seq<char>> {
    match v {
        Some(s) => Some(s@),
        None => None,
    }
}

} // verus!
