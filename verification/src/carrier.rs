//! Session carrier: pure transport of the session token. It finds a
//! token in an incoming request — `Authorization: Bearer <token>`
//! header or `token` cookie, the header winning when both are present —
//! and renders the Set-Cookie values that attach or clear the cookie on
//! login and logout. It never inspects or validates the token itself.

use vstd::prelude::*;

use vstd::string::StrSliceExecFns;

verus! {

/// The token carried by an Authorization header value: whatever follows
/// the `Bearer ` scheme prefix, if the value starts with it.
pub open spec fn bearer_token_spec(h: Seq<char>) -> Option<Seq<char>> {
    if h.len() >= 7 && h.subrange(0, 7) == "Bearer "@ {
        Some(h.subrange(7, h.len() as int))
    } else {
        None
    }
}

/// The position of the next `;` at or after `i`, or the end.
pub open spec fn value_end(s: Seq<char>, i: int) -> int
    recommends
        0 <= i <= s.len(),
    decreases s.len() - i,
{
    if i < 0 || i >= s.len() || s[i] == ';' {
        i
    } else {
        value_end(s, i + 1)
    }
}

/// Whether position `i` starts a `name=` pair.
pub open spec fn matches_name_at(s: Seq<char>, name: Seq<char>, i: int) -> bool {
    &&& s.len() - i > name.len()
    &&& s.subrange(i, i + name.len()) == name
    &&& s[i + name.len()] == '='
}

/// The value of the first `name=value` cookie pair at or after `i`.
/// Pairs are separated by `;`, each optionally preceded by spaces;
/// `at_start` says whether `i` may begin a pair.
pub open spec fn cookie_lookup_from(s: Seq<char>, name: Seq<char>, i: int, at_start: bool) -> Option<
    Seq<char>,
>
    recommends
        0 <= i,
    decreases s.len() - i,
{
    if i < 0 || i >= s.len() {
        None
    } else if s[i] == ';' {
        cookie_lookup_from(s, name, i + 1, true)
    } else if at_start && s[i] == ' ' {
        cookie_lookup_from(s, name, i + 1, true)
    } else if at_start && matches_name_at(s, name, i) {
        Some(s.subrange(i + name.len() + 1, value_end(s, i + name.len() + 1)))
    } else {
        cookie_lookup_from(s, name, i + 1, false)
    }
}

/// The value of the `name` cookie in a cookie header.
pub open spec fn cookie_token_spec(header: Seq<char>, name: Seq<char>) -> Option<Seq<char>> {
    cookie_lookup_from(header, name, 0, true)
}

/// Whether `s` carries `name=` at position `i`.
fn matches_at(s: &str, name: &str, i: usize) -> (r: bool)
    requires
        i <= s@.len(),
    ensures
        r == matches_name_at(s@, name@, i as int),
{
    let len = s.unicode_len();
    let nlen = name.unicode_len();
    if len - i <= nlen {
        return false;
    }
    let mut k: usize = 0;
    while k < nlen
        invariant
            k <= nlen,
            nlen == name@.len(),
            len == s@.len(),
            i + nlen < len,
            forall|m: int| 0 <= m < k ==> s@[i + m] == #[trigger] name@[m],
        decreases nlen - k,
    {
        if s.get_char(i + k) != name.get_char(k) {
            proof {
                assert(s@.subrange(i as int, i + name@.len())[k as int] == s@[i + k]);
            }
            return false;
        }
        k = k + 1;
    }
    proof {
        assert(s@.subrange(i as int, i + name@.len()) =~= name@);
    }
    s.get_char(i + nlen) == '='
}

/// Looks a cookie up by name in a cookie header: pairs separated by
/// `;`, optional spaces before each pair, value running to the next
/// `;` or the end. The first pair with that name wins.
pub fn cookie_value(header: &str, name: &str) -> (r: Option<String>)
    ensures
        r matches Some(v) ==> cookie_token_spec(header@, name@) == Some(v@),
        r is None ==> cookie_token_spec(header@, name@) is None,
{
    let len = header.unicode_len();
    let nlen = name.unicode_len();
    let mut i: usize = 0;
    let mut at_start = true;
    while i < len
        invariant
            i <= len,
            len == header@.len(),
            nlen == name@.len(),
            cookie_lookup_from(header@, name@, i as int, at_start) == cookie_token_spec(
                header@,
                name@,
            ),
        decreases len - i,
    {
        let c = header.get_char(i);
        if c == ';' {
            i = i + 1;
            at_start = true;
        } else if at_start && c == ' ' {
            i = i + 1;
        } else if at_start && matches_at(header, name, i) {
            let start = i + nlen + 1;
            let mut j = start;
            while j < len && header.get_char(j) != ';'
                invariant
                    start <= j <= len,
                    len == header@.len(),
                    value_end(header@, start as int) == value_end(header@, j as int),
                decreases len - j,
            {
                j = j + 1;
            }
            proof {
                assert(value_end(header@, j as int) == j);
            }
            let v = header.substring_char(start, j);
            return Some(v.to_owned());
        } else {
            i = i + 1;
            at_start = false;
        }
    }
    None
}

/// The token extracted from a request: the bearer token of the
/// Authorization header when that header carries one, else the `token`
/// cookie of the cookie header. The header takes precedence.
pub open spec fn extracted_token_spec(auth: Option<Seq<char>>, cookie: Option<Seq<char>>) -> Option<
    Seq<char>,
> {
    let from_cookie = match cookie {
        Some(c) => cookie_token_spec(c, "token"@),
        None => None,
    };
    match auth {
        Some(h) => if bearer_token_spec(h) is Some {
            bearer_token_spec(h)
        } else {
            from_cookie
        },
        None => from_cookie,
    }
}

/// The bearer token of an Authorization header value.
pub fn bearer_token(h: &str) -> (r: Option<String>)
    ensures
        r matches Some(v) ==> bearer_token_spec(h@) == Some(v@),
        r is None ==> bearer_token_spec(h@) is None,
{
    let len = h.unicode_len();
    proof {
        reveal_strlit("Bearer ");
    }
    if len < 7 {
        return None;
    }
    if h.get_char(0) == 'B' && h.get_char(1) == 'e' && h.get_char(2) == 'a' && h.get_char(3) == 'r'
        && h.get_char(4) == 'e' && h.get_char(5) == 'r' && h.get_char(6) == ' ' {
        proof {
            assert(h@.subrange(0, 7) =~= "Bearer "@);
        }
        let v = h.substring_char(7, len);
        Some(v.to_owned())
    } else {
        proof {
            assert(forall|m: int| 0 <= m < 7 ==> h@.subrange(0, 7)[m] == h@[m]);
            assert(h@.subrange(0, 7) != "Bearer "@);
        }
        None
    }
}

/// Extracts the carried session token from a request's Authorization
/// and Cookie header values, preferring the Authorization header.
pub fn extract_token(auth_header: Option<&str>, cookie_header: Option<&str>) -> (r: Option<String>)
    ensures
        r matches Some(v) ==> extracted_token_spec(
            match auth_header {
                Some(h) => Some(h@),
                None => None,
            },
            match cookie_header {
                Some(c) => Some(c@),
                None => None,
            },
        ) == Some(v@),
        r is None ==> extracted_token_spec(
            match auth_header {
                Some(h) => Some(h@),
                None => None,
            },
            match cookie_header {
                Some(c) => Some(c@),
                None => None,
            },
        ) is None,
{
    if let Some(h) = auth_header {
        if let Some(t) = bearer_token(h) {
            return Some(t);
        }
    }
    match cookie_header {
        Some(c) => cookie_value(c, "token"),
        None => None,
    }
}

/// The Set-Cookie value attached on login: the issued token in the
/// `token` cookie, http-only, lax same-site, path `/`, one hour of
/// max-age.
pub open spec fn login_cookie_spec(token: Seq<char>) -> Seq<char> {
    "token="@ + token + "; HttpOnly; SameSite=Lax; Path=/; Max-Age=3600"@
}

pub fn login_cookie(token: &str) -> (r: String)
    ensures
        r@ == login_cookie_spec(token@),
{
    let mut s = "token=".to_owned();
    s.append(token);
    s.append("; HttpOnly; SameSite=Lax; Path=/; Max-Age=3600");
    proof {
        assert(s@ =~= login_cookie_spec(token@));
    }
    s
}

/// The Set-Cookie value attached on logout: the same cookie with an
/// empty value and a negative max-age, so the client discards it.
pub fn logout_cookie() -> (r: String)
    ensures
        r@ == "token=; HttpOnly; SameSite=Lax; Path=/; Max-Age=-3600"@,
{
    let mut s = "token=".to_owned();
    s.append("; HttpOnly; SameSite=Lax; Path=/; Max-Age=-3600");
    proof {
        reveal_strlit("token=");
        reveal_strlit("; HttpOnly; SameSite=Lax; Path=/; Max-Age=-3600");
        reveal_strlit("token=; HttpOnly; SameSite=Lax; Path=/; Max-Age=-3600");
        assert(s@ =~= "token=; HttpOnly; SameSite=Lax; Path=/; Max-Age=-3600"@);
    }
    s
}

} // verus!
