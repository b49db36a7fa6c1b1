//! The `Set-Cookie` headers that carry signed cookies to a browser.

use crate::text::{decimal_text, i64_to_decimal};
use vstd::prelude::*;
use vstd::string::StringExecFns;

verus! {

/// The attributes that follow name and value in every cookie header.
pub open spec fn cookie_attributes(domain: Option<Seq<char>>, secure: bool, max_age: int) -> Seq<
    char,
> {
    let scope = match domain {
        Some(d) => if d.len() > 0 {
            "; Domain="@ + d
        } else {
            Seq::empty()
        },
        None => Seq::empty(),
    };
    let secure_flag = if secure {
        "; Secure"@
    } else {
        Seq::empty()
    };
    scope + "; Path=/; Max-Age="@ + decimal_text(max_age) + "; HttpOnly"@ + secure_flag
        + "; SameSite=None"@
}

/// The header for one cookie.
pub open spec fn cookie_header(
    name: Seq<char>,
    value: Seq<char>,
    domain: Option<Seq<char>>,
    secure: bool,
    max_age: int,
) -> Seq<char> {
    name + "="@ + value + cookie_attributes(domain, secure, max_age)
}

/// The headers for a list of cookies, one for one.
pub open spec fn cookie_headers(
    cookies: Seq<(Seq<char>, Seq<char>)>,
    domain: Option<Seq<char>>,
    secure: bool,
    max_age: int,
) -> Seq<Seq<char>> {
    Seq::new(
        cookies.len(),
        |i: int| cookie_header(cookies[i].0, cookies[i].1, domain, secure, max_age),
    )
}

/// An optional domain as contracts see it.
pub open spec fn domain_view(domain: Option<&str>) -> Option<Seq<char>> {
    match domain {
        Some(d) => Some(d@),
        None => None,
    }
}

/// Formats the `Set-Cookie` header of each cookie: name and value, the
/// domain where one is given and not empty, the path `/`, the lifetime in
/// seconds, `HttpOnly`, `Secure` where asked for, and `SameSite=None`.
pub fn format_cookie_headers(
    cookies: Vec<(String, String)>,
    domain: Option<&str>,
    secure: bool,
    duration_seconds: i64,
) -> (headers: Vec<String>)
    ensures
        headers.deep_view() == cookie_headers(
            cookies.deep_view(),
            domain_view(domain),
            secure,
            duration_seconds as int,
        ),
{
    let max_age = i64_to_decimal(duration_seconds);
    let mut attributes = String::new();
    match domain {
        Some(d) => {
            if d.unicode_len() > 0 {
                attributes.append("; Domain=");
                attributes.append(d);
            }
        },
        None => {},
    }
    attributes.append("; Path=/; Max-Age=");
    attributes.append(max_age.as_str());
    attributes.append("; HttpOnly");
    if secure {
        attributes.append("; Secure");
    }
    attributes.append("; SameSite=None");
    assert(attributes@ =~= cookie_attributes(
        domain_view(domain),
        secure,
        duration_seconds as int,
    ));
    let mut headers: Vec<String> = Vec::new();
    let mut i: usize = 0;
    assert(headers.deep_view() =~= Seq::<Seq<char>>::empty());
    while i < cookies.len()
        invariant
            i <= cookies.len(),
            attributes@ == cookie_attributes(domain_view(domain), secure, duration_seconds as int),
            headers.deep_view() == cookie_headers(
                cookies.deep_view(),
                domain_view(domain),
                secure,
                duration_seconds as int,
            ).take(i as int),
        decreases cookies.len() - i,
    {
        let ghost before = headers.deep_view();
        let mut header = cookies[i].0.clone();
        header.append("=");
        header.append(cookies[i].1.as_str());
        header.append(attributes.as_str());
        assert(cookies.deep_view()[i as int] == (cookies@[i as int].0@, cookies@[i as int].1@));
        headers.push(header);
        assert(headers.deep_view() =~= before.push(header@));
        assert(headers.deep_view() =~= cookie_headers(
            cookies.deep_view(),
            domain_view(domain),
            secure,
            duration_seconds as int,
        ).take(i + 1));
        i = i + 1;
    }
    assert(headers.deep_view() =~= cookie_headers(
        cookies.deep_view(),
        domain_view(domain),
        secure,
        duration_seconds as int,
    ));
    headers
}

} // verus!
