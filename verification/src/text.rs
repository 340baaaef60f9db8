//! Text that the balancer composes: decimal numbers and URLs.
use vstd::prelude::*;
use vstd::string::StringExecFns;

verus! {

/// The character of a decimal digit.
pub open spec fn digit(d: nat) -> char
    recommends
        d < 10,
{
    if d == 0 {
        '0'
    } else if d == 1 {
        '1'
    } else if d == 2 {
        '2'
    } else if d == 3 {
        '3'
    } else if d == 4 {
        '4'
    } else if d == 5 {
        '5'
    } else if d == 6 {
        '6'
    } else if d == 7 {
        '7'
    } else if d == 8 {
        '8'
    } else {
        '9'
    }
}

/// The decimal numeral of `n`, without leading zeros.
pub open spec fn decimal(n: nat) -> Seq<char>
    decreases n,
{
    if n < 10 {
        seq![digit(n)]
    } else {
        decimal(n / 10).push(digit(n % 10))
    }
}

/// The scheme prefix of a URL: `https://` where `secure`, else `http://`.
pub open spec fn scheme(secure: bool) -> Seq<char> {
    if secure {
        "https://"@
    } else {
        "http://"@
    }
}

/// The base URL of an endpoint: scheme, host, a colon and the port in decimal.
pub open spec fn base_url(secure: bool, host: Seq<char>, port: u16) -> Seq<char> {
    scheme(secure) + host + ":"@ + decimal(port as nat)
}

fn digit_str(d: u64) -> (s: &'static str)
    requires
        d < 10,
    ensures
        s@ == seq![digit(d as nat)],
{
    proof {
        reveal_strlit("0");
        reveal_strlit("1");
        reveal_strlit("2");
        reveal_strlit("3");
        reveal_strlit("4");
        reveal_strlit("5");
        reveal_strlit("6");
        reveal_strlit("7");
        reveal_strlit("8");
        reveal_strlit("9");
    }
    let s = if d == 0 {
        "0"
    } else if d == 1 {
        "1"
    } else if d == 2 {
        "2"
    } else if d == 3 {
        "3"
    } else if d == 4 {
        "4"
    } else if d == 5 {
        "5"
    } else if d == 6 {
        "6"
    } else if d == 7 {
        "7"
    } else if d == 8 {
        "8"
    } else {
        "9"
    };
    assert(s@ =~= seq![digit(d as nat)]);
    s
}

/// Appends the decimal numeral of `n` to `out`.
pub fn push_decimal(out: &mut String, n: u64)
    ensures
        final(out)@ == old(out)@ + decimal(n as nat),
    decreases n,
{
    if n >= 10 {
        push_decimal(out, n / 10);
    }
    out.append(digit_str(n % 10));
    proof {
        if n >= 10 {
            assert(out@ =~= old(out)@ + decimal((n / 10) as nat).push(digit((n % 10) as nat)));
        } else {
            assert(out@ =~= old(out)@ + seq![digit(n as nat)]);
        }
    }
}

/// The base URL of an endpoint as a string.
pub fn make_base_url(secure: bool, host: &str, port: u16) -> (url: String)
    ensures
        url@ == base_url(secure, host@, port),
{
    let mut url = String::from_str(
        if secure {
            "https://"
        } else {
            "http://"
        },
    );
    url.append(host);
    url.append(":");
    push_decimal(&mut url, port as u64);
    url
}

/// The URL of one outbound request: the base URL of the upstream followed by
/// the path and query of the inbound request.
pub fn outbound_url(base: &str, path_and_query: &str) -> (url: String)
    ensures
        url@ == base@ + path_and_query@,
{
    let mut url = String::from_str(base);
    url.append(path_and_query);
    url
}

} // verus!
