//! The worker's connection configuration: building the sink URL from the
//! optional credential the environment supplies.

use vstd::prelude::*;
use vstd::string::StringExecFns;

verus! {

/// The characters of the sink connection URL for a given credential and
/// sink endpoint. With a credential the URL carries it as the password
/// section; without one the URL carries no password section at all, so
/// the connection is attempted unauthenticated — absence is "no
/// credential", never an error and never a placeholder password.
pub open spec fn sink_url_spec(credential: Option<Seq<char>>, endpoint: Seq<char>) -> Seq<char> {
    match credential {
        Some(c) => "redis://:"@ + c + "@"@ + endpoint + "/"@,
        None => "redis://"@ + endpoint + "/"@,
    }
}

/// Builds the URL the worker opens its sink connection with. The
/// endpoint (host and port) is supplied by the caller, not baked in; an
/// absent credential leaves the URL without a password section.
pub fn sink_url(credential: Option<&str>, endpoint: &str) -> (r: String)
    ensures
        r@ == sink_url_spec(
            match credential {
                Some(c) => Some(c@),
                None => None::<Seq<char>>,
            },
            endpoint@,
        ),
{
    let mut url = String::new();
    match credential {
        Some(c) => {
            url.append("redis://:");
            url.append(c);
            url.append("@");
        },
        None => {
            url.append("redis://");
        },
    }
    url.append(endpoint);
    url.append("/");
    proof {
        assert(url@ =~= sink_url_spec(
            match credential {
                Some(c) => Some(c@),
                None => None::<Seq<char>>,
            },
            endpoint@,
        ));
    }
    url
}

/// The character for one decimal digit.
pub open spec fn digit_char(d: nat) -> char {
    if d == 0 {
        '0'
    } else if d == 1 {
        '1'
    } else if d == 2 {
        '2'
    } else if d == 3 {
        '3'
    } else if d == 4 {
        '4'
    } else if d == 5 {
        '5'
    } else if d == 6 {
        '6'
    } else if d == 7 {
        '7'
    } else if d == 8 {
        '8'
    } else {
        '9'
    }
}

/// The decimal digit characters of `n`, most significant first, with no
/// leading zeroes (`0` itself is the single character `0`).
pub open spec fn dec_chars(n: nat) -> Seq<char>
    decreases n,
{
    if n < 10 {
        seq![digit_char(n)]
    } else {
        dec_chars(n / 10) + seq![digit_char(n % 10)]
    }
}

/// Appends the decimal digits of `n` to `out`.
fn append_dec(out: &mut String, n: u16)
    ensures
        final(out)@ == old(out)@ + dec_chars(n as nat),
    decreases n,
{
    if n >= 10 {
        append_dec(out, n / 10);
    }
    let d = n % 10;
    let s: &str = if d == 0 {
        "0"
    } else if d == 1 {
        "1"
    } else if d == 2 {
        "2"
    } else if d == 3 {
        "3"
    } else if d == 4 {
        "4"
    } else if d == 5 {
        "5"
    } else if d == 6 {
        "6"
    } else if d == 7 {
        "7"
    } else if d == 8 {
        "8"
    } else {
        "9"
    };
    proof {
        reveal_strlit("0");
        reveal_strlit("1");
        reveal_strlit("2");
        reveal_strlit("3");
        reveal_strlit("4");
        reveal_strlit("5");
        reveal_strlit("6");
        reveal_strlit("7");
        reveal_strlit("8");
        reveal_strlit("9");
        assert(s@ =~= seq![digit_char(d as nat)]);
    }
    out.append(s);
    proof {
        assert(out@ =~= old(out)@ + dec_chars(n as nat));
    }
}

/// The characters of the listener's bind address: always the wildcard
/// address — listen on all interfaces — with the given port.
pub open spec fn bind_address_spec(port: u16) -> Seq<char> {
    "0.0.0.0:"@ + dec_chars(port as nat)
}

/// Builds the address text the listener binds to. The port is supplied by
/// the caller; the address part is always the wildcard address.
pub fn bind_address(port: u16) -> (r: String)
    ensures
        r@ == bind_address_spec(port),
{
    let mut addr = String::new();
    addr.append("0.0.0.0:");
    append_dec(&mut addr, port);
    proof {
        assert(addr@ =~= bind_address_spec(port));
    }
    addr
}

} // verus!
