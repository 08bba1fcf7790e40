//! The server's options, computed from the plain values of the command line.
//!
//! Reading the command line itself is I/O glue and stays outside the library;
//! what each raw value means — the defaults and the port fallback — is fixed
//! here.

use vstd::prelude::*;
use vstd::string::*;

verus! {

/// The port used when none is given or the given one does not parse.
pub const FALLBACK_PORT: u16 = 3000;

/// The value of the decimal digit `c`.
pub open spec fn digit_val(c: char) -> nat {
    match c {
        '0' => 0,
        '1' => 1,
        '2' => 2,
        '3' => 3,
        '4' => 4,
        '5' => 5,
        '6' => 6,
        '7' => 7,
        '8' => 8,
        '9' => 9,
        _ => 0,
    }
}

/// True when `c` is a decimal digit.
pub open spec fn is_digit(c: char) -> bool {
    c == '0' || c == '1' || c == '2' || c == '3' || c == '4' || c == '5' || c == '6' || c == '7'
        || c == '8' || c == '9'
}

/// The number that the digit string `s` denotes.
pub open spec fn digits_value(s: Seq<char>) -> nat
    decreases s.len(),
{
    if s.len() == 0 {
        0
    } else {
        digits_value(s.drop_last()) * 10 + digit_val(s.last())
    }
}

/// The digits of a port string: one optional leading `+` sign is allowed
/// and stands for nothing.
pub open spec fn port_digits(s: Seq<char>) -> Seq<char> {
    if s.len() > 0 && s[0] == '+' {
        s.drop_first()
    } else {
        s
    }
}

/// The port number that `s` denotes: an optional `+` followed by a
/// non-empty string of decimal digits whose value fits in a `u16`; anything
/// else denotes none.
pub open spec fn parse_port_spec(s: Seq<char>) -> Option<u16> {
    let d = port_digits(s);
    if d.len() > 0 && (forall|i: int| 0 <= i < d.len() ==> is_digit(d[i])) && digits_value(d)
        <= 65535 {
        Some(digits_value(d) as u16)
    } else {
        None
    }
}

/// Once a prefix of a digit string is already past the largest port, the
/// whole string is too.
proof fn lemma_digits_prefix_over(s: Seq<char>, i: int)
    requires
        0 <= i <= s.len(),
        digits_value(s.subrange(0, i)) > 65535,
    ensures
        digits_value(s) > 65535,
    decreases s.len() - i,
{
    if i == s.len() {
        assert(s.subrange(0, i) =~= s);
    } else {
        assert(s.subrange(0, i + 1).drop_last() =~= s.subrange(0, i));
        assert(s.subrange(0, i + 1).last() == s[i]);
        lemma_digits_prefix_over(s, i + 1);
    }
}

/// The port number that `s` denotes, as `parse_port_spec` fixes it.
pub fn parse_port(s: &str) -> (r: Option<u16>)
    ensures
        r == parse_port_spec(s@),
{
    let full = s.unicode_len();
    let digits: &str = if full > 0 && s.get_char(0) == '+' {
        s.substring_char(1, full)
    } else {
        s
    };
    proof {
        assert(digits@ =~= port_digits(s@));
    }
    let n = digits.unicode_len();
    if n == 0 {
        return None;
    }
    let mut acc: u32 = 0;
    let mut i: usize = 0;
    while i < n
        invariant
            n == digits@.len(),
            digits@ == port_digits(s@),
            i <= n,
            forall|j: int| 0 <= j < i ==> is_digit(digits@[j]),
            acc == digits_value(digits@.subrange(0, i as int)),
            acc <= 65535,
        decreases n - i,
    {
        let c = digits.get_char(i);
        let d: u32 = match c {
            '0' => 0,
            '1' => 1,
            '2' => 2,
            '3' => 3,
            '4' => 4,
            '5' => 5,
            '6' => 6,
            '7' => 7,
            '8' => 8,
            '9' => 9,
            _ => { return None },
        };
        let next: u32 = acc * 10 + d;
        proof {
            assert(digits@.subrange(0, i + 1).drop_last() =~= digits@.subrange(0, i as int));
            assert(digits@.subrange(0, i + 1).last() == digits@[i as int]);
        }
        if next > 65535 {
            proof {
                lemma_digits_prefix_over(digits@, i + 1);
            }
            return None;
        }
        acc = next;
        i += 1;
    }
    proof {
        assert(digits@.subrange(0, n as int) =~= digits@);
    }
    Some(acc as u16)
}

/// The server's options.
pub struct Opts {
    /// The directory that acts as the root for static files.
    pub directory: String,
    /// The port on which the server listens.
    pub port: u16,
    /// Disables automatic browser refreshing when files change.
    pub no_auto_refresh: bool,
    /// Opens a browser to the website after starting the server.
    pub open: bool,
}

impl Opts {
    /// Computes the options from the raw command-line values: a missing
    /// directory means the current one, and a missing or malformed port means
    /// `FALLBACK_PORT`.
    pub fn parse(
        directory: Option<String>,
        port: Option<String>,
        no_auto_refresh: bool,
        open: bool,
    ) -> (o: Opts)
        ensures
            o.directory@ == match directory {
                Some(d) => d@,
                None => "."@,
            },
            o.port == match port {
                Some(p) => match parse_port_spec(p@) {
                    Some(v) => v,
                    None => FALLBACK_PORT,
                },
                None => FALLBACK_PORT,
            },
            o.no_auto_refresh == no_auto_refresh,
            o.open == open,
    {
        let directory = match directory {
            Some(d) => d,
            None => ".".to_owned(),
        };
        let port = match port {
            Some(p) => match parse_port(p.as_str()) {
                Some(v) => v,
                None => FALLBACK_PORT,
            },
            None => FALLBACK_PORT,
        };
        Opts { directory, port, no_auto_refresh, open }
    }
}

} // verus!
