//! Decimal rendering of port numbers and construction of the server URL.

use vstd::prelude::*;

verus! {

/// The character for a single decimal digit.
pub open spec fn digit_char(d: nat) -> char
    recommends
        d < 10,
{
    if d == 0 {
        '0'
    } else if d == 1 {
        '1'
    } else if d == 2 {
        '2'
    } else if d == 3 {
        '3'
    } else if d == 4 {
        '4'
    } else if d == 5 {
        '5'
    } else if d == 6 {
        '6'
    } else if d == 7 {
        '7'
    } else if d == 8 {
        '8'
    } else {
        '9'
    }
}

/// The decimal representation of `n`, most significant digit first,
/// with no leading zeros (a single `'0'` for zero itself).
pub open spec fn dec_digits(n: nat) -> Seq<char>
    decreases n,
{
    if n < 10 {
        seq![digit_char(n)]
    } else {
        dec_digits(n / 10) + seq![digit_char(n % 10)]
    }
}

/// The URL under which a server listening on `port` of the loopback
/// interface is reached.
pub open spec fn url_chars(port: u16) -> Seq<char> {
    "http://127.0.0.1:"@ + dec_digits(port as nat)
}

fn digit_str(d: u8) -> (r: &'static str)
    requires
        d < 10,
    ensures
        r@ == seq![digit_char(d as nat)],
{
    match d {
        0 => {
            proof {
                reveal_strlit("0");
            }
            let r = "0";
            assert(r@ =~= seq![digit_char(d as nat)]);
            r
        },
        1 => {
            proof {
                reveal_strlit("1");
            }
            let r = "1";
            assert(r@ =~= seq![digit_char(d as nat)]);
            r
        },
        2 => {
            proof {
                reveal_strlit("2");
            }
            let r = "2";
            assert(r@ =~= seq![digit_char(d as nat)]);
            r
        },
        3 => {
            proof {
                reveal_strlit("3");
            }
            let r = "3";
            assert(r@ =~= seq![digit_char(d as nat)]);
            r
        },
        4 => {
            proof {
                reveal_strlit("4");
            }
            let r = "4";
            assert(r@ =~= seq![digit_char(d as nat)]);
            r
        },
        5 => {
            proof {
                reveal_strlit("5");
            }
            let r = "5";
            assert(r@ =~= seq![digit_char(d as nat)]);
            r
        },
        6 => {
            proof {
                reveal_strlit("6");
            }
            let r = "6";
            assert(r@ =~= seq![digit_char(d as nat)]);
            r
        },
        7 => {
            proof {
                reveal_strlit("7");
            }
            let r = "7";
            assert(r@ =~= seq![digit_char(d as nat)]);
            r
        },
        8 => {
            proof {
                reveal_strlit("8");
            }
            let r = "8";
            assert(r@ =~= seq![digit_char(d as nat)]);
            r
        },
        _ => {
            proof {
                reveal_strlit("9");
            }
            let r = "9";
            assert(r@ =~= seq![digit_char(d as nat)]);
            r
        },
    }
}

/// Appends the decimal representation of `n` to `out`.
fn push_decimal(n: u16, out: &mut String)
    ensures
        final(out)@ == old(out)@ + dec_digits(n as nat),
    decreases n,
{
    if n >= 10 {
        push_decimal(n / 10, out);
    }
    let d = (n % 10) as u8;
    out.append(digit_str(d));
    proof {
        assert(out@ =~= old(out)@ + dec_digits(n as nat));
    }
}

/// Renders `n` in decimal, as the supervisor writes a port number.
pub fn decimal_string(n: u16) -> (r: String)
    ensures
        r@ == dec_digits(n as nat),
{
    let mut s = String::new();
    push_decimal(n, &mut s);
    proof {
        assert(s@ =~= dec_digits(n as nat));
    }
    s
}

/// Builds the loopback URL for `port`.
pub fn loopback_url(port: u16) -> (r: String)
    ensures
        r@ == url_chars(port),
{
    let mut s = String::from_str("http://127.0.0.1:");
    push_decimal(port, &mut s);
    s
}

} // verus!
