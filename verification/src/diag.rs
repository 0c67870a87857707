use vstd::prelude::*;
use vstd::string::StringExecFns;
use crate::timefmt::digit_char;
use crate::timefmt::digit_str;

verus! {

/// The decimal digits of a number, most significant first, no sign and no
/// padding; zero is the single digit `0`.
pub open spec fn dec_digits(n: nat) -> Seq<char>
    decreases n,
{
    if n < 10 {
        seq![digit_char(n as int)]
    } else {
        dec_digits(n / 10).push(digit_char((n % 10) as int))
    }
}

/// A 64-bit count written in decimal.
pub fn u64_to_decimal(n: u64) -> (s: String)
    ensures
        s@ == dec_digits(n as nat),
    decreases n,
{
    if n < 10 {
        String::from_str(digit_str(n as u8))
    } else {
        let mut s = u64_to_decimal(n / 10);
        s.append(digit_str((n % 10) as u8));
        proof {
            assert(s@ =~= dec_digits(n as nat));
        }
        s
    }
}

/// The one diagnostic line emitted per completed communication unit:
/// client address, final URI, status code and accumulated byte count,
/// tab-separated.
pub open spec fn diag_line_text(client: Seq<char>, uri: Seq<char>, status: nat, bytes: nat) -> Seq<
    char,
> {
    client + seq!['\t'] + uri + seq!['\t'] + dec_digits(status) + seq!['\t'] + dec_digits(bytes)
}

/// Renders the diagnostic line for one completed unit.
pub fn diagnostic_line(client: &str, uri: &str, status: u16, bytes: u64) -> (s: String)
    ensures
        s@ == diag_line_text(client@, uri@, status as nat, bytes as nat),
{
    proof {
        reveal_strlit("\t");
    }
    let mut s = client.to_owned();
    s.append("\t");
    s.append(uri);
    s.append("\t");
    let st = u64_to_decimal(status as u64);
    s.append(st.as_str());
    s.append("\t");
    let by = u64_to_decimal(bytes);
    s.append(by.as_str());
    proof {
        assert(s@ =~= diag_line_text(client@, uri@, status as nat, bytes as nat));
    }
    s
}

} // verus!
