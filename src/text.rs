use vstd::prelude::*;
use vstd::string::*;

verus! {

/// The characters of `s` from position `start` on, at most `len` of them;
/// positions past the end are ignored.
pub open spec fn substring_of(s: Seq<char>, start: int, len: int) -> Seq<char> {
    let a = if start < s.len() { start } else { s.len() as int };
    let b = if a + len < s.len() { a + len } else { s.len() as int };
    s.subrange(a, b)
}

/// Up to `len` characters of `s`, starting at character `start`.
pub fn substring(s: &str, start: usize, len: usize) -> (r: String)
    ensures
        r@ == substring_of(s@, start as int, len as int),
{
    let n = s.unicode_len();
    let a = if start < n { start } else { n };
    let b = if len < n - a { a + len } else { n };
    String::from_str(s.substring_char(a, b))
}

/// The decimal digits, in order of value.
pub open spec fn digits() -> Seq<char> {
    "0123456789"@
}

/// The decimal notation of `n`, without leading zeros.
pub open spec fn decimal(n: nat) -> Seq<char>
    decreases n,
{
    if n < 10 {
        seq![digits()[n as int]]
    } else {
        decimal(n / 10) + seq![digits()[(n % 10) as int]]
    }
}

/// Appends the decimal notation of `n` to `out`.
pub fn push_decimal(out: &mut String, n: u16)
    ensures
        final(out)@ == old(out)@ + decimal(n as nat),
    decreases n,
{
    if n >= 10 {
        push_decimal(out, n / 10);
    }
    let d: usize = (n % 10) as usize;
    proof {
        reveal_strlit("0123456789");
    }
    out.append("0123456789".substring_char(d, d + 1));
    proof {
        assert(out@ == old(out)@ + decimal(n as nat)) by {
            assert("0123456789"@.subrange(d as int, d + 1) =~= seq![digits()[d as int]]);
        }
    }
}

/// Concatenation of two strings.
pub fn join(a: &str, b: &str) -> (r: String)
    ensures
        r@ == a@ + b@,
{
    let mut r = String::from_str(a);
    r.append(b);
    r
}

} // verus!
