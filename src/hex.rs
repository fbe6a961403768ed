use vstd::prelude::*;
use vstd::string::StringExecFns;

verus! {

/// The hexadecimal digit for a value below sixteen.
pub open spec fn hex_digit(n: int, upper: bool) -> char {
    if n == 0 { '0' } else if n == 1 { '1' } else if n == 2 { '2' } else if n == 3 { '3' }
    else if n == 4 { '4' } else if n == 5 { '5' } else if n == 6 { '6' } else if n == 7 { '7' }
    else if n == 8 { '8' } else if n == 9 { '9' }
    else if n == 10 { if upper { 'A' } else { 'a' } }
    else if n == 11 { if upper { 'B' } else { 'b' } }
    else if n == 12 { if upper { 'C' } else { 'c' } }
    else if n == 13 { if upper { 'D' } else { 'd' } }
    else if n == 14 { if upper { 'E' } else { 'e' } }
    else { if upper { 'F' } else { 'f' } }
}

/// Two hexadecimal digits per byte, the high half first.
pub open spec fn hex_of(b: Seq<u8>, upper: bool) -> Seq<char>
    decreases b.len(),
{
    if b.len() == 0 {
        Seq::empty()
    } else {
        seq![hex_digit((b[0] / 16) as int, upper), hex_digit((b[0] % 16) as int, upper)] + hex_of(b.drop_first(), upper)
    }
}

/// Relies on hex_simd's `encode_to_string`: two digits per byte, the high
/// half first, in the case asked for.
#[verifier::external_body]
pub(crate) fn encode_hex(bytes: &[u8], upper: bool) -> (r: String)
    ensures
        r@ == hex_of(bytes@, upper),
{
    let case = if upper {
        hex_simd::AsciiCase::Upper
    } else {
        hex_simd::AsciiCase::Lower
    };
    hex_simd::encode_to_string(bytes, case)
}

/// The three texts one after another.
pub(crate) fn concat3(a: &str, b: &str, c: &str) -> (r: String)
    ensures
        r@ == a@ + b@ + c@,
{
    let mut r = <String as StringExecFns>::from_str(a);
    r.append(b);
    r.append(c);
    r
}

} // verus!
