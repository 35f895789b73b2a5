//! URL-safe base64 text with padding, the form in which tokens travel as
//! text.
use vstd::prelude::*;

verus! {

/// The URL-safe base64 digit of a value below sixty-four: `A`-`Z`, `a`-`z`,
/// `0`-`9`, then `-` and `_`.
pub open spec fn url_digit(n: int) -> char {
    if n < 26 {
        (n + 65) as char
    } else if n < 52 {
        (n + 71) as char
    } else if n < 62 {
        (n - 4) as char
    } else if n == 62 {
        '-'
    } else {
        '_'
    }
}

/// The URL-safe base64 text of a byte string: each group of three bytes
/// becomes four digits, six bits each, most significant first; a last
/// group of one or two bytes becomes two or three digits padded with `=`
/// to four.
pub open spec fn url_base64(b: Seq<u8>) -> Seq<char>
    decreases b.len(),
{
    if b.len() == 0 {
        Seq::empty()
    } else if b.len() == 1 {
        seq![url_digit(b[0] as int / 4), url_digit((b[0] as int % 4) * 16), '=', '=']
    } else if b.len() == 2 {
        seq![
            url_digit(b[0] as int / 4),
            url_digit((b[0] as int % 4) * 16 + b[1] as int / 16),
            url_digit((b[1] as int % 16) * 4),
            '=',
        ]
    } else {
        seq![
            url_digit(b[0] as int / 4),
            url_digit((b[0] as int % 4) * 16 + b[1] as int / 16),
            url_digit((b[1] as int % 16) * 4 + b[2] as int / 64),
            url_digit(b[2] as int % 64),
        ] + url_base64(b.subrange(3, b.len() as int))
    }
}

} // verus!
