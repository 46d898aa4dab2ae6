//! The stable identifier of a project, derived from its root path.
use vstd::prelude::*;

use base64::Engine;

verus! {

/// A character of the standard base64 alphabet.
pub open spec fn is_base64_char(c: char) -> bool {
    ('A' <= c && c <= 'Z') || ('a' <= c && c <= 'z') || ('0' <= c && c <= '9') || c == '+' || c
        == '/'
}

/// The digit of the standard base64 alphabet with value `v` (0 to 63):
/// `A`-`Z`, `a`-`z`, `0`-`9`, `+`, `/`.
pub open spec fn base64_digit(v: int) -> char {
    if v < 26 {
        (65 + v) as char
    } else if v < 52 {
        (97 + (v - 26)) as char
    } else if v < 62 {
        (48 + (v - 52)) as char
    } else if v == 62 {
        '+'
    } else {
        '/'
    }
}

/// Standard base64 without `=` padding: every three bytes become four
/// digits of six bits each, most significant first; a last group of one or
/// two bytes becomes two or three digits, its missing bits zero.
pub open spec fn base64_standard_no_pad(bytes: Seq<u8>) -> Seq<char>
    decreases bytes.len(),
{
    if bytes.len() == 0 {
        seq![]
    } else if bytes.len() == 1 {
        let a = bytes[0] as int;
        seq![base64_digit(a / 4), base64_digit((a % 4) * 16)]
    } else if bytes.len() == 2 {
        let a = bytes[0] as int;
        let b = bytes[1] as int;
        seq![base64_digit(a / 4), base64_digit((a % 4) * 16 + b / 16), base64_digit((b % 16) * 4)]
    } else {
        let a = bytes[0] as int;
        let b = bytes[1] as int;
        let c = bytes[2] as int;
        seq![
            base64_digit(a / 4),
            base64_digit((a % 4) * 16 + b / 16),
            base64_digit((b % 16) * 4 + c / 64),
            base64_digit(c % 64),
        ] + base64_standard_no_pad(bytes.subrange(3, bytes.len() as int))
    }
}

proof fn lemma_digit_in_alphabet(v: int)
    requires
        0 <= v < 64,
    ensures
        is_base64_char(base64_digit(v)),
{
}

proof fn lemma_base64_alphabet(bytes: Seq<u8>)
    ensures
        forall|i: int|
            0 <= i < base64_standard_no_pad(bytes).len() ==> is_base64_char(
                #[trigger] base64_standard_no_pad(bytes)[i],
            ),
    decreases bytes.len(),
{
    if bytes.len() == 1 {
        let a = bytes[0] as int;
        lemma_digit_in_alphabet(a / 4);
        lemma_digit_in_alphabet((a % 4) * 16);
    } else if bytes.len() == 2 {
        let a = bytes[0] as int;
        let b = bytes[1] as int;
        lemma_digit_in_alphabet(a / 4);
        lemma_digit_in_alphabet((a % 4) * 16 + b / 16);
        lemma_digit_in_alphabet((b % 16) * 4);
    } else if bytes.len() > 2 {
        let a = bytes[0] as int;
        let b = bytes[1] as int;
        let c = bytes[2] as int;
        lemma_digit_in_alphabet(a / 4);
        lemma_digit_in_alphabet((a % 4) * 16 + b / 16);
        lemma_digit_in_alphabet((b % 16) * 4 + c / 64);
        lemma_digit_in_alphabet(c % 64);
        let rest = bytes.subrange(3, bytes.len() as int);
        lemma_base64_alphabet(rest);
        let head = seq![
            base64_digit(a / 4),
            base64_digit((a % 4) * 16 + b / 16),
            base64_digit((b % 16) * 4 + c / 64),
            base64_digit(c % 64),
        ];
        let all = base64_standard_no_pad(bytes);
        assert(all == head + base64_standard_no_pad(rest));
        assert forall|i: int| 0 <= i < all.len() implies is_base64_char(#[trigger] all[i]) by {
            if i >= 4 {
                assert(all[i] == base64_standard_no_pad(rest)[i - 4]);
            }
        }
    }
}

/// `base64::engine::general_purpose::STANDARD_NO_PAD.encode`: standard
/// alphabet base64 without padding, as the crate documents for this engine.
#[verifier::external_body]
fn encode_standard_no_pad(bytes: &[u8]) -> (r: String)
    ensures
        r@ == base64_standard_no_pad(bytes@),
{
    base64::engine::general_purpose::STANDARD_NO_PAD.encode(bytes)
}

/// The project id: the UTF-8 bytes of the root path in unpadded standard
/// base64.
pub fn derive(project_root: &str) -> (r: String)
    ensures
        r@ == base64_standard_no_pad(vstd::utf8::encode_utf8(project_root@)),
        forall|i: int| 0 <= i < r@.len() ==> is_base64_char(#[trigger] r@[i]),
{
    let r = encode_standard_no_pad(project_root.as_bytes());
    proof {
        lemma_base64_alphabet(vstd::utf8::encode_utf8(project_root@));
    }
    r
}

} // verus!
