//! Text building blocks: decimal numerals, the leading `v` of a version
//! string, and joining a directory with a relative path.

use vstd::prelude::*;
use vstd::utf8::{decode_utf8, valid_utf8};

verus! {

/// The character that writes the digit `d`, for `d` below ten.
pub open spec fn digit_char(d: nat) -> char {
    (d + 48) as u8 as char
}

/// The decimal numeral of `n`, without leading zeros.
pub open spec fn decimal(n: nat) -> Seq<char>
    decreases n,
{
    if n < 10 {
        seq![digit_char(n)]
    } else {
        decimal(n / 10).push(digit_char(n % 10))
    }
}

/// The one-character string that writes the digit `d`.
fn digit_text(d: u64) -> (r: &'static str)
    requires
        d < 10,
    ensures
        r@ == seq![digit_char(d as nat)],
{
    proof {
        reveal_strlit("0");
        reveal_strlit("1");
        reveal_strlit("2");
        reveal_strlit("3");
        reveal_strlit("4");
        reveal_strlit("5");
        reveal_strlit("6");
        reveal_strlit("7");
        reveal_strlit("8");
        reveal_strlit("9");
    }
    let r: &'static str = if d == 0 {
        "0"
    } else if d == 1 {
        "1"
    } else if d == 2 {
        "2"
    } else if d == 3 {
        "3"
    } else if d == 4 {
        "4"
    } else if d == 5 {
        "5"
    } else if d == 6 {
        "6"
    } else if d == 7 {
        "7"
    } else if d == 8 {
        "8"
    } else {
        "9"
    };
    assert(r@ =~= seq![digit_char(d as nat)]);
    r
}

/// Writes `n` in decimal.
pub fn decimal_text(n: u64) -> (r: String)
    ensures
        r@ == decimal(n as nat),
    decreases n,
{
    if n < 10 {
        String::from_str(digit_text(n))
    } else {
        let mut r = decimal_text(n / 10);
        r.append(digit_text(n % 10));
        r
    }
}

/// What `String::from_utf8` says of bytes that are not valid UTF-8: the text
/// of the error that it returns for them.
pub uninterp spec fn utf8_error_text(bytes: Seq<u8>) -> Seq<char>;

/// `String::from_utf8`: the text that `bytes` encode, where they are valid
/// UTF-8, and the text of its error where they are not.
#[verifier::external_body]
pub(crate) fn decode_text(bytes: Vec<u8>) -> (r: Result<String, String>)
    ensures
        r is Ok <==> valid_utf8(bytes@),
        r matches Ok(s) ==> s@ == decode_utf8(bytes@),
        r matches Err(e) ==> e@ == utf8_error_text(bytes@),
{
    String::from_utf8(bytes).map_err(|e| e.to_string())
}

/// `raw` without its first character where that is a `v`, and `raw` itself
/// where it is not. One `v` is taken at most.
pub open spec fn without_leading_v(raw: Seq<char>) -> Seq<char> {
    if raw.len() > 0 && raw[0] == 'v' {
        raw.subrange(1, raw.len() as int)
    } else {
        raw
    }
}

/// Takes one leading `v` off `raw`, if there is one.
pub fn strip_leading_v(raw: &str) -> (r: &str)
    ensures
        r@ == without_leading_v(raw@),
{
    let n: usize = raw.unicode_len();
    if n > 0 && raw.get_char(0) == 'v' {
        raw.substring_char(1, n)
    } else {
        raw
    }
}

/// The path of `relative` inside the directory `dir`: the two with one `/`
/// between them, which `dir` may bring along. An empty `dir` stands for the
/// current directory and adds nothing.
pub open spec fn joined(dir: Seq<char>, relative: Seq<char>) -> Seq<char> {
    if dir.len() == 0 || dir.last() == '/' {
        dir + relative
    } else {
        dir + "/"@ + relative
    }
}

/// Joins a directory and a relative path.
pub fn join_path(dir: &str, relative: &str) -> (r: String)
    ensures
        r@ == joined(dir@, relative@),
{
    let n: usize = dir.unicode_len();
    let mut r = String::from_str(dir);
    if n > 0 && dir.get_char(n - 1) != '/' {
        r.append("/");
    }
    r.append(relative);
    r
}

/// `part` stands in `text` in one piece.
pub open spec fn occurs_in(part: Seq<char>, text: Seq<char>) -> bool {
    exists|i: int|
        0 <= i && i + part.len() <= text.len() && #[trigger] text.subrange(i, i + part.len())
            == part
}

/// What stands in a text stands in every text around it.
pub proof fn lemma_occurs_within(
    part: Seq<char>,
    before: Seq<char>,
    text: Seq<char>,
    after: Seq<char>,
)
    requires
        occurs_in(part, text),
    ensures
        occurs_in(part, before + text + after),
{
    let i = choose|i: int|
        0 <= i && i + part.len() <= text.len() && #[trigger] text.subrange(i, i + part.len())
            == part;
    let whole = before + text + after;
    let at = before.len() + i;
    assert(whole.subrange(at, at + part.len()) =~= text.subrange(i, i + part.len()));
}

/// A text stands in whatever is written around it.
pub proof fn lemma_occurs_between(before: Seq<char>, part: Seq<char>, after: Seq<char>)
    ensures
        occurs_in(part, before + part + after),
{
    assert(part.subrange(0, 0 + part.len() as int) =~= part);
    lemma_occurs_within(part, before, part, after);
}

} // verus!
