use vstd::prelude::*;
use vstd::string::StringExecFns;
use vstd::utf8::{decode_utf8, valid_utf8};

verus! {

/// The character of a decimal digit.
pub open spec fn digit_char(d: nat) -> char {
    if d == 0 {
        '0'
    } else if d == 1 {
        '1'
    } else if d == 2 {
        '2'
    } else if d == 3 {
        '3'
    } else if d == 4 {
        '4'
    } else if d == 5 {
        '5'
    } else if d == 6 {
        '6'
    } else if d == 7 {
        '7'
    } else if d == 8 {
        '8'
    } else {
        '9'
    }
}

/// The decimal digits of `n`, most significant first, without leading zeros.
pub open spec fn decimal(n: nat) -> Seq<char>
    decreases n,
{
    if n < 10 {
        seq![digit_char(n)]
    } else {
        decimal(n / 10).push(digit_char(n % 10))
    }
}

fn digit_str(d: u32) -> (r: &'static str)
    requires
        d < 10,
    ensures
        r@ == seq![digit_char(d as nat)],
{
    proof {
        reveal_strlit("0");
        reveal_strlit("1");
        reveal_strlit("2");
        reveal_strlit("3");
        reveal_strlit("4");
        reveal_strlit("5");
        reveal_strlit("6");
        reveal_strlit("7");
        reveal_strlit("8");
        reveal_strlit("9");
    }
    let r = match d {
        0 => "0",
        1 => "1",
        2 => "2",
        3 => "3",
        4 => "4",
        5 => "5",
        6 => "6",
        7 => "7",
        8 => "8",
        _ => "9",
    };
    assert(r@ =~= seq![digit_char(d as nat)]);
    r
}

/// Appends the decimal digits of `n` to `s`.
pub fn push_decimal(s: &mut String, n: u32)
    ensures
        final(s)@ == old(s)@ + decimal(n as nat),
    decreases n,
{
    if n >= 10 {
        push_decimal(s, n / 10);
    }
    s.append(digit_str(n % 10));
    assert(old(s)@ + decimal(n as nat) =~= s@);
}

/// Whether `i` is the index of the first zero byte of `field`.
pub open spec fn is_first_nul(field: Seq<u8>, i: int) -> bool {
    &&& 0 <= i < field.len()
    &&& field[i] == 0
    &&& forall|j: int| 0 <= j < i ==> #[trigger] field[j] != 0
}

/// The bytes of the C string stored in a fixed-size text field: those before
/// the first zero byte, or all of them where there is none.
pub open spec fn c_string_of(field: Seq<u8>) -> Seq<u8> {
    if exists|i: int| is_first_nul(field, i) {
        field.take(choose|i: int| is_first_nul(field, i))
    } else {
        field
    }
}

/// The bytes of the C string stored in a fixed-size text field.
pub fn c_string_bytes(field: &[u8]) -> (r: Vec<u8>)
    ensures
        r@ == c_string_of(field@),
{
    let mut r: Vec<u8> = Vec::new();
    let mut i: usize = 0;
    while i < field.len() && field[i] != 0
        invariant
            i <= field@.len(),
            r@ == field@.take(i as int),
            forall|j: int| 0 <= j < i ==> #[trigger] field@[j] != 0,
        decreases field@.len() - i,
    {
        r.push(field[i]);
        i = i + 1;
        assert(r@ =~= field@.take(i as int));
    }
    if i < field.len() {
        proof {
            assert(is_first_nul(field@, i as int));
            let k = choose|k: int| is_first_nul(field@, k);
            if k < i {
                assert(field@[k] != 0);
            }
            if k > i {
                assert(field@[i as int] != 0);
            }
            assert(k == i);
        }
    } else {
        assert(r@ =~= field@);
        assert(!exists|k: int| is_first_nul(field@, k));
    }
    r
}

/// Whether `c` is printable ASCII that Rust's `Debug` rendering of a string
/// leaves as it stands: a space or a visible character other than `"` and `\`.
pub open spec fn is_plain_char(c: char) -> bool {
    ' ' <= c <= '~' && c != '"' && c != '\\'
}

/// What `format!("{:?}", s)` makes of the string `s`.
pub uninterp spec fn debug_str_of(s: Seq<char>) -> Seq<char>;

/// Relies on the `Debug` rendering of `str` (through `format!("{:?}", ..)`):
/// the string in double quotes, with `"`, `\` and the characters that are not
/// printable escaped; printable ASCII other than `"` and `\` stays as it is.
#[verifier::external_body]
pub(crate) fn debug_str(s: &str) -> (r: String)
    ensures
        r@ == debug_str_of(s@),
        r@.len() >= 2,
        r@[0] == '"',
        r@.last() == '"',
        (forall|i: int| 0 <= i < s@.len() ==> is_plain_char(#[trigger] s@[i])) ==> r@ == seq!['"']
            + s@ + seq!['"'],
{
    format!("{:?}", s)
}

/// What `String::from_utf8_lossy` makes of a sequence of bytes.
pub uninterp spec fn utf8_lossy_of(bytes: Seq<u8>) -> Seq<char>;

/// Relies on `String::from_utf8_lossy`: the text of some bytes, in which each
/// sequence that is not valid UTF-8 is replaced by U+FFFD; valid UTF-8 is
/// decoded as it stands.
#[verifier::external_body]
fn utf8_lossy(bytes: &[u8]) -> (r: String)
    ensures
        r@ == utf8_lossy_of(bytes@),
        valid_utf8(bytes@) ==> r@ == decode_utf8(bytes@),
{
    String::from_utf8_lossy(bytes).into_owned()
}

/// The text of the C string stored in a fixed-size text field that the
/// driver filled in (a serial number, a description).
pub fn c_string(field: &[u8]) -> (r: String)
    ensures
        r@ == utf8_lossy_of(c_string_of(field@)),
        valid_utf8(c_string_of(field@)) ==> r@ == decode_utf8(c_string_of(field@)),
{
    let bytes = c_string_bytes(field);
    utf8_lossy(bytes.as_slice())
}

} // verus!
