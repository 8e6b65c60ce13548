//! Text helpers: decimal numbers, lengths in bytes, and the buffer that a
//! passcode is typed into.

use vstd::prelude::*;
use vstd::string::*;
use vstd::utf8::encode_utf8;
use zeroize::Zeroize;

verus! {

/// The character of a decimal digit.
pub open spec fn digit_char(digit: nat) -> char {
    (48 + digit) as char
}

/// `n` in decimal, without leading zeros.
pub open spec fn decimal_text(n: nat) -> Seq<char>
    decreases n,
{
    if n < 10 {
        seq![digit_char(n)]
    } else {
        decimal_text(n / 10).push(digit_char(n % 10))
    }
}

/// The decimal digit `digit` as text.
fn digit_text(digit: u64) -> (text: &'static str)
    requires
        digit < 10,
    ensures
        text@ == seq![digit_char(digit as nat)],
{
    proof {
        reveal_strlit("0");
        reveal_strlit("1");
        reveal_strlit("2");
        reveal_strlit("3");
        reveal_strlit("4");
        reveal_strlit("5");
        reveal_strlit("6");
        reveal_strlit("7");
        reveal_strlit("8");
        reveal_strlit("9");
    }
    match digit {
        0 => "0",
        1 => "1",
        2 => "2",
        3 => "3",
        4 => "4",
        5 => "5",
        6 => "6",
        7 => "7",
        8 => "8",
        _ => "9",
    }
}

/// `n` in decimal, without leading zeros.
pub fn decimal(n: u64) -> (text: String)
    ensures
        text@ == decimal_text(n as nat),
    decreases n,
{
    if n < 10 {
        digit_text(n).to_owned()
    } else {
        decimal(n / 10).concat(digit_text(n % 10))
    }
}

/// Two numbers with the same decimal text are the same number.
pub proof fn law_decimal_text_is_injective(a: nat, b: nat)
    requires
        decimal_text(a) == decimal_text(b),
    ensures
        a == b,
    decreases a,
{
    lemma_decimal_text_is_not_empty(a / 10);
    lemma_decimal_text_is_not_empty(b / 10);
    assert(digit_char(a % 10) as nat == 48 + a % 10);
    assert(digit_char(b % 10) as nat == 48 + b % 10);
    assert(decimal_text(a).last() == digit_char(a % 10));
    assert(decimal_text(b).last() == digit_char(b % 10));
    if a >= 10 {
        assert(decimal_text(a).drop_last() =~= decimal_text(a / 10));
        assert(decimal_text(b).drop_last() =~= decimal_text(b / 10));
        law_decimal_text_is_injective(a / 10, b / 10);
    }
}

/// The number that a text of digits stands for, read from the left.
pub open spec fn read_decimal(text: Seq<char>) -> nat
    decreases text.len(),
{
    if text.len() == 0 {
        0
    } else {
        (10 * read_decimal(text.drop_last()) + (text.last() as int - '0' as int)) as nat
    }
}

/// Decimal text reads back as the number: it is made of digits alone, has no leading
/// zero unless it is the zero, and stands for the number that it was made of.
pub proof fn law_decimal_text_reads_back(n: nat)
    ensures
        read_decimal(decimal_text(n)) == n,
        forall|i: int|
            0 <= i < decimal_text(n).len() ==> '0' <= #[trigger] decimal_text(n)[i] <= '9',
        decimal_text(n).len() > 0,
        n > 0 ==> decimal_text(n)[0] != '0',
    decreases n,
{
    reveal_with_fuel(read_decimal, 2);
    assert(digit_char(n % 10) as nat == 48 + n % 10);
    if n >= 10 {
        law_decimal_text_reads_back(n / 10);
        assert(decimal_text(n).drop_last() =~= decimal_text(n / 10));
        assert(decimal_text(n).last() == digit_char(n % 10));
    } else {
        assert(decimal_text(n).drop_last() =~= Seq::<char>::empty());
    }
}

proof fn lemma_decimal_text_is_not_empty(n: nat)
    ensures
        decimal_text(n).len() > 0,
{
}

/// The length of `text` in bytes.
pub open spec fn byte_len(text: Seq<char>) -> nat {
    encode_utf8(text).len()
}

/// The length of `text` in bytes.
pub fn len_in_bytes(text: &str) -> (len: usize)
    ensures
        len == byte_len(text@),
        len == encode_utf8(text@).len(),
{
    text.as_bytes().len()
}

/// Whether two texts are the same.
pub fn same_text(a: &str, b: &str) -> (same: bool)
    ensures
        same == (a@ == b@),
{
    a.to_owned() == b.to_owned()
}

/// An empty buffer that takes `capacity` bytes before it has to move: calls
/// `String::with_capacity`, which is trusted to return an empty string.
#[verifier::external_body]
pub(crate) fn sized_buffer(capacity: usize) -> (buffer: String)
    requires
        capacity <= isize::MAX,
    ensures
        buffer@ == Seq::<char>::empty(),
{
    String::with_capacity(capacity)
}

/// Remove the last character: calls `String::pop`, which is trusted to return
/// the last character and shorten the string by it, and to do nothing to an
/// empty string but return `None`.
#[verifier::external_body]
pub(crate) fn pop_char(text: &mut String) -> (last: Option<char>)
    ensures
        old(text)@.len() == 0 ==> last is None && final(text)@ == old(text)@,
        old(text)@.len() > 0 ==> last == Some(old(text)@.last()) && final(text)@ == old(
            text,
        )@.drop_last(),
{
    text.pop()
}

/// Overwrite the bytes of a secret and empty it: calls `zeroize` on the string,
/// which is trusted to leave it empty. That the memory behind it, spare capacity
/// included, holds zeros afterwards is not stated: a string's contents end at
/// its length.
#[verifier::external_body]
pub(crate) fn wipe(secret: &mut String)
    ensures
        final(secret)@ == Seq::<char>::empty(),
{
    secret.zeroize()
}

} // verus!
