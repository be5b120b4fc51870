//! Small pieces of text: joining, decimal numbers, hexadecimal digits.

use vstd::prelude::*;
use vstd::string::{StrSliceExecFns, StringExecFns};
use vstd::utf8::*;

verus! {

/// The lower-case hexadecimal digit of `n`, for `n` below sixteen.
pub open spec fn hex_digit(n: int) -> char {
    if n < 10 {
        ('0' as u32 + n) as char
    } else {
        ('a' as u32 + (n - 10)) as char
    }
}

/// The lower-case hexadecimal text of `bytes`: two digits for each byte, the high one first.
pub open spec fn hex(bytes: Seq<u8>) -> Seq<char> {
    Seq::new(
        2 * bytes.len(),
        |i: int|
            if i % 2 == 0 {
                hex_digit(bytes[i / 2] as int / 16)
            } else {
                hex_digit(bytes[i / 2] as int % 16)
            },
    )
}

/// Whether `c` is a hexadecimal digit, in either case.
pub open spec fn is_hex_digit(c: char) -> bool {
    ('0' <= c && c <= '9') || ('a' <= c && c <= 'f') || ('A' <= c && c <= 'F')
}

/// The value of the hexadecimal digit `c`.
pub open spec fn hex_value(c: char) -> int {
    if '0' <= c && c <= '9' {
        c as int - '0' as int
    } else if 'a' <= c && c <= 'f' {
        c as int - 'a' as int + 10
    } else {
        c as int - 'A' as int + 10
    }
}

/// Whether `text` is exactly `byte_len` bytes written in hexadecimal digits.
pub open spec fn is_fixed_hex(text: Seq<char>, byte_len: nat) -> bool {
    &&& text.len() == 2 * byte_len
    &&& forall|i: int| 0 <= i < text.len() ==> is_hex_digit(#[trigger] text[i])
}

/// The decimal text of `n`, without leading zeros.
pub open spec fn decimal(n: nat) -> Seq<char>
    decreases n,
{
    if n < 10 {
        seq![('0' as u32 + n) as char]
    } else {
        decimal(n / 10) + seq![('0' as u32 + n % 10) as char]
    }
}

/// The texts in a list.
pub open spec fn texts(list: Seq<String>) -> Seq<Seq<char>> {
    Seq::new(list.len(), |i: int| list[i]@)
}

/// `a` followed by `b`.
pub fn join(a: &str, b: &str) -> (r: String)
    ensures
        r@ == a@ + b@,
{
    let mut text: String = a.to_owned();
    text.append(b);
    text
}

/// Whether two texts are equal.
pub fn same_text(a: &str, b: &str) -> (r: bool)
    ensures
        r == (a@ == b@),
{
    a.to_owned() == b.to_owned()
}

/// Whether two byte strings are equal.
pub fn same_bytes(a: &[u8], b: &[u8]) -> (r: bool)
    ensures
        r == (a@ == b@),
{
    if a.len() != b.len() {
        return false;
    }
    let mut i: usize = 0;
    while i < a.len()
        invariant
            i <= a.len(),
            a.len() == b.len(),
            forall|j: int| 0 <= j < i ==> a@[j] == b@[j],
        decreases a.len() - i,
    {
        if a[i] != b[i] {
            return false;
        }
        i = i + 1;
    }
    assert(a@ =~= b@);
    true
}

/// A copy of `bytes`.
pub fn copy_bytes(bytes: &Vec<u8>) -> (r: Vec<u8>)
    ensures
        r@ == bytes@,
{
    let copy: Vec<u8> = bytes.clone();
    assert(copy@ =~= bytes@);
    copy
}

/// Whether `value` is exactly `byte_len` bytes written in hexadecimal digits.
pub fn check_fixed_hex(value: &str, byte_len: usize) -> (r: bool)
    requires
        2 * byte_len <= usize::MAX,
    ensures
        r == is_fixed_hex(value@, byte_len as nat),
{
    if !value.is_ascii() {
        proof {
            if is_fixed_hex(value@, byte_len as nat) {
                assert(is_ascii_chars(value@));
            }
        }
        return false;
    }
    let length: usize = value.unicode_len();
    if length != byte_len * 2 {
        return false;
    }
    let mut i: usize = 0;
    while i < length
        invariant
            i <= length,
            length == value@.len(),
            value.is_ascii(),
            forall|j: int| 0 <= j < i ==> is_hex_digit(#[trigger] value@[j]),
        decreases length - i,
    {
        let byte: u8 = value.get_ascii(i);
        let digit: bool = (48 <= byte && byte <= 57) || (97 <= byte && byte <= 102) || (65 <= byte
            && byte <= 70);
        if !digit {
            return false;
        }
        i = i + 1;
    }
    true
}

fn digit_text(digit: u64) -> (r: &'static str)
    requires
        digit < 10,
    ensures
        r@ == seq![('0' as u32 + digit) as char],
{
    proof {
        reveal_strlit("0");
        reveal_strlit("1");
        reveal_strlit("2");
        reveal_strlit("3");
        reveal_strlit("4");
        reveal_strlit("5");
        reveal_strlit("6");
        reveal_strlit("7");
        reveal_strlit("8");
        reveal_strlit("9");
    }
    if digit == 0 {
        "0"
    } else if digit == 1 {
        "1"
    } else if digit == 2 {
        "2"
    } else if digit == 3 {
        "3"
    } else if digit == 4 {
        "4"
    } else if digit == 5 {
        "5"
    } else if digit == 6 {
        "6"
    } else if digit == 7 {
        "7"
    } else if digit == 8 {
        "8"
    } else {
        "9"
    }
}

/// The decimal text of `n`.
pub fn decimal_text(n: u64) -> (r: String)
    ensures
        r@ == decimal(n as nat),
    decreases n,
{
    if n < 10 {
        digit_text(n).to_owned()
    } else {
        let mut text: String = decimal_text(n / 10);
        text.append(digit_text(n % 10));
        text
    }
}

/// The path of `name` below the directory `base`. An absolute name stands for itself.
pub open spec fn path_below(base: Seq<char>, name: Seq<char>) -> Seq<char> {
    if name.len() > 0 && name[0] == '/' {
        name
    } else if base.len() == 0 || base.last() == '/' {
        base + name
    } else {
        base + "/"@ + name
    }
}

/// The path of `name` below the directory `base`. An absolute name stands for itself.
pub fn path_join(base: &str, name: &str) -> (r: String)
    ensures
        r@ == path_below(base@, name@),
{
    let base_len: usize = base.unicode_len();
    let name_len: usize = name.unicode_len();
    if name_len > 0 && name.get_char(0) == '/' {
        name.to_owned()
    } else if base_len == 0 || base.get_char(base_len - 1) == '/' {
        join(base, name)
    } else {
        let prefix: String = join(base, "/");
        join(prefix.as_str(), name)
    }
}

/// Different bytes have different hexadecimal texts: no two channels, and no two payments, share a
/// key.
pub proof fn hex_tells_bytes_apart(a: Seq<u8>, b: Seq<u8>)
    requires
        hex(a) == hex(b),
    ensures
        a == b,
{
    assert(hex(a).len() == 2 * a.len());
    assert(hex(b).len() == 2 * b.len());
    assert forall|i: int| 0 <= i < a.len() implies a[i] == b[i] by {
        assert(hex(a)[2 * i] == hex_digit(a[i] as int / 16));
        assert(hex(b)[2 * i] == hex_digit(b[i] as int / 16));
        assert(hex(a)[2 * i + 1] == hex_digit(a[i] as int % 16));
        assert(hex(b)[2 * i + 1] == hex_digit(b[i] as int % 16));
    }
    assert(a =~= b);
}

/// A decimal text is the text of the number without its last digit, followed by that digit; a
/// number of one digit is that digit alone.
pub proof fn decimal_text_ends_in_the_last_digit(n: nat, digit: nat)
    requires
        digit < 10,
    ensures
        n > 0 ==> decimal(10 * n + digit) == decimal(n).push((48 + digit) as char),
        decimal(digit) == seq![(48 + digit) as char],
{
    if n > 0 {
        assert((10 * n + digit) / 10 == n);
        assert((10 * n + digit) % 10 == digit);
        assert(decimal(10 * n + digit) =~= decimal(n).push((48 + digit) as char));
    }
}

/// A text is a fixed number of bytes in hexadecimal digits exactly if it has two characters for
/// each byte and all of them are digits, in either case.
pub proof fn fixed_hex_has_two_digits_for_each_byte(text: Seq<char>, byte_len: nat)
    ensures
        is_fixed_hex(text, byte_len) <==> text.len() == 2 * byte_len && forall|i: int|
            0 <= i < text.len() ==> {
                ||| 48 <= #[trigger] text[i] as int <= 57
                ||| 97 <= text[i] as int <= 102
                ||| 65 <= text[i] as int <= 70
            },
{
    if is_fixed_hex(text, byte_len) {
        assert forall|i: int| 0 <= i < text.len() implies {
            ||| 48 <= #[trigger] text[i] as int <= 57
            ||| 97 <= text[i] as int <= 102
            ||| 65 <= text[i] as int <= 70
        } by {
            assert(is_hex_digit(text[i]));
        }
    }
}

/// The hexadecimal text of bytes shows them: two digits for each byte, the high one first, whose
/// values give the byte back.
pub proof fn hex_text_shows_each_byte(bytes: Seq<u8>, i: int)
    requires
        0 <= i < bytes.len(),
    ensures
        hex(bytes).len() == 2 * bytes.len(),
        16 * hex_value(hex(bytes)[2 * i]) + hex_value(hex(bytes)[2 * i + 1]) == bytes[i],
        !('A' <= hex(bytes)[2 * i] && hex(bytes)[2 * i] <= 'F'),
        !('A' <= hex(bytes)[2 * i + 1] && hex(bytes)[2 * i + 1] <= 'F'),
{
    let high = bytes[i] as int / 16;
    let low = bytes[i] as int % 16;
    assert(0 <= high < 16 && 0 <= low < 16);
    assert((2 * i) / 2 == i && (2 * i) % 2 == 0);
    assert((2 * i + 1) / 2 == i && (2 * i + 1) % 2 == 1);
    assert(hex(bytes)[2 * i] == hex_digit(high));
    assert(hex(bytes)[2 * i + 1] == hex_digit(low));
}

/// A name is put below a directory behind exactly one slash, unless there is no directory; a name
/// that begins with a slash stands for itself.
pub proof fn path_has_one_slash_between(base: Seq<char>, name: Seq<char>)
    requires
        name.len() > 0,
    ensures
        name[0] == '/' ==> path_below(base, name) == name,
        name[0] != '/' && base.len() == 0 ==> path_below(base, name) == name,
        name[0] != '/' && base.len() > 0 && base.last() == '/' ==> path_below(base, name) == base
            + name,
        name[0] != '/' && base.len() > 0 && base.last() != '/' ==> path_below(base, name)
            == base.push('/') + name,
{
    reveal_strlit("/");
    assert("/"@ =~= seq!['/']);
    assert(base + "/"@ =~= base.push('/'));
    assert(Seq::<char>::empty() + name =~= name);
    if base.len() == 0 {
        assert(base + name =~= name);
    }
}

/// The texts in a list are shown one by one, in order.
pub proof fn texts_are_shown_in_order(list: Seq<String>, i: int)
    requires
        0 <= i < list.len(),
    ensures
        texts(list).len() == list.len(),
        texts(list)[i] == list[i]@,
{
}

} // verus!
