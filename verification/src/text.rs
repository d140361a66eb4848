//! Building messages.

use vstd::prelude::*;
use vstd::string::*;

verus! {

/// `String::push_str` appends the given text.
pub assume_specification[ String::push_str ](s: &mut String, text: &str)
    ensures
        final(s)@ == old(s)@ + text@,
;

/// `String::push` appends the given character.
pub assume_specification[ String::push ](s: &mut String, c: char)
    ensures
        final(s)@ == old(s)@.push(c),
;

/// The decimal digit `d`, for `d` below ten.
pub open spec fn digit(d: nat) -> char {
    (0x30 + d) as char
}

/// `n` in decimal.
pub open spec fn decimal(n: nat) -> Seq<char>
    decreases n,
{
    if n < 10 {
        seq![digit(n)]
    } else {
        decimal(n / 10).push(digit(n % 10))
    }
}

/// `n` in decimal, with a leading minus where it is negative.
pub open spec fn decimal_signed(n: int) -> Seq<char> {
    if n < 0 {
        "-"@ + decimal((-n) as nat)
    } else {
        decimal(n as nat)
    }
}

/// Append `n` in decimal.
pub fn push_decimal(out: &mut String, n: u64)
    ensures
        final(out)@ == old(out)@ + decimal(n as nat),
    decreases n,
{
    let ghost before = out@;
    if n >= 10 {
        push_decimal(out, n / 10);
    }
    let last: u8 = 0x30 + (n % 10) as u8;
    out.push(last as char);
    assert(out@ =~= before + decimal(n as nat));
}

/// Append `n` in decimal, with a leading minus where it is negative.
pub fn push_decimal_signed(out: &mut String, n: i64)
    ensures
        final(out)@ == old(out)@ + decimal_signed(n as int),
{
    let ghost before = out@;
    if n < 0 {
        out.push_str("-");
        let size: u64 = if n == i64::MIN {
            0x8000_0000_0000_0000
        } else {
            (-n) as u64
        };
        push_decimal(out, size);
        assert(out@ =~= before + decimal_signed(n as int));
    } else {
        push_decimal(out, n as u64);
    }
}

/// The lower-case hexadecimal digit `d`, for `d` below sixteen.
pub open spec fn hex_digit(d: nat) -> char {
    if d < 10 {
        (0x30 + d) as char
    } else {
        (0x57 + d) as char
    }
}

/// `n` in hexadecimal.
pub open spec fn hexadecimal(n: nat) -> Seq<char>
    decreases n,
{
    if n < 16 {
        seq![hex_digit(n)]
    } else {
        hexadecimal(n / 16).push(hex_digit(n % 16))
    }
}

/// Append `n` in hexadecimal.
pub fn push_hexadecimal(out: &mut String, n: u32)
    ensures
        final(out)@ == old(out)@ + hexadecimal(n as nat),
    decreases n,
{
    let ghost before = out@;
    if n >= 16 {
        push_hexadecimal(out, n / 16);
    }
    let d: u8 = (n % 16) as u8;
    let last: u8 = if d < 10 {
        0x30 + d
    } else {
        0x57 + d
    };
    out.push(last as char);
    assert(out@ =~= before + hexadecimal(n as nat));
}

/// The low `width` hexadecimal digits of `n`, leading zeros included.
pub open spec fn hex_fixed(n: nat, width: nat) -> Seq<char>
    decreases width,
{
    if width == 0 {
        seq![]
    } else {
        hex_fixed(n / 16, (width - 1) as nat).push(hex_digit(n % 16))
    }
}

/// Append the low `width` hexadecimal digits of `n`.
pub fn push_hex_fixed(out: &mut String, n: u32, width: u32)
    ensures
        final(out)@ == old(out)@ + hex_fixed(n as nat, width as nat),
    decreases width,
{
    let ghost before = out@;
    if width > 0 {
        push_hex_fixed(out, n / 16, width - 1);
        let d: u8 = (n % 16) as u8;
        let last: u8 = if d < 10 {
            0x30 + d
        } else {
            0x57 + d
        };
        out.push(last as char);
    }
    assert(out@ =~= before + hex_fixed(n as nat, width as nat));
}

/// Whether two texts are the same.
pub fn same(a: &str, b: &str) -> (same: bool)
    ensures
        same == (a@ == b@),
{
    let x: String = a.to_owned();
    let y: String = b.to_owned();
    x == y
}

/// Whether `part` stands in `whole` at the given place.
pub open spec fn stands_at(whole: Seq<u8>, part: Seq<u8>, at: int) -> bool {
    &&& 0 <= at <= whole.len() - part.len()
    &&& forall|k: int| 0 <= k < part.len() ==> whole[at + k] == #[trigger] part[k]
}

/// Whether `part` stands somewhere in `whole`.
pub open spec fn stands_in(whole: Seq<u8>, part: Seq<u8>) -> bool {
    exists|at: int| stands_at(whole, part, at)
}

/// Whether a text has another as part of it.
pub fn has_part(text: &str, part: &str) -> (has: bool)
    ensures
        has == stands_in(text.spec_bytes(), part.spec_bytes()),
{
    let whole: &[u8] = text.as_bytes();
    let wanted: &[u8] = part.as_bytes();
    if wanted.len() == 0 {
        assert(stands_at(whole@, wanted@, 0));
        return true;
    }
    if wanted.len() > whole.len() {
        return false;
    }
    let last: usize = whole.len() - wanted.len();
    let mut at: usize = 0;
    while at <= last
        invariant
            at <= last + 1,
            last == whole@.len() - wanted@.len(),
            wanted@.len() <= whole@.len(),
            whole@ == text.spec_bytes(),
            wanted@ == part.spec_bytes(),
            0 < wanted@.len(),
            whole@.len() <= usize::MAX,
            forall|j: int| 0 <= j < at ==> !stands_at(whole@, wanted@, j),
        decreases last + 1 - at,
    {
        let mut k: usize = 0;
        while k < wanted.len() && whole[at + k] == wanted[k]
            invariant
                at <= last,
                last == whole@.len() - wanted@.len(),
                wanted@.len() <= whole@.len() <= usize::MAX,
                k <= wanted@.len(),
                forall|j: int| 0 <= j < k ==> whole@[at + j] == #[trigger] wanted@[j],
            decreases wanted@.len() - k,
        {
            k = k + 1;
        }
        if k == wanted.len() {
            assert(stands_at(whole@, wanted@, at as int));
            return true;
        }
        assert(whole@[at + k] != wanted@[k as int]);
        at = at + 1;
    }
    false
}

/// `prefix` followed by `rest`.
pub fn joined(prefix: &str, rest: &str) -> (text: String)
    ensures
        text@ == prefix@ + rest@,
{
    let mut text: String = prefix.to_owned();
    text.push_str(rest);
    text
}

/// A number is written digit by digit, the most significant first and without leading zeros.
pub proof fn law_decimals_are_written_digit_by_digit(n: nat, d: nat)
    requires
        d < 10,
    ensures
        digit(0) == '0',
        digit(d) == (('0' as nat) + d) as char,
        decimal(d) == seq![digit(d)],
        n > 0 ==> decimal(10 * n + d) == decimal(n) + seq![digit(d)],
        n > 0 ==> decimal_signed(-(n as int)) == seq!['-'] + decimal(n),
        decimal_signed(n as int) == decimal(n),
{
    reveal_strlit("-");
    assert("-"@ =~= seq!['-']);
    if n > 0 {
        assert((10 * n + d) / 10 == n && (10 * n + d) % 10 == d);
        assert(decimal(n).push(digit(d)) =~= decimal(n) + seq![digit(d)]);
    }
}

/// The same in base sixteen, with small letters; with a fixed width the number is cut or filled
/// up with zeros on the left.
pub proof fn law_hexadecimals_are_written_digit_by_digit(n: nat, d: nat, width: nat)
    requires
        d < 16,
    ensures
        d < 10 ==> hex_digit(d) == (('0' as nat) + d) as char,
        d >= 10 ==> hex_digit(d) == (('a' as nat) + d - 10) as char,
        hexadecimal(d) == seq![hex_digit(d)],
        n > 0 ==> hexadecimal(16 * n + d) == hexadecimal(n) + seq![hex_digit(d)],
        hex_fixed(n, 0).len() == 0,
        hex_fixed(16 * n + d, width + 1) == hex_fixed(n, width) + seq![hex_digit(d)],
{
    assert((16 * n + d) / 16 == n && (16 * n + d) % 16 == d);
    if n > 0 {
        assert(hexadecimal(n).push(hex_digit(d)) =~= hexadecimal(n) + seq![hex_digit(d)]);
    }
    assert(hex_fixed(n, width).push(hex_digit(d)) =~= hex_fixed(n, width) + seq![hex_digit(d)]);
}

/// A part stands in a text exactly if the text is something, the part, and something more.
pub proof fn law_parts_stand_between_two_rests(before: Seq<u8>, part: Seq<u8>, after: Seq<u8>)
    ensures
        stands_in(before + part + after, part),
{
    assert(stands_at(before + part + after, part, before.len() as int));
}

/// Where a part stands, the text reads as the part does.
pub proof fn law_parts_are_read_where_they_stand(whole: Seq<u8>, part: Seq<u8>)
    requires
        stands_in(whole, part),
    ensures
        exists|at: int|
            0 <= at && at + part.len() <= whole.len() && #[trigger] whole.subrange(
                at,
                at + part.len(),
            ) == part,
{
    let at = choose|at: int| stands_at(whole, part, at);
    assert(whole.subrange(at, at + part.len()) =~= part);
}

} // verus!
