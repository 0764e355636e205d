//! Text helpers: comparing strings, rendering numbers, and reading the
//! zero-terminated text that the device writes into fixed-size buffers.

use vstd::prelude::*;
use vstd::string::*;
use vstd::utf8::*;

verus! {

/// Whether two strings hold the same characters.
pub fn same_text(a: &str, b: &str) -> (same: bool)
    ensures
        same == (a@ == b@),
{
    let x = a.as_bytes();
    let y = b.as_bytes();
    proof {
        // Distinct texts have distinct encodings, since decoding undoes encoding.
        encode_utf8_decode_utf8(a@);
        encode_utf8_decode_utf8(b@);
    }
    if x.len() != y.len() {
        return false;
    }
    let mut i: usize = 0;
    while i < x.len()
        invariant
            i <= x.len(),
            x@.len() == y@.len(),
            forall|j: int| 0 <= j < i ==> x@[j] == y@[j],
            a@ == b@ ==> x@ == y@,
        decreases x.len() - i,
    {
        if x[i] != y[i] {
            return false;
        }
        i += 1;
    }
    assert(x@ =~= y@);
    true
}

/// The character that writes the decimal digit `d`.
pub open spec fn digit(d: int) -> char {
    if d == 0 {
        '0'
    } else if d == 1 {
        '1'
    } else if d == 2 {
        '2'
    } else if d == 3 {
        '3'
    } else if d == 4 {
        '4'
    } else if d == 5 {
        '5'
    } else if d == 6 {
        '6'
    } else if d == 7 {
        '7'
    } else if d == 8 {
        '8'
    } else {
        '9'
    }
}

/// The decimal digits of `n`, most significant first, without leading zeros.
pub open spec fn decimal_digits(n: nat) -> Seq<char>
    decreases n,
{
    if n < 10 {
        seq![digit(n as int)]
    } else {
        decimal_digits(n / 10).push(digit((n % 10) as int))
    }
}

/// `n` in decimal, with a minus sign in front if it is negative.
pub open spec fn decimal(n: int) -> Seq<char> {
    if n < 0 {
        seq!['-'] + decimal_digits((-n) as nat)
    } else {
        decimal_digits(n as nat)
    }
}

/// The one-character text of a decimal digit.
fn digit_text(d: u64) -> (t: &'static str)
    requires
        d < 10,
    ensures
        t@ == seq![digit(d as int)],
{
    let t = if d == 0 {
        proof {
            reveal_strlit("0");
        }
        "0"
    } else if d == 1 {
        proof {
            reveal_strlit("1");
        }
        "1"
    } else if d == 2 {
        proof {
            reveal_strlit("2");
        }
        "2"
    } else if d == 3 {
        proof {
            reveal_strlit("3");
        }
        "3"
    } else if d == 4 {
        proof {
            reveal_strlit("4");
        }
        "4"
    } else if d == 5 {
        proof {
            reveal_strlit("5");
        }
        "5"
    } else if d == 6 {
        proof {
            reveal_strlit("6");
        }
        "6"
    } else if d == 7 {
        proof {
            reveal_strlit("7");
        }
        "7"
    } else if d == 8 {
        proof {
            reveal_strlit("8");
        }
        "8"
    } else {
        proof {
            reveal_strlit("9");
        }
        "9"
    };
    assert(t@ =~= seq![digit(d as int)]);
    t
}

/// Appends the decimal digits of `n` to `out`.
pub fn push_digits(out: &mut String, n: u64)
    ensures
        final(out)@ == old(out)@ + decimal_digits(n as nat),
    decreases n,
{
    if n >= 10 {
        push_digits(out, n / 10);
    }
    out.append(digit_text(n % 10));
    assert(final(out)@ =~= old(out)@ + decimal_digits(n as nat));
}

/// Appends `n` in decimal to `out`.
pub fn push_decimal(out: &mut String, n: i64)
    ensures
        final(out)@ == old(out)@ + decimal(n as int),
{
    if n < 0 {
        proof {
            reveal_strlit("-");
        }
        out.append("-");
        // The magnitude of the least value does not fit its own type.
        let magnitude: u64 = ((-(n + 1)) as u64) + 1;
        push_digits(out, magnitude);
        assert(final(out)@ =~= old(out)@ + decimal(n as int));
    } else {
        push_digits(out, n as u64);
    }
}

/// `n` in decimal.
pub fn to_decimal(n: i64) -> (text: String)
    ensures
        text@ == decimal(n as int),
{
    let mut text = String::new();
    push_decimal(&mut text, n);
    assert(text@ =~= decimal(n as int));
    text
}

/// The fraction of a second that `millis` thousandths make, written after a
/// decimal point with no trailing zeros; empty for no fraction.
pub open spec fn fraction(millis: nat) -> Seq<char>
    recommends
        millis < 1000,
{
    if millis == 0 {
        seq![]
    } else if millis % 100 == 0 {
        seq!['.', digit((millis / 100) as int)]
    } else if millis % 10 == 0 {
        seq!['.', digit((millis / 100) as int), digit((millis / 10 % 10) as int)]
    } else {
        seq![
            '.',
            digit((millis / 100) as int),
            digit((millis / 10 % 10) as int),
            digit((millis % 10) as int),
        ]
    }
}

/// A time span of `millis` milliseconds written in seconds: 10000 is "10",
/// 1500 is "1.5", 50 is "0.05".
pub open spec fn seconds(millis: nat) -> Seq<char> {
    decimal_digits(millis / 1000) + fraction(millis % 1000)
}

/// Appends a time span of `millis` milliseconds, written in seconds.
pub fn push_seconds(out: &mut String, millis: u64)
    ensures
        final(out)@ == old(out)@ + seconds(millis as nat),
{
    push_digits(out, millis / 1000);
    let rest: u64 = millis % 1000;
    if rest != 0 {
        proof {
            reveal_strlit(".");
        }
        out.append(".");
        out.append(digit_text(rest / 100));
        if rest % 100 != 0 {
            out.append(digit_text(rest / 10 % 10));
            if rest % 10 != 0 {
                out.append(digit_text(rest % 10));
            }
        }
    }
    assert(final(out)@ =~= old(out)@ + seconds(millis as nat));
}

/// Size of the buffers that the device writes its texts into.
pub const TEXT_BUFFER_LEN: usize = 64;

/// The number of bytes in `buffer` before its first zero byte; its whole
/// length if it holds none.
pub open spec fn terminated_len(buffer: Seq<u8>) -> int
    decreases buffer.len(),
{
    if buffer.len() == 0 || buffer[0] == 0 {
        0
    } else {
        1 + terminated_len(buffer.drop_first())
    }
}

/// The bytes of the zero-terminated text that `buffer` starts with.
pub open spec fn terminated(buffer: Seq<u8>) -> Seq<u8> {
    buffer.take(terminated_len(buffer))
}

/// `terminated_len` is the position of the first zero byte, or the length of
/// a buffer without one.
pub proof fn lemma_terminated_len(buffer: Seq<u8>)
    ensures
        0 <= terminated_len(buffer) <= buffer.len(),
        terminated_len(buffer) < buffer.len() ==> buffer[terminated_len(buffer)] == 0,
        forall|i: int| 0 <= i < terminated_len(buffer) ==> #[trigger] buffer[i] != 0,
    decreases buffer.len(),
{
    if buffer.len() > 0 && buffer[0] != 0 {
        let rest = buffer.drop_first();
        lemma_terminated_len(rest);
        assert forall|i: int| 0 <= i < terminated_len(buffer) implies #[trigger] buffer[i]
            != 0 by {
            if i > 0 {
                assert(buffer[i] == rest[i - 1]);
            }
        }
    }
}

/// A position that holds the first zero byte is the terminated length.
pub proof fn lemma_terminated_at(buffer: Seq<u8>, end: int)
    requires
        0 <= end <= buffer.len(),
        end < buffer.len() ==> buffer[end] == 0,
        forall|i: int| 0 <= i < end ==> #[trigger] buffer[i] != 0,
    ensures
        terminated_len(buffer) == end,
{
    lemma_terminated_len(buffer);
}

/// The bytes of the zero-terminated text that `buffer` starts with: those
/// before the first zero byte, or all of them if there is none.
pub fn terminated_bytes(buffer: &[u8]) -> (bytes: &[u8])
    ensures
        bytes@ == terminated(buffer@),
{
    let mut end: usize = 0;
    while end < buffer.len() && buffer[end] != 0
        invariant
            end <= buffer.len(),
            forall|i: int| 0 <= i < end ==> #[trigger] buffer@[i] != 0,
        decreases buffer.len() - end,
    {
        end += 1;
    }
    proof {
        lemma_terminated_at(buffer@, end as int);
    }
    vstd::slice::slice_subrange(buffer, 0, end)
}

/// What lossy decoding makes of `bytes`: their text where they are well-formed
/// UTF-8, and otherwise a text in which U+FFFD stands for each malformed part.
pub uninterp spec fn lossy_text(bytes: Seq<u8>) -> Seq<char>;

/// Decodes bytes with `String::from_utf8_lossy`. The result is named
/// `lossy_text`; for well-formed UTF-8 it is the text the bytes encode, as the
/// standard library documents. Neither is proved here.
#[verifier::external_body]
fn decode_lossy(bytes: &[u8]) -> (text: String)
    ensures
        text@ == lossy_text(bytes@),
        valid_utf8(bytes@) ==> text@ == decode_utf8(bytes@),
{
    String::from_utf8_lossy(bytes).into_owned()
}

/// Reads the zero-terminated text that the device wrote into `buffer`,
/// decoding it lossily.
pub fn buffer_text(buffer: &[u8]) -> (text: String)
    ensures
        text@ == lossy_text(terminated(buffer@)),
        valid_utf8(terminated(buffer@)) ==> text@ == decode_utf8(terminated(buffer@)),
{
    decode_lossy(terminated_bytes(buffer))
}

} // verus!
