//! Text decoding shared by the serial port and the cartridge header.
use vstd::prelude::*;

verus! {

/// The text `String::from_utf8_lossy` makes of `bytes`.
pub uninterp spec fn lossy_utf8(bytes: Seq<u8>) -> Seq<char>;

/// The text `str::trim` leaves of `text`.
pub uninterp spec fn trimmed(text: Seq<char>) -> Seq<char>;

/// Whether every byte is 7-bit ASCII.
pub open spec fn all_ascii(bytes: Seq<u8>) -> bool {
    forall|i: int| 0 <= i < bytes.len() ==> bytes[i] < 0x80
}

/// Each ASCII byte read as the character with the same code.
pub open spec fn ascii_chars(bytes: Seq<u8>) -> Seq<char> {
    bytes.map_values(|b: u8| b as char)
}

/// A visible ASCII character (0x21–0x7E): never Unicode white space.
pub open spec fn is_ascii_graphic(c: char) -> bool {
    0x21 <= c as int <= 0x7E
}

/// Whether `part` is a contiguous part of `whole`.
pub open spec fn is_part_of(part: Seq<char>, whole: Seq<char>) -> bool {
    exists|i: int, j: int| 0 <= i <= j <= whole.len() && part == whole.subrange(i, j)
}

/// Calls `String::from_utf8_lossy`.  Its documentation says that valid
/// UTF-8 comes back unchanged; ASCII is valid UTF-8, one character per byte.
/// What it makes of other bytes (U+FFFD replacement characters) is left to
/// the name.
#[verifier::external_body]
pub(crate) fn utf8_lossy(bytes: &[u8]) -> (text: String)
    ensures
        text@ == lossy_utf8(bytes@),
        all_ascii(bytes@) ==> text@ == ascii_chars(bytes@),
{
    String::from_utf8_lossy(bytes).to_string()
}

/// Calls `str::trim`, which removes leading and trailing white space (the
/// Unicode `White_Space` property).  Stated here: the result is a contiguous
/// part of the text, and text that starts and ends with a visible ASCII
/// character, or is empty, comes back unchanged.  Which characters count as
/// white space is left to the name.
#[verifier::external_body]
pub(crate) fn trim_text(text: &str) -> (out: String)
    ensures
        out@ == trimmed(text@),
        is_part_of(out@, text@),
        (text@.len() == 0 || (is_ascii_graphic(text@[0]) && is_ascii_graphic(text@.last()))) ==> out@ == text@,
{
    text.trim().to_string()
}


/// The characters of `text`, one per element.
pub fn chars_of(text: &str) -> (out: Vec<char>)
    ensures
        out@ == text@,
{
    let mut out: Vec<char> = Vec::new();
    for c in it: text.chars()
        invariant
            out@ == it.seq().take(it.index() as int),
    {
        out.push(c);
    }
    out
}

/// Whether `needle` occurs in `hay` (`str::contains`).
pub fn text_contains(hay: &str, needle: &str) -> (found: bool)
    ensures
        found == is_part_of(needle@, hay@),
{
    let h = chars_of(hay);
    let n = chars_of(needle);
    if n.len() == 0 {
        proof {
            assert(needle@ =~= hay@.subrange(0, 0));
        }
        return true;
    }
    if n.len() > h.len() {
        proof {
            if is_part_of(needle@, hay@) {
                let (a, b) = choose|a: int, b: int| 0 <= a <= b <= hay@.len() && needle@ == hay@.subrange(a, b);
                assert(needle@.len() == b - a);
            }
        }
        return false;
    }
    let last = h.len() - n.len();
    let mut start: usize = 0;
    while start <= last
        invariant
            h@ == hay@,
            n@ == needle@,
            0 < n.len() <= h.len(),
            last == h.len() - n.len(),
            start <= last + 1,
            forall|k: int| 0 <= k < start ==> #[trigger] h@.subrange(k, k + n@.len()) != n@,
        decreases last + 1 - start,
    {
        let mut j: usize = 0;
        let mut same = true;
        while same && j < n.len()
            invariant
                h@ == hay@,
                n@ == needle@,
                n.len() <= h.len(),
                last == h.len() - n.len(),
                start <= last,
                j <= n.len(),
                forall|t: int| 0 <= t < j ==> h@[start + t] == n@[t],
                !same ==> h@.subrange(start as int, start + n@.len()) != n@,
            decreases n.len() - j + (if same { 1int } else { 0int }),
        {
            if h[start + j] != n[j] {
                proof {
                    assert(h@.subrange(start as int, start + n@.len())[j as int] == h@[start + j]);
                }
                same = false;
            } else {
                j = j + 1;
            }
        }
        if same {
            proof {
                assert(h@.subrange(start as int, start + n@.len()) =~= n@);
                assert(is_part_of(needle@, hay@));
            }
            return true;
        }
        start = start + 1;
    }
    proof {
        if is_part_of(needle@, hay@) {
            let (a, b) = choose|a: int, b: int| 0 <= a <= b <= hay@.len() && needle@ == hay@.subrange(a, b);
            assert(h@.subrange(a, a + n@.len()) != n@);
        }
    }
    false
}

/// Whether two texts are the same characters.
pub fn same_text(a: &str, b: &str) -> (same: bool)
    ensures
        same == (a@ == b@),
{
    let x = chars_of(a);
    let y = chars_of(b);
    if x.len() != y.len() {
        return false;
    }
    let mut i: usize = 0;
    while i < x.len()
        invariant
            x@ == a@,
            y@ == b@,
            x.len() == y.len(),
            i <= x.len(),
            forall|k: int| 0 <= k < i ==> x@[k] == y@[k],
        decreases x.len() - i,
    {
        if x[i] != y[i] {
            return false;
        }
        i = i + 1;
    }
    proof {
        assert(x@ =~= y@);
    }
    true
}

/// The ASCII digits of `n` in base ten, most significant first.
pub open spec fn decimal_digits(n: nat) -> Seq<u8>
    decreases n,
{
    if n < 10 {
        seq![(48 + n) as u8]
    } else {
        decimal_digits(n / 10).push((48 + n % 10) as u8)
    }
}

/// `n` written in base ten (as `{}` formats an integer).
pub open spec fn decimal_text(n: nat) -> Seq<char> {
    ascii_chars(decimal_digits(n))
}

/// The ASCII character of a hexadecimal digit, upper case.
pub open spec fn hex_digit(d: u8) -> u8 {
    if d < 10 {
        (48 + d) as u8
    } else {
        (55 + d) as u8
    }
}

/// `b` as two upper-case hexadecimal digits (as `{:02X}` formats a byte).
pub open spec fn hex_byte_text(b: u8) -> Seq<char> {
    ascii_chars(seq![hex_digit(b / 16), hex_digit(b % 16)])
}

proof fn lemma_decimal_digits_are_digits(n: nat)
    ensures
        forall|i: int| 0 <= i < decimal_digits(n).len() ==> 48 <= #[trigger] decimal_digits(n)[i] <= 57,
    decreases n,
{
    if n >= 10 {
        lemma_decimal_digits_are_digits(n / 10);
        let prefix = decimal_digits(n / 10);
        assert(decimal_digits(n) == prefix.push((48 + n % 10) as u8));
        assert forall|i: int| 0 <= i < decimal_digits(n).len() implies 48 <= #[trigger] decimal_digits(
            n,
        )[i] <= 57 by {
            if i < prefix.len() {
                assert(decimal_digits(n)[i] == prefix[i]);
            }
        }
    }
}

fn push_decimal_digits(n: u64, out: &mut Vec<u8>)
    ensures
        final(out)@ == old(out)@ + decimal_digits(n as nat),
    decreases n,
{
    if n >= 10 {
        push_decimal_digits(n / 10, out);
    }
    out.push((48 + n % 10) as u8);
    proof {
        assert(final(out)@ =~= old(out)@ + decimal_digits(n as nat));
    }
}

/// A decimal digit or an upper-case hexadecimal letter.
pub open spec fn is_hex_char(b: u8) -> bool {
    (48 <= b <= 57) || (65 <= b <= 70)
}

/// The one-character string of the ASCII digit `b`.
fn digit_str(b: u8) -> (text: &'static str)
    requires
        is_hex_char(b),
    ensures
        text@ == seq![b as char],
{
    match b {
        48 => {
            proof {
                reveal_strlit("0");
            }
            "0"
        },
        49 => {
            proof {
                reveal_strlit("1");
            }
            "1"
        },
        50 => {
            proof {
                reveal_strlit("2");
            }
            "2"
        },
        51 => {
            proof {
                reveal_strlit("3");
            }
            "3"
        },
        52 => {
            proof {
                reveal_strlit("4");
            }
            "4"
        },
        53 => {
            proof {
                reveal_strlit("5");
            }
            "5"
        },
        54 => {
            proof {
                reveal_strlit("6");
            }
            "6"
        },
        55 => {
            proof {
                reveal_strlit("7");
            }
            "7"
        },
        56 => {
            proof {
                reveal_strlit("8");
            }
            "8"
        },
        57 => {
            proof {
                reveal_strlit("9");
            }
            "9"
        },
        65 => {
            proof {
                reveal_strlit("A");
            }
            "A"
        },
        66 => {
            proof {
                reveal_strlit("B");
            }
            "B"
        },
        67 => {
            proof {
                reveal_strlit("C");
            }
            "C"
        },
        68 => {
            proof {
                reveal_strlit("D");
            }
            "D"
        },
        69 => {
            proof {
                reveal_strlit("E");
            }
            "E"
        },
        70 => {
            proof {
                reveal_strlit("F");
            }
            "F"
        },
        _ => {
            proof {
                reveal_strlit("F");
            }
            "F"
        },
    }
}

/// The string of the ASCII digits `bytes`, one character per byte.
fn digits_string(bytes: &[u8]) -> (text: String)
    requires
        forall|i: int| 0 <= i < bytes@.len() ==> is_hex_char(#[trigger] bytes@[i]),
    ensures
        text@ == ascii_chars(bytes@),
{
    let mut text = String::new();
    let mut i: usize = 0;
    while i < bytes.len()
        invariant
            i <= bytes@.len(),
            forall|k: int| 0 <= k < bytes@.len() ==> is_hex_char(#[trigger] bytes@[k]),
            text@ == ascii_chars(bytes@.subrange(0, i as int)),
        decreases bytes@.len() - i,
    {
        let piece = digit_str(bytes[i]);
        text.append(piece);
        proof {
            assert(bytes@.subrange(0, i + 1) =~= bytes@.subrange(0, i as int).push(bytes@[i as int]));
            assert(text@ =~= ascii_chars(bytes@.subrange(0, i + 1)));
        }
        i = i + 1;
    }
    proof {
        assert(bytes@.subrange(0, bytes@.len() as int) =~= bytes@);
    }
    text
}

/// `n` formatted in base ten.
pub fn decimal_string(n: u64) -> (text: String)
    ensures
        text@ == decimal_text(n as nat),
{
    let mut digits: Vec<u8> = Vec::new();
    push_decimal_digits(n, &mut digits);
    proof {
        assert(digits@ =~= decimal_digits(n as nat));
        lemma_decimal_digits_are_digits(n as nat);
    }
    digits_string(digits.as_slice())
}

/// `b` formatted as two upper-case hexadecimal digits.
pub fn hex_byte_string(b: u8) -> (text: String)
    ensures
        text@ == hex_byte_text(b),
{
    let high = b / 16;
    let low = b % 16;
    let mut digits: Vec<u8> = Vec::new();
    digits.push(if high < 10 { 48 + high } else { 55 + high });
    digits.push(if low < 10 { 48 + low } else { 55 + low });
    proof {
        assert(digits@ =~= seq![hex_digit(b / 16), hex_digit(b % 16)]);
    }
    digits_string(digits.as_slice())
}

} // verus!
