//! The sampling temperature of a request.
//!
//! A temperature is held as the JSON number literal that goes on the wire.
//! Only a finite number has such a literal, so whatever this type holds can
//! be sent.

use vstd::prelude::*;
use vstd::string::StringSliceAdditionalSpecFns;

verus! {

/// Whether a character is a decimal digit.
pub open spec fn is_digit(c: char) -> bool {
    '0' <= c <= '9'
}

/// Where the run of digits that starts at `from` ends: the position of the
/// first character at or after `from` that is no digit, or the length of the
/// text.
pub open spec fn digits_end(s: Seq<char>, from: int) -> int
    decreases s.len() - from,
{
    if 0 <= from < s.len() && is_digit(s[from]) {
        digits_end(s, from + 1)
    } else {
        from
    }
}

/// Where the integer part starts: behind a leading minus sign, if there is
/// one.
pub open spec fn integer_start(s: Seq<char>) -> int {
    if s.len() > 0 && s[0] == '-' {
        1
    } else {
        0
    }
}

/// Where the fraction ends, given where the integer part ends: behind a
/// point and the digits that follow it, if there is a point.
pub open spec fn fraction_end(s: Seq<char>, integer_end: int) -> int {
    if 0 <= integer_end < s.len() && s[integer_end] == '.' {
        digits_end(s, integer_end + 1)
    } else {
        integer_end
    }
}

/// Where the digits of the exponent start, given where the fraction ends:
/// behind an `e` or `E` and an optional sign. Where there is no exponent,
/// this is the end of the fraction itself.
pub open spec fn exponent_start(s: Seq<char>, fraction_end: int) -> int {
    if 0 <= fraction_end < s.len() && (s[fraction_end] == 'e' || s[fraction_end] == 'E') {
        if fraction_end + 1 < s.len() && (s[fraction_end + 1] == '+' || s[fraction_end + 1]
            == '-') {
            fraction_end + 2
        } else {
            fraction_end + 1
        }
    } else {
        fraction_end
    }
}

/// Whether a text is a JSON number literal: an optional minus sign; an
/// integer part of at least one digit, without a leading zero unless it is
/// the single digit zero; optionally a point and at least one digit;
/// optionally an exponent of `e` or `E`, an optional sign and at least one
/// digit; and nothing else.
pub open spec fn is_number_literal(s: Seq<char>) -> bool {
    let start = integer_start(s);
    let integer_end = digits_end(s, start);
    let fraction_end = fraction_end(s, integer_end);
    let exponent_start = exponent_start(s, fraction_end);
    let end = if exponent_start > fraction_end {
        digits_end(s, exponent_start)
    } else {
        fraction_end
    };
    &&& integer_end > start
    &&& (s[start] == '0' ==> integer_end == start + 1)
    &&& (fraction_end > integer_end ==> fraction_end > integer_end + 1)
    &&& (exponent_start > fraction_end ==> end > exponent_start)
    &&& end == s.len()
}

/// A run of digits stays inside the text and holds digits only.
pub proof fn lemma_digits_end(s: Seq<char>, from: int)
    requires
        0 <= from <= s.len(),
    ensures
        from <= digits_end(s, from) <= s.len(),
        forall|k: int| from <= k < digits_end(s, from) ==> is_digit(#[trigger] s[k]),
        digits_end(s, from) < s.len() ==> !is_digit(s[digits_end(s, from)]),
    decreases s.len() - from,
{
    if from < s.len() && is_digit(s[from]) {
        lemma_digits_end(s, from + 1);
    }
}

/// A number literal holds ASCII characters only.
pub proof fn lemma_number_literal_is_ascii(s: Seq<char>)
    requires
        is_number_literal(s),
    ensures
        vstd::utf8::is_ascii_chars(s),
{
    let start = integer_start(s);
    let integer_end = digits_end(s, start);
    lemma_digits_end(s, start);
    let fraction_end = fraction_end(s, integer_end);
    if fraction_end > integer_end {
        lemma_digits_end(s, integer_end + 1);
    }
    let exponent_start = exponent_start(s, fraction_end);
    if exponent_start > fraction_end {
        lemma_digits_end(s, exponent_start);
    }
    assert forall|i: int| 0 <= i < s.len() implies '\0' <= #[trigger] s[i] <= '\u{7f}' by {
        if i < start {
        } else if i < integer_end {
            assert(is_digit(s[i]));
        } else if i < fraction_end {
            if i > integer_end {
                assert(is_digit(s[i]));
            }
        } else if i < exponent_start {
        } else {
            assert(is_digit(s[i]));
        }
    }
}

/// Whether `bytes` holds the characters of `s`, one byte for each.
spec fn spells(bytes: Seq<u8>, s: Seq<char>) -> bool {
    &&& bytes.len() == s.len()
    &&& forall|i: int| 0 <= i < s.len() ==> #[trigger] s[i] == bytes[i] as char
}

/// Scans the run of digits that starts at `from`.
fn scan_digits(bytes: &[u8], from: usize, Ghost(s): Ghost<Seq<char>>) -> (end: usize)
    requires
        from <= bytes@.len(),
        spells(bytes@, s),
    ensures
        end == digits_end(s, from as int),
        from <= end <= bytes@.len(),
{
    let mut end: usize = from;
    while end < bytes.len() && 48 <= bytes[end] && bytes[end] <= 57
        invariant
            from <= end <= bytes@.len(),
            spells(bytes@, s),
            digits_end(s, from as int) == digits_end(s, end as int),
        decreases bytes@.len() - end,
    {
        assert(s[end as int] == bytes@[end as int] as char);
        end = end + 1;
    }
    proof {
        if end < bytes@.len() {
            assert(s[end as int] == bytes@[end as int] as char);
        }
    }
    end
}

/// A sampling temperature: a finite number, held as its JSON literal.
#[derive(Debug, PartialEq, Eq)]
pub struct Temperature {
    literal: String,
}

impl View for Temperature {
    type V = Seq<char>;

    closed spec fn view(&self) -> Seq<char> {
        self.literal@
    }
}

impl Temperature {
    #[verifier::type_invariant]
    spec fn well_formed(self) -> bool {
        is_number_literal(self.literal@)
    }

    /// The literal of the temperature that a request has where the caller
    /// chose none.
    pub open spec fn default_literal() -> Seq<char> {
        "0.7"@
    }

    /// Takes a text as a temperature if it is a JSON number literal.
    pub fn from_literal(text: &str) -> (found: Option<Temperature>)
        ensures
            match found {
                Some(temperature) => is_number_literal(text@) && temperature@ == text@,
                None => !is_number_literal(text@),
            },
    {
        let ghost s = text@;
        if !text.is_ascii() {
            proof {
                if is_number_literal(s) {
                    lemma_number_literal_is_ascii(s);
                }
            }
            return None;
        }
        let bytes = text.as_bytes();
        proof {
            vstd::string::is_ascii_spec_bytes(text);
            assert(bytes@.len() == s.len());
            assert forall|i: int| 0 <= i < s.len() implies #[trigger] s[i] == bytes@[i] as char by {
                assert('\0' <= s[i] <= '\u{7f}');
                assert(bytes@[i] == s[i] as u8);
            }
            assert(spells(bytes@, s));
        }
        let len = bytes.len();
        let start: usize = if len > 0 && bytes[0] == 45 {
            1
        } else {
            0
        };
        let integer_end = scan_digits(bytes, start, Ghost(s));
        if integer_end == start {
            return None;
        }
        if bytes[start] == 48 && integer_end != start + 1 {
            return None;
        }
        let mut fraction_end: usize = integer_end;
        if integer_end < len && bytes[integer_end] == 46 {
            fraction_end = scan_digits(bytes, integer_end + 1, Ghost(s));
            if fraction_end == integer_end + 1 {
                return None;
            }
        }
        let mut end: usize = fraction_end;
        if fraction_end < len && (bytes[fraction_end] == 101 || bytes[fraction_end] == 69) {
            let mut exponent_start: usize = fraction_end + 1;
            if exponent_start < len && (bytes[exponent_start] == 43 || bytes[exponent_start] == 45) {
                exponent_start = exponent_start + 1;
            }
            end = scan_digits(bytes, exponent_start, Ghost(s));
            if end == exponent_start {
                return None;
            }
        }
        if end != len {
            return None;
        }
        Some(Temperature { literal: text.to_owned() })
    }

    /// The JSON number literal of the temperature.
    pub fn literal(&self) -> (literal: &str)
        ensures
            literal@ == self@,
            is_number_literal(literal@),
    {
        proof {
            use_type_invariant(self);
        }
        self.literal.as_str()
    }
}

impl Clone for Temperature {
    fn clone(&self) -> (copy: Temperature)
        ensures
            copy@ == self@,
    {
        proof {
            use_type_invariant(self);
        }
        Temperature { literal: self.literal.clone() }
    }
}

impl Default for Temperature {
    /// The temperature 0.7.
    fn default() -> (temperature: Temperature)
        ensures
            temperature@ == Temperature::default_literal(),
    {
        proof {
            reveal_strlit("0.7");
            let s = "0.7"@;
            assert(s.len() == 3);
            assert(s[0] == '0' && s[1] == '.' && s[2] == '7');
            reveal_with_fuel(digits_end, 3);
            assert(digits_end(s, 0) == 1);
            assert(digits_end(s, 2) == 3);
        }
        Temperature { literal: "0.7".to_owned() }
    }
}

} // verus!
