//! Verified JSON text building: string escaping, a decimal number grammar
//! with a checked carrier type, and decimal rendering of integers. The
//! library writes its own request bodies, so what goes on the wire is pinned
//! character by character.

use vstd::prelude::*;

verus! {

/// A decimal digit.
pub open spec fn is_digit(c: char) -> bool {
    48 <= c as u32 && c as u32 <= 57
}

/// The hexadecimal digit for a value below sixteen.
pub open spec fn spec_hex_digit(n: int) -> char {
    "0123456789abcdef"@[n]
}

/// JSON escape of one character: quote and backslash get a backslash escape,
/// control characters a `\u00XX` escape, every other character stands as is.
pub open spec fn spec_escaped_char(c: char) -> Seq<char> {
    if c == '"' {
        "\\\""@
    } else if c == '\\' {
        "\\\\"@
    } else if (c as u32) < 32 {
        "\\u00"@ + seq![
            spec_hex_digit(c as u32 as int / 16),
            spec_hex_digit(c as u32 as int % 16),
        ]
    } else {
        seq![c]
    }
}

/// The text with every character JSON-escaped.
pub open spec fn spec_escape(s: Seq<char>) -> Seq<char>
    decreases s.len(),
{
    if s.len() == 0 {
        Seq::empty()
    } else {
        spec_escape(s.drop_last()) + spec_escaped_char(s.last())
    }
}

/// The JSON string literal for a text: escaped and wrapped in quotes.
pub open spec fn spec_json_string(s: Seq<char>) -> Seq<char> {
    "\""@ + spec_escape(s) + "\""@
}

fn is_digit_exec(c: char) -> (r: bool)
    ensures
        r == is_digit(c),
{
    let u: u32 = c as u32;
    48 <= u && u <= 57
}

/// JSON-escapes a text.
pub fn escape_json(s: &str) -> (r: String)
    ensures
        r@ == spec_escape(s@),
{
    let n = s.unicode_len();
    let mut out = String::new();
    let mut i: usize = 0;
    while i < n
        invariant
            n == s@.len(),
            i <= n,
            out@ == spec_escape(s@.take(i as int)),
        decreases n - i,
    {
        let c = s.get_char(i);
        proof {
            assert(s@.take(i + 1).drop_last() =~= s@.take(i as int));
            assert(s@.take(i + 1).last() == s@[i as int]);
        }
        if c == '"' {
            out.append("\\\"");
        } else if c == '\\' {
            out.append("\\\\");
        } else if (c as u32) < 32 {
            let u: u32 = c as u32;
            let hi: usize = (u / 16) as usize;
            let lo: usize = (u % 16) as usize;
            proof {
                reveal_strlit("0123456789abcdef");
                assert("0123456789abcdef"@.subrange(hi as int, hi + 1) =~= seq![
                    spec_hex_digit(hi as int),
                ]);
                assert("0123456789abcdef"@.subrange(lo as int, lo + 1) =~= seq![
                    spec_hex_digit(lo as int),
                ]);
            }
            out.append("\\u00");
            out.append("0123456789abcdef".substring_char(hi, hi + 1));
            out.append("0123456789abcdef".substring_char(lo, lo + 1));
        } else {
            proof {
                assert(s@.subrange(i as int, i + 1) =~= seq![s@[i as int]]);
            }
            out.append(s.substring_char(i, i + 1));
        }
        i += 1;
    }
    proof {
        assert(s@.take(n as int) =~= s@);
    }
    out
}

/// The text escaped and wrapped in quotes: a JSON string literal.
pub fn json_string(s: &str) -> (r: String)
    ensures
        r@ == spec_json_string(s@),
{
    let mut out = String::from_str("\"");
    let e = escape_json(s);
    out.append(e.as_str());
    out.append("\"");
    out
}

/// The length of the longest digit prefix of a text.
pub open spec fn digits_len(s: Seq<char>) -> nat
    decreases s.len(),
{
    if s.len() == 0 || !is_digit(s[0]) {
        0
    } else {
        1 + digits_len(s.skip(1))
    }
}

/// Whether a text is a decimal number literal: an optional minus sign, then
/// an integer part without leading zeros, then an optional fraction part of
/// a dot and one or more digits. This is the subset of JSON's number grammar
/// that the library ever sends.
pub open spec fn is_number_lit(s: Seq<char>) -> bool {
    let t = if s.len() > 0 && s[0] == '-' {
        s.skip(1)
    } else {
        s
    };
    let d = digits_len(t);
    &&& d > 0
    &&& (t[0] == '0' ==> d == 1)
    &&& is_fraction_tail(t.skip(d as int))
}

/// Whether a text is empty or a dot followed by one or more digits, and
/// nothing else.
pub open spec fn is_fraction_tail(s: Seq<char>) -> bool {
    s.len() == 0 || (s[0] == '.' && s.len() > 1 && digits_len(s.skip(1)) == s.len() - 1)
}

fn digits_prefix(s: &str, n: usize) -> (r: usize)
    requires
        n == s@.len(),
    ensures
        r as nat == digits_len(s@),
        r <= n,
    decreases s@.len(),
{
    if n == 0 {
        0
    } else {
        let c = s.get_char(0);
        if !is_digit_exec(c) {
            0
        } else {
            let rest = s.substring_char(1, n);
            proof {
                assert(s@.skip(1) =~= s@.subrange(1, n as int));
            }
            1 + digits_prefix(rest, n - 1)
        }
    }
}

/// Decides the number grammar exactly.
pub fn check_number_lit(s: &str) -> (r: bool)
    ensures
        r == is_number_lit(s@),
{
    let n = s.unicode_len();
    let neg = n > 0 && s.get_char(0) == '-';
    let tn: usize = if neg {
        n - 1
    } else {
        n
    };
    let t: &str = if neg {
        s.substring_char(1, n)
    } else {
        s
    };
    proof {
        if neg {
            assert(s@.skip(1) =~= s@.subrange(1, n as int));
        }
    }
    let d = digits_prefix(t, tn);
    if d == 0 {
        return false;
    }
    proof {
        assert(t@.len() > 0);
    }
    if t.get_char(0) == '0' && d != 1 {
        return false;
    }
    let rest = t.substring_char(d, tn);
    proof {
        assert(t@.skip(d as int) =~= t@.subrange(d as int, tn as int));
    }
    let m: usize = tn - d;
    if m == 0 {
        return true;
    }
    if rest.get_char(0) != '.' {
        return false;
    }
    if m == 1 {
        return false;
    }
    let frac = rest.substring_char(1, m);
    proof {
        assert(rest@.skip(1) =~= rest@.subrange(1, m as int));
    }
    let fd = digits_prefix(frac, m - 1);
    fd == m - 1
}

/// A number carried as its decimal text, exactly as it will stand in a JSON
/// body. The application shell turns measured floating-point values into
/// this form at the boundary; inside the library only the text exists.
pub struct JsonNumber {
    text: String,
}

impl View for JsonNumber {
    type V = Seq<char>;

    closed spec fn view(&self) -> Seq<char> {
        self.text@
    }
}

impl JsonNumber {
    /// The carried text is a well-formed number literal.
    pub open spec fn wf(&self) -> bool {
        is_number_lit(self@)
    }

    /// Accepts exactly the texts of the number grammar.
    pub fn new(text: String) -> (r: Option<JsonNumber>)
        ensures
            r is Some <==> is_number_lit(text@),
            r matches Some(v) ==> v@ == text@ && v.wf(),
    {
        if check_number_lit(text.as_str()) {
            Some(JsonNumber { text })
        } else {
            None
        }
    }

    pub(crate) fn from_lit(text: String) -> (r: JsonNumber)
        requires
            is_number_lit(text@),
        ensures
            r@ == text@,
            r.wf(),
    {
        JsonNumber { text }
    }

    pub fn as_str(&self) -> (r: &str)
        ensures
            r@ == self@,
    {
        self.text.as_str()
    }
}

/// The decimal digit character for a value below ten.
pub open spec fn spec_dec_digit(n: int) -> char {
    "0123456789"@[n]
}

/// The decimal text of a natural number, most significant digit first.
pub open spec fn spec_dec(n: nat) -> Seq<char>
    decreases n,
{
    if n < 10 {
        seq![spec_dec_digit(n as int)]
    } else {
        spec_dec(n / 10) + seq![spec_dec_digit(n as int % 10)]
    }
}

/// Renders a number in decimal.
pub fn dec_string(n: u64) -> (r: String)
    ensures
        r@ == spec_dec(n as nat),
    decreases n,
{
    let d: usize = (n % 10) as usize;
    proof {
        reveal_strlit("0123456789");
        assert("0123456789"@.subrange(d as int, d + 1) =~= seq![spec_dec_digit(d as int)]);
    }
    if n < 10 {
        String::from_str("0123456789".substring_char(d, d + 1))
    } else {
        let mut r = dec_string(n / 10);
        r.append("0123456789".substring_char(d, d + 1));
        r
    }
}

} // verus!
