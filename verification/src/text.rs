//! Small verified text-building helpers: decimal rendering of integers,
//! JSON string escaping, and appending single characters to a `String`.

use vstd::prelude::*;

verus! {

/// Relies on `alloc::string::String::push`: appends the given character
/// to the end of the string.
pub assume_specification[ String::push ](s: &mut String, c: char)
    ensures
        final(s)@ == old(s)@ + seq![c],
;

/// The character for one decimal digit.
pub open spec fn spec_digit(d: nat) -> char {
    if d == 0 {
        '0'
    } else if d == 1 {
        '1'
    } else if d == 2 {
        '2'
    } else if d == 3 {
        '3'
    } else if d == 4 {
        '4'
    } else if d == 5 {
        '5'
    } else if d == 6 {
        '6'
    } else if d == 7 {
        '7'
    } else if d == 8 {
        '8'
    } else {
        '9'
    }
}

/// Decimal rendering of a natural number, most significant digit first,
/// with no leading zeros (a single `'0'` for zero).
pub open spec fn spec_dec_nat(n: nat) -> Seq<char>
    decreases n,
{
    if n < 10 {
        seq![spec_digit(n)]
    } else {
        spec_dec_nat(n / 10) + seq![spec_digit(n % 10)]
    }
}

/// Decimal rendering of an integer: a minus sign before the magnitude of
/// a negative value.
pub open spec fn spec_dec_int(n: int) -> Seq<char> {
    if n >= 0 {
        spec_dec_nat(n as nat)
    } else {
        seq!['-'] + spec_dec_nat((-n) as nat)
    }
}

fn digit_str(d: u64) -> (r: &'static str)
    requires
        d < 10,
    ensures
        r@ == seq![spec_digit(d as nat)],
{
    proof {
        reveal_strlit("0");
        reveal_strlit("1");
        reveal_strlit("2");
        reveal_strlit("3");
        reveal_strlit("4");
        reveal_strlit("5");
        reveal_strlit("6");
        reveal_strlit("7");
        reveal_strlit("8");
        reveal_strlit("9");
    }
    let r = if d == 0 {
        "0"
    } else if d == 1 {
        "1"
    } else if d == 2 {
        "2"
    } else if d == 3 {
        "3"
    } else if d == 4 {
        "4"
    } else if d == 5 {
        "5"
    } else if d == 6 {
        "6"
    } else if d == 7 {
        "7"
    } else if d == 8 {
        "8"
    } else {
        "9"
    };
    proof {
        assert(r@ =~= seq![spec_digit(d as nat)]);
    }
    r
}

/// Renders an unsigned value in decimal.
pub fn dec_u64(n: u64) -> (r: String)
    ensures
        r@ == spec_dec_nat(n as nat),
    decreases n,
{
    if n < 10 {
        String::from_str(digit_str(n))
    } else {
        let mut s = dec_u64(n / 10);
        s.append(digit_str(n % 10));
        s
    }
}

/// Renders a signed value in decimal.
pub fn dec_i64(n: i64) -> (r: String)
    ensures
        r@ == spec_dec_int(n as int),
{
    if n >= 0 {
        dec_u64(n as u64)
    } else {
        let mag: u64 = if n == i64::MIN {
            9223372036854775808u64
        } else {
            (-n) as u64
        };
        proof {
            assert(mag as int == -(n as int));
            reveal_strlit("-");
        }
        let mut s = String::from_str("-");
        let m = dec_u64(mag);
        s.append(m.as_str());
        proof {
            assert(s@ =~= spec_dec_int(n as int));
        }
        s
    }
}

/// Clones a string, keeping its characters.
pub fn clone_string(s: &String) -> (r: String)
    ensures
        r@ == s@,
{
    s.clone()
}

/// The character for one hexadecimal digit, lower case.
pub open spec fn spec_hex_digit(d: nat) -> char {
    if d < 10 {
        spec_digit(d)
    } else if d == 10 {
        'a'
    } else if d == 11 {
        'b'
    } else if d == 12 {
        'c'
    } else if d == 13 {
        'd'
    } else if d == 14 {
        'e'
    } else {
        'f'
    }
}

/// The JSON escape of one character: the short escapes for quote,
/// backslash and the common control characters, a `\u00XX` escape for
/// the remaining control characters, and the character itself otherwise.
pub open spec fn spec_escape_char(c: char) -> Seq<char> {
    if c == '"' {
        "\\\""@
    } else if c == '\\' {
        "\\\\"@
    } else if c == '\n' {
        "\\n"@
    } else if c == '\r' {
        "\\r"@
    } else if c == '\t' {
        "\\t"@
    } else if c == '\u{8}' {
        "\\b"@
    } else if c == '\u{c}' {
        "\\f"@
    } else if (c as int) < 32 {
        "\\u00"@ + seq![
            spec_hex_digit((c as int / 16) as nat),
            spec_hex_digit((c as int % 16) as nat),
        ]
    } else {
        seq![c]
    }
}

/// The JSON escape of a whole string.
pub open spec fn spec_json_escape(s: Seq<char>) -> Seq<char>
    decreases s.len(),
{
    if s.len() == 0 {
        Seq::<char>::empty()
    } else {
        spec_json_escape(s.drop_last()) + spec_escape_char(s.last())
    }
}

fn hex_digit_char(d: u32) -> (r: char)
    requires
        d < 16,
    ensures
        r == spec_hex_digit(d as nat),
{
    if d == 0 {
        '0'
    } else if d == 1 {
        '1'
    } else if d == 2 {
        '2'
    } else if d == 3 {
        '3'
    } else if d == 4 {
        '4'
    } else if d == 5 {
        '5'
    } else if d == 6 {
        '6'
    } else if d == 7 {
        '7'
    } else if d == 8 {
        '8'
    } else if d == 9 {
        '9'
    } else if d == 10 {
        'a'
    } else if d == 11 {
        'b'
    } else if d == 12 {
        'c'
    } else if d == 13 {
        'd'
    } else if d == 14 {
        'e'
    } else {
        'f'
    }
}

/// Escapes a string for embedding in a JSON string literal.
pub fn json_escape(s: &String) -> (r: String)
    ensures
        r@ == spec_json_escape(s@),
{
    let mut r = String::new();
    let n = s.as_str().unicode_len();
    let mut i: usize = 0;
    while i < n
        invariant
            i <= n,
            n == s@.len(),
            r@ == spec_json_escape(s@.take(i as int)),
        decreases n - i,
    {
        let c = s.as_str().get_char(i);
        if c == '"' {
            r.append("\\\"");
        } else if c == '\\' {
            r.append("\\\\");
        } else if c == '\n' {
            r.append("\\n");
        } else if c == '\r' {
            r.append("\\r");
        } else if c == '\t' {
            r.append("\\t");
        } else if c == '\u{8}' {
            r.append("\\b");
        } else if c == '\u{c}' {
            r.append("\\f");
        } else if (c as u32) < 32 {
            let v = c as u32;
            r.append("\\u00");
            r.push(hex_digit_char(v / 16));
            r.push(hex_digit_char(v % 16));
            proof {
                assert(r@ =~= spec_json_escape(s@.take(i as int)) + spec_escape_char(c));
            }
        } else {
            r.push(c);
        }
        proof {
            let taken = s@.take(i as int + 1);
            assert(taken.drop_last() =~= s@.take(i as int));
            assert(taken.last() == s@[i as int]);
            assert(r@ =~= spec_json_escape(taken));
        }
        i += 1;
    }
    proof {
        assert(s@.take(n as int) =~= s@);
    }
    r
}

/// Joining a file name onto a directory, as the platform path join does
/// for relative file names: a single separator between the two, none
/// doubled, and the bare file name under an empty directory.
pub open spec fn spec_join_path(dir: Seq<char>, file: Seq<char>) -> Seq<char> {
    if dir.len() == 0 {
        file
    } else if dir.last() == '/' {
        dir + file
    } else {
        dir + "/"@ + file
    }
}

/// Joins a file name onto a directory path.
pub fn join_path(dir: &String, file: &String) -> (r: String)
    ensures
        r@ == spec_join_path(dir@, file@),
{
    let n = dir.as_str().unicode_len();
    if n == 0 {
        clone_string(file)
    } else {
        let mut r = clone_string(dir);
        let lastc = dir.as_str().get_char(n - 1);
        if lastc != '/' {
            r.append("/");
        }
        r.append(file.as_str());
        proof {
            assert(r@ =~= spec_join_path(dir@, file@));
        }
        r
    }
}

/// ASCII-case-insensitive equality of two characters.
pub open spec fn spec_char_eq_ignore_case(x: char, y: char) -> bool {
    ||| x == y
    ||| (65 <= x as int <= 90 && x as int + 32 == y as int)
    ||| (65 <= y as int <= 90 && y as int + 32 == x as int)
}

/// ASCII-case-insensitive equality of two strings.
pub open spec fn spec_eq_ignore_ascii_case(a: Seq<char>, b: Seq<char>) -> bool {
    a.len() == b.len() && forall|i: int| 0 <= i < a.len() ==> spec_char_eq_ignore_case(
        #[trigger] a[i],
        b[i],
    )
}

/// Compares two strings, ignoring ASCII case.
pub fn eq_ignore_ascii_case(s: &String, w: &str) -> (r: bool)
    ensures
        r == spec_eq_ignore_ascii_case(s@, w@),
{
    let n = s.as_str().unicode_len();
    let m = w.unicode_len();
    if n != m {
        return false;
    }
    let mut i: usize = 0;
    while i < n
        invariant
            i <= n,
            n == s@.len(),
            n == w@.len(),
            forall|k: int| 0 <= k < i ==> spec_char_eq_ignore_case(#[trigger] s@[k], w@[k]),
        decreases n - i,
    {
        let a = s.as_str().get_char(i);
        let b = w.get_char(i);
        let same = if a == b {
            true
        } else {
            let au = a as u32;
            let bu = b as u32;
            (au >= 65 && au <= 90 && au + 32 == bu) || (bu >= 65 && bu <= 90 && bu + 32 == au)
        };
        if !same {
            proof {
                assert(!spec_char_eq_ignore_case(s@[i as int], w@[i as int]));
            }
            return false;
        }
        i += 1;
    }
    true
}

} // verus!
