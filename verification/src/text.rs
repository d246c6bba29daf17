//! Small verified text utilities the orchestration layer needs: string
//! equality over views, decimal parsing and rendering, ASCII whitespace
//! trimming and file-extension extraction.

use vstd::prelude::*;

verus! {

/// String equality, stated over the character views.
pub fn str_eq(a: &str, b: &str) -> (r: bool)
    ensures
        r == (a@ == b@),
{
    let sa = a.to_owned();
    let sb = b.to_owned();
    sa == sb
}

/// A decimal digit, by code point.
pub open spec fn is_digit_char(c: char) -> bool {
    48 <= c as int && c as int <= 57
}

/// The numeric value of a digit character; zero for any other character,
/// which keeps decimal values monotone in the prefix.
pub open spec fn digit_val(c: char) -> nat {
    if is_digit_char(c) {
        (c as int - 48) as nat
    } else {
        0
    }
}

pub open spec fn all_digits(s: Seq<char>) -> bool {
    forall|i: int| 0 <= i < s.len() ==> is_digit_char(#[trigger] s[i])
}

/// The value of a digit string read in base ten.
pub open spec fn dec_value(s: Seq<char>) -> nat
    decreases s.len(),
{
    if s.len() == 0 {
        0
    } else {
        dec_value(s.drop_last()) * 10 + digit_val(s.last())
    }
}

/// Appending a character multiplies the value by ten and adds the digit.
pub proof fn lemma_dec_value_snoc(s: Seq<char>, i: int)
    requires
        0 <= i < s.len(),
    ensures
        dec_value(s.subrange(0, i + 1)) == dec_value(s.subrange(0, i)) * 10 + digit_val(s[i]),
{
    let t = s.subrange(0, i + 1);
    assert(t.drop_last() =~= s.subrange(0, i));
    assert(t.last() == s[i]);
}

/// A prefix of a digit string never exceeds the whole string's value.
pub proof fn lemma_dec_value_prefix_le(s: Seq<char>, j: int, i: int)
    requires
        0 <= j <= i <= s.len(),
    ensures
        dec_value(s.subrange(0, j)) <= dec_value(s.subrange(0, i)),
    decreases i - j,
{
    if j < i {
        lemma_dec_value_prefix_le(s, j, i - 1);
        lemma_dec_value_snoc(s, i - 1);
    }
}

/// Whether a decimal token parses successfully against a bound.
pub open spec fn spec_parse_ok(s: Seq<char>, max: nat) -> bool {
    s.len() > 0 && all_digits(s) && dec_value(s) <= max
}

/// The error a failing decimal parse reports: an empty token, then a
/// too-large value (detected digit by digit, so it wins over a later
/// non-digit), then a stray non-digit character.
pub open spec fn spec_parse_err(s: Seq<char>, max: nat) -> ParseNumError {
    if s.len() == 0 {
        ParseNumError::EmptyInput
    } else if exists|i: int|
        1 <= i <= s.len() && all_digits(#[trigger] s.subrange(0, i)) && dec_value(
            s.subrange(0, i),
        ) > max {
        ParseNumError::Overflow
    } else {
        ParseNumError::InvalidDigit
    }
}

/// Why a decimal token was rejected. The messages mirror the standard
/// library's integer-parsing diagnostics.
#[derive(Clone, Copy, PartialEq, Eq, Structural, Debug)]
pub enum ParseNumError {
    EmptyInput,
    InvalidDigit,
    Overflow,
}

impl ParseNumError {
    pub open spec fn spec_message(self) -> Seq<char> {
        match self {
            ParseNumError::EmptyInput => "cannot parse integer from empty string"@,
            ParseNumError::InvalidDigit => "invalid digit found in string"@,
            ParseNumError::Overflow => "number too large to fit in target type"@,
        }
    }

    /// The diagnostic text for this rejection.
    pub fn message(&self) -> (r: String)
        ensures
            r@ == self.spec_message(),
    {
        match self {
            ParseNumError::EmptyInput => "cannot parse integer from empty string".to_owned(),
            ParseNumError::InvalidDigit => "invalid digit found in string".to_owned(),
            ParseNumError::Overflow => "number too large to fit in target type".to_owned(),
        }
    }
}

/// Parses an unsigned decimal token, accepting values up to `max`.
/// Succeeds exactly on non-empty all-digit strings whose value fits;
/// an empty token, a non-digit character and a too-large value are each
/// rejected with their own error.
pub fn parse_dec(s: &str, max: u64) -> (r: Result<u64, ParseNumError>)
    ensures
        (r is Ok) <==> (s@.len() > 0 && all_digits(s@) && dec_value(s@) <= max),
        r matches Ok(v) ==> v as nat == dec_value(s@) && v <= max,
        (r == Err::<u64, ParseNumError>(ParseNumError::EmptyInput)) <==> s@.len() == 0,
        (r == Err::<u64, ParseNumError>(ParseNumError::Overflow)) <==> (exists|i: int|
            1 <= i <= s@.len() && all_digits(#[trigger] s@.subrange(0, i)) && dec_value(
                s@.subrange(0, i),
            ) > max),
        (r == Err::<u64, ParseNumError>(ParseNumError::InvalidDigit)) ==> !all_digits(s@),
        r matches Err(e) ==> e == spec_parse_err(s@, max as nat),
        r is Ok <==> spec_parse_ok(s@, max as nat),
{
    let ghost sv = s@;
    let n = s.unicode_len();
    if n == 0 {
        proof {
            assert(forall|i: int| !(1 <= i <= sv.len() && all_digits(#[trigger] sv.subrange(0, i))
                && dec_value(sv.subrange(0, i)) > max));
        }
        return Err(ParseNumError::EmptyInput);
    }
    let mut acc: u64 = 0;
    let mut i: usize = 0;
    while i < n
        invariant
            sv == s@,
            n == sv.len(),
            0 <= i <= n,
            all_digits(sv.subrange(0, i as int)),
            acc as nat == dec_value(sv.subrange(0, i as int)),
            acc <= max,
        decreases n - i,
    {
        let c = s.get_char(i);
        let cu: u32 = c as u32;
        if cu < 48 || cu > 57 {
            proof {
                assert(!is_digit_char(sv[i as int]));
                assert(!all_digits(sv));
                assert forall|k: int|
                    1 <= k <= sv.len() && all_digits(#[trigger] sv.subrange(0, k)) implies dec_value(
                    sv.subrange(0, k),
                ) <= max by {
                    if k > i {
                        assert(is_digit_char(sv.subrange(0, k)[i as int]));
                        assert(false);
                    } else {
                        lemma_dec_value_prefix_le(sv, k, i as int);
                    }
                }
            }
            return Err(ParseNumError::InvalidDigit);
        }
        let d: u64 = (cu - 48) as u64;
        proof {
            assert(is_digit_char(sv[i as int]));
            assert(d as nat == digit_val(sv[i as int]));
            lemma_dec_value_snoc(sv, i as int);
        }
        if acc > max / 10 || (acc == max / 10 && d > max % 10) {
            proof {
                let k = i as int + 1;
                assert(all_digits(sv.subrange(0, k))) by {
                    assert(forall|t: int|
                        0 <= t < k ==> is_digit_char(#[trigger] sv.subrange(0, k)[t]));
                }
                assert(dec_value(sv.subrange(0, k)) == acc * 10 + d);
                assert(acc * 10 + d > max);
                if all_digits(sv) && dec_value(sv) <= max {
                    lemma_dec_value_prefix_le(sv, k, sv.len() as int);
                    assert(sv.subrange(0, sv.len() as int) =~= sv);
                    assert(false);
                }
            }
            return Err(ParseNumError::Overflow);
        }
        proof {
            assert(acc * 10 + d <= max);
        }
        acc = acc * 10 + d;
        i = i + 1;
        proof {
            assert(all_digits(sv.subrange(0, i as int))) by {
                assert(forall|t: int|
                    0 <= t < i as int ==> is_digit_char(#[trigger] sv.subrange(0, i as int)[t]));
            }
        }
    }
    proof {
        assert(sv.subrange(0, n as int) =~= sv);
        assert forall|k: int|
            1 <= k <= sv.len() && all_digits(#[trigger] sv.subrange(0, k)) implies dec_value(
            sv.subrange(0, k),
        ) <= max by {
            lemma_dec_value_prefix_le(sv, k, n as int);
        }
    }
    Ok(acc)
}

/// Parses an unsigned decimal token into a `usize`.
pub fn parse_usize(s: &str) -> (r: Result<usize, ParseNumError>)
    ensures
        (r is Ok) <==> (s@.len() > 0 && all_digits(s@) && dec_value(s@) <= usize::MAX),
        r matches Ok(v) ==> v as nat == dec_value(s@),
        (r == Err::<usize, ParseNumError>(ParseNumError::EmptyInput)) <==> s@.len() == 0,
        (r == Err::<usize, ParseNumError>(ParseNumError::InvalidDigit)) ==> !all_digits(s@),
        r matches Err(e) ==> e == spec_parse_err(s@, usize::MAX as nat),
        r is Ok <==> spec_parse_ok(s@, usize::MAX as nat),
{
    match parse_dec(s, usize::MAX as u64) {
        Ok(v) => Ok(v as usize),
        Err(e) => Err(e),
    }
}

/// Parses an unsigned decimal token into a `u16`.
pub fn parse_u16(s: &str) -> (r: Result<u16, ParseNumError>)
    ensures
        (r is Ok) <==> (s@.len() > 0 && all_digits(s@) && dec_value(s@) <= u16::MAX),
        r matches Ok(v) ==> v as nat == dec_value(s@),
        (r == Err::<u16, ParseNumError>(ParseNumError::EmptyInput)) <==> s@.len() == 0,
        (r == Err::<u16, ParseNumError>(ParseNumError::InvalidDigit)) ==> !all_digits(s@),
        r matches Err(e) ==> e == spec_parse_err(s@, u16::MAX as nat),
        r is Ok <==> spec_parse_ok(s@, u16::MAX as nat),
{
    match parse_dec(s, u16::MAX as u64) {
        Ok(v) => Ok(v as u16),
        Err(e) => Err(e),
    }
}

/// The character for a single decimal digit.
pub open spec fn digit_char_of(d: nat) -> char {
    if d == 0 {
        '0'
    } else if d == 1 {
        '1'
    } else if d == 2 {
        '2'
    } else if d == 3 {
        '3'
    } else if d == 4 {
        '4'
    } else if d == 5 {
        '5'
    } else if d == 6 {
        '6'
    } else if d == 7 {
        '7'
    } else if d == 8 {
        '8'
    } else {
        '9'
    }
}

/// The decimal rendering of a number, most significant digit first.
pub open spec fn dec_digits(n: nat) -> Seq<char>
    decreases n,
{
    if n < 10 {
        seq![digit_char_of(n)]
    } else {
        dec_digits(n / 10).push(digit_char_of(n % 10))
    }
}

/// The one-character string for a decimal digit.
pub fn digit_string(d: u64) -> (r: String)
    requires
        d < 10,
    ensures
        r@ == seq![digit_char_of(d as nat)],
{
    if d == 0 {
        let r = "0".to_owned();
        proof {
            reveal_strlit("0");
            assert(r@ =~= seq![digit_char_of(d as nat)]);
        }
        r
    } else if d == 1 {
        let r = "1".to_owned();
        proof {
            reveal_strlit("1");
            assert(r@ =~= seq![digit_char_of(d as nat)]);
        }
        r
    } else if d == 2 {
        let r = "2".to_owned();
        proof {
            reveal_strlit("2");
            assert(r@ =~= seq![digit_char_of(d as nat)]);
        }
        r
    } else if d == 3 {
        let r = "3".to_owned();
        proof {
            reveal_strlit("3");
            assert(r@ =~= seq![digit_char_of(d as nat)]);
        }
        r
    } else if d == 4 {
        let r = "4".to_owned();
        proof {
            reveal_strlit("4");
            assert(r@ =~= seq![digit_char_of(d as nat)]);
        }
        r
    } else if d == 5 {
        let r = "5".to_owned();
        proof {
            reveal_strlit("5");
            assert(r@ =~= seq![digit_char_of(d as nat)]);
        }
        r
    } else if d == 6 {
        let r = "6".to_owned();
        proof {
            reveal_strlit("6");
            assert(r@ =~= seq![digit_char_of(d as nat)]);
        }
        r
    } else if d == 7 {
        let r = "7".to_owned();
        proof {
            reveal_strlit("7");
            assert(r@ =~= seq![digit_char_of(d as nat)]);
        }
        r
    } else if d == 8 {
        let r = "8".to_owned();
        proof {
            reveal_strlit("8");
            assert(r@ =~= seq![digit_char_of(d as nat)]);
        }
        r
    } else {
        let r = "9".to_owned();
        proof {
            reveal_strlit("9");
            assert(r@ =~= seq![digit_char_of(d as nat)]);
        }
        r
    }
}

/// Renders a number in decimal, most significant digit first.
pub fn u64_to_string(n: u64) -> (r: String)
    ensures
        r@ == dec_digits(n as nat),
    decreases n,
{
    if n < 10 {
        digit_string(n)
    } else {
        let mut s = u64_to_string(n / 10);
        let d = digit_string(n % 10);
        s.append(d.as_str());
        proof {
            assert(s@ =~= dec_digits(n as nat));
        }
        s
    }
}

/// Renders a `usize` in decimal.
pub fn usize_to_string(n: usize) -> (r: String)
    ensures
        r@ == dec_digits(n as nat),
{
    u64_to_string(n as u64)
}

/// ASCII whitespace, the only whitespace trimmed from option values.
pub open spec fn is_ascii_space(c: char) -> bool {
    c == ' ' || c == '\t' || c == '\n' || c == '\r'
}

pub open spec fn trim_start_spec(s: Seq<char>) -> Seq<char>
    decreases s.len(),
{
    if s.len() > 0 && is_ascii_space(s[0]) {
        trim_start_spec(s.drop_first())
    } else {
        s
    }
}

pub open spec fn trim_end_spec(s: Seq<char>) -> Seq<char>
    decreases s.len(),
{
    if s.len() > 0 && is_ascii_space(s.last()) {
        trim_end_spec(s.drop_last())
    } else {
        s
    }
}

/// The string with leading and trailing ASCII whitespace removed.
pub open spec fn trim_spec(s: Seq<char>) -> Seq<char> {
    trim_end_spec(trim_start_spec(s))
}

fn is_space_char(c: char) -> (r: bool)
    ensures
        r == is_ascii_space(c),
{
    let cu: u32 = c as u32;
    cu == 32 || cu == 9 || cu == 10 || cu == 13
}

/// Removes leading and trailing ASCII whitespace.
pub fn trim_ascii(s: &str) -> (r: String)
    ensures
        r@ == trim_spec(s@),
{
    let ghost sv = s@;
    let n = s.unicode_len();
    proof {
        assert(sv.subrange(0, n as int) =~= sv);
    }
    let mut i: usize = 0;
    loop
        invariant
            sv == s@,
            n == sv.len(),
            0 <= i <= n,
            trim_start_spec(sv) == trim_start_spec(sv.subrange(i as int, n as int)),
        ensures
            0 <= i <= n,
            trim_start_spec(sv) == sv.subrange(i as int, n as int),
        decreases n - i,
    {
        if i >= n {
            proof {
                assert(sv.subrange(i as int, n as int) =~= Seq::<char>::empty());
            }
            break ;
        }
        let c = s.get_char(i);
        proof {
            assert(sv.subrange(i as int, n as int)[0] == sv[i as int]);
        }
        if !is_space_char(c) {
            break ;
        }
        proof {
            let tail = sv.subrange(i as int, n as int);
            assert(tail.drop_first() =~= sv.subrange(i as int + 1, n as int));
        }
        i = i + 1;
    }
    let mut j: usize = n;
    loop
        invariant
            sv == s@,
            n == sv.len(),
            i <= j <= n,
            trim_start_spec(sv) == sv.subrange(i as int, n as int),
            trim_end_spec(sv.subrange(i as int, n as int)) == trim_end_spec(
                sv.subrange(i as int, j as int),
            ),
        ensures
            i <= j <= n,
            trim_end_spec(sv.subrange(i as int, n as int)) == sv.subrange(i as int, j as int),
        decreases j,
    {
        if j <= i {
            proof {
                assert(sv.subrange(i as int, j as int) =~= Seq::<char>::empty());
            }
            break ;
        }
        let c = s.get_char(j - 1);
        proof {
            assert(sv.subrange(i as int, j as int).last() == sv[j as int - 1]);
        }
        if !is_space_char(c) {
            break ;
        }
        proof {
            let part = sv.subrange(i as int, j as int);
            assert(part.drop_last() =~= sv.subrange(i as int, j as int - 1));
        }
        j = j - 1;
    }
    let piece = s.substring_char(i, j);
    piece.to_owned()
}

/// Whether a character occurs in a string.
pub open spec fn contains_char(s: Seq<char>, c: char) -> bool {
    exists|i: int| 0 <= i < s.len() && s[i] == c
}

/// The suffix after the last occurrence of `c`; the whole string when `c`
/// does not occur.
pub open spec fn suffix_after_last(s: Seq<char>, c: char) -> Seq<char>
    decreases s.len(),
{
    if s.len() == 0 {
        s
    } else if s.last() == c {
        Seq::empty()
    } else {
        suffix_after_last(s.drop_last(), c).push(s.last())
    }
}

proof fn lemma_suffix_after_last_absent(s: Seq<char>, c: char)
    requires
        !contains_char(s, c),
    ensures
        suffix_after_last(s, c) == s,
    decreases s.len(),
{
    if s.len() > 0 {
        assert(s.last() != c);
        assert(!contains_char(s.drop_last(), c)) by {
            assert(forall|i: int|
                0 <= i < s.len() - 1 ==> #[trigger] s.drop_last()[i] == s[i]);
        }
        lemma_suffix_after_last_absent(s.drop_last(), c);
        assert(s.drop_last().push(s.last()) =~= s);
    }
}

proof fn lemma_suffix_after_last_at(s: Seq<char>, c: char, j: int)
    requires
        0 <= j < s.len(),
        s[j] == c,
        forall|k: int| j < k < s.len() ==> s[k] != c,
    ensures
        suffix_after_last(s, c) == s.subrange(j + 1, s.len() as int),
    decreases s.len(),
{
    if s.last() == c {
        assert(j == s.len() - 1);
        assert(s.subrange(j + 1, s.len() as int) =~= Seq::<char>::empty());
    } else {
        assert(j < s.len() - 1);
        let t = s.drop_last();
        assert(t[j] == c);
        assert(forall|k: int| j < k < t.len() ==> #[trigger] t[k] != c);
        lemma_suffix_after_last_at(t, c, j);
        assert(t.subrange(j + 1, t.len() as int).push(s.last()) =~= s.subrange(
            j + 1,
            s.len() as int,
        ));
    }
}

/// The final path component: everything after the last `/`, or the whole
/// name when it holds no `/`.
pub open spec fn last_component(s: Seq<char>) -> Seq<char> {
    if contains_char(s, '/') {
        suffix_after_last(s, '/')
    } else {
        s
    }
}

/// The extension of a path: the part of the final component after its last
/// `.`, provided something stands before that dot. A name without a dot in
/// its final component, and a final component that starts with its only
/// dot, have no extension.
pub open spec fn spec_extension_of(s: Seq<char>) -> Option<Seq<char>> {
    let comp = last_component(s);
    if contains_char(comp, '.') && comp.len() > suffix_after_last(comp, '.').len() + 1 {
        Some(suffix_after_last(comp, '.'))
    } else {
        None
    }
}

/// Scans backwards for the last occurrence of `needle` in
/// `s@.subrange(from, s@.len())`; returns its index, or `None`.
fn rfind_from(s: &str, from: usize, needle: char) -> (r: Option<usize>)
    requires
        from <= s@.len(),
    ensures
        match r {
            Some(j) => from <= j < s@.len() && s@[j as int] == needle && (forall|k: int|
                j < k < s@.len() ==> #[trigger] s@[k] != needle),
            None => forall|k: int| from <= k < s@.len() ==> #[trigger] s@[k] != needle,
        },
{
    let n = s.unicode_len();
    let mut j: usize = n;
    loop
        invariant
            from <= s@.len(),
            n == s@.len(),
            from <= j <= n,
            forall|k: int| j <= k < n ==> #[trigger] s@[k] != needle,
        decreases j,
    {
        if j <= from {
            return None;
        }
        let c = s.get_char(j - 1);
        if c == needle {
            return Some(j - 1);
        }
        j = j - 1;
    }
}

/// Extracts the file extension of a path-like name, as `Path::extension`
/// resolves it: the text after the last `.` of the final path component,
/// unless nothing or only that dot begins the component.
pub fn extension_of(name: &str) -> (r: Option<String>)
    ensures
        match r {
            Some(e) => spec_extension_of(name@) == Some(e@),
            None => spec_extension_of(name@) is None,
        },
{
    let ghost sv = name@;
    let n = name.unicode_len();
    let start: usize = match rfind_from(name, 0, '/') {
        Some(j) => {
            proof {
                assert(contains_char(sv, '/'));
                lemma_suffix_after_last_at(sv, '/', j as int);
            }
            j + 1
        },
        None => {
            proof {
                assert(forall|k: int| 0 <= k < sv.len() ==> #[trigger] sv[k] != '/');
                assert(!contains_char(sv, '/'));
            }
            0
        },
    };
    let ghost comp = last_component(sv);
    proof {
        assert(comp =~= sv.subrange(start as int, n as int));
    }
    match rfind_from(name, start, '.') {
        Some(j) => {
            proof {
                let jc = j as int - start as int;
                assert(comp[jc] == '.');
                assert(contains_char(comp, '.'));
                assert(forall|k: int| jc < k < comp.len() ==> #[trigger] comp[k] != '.');
                lemma_suffix_after_last_at(comp, '.', jc);
            }
            if j > start {
                let e = name.substring_char(j + 1, n);
                proof {
                    assert(e@ =~= suffix_after_last(comp, '.'));
                    assert(comp.len() > suffix_after_last(comp, '.').len() + 1);
                }
                Some(e.to_owned())
            } else {
                proof {
                    assert(comp.len() <= suffix_after_last(comp, '.').len() + 1);
                }
                None
            }
        },
        None => {
            proof {
                assert(forall|k: int|
                    0 <= k < comp.len() ==> #[trigger] comp[k] != '.');
                assert(!contains_char(comp, '.'));
            }
            None
        },
    }
}

} // verus!
