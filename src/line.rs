use vstd::prelude::*;

verus! {

pub const TAB: u8 = 9;
pub const LINE_FEED: u8 = 10;
pub const VERTICAL_TAB: u8 = 11;
pub const FORM_FEED: u8 = 12;
pub const CARRIAGE_RETURN: u8 = 13;
pub const SPACE: u8 = 32;
pub const PERCENT: u8 = 37;
pub const OPEN_PAREN: u8 = 40;
pub const CLOSE_PAREN: u8 = 41;
pub const SLASH: u8 = 47;
pub const DIGIT_ZERO: u8 = 48;
pub const DIGIT_NINE: u8 = 57;
pub const COLON: u8 = 58;

pub open spec fn is_blank(b: u8) -> bool {
    b == SPACE || b == TAB || b == LINE_FEED || b == VERTICAL_TAB || b == FORM_FEED || b
        == CARRIAGE_RETURN
}

pub open spec fn is_digit(b: u8) -> bool {
    DIGIT_ZERO <= b <= DIGIT_NINE
}

/// The first index from `j` on that does not hold a blank.
pub open spec fn skip_blanks(s: Seq<u8>, j: int) -> int
    decreases s.len() - j,
{
    if 0 <= j < s.len() && is_blank(s[j]) {
        skip_blanks(s, j + 1)
    } else {
        j
    }
}

/// The first index from `j` on that does not hold a digit.
pub open spec fn skip_digits(s: Seq<u8>, j: int) -> int
    decreases s.len() - j,
{
    if 0 <= j < s.len() && is_digit(s[j]) {
        skip_digits(s, j + 1)
    } else {
        j
    }
}

/// The number that a run of decimal digits spells.
pub open spec fn decimal_value(d: Seq<u8>) -> nat
    decreases d.len(),
{
    if d.len() == 0 {
        0
    } else {
        decimal_value(d.drop_last()) * 10 + (d.last() - DIGIT_ZERO) as nat
    }
}

/// A count as read from a line: a number too large for `u64` reads as zero.
pub open spec fn count_value(d: Seq<u8>) -> u64 {
    if decimal_value(d) <= u64::MAX {
        decimal_value(d) as u64
    } else {
        0
    }
}

/// The bytes of `s` from `i` on spell `label`.
pub open spec fn label_at(s: Seq<u8>, label: Seq<char>, i: int) -> bool {
    forall|k: int| 0 <= k < label.len() ==> s[i + k] as u32 == label[k] as u32
}

/// The counts of a progress line for `label` that starts at byte `i`: the
/// label, a colon, blanks, an optional percentage such as `45%` followed by
/// blanks, then `(received/total)`.
pub open spec fn progress_at(s: Seq<u8>, label: Seq<char>, i: int) -> Option<(u64, u64)> {
    let a = i + label.len();
    if 0 <= i && a < s.len() && label_at(s, label, i) && s[a] == COLON {
        let b = skip_blanks(s, a + 1);
        let d = skip_digits(s, b);
        let c = if b < d && d < s.len() && s[d] == PERCENT {
            skip_blanks(s, d + 1)
        } else {
            b
        };
        let e = skip_digits(s, c + 1);
        let f = skip_digits(s, e + 1);
        if c < s.len() && s[c] == OPEN_PAREN && c + 1 < e && e < s.len() && s[e] == SLASH && e + 1
            < f && f < s.len() && s[f] == CLOSE_PAREN {
            Some((count_value(s.subrange(c + 1, e)), count_value(s.subrange(e + 1, f))))
        } else {
            None
        }
    } else {
        None
    }
}

/// The counts of the leftmost progress line for `label` that starts at or after `i`.
pub open spec fn find_progress(s: Seq<u8>, label: Seq<char>, i: int) -> Option<(u64, u64)>
    decreases s.len() - i,
{
    if i < 0 || i >= s.len() {
        None
    } else {
        match progress_at(s, label, i) {
            Some(p) => Some(p),
            None => find_progress(s, label, i + 1),
        }
    }
}

/// The counts that a line of the fetch tool's output reports for `label`.
pub open spec fn line_progress(s: Seq<u8>, label: Seq<char>) -> Option<(u64, u64)> {
    find_progress(s, label, 0)
}

pub fn is_blank_byte(b: u8) -> (r: bool)
    ensures
        r == is_blank(b),
{
    b == SPACE || b == TAB || b == LINE_FEED || b == VERTICAL_TAB || b == FORM_FEED || b
        == CARRIAGE_RETURN
}

pub fn is_digit_byte(b: u8) -> (r: bool)
    ensures
        r == is_digit(b),
{
    DIGIT_ZERO <= b && b <= DIGIT_NINE
}

fn skip_blanks_from(s: &Vec<u8>, j: usize) -> (r: usize)
    requires
        j <= s.len(),
    ensures
        r == skip_blanks(s@, j as int),
        j <= r <= s.len(),
{
    let mut k = j;
    while k < s.len() && is_blank_byte(s[k])
        invariant
            j <= k <= s.len(),
            skip_blanks(s@, k as int) == skip_blanks(s@, j as int),
        decreases s.len() - k,
    {
        k = k + 1;
    }
    k
}

fn skip_digits_from(s: &Vec<u8>, j: usize) -> (r: usize)
    requires
        j <= s.len(),
    ensures
        r == skip_digits(s@, j as int),
        j <= r <= s.len(),
        forall|k: int| j <= k < r ==> is_digit(#[trigger] s@[k]),
{
    let mut k = j;
    while k < s.len() && is_digit_byte(s[k])
        invariant
            j <= k <= s.len(),
            skip_digits(s@, k as int) == skip_digits(s@, j as int),
            forall|m: int| j <= m < k ==> is_digit(#[trigger] s@[m]),
        decreases s.len() - k,
    {
        k = k + 1;
    }
    k
}

proof fn lemma_value_grows(d: Seq<u8>)
    requires
        d.len() > 0,
        is_digit(d.last()),
    ensures
        decimal_value(d) >= decimal_value(d.drop_last()) * 10,
        decimal_value(d) >= decimal_value(d.drop_last()),
{
    let v = decimal_value(d.drop_last());
    assert(v * 10 >= v) by (nonlinear_arith);
}

/// Reads the digits `s[from..to]` as a count.
fn count_from(s: &Vec<u8>, from: usize, to: usize) -> (r: u64)
    requires
        from <= to <= s.len(),
        forall|k: int| from <= k < to ==> is_digit(#[trigger] s@[k]),
    ensures
        r == count_value(s@.subrange(from as int, to as int)),
{
    let mut v: u64 = 0;
    let mut over = false;
    let mut k = from;
    while k < to
        invariant
            from <= k <= to <= s.len(),
            forall|m: int| from <= m < to ==> is_digit(#[trigger] s@[m]),
            !over ==> v == decimal_value(s@.subrange(from as int, k as int)),
            over ==> decimal_value(s@.subrange(from as int, k as int)) > u64::MAX,
        decreases to - k,
    {
        let ghost prev = s@.subrange(from as int, k as int);
        let ghost cur = s@.subrange(from as int, k + 1);
        proof {
            assert(cur.drop_last() == prev);
            assert(is_digit(s@[k as int]));
            lemma_value_grows(cur);
        }
        let digit = (s[k] - DIGIT_ZERO) as u64;
        if !over {
            match v.checked_mul(10) {
                Some(m) => match m.checked_add(digit) {
                    Some(n) => {
                        v = n;
                    },
                    None => {
                        over = true;
                    },
                },
                None => {
                    over = true;
                },
            }
        }
        k = k + 1;
    }
    if over {
        0
    } else {
        v
    }
}

/// The characters of a string, one by one.
pub fn chars_of(s: &str) -> (r: Vec<char>)
    ensures
        r@ == s@,
{
    let n = s.unicode_len();
    let mut r: Vec<char> = Vec::new();
    let mut i: usize = 0;
    while i < n
        invariant
            n == s@.len(),
            i <= n,
            r@ == s@.subrange(0, i as int),
        decreases n - i,
    {
        r.push(s.get_char(i));
        i = i + 1;
    }
    r
}

fn label_matches(s: &Vec<u8>, label: &Vec<char>, i: usize) -> (r: bool)
    requires
        i + label.len() <= s.len(),
    ensures
        r == label_at(s@, label@, i as int),
{
    let mut k: usize = 0;
    while k < label.len()
        invariant
            i + label.len() <= s.len(),
            k <= label.len(),
            forall|m: int| 0 <= m < k ==> s@[i + m] as u32 == label@[m] as u32,
        decreases label.len() - k,
    {
        if s[i + k] as u32 != label[k] as u32 {
            return false;
        }
        k = k + 1;
    }
    true
}

fn progress_from(s: &Vec<u8>, label: &Vec<char>, i: usize) -> (r: Option<(u64, u64)>)
    requires
        i < s.len(),
    ensures
        r == progress_at(s@, label@, i as int),
{
    if label.len() >= s.len() - i {
        return None;
    }
    let a = i + label.len();
    if !label_matches(s, label, i) || s[a] != COLON {
        return None;
    }
    let b = skip_blanks_from(s, a + 1);
    let d = skip_digits_from(s, b);
    let c = if b < d && d < s.len() && s[d] == PERCENT {
        skip_blanks_from(s, d + 1)
    } else {
        b
    };
    if c >= s.len() || s[c] != OPEN_PAREN {
        return None;
    }
    let e = skip_digits_from(s, c + 1);
    if e <= c + 1 || e >= s.len() || s[e] != SLASH {
        return None;
    }
    let f = skip_digits_from(s, e + 1);
    if f <= e + 1 || f >= s.len() || s[f] != CLOSE_PAREN {
        return None;
    }
    Some((count_from(s, c + 1, e), count_from(s, e + 1, f)))
}

/// The counts that `line` reports for `label`, as the leftmost progress
/// line for it within `line` gives them.
pub fn parse_progress(line: &Vec<u8>, label: &Vec<char>) -> (r: Option<(u64, u64)>)
    ensures
        r == line_progress(line@, label@),
{
    let mut i: usize = 0;
    while i < line.len()
        invariant
            i <= line.len(),
            find_progress(line@, label@, 0) == find_progress(line@, label@, i as int),
        decreases line.len() - i,
    {
        let p = progress_from(line, label, i);
        if p.is_some() {
            return p;
        }
        i = i + 1;
    }
    None
}

} // verus!
