//! Character-level text helpers used by the page readers: finding markers,
//! trimming whitespace, joining words and reading decimal numbers.

use vstd::prelude::*;

verus! {

/// The characters of `s`, in order.
pub fn chars_of(s: &str) -> (res: Vec<char>)
    ensures
        res@ == s@,
{
    let mut res: Vec<char> = Vec::new();
    for c in it: s.chars()
        invariant
            res@ == it.seq().take(it.index() as int),
            it.seq() == s@,
    {
        res.push(c);
    }
    res
}

/// Whether `a` and `b` hold the same characters (`==` on `str`).
pub fn same_text(a: &str, b: &str) -> (res: bool)
    ensures
        res == (a@ == b@),
{
    let xs = chars_of(a);
    let ys = chars_of(b);
    if xs.len() != ys.len() {
        return false;
    }
    let mut i: usize = 0;
    while i < xs.len()
        invariant
            xs@ == a@,
            ys@ == b@,
            xs.len() == ys.len(),
            i <= xs.len(),
            forall|k: int| 0 <= k < i ==> xs@[k] == ys@[k],
        decreases xs.len() - i,
    {
        if xs[i] != ys[i] {
            return false;
        }
        i = i + 1;
    }
    assert(xs@ =~= ys@);
    true
}

// ------------------------------------------------------------------
// Finding a marker
// ------------------------------------------------------------------

/// `pat` stands in `s` starting at position `i`.
pub open spec fn occurs_at(s: Seq<char>, pat: Seq<char>, i: int) -> bool {
    &&& 0 <= i
    &&& i + pat.len() <= s.len()
    &&& s.subrange(i, i + pat.len()) == pat
}

/// The first position at or after `from` where `pat` stands in `s`.
pub open spec fn first_index_from(s: Seq<char>, pat: Seq<char>, from: int) -> Option<int>
    decreases s.len() + 1 - from,
{
    if from < 0 || from + pat.len() > s.len() {
        None
    } else if occurs_at(s, pat, from) {
        Some(from)
    } else {
        first_index_from(s, pat, from + 1)
    }
}

/// The first position where `pat` stands in `s` (what `str::find` returns,
/// counted in characters).
pub open spec fn first_index(s: Seq<char>, pat: Seq<char>) -> Option<int> {
    first_index_from(s, pat, 0)
}

/// `s` contains `pat`.
pub open spec fn has_substring(s: Seq<char>, pat: Seq<char>) -> bool {
    first_index(s, pat) is Some
}

/// What follows the first occurrence of `marker` in `s`.
pub open spec fn text_after(s: Seq<char>, marker: Seq<char>) -> Option<Seq<char>> {
    match first_index(s, marker) {
        Some(i) => Some(s.subrange(i + marker.len(), s.len() as int)),
        None => None,
    }
}

/// The search from `from` finds the first occurrence at or after `from`.
pub proof fn lemma_first_index_from(s: Seq<char>, pat: Seq<char>, from: int)
    requires
        0 <= from,
    ensures
        first_index_from(s, pat, from) matches Some(i) ==> from <= i && occurs_at(s, pat, i),
        first_index_from(s, pat, from) matches Some(i) ==> forall|j: int|
            from <= j < i ==> !occurs_at(s, pat, j),
        first_index_from(s, pat, from) is None ==> forall|j: int|
            from <= j ==> !occurs_at(s, pat, j),
    decreases s.len() + 1 - from,
{
    if from + pat.len() > s.len() {
    } else if occurs_at(s, pat, from) {
    } else {
        lemma_first_index_from(s, pat, from + 1);
    }
}

/// `first_index` is the first occurrence: the pattern stands there and
/// nowhere before it; `None` means it stands nowhere.
pub proof fn lemma_first_index(s: Seq<char>, pat: Seq<char>)
    ensures
        first_index(s, pat) matches Some(i) ==> occurs_at(s, pat, i) && forall|j: int|
            0 <= j < i ==> !occurs_at(s, pat, j),
        first_index(s, pat) is None ==> forall|j: int| !occurs_at(s, pat, j),
{
    lemma_first_index_from(s, pat, 0);
}

/// A search from `from` finds `k` where the pattern stands at `k` and
/// nowhere between `from` and `k`.
pub proof fn lemma_first_index_is(s: Seq<char>, pat: Seq<char>, from: int, k: int)
    requires
        0 <= from <= k,
        occurs_at(s, pat, k),
        forall|j: int| from <= j < k ==> !occurs_at(s, pat, j),
    ensures
        first_index_from(s, pat, from) == Some(k),
    decreases k - from,
{
    if from < k {
        lemma_first_index_is(s, pat, from + 1, k);
    }
}

/// Reading back what follows a marker: where `marker` first stands in
/// `prefix + marker` at the end of `prefix`, what follows the first marker
/// in `prefix + marker + rest` is `rest`.
pub proof fn lemma_text_after_written(prefix: Seq<char>, marker: Seq<char>, rest: Seq<char>)
    requires
        forall|j: int| 0 <= j < prefix.len() ==> !occurs_at(prefix + marker, marker, j),
    ensures
        text_after(prefix + marker + rest, marker) == Some(rest),
{
    let s = prefix + marker + rest;
    let k = prefix.len() as int;
    assert(s.subrange(k, k + marker.len()) =~= marker);
    assert forall|j: int| 0 <= j < k implies !occurs_at(s, marker, j) by {
        assert(!occurs_at(prefix + marker, marker, j));
        if occurs_at(s, marker, j) {
            assert(s.subrange(j, j + marker.len()) =~= (prefix + marker).subrange(
                j,
                j + marker.len(),
            ));
            assert(occurs_at(prefix + marker, marker, j));
        }
    }
    lemma_first_index_is(s, marker, 0, k);
    assert(s.subrange(k + marker.len(), s.len() as int) =~= rest);
}

/// The first position of `pat` in `s`.
pub fn find(s: &Vec<char>, pat: &Vec<char>) -> (res: Option<usize>)
    ensures
        res matches Some(i) ==> first_index(s@, pat@) == Some(i as int),
        res is None ==> first_index(s@, pat@) is None,
{
    let n = s.len();
    let m = pat.len();
    if m > n {
        return None;
    }
    let mut i: usize = 0;
    while i <= n - m
        invariant
            m == pat@.len(),
            n == s@.len(),
            m <= n,
            i <= n - m + 1,
            first_index(s@, pat@) == first_index_from(s@, pat@, i as int),
        decreases n - i,
    {
        let mut j: usize = 0;
        let mut same = true;
        while j < m
            invariant
                m == pat@.len(),
                n == s@.len(),
                i + m <= n,
                j <= m,
                same == (forall|k: int| 0 <= k < j ==> s@[i + k] == pat@[k]),
            decreases m - j,
        {
            if s[i + j] != pat[j] {
                same = false;
            }
            j = j + 1;
        }
        if same {
            assert(s@.subrange(i as int, i + m) =~= pat@);
            return Some(i);
        } else {
            assert(!occurs_at(s@, pat@, i as int)) by {
                if occurs_at(s@, pat@, i as int) {
                    assert forall|k: int| 0 <= k < m implies s@[i + k] == pat@[k] by {
                        assert(s@.subrange(i as int, i + m)[k] == s@[i + k]);
                    }
                }
            }
        }
        i = i + 1;
    }
    None
}

/// `marker` stands somewhere in `s` (`str::contains`).
pub fn contains(s: &str, marker: &str) -> (res: bool)
    ensures
        res == has_substring(s@, marker@),
{
    let cs = chars_of(s);
    let ms = chars_of(marker);
    find(&cs, &ms).is_some()
}

/// What follows the first occurrence of `marker` in `s`, if it occurs.
pub fn after_marker(s: &str, marker: &str) -> (res: Option<String>)
    ensures
        res matches Some(r) ==> text_after(s@, marker@) == Some(r@),
        res is None ==> text_after(s@, marker@) is None,
{
    let cs = chars_of(s);
    let ms = chars_of(marker);
    let n = cs.len();
    match find(&cs, &ms) {
        Some(i) => {
            proof {
                lemma_first_index(s@, marker@);
                assert(occurs_at(s@, marker@, i as int));
                assert(i + ms@.len() <= cs@.len());
            }
            let start = i + ms.len();
            Some(s.substring_char(start, n).to_owned())
        },
        None => None,
    }
}


// ------------------------------------------------------------------
// Whitespace and trimming
// ------------------------------------------------------------------

/// Unicode `White_Space`, the characters that `char::is_whitespace` and
/// `str::trim` treat as whitespace.
pub open spec fn is_space(c: char) -> bool {
    ||| ('\u{9}' <= c && c <= '\u{d}')
    ||| c == ' '
    ||| c == '\u{85}'
    ||| c == '\u{a0}'
    ||| c == '\u{1680}'
    ||| ('\u{2000}' <= c && c <= '\u{200a}')
    ||| c == '\u{2028}'
    ||| c == '\u{2029}'
    ||| c == '\u{202f}'
    ||| c == '\u{205f}'
    ||| c == '\u{3000}'
}

/// Whether `c` is whitespace.
pub fn is_space_char(c: char) -> (res: bool)
    ensures
        res == is_space(c),
{
    ('\u{9}' <= c && c <= '\u{d}') || c == ' ' || c == '\u{85}' || c == '\u{a0}' || c
        == '\u{1680}' || ('\u{2000}' <= c && c <= '\u{200a}') || c == '\u{2028}' || c
        == '\u{2029}' || c == '\u{202f}' || c == '\u{205f}' || c == '\u{3000}'
}

/// `s` without its leading whitespace.
pub open spec fn trim_start(s: Seq<char>) -> Seq<char>
    decreases s.len(),
{
    if s.len() > 0 && is_space(s[0]) {
        trim_start(s.drop_first())
    } else {
        s
    }
}

/// `s` without its trailing whitespace.
pub open spec fn trim_end(s: Seq<char>) -> Seq<char>
    decreases s.len(),
{
    if s.len() > 0 && is_space(s.last()) {
        trim_end(s.drop_last())
    } else {
        s
    }
}

/// `s` without leading and trailing whitespace (`str::trim`).
pub open spec fn trimmed(s: Seq<char>) -> Seq<char> {
    trim_end(trim_start(s))
}

/// `s` without leading and trailing whitespace.
pub fn trim(s: &str) -> (res: String)
    ensures
        res@ == trimmed(s@),
{
    let cs = chars_of(s);
    let n = cs.len();
    let mut i: usize = 0;
    assert(s@.subrange(0, n as int) =~= s@);
    while i < n && is_space_char(cs[i])
        invariant
            n == s@.len(),
            cs@ == s@,
            i <= n,
            trim_start(s@) == trim_start(s@.subrange(i as int, n as int)),
        decreases n - i,
    {
        assert(s@.subrange(i as int, n as int).drop_first() =~= s@.subrange(i + 1, n as int));
        i = i + 1;
    }
    assert(trim_start(s@) == s@.subrange(i as int, n as int));
    let mut j: usize = n;
    while j > i && is_space_char(cs[j - 1])
        invariant
            n == s@.len(),
            cs@ == s@,
            i <= j <= n,
            trimmed(s@) == trim_end(s@.subrange(i as int, j as int)),
        decreases j - i,
    {
        assert(s@.subrange(i as int, j as int).drop_last() =~= s@.subrange(i as int, j - 1));
        j = j - 1;
    }
    s.substring_char(i, j).to_owned()
}

/// The texts of `texts`, trimmed, without those that are then empty.
pub open spec fn words(texts: Seq<Seq<char>>) -> Seq<Seq<char>> {
    texts.map_values(|t: Seq<char>| trimmed(t)).filter(|t: Seq<char>| t.len() > 0)
}

/// Trims every text and keeps those that are not empty.
pub fn nonempty_trimmed(texts: &Vec<String>) -> (res: Vec<String>)
    ensures
        res@.map_values(|t: String| t@) == words(texts@.map_values(|t: String| t@)),
{
    let ghost all = texts@.map_values(|t: String| t@);
    let mut res: Vec<String> = Vec::new();
    let mut i: usize = 0;
    while i < texts.len()
        invariant
            i <= texts.len(),
            all == texts@.map_values(|t: String| t@),
            res@.map_values(|t: String| t@) == words(all.take(i as int)),
        decreases texts.len() - i,
    {
        let t = trim(texts[i].as_str());
        proof {
            let pre = all.take(i as int);
            let post = all.take(i + 1);
            assert(post =~= pre.push(all[i as int]));
            assert(post.map_values(|t: Seq<char>| trimmed(t)) =~= pre.map_values(
                |t: Seq<char>| trimmed(t),
            ).push(trimmed(all[i as int])));
            reveal(Seq::filter);
            assert(post.map_values(|t: Seq<char>| trimmed(t)).drop_last() =~= pre.map_values(
                |t: Seq<char>| trimmed(t),
            ));
        }
        if t.unicode_len() > 0 {
            res.push(t);
            proof {
                assert(res@.map_values(|t: String| t@) =~= words(all.take(i as int)).push(
                    trimmed(all[i as int]),
                ));
            }
        }
        i = i + 1;
    }
    assert(all.take(texts.len() as int) =~= all);
    res
}


// ------------------------------------------------------------------
// Joining words
// ------------------------------------------------------------------

/// `parts` joined with single spaces (`[&str]::join(" ")`).
pub open spec fn joined(parts: Seq<Seq<char>>) -> Seq<char>
    decreases parts.len(),
{
    if parts.len() == 0 {
        Seq::empty()
    } else if parts.len() == 1 {
        parts[0]
    } else {
        joined(parts.drop_last()) + seq![' '] + parts.last()
    }
}

/// `parts[from..]` joined with single spaces.
pub fn join_from(parts: &Vec<String>, from: usize) -> (res: String)
    requires
        from <= parts.len(),
    ensures
        res@ == joined(parts@.map_values(|t: String| t@).subrange(from as int, parts.len() as int)),
{
    let ghost all = parts@.map_values(|t: String| t@);
    let mut res = String::new();
    let mut i: usize = from;
    while i < parts.len()
        invariant
            from <= i <= parts.len(),
            all == parts@.map_values(|t: String| t@),
            res@ == joined(all.subrange(from as int, i as int)),
        decreases parts.len() - i,
    {
        let ghost before = all.subrange(from as int, i as int);
        assert(all.subrange(from as int, i + 1).drop_last() =~= before);
        if i > from {
            let space = " ";
            proof {
                reveal_strlit(" ");
            }
            res.append(space);
        }
        res.append(parts[i].as_str());
        proof {
            if i == from {
                assert(res@ =~= joined(all.subrange(from as int, i + 1)));
            } else {
                assert(res@ =~= joined(before) + seq![' '] + all[i as int]);
            }
        }
        i = i + 1;
    }
    res
}

// ------------------------------------------------------------------
// Decimal numbers
// ------------------------------------------------------------------

/// `c` is an ASCII digit.
pub open spec fn is_digit(c: char) -> bool {
    '0' <= c && c <= '9'
}

/// The value of the ASCII digit `c`.
pub open spec fn digit_value(c: char) -> int {
    c as int - '0' as int
}

/// Every character of `s` is an ASCII digit.
pub open spec fn all_digits(s: Seq<char>) -> bool {
    forall|i: int| 0 <= i < s.len() ==> is_digit(#[trigger] s[i])
}

/// The value of the decimal digits `s`.
pub open spec fn digits_value(s: Seq<char>) -> int
    decreases s.len(),
{
    if s.len() == 0 {
        0
    } else {
        digits_value(s.drop_last()) * 10 + digit_value(s.last())
    }
}

/// The integer that `s` writes in decimal, as Rust's integer `from_str`
/// reads it: an optional `+` or `-`, then one or more ASCII digits, and
/// nothing else.
pub open spec fn decimal_value(s: Seq<char>) -> Option<int> {
    if s.len() > 0 && (s[0] == '+' || s[0] == '-') {
        let body = s.drop_first();
        if body.len() > 0 && all_digits(body) {
            Some(
                if s[0] == '-' {
                    -digits_value(body)
                } else {
                    digits_value(body)
                },
            )
        } else {
            None
        }
    } else if s.len() > 0 && all_digits(s) {
        Some(digits_value(s))
    } else {
        None
    }
}

/// What `str::parse` gives for an integer type with the range `lo..=hi`.
pub open spec fn parse_in_range(s: Seq<char>, lo: int, hi: int) -> Option<int> {
    match decimal_value(s) {
        Some(v) => if lo <= v && v <= hi {
            Some(v)
        } else {
            None
        },
        None => None,
    }
}

/// Reads a decimal integer in `lo..=hi` as Rust's integer `from_str` does.
pub fn parse_integer(s: &str, lo: i64, hi: i64) -> (res: Option<i64>)
    requires
        -0x4000_0000_0000_0000 <= lo <= 0 <= hi <= 0x4000_0000_0000_0000,
    ensures
        res matches Some(v) ==> parse_in_range(s@, lo as int, hi as int) == Some(v as int),
        res is None ==> parse_in_range(s@, lo as int, hi as int) is None,
{
    let cs = chars_of(s);
    let n = cs.len();
    if n == 0 {
        return None;
    }
    let negative = cs[0] == '-';
    let start: usize = if cs[0] == '+' || cs[0] == '-' {
        1
    } else {
        0
    };
    if start == n {
        return None;
    }
    // Magnitudes above `cap` are out of range either way.
    let cap: u64 = if hi as u64 > (0 - lo) as u64 {
        hi as u64 + 1
    } else {
        (0 - lo) as u64 + 1
    };
    let ghost body = s@.subrange(start as int, n as int);
    let mut acc: u64 = 0;
    let mut i: usize = start;
    while i < n
        invariant
            cs@ == s@,
            n == s@.len(),
            start <= i <= n,
            body == s@.subrange(start as int, n as int),
            n > 0,
            start == (if s@[0] == '+' || s@[0] == '-' { 1usize } else { 0usize }),
            start < n,
            negative == (s@[0] == '-'),
            cap as int == (if hi > -lo { hi + 1 } else { -lo + 1 }),
            0 < cap <= 0x4000_0000_0000_0001,
            acc <= cap,
            all_digits(s@.subrange(start as int, i as int)),
            acc == (if digits_value(s@.subrange(start as int, i as int)) < cap {
                digits_value(s@.subrange(start as int, i as int))
            } else {
                cap as int
            }),
            digits_value(s@.subrange(start as int, i as int)) >= 0,
        decreases n - i,
    {
        let c = cs[i];
        if c < '0' || c > '9' {
            assert(!all_digits(body)) by {
                assert(body[i - start as int] == c);
            }
            proof {
                if start == 1 {
                    assert(body =~= s@.drop_first());
                } else {
                    assert(body =~= s@);
                }
            }
            return None;
        }
        let d: u64 = (c as u64) - ('0' as u64);
        let ghost pre = s@.subrange(start as int, i as int);
        let ghost post = s@.subrange(start as int, i + 1);
        assert(post.drop_last() =~= pre);
        assert(post.last() == c);
        assert(d <= 9);
        if acc < cap && acc <= cap / 10 {
            let v = acc * 10 + d;
            acc = if v < cap {
                v
            } else {
                cap
            };
        } else {
            acc = cap;
        }
        i = i + 1;
    }
    assert(body =~= s@.subrange(start as int, i as int));
    proof {
        if start == 1 {
            assert(body =~= s@.drop_first());
        } else {
            assert(body =~= s@);
        }
    }
    if acc >= cap {
        return None;
    }
    let magnitude = acc as i64;
    let value = if negative {
        0 - magnitude
    } else {
        magnitude
    };
    if lo <= value && value <= hi {
        Some(value)
    } else {
        None
    }
}

/// Reads a decimal `i8` as `str::parse::<i8>` does.
pub fn parse_i8(s: &str) -> (res: Option<i8>)
    ensures
        res matches Some(v) ==> parse_in_range(s@, -128, 127) == Some(v as int),
        res is None ==> parse_in_range(s@, -128, 127) is None,
{
    match parse_integer(s, -128, 127) {
        Some(v) => Some(v as i8),
        None => None,
    }
}

/// Reads a decimal `i32` as `str::parse::<i32>` does.
pub fn parse_i32(s: &str) -> (res: Option<i32>)
    ensures
        res matches Some(v) ==> parse_in_range(s@, -0x8000_0000, 0x7fff_ffff) == Some(v as int),
        res is None ==> parse_in_range(s@, -0x8000_0000, 0x7fff_ffff) is None,
{
    match parse_integer(s, -0x8000_0000, 0x7fff_ffff) {
        Some(v) => Some(v as i32),
        None => None,
    }
}


// ------------------------------------------------------------------
// Writing numbers
// ------------------------------------------------------------------

/// The ASCII digit for `d` (0 to 9).
pub open spec fn digit_char(d: int) -> char {
    if d == 0 {
        '0'
    } else if d == 1 {
        '1'
    } else if d == 2 {
        '2'
    } else if d == 3 {
        '3'
    } else if d == 4 {
        '4'
    } else if d == 5 {
        '5'
    } else if d == 6 {
        '6'
    } else if d == 7 {
        '7'
    } else if d == 8 {
        '8'
    } else {
        '9'
    }
}

/// `n` written in decimal, without leading zeros.
pub open spec fn nat_text(n: nat) -> Seq<char>
    decreases n,
{
    if n < 10 {
        seq![digit_char(n as int)]
    } else {
        nat_text(n / 10) + seq![digit_char((n % 10) as int)]
    }
}

/// `n` written in decimal, with a `-` before negative numbers
/// (`i32::to_string`).
pub open spec fn int_text(n: int) -> Seq<char> {
    if n < 0 {
        seq!['-'] + nat_text((-n) as nat)
    } else {
        nat_text(n as nat)
    }
}

/// The digit `d` as a string.
fn digit_string(d: u64) -> (res: String)
    requires
        d < 10,
    ensures
        res@ == seq![digit_char(d as int)],
{
    let s = if d == 0 {
        "0"
    } else if d == 1 {
        "1"
    } else if d == 2 {
        "2"
    } else if d == 3 {
        "3"
    } else if d == 4 {
        "4"
    } else if d == 5 {
        "5"
    } else if d == 6 {
        "6"
    } else if d == 7 {
        "7"
    } else if d == 8 {
        "8"
    } else {
        "9"
    };
    proof {
        reveal_strlit("0");
        reveal_strlit("1");
        reveal_strlit("2");
        reveal_strlit("3");
        reveal_strlit("4");
        reveal_strlit("5");
        reveal_strlit("6");
        reveal_strlit("7");
        reveal_strlit("8");
        reveal_strlit("9");
    }
    s.to_owned()
}

/// Writes `n` in decimal.
pub fn u64_to_text(n: u64) -> (res: String)
    ensures
        res@ == nat_text(n as nat),
    decreases n,
{
    if n < 10 {
        digit_string(n)
    } else {
        let mut res = u64_to_text(n / 10);
        let last = digit_string(n % 10);
        res.append(last.as_str());
        res
    }
}

/// Writes `n` in decimal, as `i32::to_string` does.
pub fn i32_to_text(n: i32) -> (res: String)
    ensures
        res@ == int_text(n as int),
{
    if n < 0 {
        let magnitude = (0 - (n as i64)) as u64;
        let mut res = "-".to_owned();
        proof {
            reveal_strlit("-");
        }
        let digits = u64_to_text(magnitude);
        res.append(digits.as_str());
        res
    } else {
        u64_to_text(n as u64)
    }
}


// ------------------------------------------------------------------
// Properties of trimming
// ------------------------------------------------------------------

/// Trimming the start drops a prefix of whitespace and leaves a text that
/// does not start with whitespace.
pub proof fn lemma_trim_start_shape(s: Seq<char>)
    ensures
        exists|k: int| 0 <= k <= s.len() && trim_start(s) == s.subrange(k, s.len() as int),
        trim_start(s).len() > 0 ==> !is_space(trim_start(s)[0]),
    decreases s.len(),
{
    if s.len() > 0 && is_space(s[0]) {
        lemma_trim_start_shape(s.drop_first());
        let k = choose|k: int|
            0 <= k <= s.drop_first().len() && trim_start(s.drop_first()) == s.drop_first().subrange(
                k,
                s.drop_first().len() as int,
            );
        assert(s.drop_first().subrange(k, s.drop_first().len() as int) =~= s.subrange(
            k + 1,
            s.len() as int,
        ));
    } else {
        assert(s.subrange(0, s.len() as int) =~= s);
    }
}

/// Trimming the end drops a suffix of whitespace and leaves a text that
/// does not end with whitespace.
pub proof fn lemma_trim_end_shape(s: Seq<char>)
    ensures
        exists|k: int| 0 <= k <= s.len() && trim_end(s) == s.subrange(0, k),
        trim_end(s).len() > 0 ==> !is_space(trim_end(s).last()),
    decreases s.len(),
{
    if s.len() > 0 && is_space(s.last()) {
        lemma_trim_end_shape(s.drop_last());
        let k = choose|k: int|
            0 <= k <= s.drop_last().len() && trim_end(s.drop_last()) == s.drop_last().subrange(
                0,
                k,
            );
        assert(s.drop_last().subrange(0, k) =~= s.subrange(0, k));
    } else {
        assert(s.subrange(0, s.len() as int) =~= s);
    }
}

/// A text that neither starts nor ends with whitespace is its own trim.
pub proof fn lemma_trim_fixed(s: Seq<char>)
    requires
        s.len() > 0 ==> !is_space(s[0]) && !is_space(s.last()),
    ensures
        trimmed(s) == s,
{
}

/// Trimming removes exactly the whitespace at both ends: the result
/// neither starts nor ends with whitespace, it is a stretch of the text, and
/// trimming it again changes nothing (`str::trim`).
pub proof fn lemma_trim_laws(s: Seq<char>)
    ensures
        trimmed(s).len() > 0 ==> !is_space(trimmed(s)[0]) && !is_space(trimmed(s).last()),
        exists|i: int, j: int| 0 <= i <= j <= s.len() && trimmed(s) == s.subrange(i, j),
        trimmed(trimmed(s)) == trimmed(s),
{
    let t = trim_start(s);
    lemma_trim_start_shape(s);
    lemma_trim_end_shape(t);
    let i = choose|k: int| 0 <= k <= s.len() && t == s.subrange(k, s.len() as int);
    let j = choose|k: int| 0 <= k <= t.len() && trim_end(t) == t.subrange(0, k);
    assert(trimmed(s) =~= s.subrange(i, i + j));
    if trimmed(s).len() > 0 {
        assert(trimmed(s)[0] == t[0]);
    }
    lemma_trim_fixed(trimmed(s));
}

/// Each digit character stands for its digit.
proof fn lemma_digit_char(d: int)
    requires
        0 <= d < 10,
    ensures
        is_digit(digit_char(d)),
        digit_value(digit_char(d)) == d,
{
}

/// The decimal text of a natural number is a nonempty run of digits whose
/// value is the number.
proof fn lemma_nat_text(n: nat)
    ensures
        nat_text(n).len() > 0,
        all_digits(nat_text(n)),
        digits_value(nat_text(n)) == n,
    decreases n,
{
    if n < 10 {
        lemma_digit_char(n as int);
        let t = seq![digit_char(n as int)];
        assert(t.drop_last() =~= Seq::<char>::empty());
        assert(digits_value(Seq::<char>::empty()) == 0);
        assert(digits_value(t) == digits_value(t.drop_last()) * 10 + digit_value(t.last()));
    } else {
        let q = (n / 10) as nat;
        let d = (n % 10) as int;
        lemma_nat_text(q);
        lemma_digit_char(d);
        let t = nat_text(q) + seq![digit_char(d)];
        assert(t.drop_last() =~= nat_text(q));
        assert(t.last() == digit_char(d));
        assert forall|i: int| 0 <= i < t.len() implies is_digit(#[trigger] t[i]) by {
            if i < nat_text(q).len() {
                assert(t[i] == nat_text(q)[i]);
            }
        }
        assert(q * 10 + d == n);
        assert(digits_value(t) == digits_value(t.drop_last()) * 10 + digit_value(t.last()));
    }
}

/// Reading back a written integer: the decimal text of `n` (with a `-`
/// where it is negative) reads as `n`, and as `n` within any range that
/// holds it.
pub proof fn lemma_int_text_reads_back(n: int, lo: int, hi: int)
    ensures
        decimal_value(int_text(n)) == Some(n),
        lo <= n <= hi ==> parse_in_range(int_text(n), lo, hi) == Some(n),
{
    if n < 0 {
        let m = (-n) as nat;
        lemma_nat_text(m);
        let t = seq!['-'] + nat_text(m);
        assert(t.drop_first() =~= nat_text(m));
    } else {
        let m = n as nat;
        lemma_nat_text(m);
        assert(is_digit(nat_text(m)[0]));
    }
}

/// Joining puts one space between neighbouring parts, and a single part
/// stands alone.
pub proof fn lemma_joined_spaces(parts: Seq<Seq<char>>, part: Seq<char>)
    ensures
        joined(seq![part]) == part,
        parts.len() > 0 ==> joined(parts.push(part)) == joined(parts) + " "@ + part,
{
    reveal_strlit(" ");
    assert(seq![part].len() == 1);
    if parts.len() > 0 {
        assert(parts.push(part).drop_last() =~= parts);
        assert(seq![' '] =~= " "@);
    }
}

/// The words of texts are nonempty and have no white space at either end.
pub proof fn lemma_words_trimmed(texts: Seq<Seq<char>>)
    ensures
        forall|i: int|
            0 <= i < words(texts).len() ==> (#[trigger] words(texts)[i]).len() > 0 && !is_space(
                words(texts)[i][0],
            ) && !is_space(words(texts)[i].last()),
        words(texts).len() <= texts.len(),
{
    let ts = texts.map_values(|t: Seq<char>| trimmed(t));
    let ws = words(texts);
    let nonempty = |t: Seq<char>| t.len() > 0;
    ts.lemma_filter_len(nonempty);
    assert forall|i: int| 0 <= i < ws.len() implies (#[trigger] ws[i]).len() > 0 && !is_space(
        ws[i][0],
    ) && !is_space(ws[i].last()) by {
        ts.lemma_filter_pred(nonempty, i);
        assert(ws.contains(ws[i]));
        ts.lemma_filter_contains_rev(nonempty, ws[i]);
        let j = choose|j: int| 0 <= j < ts.len() && ts[j] == ws[i];
        lemma_trim_laws(texts[j]);
    }
}

} // verus!
