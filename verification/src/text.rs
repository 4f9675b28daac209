//! Character-level text primitives shared by every module: a specification of
//! each operation over `Seq<char>` and an executable version proved against it.

use vstd::prelude::*;

verus! {

// ─── Specifications ─────────────────────────────────────────────────────────

/// Unicode `White_Space`, the property that `char::is_whitespace` tests.
pub open spec fn is_ws(c: char) -> bool {
    let u = c as u32;
    ||| 0x09 <= u <= 0x0D
    ||| u == 0x20
    ||| u == 0x85
    ||| u == 0xA0
    ||| u == 0x1680
    ||| 0x2000 <= u <= 0x200A
    ||| u == 0x2028
    ||| u == 0x2029
    ||| u == 0x202F
    ||| u == 0x205F
    ||| u == 0x3000
}

/// `s` without its leading whitespace.
pub open spec fn trim_start(s: Seq<char>) -> Seq<char>
    decreases s.len(),
{
    if s.len() > 0 && is_ws(s[0]) {
        trim_start(s.drop_first())
    } else {
        s
    }
}

/// `s` without its trailing whitespace.
pub open spec fn trim_end(s: Seq<char>) -> Seq<char>
    decreases s.len(),
{
    if s.len() > 0 && is_ws(s.last()) {
        trim_end(s.drop_last())
    } else {
        s
    }
}

/// `s` without leading and trailing whitespace (`str::trim`).
pub open spec fn trim(s: Seq<char>) -> Seq<char> {
    trim_end(trim_start(s))
}

/// `p` occurs in `s` starting at position `i`.
pub open spec fn occurs_at(s: Seq<char>, p: Seq<char>, i: int) -> bool {
    0 <= i && i + p.len() <= s.len() && s.subrange(i, i + p.len()) == p
}

/// `p` occurs somewhere in `s` (`str::contains`).
pub open spec fn has_sub(s: Seq<char>, p: Seq<char>) -> bool {
    exists|i: int| occurs_at(s, p, i)
}

/// `i` is the leftmost occurrence of `p` in `s` (`str::find`).
pub open spec fn first_at(s: Seq<char>, p: Seq<char>, i: int) -> bool {
    occurs_at(s, p, i) && forall|j: int| 0 <= j < i ==> !occurs_at(s, p, j)
}

/// `s` begins with `p` (`str::starts_with`).
pub open spec fn starts_with(s: Seq<char>, p: Seq<char>) -> bool {
    p.len() <= s.len() && s.subrange(0, p.len() as int) == p
}

/// `s` ends with `p` (`str::ends_with`).
pub open spec fn ends_with(s: Seq<char>, p: Seq<char>) -> bool {
    p.len() <= s.len() && s.subrange(s.len() - p.len(), s.len() as int) == p
}

/// Every non-overlapping occurrence of the non-empty `from`, scanned left to
/// right, replaced by `to` (`str::replace`).
pub open spec fn replace_all(s: Seq<char>, from: Seq<char>, to: Seq<char>) -> Seq<char>
    recommends
        from.len() > 0,
    decreases s.len(),
{
    if from.len() == 0 || s.len() == 0 {
        s
    } else if starts_with(s, from) {
        to + replace_all(s.skip(from.len() as int), from, to)
    } else {
        seq![s[0]] + replace_all(s.drop_first(), from, to)
    }
}

/// Position of the first `c` in `s`, or `s.len()` when there is none.
pub open spec fn idx_of(s: Seq<char>, c: char) -> int
    decreases s.len(),
{
    if s.len() == 0 {
        0
    } else if s[0] == c {
        0
    } else {
        1 + idx_of(s.drop_first(), c)
    }
}

/// The pieces of `s` between occurrences of `c` (`str::split` on a char).
pub open spec fn split_char(s: Seq<char>, c: char) -> Seq<Seq<char>>
    decreases s.len(),
{
    let k = idx_of(s, c);
    proof {
        lemma_idx_of_bounds(s, c);
    }
    if k >= s.len() {
        seq![s]
    } else {
        seq![s.take(k)] + split_char(s.skip(k + 1), c)
    }
}

/// `s` without one trailing `c`, if it ends with one.
pub open spec fn strip_last(s: Seq<char>, c: char) -> Seq<char> {
    if s.len() > 0 && s.last() == c {
        s.drop_last()
    } else {
        s
    }
}

/// The lines of `s` (`str::lines`): split after each `'\n'`, which is dropped
/// together with a `'\r'` just before it; a final empty line is not produced.
pub open spec fn lines(s: Seq<char>) -> Seq<Seq<char>>
    decreases s.len(),
{
    let k = idx_of(s, '\n');
    proof {
        lemma_idx_of_bounds(s, '\n');
    }
    if s.len() == 0 {
        seq![]
    } else if k >= s.len() {
        seq![s]
    } else {
        seq![strip_last(s.take(k), '\r')] + lines(s.skip(k + 1))
    }
}

/// At most the first `n` characters of `s` (`chars().take(n)`).
pub open spec fn prefix(s: Seq<char>, n: nat) -> Seq<char> {
    if s.len() <= n { s } else { s.take(n as int) }
}

/// The first line of `s` (`lines().next().unwrap_or("")`).
pub open spec fn first_line_of(s: Seq<char>) -> Seq<char> {
    let ls = lines(s);
    if ls.len() > 0 { ls[0] } else { Seq::empty() }
}

/// `parts` joined with `sep` between consecutive elements (`join`).
pub open spec fn join(parts: Seq<Seq<char>>, sep: Seq<char>) -> Seq<char>
    decreases parts.len(),
{
    if parts.len() == 0 {
        seq![]
    } else if parts.len() == 1 {
        parts[0]
    } else {
        join(parts.drop_last(), sep) + sep + parts.last()
    }
}

/// The views of a list of strings.
pub open spec fn views(v: Seq<String>) -> Seq<Seq<char>> {
    v.map_values(|s: String| s@)
}

/// `a` comes before `b` in `String`'s order: by character, a proper prefix
/// first (UTF-8 byte order and character order agree).
pub open spec fn text_lt(a: Seq<char>, b: Seq<char>) -> bool
    decreases a.len(),
{
    if a.len() == 0 {
        b.len() > 0
    } else if b.len() == 0 {
        false
    } else if a[0] != b[0] {
        a[0] < b[0]
    } else {
        text_lt(a.drop_first(), b.drop_first())
    }
}

/// Where `x` is inserted into `s`: after the last element it does not come
/// before.
pub open spec fn insert_pos(s: Seq<Seq<char>>, x: Seq<char>) -> int
    decreases s.len(),
{
    if s.len() == 0 {
        0
    } else if text_lt(x, s.last()) {
        insert_pos(s.drop_last(), x)
    } else {
        s.len() as int
    }
}

/// `s` in ascending order (`sort()` on strings), built by insertion.
pub open spec fn sort_texts(s: Seq<Seq<char>>) -> Seq<Seq<char>>
    decreases s.len(),
{
    if s.len() == 0 {
        seq![]
    } else {
        let r = sort_texts(s.drop_last());
        r.insert(insert_pos(r, s.last()), s.last())
    }
}

/// No element comes before an earlier one.
pub open spec fn text_sorted(s: Seq<Seq<char>>) -> bool {
    forall|i: int, j: int| 0 <= i < j < s.len() ==> !text_lt(#[trigger] s[j], #[trigger] s[i])
}

/// Byte length of a string (`str::len`).
pub open spec fn blen(s: Seq<char>) -> nat {
    (vstd::utf8::encode_utf8(s).len() as usize) as nat
}

/// Position of the leftmost occurrence of `p` in `s`, or -1 (`str::find`).
pub open spec fn find_pos(s: Seq<char>, p: Seq<char>) -> int {
    if has_sub(s, p) {
        choose|i: int| first_at(s, p, i)
    } else {
        -1
    }
}

/// The pieces of `s` between the non-overlapping occurrences of the
/// non-empty `p`, scanned left to right (`str::split` on a string).
pub open spec fn split_str(s: Seq<char>, p: Seq<char>) -> Seq<Seq<char>>
    decreases s.len(),
{
    if p.len() > 0 && has_sub(s, p) {
        let i = find_pos(s, p);
        proof {
            lemma_find_pos(s, p);
        }
        seq![s.take(i)] + split_str(s.skip(i + p.len()), p)
    } else {
        seq![s]
    }
}

/// Position of the first whitespace character in `s`, or `s.len()`.
pub open spec fn ws_idx(s: Seq<char>) -> int
    decreases s.len(),
{
    if s.len() == 0 {
        0
    } else if is_ws(s[0]) {
        0
    } else {
        1 + ws_idx(s.drop_first())
    }
}

/// The first whitespace-separated word of `s` (`split_whitespace().next()`,
/// or the empty string when there is none).
pub open spec fn first_word(s: Seq<char>) -> Seq<char> {
    let t = trim_start(s);
    t.take(ws_idx(t))
}

/// The decimal digits of `n`.
pub open spec fn decimal(n: nat) -> Seq<char>
    decreases n,
{
    if n < 10 {
        seq![digit_char(n)]
    } else {
        decimal(n / 10) + seq![digit_char(n % 10)]
    }
}

pub open spec fn digit_char(d: nat) -> char {
    if d == 0 { '0' }
    else if d == 1 { '1' }
    else if d == 2 { '2' }
    else if d == 3 { '3' }
    else if d == 4 { '4' }
    else if d == 5 { '5' }
    else if d == 6 { '6' }
    else if d == 7 { '7' }
    else if d == 8 { '8' }
    else { '9' }
}

/// The number of UTF-8 bytes that encode `c`.
pub open spec fn utf8_width(c: char) -> nat {
    let u = c as u32;
    if u < 0x80 { 1 } else if u < 0x800 { 2 } else if u < 0x10000 { 3 } else { 4 }
}

/// The number of UTF-8 bytes that encode `s` (`str::len`).
pub open spec fn utf8_len(s: Seq<char>) -> nat
    decreases s.len(),
{
    if s.len() == 0 {
        0
    } else {
        utf8_len(s.drop_last()) + utf8_width(s.last())
    }
}

/// Hex digit (lowercase) for `d < 16`.
pub open spec fn hex_lower(d: nat) -> char {
    if d < 10 { digit_char(d) }
    else if d == 10 { 'a' }
    else if d == 11 { 'b' }
    else if d == 12 { 'c' }
    else if d == 13 { 'd' }
    else if d == 14 { 'e' }
    else { 'f' }
}

/// How a JSON string literal writes `c`: quote, backslash and control
/// characters are escaped, everything else is kept.
pub open spec fn json_escape_char(c: char) -> Seq<char> {
    let u = c as u32;
    if c == '"' { seq!['\\', '"'] }
    else if c == '\\' { seq!['\\', '\\'] }
    else if u == 0x08 { seq!['\\', 'b'] }
    else if u == 0x0C { seq!['\\', 'f'] }
    else if c == '\n' { seq!['\\', 'n'] }
    else if c == '\r' { seq!['\\', 'r'] }
    else if c == '\t' { seq!['\\', 't'] }
    else if u < 0x20 { seq!['\\', 'u', '0', '0', hex_lower((u / 16) as nat), hex_lower((u % 16) as nat)] }
    else { seq![c] }
}

/// The escaped body of a JSON string literal for `s`.
pub open spec fn json_escaped(s: Seq<char>) -> Seq<char>
    decreases s.len(),
{
    if s.len() == 0 {
        seq![]
    } else {
        json_escaped(s.drop_last()) + json_escape_char(s.last())
    }
}

/// The JSON string literal for `s`.
pub open spec fn json_quote(s: Seq<char>) -> Seq<char> {
    seq!['"'] + json_escaped(s) + seq!['"']
}

/// Name of what `str::to_lowercase` returns (Unicode case mapping).
pub uninterp spec fn lowercase(s: Seq<char>) -> Seq<char>;

/// Whether every character of `s` is ASCII.
pub open spec fn is_ascii_text(s: Seq<char>) -> bool {
    forall|i: int| 0 <= i < s.len() ==> (s[i] as u32) < 128
}

/// The ASCII lower case of a character: `A`..`Z` become `a`..`z`, every
/// other character stays.
pub open spec fn ascii_lower(c: char) -> char {
    if 'A' <= c && c <= 'Z' {
        ((c as u32) + 32) as char
    } else {
        c
    }
}

/// What `str::to_lowercase` gives: ASCII text with its letters lowered,
/// and for other text the Unicode mapping named by `lowercase`.
pub open spec fn lower_text(s: Seq<char>) -> Seq<char> {
    if is_ascii_text(s) {
        s.map_values(|c: char| ascii_lower(c))
    } else {
        lowercase(s)
    }
}

/// Name of what `format!("{:?}", s)` returns for a string slice (a quoted,
/// escaped rendering).
pub uninterp spec fn debug_str(s: Seq<char>) -> Seq<char>;

/// Whether `s` holds only printable ASCII characters other than `"` and `\`,
/// which a debug rendering leaves as they are.
pub open spec fn plain_ascii(s: Seq<char>) -> bool {
    forall|i: int| 0 <= i < s.len() ==> ' ' <= #[trigger] s[i] && s[i] <= '~' && s[i] != '"' && s[i] != '\\'
}

// ─── Lemmas ─────────────────────────────────────────────────────────────────

pub proof fn lemma_trim_start_skip(s: Seq<char>, k: int)
    requires
        0 <= k <= s.len(),
        forall|i: int| 0 <= i < k ==> is_ws(s[i]),
        k == s.len() || !is_ws(s[k]),
    ensures
        trim_start(s) == s.skip(k),
    decreases k,
{
    if k == 0 {
        assert(s.skip(0) =~= s);
    } else {
        let t = s.drop_first();
        lemma_trim_start_skip(t, k - 1);
        assert(t.skip(k - 1) =~= s.skip(k));
    }
}

pub proof fn lemma_trim_end_take(s: Seq<char>, k: int)
    requires
        0 <= k <= s.len(),
        forall|i: int| k <= i < s.len() ==> is_ws(s[i]),
        k == 0 || !is_ws(s[k - 1]),
    ensures
        trim_end(s) == s.take(k),
    decreases s.len() - k,
{
    if k == s.len() {
        assert(s.take(k) =~= s);
    } else {
        let t = s.drop_last();
        lemma_trim_end_take(t, k);
        assert(t.take(k) =~= s.take(k));
    }
}

pub proof fn lemma_idx_of(s: Seq<char>, c: char, k: int)
    requires
        0 <= k <= s.len(),
        forall|i: int| 0 <= i < k ==> s[i] != c,
        k == s.len() || s[k] == c,
    ensures
        idx_of(s, c) == k,
    decreases k,
{
    if k > 0 {
        lemma_idx_of(s.drop_first(), c, k - 1);
    }
}

pub proof fn lemma_idx_of_bounds(s: Seq<char>, c: char)
    ensures
        0 <= idx_of(s, c) <= s.len(),
        idx_of(s, c) < s.len() ==> s[idx_of(s, c)] == c,
        forall|i: int| 0 <= i < idx_of(s, c) ==> s[i] != c,
    decreases s.len(),
{
    if s.len() > 0 && s[0] != c {
        lemma_idx_of_bounds(s.drop_first(), c);
        let t = s.drop_first();
        assert forall|i: int| 0 <= i < idx_of(s, c) implies s[i] != c by {
            if i > 0 {
                assert(s[i] == t[i - 1]);
            }
        }
    }
}

pub proof fn lemma_first_at_unique(s: Seq<char>, p: Seq<char>, i: int, j: int)
    requires
        first_at(s, p, i),
        first_at(s, p, j),
    ensures
        i == j,
{
    if i < j {
        assert(!occurs_at(s, p, i));
    } else if j < i {
        assert(!occurs_at(s, p, j));
    }
}

pub proof fn lemma_first_at_exists(s: Seq<char>, p: Seq<char>, w: int)
    requires
        occurs_at(s, p, w),
    ensures
        exists|i: int| first_at(s, p, i),
    decreases w,
{
    if exists|j: int| 0 <= j < w && occurs_at(s, p, j) {
        let j = choose|j: int| 0 <= j < w && occurs_at(s, p, j);
        lemma_first_at_exists(s, p, j);
    } else {
        assert(first_at(s, p, w));
    }
}

/// `find_pos` is the leftmost occurrence when there is one.
pub proof fn lemma_find_pos(s: Seq<char>, p: Seq<char>)
    ensures
        has_sub(s, p) ==> first_at(s, p, find_pos(s, p)),
        has_sub(s, p) ==> 0 <= find_pos(s, p) && find_pos(s, p) + p.len() <= s.len(),
        forall|i: int| first_at(s, p, i) ==> i == find_pos(s, p),
{
    if has_sub(s, p) {
        let w = choose|w: int| occurs_at(s, p, w);
        lemma_first_at_exists(s, p, w);
        assert forall|i: int| first_at(s, p, i) implies i == find_pos(s, p) by {
            lemma_first_at_unique(s, p, i, find_pos(s, p));
        }
    }
}

pub proof fn lemma_ws_idx(s: Seq<char>, k: int)
    requires
        0 <= k <= s.len(),
        forall|i: int| 0 <= i < k ==> !is_ws(s[i]),
        k == s.len() || is_ws(s[k]),
    ensures
        ws_idx(s) == k,
    decreases k,
{
    if k > 0 {
        lemma_ws_idx(s.drop_first(), k - 1);
    }
}

pub proof fn lemma_decimal_len(n: nat)
    ensures
        decimal(n).len() >= 1,
        n >= 10 ==> decimal(n).len() >= 2,
    decreases n,
{
    if n >= 10 {
        lemma_decimal_len(n / 10);
    }
}

pub proof fn lemma_digit_char_injective(a: nat, b: nat)
    requires
        a < 10,
        b < 10,
        digit_char(a) == digit_char(b),
    ensures
        a == b,
{
}

/// Different numbers have different decimal renderings.
pub proof fn lemma_decimal_injective(a: nat, b: nat)
    requires
        decimal(a) == decimal(b),
    ensures
        a == b,
    decreases a,
{
    lemma_decimal_len(a);
    lemma_decimal_len(b);
    if a < 10 && b < 10 {
        assert(decimal(a)[0] == digit_char(a));
        assert(decimal(b)[0] == digit_char(b));
        lemma_digit_char_injective(a, b);
    } else if a >= 10 && b >= 10 {
        let da = decimal(a);
        let db = decimal(b);
        assert(da.last() == digit_char(a % 10));
        assert(db.last() == digit_char(b % 10));
        lemma_digit_char_injective(a % 10, b % 10);
        assert(da.drop_last() =~= decimal(a / 10));
        assert(db.drop_last() =~= decimal(b / 10));
        lemma_decimal_injective(a / 10, b / 10);
    }
}

pub proof fn lemma_split_char_nonempty(s: Seq<char>, c: char)
    ensures
        split_char(s, c).len() >= 1,
    decreases s.len(),
{
    lemma_idx_of_bounds(s, c);
}

pub proof fn lemma_lines_nonempty(s: Seq<char>)
    ensures
        s.len() > 0 ==> lines(s).len() > 0,
{
    lemma_idx_of_bounds(s, '\n');
}

pub proof fn lemma_join_push(parts: Seq<Seq<char>>, sep: Seq<char>, p: Seq<char>)
    ensures
        join(parts.push(p), sep) == if parts.len() == 0 { p } else { join(parts, sep) + sep + p },
{
    assert(parts.push(p).drop_last() =~= parts);
}

// ─── Executable operations ─────────────────────────────────────────────────

/// Appends one character (`String::push`).
#[verifier::external_body]
pub fn push_char(s: &mut String, c: char)
    ensures
        final(s)@ == old(s)@.push(c),
{
    s.push(c);
}

/// Appends a string slice (`String::push_str`).
#[verifier::external_body]
pub fn push_str(s: &mut String, t: &str)
    ensures
        final(s)@ == old(s)@ + t@,
{
    s.push_str(t);
}

/// Lowercases `s` (`str::to_lowercase`). On ASCII text this maps `A`..`Z`
/// to `a`..`z` and keeps every other character, as the Unicode lowercase
/// mapping does for ASCII; for other text the mapping is named by
/// `lowercase`, not restated.
#[verifier::external_body]
pub fn to_lowercase(s: &str) -> (out: String)
    ensures
        is_ascii_text(s@) ==> out@ == s@.map_values(|c: char| ascii_lower(c)),
        !is_ascii_text(s@) ==> out@ == lowercase(s@),
{
    s.to_lowercase()
}

/// Debug rendering of a string slice (`format!("{:?}", s)`): text of
/// printable ASCII characters other than `"` and `\` comes out unchanged
/// between double quotes; the escaping of everything else is named by
/// `debug_str`, not restated.
#[verifier::external_body]
pub fn debug_quote(s: &str) -> (out: String)
    ensures
        out@ == debug_str(s@),
        plain_ascii(s@) ==> out@ == seq!['"'] + s@ + seq!['"'],
{
    format!("{:?}", s)
}

/// An owned copy of `s`.
pub fn owned(s: &str) -> (out: String)
    ensures
        out@ == s@,
{
    s.to_owned()
}

/// The characters of `s`, in order.
pub fn chars_of(s: &str) -> (out: Vec<char>)
    ensures
        out@ == s@,
{
    let mut out: Vec<char> = Vec::new();
    for c in it: s.chars()
        invariant
            out@ == it.seq().take(it.index() as int),
    {
        out.push(c);
    }
    out
}

/// The string holding `v[lo..hi]`.
pub fn string_of(v: &Vec<char>, lo: usize, hi: usize) -> (out: String)
    requires
        lo <= hi <= v.len(),
    ensures
        out@ == v@.subrange(lo as int, hi as int),
{
    let mut out = String::new();
    let mut i = lo;
    while i < hi
        invariant
            lo <= i <= hi <= v.len(),
            out@ == v@.subrange(lo as int, i as int),
        decreases hi - i,
    {
        push_char(&mut out, v[i]);
        assert(v@.subrange(lo as int, i + 1) =~= v@.subrange(lo as int, i as int).push(v@[i as int]));
        i += 1;
    }
    out
}

/// The string holding all of `v`.
pub fn string_from(v: &Vec<char>) -> (out: String)
    ensures
        out@ == v@,
{
    let out = string_of(v, 0, v.len());
    assert(v@.subrange(0, v@.len() as int) =~= v@);
    out
}

/// Whether `c` is Unicode whitespace (`char::is_whitespace`).
pub fn is_whitespace(c: char) -> (b: bool)
    ensures
        b == is_ws(c),
{
    let u = c as u32;
    (0x09 <= u && u <= 0x0D) || u == 0x20 || u == 0x85 || u == 0xA0 || u == 0x1680
        || (0x2000 <= u && u <= 0x200A) || u == 0x2028 || u == 0x2029 || u == 0x202F
        || u == 0x205F || u == 0x3000
}

/// Bounds `[lo, hi)` of `v` once leading and trailing whitespace are dropped.
pub fn trim_bounds(v: &Vec<char>) -> (r: (usize, usize))
    ensures
        r.0 <= r.1 <= v.len(),
        v@.subrange(r.0 as int, r.1 as int) == trim(v@),
{
    let n = v.len();
    let mut lo: usize = 0;
    while lo < n && is_whitespace(v[lo])
        invariant
            lo <= n == v.len(),
            forall|i: int| 0 <= i < lo ==> is_ws(v@[i]),
        decreases n - lo,
    {
        lo += 1;
    }
    proof {
        lemma_trim_start_skip(v@, lo as int);
    }
    let ghost t = v@.skip(lo as int);
    let mut hi: usize = n;
    while hi > lo && is_whitespace(v[hi - 1])
        invariant
            lo <= hi <= n == v.len(),
            t == v@.skip(lo as int),
            forall|i: int| hi <= i < n ==> is_ws(v@[i]),
        decreases hi,
    {
        hi -= 1;
    }
    proof {
        let k = hi - lo;
        assert forall|i: int| k <= i < t.len() implies is_ws(t[i]) by {
            assert(t[i] == v@[i + lo]);
        }
        lemma_trim_end_take(t, k as int);
        assert(t.take(k as int) =~= v@.subrange(lo as int, hi as int));
    }
    (lo, hi)
}

/// `s` without leading and trailing whitespace (`str::trim`).
pub fn trim_str(s: &str) -> (out: String)
    ensures
        out@ == trim(s@),
{
    let v = chars_of(s);
    let (lo, hi) = trim_bounds(&v);
    string_of(&v, lo, hi)
}

/// Whether `p` occurs in `s` at position `i`.
pub fn occurs_at_exec(s: &Vec<char>, p: &Vec<char>, i: usize) -> (b: bool)
    ensures
        b == occurs_at(s@, p@, i as int),
{
    if i > s.len() || p.len() > s.len() - i {
        return false;
    }
    let mut k: usize = 0;
    while k < p.len()
        invariant
            i + p.len() <= s.len(),
            k <= p.len(),
            forall|j: int| 0 <= j < k ==> s@[i + j] == p@[j],
        decreases p.len() - k,
    {
        if s[i + k] != p[k] {
            assert(s@.subrange(i as int, i + p.len())[k as int] != p@[k as int]);
            return false;
        }
        k += 1;
    }
    assert(s@.subrange(i as int, i + p.len()) =~= p@);
    true
}

/// Leftmost position of `p` in `s` at or after `from` (`str::find`).
pub fn find_from(s: &Vec<char>, p: &Vec<char>, from: usize) -> (r: Option<usize>)
    requires
        from <= s.len(),
    ensures
        match r {
            Some(i) => from <= i && occurs_at(s@, p@, i as int) && forall|j: int|
                from <= j < i ==> !occurs_at(s@, p@, j),
            None => forall|j: int| from <= j ==> !occurs_at(s@, p@, j),
        },
{
    let mut i = from;
    loop
        invariant
            from <= i <= s.len(),
            forall|j: int| from <= j < i ==> !occurs_at(s@, p@, j),
        decreases s.len() - i,
    {
        if occurs_at_exec(s, p, i) {
            return Some(i);
        }
        if i == s.len() {
            return None;
        }
        i += 1;
    }
}

/// Leftmost position of `p` in `s` (`str::find`).
pub fn find(s: &Vec<char>, p: &Vec<char>) -> (r: Option<usize>)
    ensures
        match r {
            Some(i) => first_at(s@, p@, i as int),
            None => !has_sub(s@, p@),
        },
{
    find_from(s, p, 0)
}

/// Whether `p` occurs in `s` (`str::contains`).
pub fn contains(s: &Vec<char>, p: &Vec<char>) -> (b: bool)
    ensures
        b == has_sub(s@, p@),
{
    find(s, p).is_some()
}

/// Whether `p` occurs in the string `s`.
pub fn str_contains(s: &str, p: &str) -> (b: bool)
    ensures
        b == has_sub(s@, p@),
{
    let sv = chars_of(s);
    let pv = chars_of(p);
    contains(&sv, &pv)
}

/// Whether `s` begins with `p` (`str::starts_with`).
pub fn str_starts_with(s: &str, p: &str) -> (b: bool)
    ensures
        b == starts_with(s@, p@),
{
    let sv = chars_of(s);
    let pv = chars_of(p);
    let b = occurs_at_exec(&sv, &pv, 0);
    b
}

/// Whether `s` ends with `p` (`str::ends_with`).
pub fn str_ends_with(s: &str, p: &str) -> (b: bool)
    ensures
        b == ends_with(s@, p@),
{
    let sv = chars_of(s);
    let pv = chars_of(p);
    if pv.len() > sv.len() {
        return false;
    }
    occurs_at_exec(&sv, &pv, sv.len() - pv.len())
}

/// Whether two strings hold the same characters.
pub fn str_eq(a: &str, b: &str) -> (r: bool)
    ensures
        r == (a@ == b@),
{
    let av = chars_of(a);
    let bv = chars_of(b);
    if av.len() != bv.len() {
        return false;
    }
    let r = occurs_at_exec(&av, &bv, 0);
    proof {
        if r {
            assert(av@ =~= av@.subrange(0, bv@.len() as int));
        } else if av@ == bv@ {
            assert(av@.subrange(0, bv@.len() as int) =~= bv@);
        }
    }
    r
}

/// Every non-overlapping occurrence of `from` in `s` replaced by `to`
/// (`str::replace`).
pub fn replace_str(s: &str, from: &str, to: &str) -> (out: String)
    requires
        from@.len() > 0,
    ensures
        out@ == replace_all(s@, from@, to@),
{
    let sv = chars_of(s);
    let fv = chars_of(from);
    let mut out = String::new();
    let mut i: usize = 0;
    assert(sv@.skip(0) =~= sv@);
    while i < sv.len()
        invariant
            i <= sv.len(),
            fv@ == from@,
            fv@.len() > 0,
            replace_all(sv@, fv@, to@) == out@ + replace_all(sv@.skip(i as int), fv@, to@),
        decreases sv.len() - i,
    {
        let ghost rest = sv@.skip(i as int);
        if occurs_at_exec(&sv, &fv, i) {
            proof {
                assert(rest.subrange(0, fv@.len() as int) =~= sv@.subrange(i as int, i + fv@.len()));
                assert(rest.skip(fv@.len() as int) =~= sv@.skip(i + fv@.len()));
            }
            push_str(&mut out, to);
            i += fv.len();
        } else {
            proof {
                if starts_with(rest, fv@) {
                    assert(rest.subrange(0, fv@.len() as int) =~= sv@.subrange(i as int, i + fv@.len()));
                }
                assert(rest.drop_first() =~= sv@.skip(i + 1));
                assert(rest[0] == sv@[i as int]);
            }
            push_char(&mut out, sv[i]);
            i += 1;
        }
    }
    assert(sv@.skip(i as int).len() == 0);
    out
}

/// The first whitespace-separated word of `s`, or `""` when `s` has none.
pub fn first_word_of(s: &str) -> (out: String)
    ensures
        out@ == first_word(s@),
{
    let v = chars_of(s);
    let n = v.len();
    let mut lo: usize = 0;
    while lo < n && is_whitespace(v[lo])
        invariant
            lo <= n == v.len(),
            forall|i: int| 0 <= i < lo ==> is_ws(v@[i]),
        decreases n - lo,
    {
        lo += 1;
    }
    proof {
        lemma_trim_start_skip(v@, lo as int);
    }
    let mut hi: usize = lo;
    while hi < n && !is_whitespace(v[hi])
        invariant
            lo <= hi <= n == v.len(),
            forall|i: int| lo <= i < hi ==> !is_ws(v@[i]),
        decreases n - hi,
    {
        hi += 1;
    }
    proof {
        let t = v@.skip(lo as int);
        assert forall|i: int| 0 <= i < hi - lo implies !is_ws(t[i]) by {
            assert(t[i] == v@[i + lo]);
        }
        lemma_ws_idx(t, hi - lo);
        assert(t.take(hi - lo) =~= v@.subrange(lo as int, hi as int));
    }
    string_of(&v, lo, hi)
}

/// At most the first `n` characters of `s`.
pub fn prefix_chars(s: &str, n: usize) -> (out: String)
    ensures
        out@ == prefix(s@, n as nat),
{
    let v = chars_of(s);
    if v.len() <= n {
        string_from(&v)
    } else {
        let out = string_of(&v, 0, n);
        assert(v@.subrange(0, n as int) =~= v@.take(n as int));
        out
    }
}

/// Position of the first `c` in `v` at or after `from`, or `v.len()`.
pub fn index_of_char(v: &Vec<char>, c: char, from: usize) -> (k: usize)
    requires
        from <= v.len(),
    ensures
        from <= k <= v.len(),
        k == from + idx_of(v@.skip(from as int), c),
{
    let mut k = from;
    while k < v.len() && v[k] != c
        invariant
            from <= k <= v.len(),
            forall|i: int| from <= i < k ==> v@[i] != c,
        decreases v.len() - k,
    {
        k += 1;
    }
    proof {
        let t = v@.skip(from as int);
        assert forall|i: int| 0 <= i < k - from implies t[i] != c by {
            assert(t[i] == v@[i + from]);
        }
        lemma_idx_of(t, c, k - from);
    }
    k
}

/// The lines of `s` (`str::lines`).
pub fn split_lines(s: &str) -> (out: Vec<String>)
    ensures
        views(out@) == lines(s@),
{
    let v = chars_of(s);
    let mut out: Vec<String> = Vec::new();
    let mut i: usize = 0;
    assert(v@.skip(0) =~= v@);
    while i < v.len()
        invariant
            i <= v.len(),
            v@ == s@,
            lines(s@) == views(out@) + lines(v@.skip(i as int)),
        decreases v.len() - i,
    {
        let ghost rest = v@.skip(i as int);
        let k = index_of_char(&v, '\n', i);
        if k == v.len() {
            let piece = string_of(&v, i, k);
            assert(rest =~= v@.subrange(i as int, k as int));
            out.push(piece);
            i = k;
            proof {
                assert(v@.skip(i as int).len() == 0);
                assert(lines(v@.skip(i as int)) =~= Seq::<Seq<char>>::empty());
                assert(lines(rest) == seq![rest]);
            }
        } else {
            let mut hi = k;
            if hi > i && v[hi - 1] == '\r' {
                hi = hi - 1;
            }
            let piece = string_of(&v, i, hi);
            proof {
                let kk = k - i;
                assert(rest.take(kk as int) =~= v@.subrange(i as int, k as int));
                assert(rest.skip(kk + 1) =~= v@.skip(k + 1));
                assert(strip_last(rest.take(kk as int), '\r') =~= v@.subrange(i as int, hi as int));
            }
            out.push(piece);
            i = k + 1;
        }
        assert(views(out@) =~= views(out@.drop_last()).push(out@.last()@));
    }
    assert(lines(v@.skip(i as int)) =~= Seq::<Seq<char>>::empty());
    assert(lines(s@) =~= views(out@));
    out
}

/// The pieces of `s` between occurrences of `c` (`str::split`).
pub fn split_on(s: &str, c: char) -> (out: Vec<String>)
    ensures
        views(out@) == split_char(s@, c),
{
    let v = chars_of(s);
    let mut out: Vec<String> = Vec::new();
    let mut i: usize = 0;
    let mut done = false;
    assert(v@.skip(0) =~= v@);
    while !done
        invariant
            i <= v@.len(),
            v@ == s@,
            !done ==> split_char(s@, c) == views(out@) + split_char(v@.skip(i as int), c),
            done ==> split_char(s@, c) == views(out@),
        decreases v@.len() - i + if done { 0int } else { 1int },
    {
        let ghost rest = v@.skip(i as int);
        let k = index_of_char(&v, c, i);
        let piece = string_of(&v, i, k);
        proof {
            lemma_idx_of_bounds(rest, c);
            assert(rest.take(k - i) =~= v@.subrange(i as int, k as int));
        }
        out.push(piece);
        assert(views(out@) =~= views(out@.drop_last()).push(piece@));
        if k == v.len() {
            proof {
                assert(rest =~= v@.subrange(i as int, k as int));
                assert(split_char(rest, c) == seq![rest]);
            }
            done = true;
        } else {
            proof {
                assert(rest.skip(k - i + 1) =~= v@.skip(k + 1));
                assert(split_char(rest, c) == seq![rest.take(k - i)] + split_char(rest.skip(k - i + 1), c));
            }
            i = k + 1;
        }
    }
    out
}

/// Leftmost position of `p` in the string `s` (`str::find`).
pub fn find_str(s: &str, p: &str) -> (r: Option<usize>)
    ensures
        match r {
            Some(i) => has_sub(s@, p@) && i == find_pos(s@, p@),
            None => !has_sub(s@, p@) && find_pos(s@, p@) == -1,
        },
{
    let sv = chars_of(s);
    let pv = chars_of(p);
    let r = find(&sv, &pv);
    proof {
        lemma_find_pos(s@, p@);
    }
    r
}

/// The pieces of `s` between the occurrences of `p` (`str::split`).
pub fn split_on_str(s: &str, p: &str) -> (out: Vec<String>)
    requires
        p@.len() > 0,
    ensures
        views(out@) == split_str(s@, p@),
{
    let v = chars_of(s);
    let pv = chars_of(p);
    let mut out: Vec<String> = Vec::new();
    let mut i: usize = 0;
    let mut done = false;
    assert(v@.skip(0) =~= v@);
    while !done
        invariant
            i <= v@.len(),
            v@ == s@,
            pv@ == p@,
            p@.len() > 0,
            !done ==> split_str(s@, p@) == views(out@) + split_str(v@.skip(i as int), p@),
            done ==> split_str(s@, p@) == views(out@),
        decreases v@.len() - i + if done { 0int } else { 1int },
    {
        let ghost rest = v@.skip(i as int);
        let found = find_from(&v, &pv, i);
        proof {
            lemma_find_pos(rest, p@);
        }
        match found {
            Some(k) => {
                proof {
                    let kk = k - i;
                    assert(rest.subrange(kk, kk + p@.len()) =~= v@.subrange(k as int, k + p@.len()));
                    assert(occurs_at(rest, p@, kk));
                    assert forall|j: int| 0 <= j < kk implies !occurs_at(rest, p@, j) by {
                        if occurs_at(rest, p@, j) {
                            assert(rest.subrange(j, j + p@.len()) =~= v@.subrange(j + i, j + i + p@.len()));
                            assert(occurs_at(v@, pv@, j + i));
                        }
                    }
                    assert(first_at(rest, p@, kk));
                    assert(rest.take(kk) =~= v@.subrange(i as int, k as int));
                    assert(rest.skip(kk + p@.len()) =~= v@.skip(k + p@.len()));
                }
                let piece = string_of(&v, i, k);
                out.push(piece);
                assert(views(out@) =~= views(out@.drop_last()).push(piece@));
                assert(occurs_at(v@, pv@, k as int));
                let vl = v.len();
                let pl = pv.len();
                assert(k + pl <= vl);
                i = k + pl;
            },
            None => {
                proof {
                    if has_sub(rest, p@) {
                        let j = find_pos(rest, p@);
                        assert(rest.subrange(j, j + p@.len()) =~= v@.subrange(j + i, j + i + p@.len()));
                        assert(occurs_at(v@, pv@, j + i));
                    }
                    assert(rest =~= v@.subrange(i as int, v@.len() as int));
                }
                let piece = string_of(&v, i, v.len());
                out.push(piece);
                assert(views(out@) =~= views(out@.drop_last()).push(piece@));
                done = true;
            },
        }
    }
    out
}

/// The first line of `s`, or `""`.
pub fn first_line(s: &str) -> (out: String)
    ensures
        out@ == first_line_of(s@),
{
    let ls = split_lines(s);
    if ls.len() > 0 {
        assert(views(ls@)[0] == ls@[0]@);
        ls[0].clone()
    } else {
        String::new()
    }
}

fn hex_digit(d: u32) -> (c: char)
    requires
        d < 16,
    ensures
        c == hex_lower(d as nat),
{
    if d == 0 { '0' } else if d == 1 { '1' } else if d == 2 { '2' } else if d == 3 { '3' }
    else if d == 4 { '4' } else if d == 5 { '5' } else if d == 6 { '6' } else if d == 7 { '7' }
    else if d == 8 { '8' } else if d == 9 { '9' } else if d == 10 { 'a' } else if d == 11 { 'b' }
    else if d == 12 { 'c' } else if d == 13 { 'd' } else if d == 14 { 'e' } else { 'f' }
}

/// Appends the JSON string literal for `s`.
pub fn push_json_quoted(out: &mut String, s: &str)
    ensures
        final(out)@ == old(out)@ + json_quote(s@),
{
    let v = chars_of(s);
    push_char(out, '"');
    let mut i: usize = 0;
    assert(v@.take(0) =~= Seq::<char>::empty());
    while i < v.len()
        invariant
            i <= v.len(),
            out@ == old(out)@ + seq!['"'] + json_escaped(v@.take(i as int)),
        decreases v.len() - i,
    {
        let c = v[i];
        let u = c as u32;
        if c == '"' {
            push_char(out, '\\');
            push_char(out, '"');
        } else if c == '\\' {
            push_char(out, '\\');
            push_char(out, '\\');
        } else if u == 0x08 {
            push_char(out, '\\');
            push_char(out, 'b');
        } else if u == 0x0C {
            push_char(out, '\\');
            push_char(out, 'f');
        } else if c == '\n' {
            push_char(out, '\\');
            push_char(out, 'n');
        } else if c == '\r' {
            push_char(out, '\\');
            push_char(out, 'r');
        } else if c == '\t' {
            push_char(out, '\\');
            push_char(out, 't');
        } else if u < 0x20 {
            push_char(out, '\\');
            push_char(out, 'u');
            push_char(out, '0');
            push_char(out, '0');
            push_char(out, hex_digit(u / 16));
            push_char(out, hex_digit(u % 16));
        } else {
            push_char(out, c);
        }
        assert(v@.take(i + 1).drop_last() =~= v@.take(i as int));
        assert(v@.take(i + 1).last() == c);
        i += 1;
    }
    assert(v@.take(v.len() as int) =~= v@);
    push_char(out, '"');
}

/// Appends `parts` joined by `sep`.
pub fn push_joined(out: &mut String, parts: &Vec<String>, sep: &str)
    ensures
        final(out)@ == old(out)@ + join(views(parts@), sep@),
{
    let mut i: usize = 0;
    while i < parts.len()
        invariant
            i <= parts.len(),
            out@ == old(out)@ + join(views(parts@.take(i as int)), sep@),
        decreases parts.len() - i,
    {
        proof {
            let pv = views(parts@.take(i as int));
            lemma_join_push(pv, sep@, parts@[i as int]@);
            assert(views(parts@.take(i + 1)) =~= pv.push(parts@[i as int]@));
        }
        if i > 0 {
            push_str(out, sep);
        }
        push_str(out, parts[i].as_str());
        i += 1;
    }
    assert(parts@.take(parts.len() as int) =~= parts@);
}

/// Whether `a` comes before `b` (`a < b` on strings).
pub fn text_less(a: &str, b: &str) -> (r: bool)
    ensures
        r == text_lt(a@, b@),
{
    let av = chars_of(a);
    let bv = chars_of(b);
    let mut i: usize = 0;
    assert(av@.skip(0) =~= av@);
    assert(bv@.skip(0) =~= bv@);
    while i < av.len() && i < bv.len() && av[i] == bv[i]
        invariant
            i <= av@.len(),
            i <= bv@.len(),
            text_lt(av@, bv@) == text_lt(av@.skip(i as int), bv@.skip(i as int)),
        decreases av@.len() - i,
    {
        assert(av@.skip(i as int).drop_first() =~= av@.skip(i + 1));
        assert(bv@.skip(i as int).drop_first() =~= bv@.skip(i + 1));
        i += 1;
    }
    if i == av.len() {
        i < bv.len()
    } else if i == bv.len() {
        false
    } else {
        av[i] < bv[i]
    }
}

pub proof fn lemma_text_lt_total(a: Seq<char>, b: Seq<char>)
    ensures
        a != b ==> (text_lt(a, b) || text_lt(b, a)),
        !(text_lt(a, b) && text_lt(b, a)),
    decreases a.len(),
{
    if a.len() > 0 && b.len() > 0 && a[0] == b[0] {
        lemma_text_lt_total(a.drop_first(), b.drop_first());
        if a.drop_first() == b.drop_first() {
            assert forall|i: int| 0 <= i < a.len() implies a[i] == b[i] by {
                if i > 0 {
                    assert(a[i] == a.drop_first()[i - 1]);
                    assert(b[i] == b.drop_first()[i - 1]);
                }
            }
            assert(a =~= b);
        }
    } else if a.len() == 0 && b.len() == 0 {
        assert(a =~= b);
    }
}

pub proof fn lemma_text_lt_trans(a: Seq<char>, b: Seq<char>, c: Seq<char>)
    requires
        text_lt(a, b),
        text_lt(b, c),
    ensures
        text_lt(a, c),
    decreases a.len(),
{
    if a.len() > 0 && b.len() > 0 && c.len() > 0 && a[0] == b[0] && b[0] == c[0] {
        lemma_text_lt_trans(a.drop_first(), b.drop_first(), c.drop_first());
    }
}

pub proof fn lemma_insert_pos(s: Seq<Seq<char>>, x: Seq<char>)
    ensures
        0 <= insert_pos(s, x) <= s.len(),
        forall|j: int| insert_pos(s, x) <= j < s.len() ==> text_lt(x, #[trigger] s[j]),
        insert_pos(s, x) > 0 ==> !text_lt(x, s[insert_pos(s, x) - 1]),
    decreases s.len(),
{
    if s.len() > 0 && text_lt(x, s.last()) {
        lemma_insert_pos(s.drop_last(), x);
        assert forall|j: int| insert_pos(s, x) <= j < s.len() implies text_lt(x, #[trigger] s[j]) by {
            if j < s.len() - 1 {
                assert(s[j] == s.drop_last()[j]);
            }
        }
    }
}

/// Sorting orders the strings and keeps each one as often as it occurs.
pub proof fn lemma_sort_texts(s: Seq<Seq<char>>)
    ensures
        text_sorted(sort_texts(s)),
        sort_texts(s).to_multiset() == s.to_multiset(),
        sort_texts(s).len() == s.len(),
    decreases s.len(),
{
    broadcast use vstd::seq_lib::group_to_multiset_ensures;

    if s.len() > 0 {
        let r = sort_texts(s.drop_last());
        let x = s.last();
        let k = insert_pos(r, x);
        lemma_sort_texts(s.drop_last());
        lemma_insert_pos(r, x);
        let t = r.insert(k, x);
        assert(t =~= r.take(k).push(x) + r.skip(k));
        assert(r =~= r.take(k) + r.skip(k));
        vstd::seq_lib::lemma_multiset_commutative(r.take(k).push(x), r.skip(k));
        vstd::seq_lib::lemma_multiset_commutative(r.take(k), r.skip(k));
        assert(s =~= s.drop_last().push(x));
        assert forall|a: int, b: int| 0 <= a < b < t.len() implies !text_lt(#[trigger] t[b], #[trigger] t[a]) by {
            if a < k && b == k {
                lemma_text_lt_total(x, r[k - 1]);
                if text_lt(x, r[a]) {
                    lemma_text_lt_total(r[a], r[k - 1]);
                    if r[a] != r[k - 1] && a < k - 1 {
                        lemma_text_lt_trans(x, r[a], r[k - 1]);
                    }
                }
            } else if a == k && b > k {
                lemma_text_lt_total(x, r[b - 1]);
            } else if a < k && b > k {
                assert(t[a] == r[a] && t[b] == r[b - 1]);
            } else if a > k {
                assert(t[a] == r[a - 1] && t[b] == r[b - 1]);
            }
        }
    }
}

/// Sorts the strings (`sort()`).
pub fn sort_strings(v: &Vec<String>) -> (out: Vec<String>)
    ensures
        views(out@) == sort_texts(views(v@)),
{
    let ghost vv = views(v@);
    let mut out: Vec<String> = Vec::new();
    let mut i: usize = 0;
    while i < v.len()
        invariant
            i <= v.len(),
            vv == views(v@),
            views(out@) == sort_texts(vv.take(i as int)),
        decreases v.len() - i,
    {
        let x = &v[i];
        let ghost r = views(out@);
        let mut k: usize = out.len();
        assert(r.take(k as int) =~= r);
        while k > 0 && text_less(x.as_str(), out[k - 1].as_str())
            invariant
                k <= out@.len(),
                r == views(out@),
                insert_pos(r, x@) == insert_pos(r.take(k as int), x@),
            decreases k,
        {
            assert(r.take(k as int).drop_last() =~= r.take(k - 1));
            k -= 1;
        }
        proof {
            if k > 0 {
                assert(r.take(k as int).last() == r[k - 1]);
            }
        }
        out.insert(k, x.clone());
        proof {
            assert(views(out@) =~= r.insert(k as int, x@));
            assert(vv.take(i + 1).drop_last() =~= vv.take(i as int));
            assert(vv.take(i + 1).last() == x@);
        }
        i += 1;
    }
    assert(vv.take(v.len() as int) =~= vv);
    out
}

/// The decimal rendering of a wide number.
pub fn decimal_string_wide(n: u128) -> (out: String)
    ensures
        out@ == decimal(n as nat),
    decreases n,
{
    let d = n % 10;
    let c = if d == 0 { '0' } else if d == 1 { '1' } else if d == 2 { '2' } else if d == 3 { '3' }
        else if d == 4 { '4' } else if d == 5 { '5' } else if d == 6 { '6' } else if d == 7 { '7' }
        else if d == 8 { '8' } else { '9' };
    if n < 10 {
        let mut out = String::new();
        push_char(&mut out, c);
        out
    } else {
        let mut out = decimal_string_wide(n / 10);
        push_char(&mut out, c);
        out
    }
}

/// The decimal rendering of `n` (`n.to_string()`).
pub fn decimal_string(n: u64) -> (out: String)
    ensures
        out@ == decimal(n as nat),
    decreases n,
{
    let d = n % 10;
    let c = if d == 0 { '0' } else if d == 1 { '1' } else if d == 2 { '2' } else if d == 3 { '3' }
        else if d == 4 { '4' } else if d == 5 { '5' } else if d == 6 { '6' } else if d == 7 { '7' }
        else if d == 8 { '8' } else { '9' };
    if n < 10 {
        let mut out = String::new();
        push_char(&mut out, c);
        out
    } else {
        let mut out = decimal_string(n / 10);
        push_char(&mut out, c);
        out
    }
}

} // verus!
