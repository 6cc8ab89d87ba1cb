//! Text utilities with exact specifications: comparisons, decimal
//! formatting, splitting into fields, lines and words, trimming.

use vstd::prelude::*;

verus! {

// ---------------------------------------------------------------------------
// Specifications
// ---------------------------------------------------------------------------

/// Unicode `White_Space` property, the notion of whitespace used by
/// `char::is_whitespace`, `str::trim` and `str::split_whitespace`.
pub open spec fn is_ws(c: char) -> bool {
    let u = c as u32;
    ||| 0x09 <= u <= 0x0d
    ||| u == 0x20
    ||| u == 0x85
    ||| u == 0xa0
    ||| u == 0x1680
    ||| 0x2000 <= u <= 0x200a
    ||| u == 0x2028
    ||| u == 0x2029
    ||| u == 0x202f
    ||| u == 0x205f
    ||| u == 0x3000
}

/// `p` is a prefix of `s`.
pub open spec fn has_prefix(s: Seq<char>, p: Seq<char>) -> bool {
    p.len() <= s.len() && s.subrange(0, p.len() as int) == p
}

/// `p` is a suffix of `s`.
pub open spec fn has_suffix(s: Seq<char>, p: Seq<char>) -> bool {
    p.len() <= s.len() && s.subrange(s.len() - p.len(), s.len() as int) == p
}

/// `p` occurs in `s` starting at position `i`.
pub open spec fn occurs_at(s: Seq<char>, p: Seq<char>, i: int) -> bool {
    0 <= i && i + p.len() <= s.len() && s.subrange(i, i + p.len()) == p
}

/// `p` occurs somewhere in `s`.
pub open spec fn contains_text(s: Seq<char>, p: Seq<char>) -> bool {
    exists|i: int| occurs_at(s, p, i)
}

/// The character of a decimal digit.
pub open spec fn digit_char(d: int) -> char {
    if d == 0 {
        '0'
    } else if d == 1 {
        '1'
    } else if d == 2 {
        '2'
    } else if d == 3 {
        '3'
    } else if d == 4 {
        '4'
    } else if d == 5 {
        '5'
    } else if d == 6 {
        '6'
    } else if d == 7 {
        '7'
    } else if d == 8 {
        '8'
    } else {
        '9'
    }
}

/// The decimal representation of `n`, without sign or leading zeros.
pub open spec fn decimal(n: nat) -> Seq<char>
    decreases n,
{
    if n < 10 {
        seq![digit_char(n as int)]
    } else {
        decimal(n / 10).push(digit_char((n % 10) as int))
    }
}

/// How a text is cut into fields.
pub enum Separator {
    /// Every occurrence of this character separates two fields.
    Char(char),
    /// Every whitespace character separates two fields.
    Whitespace,
}

impl Separator {
    pub open spec fn cuts(self, c: char) -> bool {
        match self {
            Separator::Char(d) => c == d,
            Separator::Whitespace => is_ws(c),
        }
    }
}

/// The fields of `s` between separators, empty ones included, as
/// `str::split` yields them: a text with `k` separators has `k + 1` fields.
pub open spec fn fields(s: Seq<char>, sep: Separator) -> Seq<Seq<char>>
    decreases s.len(),
{
    if s.len() == 0 {
        seq![Seq::<char>::empty()]
    } else {
        let prev = fields(s.drop_last(), sep);
        if sep.cuts(s.last()) {
            prev.push(Seq::<char>::empty())
        } else {
            prev.update(prev.len() - 1, prev.last().push(s.last()))
        }
    }
}

/// The non-empty members of `ss`, in order.
pub open spec fn non_empty(ss: Seq<Seq<char>>) -> Seq<Seq<char>>
    decreases ss.len(),
{
    if ss.len() == 0 {
        Seq::empty()
    } else {
        let prev = non_empty(ss.drop_last());
        if ss.last().len() > 0 {
            prev.push(ss.last())
        } else {
            prev
        }
    }
}

/// The whitespace-separated words of `s`, as `str::split_whitespace` yields them.
pub open spec fn words(s: Seq<char>) -> Seq<Seq<char>> {
    non_empty(fields(s, Separator::Whitespace))
}

/// `l` without one trailing carriage return, if it has one.
pub open spec fn strip_cr(l: Seq<char>) -> Seq<char> {
    if l.len() > 0 && l.last() == '\r' {
        l.drop_last()
    } else {
        l
    }
}

/// The lines of `s`, as `str::lines` yields them: the text is cut at each
/// `\n`, a `\r` just before a `\n` belongs to the line ending, and a final
/// empty field (after a last line ending, or of an empty text) is no line.
pub open spec fn lines(s: Seq<char>) -> Seq<Seq<char>> {
    let fs = fields(s, Separator::Char('\n'));
    let n = fs.len() as int;
    let count = if fs[n - 1].len() == 0 {
        n - 1
    } else {
        n
    };
    Seq::new(count as nat, |i: int| if i < n - 1 { strip_cr(fs[i]) } else { fs[i] })
}

/// `s` without its leading whitespace.
pub open spec fn trim_start(s: Seq<char>) -> Seq<char>
    decreases s.len(),
{
    if s.len() > 0 && is_ws(s[0]) {
        trim_start(s.drop_first())
    } else {
        s
    }
}

/// `s` without its trailing whitespace.
pub open spec fn trim_end(s: Seq<char>) -> Seq<char>
    decreases s.len(),
{
    if s.len() > 0 && is_ws(s.last()) {
        trim_end(s.drop_last())
    } else {
        s
    }
}

/// `s` without leading and trailing whitespace, as `str::trim` gives it.
pub open spec fn trimmed(s: Seq<char>) -> Seq<char> {
    trim_end(trim_start(s))
}

/// `s` with every non-overlapping occurrence of the non-empty `p`, found
/// from left to right, removed (as `str::replace(p, "")` gives it).
pub open spec fn remove_all(s: Seq<char>, p: Seq<char>) -> Seq<char>
    decreases s.len(),
{
    if p.len() == 0 || s.len() == 0 {
        s
    } else if has_prefix(s, p) {
        remove_all(s.subrange(p.len() as int, s.len() as int), p)
    } else {
        seq![s[0]] + remove_all(s.drop_first(), p)
    }
}

/// The views of a vector of strings.
pub open spec fn views(v: Seq<String>) -> Seq<Seq<char>> {
    v.map_values(|x: String| x@)
}

// ---------------------------------------------------------------------------
// Comparisons
// ---------------------------------------------------------------------------

/// Collects the characters of `s` into a vector.
pub fn chars_of(s: &str) -> (v: Vec<char>)
    ensures
        v@ == s@,
{
    let mut v: Vec<char> = Vec::new();
    let ghost whole = s@;
    for c in it: s.chars()
        invariant
            it.seq() == whole,
            v@ == it.seq().take(it.index() as int),
    {
        proof {
            assert(it.seq().take(it.index() + 1) == it.seq().take(it.index() as int).push(c));
        }
        v.push(c);
    }
    v
}

/// Whether `p` occurs in `s` at position `i`.
fn matches_at(s: &Vec<char>, p: &Vec<char>, i: usize) -> (r: bool)
    ensures
        r == occurs_at(s@, p@, i as int),
{
    if i > s.len() || p.len() > s.len() - i {
        return false;
    }
    let mut j: usize = 0;
    while j < p.len()
        invariant
            i + p.len() <= s.len(),
            j <= p.len(),
            forall|k: int| 0 <= k < j ==> s@[i + k] == p@[k],
        decreases p.len() - j,
    {
        if s[i + j] != p[j] {
            assert(s@.subrange(i as int, i + p.len())[j as int] != p@[j as int]);
            return false;
        }
        j = j + 1;
    }
    assert(s@.subrange(i as int, i + p.len()) =~= p@);
    true
}

/// Whether two texts are equal.
pub fn text_eq(a: &str, b: &str) -> (r: bool)
    ensures
        r == (a@ == b@),
{
    let va = chars_of(a);
    let vb = chars_of(b);
    if va.len() != vb.len() {
        return false;
    }
    let r = matches_at(&va, &vb, 0);
    assert(va@.subrange(0, vb@.len() as int) =~= va@);
    r
}

/// Whether `s` starts with `p` (`str::starts_with`).
pub fn starts_with(s: &str, p: &str) -> (r: bool)
    ensures
        r == has_prefix(s@, p@),
{
    let vs = chars_of(s);
    let vp = chars_of(p);
    matches_at(&vs, &vp, 0)
}

/// Whether `s` ends with `p` (`str::ends_with`).
pub fn ends_with(s: &str, p: &str) -> (r: bool)
    ensures
        r == has_suffix(s@, p@),
{
    let vs = chars_of(s);
    let vp = chars_of(p);
    if vp.len() > vs.len() {
        return false;
    }
    matches_at(&vs, &vp, vs.len() - vp.len())
}

/// Whether `p` occurs in `s` (`str::contains`).
pub fn contains(s: &str, p: &str) -> (r: bool)
    ensures
        r == contains_text(s@, p@),
{
    let vs = chars_of(s);
    let vp = chars_of(p);
    if vp.len() > vs.len() {
        return false;
    }
    let last = vs.len() - vp.len();
    let mut i: usize = 0;
    while i < last
        invariant
            vs@ == s@,
            vp@ == p@,
            last == vs.len() - vp.len(),
            i <= last,
            forall|k: int| 0 <= k < i ==> !occurs_at(s@, p@, k),
        decreases last - i,
    {
        if matches_at(&vs, &vp, i) {
            assert(occurs_at(s@, p@, i as int));
            return true;
        }
        i = i + 1;
    }
    if matches_at(&vs, &vp, last) {
        assert(occurs_at(s@, p@, last as int));
        return true;
    }
    assert forall|k: int| !occurs_at(s@, p@, k) by {
        if 0 <= k < i {
        }
    }
    false
}

// ---------------------------------------------------------------------------
// Decimal formatting
// ---------------------------------------------------------------------------

/// The one-character text of a decimal digit.
fn digit_text(d: u64) -> (t: &'static str)
    requires
        d < 10,
    ensures
        t@ == seq![digit_char(d as int)],
{
    if d == 0 {
        proof {
            reveal_strlit("0");
        }
        "0"
    } else if d == 1 {
        proof {
            reveal_strlit("1");
        }
        "1"
    } else if d == 2 {
        proof {
            reveal_strlit("2");
        }
        "2"
    } else if d == 3 {
        proof {
            reveal_strlit("3");
        }
        "3"
    } else if d == 4 {
        proof {
            reveal_strlit("4");
        }
        "4"
    } else if d == 5 {
        proof {
            reveal_strlit("5");
        }
        "5"
    } else if d == 6 {
        proof {
            reveal_strlit("6");
        }
        "6"
    } else if d == 7 {
        proof {
            reveal_strlit("7");
        }
        "7"
    } else if d == 8 {
        proof {
            reveal_strlit("8");
        }
        "8"
    } else {
        proof {
            reveal_strlit("9");
        }
        "9"
    }
}

/// Appends the decimal representation of `n` to `out`.
pub fn push_decimal(out: &mut String, n: u64)
    ensures
        final(out)@ == old(out)@ + decimal(n as nat),
    decreases n,
{
    if n >= 10 {
        push_decimal(out, n / 10);
    }
    out.append(digit_text(n % 10));
}

/// The decimal representation of `n` (`u64::to_string`).
pub fn decimal_string(n: u64) -> (r: String)
    ensures
        r@ == decimal(n as nat),
{
    let mut r = String::new();
    push_decimal(&mut r, n);
    assert(r@ =~= decimal(n as nat));
    r
}

// ---------------------------------------------------------------------------
// Splitting
// ---------------------------------------------------------------------------

/// Whether `c` is whitespace (`char::is_whitespace`).
pub fn is_whitespace(c: char) -> (r: bool)
    ensures
        r == is_ws(c),
{
    let u = c as u32;
    (0x09 <= u && u <= 0x0d) || u == 0x20 || u == 0x85 || u == 0xa0 || u == 0x1680 || (0x2000
        <= u && u <= 0x200a) || u == 0x2028 || u == 0x2029 || u == 0x202f || u == 0x205f || u
        == 0x3000
}

impl Separator {
    /// Whether `c` separates two fields.
    pub fn cuts_at(&self, c: char) -> (r: bool)
        ensures
            r == self.cuts(c),
    {
        match self {
            Separator::Char(d) => c == *d,
            Separator::Whitespace => is_whitespace(c),
        }
    }
}

proof fn lemma_fields_non_empty(s: Seq<char>, sep: Separator)
    ensures
        fields(s, sep).len() >= 1,
    decreases s.len(),
{
    if s.len() > 0 {
        lemma_fields_non_empty(s.drop_last(), sep);
    }
}

/// The fields of `s` between separators (`str::split`).
pub fn split_fields(s: &str, sep: Separator) -> (r: Vec<String>)
    ensures
        views(r@) == fields(s@, sep),
{
    let cs = chars_of(s);
    let n = cs.len();
    let mut parts: Vec<String> = Vec::new();
    let mut start: usize = 0;
    let mut i: usize = 0;
    assert(s@.take(0) =~= Seq::<char>::empty());
    assert(s@.subrange(0, 0) =~= Seq::<char>::empty());
    while i < n
        invariant
            cs@ == s@,
            n == cs.len(),
            start <= i <= n,
            views(parts@).push(s@.subrange(start as int, i as int)) == fields(s@.take(i as int), sep),
        decreases n - i,
    {
        let c = cs[i];
        proof {
            assert(s@.take(i + 1).drop_last() =~= s@.take(i as int));
            assert(s@.take(i + 1).last() == c);
            lemma_fields_non_empty(s@.take(i as int), sep);
        }
        if sep.cuts_at(c) {
            let piece = s.substring_char(start, i).to_owned();
            let ghost before = views(parts@);
            parts.push(piece);
            proof {
                assert(views(parts@) =~= before.push(s@.subrange(start as int, i as int)));
                assert(s@.subrange(i + 1, i + 1) =~= Seq::<char>::empty());
            }
            start = i + 1;
        } else {
            proof {
                assert(s@.subrange(start as int, i + 1) =~= s@.subrange(start as int, i as int).push(c));
            }
        }
        i = i + 1;
    }
    let piece = s.substring_char(start, n).to_owned();
    let ghost before = views(parts@);
    parts.push(piece);
    proof {
        assert(views(parts@) =~= before.push(s@.subrange(start as int, n as int)));
        assert(s@.take(n as int) =~= s@);
    }
    parts
}

/// The whitespace-separated words of `s` (`str::split_whitespace`).
pub fn split_words(s: &str) -> (r: Vec<String>)
    ensures
        views(r@) == words(s@),
{
    let fs = split_fields(s, Separator::Whitespace);
    let ghost all = views(fs@);
    let mut r: Vec<String> = Vec::new();
    let mut i: usize = 0;
    assert(all.take(0) =~= Seq::<Seq<char>>::empty());
    while i < fs.len()
        invariant
            all == views(fs@),
            i <= fs.len(),
            views(r@) == non_empty(all.take(i as int)),
        decreases fs.len() - i,
    {
        proof {
            assert(all.take(i + 1).drop_last() =~= all.take(i as int));
        }
        let ghost before = views(r@);
        if !fs[i].as_str().is_empty() {
            r.push(fs[i].clone());
            proof {
                assert(views(r@) =~= before.push(all[i as int]));
            }
        }
        i = i + 1;
    }
    proof {
        assert(all.take(fs.len() as int) =~= all);
    }
    r
}

/// `l` without one trailing carriage return, if it has one.
fn without_cr(l: &str) -> (r: String)
    ensures
        r@ == strip_cr(l@),
{
    let len = l.unicode_len();
    if len > 0 && l.get_char(len - 1) == '\r' {
        l.substring_char(0, len - 1).to_owned()
    } else {
        l.to_owned()
    }
}

/// The lines of `s` (`str::lines`).
pub fn split_lines(s: &str) -> (r: Vec<String>)
    ensures
        views(r@) == lines(s@),
{
    let fs = split_fields(s, Separator::Char('\n'));
    let ghost all = views(fs@);
    proof {
        lemma_fields_non_empty(s@, Separator::Char('\n'));
    }
    let n = fs.len();
    let count = if fs[n - 1].as_str().is_empty() {
        n - 1
    } else {
        n
    };
    let mut r: Vec<String> = Vec::new();
    let mut i: usize = 0;
    while i < count
        invariant
            all == views(fs@),
            all == fields(s@, Separator::Char('\n')),
            n == fs.len(),
            count <= n,
            i <= count,
            count == lines(s@).len(),
            views(r@) =~= lines(s@).take(i as int),
        decreases count - i,
    {
        let ghost before = views(r@);
        if i < n - 1 {
            r.push(without_cr(fs[i].as_str()));
        } else {
            r.push(fs[i].clone());
        }
        proof {
            assert(views(r@) =~= before.push(lines(s@)[i as int]));
            assert(lines(s@).take(i + 1) =~= lines(s@).take(i as int).push(lines(s@)[i as int]));
        }
        i = i + 1;
    }
    r
}

// ---------------------------------------------------------------------------
// Trimming and removal
// ---------------------------------------------------------------------------

proof fn lemma_trim_start_at(s: Seq<char>, a: int)
    requires
        0 <= a <= s.len(),
        forall|k: int| 0 <= k < a ==> is_ws(s[k]),
        a < s.len() ==> !is_ws(s[a]),
    ensures
        trim_start(s) == s.subrange(a, s.len() as int),
    decreases a,
{
    if a > 0 {
        lemma_trim_start_at(s.drop_first(), a - 1);
        assert(s.drop_first().subrange(a - 1, s.len() - 1) =~= s.subrange(a, s.len() as int));
    } else {
        assert(s.subrange(0, s.len() as int) =~= s);
    }
}

proof fn lemma_trim_end_at(s: Seq<char>, b: int)
    requires
        0 <= b <= s.len(),
        forall|k: int| b <= k < s.len() ==> is_ws(s[k]),
        b > 0 ==> !is_ws(s[b - 1]),
    ensures
        trim_end(s) == s.subrange(0, b),
    decreases s.len() - b,
{
    if b < s.len() {
        lemma_trim_end_at(s.drop_last(), b);
        assert(s.drop_last().subrange(0, b) =~= s.subrange(0, b));
    } else {
        assert(s.subrange(0, s.len() as int) =~= s);
    }
}

/// `s` without leading and trailing whitespace (`str::trim`).
pub fn trim(s: &str) -> (r: String)
    ensures
        r@ == trimmed(s@),
{
    let cs = chars_of(s);
    let n = cs.len();
    let mut a: usize = 0;
    while a < n && is_whitespace(cs[a])
        invariant
            cs@ == s@,
            n == cs.len(),
            a <= n,
            forall|k: int| 0 <= k < a ==> is_ws(s@[k]),
        decreases n - a,
    {
        a = a + 1;
    }
    let mut b: usize = n;
    while b > a && is_whitespace(cs[b - 1])
        invariant
            cs@ == s@,
            n == cs.len(),
            a <= b <= n,
            forall|k: int| b <= k < n ==> is_ws(s@[k]),
        decreases b,
    {
        b = b - 1;
    }
    proof {
        lemma_trim_start_at(s@, a as int);
        let t = s@.subrange(a as int, n as int);
        lemma_trim_end_at(t, (b - a) as int);
        assert(t.subrange(0, (b - a) as int) =~= s@.subrange(a as int, b as int));
    }
    s.substring_char(a, b).to_owned()
}

/// `s` with every occurrence of the non-empty `p` removed (`str::replace(p, "")`).
pub fn remove_text(s: &str, p: &str) -> (r: String)
    requires
        p@.len() > 0,
    ensures
        r@ == remove_all(s@, p@),
{
    let cs = chars_of(s);
    let ps = chars_of(p);
    let n = cs.len();
    let mut out = String::new();
    let mut i: usize = 0;
    proof {
        assert(s@.subrange(0, n as int) =~= s@);
        assert(out@ + remove_all(s@, p@) =~= remove_all(s@, p@));
    }
    while i < n
        invariant
            cs@ == s@,
            ps@ == p@,
            p@.len() > 0,
            n == cs.len(),
            i <= n,
            out@ + remove_all(s@.subrange(i as int, n as int), p@) == remove_all(s@, p@),
        decreases n - i,
    {
        let ghost rest = s@.subrange(i as int, n as int);
        if matches_at(&cs, &ps, i) {
            proof {
                assert(rest.subrange(0, p@.len() as int) =~= s@.subrange(i as int, i + p@.len()));
                assert(rest.subrange(p@.len() as int, rest.len() as int) =~= s@.subrange(
                    i + p@.len(),
                    n as int,
                ));
            }
            i = i + ps.len();
        } else {
            proof {
                if has_prefix(rest, p@) {
                    assert(rest.subrange(0, p@.len() as int) =~= s@.subrange(
                        i as int,
                        i + p@.len(),
                    ));
                }
                assert(rest.drop_first() =~= s@.subrange(i + 1, n as int));
                assert(out@ + seq![rest[0]] + remove_all(rest.drop_first(), p@) =~= out@ + (seq![
                    rest[0],
                ] + remove_all(rest.drop_first(), p@)));
            }
            out.append(s.substring_char(i, i + 1));
            proof {
                assert(s@.subrange(i as int, i + 1) =~= seq![rest[0]]);
            }
            i = i + 1;
        }
    }
    proof {
        assert(s@.subrange(n as int, n as int) =~= Seq::<char>::empty());
        assert(out@ + Seq::<char>::empty() =~= out@);
    }
    out
}

// ---------------------------------------------------------------------------
// Laws
// ---------------------------------------------------------------------------

proof fn lemma_fields_avoid_separator(s: Seq<char>, sep: Separator)
    ensures
        forall|i: int, k: int|
            0 <= i < fields(s, sep).len() && 0 <= k < fields(s, sep)[i].len() ==> !sep.cuts(
                #[trigger] fields(s, sep)[i][k],
            ),
    decreases s.len(),
{
    if s.len() > 0 {
        lemma_fields_avoid_separator(s.drop_last(), sep);
        lemma_fields_non_empty(s.drop_last(), sep);
        let prev = fields(s.drop_last(), sep);
        if !sep.cuts(s.last()) {
            let cur = fields(s, sep);
            assert forall|i: int, k: int|
                0 <= i < cur.len() && 0 <= k < cur[i].len() implies !sep.cuts(#[trigger] cur[i][k]) by {
                if i < prev.len() - 1 {
                    assert(cur[i] == prev[i]);
                } else {
                    assert(cur[i] == prev.last().push(s.last()));
                    if k < prev.last().len() {
                        assert(cur[i][k] == prev[prev.len() - 1][k]);
                    }
                }
            }
        } else {
            let cur = fields(s, sep);
            assert forall|i: int, k: int|
                0 <= i < cur.len() && 0 <= k < cur[i].len() implies !sep.cuts(#[trigger] cur[i][k]) by {
                assert(cur[i] == prev[i]);
            }
        }
    }
}

proof fn lemma_non_empty_members(ss: Seq<Seq<char>>)
    ensures
        forall|i: int|
            0 <= i < non_empty(ss).len() ==> (#[trigger] non_empty(ss)[i]).len() > 0
                && ss.contains(non_empty(ss)[i]),
    decreases ss.len(),
{
    if ss.len() > 0 {
        lemma_non_empty_members(ss.drop_last());
        let prev = non_empty(ss.drop_last());
        assert forall|i: int| 0 <= i < non_empty(ss).len() implies (#[trigger] non_empty(
            ss,
        )[i]).len() > 0 && ss.contains(non_empty(ss)[i]) by {
            if i < prev.len() {
                assert(non_empty(ss)[i] == prev[i]);
                let k = choose|k: int| 0 <= k < ss.drop_last().len() && ss.drop_last()[k] == prev[i];
                assert(ss[k] == prev[i]);
            } else {
                assert(ss[ss.len() - 1] == ss.last());
            }
        }
    }
}

/// Every word of a text is non-empty and holds no whitespace.
pub proof fn law_words_are_clean(s: Seq<char>)
    ensures
        forall|i: int| 0 <= i < words(s).len() ==> (#[trigger] words(s)[i]).len() > 0,
        forall|i: int, k: int|
            0 <= i < words(s).len() && 0 <= k < words(s)[i].len() ==> !is_ws(
                #[trigger] words(s)[i][k],
            ),
{
    let fs = fields(s, Separator::Whitespace);
    lemma_non_empty_members(fs);
    lemma_fields_avoid_separator(s, Separator::Whitespace);
    assert forall|i: int, k: int|
        0 <= i < words(s).len() && 0 <= k < words(s)[i].len() implies !is_ws(
            #[trigger] words(s)[i][k],
        ) by {
        let w = words(s)[i];
        assert(fs.contains(w));
        let j = choose|j: int| 0 <= j < fs.len() && fs[j] == w;
        assert(!Separator::Whitespace.cuts(fs[j][k]));
    }
}

/// No line of a text holds a line feed.
pub proof fn law_lines_have_no_line_feed(s: Seq<char>)
    ensures
        forall|i: int, k: int|
            0 <= i < lines(s).len() && 0 <= k < lines(s)[i].len() ==> #[trigger] lines(s)[i][k]
                != '\n',
{
    let fs = fields(s, Separator::Char('\n'));
    lemma_fields_avoid_separator(s, Separator::Char('\n'));
    lemma_fields_non_empty(s, Separator::Char('\n'));
    assert forall|i: int, k: int|
        0 <= i < lines(s).len() && 0 <= k < lines(s)[i].len() implies #[trigger] lines(s)[i][k]
        != '\n' by {
        assert(!Separator::Char('\n').cuts(fs[i][k]));
        if lines(s)[i] != fs[i] {
            assert(lines(s)[i] == fs[i].drop_last());
            assert(lines(s)[i][k] == fs[i][k]);
        }
    }
}

proof fn lemma_trim_start_shape(s: Seq<char>)
    ensures
        trim_start(s).len() > 0 ==> !is_ws(trim_start(s)[0]),
        trim_start(s).len() <= s.len(),
        trim_start(s) == s.subrange(s.len() - trim_start(s).len(), s.len() as int),
    decreases s.len(),
{
    if s.len() > 0 && is_ws(s[0]) {
        lemma_trim_start_shape(s.drop_first());
        let t = trim_start(s.drop_first());
        assert(s.drop_first().subrange(s.len() - 1 - t.len(), s.len() - 1) =~= s.subrange(
            s.len() - t.len(),
            s.len() as int,
        ));
    } else {
        assert(s.subrange(0, s.len() as int) =~= s);
    }
}

proof fn lemma_trim_end_shape(s: Seq<char>)
    ensures
        trim_end(s).len() > 0 ==> !is_ws(trim_end(s).last()),
        trim_end(s).len() <= s.len(),
        trim_end(s) == s.subrange(0, trim_end(s).len() as int),
        s.len() > 0 && !is_ws(s[0]) ==> trim_end(s).len() > 0,
    decreases s.len(),
{
    if s.len() > 0 && is_ws(s.last()) {
        lemma_trim_end_shape(s.drop_last());
        let t = trim_end(s.drop_last());
        assert(s.drop_last().subrange(0, t.len() as int) =~= s.subrange(0, t.len() as int));
        if s.len() > 1 && !is_ws(s[0]) {
            assert(s.drop_last()[0] == s[0]);
        }
    } else {
        assert(s.subrange(0, s.len() as int) =~= s);
    }
}

/// A trimmed text neither starts nor ends with whitespace, and trimming it
/// again changes nothing.
pub proof fn law_trim_is_clean(s: Seq<char>)
    ensures
        trimmed(s).len() > 0 ==> !is_ws(trimmed(s)[0]) && !is_ws(trimmed(s).last()),
        trimmed(trimmed(s)) == trimmed(s),
{
    let a = trim_start(s);
    lemma_trim_start_shape(s);
    lemma_trim_end_shape(a);
    let t = trim_end(a);
    if t.len() > 0 {
        assert(t[0] == a[0]);
    }
    // trimming again: t starts and ends with non-whitespace (or is empty)
    if t.len() > 0 {
        assert(trim_start(t) == t);
        lemma_trim_end_at(t, t.len() as int);
        assert(t.subrange(0, t.len() as int) =~= t);
    } else {
        assert(trim_start(t) == t);
        assert(trim_end(t) == t);
    }
}

proof fn lemma_decimal_shape(n: nat)
    ensures
        decimal(n).len() >= 1,
        decimal(n).last() == digit_char((n % 10) as int),
        n >= 10 ==> decimal(n).drop_last() == decimal(n / 10),
        n < 10 ==> decimal(n).len() == 1,
        n >= 10 ==> decimal(n).len() >= 2,
    decreases n,
{
    if n >= 10 {
        lemma_decimal_shape(n / 10);
        assert(decimal(n).drop_last() =~= decimal(n / 10));
    }
}

/// Different numbers are written differently: the decimal representation
/// is injective.
pub proof fn law_decimal_injective(a: nat, b: nat)
    requires
        decimal(a) == decimal(b),
    ensures
        a == b,
    decreases a,
{
    lemma_decimal_shape(a);
    lemma_decimal_shape(b);
    assert(digit_char((a % 10) as int) == digit_char((b % 10) as int));
    assert(a % 10 == b % 10);
    if a >= 10 && b >= 10 {
        law_decimal_injective(a / 10, b / 10);
    }
}

} // verus!
