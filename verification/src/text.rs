//! Verified text utilities over character sequences: splitting, trimming,
//! token extraction, search-and-replace, and decimal parsing.  The manifest
//! parser, the config patcher and the management-interface parser are all
//! built on these.
use vstd::prelude::*;

verus! {

/// Horizontal whitespace inside a line.
pub open spec fn is_space(c: char) -> bool {
    c == ' ' || c == '\t' || c == '\r'
}

/// Characters trimmed from the ends of a whole response body.
pub open spec fn is_outer_space(c: char) -> bool {
    is_space(c) || c == '\n'
}

/// Split `s` at every character satisfying `sep`.  Always returns at least
/// one segment; separators are not part of any segment; `k` separators yield
/// `k + 1` segments (empty segments included).
pub open spec fn split_when(s: Seq<char>, sep: spec_fn(char) -> bool) -> Seq<Seq<char>>
    decreases s.len(),
{
    if s.len() == 0 {
        seq![Seq::<char>::empty()]
    } else {
        let rest = split_when(s.skip(1), sep);
        if sep(s[0]) {
            seq![Seq::<char>::empty()] + rest
        } else {
            seq![seq![s[0]] + rest[0]] + rest.skip(1)
        }
    }
}

pub proof fn lemma_split_when_len(s: Seq<char>, sep: spec_fn(char) -> bool)
    ensures
        split_when(s, sep).len() >= 1,
    decreases s.len(),
{
    if s.len() > 0 {
        lemma_split_when_len(s.skip(1), sep);
    }
}

/// The segments still owed by a scan that has produced `done`, is in the
/// middle of segment `cur`, and has `rest` as the split of the unread suffix.
pub open spec fn split_scan(done: Seq<Seq<char>>, cur: Seq<char>, rest: Seq<Seq<char>>) -> Seq<
    Seq<char>,
> {
    done + seq![cur + rest[0]] + rest.skip(1)
}

proof fn lemma_split_scan_step(
    s: Seq<char>,
    sep: spec_fn(char) -> bool,
    done: Seq<Seq<char>>,
    cur: Seq<char>,
    i: int,
)
    requires
        0 <= i < s.len(),
    ensures
        sep(s[i]) ==> split_scan(done, cur, split_when(s.skip(i), sep)) == split_scan(
            done.push(cur),
            Seq::<char>::empty(),
            split_when(s.skip(i + 1), sep),
        ),
        !sep(s[i]) ==> split_scan(done, cur, split_when(s.skip(i), sep)) == split_scan(
            done,
            cur.push(s[i]),
            split_when(s.skip(i + 1), sep),
        ),
{
    let suf = s.skip(i);
    assert(suf.len() > 0);
    assert(suf[0] == s[i]);
    assert(suf.skip(1) =~= s.skip(i + 1));
    let rest = split_when(s.skip(i + 1), sep);
    lemma_split_when_len(s.skip(i + 1), sep);
    if sep(s[i]) {
        assert(split_when(suf, sep) == seq![Seq::<char>::empty()] + rest);
        assert((seq![Seq::<char>::empty()] + rest)[0] =~= Seq::<char>::empty());
        assert((seq![Seq::<char>::empty()] + rest).skip(1) =~= rest);
        assert(split_scan(done, cur, split_when(suf, sep)) =~= split_scan(
            done.push(cur),
            Seq::<char>::empty(),
            rest,
        ));
    } else {
        assert(split_when(suf, sep) == seq![seq![s[i]] + rest[0]] + rest.skip(1));
        assert((seq![seq![s[i]] + rest[0]] + rest.skip(1))[0] == seq![s[i]] + rest[0]);
        assert((seq![seq![s[i]] + rest[0]] + rest.skip(1)).skip(1) =~= rest.skip(1));
        assert(cur + (seq![s[i]] + rest[0]) =~= cur.push(s[i]) + rest[0]);
        assert(split_scan(done, cur, split_when(suf, sep)) =~= split_scan(
            done,
            cur.push(s[i]),
            rest,
        ));
    }
}

/// Split `s` at every occurrence of the character `sep`.
pub fn split_char(s: &str, sep: char) -> (r: Vec<String>)
    ensures
        r.deep_view() == split_when(s@, |c: char| c == sep),
{
    let ghost p = |c: char| c == sep;
    let n = s.unicode_len();
    let mut done: Vec<String> = Vec::new();
    let mut cur = String::new();
    let mut i: usize = 0;
    proof {
        assert(s@.skip(0) =~= s@);
    }
    while i < n
        invariant
            n == s@.len(),
            i <= n,
            p == (|c: char| c == sep),
            split_scan(done.deep_view(), cur@, split_when(s@.skip(i as int), p)) == split_when(
                s@,
                p,
            ),
        decreases n - i,
    {
        let ghost old_done = done.deep_view();
        let ghost old_cur = cur@;
        proof {
            lemma_split_scan_step(s@, p, done.deep_view(), cur@, i as int);
        }
        let c = s.get_char(i);
        if c == sep {
            done.push(cur);
            cur = String::new();
            proof {
                assert(done.deep_view() =~= old_done.push(old_cur));
            }
        } else {
            let piece = s.substring_char(i, i + 1);
            proof {
                assert(piece@ =~= seq![s@[i as int]]);
            }
            cur.append(piece);
            proof {
                assert(cur@ =~= old_cur.push(s@[i as int]));
            }
        }
        i = i + 1;
    }
    proof {
        assert(s@.skip(n as int) =~= Seq::<char>::empty());
        assert(split_when(Seq::<char>::empty(), p) == seq![Seq::<char>::empty()]);
        assert(split_scan(done.deep_view(), cur@, seq![Seq::<char>::empty()]) =~= done.deep_view()
            + seq![cur@]);
    }
    let ghost old_done = done.deep_view();
    let ghost old_cur = cur@;
    done.push(cur);
    proof {
        assert(done.deep_view() =~= old_done.push(old_cur));
        assert(old_done.push(old_cur) =~= old_done + seq![old_cur]);
    }
    done
}

/// Split `s` at every horizontal-whitespace character.
pub fn split_spaces(s: &str) -> (r: Vec<String>)
    ensures
        r.deep_view() == split_when(s@, |c: char| is_space(c)),
{
    let ghost p = |c: char| is_space(c);
    let n = s.unicode_len();
    let mut done: Vec<String> = Vec::new();
    let mut cur = String::new();
    let mut i: usize = 0;
    proof {
        assert(s@.skip(0) =~= s@);
    }
    while i < n
        invariant
            n == s@.len(),
            i <= n,
            p == (|c: char| is_space(c)),
            split_scan(done.deep_view(), cur@, split_when(s@.skip(i as int), p)) == split_when(
                s@,
                p,
            ),
        decreases n - i,
    {
        let ghost old_done = done.deep_view();
        let ghost old_cur = cur@;
        proof {
            lemma_split_scan_step(s@, p, done.deep_view(), cur@, i as int);
        }
        let c = s.get_char(i);
        if c == ' ' || c == '\t' || c == '\r' {
            done.push(cur);
            cur = String::new();
            proof {
                assert(done.deep_view() =~= old_done.push(old_cur));
            }
        } else {
            let piece = s.substring_char(i, i + 1);
            proof {
                assert(piece@ =~= seq![s@[i as int]]);
            }
            cur.append(piece);
            proof {
                assert(cur@ =~= old_cur.push(s@[i as int]));
            }
        }
        i = i + 1;
    }
    proof {
        assert(s@.skip(n as int) =~= Seq::<char>::empty());
        assert(split_scan(done.deep_view(), cur@, seq![Seq::<char>::empty()]) =~= done.deep_view()
            + seq![cur@]);
    }
    let ghost old_done = done.deep_view();
    let ghost old_cur = cur@;
    done.push(cur);
    proof {
        assert(done.deep_view() =~= old_done.push(old_cur));
        assert(old_done.push(old_cur) =~= old_done + seq![old_cur]);
    }
    done
}

/// The non-empty segments, in order.
pub open spec fn non_empty_segments(segs: Seq<Seq<char>>) -> Seq<Seq<char>>
    decreases segs.len(),
{
    if segs.len() == 0 {
        Seq::empty()
    } else if segs[0].len() == 0 {
        non_empty_segments(segs.skip(1))
    } else {
        seq![segs[0]] + non_empty_segments(segs.skip(1))
    }
}

/// The whitespace-separated tokens of one line.
pub open spec fn tokens(line: Seq<char>) -> Seq<Seq<char>> {
    non_empty_segments(split_when(line, |c: char| is_space(c)))
}

/// Extract the whitespace-separated tokens of `line`.
pub fn line_tokens(line: &str) -> (r: Vec<String>)
    ensures
        r.deep_view() == tokens(line@),
{
    let segs = split_spaces(line);
    let mut out: Vec<String> = Vec::new();
    let mut i: usize = 0;
    proof {
        assert(segs.deep_view().skip(0) =~= segs.deep_view());
    }
    while i < segs.len()
        invariant
            i <= segs.len(),
            segs.deep_view().len() == segs.len(),
            out.deep_view() + non_empty_segments(segs.deep_view().skip(i as int))
                == non_empty_segments(segs.deep_view()),
        decreases segs.len() - i,
    {
        let ghost old_out = out.deep_view();
        let ghost suf = segs.deep_view().skip(i as int);
        proof {
            assert(suf.len() > 0);
            assert(suf[0] == segs.deep_view()[i as int]);
            assert(suf.skip(1) =~= segs.deep_view().skip(i as int + 1));
        }
        let seg = &segs[i];
        if seg.as_str().unicode_len() > 0 {
            out.push(seg.clone());
            proof {
                assert(out.deep_view() =~= old_out.push(segs.deep_view()[i as int]));
                assert(old_out.push(suf[0]) =~= old_out + seq![suf[0]]);
                assert(old_out + (seq![suf[0]] + non_empty_segments(suf.skip(1))) =~= (old_out
                    + seq![suf[0]]) + non_empty_segments(suf.skip(1)));
            }
        }
        i = i + 1;
    }
    proof {
        assert(segs.deep_view().skip(segs.deep_view().len() as int) =~= Seq::<Seq<char>>::empty());
        assert(out.deep_view() + non_empty_segments(Seq::<Seq<char>>::empty()) =~= out.deep_view());
    }
    out
}

/// `s` without its leading trimmable characters.
pub open spec fn trim_front(s: Seq<char>) -> Seq<char>
    decreases s.len(),
{
    if s.len() > 0 && is_outer_space(s[0]) {
        trim_front(s.skip(1))
    } else {
        s
    }
}

/// `s` without its trailing trimmable characters.
pub open spec fn trim_back(s: Seq<char>) -> Seq<char>
    decreases s.len(),
{
    if s.len() > 0 && is_outer_space(s[s.len() - 1]) {
        trim_back(s.drop_last())
    } else {
        s
    }
}

/// `s` without leading and trailing whitespace (newlines included).
pub open spec fn trimmed(s: Seq<char>) -> Seq<char> {
    trim_back(trim_front(s))
}

proof fn lemma_trim_front_skip(s: Seq<char>, a: int)
    requires
        0 <= a <= s.len(),
        forall|j: int| 0 <= j < a ==> is_outer_space(s[j]),
        a == s.len() || !is_outer_space(s[a]),
    ensures
        trim_front(s) == s.skip(a),
    decreases a,
{
    if a == 0 {
        assert(s.skip(0) =~= s);
    } else {
        assert(is_outer_space(s[0]));
        let t = s.skip(1);
        assert(forall|j: int| 0 <= j < a - 1 ==> t[j] == s[j + 1] && is_outer_space(t[j]));
        lemma_trim_front_skip(t, a - 1);
        assert(t.skip(a - 1) =~= s.skip(a));
    }
}

proof fn lemma_trim_back_take(s: Seq<char>, b: int)
    requires
        0 <= b <= s.len(),
        forall|j: int| b <= j < s.len() ==> is_outer_space(s[j]),
        b == 0 || !is_outer_space(s[b - 1]),
    ensures
        trim_back(s) == s.take(b),
    decreases s.len(),
{
    if b == s.len() {
        assert(s.take(b) =~= s);
    } else {
        assert(is_outer_space(s[s.len() - 1]));
        let t = s.drop_last();
        assert(t =~= s.take(s.len() - 1));
        lemma_trim_back_take(t, b);
        assert(t.take(b) =~= s.take(b));
    }
}

fn outer_space_at(s: &str, i: usize) -> (r: bool)
    requires
        i < s@.len(),
    ensures
        r == is_outer_space(s@[i as int]),
{
    let c = s.get_char(i);
    c == ' ' || c == '\t' || c == '\r' || c == '\n'
}

/// Copy of `s` without leading and trailing whitespace.
pub fn trim_str(s: &str) -> (r: String)
    ensures
        r@ == trimmed(s@),
{
    let n = s.unicode_len();
    let mut a: usize = 0;
    while a < n && outer_space_at(s, a)
        invariant
            n == s@.len(),
            a <= n,
            forall|j: int| 0 <= j < a ==> is_outer_space(s@[j]),
        decreases n - a,
    {
        a = a + 1;
    }
    proof {
        lemma_trim_front_skip(s@, a as int);
    }
    let mut b: usize = n;
    while b > a && outer_space_at(s, b - 1)
        invariant
            n == s@.len(),
            a <= b <= n,
            forall|j: int| b <= j < n ==> is_outer_space(s@[j]),
        decreases b,
    {
        b = b - 1;
    }
    proof {
        let t = s@.skip(a as int);
        assert(forall|j: int| b - a <= j < t.len() ==> t[j] == s@[j + a] && is_outer_space(t[j]));
        if b > a {
            assert(t[b - a - 1] == s@[b as int - 1]);
        }
        lemma_trim_back_take(t, b - a);
        assert(t.take(b - a) =~= s@.subrange(a as int, b as int));
    }
    let piece = s.substring_char(a, b);
    piece.to_owned()
}

/// Whether `pat` occurs in `s` starting at position `i`.
pub open spec fn matches_at_spec(s: Seq<char>, i: int, pat: Seq<char>) -> bool {
    i + pat.len() <= s.len() && s.subrange(i, i + pat.len()) == pat
}

/// Compare `pat` against `s` at position `i`.
pub fn matches_at(s: &str, i: usize, pat: &str) -> (r: bool)
    requires
        i <= s@.len(),
    ensures
        r == matches_at_spec(s@, i as int, pat@),
{
    let n = s.unicode_len();
    let p = pat.unicode_len();
    if p > n - i {
        return false;
    }
    let mut j: usize = 0;
    while j < p
        invariant
            n == s@.len(),
            p == pat@.len(),
            i + p <= n,
            j <= p,
            forall|k: int| 0 <= k < j ==> s@[i + k] == pat@[k],
        decreases p - j,
    {
        if s.get_char(i + j) != pat.get_char(j) {
            proof {
                assert(s@.subrange(i as int, i as int + pat@.len())[j as int] != pat@[j as int]);
            }
            return false;
        }
        j = j + 1;
    }
    proof {
        assert(s@.subrange(i as int, i as int + pat@.len()) =~= pat@);
    }
    true
}

/// Whether the two strings hold the same characters.
pub fn str_eq(a: &str, b: &str) -> (r: bool)
    ensures
        r == (a@ == b@),
{
    let na = a.unicode_len();
    let nb = b.unicode_len();
    if na != nb {
        return false;
    }
    let r = matches_at(a, 0, b);
    proof {
        assert(a@.subrange(0, a@.len() as int) =~= a@);
    }
    r
}

/// Whether `s` begins with `pat`.
pub fn starts_with(s: &str, pat: &str) -> (r: bool)
    ensures
        r == (pat@.len() <= s@.len() && s@.take(pat@.len() as int) == pat@),
{
    let r = matches_at(s, 0, pat);
    proof {
        if pat@.len() <= s@.len() {
            assert(s@.subrange(0, pat@.len() as int) =~= s@.take(pat@.len() as int));
        }
    }
    r
}

/// The suffix of `s` from position `i` on, with every occurrence of `pat`
/// replaced by `rep`, scanning left to right without overlap.
pub open spec fn replace_from(s: Seq<char>, pat: Seq<char>, rep: Seq<char>, i: int) -> Seq<char>
    decreases s.len() - i,
{
    if i < 0 || i >= s.len() {
        Seq::empty()
    } else if pat.len() > 0 && matches_at_spec(s, i, pat) {
        rep + replace_from(s, pat, rep, i + pat.len() as int)
    } else {
        seq![s[i]] + replace_from(s, pat, rep, i + 1)
    }
}

/// `s` with every occurrence of `pat` replaced by `rep`, scanning left to
/// right without overlap.
pub open spec fn replace_all(s: Seq<char>, pat: Seq<char>, rep: Seq<char>) -> Seq<char> {
    replace_from(s, pat, rep, 0)
}

/// Replace every occurrence of `pat` in `s` by `rep`.
pub fn replace_str(s: &str, pat: &str, rep: &str) -> (r: String)
    requires
        pat@.len() > 0,
    ensures
        r@ == replace_all(s@, pat@, rep@),
{
    let n = s.unicode_len();
    let p = pat.unicode_len();
    let mut out = String::new();
    let mut i: usize = 0;
    while i < n
        invariant
            n == s@.len(),
            p == pat@.len(),
            p > 0,
            i <= n,
            out@ + replace_from(s@, pat@, rep@, i as int) == replace_all(s@, pat@, rep@),
        decreases n - i,
    {
        let ghost old_out = out@;
        if matches_at(s, i, pat) {
            out.append(rep);
            proof {
                assert(old_out + (rep@ + replace_from(s@, pat@, rep@, i + pat@.len())) =~= (old_out
                    + rep@) + replace_from(s@, pat@, rep@, i + pat@.len()));
            }
            i = i + p;
        } else {
            let piece = s.substring_char(i, i + 1);
            proof {
                assert(piece@ =~= seq![s@[i as int]]);
            }
            out.append(piece);
            proof {
                assert(old_out + (seq![s@[i as int]] + replace_from(s@, pat@, rep@, i + 1))
                    =~= (old_out + seq![s@[i as int]]) + replace_from(s@, pat@, rep@, i + 1));
            }
            i = i + 1;
        }
    }
    proof {
        assert(out@ + Seq::<char>::empty() =~= out@);
    }
    out
}

/// Whether `c` is a decimal digit.
pub open spec fn is_digit(c: char) -> bool {
    48 <= c as u32 <= 57
}

/// Whether `s` consists of decimal digits only.
pub open spec fn all_digits(s: Seq<char>) -> bool {
    forall|i: int| 0 <= i < s.len() ==> is_digit(s[i])
}

/// The number the digit string `s` denotes.
pub open spec fn digits_val(s: Seq<char>) -> nat
    decreases s.len(),
{
    if s.len() == 0 {
        0
    } else {
        (digits_val(s.drop_last()) * 10 + (s.last() as u32 - 48)) as nat
    }
}

/// How strict decimal parsing goes: the value, if `s` is one or more digits
/// (no sign, no other characters) and the value is at most `max`.
pub open spec fn parse_decimal_spec(s: Seq<char>, max: u64) -> Option<u64> {
    if s.len() > 0 && all_digits(s) && digits_val(s) <= max {
        Some(digits_val(s) as u64)
    } else {
        None
    }
}

proof fn lemma_digits_val_monotone(s: Seq<char>, i: int)
    requires
        all_digits(s),
        0 <= i <= s.len(),
    ensures
        digits_val(s.take(i)) <= digits_val(s),
    decreases s.len(),
{
    if i < s.len() {
        let t = s.drop_last();
        assert(forall|j: int| 0 <= j < t.len() ==> t[j] == s[j]);
        lemma_digits_val_monotone(t, i);
        assert(t.take(i) =~= s.take(i));
    } else {
        assert(s.take(i) =~= s);
    }
}

/// Parse `s` as an unsigned decimal number of at most `max`.
pub fn parse_decimal(s: &str, max: u64) -> (r: Option<u64>)
    ensures
        r == parse_decimal_spec(s@, max),
{
    let n = s.unicode_len();
    if n == 0 {
        return None;
    }
    let mut val: u128 = 0;
    let mut i: usize = 0;
    while i < n
        invariant
            n == s@.len(),
            0 < n,
            i <= n,
            forall|j: int| 0 <= j < i ==> is_digit(s@[j]),
            val == digits_val(s@.take(i as int)),
            val <= max,
        decreases n - i,
    {
        let c = s.get_char(i);
        let v = c as u32;
        if v < 48 || v > 57 {
            return None;
        }
        let d = (v - 48) as u128;
        let next = val * 10 + d;
        proof {
            assert(s@.take(i as int + 1).drop_last() =~= s@.take(i as int));
            assert(s@.take(i as int + 1).last() == s@[i as int]);
        }
        if next > max as u128 {
            proof {
                if all_digits(s@) {
                    lemma_digits_val_monotone(s@, i as int + 1);
                }
            }
            return None;
        }
        val = next;
        i = i + 1;
    }
    proof {
        assert(s@.take(n as int) =~= s@);
    }
    Some(val as u64)
}

} // verus!
