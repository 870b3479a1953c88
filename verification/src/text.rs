//! Verified text utilities: whitespace trimming and splitting, ASCII
//! lowercasing, prefix tests, and decimal rendering. All session input
//! normalization and protocol line handling is built on these.

use vstd::prelude::*;

verus! {

/// The whitespace characters the session recognizes: the ASCII ones that
/// line-oriented input can actually carry.
pub open spec fn is_ws_char(c: char) -> bool {
    c == ' ' || c == '\t' || c == '\r' || c == '\n'
}

#[verifier::when_used_as_spec(is_ws_char)]
pub fn ws_char(c: char) -> (r: bool)
    ensures
        r == is_ws_char(c),
{
    c == ' ' || c == '\t' || c == '\r' || c == '\n'
}

/// Relies on std's `String::push`: appends exactly one character.
#[verifier::external_body]
pub fn push_char(s: &mut String, c: char)
    ensures
        final(s)@ == old(s)@.push(c),
{
    s.push(c);
}

/// `s` with leading and trailing whitespace removed.
pub open spec fn trim_spec(s: Seq<char>) -> Seq<char>
    decreases s.len(),
{
    if s.len() == 0 {
        s
    } else if is_ws_char(s[0]) {
        trim_spec(s.drop_first())
    } else if is_ws_char(s.last()) {
        trim_spec(s.drop_last())
    } else {
        s
    }
}

/// `trim_spec` picks out any interior run whose flanks are all whitespace
/// and whose own ends are not.
proof fn lemma_trim_subrange(s: Seq<char>, i: int, j: int)
    requires
        0 <= i <= j <= s.len(),
        forall|k: int| 0 <= k < i ==> is_ws_char(s[k]),
        forall|k: int| j <= k < s.len() ==> is_ws_char(s[k]),
        i < j ==> !is_ws_char(s[i]) && !is_ws_char(s[j - 1]),
    ensures
        trim_spec(s) == s.subrange(i, j),
    decreases s.len(),
{
    if s.len() == 0 {
        assert(trim_spec(s) =~= s.subrange(i, j));
    } else if is_ws_char(s[0]) {
        let t = s.drop_first();
        if i == 0 {
            // s[0] is whitespace, so the range must be empty.
            assert(i == j);
            lemma_trim_subrange(t, 0, 0);
            assert(t.subrange(0, 0) =~= s.subrange(i, j));
        } else {
            lemma_trim_subrange(t, i - 1, j - 1);
            assert(t.subrange(i - 1, j - 1) =~= s.subrange(i, j));
        }
    } else if is_ws_char(s.last()) {
        let t = s.drop_last();
        if j == s.len() {
            // s.last() is whitespace, so the range must be empty.
            assert(i == j);
            lemma_trim_subrange(t, t.len() as int, t.len() as int);
            assert(t.subrange(t.len() as int, t.len() as int) =~= s.subrange(i, j));
        } else {
            lemma_trim_subrange(t, i, j);
            assert(t.subrange(i, j) =~= s.subrange(i, j));
        }
    } else {
        assert(i == 0);
        assert(j == s.len());
        assert(trim_spec(s) =~= s.subrange(i, j));
    }
}

/// A copy of `s` with leading and trailing whitespace removed.
pub fn trim(s: &str) -> (r: String)
    ensures
        r@ == trim_spec(s@),
{
    let n = s.unicode_len();
    let mut start: usize = 0;
    while start < n && ws_char(s.get_char(start))
        invariant
            start <= n,
            n == s@.len(),
            forall|k: int| 0 <= k < start ==> is_ws_char(s@[k]),
        decreases n - start,
    {
        start = start + 1;
    }
    let mut end: usize = n;
    while end > start && ws_char(s.get_char(end - 1))
        invariant
            start <= end <= n,
            n == s@.len(),
            forall|k: int| 0 <= k < start ==> is_ws_char(s@[k]),
            forall|k: int| end <= k < n ==> is_ws_char(s@[k]),
        decreases end,
    {
        end = end - 1;
    }
    proof {
        lemma_trim_subrange(s@, start as int, end as int);
    }
    let t = s.substring_char(start, end);
    t.to_owned()
}

/// ASCII lowercasing of one character; everything else is untouched.
pub open spec fn lower_char_spec(c: char) -> char {
    if 65 <= c as u32 && c as u32 <= 90 {
        (((c as u32) + 32) as u8) as char
    } else {
        c
    }
}

/// `s` with ASCII letters lowercased character by character.
pub open spec fn lower_spec(s: Seq<char>) -> Seq<char> {
    Seq::new(s.len(), |i: int| lower_char_spec(s[i]))
}

pub fn lower_char(c: char) -> (r: char)
    ensures
        r == lower_char_spec(c),
{
    let u = c as u32;
    if 65 <= u && u <= 90 {
        ((u + 32) as u8) as char
    } else {
        c
    }
}

/// A copy of `s` with ASCII letters lowercased.
pub fn to_ascii_lower(s: &str) -> (r: String)
    ensures
        r@ == lower_spec(s@),
{
    let n = s.unicode_len();
    let mut r = String::new();
    let mut i: usize = 0;
    while i < n
        invariant
            i <= n,
            n == s@.len(),
            r@ =~= lower_spec(s@).take(i as int),
        decreases n - i,
    {
        let c = lower_char(s.get_char(i));
        push_char(&mut r, c);
        i = i + 1;
        proof {
            assert(r@ =~= lower_spec(s@).take(i as int));
        }
    }
    proof {
        assert(lower_spec(s@).take(n as int) =~= lower_spec(s@));
    }
    r
}

/// The whitespace-separated tokens of `s`, with `cur` the partial token
/// already read.
pub open spec fn split_acc(s: Seq<char>, cur: Seq<char>) -> Seq<Seq<char>>
    decreases s.len(),
{
    if s.len() == 0 {
        if cur.len() == 0 {
            Seq::empty()
        } else {
            seq![cur]
        }
    } else if is_ws_char(s[0]) {
        if cur.len() == 0 {
            split_acc(s.drop_first(), Seq::empty())
        } else {
            seq![cur] + split_acc(s.drop_first(), Seq::empty())
        }
    } else {
        split_acc(s.drop_first(), cur.push(s[0]))
    }
}

/// The whitespace-separated tokens of `s`, in order, each nonempty.
pub open spec fn split_ws_spec(s: Seq<char>) -> Seq<Seq<char>> {
    split_acc(s, Seq::empty())
}

/// The whitespace-separated tokens of `s`.
pub fn split_ws(s: &str) -> (r: Vec<String>)
    ensures
        r@.len() == split_ws_spec(s@).len(),
        forall|k: int| 0 <= k < r@.len() ==> r@[k]@ == split_ws_spec(s@)[k],
{
    let n = s.unicode_len();
    let mut out: Vec<String> = Vec::new();
    let mut cur = String::new();
    proof {
        assert(s@.skip(0) =~= s@);
        assert(out@.map_values(|t: String| t@) + split_acc(s@, cur@) =~= split_ws_spec(s@));
    }
    let mut i: usize = 0;
    while i < n
        invariant
            i <= n,
            n == s@.len(),
            split_ws_spec(s@) =~= out@.map_values(|t: String| t@) + split_acc(
                s@.skip(i as int),
                cur@,
            ),
        decreases n - i,
    {
        let c = s.get_char(i);
        let ghost rest = s@.skip(i as int);
        proof {
            assert(rest.drop_first() =~= s@.skip(i as int + 1));
            assert(rest[0] == s@[i as int]);
        }
        if ws_char(c) {
            if cur.unicode_len() > 0 {
                let ghost old_out = out@;
                let ghost old_cur = cur@;
                out.push(cur);
                cur = String::new();
                proof {
                    assert(split_acc(rest, old_cur) =~= seq![old_cur] + split_acc(
                        rest.drop_first(),
                        Seq::empty(),
                    ));
                    assert(out@.map_values(|t: String| t@) =~= old_out.map_values(
                        |t: String| t@,
                    ).push(old_cur));
                    assert(out@.map_values(|t: String| t@) + split_acc(
                        s@.skip(i as int + 1),
                        cur@,
                    ) =~= old_out.map_values(|t: String| t@) + split_acc(rest, old_cur));
                }
            } else {
                proof {
                    assert(split_acc(rest, cur@) == split_acc(rest.drop_first(), Seq::empty()));
                    assert(cur@ =~= Seq::<char>::empty());
                }
            }
        } else {
            let ghost old_cur = cur@;
            push_char(&mut cur, c);
            proof {
                assert(split_acc(rest, old_cur) == split_acc(rest.drop_first(), old_cur.push(
                    rest[0],
                )));
                assert(cur@ =~= old_cur.push(rest[0]));
            }
        }
        i = i + 1;
    }
    proof {
        assert(s@.skip(n as int) =~= Seq::<char>::empty());
    }
    if cur.unicode_len() > 0 {
        let ghost old_out = out@;
        let ghost old_cur = cur@;
        out.push(cur);
        proof {
            assert(out@.map_values(|t: String| t@) =~= old_out.map_values(|t: String| t@).push(
                old_cur,
            ));
            assert(out@.map_values(|t: String| t@) =~= split_ws_spec(s@));
        }
    }
    proof {
        assert(forall|k: int|
            0 <= k < out@.len() ==> #[trigger] out@[k]@ == out@.map_values(|t: String| t@)[k]);
    }
    out
}

/// `p` is a prefix of `s`.
pub open spec fn is_prefix(p: Seq<char>, s: Seq<char>) -> bool {
    p.len() <= s.len() && s.take(p.len() as int) == p
}

pub fn starts_with(s: &str, p: &str) -> (r: bool)
    ensures
        r == is_prefix(p@, s@),
{
    let np = p.unicode_len();
    let ns = s.unicode_len();
    if np > ns {
        assert(!is_prefix(p@, s@));
        return false;
    }
    let mut i: usize = 0;
    while i < np
        invariant
            i <= np <= ns,
            np == p@.len(),
            ns == s@.len(),
            forall|k: int| 0 <= k < i ==> s@[k] == p@[k],
        decreases np - i,
    {
        if s.get_char(i) != p.get_char(i) {
            assert(s@.take(np as int)[i as int] != p@[i as int]);
            return false;
        }
        i = i + 1;
    }
    proof {
        assert(s@.take(np as int) =~= p@);
    }
    true
}

/// The two views are equal character for character.
pub fn str_eq(a: &str, b: &str) -> (r: bool)
    ensures
        r == (a@ == b@),
{
    let na = a.unicode_len();
    let nb = b.unicode_len();
    if na != nb {
        return false;
    }
    let mut i: usize = 0;
    while i < na
        invariant
            i <= na,
            na == a@.len() == b@.len(),
            forall|k: int| 0 <= k < i ==> a@[k] == b@[k],
        decreases na - i,
    {
        if a.get_char(i) != b.get_char(i) {
            return false;
        }
        i = i + 1;
    }
    proof {
        assert(a@ =~= b@);
    }
    true
}

/// The decimal digit character for `d`.
pub open spec fn digit_char(d: int) -> char {
    ((48 + d) as u8) as char
}

/// The decimal rendering of `n`, most significant digit first, no sign and
/// no leading zeros (a lone zero for 0).
pub open spec fn dec_spec(n: int) -> Seq<char>
    decreases n,
{
    if n < 10 {
        seq![digit_char(n)]
    } else {
        dec_spec(n / 10).push(digit_char(n % 10))
    }
}

/// The decimal rendering of `n`.
pub fn u64_text(n: u64) -> (r: String)
    ensures
        r@ == dec_spec(n as int),
    decreases n,
{
    if n < 10 {
        let mut r = String::new();
        push_char(&mut r, ((48 + (n as u8)) as u8) as char);
        proof {
            assert(r@ =~= dec_spec(n as int));
        }
        r
    } else {
        let mut r = u64_text(n / 10);
        push_char(&mut r, (48 + ((n % 10) as u8)) as char);
        r
    }
}

} // verus!
