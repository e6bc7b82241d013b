use vstd::prelude::*;
use vstd::string::*;

verus! {

/// Unicode `White_Space`: the characters `char::is_whitespace` accepts.
pub open spec fn white_space(c: char) -> bool {
    let u = c as u32;
    ||| 0x09 <= u <= 0x0d
    ||| u == 0x20
    ||| u == 0x85
    ||| u == 0xa0
    ||| u == 0x1680
    ||| 0x2000 <= u <= 0x200a
    ||| u == 0x2028
    ||| u == 0x2029
    ||| u == 0x202f
    ||| u == 0x205f
    ||| u == 0x3000
}

/// A text is blank when every one of its characters is white space
/// (so trimming it leaves nothing).
pub open spec fn blank(s: Seq<char>) -> bool {
    forall|i: int| 0 <= i < s.len() ==> white_space(#[trigger] s[i])
}

/// Whether `c` has the Unicode `White_Space` property, as
/// `char::is_whitespace` decides it.
pub fn char_is_whitespace(c: char) -> (b: bool)
    ensures
        b == white_space(c),
{
    let u = c as u32;
    (0x09 <= u && u <= 0x0d) || u == 0x20 || u == 0x85 || u == 0xa0 || u == 0x1680
        || (0x2000 <= u && u <= 0x200a) || u == 0x2028 || u == 0x2029 || u == 0x202f
        || u == 0x205f || u == 0x3000
}

/// Whether `s` holds nothing but white space (the empty text included).
pub fn is_blank(s: &str) -> (b: bool)
    ensures
        b == blank(s@),
{
    let n = s.unicode_len();
    let mut i: usize = 0;
    while i < n
        invariant
            n == s@.len(),
            i <= n,
            forall|j: int| 0 <= j < i ==> white_space(#[trigger] s@[j]),
        decreases n - i,
    {
        let c = s.get_char(i);
        if !char_is_whitespace(c) {
            return false;
        }
        i = i + 1;
    }
    true
}

/// Whether two texts hold the same characters.
pub fn same_text(a: &str, b: &str) -> (r: bool)
    ensures
        r == (a@ == b@),
{
    let n = a.unicode_len();
    if n != b.unicode_len() {
        return false;
    }
    let mut i: usize = 0;
    while i < n
        invariant
            n == a@.len(),
            n == b@.len(),
            i <= n,
            forall|j: int| 0 <= j < i ==> a@[j] == b@[j],
        decreases n - i,
    {
        if a.get_char(i) != b.get_char(i) {
            return false;
        }
        i = i + 1;
    }
    assert(a@ =~= b@);
    true
}

/// `s` without any `/` at its end.
pub open spec fn trim_end_slashes(s: Seq<char>) -> Seq<char>
    decreases s.len(),
{
    if s.len() > 0 && s.last() == '/' {
        trim_end_slashes(s.drop_last())
    } else {
        s
    }
}

/// Trailing slashes never matter: the text with one more slash at its end
/// trims to the same text.
pub proof fn lemma_trim_end_slashes_absorbs_slash(s: Seq<char>)
    ensures
        trim_end_slashes(s.push('/')) == trim_end_slashes(s),
{
    assert(s.push('/').drop_last() =~= s);
}

/// The trimmed text is the beginning of the original.
pub proof fn lemma_trim_end_slashes_prefix(s: Seq<char>)
    ensures
        trim_end_slashes(s).len() <= s.len(),
        trim_end_slashes(s) == s.subrange(0, trim_end_slashes(s).len() as int),
    decreases s.len(),
{
    if s.len() > 0 && s.last() == '/' {
        lemma_trim_end_slashes_prefix(s.drop_last());
        let t = trim_end_slashes(s.drop_last());
        assert(s.drop_last().subrange(0, t.len() as int) =~= s.subrange(0, t.len() as int));
    } else {
        assert(s.subrange(0, s.len() as int) =~= s);
    }
}

/// `needle` occurs somewhere in `hay`.
pub open spec fn occurs_in(needle: Seq<char>, hay: Seq<char>) -> bool {
    exists|i: int|
        0 <= i && i + needle.len() <= hay.len() && #[trigger] hay.subrange(i, i + needle.len()) == needle
}

/// `needle` runs across the joint of `a + b`: a non-empty end of `a`
/// followed by a non-empty start of `b` spells it.
pub open spec fn straddles(needle: Seq<char>, a: Seq<char>, b: Seq<char>) -> bool {
    exists|k: int|
        0 < k < needle.len() && k <= a.len() && needle.len() - k <= b.len()
            && #[trigger] a.subrange(a.len() - k, a.len() as int) == needle.take(k)
            && b.subrange(0, needle.len() - k) == needle.skip(k)
}

/// What occurs in a concatenation occurs in one part or across the joint.
pub proof fn lemma_occurs_in_concat(needle: Seq<char>, a: Seq<char>, b: Seq<char>)
    requires
        occurs_in(needle, a + b),
    ensures
        occurs_in(needle, a) || occurs_in(needle, b) || straddles(needle, a, b),
{
    let n = needle.len() as int;
    let ab = a + b;
    let i = choose|i: int| 0 <= i && i + n <= ab.len() && #[trigger] ab.subrange(i, i + n) == needle;
    if i + n <= a.len() {
        assert(a.subrange(i, i + n) =~= ab.subrange(i, i + n));
    } else if i >= a.len() {
        let j = i - a.len();
        assert(b.subrange(j, j + n) =~= ab.subrange(i, i + n));
    } else {
        let k = a.len() - i;
        assert(a.subrange(a.len() - k, a.len() as int) =~= needle.take(k));
        assert(b.subrange(0, n - k) =~= needle.skip(k));
    }
}

/// What occurs in the trimmed text occurs in the original.
pub proof fn lemma_occurs_in_trimmed(needle: Seq<char>, s: Seq<char>)
    requires
        occurs_in(needle, trim_end_slashes(s)),
    ensures
        occurs_in(needle, s),
{
    lemma_trim_end_slashes_prefix(s);
    let t = trim_end_slashes(s);
    let n = needle.len() as int;
    let i = choose|i: int| 0 <= i && i + n <= t.len() && #[trigger] t.subrange(i, i + n) == needle;
    assert(s.subrange(i, i + n) =~= t.subrange(i, i + n));
}

/// `s` with its trailing `/` characters removed.
pub fn without_trailing_slashes(s: &str) -> (r: String)
    ensures
        r@ == trim_end_slashes(s@),
{
    let n = s.unicode_len();
    let mut end: usize = n;
    proof {
        assert(s@.subrange(0, n as int) =~= s@);
    }
    while end > 0 && s.get_char(end - 1) == '/'
        invariant
            n == s@.len(),
            end <= n,
            trim_end_slashes(s@.subrange(0, end as int)) == trim_end_slashes(s@),
        decreases end,
    {
        proof {
            assert(s@.subrange(0, end as int).drop_last() =~= s@.subrange(0, end - 1));
        }
        end = end - 1;
    }
    let kept = s.substring_char(0, end);
    String::from_str(kept)
}

/// The first `n` characters of `s` (all of it when it is shorter).
pub fn take_chars(s: &str, n: usize) -> (r: String)
    ensures
        r@ == s@.take(if n < s@.len() { n as int } else { s@.len() as int }),
{
    let len = s.unicode_len();
    let end = if n < len { n } else { len };
    let kept = s.substring_char(0, end);
    String::from_str(kept)
}

/// The texts of `list` joined with `sep` between neighbours.
pub open spec fn seq_join(list: Seq<Seq<char>>, sep: Seq<char>) -> Seq<char>
    decreases list.len(),
{
    if list.len() == 0 {
        Seq::empty()
    } else if list.len() == 1 {
        list[0]
    } else {
        seq_join(list.drop_last(), sep) + sep + list.last()
    }
}

/// Where word `i` starts when `words` are written one after another with
/// `sep_len` characters between neighbours.
pub open spec fn word_start(words: Seq<Seq<char>>, sep_len: int, i: int) -> int
    decreases i,
{
    if i <= 0 {
        0
    } else {
        word_start(words, sep_len, i - 1) + words[i - 1].len() + sep_len
    }
}

proof fn lemma_word_start_prefix(words: Seq<Seq<char>>, sep_len: int, i: int)
    requires
        0 <= i < words.len(),
    ensures
        word_start(words.drop_last(), sep_len, i) == word_start(words, sep_len, i),
    decreases i,
{
    if i > 0 {
        lemma_word_start_prefix(words, sep_len, i - 1);
    }
}

proof fn lemma_join_len(words: Seq<Seq<char>>, sep: Seq<char>)
    requires
        words.len() > 0,
    ensures
        seq_join(words, sep).len() == word_start(words, sep.len() as int, words.len() as int) - sep.len(),
    decreases words.len(),
{
    let n = words.len() as int;
    let k = sep.len() as int;
    if n > 1 {
        let front = words.drop_last();
        assert(seq_join(words, sep) == seq_join(front, sep) + sep + words.last());
        lemma_join_len(front, sep);
        lemma_word_start_prefix(words, k, n - 1);
        assert(word_start(words, k, n) == word_start(words, k, n - 1) + words[n - 1].len() + k);
    } else {
        assert(word_start(words, k, 1) == word_start(words, k, 0) + words[0].len() + k);
    }
}

proof fn lemma_join_word(words: Seq<Seq<char>>, sep: Seq<char>, i: int)
    requires
        0 <= i < words.len(),
    ensures
        ({
            let s = word_start(words, sep.len() as int, i);
            seq_join(words, sep).subrange(s, s + words[i].len()) == words[i]
        }),
    decreases words.len(),
{
    let n = words.len() as int;
    let k = sep.len() as int;
    let j = seq_join(words, sep);
    let s = word_start(words, k, i);
    if n == 1 {
        assert(j.subrange(0, words[0].len() as int) =~= words[0]);
    } else {
        let front = words.drop_last();
        let jf = seq_join(front, sep);
        assert(j == jf + sep + words.last());
        lemma_join_len(front, sep);
        lemma_word_start_prefix(words, k, n - 1);
        if i < n - 1 {
            lemma_join_word(front, sep, i);
            lemma_word_start_prefix(words, k, i);
            assert(front[i] == words[i]);
            lemma_word_start_mono(front, k, i, n - 1);
            lemma_word_start_nonneg(front, k, i);
            assert(jf.len() == word_start(front, k, n - 1) - k);
            assert(s + words[i].len() <= jf.len());
            assert(j.subrange(s, s + words[i].len()) =~= jf.subrange(s, s + words[i].len()));
        } else {
            assert(j.subrange(s, s + words[i].len()) =~= words[i]);
        }
    }
}

proof fn lemma_word_start_mono(words: Seq<Seq<char>>, k: int, i: int, m: int)
    requires
        0 <= i < m <= words.len(),
        k >= 0,
    ensures
        word_start(words, k, i) + words[i].len() + k <= word_start(words, k, m),
    decreases m - i,
{
    if i + 1 < m {
        lemma_word_start_mono(words, k, i + 1, m);
        assert(word_start(words, k, i + 1) >= 0) by { lemma_word_start_nonneg(words, k, i + 1); }
    }
}

proof fn lemma_word_start_nonneg(words: Seq<Seq<char>>, k: int, i: int)
    requires
        k >= 0,
        i <= words.len(),
    ensures
        word_start(words, k, i) >= 0,
    decreases i,
{
    if i > 0 {
        lemma_word_start_nonneg(words, k, i - 1);
    }
}

proof fn lemma_join_sep(words: Seq<Seq<char>>, sep: Seq<char>, i: int)
    requires
        0 <= i < words.len() - 1,
    ensures
        ({
            let k = sep.len() as int;
            seq_join(words, sep).subrange(word_start(words, k, i) + words[i].len(), word_start(words, k, i + 1)) == sep
        }),
    decreases words.len(),
{
    let n = words.len() as int;
    let k = sep.len() as int;
    let j = seq_join(words, sep);
    let front = words.drop_last();
    let jf = seq_join(front, sep);
    assert(j == jf + sep + words.last());
    lemma_join_len(front, sep);
    lemma_word_start_prefix(words, k, n - 1);
    lemma_word_start_prefix(words, k, i);
    assert(front[i] == words[i]);
    let a = word_start(words, k, i) + words[i].len();
    let b = word_start(words, k, i + 1);
    if i < n - 2 {
        lemma_join_sep(front, sep, i);
        lemma_word_start_prefix(words, k, i + 1);
        lemma_word_start_mono(front, k, i + 1, n - 1);
        lemma_word_start_nonneg(front, k, i);
        assert(front[i + 1] == words[i + 1]);
        assert(word_start(front, k, i + 1) == word_start(front, k, i) + front[i].len() + k);
        assert(jf.len() == word_start(front, k, n - 1) - k);
        assert(0 <= a <= b <= jf.len());
        assert(j.subrange(a, b) =~= jf.subrange(a, b));
    } else {
        assert(j.subrange(a, b) =~= sep);
    }
}

/// A join is every word in order, each one followed by the separator but
/// the last: word `i` sits at `word_start(i)`, the separator right after
/// it, and the whole is exactly as long as that layout.
pub proof fn lemma_join_layout(words: Seq<Seq<char>>, sep: Seq<char>)
    requires
        words.len() > 0,
    ensures
        ({
            let j = seq_join(words, sep);
            let n = words.len() as int;
            let k = sep.len() as int;
            &&& j.len() == word_start(words, k, n) - k
            &&& forall|i: int| 0 <= i < n ==>
                0 <= #[trigger] word_start(words, k, i) && word_start(words, k, i) + words[i].len() <= j.len()
            &&& forall|i: int| 0 <= i < n - 1 ==>
                word_start(words, k, i) + words[i].len() <= #[trigger] word_start(words, k, i + 1)
            &&& forall|i: int| 0 <= i < n ==>
                j.subrange(word_start(words, k, i), word_start(words, k, i) + words[i].len())
                    == #[trigger] words[i]
            &&& forall|i: int| 0 <= i < n - 1 ==>
                j.subrange(word_start(words, k, i) + words[i].len(), #[trigger] word_start(words, k, i + 1))
                    == sep
        }),
{
    lemma_join_len(words, sep);
    let k = sep.len() as int;
    let n = words.len() as int;
    assert forall|i: int| 0 <= i < n implies
        0 <= #[trigger] word_start(words, k, i) && word_start(words, k, i) + words[i].len() <= seq_join(words, sep).len() by {
        lemma_word_start_nonneg(words, k, i);
        lemma_word_start_mono(words, k, i, n);
    }
    assert forall|i: int| 0 <= i < n - 1 implies
        word_start(words, k, i) + words[i].len() <= #[trigger] word_start(words, k, i + 1) by {
        lemma_word_start_mono(words, k, i, i + 1);
    }
    assert forall|i: int| 0 <= i < words.len() implies
        seq_join(words, sep).subrange(word_start(words, sep.len() as int, i), word_start(words, sep.len() as int, i) + words[i].len())
            == #[trigger] words[i] by {
        lemma_join_word(words, sep, i);
    }
    assert forall|i: int| 0 <= i < words.len() - 1 implies
        seq_join(words, sep).subrange(word_start(words, sep.len() as int, i) + words[i].len(), #[trigger] word_start(words, sep.len() as int, i + 1))
            == sep by {
        lemma_join_sep(words, sep, i);
    }
}

/// A slice of the middle part of `a + m + z`, found by shifting past `a`.
pub proof fn lemma_middle_subrange(a: Seq<char>, m: Seq<char>, z: Seq<char>, lo: int, hi: int)
    requires
        0 <= lo <= hi <= m.len(),
    ensures
        (a + m + z).subrange(a.len() + lo, a.len() + hi) == m.subrange(lo, hi),
{
    assert((a + m + z).subrange(a.len() + lo, a.len() + hi) =~= m.subrange(lo, hi));
}

/// The views of a list of strings.
pub open spec fn views(list: Seq<String>) -> Seq<Seq<char>> {
    list.map_values(|s: String| s@)
}

/// Joins `list` with `sep` between neighbours.
pub fn join_with(list: &[String], sep: &str) -> (r: String)
    ensures
        r@ == seq_join(views(list@), sep@),
{
    let mut r = String::new();
    let n = list.len();
    let mut i: usize = 0;
    while i < n
        invariant
            n == list@.len(),
            i <= n,
            r@ == seq_join(views(list@).take(i as int), sep@),
        decreases n - i,
    {
        let ghost prefix = views(list@).take(i + 1);
        proof {
            assert(prefix.drop_last() =~= views(list@).take(i as int));
            assert(prefix.last() == list@[i as int]@);
        }
        if i > 0 {
            r.append(sep);
        }
        r.append(list[i].as_str());
        i = i + 1;
    }
    proof {
        assert(views(list@).take(n as int) =~= views(list@));
    }
    r
}

/// The decimal digit for `d` (0 to 9).
pub open spec fn digit_char(d: nat) -> char {
    if d == 0 { '0' }
    else if d == 1 { '1' }
    else if d == 2 { '2' }
    else if d == 3 { '3' }
    else if d == 4 { '4' }
    else if d == 5 { '5' }
    else if d == 6 { '6' }
    else if d == 7 { '7' }
    else if d == 8 { '8' }
    else { '9' }
}

/// The decimal representation of `n`, without leading zeros.
pub open spec fn decimal(n: nat) -> Seq<char>
    decreases n,
{
    if n < 10 {
        seq![digit_char(n)]
    } else {
        decimal(n / 10).push(digit_char(n % 10))
    }
}

fn digit_text(d: u64) -> (r: &'static str)
    requires
        d < 10,
    ensures
        r@ == seq![digit_char(d as nat)],
{
    proof {
        reveal_strlit("0");
        reveal_strlit("1");
        reveal_strlit("2");
        reveal_strlit("3");
        reveal_strlit("4");
        reveal_strlit("5");
        reveal_strlit("6");
        reveal_strlit("7");
        reveal_strlit("8");
        reveal_strlit("9");
    }
    let r = if d == 0 { "0" }
        else if d == 1 { "1" }
        else if d == 2 { "2" }
        else if d == 3 { "3" }
        else if d == 4 { "4" }
        else if d == 5 { "5" }
        else if d == 6 { "6" }
        else if d == 7 { "7" }
        else if d == 8 { "8" }
        else { "9" };
    assert(r@ =~= seq![digit_char(d as nat)]);
    r
}

/// `n` written in decimal, as `n.to_string()` writes it.
pub fn decimal_text(n: u64) -> (r: String)
    ensures
        r@ == decimal(n as nat),
    decreases n,
{
    if n < 10 {
        String::from_str(digit_text(n))
    } else {
        let mut r = decimal_text(n / 10);
        r.append(digit_text(n % 10));
        r
    }
}

} // verus!
