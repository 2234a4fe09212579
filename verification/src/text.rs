use vstd::prelude::*;

verus! {

/// Whether `c` has the Unicode `White_Space` property.
pub open spec fn is_ws(c: char) -> bool {
    let u = c as u32;
    ||| 0x9 <= u <= 0xD
    ||| u == 0x20
    ||| u == 0x85
    ||| u == 0xA0
    ||| u == 0x1680
    ||| 0x2000 <= u <= 0x200A
    ||| u == 0x2028
    ||| u == 0x2029
    ||| u == 0x202F
    ||| u == 0x205F
    ||| u == 0x3000
}

/// Whether `c` is whitespace in the Unicode sense.
pub fn is_whitespace(c: char) -> (r: bool)
    ensures
        r == is_ws(c),
{
    let u: u32 = c as u32;
    (0x9 <= u && u <= 0xD) || u == 0x20 || u == 0x85 || u == 0xA0 || u == 0x1680 || (0x2000 <= u
        && u <= 0x200A) || u == 0x2028 || u == 0x2029 || u == 0x202F || u == 0x205F || u == 0x3000
}

/// The characters of `s`, in order.
pub fn chars_of(s: &str) -> (r: Vec<char>)
    ensures
        r@ == s@,
{
    broadcast use vstd::string::axiom_spec_iter;
    let mut v: Vec<char> = Vec::new();
    for c in it: s.chars()
        invariant
            v@ == it.seq().take(it.index() as int),
    {
        v.push(c);
    }
    v
}

/// The length of the run of non-whitespace characters that starts `s`.
pub open spec fn word_len(s: Seq<char>) -> nat
    decreases s.len(),
{
    if s.len() == 0 || is_ws(s[0]) {
        0
    } else {
        1 + word_len(s.drop_first())
    }
}

/// A leading word is no longer than the text, and not empty where the
/// text starts with a non-whitespace character.
pub proof fn lemma_word_len_bound(s: Seq<char>)
    ensures
        word_len(s) <= s.len(),
        s.len() > 0 && !is_ws(s[0]) ==> word_len(s) >= 1,
    decreases s.len(),
{
    if s.len() > 0 && !is_ws(s[0]) {
        lemma_word_len_bound(s.drop_first());
    }
}

/// The whitespace-separated words of `s`: its maximal runs of
/// non-whitespace characters, in order.
pub open spec fn words(s: Seq<char>) -> Seq<Seq<char>>
    decreases s.len(),
{
    if s.len() == 0 {
        seq![]
    } else if is_ws(s[0]) {
        words(s.drop_first())
    } else {
        proof {
            lemma_word_len_bound(s);
        }
        seq![s.take(word_len(s) as int)] + words(s.skip(word_len(s) as int))
    }
}

/// The views of a sequence of strings.
pub open spec fn string_views(v: Seq<String>) -> Seq<Seq<char>> {
    v.map_values(|x: String| x@)
}

/// The string holding exactly the given characters, in order.
///
/// Trusted: calls std's `String::from_iter` over `char`s, which the
/// documentation describes as collecting the characters into a string;
/// the contract claims nothing more than that the result's characters are
/// the given ones.
#[verifier::external_body]
pub(crate) fn string_from_chars(v: Vec<char>) -> (r: String)
    ensures
        r@ == v@,
{
    String::from_iter(v)
}

proof fn lemma_skip_step(s: Seq<char>, i: int)
    requires
        0 <= i < s.len(),
    ensures
        s.skip(i).len() > 0,
        s.skip(i)[0] == s[i],
        s.skip(i).drop_first() == s.skip(i + 1),
{
    assert(s.skip(i).drop_first() =~= s.skip(i + 1));
}

/// Splits `s` into its whitespace-separated words.
pub fn split_words(s: &Vec<char>) -> (r: Vec<String>)
    ensures
        string_views(r@) == words(s@),
{
    let n = s.len();
    let mut out: Vec<String> = Vec::new();
    let mut i: usize = 0;
    assert(s@.skip(0) =~= s@);
    while i < n
        invariant
            n == s.len(),
            i <= n,
            words(s@) == string_views(out@) + words(s@.skip(i as int)),
        decreases n - i,
    {
        proof {
            lemma_skip_step(s@, i as int);
        }
        if is_whitespace(s[i]) {
            i = i + 1;
        } else {
            let start = i;
            let mut w: Vec<char> = Vec::new();
            while i < n && !is_whitespace(s[i])
                invariant
                    n == s.len(),
                    start < n,
                    !is_ws(s@[start as int]),
                    start <= i <= n,
                    w@ == s@.subrange(start as int, i as int),
                    word_len(s@.skip(start as int)) == (i - start) + word_len(s@.skip(i as int)),
                decreases n - i,
            {
                proof {
                    lemma_skip_step(s@, i as int);
                }
                w.push(s[i]);
                i = i + 1;
            }
            proof {
                if i < n {
                    lemma_skip_step(s@, i as int);
                }
                let t = s@.skip(start as int);
                lemma_skip_step(s@, start as int);
                assert(word_len(t) == i - start);
                assert(t.take(word_len(t) as int) =~= s@.subrange(start as int, i as int));
                assert(t.skip(word_len(t) as int) =~= s@.skip(i as int));
            }
            let word = string_from_chars(w);
            let ghost before = string_views(out@);
            out.push(word);
            assert(string_views(out@) =~= before.push(word@));
        }
    }
    assert(s@.skip(n as int) =~= Seq::<char>::empty());
    assert(string_views(out@) + seq![] =~= string_views(out@));
    out
}


/// The decimal digit character for `d < 10`.
pub open spec fn digit_char(d: nat) -> char {
    ((d + 48) as u8) as char
}

/// The decimal representation of `n`, without leading zeros.
pub open spec fn decimal(n: nat) -> Seq<char>
    decreases n,
{
    if n < 10 {
        seq![digit_char(n)]
    } else {
        decimal(n / 10).push(digit_char(n % 10))
    }
}

/// Appends the decimal representation of `n` to `out`.
pub fn push_decimal(out: &mut Vec<char>, n: u64)
    ensures
        final(out)@ == old(out)@ + decimal(n as nat),
    decreases n,
{
    if n >= 10 {
        push_decimal(out, n / 10);
    }
    let d: u8 = (n % 10) as u8;
    let c: char = (d + 48) as char;
    out.push(c);
    proof {
        if n >= 10 {
            assert(old(out)@ + decimal(n as nat) =~= old(out)@ + decimal((n / 10) as nat) + seq![c]);
        } else {
            assert(old(out)@ + decimal(n as nat) =~= old(out)@ + seq![c]);
        }
    }
}

/// The words of `ws` joined by single spaces.
pub open spec fn join_spaced(ws: Seq<Seq<char>>) -> Seq<char>
    decreases ws.len(),
{
    if ws.len() == 0 {
        seq![]
    } else if ws.len() == 1 {
        ws[0]
    } else {
        join_spaced(ws.drop_last()) + seq![' '] + ws.last()
    }
}

/// Appends the characters of `s` to `out`.
pub fn push_str(out: &mut Vec<char>, s: &str)
    ensures
        final(out)@ == old(out)@ + s@,
{
    broadcast use vstd::string::axiom_spec_iter;
    let ghost start = out@;
    for c in it: s.chars()
        invariant
            out@ == start + it.seq().take(it.index() as int),
    {
        out.push(c);
        assert(start + it.seq().take(it.index() + 1) =~= start + it.seq().take(it.index() as int) + seq![c]);
    }
}

/// Appends `ws[from..]` to `out`, joined by single spaces.
pub fn push_joined(out: &mut Vec<char>, ws: &Vec<String>, from: usize)
    requires
        from <= ws.len(),
    ensures
        final(out)@ == old(out)@ + join_spaced(string_views(ws@).skip(from as int)),
{
    let ghost views = string_views(ws@);
    let ghost start = out@;
    if from == ws.len() {
        assert(views.skip(from as int) =~= Seq::<Seq<char>>::empty());
        assert(out@ =~= start + join_spaced(views.skip(from as int)));
        return;
    }
    push_str(out, ws[from].as_str());
    let mut i: usize = from + 1;
    assert(views.skip(from as int).take(1) =~= seq![views[from as int]]);
    while i < ws.len()
        invariant
            from < i <= ws.len(),
            views == string_views(ws@),
            out@ == start + join_spaced(views.skip(from as int).take(i - from)),
        decreases ws.len() - i,
    {
        push_str(out, " ");
        push_str(out, ws[i].as_str());
        proof {
            let pre = views.skip(from as int).take(i - from);
            let post = views.skip(from as int).take(i + 1 - from);
            reveal_strlit(" ");
            assert(post.drop_last() =~= pre);
            assert(post.last() == views[i as int]);
            assert(start + join_spaced(post) =~= start + join_spaced(pre) + seq![' '] + ws@[i as int]@);
        }
        i = i + 1;
    }
    assert(views.skip(from as int).take(ws.len() - from) =~= views.skip(from as int));
}

} // verus!

verus! {

/// Whether every character of `s` is whitespace-free.
pub open spec fn has_no_ws(s: Seq<char>) -> bool {
    forall|k: int| 0 <= k < s.len() ==> !is_ws(#[trigger] s[k])
}

proof fn lemma_word_len_of_unbroken(s: Seq<char>)
    requires
        has_no_ws(s),
    ensures
        word_len(s) == s.len(),
    decreases s.len(),
{
    if s.len() > 0 {
        assert(has_no_ws(s.drop_first())) by {
            assert forall|k: int| 0 <= k < s.drop_first().len() implies !is_ws(
                #[trigger] s.drop_first()[k],
            ) by {
                assert(s.drop_first()[k] == s[k + 1]);
            }
        }
        lemma_word_len_of_unbroken(s.drop_first());
    }
}

proof fn lemma_word_len_stops_at_ws(s1: Seq<char>, c: char, s2: Seq<char>)
    requires
        is_ws(c),
    ensures
        word_len(s1 + seq![c] + s2) == word_len(s1),
    decreases s1.len(),
{
    let t = s1 + seq![c] + s2;
    if s1.len() == 0 {
        assert(t[0] == c);
    } else {
        assert(t[0] == s1[0]);
        if !is_ws(s1[0]) {
            assert(t.drop_first() =~= s1.drop_first() + seq![c] + s2);
            lemma_word_len_stops_at_ws(s1.drop_first(), c, s2);
        }
    }
}

/// A non-empty text without whitespace is a single word: words are never
/// cut short.
pub proof fn lemma_unbroken_text_is_one_word(s: Seq<char>)
    requires
        s.len() > 0,
        has_no_ws(s),
    ensures
        words(s) == seq![s],
{
    lemma_word_len_of_unbroken(s);
    assert(s.take(s.len() as int) =~= s);
    assert(s.skip(s.len() as int) =~= Seq::<char>::empty());
    assert(words(s.skip(s.len() as int)) == Seq::<Seq<char>>::empty());
    assert(words(s) =~= seq![s]);
}

/// Text with no non-whitespace character has no words.
pub proof fn lemma_blank_text_has_no_words(s: Seq<char>)
    requires
        forall|k: int| 0 <= k < s.len() ==> is_ws(#[trigger] s[k]),
    ensures
        words(s) == Seq::<Seq<char>>::empty(),
    decreases s.len(),
{
    if s.len() > 0 {
        assert forall|k: int| 0 <= k < s.drop_first().len() implies is_ws(
            #[trigger] s.drop_first()[k],
        ) by {
            assert(s.drop_first()[k] == s[k + 1]);
        }
        lemma_blank_text_has_no_words(s.drop_first());
    }
}

/// A whitespace character separates words: the words of `s1`, a
/// whitespace character and `s2` are the words of `s1` followed by those of
/// `s2`. With the two laws above, this fixes the words of every text.
pub proof fn lemma_whitespace_separates_words(s1: Seq<char>, c: char, s2: Seq<char>)
    requires
        is_ws(c),
    ensures
        words(s1 + seq![c] + s2) == words(s1) + words(s2),
    decreases s1.len(),
{
    let t = s1 + seq![c] + s2;
    if s1.len() == 0 {
        assert(t[0] == c);
        assert(t.drop_first() =~= s2);
        assert(words(s1) =~= Seq::<Seq<char>>::empty());
        assert(words(s1) + words(s2) =~= words(s2));
    } else if is_ws(s1[0]) {
        assert(t[0] == s1[0]);
        assert(t.drop_first() =~= s1.drop_first() + seq![c] + s2);
        lemma_whitespace_separates_words(s1.drop_first(), c, s2);
    } else {
        assert(t[0] == s1[0]);
        lemma_word_len_stops_at_ws(s1, c, s2);
        lemma_word_len_bound(s1);
        let k = word_len(s1) as int;
        assert(t.take(k) =~= s1.take(k));
        assert(t.skip(k) =~= s1.skip(k) + seq![c] + s2);
        lemma_whitespace_separates_words(s1.skip(k), c, s2);
        assert(words(t) =~= words(s1) + words(s2));
    }
}

/// Every word is non-empty and holds no whitespace.
pub proof fn lemma_words_are_unbroken_runs(s: Seq<char>)
    ensures
        forall|j: int|
            0 <= j < words(s).len() ==> (#[trigger] words(s)[j]).len() > 0 && has_no_ws(
                words(s)[j],
            ),
    decreases s.len(),
{
    if s.len() > 0 {
        if is_ws(s[0]) {
            lemma_words_are_unbroken_runs(s.drop_first());
            assert(words(s) == words(s.drop_first()));
        } else {
            lemma_word_len_bound(s);
            let k = word_len(s) as int;
            lemma_words_are_unbroken_runs(s.skip(k));
            lemma_word_len_prefix_unbroken(s);
            let ws = words(s);
            assert(ws[0] == s.take(k));
            assert(s.take(k).len() == k && k >= 1);
            assert forall|j: int| 0 <= j < ws.len() implies (#[trigger] ws[j]).len() > 0
                && has_no_ws(ws[j]) by {
                if j > 0 {
                    assert(ws[j] == words(s.skip(k))[j - 1]);
                } else {
                    assert(ws[j].len() > 0);
                    assert(has_no_ws(ws[j]));
                }
            }
        }
    }
}

proof fn lemma_word_len_prefix_unbroken(s: Seq<char>)
    ensures
        has_no_ws(s.take(word_len(s) as int)),
        word_len(s) <= s.len(),
    decreases s.len(),
{
    lemma_word_len_bound(s);
    if s.len() > 0 && !is_ws(s[0]) {
        lemma_word_len_prefix_unbroken(s.drop_first());
        let k = word_len(s) as int;
        assert forall|m: int| 0 <= m < s.take(k).len() implies !is_ws(#[trigger] s.take(k)[m]) by {
            if m > 0 {
                assert(s.take(k)[m] == s.drop_first().take(k - 1)[m - 1]);
            }
        }
    }
}

/// The value of a string of decimal digits.
pub open spec fn decimal_value(s: Seq<char>) -> nat
    decreases s.len(),
{
    if s.len() == 0 {
        0
    } else {
        decimal_value(s.drop_last()) * 10 + ((s.last() as u32) - 48) as nat
    }
}

/// Whether `c` is one of the digits `0` to `9`.
pub open spec fn is_digit(c: char) -> bool {
    '0' <= c <= '9'
}

/// The decimal form of `n` is a non-empty string of digits whose value is
/// `n`: reading the digits back gives the number, so no digit is lost.
pub proof fn lemma_decimal_reads_back(n: nat)
    ensures
        decimal(n).len() > 0,
        forall|k: int| 0 <= k < decimal(n).len() ==> is_digit(#[trigger] decimal(n)[k]),
        decimal_value(decimal(n)) == n,
    decreases n,
{
    assert((digit_char(n % 10) as u32) == n % 10 + 48);
    assert(decimal(n).last() == digit_char(n % 10));
    assert(((decimal(n).last() as u32) - 48) as nat == n % 10);
    if n < 10 {
        assert(decimal(n).drop_last() =~= Seq::<char>::empty());
        assert(decimal_value(decimal(n)) == decimal_value(Seq::<char>::empty()) * 10 + n % 10);
    } else {
        lemma_decimal_reads_back(n / 10);
        let p = decimal(n / 10);
        assert(decimal(n).drop_last() =~= p);
        assert(n == (n / 10) * 10 + n % 10) by (nonlinear_arith);
        assert(decimal_value(decimal(n)) == decimal_value(p) * 10 + n % 10);
        assert forall|k: int| 0 <= k < decimal(n).len() implies is_digit(#[trigger] decimal(n)[k]) by {
            if k < p.len() {
                assert(decimal(n)[k] == p[k]);
            }
        }
    }
}

} // verus!
