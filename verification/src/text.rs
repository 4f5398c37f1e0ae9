//! Character-level building blocks: word splitting, prefix and suffix tests,
//! entity unescaping and decimal numerals.

use vstd::prelude::*;

verus! {

/// `String::push` appends one character at the end of the string.
pub assume_specification[ String::push ](s: &mut String, ch: char)
    ensures
        final(s)@ == old(s)@.push(ch),
;

/// The characters that separate words: those with the Unicode property
/// `White_Space`.
pub open spec fn is_space(c: char) -> bool {
    let n = c as u32;
    ||| 0x09 <= n <= 0x0D
    ||| n == 0x20
    ||| n == 0x85
    ||| n == 0xA0
    ||| n == 0x1680
    ||| 0x2000 <= n <= 0x200A
    ||| n == 0x2028
    ||| n == 0x2029
    ||| n == 0x202F
    ||| n == 0x205F
    ||| n == 0x3000
}

/// Tells whether `c` separates words.
pub fn is_whitespace(c: char) -> (r: bool)
    ensures
        r == is_space(c),
{
    let n: u32 = c as u32;
    (0x09 <= n && n <= 0x0D) || n == 0x20 || n == 0x85 || n == 0xA0 || n == 0x1680 || (0x2000 <= n
        && n <= 0x200A) || n == 0x2028 || n == 0x2029 || n == 0x202F || n == 0x205F || n == 0x3000
}

/// The view of an optional string.
pub open spec fn opt_view(s: Option<String>) -> Option<Seq<char>> {
    match s {
        Some(t) => Some(t@),
        None => None,
    }
}

/// The characters of a string slice, in order.
pub fn chars_of(s: &str) -> (v: Vec<char>)
    ensures
        v@ == s@,
{
    let mut v: Vec<char> = Vec::new();
    for c in it: s.chars()
        invariant
            it.seq() == s@,
            v@ == it.seq().take(it.index() as int),
    {
        v.push(c);
    }
    v
}

/// The words of `s`: its maximal runs of characters that are not white space,
/// from left to right. The definition reads `s` from its end: a white-space
/// character adds nothing, any other character extends the last word when it
/// directly follows one and starts a new word otherwise.
pub open spec fn tokens(s: Seq<char>) -> Seq<Seq<char>>
    decreases s.len(),
{
    if s.len() == 0 {
        Seq::empty()
    } else {
        let before = tokens(s.drop_last());
        if is_space(s.last()) {
            before
        } else if s.len() >= 2 && !is_space(s[s.len() - 2]) && before.len() > 0 {
            before.drop_last().push(before.last().push(s.last()))
        } else {
            before.push(seq![s.last()])
        }
    }
}

/// A word: not empty, and free of white space.
pub open spec fn is_word(w: Seq<char>) -> bool {
    w.len() > 0 && forall|j: int| 0 <= j < w.len() ==> !is_space(#[trigger] w[j])
}

/// Every item of `tokens(s)` is a word.
pub proof fn lemma_tokens_are_words(s: Seq<char>)
    ensures
        forall|i: int| 0 <= i < tokens(s).len() ==> is_word(#[trigger] tokens(s)[i]),
        s.len() > 0 && !is_space(s.last()) ==> tokens(s).len() > 0,
    decreases s.len(),
{
    if s.len() > 0 {
        lemma_tokens_are_words(s.drop_last());
        let before = tokens(s.drop_last());
        if !is_space(s.last()) && s.len() >= 2 && !is_space(s[s.len() - 2]) {
            assert(s.drop_last().last() == s[s.len() - 2]);
            assert(is_word(before[before.len() - 1]));
        }
    }
}

/// A text made of one word has that word as its only item.
pub proof fn lemma_tokens_of_word(w: Seq<char>)
    requires
        is_word(w),
    ensures
        tokens(w) == seq![w],
    decreases w.len(),
{
    let head = w.drop_last();
    if head.len() > 0 {
        assert forall|j: int| 0 <= j < head.len() implies !is_space(#[trigger] head[j]) by {
            assert(head[j] == w[j]);
        }
        lemma_tokens_of_word(head);
        assert(!is_space(w[w.len() - 2]));
        assert(seq![head].drop_last().push(head.push(w.last())) == seq![head.push(w.last())]);
        assert(head.push(w.last()) == w);
    } else {
        assert(!is_space(w[0]));
        assert(tokens(head) == Seq::<Seq<char>>::empty());
        assert(seq![w.last()] == w);
        assert(Seq::<Seq<char>>::empty().push(w) == seq![w]);
    }
}

/// Splitting commutes with cutting a text at white space: where `a` ends
/// with a white-space character or `b` begins with one, or either is
/// empty, the words of `a + b` are those of `a` followed by those of `b`.
pub proof fn lemma_tokens_split_at_space(a: Seq<char>, b: Seq<char>)
    requires
        a.len() == 0 || b.len() == 0 || is_space(a.last()) || is_space(b[0]),
    ensures
        tokens(a + b) == tokens(a) + tokens(b),
    decreases b.len(),
{
    if b.len() == 0 {
        assert(a + b == a);
        assert(tokens(a) + tokens(b) == tokens(a));
    } else {
        let whole = a + b;
        let head = b.drop_last();
        assert(whole.drop_last() == a + head);
        assert(whole.last() == b.last());
        if head.len() > 0 {
            assert(head[0] == b[0]);
        }
        lemma_tokens_split_at_space(a, head);
        if !is_space(b.last()) {
            if head.len() > 0 {
                assert(whole[whole.len() - 2] == head.last());
                assert(b[b.len() - 2] == head.last());
                if !is_space(head.last()) {
                    lemma_tokens_are_words(head);
                    let left = tokens(a);
                    let right = tokens(head);
                    assert((left + right).drop_last() == left + right.drop_last());
                    assert((left + right).last() == right.last());
                    assert((left + right.drop_last()).push(right.last().push(b.last())) == left
                        + right.drop_last().push(right.last().push(b.last())));
                } else {
                    assert((tokens(a) + tokens(head)).push(seq![b.last()]) == tokens(a) + tokens(
                        head,
                    ).push(seq![b.last()]));
                }
            } else {
                assert(a + head == a);
                if a.len() > 0 {
                    assert(whole[whole.len() - 2] == a.last());
                }
                assert(tokens(head) == Seq::<Seq<char>>::empty());
                assert(tokens(a).push(seq![b.last()]) == tokens(a) + Seq::<Seq<char>>::empty().push(
                    seq![b.last()],
                ));
            }
        }
    }
}

/// The views of a vector of strings, one by one.
pub open spec fn views(v: Seq<String>) -> Seq<Seq<char>> {
    Seq::new(v.len(), |i: int| v[i]@)
}

/// Splits `body` at white space into its words.
pub fn split_tokens(body: &str) -> (out: Vec<String>)
    ensures
        views(out@) == tokens(body@),
{
    let chars = chars_of(body);
    let mut out: Vec<String> = Vec::new();
    let mut word = String::new();
    let mut open: bool = false;
    let mut i: usize = 0;
    while i < chars.len()
        invariant
            i <= chars.len(),
            open ==> i > 0 && !is_space(chars@[i - 1]) && tokens(chars@.take(i as int)) == views(
                out@,
            ).push(word@),
            !open ==> (i == 0 || is_space(chars@[i - 1])) && tokens(chars@.take(i as int))
                == views(out@),
        decreases chars.len() - i,
    {
        let c = chars[i];
        let ghost upto = chars@.take(i + 1);
        assert(upto.drop_last() == chars@.take(i as int));
        assert(upto.last() == c);
        if is_whitespace(c) {
            if open {
                let ghost before = views(out@);
                out.push(word);
                assert(views(out@) == before.push(word@));
                word = String::new();
                open = false;
            }
        } else {
            if !open {
                word = String::new();
            }
            let ghost old_word = word@;
            word.push(c);
            proof {
                if open {
                    assert(views(out@).push(old_word).drop_last() == views(out@));
                } else {
                    assert(word@ == seq![c]);
                    if i > 0 {
                        assert(upto[upto.len() - 2] == chars@[i - 1]);
                    }
                }
            }
            open = true;
        }
        i += 1;
    }
    assert(chars@.take(i as int) == chars@);
    if open {
        let ghost before = views(out@);
        out.push(word);
        assert(views(out@) == before.push(word@));
    }
    out
}

/// Tells whether `s` begins with `prefix`.
pub fn begins_with(s: &Vec<char>, prefix: &Vec<char>) -> (r: bool)
    ensures
        r == prefix@.is_prefix_of(s@),
{
    if prefix.len() > s.len() {
        return false;
    }
    let mut i: usize = 0;
    while i < prefix.len()
        invariant
            i <= prefix.len() <= s.len(),
            prefix@.take(i as int) == s@.take(i as int),
        decreases prefix.len() - i,
    {
        if prefix[i] != s[i] {
            assert(s@.subrange(0, prefix@.len() as int)[i as int] != prefix@[i as int]);
            return false;
        }
        i += 1;
        assert(prefix@.take(i as int) == prefix@.take(i - 1).push(prefix@[i - 1]));
        assert(s@.take(i as int) == s@.take(i - 1).push(s@[i - 1]));
    }
    assert(prefix@.take(i as int) == prefix@);
    true
}

/// Tells whether `s` ends with `suffix`.
pub fn ends_with(s: &Vec<char>, suffix: &Vec<char>) -> (r: bool)
    ensures
        r == suffix@.is_suffix_of(s@),
{
    if suffix.len() > s.len() {
        return false;
    }
    let shift: usize = s.len() - suffix.len();
    let ghost tail = s@.subrange(s@.len() - suffix@.len(), s@.len() as int);
    let mut i: usize = 0;
    while i < suffix.len()
        invariant
            i <= suffix.len() <= s.len(),
            shift == s.len() - suffix.len(),
            tail == s@.subrange(s@.len() - suffix@.len(), s@.len() as int),
            forall|j: int| 0 <= j < i ==> suffix@[j] == tail[j],
        decreases suffix.len() - i,
    {
        if suffix[i] != s[shift + i] {
            assert(tail[i as int] != suffix@[i as int]);
            return false;
        }
        i += 1;
    }
    assert(suffix@ =~= tail);
    true
}

/// The five characters `&amp;`.
pub open spec fn amp_entity() -> Seq<char> {
    seq!['&', 'a', 'm', 'p', ';']
}

/// `s` with every occurrence of `&amp;` replaced by `&`, occurrences taken
/// from the left and not overlapping.
pub open spec fn unescape_amp(s: Seq<char>) -> Seq<char>
    decreases s.len(),
{
    if s.len() == 0 {
        s
    } else if amp_entity().is_prefix_of(s) {
        seq!['&'] + unescape_amp(s.skip(5))
    } else {
        seq![s[0]] + unescape_amp(s.skip(1))
    }
}

/// A text in which `&amp;` occurs nowhere stays as it is.
pub proof fn lemma_unescape_without_entity(s: Seq<char>)
    requires
        forall|i: int| 0 <= i < s.len() ==> !amp_entity().is_prefix_of(#[trigger] s.skip(i)),
    ensures
        unescape_amp(s) == s,
    decreases s.len(),
{
    if s.len() > 0 {
        let rest = s.skip(1);
        assert(s.skip(0) == s);
        assert forall|i: int| 0 <= i < rest.len() implies !amp_entity().is_prefix_of(
            #[trigger] rest.skip(i),
        ) by {
            assert(rest.skip(i) == s.skip(i + 1));
        }
        lemma_unescape_without_entity(rest);
        assert(seq![s[0]] + rest == s);
    }
}

/// Appends to `out` the characters of `s` with each `&amp;` turned into `&`.
pub fn push_unescaped(out: &mut String, s: &Vec<char>)
    ensures
        final(out)@ == old(out)@ + unescape_amp(s@),
{
    let mut i: usize = 0;
    assert(s@.skip(0) == s@);
    while i < s.len()
        invariant
            i <= s.len(),
            out@ + unescape_amp(s@.skip(i as int)) == old(out)@ + unescape_amp(s@),
        decreases s.len() - i,
    {
        let ghost rest = s@.skip(i as int);
        let ghost done = out@;
        let at_entity = s.len() - i >= 5 && s[i] == '&' && s[i + 1] == 'a' && s[i + 2] == 'm' && s[i
            + 3] == 'p' && s[i + 4] == ';';
        proof {
            if at_entity {
                assert(rest.subrange(0, 5) =~= amp_entity());
            } else if rest.len() >= 5 {
                let k = choose|k: int| 0 <= k < 5 && rest[k] != amp_entity()[k];
                assert(rest.subrange(0, 5)[k] == rest[k]);
            }
        }
        if at_entity {
            out.push('&');
            i += 5;
            assert(rest.skip(5) == s@.skip(i as int));
            assert(done.push('&') + unescape_amp(rest.skip(5)) == done + (seq!['&'] + unescape_amp(
                rest.skip(5),
            )));
        } else {
            out.push(s[i]);
            i += 1;
            assert(rest.skip(1) == s@.skip(i as int));
            assert(done.push(rest[0]) + unescape_amp(rest.skip(1)) == done + (seq![rest[0]]
                + unescape_amp(rest.skip(1))));
        }
    }
    assert(unescape_amp(s@.skip(i as int)) == Seq::<char>::empty());
    assert(out@ + Seq::<char>::empty() == out@);
}

/// The decimal digit for a number below ten.
pub open spec fn digit(d: nat) -> char
    recommends
        d < 10,
{
    if d == 0 {
        '0'
    } else if d == 1 {
        '1'
    } else if d == 2 {
        '2'
    } else if d == 3 {
        '3'
    } else if d == 4 {
        '4'
    } else if d == 5 {
        '5'
    } else if d == 6 {
        '6'
    } else if d == 7 {
        '7'
    } else if d == 8 {
        '8'
    } else {
        '9'
    }
}

/// The decimal numeral of `n`, without sign or leading zeros.
pub open spec fn decimal(n: nat) -> Seq<char>
    decreases n,
{
    if n < 10 {
        seq![digit(n)]
    } else {
        decimal(n / 10).push(digit(n % 10))
    }
}

/// Appends the decimal numeral of `n` to `out`.
pub fn push_decimal(out: &mut String, n: u64)
    ensures
        final(out)@ == old(out)@ + decimal(n as nat),
    decreases n,
{
    if n >= 10 {
        push_decimal(out, n / 10);
    }
    let d: u64 = n % 10;
    let c: char = if d == 0 {
        '0'
    } else if d == 1 {
        '1'
    } else if d == 2 {
        '2'
    } else if d == 3 {
        '3'
    } else if d == 4 {
        '4'
    } else if d == 5 {
        '5'
    } else if d == 6 {
        '6'
    } else if d == 7 {
        '7'
    } else if d == 8 {
        '8'
    } else {
        '9'
    };
    out.push(c);
    proof {
        if n >= 10 {
            assert(old(out)@ + decimal(n as nat / 10).push(c) == (old(out)@ + decimal(
                n as nat / 10,
            )).push(c));
        } else {
            assert(old(out)@ + seq![c] == old(out)@.push(c));
        }
    }
}

} // verus!
