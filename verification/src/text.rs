//! Text as sequences of characters: conversion, replacement of a token,
//! splitting on whitespace and joining.

use vstd::prelude::*;
use vstd::std_specs::iter::IteratorSpec;

verus! {

/// `String::push` appends the character to the end of the string. Trusted.
pub assume_specification[ String::push ](s: &mut String, c: char)
    ensures
        final(s)@ == old(s)@.push(c),
;

/// The texts that a sequence of strings holds.
pub open spec fn texts(v: Seq<String>) -> Seq<Seq<char>> {
    Seq::new(v.len(), |i: int| v[i]@)
}

/// Whether `token` stands in `s` at position `i`.
pub open spec fn token_at(s: Seq<char>, token: Seq<char>, i: int) -> bool {
    &&& 0 <= i
    &&& i + token.len() <= s.len()
    &&& s.subrange(i, i + token.len()) == token
}

/// `s` from position `i` on, with every occurrence of `token` replaced by
/// `value`, occurrences being found from left to right and not overlapping.
/// An empty token occurs nowhere.
pub open spec fn replaced_from(s: Seq<char>, token: Seq<char>, value: Seq<char>, i: int) -> Seq<
    char,
>
    decreases s.len() - i,
{
    if i < 0 || i >= s.len() {
        Seq::empty()
    } else if token.len() > 0 && token_at(s, token, i) {
        value + replaced_from(s, token, value, i + token.len())
    } else {
        seq![s[i]] + replaced_from(s, token, value, i + 1)
    }
}

/// `s` with every occurrence of `token` replaced by `value`.
pub open spec fn replaced(s: Seq<char>, token: Seq<char>, value: Seq<char>) -> Seq<char> {
    replaced_from(s, token, value, 0)
}

/// Whether `token` stands anywhere in `s`.
pub open spec fn occurs(s: Seq<char>, token: Seq<char>) -> bool {
    exists|i: int| token_at(s, token, i)
}

/// The character that writes a digit; every number above nine is written
/// as nine is.
pub open spec fn digit_char(d: nat) -> char {
    if d == 0 {
        '0'
    } else if d == 1 {
        '1'
    } else if d == 2 {
        '2'
    } else if d == 3 {
        '3'
    } else if d == 4 {
        '4'
    } else if d == 5 {
        '5'
    } else if d == 6 {
        '6'
    } else if d == 7 {
        '7'
    } else if d == 8 {
        '8'
    } else {
        '9'
    }
}

/// A number in decimal, without leading zeros.
pub open spec fn decimal(n: nat) -> Seq<char>
    decreases n,
{
    if n < 10 {
        seq![digit_char(n)]
    } else {
        decimal(n / 10).push(digit_char(n % 10))
    }
}

/// The characters at which text is split into words.
pub open spec fn is_space(c: char) -> bool {
    c == ' ' || c == '\t' || c == '\n' || c == '\r'
}

/// The word that is being read, as a sequence of no or one word.
pub open spec fn finished(word: Seq<char>) -> Seq<Seq<char>> {
    if word.len() > 0 {
        seq![word]
    } else {
        Seq::empty()
    }
}

/// The words of `s` from position `i` on, where `word` holds the
/// characters of the word that position `i` continues.
pub open spec fn words_from(s: Seq<char>, i: int, word: Seq<char>) -> Seq<Seq<char>>
    decreases s.len() - i,
{
    if i < 0 || i >= s.len() {
        finished(word)
    } else if is_space(s[i]) {
        finished(word) + words_from(s, i + 1, Seq::empty())
    } else {
        words_from(s, i + 1, word.push(s[i]))
    }
}

/// The words of `s`: its maximal runs of characters that are no spaces, in
/// order.
pub open spec fn words(s: Seq<char>) -> Seq<Seq<char>> {
    words_from(s, 0, Seq::empty())
}

/// The parts in order, with `sep` between each two neighbours.
pub open spec fn joined(parts: Seq<Seq<char>>, sep: Seq<char>) -> Seq<char>
    decreases parts.len(),
{
    if parts.len() == 0 {
        Seq::empty()
    } else if parts.len() == 1 {
        parts[0]
    } else {
        joined(parts.drop_last(), sep) + sep + parts.last()
    }
}

/// Whether two texts are the same.
pub fn same_text(a: &str, b: &str) -> (r: bool)
    ensures
        r == (a@ == b@),
{
    let x = String::from_str(a);
    let y = String::from_str(b);
    x == y
}

/// Writes a digit; every number above nine is written as nine is.
pub fn digit_of(d: u32) -> (r: char)
    ensures
        r == digit_char(d as nat),
{
    if d == 0 {
        '0'
    } else if d == 1 {
        '1'
    } else if d == 2 {
        '2'
    } else if d == 3 {
        '3'
    } else if d == 4 {
        '4'
    } else if d == 5 {
        '5'
    } else if d == 6 {
        '6'
    } else if d == 7 {
        '7'
    } else if d == 8 {
        '8'
    } else {
        '9'
    }
}

/// Writes a number in decimal.
pub fn decimal_text(n: u32) -> (r: String)
    ensures
        r@ == decimal(n as nat),
    decreases n,
{
    if n < 10 {
        let mut out = String::new();
        out.push(digit_of(n));
        assert(out@ =~= seq![digit_char(n as nat)]);
        out
    } else {
        let mut out = decimal_text(n / 10);
        out.push(digit_of(n % 10));
        out
    }
}

/// The characters of a text.
pub fn chars_of(s: &str) -> (r: Vec<char>)
    ensures
        r@ == s@,
{
    let mut out: Vec<char> = Vec::new();
    let mut it = s.chars();
    assert(it.remaining() == s@);
    loop
        invariant
            it.obeys_prophetic_iter_laws(),
            it.decrease() is Some,
            out@ + it.remaining() == s@,
        decreases it.decrease()->0,
    {
        let ghost before = it;
        match it.next() {
            Some(c) => {
                out.push(c);
                assert(out@ + it.remaining() =~= s@) by {
                    assert(before.remaining() =~= seq![c] + it.remaining());
                }
            },
            None => {
                assert(out@ =~= s@);
                return out;
            },
        }
    }
}

/// The text that the characters spell.
pub fn text_of(chars: &Vec<char>) -> (r: String)
    ensures
        r@ == chars@,
{
    let mut out = String::new();
    let mut i: usize = 0;
    while i < chars.len()
        invariant
            i <= chars.len(),
            out@ == chars@.take(i as int),
        decreases chars.len() - i,
    {
        out.push(chars[i]);
        i += 1;
        assert(out@ =~= chars@.take(i as int));
    }
    assert(chars@.take(i as int) =~= chars@);
    out
}

/// Whether `token` stands in `s` at position `i`.
pub fn has_token_at(s: &Vec<char>, token: &Vec<char>, i: usize) -> (r: bool)
    ensures
        r == token_at(s@, token@, i as int),
{
    if token.len() > s.len() || i > s.len() - token.len() {
        return false;
    }
    let mut k: usize = 0;
    while k < token.len()
        invariant
            k <= token.len(),
            i + token.len() <= s.len(),
            forall|j: int| 0 <= j < k ==> s@[i + j] == token@[j],
        decreases token.len() - k,
    {
        if s[i + k] != token[k] {
            assert(s@.subrange(i as int, i + token.len())[k as int] == s@[i + k]);
            return false;
        }
        k += 1;
    }
    assert(s@.subrange(i as int, i + token.len()) =~= token@);
    true
}

/// Replaces every occurrence of `token` in `s` by `value`.
pub fn replace_chars(s: &Vec<char>, token: &Vec<char>, value: &Vec<char>) -> (r: Vec<char>)
    ensures
        r@ == replaced(s@, token@, value@),
{
    let mut out: Vec<char> = Vec::new();
    let mut i: usize = 0;
    while i < s.len()
        invariant
            i <= s.len(),
            out@ + replaced_from(s@, token@, value@, i as int) == replaced(s@, token@, value@),
        decreases s.len() - i,
    {
        let ghost before = out@;
        if token.len() > 0 && has_token_at(s, token, i) {
            let mut k: usize = 0;
            while k < value.len()
                invariant
                    k <= value.len(),
                    out@ == before + value@.take(k as int),
                decreases value.len() - k,
            {
                out.push(value[k]);
                k += 1;
                assert(out@ =~= before + value@.take(k as int));
            }
            assert(value@.take(k as int) =~= value@);
            i += token.len();
            assert(out@ + replaced_from(s@, token@, value@, i as int) =~= before + (value@
                + replaced_from(s@, token@, value@, i as int)));
        } else {
            out.push(s[i]);
            i += 1;
            assert(out@ + replaced_from(s@, token@, value@, i as int) =~= before + (seq![
                s@[i - 1],
            ] + replaced_from(s@, token@, value@, i as int)));
        }
    }
    assert(replaced_from(s@, token@, value@, i as int) =~= Seq::<char>::empty());
    assert(out@ + Seq::<char>::empty() =~= out@);
    out
}

/// Replaces every occurrence of `token` in `s` by `value`.
pub fn replace_text(s: &str, token: &str, value: &str) -> (r: String)
    ensures
        r@ == replaced(s@, token@, value@),
{
    let from = chars_of(s);
    let what = chars_of(token);
    let with = chars_of(value);
    let out = replace_chars(&from, &what, &with);
    text_of(&out)
}

/// Whether text is split at the character.
pub fn splits(c: char) -> (r: bool)
    ensures
        r == is_space(c),
{
    c == ' ' || c == '\t' || c == '\n' || c == '\r'
}

/// Splits a text into its words.
pub fn split_words(s: &str) -> (r: Vec<String>)
    ensures
        texts(r@) == words(s@),
{
    let chars = chars_of(s);
    let mut out: Vec<String> = Vec::new();
    let mut word: Vec<char> = Vec::new();
    let mut i: usize = 0;
    assert(texts(out@) + words_from(s@, 0, word@) =~= words(s@));
    while i < chars.len()
        invariant
            i <= chars.len(),
            chars@ == s@,
            texts(out@) + words_from(s@, i as int, word@) == words(s@),
        decreases chars.len() - i,
    {
        let ghost before = texts(out@);
        let ghost word_before = word@;
        let c = chars[i];
        if splits(c) {
            if word.len() > 0 {
                let done = text_of(&word);
                out.push(done);
                word = Vec::new();
            }
            assert(texts(out@) =~= before + finished(word_before));
            assert(word@ =~= Seq::<char>::empty());
            assert(texts(out@) + words_from(s@, i + 1, word@) =~= before + (finished(word_before)
                + words_from(s@, i + 1, Seq::empty())));
        } else {
            word.push(c);
        }
        i += 1;
    }
    let ghost before = texts(out@);
    let ghost word_before = word@;
    if word.len() > 0 {
        let done = text_of(&word);
        out.push(done);
    }
    assert(texts(out@) =~= before + finished(word_before));
    out
}

/// Joins the parts in order, with `sep` between each two neighbours.
pub fn join_texts(parts: &Vec<String>, sep: &str) -> (r: String)
    ensures
        r@ == joined(texts(parts@), sep@),
{
    let mut out = String::new();
    let mut i: usize = 0;
    while i < parts.len()
        invariant
            i <= parts.len(),
            out@ == joined(texts(parts@).take(i as int), sep@),
        decreases parts.len() - i,
    {
        let ghost done = texts(parts@).take(i as int);
        let ghost next = texts(parts@).take(i + 1);
        assert(next.drop_last() =~= done);
        assert(next.last() == parts@[i as int]@);
        if i > 0 {
            out.append(sep);
        }
        out.append(parts[i].as_str());
        assert(out@ =~= joined(next, sep@));
        i += 1;
    }
    assert(texts(parts@).take(i as int) =~= texts(parts@));
    out
}

/// From a position on, text in which the token stands nowhere is left as
/// it is.
pub proof fn lemma_replaced_from_without_token(
    s: Seq<char>,
    token: Seq<char>,
    value: Seq<char>,
    i: int,
)
    requires
        0 <= i <= s.len(),
        !occurs(s, token),
    ensures
        replaced_from(s, token, value, i) == s.subrange(i, s.len() as int),
    decreases s.len() - i,
{
    if i < s.len() {
        assert(!token_at(s, token, i));
        lemma_replaced_from_without_token(s, token, value, i + 1);
        assert(s.subrange(i, s.len() as int) =~= seq![s[i]] + s.subrange(i + 1, s.len() as int));
    } else {
        assert(s.subrange(i, s.len() as int) =~= Seq::<char>::empty());
    }
}

/// Text in which the token stands nowhere is left as it is, whatever the
/// token's value.
pub proof fn lemma_replaced_without_token(s: Seq<char>, token: Seq<char>, value: Seq<char>)
    requires
        !occurs(s, token),
    ensures
        replaced(s, token, value) == s,
{
    lemma_replaced_from_without_token(s, token, value, 0);
    assert(s.subrange(0, s.len() as int) =~= s);
}

} // verus!
