//! Normalising a word for the request address.
//!
//! A word is put into lower case, blanks are dropped at both ends, and each
//! space that is left is written as `%20`. Nothing else is escaped.

use vstd::prelude::*;

verus! {

/// What `str::to_lowercase` makes of a text.
pub uninterp spec fn lowercased(s: Seq<char>) -> Seq<char>;

/// Whether `char::is_whitespace` holds of a character.
pub uninterp spec fn white_space(c: char) -> bool;

/// Calls `str::to_lowercase`. Taken on trust: the result depends on nothing
/// but the characters of `s`. What it is for a given text is not stated.
#[verifier::external_body]
fn lowercase(s: &str) -> (r: String)
    ensures
        r@ == lowercased(s@),
{
    s.to_lowercase()
}

/// Calls `char::is_whitespace`. Taken on trust: the result depends on nothing
/// but `c`. Which characters it holds of is not stated.
#[verifier::external_body]
fn is_whitespace(c: char) -> (r: bool)
    ensures
        r == white_space(c),
{
    c.is_whitespace()
}

/// `String::push`. Taken on trust: it appends the character to the end of
/// the string and changes nothing else.
pub assume_specification[ String::push ](s: &mut String, ch: char)
    ensures
        final(s)@ == old(s)@.push(ch),
;

/// A character that is dropped at either end of a word: a space, or anything
/// else that std counts as whitespace.
pub open spec fn blank(c: char) -> bool {
    c == ' ' || white_space(c)
}

/// `s` without the blanks it starts with.
pub open spec fn trimmed_start(s: Seq<char>) -> Seq<char>
    decreases s.len(),
{
    if s.len() > 0 && blank(s.first()) {
        trimmed_start(s.drop_first())
    } else {
        s
    }
}

/// `s` without the blanks it ends with.
pub open spec fn trimmed_end(s: Seq<char>) -> Seq<char>
    decreases s.len(),
{
    if s.len() > 0 && blank(s.last()) {
        trimmed_end(s.drop_last())
    } else {
        s
    }
}

/// `s` without the blanks at either end.
pub open spec fn trimmed(s: Seq<char>) -> Seq<char> {
    trimmed_end(trimmed_start(s))
}

/// What one character becomes in the address: a space becomes `%20`, any
/// other character stays.
pub open spec fn escaped_char(c: char) -> Seq<char> {
    if c == ' ' {
        seq!['%', '2', '0']
    } else {
        seq![c]
    }
}

/// `s` with each space written as `%20`.
pub open spec fn escaped(s: Seq<char>) -> Seq<char>
    decreases s.len(),
{
    if s.len() == 0 {
        Seq::empty()
    } else {
        escaped(s.drop_last()) + escaped_char(s.last())
    }
}

/// A lower-case word as it stands in the address: trimmed, then escaped.
pub open spec fn encoded(s: Seq<char>) -> Seq<char> {
    escaped(trimmed(s))
}

/// The normal form of a word: lower case, trimmed, spaces escaped.
pub open spec fn normalized(word: Seq<char>) -> Seq<char> {
    encoded(lowercased(word))
}

/// Whether normalising would leave `s` as it is: lower-casing changes
/// nothing, no blank stands at either end, and no space is left.
pub open spec fn is_normalized(s: Seq<char>) -> bool {
    &&& lowercased(s) == s
    &&& s.len() > 0 ==> !blank(s.first()) && !blank(s.last())
    &&& !s.contains(' ')
}

/// The address that every request starts with.
pub open spec fn url_prefix() -> Seq<char> {
    "https://api.dictionaryapi.dev/api/v2/entries/en/"@
}

/// The address at which `word` is looked up.
pub open spec fn request_url_of(word: Seq<char>) -> Seq<char> {
    url_prefix() + normalized(word)
}

/// Whether `c` is dropped at the ends of a word.
fn is_blank(c: char) -> (r: bool)
    ensures
        r == blank(c),
{
    c == ' ' || is_whitespace(c)
}

/// The characters of `s`, one by one.
fn chars_of(s: &str) -> (r: Vec<char>)
    ensures
        r@ == s@,
{
    let mut out: Vec<char> = Vec::new();
    for c in it: s.chars()
        invariant
            it.seq() == s@,
            out@ == s@.take(it.index()),
    {
        out.push(c);
    }
    assert(out@ == s@);
    out
}

proof fn lemma_trimmed_start_skips(s: Seq<char>, n: int)
    requires
        0 <= n <= s.len(),
        forall|i: int| 0 <= i < n ==> blank(#[trigger] s[i]),
    ensures
        trimmed_start(s) == trimmed_start(s.skip(n)),
    decreases n,
{
    if n == 0 {
        assert(s.skip(0) == s);
    } else {
        let t = s.drop_first();
        assert forall|i: int| 0 <= i < n - 1 implies blank(#[trigger] t[i]) by {
            assert(t[i] == s[i + 1]);
        }
        lemma_trimmed_start_skips(t, n - 1);
        assert(t.skip(n - 1) == s.skip(n));
    }
}

proof fn lemma_trimmed_end_drops(s: Seq<char>, n: int)
    requires
        0 <= n <= s.len(),
        forall|i: int| n <= i < s.len() ==> blank(#[trigger] s[i]),
    ensures
        trimmed_end(s) == trimmed_end(s.take(n)),
    decreases s.len() - n,
{
    if n == s.len() {
        assert(s.take(n) == s);
    } else {
        let t = s.drop_last();
        assert forall|i: int| n <= i < t.len() implies blank(#[trigger] t[i]) by {
            assert(t[i] == s[i]);
        }
        lemma_trimmed_end_drops(t, n);
        assert(t.take(n) == s.take(n));
    }
}

/// The characters of `s` between its leading and its trailing blanks.
pub fn trim(s: &str) -> (r: Vec<char>)
    ensures
        r@ == trimmed(s@),
{
    let cs = chars_of(s);
    let n = cs.len();
    let mut start: usize = 0;
    while start < n && is_blank(cs[start])
        invariant
            n == cs@.len(),
            start <= n,
            forall|i: int| 0 <= i < start ==> blank(#[trigger] cs@[i]),
        decreases n - start,
    {
        start += 1;
    }
    let mut end: usize = n;
    while end > start && is_blank(cs[end - 1])
        invariant
            n == cs@.len(),
            start <= end <= n,
            forall|i: int| end <= i < n ==> blank(#[trigger] cs@[i]),
        decreases end,
    {
        end -= 1;
    }
    let mut out: Vec<char> = Vec::new();
    let mut k: usize = start;
    while k < end
        invariant
            start <= k <= end <= cs@.len(),
            out@ == cs@.subrange(start as int, k as int),
        decreases end - k,
    {
        out.push(cs[k]);
        k += 1;
    }
    proof {
        let rest = cs@.skip(start as int);
        lemma_trimmed_start_skips(cs@, start as int);
        assert forall|i: int| end - start <= i < rest.len() implies blank(#[trigger] rest[i]) by {
            assert(rest[i] == cs@[i + start]);
        }
        lemma_trimmed_end_drops(rest, end - start);
        assert(rest.take(end - start) == out@);
    }
    out
}

/// The text that `cs` holds, with each space written as `%20`.
pub fn escape(cs: &Vec<char>) -> (r: String)
    ensures
        r@ == escaped(cs@),
{
    let mut out = String::new();
    let mut k: usize = 0;
    while k < cs.len()
        invariant
            k <= cs@.len(),
            out@ == escaped(cs@.take(k as int)),
        decreases cs@.len() - k,
    {
        let c = cs[k];
        proof {
            let next = cs@.take(k + 1);
            assert(next.drop_last() == cs@.take(k as int));
            assert(next.last() == c);
        }
        if c == ' ' {
            out.push('%');
            out.push('2');
            out.push('0');
        } else {
            out.push(c);
        }
        k += 1;
    }
    assert(cs@.take(k as int) == cs@);
    out
}

/// Trims a lower-case word and escapes its spaces.
pub fn encode(lowered: &str) -> (r: String)
    ensures
        r@ == encoded(lowered@),
{
    let kept = trim(lowered);
    escape(&kept)
}

/// The normal form of `word`, as it stands in the request address and in the
/// heading of the answer.
pub fn normalize(word: &str) -> (r: String)
    ensures
        r@ == normalized(word@),
{
    let lowered = lowercase(word);
    encode(lowered.as_str())
}

/// The address to request for `word`.
pub fn request_url(word: &str) -> (r: String)
    ensures
        r@ == request_url_of(word@),
{
    let mut url = String::from_str("https://api.dictionaryapi.dev/api/v2/entries/en/");
    let tail = normalize(word);
    url.append(tail.as_str());
    url
}

/// What is left after trimming neither starts nor ends with a blank, and
/// trimming it again changes nothing.
pub proof fn lemma_trimmed_bare(s: Seq<char>)
    ensures
        trimmed(s).len() > 0 ==> !blank(trimmed(s).first()) && !blank(trimmed(s).last()),
        trimmed(trimmed(s)) == trimmed(s),
{
    lemma_trimmed_start_shape(s);
    let t = trimmed_start(s);
    lemma_trimmed_end_shape(t);
    let u = trimmed_end(t);
    if u.len() > 0 {
        assert(u.first() == t.first());
    }
    lemma_bare_is_trimmed(u);
}

proof fn lemma_trimmed_start_shape(s: Seq<char>)
    ensures
        trimmed_start(s).len() > 0 ==> !blank(trimmed_start(s).first()),
    decreases s.len(),
{
    if s.len() > 0 && blank(s.first()) {
        lemma_trimmed_start_shape(s.drop_first());
    }
}

proof fn lemma_trimmed_end_shape(s: Seq<char>)
    ensures
        trimmed_end(s).len() > 0 ==> !blank(trimmed_end(s).last()),
        trimmed_end(s).len() <= s.len(),
        trimmed_end(s) == s.take(trimmed_end(s).len() as int),
    decreases s.len(),
{
    if s.len() > 0 && blank(s.last()) {
        let t = s.drop_last();
        lemma_trimmed_end_shape(t);
        assert(t.take(trimmed_end(t).len() as int) == s.take(trimmed_end(t).len() as int));
    } else {
        assert(s.take(s.len() as int) == s);
    }
}

/// A text with no blank at either end is its own trimmed form.
pub proof fn lemma_bare_is_trimmed(s: Seq<char>)
    requires
        s.len() > 0 ==> !blank(s.first()) && !blank(s.last()),
    ensures
        trimmed(s) == s,
{
}

/// Escaping leaves no space behind, keeps an empty text empty, and keeps the
/// first and the last character wherever that character is no space.
pub proof fn lemma_escaped_shape(s: Seq<char>)
    ensures
        !escaped(s).contains(' '),
        escaped(s).len() >= s.len(),
        s.len() > 0 && s.first() != ' ' ==> escaped(s).first() == s.first(),
        s.len() > 0 && s.last() != ' ' ==> escaped(s).last() == s.last(),
    decreases s.len(),
{
    if s.len() > 0 {
        let t = s.drop_last();
        lemma_escaped_shape(t);
        let head = escaped(t);
        let tail = escaped_char(s.last());
        assert forall|i: int| 0 <= i < (head + tail).len() implies (head + tail)[i] != ' ' by {
            if i < head.len() {
                assert(head.contains(head[i]));
            }
        }
        if t.len() > 0 {
            assert(t.first() == s.first());
        }
    }
}

/// A text without a space is its own escaped form.
pub proof fn lemma_spaceless_is_escaped(s: Seq<char>)
    requires
        !s.contains(' '),
    ensures
        escaped(s) == s,
    decreases s.len(),
{
    if s.len() > 0 {
        let t = s.drop_last();
        assert forall|i: int| 0 <= i < t.len() implies t[i] != ' ' by {
            assert(s.contains(s[i]));
        }
        lemma_spaceless_is_escaped(t);
        assert(s.contains(s.last()));
        assert(t + seq![s.last()] == s);
    }
}

/// An encoded text has no blank at either end and no space, and encoding it
/// again changes nothing.
pub proof fn lemma_encoded_is_fixed(s: Seq<char>)
    ensures
        encoded(s).len() > 0 ==> !blank(encoded(s).first()) && !blank(encoded(s).last()),
        !encoded(s).contains(' '),
        encoded(encoded(s)) == encoded(s),
{
    let t = trimmed(s);
    lemma_trimmed_bare(s);
    lemma_escaped_shape(t);
    let e = escaped(t);
    lemma_bare_is_trimmed(e);
    lemma_spaceless_is_escaped(e);
}

/// Normalising a word that is in normal form gives the word back.
pub proof fn lemma_normalized_is_fixed(s: Seq<char>)
    requires
        is_normalized(s),
    ensures
        normalized(s) == s,
{
    lemma_bare_is_trimmed(s);
    lemma_spaceless_is_escaped(s);
}

/// Normalising twice gives what normalising once gives, for every word whose
/// normal form lower-casing leaves as it is.
pub proof fn lemma_normalize_twice(word: Seq<char>)
    requires
        lowercased(normalized(word)) == normalized(word),
    ensures
        is_normalized(normalized(word)),
        normalized(normalized(word)) == normalized(word),
{
    lemma_encoded_is_fixed(lowercased(word));
    lemma_normalized_is_fixed(normalized(word));
}

} // verus!
