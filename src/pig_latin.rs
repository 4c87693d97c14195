use vstd::prelude::*;
use vstd::string::StringExecFns;

verus! {

/// The words of `s`, as `str::split_whitespace` separates them.
pub uninterp spec fn words_of(s: Seq<char>) -> Seq<Seq<char>>;

/// Relies on `str::split_whitespace`: the words of `s`, in order, which
/// depend on the characters of `s` alone.
#[verifier::external_body]
fn split_words(s: &str) -> (r: Vec<&str>)
    ensures
        r@.map_values(|w: &str| w@) == words_of(s@),
{
    s.split_whitespace().collect()
}

/// Relies on `str::strip_prefix` with a `char` pattern: what follows `c`
/// when `s` starts with it.
#[verifier::external_body]
fn strip_char(s: &str, c: char) -> (r: Option<&str>)
    ensures
        r is Some <==> (s@.len() > 0 && s@[0] == c),
        r matches Some(t) ==> t@ == s@.drop_first(),
{
    s.strip_prefix(c)
}

/// Relies on `String::push`: appends one character.
#[verifier::external_body]
fn push_char(s: &mut String, c: char)
    ensures
        final(s)@ == old(s)@.push(c),
{
    s.push(c)
}

pub open spec fn is_vowel(c: char) -> bool {
    c == 'a' || c == 'e' || c == 'i' || c == 'o' || c == 'u'
}

/// One word in pig latin: a word that starts with a vowel gets "-hay"; any
/// other moves its first letter to the end, as "-" then the letter then "ay".
pub open spec fn pig_word(w: Seq<char>) -> Seq<char> {
    if w.len() == 0 {
        Seq::empty()
    } else if is_vowel(w[0]) {
        w + "-hay"@
    } else {
        w.drop_first().push('-').push(w[0]) + "ay"@
    }
}

/// The words joined by single spaces.
pub open spec fn join_spaced(ws: Seq<Seq<char>>) -> Seq<char>
    decreases ws.len(),
{
    if ws.len() == 0 {
        Seq::empty()
    } else if ws.len() == 1 {
        ws[0]
    } else {
        join_spaced(ws.drop_last()) + " "@ + ws.last()
    }
}

/// Each word in pig latin, joined by single spaces.
pub open spec fn pig_sentence(ws: Seq<Seq<char>>) -> Seq<char> {
    join_spaced(ws.map_values(|w: Seq<char>| pig_word(w)))
}

pub fn pig_latin_vowel(word: &str) -> (r: String)
    ensures
        r@ == word@ + "-hay"@,
{
    let mut result = String::from_str(word);
    result.append("-hay");
    result
}

pub fn pig_latin_consonant(first: char, rest: &str) -> (r: String)
    ensures
        r@ == rest@.push('-').push(first) + "ay"@,
{
    let mut result = String::from_str(rest);
    push_char(&mut result, '-');
    push_char(&mut result, first);
    result.append("ay");
    result
}

/// One word in pig latin; the empty word stays empty.
pub fn pig_latin_word(word: &str) -> (r: String)
    ensures
        r@ == pig_word(word@),
{
    broadcast use vstd::string::axiom_spec_iter, vstd::string::next_postcondition;

    let mut chars = word.chars();
    match chars.next() {
        None => String::new(),
        Some(first) => {
            if first == 'a' || first == 'e' || first == 'i' || first == 'o' || first == 'u' {
                pig_latin_vowel(word)
            } else {
                match strip_char(word, first) {
                    Some(rest) => pig_latin_consonant(first, rest),
                    None => String::new(),
                }
            }
        },
    }
}

/// The given words in pig latin, joined by single spaces.
pub fn pig_latin_words(words: &[&str]) -> (r: String)
    ensures
        r@ == pig_sentence(words@.map_values(|w: &str| w@)),
{
    let ghost ws = words@.map_values(|w: &str| w@);
    let mut result = String::new();
    let mut i: usize = 0;
    while i < words.len()
        invariant
            i <= words@.len(),
            ws == words@.map_values(|w: &str| w@),
            result@ == pig_sentence(ws.subrange(0, i as int)),
        decreases words@.len() - i,
    {
        let ghost pre = ws.subrange(0, i as int).map_values(|w: Seq<char>| pig_word(w));
        let ghost post = ws.subrange(0, i + 1).map_values(|w: Seq<char>| pig_word(w));
        assert(post.drop_last() =~= pre);
        let word = pig_latin_word(words[i]);
        if i > 0 {
            result.append(" ");
        }
        result.append(word.as_str());
        proof {
            assert(post.last() == word@);
            if i == 0 {
                assert(result@ =~= post[0]);
            }
        }
        i = i + 1;
    }
    assert(ws.subrange(0, words@.len() as int) =~= ws);
    result
}

/// The sentence in pig latin: each whitespace-separated word translated,
/// joined by single spaces.
pub fn pig_latin(sentence: &str) -> (r: String)
    ensures
        r@ == pig_sentence(words_of(sentence@)),
{
    let words = split_words(sentence);
    pig_latin_words(words.as_slice())
}

} // verus!
