//! The query compiler: free text to a boolean expression in which every
//! character with a meaning to the search engine is neutralised.
use crate::text::{chars_of, is_white_space, split_words, white_space};
use vstd::prelude::*;
use vstd::string::StringExecFns;

verus! {

/// The characters that the query language of the search engine reserves.
pub open spec fn is_reserved(c: char) -> bool {
    ||| c == '+'
    ||| c == '-'
    ||| c == '='
    ||| c == '&'
    ||| c == '|'
    ||| c == '>'
    ||| c == '<'
    ||| c == '!'
    ||| c == '('
    ||| c == ')'
    ||| c == '{'
    ||| c == '}'
    ||| c == '['
    ||| c == ']'
    ||| c == '^'
    ||| c == '"'
    ||| c == '~'
    ||| c == '*'
    ||| c == '?'
    ||| c == ':'
    ||| c == '\\'
    ||| c == '/'
}

/// What stands for one character in an escaped text: the character itself,
/// behind a backslash where it is reserved.
pub open spec fn escaped_char(c: char) -> Seq<char> {
    if is_reserved(c) {
        seq!['\\', c]
    } else {
        seq![c]
    }
}

/// `s` with a backslash in front of each reserved character.
pub open spec fn escaped(s: Seq<char>) -> Seq<char>
    decreases s.len(),
{
    if s.len() == 0 {
        Seq::empty()
    } else {
        escaped_char(s.first()) + escaped(s.drop_first())
    }
}

/// Whether `s` is a phrase that its author has put in double quotes.
pub open spec fn quoted(s: Seq<char>) -> bool {
    s.len() >= 2 && s.first() == '"' && s.last() == '"'
}

/// Whether `word` is the operator `OR`, in any mix of upper and lower case.
pub open spec fn is_or_operator(word: Seq<char>) -> bool {
    &&& word.len() == 2
    &&& (word[0] == 'O' || word[0] == 'o')
    &&& (word[1] == 'R' || word[1] == 'r')
}

/// The search term that a word other than `OR` compiles to: a quoted phrase
/// as it stands, anything else escaped and put in double quotes.
pub open spec fn term(word: Seq<char>) -> Seq<char> {
    if quoted(word) {
        word
    } else {
        seq!['"'] + escaped(word) + seq!['"']
    }
}

/// Whether a term that follows `words` has to be joined to them with `AND`.
pub open spec fn needs_and(words: Seq<Seq<char>>) -> bool {
    words.len() > 0 && !is_or_operator(words.last())
}

/// The boolean expression for a sequence of words.
pub open spec fn compile_words(words: Seq<Seq<char>>) -> Seq<char>
    decreases words.len(),
{
    if words.len() == 0 {
        Seq::empty()
    } else {
        let init = words.drop_last();
        let word = words.last();
        if is_or_operator(word) {
            compile_words(init) + " OR "@
        } else if needs_and(init) {
            compile_words(init) + " AND "@ + term(word)
        } else {
            compile_words(init) + term(word)
        }
    }
}

/// The boolean expression that free text compiles to.
pub open spec fn compiled(raw: Seq<char>) -> Seq<char> {
    compile_words(split_words(raw))
}

/// Escaping distributes over concatenation.
pub proof fn lemma_escaped_concat(a: Seq<char>, b: Seq<char>)
    ensures
        escaped(a + b) == escaped(a) + escaped(b),
    decreases a.len(),
{
    if a.len() == 0 {
        assert(a + b == b);
    } else {
        assert((a + b).drop_first() == a.drop_first() + b);
        lemma_escaped_concat(a.drop_first(), b);
    }
}

/// Whether every reserved character of `s` is part of an escape: a backslash
/// and, behind it, one reserved character.
pub open spec fn fully_escaped(s: Seq<char>) -> bool
    decreases s.len(),
{
    if s.len() == 0 {
        true
    } else if s[0] == '\\' {
        s.len() >= 2 && is_reserved(s[1]) && fully_escaped(s.skip(2))
    } else {
        !is_reserved(s[0]) && fully_escaped(s.skip(1))
    }
}

/// The text that an escaped text stands for: what is left when the backslash
/// of each escape is taken out.
pub open spec fn unescaped(s: Seq<char>) -> Seq<char>
    decreases s.len(),
{
    if s.len() == 0 {
        Seq::empty()
    } else if s[0] == '\\' && s.len() >= 2 {
        seq![s[1]] + unescaped(s.skip(2))
    } else {
        seq![s[0]] + unescaped(s.skip(1))
    }
}

/// Escaping neutralises every reserved character and loses nothing: in the
/// escaped text each reserved character is part of an escape, and the text
/// that it stands for is the text that was escaped.
pub proof fn lemma_escaped_is_safe(s: Seq<char>)
    ensures
        fully_escaped(escaped(s)),
        unescaped(escaped(s)) == s,
    decreases s.len(),
{
    if s.len() > 0 {
        let c = s.first();
        let rest = s.drop_first();
        let tail = escaped(rest);
        lemma_escaped_is_safe(rest);
        let whole = escaped(s);
        assert(whole == escaped_char(c) + tail);
        if is_reserved(c) {
            assert(whole[0] == '\\' && whole[1] == c);
            assert(whole.skip(2) == tail);
        } else {
            assert(whole[0] == c);
            assert(whole.skip(1) == tail);
        }
        assert(seq![c] + rest == s);
    }
}

/// The term of a word that its author has not quoted is the word escaped,
/// between two double quotes: no reserved character of the word reaches the
/// search engine unescaped.
pub proof fn lemma_term_is_safe(word: Seq<char>)
    requires
        !quoted(word),
    ensures
        term(word) == seq!['"'] + escaped(word) + seq!['"'],
        fully_escaped(escaped(word)),
        unescaped(escaped(word)) == word,
{
    lemma_escaped_is_safe(word);
}

/// Escaping a single character.
pub proof fn lemma_escaped_single(c: char)
    ensures
        escaped(seq![c]) == escaped_char(c),
{
    assert(seq![c].drop_first() == Seq::<char>::empty());
    assert(escaped(seq![c].drop_first()) == Seq::<char>::empty());
    assert(escaped_char(c) + Seq::<char>::empty() == escaped_char(c));
}

/// Decides [`is_reserved`].
pub fn reserved(c: char) -> (b: bool)
    ensures
        b == is_reserved(c),
{
    c == '+' || c == '-' || c == '=' || c == '&' || c == '|' || c == '>' || c == '<' || c == '!'
        || c == '(' || c == ')' || c == '{' || c == '}' || c == '[' || c == ']' || c == '^' || c
        == '"' || c == '~' || c == '*' || c == '?' || c == ':' || c == '\\' || c == '/'
}

/// Appends `escaped(word)` to `out`.
fn push_escaped(out: &mut String, word: &Vec<char>)
    ensures
        final(out)@ == old(out)@ + escaped(word@),
{
    let mut i: usize = 0;
    assert(word@.take(0) == Seq::<char>::empty());
    while i < word.len()
        invariant
            i <= word.len(),
            out@ == old(out)@ + escaped(word@.take(i as int)),
        decreases word.len() - i,
    {
        let c = word[i];
        proof {
            assert(word@.take(i + 1) == word@.take(i as int) + seq![c]);
            lemma_escaped_concat(word@.take(i as int), seq![c]);
            lemma_escaped_single(c);
        }
        if reserved(c) {
            out.push('\\');
        }
        out.push(c);
        i += 1;
    }
    assert(word@.take(word@.len() as int) == word@);
}

/// Appends the characters of `word` to `out`.
fn push_chars(out: &mut String, word: &Vec<char>)
    ensures
        final(out)@ == old(out)@ + word@,
{
    let mut i: usize = 0;
    while i < word.len()
        invariant
            i <= word.len(),
            out@ == old(out)@ + word@.take(i as int),
        decreases word.len() - i,
    {
        out.push(word[i]);
        i += 1;
    }
    assert(word@.take(word@.len() as int) == word@);
}

fn chars_quoted(word: &Vec<char>) -> (b: bool)
    ensures
        b == quoted(word@),
{
    word.len() >= 2 && word[0] == '"' && word[word.len() - 1] == '"'
}

fn chars_or_operator(word: &Vec<char>) -> (b: bool)
    ensures
        b == is_or_operator(word@),
{
    word.len() == 2 && (word[0] == 'O' || word[0] == 'o') && (word[1] == 'R' || word[1] == 'r')
}

/// Appends to `out` what `word` adds to the expression for the words before
/// it, and says whether the next term needs an `AND`.
fn push_word(out: &mut String, word: &Vec<char>, need_and: bool, Ghost(before): Ghost<Seq<Seq<char>>>) -> (next: bool)
    requires
        old(out)@ == compile_words(before),
        need_and == needs_and(before),
    ensures
        final(out)@ == compile_words(before.push(word@)),
        next == needs_and(before.push(word@)),
{
    assert(before.push(word@).drop_last() == before);
    if chars_or_operator(word) {
        out.append(" OR ");
        false
    } else {
        if need_and {
            out.append(" AND ");
        }
        if chars_quoted(word) {
            push_chars(out, word);
        } else {
            out.push('"');
            push_escaped(out, word);
            out.push('"');
        }
        true
    }
}

/// Whether `s` is a phrase in double quotes: at least two characters, the
/// first and the last a double quote.
pub fn is_quoted(s: &str) -> (b: bool)
    ensures
        b == quoted(s@),
{
    let chars = chars_of(s);
    chars_quoted(&chars)
}

/// `s` with a backslash in front of each reserved character.
pub fn escape_special(s: &str) -> (out: String)
    ensures
        out@ == escaped(s@),
{
    let chars = chars_of(s);
    let mut out = String::new();
    push_escaped(&mut out, &chars);
    out
}

/// Compiles free text into a boolean expression: the words are joined with
/// `AND`, an `OR` between two of them is kept, a phrase in double quotes is
/// left as it is, and every other word is escaped and quoted.
pub fn to_simple_qs(raw: &str) -> (out: String)
    ensures
        out@ == compiled(raw@),
{
    let chars = chars_of(raw);
    let mut out = String::new();
    let mut need_and = false;
    let mut word: Vec<char> = Vec::new();
    let ghost mut done: Seq<Seq<char>> = Seq::empty();
    let mut i: usize = 0;
    assert(chars@.take(0) == Seq::<char>::empty());
    while i < chars.len()
        invariant
            i <= chars.len(),
            out@ == compile_words(done),
            need_and == needs_and(done),
            word@.len() == 0 ==> split_words(chars@.take(i as int)) == done && (i == 0
                || is_white_space(chars@[i - 1])),
            word@.len() > 0 ==> split_words(chars@.take(i as int)) == done.push(word@) && i > 0
                && !is_white_space(chars@[i - 1]),
        decreases chars.len() - i,
    {
        let c = chars[i];
        proof {
            assert(chars@.take(i + 1).drop_last() == chars@.take(i as int));
        }
        if white_space(c) {
            if word.len() > 0 {
                need_and = push_word(&mut out, &word, need_and, Ghost(done));
                proof {
                    done = done.push(word@);
                }
                word = Vec::new();
            }
        } else {
            proof {
                let init = chars@.take(i as int);
                if word@.len() > 0 {
                    assert(init.last() == chars@[i - 1]);
                    assert(done.push(word@).drop_last() == done);
                    assert(split_words(chars@.take(i + 1)) == done.push(word@.push(c)));
                } else {
                    assert(word@ == Seq::<char>::empty());
                    assert(seq![c] == word@.push(c));
                    assert(init.len() > 0 ==> init.last() == chars@[i - 1]);
                    assert(split_words(chars@.take(i + 1)) == done.push(word@.push(c)));
                }
            }
            word.push(c);
        }
        i += 1;
    }
    assert(chars@.take(chars@.len() as int) == chars@);
    if word.len() > 0 {
        let _ = push_word(&mut out, &word, need_and, Ghost(done));
    }
    out
}

} // verus!
