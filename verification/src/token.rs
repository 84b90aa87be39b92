//! Generation of confirmation tokens: fixed-length alphanumeric strings drawn
//! from a cryptographically strong random source.
use vstd::prelude::*;

verus! {

/// Length of a confirmation token, in characters.
pub const TOKEN_LEN: usize = 25;

/// Whether `c` belongs to the token alphabet: ASCII digits and letters.
pub open spec fn is_token_char(c: char) -> bool {
    ('0' <= c && c <= '9') || ('A' <= c && c <= 'Z') || ('a' <= c && c <= 'z')
}

/// The token alphabet in order: digits, upper-case letters, lower-case
/// letters, 62 characters in all.
pub open spec fn token_char_of(d: int) -> char {
    if d < 10 {
        (0x30 + d) as char
    } else if d < 36 {
        (0x41 + (d - 10)) as char
    } else {
        (0x61 + (d - 36)) as char
    }
}

/// A well-formed token: exactly [`TOKEN_LEN`] characters, all from the token
/// alphabet.
pub open spec fn token_is_wellformed(t: Seq<char>) -> bool {
    &&& t.len() == TOKEN_LEN
    &&& forall|i: int| 0 <= i < t.len() ==> is_token_char(#[trigger] t[i])
}

/// Relies on `rand::random::<u64>`: each call draws one 64-bit word,
/// uniformly, from the thread-local cryptographically secure generator.
/// Nothing is promised of the values.
#[verifier::external_body]
fn random_words(n: usize) -> (r: Vec<u64>)
    ensures
        r@.len() == n as nat,
{
    let mut out = Vec::with_capacity(n);
    for _ in 0..n {
        out.push(rand::random::<u64>());
    }
    out
}

/// Relies on `String::push`: appends the given character to the end of the
/// string.
#[verifier::external_body]
fn push_char(s: &mut String, c: char)
    ensures
        final(s)@ == old(s)@.push(c),
{
    s.push(c)
}

/// Maps one byte onto the 62-character token alphabet.
fn token_char(d: u8) -> (c: char)
    requires
        d < 62,
    ensures
        c == token_char_of(d as int),
        is_token_char(c),
{
    if d < 10 {
        (0x30 + d) as char
    } else if d < 36 {
        (0x41 + (d - 10)) as char
    } else {
        (0x61 + (d - 36)) as char
    }
}

/// Spells out a word string over the token alphabet, one character per
/// word, each word reduced modulo the alphabet size.
pub fn token_from_words(words: &Vec<u64>) -> (t: String)
    ensures
        t@.len() == words@.len(),
        forall|i: int|
            0 <= i < words@.len() ==> t@[i] == token_char_of(words@[i] as int % 62),
{
    let mut t = String::new();
    let mut i: usize = 0;
    while i < words.len()
        invariant
            0 <= i <= words@.len(),
            t@.len() == i as nat,
            forall|j: int| 0 <= j < i ==> t@[j] == token_char_of(words@[j] as int % 62),
        decreases words@.len() - i,
    {
        let d = (words[i] % 62) as u8;
        let c = token_char(d);
        push_char(&mut t, c);
        i += 1;
    }
    t
}

/// Draws a fresh confirmation token: [`TOKEN_LEN`] alphanumeric characters,
/// each read off one 64-bit draw from a cryptographically strong source, so
/// the characters are uniform up to a negligible reduction bias. Collisions
/// with earlier tokens are improbable, and the store enforces uniqueness as
/// a backstop.
pub fn generate_token() -> (t: String)
    ensures
        token_is_wellformed(t@),
{
    let words = random_words(TOKEN_LEN);
    let t = token_from_words(&words);
    assert forall|i: int| 0 <= i < t@.len() implies is_token_char(#[trigger] t@[i]) by {
        assert(t@[i] == token_char_of(words@[i] as int % 62));
    }
    t
}

} // verus!
