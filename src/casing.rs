use vstd::prelude::*;

verus! {

/// An ASCII capital letter.
pub open spec fn is_upper(c: char) -> bool {
    'A' <= c && c <= 'Z'
}

/// An ASCII small letter or digit: a character after which a capital starts a new word.
pub open spec fn ends_word(c: char) -> bool {
    ('a' <= c && c <= 'z') || ('0' <= c && c <= '9')
}

/// The ASCII lower-case form of a character; any other character is kept.
pub open spec fn lower_spec(c: char) -> char {
    if is_upper(c) {
        ((c as u32) + 32) as char
    } else {
        c
    }
}

/// What the character at index `i` of `s` becomes in snake case: a capital that follows
/// a small letter or a digit opens a new word, written `_` and its small letter.
pub open spec fn snake_piece(s: Seq<char>, i: int) -> Seq<char> {
    if is_upper(s[i]) && i > 0 && ends_word(s[i - 1]) {
        seq!['_', lower_spec(s[i])]
    } else {
        seq![lower_spec(s[i])]
    }
}

/// The snake-case form of the first `n` characters of `s`.
pub open spec fn snake_prefix(s: Seq<char>, n: int) -> Seq<char>
    decreases n,
{
    if n <= 0 {
        Seq::empty()
    } else {
        snake_prefix(s, n - 1) + snake_piece(s, n - 1)
    }
}

/// The snake-case form of a name: `UserPost` becomes `user_post`.
pub open spec fn snake(s: Seq<char>) -> Seq<char> {
    snake_prefix(s, s.len() as int)
}

pub fn lower(c: char) -> (r: char)
    ensures
        r == lower_spec(c),
{
    if 'A' <= c && c <= 'Z' {
        let b: u8 = c as u8;
        (b + 32) as char
    } else {
        c
    }
}

/// Relies on String::push: the character is added at the end.
#[verifier::external_body]
pub(crate) fn push_char(s: &mut String, c: char)
    ensures
        final(s)@ == old(s)@.push(c),
{
    s.push(c)
}

/// Converts a module name to the snake-case form used for file, directory and module names.
pub fn to_snake_case(name: &str) -> (r: String)
    ensures
        r@ == snake(name@),
{
    let n = name.unicode_len();
    let mut out = String::new();
    let mut i: usize = 0;
    while i < n
        invariant
            n == name@.len(),
            i <= n,
            out@ == snake_prefix(name@, i as int),
        decreases n - i,
    {
        let c = name.get_char(i);
        if 'A' <= c && c <= 'Z' && i > 0 {
            let p = name.get_char(i - 1);
            if ('a' <= p && p <= 'z') || ('0' <= p && p <= '9') {
                push_char(&mut out, '_');
            }
        }
        push_char(&mut out, lower(c));
        i = i + 1;
    }
    out
}

} // verus!
