//! Password generation and random bytes.
use vstd::prelude::*;

use crate::primitives::{os_random_bytes, os_random_u32};

verus! {

/// The shortest password `printable_password` produces.
pub const MIN_PASSWORD_LEN: usize = 16;

/// The number of printable ASCII characters, `'!'` to `'~'`.
pub const PRINTABLE_COUNT: u32 = 94;

/// Whether a character is printable ASCII other than the space: `'!'` to `'~'`.
pub open spec fn is_password_char(c: char) -> bool {
    33 <= (c as u32) && (c as u32) <= 126
}

/// The printable character that a random word selects: the word modulo 94,
/// counted from `'!'`.
pub open spec fn password_char_for(word: u32) -> char {
    ((33 + word % 94) as u8) as char
}

/// The length that `printable_password` gives for a requested length.
pub open spec fn password_len(requested: nat) -> nat {
    if requested < MIN_PASSWORD_LEN { MIN_PASSWORD_LEN as nat } else { requested }
}

/// A password such as `printable_password` generates for a requested length:
/// at least 16 characters, all of them printable.
pub open spec fn is_generated_password(p: Seq<char>, requested: nat) -> bool {
    &&& p.len() == password_len(requested)
    &&& forall|i: int| 0 <= i < p.len() ==> #[trigger] is_password_char(p[i])
}

/// The password that a sequence of random words selects, one character per word.
pub fn password_from_words(words: &[u32]) -> (p: String)
    ensures
        p@ == Seq::new(words@.len(), |i: int| password_char_for(words@[i])),
        forall|i: int| 0 <= i < p@.len() ==> #[trigger] is_password_char(p@[i]),
{
    let mut p = String::new();
    let mut i: usize = 0;
    while i < words.len()
        invariant
            i <= words@.len(),
            p@ == Seq::new(i as nat, |j: int| password_char_for(words@[j])),
            forall|j: int| 0 <= j < p@.len() ==> #[trigger] is_password_char(p@[j]),
        decreases words@.len() - i,
    {
        let offset = (words[i] % PRINTABLE_COUNT) as u8;
        let c = (33u8 + offset) as char;
        assert(c as u32 == 33 + offset) by {
            assert(33 + offset <= 126);
        }
        p.push(c);
        i = i + 1;
        assert(p@ =~= Seq::new(i as nat, |j: int| password_char_for(words@[j])));
    }
    p
}

/// A password of `len` characters, and at least 16: one random 32-bit word
/// from the system's random number generator per character, reduced modulo 94
/// onto the printable ASCII characters.
pub fn printable_password(len: usize) -> (p: String)
    ensures
        is_generated_password(p@, len as nat),
        p@.len() == if len < 16 { 16 } else { len as nat },
        forall|i: int| 0 <= i < p@.len() ==> 33 <= #[trigger] (p@[i] as u32) <= 126,
        exists|words: Seq<u32>| #![trigger words.len()]
            words.len() == password_len(len as nat)
                && p@ == Seq::new(words.len(), |i: int| password_char_for(words[i])),
{
    let n = if len < MIN_PASSWORD_LEN { MIN_PASSWORD_LEN } else { len };
    let mut words: Vec<u32> = Vec::new();
    let mut i: usize = 0;
    while i < n
        invariant
            i <= n,
            words@.len() == i,
        decreases n - i,
    {
        words.push(os_random_u32());
        i = i + 1;
    }
    let p = password_from_words(words.as_slice());
    assert(words@.len() == password_len(len as nat));
    p
}

/// `len` bytes from the system's random number generator.
pub fn random_bytes(len: usize) -> (bytes: Vec<u8>)
    ensures
        bytes@.len() == len,
{
    os_random_bytes(len)
}

/// A generated password has exactly the requested number of characters, but
/// never fewer than 16, and every character lies between `'!'` (33) and `'~'` (126).
pub proof fn lemma_generated_password_shape(p: Seq<char>, requested: nat)
    requires
        is_generated_password(p, requested),
    ensures
        p.len() == if requested < 16 { 16 } else { requested },
        p.len() >= 16,
        forall|i: int| 0 <= i < p.len() ==> 33 <= #[trigger] (p[i] as u32) <= 126,
{
    assert forall|i: int| 0 <= i < p.len() implies 33 <= #[trigger] (p[i] as u32) <= 126 by {
        assert(is_password_char(p[i]));
    }
}

/// Every printable ASCII character can come out of a random word: the word
/// `c - 33` selects `c`, and so does any word 94 above it.
pub proof fn lemma_every_printable_char_possible(c: char, k: u32)
    requires
        33 <= (c as u32) <= 126,
        (c as u32) - 33 + 94 * (k as int) <= u32::MAX,
    ensures
        password_char_for(((c as u32) - 33 + 94 * (k as int)) as u32) == c,
{
    let w = ((c as u32) - 33 + 94 * (k as int)) as u32;
    assert(w % 94 == (c as u32) - 33) by (nonlinear_arith)
        requires
            w == (c as u32) - 33 + 94 * (k as int),
            0 <= (c as u32) - 33 < 94,
    ;
}

} // verus!
