//! Text helpers: the std string operations the library uses, given the
//! meaning their documentation states, and a few small string functions.
use vstd::prelude::*;

verus! {

/// Unicode's `White_Space` property, which `char::is_whitespace` and `str::trim` use.
pub open spec fn is_white_space(c: char) -> bool {
    let n = c as u32;
    (0x9 <= n && n <= 0xd) || n == 0x20 || n == 0x85 || n == 0xa0 || n == 0x1680
        || (0x2000 <= n && n <= 0x200a) || n == 0x2028 || n == 0x2029 || n == 0x202f
        || n == 0x205f || n == 0x3000
}

/// The text with its leading white space removed.
pub open spec fn trim_start_spec(s: Seq<char>) -> Seq<char>
    decreases s.len(),
{
    if s.len() > 0 && is_white_space(s[0]) {
        trim_start_spec(s.drop_first())
    } else {
        s
    }
}

/// The text with its trailing white space removed.
pub open spec fn trim_end_spec(s: Seq<char>) -> Seq<char>
    decreases s.len(),
{
    if s.len() > 0 && is_white_space(s.last()) {
        trim_end_spec(s.drop_last())
    } else {
        s
    }
}

/// The text with leading and trailing white space removed.
pub open spec fn trim_spec(s: Seq<char>) -> Seq<char> {
    trim_end_spec(trim_start_spec(s))
}

/// Text made only of white space trims to nothing.
pub proof fn lemma_trim_of_blank(s: Seq<char>)
    requires
        forall|i: int| 0 <= i < s.len() ==> is_white_space(#[trigger] s[i]),
    ensures
        trim_spec(s).len() == 0,
{
    lemma_trim_start_of_blank(s);
    assert(trim_end_spec(trim_start_spec(s)) == trim_start_spec(s));
}

/// Text made only of white space loses all of it at the front.
proof fn lemma_trim_start_of_blank(s: Seq<char>)
    requires
        forall|i: int| 0 <= i < s.len() ==> is_white_space(#[trigger] s[i]),
    ensures
        trim_start_spec(s).len() == 0,
    decreases s.len(),
{
    if s.len() > 0 {
        let rest = s.drop_first();
        assert forall|i: int| 0 <= i < rest.len() implies is_white_space(#[trigger] rest[i]) by {
            assert(rest[i] == s[i + 1]);
        }
        assert(is_white_space(s[0]));
        lemma_trim_start_of_blank(rest);
    }
}

/// `String::push` appends one character (std documentation).
pub assume_specification[ String::push ](string: &mut String, ch: char)
    ensures
        final(string)@ == old(string)@.push(ch),
;

/// `String::pop` removes and returns the last character, or returns `None`
/// on an empty string (std documentation).
pub assume_specification[ String::pop ](string: &mut String) -> (r: Option<char>)
    ensures
        old(string)@.len() == 0 ==> r is None,
        old(string)@.len() == 0 ==> final(string)@ == old(string)@,
        old(string)@.len() > 0 ==> r == Some(old(string)@.last()),
        old(string)@.len() > 0 ==> final(string)@ == old(string)@.drop_last(),
;

/// `String::clear` leaves the string empty (std documentation).
pub assume_specification[ String::clear ](string: &mut String)
    ensures
        final(string)@ == Seq::<char>::empty(),
;

/// `str::trim` removes leading and trailing white space, as Unicode's
/// `White_Space` property defines it (std documentation).
pub assume_specification<'a>[ str::trim ](s: &'a str) -> (r: &'a str)
    ensures
        r@ == trim_spec(s@),
;

/// Whether two strings hold the same characters.
pub fn same_text(a: &str, b: &str) -> (r: bool)
    ensures
        r == (a@ == b@),
{
    String::from_str(a) == String::from_str(b)
}

/// A string of `count` copies of `c`.
pub fn repeat_char(c: char, count: usize) -> (r: String)
    ensures
        r@ == Seq::new(count as nat, |_i: int| c),
{
    let mut r = String::new();
    let mut i: usize = 0;
    while i < count
        invariant
            i <= count,
            r@ == Seq::new(i as nat, |_i: int| c),
        decreases count - i,
    {
        r.push(c);
        i = i + 1;
        assert(r@ =~= Seq::new(i as nat, |_i: int| c));
    }
    r
}

/// Whether the text is empty once leading and trailing white space is removed.
pub fn is_blank(s: &str) -> (r: bool)
    ensures
        r == (trim_spec(s@).len() == 0),
{
    s.trim().is_empty()
}

} // verus!
