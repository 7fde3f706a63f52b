//! Small string helpers shared by the widgets.

use vstd::prelude::*;

verus! {

/// Appends one char to a `String` (std's `String::push`).
///
/// Trusted: `String::push` is documented to append the char to the end of the
/// string, so the new contents are the old contents followed by `c`.
#[verifier::external_body]
pub(crate) fn push_char(s: &mut String, c: char)
    ensures
        final(s)@ == old(s)@.push(c),
{
    s.push(c);
}

/// Number of chars in `s`.
pub fn char_count(s: &str) -> (n: usize)
    ensures
        n as nat == s@.len(),
{
    s.unicode_len()
}

/// The chars of `s`, in order.
pub fn chars_of(s: &str) -> (v: Vec<char>)
    ensures
        v@ == s@,
{
    let n = s.unicode_len();
    let mut v: Vec<char> = Vec::new();
    let mut i: usize = 0;
    while i < n
        invariant
            n as nat == s@.len(),
            i <= n,
            v@ == s@.subrange(0, i as int),
        decreases n - i,
    {
        v.push(s.get_char(i));
        i = i + 1;
    }
    assert(v@ =~= s@);
    v
}

/// A `String` holding exactly the chars of `v`.
pub fn string_of(v: &Vec<char>) -> (s: String)
    ensures
        s@ == v@,
{
    let mut s = String::new();
    let mut i: usize = 0;
    while i < v.len()
        invariant
            i <= v.len(),
            s@ == v@.subrange(0, i as int),
        decreases v.len() - i,
    {
        push_char(&mut s, v[i]);
        i = i + 1;
    }
    assert(s@ =~= v@);
    s
}

} // verus!

verus! {

/// Owned copies of a list of strings.
pub fn strings_of(items: &[&str]) -> (v: Vec<String>)
    ensures
        v@.len() == items@.len(),
        forall|i: int| 0 <= i < items@.len() ==> (#[trigger] v@[i])@ == items@[i]@,
{
    let mut v: Vec<String> = Vec::new();
    let mut i: usize = 0;
    while i < items.len()
        invariant
            i <= items@.len(),
            v@.len() == i,
            forall|k: int| 0 <= k < i ==> (#[trigger] v@[k])@ == items@[k]@,
        decreases items@.len() - i,
    {
        v.push(String::from_str(items[i]));
        i = i + 1;
    }
    v
}

} // verus!

verus! {

/// Removes the last char of a `String` (std's `String::pop`).
///
/// Trusted: `String::pop` is documented to remove the last char and return
/// it, or return `None` and leave the string unchanged when it is empty.
#[verifier::external_body]
pub(crate) fn pop_char(s: &mut String) -> (r: Option<char>)
    ensures
        old(s)@.len() == 0 ==> r is None && final(s)@ == old(s)@,
        old(s)@.len() > 0 ==> r == Some(old(s)@.last()) && final(s)@ == old(s)@.drop_last(),
{
    s.pop()
}

} // verus!

verus! {

/// `n` copies of `c`.
pub open spec fn repeat_char(c: char, n: nat) -> Seq<char> {
    Seq::new(n, |i: int| c)
}

/// Append `n` copies of `c` to `v`.
pub fn push_repeat(v: &mut Vec<char>, c: char, n: usize)
    ensures
        final(v)@ == old(v)@ + repeat_char(c, n as nat),
{
    let mut i: usize = 0;
    while i < n
        invariant
            i <= n,
            v@ == old(v)@ + repeat_char(c, i as nat),
        decreases n - i,
    {
        v.push(c);
        i = i + 1;
        assert(v@ =~= old(v)@ + repeat_char(c, i as nat));
    }
}

/// Append the chars of `s` to `v`.
pub fn push_str(v: &mut Vec<char>, s: &str)
    ensures
        final(v)@ == old(v)@ + s@,
{
    let mut c = chars_of(s);
    v.append(&mut c);
}

/// Append the first `n` chars of `s` (all of them when shorter).
pub fn push_prefix(v: &mut Vec<char>, s: &str, n: usize)
    ensures
        final(v)@ == old(v)@ + (if n >= s@.len() { s@ } else { s@.take(n as int) }),
{
    let c = chars_of(s);
    let end = if n >= c.len() {
        c.len()
    } else {
        n
    };
    let mut i: usize = 0;
    while i < end
        invariant
            end <= c@.len(),
            c@ == s@,
            i <= end,
            v@ == old(v)@ + s@.take(i as int),
        decreases end - i,
    {
        v.push(c[i]);
        i = i + 1;
        assert(v@ =~= old(v)@ + s@.take(i as int));
    }
    assert(s@.take(end as int) =~= (if n >= s@.len() { s@ } else { s@.take(n as int) }));
}

} // verus!

verus! {

/// Offset that centers `content` cells in `width` cells (0 when it does not
/// fit).
pub open spec fn center_offset_of(width: nat, content: nat) -> nat {
    if content >= width {
        0
    } else {
        ((width - content) / 2) as nat
    }
}

/// Executable [`center_offset_of`].
pub fn center_offset(width: u16, content: usize) -> (o: u16)
    ensures
        o == center_offset_of(width as nat, content as nat),
{
    if content >= width as usize {
        0
    } else {
        ((width as usize - content) / 2) as u16
    }
}

} // verus!
