//! Text: decimal numbers, prefixes, file names, and bytes read as text.

use vstd::prelude::*;
use vstd::utf8::{decode_utf8, valid_utf8};

verus! {

/// The decimal digit for a number below ten.
pub open spec fn digit(d: int) -> char {
    ('0' as int + d) as char
}

/// A number in decimal digits.
pub open spec fn decimal(n: nat) -> Seq<char>
    decreases n,
{
    if n < 10 {
        seq![digit(n as int)]
    } else {
        decimal(n / 10).push(digit((n % 10) as int))
    }
}

/// A number in decimal digits, with a sign where it is negative.
pub open spec fn signed_decimal(n: int) -> Seq<char> {
    if n < 0 {
        "-"@ + decimal((-n) as nat)
    } else {
        decimal(n as nat)
    }
}

/// The text for a digit.
fn digit_text(d: u32) -> (text: &'static str)
    requires
        d < 10,
    ensures
        text@ == seq![digit(d as int)],
{
    proof {
        reveal_strlit("0");
        reveal_strlit("1");
        reveal_strlit("2");
        reveal_strlit("3");
        reveal_strlit("4");
        reveal_strlit("5");
        reveal_strlit("6");
        reveal_strlit("7");
        reveal_strlit("8");
        reveal_strlit("9");
    }
    match d {
        0 => "0",
        1 => "1",
        2 => "2",
        3 => "3",
        4 => "4",
        5 => "5",
        6 => "6",
        7 => "7",
        8 => "8",
        _ => "9",
    }
}

/// Writes a number in decimal digits behind a text.
fn append_decimal(text: &mut String, n: u32)
    ensures
        final(text)@ == old(text)@ + decimal(n as nat),
    decreases n,
{
    if n >= 10 {
        append_decimal(text, n / 10);
    }
    text.append(digit_text(n % 10));
}

/// The name that a process bears before it is named: its number in angle brackets.
pub open spec fn placeholder_name(pid: i32) -> Seq<char> {
    "<"@ + signed_decimal(pid as int) + ">"@
}

/// Makes the name that a process bears before it is named.
pub(crate) fn make_placeholder_name(pid: i32) -> (name: String)
    ensures
        name@ == placeholder_name(pid),
{
    let mut name: String = "<".to_owned();
    if pid < 0 {
        name.append("-");
        let magnitude: u32 = (-(pid as i64)) as u32;
        append_decimal(&mut name, magnitude);
    } else {
        append_decimal(&mut name, pid as u32);
    }
    name.append(">");
    name
}

/// Whether a text begins with another.
pub open spec fn begins_with(text: Seq<char>, prefix: Seq<char>) -> bool {
    text.len() >= prefix.len() && text.take(prefix.len() as int) == prefix
}

/// Tests whether a text begins with another.
pub(crate) fn starts_with(text: &str, prefix: &str) -> (result: bool)
    ensures
        result == begins_with(text@, prefix@),
{
    let len: usize = prefix.unicode_len();
    text.unicode_len() >= len && text.substring_char(0, len).to_owned() == prefix.to_owned()
}

/// Tests whether two texts are equal.
pub(crate) fn same_text(a: &str, b: &str) -> (result: bool)
    ensures
        result == (a@ == b@),
{
    a.to_owned() == b.to_owned()
}

/// Calls `std::str::from_utf8`: gives the text that the bytes encode, or `None` where they
/// are not valid UTF-8.
#[verifier::external_body]
pub(crate) fn utf8_text(bytes: &[u8]) -> (text: Option<String>)
    ensures
        text is Some <==> valid_utf8(bytes@),
        text is Some ==> text->0@ == decode_utf8(bytes@),
{
    std::str::from_utf8(bytes).ok().map(str::to_string)
}

/// The text that bytes are read as where they need not be valid UTF-8.
pub uninterp spec fn lossy_text(bytes: Seq<u8>) -> Seq<char>;

/// Calls `String::from_utf8_lossy`: gives the text that the bytes encode where they are valid
/// UTF-8. What stands for invalid parts is not spoken of.
#[verifier::external_body]
pub(crate) fn make_lossy_text(bytes: &[u8]) -> (text: String)
    ensures
        text@ == lossy_text(bytes@),
        valid_utf8(bytes@) ==> text@ == decode_utf8(bytes@),
{
    String::from_utf8_lossy(bytes).into_owned()
}

/// The final component of a path: what stands behind the last slash. Slashes at the end and
/// components that say "here" are passed over. A path that ends in "one up", or that names
/// nothing, has none.
pub open spec fn file_name(path: Seq<char>) -> Option<Seq<char>>
    decreases path.len(),
{
    let start = component_start(path, path.len() as int);
    let last = path.skip(start);
    proof {
        lemma_component_start(path, path.len() as int);
    }
    if last == Seq::<char>::empty() || last == seq!['.'] {
        if start == 0 {
            None
        } else {
            file_name(path.take(start - 1))
        }
    } else if last == seq!['.', '.'] {
        None
    } else {
        Some(last)
    }
}

/// Where the component that ends at `end` starts: behind the last slash before `end`.
pub open spec fn component_start(path: Seq<char>, end: int) -> int
    decreases end,
{
    if end <= 0 {
        0
    } else if path[end - 1] == '/' {
        end
    } else {
        component_start(path, end - 1)
    }
}

/// A component starts no later than it ends.
pub proof fn lemma_component_start(path: Seq<char>, end: int)
    requires
        0 <= end <= path.len(),
    ensures
        0 <= component_start(path, end) <= end,
    decreases end,
{
    if end > 0 && path[end - 1] != '/' {
        lemma_component_start(path, end - 1);
    }
}

/// Finds the final component of a path.
pub(crate) fn get_file_name(path: &str) -> (name: Option<String>)
    ensures
        name is Some <==> file_name(path@) is Some,
        name is Some ==> name->0@ == file_name(path@)->0,
{
    let mut end: usize = path.unicode_len();
    assert(path@.take(end as int) =~= path@);
    loop
        invariant
            end <= path@.len(),
            file_name(path@) == file_name(path@.take(end as int)),
        decreases end,
    {
        let ghost prefix = path@.take(end as int);
        let mut start: usize = end;
        while start > 0 && path.get_char(start - 1) != '/'
            invariant
                start <= end <= path@.len(),
                prefix == path@.take(end as int),
                component_start(prefix, end as int) == component_start(prefix, start as int),
            decreases start,
        {
            start = start - 1;
        }
        let last: &str = path.substring_char(start, end);
        proof {
            assert(last@ =~= prefix.skip(start as int));
            reveal_strlit("");
            reveal_strlit(".");
            reveal_strlit("..");
            assert(""@ =~= Seq::<char>::empty());
            assert("."@ =~= seq!['.']);
            assert(".."@ =~= seq!['.', '.']);
        }
        if same_text(last, "") || same_text(last, ".") {
            if start == 0 {
                return None;
            }
            assert(prefix.take(start - 1) =~= path@.take(start - 1));
            end = start - 1;
        } else if same_text(last, "..") {
            return None;
        } else {
            return Some(last.to_owned());
        }
    }
}

} // verus!
