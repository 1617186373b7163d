//! Text that crosses the boundary to the panel: names it reports as C
//! character arrays, and the paths of the fonts it is given.

use vstd::prelude::*;

verus! {

/// The directory the fonts are looked for in, relative to where the program runs.
pub const FONT_PATH: &'static str = "fonts/";

/// `String::push`: the character is appended and nothing else changes.
#[verifier::external_body]
fn push_char(s: &mut String, c: char)
    ensures
        final(s)@ == old(s)@.push(c),
{
    s.push(c)
}

/// The characters of a C character array: each byte that is not NUL, as the
/// character with that code.
pub open spec fn name_chars(bytes: Seq<u8>) -> Seq<char>
    decreases bytes.len(),
{
    if bytes.len() == 0 {
        seq![]
    } else if bytes.last() == 0 {
        name_chars(bytes.drop_last())
    } else {
        name_chars(bytes.drop_last()).push(bytes.last() as char)
    }
}

/// The path under which a font file of the given name is registered.
pub open spec fn font_path_of(file_name: Seq<char>) -> Seq<char> {
    FONT_PATH@ + file_name
}

/// The character with the code of the byte.
pub fn to_char(b: u8) -> (c: char)
    ensures
        c == b as char,
        c as u32 == b as u32,
{
    b as char
}

/// A fixed C character array as a string, NUL bytes left out.
pub fn x8_to_string(arr: &[u8; 32]) -> (name: String)
    ensures
        name@ == name_chars(arr@),
        name@.len() <= 32,
{
    let mut name = String::new();
    let mut i: usize = 0;
    while i < 32
        invariant
            i <= 32,
            arr@.len() == 32,
            name@ == name_chars(arr@.take(i as int)),
            name@.len() <= i,
        decreases 32 - i,
    {
        proof {
            assert(arr@.take(i + 1).drop_last() =~= arr@.take(i as int));
        }
        let b: u8 = arr[i];
        if b != 0 {
            push_char(&mut name, to_char(b));
        }
        i += 1;
    }
    proof {
        assert(arr@.take(32) =~= arr@);
    }
    name
}

/// Whether a text holds a NUL character. Such a text cannot cross to the
/// panel, whose strings end at the first NUL.
pub fn has_nul(text: &str) -> (found: bool)
    ensures
        found == text@.contains('\0'),
{
    let mut found = false;
    for c in it: text.chars()
        invariant
            it.seq() == text@,
            found == text@.take(it.index() as int).contains('\0'),
    {
        proof {
            let done = text@.take(it.index() as int);
            let more = text@.take(it.index() + 1);
            assert(more =~= done.push(c));
            assert(more.contains('\0') == (done.contains('\0') || c == '\0')) by {
                if done.contains('\0') {
                    let k = choose|k: int| 0 <= k < done.len() && done[k] == '\0';
                    assert(more[k] == '\0');
                }
                if c == '\0' {
                    assert(more[more.len() - 1] == '\0');
                }
            }
        }
        if c == '\0' {
            found = true;
        }
    }
    proof {
        assert(text@.take(text@.len() as int) =~= text@);
    }
    found
}

/// The path under which a font file of the given name is registered.
pub fn font_path(file_name: &str) -> (path: String)
    ensures
        path@ == font_path_of(file_name@),
{
    let mut path = String::new();
    path.append(FONT_PATH);
    path.append(file_name);
    path
}

} // verus!
