//! Preparing object bytes for an on-screen text preview.

use vstd::prelude::*;

use crate::util::{chars_of, chars_to_string, lossy_utf8_of, to_preview_string as decode_bytes};

verus! {

/// Whether a character counts as trailing whitespace: the result depends
/// on the character alone.
pub uninterp spec fn whitespace_of(c: char) -> bool;

/// Relies on `char::is_whitespace`: the result depends on the character
/// alone, and the ASCII blank characters count as whitespace.
#[verifier::external_body]
fn is_whitespace_char(c: char) -> (r: bool)
    ensures
        r == whitespace_of(c),
        c == ' ' || c == '\t' || c == '\n' || c == '\r' ==> r,
{
    c.is_whitespace()
}

/// What one character contributes once tabs are replaced: a tab renders
/// badly, so it becomes four spaces.
pub open spec fn expand_tab(c: char) -> Seq<char> {
    if c == '\t' {
        seq![' ', ' ', ' ', ' ']
    } else {
        seq![c]
    }
}

/// The text with every tab replaced by four spaces.
pub open spec fn tab_expanded(s: Seq<char>) -> Seq<char>
    decreases s.len(),
{
    if s.len() == 0 {
        Seq::empty()
    } else {
        tab_expanded(s.drop_last()) + expand_tab(s.last())
    }
}

/// The text without its trailing whitespace.
pub open spec fn trimmed_end(s: Seq<char>) -> Seq<char>
    decreases s.len(),
{
    if s.len() > 0 && whitespace_of(s.last()) {
        trimmed_end(s.drop_last())
    } else {
        s
    }
}

/// The preview form of a text: tabs replaced by four spaces, and, when
/// the text ends in a newline, trailing whitespace removed.
pub open spec fn preview_normalized(s: Seq<char>) -> Seq<char> {
    let t = tab_expanded(s);
    if t.len() > 0 && t.last() == '\n' {
        trimmed_end(t)
    } else {
        t
    }
}

/// The bytes decoded as text and normalized for the preview pane.
pub fn to_preview_string(bytes: &[u8]) -> (r: String)
    ensures
        r@ == preview_normalized(lossy_utf8_of(bytes@)),
{
    let decoded = decode_bytes(bytes);
    let cs = chars_of(decoded.as_str());
    let n = cs.len();
    let mut v: Vec<char> = Vec::new();
    let mut i: usize = 0;
    while i < n
        invariant
            n == cs@.len(),
            i <= n,
            v@ == tab_expanded(cs@.take(i as int)),
        decreases n - i,
    {
        proof {
            assert(cs@.take(i as int + 1).drop_last() =~= cs@.take(i as int));
            assert(cs@.take(i as int + 1).last() == cs@[i as int]);
        }
        let c = cs[i];
        if c == '\t' {
            v.push(' ');
            v.push(' ');
            v.push(' ');
            v.push(' ');
        } else {
            v.push(c);
        }
        proof {
            assert(v@ =~= tab_expanded(cs@.take(i as int)) + expand_tab(cs@[i as int]));
        }
        i = i + 1;
    }
    proof {
        assert(cs@.take(n as int) =~= cs@);
    }
    let ghost expanded = tab_expanded(cs@);
    if v.len() > 0 && v[v.len() - 1] == '\n' {
        while v.len() > 0 && is_whitespace_char(v[v.len() - 1])
            invariant
                trimmed_end(v@) == trimmed_end(expanded),
            decreases v@.len(),
        {
            v.pop();
        }
        proof {
            assert(trimmed_end(v@) == v@);
        }
    }
    chars_to_string(&v)
}

/// True for the control characters that a preview line drops: the C0
/// range, delete, and the C1 range.
pub open spec fn spec_is_control(c: char) -> bool {
    (c as u32) < 32 || (127 <= c as u32 && c as u32 <= 159)
}

/// Whether `c` is a control character.
pub fn is_control_char(c: char) -> (r: bool)
    ensures
        r == spec_is_control(c),
{
    let u = c as u32;
    u < 32 || (127 <= u && u <= 159)
}

/// The text without its control characters.
pub open spec fn without_control(s: Seq<char>) -> Seq<char>
    decreases s.len(),
{
    if s.len() == 0 {
        Seq::empty()
    } else {
        without_control(s.drop_last()) + (if spec_is_control(s.last()) {
            Seq::<char>::empty()
        } else {
            seq![s.last()]
        })
    }
}

/// One preview line with its control characters removed.
pub fn drop_control_chars(s: &str) -> (r: String)
    ensures
        r@ == without_control(s@),
{
    let cs = chars_of(s);
    let n = cs.len();
    let mut v: Vec<char> = Vec::new();
    let mut i: usize = 0;
    while i < n
        invariant
            n == cs@.len(),
            cs@ == s@,
            i <= n,
            v@ == without_control(s@.take(i as int)),
        decreases n - i,
    {
        proof {
            assert(s@.take(i as int + 1).drop_last() =~= s@.take(i as int));
            assert(s@.take(i as int + 1).last() == s@[i as int]);
        }
        let c = cs[i];
        if !is_control_char(c) {
            v.push(c);
        }
        proof {
            assert(v@ =~= without_control(s@.take(i as int)) + (if spec_is_control(s@[i as int]) {
                Seq::<char>::empty()
            } else {
                seq![s@[i as int]]
            }));
        }
        i = i + 1;
    }
    proof {
        assert(s@.take(n as int) =~= s@);
    }
    chars_to_string(&v)
}

/// The header data of the preview widget: which file is shown and, when a
/// historical version is previewed, which one.
#[derive(Debug, PartialEq, Eq)]
pub struct TextPreview {
    pub file_name: String,
    pub file_version_id: Option<String>,
}

impl TextPreview {
    pub fn new(file_name: String, file_version_id: Option<String>) -> (r: TextPreview)
        ensures
            r.file_name == file_name,
            r.file_version_id == file_version_id,
    {
        TextPreview { file_name, file_version_id }
    }
}

} // verus!
