//! The parameter block: the header in which a converted template declares
//! its parameters and their types.

use vstd::prelude::*;
use vstd::string::*;

verus! {

/// The uppercase form of `c` as `char::to_uppercase` gives it: one character
/// for most, several for a few.
pub uninterp spec fn char_uppercase(c: char) -> Seq<char>;

/// A template parameter: its name, without sigil, and its declared type.
#[derive(Clone, Debug)]
pub struct Parameter {
    pub name: String,
    pub dtype: String,
}

/// A parameter as contracts see it.
pub struct ParameterView {
    pub name: Seq<char>,
    pub dtype: Seq<char>,
}

impl View for Parameter {
    type V = ParameterView;

    open spec fn view(&self) -> ParameterView {
        ParameterView { name: self.name@, dtype: self.dtype@ }
    }
}

/// The views of a list of parameters.
pub open spec fn views(params: Seq<Parameter>) -> Seq<ParameterView> {
    Seq::new(params.len(), |i: int| params[i]@)
}

/// `s` with `first` in the place of its first character; an empty `s` stays
/// empty.
pub open spec fn first_replaced(s: Seq<char>, first: Seq<char>) -> Seq<char> {
    if s.len() == 0 {
        Seq::empty()
    } else {
        first + s.subrange(1, s.len() as int)
    }
}

/// `s` with its first character in uppercase and the rest as it is.
pub open spec fn capitalized(s: Seq<char>) -> Seq<char> {
    if s.len() == 0 {
        Seq::empty()
    } else {
        first_replaced(s, char_uppercase(s[0]))
    }
}

/// One entry of the block: the capitalized type, then the name with its
/// sigil.
pub open spec fn declaration(p: ParameterView) -> Seq<char> {
    capitalized(p.dtype) + " $"@ + p.name
}

/// The entries after the first up to entry `n`, each on an indented line of
/// its own.
pub open spec fn continuation(params: Seq<ParameterView>, n: nat) -> Seq<char>
    decreases n,
{
    if n <= 1 {
        Seq::empty()
    } else {
        continuation(params, (n - 1) as nat) + "\n      "@ + declaration(params[n - 1]) + ","@
    }
}

/// The parameter block. One entry makes a block of one line; with more, the
/// first entry stands on the opening line, each further one on a line of its
/// own, and the block is closed on its own line. A line break ends the block.
pub open spec fn parameter_block(params: Seq<ParameterView>) -> Seq<char> {
    if params.len() == 1 {
        "<%- | "@ + declaration(params[0]) + " | -%>\n"@
    } else {
        "<%- | "@ + declaration(params[0]) + ","@ + continuation(params, params.len())
            + "\n| -%>\n"@
    }
}

/// Calls `char::to_uppercase` and collects the characters it yields.
/// Trusted: the result is what `char_uppercase` names.
#[verifier::external_body]
fn to_uppercase(c: char) -> (out: String)
    ensures
        out@ == char_uppercase(c),
{
    c.to_uppercase().collect()
}

/// Puts `first` in the place of the first character of `s`.
pub fn replace_first(s: &str, first: &str) -> (out: String)
    ensures
        out@ == first_replaced(s@, first@),
{
    let n = s.unicode_len();
    if n == 0 {
        String::new()
    } else {
        let mut out = String::from_str(first);
        out.append(s.substring_char(1, n));
        out
    }
}

/// Writes the first character of `s` in uppercase.
pub fn capitalize_first(s: &str) -> (out: String)
    ensures
        out@ == capitalized(s@),
{
    if s.unicode_len() == 0 {
        String::new()
    } else {
        let upper = to_uppercase(s.get_char(0));
        replace_first(s, upper.as_str())
    }
}

/// Writes one entry of the block.
pub fn declare(p: &Parameter) -> (out: String)
    ensures
        out@ == declaration(p@),
{
    let mut out = capitalize_first(p.dtype.as_str());
    out.append(" $");
    out.append(p.name.as_str());
    out
}

/// Writes the parameter block for a list of at least one parameter.
pub fn build_parameter_block(params: &Vec<Parameter>) -> (out: String)
    requires
        params.len() > 0,
    ensures
        out@ == parameter_block(views(params@)),
{
    let ghost ps = views(params@);
    let mut out = String::from_str("<%- | ");
    assert(ps[0] == params[0]@);
    out.append(declare(&params[0]).as_str());
    let n = params.len();
    if n == 1 {
        out.append(" | -%>\n");
    } else {
        out.append(",");
        let ghost head = out@;
        let mut i: usize = 1;
        assert(out@ =~= head + continuation(ps, 1));
        while i < n
            invariant
                1 <= i <= n == params.len(),
                ps == views(params@),
                out@ == head + continuation(ps, i as nat),
            decreases n - i,
        {
            assert(ps[i as int] == params[i as int]@);
            let entry = declare(&params[i]);
            out.append("\n      ");
            out.append(entry.as_str());
            out.append(",");
            assert(out@ =~= head + continuation(ps, (i + 1) as nat));
            i += 1;
        }
        out.append("\n| -%>\n");
    }
    out
}

/// Puts the parameter block before the converted document.
pub fn prepend_block(block: &str, document: &str) -> (out: String)
    ensures
        out@ == block@ + document@,
{
    let mut out = String::from_str(block);
    out.append(document);
    out
}

} // verus!
