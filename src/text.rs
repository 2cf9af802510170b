//! Text helpers: field-name normalisation, exact comparison and line joining.
use vstd::prelude::*;
use vstd::string::StrSliceExecFns;
use vstd::string::StringExecFns;

verus! {

/// What `str::to_lowercase` makes of a character sequence.
pub uninterp spec fn lower_of(s: Seq<char>) -> Seq<char>;

/// What `str::trim` keeps of a character sequence.
pub uninterp spec fn trim_of(s: Seq<char>) -> Seq<char>;

/// A character that normalisation turns into an underscore.
pub open spec fn is_separator(c: char) -> bool {
    c == ' ' || c == '-' || c == '\n'
}

/// Each space, hyphen and line break replaced by an underscore, one for one.
pub open spec fn underscored(s: Seq<char>) -> Seq<char> {
    s.map_values(|c: char| if is_separator(c) { '_' } else { c })
}

/// A field name: lower-cased, trimmed at both ends, separators replaced.
pub open spec fn normalized(s: Seq<char>) -> Seq<char> {
    underscored(trim_of(lower_of(s)))
}

/// Fields joined with commas.
pub open spec fn joined(fields: Seq<Seq<char>>) -> Seq<char>
    decreases fields.len(),
{
    if fields.len() == 0 {
        Seq::empty()
    } else if fields.len() == 1 {
        fields[0]
    } else {
        joined(fields.drop_last()).push(',') + fields.last()
    }
}

/// Relies on `str::to_lowercase`: the result depends on the characters alone.
#[verifier::external_body]
fn lowercase(s: &str) -> (r: String)
    ensures
        r@ == lower_of(s@),
{
    s.to_lowercase()
}

/// Relies on `str::trim`: a slice of the input without leading and trailing
/// whitespace.
#[verifier::external_body]
fn trim_ends(s: &str) -> (r: &str)
    ensures
        r@ == trim_of(s@),
{
    s.trim()
}

/// Relies on `String::push`: appends one character at the end.
#[verifier::external_body]
pub(crate) fn push_char(s: &mut String, c: char)
    ensures
        final(s)@ == old(s)@.push(c),
{
    s.push(c)
}

/// Replaces each space, hyphen and line break of `s` by an underscore.
pub fn underscore_separators(s: &str) -> (r: String)
    ensures
        r@ == underscored(s@),
{
    let n = s.unicode_len();
    let mut r = String::new();
    let mut i: usize = 0;
    while i < n
        invariant
            n == s@.len(),
            i <= n,
            r@ == underscored(s@.subrange(0, i as int)),
        decreases n - i,
    {
        let c = s.get_char(i);
        let d = if c == ' ' || c == '-' || c == '\n' {
            '_'
        } else {
            c
        };
        push_char(&mut r, d);
        proof {
            assert(s@.subrange(0, i + 1) =~= s@.subrange(0, i as int).push(c));
            assert(underscored(s@.subrange(0, i + 1)) =~= underscored(
                s@.subrange(0, i as int),
            ).push(d));
        }
        i += 1;
    }
    proof {
        assert(s@.subrange(0, n as int) =~= s@);
    }
    r
}

/// Normalises a header text into a field name: lower-case, trim, and turn
/// each space, hyphen and line break into an underscore.
pub fn format_header(header: String) -> (r: String)
    ensures
        r@ == normalized(header@),
{
    let lower = lowercase(header.as_str());
    let trimmed = trim_ends(lower.as_str());
    underscore_separators(trimmed)
}

/// Whether two texts hold the same characters.
pub fn text_equals(a: &str, b: &str) -> (r: bool)
    ensures
        r == (a@ == b@),
{
    let n = a.unicode_len();
    let m = b.unicode_len();
    if n != m {
        return false;
    }
    let mut i: usize = 0;
    while i < n
        invariant
            n == a@.len(),
            m == b@.len(),
            n == m,
            i <= n,
            forall|k: int| 0 <= k < i ==> a@[k] == b@[k],
        decreases n - i,
    {
        if a.get_char(i) != b.get_char(i) {
            return false;
        }
        i += 1;
    }
    proof {
        assert(a@ =~= b@);
    }
    true
}

/// Joins the fields with commas, with no quoting.
pub fn join_line(fields: &Vec<String>) -> (r: String)
    ensures
        r@ == joined(fields.deep_view()),
{
    let mut r = String::new();
    let mut i: usize = 0;
    while i < fields.len()
        invariant
            i <= fields.len(),
            r@ == joined(fields.deep_view().subrange(0, i as int)),
        decreases fields.len() - i,
    {
        let ghost before = r@;
        if i > 0 {
            push_char(&mut r, ',');
        }
        r.append(fields[i].as_str());
        proof {
            let s = fields.deep_view().subrange(0, i + 1);
            assert(s.drop_last() =~= fields.deep_view().subrange(0, i as int));
            if i == 0 {
                assert(before =~= Seq::<char>::empty());
                assert(r@ =~= s[0]);
            }
        }
        i += 1;
    }
    proof {
        assert(fields.deep_view().subrange(0, fields.len() as int) =~= fields.deep_view());
    }
    r
}

} // verus!
