//! Names: capitalisation, the conversion of field names into column names,
//! and the names of the types derived from an entity.

use vstd::prelude::*;

verus! {

/// What `char::to_uppercase` yields for `c`.
pub uninterp spec fn char_upper(c: char) -> Seq<char>;

/// What `str::to_uppercase` returns for `s`.
pub uninterp spec fn str_upper(s: Seq<char>) -> Seq<char>;

/// Whether the regular-expression split of `s` at its inner underscores
/// completes (the engine may stop at its backtracking limit).
pub uninterp spec fn inner_split_succeeds(s: Seq<char>) -> bool;

/// Relies on `char::to_uppercase`: the upper-case mapping of one character,
/// which may be several characters long.
#[verifier::external_body]
fn uppercase_char(c: char) -> (r: String)
    ensures
        r@ == char_upper(c),
{
    c.to_uppercase().collect::<String>()
}

/// Relies on `str::to_uppercase`: the upper-case mapping of a string.
#[verifier::external_body]
pub(crate) fn uppercase(s: &str) -> (r: String)
    ensures
        r@ == str_upper(s@),
{
    s.to_uppercase()
}

/// Whether position `i` of `s` holds an underscore that is neither the first
/// nor the last character.
pub open spec fn is_inner_underscore(s: Seq<char>, i: int) -> bool {
    0 < i < s.len() - 1 && s[i] == '_'
}

/// The pieces of the first `n` characters of `s` between inner underscores.
pub open spec fn pieces_upto(s: Seq<char>, n: nat) -> Seq<Seq<char>>
    decreases n,
{
    if n == 0 {
        seq![Seq::empty()]
    } else {
        let prev = pieces_upto(s, (n - 1) as nat);
        if is_inner_underscore(s, n - 1) {
            prev.push(Seq::empty())
        } else {
            prev.update(prev.len() - 1, prev.last().push(s[n - 1]))
        }
    }
}

/// The pieces of `s` between its inner underscores, in order; the text with
/// no inner underscore is one piece.
pub open spec fn inner_underscore_pieces(s: Seq<char>) -> Seq<Seq<char>> {
    pieces_upto(s, s.len())
}

pub open spec fn strings_view(v: Seq<String>) -> Seq<Seq<char>> {
    v.map_values(|p: String| p@)
}

/// Relies on fancy_regex: `Regex::new` on the pattern `(?<!^)_(?!$)`, which
/// matches each underscore that neither starts nor ends the text, and
/// `Regex::split`, which yields the text before, between and after the
/// matches. Either may fail, as `inner_split_succeeds` records.
#[verifier::external_body]
fn split_inner_underscores(s: &str) -> (r: Option<Vec<String>>)
    ensures
        r is Some == inner_split_succeeds(s@),
        r matches Some(v) ==> strings_view(v@) == inner_underscore_pieces(s@),
{
    let re = fancy_regex::Regex::new(r"(?<!^)_(?!$)").ok()?;
    re.split(s).map(|p| p.map(|x| x.to_string())).collect::<Result<Vec<String>, _>>().ok()
}

/// `s` with its first character upper-cased.
pub open spec fn capitalized(s: Seq<char>) -> Seq<char> {
    if s.len() == 0 {
        s
    } else {
        char_upper(s[0]) + s.drop_first()
    }
}

/// The concatenation of the pieces, each capitalized.
pub open spec fn capitalized_concat(ps: Seq<Seq<char>>) -> Seq<char>
    decreases ps.len(),
{
    if ps.len() == 0 {
        Seq::empty()
    } else {
        capitalized_concat(ps.drop_last()) + capitalized(ps.last())
    }
}

/// A separator-delimited name in title case with the inner separators removed.
pub open spec fn pascal_case(s: Seq<char>) -> Seq<char> {
    capitalized_concat(inner_underscore_pieces(s))
}

/// Capitalizes the first character of `s`.
pub fn capitalize(s: &str) -> (r: String)
    ensures
        r@ == capitalized(s@),
{
    let n = s.unicode_len();
    if n == 0 {
        String::new()
    } else {
        let first = s.get_char(0);
        let mut r = uppercase_char(first);
        r.append(s.substring_char(1, n));
        proof {
            assert(s@.subrange(1, n as int) =~= s@.drop_first());
        }
        r
    }
}

/// Converts a snake-case name into Pascal case: the pieces between inner
/// underscores are capitalized and joined. A leading or trailing underscore
/// is kept. `None` where the split itself fails.
pub fn snake_case_to_pascal_case(s: &str) -> (r: Option<String>)
    ensures
        r is Some == inner_split_succeeds(s@),
        r matches Some(p) ==> p@ == pascal_case(s@),
{
    let pieces = match split_inner_underscores(s) {
        Some(v) => v,
        None => return None,
    };
    let ghost ps = strings_view(pieces@);
    let mut out = String::new();
    let mut i: usize = 0;
    while i < pieces.len()
        invariant
            i <= pieces@.len(),
            ps == strings_view(pieces@),
            out@ == capitalized_concat(ps.take(i as int)),
        decreases pieces@.len() - i,
    {
        let c = capitalize(pieces[i].as_str());
        out.append(c.as_str());
        proof {
            assert(ps.take(i + 1).drop_last() =~= ps.take(i as int));
        }
        i += 1;
    }
    proof {
        assert(ps.take(pieces@.len() as int) =~= ps);
    }
    Some(out)
}

/// `target` followed by `suffix`.
fn suffixed(target: &str, suffix: &str) -> (r: String)
    ensures
        r@ == target@ + suffix@,
{
    let mut r = String::from_str(target);
    r.append(suffix);
    r
}

/// The name of the data-object type of an entity.
pub fn dao_from_name(target_name: &str) -> (r: String)
    ensures
        r@ == target_name@ + "Dao"@,
{
    suffixed(target_name, "Dao")
}

/// The name of the table type of an entity.
pub fn table_from_name(target_name: &str) -> (r: String)
    ensures
        r@ == target_name@ + "Table"@,
{
    suffixed(target_name, "Table")
}

/// The name of the identifier type of an entity.
pub fn identifier_from_name(target_name: &str) -> (r: String)
    ensures
        r@ == target_name@ + "Identifier"@,
{
    suffixed(target_name, "Identifier")
}

/// The name of the identifier generator type of an entity.
pub fn identifier_generator_from_name(target_name: &str) -> (r: String)
    ensures
        r@ == target_name@ + "Identifier"@ + "Generator"@,
{
    let identifier = identifier_from_name(target_name);
    suffixed(identifier.as_str(), "Generator")
}

} // verus!
