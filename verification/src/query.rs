//! Query strings: named values, encoded pair by pair with `serde_qs` and
//! joined with `&`; and lists of names, joined with commas.

use crate::auth::opt_text;
use crate::text::{decimal, decimal_text, joined};
use vstd::prelude::*;

verus! {

/// The error of `serde_qs`, carried through as an opaque value.
#[verifier::external_type_specification]
#[verifier::external_body]
pub struct ExQueryError(serde_qs::Error);

/// What `serde_qs::to_string` returns for a map with the one entry `name` to
/// `value`: the percent-encoded name, `=`, and the percent-encoded value.
pub uninterp spec fn query_pair_text(name: Seq<char>, value: Seq<char>) -> Result<
    Seq<char>,
    serde_qs::Error,
>;

/// `serde_qs::to_string` on a map with one entry. The contract names the
/// result.
#[verifier::external_body]
pub(crate) fn encode_pair(name: &str, value: &str) -> (r: Result<String, serde_qs::Error>)
    ensures
        match r {
            Ok(text) => query_pair_text(name@, value@) == Ok::<Seq<char>, serde_qs::Error>(text@),
            Err(e) => query_pair_text(name@, value@) == Err::<Seq<char>, serde_qs::Error>(e),
        },
{
    serde_qs::to_string(&std::collections::BTreeMap::from([(name, value)]))
}

/// Joins the parts with commas: the parts in their order, with one comma
/// between neighbours and none at either end.
pub fn join_with_commas(parts: &Vec<String>) -> (text: String)
    ensures
        text@ == joined(parts.deep_view(), seq![',']),
{
    let mut text = String::new();
    let mut i: usize = 0;
    assert(parts.deep_view().take(0) =~= Seq::empty());
    while i < parts.len()
        invariant
            i <= parts.len(),
            text@ == joined(parts.deep_view().take(i as int), seq![',']),
        decreases parts.len() - i,
    {
        let ghost all = parts.deep_view();
        assert(all.take(i + 1).drop_last() =~= all.take(i as int));
        assert(all.take(i + 1).last() == parts[i as int]@);
        if i > 0 {
            proof {
                reveal_strlit(",");
                assert(","@ =~= seq![',']);
            }
            text.append(",");
        }
        text.append(parts[i].as_str());
        assert(text@ =~= joined(all.take(i + 1), seq![',']));
        i += 1;
    }
    assert(parts.deep_view().take(i as int) =~= parts.deep_view());
    text
}

/// A named value of a query string or of a form.
#[derive(Debug, Clone, PartialEq, Eq)]
pub struct Param {
    pub name: String,
    pub value: String,
}

impl View for Param {
    type V = (Seq<char>, Seq<char>);

    open spec fn view(&self) -> (Seq<char>, Seq<char>) {
        (self.name@, self.value@)
    }
}

impl DeepView for Param {
    type V = (Seq<char>, Seq<char>);

    open spec fn deep_view(&self) -> (Seq<char>, Seq<char>) {
        (self.name@, self.value@)
    }
}

/// The query string of a list of named values: each pair encoded, the results
/// joined with `&`, and the first error where a pair cannot be encoded.
pub open spec fn query_text(pairs: Seq<(Seq<char>, Seq<char>)>) -> Result<
    Seq<char>,
    serde_qs::Error,
>
    decreases pairs.len(),
{
    if pairs.len() == 0 {
        Ok(Seq::empty())
    } else {
        match query_text(pairs.drop_last()) {
            Err(e) => Err(e),
            Ok(head) => match query_pair_text(pairs.last().0, pairs.last().1) {
                Err(e) => Err(e),
                Ok(pair) => if pairs.len() == 1 {
                    Ok(pair)
                } else {
                    Ok(head + seq!['&'] + pair)
                },
            },
        }
    }
}

/// Encodes a list of named values as a query string.
pub fn encode_query(params: &Vec<Param>) -> (r: Result<String, serde_qs::Error>)
    ensures
        match r {
            Ok(text) => query_text(params.deep_view()) == Ok::<Seq<char>, serde_qs::Error>(text@),
            Err(e) => query_text(params.deep_view()) == Err::<Seq<char>, serde_qs::Error>(e),
        },
{
    let mut text = String::new();
    let mut i: usize = 0;
    assert(params.deep_view().take(0) =~= Seq::empty());
    while i < params.len()
        invariant
            i <= params.len(),
            query_text(params.deep_view().take(i as int)) == Ok::<Seq<char>, serde_qs::Error>(
                text@,
            ),
        decreases params.len() - i,
    {
        let ghost all = params.deep_view();
        assert(all.take(i + 1).drop_last() =~= all.take(i as int));
        assert(all.take(i + 1).last() == (params[i as int].name@, params[i as int].value@));
        match encode_pair(params[i].name.as_str(), params[i].value.as_str()) {
            Ok(pair) => {
                if i > 0 {
                    proof {
                        reveal_strlit("&");
                        assert("&"@ =~= seq!['&']);
                    }
                    text.append("&");
                    text.append(pair.as_str());
                } else {
                    text = pair;
                }
            },
            Err(e) => {
                proof {
                    lemma_query_error_stays(all, i + 1);
                    assert(all.take(all.len() as int) =~= all);
                }
                return Err(e);
            },
        }
        i += 1;
    }
    assert(params.deep_view().take(i as int) =~= params.deep_view());
    Ok(text)
}

/// An error in encoding the first `n` pairs is the error of the whole list.
proof fn lemma_query_error_stays(pairs: Seq<(Seq<char>, Seq<char>)>, n: int)
    requires
        0 <= n <= pairs.len(),
        query_text(pairs.take(n)) is Err,
    ensures
        query_text(pairs.take(pairs.len() as int)) == query_text(pairs.take(n)),
    decreases pairs.len() - n,
{
    if n < pairs.len() {
        assert(pairs.take(n + 1).drop_last() =~= pairs.take(n));
        lemma_query_error_stays(pairs, n + 1);
    }
}

/// No pair where the value is absent, else the one pair of name and value.
pub open spec fn opt_pair(name: Seq<char>, value: Option<Seq<char>>) -> Seq<
    (Seq<char>, Seq<char>),
> {
    match value {
        Some(v) => seq![(name, v)],
        None => Seq::empty(),
    }
}

/// The text of an optional number: its decimal digits.
pub open spec fn opt_decimal(n: Option<u64>) -> Option<Seq<char>> {
    match n {
        Some(n) => Some(decimal(n as nat)),
        None => None,
    }
}

/// The text of a truth value.
pub open spec fn bool_name(b: bool) -> Seq<char> {
    if b {
        "true"@
    } else {
        "false"@
    }
}

/// The text of an optional truth value.
pub open spec fn opt_bool(b: Option<bool>) -> Option<Seq<char>> {
    match b {
        Some(b) => Some(bool_name(b)),
        None => None,
    }
}

/// Adds a named value to the list, where the value is present.
pub fn push_text(params: &mut Vec<Param>, name: &str, value: &Option<String>)
    ensures
        final(params).deep_view() == old(params).deep_view() + opt_pair(name@, opt_text(*value)),
{
    match value {
        Some(v) => {
            params.push(Param { name: name.to_owned(), value: v.clone() });
            assert(params.deep_view() =~= old(params).deep_view() + seq![(name@, v@)]);
        },
        None => {
            assert(params.deep_view() =~= old(params).deep_view() + Seq::empty());
        },
    }
}

/// Adds a named value to the list, where the value is present.
pub fn push_name(params: &mut Vec<Param>, name: &str, value: Option<&'static str>)
    ensures
        final(params).deep_view() == old(params).deep_view() + opt_pair(
            name@,
            match value {
                Some(v) => Some(v@),
                None => None,
            },
        ),
{
    match value {
        Some(v) => {
            params.push(Param { name: name.to_owned(), value: v.to_owned() });
            assert(params.deep_view() =~= old(params).deep_view() + seq![(name@, v@)]);
        },
        None => {
            assert(params.deep_view() =~= old(params).deep_view() + Seq::empty());
        },
    }
}

/// Adds a named number to the list, in decimal, where the number is present.
pub fn push_number(params: &mut Vec<Param>, name: &str, value: Option<u64>)
    ensures
        final(params).deep_view() == old(params).deep_view() + opt_pair(name@, opt_decimal(value)),
{
    match value {
        Some(n) => {
            params.push(Param { name: name.to_owned(), value: decimal_text(n) });
            assert(params.deep_view() =~= old(params).deep_view() + seq![
                (name@, decimal(n as nat)),
            ]);
        },
        None => {
            assert(params.deep_view() =~= old(params).deep_view() + Seq::empty());
        },
    }
}

/// Adds a named truth value to the list, as `true` or `false`, where it is
/// present.
pub fn push_bool(params: &mut Vec<Param>, name: &str, value: Option<bool>)
    ensures
        final(params).deep_view() == old(params).deep_view() + opt_pair(name@, opt_bool(value)),
{
    match value {
        Some(b) => {
            let text = if b {
                "true"
            } else {
                "false"
            };
            params.push(Param { name: name.to_owned(), value: text.to_owned() });
            assert(params.deep_view() =~= old(params).deep_view() + seq![(name@, bool_name(b))]);
        },
        None => {
            assert(params.deep_view() =~= old(params).deep_view() + Seq::empty());
        },
    }
}

} // verus!
