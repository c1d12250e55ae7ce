//! Queries: which language a query is written in, and which result rows reach
//! the caller.

use vstd::prelude::*;
use crate::text::{ascii_fold, eq_ignoring_ascii_case, equals_ignoring_ascii_case};

verus! {

/// The language of a query's text.
#[derive(Clone, Copy, Debug, PartialEq, Eq, Structural)]
pub enum QueryLanguage {
    /// The JSON query schema.
    Json,
    /// SQL++ (N1QL).
    N1ql,
}

/// The language that a `language` argument names: JSON when it reads
/// `"json"` in any ASCII case, N1QL for anything else.
pub open spec fn language_named(s: Seq<char>) -> QueryLanguage {
    if eq_ignoring_ascii_case(s, "json"@) {
        QueryLanguage::Json
    } else {
        QueryLanguage::N1ql
    }
}

/// Reads the `language` argument of a query request.
pub fn query_language(language: &str) -> (l: QueryLanguage)
    ensures
        l == language_named(language@),
{
    if equals_ignoring_ascii_case(language, "json") {
        QueryLanguage::Json
    } else {
        QueryLanguage::N1ql
    }
}

/// The value of a named query parameter, as the request gives it; `N` is
/// how a number is carried.
pub enum ParamValue<N> {
    Text(String),
    Number(N),
    Bool(bool),
    /// An array, an object or null.
    Other,
}

/// How a query parameter is bound.
pub enum ParamBinding<N> {
    Text(String),
    Number(N),
    Bool(bool),
    Null,
}

/// The binding of one parameter value: strings, numbers and booleans as
/// themselves, anything else as null.
pub open spec fn binding_of<N>(v: ParamValue<N>) -> ParamBinding<N> {
    match v {
        ParamValue::Text(s) => ParamBinding::Text(s),
        ParamValue::Number(n) => ParamBinding::Number(n),
        ParamValue::Bool(b) => ParamBinding::Bool(b),
        ParamValue::Other => ParamBinding::Null,
    }
}

/// The bindings of a query's parameters, in the order given. Parameters
/// bind only when the request gives them as an object (`Some`); anything
/// else binds nothing.
pub fn parameter_bindings<N>(parameters: Option<Vec<(String, ParamValue<N>)>>) -> (b: Vec<(String, ParamBinding<N>)>)
    ensures
        match parameters {
            Some(p) => b@.len() == p@.len() && forall|i: int|
                0 <= i < p@.len() ==> #[trigger] b@[i] == (p@[i].0, binding_of(p@[i].1)),
            None => b@.len() == 0,
        },
{
    let mut bindings: Vec<(String, ParamBinding<N>)> = Vec::new();
    match parameters {
        Some(p) => {
            let ghost all = p@;
            for entry in it: p.into_iter()
                invariant
                    it.seq() == all,
                    bindings@.len() == it.index(),
                    forall|i: int| 0 <= i < it.index() ==> #[trigger] bindings@[i] == (all[i].0, binding_of(all[i].1)),
            {
                let (name, value) = entry;
                let binding = match value {
                    ParamValue::Text(s) => ParamBinding::Text(s),
                    ParamValue::Number(n) => ParamBinding::Number(n),
                    ParamValue::Bool(v) => ParamBinding::Bool(v),
                    ParamValue::Other => ParamBinding::Null,
                };
                bindings.push((name, binding));
            }
        },
        None => {},
    }
    bindings
}

/// Each parameter is bound as the kind and value given: a string as that
/// string, a number as that number, `true` as true and `false` as false; only
/// arrays, objects and null bind as null.
pub proof fn law_parameters_bind_as_given<N>(text: String, number: N, flag: bool)
    ensures
        binding_of(ParamValue::<N>::Text(text)) == ParamBinding::<N>::Text(text),
        binding_of(ParamValue::<N>::Number(number)) == ParamBinding::<N>::Number(number),
        binding_of(ParamValue::<N>::Bool(flag)) == ParamBinding::<N>::Bool(flag),
        binding_of(ParamValue::<N>::Bool(true)) == ParamBinding::<N>::Bool(true),
        binding_of(ParamValue::<N>::Bool(false)) == ParamBinding::<N>::Bool(false),
        binding_of(ParamValue::<N>::Other) == ParamBinding::<N>::Null,
{
}

/// The values of the rows that parsed, in their order; rows that did not
/// parse are left out.
pub open spec fn parsed_rows<T, E>(rows: Seq<Result<T, E>>) -> Seq<T>
    decreases rows.len(),
{
    if rows.len() == 0 {
        Seq::empty()
    } else {
        let rest = parsed_rows(rows.drop_last());
        match rows.last() {
            Ok(v) => rest.push(v),
            Err(_) => rest,
        }
    }
}

/// Keeps the rows of a result set that parsed, in order, and drops the ones
/// that did not.
pub fn collect_rows<T, E>(rows: Vec<Result<T, E>>) -> (kept: Vec<T>)
    ensures
        kept@ == parsed_rows(rows@),
{
    let ghost all = rows@;
    let mut kept: Vec<T> = Vec::new();
    for row in it: rows.into_iter()
        invariant
            it.seq() == all,
            kept@ == parsed_rows(all.take(it.index() as int)),
    {
        proof {
            assert(all.take(it.index() + 1).drop_last() =~= all.take(it.index() as int));
        }
        match row {
            Ok(v) => kept.push(v),
            Err(_) => {},
        }
    }
    proof {
        assert(all.take(all.len() as int) =~= all);
    }
    kept
}

/// The language of a query does not depend on the ASCII case of its name:
/// two names equal up to ASCII case name the same language.
pub proof fn law_language_ignores_ascii_case(a: Seq<char>, b: Seq<char>)
    requires
        eq_ignoring_ascii_case(a, b),
    ensures
        language_named(a) == language_named(b),
{
    let j = "json"@;
    if eq_ignoring_ascii_case(a, j) {
        assert forall|i: int| 0 <= i < b.len() implies ascii_fold(#[trigger] b[i]) == ascii_fold(j[i]) by {
            assert(ascii_fold(a[i]) == ascii_fold(b[i]));
        }
    }
    if eq_ignoring_ascii_case(b, j) {
        assert forall|i: int| 0 <= i < a.len() implies ascii_fold(#[trigger] a[i]) == ascii_fold(j[i]) by {
            assert(ascii_fold(a[i]) == ascii_fold(b[i]));
        }
    }
}

/// Rows that do not parse are dropped without disturbing the others: the
/// rows kept from two batches are those kept from each, in order.
pub proof fn law_parsed_rows_concatenate<T, E>(a: Seq<Result<T, E>>, b: Seq<Result<T, E>>)
    ensures
        parsed_rows(a + b) == parsed_rows(a) + parsed_rows(b),
    decreases b.len(),
{
    if b.len() == 0 {
        assert(a + b =~= a);
        assert(parsed_rows(a) + parsed_rows(b) =~= parsed_rows(a));
    } else {
        law_parsed_rows_concatenate(a, b.drop_last());
        assert((a + b).drop_last() =~= a + b.drop_last());
        match b.last() {
            Ok(v) => {
                assert(parsed_rows(a) + parsed_rows(b.drop_last()).push(v) =~= (parsed_rows(a)
                    + parsed_rows(b.drop_last())).push(v));
            },
            Err(_) => {},
        }
    }
}

} // verus!
