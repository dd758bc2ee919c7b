//! Cache keys. One function derives the key of a request, and everything that
//! reads or writes the cache goes through it, so that a value stored under
//! one spelling of a request is found again under the same spelling.

use vstd::prelude::*;
use vstd::string::StringExecFns;

use crate::text::has_char;

verus! {

/// The character that parts the operation's name from the query inside a key.
pub const SEPARATOR: char = ':';

/// An operation name can head a key unless it holds the separator.
pub open spec fn keyable(operation: Seq<char>) -> bool {
    !operation.contains(SEPARATOR)
}

/// The key of the request `operation` with `query`: the operation's name, the
/// separator, then the query as it was given.
pub open spec fn key_text(operation: Seq<char>, query: Seq<char>) -> Seq<char> {
    operation + seq![SEPARATOR] + query
}

/// Derives the cache key of a request. Requests whose operation name holds
/// the separator have no key and are not cached.
pub fn cache_key(operation: &str, query: &str) -> (key: Option<String>)
    ensures
        key is Some <==> keyable(operation@),
        key matches Some(text) ==> text@ == key_text(operation@, query@),
{
    if has_char(operation, SEPARATOR) {
        None
    } else {
        let mut text = String::from_str(operation);
        text.push(SEPARATOR);
        text.append(query);
        Some(text)
    }
}

/// Distinct requests never share a key: a key determines the operation and
/// the query it was derived from.
pub proof fn law_keys_do_not_collide(
    operation: Seq<char>,
    query: Seq<char>,
    other_operation: Seq<char>,
    other_query: Seq<char>,
)
    requires
        keyable(operation),
        keyable(other_operation),
        key_text(operation, query) == key_text(other_operation, other_query),
    ensures
        operation == other_operation,
        query == other_query,
{
    let key = key_text(operation, query);
    let n = operation.len() as int;
    let m = other_operation.len() as int;
    // The first separator of a key stands right behind the operation's name.
    assert(key[n] == SEPARATOR && key[m] == SEPARATOR);
    assert(n == m) by {
        if n < m {
            assert(other_operation[n] == SEPARATOR);
        }
        if m < n {
            assert(operation[m] == SEPARATOR);
        }
    }
    assert(operation =~= other_operation) by {
        assert forall|i: int| 0 <= i < n implies operation[i] == other_operation[i] by {
            assert(key[i] == operation[i]);
        }
    }
    assert(query =~= other_query) by {
        assert(key.len() == n + 1 + query.len() == m + 1 + other_query.len());
        assert forall|i: int| 0 <= i < query.len() implies query[i] == other_query[i] by {
            assert(key[n + 1 + i] == query[i]);
            assert(key[m + 1 + i] == other_query[i]);
        }
    }
}

} // verus!
