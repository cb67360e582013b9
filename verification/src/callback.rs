//! Reading the authorization code out of the browser's redirect.
//!
//! The listener hands over the bytes of each request it receives. The code is
//! the value of the `code` parameter in the query of the request's target.

use vstd::prelude::*;
use vstd::slice::{slice_subrange, slice_to_vec};

verus! {

/// The number of bytes of `s` that come before the first `stop`; all of them
/// if there is none.
pub open spec fn span_until(s: Seq<u8>, stop: u8) -> nat
    decreases s.len(),
{
    if s.len() == 0 || s[0] == stop {
        0
    } else {
        1 + span_until(s.drop_first(), stop)
    }
}

/// The first line of a request, without its line end.
pub open spec fn request_line(request: Seq<u8>) -> Seq<u8> {
    let cr = span_until(request, 13);
    let lf = span_until(request, 10);
    request.take(if cr <= lf { cr as int } else { lf as int })
}

/// Whatever follows the first `mark` in `s`, up to the next `stop`; nothing if
/// `s` holds no `mark`.
pub open spec fn part_between(s: Seq<u8>, mark: u8, stop: u8) -> Seq<u8> {
    let at = span_until(s, mark);
    if at >= s.len() {
        Seq::empty()
    } else {
        let rest = s.skip(at as int + 1);
        rest.take(span_until(rest, stop) as int)
    }
}

/// The target of a request: the second word of its first line.
pub open spec fn request_target(request: Seq<u8>) -> Seq<u8> {
    part_between(request_line(request), 32, 32)
}

/// The query of a target: what stands between `?` and `#`.
pub open spec fn query_of(target: Seq<u8>) -> Seq<u8> {
    part_between(target, 63, 35)
}

/// The value of the first parameter called `name` in a query of `key=value`
/// pairs joined by `&`. A pair without `=` is no parameter.
pub open spec fn param_value(query: Seq<u8>, name: Seq<u8>) -> Option<Seq<u8>>
    decreases query.len(),
{
    let end = span_until(query, 38);
    let pair = query.take(end as int);
    let eq = span_until(pair, 61);
    if eq < pair.len() && pair.take(eq as int) == name {
        Some(pair.skip(eq as int + 1))
    } else if end < query.len() {
        param_value(query.skip(end as int + 1), name)
    } else {
        None
    }
}

/// The bytes of the word `code`.
pub open spec fn code_name() -> Seq<u8> {
    seq![99u8, 111u8, 100u8, 101u8]
}

/// The authorization code that a request carries, if it carries one.
pub open spec fn code_in_request(request: Seq<u8>) -> Option<Seq<u8>> {
    param_value(query_of(request_target(request)), code_name())
}

/// The length of the part of `s` before the first `stop`.
pub fn span(s: &[u8], stop: u8) -> (n: usize)
    ensures
        n == span_until(s@, stop),
        n <= s@.len(),
{
    let mut i: usize = 0;
    assert(s@.skip(0) =~= s@);
    while i < s.len() && s[i] != stop
        invariant
            i <= s@.len(),
            span_until(s@, stop) == i + span_until(s@.skip(i as int), stop),
        decreases s@.len() - i,
    {
        assert(s@.skip(i as int).drop_first() =~= s@.skip(i + 1));
        i += 1;
    }
    i
}

/// The part of `s` that follows the first `mark`, up to the next `stop`.
pub fn between(s: &[u8], mark: u8, stop: u8) -> (part: &[u8])
    ensures
        part@ == part_between(s@, mark, stop),
{
    let at = span(s, mark);
    if at >= s.len() {
        slice_subrange(s, 0, 0)
    } else {
        let rest = slice_subrange(s, at + 1, s.len());
        assert(rest@ =~= s@.skip(at + 1));
        let n = span(rest, stop);
        let part = slice_subrange(rest, 0, n);
        assert(part@ =~= rest@.take(n as int));
        part
    }
}

/// The target of a request.
pub fn target(request: &[u8]) -> (target: &[u8])
    ensures
        target@ == request_target(request@),
{
    let cr = span(request, 13);
    let lf = span(request, 10);
    let end = if cr <= lf {
        cr
    } else {
        lf
    };
    let line = slice_subrange(request, 0, end);
    assert(line@ =~= request_line(request@));
    between(line, 32, 32)
}

/// Whether two byte strings are the same.
fn same_bytes(a: &[u8], b: &[u8]) -> (same: bool)
    ensures
        same == (a@ == b@),
{
    if a.len() != b.len() {
        return false;
    }
    let mut i: usize = 0;
    while i < a.len()
        invariant
            i <= a@.len(),
            a@.len() == b@.len(),
            a@.take(i as int) == b@.take(i as int),
        decreases a@.len() - i,
    {
        if a[i] != b[i] {
            return false;
        }
        assert(a@.take(i + 1) =~= a@.take(i as int).push(a@[i as int]));
        assert(b@.take(i + 1) =~= b@.take(i as int).push(b@[i as int]));
        i += 1;
    }
    assert(a@.take(i as int) =~= a@);
    assert(b@.take(i as int) =~= b@);
    true
}

/// The value of the first parameter called `name` in `query`.
pub fn query_parameter<'a>(query: &'a [u8], name: &[u8]) -> (value: Option<&'a [u8]>)
    ensures
        match value {
            Some(v) => param_value(query@, name@) == Some(v@),
            None => param_value(query@, name@) is None,
        },
{
    let mut rest = query;
    loop
        invariant
            param_value(rest@, name@) == param_value(query@, name@),
        decreases rest@.len(),
    {
        let end = span(rest, 38);
        let pair = slice_subrange(rest, 0, end);
        assert(pair@ =~= rest@.take(end as int));
        let eq = span(pair, 61);
        if eq < pair.len() {
            let key = slice_subrange(pair, 0, eq);
            assert(key@ =~= pair@.take(eq as int));
            if same_bytes(key, name) {
                let value = slice_subrange(pair, eq + 1, pair.len());
                assert(value@ =~= pair@.skip(eq + 1));
                return Some(value);
            }
        }
        if end < rest.len() {
            let next = slice_subrange(rest, end + 1, rest.len());
            assert(next@ =~= rest@.skip(end + 1));
            rest = next;
        } else {
            return None;
        }
    }
}

/// The authorization code that `request` carries: the value of the `code`
/// parameter in the query of its target. `None` for a request without one,
/// which the listener answers and forgets.
pub fn authorization_code(request: &[u8]) -> (code: Option<Vec<u8>>)
    ensures
        match code {
            Some(c) => code_in_request(request@) == Some(c@),
            None => code_in_request(request@) is None,
        },
{
    let query = between(target(request), 63, 35);
    let name: [u8; 4] = [99, 111, 100, 101];
    assert(name@ =~= code_name());
    match query_parameter(query, name.as_slice()) {
        Some(value) => Some(slice_to_vec(value)),
        None => None,
    }
}

} // verus!
