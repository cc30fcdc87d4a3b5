//! The slice of an HTTP request the route table looks at: the method and
//! the request target, already split into path and full target by the
//! server front end.
use vstd::prelude::*;
use vstd::string::StrSliceExecFns;

use crate::strutil::str_eq;

verus! {

/// The request methods the route tables distinguish.
#[derive(Debug, Clone, Copy, PartialEq, Eq, Structural)]
pub enum HttpMethod {
    Get,
    Post,
    /// Any other method; it only ever reaches the not-found route.
    Other,
}

/// Maps a request method token to the methods the route tables know.
pub fn method_of(s: &str) -> (m: HttpMethod)
    ensures
        m is Get <==> s@ == "GET"@,
        m is Post <==> s@ == "POST"@,
{
    proof {
        reveal_strlit("GET");
        reveal_strlit("POST");
        assert("GET"@.len() == 3);
        assert("POST"@.len() == 4);
    }
    if str_eq(s, "GET") {
        HttpMethod::Get
    } else if str_eq(s, "POST") {
        HttpMethod::Post
    } else {
        HttpMethod::Other
    }
}

/// The number of characters before the first `?` of a request target: the
/// length of its path.
pub open spec fn spec_path_len(t: Seq<char>) -> int
    decreases t.len(),
{
    if t.len() == 0 {
        0
    } else if t[0] == '?' {
        0
    } else {
        1 + spec_path_len(t.drop_first())
    }
}

proof fn lemma_path_len_at(t: Seq<char>, i: int)
    requires
        0 <= i <= t.len(),
        forall|j: int| 0 <= j < i ==> t[j] != '?',
        i == t.len() || t[i] == '?',
    ensures
        spec_path_len(t) == i,
    decreases i,
{
    if i == 0 {
    } else {
        assert(t[0] != '?');
        lemma_path_len_at(t.drop_first(), i - 1);
    }
}

/// The path of a request target: everything before the first `?`, or the
/// whole target where it has no query.
pub fn path_of_target(target: &str) -> (p: String)
    ensures
        p@ == target@.take(spec_path_len(target@)),
{
    let len = target.unicode_len();
    let mut i: usize = 0;
    while i < len
        invariant
            0 <= i <= len,
            len == target@.len(),
            forall|j: int| 0 <= j < i ==> target@[j] != '?',
        decreases len - i,
    {
        if target.get_char(i) == '?' {
            proof {
                lemma_path_len_at(target@, i as int);
            }
            return target.substring_char(0, i).to_owned();
        }
        i += 1;
    }
    proof {
        lemma_path_len_at(target@, len as int);
        assert(target@.take(len as int) =~= target@);
    }
    target.substring_char(0, len).to_owned()
}

} // verus!
