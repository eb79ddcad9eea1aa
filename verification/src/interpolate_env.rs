//! Variables in a path: where in a part of a path a `$` starts one.

use vstd::prelude::*;
use vstd::slice::slice_subrange;

verus! {

/// The byte of the character `$`, which starts a variable.
pub const DOLLAR: u8 = 0x24;

/// Calls `memchr::memchr`: the index of the first byte of the haystack that
/// equals the needle, or `None` where no byte does.
#[verifier::external_body]
fn find_byte(needle: u8, haystack: &[u8]) -> (r: Option<usize>)
    ensures
        match r {
            Some(i) => i < haystack@.len() && haystack@[i as int] == needle && forall|k: int|
                0 <= k < i ==> haystack@[k] != needle,
            None => forall|k: int| 0 <= k < haystack@.len() ==> haystack@[k] != needle,
        },
{
    memchr::memchr(needle, haystack)
}

/// Whether `found` is the first index from `from` on at which the part holds
/// a `$`.
pub open spec fn is_next_start(part: Seq<u8>, from: int, found: int) -> bool {
    &&& from <= found < part.len()
    &&& part[found] == DOLLAR
    &&& forall|k: int| from <= k < found ==> part[k] != DOLLAR
}

/// For each index of a part up to its last `$`, the next index from there on
/// that holds a `$`.
pub fn variable_starts(part: &[u8]) -> (starts: Vec<usize>)
    ensures
        starts@.len() <= part@.len(),
        forall|p: int| 0 <= p < starts@.len() ==> is_next_start(part@, p, #[trigger] starts@[p] as int),
        forall|k: int| starts@.len() <= k < part@.len() ==> part@[k] != DOLLAR,
{
    let mut starts: Vec<usize> = Vec::new();
    let mut sliding_pointer: usize = 0;
    while sliding_pointer < part.len()
        invariant
            sliding_pointer <= part@.len(),
            starts@.len() == sliding_pointer,
            forall|p: int| 0 <= p < starts@.len() ==> is_next_start(part@, p, #[trigger] starts@[p] as int),
        ensures
            starts@.len() <= part@.len(),
            forall|p: int| 0 <= p < starts@.len() ==> is_next_start(part@, p, #[trigger] starts@[p] as int),
            forall|k: int| starts@.len() <= k < part@.len() ==> part@[k] != DOLLAR,
        decreases part@.len() - sliding_pointer,
    {
        let rest = slice_subrange(part, sliding_pointer, part.len());
        let env_start_pos = match find_byte(DOLLAR, rest) {
            Some(start_pos) => sliding_pointer + start_pos,
            None => {
                assert forall|k: int| starts@.len() <= k < part@.len() implies part@[k]
                    != DOLLAR by {
                    assert(rest@[k - sliding_pointer] == part@[k]);
                }
                break ;
            },
        };
        proof {
            assert forall|k: int| sliding_pointer <= k < env_start_pos implies part@[k]
                != DOLLAR by {
                assert(rest@[k - sliding_pointer] == part@[k]);
            }
        }
        starts.push(env_start_pos);
        sliding_pointer += 1;
    }
    starts
}

} // verus!
