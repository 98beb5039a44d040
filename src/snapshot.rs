//! Snapshot framing: the array-shaped payload that answers a request.
use vstd::prelude::*;
use vstd::string::StringExecFns;

use crate::cache::{clamped_count, BoundedCache};

verus! {

/// The items' texts separated by commas.
pub open spec fn joined(items: Seq<String>) -> Seq<char>
    decreases items.len(),
{
    if items.len() == 0 {
        Seq::empty()
    } else if items.len() == 1 {
        items[0]@
    } else {
        joined(items.drop_last()) + seq![','] + items.last()@
    }
}

/// `[`, the items separated by commas, then `]`.
pub open spec fn array_payload(items: Seq<String>) -> Seq<char> {
    seq!['['] + joined(items) + seq![']']
}

/// Frames `items` as one array-shaped payload.
pub fn render_array(items: &Vec<String>) -> (r: String)
    ensures
        r@ == array_payload(items@),
{
    let mut out = String::new();
    proof {
        reveal_strlit("[");
        reveal_strlit("]");
    }
    out.append("[");
    let mut i: usize = 0;
    while i < items.len()
        invariant
            i <= items@.len(),
            out@ == seq!['['] + joined(items@.take(i as int)),
        decreases items@.len() - i,
    {
        let ghost before = out@;
        if i > 0 {
            proof {
                reveal_strlit(",");
            }
            out.append(",");
            assert(out@ =~= before + seq![',']);
        }
        out.append(items[i].as_str());
        proof {
            let t = items@.take(i as int + 1);
            assert(t.drop_last() =~= items@.take(i as int));
            if i == 0 {
                assert(out@ =~= seq!['['] + joined(t));
            } else {
                assert(out@ =~= before + seq![','] + items@[i as int]@);
                assert(out@ =~= seq!['['] + joined(t));
            }
        }
        i = i + 1;
    }
    out.append("]");
    assert(items@.take(items@.len() as int) =~= items@);
    out
}

/// Answers a request for `n` records: the head-first
/// `min(n, len, CACHE_CAPACITY)` records of `cache`, framed as an array.
pub fn respond(cache: &BoundedCache, n: i32) -> (r: String)
    requires
        cache.wf(),
    ensures
        r@ == array_payload(cache@.take(clamped_count(n as int, cache@.len() as int))),
{
    let items = cache.read(n);
    render_array(&items)
}

} // verus!
