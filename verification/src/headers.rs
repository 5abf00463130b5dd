//! Header lists: names and values as text, in order.

use vstd::prelude::*;
use vstd::string::*;

verus! {

/// The headers whose value is text, in order.
pub open spec fn text_pairs(raw: Seq<(String, Option<String>)>) -> Seq<(Seq<char>, Seq<char>)>
    decreases raw.len(),
{
    if raw.len() == 0 {
        Seq::empty()
    } else {
        let before = text_pairs(raw.drop_last());
        match raw.last().1 {
            Some(value) => before.push((raw.last().0@, value@)),
            None => before,
        }
    }
}

/// The names and values of a header list.
pub open spec fn pairs(headers: Seq<(String, String)>) -> Seq<(Seq<char>, Seq<char>)> {
    Seq::new(headers.len(), |i: int| (headers[i].0@, headers[i].1@))
}

/// The headers whose value is text, in order.
pub fn keep_text_headers(raw: &Vec<(String, Option<String>)>) -> (kept: Vec<(String, String)>)
    ensures
        pairs(kept@) == text_pairs(raw@),
{
    let mut kept: Vec<(String, String)> = Vec::new();
    let mut i: usize = 0;
    assert(raw@.take(0) =~= Seq::empty());
    while i < raw.len()
        invariant
            i <= raw@.len(),
            pairs(kept@) == text_pairs(raw@.take(i as int)),
        decreases raw@.len() - i,
    {
        let ghost before = kept@;
        let entry = &raw[i];
        proof {
            let next = raw@.take(i + 1);
            assert(next.drop_last() =~= raw@.take(i as int));
            assert(next.last() == raw@[i as int]);
        }
        match &entry.1 {
            Some(value) => {
                kept.push((entry.0.clone(), value.clone()));
                assert(pairs(kept@) =~= pairs(before).push((entry.0@, value@)));
            },
            None => {},
        }
        i += 1;
    }
    assert(raw@.take(i as int) =~= raw@);
    kept
}

} // verus!
