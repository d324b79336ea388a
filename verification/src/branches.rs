//! Branch enumerator, pure part: collecting the branch names of one
//! enumeration. The backend hands over one entry per branch reference, with
//! `None` for a reference whose name does not resolve to a display string;
//! the verified fold keeps the resolved names, in enumeration order, and
//! silently omits the malformed ones.

use vstd::prelude::*;

verus! {

/// The branch names a raw enumeration denotes: the resolved names in order,
/// with every unresolvable reference omitted.
pub open spec fn spec_branch_list(raw: Seq<Option<String>>) -> Seq<Seq<char>>
    decreases raw.len(),
{
    if raw.len() == 0 {
        Seq::empty()
    } else {
        spec_branch_list(raw.drop_last()) + (match raw.last() {
            Option::Some(name) => seq![name@],
            Option::None => Seq::empty(),
        })
    }
}

/// Collects the resolved branch names of one enumeration, keeping their
/// order and skipping every reference without a usable name.
pub fn collect_branches(raw: &Vec<Option<String>>) -> (branches: Vec<String>)
    ensures
        branches.deep_view() == spec_branch_list(raw@),
{
    let mut branches: Vec<String> = Vec::new();
    let n = raw.len();
    let mut i: usize = 0;
    while i < n
        invariant
            n == raw@.len(),
            i <= n,
            branches.deep_view() == spec_branch_list(raw@.subrange(0, i as int)),
        decreases n - i,
    {
        let ghost prev = branches.deep_view();
        match &raw[i] {
            Option::Some(name) => {
                branches.push(name.clone());
                proof {
                    assert(branches.deep_view() =~= prev.push(name@));
                }
            },
            Option::None => {},
        }
        proof {
            assert(raw@.subrange(0, i as int + 1).drop_last() =~= raw@.subrange(0, i as int));
            assert(raw@.subrange(0, i as int + 1).last() == raw@[i as int]);
            match raw@[i as int] {
                Option::Some(name) => {
                    assert(prev.push(name@) =~= prev + seq![name@]);
                },
                Option::None => {},
            }
        }
        i = i + 1;
    }
    proof {
        assert(raw@.subrange(0, n as int) =~= raw@);
    }
    branches
}

} // verus!
