//! Byte ranges of a hash request.
use vstd::prelude::*;
use crate::text::{decimal, decimal_spec};

verus! {

/// `start-end` in decimal.
pub open spec fn range_text(r: (usize, usize)) -> Seq<char> {
    decimal_spec(r.0 as nat) + seq!['-'] + decimal_spec(r.1 as nat)
}

/// Ranges joined by ','.
pub open spec fn ranges_join(s: Seq<(usize, usize)>) -> Seq<char>
    decreases s.len(),
{
    if s.len() == 0 {
        Seq::empty()
    } else if s.len() == 1 {
        range_text(s[0])
    } else {
        ranges_join(s.drop_last()) + seq![','] + range_text(s.last())
    }
}

/// The `ranges` value: '-' (the whole object) when there are none.
pub open spec fn ranges_spec(s: Seq<(usize, usize)>) -> Seq<char> {
    if s.len() == 0 {
        seq!['-']
    } else {
        ranges_join(s)
    }
}

/// Formats hash ranges as `a-b,c-d`, or `-` for an empty list.
pub fn format_ranges(ranges: &[(usize, usize)]) -> (r: String)
    ensures
        r@ == ranges_spec(ranges@),
{
    if ranges.len() == 0 {
        proof { reveal_strlit("-"); }
        return String::from_str("-");
    }
    let mut r = String::new();
    let mut i: usize = 0;
    while i < ranges.len()
        invariant
            i <= ranges@.len(),
            r@ == ranges_join(ranges@.subrange(0, i as int)),
        decreases ranges@.len() - i,
    {
        proof {
            reveal_strlit(",");
            reveal_strlit("-");
        }
        let ghost before = ranges@.subrange(0, i as int);
        let ghost after = ranges@.subrange(0, i as int + 1);
        assert(after.drop_last() =~= before);
        let ghost r0 = r@;
        if i > 0 {
            r.append(",");
        }
        let ghost r1 = r@;
        let (a, b) = ranges[i];
        let da = decimal(a as u64);
        let db = decimal(b as u64);
        r.append(da.as_str());
        r.append("-");
        r.append(db.as_str());
        assert(after.last() == ranges@[i as int]);
        assert(r@ =~= r1 + range_text(ranges@[i as int]));
        if i == 0 {
            assert(r1 =~= Seq::<char>::empty());
            assert(r@ =~= ranges_join(after));
        } else {
            assert(r1 =~= r0 + seq![',']);
            assert(r@ =~= ranges_join(before) + seq![','] + range_text(after.last()));
        }
        i += 1;
    }
    assert(ranges@.subrange(0, ranges@.len() as int) =~= ranges@);
    r
}

} // verus!
