//! The list of local branches: the checked-out branch first, then the others
//! in name order.  Reading the branch names is the caller's business.
use vstd::prelude::*;
use vstd::relations::{sorted_by, total_ordering};

use super::types::BranchInfo;
use crate::text::{
    chars_lt, chars_of, lemma_seq_lt_asymmetric, lemma_seq_lt_total, lemma_seq_lt_transitive,
    seq_le, seq_lt, str_eq,
};

verus! {

/// A branch as the list orders it: its name and whether it is checked out.
pub type BranchKey = (Seq<char>, bool);

/// The key of a branch.
pub open spec fn branch_key(b: BranchInfo) -> BranchKey {
    (b.name@, b.is_current)
}

/// The keys of a list of branches.
pub open spec fn branch_keys(v: Seq<BranchInfo>) -> Seq<BranchKey> {
    v.map_values(|b: BranchInfo| branch_key(b))
}

/// The order of the list: the checked-out branch first, then by name.
pub open spec fn branch_leq(x: BranchKey, y: BranchKey) -> bool {
    (x.1 && !y.1) || (x.1 == y.1 && seq_le(x.0, y.0))
}

/// `x` comes strictly before `y` in the list.
pub open spec fn branch_lt(x: BranchKey, y: BranchKey) -> bool {
    (x.1 && !y.1) || (x.1 == y.1 && seq_lt(x.0, y.0))
}

/// The branches listed for the names read, in reading order: names that are
/// empty are skipped, and the one named like the checked-out branch is marked.
pub open spec fn listed_branches(names: Seq<Seq<char>>, current: Option<Seq<char>>) -> Seq<
    BranchKey,
>
    decreases names.len(),
{
    if names.len() == 0 {
        seq![]
    } else {
        let rest = listed_branches(names.drop_last(), current);
        let n = names.last();
        if n.len() == 0 {
            rest
        } else {
            rest.push((n, current == Some(n)))
        }
    }
}

/// The order of the list is a total order.
pub proof fn lemma_branch_order_total()
    ensures
        total_ordering(|x: BranchKey, y: BranchKey| branch_leq(x, y)),
{
    let leq = |x: BranchKey, y: BranchKey| branch_leq(x, y);
    assert forall|x: BranchKey| #[trigger] leq(x, x) by {}
    assert forall|x: BranchKey, y: BranchKey| #[trigger] leq(x, y) && #[trigger] leq(y, x) implies x
        == y by {
        lemma_seq_lt_asymmetric(x.0, y.0);
    }
    assert forall|x: BranchKey, y: BranchKey, z: BranchKey|
        #[trigger] leq(x, y) && #[trigger] leq(y, z) implies #[trigger] leq(x, z) by {
        if seq_lt(x.0, y.0) && seq_lt(y.0, z.0) {
            lemma_seq_lt_transitive(x.0, y.0, z.0);
        }
    }
    assert forall|x: BranchKey, y: BranchKey| #[trigger] leq(x, y) || #[trigger] leq(y, x) by {
        lemma_seq_lt_total(x.0, y.0);
    }
}

/// The order of the list is transitive.
proof fn lemma_branch_leq_transitive(x: BranchKey, y: BranchKey, z: BranchKey)
    requires
        branch_leq(x, y),
        branch_leq(y, z),
    ensures
        branch_leq(x, z),
{
    if seq_lt(x.0, y.0) && seq_lt(y.0, z.0) {
        lemma_seq_lt_transitive(x.0, y.0, z.0);
    }
}

/// Not strictly before means after or equal.
proof fn lemma_not_lt(x: BranchKey, y: BranchKey)
    ensures
        !branch_lt(x, y) ==> branch_leq(y, x),
        branch_lt(x, y) ==> branch_leq(x, y),
        branch_lt(x, y) && branch_leq(y, x) ==> false,
{
    lemma_seq_lt_total(x.0, y.0);
    lemma_seq_lt_asymmetric(x.0, y.0);
}

/// Where a branch goes in a sorted list: after every branch that is not
/// strictly after it.
fn insert_position(v: &Vec<BranchInfo>, key: &Vec<char>, is_current: bool) -> (res: usize)
    requires
        sorted_by(branch_keys(v@), |x: BranchKey, y: BranchKey| branch_leq(x, y)),
    ensures
        res <= v@.len(),
        forall|k: int| 0 <= k < res ==> branch_leq(#[trigger] branch_keys(v@)[k], (key@, is_current)),
        forall|k: int|
            res <= k < v@.len() ==> branch_leq((key@, is_current), #[trigger] branch_keys(v@)[k])
                && branch_lt((key@, is_current), branch_keys(v@)[k]),
{
    let ghost ks = branch_keys(v@);
    let ghost me = (key@, is_current);
    let ghost leq = |x: BranchKey, y: BranchKey| branch_leq(x, y);
    let mut i: usize = 0;
    while i < v.len()
        invariant
            i <= v@.len(),
            ks == branch_keys(v@),
            me == (key@, is_current),
            leq == |x: BranchKey, y: BranchKey| branch_leq(x, y),
            sorted_by(ks, leq),
            forall|k: int| 0 <= k < i ==> branch_leq(#[trigger] ks[k], me),
        decreases v@.len() - i,
    {
        let other = &v[i];
        let name = chars_of(other.name.as_str());
        let before = (is_current && !other.is_current) || (is_current == other.is_current
            && chars_lt(key, &name));
        assert(ks[i as int] == (name@, other.is_current));
        if before {
            assert forall|k: int| i <= k < v@.len() implies branch_leq(me, #[trigger] ks[k])
                && branch_lt(me, ks[k]) by {
                lemma_not_lt(me, ks[i as int]);
                if k > i {
                    assert(leq(ks[i as int], ks[k]));
                    lemma_not_lt(me, ks[k]);
                    if !branch_lt(me, ks[k]) {
                        lemma_branch_leq_transitive(ks[i as int], ks[k], me);
                    }
                }
            }
            return i;
        }
        proof {
            lemma_not_lt(me, ks[i as int]);
        }
        i = i + 1;
    }
    i
}

/// The list of local branches for the names read (in reading order) and the
/// name of the checked-out branch: empty names skipped, the checked-out one
/// marked and first, the others in name order.
pub fn branch_list(names: &Vec<String>, current: Option<&str>) -> (res: Vec<BranchInfo>)
    ensures
        branch_keys(res@) == listed_branches(
            names@.map_values(|s: String| s@),
            match current {
                Some(c) => Some(c@),
                None => None,
            },
        ).sort_by(|x: BranchKey, y: BranchKey| branch_leq(x, y)),
        forall|i: int| 0 <= i < res@.len() ==> !(#[trigger] res@[i]).is_remote,
{
    let ghost nv = names@.map_values(|s: String| s@);
    let ghost cur = match current {
        Some(c) => Some(c@),
        None => None,
    };
    let ghost leq = |x: BranchKey, y: BranchKey| branch_leq(x, y);
    proof {
        lemma_branch_order_total();
    }
    let mut out: Vec<BranchInfo> = Vec::new();
    let n = names.len();
    assert(nv.take(0) =~= Seq::<Seq<char>>::empty());
    assert(branch_keys(out@) =~= Seq::<BranchKey>::empty());
    for i in 0..n
        invariant
            n == names@.len(),
            nv == names@.map_values(|s: String| s@),
            cur == match current {
                Some(c) => Some(c@),
                None => None::<Seq<char>>,
            },
            leq == |x: BranchKey, y: BranchKey| branch_leq(x, y),
            total_ordering(leq),
            sorted_by(branch_keys(out@), leq),
            branch_keys(out@).to_multiset() == listed_branches(nv.take(i as int), cur).to_multiset(),
            forall|j: int| 0 <= j < out@.len() ==> !(#[trigger] out@[j]).is_remote,
    {
        assert(nv.take(i + 1).drop_last() =~= nv.take(i as int));
        let name = chars_of(names[i].as_str());
        if name.len() > 0 {
            let is_current = match current {
                Some(c) => str_eq(c, names[i].as_str()),
                None => false,
            };
            let pos = insert_position(&out, &name, is_current);
            let ghost before = branch_keys(out@);
            let ghost me: BranchKey = (name@, is_current);
            out.insert(pos, BranchInfo { name: names[i].clone(), is_current, is_remote: false });
            proof {
                let after = branch_keys(out@);
                assert(after =~= before.insert(pos as int, me));
                assert(me == (nv[i as int], cur == Some(nv[i as int])));
                assert forall|a: int, b: int| 0 <= a < b < after.len() implies #[trigger] leq(
                    after[a],
                    after[b],
                ) by {
                    if b < pos {
                    } else if b == pos {
                    } else if a < pos {
                        assert(branch_leq(before[a], me));
                        assert(branch_leq(me, before[b - 1]));
                    } else if a == pos {
                    } else {
                    }
                }
                broadcast use vstd::seq_lib::group_to_multiset_ensures;
                broadcast use vstd::multiset::group_multiset_axioms;

                assert(after.remove(pos as int) =~= before);
                assert(after[pos as int] == me);
                assert(after.to_multiset().remove(me) == before.to_multiset());
                assert(after.to_multiset().contains(me));
                assert(after.to_multiset() =~= before.to_multiset().insert(me));
                assert(listed_branches(nv.take(i + 1), cur) == listed_branches(
                    nv.take(i as int),
                    cur,
                ).push(me));
            }
        } else {
            assert(listed_branches(nv.take(i + 1), cur) == listed_branches(nv.take(i as int), cur));
        }
    }
    proof {
        assert(nv.take(n as int) =~= nv);
        let listed = listed_branches(nv, cur);
        listed.lemma_sort_by_ensures(leq);
        vstd::seq_lib::lemma_sorted_unique(branch_keys(out@), listed.sort_by(leq), leq);
    }
    out
}

/// In the branch list the checked-out branch comes first: no branch that is
/// not checked out precedes one that is.
pub proof fn lemma_current_first(names: Seq<Seq<char>>, current: Option<Seq<char>>)
    ensures
        ({
            let s = listed_branches(names, current).sort_by(
                |x: BranchKey, y: BranchKey| branch_leq(x, y),
            );
            forall|i: int, j: int| 0 <= i < j < s.len() && (#[trigger] s[j]).1 ==> (#[trigger] s[i]).1
        }),
{
    let leq = |x: BranchKey, y: BranchKey| branch_leq(x, y);
    lemma_branch_order_total();
    let listed = listed_branches(names, current);
    listed.lemma_sort_by_ensures(leq);
    let s = listed.sort_by(leq);
    assert forall|i: int, j: int| 0 <= i < j < s.len() && (#[trigger] s[j]).1 implies (#[trigger] s[i]).1 by {
        assert(leq(s[i], s[j]));
    }
}

} // verus!
