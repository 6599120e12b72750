use vstd::prelude::*;

verus! {

/// A nested segmentation of the bytecode: a leaf is the length of one flat
/// run of words; a node groups the segmentations of its children in order.
#[derive(Debug, PartialEq, Eq)]
pub enum NestedIntList {
    Leaf(usize),
    Node(Vec<NestedIntList>),
}

/// The sum of every leaf reachable from the root.
pub open spec fn leaf_sum(n: NestedIntList) -> int
    decreases n,
{
    match n {
        NestedIntList::Leaf(v) => v as int,
        NestedIntList::Node(children) => leaf_seq_sum(children@),
    }
}

/// The sum of every leaf under each element of the sequence.
pub open spec fn leaf_seq_sum(s: Seq<NestedIntList>) -> int
    decreases s,
{
    if s.len() == 0 {
        0
    } else {
        leaf_sum(s[0]) + leaf_seq_sum(s.drop_first())
    }
}

pub proof fn lemma_leaf_seq_sum_push(s: Seq<NestedIntList>, x: NestedIntList)
    ensures
        leaf_seq_sum(s.push(x)) == leaf_seq_sum(s) + leaf_sum(x),
    decreases s.len(),
{
    if s.len() == 0 {
        assert(s.push(x)[0] == x);
        assert(s.push(x).drop_first() =~= Seq::<NestedIntList>::empty());
        assert(leaf_seq_sum(Seq::<NestedIntList>::empty()) == 0);
        assert(leaf_seq_sum(s) == 0);
        assert(leaf_seq_sum(s.push(x)) == leaf_sum(x) + leaf_seq_sum(s.push(x).drop_first()));
    } else {
        assert(s.push(x).drop_first() =~= s.drop_first().push(x));
        lemma_leaf_seq_sum_push(s.drop_first(), x);
        assert(s.push(x)[0] == s[0]);
        assert(leaf_seq_sum(s.push(x)) == leaf_sum(s[0]) + leaf_seq_sum(s.push(x).drop_first()));
        assert(leaf_seq_sum(s) == leaf_sum(s[0]) + leaf_seq_sum(s.drop_first()));
    }
}

/// True when the recorded function start offsets describe a partition of the
/// bytecode: they begin at offset zero, never step backwards, and stay inside
/// the bytecode.
pub open spec fn segmentable(starts: Seq<usize>, bytecode_len: int) -> bool {
    &&& starts.len() > 0
    &&& starts[0] == 0
    &&& forall|i: int| 0 <= i < starts.len() - 1 ==> (#[trigger] starts[i]) <= starts[i + 1]
    &&& starts[starts.len() - 1] <= bytecode_len
}

/// One leaf per function: the count of bytecode words from its start offset
/// to the next function's, or to the end of the bytecode for the last one.
pub open spec fn spec_segment_leaves(starts: Seq<usize>, bytecode_len: int) -> Seq<NestedIntList> {
    Seq::new(
        starts.len(),
        |i: int|
            NestedIntList::Leaf(
                (((if i < starts.len() - 1 {
                    starts[i + 1] as int
                } else {
                    bytecode_len
                }) - starts[i]) as usize),
            ),
    )
}

/// Partitions the bytecode along the given function start offsets: one leaf
/// per function, holding the count of bytecode words from its start offset to
/// the next function's (or to the end of the bytecode for the last one).
///
/// The leaves of a produced segmentation always sum to the bytecode length
/// exactly: no overlap and no gap. When the offsets do not describe such a
/// partition, no segmentation is produced; the artifact then simply carries
/// none, which downgrades the feature rather than failing the compilation.
pub fn compute_bytecode_segment_lengths(function_starts: &Vec<usize>, bytecode_len: usize) -> (r:
    Option<NestedIntList>)
    ensures
        r is Some <==> (bytecode_len == 0 || segmentable(function_starts@, bytecode_len as int)),
        r matches Some(nil) ==> leaf_sum(nil) == bytecode_len,
        bytecode_len == 0 ==> r == Some(NestedIntList::Leaf(0)),
        bytecode_len != 0 && segmentable(function_starts@, bytecode_len as int) ==> (
        r matches Some(nil) && nil matches NestedIntList::Node(children) && children@
            == spec_segment_leaves(function_starts@, bytecode_len as int)),
{
    if bytecode_len == 0 {
        return Some(NestedIntList::Leaf(0));
    }
    let n = function_starts.len();
    if n == 0 {
        return None;
    }
    if function_starts[0] != 0 {
        return None;
    }
    let mut i: usize = 0;
    while i + 1 < n
        invariant
            n == function_starts@.len(),
            i < n,
            bytecode_len != 0,
            function_starts@[0] == 0,
            forall|j: int| 0 <= j < i ==> #[trigger] function_starts@[j] <= function_starts@[j + 1],
        decreases n - i,
    {
        if function_starts[i] > function_starts[i + 1] {
            proof {
                assert(!segmentable(function_starts@, bytecode_len as int)) by {
                    if segmentable(function_starts@, bytecode_len as int) {
                        assert(function_starts@[i as int] <= function_starts@[i as int + 1]);
                    }
                }
            }
            return None;
        }
        i += 1;
    }
    if function_starts[n - 1] > bytecode_len {
        proof {
            assert(!segmentable(function_starts@, bytecode_len as int)) by {
                if segmentable(function_starts@, bytecode_len as int) {
                    assert(function_starts@[function_starts@.len() - 1] <= bytecode_len as int);
                }
            }
        }
        return None;
    }
    let mut children: Vec<NestedIntList> = Vec::new();
    let mut k: usize = 0;
    while k < n
        invariant
            n == function_starts@.len(),
            k <= n,
            segmentable(function_starts@, bytecode_len as int),
            children@.len() == k,
            children@ == spec_segment_leaves(function_starts@, bytecode_len as int).take(k as int),
            leaf_seq_sum(children@) == if k == n {
                bytecode_len as int
            } else {
                function_starts@[k as int] as int
            },
        decreases n - k,
    {
        let start = function_starts[k];
        let end = if k + 1 < n {
            function_starts[k + 1]
        } else {
            bytecode_len
        };
        proof {
            if k + 1 < n {
                assert(function_starts@[k as int] <= function_starts@[k as int + 1]);
            }
            lemma_leaf_seq_sum_push(children@, NestedIntList::Leaf((end - start) as usize));
            assert(spec_segment_leaves(function_starts@, bytecode_len as int)[k as int]
                == NestedIntList::Leaf((end - start) as usize));
            assert(spec_segment_leaves(function_starts@, bytecode_len as int).take(k as int + 1)
                =~= spec_segment_leaves(function_starts@, bytecode_len as int).take(
                k as int,
            ).push(NestedIntList::Leaf((end - start) as usize)));
        }
        children.push(NestedIntList::Leaf(end - start));
        k += 1;
    }
    proof {
        assert(children@ =~= spec_segment_leaves(function_starts@, bytecode_len as int));
    }
    Some(NestedIntList::Node(children))
}

} // verus!
