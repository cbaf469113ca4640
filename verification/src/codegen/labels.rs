//! The labels of the loops in an instruction tree.
use crate::wast::InstructionView;
use vstd::prelude::*;

verus! {

/// The labels of the loops in an instruction, each loop before the loops
/// inside it, operands from left to right.
pub open spec fn loop_labels(i: InstructionView) -> Seq<nat>
    decreases i,
{
    match i {
        InstructionView::I32Add(l, r) => loop_labels(*l) + loop_labels(*r),
        InstructionView::I32Sub(l, r) => loop_labels(*l) + loop_labels(*r),
        InstructionView::I32Mul(l, r) => loop_labels(*l) + loop_labels(*r),
        InstructionView::I32Div(l, r) => loop_labels(*l) + loop_labels(*r),
        InstructionView::I32Eq(l, r) => loop_labels(*l) + loop_labels(*r),
        InstructionView::I32Neq(l, r) => loop_labels(*l) + loop_labels(*r),
        InstructionView::I32Gt(l, r) => loop_labels(*l) + loop_labels(*r),
        InstructionView::I32Ge(l, r) => loop_labels(*l) + loop_labels(*r),
        InstructionView::I32Lt(l, r) => loop_labels(*l) + loop_labels(*r),
        InstructionView::I32Le(l, r) => loop_labels(*l) + loop_labels(*r),
        InstructionView::I32And(l, r) => loop_labels(*l) + loop_labels(*r),
        InstructionView::I32Or(l, r) => loop_labels(*l) + loop_labels(*r),
        InstructionView::I32Xor(l, r) => loop_labels(*l) + loop_labels(*r),
        InstructionView::F32Add(l, r) => loop_labels(*l) + loop_labels(*r),
        InstructionView::I32Store(a, v) => loop_labels(*a) + loop_labels(*v),
        InstructionView::I32Load(a) => loop_labels(*a),
        InstructionView::LocalGet(_) => Seq::empty(),
        InstructionView::LocalSet(_, v) => loop_labels(*v),
        InstructionView::GlobalGet(_) => Seq::empty(),
        InstructionView::GlobalSet(_, v) => loop_labels(*v),
        InstructionView::If(c, t, e) => loop_labels(*c) + loop_labels_of(t) + loop_labels_of(e),
        InstructionView::Loop(label, body) => seq![label] + loop_labels_of(body),
        InstructionView::BrLoop(_) => Seq::empty(),
        InstructionView::Block(_, body) => loop_labels_of(body),
        InstructionView::Return(v) => loop_labels(*v),
        InstructionView::Call(_, args) => loop_labels_of(args),
        InstructionView::I32Const(_) => Seq::empty(),
        InstructionView::F32Const(_) => Seq::empty(),
        InstructionView::Local(_, _) => Seq::empty(),
        InstructionView::SynthReturn => Seq::empty(),
        InstructionView::Noop => Seq::empty(),
        InstructionView::Complex(list) => loop_labels_of(list),
        InstructionView::RawWast(_) => Seq::empty(),
    }
}

/// The labels of the loops in a list of instructions, in order.
pub open spec fn loop_labels_of(list: Seq<InstructionView>) -> Seq<nat>
    decreases list,
{
    if list.len() == 0 {
        Seq::empty()
    } else {
        loop_labels_of(list.drop_last()) + loop_labels(list.last())
    }
}

/// No label comes twice, and every label is at least `lo` and below `hi`.
pub open spec fn fresh(labels: Seq<nat>, lo: nat, hi: nat) -> bool {
    &&& labels.no_duplicates()
    &&& forall|k: int| 0 <= k < labels.len() ==> lo <= #[trigger] labels[k] < hi
}

/// The labels of a list with one more instruction at its end.
pub proof fn lemma_labels_push(list: Seq<InstructionView>, last: InstructionView)
    ensures
        loop_labels_of(list.push(last)) == loop_labels_of(list) + loop_labels(last),
{
    assert(list.push(last).drop_last() =~= list);
}

/// The labels of a list of one instruction.
pub proof fn lemma_labels_one(i: InstructionView)
    ensures
        loop_labels_of(seq![i]) == loop_labels(i),
{
    let none = Seq::<InstructionView>::empty();
    assert(seq![i] =~= none.push(i));
    lemma_labels_push(none, i);
    assert(loop_labels_of(none) =~= Seq::<nat>::empty());
    assert(loop_labels_of(none) + loop_labels(i) =~= loop_labels(i));
}

/// The labels of a list of two instructions.
pub proof fn lemma_labels_two(a: InstructionView, b: InstructionView)
    ensures
        loop_labels_of(seq![a, b]) == loop_labels(a) + loop_labels(b),
{
    lemma_labels_one(a);
    assert(seq![a, b] =~= seq![a].push(b));
    lemma_labels_push(seq![a], b);
}

/// The labels of two lists, one after the other.
pub proof fn lemma_labels_concat(a: Seq<InstructionView>, b: Seq<InstructionView>)
    ensures
        loop_labels_of(a + b) == loop_labels_of(a) + loop_labels_of(b),
    decreases b.len(),
{
    if b.len() == 0 {
        assert(a + b =~= a);
        assert(loop_labels_of(a) + loop_labels_of(b) =~= loop_labels_of(a));
    } else {
        lemma_labels_concat(a, b.drop_last());
        assert((a + b).drop_last() =~= a + b.drop_last());
        assert((a + b).last() == b.last());
        assert(loop_labels_of(a + b) =~= loop_labels_of(a) + loop_labels_of(b));
    }
}

/// Fresh labels stay fresh in a wider range.
pub proof fn lemma_fresh_widen(labels: Seq<nat>, lo: nat, hi: nat, lower: nat, higher: nat)
    requires
        fresh(labels, lo, hi),
        lower <= lo,
        hi <= higher,
    ensures
        fresh(labels, lower, higher),
{
}

/// Labels from two ranges that follow each other are fresh together.
pub proof fn lemma_fresh_concat(first: Seq<nat>, second: Seq<nat>, lo: nat, mid: nat, hi: nat)
    requires
        fresh(first, lo, mid),
        fresh(second, mid, hi),
        lo <= mid <= hi,
    ensures
        fresh(first + second, lo, hi),
{
    let all = first + second;
    assert forall|i: int, j: int| 0 <= i < all.len() && 0 <= j < all.len() && i != j implies all[i]
        != all[j] by {
        if i < first.len() && j < first.len() {
            assert(first[i] != first[j]);
        } else if i >= first.len() && j >= first.len() {
            assert(second[i - first.len()] != second[j - first.len()]);
        } else if i < first.len() {
            assert(first[i] < mid <= second[j - first.len()]);
        } else {
            assert(first[j] < mid <= second[i - first.len()]);
        }
    }
    assert forall|k: int| 0 <= k < all.len() implies lo <= #[trigger] all[k] < hi by {
        if k < first.len() {
            assert(all[k] == first[k]);
        } else {
            assert(all[k] == second[k - first.len()]);
        }
    }
}

/// No labels are fresh in every range.
pub proof fn lemma_fresh_empty(lo: nat, hi: nat)
    ensures
        fresh(Seq::<nat>::empty(), lo, hi),
{
}

} // verus!
