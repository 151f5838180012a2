use vstd::prelude::*;

use crate::frame::{is_content_kind, FrameModel};

verus! {

/// The frames that a session writes back for the frames it received, in
/// receipt order: the content frames, unchanged, and nothing else.
pub open spec fn forwarded(received: Seq<FrameModel>) -> Seq<FrameModel>
    decreases received.len(),
{
    if received.len() == 0 {
        Seq::empty()
    } else {
        let earlier = forwarded(received.drop_last());
        if is_content_kind(received.last().0) {
            earlier.push(received.last())
        } else {
            earlier
        }
    }
}

/// Where the content frame received at position `i` stands among the
/// frames written back: the number of content frames received before it.
pub open spec fn forwarded_index(received: Seq<FrameModel>, i: int) -> int {
    forwarded(received.take(i)).len() as int
}

/// What is written back for a prefix of the input is a prefix of what is
/// written back for the whole input.
pub proof fn lemma_forwarded_prefix(received: Seq<FrameModel>, k: int)
    requires
        0 <= k <= received.len(),
    ensures
        forwarded(received.take(k)).len() <= forwarded(received).len(),
        forwarded(received).take(forwarded(received.take(k)).len() as int) == forwarded(
            received.take(k),
        ),
    decreases received.len(),
{
    if k == received.len() {
        assert(received.take(k) == received);
        assert(forwarded(received).take(forwarded(received).len() as int) == forwarded(received));
    } else {
        let shorter = received.drop_last();
        assert(shorter.take(k) == received.take(k));
        lemma_forwarded_prefix(shorter, k);
        let n = forwarded(received.take(k)).len() as int;
        assert(forwarded(received).take(n) == forwarded(shorter).take(n));
    }
}

/// Receiving one more frame appends it to the output if it carries content,
/// and leaves the output as it was otherwise.
pub proof fn lemma_forwarded_push(received: Seq<FrameModel>, f: FrameModel)
    ensures
        is_content_kind(f.0) ==> forwarded(received.push(f)) == forwarded(received).push(f),
        !is_content_kind(f.0) ==> forwarded(received.push(f)) == forwarded(received),
{
    assert(received.push(f).drop_last() == received);
}

/// Every content frame received stands, unchanged in kind and payload, at
/// its index among the frames written back.
pub proof fn lemma_content_frame_forwarded(received: Seq<FrameModel>, i: int)
    requires
        0 <= i < received.len(),
        is_content_kind(received[i].0),
    ensures
        0 <= forwarded_index(received, i) < forwarded(received).len(),
        forwarded(received)[forwarded_index(received, i)] == received[i],
{
    let head = received.take(i + 1);
    assert(head.drop_last() == received.take(i));
    assert(head.last() == received[i]);
    lemma_forwarded_prefix(received, i + 1);
    let n = forwarded(head).len() as int;
    assert(forwarded(received).take(n)[n - 1] == forwarded(head)[n - 1]);
}

/// Order is kept: of two content frames, the one received first is written
/// back first.
pub proof fn lemma_forwarded_order(received: Seq<FrameModel>, i: int, j: int)
    requires
        0 <= i < j < received.len(),
        is_content_kind(received[i].0),
        is_content_kind(received[j].0),
    ensures
        forwarded_index(received, i) < forwarded_index(received, j),
        forwarded(received)[forwarded_index(received, i)] == received[i],
        forwarded(received)[forwarded_index(received, j)] == received[j],
{
    lemma_content_frame_forwarded(received, i);
    lemma_content_frame_forwarded(received, j);
    let upto_j = received.take(j);
    assert(upto_j.take(i + 1) == received.take(i + 1));
    lemma_forwarded_prefix(upto_j, i + 1);
    let head = received.take(i + 1);
    assert(head.drop_last() == received.take(i));
}

/// Control frames are never written back: every frame written back is a
/// content frame that was received, and what is written back for the input
/// with its control frames removed is the same.
pub proof fn lemma_control_never_forwarded(received: Seq<FrameModel>)
    ensures
        forall|k: int|
            0 <= k < forwarded(received).len() ==> is_content_kind(
                #[trigger] forwarded(received)[k].0,
            ),
        forall|k: int|
            0 <= k < forwarded(received).len() ==> exists|i: int|
                0 <= i < received.len() && received[i] == #[trigger] forwarded(received)[k],
        forwarded(received.filter(|f: FrameModel| is_content_kind(f.0))) == forwarded(received),
    decreases received.len(),
{
    if received.len() > 0 {
        let shorter = received.drop_last();
        lemma_control_never_forwarded(shorter);
        assert(received == shorter.push(received.last()));
        lemma_forwarded_push(shorter, received.last());
        let keep = |f: FrameModel| is_content_kind(f.0);
        reveal(Seq::filter);
        assert(received.filter(keep) == if keep(received.last()) {
            shorter.filter(keep).push(received.last())
        } else {
            shorter.filter(keep)
        });
        lemma_forwarded_push(shorter.filter(keep), received.last());
        assert forall|k: int| 0 <= k < forwarded(received).len() implies exists|i: int|
            0 <= i < received.len() && received[i] == #[trigger] forwarded(received)[k] by {
            if k < forwarded(shorter).len() {
                let i = choose|i: int| 0 <= i < shorter.len() && shorter[i] == forwarded(shorter)[k];
                assert(received[i] == shorter[i]);
            } else {
                assert(received[received.len() - 1] == forwarded(received)[k]);
            }
        }
    } else {
        assert(received.filter(|f: FrameModel| is_content_kind(f.0)) =~= Seq::empty());
    }
}

} // verus!
