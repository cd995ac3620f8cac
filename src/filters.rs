use vstd::prelude::*;
use crate::hardware::{AdapterFilter, AdapterHardware};

verus! {

/// Whether a frame identifier satisfies a filter's `frame_id & mask == id`.
pub open spec fn filter_matches(f: AdapterFilter, frame_id: u32) -> bool {
    match f {
        AdapterFilter::Pass { mask, id } => frame_id & mask == id,
        AdapterFilter::Block { mask, id } => frame_id & mask == id,
        AdapterFilter::IsoTP { mask, id, fc } => frame_id & mask == id,
    }
}

/// Some admitting (pass or ISO-TP) filter matches the identifier.
pub open spec fn passed(filters: Seq<(u32, AdapterFilter)>, frame_id: u32) -> bool {
    exists|i: int|
        0 <= i < filters.len() && !(filters[i].1 is Block) && #[trigger] filter_matches(
            filters[i].1,
            frame_id,
        )
}

/// Some block filter matches the identifier.
pub open spec fn blocked(filters: Seq<(u32, AdapterFilter)>, frame_id: u32) -> bool {
    exists|i: int|
        0 <= i < filters.len() && filters[i].1 is Block && #[trigger] filter_matches(
            filters[i].1,
            frame_id,
        )
}

/// A channel admits an inbound frame when an admitting filter matches its
/// identifier and no block filter does. With no filter, nothing is admitted.
pub open spec fn admits(filters: Seq<(u32, AdapterFilter)>, frame_id: u32) -> bool {
    passed(filters, frame_id) && !blocked(filters, frame_id)
}

/// The filters left when every filter with the id is deleted, in order.
pub open spec fn without_id(s: Seq<(u32, AdapterFilter)>, fid: u32) -> Seq<(u32, AdapterFilter)>
    decreases s.len(),
{
    if s.len() == 0 {
        s
    } else {
        let rest = without_id(s.drop_last(), fid);
        if s.last().0 != fid {
            rest.push(s.last())
        } else {
            rest
        }
    }
}

/// Deleting the filters with one id keeps every filter with another id.
pub proof fn lemma_delete_keeps_other_ids(s: Seq<(u32, AdapterFilter)>, fid: u32, f: (u32, AdapterFilter))
    requires
        s.contains(f),
        f.0 != fid,
    ensures
        without_id(s, fid).contains(f),
    decreases s.len(),
{
    if s.last() == f {
        assert(without_id(s, fid).last() == f);
    } else {
        let k = choose|k: int| 0 <= k < s.len() && s[k] == f;
        assert(s.drop_last()[k] == f);
        lemma_delete_keeps_other_ids(s.drop_last(), fid, f);
        let j = choose|j: int| 0 <= j < without_id(s.drop_last(), fid).len() && without_id(s.drop_last(), fid)[j] == f;
        if s.last().0 != fid {
            assert(without_id(s, fid)[j] == f);
        }
    }
}

/// Deleting the filters with one id removes every filter with that id.
pub proof fn lemma_delete_removes_id(s: Seq<(u32, AdapterFilter)>, fid: u32)
    ensures
        forall|k: int| 0 <= k < without_id(s, fid).len() ==> without_id(s, fid)[k].0 != fid,
    decreases s.len(),
{
    if s.len() > 0 {
        lemma_delete_removes_id(s.drop_last(), fid);
        let rest = without_id(s.drop_last(), fid);
        if s.last().0 != fid {
            assert(without_id(s, fid) == rest.push(s.last()));
            assert forall|k: int| 0 <= k < without_id(s, fid).len() implies without_id(s, fid)[k].0 != fid by {
                if k < rest.len() {
                    assert(without_id(s, fid)[k] == rest[k]);
                }
            }
        }
    }
}

/// Deleting filters keeps every remaining id below a bound that held before.
pub proof fn lemma_delete_keeps_bound(s: Seq<(u32, AdapterFilter)>, fid: u32, bound: u32)
    requires
        forall|k: int| 0 <= k < s.len() ==> #[trigger] s[k].0 < bound,
    ensures
        forall|k: int| 0 <= k < without_id(s, fid).len() ==> #[trigger] without_id(s, fid)[k].0 < bound,
    decreases s.len(),
{
    if s.len() > 0 {
        let rest = without_id(s.drop_last(), fid);
        assert forall|k: int| 0 <= k < s.drop_last().len() implies #[trigger] s.drop_last()[k].0 < bound by {
            assert(s.drop_last()[k] == s[k]);
        }
        lemma_delete_keeps_bound(s.drop_last(), fid, bound);
        if s.last().0 != fid {
            assert(without_id(s, fid) == rest.push(s.last()));
            assert forall|k: int| 0 <= k < without_id(s, fid).len() implies #[trigger] without_id(s, fid)[k].0 < bound by {
                if k < rest.len() {
                    assert(without_id(s, fid)[k] == rest[k]);
                }
            }
        }
    }
}

/// Two filters added in turn to one channel of any adapter get different
/// ids, and deleting either id leaves the other filter installed. The
/// requirements are what `add_channel_filter` ensures of each addition.
pub proof fn lemma_two_filters_independent<A: AdapterHardware>(
    s0: A,
    s1: A,
    s2: A,
    channel_id: u32,
    f1: AdapterFilter,
    id1: u32,
    f2: AdapterFilter,
    id2: u32,
)
    requires
        s1.channel_filters(channel_id) == s0.channel_filters(channel_id).push((id1, f1)),
        forall|k: int|
            0 <= k < s1.channel_filters(channel_id).len() ==> #[trigger] s1.channel_filters(channel_id)[k].0 != id2,
        s2.channel_filters(channel_id) == s1.channel_filters(channel_id).push((id2, f2)),
    ensures
        id1 != id2,
        without_id(s2.channel_filters(channel_id), id1).contains((id2, f2)),
        without_id(s2.channel_filters(channel_id), id2).contains((id1, f1)),
{
    let fs = s2.channel_filters(channel_id);
    let n = s0.channel_filters(channel_id).len() as int;
    assert(s1.channel_filters(channel_id)[n] == (id1, f1));
    assert(fs[n] == (id1, f1));
    assert(fs[n + 1] == (id2, f2));
    assert(s1.channel_filters(channel_id)[n].0 != id2);
    lemma_delete_keeps_other_ids(fs, id1, (id2, f2));
    lemma_delete_keeps_other_ids(fs, id2, (id1, f1));
}

/// On any adapter, a channel just opened has no filter, so it admits no
/// inbound frame. The requirement is what `open_channel` ensures.
pub proof fn lemma_new_channel_admits_nothing<A: AdapterHardware>(dev: A, channel_id: u32, frame_id: u32)
    requires
        dev.channel_filters(channel_id) == Seq::<(u32, AdapterFilter)>::empty(),
    ensures
        !admits(dev.channel_filters(channel_id), frame_id),
{
}

} // verus!
