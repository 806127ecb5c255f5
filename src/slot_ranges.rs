use vstd::prelude::*;

verus! {

/// The first and last stored slot of one epoch.
#[derive(Clone, Copy, Debug, PartialEq, Eq, Structural)]
pub struct EpochSlotRange {
    pub epoch: u64,
    pub first_slot: u64,
    pub last_slot: u64,
}

/// Two rows named the same epoch: the store's per-epoch summary is broken.
#[derive(Clone, Copy, Debug, PartialEq, Eq, Structural)]
pub struct DuplicateEpoch {
    pub epoch: u64,
}

/// No two ranges are of the same epoch.
pub open spec fn epochs_unique(v: Seq<EpochSlotRange>) -> bool {
    forall|i: int, j: int| 0 <= i < j < v.len() ==> #[trigger] v[i].epoch != #[trigger] v[j].epoch
}

/// Accepts the per-epoch rows of the store when each epoch occurs once;
/// otherwise names the first epoch (by the position of its second row) that
/// occurs twice.
pub fn slot_ranges_by_epoch(rows: &Vec<EpochSlotRange>) -> (r: Result<Vec<EpochSlotRange>, DuplicateEpoch>)
    ensures
        r is Ok <==> epochs_unique(rows@),
        r is Ok ==> r->Ok_0@ == rows@,
        r is Err ==> exists|i: int, j: int|
            0 <= i < j < rows@.len() && rows@[i].epoch == rows@[j].epoch && r->Err_0.epoch == rows@[j].epoch,
{
    let mut out: Vec<EpochSlotRange> = Vec::new();
    let mut j: usize = 0;
    while j < rows.len()
        invariant
            j <= rows@.len(),
            out@ == rows@.subrange(0, j as int),
            epochs_unique(out@),
        decreases rows@.len() - j,
    {
        let mut i: usize = 0;
        while i < j
            invariant
                i <= j < rows@.len(),
                forall|k: int| 0 <= k < i ==> #[trigger] rows@[k].epoch != rows@[j as int].epoch,
            decreases j - i,
        {
            if rows[i].epoch == rows[j].epoch {
                return Err(DuplicateEpoch { epoch: rows[j].epoch });
            }
            i = i + 1;
        }
        out.push(rows[j]);
        proof {
            assert forall|a: int, b: int| 0 <= a < b < out@.len() implies #[trigger] out@[a].epoch
                != #[trigger] out@[b].epoch by {
                if b == j {
                    assert(out@[a] == rows@[a]);
                } else {
                    assert(out@[a] == rows@.subrange(0, j as int)[a]);
                }
            }
        }
        j = j + 1;
    }
    assert(out@ =~= rows@);
    Ok(out)
}

/// The smallest first slot of the first `k` ranges.
pub open spec fn min_first(v: Seq<EpochSlotRange>, k: int) -> u64
    decreases k,
{
    if k <= 1 || v.len() < k {
        v[0].first_slot
    } else if v[k - 1].first_slot < min_first(v, k - 1) {
        v[k - 1].first_slot
    } else {
        min_first(v, k - 1)
    }
}

/// The largest last slot of the first `k` ranges.
pub open spec fn max_last(v: Seq<EpochSlotRange>, k: int) -> u64
    decreases k,
{
    if k <= 1 || v.len() < k {
        v[0].last_slot
    } else if v[k - 1].last_slot > max_last(v, k - 1) {
        v[k - 1].last_slot
    } else {
        max_last(v, k - 1)
    }
}

/// The slots the store holds over all epochs: from the smallest first slot
/// to the largest last slot. None when it holds no epoch.
pub fn get_slot_range(ranges: &Vec<EpochSlotRange>) -> (r: Option<(u64, u64)>)
    ensures
        ranges@.len() == 0 <==> r is None,
        r is Some ==> r->Some_0 == (
            min_first(ranges@, ranges@.len() as int),
            max_last(ranges@, ranges@.len() as int),
        ),
{
    if ranges.len() == 0 {
        return None;
    }
    let mut lo = ranges[0].first_slot;
    let mut hi = ranges[0].last_slot;
    let mut k: usize = 1;
    while k < ranges.len()
        invariant
            1 <= k <= ranges@.len(),
            lo == min_first(ranges@, k as int),
            hi == max_last(ranges@, k as int),
        decreases ranges@.len() - k,
    {
        if ranges[k].first_slot < lo {
            lo = ranges[k].first_slot;
        }
        if ranges[k].last_slot > hi {
            hi = ranges[k].last_slot;
        }
        k = k + 1;
    }
    Some((lo, hi))
}

/// The range of `epoch`, if the store holds it.
pub open spec fn range_of(v: Seq<EpochSlotRange>, epoch: u64) -> Option<EpochSlotRange>
    decreases v.len(),
{
    if v.len() == 0 {
        None
    } else if v[0].epoch == epoch {
        Some(v[0])
    } else {
        range_of(v.drop_first(), epoch)
    }
}

/// Whether the store holds `slot`, which lies in `epoch`: the epoch is
/// stored and the slot is within its range.
pub fn is_block_in_range(ranges: &Vec<EpochSlotRange>, epoch: u64, slot: u64) -> (r: bool)
    ensures
        r == match range_of(ranges@, epoch) {
            Some(rg) => rg.first_slot <= slot && slot <= rg.last_slot,
            None => false,
        },
{
    let mut k: usize = 0;
    assert(ranges@.subrange(0, ranges@.len() as int) =~= ranges@);
    while k < ranges.len()
        invariant
            k <= ranges@.len(),
            range_of(ranges@, epoch) == range_of(ranges@.subrange(k as int, ranges@.len() as int), epoch),
        decreases ranges@.len() - k,
    {
        let ghost rest = ranges@.subrange(k as int, ranges@.len() as int);
        assert(rest.drop_first() =~= ranges@.subrange(k + 1, ranges@.len() as int));
        if ranges[k].epoch == epoch {
            return ranges[k].first_slot <= slot && slot <= ranges[k].last_slot;
        }
        k = k + 1;
    }
    false
}

} // verus!
