//! The keys registered from a device.
use vstd::prelude::*;
use crate::types::{KeyAnchor, RawHash};

verus! {

/// The keys of a device from the records its key anchor links target
/// (`None` where the record could not be fetched): each record with an
/// entry hash and an anchor entry, in link order.
pub open spec fn device_keys(records: Seq<Option<(Option<RawHash>, Option<KeyAnchor>)>>) -> Seq<(RawHash, KeyAnchor)>
    decreases records.len(),
{
    if records.len() == 0 {
        Seq::empty()
    } else {
        let rest = device_keys(records.drop_last());
        match records.last() {
            Some((Some(h), Some(a))) => rest.push((h, a)),
            _ => rest,
        }
    }
}

/// The keys of a device, with the entry hashes of their anchors.
pub fn get_device_keys(records: Vec<Option<(Option<RawHash>, Option<KeyAnchor>)>>) -> (r: Vec<(RawHash, KeyAnchor)>)
    ensures
        r@ == device_keys(records@),
{
    let ghost items = records@;
    let n = records.len();
    let mut rest = records;
    let mut out: Vec<(RawHash, KeyAnchor)> = Vec::new();
    let mut i: usize = 0;
    while rest.len() > 0
        invariant
            items.len() == n,
            i + rest@.len() == n,
            rest@ == items.subrange(i as int, n as int),
            out@ == device_keys(items.subrange(0, i as int)),
        decreases rest@.len(),
    {
        assert(items.subrange(0, i as int + 1).drop_last() =~= items.subrange(0, i as int));
        let rec = rest.remove(0);
        if let Some((Some(h), Some(a))) = rec {
            out.push((h, a));
        }
        i = i + 1;
        assert(rest@ =~= items.subrange(i as int, n as int));
    }
    assert(items.subrange(0, n as int) =~= items);
    out
}

} // verus!
