//! A monitored item: samples of one attribute, filtered for change and
//! queued for the subscription.

use vstd::prelude::*;
use crate::node::AttributeId;
use crate::types::{DataValue, DataValueModel, NodeId, Variant};

verus! {

/// Whether a sample differs from the last in status or value.
pub open spec fn changed(last: Option<DataValueModel>, sample: DataValueModel) -> bool {
    match last {
        None => true,
        Some(l) => l.status != sample.status || l.value != sample.value,
    }
}

pub open spec fn values_view(v: Seq<DataValue>) -> Seq<DataValueModel> {
    v.map_values(|d: DataValue| d@)
}

/// The queue after adding `sample` to `queue`, bounded by `size`: when
/// full, the oldest entry or the newest one gives way.
pub open spec fn queued(queue: Seq<DataValueModel>, sample: DataValueModel, size: nat, discard_oldest: bool) -> Seq<
    DataValueModel,
> {
    if queue.len() < size {
        queue.push(sample)
    } else if discard_oldest {
        queue.drop_first().push(sample)
    } else {
        queue.drop_last().push(sample)
    }
}

#[derive(Debug)]
pub struct MonitoredItem {
    pub monitored_item_id: u32,
    pub node_id: NodeId,
    pub attribute_id: AttributeId,
    pub queue_size: usize,
    pub discard_oldest: bool,
    pub last_value: Option<DataValue>,
    pub queue: Vec<DataValue>,
}

impl MonitoredItem {
    pub open spec fn spec_last(&self) -> Option<DataValueModel> {
        match self.last_value {
            Some(d) => Some(d@),
            None => None,
        }
    }

    /// The queue never holds more than its size, which is at least one.
    pub open spec fn wf(&self) -> bool {
        &&& self.queue_size >= 1
        &&& self.queue@.len() <= self.queue_size
    }

    pub fn new(
        monitored_item_id: u32,
        node_id: NodeId,
        attribute_id: AttributeId,
        queue_size: usize,
        discard_oldest: bool,
    ) -> (r: MonitoredItem)
        requires
            queue_size >= 1,
        ensures
            r.wf(),
            r.monitored_item_id == monitored_item_id,
            r.node_id@ == node_id@,
            r.attribute_id == attribute_id,
            r.queue_size == queue_size,
            r.discard_oldest == discard_oldest,
            r.last_value is None,
            r.queue@.len() == 0,
    {
        MonitoredItem { monitored_item_id, node_id, attribute_id, queue_size, discard_oldest, last_value: None, queue: Vec::new() }
    }

    /// Takes a sample. If its status or value differs from the last sample
    /// it is queued and becomes the last one, and the result is true;
    /// otherwise nothing changes.
    pub fn sample(&mut self, value: DataValue) -> (r: bool)
        requires
            old(self).wf(),
        ensures
            final(self).wf(),
            r == changed(old(self).spec_last(), value@),
            final(self).queue_size == old(self).queue_size,
            final(self).discard_oldest == old(self).discard_oldest,
            r ==> final(self).spec_last() == Some(value@) && values_view(final(self).queue@) == queued(
                values_view(old(self).queue@),
                value@,
                old(self).queue_size as nat,
                old(self).discard_oldest,
            ),
            !r ==> final(self).spec_last() == old(self).spec_last() && final(self).queue@ == old(self).queue@,
    {
        let differs = match &self.last_value {
            None => true,
            Some(l) => l.status != value.status || !variant_options_equal(&l.value, &value.value),
        };
        if !differs {
            return false;
        }
        let ghost q0 = values_view(self.queue@);
        let copy = value.duplicate();
        if self.queue.len() >= self.queue_size {
            if self.discard_oldest {
                let _ = self.queue.remove(0);
                assert(values_view(self.queue@) =~= q0.drop_first());
            } else {
                let _ = self.queue.pop();
                assert(values_view(self.queue@) =~= q0.drop_last());
            }
        }
        let ghost q1 = self.queue@;
        self.queue.push(copy);
        assert(values_view(self.queue@) =~= values_view(q1).push(value@));
        self.last_value = Some(value);
        true
    }

    /// Hands out the queued samples, oldest first, and empties the queue.
    pub fn take_notifications(&mut self) -> (r: Vec<DataValue>)
        requires
            old(self).wf(),
        ensures
            final(self).wf(),
            r@ == old(self).queue@,
            final(self).queue@.len() == 0,
            final(self).spec_last() == old(self).spec_last(),
            final(self).queue_size == old(self).queue_size,
    {
        let mut out: Vec<DataValue> = Vec::new();
        core::mem::swap(&mut out, &mut self.queue);
        out
    }
}

/// Whether two optional variants are equal.
pub fn variant_options_equal(a: &Option<Variant>, b: &Option<Variant>) -> (r: bool)
    ensures
        r == (crate::types::variant_option_view(*a) == crate::types::variant_option_view(*b)),
{
    match (a, b) {
        (None, None) => true,
        (Some(x), Some(y)) => x.equals(y),
        _ => false,
    }
}

} // verus!
