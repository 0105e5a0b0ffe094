//! The table that maps bucket values to variation ids.

use crate::search::{
    first_index, lemma_first_index_found, lemma_first_index_is, lemma_first_index_none,
};
use vstd::prelude::*;
use vstd::string::*;

verus! {

/// One row of a traffic allocation as a value.
pub struct TrafficRangeView {
    pub end_of_range: int,
    pub variation_id: Seq<char>,
}

/// One row of a traffic allocation: the bucket values below `end_of_range`
/// that no earlier row covers belong to `variation_id`.
#[derive(Debug)]
pub struct TrafficRange {
    end_of_range: u64,
    variation_id: String,
}

impl View for TrafficRange {
    type V = TrafficRangeView;

    closed spec fn view(&self) -> TrafficRangeView {
        TrafficRangeView {
            end_of_range: self.end_of_range as int,
            variation_id: self.variation_id@,
        }
    }
}

impl Clone for TrafficRange {
    fn clone(&self) -> (copy: Self)
        ensures
            copy@ == self@,
    {
        TrafficRange { end_of_range: self.end_of_range, variation_id: self.variation_id.clone() }
    }
}

impl TrafficRange {
    /// A row that ends below `end_of_range` and belongs to `variation_id`.
    pub fn new(end_of_range: u64, variation_id: &str) -> (range: TrafficRange)
        ensures
            range@ == (TrafficRangeView {
                end_of_range: end_of_range as int,
                variation_id: variation_id@,
            }),
    {
        TrafficRange { end_of_range, variation_id: variation_id.to_owned() }
    }

    /// The first bucket value that the row no longer covers.
    pub fn end_of_range(&self) -> (end: u64)
        ensures
            end == self@.end_of_range,
    {
        self.end_of_range
    }

    /// The id of the variation that the row belongs to.
    pub fn variation_id(&self) -> (id: &str)
        ensures
            id@ == self@.variation_id,
    {
        self.variation_id.as_str()
    }
}

/// The rows of a traffic allocation, each as a value.
pub open spec fn range_views(ranges: Seq<TrafficRange>) -> Seq<TrafficRangeView> {
    ranges.map_values(|r: TrafficRange| r@)
}

/// The condition "the row ends above `bucket_value`".
pub open spec fn ends_above(bucket_value: int) -> spec_fn(TrafficRangeView) -> bool {
    |r: TrafficRangeView| bucket_value < r.end_of_range
}

/// Whether the ends of the rows grow strictly from each row to the next.
pub open spec fn strictly_increasing(ranges: Seq<TrafficRangeView>) -> bool {
    forall|i: int, j: int|
        0 <= i < j < ranges.len() ==> (#[trigger] ranges[i]).end_of_range < (
        #[trigger] ranges[j]).end_of_range
}

/// A traffic allocation as a value.
pub struct TrafficAllocationView {
    pub ranges: Seq<TrafficRangeView>,
}

impl TrafficAllocationView {
    /// The ends of the rows grow strictly.
    pub open spec fn wf(self) -> bool {
        strictly_increasing(self.ranges)
    }

    /// The variation id of the row that covers `bucket_value`: the first row
    /// that ends above it. `None` where the value lies at or above the last end.
    pub open spec fn variation(self, bucket_value: int) -> Option<Seq<char>> {
        match first_index(self.ranges, ends_above(bucket_value)) {
            Some(i) => Some(self.ranges[i].variation_id),
            None => None,
        }
    }
}

/// In a well-formed table the row that covers a bucket value is the one row
/// that ends above the value while the row before it, if there is one, does
/// not. A value at or above the last end is covered by no row.
pub proof fn covering_row_decides(table: TrafficAllocationView, bucket_value: int, row: int)
    requires
        table.wf(),
        0 <= row < table.ranges.len(),
    ensures
        (bucket_value < table.ranges[row].end_of_range && (row > 0 ==> table.ranges[row
            - 1].end_of_range <= bucket_value)) <==> first_index(
            table.ranges,
            ends_above(bucket_value),
        ) == Some(row),
        table.ranges.last().end_of_range <= bucket_value <==> table.variation(bucket_value) is None,
{
    let p = ends_above(bucket_value);
    lemma_first_index_found(table.ranges, p, 0);
    if bucket_value < table.ranges[row].end_of_range && (row > 0 ==> table.ranges[row
        - 1].end_of_range <= bucket_value) {
        lemma_first_index_is(table.ranges, p, row);
    }
    if table.ranges.last().end_of_range <= bucket_value {
        lemma_first_index_none(table.ranges, p);
    }
}

/// The table that maps bucket values to variation ids. Its rows are kept in
/// the order of their ends, which grow strictly.
#[derive(Debug)]
pub struct TrafficAllocation {
    ranges: Vec<TrafficRange>,
}

impl View for TrafficAllocation {
    type V = TrafficAllocationView;

    closed spec fn view(&self) -> TrafficAllocationView {
        TrafficAllocationView { ranges: range_views(self.ranges@) }
    }
}

impl TrafficAllocation {
    #[verifier::type_invariant]
    spec fn ordered(self) -> bool {
        self@.wf()
    }

    /// The allocation with the given rows, if their ends grow strictly.
    pub fn new(ranges: Vec<TrafficRange>) -> (allocation: Option<TrafficAllocation>)
        ensures
            allocation is Some <==> strictly_increasing(range_views(ranges@)),
            allocation matches Some(a) ==> a@.ranges == range_views(ranges@),
    {
        let ghost views = range_views(ranges@);
        let mut i: usize = 1;
        while i < ranges.len()
            invariant
                1 <= i,
                views == range_views(ranges@),
                forall|a: int, b: int|
                    0 <= a < b < i && b < views.len() ==> (#[trigger] views[a]).end_of_range < (
                    #[trigger] views[b]).end_of_range,
            decreases ranges.len() - i,
        {
            if ranges[i - 1].end_of_range >= ranges[i].end_of_range {
                assert(!(views[i - 1].end_of_range < views[i as int].end_of_range));
                return None;
            }
            assert forall|a: int, b: int| 0 <= a < b < i + 1 && b < views.len() implies (
            #[trigger] views[a]).end_of_range < (#[trigger] views[b]).end_of_range by {
                if b == i && a < i - 1 {
                    assert(views[a].end_of_range < views[i - 1].end_of_range);
                }
            }
            i += 1;
        }
        Some(TrafficAllocation { ranges })
    }

    /// The number of rows.
    pub fn len(&self) -> (n: usize)
        ensures
            n == self@.ranges.len(),
            self@.wf(),
    {
        proof {
            use_type_invariant(self);
        }
        self.ranges.len()
    }

    /// The rows, in the order of their ends.
    pub fn ranges(&self) -> (ranges: &Vec<TrafficRange>)
        ensures
            range_views(ranges@) == self@.ranges,
            self@.wf(),
    {
        proof {
            use_type_invariant(self);
        }
        &self.ranges
    }

    /// The id of the variation that `bucket_value` falls to, if a row covers it.
    pub fn variation(&self, bucket_value: u64) -> (id: Option<&str>)
        ensures
            match id {
                Some(v) => self@.variation(bucket_value as int) == Some(v@),
                None => self@.variation(bucket_value as int) is None,
            },
    {
        proof {
            use_type_invariant(self);
        }
        let ghost views = self@.ranges;
        let mut low: usize = 0;
        let mut high: usize = self.ranges.len();
        while low < high
            invariant
                low <= high <= self.ranges.len(),
                views == range_views(self.ranges@),
                strictly_increasing(views),
                forall|j: int| 0 <= j < low ==> (#[trigger] views[j]).end_of_range <= bucket_value,
                forall|j: int|
                    high <= j < views.len() ==> bucket_value < (#[trigger] views[j]).end_of_range,
            decreases high - low,
        {
            let middle: usize = low + (high - low) / 2;
            if self.ranges[middle].end_of_range <= bucket_value {
                assert forall|j: int| 0 <= j < middle + 1 implies (
                #[trigger] views[j]).end_of_range <= bucket_value by {
                    if j < middle {
                        assert(views[j].end_of_range < views[middle as int].end_of_range);
                    }
                }
                low = middle + 1;
            } else {
                assert forall|j: int| middle <= j < views.len() implies bucket_value < (
                #[trigger] views[j]).end_of_range by {
                    if middle < j {
                        assert(views[middle as int].end_of_range < views[j].end_of_range);
                    }
                }
                high = middle;
            }
        }
        let ghost p = ends_above(bucket_value as int);
        if low < self.ranges.len() {
            proof {
                lemma_first_index_is(views, p, low as int);
            }
            Some(self.ranges[low].variation_id.as_str())
        } else {
            proof {
                lemma_first_index_none(views, p);
            }
            None
        }
    }
}

} // verus!
