//! Per-stage timing: the labels of the three pipeline stages and the
//! sink that accumulates one duration record per completed stage.

use vstd::prelude::*;

verus! {

/// The label a stage's duration is recorded under.
#[derive(Clone, Copy, Debug, PartialEq, Eq, Structural)]
pub enum StageLabel {
    /// The preprocessing stage.
    VisualPreprocess,
    /// The inference stage.
    VisualInference,
    /// The postprocessing stage.
    VisualPostprocess,
}

impl StageLabel {
    /// The name of this label, as written into reports.
    pub open spec fn spec_name(self) -> Seq<char> {
        match self {
            StageLabel::VisualPreprocess => "visual-preprocess"@,
            StageLabel::VisualInference => "visual-inference"@,
            StageLabel::VisualPostprocess => "visual-postprocess"@,
        }
    }

    /// The name of this label, as written into reports.
    pub fn name(&self) -> (r: &'static str)
        ensures
            r@ == self.spec_name(),
    {
        match self {
            StageLabel::VisualPreprocess => "visual-preprocess",
            StageLabel::VisualInference => "visual-inference",
            StageLabel::VisualPostprocess => "visual-postprocess",
        }
    }
}

/// One completed stage: its label and how long it took.
#[derive(Clone, Copy, Debug, PartialEq, Eq, Structural)]
pub struct StageRecord {
    /// The stage that completed.
    pub label: StageLabel,
    /// Its duration in nanoseconds, saturated at the largest `u64`.
    pub nanos: u64,
}

/// The timing sink of one adapter: the stage records of all its runs, in
/// the order they completed.
#[derive(Debug)]
pub struct Ts {
    records: Vec<StageRecord>,
}

impl View for Ts {
    type V = Seq<StageRecord>;

    closed spec fn view(&self) -> Seq<StageRecord> {
        self.records@
    }
}

impl Ts {
    /// An empty sink: nothing has been timed yet.
    pub fn new() -> (r: Ts)
        ensures
            r@ == Seq::<StageRecord>::empty(),
    {
        Ts { records: Vec::new() }
    }

    /// Append one stage record.
    pub(crate) fn record(&mut self, label: StageLabel, nanos: u64)
        ensures
            final(self)@ == old(self)@.push(StageRecord { label, nanos }),
    {
        self.records.push(StageRecord { label, nanos });
    }

    /// The records accumulated so far, oldest first.
    pub fn entries(&self) -> (r: &Vec<StageRecord>)
        ensures
            r@ == self@,
    {
        &self.records
    }
}

/// `new_r` is `old_r` with exactly one record appended, carrying label
/// `l`.
pub open spec fn appended(old_r: Seq<StageRecord>, new_r: Seq<StageRecord>, l: StageLabel) -> bool {
    &&& new_r.len() == old_r.len() + 1
    &&& (forall|i: int| 0 <= i < old_r.len() ==> new_r[i] == old_r[i])
    &&& new_r.last().label == l
}

/// `new_r` is `old_r` with exactly two records appended, carrying labels
/// `l1` and `l2` in that order.
pub open spec fn appended_two(
    old_r: Seq<StageRecord>,
    new_r: Seq<StageRecord>,
    l1: StageLabel,
    l2: StageLabel,
) -> bool {
    &&& new_r.len() == old_r.len() + 2
    &&& (forall|i: int| 0 <= i < old_r.len() ==> new_r[i] == old_r[i])
    &&& new_r[old_r.len() as int].label == l1
    &&& new_r[old_r.len() as int + 1].label == l2
}

} // verus!
