use vstd::prelude::*;

verus! {

/// Every way in which processing a run can fail. Each one ends the run.
#[derive(Debug, Clone, PartialEq, Eq)]
pub enum PipelineError {
    /// A tracked per-sample field holds no value on a record.
    EmptyDistribution,
    /// An annotation block has no sub-field at the requested position.
    AnnotationIndexOutOfRange,
    /// The record carries no contig index.
    MissingContig,
    /// The record's allele list is empty.
    MissingReferenceAllele,
    /// The remote service answered with a status other than 201; carries its body.
    Submission(String),
}

} // verus!
