use vstd::prelude::*;

use crate::error::PipelineError;
use crate::text::{split_on, split_on_char, views};

verus! {

/// Position of the gene symbol within an annotation block.
pub const GENE_SYMBOL: usize = 3;

/// Position of the variant type (effect) within an annotation block.
pub const TYPE: usize = 5;

/// Position of the HGVS notation within an annotation block.
pub const HGVS: usize = 9;

/// Where each extracted sub-field stands within a pipe-delimited annotation block.
#[derive(Debug, Clone, Copy, PartialEq, Eq)]
pub struct AnnotationLayout {
    pub gene_symbol: usize,
    pub variant_type: usize,
    pub hgvs: usize,
}

impl AnnotationLayout {
    /// The layout of the functional annotation field written by common effect predictors.
    pub fn standard() -> (r: AnnotationLayout)
        ensures
            r.gene_symbol == GENE_SYMBOL,
            r.variant_type == TYPE,
            r.hgvs == HGVS,
    {
        AnnotationLayout { gene_symbol: GENE_SYMBOL, variant_type: TYPE, hgvs: HGVS }
    }
}

/// The three lists drawn from a record's annotation blocks, one entry per block each.
#[derive(Debug, Clone, PartialEq, Eq)]
pub struct Annotations {
    pub gene_symbol: Vec<String>,
    pub variant_type: Vec<String>,
    pub hgvs: Vec<String>,
}

/// The sub-fields of one annotation block.
pub open spec fn block_fields(block: String) -> Seq<Seq<char>> {
    split_on(block@, '|')
}

/// Every block of `blocks` has a sub-field at `index`.
pub open spec fn all_reach(blocks: Seq<String>, index: int) -> bool {
    forall|k: int| 0 <= k < blocks.len() ==> index < #[trigger] block_fields(blocks[k]).len()
}

/// The sub-field at `index` of each block, in block order.
pub open spec fn column(blocks: Seq<String>, index: int) -> Seq<Seq<char>> {
    Seq::new(blocks.len(), |k: int| block_fields(blocks[k])[index])
}

/// Splits one annotation block into its pipe-delimited sub-fields.
pub fn split_ann(ann: &str) -> (r: Vec<String>)
    ensures
        views(r@) == split_on(ann@, '|'),
{
    split_on_char(ann, '|')
}

/// The sub-field at `index` of every block, in block order; fails when a block is
/// too short to hold it.
pub fn get_field(fields: &Vec<Vec<String>>, index: usize) -> (r: Result<Vec<String>, PipelineError>)
    ensures
        (forall|k: int| 0 <= k < fields@.len() ==> index < #[trigger] fields@[k]@.len()) <==> r is Ok,
        r is Err ==> r->Err_0 == PipelineError::AnnotationIndexOutOfRange,
        r is Ok ==> r->Ok_0@.len() == fields@.len() && forall|k: int|
            0 <= k < fields@.len() ==> (#[trigger] r->Ok_0@[k])@ == fields@[k]@[index as int]@,
{
    let mut out: Vec<String> = Vec::new();
    let mut i: usize = 0;
    while i < fields.len()
        invariant
            i <= fields@.len(),
            out@.len() == i,
            forall|k: int| 0 <= k < i ==> index < #[trigger] fields@[k]@.len(),
            forall|k: int| 0 <= k < i ==> (#[trigger] out@[k])@ == fields@[k]@[index as int]@,
        decreases fields@.len() - i,
    {
        let block = &fields[i];
        if index >= block.len() {
            return Err(PipelineError::AnnotationIndexOutOfRange);
        }
        out.push(block[index].clone());
        i = i + 1;
    }
    Ok(out)
}

/// Splits every block of an annotation field into its sub-fields.
pub fn split_blocks(blocks: &Vec<String>) -> (r: Vec<Vec<String>>)
    ensures
        r@.len() == blocks@.len(),
        forall|k: int| 0 <= k < blocks@.len() ==> views(#[trigger] r@[k]@) == block_fields(blocks@[k]),
{
    let mut out: Vec<Vec<String>> = Vec::new();
    let mut i: usize = 0;
    while i < blocks.len()
        invariant
            i <= blocks@.len(),
            out@.len() == i,
            forall|k: int| 0 <= k < i ==> views(#[trigger] out@[k]@) == block_fields(blocks@[k]),
        decreases blocks@.len() - i,
    {
        out.push(split_ann(blocks[i].as_str()));
        i = i + 1;
    }
    out
}

/// Whether gathering the three lists from `blocks` under `layout` succeeds.
pub open spec fn annotations_fit(blocks: Seq<String>, layout: AnnotationLayout) -> bool {
    &&& all_reach(blocks, layout.gene_symbol as int)
    &&& all_reach(blocks, layout.variant_type as int)
    &&& all_reach(blocks, layout.hgvs as int)
}

impl Annotations {
    /// `self` holds the three columns of `blocks` that `layout` names.
    pub open spec fn drawn_from(self, blocks: Seq<String>, layout: AnnotationLayout) -> bool {
        &&& views(self.gene_symbol@) == column(blocks, layout.gene_symbol as int)
        &&& views(self.variant_type@) == column(blocks, layout.variant_type as int)
        &&& views(self.hgvs@) == column(blocks, layout.hgvs as int)
    }
}

fn column_of(fields: &Vec<Vec<String>>, index: usize, Ghost(blocks): Ghost<Seq<String>>) -> (r:
    Result<Vec<String>, PipelineError>)
    requires
        fields@.len() == blocks.len(),
        forall|k: int| 0 <= k < blocks.len() ==> views(#[trigger] fields@[k]@) == block_fields(blocks[k]),
    ensures
        all_reach(blocks, index as int) <==> r is Ok,
        r is Err ==> r->Err_0 == PipelineError::AnnotationIndexOutOfRange,
        r is Ok ==> views(r->Ok_0@) == column(blocks, index as int),
{
    let r = get_field(fields, index);
    proof {
        assert forall|k: int| 0 <= k < blocks.len() implies fields@[k]@.len() == #[trigger] block_fields(blocks[k]).len() by {
            assert(views(fields@[k]@).len() == fields@[k]@.len());
        }
        if r is Ok {
            assert forall|k: int| 0 <= k < blocks.len() implies index < #[trigger] block_fields(blocks[k]).len() by {
                assert(index < fields@[k]@.len());
            }
        } else {
            let k = choose|k: int| 0 <= k < fields@.len() && !(index < #[trigger] fields@[k]@.len());
            assert(!(index < block_fields(blocks[k]).len()));
        }
        if r is Ok {
            let v = r->Ok_0;
            assert forall|k: int| 0 <= k < blocks.len() implies #[trigger] views(v@)[k] == column(blocks, index as int)[k] by {
                assert(views(fields@[k]@)[index as int] == fields@[k]@[index as int]@);
            }
            assert(views(v@) =~= column(blocks, index as int));
        }
    }
    r
}

/// The gene symbols, variant types and HGVS notations of a record's annotation
/// blocks. An absent annotation field gives none of the three; a present one gives
/// all three, or fails when a block is too short for one of them.
pub fn extract_annotations(ann: &Option<Vec<String>>, layout: &AnnotationLayout) -> (r: Result<
    Option<Annotations>,
    PipelineError,
>)
    ensures
        ann is None ==> r == Ok::<Option<Annotations>, PipelineError>(None),
        ann is Some ==> (r is Ok <==> annotations_fit(ann->Some_0@, *layout)),
        r is Err ==> r->Err_0 == PipelineError::AnnotationIndexOutOfRange,
        ann is Some && r is Ok ==> r->Ok_0 is Some && r->Ok_0->Some_0.drawn_from(
            ann->Some_0@,
            *layout,
        ),
{
    match ann {
        None => Ok(None),
        Some(blocks) => {
            let fields = split_blocks(blocks);
            let gene_symbol = match column_of(&fields, layout.gene_symbol, Ghost(blocks@)) {
                Ok(v) => v,
                Err(e) => return Err(e),
            };
            let variant_type = match column_of(&fields, layout.variant_type, Ghost(blocks@)) {
                Ok(v) => v,
                Err(e) => return Err(e),
            };
            let hgvs = match column_of(&fields, layout.hgvs, Ghost(blocks@)) {
                Ok(v) => v,
                Err(e) => return Err(e),
            };
            Ok(Some(Annotations { gene_symbol, variant_type, hgvs }))
        },
    }
}

} // verus!
