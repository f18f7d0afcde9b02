use vstd::prelude::*;
use vstd::string::*;

use crate::annotation::{annotations_fit, column, extract_annotations, AnnotationLayout};
use crate::distribution::{calc_distribution, present_values, Distribution};
use crate::error::PipelineError;
use crate::text::{join_comma, join_with, split_on, split_on_char, views};

verus! {

/// How the values of the clinical-significance field become one string.
#[derive(Debug, Clone, Copy, PartialEq, Eq)]
pub enum ClnsigMode {
    /// All values, joined by commas.
    JoinAll,
    /// The first value alone.
    FirstOnly,
}

/// What stays fixed for the whole run.
#[derive(Debug, Clone)]
pub struct RunConfig {
    pub dataset_id: String,
    pub assembly_id: String,
    /// Number of samples declared in the file header.
    pub total_samples: u32,
    /// Whether the file's schema declares the per-record sample-count field.
    pub has_sample_count: bool,
    pub clnsig_mode: ClnsigMode,
    pub layout: AnnotationLayout,
}

/// The fields of one variant record, as the file reader hands them over.
#[derive(Debug, Clone)]
pub struct RawRecord {
    /// The identifier column, `.` when there is none.
    pub id: String,
    /// Name of the record's contig, absent when the record has no contig index.
    pub contig: Option<String>,
    /// 0-based position.
    pub pos: i64,
    /// Reference allele first, then the alternate alleles.
    pub alleles: Vec<String>,
    /// Bit patterns of the 32-bit floating-point allele frequencies, when the field is there.
    pub allele_frequency_bits: Option<Vec<u32>>,
    /// Per-sample values of the depth field.
    pub depth: Vec<Vec<i32>>,
    /// Per-sample values of the genotype-quality field.
    pub genotype_quality: Vec<Vec<i32>>,
    /// Values of the clinical-significance field, when it is there.
    pub clnsig: Option<Vec<String>>,
    /// Values of the sample-count field, when it is there.
    pub sample_count: Option<Vec<i32>>,
    /// Annotation blocks, when the annotation field is there.
    pub annotation: Option<Vec<String>>,
}

/// The canonical form of a variant that is submitted to the catalog.
#[derive(Debug, Clone)]
pub struct Variant {
    pub id: Option<String>,
    pub dataset_id: String,
    pub total_samples: u32,
    pub assembly_id: String,
    pub snp_ids: Option<Vec<String>>,
    pub reference_name: String,
    pub start: i64,
    pub reference_bases: String,
    pub alternate_bases: Vec<String>,
    pub gene_symbol: Option<Vec<String>>,
    pub allele_frequency_bits: Vec<u32>,
    pub sample_count: Option<i32>,
    pub coverage: Distribution,
    pub genotype_quality: Distribution,
    pub clnsig: Option<String>,
    pub hgvs: Option<Vec<String>>,
    pub variant_type: Option<Vec<String>>,
}

pub open spec fn opt_view(o: Option<String>) -> Option<Seq<char>> {
    match o {
        Some(s) => Some(s@),
        None => None,
    }
}

pub open spec fn opt_views(o: Option<Vec<String>>) -> Option<Seq<Seq<char>>> {
    match o {
        Some(v) => Some(views(v@)),
        None => None,
    }
}

/// The identifiers of a record: none for the placeholder `.`, else the pieces
/// between semicolons.
pub open spec fn snp_ids_of(id: Seq<char>) -> Option<Seq<Seq<char>>> {
    if id == seq!['.'] {
        None
    } else {
        Some(split_on(id, ';'))
    }
}

/// The allele frequencies of a record: empty when the field is absent.
pub open spec fn allele_frequency_of(af: Option<Vec<u32>>) -> Seq<u32> {
    match af {
        Some(v) => v@,
        None => seq![],
    }
}

/// The clinical significance of a record under `mode`.
pub open spec fn clnsig_of(values: Option<Vec<String>>, mode: ClnsigMode) -> Option<Seq<char>> {
    match values {
        None => None,
        Some(v) => match mode {
            ClnsigMode::JoinAll => Some(join_with(views(v@), ',')),
            ClnsigMode::FirstOnly => if v@.len() > 0 {
                Some(v@[0]@)
            } else {
                None
            },
        },
    }
}

/// The sample count of a record: its first value, read only when the schema declares it.
pub open spec fn sample_count_of(declared: bool, values: Option<Vec<i32>>) -> Option<i32> {
    if declared && values is Some && values->Some_0@.len() > 0 {
        Some(values->Some_0@[0])
    } else {
        None
    }
}

/// One annotation-derived list: absent with the annotation field, else one entry per block.
pub open spec fn annotation_column(ann: Option<Vec<String>>, index: usize) -> Option<
    Seq<Seq<char>>,
> {
    match ann {
        None => None,
        Some(blocks) => Some(column(blocks@, index as int)),
    }
}

/// The error that building a variant from `rec` ends in, checked in the order in
/// which the fields are extracted; none when the record is well formed.
pub open spec fn first_error(config: RunConfig, rec: RawRecord) -> Option<PipelineError> {
    if present_values(rec.depth@).len() == 0 {
        Some(PipelineError::EmptyDistribution)
    } else if present_values(rec.genotype_quality@).len() == 0 {
        Some(PipelineError::EmptyDistribution)
    } else if rec.contig is None {
        Some(PipelineError::MissingContig)
    } else if rec.alleles@.len() == 0 {
        Some(PipelineError::MissingReferenceAllele)
    } else if rec.annotation is Some && !annotations_fit(rec.annotation->Some_0@, config.layout) {
        Some(PipelineError::AnnotationIndexOutOfRange)
    } else {
        None
    }
}

impl Variant {
    /// `self` is the variant that the well-formed record `rec` gives under `config`.
    pub open spec fn built_from(self, config: RunConfig, rec: RawRecord) -> bool {
        &&& self.id is None
        &&& self.dataset_id@ == config.dataset_id@
        &&& self.assembly_id@ == config.assembly_id@
        &&& self.total_samples == config.total_samples
        &&& opt_views(self.snp_ids) == snp_ids_of(rec.id@)
        &&& self.reference_name@ == rec.contig->Some_0@
        &&& self.start == rec.pos + 1
        &&& self.reference_bases@ == rec.alleles@[0]@
        &&& views(self.alternate_bases@) == views(rec.alleles@.subrange(1, rec.alleles@.len() as int))
        &&& self.allele_frequency_bits@ == allele_frequency_of(rec.allele_frequency_bits)
        &&& self.sample_count == sample_count_of(config.has_sample_count, rec.sample_count)
        &&& self.coverage.describes(present_values(rec.depth@))
        &&& self.genotype_quality.describes(present_values(rec.genotype_quality@))
        &&& opt_view(self.clnsig) == clnsig_of(rec.clnsig, config.clnsig_mode)
        &&& opt_views(self.gene_symbol) == annotation_column(rec.annotation, config.layout.gene_symbol)
        &&& opt_views(self.variant_type) == annotation_column(rec.annotation, config.layout.variant_type)
        &&& opt_views(self.hgvs) == annotation_column(rec.annotation, config.layout.hgvs)
    }
}

/// The identifiers of a record: none for the placeholder `.`, else split on `;`.
pub fn get_snp_ids(id: &str) -> (r: Option<Vec<String>>)
    ensures
        opt_views(r) == snp_ids_of(id@),
{
    if id.unicode_len() == 1 && id.get_char(0) == '.' {
        assert(id@ =~= seq!['.']);
        return None;
    }
    Some(split_on_char(id, ';'))
}

/// The allele frequencies of a record: empty when the field is absent.
pub fn get_allele_frequency(af: Option<Vec<u32>>) -> (r: Vec<u32>)
    ensures
        r@ == allele_frequency_of(af),
{
    match af {
        Some(v) => v,
        None => Vec::new(),
    }
}

/// The clinical significance of a record under `mode`.
pub fn get_clnsig(values: &Option<Vec<String>>, mode: ClnsigMode) -> (r: Option<String>)
    ensures
        opt_view(r) == clnsig_of(*values, mode),
{
    match values {
        None => None,
        Some(v) => match mode {
            ClnsigMode::JoinAll => Some(join_comma(v)),
            ClnsigMode::FirstOnly => if v.len() > 0 {
                Some(v[0].clone())
            } else {
                None
            },
        },
    }
}

/// The sample count of a record, when the schema declares the field.
pub fn get_sample_count(declared: bool, values: &Option<Vec<i32>>) -> (r: Option<i32>)
    ensures
        r == sample_count_of(declared, *values),
{
    if !declared {
        return None;
    }
    match values {
        Some(v) => if v.len() > 0 {
            Some(v[0])
        } else {
            None
        },
        None => None,
    }
}

/// Builds the canonical variant of one record; fails on the first malformed part.
pub fn normalize(config: &RunConfig, rec: RawRecord) -> (r: Result<Variant, PipelineError>)
    requires
        rec.pos < i64::MAX,
    ensures
        r is Err <==> first_error(*config, rec) is Some,
        r is Err ==> r->Err_0 == first_error(*config, rec)->Some_0,
        r is Ok ==> r->Ok_0.built_from(*config, rec),
{
    let ghost orig = rec;
    let RawRecord {
        id,
        contig,
        pos,
        mut alleles,
        allele_frequency_bits,
        depth,
        genotype_quality,
        clnsig,
        sample_count,
        annotation,
    } = rec;
    let snp_ids = get_snp_ids(id.as_str());
    let allele_frequency_bits = get_allele_frequency(allele_frequency_bits);
    let coverage = match calc_distribution(&depth) {
        Ok(d) => d,
        Err(e) => return Err(e),
    };
    let genotype_quality = match calc_distribution(&genotype_quality) {
        Ok(d) => d,
        Err(e) => return Err(e),
    };
    let start = pos + 1;
    let reference_name = match contig {
        Some(name) => name,
        None => return Err(PipelineError::MissingContig),
    };
    if alleles.len() == 0 {
        return Err(PipelineError::MissingReferenceAllele);
    }
    let reference_bases = alleles.remove(0);
    proof {
        assert(alleles@ =~= orig.alleles@.subrange(1, orig.alleles@.len() as int));
    }
    let clnsig = get_clnsig(&clnsig, config.clnsig_mode);
    let sample_count = get_sample_count(config.has_sample_count, &sample_count);
    let (gene_symbol, variant_type, hgvs) = match extract_annotations(&annotation, &config.layout) {
        Ok(Some(a)) => (Some(a.gene_symbol), Some(a.variant_type), Some(a.hgvs)),
        Ok(None) => (None, None, None),
        Err(e) => return Err(e),
    };
    Ok(Variant {
        id: None,
        dataset_id: config.dataset_id.clone(),
        total_samples: config.total_samples,
        assembly_id: config.assembly_id.clone(),
        snp_ids,
        reference_name,
        start,
        reference_bases,
        alternate_bases: alleles,
        gene_symbol,
        allele_frequency_bits,
        sample_count,
        coverage,
        genotype_quality,
        clnsig,
        hgvs,
        variant_type,
    })
}

/// The three annotation-derived lists of a built variant are present together or
/// absent together, and present exactly when the record has an annotation field.
pub proof fn lemma_annotation_jointly_present(config: RunConfig, rec: RawRecord, v: Variant)
    requires
        v.built_from(config, rec),
    ensures
        v.gene_symbol is None <==> v.variant_type is None,
        v.variant_type is None <==> v.hgvs is None,
        v.gene_symbol is None <==> rec.annotation is None,
{
}

} // verus!
