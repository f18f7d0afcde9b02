use vcf_submit::annotation::{extract_annotations, get_field, split_ann, AnnotationLayout};
use vcf_submit::distribution::{calc_distribution, quantile, sort_ascending, MISSING_INTEGER};
use vcf_submit::error::PipelineError;
use vcf_submit::pipeline::{passes_filter, Pipeline, RecordAction};
use vcf_submit::record::{
    get_allele_frequency, get_clnsig, get_sample_count, get_snp_ids, normalize, ClnsigMode,
    RawRecord, RunConfig,
};
use vcf_submit::text::{join_comma, split_on_char};

fn strings(v: &[&str]) -> Vec<String> {
    v.iter().map(|s| s.to_string()).collect()
}

fn samples(v: &[i32]) -> Vec<Vec<i32>> {
    v.iter().map(|x| vec![*x]).collect()
}

fn config() -> RunConfig {
    RunConfig {
        dataset_id: "ds1".to_string(),
        assembly_id: "GRCh38".to_string(),
        total_samples: 4,
        has_sample_count: true,
        clnsig_mode: ClnsigMode::JoinAll,
        layout: AnnotationLayout::standard(),
    }
}

fn record() -> RawRecord {
    RawRecord {
        id: "rs1;rs2".to_string(),
        contig: Some("chr1".to_string()),
        pos: 99,
        alleles: strings(&["A", "C", "G"]),
        allele_frequency_bits: Some(vec![0.25f32.to_bits(), 0.5f32.to_bits()]),
        depth: samples(&[10, 20, 30, 40]),
        genotype_quality: samples(&[5, MISSING_INTEGER, 7, 9]),
        clnsig: Some(strings(&["Benign", "Likely_benign"])),
        sample_count: Some(vec![4]),
        annotation: Some(strings(&[
            "A|B|C|GENE1|E|TYPE1|G|H|I|HGVS1",
            "A|B|C|GENE2|E|TYPE2|G|H|I|HGVS2",
        ])),
    }
}

#[test]
fn quantile_interpolates_quartiles() {
    let s = vec![1, 2, 3, 4];
    assert_eq!(quantile(&s, 25), 175);
    assert_eq!(quantile(&s, 50), 250);
    assert_eq!(quantile(&s, 75), 325);
}

#[test]
fn quantile_ends_are_first_and_last() {
    let s = vec![-3, 7, 7, 12, 40];
    assert_eq!(quantile(&s, 0), -300);
    assert_eq!(quantile(&s, 100), 4000);
    let t = vec![2, 9];
    assert_eq!(quantile(&t, 0), 200);
    assert_eq!(quantile(&t, 100), 900);
}

#[test]
fn quantile_of_single_value() {
    let s = vec![5];
    for p in 0..=100u32 {
        assert_eq!(quantile(&s, p), 500);
    }
}

#[test]
fn sort_orders_values() {
    assert_eq!(sort_ascending(&vec![3, -1, 3, 0, 2]), vec![-1, 0, 2, 3, 3]);
    assert_eq!(sort_ascending(&vec![]), Vec::<i32>::new());
}

#[test]
fn distribution_of_values() {
    let d = calc_distribution(&samples(&[4, 1, MISSING_INTEGER, 3, 2])).unwrap();
    assert_eq!(d.min, 1);
    assert_eq!(d.max, 4);
    assert_eq!(d.q25_x100, 175);
    assert_eq!(d.median_x100, 250);
    assert_eq!(d.q75_x100, 325);
    assert_eq!(d.sum, 10);
    assert_eq!(d.count, 4);
}

#[test]
fn distribution_of_nothing_fails() {
    assert_eq!(calc_distribution(&vec![]), Err(PipelineError::EmptyDistribution));
    assert_eq!(
        calc_distribution(&samples(&[MISSING_INTEGER, MISSING_INTEGER])),
        Err(PipelineError::EmptyDistribution)
    );
    assert_eq!(calc_distribution(&vec![vec![]]), Err(PipelineError::EmptyDistribution));
}

#[test]
fn distribution_takes_first_value_of_each_sample() {
    let d = calc_distribution(&vec![vec![8, 1], vec![2, 100]]).unwrap();
    assert_eq!(d.min, 2);
    assert_eq!(d.max, 8);
    assert_eq!(d.median_x100, 500);
}

#[test]
fn snp_ids_placeholder_and_list() {
    assert_eq!(get_snp_ids("."), None);
    assert_eq!(get_snp_ids("rs1;rs2"), Some(strings(&["rs1", "rs2"])));
    assert_eq!(get_snp_ids("rs7"), Some(strings(&["rs7"])));
}

#[test]
fn split_keeps_empty_pieces() {
    assert_eq!(split_ann("A||B|"), strings(&["A", "", "B", ""]));
    assert_eq!(split_on_char("", ';'), strings(&[""]));
}

#[test]
fn join_with_commas() {
    assert_eq!(join_comma(&strings(&["a", "b", "c"])), "a,b,c");
    assert_eq!(join_comma(&strings(&["a"])), "a");
    assert_eq!(join_comma(&vec![]), "");
}

#[test]
fn get_field_gathers_column() {
    let fields = vec![strings(&["a", "b"]), strings(&["c", "d", "e"])];
    assert_eq!(get_field(&fields, 1), Ok(strings(&["b", "d"])));
    assert_eq!(get_field(&fields, 2), Err(PipelineError::AnnotationIndexOutOfRange));
}

#[test]
fn annotations_from_two_blocks() {
    let ann = Some(strings(&[
        "A|B|C|GENE1|E|TYPE1|G|H|I|HGVS1",
        "A|B|C|GENE2|E|TYPE2|G|H|I|HGVS2",
    ]));
    let a = extract_annotations(&ann, &AnnotationLayout::standard()).unwrap().unwrap();
    assert_eq!(a.gene_symbol, strings(&["GENE1", "GENE2"]));
    assert_eq!(a.variant_type, strings(&["TYPE1", "TYPE2"]));
    assert_eq!(a.hgvs, strings(&["HGVS1", "HGVS2"]));
}

#[test]
fn annotations_absent_and_short() {
    assert_eq!(extract_annotations(&None, &AnnotationLayout::standard()), Ok(None));
    let short = Some(strings(&["A|B|C|GENE1|E|TYPE1"]));
    assert_eq!(
        extract_annotations(&short, &AnnotationLayout::standard()),
        Err(PipelineError::AnnotationIndexOutOfRange)
    );
}

#[test]
fn clnsig_modes() {
    let v = Some(strings(&["Benign", "Pathogenic"]));
    assert_eq!(get_clnsig(&v, ClnsigMode::JoinAll), Some("Benign,Pathogenic".to_string()));
    assert_eq!(get_clnsig(&v, ClnsigMode::FirstOnly), Some("Benign".to_string()));
    assert_eq!(get_clnsig(&None, ClnsigMode::JoinAll), None);
}

#[test]
fn sample_count_only_when_declared() {
    assert_eq!(get_sample_count(true, &Some(vec![12, 3])), Some(12));
    assert_eq!(get_sample_count(false, &Some(vec![12])), None);
    assert_eq!(get_sample_count(true, &None), None);
}

#[test]
fn allele_frequency_defaults_to_empty() {
    assert_eq!(get_allele_frequency(None), Vec::<u32>::new());
    assert_eq!(get_allele_frequency(Some(vec![7, 9])), vec![7, 9]);
}

#[test]
fn normalize_builds_variant() {
    let v = normalize(&config(), record()).unwrap();
    assert_eq!(v.id, None);
    assert_eq!(v.dataset_id, "ds1");
    assert_eq!(v.assembly_id, "GRCh38");
    assert_eq!(v.total_samples, 4);
    assert_eq!(v.snp_ids, Some(strings(&["rs1", "rs2"])));
    assert_eq!(v.reference_name, "chr1");
    assert_eq!(v.start, 100);
    assert_eq!(v.reference_bases, "A");
    assert_eq!(v.alternate_bases, strings(&["C", "G"]));
    assert_eq!(v.allele_frequency_bits, vec![0.25f32.to_bits(), 0.5f32.to_bits()]);
    assert_eq!(v.sample_count, Some(4));
    assert_eq!(v.coverage.min, 10);
    assert_eq!(v.coverage.median_x100, 2500);
    assert_eq!(v.genotype_quality.count, 3);
    assert_eq!(v.genotype_quality.median_x100, 700);
    assert_eq!(v.clnsig, Some("Benign,Likely_benign".to_string()));
    assert_eq!(v.gene_symbol, Some(strings(&["GENE1", "GENE2"])));
    assert_eq!(v.variant_type, Some(strings(&["TYPE1", "TYPE2"])));
    assert_eq!(v.hgvs, Some(strings(&["HGVS1", "HGVS2"])));
}

#[test]
fn normalize_without_annotation_or_ids() {
    let mut r = record();
    r.id = ".".to_string();
    r.annotation = None;
    r.allele_frequency_bits = None;
    let v = normalize(&config(), r).unwrap();
    assert_eq!(v.snp_ids, None);
    assert_eq!(v.gene_symbol, None);
    assert_eq!(v.variant_type, None);
    assert_eq!(v.hgvs, None);
    assert!(v.allele_frequency_bits.is_empty());
}

#[test]
fn normalize_errors_in_order() {
    let mut r = record();
    r.contig = None;
    r.alleles = vec![];
    assert_eq!(normalize(&config(), r.clone()).err(), Some(PipelineError::MissingContig));
    r.depth = samples(&[MISSING_INTEGER]);
    assert_eq!(normalize(&config(), r).err(), Some(PipelineError::EmptyDistribution));
    let mut r = record();
    r.alleles = vec![];
    assert_eq!(normalize(&config(), r).err(), Some(PipelineError::MissingReferenceAllele));
    let mut r = record();
    r.annotation = Some(strings(&["A|B"]));
    assert_eq!(normalize(&config(), r).err(), Some(PipelineError::AnnotationIndexOutOfRange));
}

#[test]
fn filter_decision() {
    assert!(passes_filter(false, false));
    assert!(passes_filter(true, true));
    assert!(!passes_filter(true, false));
}

#[test]
fn dry_run_with_filter_counts_records() {
    let mut p = Pipeline::new(true, true);
    let mut submissions = 0;
    for k in 0..10 {
        let action = p.on_record(k < 7);
        if action == RecordAction::Process && p.should_submit() {
            submissions += 1;
        }
    }
    assert_eq!(p.summary(), (10, Some(7)));
    assert_eq!(submissions, 0);
}

#[test]
fn unfiltered_run_reports_total_only() {
    let mut p = Pipeline::new(false, false);
    assert_eq!(p.on_record(false), RecordAction::Process);
    assert_eq!(p.on_record(true), RecordAction::Process);
    assert_eq!(p.summary(), (2, None));
}

#[test]
fn rejected_submission_stops_run() {
    let mut p = Pipeline::new(true, false);
    assert_eq!(p.on_record(true), RecordAction::Process);
    assert!(p.should_submit());
    assert_eq!(p.on_response(201, String::new()), Ok(()));
    assert_eq!(p.on_record(true), RecordAction::Process);
    assert_eq!(
        p.on_response(400, "bad request".to_string()),
        Err(PipelineError::Submission("bad request".to_string()))
    );
    assert_eq!(p.on_record(true), RecordAction::Stop);
    assert_eq!(p.summary(), (2, Some(2)));
}
