use seqcol_digest::{
    attr_identifier, canonical_request, check_collection, holds_digest, holds_requested_digests, check_request, names_are_unique, output_attr_parser,
    output_level_parser, process_sam, process_seqcol, seqcol_from_header, write_seqcol_output,
    DerivedAttr, DigestError, OutputConfig, OutputLevel, PriorDigestObject,
};

fn cfg(lvl: OutputLevel, attrs: &[DerivedAttr]) -> OutputConfig {
    OutputConfig::new(lvl, attrs.to_vec())
}

fn refs(entries: &[(&str, usize)]) -> Vec<(String, usize)> {
    entries.iter().map(|(n, l)| (n.to_string(), *l)).collect()
}

fn strings(v: &[&str]) -> Vec<String> {
    v.iter().map(|s| s.to_string()).collect()
}

fn json(s: &str) -> serde_json::Value {
    serde_json::from_str(s).expect("output is JSON")
}

fn arrays(names: Option<Vec<String>>, lengths: Option<Vec<usize>>, sequences: Option<Vec<String>>) -> PriorDigestObject {
    PriorDigestObject { names, lengths, sequences, digests: vec![], sha256_names: None, sha256_seqs: None }
}

fn full(names: &[&str], lengths: &[usize], seqs: &[&str], c: OutputConfig) -> Result<String, DigestError> {
    process_seqcol(arrays(Some(strings(names)), Some(lengths.to_vec()), Some(strings(seqs))), c)
}

fn reread(text: &str) -> PriorDigestObject {
    let outer = json(text);
    let obj = outer["seqcol_digest"].as_object().unwrap().clone();
    let strs = |k: &str| obj.get(k).and_then(|v| v.as_array()).map(|a| a.iter().map(|x| x.as_str().unwrap().to_string()).collect());
    let lens = obj.get("lengths").and_then(|v| v.as_array()).map(|a| a.iter().map(|x| x.as_u64().unwrap() as usize).collect());
    PriorDigestObject {
        names: strs("names"),
        lengths: lens,
        sequences: strs("sequences"),
        digests: obj.iter().filter_map(|(k, v)| v.as_str().map(|d| (k.clone(), d.to_string()))).collect(),
        sha256_names: outer["sha256_digests"]["sha256_names"].as_str().map(|x| x.to_string()),
        sha256_seqs: outer["sha256_digests"]["sha256_seqs"].as_str().map(|x| x.to_string()),
    }
}

#[test]
fn attr_parser_accepts_each_identifier() {
    assert_eq!(output_attr_parser("name_length_pairs"), Ok(DerivedAttr::NameLengthPairs));
    assert_eq!(
        output_attr_parser("sorted_name_length_pairs"),
        Ok(DerivedAttr::SortedNameLengthPairs)
    );
    assert_eq!(output_attr_parser("sorted_sequences"), Ok(DerivedAttr::SortedSequences));
}

#[test]
fn attr_parser_rejects_unknown_identifier() {
    assert_eq!(
        output_attr_parser("lengths"),
        Err("Do not recognize additional attribute lengths".to_string())
    );
    assert!(output_attr_parser("").is_err());
}

#[test]
fn level_parser_accepts_each_level() {
    assert_eq!(output_level_parser("0"), Ok(OutputLevel::Level0));
    assert_eq!(output_level_parser("1"), Ok(OutputLevel::Level1));
    assert_eq!(output_level_parser("2"), Ok(OutputLevel::Level2));
}

#[test]
fn level_parser_rejects_other_text() {
    assert_eq!(
        output_level_parser("3"),
        Err("output level 3 not valid; must be in {0, 1, 2}.".to_string())
    );
    assert!(output_level_parser("01").is_err());
}

#[test]
fn unique_names_detected() {
    assert!(names_are_unique(&strings(&[])));
    assert!(names_are_unique(&strings(&["chr1", "chr2", "chr3"])));
    assert!(!names_are_unique(&strings(&["chr1", "chr2", "chr1"])));
}

#[test]
fn collection_checks_give_format_errors() {
    let ns = Some(strings(&["a", "b"]));
    assert_eq!(check_collection(&ns, &Some(vec![1, 2]), &None), Ok(()));
    assert_eq!(check_collection(&None, &Some(vec![1, 2]), &None), Err(DigestError::FormatError));
    assert_eq!(check_collection(&ns, &None, &None), Err(DigestError::FormatError));
    assert_eq!(check_collection(&ns, &Some(vec![1]), &None), Err(DigestError::FormatError));
    assert_eq!(
        check_collection(&Some(strings(&["a", "a"])), &Some(vec![1, 2]), &None),
        Err(DigestError::FormatError)
    );
    assert_eq!(
        check_collection(&ns, &Some(vec![1, 2]), &Some(strings(&["SQ.x"]))),
        Err(DigestError::FormatError)
    );
}

#[test]
fn request_checks_give_configuration_errors() {
    let ss = vec![DerivedAttr::SortedSequences];
    assert_eq!(check_request(OutputLevel::Level0, &vec![], false), Err(DigestError::ConfigurationError));
    assert_eq!(check_request(OutputLevel::Level0, &vec![], true), Ok(()));
    assert_eq!(check_request(OutputLevel::Level1, &ss, false), Err(DigestError::ConfigurationError));
    assert_eq!(check_request(OutputLevel::Level2, &ss, false), Err(DigestError::ConfigurationError));
    assert_eq!(check_request(OutputLevel::Level1, &ss, true), Ok(()));
    assert_eq!(check_request(OutputLevel::Level1, &vec![DerivedAttr::NameLengthPairs], false), Ok(()));
}

#[test]
fn canonical_request_sorts_and_dedups() {
    let r = canonical_request(&vec![
        DerivedAttr::SortedSequences,
        DerivedAttr::NameLengthPairs,
        DerivedAttr::NameLengthPairs,
    ]);
    assert_eq!(r, vec![DerivedAttr::NameLengthPairs, DerivedAttr::SortedSequences]);
    assert_eq!(canonical_request(&vec![]), vec![]);
}

#[test]
fn header_digests_match_known_values() {
    let out = process_sam(false, &refs(&[("sq0", 8), ("sq1", 13)]), cfg(OutputLevel::Level1, &[]))
        .unwrap();
    let v = json(&out);
    assert_eq!(v["seqcol_digest"]["names"], "LWuQVxGBc6yh1HllmgIFi-nPyblR3uHB");
    assert_eq!(v["seqcol_digest"]["lengths"], "WLhTcZKenX4NNp-E4wV9Gel8sQur8Mx_");
    assert!(v["seqcol_digest"].get("sequences").is_none());
}

#[test]
fn empty_header_is_refused() {
    assert_eq!(
        process_sam(true, &refs(&[("sq0", 8)]), cfg(OutputLevel::Level1, &[])),
        Err(DigestError::EmptyHeader)
    );
}

#[test]
fn duplicate_header_names_are_refused() {
    assert_eq!(
        process_sam(false, &refs(&[("sq0", 8), ("sq0", 13)]), cfg(OutputLevel::Level1, &[])),
        Err(DigestError::FormatError)
    );
}

#[test]
fn headers_only_gating() {
    let r = refs(&[("chr1", 100), ("chr2", 50)]);
    let ss = [DerivedAttr::SortedSequences];
    for lvl in [OutputLevel::Level0, OutputLevel::Level1, OutputLevel::Level2] {
        assert_eq!(process_sam(false, &r, cfg(lvl, &ss)), Err(DigestError::ConfigurationError));
    }
    assert_eq!(process_sam(false, &r, cfg(OutputLevel::Level0, &[])), Err(DigestError::ConfigurationError));
    assert!(process_sam(false, &r, cfg(OutputLevel::Level1, &[])).is_ok());
    assert!(process_sam(false, &r, cfg(OutputLevel::Level2, &[DerivedAttr::NameLengthPairs])).is_ok());
}

#[test]
fn repeated_digest_is_identical() {
    let c = || cfg(OutputLevel::Level1, &[DerivedAttr::SortedNameLengthPairs]);
    let a = full(&["chr1", "chr2"], &[100, 50], &["SQ.a", "SQ.b"], c()).unwrap();
    let b = full(&["chr1", "chr2"], &[100, 50], &["SQ.a", "SQ.b"], c()).unwrap();
    assert_eq!(a, b);
}

#[test]
fn request_order_does_not_change_output() {
    let a = [DerivedAttr::NameLengthPairs, DerivedAttr::SortedNameLengthPairs];
    let b = [DerivedAttr::SortedNameLengthPairs, DerivedAttr::NameLengthPairs, DerivedAttr::NameLengthPairs];
    let r = refs(&[("chr1", 100), ("chr2", 50)]);
    let x = process_sam(false, &r, cfg(OutputLevel::Level1, &a)).unwrap();
    let y = process_sam(false, &r, cfg(OutputLevel::Level1, &b)).unwrap();
    assert_eq!(x, y);
}

#[test]
fn empty_collection_has_stable_digest() {
    let a = process_sam(false, &refs(&[]), cfg(OutputLevel::Level1, &[])).unwrap();
    let b = process_sam(false, &refs(&[]), cfg(OutputLevel::Level1, &[])).unwrap();
    assert_eq!(a, b);
    let l0 = full(&[], &[], &[], cfg(OutputLevel::Level0, &[])).unwrap();
    assert_eq!(l0, full(&[], &[], &[], cfg(OutputLevel::Level0, &[])).unwrap());
    assert!(json(&l0)["seqcol_digest"]["digest"].is_string());
}

#[test]
fn level2_arrays_reingest_to_same_level1() {
    let names = ["chr1", "chr2"];
    let seqs = ["SQ.a", "SQ.b"];
    let l1 = full(&names, &[100, 50], &seqs, cfg(OutputLevel::Level1, &[])).unwrap();
    let l2 = json(&full(&names, &[100, 50], &seqs, cfg(OutputLevel::Level2, &[])).unwrap());
    let obj = &l2["seqcol_digest"];
    let ns: Vec<String> = obj["names"].as_array().unwrap().iter().map(|x| x.as_str().unwrap().to_string()).collect();
    let ls: Vec<usize> = obj["lengths"].as_array().unwrap().iter().map(|x| x.as_u64().unwrap() as usize).collect();
    let sq: Vec<String> = obj["sequences"].as_array().unwrap().iter().map(|x| x.as_str().unwrap().to_string()).collect();
    assert_eq!(ns, strings(&names));
    assert_eq!(ls, vec![100, 50]);
    let again = process_seqcol(arrays(Some(ns), Some(ls), Some(sq)), cfg(OutputLevel::Level1, &[])).unwrap();
    assert_eq!(again, l1);
    let v = json(&l1);
    assert!(v["seqcol_digest"]["names"].is_string());
}

#[test]
fn missing_arrays_are_format_errors() {
    let c = cfg(OutputLevel::Level1, &[]);
    assert_eq!(process_seqcol(arrays(None, Some(vec![1]), None), c.clone()), Err(DigestError::FormatError));
    assert_eq!(process_seqcol(arrays(Some(strings(&["a"])), None, None), c.clone()), Err(DigestError::FormatError));
    assert_eq!(process_seqcol(arrays(Some(strings(&["a"])), Some(vec![1, 2]), None), c.clone()), Err(DigestError::FormatError));
    assert_eq!(process_seqcol(arrays(None, None, None), c), Err(DigestError::FormatError));
}

#[test]
fn two_record_scenario() {
    let fwd = json(&full(&["chr1", "chr2"], &[100, 50], &["SQ.a", "SQ.b"], cfg(OutputLevel::Level1, &[])).unwrap());
    let rev = json(&full(&["chr2", "chr1"], &[50, 100], &["SQ.b", "SQ.a"], cfg(OutputLevel::Level1, &[])).unwrap());
    let f = &fwd["seqcol_digest"];
    let r = &rev["seqcol_digest"];
    for k in ["names", "lengths", "sequences"] {
        assert!(f[k].is_string());
        assert_ne!(f[k], r[k]);
    }
    let s = [DerivedAttr::SortedNameLengthPairs];
    let fs = json(&full(&["chr1", "chr2"], &[100, 50], &["SQ.a", "SQ.b"], cfg(OutputLevel::Level1, &s)).unwrap());
    let rs = json(&full(&["chr2", "chr1"], &[50, 100], &["SQ.b", "SQ.a"], cfg(OutputLevel::Level1, &s)).unwrap());
    assert_eq!(fs["seqcol_digest"]["sorted_name_length_pairs"], rs["seqcol_digest"]["sorted_name_length_pairs"]);
    let f0 = full(&["chr1", "chr2"], &[100, 50], &["SQ.a", "SQ.b"], cfg(OutputLevel::Level0, &[])).unwrap();
    let r0 = full(&["chr2", "chr1"], &[50, 100], &["SQ.b", "SQ.a"], cfg(OutputLevel::Level0, &[])).unwrap();
    assert_ne!(json(&f0)["seqcol_digest"]["digest"], json(&r0)["seqcol_digest"]["digest"]);
}

#[test]
fn sequences_attribute_comes_from_engine_collection() {
    let sc = seqcol_rs::SeqCol::try_from_name_seq_iter(vec![
        ("chr1".to_string(), "ACGT".to_string()),
        ("chr2".to_string(), "GGA".to_string()),
    ])
    .unwrap();
    let out = json(&write_seqcol_output(cfg(OutputLevel::Level2, &[DerivedAttr::SortedSequences]), sc).unwrap());
    let o = &out["seqcol_digest"];
    assert_eq!(o["lengths"], serde_json::Value::from(vec![4u64, 3]));
    assert_eq!(o["names"], serde_json::Value::from(vec!["chr1", "chr2"]));
    assert_eq!(o["sequences"].as_array().unwrap().len(), 2);
    assert!(o["sequences"][0].as_str().unwrap().starts_with("SQ."));
    let dup = seqcol_rs::SeqCol::try_from_name_seq_iter(vec![
        ("chr1".to_string(), "ACGT".to_string()),
        ("chr1".to_string(), "GGA".to_string()),
    ])
    .unwrap();
    assert_eq!(write_seqcol_output(cfg(OutputLevel::Level1, &[]), dup), Err(DigestError::FormatError));
}

#[test]
fn header_collection_has_no_sequences() {
    let sc = seqcol_from_header(&refs(&[("chr1", 100)]));
    assert_eq!(
        write_seqcol_output(cfg(OutputLevel::Level0, &[]), sc),
        Err(DigestError::ConfigurationError)
    );
    let sc = seqcol_from_header(&refs(&[("chr1", 100)]));
    let v = json(&write_seqcol_output(cfg(OutputLevel::Level2, &[]), sc).unwrap());
    assert_eq!(v["seqcol_digest"]["names"], serde_json::Value::from(vec!["chr1"]));
    assert_eq!(v["seqcol_digest"]["lengths"], serde_json::Value::from(vec![100u64]));
}

#[test]
fn digest_only_object_is_shown_again_at_level1() {
    let c = || cfg(OutputLevel::Level1, &[DerivedAttr::NameLengthPairs]);
    let s1 = full(&["chr1", "chr2"], &[100, 50], &["SQ.a", "SQ.b"], c()).unwrap();
    let prior = reread(&s1);
    assert!(prior.names.is_none() && prior.lengths.is_none());
    assert_eq!(prior.digests.len(), 4);
    let again = process_seqcol(prior, cfg(OutputLevel::Level1, &[])).unwrap();
    assert_eq!(json(&again), json(&s1));
}

#[test]
fn digest_only_header_object_keeps_sha256() {
    let s1 = process_sam(false, &refs(&[("sq0", 8), ("sq1", 13)]), cfg(OutputLevel::Level1, &[])).unwrap();
    let prior = reread(&s1);
    assert!(prior.sha256_names.is_some());
    assert_eq!(json(&process_seqcol(prior, cfg(OutputLevel::Level1, &[])).unwrap()), json(&s1));
}

#[test]
fn digest_only_object_refuses_other_requests() {
    let s1 = full(&["chr1"], &[100], &["SQ.a"], cfg(OutputLevel::Level1, &[])).unwrap();
    let prior = reread(&s1);
    for c in [
        cfg(OutputLevel::Level0, &[]),
        cfg(OutputLevel::Level2, &[]),
        cfg(OutputLevel::Level1, &[DerivedAttr::SortedNameLengthPairs]),
    ] {
        assert_eq!(process_seqcol(prior.clone(), c), Err(DigestError::ConfigurationError));
    }
}

#[test]
fn own_level2_object_reads_back_to_same_level1() {
    let c = |l| cfg(l, &[DerivedAttr::SortedNameLengthPairs]);
    let l1 = full(&["chr1", "chr2"], &[100, 50], &["SQ.a", "SQ.b"], c(OutputLevel::Level1)).unwrap();
    let l2 = full(&["chr1", "chr2"], &[100, 50], &["SQ.a", "SQ.b"], c(OutputLevel::Level2)).unwrap();
    assert_eq!(process_seqcol(reread(&l2), c(OutputLevel::Level1)).unwrap(), l1);
}

#[test]
fn repeated_reads_give_identical_text() {
    let a = process_seqcol(arrays(Some(strings(&["x"])), Some(vec![3]), None), cfg(OutputLevel::Level2, &[]));
    let b = process_seqcol(arrays(Some(strings(&["x"])), Some(vec![3]), None), cfg(OutputLevel::Level2, &[]));
    assert!(a.is_ok());
    assert_eq!(a, b);
    let e1 = process_sam(false, &refs(&[]), cfg(OutputLevel::Level2, &[])).unwrap();
    assert_eq!(e1, process_sam(false, &refs(&[]), cfg(OutputLevel::Level2, &[])).unwrap());
}

#[test]
fn digest_only_object_serves_digests_it_holds() {
    let c = || cfg(OutputLevel::Level1, &[DerivedAttr::NameLengthPairs]);
    let s1 = full(&["chr1", "chr2"], &[100, 50], &["SQ.a", "SQ.b"], c()).unwrap();
    let again = process_seqcol(reread(&s1), c()).unwrap();
    assert_eq!(json(&again), json(&s1));
    assert_eq!(
        process_seqcol(reread(&s1), cfg(OutputLevel::Level1, &[DerivedAttr::SortedSequences])),
        Err(DigestError::ConfigurationError)
    );
}

#[test]
fn held_digests_are_found_by_identifier() {
    let d = vec![("names".to_string(), "x".to_string()), ("name_length_pairs".to_string(), "y".to_string())];
    assert!(holds_digest(&d, &"names".to_string()));
    assert!(!holds_digest(&d, &"lengths".to_string()));
    assert!(holds_requested_digests(&d, &vec![DerivedAttr::NameLengthPairs]));
    assert!(!holds_requested_digests(&d, &vec![DerivedAttr::NameLengthPairs, DerivedAttr::SortedSequences]));
    assert!(holds_requested_digests(&d, &vec![]));
    assert_eq!(attr_identifier(DerivedAttr::SortedNameLengthPairs), "sorted_name_length_pairs");
}

#[test]
fn headers_only_keys_omit_sequences() {
    let a = [DerivedAttr::NameLengthPairs, DerivedAttr::SortedNameLengthPairs];
    for lvl in [OutputLevel::Level1, OutputLevel::Level2] {
        let v = json(&process_sam(false, &refs(&[("chr1", 100), ("chr2", 50)]), cfg(lvl, &a)).unwrap());
        let o = v["seqcol_digest"].as_object().unwrap();
        assert!(o.contains_key("names") && o.contains_key("lengths"));
        assert!(o.contains_key("name_length_pairs") && o.contains_key("sorted_name_length_pairs"));
        assert!(!o.contains_key("sequences") && !o.contains_key("sorted_sequences"));
    }
}
