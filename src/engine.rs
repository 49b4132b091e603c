//! The calls into the `seqcol_rs` digest engine, with what this library
//! relies on of each.
use vstd::prelude::*;
use crate::config::{OutputLevel, DerivedAttr};

verus! {

#[verifier::external_type_specification]
#[verifier::external_body]
pub struct ExSeqCol(seqcol_rs::SeqCol);

#[verifier::external_type_specification]
#[verifier::external_body]
pub struct ExAnyhowError(anyhow::Error);

#[verifier::external_type_specification]
#[verifier::external_body]
pub struct ExDigestLevel(seqcol_rs::DigestLevel);

#[verifier::external_type_specification]
#[verifier::external_body]
pub struct ExKnownAttr(seqcol_rs::KnownAttr);

/// The `names` attribute a collection holds, if any.
pub uninterp spec fn names_of(sc: seqcol_rs::SeqCol) -> Option<Seq<Seq<char>>>;

/// The `lengths` attribute a collection holds, if any.
pub uninterp spec fn lengths_of(sc: seqcol_rs::SeqCol) -> Option<Seq<usize>>;

/// The `sequences` attribute (per-record sequence digests) a collection holds, if any.
pub uninterp spec fn sequences_of(sc: seqcol_rs::SeqCol) -> Option<Seq<Seq<char>>>;

/// The pretty-printed JSON digest object that the engine renders for a collection.
pub uninterp spec fn digest_text(
    sc: seqcol_rs::SeqCol,
    level: OutputLevel,
    attrs: Seq<DerivedAttr>,
) -> Seq<char>;

/// The collection the engine builds from the entries of an alignment header.
pub uninterp spec fn header_seqcol(names: Seq<Seq<char>>, lengths: Seq<usize>) -> seqcol_rs::SeqCol;

/// The collection the engine builds from the attribute arrays of an earlier
/// digest object.
pub uninterp spec fn arrays_seqcol(
    names: Seq<Seq<char>>,
    lengths: Seq<usize>,
    sequences: Option<Seq<Seq<char>>>,
) -> seqcol_rs::SeqCol;

/// The pretty-printed level-1 digest object that the engine renders from
/// per-attribute digests (identifier, digest) and the optional SHA-256 digests
/// of the names and of the sequences.
pub uninterp spec fn level1_text(
    digests: Seq<(Seq<char>, Seq<char>)>,
    sha256_names: Option<Seq<char>>,
    sha256_seqs: Option<Seq<char>>,
) -> Seq<char>;

/// The views of a list of (identifier, digest) pairs.
pub open spec fn pair_views(v: Seq<(String, String)>) -> Seq<(Seq<char>, Seq<char>)> {
    v.map_values(|p: (String, String)| (p.0@, p.1@))
}

/// The view of an optional string.
pub open spec fn opt_view(v: Option<String>) -> Option<Seq<char>> {
    match v {
        Some(x) => Some(x@),
        None => None,
    }
}

/// The views of a list of strings.
pub open spec fn string_views(v: Seq<String>) -> Seq<Seq<char>> {
    v.map_values(|s: String| s@)
}

/// What an optional list of strings holds, as views.
pub open spec fn opt_string_views(v: Option<Vec<String>>) -> Option<Seq<Seq<char>>> {
    match v {
        Some(x) => Some(string_views(x@)),
        None => None,
    }
}

/// What an optional list of lengths holds.
pub open spec fn opt_lengths(v: Option<Vec<usize>>) -> Option<Seq<usize>> {
    match v {
        Some(x) => Some(x@),
        None => None,
    }
}

/// Whether the engine can build every attribute that a request needs: the
/// inherent `names` and `sequences` at level 0, and at the other levels the
/// primary arrays that each requested derived attribute is built from.
pub open spec fn engine_serves(
    sc: seqcol_rs::SeqCol,
    level: OutputLevel,
    attrs: Seq<DerivedAttr>,
) -> bool {
    match level {
        OutputLevel::Level0 => names_of(sc) is Some && sequences_of(sc) is Some,
        _ => forall|i: int|
            0 <= i < attrs.len() ==> match #[trigger] attrs[i] {
                DerivedAttr::SortedSequences => sequences_of(sc) is Some,
                _ => names_of(sc) is Some && lengths_of(sc) is Some,
            },
    }
}

/// Relies on `SeqCol::names`: the `names` attribute, or an error where it is absent.
#[verifier::external_body]
pub(crate) fn collection_names(sc: &seqcol_rs::SeqCol) -> (r: Option<Vec<String>>)
    ensures
        opt_string_views(r) == names_of(*sc),
{
    sc.names().ok().cloned()
}

/// Relies on `SeqCol::lengths`: the `lengths` attribute, or an error where it is absent.
#[verifier::external_body]
pub(crate) fn collection_lengths(sc: &seqcol_rs::SeqCol) -> (r: Option<Vec<usize>>)
    ensures
        opt_lengths(r) == lengths_of(*sc),
{
    sc.lengths().ok().cloned()
}

/// Relies on `SeqCol::sequences`: the `sequences` attribute, or an error where it is absent.
#[verifier::external_body]
pub(crate) fn collection_sequences(sc: &seqcol_rs::SeqCol) -> (r: Option<Vec<String>>)
    ensures
        opt_string_views(r) == sequences_of(*sc),
{
    sc.sequences().ok().cloned()
}

/// Relies on `SeqCol::from_sam_header`: a collection of the given names and
/// lengths, in order, with no `sequences` attribute.
#[verifier::external_body]
pub(crate) fn from_header_pairs(names: &Vec<String>, lengths: &Vec<usize>) -> (r:
    seqcol_rs::SeqCol)
    requires
        names.len() == lengths.len(),
    ensures
        r == header_seqcol(string_views(names@), lengths@),
        names_of(r) == Some(string_views(names@)),
        lengths_of(r) == Some(lengths@),
        sequences_of(r) is None,
{
    seqcol_rs::SeqCol::from_sam_header(
        names.iter().map(|n| n.as_bytes()).zip(lengths.iter().copied()),
    )
}

/// Relies on `SeqCol::try_from_seqcol`: given a JSON object whose `names`,
/// `lengths` and (if present) `sequences` are arrays of strings and of integers,
/// it succeeds with exactly those attributes.
#[verifier::external_body]
pub(crate) fn from_attribute_arrays(
    names: &Vec<String>,
    lengths: &Vec<usize>,
    sequences: &Option<Vec<String>>,
) -> (r: Result<seqcol_rs::SeqCol, anyhow::Error>)
    ensures
        r is Ok,
        r is Ok ==> r->Ok_0 == arrays_seqcol(
            string_views(names@),
            lengths@,
            opt_string_views(*sequences),
        ),
        r is Ok ==> names_of(r->Ok_0) == Some(string_views(names@)),
        r is Ok ==> lengths_of(r->Ok_0) == Some(lengths@),
        r is Ok ==> sequences_of(r->Ok_0) == opt_string_views(*sequences),
{
    let mut obj = serde_json::Map::new();
    obj.insert("names".to_owned(), serde_json::Value::from(names.clone()));
    obj.insert("lengths".to_owned(), serde_json::Value::from(lengths.clone()));
    obj.extend(sequences.clone().map(|s| ("sequences".to_owned(), serde_json::Value::from(s))));
    seqcol_rs::SeqCol::try_from_seqcol(&serde_json::Value::Object(obj))
}

/// Relies on `SeqCol::digest` with `DigestResult::to_json` and
/// `serde_json::to_string_pretty`: the digest succeeds exactly when every
/// attribute the request needs is present, and its rendering cannot fail.
/// The engine panics on derived pairs over `names` and `lengths` of unequal length.
#[verifier::external_body]
pub(crate) fn render_digest(sc: seqcol_rs::SeqCol, level: OutputLevel, attrs: &Vec<DerivedAttr>) -> (r:
    Result<String, anyhow::Error>)
    requires
        names_of(sc) is Some && lengths_of(sc) is Some ==> names_of(sc)->0.len()
            == lengths_of(sc)->0.len(),
    ensures
        r is Ok <==> engine_serves(sc, level, attrs@),
        r is Ok ==> r->Ok_0@ == digest_text(sc, level, attrs@),
{
    let mut sc = sc;
    let level = engine_level(level);
    let additional_attr = attrs.iter().map(engine_attr).collect();
    let o = sc.digest(seqcol_rs::DigestConfig { level, additional_attr })?;
    Ok(serde_json::to_string_pretty(&o.to_json())?)
}

/// Relies on `DigestResult::to_json` and `serde_json::to_string_pretty`: the
/// engine's rendering of a level-1 result made of the given digests, which
/// cannot fail.
#[verifier::external_body]
pub(crate) fn render_level1_digests(
    digests: &Vec<(String, String)>,
    sha256_names: &Option<String>,
    sha256_seqs: &Option<String>,
) -> (r: Result<String, anyhow::Error>)
    ensures
        r is Ok,
        r is Ok ==> r->Ok_0@ == level1_text(
            pair_views(digests@),
            opt_view(*sha256_names),
            opt_view(*sha256_seqs),
        ),
{
    let digests = digests.iter().map(|(k, v)| (k.clone(), serde_json::Value::from(v.clone())));
    let res = seqcol_rs::DigestResult {
        sq_digest: seqcol_rs::DigestLevelResult::Level1(seqcol_rs::Level1Digest {
            digests: serde_json::Value::Object(digests.collect()),
        }),
        sha256_names: sha256_names.clone(),
        sha256_seqs: sha256_seqs.clone(),
    };
    Ok(serde_json::to_string_pretty(&res.to_json())?)
}

/// The engine's name for a digest level.
#[verifier::external_body]
fn engine_level(l: OutputLevel) -> seqcol_rs::DigestLevel {
    match l {
        OutputLevel::Level0 => seqcol_rs::DigestLevel::Level0,
        OutputLevel::Level1 => seqcol_rs::DigestLevel::Level1,
        OutputLevel::Level2 => seqcol_rs::DigestLevel::Level2,
    }
}

/// The engine's name for a derived attribute.
#[verifier::external_body]
fn engine_attr(a: &DerivedAttr) -> seqcol_rs::KnownAttr {
    match a {
        DerivedAttr::NameLengthPairs => seqcol_rs::KnownAttr::NameLengthPairs,
        DerivedAttr::SortedNameLengthPairs => seqcol_rs::KnownAttr::SortedNameLengthPairs,
        DerivedAttr::SortedSequences => seqcol_rs::KnownAttr::SortedSequences,
    }
}

} // verus!
