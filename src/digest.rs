//! Turning a checked collection and a request into a rendered digest object.
use vstd::prelude::*;
use crate::collection::{check_collection, names_unique, well_formed, DigestError};
use crate::config::{attr_ident, attr_identifier, DerivedAttr, OutputConfig, OutputLevel};
use crate::engine::{
    collection_lengths, collection_names, collection_sequences, digest_text, from_attribute_arrays,
    from_header_pairs, header_seqcol, arrays_seqcol, level1_text, pair_views, opt_view,
    render_level1_digests, lengths_of, names_of, opt_lengths, opt_string_views, render_digest,
    sequences_of, string_views,
};

verus! {

/// Whether a collection with (or without) sequence digests can serve a
/// request: level 0 and `sorted_sequences` both need the sequence digests.
/// The level-0 rule is the engine's: its level 0 is a single digest taken
/// over the inherent attributes `names` and `sequences` together, not the raw
/// arrays, so a headers-only collection cannot have it.
pub open spec fn request_served(level: OutputLevel, attrs: Seq<DerivedAttr>, has_sequences: bool) -> bool {
    match level {
        OutputLevel::Level0 => has_sequences,
        _ => has_sequences || !attrs.contains(DerivedAttr::SortedSequences),
    }
}

/// The requested derived attributes, each once, in the lexicographic order
/// of their identifiers.
pub open spec fn canonical_attrs(attrs: Seq<DerivedAttr>) -> Seq<DerivedAttr> {
    (if attrs.contains(DerivedAttr::NameLengthPairs) {
        seq![DerivedAttr::NameLengthPairs]
    } else {
        Seq::empty()
    }) + (if attrs.contains(DerivedAttr::SortedNameLengthPairs) {
        seq![DerivedAttr::SortedNameLengthPairs]
    } else {
        Seq::empty()
    }) + (if attrs.contains(DerivedAttr::SortedSequences) {
        seq![DerivedAttr::SortedSequences]
    } else {
        Seq::empty()
    })
}

/// What producing a digest object for a collection yields: a format error
/// for a malformed collection, a configuration error for a request it cannot
/// serve, and otherwise the engine's rendering of the canonical request.
pub open spec fn output_of(sc: seqcol_rs::SeqCol, level: OutputLevel, attrs: Seq<DerivedAttr>) -> Result<Seq<char>, DigestError> {
    if !well_formed(names_of(sc), lengths_of(sc), sequences_of(sc)) {
        Err(DigestError::FormatError)
    } else if !request_served(level, attrs, sequences_of(sc) is Some) {
        Err(DigestError::ConfigurationError)
    } else {
        Ok(digest_text(sc, level, canonical_attrs(attrs)))
    }
}

/// The view of a rendered result.
pub open spec fn result_view(r: Result<String, DigestError>) -> Result<Seq<char>, DigestError> {
    match r {
        Ok(s) => Ok(s@),
        Err(e) => Err(e),
    }
}

/// Whether a list of derived attributes holds the given one.
pub fn requests(attrs: &Vec<DerivedAttr>, a: DerivedAttr) -> (r: bool)
    ensures
        r == attrs@.contains(a),
{
    let mut i: usize = 0;
    while i < attrs.len()
        invariant
            i <= attrs.len(),
            forall|k: int| 0 <= k < i ==> attrs@[k] != a,
        decreases attrs.len() - i,
    {
        if attrs[i] == a {
            return true;
        }
        i = i + 1;
    }
    false
}

/// Checks that a collection with (or without) sequence digests can serve a
/// request; fails with `ConfigurationError` exactly when it cannot.
pub fn check_request(level: OutputLevel, attrs: &Vec<DerivedAttr>, has_sequences: bool) -> (r: Result<(), DigestError>)
    ensures
        r is Ok <==> request_served(level, attrs@, has_sequences),
        r is Err ==> r == Err::<(), DigestError>(DigestError::ConfigurationError),
{
    let served = match level {
        OutputLevel::Level0 => has_sequences,
        _ => has_sequences || !requests(attrs, DerivedAttr::SortedSequences),
    };
    if served {
        Ok(())
    } else {
        Err(DigestError::ConfigurationError)
    }
}

/// The requested derived attributes, each once, in canonical order.
pub fn canonical_request(attrs: &Vec<DerivedAttr>) -> (r: Vec<DerivedAttr>)
    ensures
        r@ == canonical_attrs(attrs@),
{
    let mut r: Vec<DerivedAttr> = Vec::new();
    if requests(attrs, DerivedAttr::NameLengthPairs) {
        r.push(DerivedAttr::NameLengthPairs);
    }
    if requests(attrs, DerivedAttr::SortedNameLengthPairs) {
        r.push(DerivedAttr::SortedNameLengthPairs);
    }
    if requests(attrs, DerivedAttr::SortedSequences) {
        r.push(DerivedAttr::SortedSequences);
    }
    assert(r@ =~= canonical_attrs(attrs@));
    r
}

/// Renders the digest object that a configuration asks for: the collection
/// is checked first, then the request against what it offers, and only then
/// is the engine called.
pub fn write_seqcol_output(output_config: OutputConfig, sc: seqcol_rs::SeqCol) -> (r: Result<String, DigestError>)
    ensures
        result_view(r) == output_of(sc, output_config.lvl, output_config.additional_attr@),
{
    let names = collection_names(&sc);
    let lengths = collection_lengths(&sc);
    let sequences = collection_sequences(&sc);
    check_collection(&names, &lengths, &sequences)?;
    let has_sequences = sequences.is_some();
    check_request(output_config.lvl, &output_config.additional_attr, has_sequences)?;
    let attrs = canonical_request(&output_config.additional_attr);
    proof {
        let a = attrs@;
        assert forall|i: int| 0 <= i < a.len() implies match #[trigger] a[i] {
            DerivedAttr::SortedSequences => sequences_of(sc) is Some,
            _ => names_of(sc) is Some && lengths_of(sc) is Some,
        } by {
            if a[i] == DerivedAttr::SortedSequences {
                assert(output_config.additional_attr@.contains(DerivedAttr::SortedSequences));
            }
        }
    }
    match render_digest(sc, output_config.lvl, &attrs) {
        Ok(s) => Ok(s),
        Err(_) => Err(DigestError::EngineError),
    }
}

/// The names of header entries, in order.
pub open spec fn ref_names(refs: Seq<(String, usize)>) -> Seq<Seq<char>> {
    refs.map_values(|p: (String, usize)| p.0@)
}

/// The lengths of header entries, in order.
pub open spec fn ref_lengths(refs: Seq<(String, usize)>) -> Seq<usize> {
    refs.map_values(|p: (String, usize)| p.1)
}

/// Builds a headers-only collection from the (name, length) entries of an
/// alignment header, in their order.
pub fn seqcol_from_header(refs: &Vec<(String, usize)>) -> (r: seqcol_rs::SeqCol)
    ensures
        r == header_seqcol(ref_names(refs@), ref_lengths(refs@)),
        names_of(r) == Some(ref_names(refs@)),
        lengths_of(r) == Some(ref_lengths(refs@)),
        sequences_of(r) is None,
{
    let mut names: Vec<String> = Vec::new();
    let mut lengths: Vec<usize> = Vec::new();
    let mut i: usize = 0;
    while i < refs.len()
        invariant
            i <= refs.len(),
            names.len() == i,
            lengths.len() == i,
            string_views(names@) =~= ref_names(refs@).subrange(0, i as int),
            lengths@ =~= ref_lengths(refs@).subrange(0, i as int),
        decreases refs.len() - i,
    {
        names.push(refs[i].0.clone());
        lengths.push(refs[i].1);
        i = i + 1;
    }
    assert(string_views(names@) =~= ref_names(refs@));
    assert(lengths@ =~= ref_lengths(refs@));
    from_header_pairs(&names, &lengths)
}

/// What rendering an alignment header's reference entries yields: a format
/// error where a name occurs twice, a configuration error for a request that
/// needs sequence digests, and otherwise the engine's rendering of the
/// headers-only collection of those entries.
pub open spec fn header_output(refs: Seq<(String, usize)>, level: OutputLevel, attrs: Seq<DerivedAttr>) -> Result<Seq<char>, DigestError> {
    if !names_unique(ref_names(refs)) {
        Err(DigestError::FormatError)
    } else if !request_served(level, attrs, false) {
        Err(DigestError::ConfigurationError)
    } else {
        Ok(digest_text(header_seqcol(ref_names(refs), ref_lengths(refs)), level, canonical_attrs(attrs)))
    }
}

/// Renders the digest object of an alignment header's reference entries; a
/// header with nothing in it gives `EmptyHeader`.
pub fn process_sam(header_empty: bool, refs: &Vec<(String, usize)>, output_config: OutputConfig) -> (r: Result<String, DigestError>)
    ensures
        header_empty ==> r == Err::<String, DigestError>(DigestError::EmptyHeader),
        !header_empty ==> result_view(r) == header_output(
            refs@,
            output_config.lvl,
            output_config.additional_attr@,
        ),
{
    if header_empty {
        return Err(DigestError::EmptyHeader);
    }
    let sc = seqcol_from_header(refs);
    write_seqcol_output(output_config, sc)
}

/// What an earlier digest object offers to be read back: its attribute
/// arrays where it kept them, the per-attribute digests it holds as
/// (identifier, digest) pairs, and the SHA-256 digests of the names and the
/// sequences it carried, if any.
#[derive(Clone, Debug)]
pub struct PriorDigestObject {
    pub names: Option<Vec<String>>,
    pub lengths: Option<Vec<usize>>,
    pub sequences: Option<Vec<String>>,
    pub digests: Vec<(String, String)>,
    pub sha256_names: Option<String>,
    pub sha256_seqs: Option<String>,
}

/// Whether an earlier digest object kept any attribute array.
pub open spec fn has_raw_arrays(o: PriorDigestObject) -> bool {
    o.names is Some || o.lengths is Some || o.sequences is Some
}

/// Whether a list of (identifier, digest) pairs holds a digest under the
/// given identifier.
pub open spec fn digest_held(digests: Seq<(Seq<char>, Seq<char>)>, id: Seq<char>) -> bool {
    exists|k: int| 0 <= k < digests.len() && #[trigger] digests[k].0 == id
}

/// Whether every requested derived attribute has its digest in the list.
pub open spec fn digests_cover(digests: Seq<(Seq<char>, Seq<char>)>, attrs: Seq<DerivedAttr>) -> bool {
    forall|i: int| 0 <= i < attrs.len() ==> digest_held(digests, attr_ident(#[trigger] attrs[i]))
}

/// What reading back an earlier digest object yields. With attribute arrays,
/// the collection is rebuilt from them: a format error where they are not
/// well formed, a configuration error for a request they cannot serve, and
/// otherwise the engine's rendering. Without them, the digests it holds can
/// only be shown again as they are, at level 1, and only where it holds the
/// digest of each requested derived attribute; an object with neither arrays
/// nor digests is a format error.
pub open spec fn prior_output(o: PriorDigestObject, level: OutputLevel, attrs: Seq<DerivedAttr>) -> Result<Seq<char>, DigestError> {
    let ns = opt_string_views(o.names);
    let ls = opt_lengths(o.lengths);
    let ss = opt_string_views(o.sequences);
    if has_raw_arrays(o) {
        if !well_formed(ns, ls, ss) {
            Err(DigestError::FormatError)
        } else if !request_served(level, attrs, ss is Some) {
            Err(DigestError::ConfigurationError)
        } else {
            Ok(digest_text(arrays_seqcol(ns->0, ls->0, ss), level, canonical_attrs(attrs)))
        }
    } else if o.digests.len() == 0 {
        Err(DigestError::FormatError)
    } else if level != OutputLevel::Level1 || !digests_cover(pair_views(o.digests@), attrs) {
        Err(DigestError::ConfigurationError)
    } else {
        Ok(level1_text(pair_views(o.digests@), opt_view(o.sha256_names), opt_view(o.sha256_seqs)))
    }
}

/// Whether a list of (identifier, digest) pairs holds a digest under `id`.
pub fn holds_digest(digests: &Vec<(String, String)>, id: &String) -> (r: bool)
    ensures
        r == digest_held(pair_views(digests@), id@),
{
    let ghost views = pair_views(digests@);
    let mut k: usize = 0;
    while k < digests.len()
        invariant
            k <= digests.len(),
            views == pair_views(digests@),
            forall|j: int| 0 <= j < k ==> views[j].0 != id@,
        decreases digests.len() - k,
    {
        if digests[k].0 == *id {
            assert(views[k as int].0 == id@);
            return true;
        }
        k = k + 1;
    }
    false
}

/// Whether every requested derived attribute has its digest in the list.
pub fn holds_requested_digests(digests: &Vec<(String, String)>, attrs: &Vec<DerivedAttr>) -> (r: bool)
    ensures
        r == digests_cover(pair_views(digests@), attrs@),
{
    let mut i: usize = 0;
    while i < attrs.len()
        invariant
            i <= attrs.len(),
            forall|j: int| 0 <= j < i ==> digest_held(pair_views(digests@), attr_ident(#[trigger] attrs@[j])),
        decreases attrs.len() - i,
    {
        let id = attr_identifier(attrs[i]);
        if !holds_digest(digests, &id) {
            return false;
        }
        i = i + 1;
    }
    true
}

/// Renders the digest object that an earlier digest object gives back: from
/// its attribute arrays where it kept them, otherwise by showing its digests
/// again.
pub fn process_seqcol(obj: PriorDigestObject, output_config: OutputConfig) -> (r: Result<String, DigestError>)
    ensures
        result_view(r) == prior_output(obj, output_config.lvl, output_config.additional_attr@),
{
    if obj.names.is_none() && obj.lengths.is_none() && obj.sequences.is_none() {
        if obj.digests.len() == 0 {
            return Err(DigestError::FormatError);
        }
        let level1 = match output_config.lvl {
            OutputLevel::Level1 => true,
            _ => false,
        };
        if !level1 || !holds_requested_digests(&obj.digests, &output_config.additional_attr) {
            return Err(DigestError::ConfigurationError);
        }
        return match render_level1_digests(&obj.digests, &obj.sha256_names, &obj.sha256_seqs) {
            Ok(s) => Ok(s),
            Err(_) => Err(DigestError::EngineError),
        };
    }
    check_collection(&obj.names, &obj.lengths, &obj.sequences)?;
    let (ns, ls) = match (&obj.names, &obj.lengths) {
        (Some(ns), Some(ls)) => (ns, ls),
        _ => return Err(DigestError::FormatError),
    };
    match from_attribute_arrays(ns, ls, &obj.sequences) {
        Ok(sc) => write_seqcol_output(output_config, sc),
        Err(_) => Err(DigestError::EngineError),
    }
}

} // verus!
