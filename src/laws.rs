//! Properties of the digest pipeline that hold for every collection and request.
use vstd::prelude::*;
use crate::collection::{well_formed, DigestError};
use crate::config::{DerivedAttr, OutputLevel};
use crate::collection::names_unique;
use crate::digest::{
    canonical_attrs, header_output, output_of, prior_output, ref_names, request_served,
    PriorDigestObject,
};
use crate::engine::{
    arrays_seqcol, digest_text, lengths_of, names_of, opt_lengths, opt_string_views, sequences_of,
};

verus! {

/// The order in which derived attributes are requested, and repeats among
/// them, never change the digest object: only which attributes are asked for
/// matters.
pub proof fn lemma_request_order_irrelevant(
    sc: seqcol_rs::SeqCol,
    level: OutputLevel,
    a: Seq<DerivedAttr>,
    b: Seq<DerivedAttr>,
)
    requires
        forall|x: DerivedAttr| a.contains(x) <==> b.contains(x),
    ensures
        canonical_attrs(a) == canonical_attrs(b),
        output_of(sc, level, a) == output_of(sc, level, b),
{
    assert(a.contains(DerivedAttr::NameLengthPairs) == b.contains(DerivedAttr::NameLengthPairs));
    assert(a.contains(DerivedAttr::SortedNameLengthPairs) == b.contains(
        DerivedAttr::SortedNameLengthPairs,
    ));
    assert(a.contains(DerivedAttr::SortedSequences) == b.contains(DerivedAttr::SortedSequences));
}

/// A well-formed headers-only collection fails with `ConfigurationError`
/// exactly when level 0 or `sorted_sequences` is requested, and otherwise
/// yields a digest object.
pub proof fn lemma_headers_only_gating(
    sc: seqcol_rs::SeqCol,
    level: OutputLevel,
    attrs: Seq<DerivedAttr>,
)
    requires
        well_formed(names_of(sc), lengths_of(sc), sequences_of(sc)),
        sequences_of(sc) is None,
    ensures
        output_of(sc, level, attrs) == Err::<Seq<char>, DigestError>(
            DigestError::ConfigurationError,
        ) <==> (level == OutputLevel::Level0 || attrs.contains(DerivedAttr::SortedSequences)),
        !(level == OutputLevel::Level0 || attrs.contains(DerivedAttr::SortedSequences))
            ==> output_of(sc, level, attrs) is Ok,
{
}

/// A collection of zero records is well formed, so every request it can
/// serve yields a digest object rather than an error.
pub proof fn lemma_empty_collection_digests(
    sc: seqcol_rs::SeqCol,
    level: OutputLevel,
    attrs: Seq<DerivedAttr>,
)
    requires
        names_of(sc) == Some(Seq::<Seq<char>>::empty()),
        lengths_of(sc) == Some(Seq::<usize>::empty()),
        sequences_of(sc) is None || sequences_of(sc) == Some(Seq::<Seq<char>>::empty()),
        request_served(level, attrs, sequences_of(sc) is Some),
    ensures
        output_of(sc, level, attrs) is Ok,
{
}

/// A collection rebuilt from the attribute arrays of another passes and
/// fails the same checks: it yields a digest object for exactly the same
/// requests, and the same error otherwise.
pub proof fn lemma_reingested_arrays_checked_alike(
    sc: seqcol_rs::SeqCol,
    rebuilt: seqcol_rs::SeqCol,
    level: OutputLevel,
    attrs: Seq<DerivedAttr>,
)
    requires
        names_of(rebuilt) == names_of(sc),
        lengths_of(rebuilt) == lengths_of(sc),
        sequences_of(rebuilt) == sequences_of(sc),
    ensures
        output_of(rebuilt, level, attrs) is Ok <==> output_of(sc, level, attrs) is Ok,
        output_of(sc, level, attrs) is Err ==> output_of(rebuilt, level, attrs) == output_of(
            sc,
            level,
            attrs,
        ),
{
}

/// Reading back an earlier digest object that kept well-formed attribute
/// arrays gives, for every request they can serve, the engine's rendering of
/// the collection built from exactly those arrays; two objects that kept equal arrays give equal output, at
/// every level and for every request.
pub proof fn lemma_prior_arrays_reproduce(
    o: PriorDigestObject,
    p: PriorDigestObject,
    names: Seq<Seq<char>>,
    lengths: Seq<usize>,
    sequences: Option<Seq<Seq<char>>>,
    level: OutputLevel,
    attrs: Seq<DerivedAttr>,
)
    requires
        opt_string_views(o.names) == Some(names),
        opt_lengths(o.lengths) == Some(lengths),
        opt_string_views(o.sequences) == sequences,
        opt_string_views(p.names) == Some(names),
        opt_lengths(p.lengths) == Some(lengths),
        opt_string_views(p.sequences) == sequences,
        well_formed(Some(names), Some(lengths), sequences),
    ensures
        request_served(level, attrs, sequences is Some) ==> prior_output(o, level, attrs) == Ok::<
            Seq<char>,
            DigestError,
        >(digest_text(arrays_seqcol(names, lengths, sequences), level, canonical_attrs(attrs))),
        prior_output(o, level, attrs) == prior_output(p, level, attrs),
{
}

/// The entries of an alignment header with unique names give a headers-only
/// collection: asking it for level 0 or `sorted_sequences` fails with
/// `ConfigurationError`, and every other request yields a digest object.
pub proof fn lemma_header_gating(
    refs: Seq<(String, usize)>,
    level: OutputLevel,
    attrs: Seq<DerivedAttr>,
)
    requires
        names_unique(ref_names(refs)),
    ensures
        header_output(refs, level, attrs) == Err::<Seq<char>, DigestError>(
            DigestError::ConfigurationError,
        ) <==> (level == OutputLevel::Level0 || attrs.contains(DerivedAttr::SortedSequences)),
        !(level == OutputLevel::Level0 || attrs.contains(DerivedAttr::SortedSequences))
            ==> header_output(refs, level, attrs) is Ok,
{
}

} // verus!
