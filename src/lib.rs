//! Reference sequence collection digests: the configuration of a digest,
//! the structural checks on a collection, the rules on which attributes a
//! collection can offer, and the calls that hand a checked collection to the
//! `seqcol_rs` digest engine.

mod collection;
mod config;
mod digest;
mod engine;
mod laws;

pub use collection::{check_collection, names_are_unique, names_unique, well_formed, DigestError};
pub use config::{
    attr_ident, attr_identifier, level_ident, output_attr_parser, output_level_parser, DerivedAttr, OutputConfig,
    OutputLevel,
};
pub use digest::{
    canonical_attrs, canonical_request, check_request, digest_held, digests_cover, has_raw_arrays, header_output, holds_digest,
    holds_requested_digests, output_of, prior_output, process_sam, process_seqcol,
    ref_lengths, ref_names, PriorDigestObject, request_served, requests, result_view, seqcol_from_header,
    write_seqcol_output,
};
pub use engine::{
    arrays_seqcol, digest_text, engine_serves, header_seqcol, level1_text, opt_view, pair_views, lengths_of, names_of, opt_lengths, opt_string_views, sequences_of,
    string_views,
};
pub use laws::{
    lemma_empty_collection_digests, lemma_header_gating, lemma_headers_only_gating,
    lemma_prior_arrays_reproduce, lemma_reingested_arrays_checked_alike, lemma_request_order_irrelevant,
};
