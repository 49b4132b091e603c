use vstd::prelude::*;

verus! {

/// How much of a collection's digest structure is exposed. The levels are
/// those of the `seqcol_rs` engine that renders them, under a `seqcol_digest`
/// key and keys in insertion order.
#[derive(Clone, Copy, Debug, PartialEq, Eq, Structural)]
pub enum OutputLevel {
    /// A single digest over the inherent attributes, `names` and
    /// `sequences`; it therefore needs the per-record sequence digests.
    Level0,
    /// One digest per attribute (the default).
    Level1,
    /// The attribute arrays themselves.
    Level2,
}

/// The derived attributes a caller may ask for beside the primary ones.
#[derive(Clone, Copy, Debug, PartialEq, Eq, Structural)]
pub enum DerivedAttr {
    NameLengthPairs,
    SortedNameLengthPairs,
    SortedSequences,
}

/// The identifier under which a derived attribute is requested and rendered.
pub open spec fn attr_ident(a: DerivedAttr) -> Seq<char> {
    match a {
        DerivedAttr::NameLengthPairs => "name_length_pairs"@,
        DerivedAttr::SortedNameLengthPairs => "sorted_name_length_pairs"@,
        DerivedAttr::SortedSequences => "sorted_sequences"@,
    }
}

/// The identifier of a derived attribute, as text.
pub fn attr_identifier(a: DerivedAttr) -> (r: String)
    ensures
        r@ == attr_ident(a),
{
    match a {
        DerivedAttr::NameLengthPairs => String::from_str("name_length_pairs"),
        DerivedAttr::SortedNameLengthPairs => String::from_str("sorted_name_length_pairs"),
        DerivedAttr::SortedSequences => String::from_str("sorted_sequences"),
    }
}

/// The textual form of a digest level.
pub open spec fn level_ident(l: OutputLevel) -> Seq<char> {
    match l {
        OutputLevel::Level0 => "0"@,
        OutputLevel::Level1 => "1"@,
        OutputLevel::Level2 => "2"@,
    }
}

/// Parses the identifier of a derived attribute.
pub fn output_attr_parser(s: &str) -> (r: Result<DerivedAttr, String>)
    ensures
        match r {
            Ok(a) => attr_ident(a) == s@,
            Err(msg) => (forall|a: DerivedAttr| attr_ident(a) != s@) && msg@
                == "Do not recognize additional attribute "@ + s@,
        },
{
    proof {
        reveal_strlit("name_length_pairs");
        reveal_strlit("sorted_name_length_pairs");
        reveal_strlit("sorted_sequences");
    }
    let t = s.to_owned();
    if t == "name_length_pairs".to_owned() {
        Ok(DerivedAttr::NameLengthPairs)
    } else if t == "sorted_name_length_pairs".to_owned() {
        Ok(DerivedAttr::SortedNameLengthPairs)
    } else if t == "sorted_sequences".to_owned() {
        Ok(DerivedAttr::SortedSequences)
    } else {
        let msg = String::from_str("Do not recognize additional attribute ");
        Err(msg.concat(s))
    }
}

/// Parses a digest level written as `0`, `1` or `2`.
pub fn output_level_parser(s: &str) -> (r: Result<OutputLevel, String>)
    ensures
        match r {
            Ok(l) => level_ident(l) == s@,
            Err(msg) => (forall|l: OutputLevel| level_ident(l) != s@) && msg@ == "output level "@
                + s@ + " not valid; must be in {0, 1, 2}."@,
        },
{
    proof {
        reveal_strlit("0");
        reveal_strlit("1");
        reveal_strlit("2");
    }
    let t = s.to_owned();
    if t == "0".to_owned() {
        Ok(OutputLevel::Level0)
    } else if t == "1".to_owned() {
        Ok(OutputLevel::Level1)
    } else if t == "2".to_owned() {
        Ok(OutputLevel::Level2)
    } else {
        let msg = String::from_str("output level ").concat(s);
        Err(msg.concat(" not valid; must be in {0, 1, 2}."))
    }
}

/// The level and the derived attributes of one requested digest.
#[derive(Clone, Debug)]
pub struct OutputConfig {
    pub lvl: OutputLevel,
    pub additional_attr: Vec<DerivedAttr>,
}

impl OutputConfig {
    pub fn new(lvl: OutputLevel, additional_attr: Vec<DerivedAttr>) -> (r: OutputConfig)
        ensures
            r.lvl == lvl,
            r.additional_attr@ == additional_attr@,
    {
        OutputConfig { lvl, additional_attr }
    }
}

} // verus!
