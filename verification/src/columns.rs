//! Finding the chromosome, position and reference-allele columns in a header.

use vstd::prelude::*;
use vstd::string::*;

verus! {

/// The three columns a scan reads.
#[derive(Clone, Copy, Debug, PartialEq, Eq, Structural)]
pub enum Field {
    Chrom,
    Pos,
    Ref,
}

/// The text of each string of a sequence.
pub open spec fn texts(v: Seq<String>) -> Seq<Seq<char>> {
    Seq::new(v.len(), |i: int| v[i]@)
}

/// The first of `candidates`, in their own order, that occurs in `header`.
pub open spec fn spec_find_colname(header: Seq<Seq<char>>, candidates: Seq<Seq<char>>) -> Option<
    Seq<char>,
>
    decreases candidates.len(),
{
    if candidates.len() == 0 {
        None
    } else if header.contains(candidates[0]) {
        Some(candidates[0])
    } else {
        spec_find_colname(header, candidates.skip(1))
    }
}

/// The index of the first occurrence of `name` in `header`, or the length of
/// `header` where it does not occur.
pub open spec fn spec_position_of(header: Seq<Seq<char>>, name: Seq<char>) -> int
    decreases header.len(),
{
    if header.len() == 0 {
        0
    } else if header[0] == name {
        0
    } else {
        1 + spec_position_of(header.skip(1), name)
    }
}

/// Whether no name occurs twice in `header`.
pub open spec fn distinct_names(header: Seq<Seq<char>>) -> bool {
    forall|i: int, j: int| 0 <= i < j < header.len() ==> header[i] != header[j]
}

/// The names accepted by default for the chromosome column, in order of
/// priority.
pub open spec fn spec_default_chrom_names() -> Seq<Seq<char>> {
    seq!["chrom"@, "Chrom"@, "CHROM"@, "chromosome"@, "Chromosome"@]
}

/// The names accepted by default for the position column, in order of
/// priority.
pub open spec fn spec_default_pos_names() -> Seq<Seq<char>> {
    seq!["pos"@, "Pos"@, "POS"@, "position"@, "Position"@]
}

/// The names accepted by default for the reference-allele column, in order
/// of priority.
pub open spec fn spec_default_ref_names() -> Seq<Seq<char>> {
    seq!["ref"@, "REF"@, "Ref"@, "Reference"@, "Reference_Allele"@]
}

/// The text of an optional name.
pub open spec fn name_text(name: Option<String>) -> Option<Seq<char>> {
    match name {
        Some(n) => Some(n@),
        None => None,
    }
}

/// The candidates for one column: the caller's own name alone where one is
/// given, the default names otherwise.
pub open spec fn spec_candidates(user_specified: Option<Seq<char>>, defaults: Seq<Seq<char>>) -> Seq<
    Seq<char>,
> {
    match user_specified {
        Some(name) => seq![name],
        None => defaults,
    }
}

/// The candidate names for one column: the caller's own name where one is
/// given, the conventional aliases otherwise.
pub fn get_column_names(user_specified: Option<String>, default_names: Vec<String>) -> (names: Vec<
    String,
>)
    ensures
        user_specified is Some ==> names@ == seq![user_specified->0],
        user_specified is None ==> names@ == default_names@,
        texts(names@) == spec_candidates(name_text(user_specified), texts(default_names@)),
{
    match user_specified {
        Some(name) => {
            let mut names: Vec<String> = Vec::new();
            names.push(name);
            names
        },
        None => default_names,
    }
}

/// The aliases accepted for the chromosome column, in order of priority.
pub fn default_chrom_names() -> (names: Vec<String>)
    ensures
        texts(names@) == spec_default_chrom_names(),
{
    let mut names: Vec<String> = Vec::new();
    names.push(String::from_str("chrom"));
    names.push(String::from_str("Chrom"));
    names.push(String::from_str("CHROM"));
    names.push(String::from_str("chromosome"));
    names.push(String::from_str("Chromosome"));
    names
}

/// The aliases accepted for the position column, in order of priority.
pub fn default_pos_names() -> (names: Vec<String>)
    ensures
        texts(names@) == spec_default_pos_names(),
{
    let mut names: Vec<String> = Vec::new();
    names.push(String::from_str("pos"));
    names.push(String::from_str("Pos"));
    names.push(String::from_str("POS"));
    names.push(String::from_str("position"));
    names.push(String::from_str("Position"));
    names
}

/// The aliases accepted for the reference-allele column, in order of
/// priority.
pub fn default_ref_names() -> (names: Vec<String>)
    ensures
        texts(names@) == spec_default_ref_names(),
{
    let mut names: Vec<String> = Vec::new();
    names.push(String::from_str("ref"));
    names.push(String::from_str("REF"));
    names.push(String::from_str("Ref"));
    names.push(String::from_str("Reference"));
    names.push(String::from_str("Reference_Allele"));
    names
}

/// Whether `name` is one of `header`, and where it first stands.
pub fn position_of(header: &Vec<String>, name: &String) -> (at: Option<usize>)
    ensures
        at is Some <==> texts(header@).contains(name@),
        at matches Some(i) ==> i == spec_position_of(texts(header@), name@) && i < header.len()
            && header[i as int]@ == name@,
        at is None ==> spec_position_of(texts(header@), name@) == header.len(),
{
    let ghost h = texts(header@);
    let mut i: usize = 0;
    assert(h.skip(0) =~= h);
    while i < header.len()
        invariant
            i <= header.len(),
            h == texts(header@),
            forall|k: int| 0 <= k < i ==> h[k] != name@,
            spec_position_of(h, name@) == i + spec_position_of(h.skip(i as int), name@),
        decreases header.len() - i,
    {
        if header[i] == *name {
            return Some(i);
        }
        assert(h.skip(i as int).skip(1) =~= h.skip(i + 1));
        i = i + 1;
    }
    None
}

/// Picks the column for one field: the first candidate, in the candidates'
/// order, that the header holds, and the place where it first stands.
pub fn find_column(headers: &Vec<String>, valid_column_names: &Vec<String>) -> (found: Option<
    (String, usize),
>)
    ensures
        found is Some <==> exists|k: int|
            0 <= k < valid_column_names.len() && texts(headers@).contains(
                #[trigger] valid_column_names[k]@,
            ),
        match found {
            Some((name, at)) => {
                &&& Some(name@) == spec_find_colname(texts(headers@), texts(valid_column_names@))
                &&& at == spec_position_of(texts(headers@), name@)
                &&& at < headers.len()
                &&& headers[at as int]@ == name@
            },
            None => spec_find_colname(texts(headers@), texts(valid_column_names@)) is None,
        },
{
    let ghost h = texts(headers@);
    let ghost c = texts(valid_column_names@);
    let mut k: usize = 0;
    assert(c.skip(0) =~= c);
    while k < valid_column_names.len()
        invariant
            k <= valid_column_names.len(),
            h == texts(headers@),
            c == texts(valid_column_names@),
            forall|j: int| 0 <= j < k ==> !h.contains(#[trigger] valid_column_names[j]@),
            spec_find_colname(h, c) == spec_find_colname(h, c.skip(k as int)),
        decreases valid_column_names.len() - k,
    {
        match position_of(headers, &valid_column_names[k]) {
            Some(at) => {
                return Some((valid_column_names[k].clone(), at));
            },
            None => {},
        }
        assert(c.skip(k as int).skip(1) =~= c.skip(k + 1));
        k = k + 1;
    }
    None
}

/// Picks the name of the column for one field: the first candidate, in the
/// candidates' order, that the header holds.
pub fn find_colname(headers: &Vec<String>, valid_column_names: &Vec<String>) -> (found: Option<
    String,
>)
    ensures
        found is Some <==> exists|k: int|
            0 <= k < valid_column_names.len() && texts(headers@).contains(
                #[trigger] valid_column_names[k]@,
            ),
        match found {
            Some(name) => Some(name@) == spec_find_colname(
                texts(headers@),
                texts(valid_column_names@),
            ),
            None => spec_find_colname(texts(headers@), texts(valid_column_names@)) is None,
        },
{
    match find_column(headers, valid_column_names) {
        Some((name, _)) => Some(name),
        None => None,
    }
}

/// Where the three columns stand in a header, counted from 0.
#[derive(Clone, Copy, Debug, PartialEq, Eq, Structural)]
pub struct ColumnPlaces {
    pub chrom: usize,
    pub pos: usize,
    pub reference: usize,
}

/// The columns that a scan reads, by name and by place in the header.
#[derive(Clone, Debug)]
pub struct ColumnMap {
    /// The header name chosen for the chromosome.
    pub col_chrom: String,
    /// The header name chosen for the position.
    pub col_pos: String,
    /// The header name chosen for the reference allele.
    pub col_ref: String,
    /// Where each of the three names first stands in the header.
    pub places: ColumnPlaces,
}

impl ColumnMap {
    /// Each name stands in `header`, at the place recorded for it.
    pub open spec fn resolved_in(&self, header: Seq<Seq<char>>) -> bool {
        &&& self.places.chrom < header.len()
        &&& self.places.pos < header.len()
        &&& self.places.reference < header.len()
        &&& header[self.places.chrom as int] == self.col_chrom@
        &&& header[self.places.pos as int] == self.col_pos@
        &&& header[self.places.reference as int] == self.col_ref@
    }
}

/// The places of the first occurrence of each field's chosen name, for a
/// header in which all three fields resolve.
pub open spec fn spec_places(
    header: Seq<Seq<char>>,
    chrom_names: Seq<Seq<char>>,
    pos_names: Seq<Seq<char>>,
    ref_names: Seq<Seq<char>>,
) -> ColumnPlaces {
    ColumnPlaces {
        chrom: spec_position_of(header, spec_find_colname(header, chrom_names)->0) as usize,
        pos: spec_position_of(header, spec_find_colname(header, pos_names)->0) as usize,
        reference: spec_position_of(header, spec_find_colname(header, ref_names)->0) as usize,
    }
}

/// The first of the three fields, in the order chromosome, position,
/// reference allele, for which the header holds no candidate.
pub open spec fn spec_first_unresolved(
    header: Seq<Seq<char>>,
    chrom_names: Seq<Seq<char>>,
    pos_names: Seq<Seq<char>>,
    ref_names: Seq<Seq<char>>,
) -> Option<Field> {
    if spec_find_colname(header, chrom_names) is None {
        Some(Field::Chrom)
    } else if spec_find_colname(header, pos_names) is None {
        Some(Field::Pos)
    } else if spec_find_colname(header, ref_names) is None {
        Some(Field::Ref)
    } else {
        None
    }
}

/// Resolves the three columns against a header. Fails with the first field
/// that has no candidate in the header.
pub fn resolve_columns(
    header: &Vec<String>,
    chrom_names: &Vec<String>,
    pos_names: &Vec<String>,
    ref_names: &Vec<String>,
) -> (resolved: Result<ColumnMap, Field>)
    ensures
        resolved is Err <==> spec_first_unresolved(
            texts(header@),
            texts(chrom_names@),
            texts(pos_names@),
            texts(ref_names@),
        ) is Some,
        resolved matches Err(field) ==> spec_first_unresolved(
            texts(header@),
            texts(chrom_names@),
            texts(pos_names@),
            texts(ref_names@),
        ) == Some(field),
        resolved matches Ok(cols) ==> {
            &&& spec_find_colname(texts(header@), texts(chrom_names@)) == Some(cols.col_chrom@)
            &&& spec_find_colname(texts(header@), texts(pos_names@)) == Some(cols.col_pos@)
            &&& spec_find_colname(texts(header@), texts(ref_names@)) == Some(cols.col_ref@)
            &&& cols.resolved_in(texts(header@))
            &&& cols.places == spec_places(
                texts(header@),
                texts(chrom_names@),
                texts(pos_names@),
                texts(ref_names@),
            )
        },
{
    let (col_chrom, idx_chrom) = match find_column(header, chrom_names) {
        Some(found) => found,
        None => {
            return Err(Field::Chrom);
        },
    };
    let (col_pos, idx_pos) = match find_column(header, pos_names) {
        Some(found) => found,
        None => {
            return Err(Field::Pos);
        },
    };
    let (col_ref, idx_ref) = match find_column(header, ref_names) {
        Some(found) => found,
        None => {
            return Err(Field::Ref);
        },
    };
    Ok(
        ColumnMap {
            col_chrom,
            col_pos,
            col_ref,
            places: ColumnPlaces { chrom: idx_chrom, pos: idx_pos, reference: idx_ref },
        },
    )
}

/// In a header whose names are all different, a resolved column is the only
/// one that carries its name.
pub proof fn lemma_single_backing_column(header: Seq<Seq<char>>, name: Seq<char>, i: int)
    requires
        distinct_names(header),
        0 <= i < header.len(),
        header[i] == name,
    ensures
        spec_position_of(header, name) == i,
        forall|j: int| 0 <= j < header.len() && header[j] == name ==> j == i,
    decreases i,
{
    if i > 0 {
        let rest = header.skip(1);
        assert(distinct_names(rest));
        lemma_single_backing_column(rest, name, i - 1);
    }
}

/// Among several aliases that a header holds, the one listed first wins: a
/// candidate is chosen exactly when the header holds it and holds none of the
/// candidates listed before it.
pub proof fn lemma_alias_priority(header: Seq<Seq<char>>, candidates: Seq<Seq<char>>, k: int)
    requires
        0 <= k < candidates.len(),
        header.contains(candidates[k]),
        forall|j: int| 0 <= j < k ==> !header.contains(#[trigger] candidates[j]),
    ensures
        spec_find_colname(header, candidates) == Some(candidates[k]),
    decreases k,
{
    if k > 0 {
        let rest = candidates.skip(1);
        assert forall|j: int| 0 <= j < k - 1 implies !header.contains(#[trigger] rest[j]) by {
            assert(rest[j] == candidates[j + 1]);
        }
        lemma_alias_priority(header, rest, k - 1);
    }
}

/// A header without any of the candidates resolves to nothing, and only such
/// a header does.
pub proof fn lemma_unresolved_iff_absent(header: Seq<Seq<char>>, candidates: Seq<Seq<char>>)
    ensures
        spec_find_colname(header, candidates) is None <==> forall|j: int|
            0 <= j < candidates.len() ==> !header.contains(#[trigger] candidates[j]),
        spec_find_colname(header, candidates) matches Some(name) ==> header.contains(name)
            && candidates.contains(name),
    decreases candidates.len(),
{
    if candidates.len() > 0 {
        let rest = candidates.skip(1);
        lemma_unresolved_iff_absent(header, rest);
        if !header.contains(candidates[0]) {
            assert forall|j: int| 0 <= j < rest.len() implies rest[j] == candidates[j + 1] by {}
            if spec_find_colname(header, rest) is None {
                assert forall|j: int| 0 <= j < candidates.len() implies !header.contains(
                    #[trigger] candidates[j],
                ) by {
                    if j > 0 {
                        assert(rest[j - 1] == candidates[j]);
                    }
                }
            }
        }
    }
}

} // verus!
