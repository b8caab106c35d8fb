use vstd::prelude::*;

use crate::decode::{
    bounded_decimal, bracket_trimmed, bracket_trimmed_list, comma_list, comma_separated_list,
    decode_flag, flag_field, parse_usize, text_eq,
};
use crate::tsv::{
    good_records, ok_records, read_records, table, trim_text, trimmed, tsv_records,
};
use crate::text::strs;

verus! {

/// One dataset of a mart, as the dataset listing gives it.
#[derive(Debug)]
pub struct DatasetInfo {
    pub kind: String,
    pub dataset: String,
    pub description: String,
    pub visible: bool,
    pub version: String,
    pub unknown_1: usize,
    pub unknown_2: usize,
    pub unknown_3: String,
    pub date: String,
}

/// The kind of a filter; a tag that is not known is `Unknown`.
#[derive(Debug, Clone, Copy, PartialEq, Eq, Structural)]
pub enum FilterType {
    Boolean,
    BooleanList,
    IdList,
    List,
    Text,
    Unknown,
}

/// One filter of a dataset, as the filter listing gives it.
#[derive(Debug, Clone)]
pub struct FilterInfo {
    pub name: String,
    pub description: String,
    /// The values the filter accepts; may be empty.
    pub options: Vec<String>,
    pub full_description: String,
    pub filters: String,
    pub kind: FilterType,
    /// How the filter compares, such as `=`, `>=` or `only,excluded`.
    pub operation: String,
    pub unknown_1: String,
    pub unknown_2: String,
}

/// One attribute of a dataset, as the attribute listing gives it.
#[derive(Debug, Clone)]
pub struct AttributeInfo {
    pub name: String,
    pub description: String,
    pub full_description: String,
    pub page: String,
    pub formats: Vec<String>,
    pub unknown_1: String,
    pub unknown_2: String,
}

pub struct DatasetInfoView {
    pub kind: Seq<char>,
    pub dataset: Seq<char>,
    pub description: Seq<char>,
    pub visible: bool,
    pub version: Seq<char>,
    pub unknown_1: nat,
    pub unknown_2: nat,
    pub unknown_3: Seq<char>,
    pub date: Seq<char>,
}

pub struct FilterInfoView {
    pub name: Seq<char>,
    pub description: Seq<char>,
    pub options: Seq<Seq<char>>,
    pub full_description: Seq<char>,
    pub filters: Seq<char>,
    pub kind: FilterType,
    pub operation: Seq<char>,
    pub unknown_1: Seq<char>,
    pub unknown_2: Seq<char>,
}

pub struct AttributeInfoView {
    pub name: Seq<char>,
    pub description: Seq<char>,
    pub full_description: Seq<char>,
    pub page: Seq<char>,
    pub formats: Seq<Seq<char>>,
    pub unknown_1: Seq<char>,
    pub unknown_2: Seq<char>,
}

impl View for DatasetInfo {
    type V = DatasetInfoView;

    open spec fn view(&self) -> DatasetInfoView {
        DatasetInfoView {
            kind: self.kind@,
            dataset: self.dataset@,
            description: self.description@,
            visible: self.visible,
            version: self.version@,
            unknown_1: self.unknown_1 as nat,
            unknown_2: self.unknown_2 as nat,
            unknown_3: self.unknown_3@,
            date: self.date@,
        }
    }
}

impl View for FilterInfo {
    type V = FilterInfoView;

    open spec fn view(&self) -> FilterInfoView {
        FilterInfoView {
            name: self.name@,
            description: self.description@,
            options: strs(self.options@),
            full_description: self.full_description@,
            filters: self.filters@,
            kind: self.kind,
            operation: self.operation@,
            unknown_1: self.unknown_1@,
            unknown_2: self.unknown_2@,
        }
    }
}

impl View for AttributeInfo {
    type V = AttributeInfoView;

    open spec fn view(&self) -> AttributeInfoView {
        AttributeInfoView {
            name: self.name@,
            description: self.description@,
            full_description: self.full_description@,
            page: self.page@,
            formats: strs(self.formats@),
            unknown_1: self.unknown_1@,
            unknown_2: self.unknown_2@,
        }
    }
}

/// The kind that a lowercase, underscore-separated tag names.
pub open spec fn filter_type_of(tag: Seq<char>) -> FilterType {
    if tag == "boolean"@ {
        FilterType::Boolean
    } else if tag == "boolean_list"@ {
        FilterType::BooleanList
    } else if tag == "id_list"@ {
        FilterType::IdList
    } else if tag == "list"@ {
        FilterType::List
    } else if tag == "text"@ {
        FilterType::Text
    } else {
        FilterType::Unknown
    }
}

/// Reads a filter kind from its tag; any other tag is `Unknown`.
pub fn filter_type_from_tag(tag: &str) -> (r: FilterType)
    ensures
        r == filter_type_of(tag@),
{
    if text_eq(tag, "boolean") {
        FilterType::Boolean
    } else if text_eq(tag, "boolean_list") {
        FilterType::BooleanList
    } else if text_eq(tag, "id_list") {
        FilterType::IdList
    } else if text_eq(tag, "list") {
        FilterType::List
    } else if text_eq(tag, "text") {
        FilterType::Text
    } else {
        FilterType::Unknown
    }
}

/// A row of the dataset listing: nine columns, the fourth a flag and the
/// sixth and seventh numbers; any other row has no record.
pub open spec fn dataset_row(f: Seq<Seq<char>>) -> Option<DatasetInfoView> {
    if f.len() != 9 {
        None
    } else {
        match (
            flag_field(f[3]),
            bounded_decimal(f[5], usize::MAX as nat),
            bounded_decimal(f[6], usize::MAX as nat),
        ) {
            (Ok(visible), Some(u1), Some(u2)) => Some(
                DatasetInfoView {
                    kind: f[0],
                    dataset: f[1],
                    description: f[2],
                    visible,
                    version: f[4],
                    unknown_1: u1,
                    unknown_2: u2,
                    unknown_3: f[7],
                    date: f[8],
                },
            ),
            _ => None,
        }
    }
}

/// A row of the filter listing: nine columns, the third a comma-separated
/// list of options in brackets and the sixth the filter's kind.
pub open spec fn filter_row(f: Seq<Seq<char>>) -> Option<FilterInfoView> {
    if f.len() != 9 {
        None
    } else {
        Some(
            FilterInfoView {
                name: f[0],
                description: f[1],
                options: bracket_trimmed(comma_list(f[2])),
                full_description: f[3],
                filters: f[4],
                kind: filter_type_of(f[5]),
                operation: f[6],
                unknown_1: f[7],
                unknown_2: f[8],
            },
        )
    }
}

/// A row of the attribute listing: seven columns, the fifth a
/// comma-separated list of formats.
pub open spec fn attribute_row(f: Seq<Seq<char>>) -> Option<AttributeInfoView> {
    if f.len() != 7 {
        None
    } else {
        Some(
            AttributeInfoView {
                name: f[0],
                description: f[1],
                full_description: f[2],
                page: f[3],
                formats: comma_list(f[4]),
                unknown_1: f[5],
                unknown_2: f[6],
            },
        )
    }
}

impl DatasetInfo {
    /// Decodes one row of the dataset listing.
    pub fn from_row(fields: &Vec<String>) -> (r: Option<DatasetInfo>)
        ensures
            r is Some <==> dataset_row(strs(fields@)) is Some,
            r is Some ==> dataset_row(strs(fields@)) == Some(r->Some_0@),
    {
        if fields.len() != 9 {
            return None;
        }
        let visible = decode_flag(fields[3].as_str());
        let u1 = parse_usize(fields[5].as_str());
        let u2 = parse_usize(fields[6].as_str());
        match (visible, u1, u2) {
            (Ok(visible), Some(unknown_1), Some(unknown_2)) => Some(
                DatasetInfo {
                    kind: fields[0].clone(),
                    dataset: fields[1].clone(),
                    description: fields[2].clone(),
                    visible,
                    version: fields[4].clone(),
                    unknown_1,
                    unknown_2,
                    unknown_3: fields[7].clone(),
                    date: fields[8].clone(),
                },
            ),
            _ => None,
        }
    }
}

impl FilterInfo {
    /// Decodes one row of the filter listing.
    pub fn from_row(fields: &Vec<String>) -> (r: Option<FilterInfo>)
        ensures
            r is Some <==> filter_row(strs(fields@)) is Some,
            r is Some ==> filter_row(strs(fields@)) == Some(r->Some_0@),
    {
        if fields.len() != 9 {
            return None;
        }
        Some(
            FilterInfo {
                name: fields[0].clone(),
                description: fields[1].clone(),
                options: bracket_trimmed_list(fields[2].as_str()),
                full_description: fields[3].clone(),
                filters: fields[4].clone(),
                kind: filter_type_from_tag(fields[5].as_str()),
                operation: fields[6].clone(),
                unknown_1: fields[7].clone(),
                unknown_2: fields[8].clone(),
            },
        )
    }
}

impl AttributeInfo {
    /// Decodes one row of the attribute listing.
    pub fn from_row(fields: &Vec<String>) -> (r: Option<AttributeInfo>)
        ensures
            r is Some <==> attribute_row(strs(fields@)) is Some,
            r is Some ==> attribute_row(strs(fields@)) == Some(r->Some_0@),
    {
        if fields.len() != 7 {
            return None;
        }
        Some(
            AttributeInfo {
                name: fields[0].clone(),
                description: fields[1].clone(),
                full_description: fields[2].clone(),
                page: fields[3].clone(),
                formats: comma_separated_list(fields[4].as_str()),
                unknown_1: fields[5].clone(),
                unknown_2: fields[6].clone(),
            },
        )
    }
}

/// The records of the rows that decode, in row order; the others are dropped.
pub fn datasets_from_rows(rows: &Vec<Vec<String>>) -> (r: Vec<DatasetInfo>)
    ensures
        r@.map_values(|d: DatasetInfo| d@) == table(rows@).filter_map(
            |f: Seq<Seq<char>>| dataset_row(f),
        ),
{
    let mut out: Vec<DatasetInfo> = Vec::new();
    let mut i: usize = 0;
    while i < rows.len()
        invariant
            i <= rows.len(),
            out@.map_values(|d: DatasetInfo| d@) == table(rows@).take(i as int).filter_map(
                |f: Seq<Seq<char>>| dataset_row(f),
            ),
        decreases rows.len() - i,
    {
        let ghost prev = out@;
        let rec = DatasetInfo::from_row(&rows[i]);
        assert(table(rows@).take(i as int + 1).drop_last() == table(rows@).take(i as int));
        assert(table(rows@).take(i as int + 1).last() == strs(rows@[i as int]@));
        match rec {
            Some(d) => {
                out.push(d);
                assert(out@.map_values(|d: DatasetInfo| d@) =~= prev.map_values(
                    |d: DatasetInfo| d@,
                ).push(d@));
            },
            None => {},
        }
        i += 1;
    }
    assert(table(rows@).take(rows.len() as int) == table(rows@));
    out
}

/// The records of the rows that decode, in row order; the others are dropped.
pub fn filters_from_rows(rows: &Vec<Vec<String>>) -> (r: Vec<FilterInfo>)
    ensures
        r@.map_values(|d: FilterInfo| d@) == table(rows@).filter_map(
            |f: Seq<Seq<char>>| filter_row(f),
        ),
{
    let mut out: Vec<FilterInfo> = Vec::new();
    let mut i: usize = 0;
    while i < rows.len()
        invariant
            i <= rows.len(),
            out@.map_values(|d: FilterInfo| d@) == table(rows@).take(i as int).filter_map(
                |f: Seq<Seq<char>>| filter_row(f),
            ),
        decreases rows.len() - i,
    {
        let ghost prev = out@;
        let rec = FilterInfo::from_row(&rows[i]);
        assert(table(rows@).take(i as int + 1).drop_last() == table(rows@).take(i as int));
        assert(table(rows@).take(i as int + 1).last() == strs(rows@[i as int]@));
        match rec {
            Some(d) => {
                out.push(d);
                assert(out@.map_values(|d: FilterInfo| d@) =~= prev.map_values(
                    |d: FilterInfo| d@,
                ).push(d@));
            },
            None => {},
        }
        i += 1;
    }
    assert(table(rows@).take(rows.len() as int) == table(rows@));
    out
}

/// The records of the rows that decode, in row order; the others are dropped.
pub fn attributes_from_rows(rows: &Vec<Vec<String>>) -> (r: Vec<AttributeInfo>)
    ensures
        r@.map_values(|d: AttributeInfo| d@) == table(rows@).filter_map(
            |f: Seq<Seq<char>>| attribute_row(f),
        ),
{
    let mut out: Vec<AttributeInfo> = Vec::new();
    let mut i: usize = 0;
    while i < rows.len()
        invariant
            i <= rows.len(),
            out@.map_values(|d: AttributeInfo| d@) == table(rows@).take(i as int).filter_map(
                |f: Seq<Seq<char>>| attribute_row(f),
            ),
        decreases rows.len() - i,
    {
        let ghost prev = out@;
        let rec = AttributeInfo::from_row(&rows[i]);
        assert(table(rows@).take(i as int + 1).drop_last() == table(rows@).take(i as int));
        assert(table(rows@).take(i as int + 1).last() == strs(rows@[i as int]@));
        match rec {
            Some(d) => {
                out.push(d);
                assert(out@.map_values(|d: AttributeInfo| d@) =~= prev.map_values(
                    |d: AttributeInfo| d@,
                ).push(d@));
            },
            None => {},
        }
        i += 1;
    }
    assert(table(rows@).take(rows.len() as int) == table(rows@));
    out
}

/// Decodes the dataset listing: headerless tab-separated rows, trimmed of
/// surrounding whitespace. A row that does not decode is dropped.
pub fn decode_datasets(text: &str) -> (r: Vec<DatasetInfo>)
    ensures
        r@.map_values(|d: DatasetInfo| d@) == good_records(tsv_records(trimmed(text@))).filter_map(
            |f: Seq<Seq<char>>| dataset_row(f),
        ),
{
    let t = trim_text(text);
    let recs = read_records(t);
    let rows = ok_records(&recs, Ghost(t@));
    datasets_from_rows(&rows)
}

/// Decodes the filter listing: headerless tab-separated rows, trimmed of
/// surrounding whitespace. A row that does not decode is dropped.
pub fn decode_filters(text: &str) -> (r: Vec<FilterInfo>)
    ensures
        r@.map_values(|d: FilterInfo| d@) == good_records(tsv_records(trimmed(text@))).filter_map(
            |f: Seq<Seq<char>>| filter_row(f),
        ),
{
    let t = trim_text(text);
    let recs = read_records(t);
    let rows = ok_records(&recs, Ghost(t@));
    filters_from_rows(&rows)
}

/// Decodes the attribute listing: headerless tab-separated rows, trimmed of
/// surrounding whitespace. A row that does not decode is dropped.
pub fn decode_attributes(text: &str) -> (r: Vec<AttributeInfo>)
    ensures
        r@.map_values(|d: AttributeInfo| d@) == good_records(tsv_records(trimmed(text@))).filter_map(
            |f: Seq<Seq<char>>| attribute_row(f),
        ),
{
    let t = trim_text(text);
    let recs = read_records(t);
    let rows = ok_records(&recs, Ghost(t@));
    attributes_from_rows(&rows)
}

impl DatasetInfo {
    pub fn kind(&self) -> (r: &String)
        ensures
            *r == self.kind,
    {
        &self.kind
    }

    pub fn dataset(&self) -> (r: &String)
        ensures
            *r == self.dataset,
    {
        &self.dataset
    }

    pub fn description(&self) -> (r: &String)
        ensures
            *r == self.description,
    {
        &self.description
    }

    pub fn visible(&self) -> (r: bool)
        ensures
            r == self.visible,
    {
        self.visible
    }

    pub fn version(&self) -> (r: &String)
        ensures
            *r == self.version,
    {
        &self.version
    }

    pub fn unknown_1(&self) -> (r: usize)
        ensures
            r == self.unknown_1,
    {
        self.unknown_1
    }

    pub fn unknown_2(&self) -> (r: usize)
        ensures
            r == self.unknown_2,
    {
        self.unknown_2
    }

    pub fn unknown_3(&self) -> (r: &String)
        ensures
            *r == self.unknown_3,
    {
        &self.unknown_3
    }

    pub fn date(&self) -> (r: &String)
        ensures
            *r == self.date,
    {
        &self.date
    }
}

impl FilterInfo {
    pub fn name(&self) -> (r: &String)
        ensures
            *r == self.name,
    {
        &self.name
    }

    pub fn description(&self) -> (r: &String)
        ensures
            *r == self.description,
    {
        &self.description
    }

    pub fn options(&self) -> (r: &Vec<String>)
        ensures
            *r == self.options,
    {
        &self.options
    }

    pub fn full_description(&self) -> (r: &String)
        ensures
            *r == self.full_description,
    {
        &self.full_description
    }

    pub fn filters(&self) -> (r: &String)
        ensures
            *r == self.filters,
    {
        &self.filters
    }

    pub fn kind(&self) -> (r: FilterType)
        ensures
            r == self.kind,
    {
        self.kind
    }

    pub fn operation(&self) -> (r: &String)
        ensures
            *r == self.operation,
    {
        &self.operation
    }

    pub fn unknown_1(&self) -> (r: &String)
        ensures
            *r == self.unknown_1,
    {
        &self.unknown_1
    }

    pub fn unknown_2(&self) -> (r: &String)
        ensures
            *r == self.unknown_2,
    {
        &self.unknown_2
    }
}

impl AttributeInfo {
    pub fn name(&self) -> (r: &String)
        ensures
            *r == self.name,
    {
        &self.name
    }

    pub fn description(&self) -> (r: &String)
        ensures
            *r == self.description,
    {
        &self.description
    }

    pub fn full_description(&self) -> (r: &String)
        ensures
            *r == self.full_description,
    {
        &self.full_description
    }

    pub fn page(&self) -> (r: &String)
        ensures
            *r == self.page,
    {
        &self.page
    }

    pub fn formats(&self) -> (r: &Vec<String>)
        ensures
            *r == self.formats,
    {
        &self.formats
    }

    pub fn unknown_1(&self) -> (r: &String)
        ensures
            *r == self.unknown_1,
    {
        &self.unknown_1
    }

    pub fn unknown_2(&self) -> (r: &String)
        ensures
            *r == self.unknown_2,
    {
        &self.unknown_2
    }
}

} // verus!
