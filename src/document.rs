use vstd::prelude::*;

use crate::text::push_char;

verus! {

/// One `Filter` element of a query document.
#[derive(Debug)]
pub struct XmlFilter {
    pub name: String,
    /// The comma-joined values of a match filter.
    pub value: Option<String>,
    /// Whether a boolean filter is excluded.
    pub exclude: Option<bool>,
}

/// One `Attribute` element: an output column requested from the dataset.
#[derive(Debug)]
pub struct XmlAttribute {
    pub name: String,
}

/// The dataset of a query, with its filters and attributes in order.
#[derive(Debug)]
pub struct XmlDataset {
    pub name: String,
    pub filters: Vec<XmlFilter>,
    pub attributes: Vec<XmlAttribute>,
}

/// A complete query document, with its single dataset.
#[derive(Debug)]
pub struct XmlQuery {
    pub dataset_config_version: String,
    pub formatter: String,
    pub header: bool,
    pub unique_rows: bool,
    pub virtual_schema_name: String,
    pub requestid: String,
    /// The row-count limit; zero means no limit.
    pub count: usize,
    pub dataset: XmlDataset,
}

pub struct FilterModel {
    pub name: Seq<char>,
    pub value: Option<Seq<char>>,
    pub exclude: Option<bool>,
}

pub struct DatasetModel {
    pub name: Seq<char>,
    pub filters: Seq<FilterModel>,
    pub attributes: Seq<Seq<char>>,
}

pub struct QueryModel {
    pub dataset_config_version: Seq<char>,
    pub formatter: Seq<char>,
    pub header: bool,
    pub unique_rows: bool,
    pub virtual_schema_name: Seq<char>,
    pub requestid: Seq<char>,
    pub count: nat,
    pub dataset: DatasetModel,
}

impl View for XmlFilter {
    type V = FilterModel;

    open spec fn view(&self) -> FilterModel {
        FilterModel {
            name: self.name@,
            value: match self.value {
                Some(v) => Some(v@),
                None => None,
            },
            exclude: self.exclude,
        }
    }
}

impl View for XmlDataset {
    type V = DatasetModel;

    open spec fn view(&self) -> DatasetModel {
        DatasetModel {
            name: self.name@,
            filters: self.filters@.map_values(|f: XmlFilter| f@),
            attributes: self.attributes@.map_values(|a: XmlAttribute| a.name@),
        }
    }
}

impl View for XmlQuery {
    type V = QueryModel;

    open spec fn view(&self) -> QueryModel {
        QueryModel {
            dataset_config_version: self.dataset_config_version@,
            formatter: self.formatter@,
            header: self.header,
            unique_rows: self.unique_rows,
            virtual_schema_name: self.virtual_schema_name@,
            requestid: self.requestid@,
            count: self.count as nat,
            dataset: self.dataset@,
        }
    }
}

/// The document that every query starts from: the protocol's defaults and a
/// dataset with an empty name and nothing in it.
pub open spec fn default_query() -> QueryModel {
    QueryModel {
        dataset_config_version: "0.6"@,
        formatter: "TSV"@,
        header: true,
        unique_rows: true,
        virtual_schema_name: "default"@,
        requestid: "rust-biomart"@,
        count: 0,
        dataset: DatasetModel { name: Seq::empty(), filters: Seq::empty(), attributes: Seq::empty() },
    }
}

/// The parts one after the other.
pub open spec fn cat_all(parts: Seq<Seq<char>>) -> Seq<char>
    decreases parts.len(),
{
    if parts.len() == 0 {
        Seq::empty()
    } else {
        cat_all(parts.drop_last()) + parts.last()
    }
}

/// The entity that stands for `c` in an attribute value, or `c` itself.
pub open spec fn escape_char(c: char) -> Seq<char> {
    if c == '&' {
        "&amp;"@
    } else if c == '<' {
        "&lt;"@
    } else if c == '>' {
        "&gt;"@
    } else if c == '"' {
        "&quot;"@
    } else if c == '\'' {
        "&apos;"@
    } else {
        seq![c]
    }
}

pub open spec fn escaped(s: Seq<char>) -> Seq<char>
    decreases s.len(),
{
    if s.len() == 0 {
        Seq::empty()
    } else {
        escaped(s.drop_last()) + escape_char(s.last())
    }
}

/// ` key="value"`, with the value escaped.
pub open spec fn attr_text(key: Seq<char>, value: Seq<char>) -> Seq<char> {
    " "@ + key + "=\""@ + escaped(value) + "\""@
}

/// A boolean as the service reads it.
pub open spec fn flag_text(b: bool) -> Seq<char> {
    if b {
        "1"@
    } else {
        "0"@
    }
}

pub open spec fn digit_char(d: nat) -> char {
    if d == 0 {
        '0'
    } else if d == 1 {
        '1'
    } else if d == 2 {
        '2'
    } else if d == 3 {
        '3'
    } else if d == 4 {
        '4'
    } else if d == 5 {
        '5'
    } else if d == 6 {
        '6'
    } else if d == 7 {
        '7'
    } else if d == 8 {
        '8'
    } else {
        '9'
    }
}

/// `n` in decimal, without leading zeros.
pub open spec fn decimal_text(n: nat) -> Seq<char>
    decreases n,
{
    if n < 10 {
        seq![digit_char(n)]
    } else {
        decimal_text(n / 10).push(digit_char(n % 10))
    }
}

pub open spec fn filter_text(f: FilterModel) -> Seq<char> {
    "<Filter"@ + attr_text("name"@, f.name) + match f.value {
        Some(v) => attr_text("value"@, v),
        None => Seq::empty(),
    } + match f.exclude {
        Some(b) => attr_text("excluded"@, flag_text(b)),
        None => Seq::empty(),
    } + "/>"@
}

pub open spec fn attribute_text(name: Seq<char>) -> Seq<char> {
    "<Attribute"@ + attr_text("name"@, name) + "/>"@
}

pub open spec fn dataset_text(d: DatasetModel) -> Seq<char> {
    "<Dataset"@ + attr_text("name"@, d.name) + ">"@ + cat_all(
        d.filters.map_values(|f: FilterModel| filter_text(f)),
    ) + cat_all(d.attributes.map_values(|a: Seq<char>| attribute_text(a))) + "</Dataset>"@
}

/// The XML text of a query document.
pub open spec fn query_text(q: QueryModel) -> Seq<char> {
    "<?xml version=\"1.0\" encoding=\"UTF-8\"?>"@ + "<Query"@ + attr_text(
        "virtualSchemaName"@,
        q.virtual_schema_name,
    ) + attr_text("uniqueRows"@, flag_text(q.unique_rows)) + attr_text(
        "count"@,
        decimal_text(q.count),
    ) + attr_text("datasetConfigVersion"@, q.dataset_config_version) + attr_text(
        "header"@,
        flag_text(q.header),
    ) + attr_text("formatter"@, q.formatter) + attr_text("requestid"@, q.requestid) + ">"@
        + dataset_text(q.dataset) + "</Query>"@
}

fn digit(d: usize) -> (c: char)
    requires
        d < 10,
    ensures
        c == digit_char(d as nat),
{
    if d == 0 {
        '0'
    } else if d == 1 {
        '1'
    } else if d == 2 {
        '2'
    } else if d == 3 {
        '3'
    } else if d == 4 {
        '4'
    } else if d == 5 {
        '5'
    } else if d == 6 {
        '6'
    } else if d == 7 {
        '7'
    } else if d == 8 {
        '8'
    } else {
        '9'
    }
}

fn push_decimal(out: &mut String, n: usize)
    ensures
        final(out)@ == old(out)@ + decimal_text(n as nat),
    decreases n,
{
    if n >= 10 {
        push_decimal(out, n / 10);
    }
    push_char(out, digit(n % 10));
    assert(final(out)@ =~= old(out)@ + decimal_text(n as nat));
}

fn push_escaped(out: &mut String, value: &str)
    ensures
        final(out)@ == old(out)@ + escaped(value@),
{
    let cs = crate::text::chars_of(value);
    let mut i: usize = 0;
    while i < cs.len()
        invariant
            i <= cs.len(),
            cs@ == value@,
            out@ == old(out)@ + escaped(value@.take(i as int)),
        decreases cs.len() - i,
    {
        let c = cs[i];
        let ghost before = out@;
        if c == '&' {
            out.append("&amp;");
        } else if c == '<' {
            out.append("&lt;");
        } else if c == '>' {
            out.append("&gt;");
        } else if c == '"' {
            out.append("&quot;");
        } else if c == '\'' {
            out.append("&apos;");
        } else {
            push_char(out, c);
        }
        assert(out@ == before + escape_char(c));
        assert(value@.take(i as int + 1).drop_last() == value@.take(i as int));
        i += 1;
        assert(out@ =~= old(out)@ + escaped(value@.take(i as int)));
    }
    assert(value@.take(cs.len() as int) == value@);
}

fn push_attr(out: &mut String, key: &str, value: &str)
    ensures
        final(out)@ == old(out)@ + attr_text(key@, value@),
{
    out.append(" ");
    out.append(key);
    out.append("=\"");
    push_escaped(out, value);
    out.append("\"");
    assert(final(out)@ =~= old(out)@ + attr_text(key@, value@));
}

fn push_filter(out: &mut String, f: &XmlFilter)
    ensures
        final(out)@ == old(out)@ + filter_text(f@),
{
    out.append("<Filter");
    push_attr(out, "name", f.name.as_str());
    let ghost mid = out@;
    match &f.value {
        Some(v) => push_attr(out, "value", v.as_str()),
        None => {},
    }
    let ghost mid2 = out@;
    match f.exclude {
        Some(b) => {
            if b {
                push_attr(out, "excluded", "1");
            } else {
                push_attr(out, "excluded", "0");
            }
        },
        None => {},
    }
    out.append("/>");
    assert(final(out)@ =~= old(out)@ + filter_text(f@));
}

fn push_dataset(out: &mut String, d: &XmlDataset)
    ensures
        final(out)@ == old(out)@ + dataset_text(d@),
{
    out.append("<Dataset");
    push_attr(out, "name", d.name.as_str());
    out.append(">");
    let ghost start = out@;
    let ghost ftexts = d@.filters.map_values(|f: FilterModel| filter_text(f));
    let mut i: usize = 0;
    while i < d.filters.len()
        invariant
            i <= d.filters.len(),
            ftexts == d@.filters.map_values(|f: FilterModel| filter_text(f)),
            out@ == start + cat_all(ftexts.take(i as int)),
        decreases d.filters.len() - i,
    {
        push_filter(out, &d.filters[i]);
        assert(ftexts.take(i as int + 1).drop_last() == ftexts.take(i as int));
        i += 1;
        assert(out@ =~= start + cat_all(ftexts.take(i as int)));
    }
    assert(ftexts.take(d.filters.len() as int) == ftexts);
    let ghost mid = out@;
    let ghost atexts = d@.attributes.map_values(|a: Seq<char>| attribute_text(a));
    let mut j: usize = 0;
    while j < d.attributes.len()
        invariant
            j <= d.attributes.len(),
            atexts == d@.attributes.map_values(|a: Seq<char>| attribute_text(a)),
            out@ == mid + cat_all(atexts.take(j as int)),
        decreases d.attributes.len() - j,
    {
        let ghost before = out@;
        out.append("<Attribute");
        push_attr(out, "name", d.attributes[j].name.as_str());
        out.append("/>");
        assert(out@ =~= before + attribute_text(d@.attributes[j as int]));
        assert(atexts.take(j as int + 1).drop_last() == atexts.take(j as int));
        j += 1;
        assert(out@ =~= mid + cat_all(atexts.take(j as int)));
    }
    assert(atexts.take(d.attributes.len() as int) == atexts);
    out.append("</Dataset>");
    assert(final(out)@ =~= old(out)@ + dataset_text(d@));
}

impl Default for XmlQuery {
    fn default() -> (r: XmlQuery)
        ensures
            r@ == default_query(),
    {
        let r = XmlQuery {
            dataset_config_version: String::from_str("0.6"),
            formatter: String::from_str("TSV"),
            header: true,
            unique_rows: true,
            virtual_schema_name: String::from_str("default"),
            requestid: String::from_str("rust-biomart"),
            count: 0,
            dataset: XmlDataset { name: String::new(), filters: Vec::new(), attributes: Vec::new() },
        };
        assert(r@.dataset.filters =~= Seq::<FilterModel>::empty());
        assert(r@.dataset.attributes =~= Seq::<Seq<char>>::empty());
        r
    }
}

impl XmlQuery {
    /// The XML text of the document, elements and attributes in their
    /// fixed order, booleans as `1` or `0`.
    pub fn to_string(&self) -> (r: String)
        ensures
            r@ == query_text(self@),
    {
        let mut out = String::from_str("<?xml version=\"1.0\" encoding=\"UTF-8\"?>");
        out.append("<Query");
        push_attr(&mut out, "virtualSchemaName", self.virtual_schema_name.as_str());
        push_attr(&mut out, "uniqueRows", if self.unique_rows { "1" } else { "0" });
        let mut count = String::new();
        push_decimal(&mut count, self.count);
        assert(count@ =~= decimal_text(self.count as nat));
        push_attr(&mut out, "count", count.as_str());
        push_attr(&mut out, "datasetConfigVersion", self.dataset_config_version.as_str());
        push_attr(&mut out, "header", if self.header { "1" } else { "0" });
        push_attr(&mut out, "formatter", self.formatter.as_str());
        push_attr(&mut out, "requestid", self.requestid.as_str());
        out.append(">");
        push_dataset(&mut out, &self.dataset);
        out.append("</Query>");
        assert(out@ =~= query_text(self@));
        out
    }
}

} // verus!
