use vstd::prelude::*;

use crate::decode::{
    bool_field, bounded_decimal, comma_list, comma_separated_list, decode_bool, default_on_error,
    or_default, parse_usize, text_eq, DecodeError,
};
use crate::text::{same_strings, strs};

verus! {

#[verifier::external_type_specification]
#[verifier::external_body]
pub struct ExXmlParseError(xmltree::ParseError);

/// An element's name and its attributes in document order.
pub type ElementData = (String, Vec<(String, String)>);

pub type ElementView = (Seq<char>, Seq<(Seq<char>, Seq<char>)>);

/// The child nodes of the root element of the XML document `text`, in order:
/// for an element, its name and its attributes in document order; `None` for
/// a node of another kind. `None` overall where the text does not parse.
pub uninterp spec fn xml_root_children(text: Seq<char>) -> Option<Seq<Option<ElementView>>>;

pub open spec fn pairs_view(attrs: Seq<(String, String)>) -> Seq<(Seq<char>, Seq<char>)> {
    attrs.map_values(|p: (String, String)| (p.0@, p.1@))
}

pub open spec fn node_view(n: Option<ElementData>) -> Option<ElementView> {
    match n {
        Some(e) => Some((e.0@, pairs_view(e.1@))),
        None => None,
    }
}

pub open spec fn nodes_view(nodes: Seq<Option<ElementData>>) -> Seq<Option<ElementView>> {
    nodes.map_values(|n: Option<ElementData>| node_view(n))
}

/// Relies on xmltree::Element::parse, built with attributes kept in document
/// order: the child nodes of the document's root element, or the parser's
/// error. Its XML reader reports a text without a root element as an error,
/// so the parse does not reach its `unreachable!`.
#[verifier::external_body]
fn root_children(text: &str) -> (r: Result<Vec<Option<ElementData>>, xmltree::ParseError>)
    ensures
        r is Ok <==> xml_root_children(text@) is Some,
        r is Ok ==> nodes_view(r->Ok_0@) == xml_root_children(text@)->Some_0,
{
    xmltree::Element::parse(text.as_bytes()).map(|root| {
        root.children.into_iter().map(|node| match node {
            xmltree::XMLNode::Element(e) => Some((e.name, e.attributes.into_iter().collect())),
            xmltree::XMLNode::Comment(_) => None,
            xmltree::XMLNode::CData(_) => None,
            xmltree::XMLNode::Text(_) => None,
            xmltree::XMLNode::ProcessingInstruction(_, _) => None,
        }).collect()
    })
}

/// The value of the first attribute named `key`.
pub open spec fn attr_lookup(attrs: Seq<(Seq<char>, Seq<char>)>, key: Seq<char>) -> Option<
    Seq<char>,
>
    decreases attrs.len(),
{
    if attrs.len() == 0 {
        None
    } else if attrs[0].0 == key {
        Some(attrs[0].1)
    } else {
        attr_lookup(attrs.drop_first(), key)
    }
}

/// Finds the value of the first attribute named `key`.
fn lookup(attrs: &Vec<(String, String)>, key: &str) -> (r: Option<String>)
    ensures
        r is Some <==> attr_lookup(pairs_view(attrs@), key@) is Some,
        r is Some ==> attr_lookup(pairs_view(attrs@), key@) == Some(r->Some_0@),
{
    let ghost all = pairs_view(attrs@);
    let mut i: usize = 0;
    assert(all.subrange(0, all.len() as int) == all);
    while i < attrs.len()
        invariant
            i <= attrs.len(),
            all == pairs_view(attrs@),
            attr_lookup(all, key@) == attr_lookup(all.subrange(i as int, all.len() as int), key@),
        decreases attrs.len() - i,
    {
        let ghost rest = all.subrange(i as int, all.len() as int);
        assert(rest[0] == all[i as int]);
        assert(rest.drop_first() == all.subrange(i + 1, all.len() as int));
        if text_eq(attrs[i].0.as_str(), key) {
            return Some(attrs[i].1.clone());
        }
        i += 1;
    }
    None
}

/// One mart of the registry.
#[derive(Debug)]
pub struct MartInfo {
    pub host: String,
    pub port: usize,
    pub database: String,
    pub include_datasets: Vec<String>,
    pub visible: bool,
    pub mart_user: String,
    pub default: bool,
    pub server_virtual_schema: String,
    pub display_name: String,
    pub path: String,
    pub name: String,
}

pub struct MartInfoView {
    pub host: Seq<char>,
    pub port: nat,
    pub database: Seq<char>,
    pub include_datasets: Seq<Seq<char>>,
    pub visible: bool,
    pub mart_user: Seq<char>,
    pub default: bool,
    pub server_virtual_schema: Seq<char>,
    pub display_name: Seq<char>,
    pub path: Seq<char>,
    pub name: Seq<char>,
}

impl View for MartInfo {
    type V = MartInfoView;

    open spec fn view(&self) -> MartInfoView {
        MartInfoView {
            host: self.host@,
            port: self.port as nat,
            database: self.database@,
            include_datasets: strs(self.include_datasets@),
            visible: self.visible,
            mart_user: self.mart_user@,
            default: self.default,
            server_virtual_schema: self.server_virtual_schema@,
            display_name: self.display_name@,
            path: self.path@,
            name: self.name@,
        }
    }
}

/// A flag attribute that falls back to `false` where it is missing or does
/// not decode.
pub open spec fn lenient_flag(v: Option<Seq<char>>) -> bool {
    match v {
        Some(s) => or_default(bool_field(s)),
        None => false,
    }
}

/// What a `MartURLLocation` element with attributes `a` decodes to. `port`
/// must be a number when present; `host`, `port`, `database`,
/// `serverVirtualSchema`, `displayName`, `path` and `name` are required;
/// `includeDatasets` is a comma-separated list, empty when missing;
/// `visible`, `default` and `martUser` fall back to their defaults.
pub open spec fn mart_entry(a: Seq<(Seq<char>, Seq<char>)>) -> Result<MartInfoView, DecodeError> {
    let port = attr_lookup(a, "port"@);
    let port_value = match port {
        Some(p) => bounded_decimal(p, usize::MAX as nat),
        None => None,
    };
    if port is Some && port_value is None {
        Err(DecodeError::InvalidNumber)
    } else if attr_lookup(a, "host"@) is None || port_value is None || attr_lookup(
        a,
        "database"@,
    ) is None || attr_lookup(a, "serverVirtualSchema"@) is None || attr_lookup(
        a,
        "displayName"@,
    ) is None || attr_lookup(a, "path"@) is None || attr_lookup(a, "name"@) is None {
        Err(DecodeError::MissingField)
    } else {
        Ok(
            MartInfoView {
                host: attr_lookup(a, "host"@)->Some_0,
                port: port_value->Some_0,
                database: attr_lookup(a, "database"@)->Some_0,
                include_datasets: match attr_lookup(a, "includeDatasets"@) {
                    Some(v) => comma_list(v),
                    None => Seq::empty(),
                },
                visible: lenient_flag(attr_lookup(a, "visible"@)),
                mart_user: match attr_lookup(a, "martUser"@) {
                    Some(v) => v,
                    None => Seq::empty(),
                },
                default: lenient_flag(attr_lookup(a, "default"@)),
                server_virtual_schema: attr_lookup(a, "serverVirtualSchema"@)->Some_0,
                display_name: attr_lookup(a, "displayName"@)->Some_0,
                path: attr_lookup(a, "path"@)->Some_0,
                name: attr_lookup(a, "name"@)->Some_0,
            },
        )
    }
}

pub open spec fn mart_result_view(r: Result<MartInfo, DecodeError>) -> Result<
    MartInfoView,
    DecodeError,
> {
    match r {
        Ok(m) => Ok(m@),
        Err(e) => Err(e),
    }
}

fn lenient_flag_of(v: Option<String>) -> (r: bool)
    ensures
        r == lenient_flag(
            match v {
                Some(s) => Some(s@),
                None => None,
            },
        ),
{
    match v {
        Some(s) => default_on_error(decode_bool(s.as_str())),
        None => false,
    }
}

impl MartInfo {
    /// Decodes a mart from the attributes of its `MartURLLocation` element.
    pub fn from_attributes(attrs: &Vec<(String, String)>) -> (r: Result<MartInfo, DecodeError>)
        ensures
            mart_result_view(r) == mart_entry(pairs_view(attrs@)),
    {
        let port = lookup(attrs, "port");
        let port_value = match &port {
            Some(p) => parse_usize(p.as_str()),
            None => None,
        };
        if port.is_some() && port_value.is_none() {
            return Err(DecodeError::InvalidNumber);
        }
        let host = lookup(attrs, "host");
        let database = lookup(attrs, "database");
        let schema = lookup(attrs, "serverVirtualSchema");
        let display_name = lookup(attrs, "displayName");
        let path = lookup(attrs, "path");
        let name = lookup(attrs, "name");
        match (host, port_value, database, schema, display_name, path, name) {
            (
                Some(host),
                Some(port),
                Some(database),
                Some(server_virtual_schema),
                Some(display_name),
                Some(path),
                Some(name),
            ) => {
                let include_datasets = match lookup(attrs, "includeDatasets") {
                    Some(v) => comma_separated_list(v.as_str()),
                    None => Vec::new(),
                };
                proof {
                    if attr_lookup(pairs_view(attrs@), "includeDatasets"@) is None {
                        assert(strs(include_datasets@) =~= Seq::<Seq<char>>::empty());
                    }
                }
                let visible = lenient_flag_of(lookup(attrs, "visible"));
                let default = lenient_flag_of(lookup(attrs, "default"));
                let mart_user = match lookup(attrs, "martUser") {
                    Some(v) => v,
                    None => String::new(),
                };
                Ok(
                    MartInfo {
                        host,
                        port,
                        database,
                        include_datasets,
                        visible,
                        mart_user,
                        default,
                        server_virtual_schema,
                        display_name,
                        path,
                        name,
                    },
                )
            },
            _ => Err(DecodeError::MissingField),
        }
    }
}

/// The marts that the registry document lists, in order.
#[derive(Debug)]
pub struct MartRegistry {
    pub marts: Vec<MartInfo>,
}

/// What the root's child nodes decode to: each `MartURLLocation` element a
/// mart, other nodes ignored; the first element that does not decode fails the
/// whole registry.
pub open spec fn registry_of(nodes: Seq<Option<ElementView>>) -> Result<
    Seq<MartInfoView>,
    DecodeError,
>
    decreases nodes.len(),
{
    if nodes.len() == 0 {
        Ok(Seq::empty())
    } else {
        match registry_of(nodes.drop_last()) {
            Err(e) => Err(e),
            Ok(marts) => match nodes.last() {
                Some(e) => if e.0 == "MartURLLocation"@ {
                    match mart_entry(e.1) {
                        Ok(m) => Ok(marts.push(m)),
                        Err(err) => Err(err),
                    }
                } else {
                    Ok(marts)
                },
                None => Ok(marts),
            },
        }
    }
}

pub open spec fn registry_result_view(r: Result<MartRegistry, DecodeError>) -> Result<
    Seq<MartInfoView>,
    DecodeError,
> {
    match r {
        Ok(reg) => Ok(reg.marts@.map_values(|m: MartInfo| m@)),
        Err(e) => Err(e),
    }
}

/// What the registry document `text` decodes to; a document that does not
/// parse is malformed.
pub open spec fn registry_document(text: Seq<char>) -> Result<Seq<MartInfoView>, DecodeError> {
    match xml_root_children(text) {
        Some(nodes) => registry_of(nodes),
        None => Err(DecodeError::MalformedDocument),
    }
}

impl MartRegistry {
    /// Decodes the registry from the child nodes of its root element.
    pub fn from_children(nodes: &Vec<Option<ElementData>>) -> (r: Result<MartRegistry, DecodeError>)
        ensures
            registry_result_view(r) == registry_of(nodes_view(nodes@)),
    {
        let ghost all = nodes_view(nodes@);
        let mut marts: Vec<MartInfo> = Vec::new();
        let mut i: usize = 0;
        assert(all.take(0).len() == 0);
        assert(marts@.map_values(|m: MartInfo| m@) =~= Seq::<MartInfoView>::empty());
        while i < nodes.len()
            invariant
                i <= nodes.len(),
                all == nodes_view(nodes@),
                registry_of(all.take(i as int)) == Ok::<Seq<MartInfoView>, DecodeError>(
                    marts@.map_values(|m: MartInfo| m@),
                ),
            decreases nodes.len() - i,
        {
            assert(all.take(i as int + 1).drop_last() == all.take(i as int));
            assert(all.take(i as int + 1).last() == node_view(nodes@[i as int]));
            match &nodes[i] {
                Some(e) => {
                    if text_eq(e.0.as_str(), "MartURLLocation") {
                        match MartInfo::from_attributes(&e.1) {
                            Ok(m) => {
                                let ghost prev = marts@;
                                marts.push(m);
                                assert(marts@.map_values(|m: MartInfo| m@) =~= prev.map_values(
                                    |m: MartInfo| m@,
                                ).push(m@));
                            },
                            Err(err) => {
                                proof {
                                    lemma_registry_error_sticks(all, i as int + 1, err);
                                }
                                return Err(err);
                            },
                        }
                    }
                },
                None => {},
            }
            i += 1;
        }
        assert(all.take(nodes.len() as int) == all);
        Ok(MartRegistry { marts })
    }

    /// Decodes the registry document that the service sends.
    pub fn from_xml(text: &str) -> (r: Result<MartRegistry, DecodeError>)
        ensures
            registry_result_view(r) == registry_document(text@),
    {
        match root_children(text) {
            Ok(nodes) => MartRegistry::from_children(&nodes),
            Err(_) => Err(DecodeError::MalformedDocument),
        }
    }
}

/// Once a prefix of the nodes fails, every longer prefix fails the same way.
proof fn lemma_registry_error_sticks(nodes: Seq<Option<ElementView>>, k: int, err: DecodeError)
    requires
        0 <= k <= nodes.len(),
        registry_of(nodes.take(k)) == Err::<Seq<MartInfoView>, DecodeError>(err),
    ensures
        registry_of(nodes) == Err::<Seq<MartInfoView>, DecodeError>(err),
    decreases nodes.len() - k,
{
    if k == nodes.len() {
        assert(nodes.take(k) == nodes);
    } else {
        assert(nodes.take(k + 1).drop_last() == nodes.take(k));
        lemma_registry_error_sticks(nodes, k + 1, err);
    }
}

impl MartInfo {
    pub fn host(&self) -> (r: &String)
        ensures
            *r == self.host,
    {
        &self.host
    }

    pub fn port(&self) -> (r: usize)
        ensures
            r == self.port,
    {
        self.port
    }

    pub fn database(&self) -> (r: &String)
        ensures
            *r == self.database,
    {
        &self.database
    }

    pub fn include_datasets(&self) -> (r: &Vec<String>)
        ensures
            *r == self.include_datasets,
    {
        &self.include_datasets
    }

    pub fn visible(&self) -> (r: bool)
        ensures
            r == self.visible,
    {
        self.visible
    }

    pub fn mart_user(&self) -> (r: &String)
        ensures
            *r == self.mart_user,
    {
        &self.mart_user
    }

    pub fn default(&self) -> (r: bool)
        ensures
            r == self.default,
    {
        self.default
    }

    pub fn server_virtual_schema(&self) -> (r: &String)
        ensures
            *r == self.server_virtual_schema,
    {
        &self.server_virtual_schema
    }

    pub fn display_name(&self) -> (r: &String)
        ensures
            *r == self.display_name,
    {
        &self.display_name
    }

    pub fn path(&self) -> (r: &String)
        ensures
            *r == self.path,
    {
        &self.path
    }

    pub fn name(&self) -> (r: &String)
        ensures
            *r == self.name,
    {
        &self.name
    }
}

impl PartialEq for MartInfo {
    fn eq(&self, o: &MartInfo) -> (r: bool) {
        self.host == o.host && self.port == o.port && self.database == o.database
            && same_strings(&self.include_datasets, &o.include_datasets) && self.visible
            == o.visible && self.mart_user == o.mart_user && self.default == o.default
            && self.server_virtual_schema == o.server_virtual_schema && self.display_name
            == o.display_name && self.path == o.path && self.name == o.name
    }
}

impl vstd::std_specs::cmp::PartialEqSpecImpl for MartInfo {
    open spec fn obeys_eq_spec() -> bool {
        true
    }

    open spec fn eq_spec(&self, o: &MartInfo) -> bool {
        self@ == o@
    }
}

impl PartialEq for MartRegistry {
    fn eq(&self, o: &MartRegistry) -> (r: bool) {
        if self.marts.len() != o.marts.len() {
            assert(self.marts@.map_values(|m: MartInfo| m@).len() != o.marts@.map_values(
                |m: MartInfo| m@,
            ).len());
            return false;
        }
        let ghost a = self.marts@.map_values(|m: MartInfo| m@);
        let ghost b = o.marts@.map_values(|m: MartInfo| m@);
        let mut i: usize = 0;
        while i < self.marts.len()
            invariant
                i <= self.marts.len() == o.marts.len(),
                a == self.marts@.map_values(|m: MartInfo| m@),
                b == o.marts@.map_values(|m: MartInfo| m@),
                a.take(i as int) == b.take(i as int),
            decreases self.marts.len() - i,
        {
            if !self.marts[i].eq(&o.marts[i]) {
                assert(a[i as int] != b[i as int]);
                return false;
            }
            i += 1;
            assert(a.take(i as int) =~= b.take(i as int));
        }
        assert(a.take(a.len() as int) == a);
        assert(b.take(b.len() as int) == b);
        true
    }
}

impl vstd::std_specs::cmp::PartialEqSpecImpl for MartRegistry {
    open spec fn obeys_eq_spec() -> bool {
        true
    }

    open spec fn eq_spec(&self, o: &MartRegistry) -> bool {
        self.marts@.map_values(|m: MartInfo| m@) == o.marts@.map_values(|m: MartInfo| m@)
    }
}

} // verus!
