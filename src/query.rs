use vstd::prelude::*;

use crate::document::{
    default_query, query_text, FilterModel, QueryModel, XmlAttribute, XmlFilter, XmlQuery,
};
use crate::text::{join_on, join_values, strs};

verus! {

/// What a recorded filter asks of the service, as written in the builder.
#[derive(Debug)]
pub enum FilterOperation {
    /// Rows whose field equals one of the values.
    Match(Vec<String>),
    /// The boolean filter, included.
    Include,
    /// The boolean filter, excluded.
    Exclude,
}

/// The mathematical form of a `FilterOperation`.
pub enum OperationModel {
    Match(Seq<Seq<char>>),
    Include,
    Exclude,
}

impl View for FilterOperation {
    type V = OperationModel;

    open spec fn view(&self) -> OperationModel {
        match self {
            FilterOperation::Match(vs) => OperationModel::Match(strs(vs@)),
            FilterOperation::Include => OperationModel::Include,
            FilterOperation::Exclude => OperationModel::Exclude,
        }
    }
}

/// The state of a `QueryBuilder`: what was recorded, in call order.
pub struct BuilderModel {
    pub mart: Seq<char>,
    pub dataset: Seq<char>,
    pub filters: Seq<(Seq<char>, OperationModel)>,
    pub attributes: Seq<Seq<char>>,
}

/// A mutable accumulator of filters and attributes that builds a `Query`.
#[derive(Debug)]
pub struct QueryBuilder {
    mart: String,
    dataset: String,
    filters: Vec<(String, FilterOperation)>,
    attributes: Vec<String>,
}

pub open spec fn filter_pair_view(p: (String, FilterOperation)) -> (Seq<char>, OperationModel) {
    (p.0@, p.1@)
}

impl View for QueryBuilder {
    type V = BuilderModel;

    closed spec fn view(&self) -> BuilderModel {
        BuilderModel {
            mart: self.mart@,
            dataset: self.dataset@,
            filters: self.filters@.map_values(|p: (String, FilterOperation)| filter_pair_view(p)),
            attributes: strs(self.attributes@),
        }
    }
}

/// The empty builder: no mart, no dataset, no filter, no attribute.
pub open spec fn empty_builder() -> BuilderModel {
    BuilderModel {
        mart: Seq::empty(),
        dataset: Seq::empty(),
        filters: Seq::empty(),
        attributes: Seq::empty(),
    }
}

pub open spec fn match_values(values: Seq<&str>) -> Seq<Seq<char>> {
    values.map_values(|v: &str| v@)
}

impl Default for QueryBuilder {
    fn default() -> (r: QueryBuilder)
        ensures
            r@ == empty_builder(),
    {
        let r = QueryBuilder {
            mart: String::new(),
            dataset: String::new(),
            filters: Vec::new(),
            attributes: Vec::new(),
        };
        assert(r@.filters == Seq::<(Seq<char>, OperationModel)>::empty());
        assert(r@.attributes == Seq::<Seq<char>>::empty());
        r
    }
}

impl QueryBuilder {
    /// A builder with nothing recorded.
    pub fn new() -> (r: QueryBuilder)
        ensures
            r@ == empty_builder(),
    {
        Self::default()
    }

    /// Sets the mart; a later call overwrites it.
    pub fn mart(&mut self, mart: &str) -> (r: &mut Self)
        ensures
            r@ == (BuilderModel { mart: mart@, ..old(self)@ }),
            *final(self) == *final(r),
    {
        self.mart = mart.to_owned();
        self
    }

    /// Sets the dataset; a later call overwrites it.
    pub fn dataset(&mut self, dataset: &str) -> (r: &mut Self)
        ensures
            r@ == (BuilderModel { dataset: dataset@, ..old(self)@ }),
            *final(self) == *final(r),
    {
        self.dataset = dataset.to_owned();
        self
    }

    /// Appends a filter that matches any of `values`, in the order given.
    pub fn filter(&mut self, filter: &str, values: Vec<&str>) -> (r: &mut Self)
        ensures
            r@ == (BuilderModel {
                filters: old(self)@.filters.push(
                    (filter@, OperationModel::Match(match_values(values@))),
                ),
                ..old(self)@
            }),
            *final(self) == *final(r),
    {
        let mut owned: Vec<String> = Vec::new();
        let mut i: usize = 0;
        while i < values.len()
            invariant
                i <= values.len(),
                strs(owned@) == match_values(values@).take(i as int),
            decreases values.len() - i,
        {
            let ghost prev = owned@;
            owned.push(values[i].to_owned());
            assert(strs(owned@) == strs(prev).push(values@[i as int]@));
            i += 1;
            assert(strs(owned@) =~= match_values(values@).take(i as int));
        }
        assert(match_values(values@).take(values.len() as int) == match_values(values@));
        let ghost prev = self.filters@;
        self.filters.push((filter.to_owned(), FilterOperation::Match(owned)));
        assert(self.filters@.map_values(|p: (String, FilterOperation)| filter_pair_view(p))
            == prev.map_values(|p: (String, FilterOperation)| filter_pair_view(p)).push(
            (filter@, OperationModel::Match(match_values(values@))),
        ));
        self
    }

    /// Appends a boolean filter: included when `included` holds, excluded
    /// otherwise.
    pub fn filter_bool(&mut self, filter: &str, included: bool) -> (r: &mut Self)
        ensures
            r@ == (BuilderModel {
                filters: old(self)@.filters.push(
                    (
                        filter@,
                        if included {
                            OperationModel::Include
                        } else {
                            OperationModel::Exclude
                        },
                    ),
                ),
                ..old(self)@
            }),
            *final(self) == *final(r),
    {
        let op = if included {
            FilterOperation::Include
        } else {
            FilterOperation::Exclude
        };
        let ghost prev = self.filters@;
        let ghost entry = (filter@, op@);
        self.filters.push((filter.to_owned(), op));
        assert(self.filters@.map_values(|p: (String, FilterOperation)| filter_pair_view(p))
            == prev.map_values(|p: (String, FilterOperation)| filter_pair_view(p)).push(entry));
        self
    }

    /// Appends one attribute; duplicates are kept.
    pub fn attribute(&mut self, attribute: &str) -> (r: &mut Self)
        ensures
            r@ == (BuilderModel {
                attributes: old(self)@.attributes.push(attribute@),
                ..old(self)@
            }),
            *final(self) == *final(r),
    {
        let ghost prev = self.attributes@;
        self.attributes.push(attribute.to_owned());
        assert(strs(self.attributes@) == strs(prev).push(attribute@));
        self
    }

    /// Appends the attributes in the order given; duplicates are kept.
    pub fn attributes(&mut self, attributes: Vec<&str>) -> (r: &mut Self)
        ensures
            r@ == (BuilderModel {
                attributes: old(self)@.attributes + match_values(attributes@),
                ..old(self)@
            }),
            *final(self) == *final(r),
    {
        let mut i: usize = 0;
        while i < attributes.len()
            invariant
                i <= attributes.len(),
                self@ == (BuilderModel {
                    attributes: old(self)@.attributes + match_values(attributes@).take(i as int),
                    ..old(self)@
                }),
            decreases attributes.len() - i,
        {
            self.attribute(attributes[i]);
            i += 1;
            assert(match_values(attributes@).take(i as int) == match_values(attributes@).take(
                i - 1,
            ).push(attributes@[i - 1]@));
        }
        assert(match_values(attributes@).take(attributes.len() as int) == match_values(
            attributes@,
        ));
        self
    }
}

/// The filter element that a recorded filter becomes.
pub open spec fn filter_entry(name: Seq<char>, op: OperationModel) -> FilterModel {
    match op {
        OperationModel::Match(values) => FilterModel {
            name,
            value: Some(join_on(values, ',')),
            exclude: None,
        },
        OperationModel::Include => FilterModel { name, value: None, exclude: Some(false) },
        OperationModel::Exclude => FilterModel { name, value: None, exclude: Some(true) },
    }
}

pub open spec fn filter_entries(filters: Seq<(Seq<char>, OperationModel)>) -> Seq<FilterModel> {
    filters.map_values(|p: (Seq<char>, OperationModel)| filter_entry(p.0, p.1))
}

/// The document that a builder in state `b` produces: the protocol's
/// defaults, the dataset's name, and every recorded filter and attribute in
/// call order.
pub open spec fn built(b: BuilderModel) -> QueryModel {
    QueryModel {
        dataset: crate::document::DatasetModel {
            name: b.dataset,
            filters: filter_entries(b.filters),
            attributes: b.attributes,
        },
        ..default_query()
    }
}

/// A query document, ready to be sent.
#[derive(Debug)]
pub struct Query {
    inner: XmlQuery,
}

impl View for Query {
    type V = QueryModel;

    closed spec fn view(&self) -> QueryModel {
        self.inner@
    }
}

impl Default for Query {
    fn default() -> (r: Query)
        ensures
            r@ == default_query(),
    {
        Query { inner: XmlQuery::default() }
    }
}

impl Query {
    /// The document's fields.
    pub fn document(&self) -> (r: &XmlQuery)
        ensures
            r@ == self@,
    {
        &self.inner
    }

    /// The XML text that is sent to the service.
    pub fn to_string(&self) -> (r: String)
        ensures
            r@ == query_text(self@),
    {
        self.inner.to_string()
    }
}

impl QueryBuilder {
    /// A fresh document from the builder's state; the builder is left as it
    /// is, so each call starts again from the defaults.
    pub fn build(&self) -> (r: Query)
        ensures
            r@ == built(self@),
    {
        let mut query = Query::default();
        query.inner.dataset.name = self.dataset.clone();
        assert(filter_entries(self@.filters).take(0) =~= Seq::<FilterModel>::empty());
        let ghost entries = filter_entries(self@.filters);
        let mut i: usize = 0;
        while i < self.filters.len()
            invariant
                i <= self.filters.len(),
                entries == filter_entries(self@.filters),
                query@ == (QueryModel {
                    dataset: crate::document::DatasetModel {
                        name: self@.dataset,
                        filters: entries.take(i as int),
                        attributes: Seq::empty(),
                    },
                    ..default_query()
                }),
            decreases self.filters.len() - i,
        {
            proof {
                reveal_strlit(",");
            }
            let name = &self.filters[i].0;
            let entry = match &self.filters[i].1 {
                FilterOperation::Match(values) => XmlFilter {
                    name: name.clone(),
                    value: Some(join_values(values, ",")),
                    exclude: None,
                },
                FilterOperation::Include => XmlFilter {
                    name: name.clone(),
                    value: None,
                    exclude: Some(false),
                },
                FilterOperation::Exclude => XmlFilter {
                    name: name.clone(),
                    value: None,
                    exclude: Some(true),
                },
            };
            assert(entry@ == entries[i as int]);
            let ghost prev = query.inner.dataset.filters@;
            let ghost prev_model = query@.dataset.filters;
            query.inner.dataset.filters.push(entry);
            assert(query.inner.dataset.filters@ == prev.push(entry));
            assert(query@.dataset.filters =~= prev_model.push(entry@));
            i += 1;
            assert(query@.dataset.filters =~= entries.take(i as int));
        }
        assert(entries.take(self.filters.len() as int) =~= entries);
        assert(self@.attributes.take(0) =~= Seq::<Seq<char>>::empty());
        let mut j: usize = 0;
        while j < self.attributes.len()
            invariant
                j <= self.attributes.len(),
                entries == filter_entries(self@.filters),
                query@ == (QueryModel {
                    dataset: crate::document::DatasetModel {
                        name: self@.dataset,
                        filters: entries,
                        attributes: self@.attributes.take(j as int),
                    },
                    ..default_query()
                }),
            decreases self.attributes.len() - j,
        {
            let ghost prev = query.inner.dataset.attributes@;
            let ghost prev_model = query@.dataset.attributes;
            let a = XmlAttribute { name: self.attributes[j].clone() };
            assert(a.name@ == self@.attributes[j as int]);
            query.inner.dataset.attributes.push(a);
            assert(query.inner.dataset.attributes@ == prev.push(a));
            assert(query@.dataset.attributes =~= prev_model.push(a.name@));
            j += 1;
            assert(query@.dataset.attributes =~= self@.attributes.take(j as int));
        }
        assert(self@.attributes.take(self.attributes.len() as int) =~= self@.attributes);
        query
    }
}

} // verus!
