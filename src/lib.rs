//! A client library for the BioMart query service: a builder for query
//! documents and their XML text, and decoders for the service's metadata
//! listings and tab-separated results.

pub mod client;
pub mod decode;
pub mod document;
pub mod laws;
pub mod metadata;
pub mod query;
pub mod registry;
pub mod response;
pub mod text;
pub mod tsv;

pub use client::{
    attributes_params, classify_status, datasets_params, filters_params, query_params,
    registry_params, StatusError, REQUEST_ID,
};
pub use decode::{
    bool_from_int, bracket_trimmed_list, comma_separated_list, decode_bool, decode_flag,
    default_on_error, parse_u8, parse_usize, trim_bracket_items, DecodeError,
};
pub use document::{XmlAttribute, XmlDataset, XmlFilter, XmlQuery};
pub use metadata::{
    decode_attributes, decode_datasets, decode_filters, filter_type_from_tag, AttributeInfo,
    DatasetInfo, FilterInfo, FilterType,
};
pub use query::{FilterOperation, Query, QueryBuilder};
pub use registry::{MartInfo, MartRegistry};
pub use response::Response;
