use vstd::prelude::*;

verus! {

/// The constant that identifies this client to the service.
pub const REQUEST_ID: &'static str = "rust-biomart";

/// A reply that the service did not answer with success.
#[derive(Debug, PartialEq, Eq, Structural)]
pub enum StatusError {
    /// The server failed (a 5xx status).
    Server,
    /// Any other status that is not a success, with its code.
    Status(u16),
}

/// How a reply with status `code` is classified: 2xx is success, 5xx a
/// server error, anything else a status error that carries the code.
pub open spec fn status_outcome(code: u16) -> Result<(), StatusError> {
    if 200 <= code < 300 {
        Ok(())
    } else if 500 <= code < 600 {
        Err(StatusError::Server)
    } else {
        Err(StatusError::Status(code))
    }
}

/// Classifies the status of a reply; only a success lets its body be decoded.
pub fn classify_status(code: u16) -> (r: Result<(), StatusError>)
    ensures
        r == status_outcome(code),
{
    if 200 <= code && code < 300 {
        Ok(())
    } else if 500 <= code && code < 600 {
        Err(StatusError::Server)
    } else {
        Err(StatusError::Status(code))
    }
}

pub type Params = Vec<(String, String)>;

pub open spec fn params_view(p: Seq<(String, String)>) -> Seq<(Seq<char>, Seq<char>)> {
    p.map_values(|kv: (String, String)| (kv.0@, kv.1@))
}

pub open spec fn with_request_id(rest: Seq<(Seq<char>, Seq<char>)>) -> Seq<(Seq<char>, Seq<char>)> {
    seq![("requestid"@, REQUEST_ID@)] + rest
}

fn pair(k: &str, v: &str) -> (r: (String, String))
    ensures
        r.0@ == k@,
        r.1@ == v@,
{
    (String::from_str(k), String::from_str(v))
}

fn params_from(rest: Vec<(String, String)>) -> (r: Params)
    ensures
        params_view(r@) == with_request_id(params_view(rest@)),
{
    let mut out: Params = Vec::new();
    out.push(pair("requestid", REQUEST_ID));
    let mut i: usize = 0;
    while i < rest.len()
        invariant
            i <= rest.len(),
            params_view(out@) == with_request_id(params_view(rest@).take(i as int)),
        decreases rest.len() - i,
    {
        let ghost prev = out@;
        let (k, v) = (rest[i].0.clone(), rest[i].1.clone());
        assert(k@ == rest@[i as int].0@ && v@ == rest@[i as int].1@);
        out.push((k, v));
        assert(params_view(out@) == params_view(prev).push((k@, v@)));
        i += 1;
        assert(params_view(out@) =~= with_request_id(params_view(rest@).take(i as int)));
    }
    assert(params_view(rest@).take(rest.len() as int) == params_view(rest@));
    out
}

/// The parameters of a query: the document's XML text.
pub fn query_params(xml: &str) -> (r: Params)
    ensures
        params_view(r@) == with_request_id(seq![("query"@, xml@)]),
{
    let rest = vec![pair("query", xml)];
    assert(params_view(rest@) =~= seq![("query"@, xml@)]);
    params_from(rest)
}

/// The parameters that ask for the registry of marts.
pub fn registry_params() -> (r: Params)
    ensures
        params_view(r@) == with_request_id(seq![("type"@, "registry"@)]),
{
    let rest = vec![pair("type", "registry")];
    assert(params_view(rest@) =~= seq![("type"@, "registry"@)]);
    params_from(rest)
}

/// The parameters that ask for the datasets of `mart`.
pub fn datasets_params(mart: &str) -> (r: Params)
    ensures
        params_view(r@) == with_request_id(seq![("mart"@, mart@), ("type"@, "datasets"@)]),
{
    let rest = vec![pair("mart", mart), pair("type", "datasets")];
    assert(params_view(rest@) =~= seq![("mart"@, mart@), ("type"@, "datasets"@)]);
    params_from(rest)
}

/// The parameters that ask for the filters of a dataset.
pub fn filters_params(mart: &str, dataset: &str) -> (r: Params)
    ensures
        params_view(r@) == with_request_id(
            seq![("mart"@, mart@), ("dataset"@, dataset@), ("type"@, "filters"@)],
        ),
{
    let rest = vec![pair("mart", mart), pair("dataset", dataset), pair("type", "filters")];
    assert(params_view(rest@) =~= seq![
        ("mart"@, mart@),
        ("dataset"@, dataset@),
        ("type"@, "filters"@),
    ]);
    params_from(rest)
}

/// The parameters that ask for the attributes of a dataset.
pub fn attributes_params(mart: &str, dataset: &str) -> (r: Params)
    ensures
        params_view(r@) == with_request_id(
            seq![("mart"@, mart@), ("dataset"@, dataset@), ("type"@, "attributes"@)],
        ),
{
    let rest = vec![pair("mart", mart), pair("dataset", dataset), pair("type", "attributes")];
    assert(params_view(rest@) =~= seq![
        ("mart"@, mart@),
        ("dataset"@, dataset@),
        ("type"@, "attributes"@),
    ]);
    params_from(rest)
}

} // verus!
