use rust_biomart::{Query, QueryBuilder, XmlQuery};

const PROBES: &str = "<?xml version=\"1.0\" encoding=\"UTF-8\"?><Query virtualSchemaName=\"default\" uniqueRows=\"1\" count=\"0\" datasetConfigVersion=\"0.6\" header=\"1\" formatter=\"TSV\" requestid=\"rust-biomart\"><Dataset name=\"hsapiens_gene_ensembl\"><Filter name=\"affy_hg_u133_plus_2\" value=\"202763_at,209310_s_at,207500_at\"/><Attribute name=\"affy_hg_u133_plus_2\"/><Attribute name=\"entrezgene_id\"/></Dataset></Query>";

#[test]
fn probe_query_document_text() {
    let query = QueryBuilder::new()
        .mart("ensembl")
        .dataset("hsapiens_gene_ensembl")
        .attributes(vec!["affy_hg_u133_plus_2", "entrezgene_id"])
        .filter(
            "affy_hg_u133_plus_2",
            vec!["202763_at", "209310_s_at", "207500_at"],
        )
        .build();
    assert_eq!(PROBES, query.to_string());
}

#[test]
fn match_filter_joins_values_without_excluded() {
    let query = QueryBuilder::new()
        .dataset("d")
        .filter(
            "affy_hg_u133_plus_2",
            vec!["202763_at", "209310_s_at", "207500_at"],
        )
        .build();
    let text = query.to_string();
    assert!(text.contains(
        "<Filter name=\"affy_hg_u133_plus_2\" value=\"202763_at,209310_s_at,207500_at\"/>"
    ));
    assert!(!text.contains("excluded"));
    let doc = query.document();
    assert_eq!(doc.dataset.filters.len(), 1);
    assert_eq!(
        doc.dataset.filters[0].value.as_deref(),
        Some("202763_at,209310_s_at,207500_at")
    );
    assert_eq!(doc.dataset.filters[0].exclude, None);
}

#[test]
fn boolean_filter_excluded_flags() {
    let excluded = QueryBuilder::new().filter_bool("x", false).build().to_string();
    assert!(excluded.contains("<Filter name=\"x\" excluded=\"1\"/>"));
    let included = QueryBuilder::new().filter_bool("x", true).build().to_string();
    assert!(included.contains("<Filter name=\"x\" excluded=\"0\"/>"));
}

#[test]
fn build_keeps_call_order_and_is_repeatable() {
    let mut builder = QueryBuilder::new();
    builder
        .dataset("ds")
        .attribute("a2")
        .filter_bool("f1", true)
        .attribute("a1")
        .filter("f2", vec!["v"])
        .attribute("a2")
        .filter_bool("f3", false);
    let first = builder.build().to_string();
    let second = builder.build().to_string();
    assert_eq!(first, second);
    let f1 = first.find("name=\"f1\"").unwrap();
    let f2 = first.find("name=\"f2\"").unwrap();
    let f3 = first.find("name=\"f3\"").unwrap();
    assert!(f1 < f2 && f2 < f3);
    assert!(first.contains(
        "<Attribute name=\"a2\"/><Attribute name=\"a1\"/><Attribute name=\"a2\"/></Dataset>"
    ));
    let doc = builder.build();
    let names: Vec<&str> = doc
        .document()
        .dataset
        .attributes
        .iter()
        .map(|a| a.name.as_str())
        .collect();
    assert_eq!(names, vec!["a2", "a1", "a2"]);
}

#[test]
fn build_starts_each_document_afresh() {
    let mut builder = QueryBuilder::new();
    builder.dataset("ds").attribute("a");
    let first = builder.build();
    builder.attribute("b");
    let second = builder.build();
    assert_eq!(first.document().dataset.attributes.len(), 1);
    assert_eq!(second.document().dataset.attributes.len(), 2);
}

#[test]
fn last_dataset_wins_and_mart_is_not_written() {
    let text = QueryBuilder::new()
        .mart("m1")
        .dataset("first")
        .dataset("second")
        .build()
        .to_string();
    assert!(text.contains("<Dataset name=\"second\"></Dataset>"));
    assert!(!text.contains("first"));
    assert!(!text.contains("m1"));
}

#[test]
fn empty_match_filter_has_empty_value() {
    let text = QueryBuilder::new().filter("f", vec![]).build().to_string();
    assert!(text.contains("<Filter name=\"f\" value=\"\"/>"));
}

#[test]
fn attribute_values_are_escaped() {
    let text = QueryBuilder::new()
        .dataset("a&b<c>\"d'")
        .build()
        .to_string();
    assert!(text.contains("<Dataset name=\"a&amp;b&lt;c&gt;&quot;d&apos;\">"));
}

#[test]
fn default_document_fields() {
    let doc = XmlQuery::default();
    assert_eq!(doc.virtual_schema_name, "default");
    assert!(doc.unique_rows);
    assert_eq!(doc.count, 0);
    assert_eq!(doc.dataset_config_version, "0.6");
    assert!(doc.header);
    assert_eq!(doc.formatter, "TSV");
    assert_eq!(doc.requestid, "rust-biomart");
    assert_eq!(doc.dataset.name, "");
    let q = Query::default();
    assert_eq!(q.document().dataset.filters.len(), 0);
}

#[test]
fn count_and_flags_are_written_as_numbers() {
    let mut doc = XmlQuery::default();
    doc.count = 1207;
    doc.unique_rows = false;
    doc.header = false;
    let text = doc.to_string();
    assert!(text.contains(" uniqueRows=\"0\" count=\"1207\" "));
    assert!(text.contains(" header=\"0\" "));
}
