use rust_biomart::{
    classify_status, datasets_params, decode_attributes, decode_datasets, decode_filters,
    filter_type_from_tag, filters_params, query_params, registry_params, DecodeError,
    FilterType, MartInfo, MartRegistry, Response, StatusError,
};

#[test]
fn parse_marts() {
    let data = r##"<MartRegistry>
    <MartURLLocation database="ensembl_mart_99" default="1" displayName="Ensembl Genes 99" host="www.ensembl.org" includeDatasets="" martUser="" name="ENSEMBL_MART_ENSEMBL" path="/biomart/martservice" port="80" serverVirtualSchema="default" visible="1" />
</MartRegistry>"##;
    let registry: MartRegistry = MartRegistry::from_xml(data).unwrap();
    let expected = MartRegistry {
        marts: vec![MartInfo {
            host: "www.ensembl.org".to_string(),
            port: 80,
            database: "ensembl_mart_99".to_string(),
            include_datasets: vec![],
            visible: true,
            mart_user: "".to_string(),
            default: true,
            server_virtual_schema: "default".to_string(),
            display_name: "Ensembl Genes 99".to_string(),
            path: "/biomart/martservice".to_string(),
            name: "ENSEMBL_MART_ENSEMBL".to_string(),
        }],
    };
    assert_eq!(expected, registry);
    assert_eq!(registry.marts[0].port(), 80);
    assert!(registry.marts[0].default());
    assert!(registry.marts[0].visible());
}

#[test]
fn mart_equality_compares_every_field() {
    let a = MartRegistry::from_xml(
        "<R><MartURLLocation host=\"h\" port=\"1\" database=\"d\" serverVirtualSchema=\"s\" displayName=\"n\" path=\"p\" name=\"x\" includeDatasets=\"a\"/></R>",
    )
    .unwrap();
    let b = MartRegistry::from_xml(
        "<R><MartURLLocation host=\"h\" port=\"1\" database=\"d\" serverVirtualSchema=\"s\" displayName=\"n\" path=\"p\" name=\"x\" includeDatasets=\"b\"/></R>",
    )
    .unwrap();
    assert_ne!(a, b);
    assert_eq!(a.marts[0].include_datasets(), &vec!["a".to_string()]);
}

#[test]
fn registry_lenient_and_strict_fields() {
    let data = "<MartRegistry><MartURLLocation host=\"h\" port=\"8080\" database=\"db\" serverVirtualSchema=\"s\" displayName=\"D\" path=\"/p\" name=\"N\" visible=\"maybe\" includeDatasets=\"a,b\" extra=\"x\"/><Other/></MartRegistry>";
    let registry = MartRegistry::from_xml(data).unwrap();
    assert_eq!(registry.marts.len(), 1);
    let m = &registry.marts[0];
    assert_eq!(m.port, 8080);
    assert!(!m.visible);
    assert!(!m.default);
    assert_eq!(m.mart_user, "");
    assert_eq!(m.include_datasets, vec!["a", "b"]);

    let bad_port = "<MartRegistry><MartURLLocation host=\"h\" port=\"eighty\" database=\"db\" serverVirtualSchema=\"s\" displayName=\"D\" path=\"/p\" name=\"N\"/></MartRegistry>";
    assert_eq!(
        MartRegistry::from_xml(bad_port).err(),
        Some(DecodeError::InvalidNumber)
    );
    let missing = "<MartRegistry><MartURLLocation port=\"80\" database=\"db\" serverVirtualSchema=\"s\" displayName=\"D\" path=\"/p\" name=\"N\"/></MartRegistry>";
    assert_eq!(
        MartRegistry::from_xml(missing).err(),
        Some(DecodeError::MissingField)
    );
    assert_eq!(
        MartRegistry::from_xml("<MartRegistry>").err(),
        Some(DecodeError::MalformedDocument)
    );
    let empty = MartRegistry::from_xml("<MartRegistry/>").unwrap();
    assert_eq!(empty.marts.len(), 0);
}

#[test]
fn mart_from_attributes() {
    let attrs: Vec<(String, String)> = vec![
        ("host", "h"),
        ("port", "1"),
        ("database", "d"),
        ("serverVirtualSchema", "s"),
        ("displayName", "n"),
        ("path", "p"),
        ("name", "x"),
        ("default", "true"),
        ("martUser", "u"),
    ]
    .into_iter()
    .map(|(k, v)| (k.to_string(), v.to_string()))
    .collect();
    let m = MartInfo::from_attributes(&attrs).unwrap();
    assert_eq!(m.port, 1);
    assert!(m.default);
    assert_eq!(m.mart_user, "u");
}

#[test]
fn response_header_and_rows() {
    let response = Response::new("AFFY HG U133 Plus 2 probe\tNCBI gene ID\n209310_s_at\t837\n".to_string());
    let header = response.header().unwrap();
    assert_eq!(header, vec!["AFFY HG U133 Plus 2 probe", "NCBI gene ID"]);
    assert_eq!(response.records(), vec![vec!["209310_s_at", "837"]]);
    assert_eq!(
        response.raw(),
        "AFFY HG U133 Plus 2 probe\tNCBI gene ID\n209310_s_at\t837\n"
    );
}

#[test]
fn response_drops_rows_of_another_width() {
    let response = Response::new("a\tb\n1\t2\n3\n4\t5\t6\n7\t8\n".to_string());
    assert_eq!(response.records(), vec![vec!["1", "2"], vec!["7", "8"]]);
    let empty = Response::new(String::new());
    assert_eq!(empty.header(), Some(Vec::new()));
    assert_eq!(empty.records(), Vec::<Vec<String>>::new());
}

#[test]
fn dataset_listing_drops_malformed_rows() {
    let text = "\nTableSet\thsapiens_gene_ensembl\tHuman genes (GRCh38.p13)\t1\tGRCh38.p13\t200\t40000\tdefault\t2019-11-04 12:37:31\nTableSet\tbroken\tonly three\nTableSet\tmmusculus_gene_ensembl\tMouse genes (GRCm38.p6)\t0\tGRCm38.p6\t200\t40000\tdefault\t2019-11-04 12:37:31\nTableSet\tbadflag\tx\t2\tv\t1\t2\tdefault\td\n\n";
    let datasets = decode_datasets(text);
    assert_eq!(datasets.len(), 2);
    assert_eq!(datasets[0].dataset, "hsapiens_gene_ensembl");
    assert!(datasets[0].visible);
    assert_eq!(datasets[0].unknown_1, 200);
    assert_eq!(datasets[0].unknown_2, 40000);
    assert_eq!(datasets[0].date, "2019-11-04 12:37:31");
    assert_eq!(datasets[1].dataset, "mmusculus_gene_ensembl");
    assert!(!datasets[1].visible);
    assert_eq!(decode_datasets("").len(), 0);
}

#[test]
fn filter_listing_trims_options_and_reads_kind() {
    let text = "chromosome_name\tChromosome/scaffold name\t[1,2,X]\t\tfilters\tlist\t=\tdefault\tx\nwith_go\tWith GO ID(s)\t[]\t\tfilters\tboolean\tonly,excluded\ta\tb\nshort\trow\nodd\tOdd\t[solo]\t\tfilters\tnew_kind\t=\ta\tb";
    let filters = decode_filters(text);
    assert_eq!(filters.len(), 3);
    assert_eq!(filters[0].name, "chromosome_name");
    assert_eq!(filters[0].options, vec!["1", "2", "X"]);
    assert_eq!(filters[0].kind, FilterType::List);
    assert_eq!(filters[0].operation, "=");
    assert_eq!(filters[1].options, Vec::<String>::new());
    assert_eq!(filters[1].kind, FilterType::Boolean);
    assert_eq!(filters[2].options, vec!["solo"]);
    assert_eq!(filters[2].kind, FilterType::Unknown);
}

#[test]
fn filter_kind_tags() {
    assert_eq!(filter_type_from_tag("boolean"), FilterType::Boolean);
    assert_eq!(filter_type_from_tag("boolean_list"), FilterType::BooleanList);
    assert_eq!(filter_type_from_tag("id_list"), FilterType::IdList);
    assert_eq!(filter_type_from_tag("list"), FilterType::List);
    assert_eq!(filter_type_from_tag("text"), FilterType::Text);
    assert_eq!(filter_type_from_tag("Text"), FilterType::Unknown);
    assert_eq!(filter_type_from_tag(""), FilterType::Unknown);
}

#[test]
fn attribute_listing() {
    let text = "ensembl_gene_id\tGene stable ID\tStable ID of the Gene\tfeature_page\thtml,txt,csv\tx\ty\nbad\trow\n";
    let attrs = decode_attributes(text);
    assert_eq!(attrs.len(), 1);
    assert_eq!(attrs[0].name, "ensembl_gene_id");
    assert_eq!(attrs[0].page, "feature_page");
    assert_eq!(attrs[0].formats, vec!["html", "txt", "csv"]);
}

#[test]
fn status_classes() {
    assert_eq!(classify_status(200), Ok(()));
    assert_eq!(classify_status(204), Ok(()));
    assert_eq!(classify_status(500), Err(StatusError::Server));
    assert_eq!(classify_status(503), Err(StatusError::Server));
    assert_eq!(classify_status(404), Err(StatusError::Status(404)));
    assert_eq!(classify_status(302), Err(StatusError::Status(302)));
}

fn owned(p: &[(&str, &str)]) -> Vec<(String, String)> {
    p.iter().map(|(k, v)| (k.to_string(), v.to_string())).collect()
}

#[test]
fn request_parameters() {
    assert_eq!(
        query_params("<Query/>"),
        owned(&[("requestid", "rust-biomart"), ("query", "<Query/>")])
    );
    assert_eq!(
        registry_params(),
        owned(&[("requestid", "rust-biomart"), ("type", "registry")])
    );
    assert_eq!(
        datasets_params("M"),
        owned(&[("requestid", "rust-biomart"), ("mart", "M"), ("type", "datasets")])
    );
    assert_eq!(
        filters_params("M", "D"),
        owned(&[
            ("requestid", "rust-biomart"),
            ("mart", "M"),
            ("dataset", "D"),
            ("type", "filters")
        ])
    );
}

#[test]
fn listing_text_is_trimmed_first() {
    let datasets = decode_datasets("  TableSet\tds\tdesc\t1\tv\t1\t2\tdefault\tdate  \n");
    assert_eq!(datasets.len(), 1);
    assert_eq!(datasets[0].kind(), "TableSet");
    assert_eq!(datasets[0].date(), "date");
    assert_eq!(datasets[0].unknown_2(), 2);
}
