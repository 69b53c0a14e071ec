use ades::dss::cli::{parse_args, usage_lines, CliError, Command, Invocation};
use ades::dss::json::Json;
use ades::dss::report::{
    is_accepted, nested_string_array, parse_simple_report, report_lines, str_field, ReportError,
    ValidationResult,
};
use ades::dss::request::{no_trust_policy_from_encoded, remote_document, remote_document_from_encoded, DssClient};

fn s(text: &str) -> Json {
    Json::String(text.to_string())
}

fn obj(entries: Vec<(&str, Json)>) -> Json {
    Json::Object(entries.into_iter().map(|(k, v)| (k.to_string(), v)).collect())
}

fn args(list: &[&str]) -> Vec<String> {
    list.iter().map(|a| a.to_string()).collect()
}

fn report_with(list: Json) -> Json {
    obj(vec![("SimpleReport", obj(vec![("signatureOrTimestampOrEvidenceRecord", list)]))])
}

fn sample_report() -> Json {
    report_with(Json::Array(vec![
        obj(vec![("Timestamp", obj(vec![("Indication", s("PASSED"))]))]),
        obj(vec![(
            "Signature",
            obj(vec![
                ("Indication", s("TOTAL_PASSED")),
                ("SignatureFormat", s("CAdES-BASELINE-B")),
                (
                    "AdESValidationDetails",
                    obj(vec![
                        (
                            "Error",
                            Json::Array(vec![
                                obj(vec![("value", s("e1"))]),
                                obj(vec![("other", Json::Number("1".to_string()))]),
                                obj(vec![("value", Json::Bool(true))]),
                                obj(vec![("value", s("e2"))]),
                            ]),
                        ),
                        ("Warning", Json::Array(vec![obj(vec![("value", s("w1"))])])),
                    ]),
                ),
            ]),
        )]),
        obj(vec![("Signature", obj(vec![("Indication", s("FAILED"))]))]),
    ]))
}

#[test]
fn json_get_finds_first_member() {
    let v = obj(vec![("a", s("1")), ("b", s("2")), ("a", s("3"))]);
    assert_eq!(v.get("a"), Some(&s("1")));
    assert_eq!(v.get("b"), Some(&s("2")));
    assert_eq!(v.get("c"), None);
    assert_eq!(s("x").get("a"), None);
    assert_eq!(Json::Array(vec![obj(vec![("a", Json::Null)])]).get("a"), None);
}

#[test]
fn json_as_str_and_as_array() {
    assert_eq!(s("text").as_str(), Some("text"));
    assert_eq!(Json::Number("3".to_string()).as_str(), None);
    assert_eq!(Json::Array(vec![Json::Null]).as_array(), Some(&vec![Json::Null]));
    assert_eq!(Json::Null.as_array(), None);
}

#[test]
fn parse_simple_report_reads_first_signature() {
    let r = parse_simple_report(&sample_report()).unwrap();
    assert_eq!(
        r,
        ValidationResult {
            indication: "TOTAL_PASSED".to_string(),
            sub_indication: None,
            sig_format: Some("CAdES-BASELINE-B".to_string()),
            errors: vec!["e1".to_string(), "e2".to_string()],
            warnings: vec!["w1".to_string()],
        }
    );
}

#[test]
fn parse_simple_report_defaults_indication_to_unknown() {
    let empty = report_with(Json::Array(vec![obj(vec![(
        "Signature",
        obj(vec![("Indication", s("")), ("SubIndication", s("NO_CERTIFICATE_CHAIN_FOUND"))]),
    )])]));
    let r = parse_simple_report(&empty).unwrap();
    assert_eq!(r.indication, "UNKNOWN");
    assert_eq!(r.sub_indication, Some("NO_CERTIFICATE_CHAIN_FOUND".to_string()));
    assert!(r.errors.is_empty());
    assert!(r.warnings.is_empty());

    let number = report_with(Json::Array(vec![obj(vec![(
        "Signature",
        obj(vec![("Indication", Json::Number("7".to_string()))]),
    )])]));
    assert_eq!(parse_simple_report(&number).unwrap().indication, "UNKNOWN");

    let not_an_object = report_with(Json::Array(vec![obj(vec![("Signature", Json::Null)])]));
    assert_eq!(parse_simple_report(&not_an_object).unwrap().indication, "UNKNOWN");
}

#[test]
fn parse_simple_report_missing_list() {
    assert_eq!(parse_simple_report(&Json::Null), Err(ReportError::MissingSignatureList));
    assert_eq!(parse_simple_report(&obj(vec![])), Err(ReportError::MissingSignatureList));
    assert_eq!(parse_simple_report(&report_with(obj(vec![]))), Err(ReportError::MissingSignatureList));
    assert_eq!(
        ReportError::MissingSignatureList.message(),
        "respuesta inesperada: falta SimpleReport.signatureOrTimestampOrEvidenceRecord"
    );
}

#[test]
fn parse_simple_report_no_signatures() {
    assert_eq!(parse_simple_report(&report_with(Json::Array(vec![]))), Err(ReportError::NoSignatures));
    assert_eq!(ReportError::NoSignatures.message(), "DSS no encontró ninguna firma en el documento");
}

#[test]
fn parse_simple_report_no_signature_entry() {
    let only_timestamps = report_with(Json::Array(vec![obj(vec![("Timestamp", Json::Null)]), s("x")]));
    assert_eq!(parse_simple_report(&only_timestamps), Err(ReportError::NoSignatureEntry));
    assert_eq!(ReportError::NoSignatureEntry.message(), "no Signature entry found in SimpleReport");
}

#[test]
fn str_field_skips_empty_and_non_strings() {
    let v = obj(vec![("a", s("x")), ("b", s("")), ("c", Json::Bool(false))]);
    assert_eq!(str_field(&v, "a"), Some("x"));
    assert_eq!(str_field(&v, "b"), None);
    assert_eq!(str_field(&v, "c"), None);
    assert_eq!(str_field(&v, "d"), None);
}

#[test]
fn nested_string_array_needs_an_array() {
    let v = obj(vec![("p", obj(vec![("c", s("not an array"))]))]);
    assert!(nested_string_array(&v, "p", "c").is_empty());
    assert!(nested_string_array(&v, "q", "c").is_empty());
    let w = obj(vec![("p", obj(vec![("c", Json::Array(vec![obj(vec![("value", s("v"))]), s("v2")]))]))]);
    assert_eq!(nested_string_array(&w, "p", "c"), vec!["v".to_string()]);
}

fn result_with(indication: &str) -> ValidationResult {
    ValidationResult {
        indication: indication.to_string(),
        sub_indication: None,
        sig_format: None,
        errors: vec![],
        warnings: vec![],
    }
}

#[test]
fn accepted_only_on_total_passed() {
    assert!(is_accepted(&result_with("TOTAL_PASSED")));
    assert!(!is_accepted(&result_with("PASSED")));
    assert!(!is_accepted(&result_with("INDETERMINATE")));
    assert!(!is_accepted(&result_with("TOTAL_FAILED")));
    assert!(!is_accepted(&result_with("UNKNOWN")));
}

#[test]
fn report_lines_show_every_field() {
    let r = ValidationResult {
        indication: "INDETERMINATE".to_string(),
        sub_indication: Some("NO_CERTIFICATE_CHAIN_FOUND".to_string()),
        sig_format: Some("CAdES-BASELINE-B".to_string()),
        errors: vec!["e1".to_string()],
        warnings: vec!["w1".to_string(), "w2".to_string()],
    };
    assert_eq!(
        report_lines(&r),
        vec![
            "Formato:       CAdES-BASELINE-B".to_string(),
            "Indicación:    INDETERMINATE".to_string(),
            "Sub-indicación: NO_CERTIFICATE_CHAIN_FOUND".to_string(),
            "ERROR:   e1".to_string(),
            "WARNING: w1".to_string(),
            "WARNING: w2".to_string(),
        ]
    );
    assert_eq!(report_lines(&result_with("PASSED")), vec!["Indicación:    PASSED".to_string()]);
}

#[test]
fn remote_document_encodes_bytes_in_base64() {
    assert_eq!(
        remote_document(b"hello", "a.txt"),
        obj(vec![("bytes", s("aGVsbG8=")), ("name", s("a.txt")), ("digestAlgorithm", Json::Null)])
    );
    assert_eq!(
        remote_document(b"", "empty.bin"),
        obj(vec![("bytes", s("")), ("name", s("empty.bin")), ("digestAlgorithm", Json::Null)])
    );
    assert_eq!(remote_document_from_encoded("AAEC", "x"), remote_document(&[0, 1, 2], "x"));
}

#[test]
fn policy_field_only_with_no_trust() {
    let trusting = DssClient::new("https://example.org/rest", false);
    assert_eq!(trusting.policy_field(b"<p/>"), Json::Null);
    assert!(!trusting.no_trust());
    let no_trust = DssClient::new("https://example.org/rest", true);
    assert_eq!(
        no_trust.policy_field(b"<p/>"),
        obj(vec![("bytes", s("PHAvPg==")), ("name", s("no-trust-policy.xml"))])
    );
    assert_eq!(no_trust.policy_field(b"<p/>"), no_trust_policy_from_encoded("PHAvPg=="));
    assert!(no_trust.no_trust());
}

#[test]
fn validation_url_appends_endpoint() {
    let client = DssClient::new("https://example.org/rest", false);
    assert_eq!(client.validation_url(), "https://example.org/rest/validation/validateSignature");
}

#[test]
fn cades_body_with_and_without_original() {
    let client = DssClient::new("u", false);
    let detached = client.validate_cades_body(b"sig", "signed.p7s", Some((b"abc", "original.bin")), b"");
    assert_eq!(
        detached,
        obj(vec![
            ("signedDocument", remote_document(b"sig", "signed.p7s")),
            ("policy", Json::Null),
            ("tokenExtractionStrategy", s("NONE")),
            ("originalDocuments", Json::Array(vec![remote_document(b"abc", "original.bin")])),
        ])
    );
    let enveloping = client.validate_cades_body(b"sig", "signed.p7s", None, b"");
    assert_eq!(
        enveloping,
        obj(vec![
            ("signedDocument", remote_document(b"sig", "signed.p7s")),
            ("policy", Json::Null),
            ("tokenExtractionStrategy", s("NONE")),
        ])
    );
}

#[test]
fn pades_body_carries_policy() {
    let client = DssClient::new("u", true);
    assert_eq!(
        client.validate_pades_body(b"%PDF", "signed.pdf", b"<p/>"),
        obj(vec![
            ("signedDocument", remote_document(b"%PDF", "signed.pdf")),
            ("policy", no_trust_policy_from_encoded("PHAvPg==")),
            ("tokenExtractionStrategy", s("NONE")),
        ])
    );
}

#[test]
fn parse_args_no_trust_anywhere() {
    let expected = Invocation {
        no_trust: true,
        command: Command::ValidateCades { signature: "f.p7s".to_string(), original: Some("o.txt".to_string()) },
    };
    assert_eq!(parse_args(&args(&["dss", "--no-trust", "cades", "f.p7s", "o.txt"])), Ok(expected));
    let again = parse_args(&args(&["dss", "cades", "f.p7s", "--no-trust", "o.txt"])).unwrap();
    assert!(again.no_trust);
    assert_eq!(again.command, Command::ValidateCades { signature: "f.p7s".to_string(), original: Some("o.txt".to_string()) });
    let plain = parse_args(&args(&["dss", "pades", "doc.pdf"])).unwrap();
    assert!(!plain.no_trust);
    assert_eq!(plain.command, Command::ValidatePades { document: "doc.pdf".to_string() });
}

#[test]
fn parse_args_sign_commands() {
    assert_eq!(parse_args(&args(&["dss", "sign-cades-bb"])).unwrap().command, Command::SignCadesBb { data: None });
    assert_eq!(
        parse_args(&args(&["dss", "sign-cades-t", "in.txt"])).unwrap().command,
        Command::SignCadesT { data: Some("in.txt".to_string()) }
    );
    assert_eq!(
        parse_args(&args(&["dss", "sign-pades-bb", "a.pdf"])).unwrap().command,
        Command::SignPadesBb { pdf: "a.pdf".to_string() }
    );
    assert_eq!(
        parse_args(&args(&["dss", "sign-pades-t", "a.pdf"])).unwrap().command,
        Command::SignPadesT { pdf: "a.pdf".to_string() }
    );
    assert_eq!(
        parse_args(&args(&["dss", "cades", "f.p7s"])).unwrap().command,
        Command::ValidateCades { signature: "f.p7s".to_string(), original: None }
    );
}

#[test]
fn parse_args_errors() {
    assert_eq!(parse_args(&args(&["dss"])), Err(CliError::NoCommand));
    assert_eq!(parse_args(&args(&["dss", "--no-trust"])), Err(CliError::NoCommand));
    assert_eq!(CliError::NoCommand.message(), None);
    let missing = parse_args(&args(&["dss", "sign-pades-bb"])).unwrap_err();
    assert_eq!(missing, CliError::PdfRequired("sign-pades-bb".to_string()));
    assert_eq!(missing.message(), Some("sign-pades-bb requiere un fichero PDF".to_string()));
    assert_eq!(
        parse_args(&args(&["dss", "sign-pades-t", "--no-trust"])),
        Err(CliError::PdfRequired("sign-pades-t".to_string()))
    );
    let unknown = parse_args(&args(&["dss", "verify", "x"])).unwrap_err();
    assert_eq!(unknown, CliError::UnknownCommand("verify".to_string()));
    assert_eq!(unknown.message(), Some("Comando desconocido: 'verify'".to_string()));
}

#[test]
fn default_data_for_sign_commands() {
    assert_eq!(Command::SignCadesBb { data: None }.default_data(), Some(b"hello world cades-bb".to_vec()));
    assert_eq!(Command::SignCadesT { data: None }.default_data(), Some(b"hello world cades-t".to_vec()));
    assert_eq!(Command::SignCadesBb { data: Some("f".to_string()) }.default_data(), None);
    assert_eq!(Command::SignPadesBb { pdf: "f".to_string() }.default_data(), None);
}

#[test]
fn usage_text() {
    let lines = usage_lines("dss-client");
    assert_eq!(lines.len(), 12);
    assert_eq!(lines[0], "Uso:");
    assert_eq!(lines[1], "  dss-client [--no-trust] cades <firma.p7s> [original.txt]");
    assert_eq!(lines[6], "  dss-client [--no-trust] sign-pades-t <documento.pdf>");
    assert_eq!(lines[7], "");
    assert_eq!(lines[11], "y la envían directamente a DSS para validación.");
}
