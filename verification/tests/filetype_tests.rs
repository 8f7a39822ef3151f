use dhref::errors::CrateError;
use dhref::filetype::FileType;

#[test]
fn tokens_map_to_their_variants() {
    assert_eq!(FileType::from("pdf"), FileType::Pdf);
    assert_eq!(FileType::from("doc"), FileType::Doc);
    assert_eq!(FileType::from("docx"), FileType::Docx);
    assert_eq!(FileType::from("xlsx"), FileType::Xlsx);
    assert_eq!(FileType::from("ppt"), FileType::Ppt);
    assert_eq!(FileType::from("pptx"), FileType::Pptx);
    assert_eq!(FileType::from("csv"), FileType::Csv);
}

#[test]
fn unrecognized_token_falls_back_to_all() {
    assert_eq!(FileType::from(""), FileType::All);
    assert_eq!(FileType::from("pdff"), FileType::All);
    assert_eq!(FileType::from("PDF"), FileType::All);
    assert_eq!(FileType::from("zip"), FileType::All);
}

#[test]
fn default_filter_matches_anything_with_a_dot() {
    assert_eq!(FileType::default(), FileType::All);
}

#[test]
fn each_variant_has_its_literal_suffix() {
    assert_eq!(FileType::Pdf.suffix(), ".pdf");
    assert_eq!(FileType::Doc.suffix(), ".doc");
    assert_eq!(FileType::Docx.suffix(), ".docx");
    assert_eq!(FileType::Xlsx.suffix(), ".xlsx");
    assert_eq!(FileType::Csv.suffix(), ".csv");
    assert_eq!(FileType::Ppt.suffix(), ".ppt");
    assert_eq!(FileType::Pptx.suffix(), ".pptx");
    assert_eq!(FileType::All.suffix(), "");
}

#[test]
fn error_descriptions_are_exact() {
    assert_eq!(
        CrateError::IoError("boom".to_string()).describe(),
        "Io Error: boom!"
    );
    assert_eq!(
        CrateError::HttpReqError("nope".to_string()).describe(),
        "Http Request Error: nope!"
    );
    assert_eq!(CrateError::URLFormatError.describe(), "URL Format Error!");
}

#[test]
fn errors_compare_by_variant_and_detail() {
    assert_eq!(
        CrateError::IoError("a".to_string()),
        CrateError::IoError("a".to_string())
    );
    assert_ne!(
        CrateError::IoError("a".to_string()),
        CrateError::IoError("b".to_string())
    );
    assert_ne!(
        CrateError::IoError("a".to_string()),
        CrateError::HttpReqError("a".to_string())
    );
    let e = CrateError::HttpReqError("x".to_string());
    assert_eq!(e.clone(), e);
}
