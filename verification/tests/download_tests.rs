use dhref::download::{collect_failures, output_path};
use dhref::errors::CrateError;

#[test]
fn output_path_takes_the_final_segment() {
    assert_eq!(output_path("http://host/dir/a.pdf", "./"), "./a.pdf");
    assert_eq!(output_path("http://host/deep/b.csv", "out/"), "out/b.csv");
}

#[test]
fn output_path_without_slash_takes_the_whole_url() {
    assert_eq!(output_path("plainname", "out/"), "out/plainname");
}

#[test]
fn output_path_keeps_query_string_verbatim() {
    assert_eq!(
        output_path("http://h/f.pdf?v=2", "./"),
        "./f.pdf?v=2"
    );
}

#[test]
fn output_path_of_trailing_slash_is_the_directory_itself() {
    assert_eq!(output_path("http://host/dir/", "out/"), "out/");
}

#[test]
fn output_path_is_deterministic_across_reruns() {
    let first = output_path("http://host/a.pdf", "./");
    let second = output_path("http://host/a.pdf", "./");
    assert_eq!(first, second);
}

#[test]
fn one_failure_among_many_reports_exactly_one_diagnostic() {
    let results: Vec<Result<(), CrateError>> = vec![
        Ok(()),
        Err(CrateError::HttpReqError("unreachable host".to_string())),
        Ok(()),
        Ok(()),
    ];
    let failures = collect_failures(&results);
    assert_eq!(failures.len(), 1);
    assert_eq!(
        failures[0],
        CrateError::HttpReqError("unreachable host".to_string())
    );
}

#[test]
fn all_successes_report_nothing() {
    let results: Vec<Result<(), CrateError>> = vec![Ok(()), Ok(())];
    assert_eq!(collect_failures(&results), vec![]);
}

#[test]
fn failures_keep_their_order() {
    let results: Vec<Result<(), CrateError>> = vec![
        Err(CrateError::IoError("disk full".to_string())),
        Ok(()),
        Err(CrateError::HttpReqError("timed out".to_string())),
    ];
    let failures = collect_failures(&results);
    assert_eq!(
        failures,
        vec![
            CrateError::IoError("disk full".to_string()),
            CrateError::HttpReqError("timed out".to_string()),
        ]
    );
}
