use sandbox_runner::guard::{check_code, Rejection, MAX_CODE_BYTES};
use sandbox_runner::manifest::build_manifest;
use sandbox_runner::probe::version_from_output;
use sandbox_runner::report::ProcessOutput;
use sandbox_runner::names::{
    container_name, hub_container_name, image_tag, venv_name, workspace_name,
};
use sandbox_runner::text::{chars_of, is_white_space, parse_comma_list, split_words, trim_bounds};

fn strs(v: &[&str]) -> Vec<String> {
    v.iter().map(|s| s.to_string()).collect()
}

#[test]
fn guard_accepts_plain_code() {
    assert_eq!(check_code("print(\"hello\")"), Ok(()));
}

#[test]
fn guard_accepts_code_at_the_limit() {
    let code = "a".repeat(MAX_CODE_BYTES);
    assert_eq!(check_code(&code), Ok(()));
}

#[test]
fn guard_rejects_oversized_code() {
    let code = "a".repeat(MAX_CODE_BYTES + 1);
    assert_eq!(check_code(&code), Err(Rejection::TooLarge));
}

#[test]
fn guard_rejects_oversized_code_whatever_it_holds() {
    let code = format!("import os\nos.system('ls')\n{}", "#".repeat(MAX_CODE_BYTES));
    assert_eq!(check_code(&code), Err(Rejection::TooLarge));
    assert_eq!(check_code(&code).unwrap_err().message(), "Code is too large!");
}

#[test]
fn guard_rejects_denied_substring() {
    let r = check_code("import os\nos.system('ls')\n");
    assert_eq!(r, Err(Rejection::Forbidden { pattern: "os.system".to_string() }));
    assert_eq!(
        r.unwrap_err().message(),
        "Code contains a forbidden pattern: os.system"
    );
}

#[test]
fn guard_reports_first_denied_pattern_in_list_order() {
    let r = check_code("import subprocess; import os; os.system('x')");
    assert_eq!(r, Err(Rejection::Forbidden { pattern: "os.system".to_string() }));
}

#[test]
fn guard_is_case_sensitive() {
    assert_eq!(check_code("OS.SYSTEM('ls')"), Ok(()));
}

#[test]
fn whitespace_predicate() {
    assert!(is_white_space(' '));
    assert!(is_white_space('\t'));
    assert!(is_white_space('\u{3000}'));
    assert!(!is_white_space('a'));
    assert!(!is_white_space(','));
}

#[test]
fn chars_of_keeps_order() {
    assert_eq!(chars_of("aé,b"), vec!['a', 'é', ',', 'b']);
}

#[test]
fn trim_bounds_strip_both_ends() {
    let c = chars_of("  ab c \n");
    assert_eq!(trim_bounds(&c, 0, c.len()), (2, 6));
    let blank = chars_of("   ");
    let (i, j) = trim_bounds(&blank, 0, 3);
    assert_eq!(i, j);
}

#[test]
fn comma_list_trims_drops_empty_and_duplicates() {
    assert_eq!(
        parse_comma_list(" requests, numpy ,,requests , "),
        strs(&["requests", "numpy"])
    );
}

#[test]
fn comma_list_of_empty_text_is_empty() {
    assert_eq!(parse_comma_list(""), Vec::<String>::new());
    assert_eq!(parse_comma_list(" , ,"), Vec::<String>::new());
}

#[test]
fn split_words_drops_whitespace() {
    assert_eq!(split_words("abc123\n def456\n"), strs(&["abc123", "def456"]));
    assert_eq!(split_words(" \n"), Vec::<String>::new());
}

#[test]
fn manifest_with_one_dependency() {
    assert_eq!(
        build_manifest(&strs(&["requests"])),
        "FROM python:3.9-slim\nWORKDIR /app\nCOPY script.py /app/\nRUN pip install --no-cache-dir requests\nCMD [\"python\", \"script.py\"]"
    );
}

#[test]
fn manifest_without_dependencies_has_no_install_layer() {
    let m = build_manifest(&Vec::new());
    assert_eq!(
        m,
        "FROM python:3.9-slim\nWORKDIR /app\nCOPY script.py /app/\nCMD [\"python\", \"script.py\"]"
    );
    assert!(!m.contains("RUN"));
}

#[test]
fn manifest_joins_dependencies_with_spaces() {
    let m = build_manifest(&strs(&["requests", "numpy"]));
    assert!(m.contains("\nRUN pip install --no-cache-dir requests numpy\n"));
}

#[test]
fn names_carry_the_identifier() {
    assert_eq!(image_tag("abc"), "python-runner-abc");
    assert_eq!(container_name("abc"), "runner-abc");
    assert_eq!(hub_container_name("abc"), "hub-runner-abc");
    assert_eq!(workspace_name("abc"), "run_abc");
    assert_eq!(venv_name("abc"), "venv_abc");
}

#[test]
fn distinct_identifiers_give_distinct_names() {
    assert_ne!(image_tag("a1"), image_tag("a2"));
    assert_ne!(container_name("a1"), container_name("a2"));
    assert_ne!(workspace_name("a1"), workspace_name("a2"));
    assert_ne!(venv_name("a1"), venv_name("a2"));
    assert_ne!(hub_container_name("a1"), hub_container_name("a2"));
}

#[test]
fn version_is_trimmed_output_of_a_clean_run() {
    let ok = ProcessOutput {
        success: true,
        stdout: "Python 3.11.4\n".to_string(),
        stderr: String::new(),
    };
    assert_eq!(version_from_output(&ok), Some("Python 3.11.4".to_string()));
    let failed = ProcessOutput { success: false, stdout: "x".to_string(), stderr: String::new() };
    assert_eq!(version_from_output(&failed), None);
}
