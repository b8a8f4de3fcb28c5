use verge_core::outcome::ValidationOutcome;
use verge_core::text::{dec_i32_string, dec_u64_string, str_eq};
use verge_core::validate::{
    classify_config_file, core_check_verdict, file_not_found_outcome, is_script_file,
    script_read_error, validate_script_file, ConfigFileClass,
};

#[test]
fn test_validate_script_file() {
    let valid = r#"
        // This is a test script
        function main(config) {
            console.log("Testing script");
            return config;
        }
        "#;
    let result = validate_script_file(valid);
    assert!(result.passed, "a well-formed script with main must pass");
    assert_eq!(result.diagnostic, "");

    let invalid = r#"
        // This is an invalid script
        function main(config {  // Missing closing parenthesis
            console.log("Testing script");
            return config;
        }
        "#;
    let result = validate_script_file(invalid);
    assert!(!result.passed, "a malformed script must fail");
    assert!(
        result.diagnostic.starts_with("Script syntax error: "),
        "a malformed script must report a syntax error, got: {}",
        result.diagnostic
    );

    let no_main = r#"
        // This script has no main function
        function helper(config) {
            console.log("Testing script");
            return config;
        }
        "#;
    let result = validate_script_file(no_main);
    assert!(!result.passed, "a script without main must fail");
    assert_eq!(result.diagnostic, "Script must contain a main function");
}

#[test]
fn script_main_as_const_or_let_passes() {
    let r = validate_script_file("const main = (config) => config;");
    assert!(r.passed);
    let r = validate_script_file("let main = function (config) { return config; };");
    assert!(r.passed);
}

#[test]
fn core_check_pass_has_empty_diagnostic() {
    let r = core_check_verdict(true, Some(0), "all good", "warning: minor");
    assert!(r.passed);
    assert_eq!(r.diagnostic, "");
}

#[test]
fn core_check_nonzero_exit_prefers_stdout() {
    let r = core_check_verdict(false, Some(1), "configuration test failed", "some stderr");
    assert!(!r.passed);
    assert_eq!(r.diagnostic, "configuration test failed");
}

#[test]
fn core_check_fatal_marker_fails_even_on_success_exit() {
    let r = core_check_verdict(true, Some(0), "", "time=x level=fatal msg=bad rule");
    assert!(!r.passed);
    assert_eq!(r.diagnostic, "time=x level=fatal msg=bad rule");
    let r = core_check_verdict(true, Some(0), "", "FATA[0000] Parse config error");
    assert!(!r.passed);
}

#[test]
fn core_check_synthesizes_exit_code_message() {
    let r = core_check_verdict(false, Some(3), "", "");
    assert!(!r.passed);
    assert_eq!(r.diagnostic, "验证进程异常退出，退出码: 3");
    let r = core_check_verdict(false, Some(-42), "", "");
    assert_eq!(r.diagnostic, "验证进程异常退出，退出码: -42");
}

#[test]
fn core_check_synthesizes_termination_message() {
    let r = core_check_verdict(false, None, "", "");
    assert!(!r.passed);
    assert_eq!(r.diagnostic, "验证进程被终止");
}

#[test]
fn decimal_rendering_is_exact() {
    assert_eq!(dec_u64_string(0), "0");
    assert_eq!(dec_u64_string(10), "10");
    assert_eq!(dec_u64_string(90210), "90210");
    assert_eq!(dec_i32_string(0), "0");
    assert_eq!(dec_i32_string(-1), "-1");
    assert_eq!(dec_i32_string(i32::MIN), "-2147483648");
    assert_eq!(dec_i32_string(i32::MAX), "2147483647");
}

#[test]
fn classify_missing_file_short_circuits() {
    let c = classify_config_file("/tmp/nope.yaml", false, None);
    assert!(matches!(c, ConfigFileClass::NotFound));
    let o = file_not_found_outcome("/tmp/nope.yaml");
    assert!(!o.passed);
    assert_eq!(o.diagnostic, "File not found: /tmp/nope.yaml");
}

#[test]
fn classify_js_extension_is_script() {
    let c = classify_config_file("profile.js", true, None);
    assert!(matches!(c, ConfigFileClass::Script));
}

#[test]
fn classify_sniffs_script_tokens() {
    let content = String::from("// generated profile\nport: 7890\n");
    let c = classify_config_file("profile.yaml", true, Some(&content));
    assert!(matches!(c, ConfigFileClass::Script));
    let content = String::from("port: 7890\nmode: rule\n");
    let c = classify_config_file("profile.yaml", true, Some(&content));
    assert!(matches!(c, ConfigFileClass::CoreCheck));
}

#[test]
fn classify_unreadable_content_falls_back_to_core_check() {
    let c = classify_config_file("profile.yaml", true, None);
    assert!(matches!(c, ConfigFileClass::CoreCheck));
}

#[test]
fn sniffing_reads_only_the_first_five_lines() {
    let early = "function x() {}\na\nb\nc\nd\ne";
    assert!(is_script_file(early));
    let late = "a\nb\nc\nd\ne\nfunction x() {}";
    assert!(!is_script_file(late));
    let fifth = "a\nb\nc\nd\nconst x = 1;\nz";
    assert!(is_script_file(fifth));
}

#[test]
fn script_read_error_names_the_cause() {
    let o = script_read_error("permission denied");
    assert!(!o.passed);
    assert_eq!(o.diagnostic, "Failed to read script file: permission denied");
}

#[test]
fn outcome_constructors_respect_well_formedness() {
    let p = ValidationOutcome::pass();
    assert!(p.passed);
    assert_eq!(p.diagnostic, "");
    let f = ValidationOutcome::fail(String::from("broken"));
    assert!(!f.passed);
    assert_eq!(f.diagnostic, "broken");
}

#[test]
fn str_eq_compares_contents() {
    assert!(str_eq("verge-mihomo", "verge-mihomo"));
    assert!(!str_eq("verge-mihomo", "verge-mihomo-alpha"));
}
