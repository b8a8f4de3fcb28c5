//! The validation engine: decides whether a candidate configuration passes,
//! from the output of the engine binary's check mode or by evaluating an
//! embedded script, and routes a file to the right checker.
use vstd::prelude::*;
use vstd::string::*;
use crate::outcome::{outcome_wf, ValidationOutcome};
use crate::text::{
    chars_of, contains_chars, contains_seq, dec_i32_string, dec_int, ends_with_chars,
    ends_with_seq, first_lines, lemma_dec_nat_nonempty, starts_with_seq, take_first_lines,
};

verus! {

/// The engine's stderr reports a fatal condition: it holds one of the fixed
/// fatal-error markers.
pub open spec fn has_fatal_marker(stderr: Seq<char>) -> bool {
    ||| contains_seq(stderr, "FATA"@)
    ||| contains_seq(stderr, "fatal"@)
    ||| contains_seq(stderr, "Parse config error"@)
    ||| contains_seq(stderr, "level=fatal"@)
}

/// The engine-binary check failed: the process did not exit successfully, or
/// its stderr holds a fatal marker.
pub open spec fn core_check_failed(exit_success: bool, stderr: Seq<char>) -> bool {
    !exit_success || has_fatal_marker(stderr)
}

/// The synthesized diagnostic when the check process produced no output:
/// names the exit code, or reports that the process was terminated.
pub open spec fn exit_diag(exit_code: Option<i32>) -> Seq<char> {
    match exit_code {
        Some(c) => "验证进程异常退出，退出码: "@ + dec_int(c as int),
        None => "验证进程被终止"@,
    }
}

/// The diagnostic of a failed engine-binary check: non-empty stdout, else
/// non-empty stderr, else a synthesized message about the exit status.
pub open spec fn core_check_diag(stdout: Seq<char>, stderr: Seq<char>, exit_code: Option<
    i32,
>) -> Seq<char> {
    if stdout.len() > 0 {
        stdout
    } else if stderr.len() > 0 {
        stderr
    } else {
        exit_diag(exit_code)
    }
}

/// Whether the engine's stderr holds any of the fixed fatal-error markers.
pub fn stderr_has_fatal_marker(stderr: &str) -> (r: bool)
    ensures
        r == has_fatal_marker(stderr@),
{
    let hay = chars_of(stderr);
    let m1 = chars_of("FATA");
    let m2 = chars_of("fatal");
    let m3 = chars_of("Parse config error");
    let m4 = chars_of("level=fatal");
    let r1 = contains_chars(&hay, &m1);
    let r2 = contains_chars(&hay, &m2);
    let r3 = contains_chars(&hay, &m3);
    let r4 = contains_chars(&hay, &m4);
    r1 || r2 || r3 || r4
}

/// The verdict of an engine-binary check run, from the exit status and the
/// captured output of the check process.
pub fn core_check_verdict(exit_success: bool, exit_code: Option<i32>, stdout: &str, stderr: &str) -> (
    r: ValidationOutcome)
    ensures
        r.passed == !core_check_failed(exit_success, stderr@),
        r.passed ==> r.diagnostic@.len() == 0,
        !r.passed ==> r.diagnostic@ == core_check_diag(stdout@, stderr@, exit_code),
        outcome_wf(&r),
{
    let failed = !exit_success || stderr_has_fatal_marker(stderr);
    if !failed {
        return ValidationOutcome::pass();
    }
    if stdout.unicode_len() > 0 {
        return ValidationOutcome::fail(String::from_str(stdout));
    }
    if stderr.unicode_len() > 0 {
        return ValidationOutcome::fail(String::from_str(stderr));
    }
    match exit_code {
        Some(c) => {
            let mut msg = String::from_str("验证进程异常退出，退出码: ");
            proof {
                reveal_strlit("验证进程异常退出，退出码: ");
            }
            let digits = dec_i32_string(c);
            msg.append(digits.as_str());
            proof {
                lemma_dec_nat_nonempty(if c < 0 {
                    (-(c as int)) as nat
                } else {
                    c as nat
                });
            }
            ValidationOutcome::fail(msg)
        },
        None => {
            proof {
                reveal_strlit("验证进程被终止");
            }
            ValidationOutcome::fail(String::from_str("验证进程被终止"))
        },
    }
}

/// The script source defines a `main` entry point: a function declaration or
/// a `const`/`let` binding named `main`.
pub open spec fn has_main_def(source: Seq<char>) -> bool {
    ||| contains_seq(source, "function main"@)
    ||| contains_seq(source, "const main"@)
    ||| contains_seq(source, "let main"@)
}

/// Whether the script source defines a `main` entry point.
pub fn script_has_main(source: &str) -> (r: bool)
    ensures
        r == has_main_def(source@),
{
    let hay = chars_of(source);
    let m1 = chars_of("function main");
    let m2 = chars_of("const main");
    let m3 = chars_of("let main");
    let r1 = contains_chars(&hay, &m1);
    let r2 = contains_chars(&hay, &m2);
    let r3 = contains_chars(&hay, &m3);
    r1 || r2 || r3
}

/// Relies on `boa_engine::Context::eval` over `boa_engine::Source::from_bytes`:
/// parses and evaluates the script source with the embedded ECMAScript
/// interpreter, returning `None` on success and the error's rendering on a
/// parse or evaluation failure. Nothing is assumed of the result: a script
/// may observe time or randomness, so two evaluations of one source need not
/// agree.
#[verifier::external_body]
fn eval_script_source(source: &str) -> (r: Option<String>) {
    let mut context = boa_engine::Context::default();
    match context.eval(boa_engine::Source::from_bytes(source)) {
        Ok(_) => None,
        Err(e) => Some(e.to_string()),
    }
}

/// The diagnostic reported for a script that failed to parse or evaluate.
pub open spec fn syntax_error_diag(err: Seq<char>) -> Seq<char> {
    "Script syntax error: "@ + err
}

/// The diagnostic is a syntax-error report.
pub open spec fn is_syntax_error_diag(diag: Seq<char>) -> bool {
    starts_with_seq(diag, "Script syntax error: "@)
}

/// The script verdict for a given evaluation result: an evaluation error is a
/// syntax failure, a clean evaluation still fails when no `main` entry point
/// is defined, and passes otherwise.
pub fn script_verdict(eval_error: Option<String>, source: &str) -> (r: ValidationOutcome)
    ensures
        eval_error matches Some(e) ==> !r.passed && r.diagnostic@ == syntax_error_diag(e@),
        eval_error is None && !has_main_def(source@) ==> !r.passed && r.diagnostic@
            == "Script must contain a main function"@,
        eval_error is None && has_main_def(source@) ==> r.passed && r.diagnostic@.len() == 0,
        outcome_wf(&r),
{
    match eval_error {
        Some(e) => {
            let mut msg = String::from_str("Script syntax error: ");
            proof {
                reveal_strlit("Script syntax error: ");
            }
            msg.append(e.as_str());
            ValidationOutcome::fail(msg)
        },
        None => {
            if !script_has_main(source) {
                proof {
                    reveal_strlit("Script must contain a main function");
                }
                ValidationOutcome::fail(String::from_str("Script must contain a main function"))
            } else {
                ValidationOutcome::pass()
            }
        },
    }
}

/// Validates a script source: evaluates it with the embedded interpreter and
/// then requires a `main` entry point. Whatever the interpreter reports, a
/// pass implies the entry point is present, and every failure carries a
/// non-empty diagnostic that names its cause.
pub fn validate_script_file(source: &str) -> (r: ValidationOutcome)
    ensures
        r.passed ==> has_main_def(source@) && r.diagnostic@.len() == 0,
        !has_main_def(source@) ==> !r.passed,
        !r.passed && has_main_def(source@) ==> is_syntax_error_diag(r.diagnostic@),
        !r.passed && !has_main_def(source@) ==> is_syntax_error_diag(r.diagnostic@)
            || r.diagnostic@ == "Script must contain a main function"@,
        outcome_wf(&r),
{
    let eval_error = eval_script_source(source);
    let ghost had_err = eval_error is Some;
    let ghost errv: Seq<char> = match &eval_error {
        Some(e) => e@,
        None => Seq::empty(),
    };
    let r = script_verdict(eval_error, source);
    proof {
        if had_err {
            assert(r.diagnostic@ == syntax_error_diag(errv));
            assert(r.diagnostic@.subrange(0, "Script syntax error: "@.len() as int)
                =~= "Script syntax error: "@);
        }
    }
    r
}

/// The diagnostic reported when a script file could not be read.
pub fn script_read_error(err: &str) -> (r: ValidationOutcome)
    ensures
        !r.passed,
        r.diagnostic@ == "Failed to read script file: "@ + err@,
        outcome_wf(&r),
{
    let mut msg = String::from_str("Failed to read script file: ");
    proof {
        reveal_strlit("Failed to read script file: ");
    }
    msg.append(err);
    ValidationOutcome::fail(msg)
}

/// The failure reported for a path that does not exist, before any dispatch.
pub fn file_not_found_outcome(path: &str) -> (r: ValidationOutcome)
    ensures
        !r.passed,
        r.diagnostic@ == "File not found: "@ + path@,
        outcome_wf(&r),
{
    let mut msg = String::from_str("File not found: ");
    proof {
        reveal_strlit("File not found: ");
    }
    msg.append(path);
    ValidationOutcome::fail(msg)
}

/// The sniffed region of a candidate file holds a script-like token.
pub open spec fn sniff_is_script(region: Seq<char>) -> bool {
    ||| contains_seq(region, "function"@)
    ||| contains_seq(region, "//"@)
    ||| contains_seq(region, "/*"@)
    ||| contains_seq(region, "import"@)
    ||| contains_seq(region, "export"@)
    ||| contains_seq(region, "const "@)
    ||| contains_seq(region, "let "@)
}

/// Content sniffing: whether the first few lines of the file look like a
/// script.
pub fn is_script_file(content: &str) -> (r: bool)
    ensures
        r == sniff_is_script(first_lines(content@, 5)),
{
    let all = chars_of(content);
    let region = take_first_lines(&all, 5);
    let m1 = chars_of("function");
    let m2 = chars_of("//");
    let m3 = chars_of("/*");
    let m4 = chars_of("import");
    let m5 = chars_of("export");
    let m6 = chars_of("const ");
    let m7 = chars_of("let ");
    let r1 = contains_chars(&region, &m1);
    let r2 = contains_chars(&region, &m2);
    let r3 = contains_chars(&region, &m3);
    let r4 = contains_chars(&region, &m4);
    let r5 = contains_chars(&region, &m5);
    let r6 = contains_chars(&region, &m6);
    let r7 = contains_chars(&region, &m7);
    r1 || r2 || r3 || r4 || r5 || r6 || r7
}

/// How a candidate configuration file is to be checked.
pub enum ConfigFileClass {
    /// The path does not exist: fail immediately.
    NotFound,
    /// Validate by evaluating the file as a script.
    Script,
    /// Validate by running the engine binary in check mode.
    CoreCheck,
}

/// Routes a candidate file to a checker: a missing file short-circuits, a
/// `.js` extension or script-like content selects script validation, and
/// everything else — including a file whose content could not be read for
/// sniffing — falls back to the engine-binary check.
pub fn classify_config_file(path: &str, exists: bool, content: Option<&String>) -> (c:
    ConfigFileClass)
    ensures
        !exists ==> c is NotFound,
        exists && ends_with_seq(path@, ".js"@) ==> c is Script,
        exists && !ends_with_seq(path@, ".js"@) && (content matches Some(s) && sniff_is_script(
            first_lines(s@, 5),
        )) ==> c is Script,
        exists && !ends_with_seq(path@, ".js"@) && (content matches Some(s) && !sniff_is_script(
            first_lines(s@, 5),
        )) ==> c is CoreCheck,
        exists && !ends_with_seq(path@, ".js"@) && content is None ==> c is CoreCheck,
{
    if !exists {
        return ConfigFileClass::NotFound;
    }
    let p = chars_of(path);
    let suffix = chars_of(".js");
    if ends_with_chars(&p, &suffix) {
        return ConfigFileClass::Script;
    }
    match content {
        Some(s) => {
            if is_script_file(s.as_str()) {
                ConfigFileClass::Script
            } else {
                ConfigFileClass::CoreCheck
            }
        },
        None => ConfigFileClass::CoreCheck,
    }
}

} // verus!
