use js_sandbox::call_compiler::{
    compile_call, file_source, with_console, CONSOLE_PRELUDE, DEFAULT_FILENAME,
};
use js_sandbox::JsError;

fn expected_wrapper(fn_name: &str, json_args: &str) -> String {
    format!(
        "(async () => {{\n\t\t\t\tlet __rust_result = {fn_name}.constructor.name === 'AsyncFunction'\n\t\t\t\t\t? await {fn_name}({json_args})\n\t\t\t\t\t: {fn_name}({json_args});\n\n\t\t\t\tif (typeof __rust_result === 'undefined')\n\t\t\t\t\t__rust_result = null;\n\n\t\t\t\tDeno.core.ops.op_return(__rust_result);\n\t\t\t}})()"
    )
}

#[test]
fn wrapper_for_triple_of_five() {
    assert_eq!(compile_call("triple", "5"), expected_wrapper("triple", "5"));
}

#[test]
fn wrapper_for_a_call_without_arguments() {
    let source = compile_call("load", "");
    assert_eq!(source, expected_wrapper("load", ""));
    assert!(source.contains("? await load()"));
    assert!(source.contains(": load();"));
}

#[test]
fn wrapper_calls_the_target_the_same_way_in_both_branches() {
    let source = compile_call("extract", "{\"num\":4},\"x\"");
    assert_eq!(source.matches("extract({\"num\":4},\"x\")").count(), 2);
    assert!(source.contains("extract.constructor.name === 'AsyncFunction'"));
}

#[test]
fn wrapper_turns_undefined_into_null_before_returning() {
    let source = compile_call("save", "\"secret\"");
    let fix = source.find("__rust_result = null;").unwrap();
    let hand_over = source.find("Deno.core.ops.op_return(__rust_result);").unwrap();
    let call = source.find(": save(\"secret\");").unwrap();
    assert!(call < fix && fix < hand_over);
    assert!(source.starts_with("(async () => {"));
    assert!(source.ends_with("})()"));
}

#[test]
fn wrapper_does_not_escape_its_parts() {
    assert_eq!(compile_call("a.b", "1);x("), expected_wrapper("a.b", "1);x("));
}

#[test]
fn literal_source_gets_the_console_prelude() {
    let source = with_console("function triple(a) { return 3 * a; }");
    assert_eq!(
        source,
        "const console = { log: function(expr) { Deno.core.print(expr + '\\n', false); } };function triple(a) { return 3 * a; }"
    );
    assert!(source.starts_with(CONSOLE_PRELUDE));
}

#[test]
fn snippets_run_under_one_filename() {
    assert_eq!(DEFAULT_FILENAME, "sandboxed.js");
}

#[test]
fn a_file_that_was_read_is_the_source_as_it_is() {
    let source = file_source(Ok("let x = 1;".to_string())).unwrap();
    assert_eq!(source, "let x = 1;");
}

#[test]
fn a_file_that_cannot_be_read_is_an_error_not_a_panic() {
    let read = Err("No such file or directory (os error 2)".to_string());
    match file_source(read) {
        Err(JsError::Runtime(message)) => {
            assert_eq!(message, "No such file or directory (os error 2)")
        }
        other => panic!("expected a runtime error, got {:?}", other),
    }
}
