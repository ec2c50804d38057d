//! The call compiler: from a function name and an encoded argument list to the
//! snippet of script source that performs the call and hands the result back
//! through the return channel.

use vstd::prelude::*;
use crate::js_error::{JsError, JsErrorView};

verus! {

/// Name under which every snippet of the bridge is handed to the engine.
pub const DEFAULT_FILENAME: &'static str = "sandboxed.js";

/// Defines the one-argument `console.log` that scripts expect and the bare
/// engine lacks.
pub const CONSOLE_PRELUDE: &'static str =
    "const console = { log: function(expr) { Deno.core.print(expr + '\\n', false); } };";

/// Opens the wrapper and starts the test for an async target.
pub const WRAPPER_OPEN: &'static str = "(async () => {\n\t\t\t\tlet __rust_result = ";

/// Follows the target's name in the test; the awaited call comes next.
pub const WRAPPER_IF_ASYNC: &'static str =
    ".constructor.name === 'AsyncFunction'\n\t\t\t\t\t? await ";

/// Separates the awaited call from the plain one.
pub const WRAPPER_ELSE: &'static str = "\n\t\t\t\t\t: ";

/// Replaces `undefined` by `null`, hands the result to the return channel and
/// invokes the wrapper.
pub const WRAPPER_CLOSE: &'static str =
    ";\n\n\t\t\t\tif (typeof __rust_result === 'undefined')\n\t\t\t\t\t__rust_result = null;\n\n\t\t\t\tDeno.core.ops.op_return(__rust_result);\n\t\t\t})()";

/// The call expression `fn_name(json_args)`.
pub open spec fn call_expression(fn_name: Seq<char>, json_args: Seq<char>) -> Seq<char> {
    fn_name + seq!['('] + json_args + seq![')']
}

/// The wrapper snippet for one call: an async arrow function, invoked at once,
/// that awaits the target if it is an async function and calls it plainly
/// otherwise, turns an `undefined` result into `null`, and passes the result
/// to the return channel.
pub open spec fn wrapper_source(fn_name: Seq<char>, json_args: Seq<char>) -> Seq<char> {
    WRAPPER_OPEN@ + fn_name + WRAPPER_IF_ASYNC@ + call_expression(fn_name, json_args)
        + WRAPPER_ELSE@ + call_expression(fn_name, json_args) + WRAPPER_CLOSE@
}

/// The source that is evaluated when a script is created from literal text:
/// the console prelude, then the text.
pub open spec fn source_with_console(js_code: Seq<char>) -> Seq<char> {
    CONSOLE_PRELUDE@ + js_code
}

/// Appends the call expression `fn_name(json_args)` to `out`.
fn push_call_expression(out: &mut String, fn_name: &str, json_args: &str)
    ensures
        final(out)@ == old(out)@ + call_expression(fn_name@, json_args@),
{
    proof {
        reveal_strlit("(");
        reveal_strlit(")");
        assert("("@ =~= seq!['(']);
        assert(")"@ =~= seq![')']);
    }
    out.append(fn_name);
    out.append("(");
    out.append(json_args);
    out.append(")");
    assert(out@ =~= old(out)@ + call_expression(fn_name@, json_args@));
}

/// Builds the wrapper snippet that calls `fn_name` with the comma-joined
/// arguments `json_args`. Neither part is escaped or checked: the name has to
/// be an identifier bound in the global scope.
pub fn compile_call(fn_name: &str, json_args: &str) -> (source: String)
    ensures
        source@ == wrapper_source(fn_name@, json_args@),
{
    let mut source = String::from_str(WRAPPER_OPEN);
    source.append(fn_name);
    source.append(WRAPPER_IF_ASYNC);
    push_call_expression(&mut source, fn_name, json_args);
    source.append(WRAPPER_ELSE);
    push_call_expression(&mut source, fn_name, json_args);
    source.append(WRAPPER_CLOSE);
    assert(source@ =~= wrapper_source(fn_name@, json_args@));
    source
}

/// Puts the console prelude in front of literal script text.
pub fn with_console(js_code: &str) -> (source: String)
    ensures
        source@ == source_with_console(js_code@),
{
    let mut source = String::from_str(CONSOLE_PRELUDE);
    source.append(js_code);
    source
}

/// The source of a script that is created from a file: what was read from
/// the file, as it is. A file that could not be read is an error of the
/// engine's kind, with the message of the failed read.
pub fn file_source(read: Result<String, String>) -> (source: Result<String, JsError>)
    ensures
        match read {
            Ok(js_code) => source matches Ok(text) && text@ == js_code@,
            Err(message) => source matches Err(e) && e@ == JsErrorView::Runtime(message@),
        },
{
    match read {
        Ok(js_code) => Ok(js_code),
        Err(message) => Err(JsError::Runtime(message)),
    }
}

} // verus!
