//! The three commands of the bridge, as decisions over what the host observed.
use vstd::prelude::*;
use vstd::string::StringExecFns;
use crate::outside::{json_of, lossy_text, parse_json, utf8_lossy};

verus! {

/// A request to run `program` with `args`, in this order.
pub struct Invocation {
    pub program: String,
    pub args: Vec<String>,
}

/// What a process that ran to its end left behind.
pub struct ProcessOutput {
    pub success: bool,
    pub stdout: Vec<u8>,
    pub stderr: Vec<u8>,
}

/// How an attempt to run an invocation ended: the system could not start the
/// process (with its description of why), or the process exited.
pub enum Launch {
    Failed(String),
    Exited(ProcessOutput),
}

/// The interpreter that runs every script.
pub open spec fn interpreter() -> Seq<char> {
    "python"@
}

pub open spec fn not_found_message(script_path: Seq<char>) -> Seq<char> {
    "Python script not found at: "@ + script_path
}

pub open spec fn launch_failure_message(os_message: Seq<char>) -> Seq<char> {
    "Failed to execute Python script: "@ + os_message
}

pub open spec fn parse_failure_message() -> Seq<char> {
    "Failed to parse student info as JSON"@
}

pub open spec fn captured_message() -> Seq<char> {
    "Session captured successfully!"@
}

/// The error for a process that exited with a failure status, given the text
/// of its standard error.
pub open spec fn script_error_message(stderr: Seq<char>) -> Seq<char> {
    "Python script error: "@ + if stderr.len() == 0 { "Unknown error"@ } else { stderr }
}

/// `inv` runs the interpreter on the script, with the data path after it.
pub open spec fn runs_script(inv: Invocation, script_path: Seq<char>, data_path: Seq<char>) -> bool {
    &&& inv.program@ == interpreter()
    &&& inv.args@.len() == 2
    &&& inv.args@[0]@ == script_path
    &&& inv.args@[1]@ == data_path
}

/// The error that both commands give for a launch that did not succeed, if any.
pub open spec fn failure_of(launch: Launch) -> Option<Seq<char>> {
    match launch {
        Launch::Failed(m) => Some(launch_failure_message(m@)),
        Launch::Exited(o) => if o.success {
            None
        } else {
            Some(script_error_message(utf8_lossy(o.stderr@)))
        },
    }
}

/// What fetching structured info yields for a launch.
pub open spec fn structured_info_of(launch: Launch) -> Result<serde_json::Value, Seq<char>> {
    match failure_of(launch) {
        Some(e) => Err(e),
        None => match launch {
            Launch::Exited(o) => match json_of(utf8_lossy(o.stdout@)) {
                Some(v) => Ok(v),
                None => Err(parse_failure_message()),
            },
            Launch::Failed(m) => Err(launch_failure_message(m@)),
        },
    }
}

/// What capturing a session yields for a launch.
pub open spec fn capture_of(launch: Launch) -> Result<Seq<char>, Seq<char>> {
    match failure_of(launch) {
        Some(e) => Err(e),
        None => match launch {
            Launch::Exited(o) => if utf8_lossy(o.stdout@).len() == 0 {
                Ok(captured_message())
            } else {
                Ok(utf8_lossy(o.stdout@))
            },
            Launch::Failed(m) => Err(launch_failure_message(m@)),
        },
    }
}

/// A result with its error text seen as characters.
pub open spec fn error_view<T>(r: Result<T, String>) -> Result<T, Seq<char>> {
    match r {
        Ok(v) => Ok(v),
        Err(e) => Err(e@),
    }
}

/// A text result seen as characters on both sides.
pub open spec fn text_view(r: Result<String, String>) -> Result<Seq<char>, Seq<char>> {
    match r {
        Ok(v) => Ok(v@),
        Err(e) => Err(e@),
    }
}

/// A run that exits with a failure status gives both commands one and the same
/// error: the standard-error text after a fixed prefix, or the fallback phrase
/// "Unknown error" where that text is empty.
pub proof fn lemma_failed_run_reports_stderr(o: ProcessOutput)
    requires
        !o.success,
    ensures
        structured_info_of(Launch::Exited(o)) == Err::<serde_json::Value, Seq<char>>(
            script_error_message(utf8_lossy(o.stderr@)),
        ),
        capture_of(Launch::Exited(o)) == Err::<Seq<char>, Seq<char>>(
            script_error_message(utf8_lossy(o.stderr@)),
        ),
        ({
            let t = utf8_lossy(o.stderr@);
            let m = script_error_message(t);
            &&& t.len() > 0 ==> m.subrange(m.len() - t.len(), m.len() as int) == t
            &&& t.len() == 0 ==> m.subrange(m.len() - 13, m.len() as int) == "Unknown error"@
        }),
{
    reveal_strlit("Unknown error");
    reveal_strlit("Python script error: ");
    let t = utf8_lossy(o.stderr@);
    let m = script_error_message(t);
    if t.len() > 0 {
        assert(m.subrange(m.len() - t.len(), m.len() as int) =~= t);
    } else {
        assert(m.subrange(m.len() - 13, m.len() as int) =~= "Unknown error"@);
    }
}

fn concat_text(prefix: &str, rest: &str) -> (r: String)
    ensures
        r@ == prefix@ + rest@,
{
    let mut s = String::from_str(prefix);
    s.append(rest);
    s
}

/// Decides whether the script may be run. Where it exists, the result is the
/// invocation of the interpreter on the script and the data path; where it does
/// not, the error names the path, and no invocation is handed out to run.
pub fn prepare(script_path: &str, data_path: &str, script_exists: bool) -> (r: Result<Invocation, String>)
    ensures
        script_exists <==> r is Ok,
        r matches Ok(inv) ==> runs_script(inv, script_path@, data_path@),
        r matches Err(e) ==> e@ == not_found_message(script_path@),
{
    if !script_exists {
        return Err(concat_text("Python script not found at: ", script_path));
    }
    let mut args: Vec<String> = Vec::new();
    args.push(String::from_str(script_path));
    args.push(String::from_str(data_path));
    Ok(Invocation { program: String::from_str("python"), args })
}

/// The error for a process that could not be started, with the system's reason.
pub fn launch_error(os_message: &str) -> (r: String)
    ensures
        r@ == launch_failure_message(os_message@),
{
    concat_text("Failed to execute Python script: ", os_message)
}

/// The error for a process that exited with a failure status.
pub fn script_error(stderr: &Vec<u8>) -> (r: String)
    ensures
        r@ == script_error_message(utf8_lossy(stderr@)),
{
    let text = lossy_text(stderr);
    if text.as_str().is_empty() {
        concat_text("Python script error: ", "Unknown error")
    } else {
        concat_text("Python script error: ", text.as_str())
    }
}

/// Fetches structured info: the standard output of a successful run, decoded
/// as a JSON document.
pub fn fetch_student_info(launch: &Launch) -> (r: Result<serde_json::Value, String>)
    ensures
        error_view(r) == structured_info_of(*launch),
{
    match launch {
        Launch::Failed(m) => Err(launch_error(m.as_str())),
        Launch::Exited(o) => {
            if o.success {
                let text = lossy_text(&o.stdout);
                match parse_json(text.as_str()) {
                    Ok(v) => Ok(v),
                    Err(_) => Err(String::from_str("Failed to parse student info as JSON")),
                }
            } else {
                Err(script_error(&o.stderr))
            }
        },
    }
}

/// Captures a session: the standard output of a successful run as text, or a
/// fixed phrase where the run printed nothing.
pub fn capture_session(launch: &Launch) -> (r: Result<String, String>)
    ensures
        text_view(r) == capture_of(*launch),
{
    match launch {
        Launch::Failed(m) => Err(launch_error(m.as_str())),
        Launch::Exited(o) => {
            if o.success {
                let text = lossy_text(&o.stdout);
                if text.as_str().is_empty() {
                    Ok(String::from_str("Session captured successfully!"))
                } else {
                    Ok(text)
                }
            } else {
                Err(script_error(&o.stderr))
            }
        },
    }
}

/// The soft existence check: a lookup that succeeded means the entry is there,
/// and any failure of the lookup, whatever its cause, means it is not. It never
/// fails.
pub fn check_session_file<T, E>(lookup: &Result<T, E>) -> (r: Result<bool, String>)
    ensures
        r == Ok::<bool, String>(lookup is Ok),
{
    match lookup {
        Ok(_) => Ok(true),
        Err(_) => Ok(false),
    }
}

} // verus!
