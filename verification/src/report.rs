//! Log-line construction for the binary's supervision points: the formatted
//! cause chain of an error, and the line reported when one of the long-lived
//! tasks exits.

use vstd::prelude::*;
use vstd::string::StringExecFns;

verus! {

/// Ghost image of a list of texts.
pub open spec fn strings_view(causes: Seq<String>) -> Seq<Seq<char>> {
    causes.map_values(|c: String| c@)
}

/// A text list and its ghost image have the same length.
pub broadcast proof fn lemma_strings_view_len(causes: Seq<String>)
    ensures
        #[trigger] strings_view(causes).len() == causes.len(),
{
}

/// The ghost image of a text list is the texts' views, index by index.
pub broadcast proof fn lemma_strings_view_index(causes: Seq<String>, i: int)
    requires
        0 <= i < causes.len(),
    ensures
        #[trigger] strings_view(causes)[i] == causes[i]@,
{
}

/// The rendered cause chain: one `Caused by:` line per cause, in order.
pub open spec fn chain_text(causes: Seq<Seq<char>>) -> Seq<char>
    decreases causes.len(),
{
    if causes.len() == 0 {
        Seq::<char>::empty()
    } else {
        chain_text(causes.drop_last()) + "Caused by: "@ + causes.last() + "\n"@
    }
}

/// Renders an error and its chain of causes, outermost first: the error's
/// own text, a blank line, then one `Caused by:` line per cause.
pub fn error_chain_fmt(error_message: &str, causes: &Vec<String>) -> (r: String)
    ensures
        r@ == error_message@ + "\n\n"@ + chain_text(strings_view(causes@)),
{
    broadcast use lemma_strings_view_len, lemma_strings_view_index;

    let mut r = error_message.to_owned();
    r.append("\n\n");
    let mut i: usize = 0;
    while i < causes.len()
        invariant
            i <= causes@.len(),
            r@ == error_message@ + "\n\n"@ + chain_text(strings_view(causes@.subrange(0, i as int))),
        decreases causes@.len() - i,
    {
        r.append("Caused by: ");
        r.append(causes[i].as_str());
        r.append("\n");
        i = i + 1;
        proof {
            let prefix = strings_view(causes@.subrange(0, i as int));
            assert(prefix.drop_last() =~= strings_view(causes@.subrange(0, i - 1)));
            assert(prefix.last() == causes@[i - 1]@);
            assert(r@ =~= error_message@ + "\n\n"@ + chain_text(prefix));
        }
    }
    proof {
        assert(causes@.subrange(0, causes@.len() as int) =~= causes@);
    }
    r
}

/// How serious a supervision log line is.
#[derive(Clone, Copy, Debug, PartialEq, Eq, Structural)]
pub enum LogLevel {
    Info,
    Error,
}

/// The log line for the exit of a supervised task. A clean exit is
/// informational; a task that finished with an error, or that could not be
/// joined at all, is reported as an error. The accompanying cause texts stay
/// with the caller's structured log fields.
pub fn report_exit(task_name: &str, outcome: &Result<Result<(), String>, String>) -> (r: (
    LogLevel,
    String,
))
    ensures
        outcome matches Ok(Ok(_)) ==> r.0 == LogLevel::Info && r.1@ == task_name@
            + " has exited"@,
        outcome matches Ok(Err(_)) ==> r.0 == LogLevel::Error && r.1@ == task_name@ + " failed"@,
        outcome is Err ==> r.0 == LogLevel::Error && r.1@ == task_name@
            + "' task failed to complete"@,
{
    match outcome {
        Ok(Ok(_)) => {
            let mut line = task_name.to_owned();
            line.append(" has exited");
            (LogLevel::Info, line)
        },
        Ok(Err(_)) => {
            let mut line = task_name.to_owned();
            line.append(" failed");
            (LogLevel::Error, line)
        },
        Err(_) => {
            let mut line = task_name.to_owned();
            line.append("' task failed to complete");
            (LogLevel::Error, line)
        },
    }
}

} // verus!
