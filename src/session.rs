//! The decision step of an interactive session: one input line in, one
//! line of output and the decision whether to stop out, with the store
//! updated on the way.
use vstd::prelude::*;
use vstd::string::StringExecFns;
use crate::command::{parse_input, parse_model, result_view, Command, CommandModel};
use crate::errors::{error_message, DBError, ErrorModel};
use crate::store::{get, lookup, Store};
use crate::text::{lemma_blank, to_upper, trim, trimmed, upper_of, white_space};

verus! {

/// The acknowledgement of a successful `SET`.
pub const SET_SUCCESS: &'static str = "SET SUCCESS";

/// The acknowledgement of `EXIT`.
pub const SHUTDOWN: &'static str = "EXIT command received, shutting down...";

/// What a rendered parse error starts with.
pub const ERROR_PREFIX: &'static str = "Error: ";

/// What one line of input yields: the text to report and whether the
/// session ends.
#[derive(Debug, Clone, PartialEq, Eq)]
pub struct Reply {
    pub text: String,
    pub exit: bool,
}

/// A line as the session hands it to the parser: trimmed, then upper-cased
/// as a whole, so that keys and values are upper-cased too.
pub open spec fn normalized(line: Seq<char>) -> Seq<char> {
    upper_of(trimmed(line))
}

/// The store after acting on a parse outcome: only `SET` changes it.
pub open spec fn store_after(
    m: Map<Seq<char>, Seq<char>>,
    parsed: Result<CommandModel, ErrorModel>,
) -> Map<Seq<char>, Seq<char>> {
    match parsed {
        Ok(CommandModel::Put(k, v)) => m.insert(k, v),
        _ => m,
    }
}

/// The text reported for a parse outcome, read against the store as it was
/// before the command.
pub open spec fn reply_text(
    m: Map<Seq<char>, Seq<char>>,
    parsed: Result<CommandModel, ErrorModel>,
) -> Seq<char> {
    match parsed {
        Err(e) => ERROR_PREFIX@ + error_message(e),
        Ok(CommandModel::Exit) => SHUTDOWN@,
        Ok(CommandModel::Get(k)) => lookup(m, k),
        Ok(CommandModel::Put(k, v)) => SET_SUCCESS@,
    }
}

/// Whether a parse outcome ends the session: only `EXIT` does.
pub open spec fn ends_session(parsed: Result<CommandModel, ErrorModel>) -> bool {
    parsed == Ok::<CommandModel, ErrorModel>(CommandModel::Exit)
}

/// Trims `line` and upper-cases all of it.
pub fn normalize(line: &str) -> (r: String)
    ensures
        r@ == normalized(line@),
        trimmed(line@).len() == 0 ==> r@.len() == 0,
{
    to_upper(trim(line))
}

/// Acts on a parse outcome: a `SET` binds its key, a `GET` reads its key,
/// `EXIT` ends the session and an error is reported with the store left as
/// it was.
pub fn execute(store: &mut Store, parsed: Result<Command, DBError>) -> (r: Reply)
    ensures
        final(store)@ == store_after(old(store)@, result_view(parsed)),
        r.text@ == reply_text(old(store)@, result_view(parsed)),
        r.exit == ends_session(result_view(parsed)),
{
    match parsed {
        Err(e) => Reply { text: String::from_str(ERROR_PREFIX).concat(e.message().as_str()), exit: false },
        Ok(Command::Exit) => Reply { text: String::from_str(SHUTDOWN), exit: true },
        Ok(Command::Get(k)) => Reply { text: String::from_str(get(store, k)), exit: false },
        Ok(Command::Put(k, v)) => {
            crate::store::set(store, k, v);
            Reply { text: String::from_str(SET_SUCCESS), exit: false }
        },
    }
}

/// Handles one line of input: normalizes it, parses it and acts on it.
pub fn handle_line(store: &mut Store, line: &str) -> (r: Reply)
    ensures
        final(store)@ == store_after(old(store)@, parse_model(normalized(line@))),
        r.text@ == reply_text(old(store)@, parse_model(normalized(line@))),
        r.exit == ends_session(parse_model(normalized(line@))),
        (forall|i: int| 0 <= i < line@.len() ==> white_space(#[trigger] line@[i])) ==> {
            &&& final(store)@ == old(store)@
            &&& r.text@ == ERROR_PREFIX@ + error_message(ErrorModel::EmptyInput)
            &&& !r.exit
        },
{
    let norm = normalize(line);
    proof {
        if forall|i: int| 0 <= i < line@.len() ==> white_space(#[trigger] line@[i]) {
            lemma_blank(line@);
            lemma_blank(norm@);
        }
    }
    execute(store, parse_input(norm.as_str()))
}

} // verus!
