//! The command grammar: `GET <key>`, `SET <key> <value>` and `EXIT`, with a
//! verb that is matched without regard to case.
use vstd::prelude::*;
use vstd::string::StringExecFns;
use crate::errors::{DBError, ErrorModel};
use crate::text::{lemma_blank, split_tokens, to_upper, tokens, upper_of, white_space};

verus! {

/// One parsed command line. Keys and values borrow from the line.
#[derive(Debug, Clone, PartialEq, Eq)]
pub enum Command<'a> {
    Get(&'a str),
    Put(&'a str, &'a str),
    Exit,
}

/// The mathematical form of a [`Command`].
pub enum CommandModel {
    Get(Seq<char>),
    Put(Seq<char>, Seq<char>),
    Exit,
}

impl<'a> View for Command<'a> {
    type V = CommandModel;

    open spec fn view(&self) -> CommandModel {
        match self {
            Command::Get(k) => CommandModel::Get(k@),
            Command::Put(k, v) => CommandModel::Put(k@, v@),
            Command::Exit => CommandModel::Exit,
        }
    }
}

/// The outcome of parsing, in mathematical form.
pub open spec fn result_view(r: Result<Command, DBError>) -> Result<CommandModel, ErrorModel> {
    match r {
        Ok(c) => Ok(c@),
        Err(e) => Err(e@),
    }
}

/// What a line parses to. The verb is the upper-cased first token; `EXIT`
/// ignores what follows it, `GET` takes the second token as its key and
/// `SET` the second and third as key and value; further tokens are ignored.
pub open spec fn parse_model(line: Seq<char>) -> Result<CommandModel, ErrorModel> {
    let t = tokens(line);
    if t.len() == 0 {
        Err(ErrorModel::EmptyInput)
    } else {
        let verb = upper_of(t[0]);
        if verb == "EXIT"@ {
            Ok(CommandModel::Exit)
        } else if verb != "GET"@ && verb != "SET"@ {
            Err(ErrorModel::UnexpectedCommand(verb))
        } else if t.len() < 2 {
            Err(ErrorModel::KeyNotFound)
        } else if verb == "GET"@ {
            Ok(CommandModel::Get(t[1]))
        } else if t.len() < 3 {
            Err(ErrorModel::ValueNotFound)
        } else {
            Ok(CommandModel::Put(t[1], t[2]))
        }
    }
}

/// Parses one line of input into a command.
pub fn parse_input<'a>(input: &'a str) -> (r: Result<Command<'a>, DBError>)
    ensures
        result_view(r) == parse_model(input@),
{
    let words = split_tokens(input);
    let ghost t = tokens(input@);
    assert(words@.len() == t.len());
    if words.len() == 0 {
        return Err(DBError::EmptyInput);
    }
    assert(words@[0]@ == t[0]);
    let verb = to_upper(words[0]);
    if verb == String::from_str("EXIT") {
        return Ok(Command::Exit);
    }
    let is_get = verb == String::from_str("GET");
    if !is_get && verb != String::from_str("SET") {
        return Err(DBError::UnexpectedCommand(verb));
    }
    if words.len() < 2 {
        return Err(DBError::KeyNotFound);
    }
    assert(words@[1]@ == t[1]);
    let key = words[1];
    if is_get {
        return Ok(Command::Get(key));
    }
    if words.len() < 3 {
        return Err(DBError::ValueNotFound);
    }
    assert(words@[2]@ == t[2]);
    Ok(Command::Put(key, words[2]))
}


/// The verb is matched without regard to case: two lines whose first tokens
/// upper-case alike and whose other tokens agree parse alike.
pub proof fn law_verb_case_insensitive(a: Seq<char>, b: Seq<char>)
    requires
        tokens(a).len() > 0,
        tokens(b).len() > 0,
        upper_of(tokens(a)[0]) == upper_of(tokens(b)[0]),
        tokens(a).drop_first() == tokens(b).drop_first(),
    ensures
        parse_model(a) == parse_model(b),
{
    let (ta, tb) = (tokens(a), tokens(b));
    assert(ta.len() == ta.drop_first().len() + 1);
    assert(tb.len() == tb.drop_first().len() + 1);
    if ta.len() >= 2 {
        assert(ta[1] == ta.drop_first()[0]);
        assert(tb[1] == tb.drop_first()[0]);
    }
    if ta.len() >= 3 {
        assert(ta[2] == ta.drop_first()[1]);
        assert(tb[2] == tb.drop_first()[1]);
    }
}

/// An empty or all-white-space line is an empty input.
pub proof fn law_blank_line_is_empty_input(line: Seq<char>)
    requires
        forall|i: int| 0 <= i < line.len() ==> white_space(#[trigger] line[i]),
    ensures
        parse_model(line) == Err::<CommandModel, ErrorModel>(ErrorModel::EmptyInput),
{
    lemma_blank(line);
}

} // verus!
