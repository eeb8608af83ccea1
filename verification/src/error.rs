//! The library's errors.
use vstd::prelude::*;

use crate::text::{concat, decimal, decimal_string, push_char};

verus! {

broadcast use vstd::string::group_string_axioms;

/// A Dart file that does not parse: where the first syntax error is, the source line it is
/// on, and a caret under its column.
#[derive(Debug)]
pub enum FlintError {
    Syntax { file: String, line: usize, column: usize, source_line: String, pointer: String },
}

/// The message of a syntax error:
/// `Syntax Error in {file} at line {line}, column {column}\n\n{source_line}\n{pointer}\n`.
pub open spec fn syntax_message(
    file: Seq<char>,
    line: nat,
    column: nat,
    source_line: Seq<char>,
    pointer: Seq<char>,
) -> Seq<char> {
    "Syntax Error in "@ + file + " at line "@ + decimal(line) + ", column "@ + decimal(column)
        + seq!['\n', '\n'] + source_line + seq!['\n'] + pointer + seq!['\n']
}

impl FlintError {
    /// The error's message, as its `Display` writes it.
    pub fn to_string(&self) -> (r: String)
        ensures
            match self {
                FlintError::Syntax { file, line, column, source_line, pointer } => r@
                    == syntax_message(file@, *line as nat, *column as nat, source_line@, pointer@),
            },
    {
        match self {
            FlintError::Syntax { file, line, column, source_line, pointer } => {
                let mut r = concat("Syntax Error in ", file.as_str());
                r = concat(r.as_str(), " at line ");
                r = concat(r.as_str(), decimal_string(*line).as_str());
                r = concat(r.as_str(), ", column ");
                r = concat(r.as_str(), decimal_string(*column).as_str());
                push_char(&mut r, '\n');
                push_char(&mut r, '\n');
                r = concat(r.as_str(), source_line.as_str());
                push_char(&mut r, '\n');
                r = concat(r.as_str(), pointer.as_str());
                push_char(&mut r, '\n');
                proof {
                    assert(r@ =~= syntax_message(file@, *line as nat, *column as nat, source_line@, pointer@));
                }
                r
            },
        }
    }
}

/// A configuration that cannot be read or used: a message, and the underlying error's text
/// where there is one (such as the YAML parser's).
#[derive(Debug)]
pub struct ConfigError {
    pub message: String,
    pub detail: Option<String>,
}

impl ConfigError {
    /// The error's message.
    pub fn to_string(&self) -> (r: String)
        ensures
            r@ == self.message@,
    {
        self.message.clone()
    }
}

/// Why a Dart file could not be read into declarations.
#[derive(Debug)]
pub enum ParseError {
    /// The file has a syntax error.
    Syntax(FlintError),
    /// The parser gave no syntax tree.
    NoTree,
    /// A declaration query could not run.
    QueryFailed,
}

impl ParseError {
    /// The error's message.
    pub fn to_string(&self) -> (r: String)
        ensures
            match self {
                ParseError::Syntax(FlintError::Syntax { file, line, column, source_line, pointer }) => r@
                    == syntax_message(file@, *line as nat, *column as nat, source_line@, pointer@),
                ParseError::NoTree => r@ == "Could not parse file"@,
                ParseError::QueryFailed => r@ == "Failed to run the declaration queries"@,
            },
    {
        match self {
            ParseError::Syntax(e) => e.to_string(),
            ParseError::NoTree => "Could not parse file".to_string(),
            ParseError::QueryFailed => "Failed to run the declaration queries".to_string(),
        }
    }
}

} // verus!
