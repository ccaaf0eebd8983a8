//! The diagnostic model: a closed set of failure kinds, a 1-based source
//! position, and a positioned warning whose message is fully determined by
//! the offending class and the failure kind. Warnings are pure data;
//! rendering to human text is a separate, stateless step.

use vstd::prelude::*;
use vstd::string::StringExecFns;
use crate::strutil::{decimal_string, join_with, spec_decimal, spec_join};

verus! {

/// Why a token failed to resolve.
#[derive(Debug)]
pub enum WarningType {
    /// An unrecognized side or state suffix (the offending suffix).
    StateNotFound(String),
    /// The token matched no category at all.
    ClassNotFound,
    /// More arguments than any category allows: (received, required).
    TooManyArgs(usize, usize),
    /// A structurally matched category rejected the argument:
    /// (received, the complete allowed-key set of that category).
    InvalidArg(String, Vec<String>),
}

/// The mathematical image of a `WarningType`.
pub enum WarningKind {
    StateNotFound(Seq<char>),
    ClassNotFound,
    TooManyArgs(int, int),
    InvalidArg(Seq<char>, Seq<Seq<char>>),
}

impl View for WarningType {
    type V = WarningKind;

    open spec fn view(&self) -> WarningKind {
        match self {
            WarningType::StateNotFound(s) => WarningKind::StateNotFound(s@),
            WarningType::ClassNotFound => WarningKind::ClassNotFound,
            WarningType::TooManyArgs(rec, req) => WarningKind::TooManyArgs(
                *rec as int,
                *req as int,
            ),
            WarningType::InvalidArg(rec, req) => WarningKind::InvalidArg(rec@, req.deep_view()),
        }
    }
}

/// A 1-based (line, column) position of the offending token in its source.
#[derive(Debug, Clone, Copy, PartialEq, Eq, Structural)]
pub struct Position {
    pub line: usize,
    pub column: usize,
}

impl Position {
    pub fn new(line: usize, column: usize) -> (r: Position)
        ensures
            r == (Position { line, column }),
    {
        Position { line, column }
    }
}

impl From<(usize, usize)> for Position {
    fn from(pos: (usize, usize)) -> (r: Position) {
        Position { line: pos.0, column: pos.1 }
    }
}

impl vstd::std_specs::convert::FromSpecImpl<(usize, usize)> for Position {
    open spec fn obeys_from_spec() -> bool {
        true
    }

    open spec fn from_spec(pos: (usize, usize)) -> Position {
        Position { line: pos.0, column: pos.1 }
    }
}

/// The one-line human message for a failure of kind `kind` at class `class`.
pub open spec fn spec_message(class: Seq<char>, kind: WarningKind) -> Seq<char> {
    match kind {
        WarningKind::StateNotFound(received) => "Could not match state at class '"@ + class
            + "', '"@ + received + "' is not a valid state"@,
        WarningKind::ClassNotFound => "Could not match class '"@ + class + "'"@,
        WarningKind::TooManyArgs(received, required) => "Could not match class '"@ + class
            + "', too many arguments, got '"@ + spec_decimal(received) + "' but required '"@
            + spec_decimal(required) + "'"@,
        WarningKind::InvalidArg(received, required) => "Could not match class '"@ + class
            + "', invalid argument '"@ + received + "', possible arguments: '"@ + spec_join(
            required,
            ", "@,
        ) + "'"@,
    }
}

/// The mathematical image of a `Warning`.
pub struct WarningView {
    pub message: Seq<char>,
    pub position: Position,
}

/// A positioned, renderable diagnostic. Immutable once constructed.
#[derive(Debug, Clone)]
pub struct Warning {
    message: String,
    position: Position,
}

impl View for Warning {
    type V = WarningView;

    closed spec fn view(&self) -> WarningView {
        WarningView { message: self.message@, position: self.position }
    }
}

impl PartialEq for Warning {
    fn eq(&self, other: &Warning) -> bool {
        self.message == other.message && self.position == other.position
    }
}

impl vstd::std_specs::cmp::PartialEqSpecImpl for Warning {
    open spec fn obeys_eq_spec() -> bool {
        true
    }

    open spec fn eq_spec(&self, other: &Warning) -> bool {
        self@ == other@
    }
}

impl Warning {
    /// Builds the warning for `class` at `position`, rendering the message
    /// from the failure kind.
    pub fn new(class: &str, position: &Position, warning_type: WarningType) -> (w: Warning)
        ensures
            w@.message == spec_message(class@, warning_type@),
            w@.position == *position,
    {
        let message: String = match warning_type {
            WarningType::StateNotFound(received) => {
                let mut m = "Could not match state at class '".to_owned();
                m.append(class);
                m.append("', '");
                m.append(received.as_str());
                m.append("' is not a valid state");
                m
            },
            WarningType::ClassNotFound => {
                let mut m = "Could not match class '".to_owned();
                m.append(class);
                m.append("'");
                m
            },
            WarningType::TooManyArgs(received, required) => {
                let mut m = "Could not match class '".to_owned();
                m.append(class);
                m.append("', too many arguments, got '");
                let rec = decimal_string(received);
                m.append(rec.as_str());
                m.append("' but required '");
                let req = decimal_string(required);
                m.append(req.as_str());
                m.append("'");
                m
            },
            WarningType::InvalidArg(received, required) => {
                let mut m = "Could not match class '".to_owned();
                m.append(class);
                m.append("', invalid argument '");
                m.append(received.as_str());
                m.append("', possible arguments: '");
                let keys = join_with(&required, ", ");
                m.append(keys.as_str());
                m.append("'");
                m
            },
        };
        Warning { message, position: position.clone() }
    }

    /// The rendered one-line diagnostic: position, then message.
    pub fn text(&self) -> (r: String)
        ensures
            r@ == spec_warning_text(self@),
    {
        let mut r = "Warning on Line: ".to_owned();
        let line = decimal_string(self.position.line);
        r.append(line.as_str());
        r.append(", Col: ");
        let col = decimal_string(self.position.column);
        r.append(col.as_str());
        r.append("; ");
        r.append(self.message.as_str());
        r
    }
}

/// The rendered form of a warning: its position and its message on one line.
pub open spec fn spec_warning_text(w: WarningView) -> Seq<char> {
    "Warning on Line: "@ + spec_decimal(w.position.line as int) + ", Col: "@ + spec_decimal(
        w.position.column as int,
    ) + "; "@ + w.message
}

} // verus!
