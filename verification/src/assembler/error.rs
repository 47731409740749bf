//! Failures an assembly run can end with. The first error anywhere aborts
//! the whole run; no partial output is produced.

use vstd::prelude::*;
use vstd::string::StringExecFns;

verus! {

/// The kind of an assembly failure, without its detail text.
#[derive(Clone, Copy, Debug, PartialEq, Eq, Structural)]
pub enum ErrorKind {
    /// A line could not be read from the source.
    IOError,
    /// Malformed line structure or a wrong operand count.
    ParseError,
    /// An unknown mnemonic, base or pseudo.
    InvalidInstruction,
    /// A bad register, immediate, offset or CSR token.
    InvalidOperand,
    /// A branch, jump or absolute-load target missing from the symbol table.
    UndefinedLabel,
}

/// An assembly failure: a kind together with a detail string. For
/// `UndefinedLabel` the detail is exactly the unresolved label token.
#[derive(Debug, PartialEq)]
pub enum AssemblerError {
    IOError(String),
    ParseError(String),
    InvalidInstruction(String),
    InvalidOperand(String),
    UndefinedLabel(String),
}

impl AssemblerError {
    /// The kind of this error.
    pub open spec fn kind(&self) -> ErrorKind {
        match self {
            AssemblerError::IOError(_) => ErrorKind::IOError,
            AssemblerError::ParseError(_) => ErrorKind::ParseError,
            AssemblerError::InvalidInstruction(_) => ErrorKind::InvalidInstruction,
            AssemblerError::InvalidOperand(_) => ErrorKind::InvalidOperand,
            AssemblerError::UndefinedLabel(_) => ErrorKind::UndefinedLabel,
        }
    }

    /// The detail string of this error.
    pub open spec fn detail(&self) -> Seq<char> {
        match self {
            AssemblerError::IOError(s) => s@,
            AssemblerError::ParseError(s) => s@,
            AssemblerError::InvalidInstruction(s) => s@,
            AssemblerError::InvalidOperand(s) => s@,
            AssemblerError::UndefinedLabel(s) => s@,
        }
    }

    /// A printable description: the kind's label followed by the detail.
    pub fn message(&self) -> (r: String)
        ensures
            r@ == spec_kind_label(self.kind()) + self.detail(),
    {
        proof {
            reveal_strlit("IO Error: ");
            reveal_strlit("Parser Error: ");
            reveal_strlit("Invalid Instruction: ");
            reveal_strlit("Invalid Operand: ");
            reveal_strlit("Invalid Label: ");
        }
        let mut r = match self {
            AssemblerError::IOError(_) => "IO Error: ".to_owned(),
            AssemblerError::ParseError(_) => "Parser Error: ".to_owned(),
            AssemblerError::InvalidInstruction(_) => "Invalid Instruction: ".to_owned(),
            AssemblerError::InvalidOperand(_) => "Invalid Operand: ".to_owned(),
            AssemblerError::UndefinedLabel(_) => "Invalid Label: ".to_owned(),
        };
        match self {
            AssemblerError::IOError(s) => r.append(s.as_str()),
            AssemblerError::ParseError(s) => r.append(s.as_str()),
            AssemblerError::InvalidInstruction(s) => r.append(s.as_str()),
            AssemblerError::InvalidOperand(s) => r.append(s.as_str()),
            AssemblerError::UndefinedLabel(s) => r.append(s.as_str()),
        }
        r
    }
}

/// The label each error kind is printed under.
pub open spec fn spec_kind_label(kind: ErrorKind) -> Seq<char> {
    match kind {
        ErrorKind::IOError => "IO Error: "@,
        ErrorKind::ParseError => "Parser Error: "@,
        ErrorKind::InvalidInstruction => "Invalid Instruction: "@,
        ErrorKind::InvalidOperand => "Invalid Operand: "@,
        ErrorKind::UndefinedLabel => "Invalid Label: "@,
    }
}

/// The contractual image of an error: its kind, and for `UndefinedLabel`
/// the label that failed to resolve. Detail text of the other kinds is
/// presentation only and carries no contract.
pub struct SpecError {
    pub kind: ErrorKind,
    pub label: Seq<char>,
}

/// A spec-level error of `kind` whose detail is not contractual.
pub open spec fn spec_err(kind: ErrorKind) -> SpecError {
    SpecError { kind, label: Seq::empty() }
}

/// A spec-level `UndefinedLabel` error naming `label`.
pub open spec fn spec_undefined_label(label: Seq<char>) -> SpecError {
    SpecError { kind: ErrorKind::UndefinedLabel, label }
}

/// Whether the executable error `e` realizes the spec-level error `se`.
pub open spec fn err_matches(e: &AssemblerError, se: SpecError) -> bool {
    &&& e.kind() == se.kind
    &&& se.kind == ErrorKind::UndefinedLabel ==> e.detail() == se.label
}

} // verus!
