//! Canonical AST types for shell commands.
//!
//! These types mirror a shell's command representation in plain Rust data.
//! A `Command` tree is built once by the normalizer, is immutable, and is
//! either serialized back to source text or discarded.

use vstd::prelude::*;

verus! {

/// A word appearing in a simple command, together with its lexical flag bits.
#[derive(Debug, PartialEq)]
pub struct Word {
    /// The word text.
    pub word: String,
    /// Word flag bits recorded by the lexer (quoted, has-dollar, is-assignment, ...).
    pub flags: u32,
}

/// Flag bit marking a word as a variable assignment.
pub const W_ASSIGNMENT: u32 = 4;

/// List operator connecting two commands.
#[derive(Debug, Clone, Copy, PartialEq, Eq, Structural)]
pub enum ListOp {
    /// `&&` - run the right side only if the left side succeeds.
    And,
    /// `||` - run the right side only if the left side fails.
    Or,
    /// `;` - run sequentially.
    Semi,
    /// `&` - run the left side asynchronously.
    Amp,
    /// Newline separator.
    Newline,
}

/// Redirect direction/kind.
#[derive(Debug, Clone, Copy, PartialEq, Eq, Structural)]
pub enum RedirectType {
    /// `<` - input redirection.
    Input,
    /// `>` - output redirection.
    Output,
    /// `>>` - append output.
    Append,
    /// `<<` - here-document.
    HereDoc,
    /// `<<<` - here-string.
    HereString,
    /// `<>` - open for reading and writing.
    InputOutput,
    /// `>|` - clobber (force overwrite).
    Clobber,
    /// `<&` - duplicate an input file descriptor.
    DupInput,
    /// `>&` - duplicate an output file descriptor.
    DupOutput,
    /// `<&-` or `>&-` - close a file descriptor.
    Close,
    /// `&>` - redirect stdout and stderr.
    ErrAndOut,
    /// `&>>` - append stdout and stderr.
    AppendErrAndOut,
    /// `<&n-` - move an input file descriptor.
    MoveInput,
    /// `>&n-` - move an output file descriptor.
    MoveOutput,
}

/// Target of a redirect: a file name or a file descriptor number.
#[derive(Debug, PartialEq)]
pub enum RedirectTarget {
    /// A file name.
    File(String),
    /// A file descriptor number.
    Fd(i32),
}

/// One redirect operation attached to a command.
#[derive(Debug, PartialEq)]
pub struct Redirect {
    /// The kind of redirection.
    pub direction: RedirectType,
    /// Source file descriptor; `None` exactly when the operator's implicit
    /// default file descriptor applies.
    pub source_fd: Option<i32>,
    /// Target (file name, or file descriptor number).
    pub target: RedirectTarget,
    /// For here-documents, the delimiter word.
    pub here_doc_eof: Option<String>,
}

/// Flags recording which terminator ended a case clause.
#[derive(Debug, PartialEq)]
pub struct CaseClauseFlags {
    /// `;&` - fall through to the next clause.
    pub fallthrough: bool,
    /// `;;&` - test the next pattern.
    pub test_next: bool,
}

/// One clause of a case statement.
#[derive(Debug, PartialEq)]
pub struct CaseClause {
    /// Patterns the clause matches, in order.
    pub patterns: Vec<String>,
    /// Command run when a pattern matches, if any.
    pub action: Option<Box<Command>>,
    /// Terminator flags; `None` means an ordinary `;;` terminator.
    pub flags: Option<CaseClauseFlags>,
}

/// Conditional expression appearing inside `[[ ... ]]`.
#[derive(Debug, PartialEq)]
pub enum ConditionalExpr {
    /// `[[ -flag arg ]]` - unary test.
    Unary { op: String, arg: String },
    /// `[[ arg1 op arg2 ]]` - binary test.
    Binary { op: String, left: String, right: String },
    /// `[[ expr1 && expr2 ]]` - conjunction.
    And { left: Box<ConditionalExpr>, right: Box<ConditionalExpr> },
    /// `[[ expr1 || expr2 ]]` - disjunction.
    Or { left: Box<ConditionalExpr>, right: Box<ConditionalExpr> },
    /// `[[ ! expr ]]` - negation inside the expression.
    Not { expr: Box<ConditionalExpr> },
    /// A single word or term.
    Term { word: String },
    /// A parenthesized expression `( expr )`.
    Expr { expr: Box<ConditionalExpr> },
}

/// A shell command: the top-level AST node.
#[derive(Debug, PartialEq)]
pub enum Command {
    /// Simple command: `cmd arg1 arg2`.
    Simple {
        line: Option<u32>,
        words: Vec<Word>,
        redirects: Vec<Redirect>,
        assignments: Option<Vec<String>>,
    },
    /// Pipeline: `cmd1 | cmd2 | cmd3`, optionally negated with `!`.
    Pipeline { line: Option<u32>, commands: Vec<Command>, negated: bool },
    /// Two commands joined by `&&`, `||`, `;`, `&` or a newline.
    List { line: Option<u32>, op: ListOp, left: Box<Command>, right: Box<Command> },
    /// For loop: `for var in list; do ...; done`.
    For {
        line: Option<u32>,
        variable: String,
        words: Option<Vec<String>>,
        body: Box<Command>,
        redirects: Vec<Redirect>,
    },
    /// While loop: `while test; do ...; done`.
    While { line: Option<u32>, test: Box<Command>, body: Box<Command>, redirects: Vec<Redirect> },
    /// Until loop: `until test; do ...; done`.
    Until { line: Option<u32>, test: Box<Command>, body: Box<Command>, redirects: Vec<Redirect> },
    /// If statement; elif chains are nested `If` nodes in `else_branch`.
    If {
        line: Option<u32>,
        condition: Box<Command>,
        then_branch: Box<Command>,
        else_branch: Option<Box<Command>>,
        redirects: Vec<Redirect>,
    },
    /// Case statement: `case word in pattern) ...;; esac`.
    Case { line: Option<u32>, word: String, clauses: Vec<CaseClause>, redirects: Vec<Redirect> },
    /// Select statement: `select var in list; do ...; done`.
    Select {
        line: Option<u32>,
        variable: String,
        words: Option<Vec<String>>,
        body: Box<Command>,
        redirects: Vec<Redirect>,
    },
    /// Brace group: `{ ...; }`.
    Group { line: Option<u32>, body: Box<Command>, redirects: Vec<Redirect> },
    /// Subshell: `( ... )`.
    Subshell { line: Option<u32>, body: Box<Command>, redirects: Vec<Redirect> },
    /// Function definition: `name() { ...; }`.
    FunctionDef {
        line: Option<u32>,
        name: String,
        body: Box<Command>,
        source_file: Option<String>,
    },
    /// Arithmetic evaluation: `(( expr ))`.
    Arithmetic { line: Option<u32>, expression: String },
    /// C-style for loop: `for ((init; test; step)); do ...; done`.
    ArithmeticFor {
        line: Option<u32>,
        init: String,
        test: String,
        step: String,
        body: Box<Command>,
    },
    /// Conditional expression: `[[ expr ]]`.
    Conditional { line: Option<u32>, expr: ConditionalExpr },
    /// Coprocess: `coproc [name] { ...; }`.
    Coproc { line: Option<u32>, name: Option<String>, body: Box<Command> },
}

impl Command {
    /// Source line carried by a node, as a spec-level value.
    pub open spec fn spec_line(&self) -> Option<u32> {
        match self {
            Command::Simple { line, .. } => *line,
            Command::Pipeline { line, .. } => *line,
            Command::List { line, .. } => *line,
            Command::For { line, .. } => *line,
            Command::While { line, .. } => *line,
            Command::Until { line, .. } => *line,
            Command::If { line, .. } => *line,
            Command::Case { line, .. } => *line,
            Command::Select { line, .. } => *line,
            Command::Group { line, .. } => *line,
            Command::Subshell { line, .. } => *line,
            Command::FunctionDef { line, .. } => *line,
            Command::Arithmetic { line, .. } => *line,
            Command::ArithmeticFor { line, .. } => *line,
            Command::Conditional { line, .. } => *line,
            Command::Coproc { line, .. } => *line,
        }
    }

    /// Redirects carried directly by a node, if its variant has any, as a
    /// spec-level value.
    pub open spec fn spec_redirects(&self) -> Option<Seq<Redirect>> {
        match self {
            Command::Simple { redirects, .. } => Some(redirects@),
            Command::For { redirects, .. } => Some(redirects@),
            Command::While { redirects, .. } => Some(redirects@),
            Command::Until { redirects, .. } => Some(redirects@),
            Command::If { redirects, .. } => Some(redirects@),
            Command::Case { redirects, .. } => Some(redirects@),
            Command::Select { redirects, .. } => Some(redirects@),
            Command::Group { redirects, .. } => Some(redirects@),
            Command::Subshell { redirects, .. } => Some(redirects@),
            _ => None,
        }
    }

    /// Get the line number where this command starts, if known.
    pub fn line(&self) -> (result: Option<u32>)
        ensures
            result == self.spec_line(),
    {
        match self {
            Command::Simple { line, .. } => *line,
            Command::Pipeline { line, .. } => *line,
            Command::List { line, .. } => *line,
            Command::For { line, .. } => *line,
            Command::While { line, .. } => *line,
            Command::Until { line, .. } => *line,
            Command::If { line, .. } => *line,
            Command::Case { line, .. } => *line,
            Command::Select { line, .. } => *line,
            Command::Group { line, .. } => *line,
            Command::Subshell { line, .. } => *line,
            Command::FunctionDef { line, .. } => *line,
            Command::Arithmetic { line, .. } => *line,
            Command::ArithmeticFor { line, .. } => *line,
            Command::Conditional { line, .. } => *line,
            Command::Coproc { line, .. } => *line,
        }
    }

    /// Redirects attached directly to this node, if its variant carries any.
    pub fn redirects(&self) -> (result: Option<&Vec<Redirect>>)
        ensures
            match result {
                Some(v) => self.spec_redirects() == Some(v@),
                None => self.spec_redirects() is None,
            },
    {
        match self {
            Command::Simple { redirects, .. } => Some(redirects),
            Command::For { redirects, .. } => Some(redirects),
            Command::While { redirects, .. } => Some(redirects),
            Command::Until { redirects, .. } => Some(redirects),
            Command::If { redirects, .. } => Some(redirects),
            Command::Case { redirects, .. } => Some(redirects),
            Command::Select { redirects, .. } => Some(redirects),
            Command::Group { redirects, .. } => Some(redirects),
            Command::Subshell { redirects, .. } => Some(redirects),
            _ => None,
        }
    }
}

} // verus!
