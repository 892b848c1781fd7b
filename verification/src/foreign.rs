//! A plain-data model of the parse tree handed over by the external shell
//! grammar engine.
//!
//! The engine exposes one parsed command tree as linked records: each command
//! node carries an integer flag word, a best-effort source line, an optional
//! wrapper redirect list, and variant-specific children. Child handles and
//! list links may be absent, mirroring null links in the engine's records;
//! word entries inside a word list may be absent as well. An adapter that
//! sits in front of the engine fills these records and hands them to
//! [`crate::normalize::convert_command`], which only reads them.
//!
//! Integer encodings (connector tokens, redirect instructions, conditional
//! node kinds, clause flag bits) are kept as integers on purpose: the
//! normalizer owns the defensive decoding of those values, including
//! unrecognized ones.

use vstd::prelude::*;

verus! {

/// One word as the engine exposes it: text and flag bits.
#[derive(Debug)]
pub struct ForeignWord {
    /// The word text.
    pub text: String,
    /// Flag bits (quoted, has-dollar, is-assignment, ...).
    pub flags: u32,
}

/// A linked word-list node. The word entry may be absent.
#[derive(Debug)]
pub struct ForeignWordList {
    /// This node's word, if present.
    pub word: Option<ForeignWord>,
    /// The next node of the list.
    pub next: Option<Box<ForeignWordList>>,
}

/// A linked redirect-list node.
#[derive(Debug)]
pub struct ForeignRedirect {
    /// The redirect instruction code (see the `R_*` constants in
    /// [`crate::normalize`]).
    pub instruction: i32,
    /// The source file descriptor; negative when absent.
    pub redirector_fd: i32,
    /// The target file descriptor, meaningful for duplicating and moving
    /// instructions.
    pub redirectee_fd: i32,
    /// The target word, meaningful for file-targeted instructions.
    pub redirectee_filename: ForeignWord,
    /// The here-document delimiter, if any.
    pub here_doc_eof: Option<String>,
    /// The next node of the list.
    pub next: Option<Box<ForeignRedirect>>,
}

/// A linked case-clause node.
#[derive(Debug)]
pub struct ForeignPattern {
    /// The clause's pattern words.
    pub patterns: Option<Box<ForeignWordList>>,
    /// The clause's action, if any.
    pub action: Option<Box<ForeignCommand>>,
    /// Terminator flag bits (see `CASEPAT_FALLTHROUGH` and `CASEPAT_TESTNEXT`
    /// in [`crate::normalize`]).
    pub flags: i32,
    /// The next clause of the list.
    pub next: Option<Box<ForeignPattern>>,
}

/// A conditional-expression node of a `[[ ... ]]` test.
#[derive(Debug)]
pub struct ForeignCond {
    /// The node kind (see the `COND_*` constants in [`crate::normalize`]).
    pub kind: i32,
    /// The operator or term word, if any.
    pub op: Option<ForeignWord>,
    /// The left child, if any.
    pub left: Option<Box<ForeignCond>>,
    /// The right child, if any.
    pub right: Option<Box<ForeignCond>>,
}

/// The variant-specific payload of a foreign command node.
#[derive(Debug)]
pub enum ForeignNode {
    /// A simple command: words and redirects.
    Simple {
        line: i32,
        words: Option<Box<ForeignWordList>>,
        redirects: Option<Box<ForeignRedirect>>,
    },
    /// A binary connection: pipe, and, or, sequence, background, newline.
    Connection {
        connector: i32,
        first: Option<Box<ForeignCommand>>,
        second: Option<Box<ForeignCommand>>,
    },
    /// A for loop.
    For {
        line: i32,
        name: Option<ForeignWord>,
        map_list: Option<Box<ForeignWordList>>,
        action: Option<Box<ForeignCommand>>,
    },
    /// A while loop.
    While { test: Option<Box<ForeignCommand>>, action: Option<Box<ForeignCommand>> },
    /// An until loop (same shape as while, discriminated by the tag alone).
    Until { test: Option<Box<ForeignCommand>>, action: Option<Box<ForeignCommand>> },
    /// An if statement; elif chains arrive as nested ifs in `false_case`.
    If {
        test: Option<Box<ForeignCommand>>,
        true_case: Option<Box<ForeignCommand>>,
        false_case: Option<Box<ForeignCommand>>,
    },
    /// A case statement.
    Case { line: i32, word: Option<ForeignWord>, clauses: Option<Box<ForeignPattern>> },
    /// A select statement.
    Select {
        line: i32,
        name: Option<ForeignWord>,
        map_list: Option<Box<ForeignWordList>>,
        action: Option<Box<ForeignCommand>>,
    },
    /// A brace group.
    Group { command: Option<Box<ForeignCommand>> },
    /// A subshell.
    Subshell { line: i32, command: Option<Box<ForeignCommand>> },
    /// A function definition.
    FunctionDef {
        name: Option<ForeignWord>,
        command: Option<Box<ForeignCommand>>,
        source_file: Option<String>,
    },
    /// An arithmetic command `(( expr ))`; the expression arrives as words.
    Arith { line: i32, exp: Option<Box<ForeignWordList>> },
    /// A C-style arithmetic for loop.
    ArithFor {
        line: i32,
        init: Option<Box<ForeignWordList>>,
        test: Option<Box<ForeignWordList>>,
        step: Option<Box<ForeignWordList>>,
        action: Option<Box<ForeignCommand>>,
    },
    /// A `[[ ... ]]` conditional command.
    Cond { line: i32, expr: Option<Box<ForeignCond>> },
    /// A coprocess.
    Coproc { name: Option<String>, command: Option<Box<ForeignCommand>> },
    /// A node tag the normalizer does not recognize.
    Unknown,
}

/// One command node of the foreign parse tree.
#[derive(Debug)]
pub struct ForeignCommand {
    /// Node flag bits (see `CMD_INVERT_RETURN` in [`crate::normalize`]).
    pub flags: i32,
    /// The node's best-effort source line; 0 or out-of-range values mean
    /// unknown.
    pub line: i32,
    /// Redirects attached to the node as a wrapper, if any.
    pub redirects: Option<Box<ForeignRedirect>>,
    /// The variant-specific payload.
    pub node: ForeignNode,
}

} // verus!
