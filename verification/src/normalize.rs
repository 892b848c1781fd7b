//! The tree normalizer: defensively walks a foreign parse tree into the
//! canonical [`Command`] form.
//!
//! The conversion is pure and total. It returns `None` instead of failing on
//! an exceeded recursion-depth ceiling, a missing required child, or an
//! unrecognized node tag; list traversal is capped by a fixed ceiling so that
//! malformed foreign lists cannot cause unbounded work. The value built for
//! each foreign tree is defined by the spec function [`norm_v`] over the
//! model of [`crate::model`]; the executable conversion is proved to build
//! exactly that value.
//!
//! Per-variant rules include: word partition into assignments and positional
//! words; pipe-connector flattening into a single stage list; connector-token
//! disambiguation by the full token value; the explicit empty-placeholder
//! right operand of a trailing background list; and elif chains arriving as
//! nested ifs.

use vstd::prelude::*;
use vstd::string::StringExecFns;

use crate::ast::CaseClause;
use crate::ast::CaseClauseFlags;
use crate::ast::Command;
use crate::ast::ConditionalExpr;
use crate::ast::ListOp;
use crate::ast::Redirect;
use crate::ast::RedirectTarget;
use crate::ast::RedirectType;
use crate::ast::Word;
use crate::ast::W_ASSIGNMENT;
use crate::foreign::ForeignCommand;
use crate::foreign::ForeignCond;
use crate::foreign::ForeignNode;
use crate::foreign::ForeignPattern;
use crate::foreign::ForeignRedirect;
use crate::foreign::ForeignWord;
use crate::foreign::ForeignWordList;
use crate::model::deep_clause;
use crate::model::deep_clauses;
use crate::model::deep_cmds;
use crate::model::deep_cond_opt;
use crate::model::deep_opt;
use crate::model::deep_redirects;
use crate::model::deep_strs;
use crate::model::deep_strs_opt;
use crate::model::deep_words;
use crate::model::CaseClauseV;
use crate::model::CommandV;
use crate::model::CondV;
use crate::model::RedirectTargetV;
use crate::model::RedirectV;
use crate::model::WordV;

verus! {

/// Maximum recursion depth for the conversion; deeper foreign trees yield a
/// conversion failure instead of exhausting the stack.
pub const MAX_DEPTH: usize = 256;

/// Maximum number of linked-list nodes the conversion walks; longer (or
/// cyclic, on the engine's side) lists are truncated here.
pub const MAX_LIST_LENGTH: usize = 100000;

/// Flag bit on a foreign command node: the command's return value is
/// inverted with `!`.
pub const CMD_INVERT_RETURN: i32 = 4;

/// Case-clause flag bit for the `;&` fallthrough terminator.
pub const CASEPAT_FALLTHROUGH: i32 = 1;

/// Case-clause flag bit for the `;;&` test-next terminator.
pub const CASEPAT_TESTNEXT: i32 = 2;

/// Conditional node kinds of the foreign engine.
pub const COND_AND: i32 = 1;

pub const COND_OR: i32 = 2;

pub const COND_UNARY: i32 = 3;

pub const COND_BINARY: i32 = 4;

pub const COND_TERM: i32 = 5;

pub const COND_EXPR: i32 = 6;

/// Connector token values of the foreign engine. A plain `&`, `;`, `|` or
/// newline arrives as the character's code; the two-character operators
/// arrive as their own token values.
pub const CONNECTOR_PIPE: i32 = 124;

pub const CONNECTOR_AMP: i32 = 38;

pub const CONNECTOR_SEMI: i32 = 59;

pub const CONNECTOR_NEWLINE: i32 = 10;

pub const TOKEN_AND_AND: i32 = 288;

pub const TOKEN_OR_OR: i32 = 289;

/// A packed two-character `&&` occasionally seen in place of the token.
pub const PACKED_AND_AND: i32 = 9766;

/// Redirect instruction codes of the foreign engine.
pub const R_OUTPUT_DIRECTION: i32 = 0;

pub const R_INPUT_DIRECTION: i32 = 1;

pub const R_INPUTA_DIRECTION: i32 = 2;

pub const R_APPENDING_TO: i32 = 3;

pub const R_READING_UNTIL: i32 = 4;

pub const R_READING_STRING: i32 = 5;

pub const R_DUPLICATING_INPUT: i32 = 6;

pub const R_DUPLICATING_OUTPUT: i32 = 7;

pub const R_DEBLANK_READING_UNTIL: i32 = 8;

pub const R_CLOSE_THIS: i32 = 9;

pub const R_ERR_AND_OUT: i32 = 10;

pub const R_INPUT_OUTPUT: i32 = 11;

pub const R_OUTPUT_FORCE: i32 = 12;

pub const R_DUPLICATING_INPUT_WORD: i32 = 13;

pub const R_DUPLICATING_OUTPUT_WORD: i32 = 14;

pub const R_MOVE_INPUT: i32 = 15;

pub const R_MOVE_OUTPUT: i32 = 16;

pub const R_MOVE_INPUT_WORD: i32 = 17;

pub const R_MOVE_OUTPUT_WORD: i32 = 18;

pub const R_APPEND_ERR_AND_OUT: i32 = 19;

// ---------------------------------------------------------------------------
// Spec model of the conversion.
// ---------------------------------------------------------------------------

/// The canonical line value of a node: the variant's own line when positive,
/// else the node's line; `None` unless the winner lies in 1..=1,000,000.
pub open spec fn line_opt(inner: i32, outer: i32) -> Option<u32> {
    if inner > 0 {
        if inner <= 1000000 {
            Some(inner as u32)
        } else {
            None
        }
    } else if outer > 0 && outer <= 1000000 {
        Some(outer as u32)
    } else {
        None
    }
}

/// The list operator encoded by a connector token. The raw encoding overloads
/// `&` across the background operator and a packed `&&`, so the full token
/// value decides; unrecognized tokens fall back to `;`.
pub open spec fn list_op_of(c: i32) -> ListOp {
    if c == TOKEN_AND_AND || c == PACKED_AND_AND {
        ListOp::And
    } else if c == TOKEN_OR_OR {
        ListOp::Or
    } else if c == CONNECTOR_AMP {
        ListOp::Amp
    } else if c == CONNECTOR_NEWLINE {
        ListOp::Newline
    } else {
        ListOp::Semi
    }
}

/// The redirect kind encoded by an instruction code; unrecognized codes fall
/// back to plain output redirection.
pub open spec fn rtype_of(i: i32) -> RedirectType {
    if i == R_OUTPUT_DIRECTION {
        RedirectType::Output
    } else if i == R_INPUT_DIRECTION || i == R_INPUTA_DIRECTION {
        RedirectType::Input
    } else if i == R_APPENDING_TO {
        RedirectType::Append
    } else if i == R_READING_UNTIL || i == R_DEBLANK_READING_UNTIL {
        RedirectType::HereDoc
    } else if i == R_READING_STRING {
        RedirectType::HereString
    } else if i == R_DUPLICATING_INPUT || i == R_DUPLICATING_INPUT_WORD {
        RedirectType::DupInput
    } else if i == R_DUPLICATING_OUTPUT || i == R_DUPLICATING_OUTPUT_WORD {
        RedirectType::DupOutput
    } else if i == R_CLOSE_THIS {
        RedirectType::Close
    } else if i == R_ERR_AND_OUT {
        RedirectType::ErrAndOut
    } else if i == R_INPUT_OUTPUT {
        RedirectType::InputOutput
    } else if i == R_OUTPUT_FORCE {
        RedirectType::Clobber
    } else if i == R_MOVE_INPUT || i == R_MOVE_INPUT_WORD {
        RedirectType::MoveInput
    } else if i == R_MOVE_OUTPUT || i == R_MOVE_OUTPUT_WORD {
        RedirectType::MoveOutput
    } else if i == R_APPEND_ERR_AND_OUT {
        RedirectType::AppendErrAndOut
    } else {
        RedirectType::Output
    }
}

/// The implicit default source descriptor of a redirect kind: 0 for
/// input-like operators, 1 for output-like ones, and -1 for operators that
/// have no implicit default (their recorded descriptor is always kept).
pub open spec fn implicit_source_fd(d: RedirectType) -> int {
    match d {
        RedirectType::Input => 0,
        RedirectType::HereDoc => 0,
        RedirectType::HereString => 0,
        RedirectType::DupInput => 0,
        RedirectType::MoveInput => 0,
        RedirectType::InputOutput => 0,
        RedirectType::Output => 1,
        RedirectType::Append => 1,
        RedirectType::Clobber => 1,
        RedirectType::DupOutput => 1,
        RedirectType::MoveOutput => 1,
        _ => -1,
    }
}

/// Model conversion of a foreign word list, walking at most `fuel` nodes and
/// skipping absent word entries.
pub open spec fn conv_words_v(l: Option<Box<ForeignWordList>>, fuel: nat) -> Seq<WordV>
    decreases fuel,
{
    match l {
        None => Seq::empty(),
        Some(n) => if fuel == 0 {
            Seq::empty()
        } else {
            (match n.word {
                Some(w) => seq![WordV { word: w.text@, flags: w.flags }],
                None => Seq::<WordV>::empty(),
            }) + conv_words_v(n.next, (fuel - 1) as nat)
        },
    }
}

/// The texts of a word sequence.
pub open spec fn word_texts(ws: Seq<WordV>) -> Seq<Seq<char>> {
    ws.map_values(|w: WordV| w.word)
}

/// Model conversion of a foreign word list to plain texts: `None` when the
/// list is absent or yields no words (an absent list is distinct from an
/// explicitly empty one).
pub open spec fn conv_strings_v(l: Option<Box<ForeignWordList>>, fuel: nat) -> Option<
    Seq<Seq<char>>,
> {
    match l {
        None => None,
        Some(_) => {
            let ws = conv_words_v(l, fuel);
            if ws.len() == 0 {
                None
            } else {
                Some(word_texts(ws))
            }
        },
    }
}

/// Texts joined by single spaces.
pub open spec fn join_sp(ts: Seq<Seq<char>>) -> Seq<char>
    decreases ts.len(),
{
    if ts.len() == 0 {
        Seq::empty()
    } else {
        join_sp(ts.subrange(0, ts.len() - 1)) + (if ts.len() == 1 {
            Seq::<char>::empty()
        } else {
            " "@
        }) + ts[ts.len() - 1]
    }
}

/// The raw expression text of an arithmetic node: its words joined by spaces.
pub open spec fn arith_text(l: Option<Box<ForeignWordList>>, fuel: nat) -> Seq<char> {
    join_sp(word_texts(conv_words_v(l, fuel)))
}

/// The assignment words of a word sequence, in order.
pub open spec fn assigns_of(ws: Seq<WordV>) -> Seq<Seq<char>>
    decreases ws.len(),
{
    if ws.len() == 0 {
        Seq::empty()
    } else {
        assigns_of(ws.subrange(0, ws.len() - 1)) + (if ws[ws.len() - 1].flags & W_ASSIGNMENT != 0 {
            seq![ws[ws.len() - 1].word]
        } else {
            Seq::<Seq<char>>::empty()
        })
    }
}

/// The positional (non-assignment) words of a word sequence, in order.
pub open spec fn positionals_of(ws: Seq<WordV>) -> Seq<WordV>
    decreases ws.len(),
{
    if ws.len() == 0 {
        Seq::empty()
    } else {
        positionals_of(ws.subrange(0, ws.len() - 1)) + (if ws[ws.len() - 1].flags & W_ASSIGNMENT
            == 0 {
            seq![ws[ws.len() - 1]]
        } else {
            Seq::<WordV>::empty()
        })
    }
}

/// Model conversion of one foreign redirect node. The engine records a
/// source descriptor even where the operator's implicit default applies, so
/// a recorded descriptor equal to that default maps to `None`: `source_fd`
/// is absent exactly when the implicit default applies.
pub open spec fn conv_redir_v(n: ForeignRedirect) -> RedirectV {
    RedirectV {
        direction: rtype_of(n.instruction),
        source_fd: if n.redirector_fd >= 0 && n.redirector_fd as int != implicit_source_fd(
            rtype_of(n.instruction),
        ) {
            Some(n.redirector_fd)
        } else {
            None
        },
        target: if n.instruction == R_DUPLICATING_INPUT || n.instruction == R_DUPLICATING_OUTPUT
            || n.instruction == R_MOVE_INPUT || n.instruction == R_MOVE_OUTPUT {
            RedirectTargetV::Fd(n.redirectee_fd)
        } else if n.instruction == R_CLOSE_THIS {
            RedirectTargetV::Fd(-1i32)
        } else {
            RedirectTargetV::File(n.redirectee_filename.text@)
        },
        here_doc_eof: match n.here_doc_eof {
            Some(e) => Some(e@),
            None => None,
        },
    }
}

/// Model conversion of a foreign redirect list, walking at most `fuel` nodes.
pub open spec fn conv_redirs_v(l: Option<Box<ForeignRedirect>>, fuel: nat) -> Seq<RedirectV>
    decreases fuel,
{
    match l {
        None => Seq::empty(),
        Some(n) => if fuel == 0 {
            Seq::empty()
        } else {
            seq![conv_redir_v(*n)] + conv_redirs_v(n.next, (fuel - 1) as nat)
        },
    }
}

/// The text of a conditional operand word; absent words read as empty.
pub open spec fn cond_word(w: Option<ForeignWord>) -> Seq<char> {
    match w {
        Some(fw) => fw.text@,
        None => Seq::empty(),
    }
}

/// The operand text held by a conditional child node.
pub open spec fn cond_child_word(l: Option<Box<ForeignCond>>) -> Seq<char> {
    match l {
        Some(c) => cond_word(c.op),
        None => Seq::empty(),
    }
}

/// Model conversion of a foreign conditional expression, bounded by the
/// recursion-depth ceiling.
pub open spec fn conv_cond_v(l: Option<Box<ForeignCond>>, depth: int) -> Option<CondV>
    decreases l,
{
    if depth > MAX_DEPTH as int {
        None
    } else {
        match l {
            None => None,
            Some(c) => if c.kind == COND_AND {
                match (conv_cond_v(c.left, depth + 1), conv_cond_v(c.right, depth + 1)) {
                    (Some(a), Some(b)) => Some(
                        CondV::And { left: Box::new(a), right: Box::new(b) },
                    ),
                    _ => None,
                }
            } else if c.kind == COND_OR {
                match (conv_cond_v(c.left, depth + 1), conv_cond_v(c.right, depth + 1)) {
                    (Some(a), Some(b)) => Some(CondV::Or { left: Box::new(a), right: Box::new(b) }),
                    _ => None,
                }
            } else if c.kind == COND_UNARY {
                Some(CondV::Unary { op: cond_word(c.op), arg: cond_child_word(c.left) })
            } else if c.kind == COND_BINARY {
                Some(
                    CondV::Binary {
                        op: cond_word(c.op),
                        left: cond_child_word(c.left),
                        right: cond_child_word(c.right),
                    },
                )
            } else if c.kind == COND_TERM {
                Some(CondV::Term { word: cond_word(c.op) })
            } else if c.kind == COND_EXPR {
                match conv_cond_v(c.left, depth + 1) {
                    Some(e) => Some(CondV::Expr { expr: Box::new(e) }),
                    None => None,
                }
            } else {
                None
            },
        }
    }
}

/// The reserved empty placeholder that stands for the absent right operand of
/// a background list.
pub open spec fn empty_simple_v() -> CommandV {
    CommandV::Simple {
        line: None,
        words: Seq::empty(),
        redirects: Seq::empty(),
        assignments: None,
    }
}

/// Wraps a negated command into a one-stage negated pipeline; a negated lone
/// command is never collapsed away.
pub open spec fn wrap_neg(c: CommandV, negated: bool) -> CommandV {
    if negated {
        CommandV::Pipeline { line: None, commands: seq![c], negated: true }
    } else {
        c
    }
}

/// The stage contribution of a converted command when spliced into a
/// pipeline: a pipeline contributes its stages, anything else itself.
pub open spec fn flat_v(c: CommandV) -> Seq<CommandV> {
    match c {
        CommandV::Pipeline { commands, .. } => commands,
        _ => seq![c],
    }
}

/// Model conversion of one optional child command.
pub open spec fn norm_child(l: Option<Box<ForeignCommand>>, depth: int) -> Option<CommandV>
    decreases l, 0int,
{
    match l {
        None => None,
        Some(f) => norm_v(*f, depth),
    }
}

/// Model conversion of a foreign case-clause list, walking at most `fuel`
/// clauses. A clause whose action fails to convert keeps an absent action;
/// absent flags mean an ordinary `;;` terminator.
pub open spec fn conv_clauses_v(l: Option<Box<ForeignPattern>>, fuel: nat, depth: int) -> Seq<
    CaseClauseV,
>
    decreases l, 0int,
{
    match l {
        None => Seq::empty(),
        Some(p) => if fuel == 0 {
            Seq::empty()
        } else {
            seq![
                CaseClauseV {
                    patterns: match conv_strings_v(p.patterns, MAX_LIST_LENGTH as nat) {
                        Some(ts) => ts,
                        None => Seq::empty(),
                    },
                    action: match p.action {
                        Some(a) => match norm_v(*a, depth + 1) {
                            Some(cv) => Some(Box::new(cv)),
                            None => None,
                        },
                        None => None,
                    },
                    flags: if p.flags != 0 {
                        Some(
                            CaseClauseFlags {
                                fallthrough: p.flags & CASEPAT_FALLTHROUGH != 0,
                                test_next: p.flags & CASEPAT_TESTNEXT != 0,
                            },
                        )
                    } else {
                        None
                    },
                },
            ] + conv_clauses_v(p.next, (fuel - 1) as nat, depth)
        },
    }
}

/// The model value the normalizer builds for a foreign command node, or
/// `None` on an exceeded depth ceiling, a missing required child, or an
/// unrecognized tag.
pub open spec fn norm_v(f: ForeignCommand, depth: int) -> Option<CommandV>
    decreases f, 0int,
{
    if depth > MAX_DEPTH as int {
        None
    } else {
        let negated = f.flags & CMD_INVERT_RETURN != 0;
        match f.node {
            ForeignNode::Simple { line, words, redirects } => {
                let ws = conv_words_v(words, MAX_LIST_LENGTH as nat);
                let asg = assigns_of(ws);
                Some(
                    wrap_neg(
                        CommandV::Simple {
                            line: line_opt(line, f.line),
                            words: positionals_of(ws),
                            redirects: conv_redirs_v(redirects, MAX_LIST_LENGTH as nat)
                                + conv_redirs_v(f.redirects, MAX_LIST_LENGTH as nat),
                            assignments: if asg.len() == 0 {
                                None
                            } else {
                                Some(asg)
                            },
                        },
                        negated,
                    ),
                )
            },
            ForeignNode::Connection { connector, first, second } => {
                if connector == CONNECTOR_PIPE {
                    match (norm_child(first, depth + 1), norm_child(second, depth + 1)) {
                        (Some(a), Some(b)) => Some(
                            CommandV::Pipeline {
                                line: None,
                                commands: flat_v(a) + flat_v(b),
                                negated,
                            },
                        ),
                        _ => None,
                    }
                } else {
                    let op = list_op_of(connector);
                    match norm_child(first, depth + 1) {
                        None => None,
                        Some(lc) => match norm_child(second, depth + 1) {
                            Some(rc) => Some(
                                wrap_neg(
                                    CommandV::List {
                                        line: None,
                                        op,
                                        left: Box::new(lc),
                                        right: Box::new(rc),
                                    },
                                    negated,
                                ),
                            ),
                            None => if op == ListOp::Amp {
                                Some(
                                    wrap_neg(
                                        CommandV::List {
                                            line: None,
                                            op: ListOp::Amp,
                                            left: Box::new(lc),
                                            right: Box::new(empty_simple_v()),
                                        },
                                        negated,
                                    ),
                                )
                            } else {
                                None
                            },
                        },
                    }
                }
            },
            ForeignNode::For { line, name, map_list, action } => match name {
                None => None,
                Some(w) => match norm_child(action, depth + 1) {
                    None => None,
                    Some(b) => Some(
                        wrap_neg(
                            CommandV::For {
                                line: line_opt(line, f.line),
                                variable: w.text@,
                                words: conv_strings_v(map_list, MAX_LIST_LENGTH as nat),
                                body: Box::new(b),
                                redirects: conv_redirs_v(f.redirects, MAX_LIST_LENGTH as nat),
                            },
                            negated,
                        ),
                    ),
                },
            },
            ForeignNode::While { test, action } => {
                match (norm_child(test, depth + 1), norm_child(action, depth + 1)) {
                    (Some(t), Some(b)) => Some(
                        wrap_neg(
                            CommandV::While {
                                line: line_opt(0, f.line),
                                test: Box::new(t),
                                body: Box::new(b),
                                redirects: conv_redirs_v(f.redirects, MAX_LIST_LENGTH as nat),
                            },
                            negated,
                        ),
                    ),
                    _ => None,
                }
            },
            ForeignNode::Until { test, action } => {
                match (norm_child(test, depth + 1), norm_child(action, depth + 1)) {
                    (Some(t), Some(b)) => Some(
                        wrap_neg(
                            CommandV::Until {
                                line: line_opt(0, f.line),
                                test: Box::new(t),
                                body: Box::new(b),
                                redirects: conv_redirs_v(f.redirects, MAX_LIST_LENGTH as nat),
                            },
                            negated,
                        ),
                    ),
                    _ => None,
                }
            },
            ForeignNode::If { test, true_case, false_case } => {
                match (norm_child(test, depth + 1), norm_child(true_case, depth + 1)) {
                    (Some(c), Some(t)) => match false_case {
                        None => Some(
                            wrap_neg(
                                CommandV::If {
                                    line: line_opt(0, f.line),
                                    condition: Box::new(c),
                                    then_branch: Box::new(t),
                                    else_branch: None,
                                    redirects: conv_redirs_v(f.redirects, MAX_LIST_LENGTH as nat),
                                },
                                negated,
                            ),
                        ),
                        Some(fc) => match norm_v(*fc, depth + 1) {
                            None => None,
                            Some(e) => Some(
                                wrap_neg(
                                    CommandV::If {
                                        line: line_opt(0, f.line),
                                        condition: Box::new(c),
                                        then_branch: Box::new(t),
                                        else_branch: Some(Box::new(e)),
                                        redirects: conv_redirs_v(
                                            f.redirects,
                                            MAX_LIST_LENGTH as nat,
                                        ),
                                    },
                                    negated,
                                ),
                            ),
                        },
                    },
                    _ => None,
                }
            },
            ForeignNode::Case { line, word, clauses } => match word {
                None => None,
                Some(w) => Some(
                    wrap_neg(
                        CommandV::Case {
                            line: line_opt(line, f.line),
                            word: w.text@,
                            clauses: conv_clauses_v(clauses, MAX_LIST_LENGTH as nat, depth),
                            redirects: conv_redirs_v(f.redirects, MAX_LIST_LENGTH as nat),
                        },
                        negated,
                    ),
                ),
            },
            ForeignNode::Select { line, name, map_list, action } => match name {
                None => None,
                Some(w) => match norm_child(action, depth + 1) {
                    None => None,
                    Some(b) => Some(
                        wrap_neg(
                            CommandV::Select {
                                line: line_opt(line, f.line),
                                variable: w.text@,
                                words: conv_strings_v(map_list, MAX_LIST_LENGTH as nat),
                                body: Box::new(b),
                                redirects: conv_redirs_v(f.redirects, MAX_LIST_LENGTH as nat),
                            },
                            negated,
                        ),
                    ),
                },
            },
            ForeignNode::Group { command } => match norm_child(command, depth + 1) {
                None => None,
                Some(b) => Some(
                    wrap_neg(
                        CommandV::Group {
                            line: line_opt(0, f.line),
                            body: Box::new(b),
                            redirects: conv_redirs_v(f.redirects, MAX_LIST_LENGTH as nat),
                        },
                        negated,
                    ),
                ),
            },
            ForeignNode::Subshell { line, command } => match norm_child(command, depth + 1) {
                None => None,
                Some(b) => Some(
                    wrap_neg(
                        CommandV::Subshell {
                            line: line_opt(line, f.line),
                            body: Box::new(b),
                            redirects: conv_redirs_v(f.redirects, MAX_LIST_LENGTH as nat),
                        },
                        negated,
                    ),
                ),
            },
            ForeignNode::FunctionDef { name, command, source_file } => match name {
                None => None,
                Some(w) => match norm_child(command, depth + 1) {
                    None => None,
                    Some(b) => Some(
                        wrap_neg(
                            CommandV::FunctionDef {
                                line: line_opt(0, f.line),
                                name: w.text@,
                                body: Box::new(b),
                                source_file: match source_file {
                                    Some(s) => Some(s@),
                                    None => None,
                                },
                            },
                            negated,
                        ),
                    ),
                },
            },
            ForeignNode::Arith { line, exp } => Some(
                wrap_neg(
                    CommandV::Arithmetic {
                        line: line_opt(line, f.line),
                        expression: arith_text(exp, MAX_LIST_LENGTH as nat),
                    },
                    negated,
                ),
            ),
            ForeignNode::ArithFor { line, init, test, step, action } => {
                match norm_child(action, depth + 1) {
                    None => None,
                    Some(b) => Some(
                        wrap_neg(
                            CommandV::ArithmeticFor {
                                line: line_opt(line, f.line),
                                init: arith_text(init, MAX_LIST_LENGTH as nat),
                                test: arith_text(test, MAX_LIST_LENGTH as nat),
                                step: arith_text(step, MAX_LIST_LENGTH as nat),
                                body: Box::new(b),
                            },
                            negated,
                        ),
                    ),
                }
            },
            ForeignNode::Cond { line, expr } => match conv_cond_v(expr, depth) {
                None => None,
                Some(e) => Some(
                    wrap_neg(
                        CommandV::Conditional { line: line_opt(line, f.line), expr: e },
                        negated,
                    ),
                ),
            },
            ForeignNode::Coproc { name, command } => match norm_child(command, depth + 1) {
                None => None,
                Some(b) => Some(
                    wrap_neg(
                        CommandV::Coproc {
                            line: line_opt(0, f.line),
                            name: match name {
                                Some(n) => Some(n@),
                                None => None,
                            },
                            body: Box::new(b),
                        },
                        negated,
                    ),
                ),
            },
            ForeignNode::Unknown => None,
        }
    }
}

} // verus!

verus! {

// ---------------------------------------------------------------------------
// Executable conversion, proved to build exactly the model value.
// ---------------------------------------------------------------------------

/// Line filtering: 0 means unknown and anything above 1,000,000 is treated
/// as garbage, so both map to `None`.
pub fn line_or_none(line: u32) -> (r: Option<u32>)
    ensures
        r == (if 1 <= line <= 1000000 {
            Some(line)
        } else {
            None::<u32>
        }),
{
    if line == 0 || line > 1000000 {
        None
    } else {
        Some(line)
    }
}

/// Picks the variant's own line when positive, else the fallback.
pub fn effective_line(cmd_line: i32, fallback: u32) -> (r: u32)
    ensures
        r == (if cmd_line > 0 {
            cmd_line as u32
        } else {
            fallback
        }),
{
    if cmd_line > 0 {
        cmd_line as u32
    } else {
        fallback
    }
}

/// The canonical line of a node from its variant line and node line.
fn node_line(inner: i32, outer: i32) -> (r: Option<u32>)
    ensures
        r == line_opt(inner, outer),
{
    let fallback: u32 = if outer > 0 {
        outer as u32
    } else {
        0
    };
    line_or_none(effective_line(inner, fallback))
}

/// The list operator of a connector token.
fn connector_op(connector: i32) -> (r: ListOp)
    ensures
        r == list_op_of(connector),
{
    if connector == TOKEN_AND_AND || connector == PACKED_AND_AND {
        ListOp::And
    } else if connector == TOKEN_OR_OR {
        ListOp::Or
    } else if connector == CONNECTOR_AMP {
        ListOp::Amp
    } else if connector == CONNECTOR_NEWLINE {
        ListOp::Newline
    } else {
        ListOp::Semi
    }
}

/// The redirect kind of an instruction code.
fn redirect_type_for(i: i32) -> (r: RedirectType)
    ensures
        r == rtype_of(i),
{
    if i == R_OUTPUT_DIRECTION {
        RedirectType::Output
    } else if i == R_INPUT_DIRECTION || i == R_INPUTA_DIRECTION {
        RedirectType::Input
    } else if i == R_APPENDING_TO {
        RedirectType::Append
    } else if i == R_READING_UNTIL || i == R_DEBLANK_READING_UNTIL {
        RedirectType::HereDoc
    } else if i == R_READING_STRING {
        RedirectType::HereString
    } else if i == R_DUPLICATING_INPUT || i == R_DUPLICATING_INPUT_WORD {
        RedirectType::DupInput
    } else if i == R_DUPLICATING_OUTPUT || i == R_DUPLICATING_OUTPUT_WORD {
        RedirectType::DupOutput
    } else if i == R_CLOSE_THIS {
        RedirectType::Close
    } else if i == R_ERR_AND_OUT {
        RedirectType::ErrAndOut
    } else if i == R_INPUT_OUTPUT {
        RedirectType::InputOutput
    } else if i == R_OUTPUT_FORCE {
        RedirectType::Clobber
    } else if i == R_MOVE_INPUT || i == R_MOVE_INPUT_WORD {
        RedirectType::MoveInput
    } else if i == R_MOVE_OUTPUT || i == R_MOVE_OUTPUT_WORD {
        RedirectType::MoveOutput
    } else if i == R_APPEND_ERR_AND_OUT {
        RedirectType::AppendErrAndOut
    } else {
        RedirectType::Output
    }
}

/// The implicit default source descriptor of a redirect kind.
fn implicit_fd_for(d: RedirectType) -> (r: i32)
    ensures
        r as int == implicit_source_fd(d),
{
    match d {
        RedirectType::Input
        | RedirectType::HereDoc
        | RedirectType::HereString
        | RedirectType::DupInput
        | RedirectType::MoveInput
        | RedirectType::InputOutput => 0,
        RedirectType::Output
        | RedirectType::Append
        | RedirectType::Clobber
        | RedirectType::DupOutput
        | RedirectType::MoveOutput => 1,
        _ => -1,
    }
}

/// Appends the words of a foreign word list, walking at most `fuel` nodes.
fn convert_word_list(l: &Option<Box<ForeignWordList>>, fuel: usize, acc: &mut Vec<Word>)
    ensures
        deep_words(final(acc)@) == deep_words(old(acc)@) + conv_words_v(*l, fuel as nat),
    decreases fuel,
{
    match l {
        None => {
            proof {
                assert(deep_words(acc@) =~= deep_words(acc@) + conv_words_v(
                    *l,
                    fuel as nat,
                ));
            }
        },
        Some(n) => {
            if fuel == 0 {
                proof {
                    assert(deep_words(acc@) =~= deep_words(acc@) + conv_words_v(
                        *l,
                        fuel as nat,
                    ));
                }
            } else {
                let ghost mid0 = acc@;
                match &n.word {
                    Some(w) => {
                        acc.push(Word { word: w.text.clone(), flags: w.flags });
                        proof {
                            assert(deep_words(acc@) =~= deep_words(mid0) + (match n.word {
                                Some(w0) => seq![WordV { word: w0.text@, flags: w0.flags }],
                                None => Seq::<WordV>::empty(),
                            }));
                        }
                    },
                    None => {
                        proof {
                            assert(deep_words(acc@) =~= deep_words(mid0) + (match n.word {
                                Some(w0) => seq![WordV { word: w0.text@, flags: w0.flags }],
                                None => Seq::<WordV>::empty(),
                            }));
                        }
                    },
                }
                convert_word_list(&n.next, fuel - 1, acc);
                proof {
                    assert(deep_words(acc@) =~= deep_words(old(acc)@) + conv_words_v(
                        *l,
                        fuel as nat,
                    ));
                }
            }
        },
    }
}

/// Converts a foreign word list to plain texts; `None` when the list is
/// absent or yields no words.
fn convert_word_list_to_strings(l: &Option<Box<ForeignWordList>>, fuel: usize) -> (r: Option<
    Vec<String>,
>)
    ensures
        deep_strs_opt(r) == conv_strings_v(*l, fuel as nat),
{
    match l {
        None => None,
        Some(_) => {
            let mut ws: Vec<Word> = Vec::new();
            convert_word_list(l, fuel, &mut ws);
            proof {
                assert(deep_words(ws@) =~= conv_words_v(*l, fuel as nat));
            }
            if ws.len() == 0 {
                proof {
                    assert(conv_words_v(*l, fuel as nat).len() == 0);
                }
                None
            } else {
                let mut ts: Vec<String> = Vec::new();
                let n = ws.len();
                let mut i: usize = 0;
                while i < n
                    invariant
                        n == ws@.len(),
                        i <= n,
                        ts@.len() == i,
                        deep_strs(ts@) =~= word_texts(deep_words(ws@)).subrange(0, i as int),
                    decreases n - i,
                {
                    ts.push(ws[i].word.clone());
                    proof {
                        assert(word_texts(deep_words(ws@))[i as int] == ws@[i as int].word@);
                        assert(deep_strs(ts@)[i as int] == ts@[i as int]@);
                        assert(deep_strs(ts@) =~= word_texts(deep_words(ws@)).subrange(
                            0,
                            i as int + 1,
                        ));
                    }
                    i = i + 1;
                }
                proof {
                    assert(word_texts(deep_words(ws@)).subrange(
                        0,
                        word_texts(deep_words(ws@)).len() as int,
                    ) =~= word_texts(deep_words(ws@)));
                }
                Some(ts)
            }
        },
    }
}

/// Joins the words of a foreign word list into one text with single spaces.
fn words_join(l: &Option<Box<ForeignWordList>>, fuel: usize) -> (r: String)
    ensures
        r@ == arith_text(*l, fuel as nat),
{
    let mut ws: Vec<Word> = Vec::new();
    convert_word_list(l, fuel, &mut ws);
    proof {
        assert(deep_words(ws@) =~= conv_words_v(*l, fuel as nat));
    }
    let ghost full = word_texts(deep_words(ws@));
    let mut out = String::new();
    let n = ws.len();
    let mut i: usize = 0;
    while i < n
        invariant
            n == ws@.len(),
            full == word_texts(deep_words(ws@)),
            full.len() == n,
            i <= n,
            out@ == join_sp(full.subrange(0, i as int)),
        decreases n - i,
    {
        if i > 0 {
            out.append(" ");
        }
        out.append(ws[i].word.as_str());
        proof {
            let s2 = full.subrange(0, i as int + 1);
            assert(s2.subrange(0, s2.len() - 1) =~= full.subrange(0, i as int));
            assert(s2[s2.len() - 1] == ws@[i as int].word@);
            assert(out@ =~= join_sp(s2));
        }
        i = i + 1;
    }
    proof {
        assert(full.subrange(0, full.len() as int) =~= full);
    }
    out
}

/// Splits converted words into assignment texts and positional words,
/// preserving relative order within each group.
fn partition_words(ws: &Vec<Word>) -> (r: (Vec<String>, Vec<Word>))
    ensures
        deep_strs(r.0@) == assigns_of(deep_words(ws@)),
        deep_words(r.1@) == positionals_of(deep_words(ws@)),
{
    let mut assigns: Vec<String> = Vec::new();
    let mut words: Vec<Word> = Vec::new();
    let n = ws.len();
    let mut i: usize = 0;
    while i < n
        invariant
            n == ws@.len(),
            i <= n,
            deep_strs(assigns@) =~= assigns_of(deep_words(ws@.subrange(0, i as int))),
            deep_words(words@) =~= positionals_of(deep_words(ws@.subrange(0, i as int))),
        decreases n - i,
    {
        if ws[i].flags & W_ASSIGNMENT != 0 {
            assigns.push(ws[i].word.clone());
        } else {
            words.push(Word { word: ws[i].word.clone(), flags: ws[i].flags });
        }
        proof {
            let s2 = ws@.subrange(0, i as int + 1);
            assert(deep_words(s2).subrange(0, deep_words(s2).len() - 1) =~= deep_words(
                ws@.subrange(0, i as int),
            ));
            assert(deep_words(s2)[deep_words(s2).len() - 1] == ws@[i as int].deep());
            assert(deep_strs(assigns@) =~= assigns_of(deep_words(s2)));
            assert(deep_words(words@) =~= positionals_of(deep_words(s2)));
        }
        i = i + 1;
    }
    proof {
        assert(ws@.subrange(0, ws@.len() as int) =~= ws@);
    }
    (assigns, words)
}

/// Appends the redirects of a foreign redirect list, walking at most `fuel`
/// nodes.
fn convert_redirects(l: &Option<Box<ForeignRedirect>>, fuel: usize, acc: &mut Vec<Redirect>)
    ensures
        deep_redirects(final(acc)@) == deep_redirects(old(acc)@) + conv_redirs_v(*l, fuel as nat),
    decreases fuel,
{
    match l {
        None => {
            proof {
                assert(deep_redirects(acc@) =~= deep_redirects(acc@) + conv_redirs_v(
                    *l,
                    fuel as nat,
                ));
            }
        },
        Some(n) => {
            if fuel == 0 {
                proof {
                    assert(deep_redirects(acc@) =~= deep_redirects(acc@) + conv_redirs_v(
                        *l,
                        fuel as nat,
                    ));
                }
            } else {
                let ghost mid0 = acc@;
                let direction = redirect_type_for(n.instruction);
                let dfd = implicit_fd_for(direction);
                let source_fd = if n.redirector_fd >= 0 && n.redirector_fd != dfd {
                    Some(n.redirector_fd)
                } else {
                    None
                };
                let target = if n.instruction == R_DUPLICATING_INPUT || n.instruction
                    == R_DUPLICATING_OUTPUT || n.instruction == R_MOVE_INPUT || n.instruction
                    == R_MOVE_OUTPUT {
                    RedirectTarget::Fd(n.redirectee_fd)
                } else if n.instruction == R_CLOSE_THIS {
                    RedirectTarget::Fd(-1)
                } else {
                    RedirectTarget::File(n.redirectee_filename.text.clone())
                };
                let here_doc_eof = match &n.here_doc_eof {
                    Some(e) => Some(e.clone()),
                    None => None,
                };
                acc.push(Redirect { direction, source_fd, target, here_doc_eof });
                proof {
                    assert(acc@[acc@.len() - 1].deep() == conv_redir_v(**n));
                    assert(deep_redirects(acc@) =~= deep_redirects(mid0) + seq![conv_redir_v(**n)]);
                }
                convert_redirects(&n.next, fuel - 1, acc);
                proof {
                    assert(deep_redirects(acc@) =~= deep_redirects(old(acc)@) + conv_redirs_v(
                        *l,
                        fuel as nat,
                    ));
                }
            }
        },
    }
}

/// The text of a conditional operand word; absent words read as empty.
fn cond_word_text(w: &Option<ForeignWord>) -> (r: String)
    ensures
        r@ == cond_word(*w),
{
    match w {
        Some(fw) => fw.text.clone(),
        None => String::new(),
    }
}

/// The operand text held by a conditional child node.
fn cond_child_text(l: &Option<Box<ForeignCond>>) -> (r: String)
    ensures
        r@ == cond_child_word(*l),
{
    match l {
        Some(c) => cond_word_text(&c.op),
        None => String::new(),
    }
}

/// Converts a foreign conditional expression, bounded by the recursion-depth
/// ceiling.
fn convert_cond_com(l: &Option<Box<ForeignCond>>, depth: usize) -> (r: Option<ConditionalExpr>)
    ensures
        deep_cond_opt(r) == conv_cond_v(*l, depth as int),
    decreases *l,
{
    if depth > MAX_DEPTH {
        return None;
    }
    match l {
        None => None,
        Some(c) => {
            if c.kind == COND_AND {
                match (convert_cond_com(&c.left, depth + 1), convert_cond_com(&c.right, depth + 1)) {
                    (Some(a), Some(b)) => Some(
                        ConditionalExpr::And { left: Box::new(a), right: Box::new(b) },
                    ),
                    _ => None,
                }
            } else if c.kind == COND_OR {
                match (convert_cond_com(&c.left, depth + 1), convert_cond_com(&c.right, depth + 1)) {
                    (Some(a), Some(b)) => Some(
                        ConditionalExpr::Or { left: Box::new(a), right: Box::new(b) },
                    ),
                    _ => None,
                }
            } else if c.kind == COND_UNARY {
                Some(
                    ConditionalExpr::Unary {
                        op: cond_word_text(&c.op),
                        arg: cond_child_text(&c.left),
                    },
                )
            } else if c.kind == COND_BINARY {
                Some(
                    ConditionalExpr::Binary {
                        op: cond_word_text(&c.op),
                        left: cond_child_text(&c.left),
                        right: cond_child_text(&c.right),
                    },
                )
            } else if c.kind == COND_TERM {
                Some(ConditionalExpr::Term { word: cond_word_text(&c.op) })
            } else if c.kind == COND_EXPR {
                match convert_cond_com(&c.left, depth + 1) {
                    Some(e) => Some(ConditionalExpr::Expr { expr: Box::new(e) }),
                    None => None,
                }
            } else {
                None
            }
        },
    }
}

/// The reserved empty placeholder command.
fn empty_placeholder() -> (r: Command)
    ensures
        r.deep() == empty_simple_v(),
{
    let r = Command::Simple {
        line: None,
        words: Vec::new(),
        redirects: Vec::new(),
        assignments: None,
    };
    proof {
        assert(deep_words(Seq::<Word>::empty()) =~= Seq::<WordV>::empty());
        assert(deep_redirects(Seq::<Redirect>::empty()) =~= Seq::<RedirectV>::empty());
    }
    r
}

/// Wraps a negated command into a one-stage negated pipeline.
fn apply_negation(c: Command, negated: bool) -> (r: Command)
    ensures
        r.deep() == wrap_neg(c.deep(), negated),
{
    if negated {
        let ghost cv = c.deep();
        let mut commands: Vec<Command> = Vec::new();
        commands.push(c);
        proof {
            assert(commands@.subrange(0, 0) =~= Seq::<Command>::empty());
            assert(deep_cmds(Seq::<Command>::empty()) =~= Seq::<CommandV>::empty());
            assert(deep_cmds(commands@) =~= seq![cv]);
        }
        Command::Pipeline { line: None, commands, negated: true }
    } else {
        c
    }
}

/// Distribution of the deep view over sequence concatenation.
proof fn lemma_deep_cmds_add(a: Seq<Command>, b: Seq<Command>)
    ensures
        deep_cmds(a + b) == deep_cmds(a) + deep_cmds(b),
    decreases b.len(),
{
    if b.len() == 0 {
        assert(a + b =~= a);
        assert(deep_cmds(a) + deep_cmds(b) =~= deep_cmds(a));
    } else {
        lemma_deep_cmds_add(a, b.subrange(0, b.len() - 1));
        assert((a + b).subrange(0, (a + b).len() - 1) =~= a + b.subrange(0, b.len() - 1));
        assert(deep_cmds(a + b) =~= deep_cmds(a) + deep_cmds(b));
    }
}

/// Splices a converted command into a pipeline's stage list: a pipeline
/// contributes its stages, anything else itself. The argument is required
/// to be well-formed - a pipeline's stages are never pipelines themselves -
/// so splicing one level is full flattening.
fn flatten_pipeline(cmd: Command, commands: &mut Vec<Command>)
    requires
        wf_v(cmd.deep()),
    ensures
        deep_cmds(final(commands)@) == deep_cmds(old(commands)@) + flat_v(cmd.deep()),
{
    let ghost cv = cmd.deep();
    match cmd {
        Command::Pipeline { commands: inner, .. } => {
            let mut inner = inner;
            let ghost innerv = inner@;
            commands.append(&mut inner);
            proof {
                lemma_deep_cmds_add(old(commands)@, innerv);
            }
        },
        other => {
            commands.push(other);
            proof {
                assert(commands@.subrange(0, commands@.len() - 1) =~= old(commands)@);
                assert(deep_cmds(commands@) == deep_cmds(old(commands)@).push(
                    commands@[commands@.len() - 1].deep(),
                ));
                assert(deep_cmds(commands@) =~= deep_cmds(old(commands)@) + flat_v(cv));
            }
        },
    }
}

/// Converts one optional child command.
fn convert_child(l: &Option<Box<ForeignCommand>>, depth: usize) -> (r: Option<Command>)
    ensures
        deep_opt(r) == norm_child(*l, depth as int),
    decreases *l, 1int,
{
    match l {
        None => None,
        Some(f) => convert_command_with_depth(f, depth),
    }
}

/// Appends the clauses of a foreign case-clause list, walking at most `fuel`
/// clauses.
#[verifier::rlimit(100)]
fn convert_pattern_list(
    l: &Option<Box<ForeignPattern>>,
    fuel: usize,
    depth: usize,
    acc: &mut Vec<CaseClause>,
)
    requires
        depth <= MAX_DEPTH,
    ensures
        deep_clauses(final(acc)@) == deep_clauses(old(acc)@) + conv_clauses_v(
            *l,
            fuel as nat,
            depth as int,
        ),
    decreases *l, 1int,
{
    match l {
        None => {
            proof {
                assert(deep_clauses(acc@) =~= deep_clauses(acc@) + conv_clauses_v(
                    *l,
                    fuel as nat,
                    depth as int,
                ));
            }
        },
        Some(p) => {
            if fuel == 0 {
                proof {
                    assert(deep_clauses(acc@) =~= deep_clauses(acc@) + conv_clauses_v(
                        *l,
                        fuel as nat,
                        depth as int,
                    ));
                }
            } else {
                let ghost mid0 = acc@;
                let patterns = match convert_word_list_to_strings(&p.patterns, MAX_LIST_LENGTH) {
                    Some(v) => v,
                    None => Vec::new(),
                };
                let action = match &p.action {
                    None => None,
                    Some(a) => match convert_command_with_depth(a, depth + 1) {
                        Some(c) => Some(Box::new(c)),
                        None => None,
                    },
                };
                let flags = if p.flags != 0 {
                    Some(
                        CaseClauseFlags {
                            fallthrough: p.flags & CASEPAT_FALLTHROUGH != 0,
                            test_next: p.flags & CASEPAT_TESTNEXT != 0,
                        },
                    )
                } else {
                    None
                };
                let cl = CaseClause { patterns, action, flags };
                proof {
                    assert(deep_strs(Seq::<String>::empty()) =~= Seq::<Seq<char>>::empty());
                    assert(conv_clauses_v(*l, fuel as nat, depth as int)[0] == deep_clause(cl));
                }
                acc.push(cl);
                proof {
                    assert(acc@.subrange(0, acc@.len() - 1) =~= mid0);
                    assert(deep_clauses(acc@) == deep_clauses(mid0).push(
                        deep_clause(acc@[acc@.len() - 1]),
                    ));
                    assert(deep_clauses(acc@) =~= deep_clauses(mid0) + seq![
                        conv_clauses_v(*l, fuel as nat, depth as int)[0],
                    ]);
                }
                convert_pattern_list(&p.next, fuel - 1, depth, acc);
                proof {
                    assert(deep_clauses(acc@) =~= deep_clauses(old(acc)@) + conv_clauses_v(
                        *l,
                        fuel as nat,
                        depth as int,
                    ));
                }
            }
        },
    }
}

/// Unwrap the artificial brace group an engine adapter may put around a
/// whole script so that it parses as a single command.
pub fn unwrap_script_group(cmd: Command) -> (r: Command)
    ensures
        cmd matches Command::Group { body, .. } ==> r == *body,
        !(cmd is Group) ==> r == cmd,
{
    match cmd {
        Command::Group { body, .. } => *body,
        other => other,
    }
}

/// Convert one foreign parse tree into the canonical form.
///
/// Returns `None` on an exceeded recursion-depth ceiling, a missing required
/// child, or an unrecognized node tag; otherwise the command whose deep view
/// is exactly [`norm_v`] of the foreign tree.
pub fn convert_command(f: &ForeignCommand) -> (r: Option<Command>)
    ensures
        deep_opt(r) == norm_v(*f, 0),
{
    convert_command_with_depth(f, 0)
}

/// Internal conversion with depth tracking.
#[verifier::rlimit(100)]
fn convert_command_with_depth(f: &ForeignCommand, depth: usize) -> (r: Option<Command>)
    ensures
        deep_opt(r) == norm_v(*f, depth as int),
    decreases *f, 0int,
{
    if depth > MAX_DEPTH {
        return None;
    }
    let negated = (f.flags & CMD_INVERT_RETURN) != 0;
    match &f.node {
        ForeignNode::Simple { line, words, redirects } => {
            let mut ws: Vec<Word> = Vec::new();
            convert_word_list(words, MAX_LIST_LENGTH, &mut ws);
            let mut rs: Vec<Redirect> = Vec::new();
            convert_redirects(redirects, MAX_LIST_LENGTH, &mut rs);
            convert_redirects(&f.redirects, MAX_LIST_LENGTH, &mut rs);
            proof {
                assert(deep_words(ws@) =~= conv_words_v(*words, MAX_LIST_LENGTH as nat));
                assert(deep_redirects(rs@) =~= conv_redirs_v(*redirects, MAX_LIST_LENGTH as nat)
                    + conv_redirs_v(f.redirects, MAX_LIST_LENGTH as nat));
            }
            let (assigns, command_words) = partition_words(&ws);
            let assignments = if assigns.len() == 0 {
                None
            } else {
                Some(assigns)
            };
            proof {
                assert(assigns_of(deep_words(ws@)).len() == 0 ==> deep_strs_opt(assignments)
                    is None);
            }
            Some(
                apply_negation(
                    Command::Simple {
                        line: node_line(*line, f.line),
                        words: command_words,
                        redirects: rs,
                        assignments,
                    },
                    negated,
                ),
            )
        },
        ForeignNode::Connection { connector, first, second } => {
            if *connector == CONNECTOR_PIPE {
                match convert_child(first, depth + 1) {
                    None => None,
                    Some(a) => match convert_child(second, depth + 1) {
                        None => None,
                        Some(b) => {
                            let mut stages: Vec<Command> = Vec::new();
                            let ghost av = a.deep();
                            let ghost bv = b.deep();
                            proof {
                                lemma_norm_child_wf(*first, depth as int + 1);
                                lemma_norm_child_wf(*second, depth as int + 1);
                            }
                            flatten_pipeline(a, &mut stages);
                            flatten_pipeline(b, &mut stages);
                            proof {
                                assert(deep_cmds(stages@) =~= flat_v(av) + flat_v(bv));
                            }
                            Some(Command::Pipeline { line: None, commands: stages, negated })
                        },
                    },
                }
            } else {
                let op = connector_op(*connector);
                match convert_child(first, depth + 1) {
                    None => None,
                    Some(lc) => match convert_child(second, depth + 1) {
                        Some(rc) => Some(
                            apply_negation(
                                Command::List {
                                    line: None,
                                    op,
                                    left: Box::new(lc),
                                    right: Box::new(rc),
                                },
                                negated,
                            ),
                        ),
                        None => {
                            if op == ListOp::Amp {
                                Some(
                                    apply_negation(
                                        Command::List {
                                            line: None,
                                            op: ListOp::Amp,
                                            left: Box::new(lc),
                                            right: Box::new(empty_placeholder()),
                                        },
                                        negated,
                                    ),
                                )
                            } else {
                                None
                            }
                        },
                    },
                }
            }
        },
        ForeignNode::For { line, name, map_list, action } => match name {
            None => None,
            Some(w) => match convert_child(action, depth + 1) {
                None => None,
                Some(b) => {
                    let mut rs: Vec<Redirect> = Vec::new();
                    convert_redirects(&f.redirects, MAX_LIST_LENGTH, &mut rs);
                    Some(
                        apply_negation(
                            Command::For {
                                line: node_line(*line, f.line),
                                variable: w.text.clone(),
                                words: convert_word_list_to_strings(map_list, MAX_LIST_LENGTH),
                                body: Box::new(b),
                                redirects: rs,
                            },
                            negated,
                        ),
                    )
                },
            },
        },
        ForeignNode::While { test, action } => match convert_child(test, depth + 1) {
            None => None,
            Some(t) => match convert_child(action, depth + 1) {
                None => None,
                Some(b) => {
                    let mut rs: Vec<Redirect> = Vec::new();
                    convert_redirects(&f.redirects, MAX_LIST_LENGTH, &mut rs);
                    Some(
                        apply_negation(
                            Command::While {
                                line: node_line(0, f.line),
                                test: Box::new(t),
                                body: Box::new(b),
                                redirects: rs,
                            },
                            negated,
                        ),
                    )
                },
            },
        },
        ForeignNode::Until { test, action } => match convert_child(test, depth + 1) {
            None => None,
            Some(t) => match convert_child(action, depth + 1) {
                None => None,
                Some(b) => {
                    let mut rs: Vec<Redirect> = Vec::new();
                    convert_redirects(&f.redirects, MAX_LIST_LENGTH, &mut rs);
                    Some(
                        apply_negation(
                            Command::Until {
                                line: node_line(0, f.line),
                                test: Box::new(t),
                                body: Box::new(b),
                                redirects: rs,
                            },
                            negated,
                        ),
                    )
                },
            },
        },
        ForeignNode::If { test, true_case, false_case } => match convert_child(test, depth + 1) {
            None => None,
            Some(c) => match convert_child(true_case, depth + 1) {
                None => None,
                Some(t) => {
                    let else_branch = match false_case {
                        None => None,
                        Some(fc) => match convert_command_with_depth(fc, depth + 1) {
                            None => {
                                return None;
                            },
                            Some(e) => Some(Box::new(e)),
                        },
                    };
                    let mut rs: Vec<Redirect> = Vec::new();
                    convert_redirects(&f.redirects, MAX_LIST_LENGTH, &mut rs);
                    Some(
                        apply_negation(
                            Command::If {
                                line: node_line(0, f.line),
                                condition: Box::new(c),
                                then_branch: Box::new(t),
                                else_branch,
                                redirects: rs,
                            },
                            negated,
                        ),
                    )
                },
            },
        },
        ForeignNode::Case { line, word, clauses } => match word {
            None => None,
            Some(w) => {
                let mut cls: Vec<CaseClause> = Vec::new();
                convert_pattern_list(clauses, MAX_LIST_LENGTH, depth, &mut cls);
                proof {
                    assert(deep_clauses(cls@) =~= conv_clauses_v(
                        *clauses,
                        MAX_LIST_LENGTH as nat,
                        depth as int,
                    ));
                }
                let mut rs: Vec<Redirect> = Vec::new();
                convert_redirects(&f.redirects, MAX_LIST_LENGTH, &mut rs);
                Some(
                    apply_negation(
                        Command::Case {
                            line: node_line(*line, f.line),
                            word: w.text.clone(),
                            clauses: cls,
                            redirects: rs,
                        },
                        negated,
                    ),
                )
            },
        },
        ForeignNode::Select { line, name, map_list, action } => match name {
            None => None,
            Some(w) => match convert_child(action, depth + 1) {
                None => None,
                Some(b) => {
                    let mut rs: Vec<Redirect> = Vec::new();
                    convert_redirects(&f.redirects, MAX_LIST_LENGTH, &mut rs);
                    Some(
                        apply_negation(
                            Command::Select {
                                line: node_line(*line, f.line),
                                variable: w.text.clone(),
                                words: convert_word_list_to_strings(map_list, MAX_LIST_LENGTH),
                                body: Box::new(b),
                                redirects: rs,
                            },
                            negated,
                        ),
                    )
                },
            },
        },
        ForeignNode::Group { command } => match convert_child(command, depth + 1) {
            None => None,
            Some(b) => {
                let mut rs: Vec<Redirect> = Vec::new();
                convert_redirects(&f.redirects, MAX_LIST_LENGTH, &mut rs);
                Some(
                    apply_negation(
                        Command::Group {
                            line: node_line(0, f.line),
                            body: Box::new(b),
                            redirects: rs,
                        },
                        negated,
                    ),
                )
            },
        },
        ForeignNode::Subshell { line, command } => match convert_child(command, depth + 1) {
            None => None,
            Some(b) => {
                let mut rs: Vec<Redirect> = Vec::new();
                convert_redirects(&f.redirects, MAX_LIST_LENGTH, &mut rs);
                Some(
                    apply_negation(
                        Command::Subshell {
                            line: node_line(*line, f.line),
                            body: Box::new(b),
                            redirects: rs,
                        },
                        negated,
                    ),
                )
            },
        },
        ForeignNode::FunctionDef { name, command, source_file } => match name {
            None => None,
            Some(w) => match convert_child(command, depth + 1) {
                None => None,
                Some(b) => Some(
                    apply_negation(
                        Command::FunctionDef {
                            line: node_line(0, f.line),
                            name: w.text.clone(),
                            body: Box::new(b),
                            source_file: match source_file {
                                Some(s) => Some(s.clone()),
                                None => None,
                            },
                        },
                        negated,
                    ),
                ),
            },
        },
        ForeignNode::Arith { line, exp } => Some(
            apply_negation(
                Command::Arithmetic {
                    line: node_line(*line, f.line),
                    expression: words_join(exp, MAX_LIST_LENGTH),
                },
                negated,
            ),
        ),
        ForeignNode::ArithFor { line, init, test, step, action } => {
            match convert_child(action, depth + 1) {
                None => None,
                Some(b) => Some(
                    apply_negation(
                        Command::ArithmeticFor {
                            line: node_line(*line, f.line),
                            init: words_join(init, MAX_LIST_LENGTH),
                            test: words_join(test, MAX_LIST_LENGTH),
                            step: words_join(step, MAX_LIST_LENGTH),
                            body: Box::new(b),
                        },
                        negated,
                    ),
                ),
            }
        },
        ForeignNode::Cond { line, expr } => match convert_cond_com(expr, depth) {
            None => None,
            Some(e) => Some(
                apply_negation(
                    Command::Conditional { line: node_line(*line, f.line), expr: e },
                    negated,
                ),
            ),
        },
        ForeignNode::Coproc { name, command } => match convert_child(command, depth + 1) {
            None => None,
            Some(b) => Some(
                apply_negation(
                    Command::Coproc {
                        line: node_line(0, f.line),
                        name: match name {
                            Some(n) => Some(n.clone()),
                            None => None,
                        },
                        body: Box::new(b),
                    },
                    negated,
                ),
            ),
        },
        ForeignNode::Unknown => None,
    }
}

} // verus!

verus! {

// ---------------------------------------------------------------------------
// Laws: structural invariants, pipeline flattening, bound enforcement.
// ---------------------------------------------------------------------------

/// Well-formedness of a pipeline's stage list: every stage is well-formed
/// and none is itself a pipeline.
pub open spec fn wf_stages(s: Seq<CommandV>) -> bool
    decreases s, 1int,
{
    forall|i: int| 0 <= i < s.len() ==> (wf_v(#[trigger] s[i]) && !(s[i] is Pipeline))
}

/// Well-formedness of a case-clause list: every action is well-formed.
pub open spec fn wf_clauses_v(s: Seq<CaseClauseV>) -> bool
    decreases s, 1int,
{
    forall|i: int| 0 <= i < s.len() ==> (match #[trigger] s[i].action {
        Some(a) => wf_v(*a),
        None => true,
    })
}

/// The structural invariants of a normalized command tree: every pipeline
/// has at least one stage and never directly contains another pipeline.
pub open spec fn wf_v(c: CommandV) -> bool
    decreases c, 0int,
{
    match c {
        CommandV::Simple { .. } => true,
        CommandV::Pipeline { commands, .. } => commands.len() >= 1 && wf_stages(commands),
        CommandV::List { left, right, .. } => wf_v(*left) && wf_v(*right),
        CommandV::For { body, .. } => wf_v(*body),
        CommandV::While { test, body, .. } => wf_v(*test) && wf_v(*body),
        CommandV::Until { test, body, .. } => wf_v(*test) && wf_v(*body),
        CommandV::If { condition, then_branch, else_branch, .. } => wf_v(*condition) && wf_v(
            *then_branch,
        ) && (match else_branch {
            Some(e) => wf_v(*e),
            None => true,
        }),
        CommandV::Case { clauses, .. } => wf_clauses_v(clauses),
        CommandV::Select { body, .. } => wf_v(*body),
        CommandV::Group { body, .. } => wf_v(*body),
        CommandV::Subshell { body, .. } => wf_v(*body),
        CommandV::FunctionDef { body, .. } => wf_v(*body),
        CommandV::Arithmetic { .. } => true,
        CommandV::ArithmeticFor { body, .. } => wf_v(*body),
        CommandV::Conditional { .. } => true,
        CommandV::Coproc { body, .. } => wf_v(*body),
    }
}

/// A well-formed command's stage contribution is a non-empty well-formed
/// stage list.
proof fn lemma_flat_wf(c: CommandV)
    requires
        wf_v(c),
    ensures
        wf_stages(flat_v(c)),
        flat_v(c).len() >= 1,
{
    reveal_with_fuel(wf_v, 2);
    if c is Pipeline {
    } else {
        assert(flat_v(c) == seq![c]);
        assert(forall|i: int|
            0 <= i < flat_v(c).len() ==> (wf_v(#[trigger] flat_v(c)[i]) && !(flat_v(c)[i]
                is Pipeline)));
    }
}

/// Well-formedness of a converted optional child.
proof fn lemma_norm_child_wf(l: Option<Box<ForeignCommand>>, depth: int)
    ensures
        norm_child(l, depth) matches Some(c) ==> wf_v(c),
    decreases l, 1int,
{
    match l {
        None => {},
        Some(f) => {
            lemma_normalize_wf(*f, depth);
        },
    }
}

/// Well-formedness of a converted case-clause list.
proof fn lemma_clauses_wf(l: Option<Box<ForeignPattern>>, fuel: nat, depth: int)
    ensures
        wf_clauses_v(conv_clauses_v(l, fuel, depth)),
    decreases l, 1int,
{
    reveal_with_fuel(wf_v, 2);
    reveal_with_fuel(norm_v, 2);
    match l {
        None => {},
        Some(p) => {
            if fuel == 0 {
            } else {
                match p.action {
                    Some(a) => {
                        lemma_normalize_wf(*a, depth + 1);
                    },
                    None => {},
                }
                lemma_clauses_wf(p.next, (fuel - 1) as nat, depth);
                let whole = conv_clauses_v(l, fuel, depth);
                let rest = conv_clauses_v(p.next, (fuel - 1) as nat, depth);
                assert forall|i: int| 0 <= i < whole.len() implies (match #[trigger] whole[i].action {
                    Some(a) => wf_v(*a),
                    None => true,
                }) by {
                    if i > 0 {
                        assert(whole[i] == rest[i - 1]);
                    }
                }
            }
        },
    }
}

/// Wrapping a well-formed non-pipeline value preserves well-formedness.
proof fn lemma_wrap_wf(x: CommandV, negated: bool)
    requires
        wf_v(x),
        !(x is Pipeline),
    ensures
        wf_v(wrap_neg(x, negated)),
{
    reveal_with_fuel(wf_v, 2);
    if negated {
        let s = seq![x];
        assert(forall|i: int|
            0 <= i < s.len() ==> (wf_v(#[trigger] s[i]) && !(s[i] is Pipeline)));
    }
}

/// Every command the normalizer builds satisfies the structural invariants:
/// each pipeline carries at least one stage, and a pipeline never directly
/// contains another pipeline.
#[verifier::rlimit(100)]
pub proof fn lemma_normalize_wf(f: ForeignCommand, depth: int)
    ensures
        norm_v(f, depth) matches Some(c) ==> wf_v(c),
    decreases f, 0int,
{
    reveal_with_fuel(wf_v, 2);
    reveal_with_fuel(norm_v, 2);
    if depth > MAX_DEPTH as int {
    } else {
        let negated = f.flags & CMD_INVERT_RETURN != 0;
        match f.node {
            ForeignNode::Simple { line, words, redirects } => {
                let ws = conv_words_v(words, MAX_LIST_LENGTH as nat);
                let asg = assigns_of(ws);
                let x = CommandV::Simple {
                    line: line_opt(line, f.line),
                    words: positionals_of(ws),
                    redirects: conv_redirs_v(redirects, MAX_LIST_LENGTH as nat) + conv_redirs_v(
                        f.redirects,
                        MAX_LIST_LENGTH as nat,
                    ),
                    assignments: if asg.len() == 0 {
                        None
                    } else {
                        Some(asg)
                    },
                };
                lemma_wrap_wf(x, negated);
            },
            ForeignNode::Connection { connector, first, second } => {
                lemma_norm_child_wf(first, depth + 1);
                lemma_norm_child_wf(second, depth + 1);
                if connector == CONNECTOR_PIPE {
                    match (norm_child(first, depth + 1), norm_child(second, depth + 1)) {
                        (Some(a), Some(b)) => {
                            lemma_flat_wf(a);
                            lemma_flat_wf(b);
                            let s = flat_v(a) + flat_v(b);
                            assert(forall|i: int|
                                0 <= i < s.len() ==> (wf_v(#[trigger] s[i]) && !(s[i]
                                    is Pipeline)));
                        },
                        _ => {},
                    }
                } else {
                    match (norm_child(first, depth + 1), norm_child(second, depth + 1)) {
                        (Some(lc), Some(rc)) => {
                            let x = CommandV::List {
                                line: None,
                                op: list_op_of(connector),
                                left: Box::new(lc),
                                right: Box::new(rc),
                            };
                            lemma_wrap_wf(x, negated);
                        },
                        (Some(lc), None) => {
                            if list_op_of(connector) == ListOp::Amp {
                                let x = CommandV::List {
                                    line: None,
                                    op: ListOp::Amp,
                                    left: Box::new(lc),
                                    right: Box::new(empty_simple_v()),
                                };
                                lemma_wrap_wf(x, negated);
                            }
                        },
                        _ => {},
                    }
                }
            },
            ForeignNode::For { line, name, map_list, action } => {
                lemma_norm_child_wf(action, depth + 1);
                match (name, norm_child(action, depth + 1)) {
                    (Some(w), Some(b)) => {
                        let x = CommandV::For {
                            line: line_opt(line, f.line),
                            variable: w.text@,
                            words: conv_strings_v(map_list, MAX_LIST_LENGTH as nat),
                            body: Box::new(b),
                            redirects: conv_redirs_v(f.redirects, MAX_LIST_LENGTH as nat),
                        };
                        lemma_wrap_wf(x, negated);
                    },
                    _ => {},
                }
            },
            ForeignNode::While { test, action } => {
                lemma_norm_child_wf(test, depth + 1);
                lemma_norm_child_wf(action, depth + 1);
                match (norm_child(test, depth + 1), norm_child(action, depth + 1)) {
                    (Some(t), Some(b)) => {
                        let x = CommandV::While {
                            line: line_opt(0, f.line),
                            test: Box::new(t),
                            body: Box::new(b),
                            redirects: conv_redirs_v(f.redirects, MAX_LIST_LENGTH as nat),
                        };
                        lemma_wrap_wf(x, negated);
                    },
                    _ => {},
                }
            },
            ForeignNode::Until { test, action } => {
                lemma_norm_child_wf(test, depth + 1);
                lemma_norm_child_wf(action, depth + 1);
                match (norm_child(test, depth + 1), norm_child(action, depth + 1)) {
                    (Some(t), Some(b)) => {
                        let x = CommandV::Until {
                            line: line_opt(0, f.line),
                            test: Box::new(t),
                            body: Box::new(b),
                            redirects: conv_redirs_v(f.redirects, MAX_LIST_LENGTH as nat),
                        };
                        lemma_wrap_wf(x, negated);
                    },
                    _ => {},
                }
            },
            ForeignNode::If { test, true_case, false_case } => {
                lemma_norm_child_wf(test, depth + 1);
                lemma_norm_child_wf(true_case, depth + 1);
                match (norm_child(test, depth + 1), norm_child(true_case, depth + 1)) {
                    (Some(c), Some(t)) => {
                        match false_case {
                            None => {
                                let x = CommandV::If {
                                    line: line_opt(0, f.line),
                                    condition: Box::new(c),
                                    then_branch: Box::new(t),
                                    else_branch: None,
                                    redirects: conv_redirs_v(f.redirects, MAX_LIST_LENGTH as nat),
                                };
                                lemma_wrap_wf(x, negated);
                            },
                            Some(fc) => {
                                lemma_normalize_wf(*fc, depth + 1);
                                match norm_v(*fc, depth + 1) {
                                    None => {},
                                    Some(e) => {
                                        let x = CommandV::If {
                                            line: line_opt(0, f.line),
                                            condition: Box::new(c),
                                            then_branch: Box::new(t),
                                            else_branch: Some(Box::new(e)),
                                            redirects: conv_redirs_v(
                                                f.redirects,
                                                MAX_LIST_LENGTH as nat,
                                            ),
                                        };
                                        lemma_wrap_wf(x, negated);
                                    },
                                }
                            },
                        }
                    },
                    _ => {},
                }
            },
            ForeignNode::Case { line, word, clauses } => {
                lemma_clauses_wf(clauses, MAX_LIST_LENGTH as nat, depth);
                match word {
                    Some(w) => {
                        let x = CommandV::Case {
                            line: line_opt(line, f.line),
                            word: w.text@,
                            clauses: conv_clauses_v(clauses, MAX_LIST_LENGTH as nat, depth),
                            redirects: conv_redirs_v(f.redirects, MAX_LIST_LENGTH as nat),
                        };
                        lemma_wrap_wf(x, negated);
                    },
                    None => {},
                }
            },
            ForeignNode::Select { line, name, map_list, action } => {
                lemma_norm_child_wf(action, depth + 1);
                match (name, norm_child(action, depth + 1)) {
                    (Some(w), Some(b)) => {
                        let x = CommandV::Select {
                            line: line_opt(line, f.line),
                            variable: w.text@,
                            words: conv_strings_v(map_list, MAX_LIST_LENGTH as nat),
                            body: Box::new(b),
                            redirects: conv_redirs_v(f.redirects, MAX_LIST_LENGTH as nat),
                        };
                        lemma_wrap_wf(x, negated);
                    },
                    _ => {},
                }
            },
            ForeignNode::Group { command } => {
                lemma_norm_child_wf(command, depth + 1);
                match norm_child(command, depth + 1) {
                    Some(b) => {
                        let x = CommandV::Group {
                            line: line_opt(0, f.line),
                            body: Box::new(b),
                            redirects: conv_redirs_v(f.redirects, MAX_LIST_LENGTH as nat),
                        };
                        lemma_wrap_wf(x, negated);
                    },
                    None => {},
                }
            },
            ForeignNode::Subshell { line, command } => {
                lemma_norm_child_wf(command, depth + 1);
                match norm_child(command, depth + 1) {
                    Some(b) => {
                        let x = CommandV::Subshell {
                            line: line_opt(line, f.line),
                            body: Box::new(b),
                            redirects: conv_redirs_v(f.redirects, MAX_LIST_LENGTH as nat),
                        };
                        lemma_wrap_wf(x, negated);
                    },
                    None => {},
                }
            },
            ForeignNode::FunctionDef { name, command, source_file } => {
                lemma_norm_child_wf(command, depth + 1);
                match (name, norm_child(command, depth + 1)) {
                    (Some(w), Some(b)) => {
                        let x = CommandV::FunctionDef {
                            line: line_opt(0, f.line),
                            name: w.text@,
                            body: Box::new(b),
                            source_file: match source_file {
                                Some(s) => Some(s@),
                                None => None,
                            },
                        };
                        lemma_wrap_wf(x, negated);
                    },
                    _ => {},
                }
            },
            ForeignNode::Arith { line, exp } => {
                let x = CommandV::Arithmetic {
                    line: line_opt(line, f.line),
                    expression: arith_text(exp, MAX_LIST_LENGTH as nat),
                };
                lemma_wrap_wf(x, negated);
            },
            ForeignNode::ArithFor { line, init, test, step, action } => {
                lemma_norm_child_wf(action, depth + 1);
                match norm_child(action, depth + 1) {
                    Some(b) => {
                        let x = CommandV::ArithmeticFor {
                            line: line_opt(line, f.line),
                            init: arith_text(init, MAX_LIST_LENGTH as nat),
                            test: arith_text(test, MAX_LIST_LENGTH as nat),
                            step: arith_text(step, MAX_LIST_LENGTH as nat),
                            body: Box::new(b),
                        };
                        lemma_wrap_wf(x, negated);
                    },
                    None => {},
                }
            },
            ForeignNode::Cond { line, expr } => {
                match conv_cond_v(expr, depth) {
                    Some(e) => {
                        let x = CommandV::Conditional { line: line_opt(line, f.line), expr: e };
                        lemma_wrap_wf(x, negated);
                    },
                    None => {},
                }
            },
            ForeignNode::Coproc { name, command } => {
                lemma_norm_child_wf(command, depth + 1);
                match norm_child(command, depth + 1) {
                    Some(b) => {
                        let x = CommandV::Coproc {
                            line: line_opt(0, f.line),
                            name: match name {
                                Some(n) => Some(n@),
                                None => None,
                            },
                            body: Box::new(b),
                        };
                        lemma_wrap_wf(x, negated);
                    },
                    None => {},
                }
            },
            ForeignNode::Unknown => {},
        }
    }
}

/// The number of pipe stages a foreign tree stands for: a pipe connector
/// contributes its two sides' stages, anything else is one stage, whatever
/// the nesting shape.
pub open spec fn pipe_leaves(f: ForeignCommand) -> nat
    decreases f, 0int,
{
    match f.node {
        ForeignNode::Connection { connector, first, second } => if connector == CONNECTOR_PIPE {
            leaf_child(first) + leaf_child(second)
        } else {
            1
        },
        _ => 1,
    }
}

/// The stage count of an optional pipe-chain child.
pub open spec fn leaf_child(l: Option<Box<ForeignCommand>>) -> nat
    decreases l, 1int,
{
    match l {
        Some(a) => pipe_leaves(*a),
        None => 1,
    }
}

/// The stage contribution of a wrapped non-pipeline value is one stage.
proof fn lemma_flat_wrap(x: CommandV, negated: bool)
    requires
        !(x is Pipeline),
    ensures
        flat_v(wrap_neg(x, negated)).len() == 1,
{
}

/// Stage counts of every conversion: a converted command contributes exactly
/// the foreign tree's stage count when spliced into a pipeline.
proof fn lemma_flat_count(f: ForeignCommand, depth: int)
    ensures
        norm_v(f, depth) matches Some(c) ==> flat_v(c).len() == pipe_leaves(f),
    decreases f, 0int,
{
    reveal_with_fuel(norm_v, 2);
    if depth > MAX_DEPTH as int {
    } else {
        let negated = f.flags & CMD_INVERT_RETURN != 0;
        match f.node {
            ForeignNode::Connection { connector, first, second } => {
                lemma_flat_count_child(first, depth + 1);
                lemma_flat_count_child(second, depth + 1);
                if connector != CONNECTOR_PIPE {
                    match (norm_child(first, depth + 1), norm_child(second, depth + 1)) {
                        (Some(lc), Some(rc)) => {
                            let x = CommandV::List {
                                line: None,
                                op: list_op_of(connector),
                                left: Box::new(lc),
                                right: Box::new(rc),
                            };
                            lemma_flat_wrap(x, negated);
                        },
                        (Some(lc), None) => {
                            if list_op_of(connector) == ListOp::Amp {
                                let x = CommandV::List {
                                    line: None,
                                    op: ListOp::Amp,
                                    left: Box::new(lc),
                                    right: Box::new(empty_simple_v()),
                                };
                                lemma_flat_wrap(x, negated);
                            }
                        },
                        _ => {},
                    }
                }
            },
            _ => {
                match norm_v(f, depth) {
                    Some(c) => {
                        lemma_normalize_wrap_shape(f, depth);
                    },
                    None => {},
                }
            },
        }
    }
}

/// Every successful conversion of a non-connection node contributes exactly
/// one stage.
proof fn lemma_normalize_wrap_shape(f: ForeignCommand, depth: int)
    requires
        !(f.node is Connection),
    ensures
        norm_v(f, depth) matches Some(c) ==> flat_v(c).len() == 1,
{
    reveal_with_fuel(norm_v, 2);
    if depth > MAX_DEPTH as int {
    } else {
        let negated = f.flags & CMD_INVERT_RETURN != 0;
        match norm_v(f, depth) {
            Some(c) => {
                if negated {
                    assert(c is Pipeline);
                } else {
                    assert(!(c is Pipeline));
                }
            },
            None => {},
        }
    }
}

/// Stage counts of converted optional children.
proof fn lemma_flat_count_child(l: Option<Box<ForeignCommand>>, depth: int)
    ensures
        norm_child(l, depth) matches Some(c) ==> flat_v(c).len() == leaf_child(l),
    decreases l, 1int,
{
    match l {
        None => {},
        Some(f) => {
            lemma_flat_count(*f, depth);
        },
    }
}

/// Every foreign tree stands for at least one stage.
proof fn lemma_pipe_leaves_pos(f: ForeignCommand)
    ensures
        pipe_leaves(f) >= 1,
    decreases f, 0int,
{
    match f.node {
        ForeignNode::Connection { connector, first, second } => {
            if connector == CONNECTOR_PIPE {
                lemma_leaf_child_pos(first);
                lemma_leaf_child_pos(second);
            }
        },
        _ => {},
    }
}

/// Every optional pipe-chain child stands for at least one stage.
proof fn lemma_leaf_child_pos(l: Option<Box<ForeignCommand>>)
    ensures
        leaf_child(l) >= 1,
    decreases l, 1int,
{
    match l {
        None => {},
        Some(f) => {
            lemma_pipe_leaves_pos(*f);
        },
    }
}

/// Pipeline flattening idempotence: normalizing a pipe-connector tree of N
/// foreign stages yields, whenever it succeeds, one pipeline with exactly N
/// stages (N at least 2), regardless of the left/right nesting shape of the
/// foreign tree.
pub proof fn lemma_pipeline_flattening(f: ForeignCommand, depth: int)
    requires
        f.node matches ForeignNode::Connection { connector, .. } && connector == CONNECTOR_PIPE,
    ensures
        norm_v(f, depth) matches Some(c) ==> (c matches CommandV::Pipeline { commands, .. }
            && commands.len() == pipe_leaves(f)),
        pipe_leaves(f) >= 2,
{
    lemma_flat_count(f, depth);
    match f.node {
        ForeignNode::Connection { connector, first, second } => {
            lemma_leaf_child_pos(first);
            lemma_leaf_child_pos(second);
        },
        _ => {},
    }
}

/// The larger of two counts.
pub open spec fn max_nat(a: nat, b: nat) -> nat {
    if a >= b {
        a
    } else {
        b
    }
}

/// The deepest chain of required children below a foreign node: children the
/// conversion must descend into, and whose failure fails the node. A case
/// clause's action and the swallowed right side of a background connection
/// are not required; a missing required child fails the node outright, so it
/// counts as depth 0 here.
pub open spec fn required_nest(f: ForeignCommand) -> nat
    decreases f, 1int,
{
    match f.node {
        ForeignNode::Connection { connector, first, second } => {
            if connector != CONNECTOR_PIPE && list_op_of(connector) == ListOp::Amp {
                1 + nest_child(first)
            } else {
                1 + max_nat(nest_child(first), nest_child(second))
            }
        },
        ForeignNode::For { action, .. } => 1 + nest_child(action),
        ForeignNode::While { test, action } => 1 + max_nat(nest_child(test), nest_child(action)),
        ForeignNode::Until { test, action } => 1 + max_nat(nest_child(test), nest_child(action)),
        ForeignNode::If { test, true_case, false_case } => 1 + max_nat(
            max_nat(nest_child(test), nest_child(true_case)),
            nest_child(false_case),
        ),
        ForeignNode::Select { action, .. } => 1 + nest_child(action),
        ForeignNode::Group { command } => 1 + nest_child(command),
        ForeignNode::Subshell { command, .. } => 1 + nest_child(command),
        ForeignNode::FunctionDef { command, .. } => 1 + nest_child(command),
        ForeignNode::ArithFor { action, .. } => 1 + nest_child(action),
        ForeignNode::Coproc { command, .. } => 1 + nest_child(command),
        _ => 0,
    }
}

/// The required nesting below an optional child; an absent child is depth 0.
pub open spec fn nest_child(l: Option<Box<ForeignCommand>>) -> nat
    decreases l, 2int,
{
    match l {
        Some(a) => required_nest(*a),
        None => 0,
    }
}

/// Bound enforcement: a foreign tree whose required children nest deeper
/// than the remaining depth budget converts to a failure, never descending
/// past the ceiling.
pub proof fn lemma_depth_bound(f: ForeignCommand, depth: int)
    requires
        0 <= depth,
        depth + required_nest(f) > MAX_DEPTH as int,
    ensures
        norm_v(f, depth) is None,
    decreases f, 1int,
{
    reveal_with_fuel(norm_v, 2);
    if depth > MAX_DEPTH as int {
    } else {
        match f.node {
            ForeignNode::Connection { connector, first, second } => {
                if depth + 1 + nest_child(first) > MAX_DEPTH as int {
                    lemma_depth_bound_child(first, depth + 1);
                }
                if depth + 1 + nest_child(second) > MAX_DEPTH as int {
                    lemma_depth_bound_child(second, depth + 1);
                }
            },
            ForeignNode::For { action, .. } => {
                lemma_depth_bound_child(action, depth + 1);
            },
            ForeignNode::While { test, action } => {
                if depth + 1 + nest_child(test) > MAX_DEPTH as int {
                    lemma_depth_bound_child(test, depth + 1);
                }
                if depth + 1 + nest_child(action) > MAX_DEPTH as int {
                    lemma_depth_bound_child(action, depth + 1);
                }
            },
            ForeignNode::Until { test, action } => {
                if depth + 1 + nest_child(test) > MAX_DEPTH as int {
                    lemma_depth_bound_child(test, depth + 1);
                }
                if depth + 1 + nest_child(action) > MAX_DEPTH as int {
                    lemma_depth_bound_child(action, depth + 1);
                }
            },
            ForeignNode::If { test, true_case, false_case } => {
                if depth + 1 + nest_child(test) > MAX_DEPTH as int {
                    lemma_depth_bound_child(test, depth + 1);
                }
                if depth + 1 + nest_child(true_case) > MAX_DEPTH as int {
                    lemma_depth_bound_child(true_case, depth + 1);
                }
                if depth + 1 + nest_child(false_case) > MAX_DEPTH as int {
                    lemma_depth_bound_child(false_case, depth + 1);
                }
            },
            ForeignNode::Select { action, .. } => {
                lemma_depth_bound_child(action, depth + 1);
            },
            ForeignNode::Group { command } => {
                lemma_depth_bound_child(command, depth + 1);
            },
            ForeignNode::Subshell { command, .. } => {
                lemma_depth_bound_child(command, depth + 1);
            },
            ForeignNode::FunctionDef { command, .. } => {
                lemma_depth_bound_child(command, depth + 1);
            },
            ForeignNode::ArithFor { action, .. } => {
                lemma_depth_bound_child(action, depth + 1);
            },
            ForeignNode::Coproc { command, .. } => {
                lemma_depth_bound_child(command, depth + 1);
            },
            _ => {
                assert(false);
            },
        }
    }
}

/// Bound enforcement below an optional required child: an absent child fails
/// the node by itself, a present one by the recursion.
proof fn lemma_depth_bound_child(l: Option<Box<ForeignCommand>>, depth: int)
    requires
        0 <= depth,
        depth + nest_child(l) > MAX_DEPTH as int,
    ensures
        norm_child(l, depth) is None,
    decreases l, 2int,
{
    match l {
        None => {},
        Some(a) => {
            lemma_depth_bound(*a, depth);
        },
    }
}

/// Bound enforcement from the top: a synthetic foreign tree nested beyond
/// the configured ceiling yields a conversion failure.
pub proof fn lemma_bound_enforcement(f: ForeignCommand)
    requires
        required_nest(f) > MAX_DEPTH as int,
    ensures
        norm_v(f, 0) is None,
{
    lemma_depth_bound(f, 0);
}

} // verus!
