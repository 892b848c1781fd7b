//! The mathematical model of the canonical AST: mirror types whose strings
//! are `Seq<char>` and whose lists are `Seq`, together with the deep view
//! that maps every [`Command`] tree onto the model.
//!
//! The normalizer's contracts are stated over these types: the deep view of
//! the `Command` it builds equals the model value computed by the spec-level
//! conversion.

use vstd::prelude::*;

use crate::ast::CaseClause;
use crate::ast::CaseClauseFlags;
use crate::ast::Command;
use crate::ast::ConditionalExpr;
use crate::ast::ListOp;
use crate::ast::Redirect;
use crate::ast::RedirectTarget;
use crate::ast::RedirectType;
use crate::ast::Word;

verus! {

/// Model of a [`Word`].
pub struct WordV {
    pub word: Seq<char>,
    pub flags: u32,
}

/// Model of a [`RedirectTarget`].
pub enum RedirectTargetV {
    File(Seq<char>),
    Fd(i32),
}

/// Model of a [`Redirect`].
pub struct RedirectV {
    pub direction: RedirectType,
    pub source_fd: Option<i32>,
    pub target: RedirectTargetV,
    pub here_doc_eof: Option<Seq<char>>,
}

/// Model of a [`CaseClause`].
pub struct CaseClauseV {
    pub patterns: Seq<Seq<char>>,
    pub action: Option<Box<CommandV>>,
    pub flags: Option<CaseClauseFlags>,
}

/// Model of a [`ConditionalExpr`].
pub enum CondV {
    Unary { op: Seq<char>, arg: Seq<char> },
    Binary { op: Seq<char>, left: Seq<char>, right: Seq<char> },
    And { left: Box<CondV>, right: Box<CondV> },
    Or { left: Box<CondV>, right: Box<CondV> },
    Not { expr: Box<CondV> },
    Term { word: Seq<char> },
    Expr { expr: Box<CondV> },
}

/// Model of a [`Command`].
pub enum CommandV {
    Simple {
        line: Option<u32>,
        words: Seq<WordV>,
        redirects: Seq<RedirectV>,
        assignments: Option<Seq<Seq<char>>>,
    },
    Pipeline { line: Option<u32>, commands: Seq<CommandV>, negated: bool },
    List { line: Option<u32>, op: ListOp, left: Box<CommandV>, right: Box<CommandV> },
    For {
        line: Option<u32>,
        variable: Seq<char>,
        words: Option<Seq<Seq<char>>>,
        body: Box<CommandV>,
        redirects: Seq<RedirectV>,
    },
    While {
        line: Option<u32>,
        test: Box<CommandV>,
        body: Box<CommandV>,
        redirects: Seq<RedirectV>,
    },
    Until {
        line: Option<u32>,
        test: Box<CommandV>,
        body: Box<CommandV>,
        redirects: Seq<RedirectV>,
    },
    If {
        line: Option<u32>,
        condition: Box<CommandV>,
        then_branch: Box<CommandV>,
        else_branch: Option<Box<CommandV>>,
        redirects: Seq<RedirectV>,
    },
    Case {
        line: Option<u32>,
        word: Seq<char>,
        clauses: Seq<CaseClauseV>,
        redirects: Seq<RedirectV>,
    },
    Select {
        line: Option<u32>,
        variable: Seq<char>,
        words: Option<Seq<Seq<char>>>,
        body: Box<CommandV>,
        redirects: Seq<RedirectV>,
    },
    Group { line: Option<u32>, body: Box<CommandV>, redirects: Seq<RedirectV> },
    Subshell { line: Option<u32>, body: Box<CommandV>, redirects: Seq<RedirectV> },
    FunctionDef {
        line: Option<u32>,
        name: Seq<char>,
        body: Box<CommandV>,
        source_file: Option<Seq<char>>,
    },
    Arithmetic { line: Option<u32>, expression: Seq<char> },
    ArithmeticFor {
        line: Option<u32>,
        init: Seq<char>,
        test: Seq<char>,
        step: Seq<char>,
        body: Box<CommandV>,
    },
    Conditional { line: Option<u32>, expr: CondV },
    Coproc { line: Option<u32>, name: Option<Seq<char>>, body: Box<CommandV> },
}

impl Word {
    /// Deep view of a word.
    pub open spec fn deep(&self) -> WordV {
        WordV { word: self.word@, flags: self.flags }
    }
}

impl Redirect {
    /// Deep view of a redirect.
    pub open spec fn deep(&self) -> RedirectV {
        RedirectV {
            direction: self.direction,
            source_fd: self.source_fd,
            target: match self.target {
                RedirectTarget::File(f) => RedirectTargetV::File(f@),
                RedirectTarget::Fd(n) => RedirectTargetV::Fd(n),
            },
            here_doc_eof: match self.here_doc_eof {
                Some(e) => Some(e@),
                None => None,
            },
        }
    }
}

/// Deep view of a word list.
pub open spec fn deep_words(s: Seq<Word>) -> Seq<WordV> {
    s.map_values(|w: Word| w.deep())
}

/// Deep view of a redirect list.
pub open spec fn deep_redirects(s: Seq<Redirect>) -> Seq<RedirectV> {
    s.map_values(|r: Redirect| r.deep())
}

/// Deep view of a string list.
pub open spec fn deep_strs(s: Seq<String>) -> Seq<Seq<char>> {
    s.map_values(|x: String| x@)
}

/// Deep view of an optional string list.
pub open spec fn deep_strs_opt(s: Option<Vec<String>>) -> Option<Seq<Seq<char>>> {
    match s {
        Some(v) => Some(deep_strs(v@)),
        None => None,
    }
}

/// Deep view of an optional string.
pub open spec fn deep_str_opt(s: Option<String>) -> Option<Seq<char>> {
    match s {
        Some(x) => Some(x@),
        None => None,
    }
}

impl ConditionalExpr {
    /// Deep view of a conditional expression.
    pub open spec fn deep(&self) -> CondV
        decreases self,
    {
        match self {
            ConditionalExpr::Unary { op, arg } => CondV::Unary { op: op@, arg: arg@ },
            ConditionalExpr::Binary { op, left, right } => CondV::Binary {
                op: op@,
                left: left@,
                right: right@,
            },
            ConditionalExpr::And { left, right } => CondV::And {
                left: Box::new(left.deep()),
                right: Box::new(right.deep()),
            },
            ConditionalExpr::Or { left, right } => CondV::Or {
                left: Box::new(left.deep()),
                right: Box::new(right.deep()),
            },
            ConditionalExpr::Not { expr } => CondV::Not { expr: Box::new(expr.deep()) },
            ConditionalExpr::Term { word } => CondV::Term { word: word@ },
            ConditionalExpr::Expr { expr } => CondV::Expr { expr: Box::new(expr.deep()) },
        }
    }
}

impl Command {
    /// Deep view of a command tree.
    pub open spec fn deep(&self) -> CommandV
        decreases self, 0int,
    {
        match self {
            Command::Simple { line, words, redirects, assignments } => CommandV::Simple {
                line: *line,
                words: deep_words(words@),
                redirects: deep_redirects(redirects@),
                assignments: deep_strs_opt(*assignments),
            },
            Command::Pipeline { line, commands, negated } => CommandV::Pipeline {
                line: *line,
                commands: deep_cmds(commands@),
                negated: *negated,
            },
            Command::List { line, op, left, right } => CommandV::List {
                line: *line,
                op: *op,
                left: Box::new(left.deep()),
                right: Box::new(right.deep()),
            },
            Command::For { line, variable, words, body, redirects } => CommandV::For {
                line: *line,
                variable: variable@,
                words: deep_strs_opt(*words),
                body: Box::new(body.deep()),
                redirects: deep_redirects(redirects@),
            },
            Command::While { line, test, body, redirects } => CommandV::While {
                line: *line,
                test: Box::new(test.deep()),
                body: Box::new(body.deep()),
                redirects: deep_redirects(redirects@),
            },
            Command::Until { line, test, body, redirects } => CommandV::Until {
                line: *line,
                test: Box::new(test.deep()),
                body: Box::new(body.deep()),
                redirects: deep_redirects(redirects@),
            },
            Command::If { line, condition, then_branch, else_branch, redirects } => CommandV::If {
                line: *line,
                condition: Box::new(condition.deep()),
                then_branch: Box::new(then_branch.deep()),
                else_branch: match else_branch {
                    Some(e) => Some(Box::new(e.deep())),
                    None => None,
                },
                redirects: deep_redirects(redirects@),
            },
            Command::Case { line, word, clauses, redirects } => CommandV::Case {
                line: *line,
                word: word@,
                clauses: deep_clauses(clauses@),
                redirects: deep_redirects(redirects@),
            },
            Command::Select { line, variable, words, body, redirects } => CommandV::Select {
                line: *line,
                variable: variable@,
                words: deep_strs_opt(*words),
                body: Box::new(body.deep()),
                redirects: deep_redirects(redirects@),
            },
            Command::Group { line, body, redirects } => CommandV::Group {
                line: *line,
                body: Box::new(body.deep()),
                redirects: deep_redirects(redirects@),
            },
            Command::Subshell { line, body, redirects } => CommandV::Subshell {
                line: *line,
                body: Box::new(body.deep()),
                redirects: deep_redirects(redirects@),
            },
            Command::FunctionDef { line, name, body, source_file } => CommandV::FunctionDef {
                line: *line,
                name: name@,
                body: Box::new(body.deep()),
                source_file: deep_str_opt(*source_file),
            },
            Command::Arithmetic { line, expression } => CommandV::Arithmetic {
                line: *line,
                expression: expression@,
            },
            Command::ArithmeticFor { line, init, test, step, body } => CommandV::ArithmeticFor {
                line: *line,
                init: init@,
                test: test@,
                step: step@,
                body: Box::new(body.deep()),
            },
            Command::Conditional { line, expr } => CommandV::Conditional {
                line: *line,
                expr: expr.deep(),
            },
            Command::Coproc { line, name, body } => CommandV::Coproc {
                line: *line,
                name: deep_str_opt(*name),
                body: Box::new(body.deep()),
            },
        }
    }
}

/// Deep view of a command sequence.
pub open spec fn deep_cmds(s: Seq<Command>) -> Seq<CommandV>
    decreases s, 1int,
{
    if s.len() == 0 {
        Seq::empty()
    } else {
        deep_cmds(s.subrange(0, s.len() - 1)).push(s[s.len() - 1].deep())
    }
}

/// Deep view of a case-clause sequence.
pub open spec fn deep_clauses(s: Seq<CaseClause>) -> Seq<CaseClauseV>
    decreases s, 1int,
{
    if s.len() == 0 {
        Seq::empty()
    } else {
        deep_clauses(s.subrange(0, s.len() - 1)).push(deep_clause(s[s.len() - 1]))
    }
}

/// Deep view of one case clause.
pub open spec fn deep_clause(cl: CaseClause) -> CaseClauseV
    decreases cl, 0int,
{
    CaseClauseV {
        patterns: deep_strs(cl.patterns@),
        action: match cl.action {
            Some(a) => Some(Box::new(a.deep())),
            None => None,
        },
        flags: match cl.flags {
            Some(f) => Some(CaseClauseFlags { fallthrough: f.fallthrough, test_next: f.test_next }),
            None => None,
        },
    }
}

/// Deep view of an optional conditional expression.
pub open spec fn deep_cond_opt(r: Option<ConditionalExpr>) -> Option<CondV> {
    match r {
        Some(e) => Some(e.deep()),
        None => None,
    }
}

/// Deep view of an optional command.
pub open spec fn deep_opt(r: Option<Command>) -> Option<CommandV> {
    match r {
        Some(c) => Some(c.deep()),
        None => None,
    }
}

} // verus!
