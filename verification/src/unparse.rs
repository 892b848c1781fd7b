//! The unparser: serializes a canonical [`Command`] tree back into shell
//! source text.
//!
//! The text produced for a tree is defined by the spec functions in this
//! module (`u_command` and its helpers); the executable functions are proved
//! to emit exactly that text. Serialization is total: it never fails.
//!
//! Hard cases handled here:
//! - here-documents: the `<<EOF` marker is emitted inline with the other
//!   redirects, while the literal body and closing delimiter are emitted only
//!   after the full logical command line;
//! - `;`-joined commands switch their joiner from `; ` to a real newline when
//!   the left operand carries a here-document;
//! - `&&`/`||`-joined commands defer here-document bodies and emit them after
//!   the right operand, once per here-document, in left-to-right discovery
//!   order over the whole left subtree;
//! - redirect file-descriptor elision, elif reconstruction, and background
//!   joiners.

use vstd::prelude::*;
use vstd::string::StringExecFns;

use crate::ast::CaseClause;
use crate::ast::Command;
use crate::ast::ConditionalExpr;
use crate::ast::ListOp;
use crate::ast::Redirect;
use crate::ast::RedirectTarget;
use crate::ast::RedirectType;
use crate::ast::Word;
use crate::text::int_str;
use crate::text::push_i32;
use crate::text::str_eq;
use crate::text::ends_with_char;

verus! {

// ---------------------------------------------------------------------------
// Spec model: the exact text generated for each construct.
// ---------------------------------------------------------------------------

/// Builtins that print assignment words after the command name instead of
/// before it.
pub open spec fn is_decl_builtin(w: Seq<char>) -> bool {
    ||| w == "local"@
    ||| w == "export"@
    ||| w == "declare"@
    ||| w == "readonly"@
    ||| w == "typeset"@
}

/// `true` for the reserved empty placeholder command that stands for the
/// absent right operand of a background list.
pub open spec fn is_empty_simple(c: Command) -> bool {
    &&& c matches Command::Simple { words, redirects, assignments, .. }
    &&& words@.len() == 0
    &&& redirects@.len() == 0
    &&& assignments is None
}

/// Words joined by single spaces: `w0 w1 w2`.
pub open spec fn u_words_sp(ws: Seq<Word>) -> Seq<char>
    decreases ws.len(),
{
    if ws.len() == 0 {
        Seq::empty()
    } else {
        u_words_sp(ws.subrange(0, ws.len() - 1)) + (if ws.len() == 1 {
            Seq::<char>::empty()
        } else {
            " "@
        }) + ws[ws.len() - 1].word@
    }
}

/// Strings joined by single spaces: `a b c`.
pub open spec fn u_strs_sp(ss: Seq<String>) -> Seq<char>
    decreases ss.len(),
{
    if ss.len() == 0 {
        Seq::empty()
    } else {
        u_strs_sp(ss.subrange(0, ss.len() - 1)) + (if ss.len() == 1 {
            Seq::<char>::empty()
        } else {
            " "@
        }) + ss[ss.len() - 1]@
    }
}

/// Strings each prefixed by one space: ` a b c`.
pub open spec fn u_strs_pre_sp(ss: Seq<String>) -> Seq<char>
    decreases ss.len(),
{
    if ss.len() == 0 {
        Seq::empty()
    } else {
        u_strs_pre_sp(ss.subrange(0, ss.len() - 1)) + " "@ + ss[ss.len() - 1]@
    }
}

/// Case patterns joined by `|`: `p0|p1`.
pub open spec fn u_patterns(ps: Seq<String>) -> Seq<char>
    decreases ps.len(),
{
    if ps.len() == 0 {
        Seq::empty()
    } else {
        u_patterns(ps.subrange(0, ps.len() - 1)) + (if ps.len() == 1 {
            Seq::<char>::empty()
        } else {
            "|"@
        }) + ps[ps.len() - 1]@
    }
}

/// The implicit default source file descriptor of a redirect operator
/// (`-1` when the operator takes no source descriptor at all).
pub open spec fn default_fd(d: RedirectType) -> int {
    match d {
        RedirectType::Input => 0,
        RedirectType::HereString => 0,
        RedirectType::DupInput => 0,
        RedirectType::MoveInput => 0,
        RedirectType::InputOutput => 0,
        RedirectType::Output => 1,
        RedirectType::Append => 1,
        RedirectType::Clobber => 1,
        RedirectType::DupOutput => 1,
        RedirectType::MoveOutput => 1,
        _ => -1,
    }
}

/// The operator token of a (non-here-document, non-close) redirect.
pub open spec fn redirect_op(d: RedirectType) -> Seq<char> {
    match d {
        RedirectType::Input => "<"@,
        RedirectType::Output => ">"@,
        RedirectType::Append => ">>"@,
        RedirectType::HereString => "<<<"@,
        RedirectType::InputOutput => "<>"@,
        RedirectType::Clobber => ">|"@,
        RedirectType::DupInput => "<&"@,
        RedirectType::MoveInput => "<&"@,
        RedirectType::DupOutput => ">&"@,
        RedirectType::MoveOutput => ">&"@,
        RedirectType::ErrAndOut => "&>"@,
        RedirectType::AppendErrAndOut => "&>>"@,
        _ => Seq::empty(),
    }
}

/// The here-document delimiter of a redirect (`EOF` when unset).
pub open spec fn u_eof(r: Redirect) -> Seq<char> {
    match r.here_doc_eof {
        Some(e) => e@,
        None => "EOF"@,
    }
}

/// The inline here-document marker: `<<EOF`, with a source descriptor prefix
/// when one other than 0 is recorded.
pub open spec fn u_heredoc_marker(r: Redirect) -> Seq<char> {
    (match r.source_fd {
        Some(fd) => if fd != 0 {
            int_str(fd as int)
        } else {
            Seq::<char>::empty()
        },
        None => Seq::<char>::empty(),
    }) + "<<"@ + u_eof(r)
}

/// The here-document body followed by its closing delimiter line.
pub open spec fn u_heredoc_content(r: Redirect) -> Seq<char> {
    match r.target {
        RedirectTarget::File(content) => content@ + (if content@.len() > 0 && content@[content@.len()
            - 1] == '\n' {
            Seq::<char>::empty()
        } else {
            "\n"@
        }) + u_eof(r),
        RedirectTarget::Fd(_) => Seq::empty(),
    }
}

/// The text of one non-here-document redirect.
///
/// The source descriptor is omitted exactly when it is absent or equals the
/// operator's implicit default; a file target is separated from the operator
/// by one space; a descriptor target follows the operator directly, with a
/// trailing `-` for the move operators.
pub open spec fn u_redirect(r: Redirect) -> Seq<char> {
    if r.direction == RedirectType::Close {
        (match r.source_fd {
            Some(fd) => int_str(fd as int),
            None => Seq::<char>::empty(),
        }) + ">&-"@
    } else {
        (match r.source_fd {
            Some(fd) => if fd as int != default_fd(r.direction) && r.direction
                != RedirectType::ErrAndOut && r.direction != RedirectType::AppendErrAndOut {
                int_str(fd as int)
            } else {
                Seq::<char>::empty()
            },
            None => Seq::<char>::empty(),
        }) + redirect_op(r.direction) + (match r.target {
            RedirectTarget::File(f) => " "@ + f@,
            RedirectTarget::Fd(n) => int_str(n as int) + (if r.direction == RedirectType::MoveInput
                || r.direction == RedirectType::MoveOutput {
                "-"@
            } else {
                Seq::<char>::empty()
            }),
        })
    }
}

/// First pass over a redirect list: every non-here-document redirect,
/// each preceded by one space.
pub open spec fn u_redirs_plain(rs: Seq<Redirect>) -> Seq<char>
    decreases rs.len(),
{
    if rs.len() == 0 {
        Seq::empty()
    } else {
        u_redirs_plain(rs.subrange(0, rs.len() - 1)) + (if rs[rs.len() - 1].direction
            != RedirectType::HereDoc {
            " "@ + u_redirect(rs[rs.len() - 1])
        } else {
            Seq::<char>::empty()
        })
    }
}

/// Second pass: every here-document marker, each preceded by one space.
pub open spec fn u_redirs_markers(rs: Seq<Redirect>) -> Seq<char>
    decreases rs.len(),
{
    if rs.len() == 0 {
        Seq::empty()
    } else {
        u_redirs_markers(rs.subrange(0, rs.len() - 1)) + (if rs[rs.len() - 1].direction
            == RedirectType::HereDoc {
            " "@ + u_heredoc_marker(rs[rs.len() - 1])
        } else {
            Seq::<char>::empty()
        })
    }
}

/// Third pass: every here-document body, each preceded by a newline.
pub open spec fn u_redirs_bodies(rs: Seq<Redirect>) -> Seq<char>
    decreases rs.len(),
{
    if rs.len() == 0 {
        Seq::empty()
    } else {
        u_redirs_bodies(rs.subrange(0, rs.len() - 1)) + (if rs[rs.len() - 1].direction
            == RedirectType::HereDoc {
            "\n"@ + u_heredoc_content(rs[rs.len() - 1])
        } else {
            Seq::<char>::empty()
        })
    }
}

/// The text of a redirect list: plain redirects, then here-document markers,
/// then (when `inc` holds) here-document bodies.
pub open spec fn u_redirects(rs: Seq<Redirect>, inc: bool) -> Seq<char> {
    u_redirs_plain(rs) + u_redirs_markers(rs) + (if inc {
        u_redirs_bodies(rs)
    } else {
        Seq::<char>::empty()
    })
}

/// The text of a simple command: assignment words, command words and
/// redirects, with assignments placed after the name for declaration
/// builtins and before it otherwise.
pub open spec fn u_simple(
    ws: Seq<Word>,
    rs: Seq<Redirect>,
    asg: Option<Seq<String>>,
    inc: bool,
) -> Seq<char> {
    (if ws.len() > 0 && is_decl_builtin(ws[0].word@) {
        u_words_sp(ws) + (match asg {
            Some(a) => u_strs_pre_sp(a),
            None => Seq::<char>::empty(),
        })
    } else {
        (match asg {
            Some(a) => u_strs_sp(a) + (if ws.len() > 0 {
                " "@
            } else {
                Seq::<char>::empty()
            }),
            None => Seq::<char>::empty(),
        }) + u_words_sp(ws)
    }) + u_redirects(rs, inc)
}

/// True when some redirect in the list is a here-document.
pub open spec fn redirs_have_heredoc(rs: Seq<Redirect>) -> bool
    decreases rs.len(),
{
    if rs.len() == 0 {
        false
    } else {
        redirs_have_heredoc(rs.subrange(0, rs.len() - 1)) || rs[rs.len() - 1].direction
            == RedirectType::HereDoc
    }
}

/// True when the command's subtree carries a here-document redirect.
pub open spec fn has_heredoc(c: Command) -> bool
    decreases c, 0int,
{
    match c {
        Command::List { left, right, .. } => has_heredoc(*left) || has_heredoc(*right),
        Command::Pipeline { commands, .. } => cmds_have_heredoc(commands@),
        _ => match c.spec_redirects() {
            Some(rs) => redirs_have_heredoc(rs),
            None => false,
        },
    }
}

/// True when some command in the sequence carries a here-document redirect.
pub open spec fn cmds_have_heredoc(s: Seq<Command>) -> bool
    decreases s, 0int,
{
    if s.len() == 0 {
        false
    } else {
        cmds_have_heredoc(s.subrange(0, s.len() - 1)) || has_heredoc(s[s.len() - 1])
    }
}

/// The deferred here-document bodies of a whole subtree, in left-to-right
/// discovery order.
pub open spec fn u_deferred(c: Command) -> Seq<char>
    decreases c, 0int,
{
    match c {
        Command::List { left, right, .. } => u_deferred(*left) + u_deferred(*right),
        Command::Pipeline { commands, .. } => u_deferred_seq(commands@),
        _ => match c.spec_redirects() {
            Some(rs) => u_redirs_bodies(rs),
            None => Seq::empty(),
        },
    }
}

/// The deferred here-document bodies of a command sequence.
pub open spec fn u_deferred_seq(s: Seq<Command>) -> Seq<char>
    decreases s, 0int,
{
    if s.len() == 0 {
        Seq::empty()
    } else {
        u_deferred_seq(s.subrange(0, s.len() - 1)) + u_deferred(s[s.len() - 1])
    }
}

/// True when the command ends with a background operator, so that no `;` is
/// needed after it.
pub open spec fn ends_with_background(c: Command) -> bool
    decreases c,
{
    match c {
        Command::List { op, right, .. } => op == ListOp::Amp && (is_empty_simple(*right)
            || ends_with_background(*right)),
        _ => false,
    }
}

/// The line on which a command starts; for lists, the first line of the
/// leftmost operand.
pub open spec fn first_line(c: Command) -> Option<u32>
    decreases c,
{
    match c {
        Command::List { left, .. } => first_line(*left),
        _ => c.spec_line(),
    }
}

/// The line on which a command ends; for lists, the last line of the
/// rightmost operand.
pub open spec fn last_line(c: Command) -> Option<u32>
    decreases c,
{
    match c {
        Command::List { right, .. } => last_line(*right),
        _ => c.spec_line(),
    }
}

/// The text of a conditional expression inside `[[ ... ]]`.
pub open spec fn u_cond(e: ConditionalExpr) -> Seq<char>
    decreases e,
{
    match e {
        ConditionalExpr::Unary { op, arg } => op@ + " "@ + arg@,
        ConditionalExpr::Binary { op, left, right } => left@ + " "@ + op@ + " "@ + right@,
        ConditionalExpr::And { left, right } => u_cond(*left) + " && "@ + u_cond(*right),
        ConditionalExpr::Or { left, right } => u_cond(*left) + " || "@ + u_cond(*right),
        ConditionalExpr::Not { expr } => "! "@ + u_cond(*expr),
        ConditionalExpr::Term { word } => word@,
        ConditionalExpr::Expr { expr } => "( "@ + u_cond(*expr) + " )"@,
    }
}

/// The terminator token of a case clause: `;&` for fallthrough, `;;&` for
/// test-next, and `;;` otherwise (including when no flags are recorded).
pub open spec fn u_clause_terminator(cl: CaseClause) -> Seq<char> {
    match cl.flags {
        Some(f) => if f.fallthrough {
            ";&"@
        } else if f.test_next {
            ";;&"@
        } else {
            ";;"@
        },
        None => ";;"@,
    }
}

/// The joiner printed between the two operands of a list.
pub open spec fn u_list_joiner(op: ListOp, use_newline: bool, right_empty: bool) -> Seq<char> {
    match op {
        ListOp::And => " && "@,
        ListOp::Or => " || "@,
        ListOp::Semi => if use_newline {
            "\n"@
        } else {
            "; "@
        },
        ListOp::Amp => " &"@ + (if right_empty {
            Seq::<char>::empty()
        } else {
            " "@
        }),
        ListOp::Newline => "\n"@,
    }
}

/// Whether two optional line numbers are known and strictly ascending.
pub open spec fn lines_ascend(a: Option<u32>, b: Option<u32>) -> bool {
    match (a, b) {
        (Some(l), Some(r)) => r > l,
        _ => false,
    }
}

/// The full text generated for a command.
///
/// `inc` controls whether here-document bodies are included; it is false
/// while the command is the left operand of an `&&`/`||` list that defers
/// them, so each body is emitted exactly once.
pub open spec fn u_command(c: Command, inc: bool) -> Seq<char>
    decreases c, 0int,
{
    match c {
        Command::Simple { words, redirects, assignments, .. } => u_simple(
            words@,
            redirects@,
            match assignments {
                Some(a) => Some(a@),
                None => None,
            },
            inc,
        ),
        Command::Pipeline { commands, negated, .. } => (if negated {
            "! "@
        } else {
            Seq::<char>::empty()
        }) + u_stages(commands@, inc),
        Command::List { op, left, right, .. } => {
            let lh = has_heredoc(*left);
            let defer = (op == ListOp::And || op == ListOp::Or) && lh;
            let rempty = is_empty_simple(*right);
            let use_nl = op == ListOp::Semi && (lh || lines_ascend(
                last_line(*left),
                first_line(*right),
            ));
            u_command(*left, inc && !defer) + u_list_joiner(op, use_nl, rempty) + (if rempty {
                Seq::<char>::empty()
            } else {
                u_command(*right, inc)
            }) + (if defer && inc {
                u_deferred(*left)
            } else {
                Seq::<char>::empty()
            })
        },
        Command::For { variable, words, body, redirects, .. } => "for "@ + variable@ + (match words {
            Some(w) => " in"@ + u_strs_pre_sp(w@),
            None => Seq::<char>::empty(),
        }) + "; do "@ + u_command(*body, inc) + (if ends_with_background(*body) {
            " done"@
        } else {
            "; done"@
        }) + u_redirects(redirects@, inc),
        Command::While { test, body, redirects, .. } => "while "@ + u_command(*test, inc) + "; do "@
            + u_command(*body, inc) + (if ends_with_background(*body) {
            " done"@
        } else {
            "; done"@
        }) + u_redirects(redirects@, inc),
        Command::Until { test, body, redirects, .. } => "until "@ + u_command(*test, inc) + "; do "@
            + u_command(*body, inc) + (if ends_with_background(*body) {
            " done"@
        } else {
            "; done"@
        }) + u_redirects(redirects@, inc),
        Command::If { condition, then_branch, else_branch, redirects, .. } => "if "@ + u_command(
            *condition,
            inc,
        ) + "; then "@ + u_command(*then_branch, inc) + (match else_branch {
            Some(e) => u_else_chain(*e, inc),
            None => Seq::<char>::empty(),
        }) + "; fi"@ + u_redirects(redirects@, inc),
        Command::Case { word, clauses, redirects, .. } => "case "@ + word@ + " in "@ + u_clauses(
            clauses@,
            inc,
        ) + "esac"@ + u_redirects(redirects@, inc),
        Command::Select { variable, words, body, redirects, .. } => "select "@ + variable@ + (
        match words {
            Some(w) => " in"@ + u_strs_pre_sp(w@),
            None => Seq::<char>::empty(),
        }) + "; do "@ + u_command(*body, inc) + (if ends_with_background(*body) {
            " done"@
        } else {
            "; done"@
        }) + u_redirects(redirects@, inc),
        Command::Group { body, redirects, .. } => "{ "@ + u_command(*body, inc) + "; }"@
            + u_redirects(redirects@, inc),
        Command::Subshell { body, redirects, .. } => "("@ + u_command(*body, inc) + ")"@
            + u_redirects(redirects@, inc),
        Command::FunctionDef { name, body, .. } => name@ + "() "@ + u_command(*body, inc),
        Command::Arithmetic { expression, .. } => "(("@ + expression@ + "))"@,
        Command::ArithmeticFor { init, test, step, body, .. } => "for (("@ + init@ + "; "@ + test@
            + "; "@ + step@ + ")); do "@ + u_command(*body, inc) + "; done"@,
        Command::Conditional { expr, .. } => "[[ "@ + u_cond(expr) + " ]]"@,
        Command::Coproc { name, body, .. } => "coproc "@ + (match name {
            Some(n) => if !(n@ == "COPROC"@) || !(*body is Simple) {
                n@ + " "@
            } else {
                Seq::<char>::empty()
            },
            None => Seq::<char>::empty(),
        }) + u_command(*body, inc),
    }
}

/// The stages of a pipeline joined by ` | `.
pub open spec fn u_stages(s: Seq<Command>, inc: bool) -> Seq<char>
    decreases s, 0int,
{
    if s.len() == 0 {
        Seq::empty()
    } else {
        u_stages(s.subrange(0, s.len() - 1), inc) + (if s.len() == 1 {
            Seq::<char>::empty()
        } else {
            " | "@
        }) + u_command(s[s.len() - 1], inc)
    }
}

/// The elif/else continuation of an if statement: a nested `If` in the else
/// branch prints as `; elif ...; then ...`, recursively, so the whole chain
/// is closed by a single `fi`.
pub open spec fn u_else_chain(c: Command, inc: bool) -> Seq<char>
    decreases c, 1int,
{
    match c {
        Command::If { condition, then_branch, else_branch, .. } => "; elif "@ + u_command(
            *condition,
            inc,
        ) + "; then "@ + u_command(*then_branch, inc) + (match else_branch {
            Some(n) => u_else_chain(*n, inc),
            None => Seq::<char>::empty(),
        }),
        _ => "; else "@ + u_command(c, inc),
    }
}

/// The clauses of a case statement, each ending with its terminator and one
/// space.
pub open spec fn u_clauses(s: Seq<CaseClause>, inc: bool) -> Seq<char>
    decreases s, 1int,
{
    if s.len() == 0 {
        Seq::empty()
    } else {
        u_clauses(s.subrange(0, s.len() - 1), inc) + u_clause(s[s.len() - 1], inc)
    }
}

/// One case clause: patterns, `) `, the action if any, and the terminator.
pub open spec fn u_clause(cl: CaseClause, inc: bool) -> Seq<char>
    decreases cl, 0int,
{
    u_patterns(cl.patterns@) + ") "@ + (match cl.action {
        Some(a) => u_command(*a, inc),
        None => Seq::<char>::empty(),
    }) + u_clause_terminator(cl) + " "@
}

} // verus!

verus! {

// ---------------------------------------------------------------------------
// Executable unparser, proved to emit exactly the text the model defines.
// ---------------------------------------------------------------------------

/// Convert a `Command` tree to a shell script string.
///
/// Total: serialization never fails. The result is exactly the text defined
/// by [`u_command`] with here-document bodies included.
pub fn to_bash(cmd: &Command) -> (result: String)
    ensures
        result@ == u_command(*cmd, true),
{
    let mut out = String::new();
    write_command(cmd, &mut out);
    out
}

/// Write a command with here-document bodies included.
fn write_command(cmd: &Command, out: &mut String)
    ensures
        final(out)@ == old(out)@ + u_command(*cmd, true),
    decreases *cmd, 3int,
{
    write_command_impl(cmd, out, true);
}

/// Write a command, optionally suppressing here-document bodies.
fn write_command_impl(cmd: &Command, out: &mut String, inc: bool)
    ensures
        final(out)@ == old(out)@ + u_command(*cmd, inc),
    decreases *cmd, 2int,
{
    match cmd {
        Command::Simple { .. } => write_simple(cmd, out, inc),
        Command::Pipeline { .. } => write_pipeline(cmd, out, inc),
        Command::List { .. } => write_list(cmd, out, inc),
        Command::For { .. } => write_for(cmd, out, inc),
        Command::While { .. } => write_while(cmd, out, inc),
        Command::Until { .. } => write_until(cmd, out, inc),
        Command::If { .. } => write_if(cmd, out, inc),
        Command::Case { .. } => write_case(cmd, out, inc),
        Command::Select { .. } => write_select(cmd, out, inc),
        Command::Group { .. } => write_group(cmd, out, inc),
        Command::Subshell { .. } => write_subshell(cmd, out, inc),
        Command::FunctionDef { .. } => write_function_def(cmd, out, inc),
        Command::Arithmetic { .. } => write_arithmetic(cmd, out),
        Command::ArithmeticFor { .. } => write_arith_for(cmd, out, inc),
        Command::Conditional { .. } => write_conditional(cmd, out),
        Command::Coproc { .. } => write_coproc(cmd, out, inc),
    }
}

/// True when the word names a builtin whose assignments print after it.
fn is_decl_builtin_word(w: &String) -> (r: bool)
    ensures
        r == is_decl_builtin(w@),
{
    str_eq(w.as_str(), "local") || str_eq(w.as_str(), "export") || str_eq(w.as_str(), "declare")
        || str_eq(w.as_str(), "readonly") || str_eq(w.as_str(), "typeset")
}

/// True for the reserved empty placeholder command.
fn empty_simple(c: &Command) -> (r: bool)
    ensures
        r == is_empty_simple(*c),
{
    match c {
        Command::Simple { words, redirects, assignments, .. } => words.len() == 0 && redirects.len()
            == 0 && assignments.is_none(),
        _ => false,
    }
}

/// Write words joined by single spaces.
fn write_words(ws: &Vec<Word>, out: &mut String)
    ensures
        final(out)@ == old(out)@ + u_words_sp(ws@),
{
    let n = ws.len();
    let mut i: usize = 0;
    while i < n
        invariant
            n == ws@.len(),
            i <= n,
            out@ == old(out)@ + u_words_sp(ws@.subrange(0, i as int)),
        decreases n - i,
    {
        if i > 0 {
            out.append(" ");
        }
        out.append(ws[i].word.as_str());
        proof {
            let s2 = ws@.subrange(0, i as int + 1);
            assert(s2.subrange(0, s2.len() - 1) =~= ws@.subrange(0, i as int));
            assert(out@ =~= old(out)@ + u_words_sp(s2));
        }
        i = i + 1;
    }
    proof {
        assert(ws@.subrange(0, ws@.len() as int) =~= ws@);
    }
}

/// Write strings joined by single spaces.
fn write_strs_sp(ss: &Vec<String>, out: &mut String)
    ensures
        final(out)@ == old(out)@ + u_strs_sp(ss@),
{
    let n = ss.len();
    let mut i: usize = 0;
    while i < n
        invariant
            n == ss@.len(),
            i <= n,
            out@ == old(out)@ + u_strs_sp(ss@.subrange(0, i as int)),
        decreases n - i,
    {
        if i > 0 {
            out.append(" ");
        }
        out.append(ss[i].as_str());
        proof {
            let s2 = ss@.subrange(0, i as int + 1);
            assert(s2.subrange(0, s2.len() - 1) =~= ss@.subrange(0, i as int));
            assert(out@ =~= old(out)@ + u_strs_sp(s2));
        }
        i = i + 1;
    }
    proof {
        assert(ss@.subrange(0, ss@.len() as int) =~= ss@);
    }
}

/// Write strings each prefixed by one space.
fn write_strs_pre_sp(ss: &Vec<String>, out: &mut String)
    ensures
        final(out)@ == old(out)@ + u_strs_pre_sp(ss@),
{
    let n = ss.len();
    let mut i: usize = 0;
    while i < n
        invariant
            n == ss@.len(),
            i <= n,
            out@ == old(out)@ + u_strs_pre_sp(ss@.subrange(0, i as int)),
        decreases n - i,
    {
        out.append(" ");
        out.append(ss[i].as_str());
        proof {
            let s2 = ss@.subrange(0, i as int + 1);
            assert(s2.subrange(0, s2.len() - 1) =~= ss@.subrange(0, i as int));
            assert(out@ =~= old(out)@ + u_strs_pre_sp(s2));
        }
        i = i + 1;
    }
    proof {
        assert(ss@.subrange(0, ss@.len() as int) =~= ss@);
    }
}

/// Write case patterns joined by `|`.
fn write_patterns(ps: &Vec<String>, out: &mut String)
    ensures
        final(out)@ == old(out)@ + u_patterns(ps@),
{
    let n = ps.len();
    let mut i: usize = 0;
    while i < n
        invariant
            n == ps@.len(),
            i <= n,
            out@ == old(out)@ + u_patterns(ps@.subrange(0, i as int)),
        decreases n - i,
    {
        if i > 0 {
            out.append("|");
        }
        out.append(ps[i].as_str());
        proof {
            let s2 = ps@.subrange(0, i as int + 1);
            assert(s2.subrange(0, s2.len() - 1) =~= ps@.subrange(0, i as int));
            assert(out@ =~= old(out)@ + u_patterns(s2));
        }
        i = i + 1;
    }
    proof {
        assert(ps@.subrange(0, ps@.len() as int) =~= ps@);
    }
}

/// Write one non-here-document redirect.
#[verifier::rlimit(50)]
fn write_redirect(r: &Redirect, out: &mut String)
    ensures
        final(out)@ == old(out)@ + u_redirect(*r),
{
    if r.direction == RedirectType::Close {
        match r.source_fd {
            Some(fd) => push_i32(out, fd),
            None => {},
        }
        out.append(">&-");
        proof {
            assert(out@ =~= old(out)@ + u_redirect(*r));
        }
    } else {
        let dfd: i32 = match r.direction {
            RedirectType::Input
            | RedirectType::HereString
            | RedirectType::DupInput
            | RedirectType::MoveInput
            | RedirectType::InputOutput => 0,
            RedirectType::Output
            | RedirectType::Append
            | RedirectType::Clobber
            | RedirectType::DupOutput
            | RedirectType::MoveOutput => 1,
            _ => -1,
        };
        match r.source_fd {
            Some(fd) => {
                if fd != dfd && r.direction != RedirectType::ErrAndOut && r.direction
                    != RedirectType::AppendErrAndOut {
                    push_i32(out, fd);
                }
            },
            None => {},
        }
        match r.direction {
            RedirectType::Input => out.append("<"),
            RedirectType::Output => out.append(">"),
            RedirectType::Append => out.append(">>"),
            RedirectType::HereString => out.append("<<<"),
            RedirectType::InputOutput => out.append("<>"),
            RedirectType::Clobber => out.append(">|"),
            RedirectType::DupInput | RedirectType::MoveInput => out.append("<&"),
            RedirectType::DupOutput | RedirectType::MoveOutput => out.append(">&"),
            RedirectType::ErrAndOut => out.append("&>"),
            RedirectType::AppendErrAndOut => out.append("&>>"),
            RedirectType::HereDoc | RedirectType::Close => {},
        }
        match &r.target {
            RedirectTarget::File(f) => {
                out.append(" ");
                out.append(f.as_str());
            },
            RedirectTarget::Fd(n) => {
                push_i32(out, *n);
                if r.direction == RedirectType::MoveInput || r.direction
                    == RedirectType::MoveOutput {
                    out.append("-");
                }
            },
        }
        proof {
            assert(out@ =~= old(out)@ + u_redirect(*r));
        }
    }
}

/// Write the inline marker of a here-document.
fn write_heredoc_marker(r: &Redirect, out: &mut String)
    ensures
        final(out)@ == old(out)@ + u_heredoc_marker(*r),
{
    match r.source_fd {
        Some(fd) => {
            if fd != 0 {
                push_i32(out, fd);
            }
        },
        None => {},
    }
    out.append("<<");
    match &r.here_doc_eof {
        Some(e) => out.append(e.as_str()),
        None => out.append("EOF"),
    }
    proof {
        assert(out@ =~= old(out)@ + u_heredoc_marker(*r));
    }
}

/// Write the body and closing delimiter of a here-document.
fn write_heredoc_content(r: &Redirect, out: &mut String)
    ensures
        final(out)@ == old(out)@ + u_heredoc_content(*r),
{
    match &r.target {
        RedirectTarget::File(content) => {
            out.append(content.as_str());
            if !ends_with_char(content.as_str(), '\n') {
                out.append("\n");
            }
            match &r.here_doc_eof {
                Some(e) => out.append(e.as_str()),
                None => out.append("EOF"),
            }
        },
        RedirectTarget::Fd(_) => {},
    }
    proof {
        assert(out@ =~= old(out)@ + u_heredoc_content(*r));
    }
}

/// Write every non-here-document redirect, each preceded by one space.
fn write_redirs_plain(rs: &Vec<Redirect>, out: &mut String)
    ensures
        final(out)@ == old(out)@ + u_redirs_plain(rs@),
{
    let n = rs.len();
    let mut i: usize = 0;
    while i < n
        invariant
            n == rs@.len(),
            i <= n,
            out@ == old(out)@ + u_redirs_plain(rs@.subrange(0, i as int)),
        decreases n - i,
    {
        if rs[i].direction != RedirectType::HereDoc {
            out.append(" ");
            write_redirect(&rs[i], out);
        }
        proof {
            let s2 = rs@.subrange(0, i as int + 1);
            assert(s2.subrange(0, s2.len() - 1) =~= rs@.subrange(0, i as int));
            assert(out@ =~= old(out)@ + u_redirs_plain(s2));
        }
        i = i + 1;
    }
    proof {
        assert(rs@.subrange(0, rs@.len() as int) =~= rs@);
    }
}

/// Write every here-document marker, each preceded by one space.
fn write_redirs_markers(rs: &Vec<Redirect>, out: &mut String)
    ensures
        final(out)@ == old(out)@ + u_redirs_markers(rs@),
{
    let n = rs.len();
    let mut i: usize = 0;
    while i < n
        invariant
            n == rs@.len(),
            i <= n,
            out@ == old(out)@ + u_redirs_markers(rs@.subrange(0, i as int)),
        decreases n - i,
    {
        if rs[i].direction == RedirectType::HereDoc {
            out.append(" ");
            write_heredoc_marker(&rs[i], out);
        }
        proof {
            let s2 = rs@.subrange(0, i as int + 1);
            assert(s2.subrange(0, s2.len() - 1) =~= rs@.subrange(0, i as int));
            assert(out@ =~= old(out)@ + u_redirs_markers(s2));
        }
        i = i + 1;
    }
    proof {
        assert(rs@.subrange(0, rs@.len() as int) =~= rs@);
    }
}

/// Write every here-document body, each preceded by a newline.
fn write_redirs_bodies(rs: &Vec<Redirect>, out: &mut String)
    ensures
        final(out)@ == old(out)@ + u_redirs_bodies(rs@),
{
    let n = rs.len();
    let mut i: usize = 0;
    while i < n
        invariant
            n == rs@.len(),
            i <= n,
            out@ == old(out)@ + u_redirs_bodies(rs@.subrange(0, i as int)),
        decreases n - i,
    {
        if rs[i].direction == RedirectType::HereDoc {
            out.append("\n");
            write_heredoc_content(&rs[i], out);
        }
        proof {
            let s2 = rs@.subrange(0, i as int + 1);
            assert(s2.subrange(0, s2.len() - 1) =~= rs@.subrange(0, i as int));
            assert(out@ =~= old(out)@ + u_redirs_bodies(s2));
        }
        i = i + 1;
    }
    proof {
        assert(rs@.subrange(0, rs@.len() as int) =~= rs@);
    }
}

/// Write a redirect list: plain redirects, markers, then bodies when `inc`.
fn write_redirects(rs: &Vec<Redirect>, out: &mut String, inc: bool)
    ensures
        final(out)@ == old(out)@ + u_redirects(rs@, inc),
{
    write_redirs_plain(rs, out);
    write_redirs_markers(rs, out);
    if inc {
        write_redirs_bodies(rs, out);
    }
    proof {
        assert(out@ =~= old(out)@ + u_redirects(rs@, inc));
    }
}

/// True when some redirect in the list is a here-document.
fn redirs_heredoc(rs: &Vec<Redirect>) -> (r: bool)
    ensures
        r == redirs_have_heredoc(rs@),
{
    let n = rs.len();
    let mut i: usize = 0;
    let mut found = false;
    while i < n
        invariant
            n == rs@.len(),
            i <= n,
            found == redirs_have_heredoc(rs@.subrange(0, i as int)),
        decreases n - i,
    {
        if rs[i].direction == RedirectType::HereDoc {
            found = true;
        }
        proof {
            let s2 = rs@.subrange(0, i as int + 1);
            assert(s2.subrange(0, s2.len() - 1) =~= rs@.subrange(0, i as int));
        }
        i = i + 1;
    }
    proof {
        assert(rs@.subrange(0, rs@.len() as int) =~= rs@);
    }
    found
}

/// True when the command's subtree carries a here-document redirect.
#[verifier::loop_isolation(false)]
fn has_heredoc_cmd(c: &Command) -> (r: bool)
    ensures
        r == has_heredoc(*c),
    decreases *c, 1int,
{
    match c {
        Command::List { left, right, .. } => {
            if has_heredoc_cmd(left) {
                true
            } else {
                has_heredoc_cmd(right)
            }
        },
        Command::Pipeline { commands, .. } => {
            let n = commands.len();
            let mut i: usize = 0;
            let mut found = false;
            while i < n
                invariant
                    n == commands@.len(),
                    i <= n,
                    found == cmds_have_heredoc(commands@.subrange(0, i as int)),
                decreases n - i,
            {
                proof {
                    assert(decreases_to!(*c, 1int => commands@[i as int], 1int));
                }
                if has_heredoc_cmd(&commands[i]) {
                    found = true;
                }
                proof {
                    let s2 = commands@.subrange(0, i as int + 1);
                    assert(s2.subrange(0, s2.len() - 1) =~= commands@.subrange(0, i as int));
                }
                i = i + 1;
            }
            proof {
                assert(commands@.subrange(0, commands@.len() as int) =~= commands@);
            }
            found
        },
        _ => {
            match c.redirects() {
                Some(rs) => redirs_heredoc(rs),
                None => false,
            }
        },
    }
}

/// Write the deferred here-document bodies of a whole subtree.
#[verifier::loop_isolation(false)]
fn write_deferred(c: &Command, out: &mut String)
    ensures
        final(out)@ == old(out)@ + u_deferred(*c),
    decreases *c, 1int,
{
    match c {
        Command::List { left, right, .. } => {
            write_deferred(left, out);
            write_deferred(right, out);
            proof {
                assert(out@ =~= old(out)@ + u_deferred(*c));
            }
        },
        Command::Pipeline { commands, .. } => {
            let n = commands.len();
            let mut i: usize = 0;
            while i < n
                invariant
                    n == commands@.len(),
                    i <= n,
                    out@ == old(out)@ + u_deferred_seq(commands@.subrange(0, i as int)),
                decreases n - i,
            {
                proof {
                    assert(decreases_to!(*c, 1int => commands@[i as int], 1int));
                }
                write_deferred(&commands[i], out);
                proof {
                    let s2 = commands@.subrange(0, i as int + 1);
                    assert(s2.subrange(0, s2.len() - 1) =~= commands@.subrange(0, i as int));
                    assert(out@ =~= old(out)@ + u_deferred_seq(s2));
                }
                i = i + 1;
            }
            proof {
                assert(commands@.subrange(0, commands@.len() as int) =~= commands@);
                assert(out@ =~= old(out)@ + u_deferred(*c));
            }
        },
        _ => {
            match c.redirects() {
                Some(rs) => write_redirs_bodies(rs, out),
                None => {},
            }
            proof {
                assert(out@ =~= old(out)@ + u_deferred(*c));
            }
        },
    }
}

/// True when the command ends with a background operator.
fn ends_with_background_cmd(c: &Command) -> (r: bool)
    ensures
        r == ends_with_background(*c),
    decreases *c,
{
    match c {
        Command::List { op, right, .. } => {
            if *op == ListOp::Amp {
                if empty_simple(right) {
                    true
                } else {
                    ends_with_background_cmd(right)
                }
            } else {
                false
            }
        },
        _ => false,
    }
}

/// The line on which a command starts.
fn get_first_line(c: &Command) -> (r: Option<u32>)
    ensures
        r == first_line(*c),
    decreases *c,
{
    match c {
        Command::List { left, .. } => get_first_line(left),
        _ => c.line(),
    }
}

/// The line on which a command ends.
fn get_last_line(c: &Command) -> (r: Option<u32>)
    ensures
        r == last_line(*c),
    decreases *c,
{
    match c {
        Command::List { right, .. } => get_last_line(right),
        _ => c.line(),
    }
}

/// Write a simple command.
fn write_simple(cmd: &Command, out: &mut String, inc: bool)
    requires
        cmd is Simple,
    ensures
        final(out)@ == old(out)@ + u_command(*cmd, inc),
    decreases *cmd, 1int,
{
    match cmd {
        Command::Simple { words, redirects, assignments, .. } => {
            let builtin = if words.len() > 0 {
                is_decl_builtin_word(&words[0].word)
            } else {
                false
            };
            if builtin {
                write_words(words, out);
                match assignments {
                    Some(a) => write_strs_pre_sp(a, out),
                    None => {},
                }
            } else {
                match assignments {
                    Some(a) => {
                        write_strs_sp(a, out);
                        if words.len() > 0 {
                            out.append(" ");
                        }
                    },
                    None => {},
                }
                write_words(words, out);
            }
            write_redirects(redirects, out, inc);
            proof {
                assert(out@ =~= old(out)@ + u_command(*cmd, inc));
            }
        },
        _ => {},
    }
}

/// Write a pipeline, with a leading `! ` when negated.
#[verifier::loop_isolation(false)]
fn write_pipeline(cmd: &Command, out: &mut String, inc: bool)
    requires
        cmd is Pipeline,
    ensures
        final(out)@ == old(out)@ + u_command(*cmd, inc),
    decreases *cmd, 1int,
{
    match cmd {
        Command::Pipeline { commands, negated, .. } => {
            if *negated {
                out.append("! ");
            }
            let ghost base = out@;
            let n = commands.len();
            let mut i: usize = 0;
            while i < n
                invariant
                    n == commands@.len(),
                    i <= n,
                    out@ == base + u_stages(commands@.subrange(0, i as int), inc),
                decreases n - i,
            {
                if i > 0 {
                    out.append(" | ");
                }
                proof {
                    assert(decreases_to!(*cmd, 1int => commands@[i as int], 2int));
                }
                write_command_impl(&commands[i], out, inc);
                proof {
                    let s2 = commands@.subrange(0, i as int + 1);
                    assert(s2.subrange(0, s2.len() - 1) =~= commands@.subrange(0, i as int));
                    assert(out@ =~= base + u_stages(s2, inc));
                }
                i = i + 1;
            }
            proof {
                assert(commands@.subrange(0, commands@.len() as int) =~= commands@);
                assert(out@ =~= old(out)@ + u_command(*cmd, inc));
            }
        },
        _ => {},
    }
}

/// Write a list: left operand, joiner, right operand, and any deferred
/// here-document bodies.
fn write_list(cmd: &Command, out: &mut String, inc: bool)
    requires
        cmd is List,
    ensures
        final(out)@ == old(out)@ + u_command(*cmd, inc),
    decreases *cmd, 1int,
{
    match cmd {
        Command::List { op, left, right, .. } => {
            let lh = has_heredoc_cmd(left);
            let defer = (*op == ListOp::And || *op == ListOp::Or) && lh;
            write_command_impl(left, out, inc && !defer);
            let rempty = empty_simple(right);
            let use_nl = *op == ListOp::Semi && (lh || {
                let ll = get_last_line(left);
                let fl = get_first_line(right);
                match (ll, fl) {
                    (Some(l), Some(r)) => r > l,
                    _ => false,
                }
            });
            match op {
                ListOp::And => out.append(" && "),
                ListOp::Or => out.append(" || "),
                ListOp::Semi => {
                    if use_nl {
                        out.append("\n");
                    } else {
                        out.append("; ");
                    }
                },
                ListOp::Amp => {
                    out.append(" &");
                    if !rempty {
                        out.append(" ");
                    }
                },
                ListOp::Newline => out.append("\n"),
            }
            if !rempty {
                write_command_impl(right, out, inc);
            }
            if defer && inc {
                write_deferred(left, out);
            }
            proof {
                assert(out@ =~= old(out)@ + u_command(*cmd, inc));
            }
        },
        _ => {},
    }
}

/// Write a for loop.
fn write_for(cmd: &Command, out: &mut String, inc: bool)
    requires
        cmd is For,
    ensures
        final(out)@ == old(out)@ + u_command(*cmd, inc),
    decreases *cmd, 1int,
{
    match cmd {
        Command::For { variable, words, body, redirects, .. } => {
            out.append("for ");
            out.append(variable.as_str());
            match words {
                Some(w) => {
                    out.append(" in");
                    write_strs_pre_sp(w, out);
                },
                None => {},
            }
            out.append("; do ");
            write_command_impl(body, out, inc);
            if ends_with_background_cmd(body) {
                out.append(" done");
            } else {
                out.append("; done");
            }
            write_redirects(redirects, out, inc);
            proof {
                assert(out@ =~= old(out)@ + u_command(*cmd, inc));
            }
        },
        _ => {},
    }
}

/// Write a while loop.
fn write_while(cmd: &Command, out: &mut String, inc: bool)
    requires
        cmd is While,
    ensures
        final(out)@ == old(out)@ + u_command(*cmd, inc),
    decreases *cmd, 1int,
{
    match cmd {
        Command::While { test, body, redirects, .. } => {
            out.append("while ");
            write_command_impl(test, out, inc);
            out.append("; do ");
            write_command_impl(body, out, inc);
            if ends_with_background_cmd(body) {
                out.append(" done");
            } else {
                out.append("; done");
            }
            write_redirects(redirects, out, inc);
            proof {
                assert(out@ =~= old(out)@ + u_command(*cmd, inc));
            }
        },
        _ => {},
    }
}

/// Write an until loop.
fn write_until(cmd: &Command, out: &mut String, inc: bool)
    requires
        cmd is Until,
    ensures
        final(out)@ == old(out)@ + u_command(*cmd, inc),
    decreases *cmd, 1int,
{
    match cmd {
        Command::Until { test, body, redirects, .. } => {
            out.append("until ");
            write_command_impl(test, out, inc);
            out.append("; do ");
            write_command_impl(body, out, inc);
            if ends_with_background_cmd(body) {
                out.append(" done");
            } else {
                out.append("; done");
            }
            write_redirects(redirects, out, inc);
            proof {
                assert(out@ =~= old(out)@ + u_command(*cmd, inc));
            }
        },
        _ => {},
    }
}

/// Write an if statement, reconstructing elif chains from nested `If` nodes.
fn write_if(cmd: &Command, out: &mut String, inc: bool)
    requires
        cmd is If,
    ensures
        final(out)@ == old(out)@ + u_command(*cmd, inc),
    decreases *cmd, 1int,
{
    match cmd {
        Command::If { condition, then_branch, else_branch, redirects, .. } => {
            out.append("if ");
            write_command_impl(condition, out, inc);
            out.append("; then ");
            write_command_impl(then_branch, out, inc);
            match else_branch {
                Some(e) => write_else_chain(e, out, inc),
                None => {},
            }
            out.append("; fi");
            write_redirects(redirects, out, inc);
            proof {
                assert(out@ =~= old(out)@ + u_command(*cmd, inc));
            }
        },
        _ => {},
    }
}

/// Write an elif/else continuation: a nested `If` prints as `; elif`,
/// anything else as `; else`.
fn write_else_chain(c: &Command, out: &mut String, inc: bool)
    ensures
        final(out)@ == old(out)@ + u_else_chain(*c, inc),
    decreases *c, 3int,
{
    match c {
        Command::If { condition, then_branch, else_branch, .. } => {
            out.append("; elif ");
            write_command_impl(condition, out, inc);
            out.append("; then ");
            write_command_impl(then_branch, out, inc);
            match else_branch {
                Some(n) => write_else_chain(n, out, inc),
                None => {},
            }
            proof {
                assert(out@ =~= old(out)@ + u_else_chain(*c, inc));
            }
        },
        _ => {
            out.append("; else ");
            write_command_impl(c, out, inc);
            proof {
                assert(out@ =~= old(out)@ + u_else_chain(*c, inc));
            }
        },
    }
}

/// Write the clauses of a case statement.
fn write_clauses(cs: &Vec<CaseClause>, out: &mut String, inc: bool)
    ensures
        final(out)@ == old(out)@ + u_clauses(cs@, inc),
    decreases cs@, 2int,
{
    let n = cs.len();
    let mut i: usize = 0;
    while i < n
        invariant
            n == cs@.len(),
            i <= n,
            out@ == old(out)@ + u_clauses(cs@.subrange(0, i as int), inc),
        decreases n - i,
    {
        write_patterns(&cs[i].patterns, out);
        out.append(") ");
        match &cs[i].action {
            Some(a) => write_command_impl(a, out, inc),
            None => {},
        }
        match &cs[i].flags {
            Some(f) => {
                if f.fallthrough {
                    out.append(";&");
                } else if f.test_next {
                    out.append(";;&");
                } else {
                    out.append(";;");
                }
            },
            None => out.append(";;"),
        }
        out.append(" ");
        proof {
            let cl = cs@[i as int];
            assert(out@ =~= old(out)@ + u_clauses(cs@.subrange(0, i as int), inc) + u_clause(
                cl,
                inc,
            ));
            let s2 = cs@.subrange(0, i as int + 1);
            assert(s2.subrange(0, s2.len() - 1) =~= cs@.subrange(0, i as int));
            assert(s2[s2.len() - 1] == cl);
            assert(out@ =~= old(out)@ + u_clauses(s2, inc));
        }
        i = i + 1;
    }
    proof {
        assert(cs@.subrange(0, cs@.len() as int) =~= cs@);
    }
}

/// Write a case statement.
fn write_case(cmd: &Command, out: &mut String, inc: bool)
    requires
        cmd is Case,
    ensures
        final(out)@ == old(out)@ + u_command(*cmd, inc),
    decreases *cmd, 1int,
{
    match cmd {
        Command::Case { word, clauses, redirects, .. } => {
            out.append("case ");
            out.append(word.as_str());
            out.append(" in ");
            write_clauses(clauses, out, inc);
            out.append("esac");
            write_redirects(redirects, out, inc);
            proof {
                assert(out@ =~= old(out)@ + u_command(*cmd, inc));
            }
        },
        _ => {},
    }
}

/// Write a select statement.
fn write_select(cmd: &Command, out: &mut String, inc: bool)
    requires
        cmd is Select,
    ensures
        final(out)@ == old(out)@ + u_command(*cmd, inc),
    decreases *cmd, 1int,
{
    match cmd {
        Command::Select { variable, words, body, redirects, .. } => {
            out.append("select ");
            out.append(variable.as_str());
            match words {
                Some(w) => {
                    out.append(" in");
                    write_strs_pre_sp(w, out);
                },
                None => {},
            }
            out.append("; do ");
            write_command_impl(body, out, inc);
            if ends_with_background_cmd(body) {
                out.append(" done");
            } else {
                out.append("; done");
            }
            write_redirects(redirects, out, inc);
            proof {
                assert(out@ =~= old(out)@ + u_command(*cmd, inc));
            }
        },
        _ => {},
    }
}

/// Write a brace group.
fn write_group(cmd: &Command, out: &mut String, inc: bool)
    requires
        cmd is Group,
    ensures
        final(out)@ == old(out)@ + u_command(*cmd, inc),
    decreases *cmd, 1int,
{
    match cmd {
        Command::Group { body, redirects, .. } => {
            out.append("{ ");
            write_command_impl(body, out, inc);
            out.append("; }");
            write_redirects(redirects, out, inc);
            proof {
                assert(out@ =~= old(out)@ + u_command(*cmd, inc));
            }
        },
        _ => {},
    }
}

/// Write a subshell.
fn write_subshell(cmd: &Command, out: &mut String, inc: bool)
    requires
        cmd is Subshell,
    ensures
        final(out)@ == old(out)@ + u_command(*cmd, inc),
    decreases *cmd, 1int,
{
    match cmd {
        Command::Subshell { body, redirects, .. } => {
            out.append("(");
            write_command_impl(body, out, inc);
            out.append(")");
            write_redirects(redirects, out, inc);
            proof {
                assert(out@ =~= old(out)@ + u_command(*cmd, inc));
            }
        },
        _ => {},
    }
}

/// Write a function definition.
fn write_function_def(cmd: &Command, out: &mut String, inc: bool)
    requires
        cmd is FunctionDef,
    ensures
        final(out)@ == old(out)@ + u_command(*cmd, inc),
    decreases *cmd, 1int,
{
    match cmd {
        Command::FunctionDef { name, body, .. } => {
            out.append(name.as_str());
            out.append("() ");
            write_command_impl(body, out, inc);
            proof {
                assert(out@ =~= old(out)@ + u_command(*cmd, inc));
            }
        },
        _ => {},
    }
}

/// Write an arithmetic command.
fn write_arithmetic(cmd: &Command, out: &mut String)
    requires
        cmd is Arithmetic,
    ensures
        final(out)@ == old(out)@ + u_command(*cmd, true),
        final(out)@ == old(out)@ + u_command(*cmd, false),
    decreases *cmd, 1int,
{
    match cmd {
        Command::Arithmetic { expression, .. } => {
            out.append("((");
            out.append(expression.as_str());
            out.append("))");
            proof {
                assert(out@ =~= old(out)@ + u_command(*cmd, true));
                assert(out@ =~= old(out)@ + u_command(*cmd, false));
            }
        },
        _ => {},
    }
}

/// Write a C-style arithmetic for loop.
fn write_arith_for(cmd: &Command, out: &mut String, inc: bool)
    requires
        cmd is ArithmeticFor,
    ensures
        final(out)@ == old(out)@ + u_command(*cmd, inc),
    decreases *cmd, 1int,
{
    match cmd {
        Command::ArithmeticFor { init, test, step, body, .. } => {
            out.append("for ((");
            out.append(init.as_str());
            out.append("; ");
            out.append(test.as_str());
            out.append("; ");
            out.append(step.as_str());
            out.append(")); do ");
            write_command_impl(body, out, inc);
            out.append("; done");
            proof {
                assert(out@ =~= old(out)@ + u_command(*cmd, inc));
            }
        },
        _ => {},
    }
}

/// Write a conditional expression tree.
fn write_cond_expr(e: &ConditionalExpr, out: &mut String)
    ensures
        final(out)@ == old(out)@ + u_cond(*e),
    decreases *e,
{
    match e {
        ConditionalExpr::Unary { op, arg } => {
            out.append(op.as_str());
            out.append(" ");
            out.append(arg.as_str());
        },
        ConditionalExpr::Binary { op, left, right } => {
            out.append(left.as_str());
            out.append(" ");
            out.append(op.as_str());
            out.append(" ");
            out.append(right.as_str());
        },
        ConditionalExpr::And { left, right } => {
            write_cond_expr(left, out);
            out.append(" && ");
            write_cond_expr(right, out);
        },
        ConditionalExpr::Or { left, right } => {
            write_cond_expr(left, out);
            out.append(" || ");
            write_cond_expr(right, out);
        },
        ConditionalExpr::Not { expr } => {
            out.append("! ");
            write_cond_expr(expr, out);
        },
        ConditionalExpr::Term { word } => {
            out.append(word.as_str());
        },
        ConditionalExpr::Expr { expr } => {
            out.append("( ");
            write_cond_expr(expr, out);
            out.append(" )");
        },
    }
    proof {
        assert(out@ =~= old(out)@ + u_cond(*e));
    }
}

/// Write a `[[ ... ]]` conditional command.
fn write_conditional(cmd: &Command, out: &mut String)
    requires
        cmd is Conditional,
    ensures
        final(out)@ == old(out)@ + u_command(*cmd, true),
        final(out)@ == old(out)@ + u_command(*cmd, false),
    decreases *cmd, 1int,
{
    match cmd {
        Command::Conditional { expr, .. } => {
            out.append("[[ ");
            write_cond_expr(expr, out);
            out.append(" ]]");
            proof {
                assert(out@ =~= old(out)@ + u_command(*cmd, true));
                assert(out@ =~= old(out)@ + u_command(*cmd, false));
            }
        },
        _ => {},
    }
}

/// Write a coprocess. The name is printed only when it is not the default
/// `COPROC` or the body is not a simple command.
fn write_coproc(cmd: &Command, out: &mut String, inc: bool)
    requires
        cmd is Coproc,
    ensures
        final(out)@ == old(out)@ + u_command(*cmd, inc),
    decreases *cmd, 1int,
{
    match cmd {
        Command::Coproc { name, body, .. } => {
            out.append("coproc ");
            match name {
                Some(n) => {
                    let is_default = str_eq(n.as_str(), "COPROC");
                    let is_simple = match &**body {
                        Command::Simple { .. } => true,
                        _ => false,
                    };
                    if !is_default || !is_simple {
                        out.append(n.as_str());
                        out.append(" ");
                    }
                },
                None => {},
            }
            write_command_impl(body, out, inc);
            proof {
                assert(out@ =~= old(out)@ + u_command(*cmd, inc));
            }
        },
        _ => {},
    }
}

} // verus!


verus! {

// ---------------------------------------------------------------------------
// Laws: redirect file-descriptor elision and elif reconstruction.
// ---------------------------------------------------------------------------

/// Redirect elision: a plain output redirect to a file prints as `> name`
/// when no source descriptor is recorded, and as `2> name` when descriptor 2
/// is recorded (2 is not the operator's implicit default 1, so it is
/// printed).
pub proof fn lemma_redirect_elision(r: Redirect)
    requires
        r.direction == RedirectType::Output,
    ensures
        r.target matches RedirectTarget::File(name) ==> ((r.source_fd is None ==> u_redirect(r)
            == "> "@ + name@) && (r.source_fd == Some(2i32) ==> u_redirect(r) == "2> "@ + name@)),
{
    reveal_strlit(">");
    reveal_strlit(" ");
    reveal_strlit("> ");
    reveal_strlit("2> ");
    reveal_with_fuel(crate::text::dec_str, 2);
    assert(int_str(2) =~= seq!['2']);
    match r.target {
        RedirectTarget::File(name) => {
            if r.source_fd is None {
                assert(u_redirect(r) =~= "> "@ + name@);
            }
            if r.source_fd == Some(2i32) {
                assert(u_redirect(r) =~= "2> "@ + name@);
            }
        },
        RedirectTarget::Fd(_) => {},
    }
}

/// Elif reconstruction, for chains of any depth. An if statement with an
/// else branch prints its own header, hands the whole branch to the chain,
/// and closes with the single `; fi` of the statement; along the chain,
/// every nested if in else position prints exactly one `; elif ...; then
/// ...` segment and recurses - emitting no `fi` of its own - and a non-if
/// else prints `; else ...`. Composing the clauses over a chain of k nested
/// ifs gives `if ...; then ...` followed by k `; elif ...; then ...`
/// segments, an optional final `; else ...`, and exactly one terminating
/// `; fi` - never nested `fi`s.
pub proof fn lemma_elif_reconstruction(c: Command, inc: bool)
    ensures
        c matches Command::If {
            condition,
            then_branch,
            else_branch: Some(e),
            redirects,
            ..
        } ==> u_command(c, inc) == "if "@ + u_command(*condition, inc) + "; then "@ + u_command(
            *then_branch,
            inc,
        ) + u_else_chain(*e, inc) + "; fi"@ + u_redirects(redirects@, inc),
        c matches Command::If {
            condition,
            then_branch,
            else_branch: Some(n),
            ..
        } ==> u_else_chain(c, inc) == "; elif "@ + u_command(*condition, inc) + "; then "@
            + u_command(*then_branch, inc) + u_else_chain(*n, inc),
        c matches Command::If {
            condition,
            then_branch,
            else_branch: None,
            ..
        } ==> u_else_chain(c, inc) == "; elif "@ + u_command(*condition, inc) + "; then "@
            + u_command(*then_branch, inc),
        !(c is If) ==> u_else_chain(c, inc) == "; else "@ + u_command(c, inc),
{
    reveal_with_fuel(u_command, 2);
    match c {
        Command::If { condition, then_branch, else_branch, redirects, .. } => {
            match else_branch {
                Some(e) => {
                    assert(u_command(c, inc) =~= "if "@ + u_command(*condition, inc) + "; then "@
                        + u_command(*then_branch, inc) + u_else_chain(*e, inc) + "; fi"@
                        + u_redirects(redirects@, inc));
                    assert(u_else_chain(c, inc) =~= "; elif "@ + u_command(*condition, inc)
                        + "; then "@ + u_command(*then_branch, inc) + u_else_chain(*e, inc));
                },
                None => {
                    assert(u_else_chain(c, inc) =~= "; elif "@ + u_command(*condition, inc)
                        + "; then "@ + u_command(*then_branch, inc));
                },
            }
        },
        _ => {
            assert(u_else_chain(c, inc) =~= "; else "@ + u_command(c, inc));
        },
    }
}

} // verus!
