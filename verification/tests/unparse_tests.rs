use bash_ast::to_bash;
use bash_ast::CaseClause;
use bash_ast::CaseClauseFlags;
use bash_ast::Command;
use bash_ast::ConditionalExpr;
use bash_ast::ListOp;
use bash_ast::Redirect;
use bash_ast::RedirectTarget;
use bash_ast::RedirectType;
use bash_ast::Word;

fn word(text: &str) -> Word {
    Word {
        word: text.to_string(),
        flags: 0,
    }
}

fn simple(words: &[&str]) -> Command {
    Command::Simple {
        line: None,
        words: words.iter().map(|w| word(w)).collect(),
        redirects: vec![],
        assignments: None,
    }
}

fn simple_with_redirects(words: &[&str], redirects: Vec<Redirect>) -> Command {
    Command::Simple {
        line: None,
        words: words.iter().map(|w| word(w)).collect(),
        redirects,
        assignments: None,
    }
}

fn empty_placeholder() -> Command {
    Command::Simple {
        line: None,
        words: vec![],
        redirects: vec![],
        assignments: None,
    }
}

fn redirect(direction: RedirectType, source_fd: Option<i32>, target: RedirectTarget) -> Redirect {
    Redirect {
        direction,
        source_fd,
        target,
        here_doc_eof: None,
    }
}

fn heredoc(content: &str, eof: &str) -> Redirect {
    Redirect {
        direction: RedirectType::HereDoc,
        source_fd: Some(0),
        target: RedirectTarget::File(content.to_string()),
        here_doc_eof: Some(eof.to_string()),
    }
}

#[test]
fn test_unparse_simple() {
    assert_eq!(to_bash(&simple(&["echo", "hello", "world"])), "echo hello world");
}

#[test]
fn test_unparse_assignments_before_command() {
    let c = Command::Simple {
        line: None,
        words: vec![word("cmd")],
        redirects: vec![],
        assignments: Some(vec!["A=1".to_string(), "B=2".to_string()]),
    };
    assert_eq!(to_bash(&c), "A=1 B=2 cmd");
}

#[test]
fn test_unparse_assignment_only() {
    let c = Command::Simple {
        line: None,
        words: vec![],
        redirects: vec![],
        assignments: Some(vec!["VAR=value".to_string()]),
    };
    assert_eq!(to_bash(&c), "VAR=value");
}

#[test]
fn test_unparse_declaration_builtin_assignments_after() {
    let c = Command::Simple {
        line: None,
        words: vec![word("local")],
        redirects: vec![],
        assignments: Some(vec!["name=value".to_string()]),
    };
    assert_eq!(to_bash(&c), "local name=value");
}

#[test]
fn test_unparse_export_flags_then_assignment() {
    let c = Command::Simple {
        line: None,
        words: vec![word("declare"), word("-r")],
        redirects: vec![],
        assignments: Some(vec!["CONST=42".to_string()]),
    };
    assert_eq!(to_bash(&c), "declare -r CONST=42");
}

#[test]
fn test_unparse_redirect_output_elides_default_fd() {
    // An output redirect with no source descriptor prints exactly `> out.txt`.
    let c = simple_with_redirects(
        &["echo"],
        vec![redirect(
            RedirectType::Output,
            None,
            RedirectTarget::File("out.txt".to_string()),
        )],
    );
    assert_eq!(to_bash(&c), "echo > out.txt");
}

#[test]
fn test_unparse_redirect_output_explicit_fd() {
    // The same redirect with source descriptor 2 prints exactly `2> out.txt`.
    let c = simple_with_redirects(
        &["echo"],
        vec![redirect(
            RedirectType::Output,
            Some(2),
            RedirectTarget::File("out.txt".to_string()),
        )],
    );
    assert_eq!(to_bash(&c), "echo 2> out.txt");
}

#[test]
fn test_unparse_redirect_output_default_fd_elided() {
    // Descriptor 1 is the implicit default of `>` and is elided.
    let c = simple_with_redirects(
        &["echo"],
        vec![redirect(
            RedirectType::Output,
            Some(1),
            RedirectTarget::File("f".to_string()),
        )],
    );
    assert_eq!(to_bash(&c), "echo > f");
}

#[test]
fn test_unparse_redirect_input_append_clobber() {
    let input = simple_with_redirects(
        &["cat"],
        vec![redirect(RedirectType::Input, Some(0), RedirectTarget::File("in".to_string()))],
    );
    assert_eq!(to_bash(&input), "cat < in");
    let append = simple_with_redirects(
        &["echo"],
        vec![redirect(RedirectType::Append, None, RedirectTarget::File("log".to_string()))],
    );
    assert_eq!(to_bash(&append), "echo >> log");
    let clobber = simple_with_redirects(
        &["echo"],
        vec![redirect(RedirectType::Clobber, None, RedirectTarget::File("f".to_string()))],
    );
    assert_eq!(to_bash(&clobber), "echo >| f");
}

#[test]
fn test_unparse_redirect_dup_and_move() {
    let dup = simple_with_redirects(
        &["cmd"],
        vec![redirect(RedirectType::DupOutput, Some(2), RedirectTarget::Fd(1))],
    );
    assert_eq!(to_bash(&dup), "cmd 2>&1");
    let mv = simple_with_redirects(
        &["cmd"],
        vec![redirect(RedirectType::MoveOutput, Some(3), RedirectTarget::Fd(4))],
    );
    assert_eq!(to_bash(&mv), "cmd 3>&4-");
    let big = simple_with_redirects(
        &["cmd"],
        vec![redirect(RedirectType::DupOutput, Some(10), RedirectTarget::Fd(1))],
    );
    assert_eq!(to_bash(&big), "cmd 10>&1");
}

#[test]
fn test_unparse_redirect_close() {
    let c = simple_with_redirects(
        &["exec"],
        vec![redirect(RedirectType::Close, Some(3), RedirectTarget::Fd(-1))],
    );
    assert_eq!(to_bash(&c), "exec 3>&-");
}

#[test]
fn test_unparse_redirect_err_and_out() {
    let c = simple_with_redirects(
        &["cmd"],
        vec![redirect(RedirectType::ErrAndOut, None, RedirectTarget::File("f".to_string()))],
    );
    assert_eq!(to_bash(&c), "cmd &> f");
    let a = simple_with_redirects(
        &["cmd"],
        vec![redirect(
            RedirectType::AppendErrAndOut,
            None,
            RedirectTarget::File("f".to_string()),
        )],
    );
    assert_eq!(to_bash(&a), "cmd &>> f");
}

#[test]
fn test_unparse_herestring() {
    let c = simple_with_redirects(
        &["cat"],
        vec![redirect(
            RedirectType::HereString,
            None,
            RedirectTarget::File("'hello world'".to_string()),
        )],
    );
    assert_eq!(to_bash(&c), "cat <<< 'hello world'");
}

#[test]
fn test_unparse_heredoc_placement() {
    // The marker stays inline, the body and the delimiter follow the command
    // line after a newline.
    let c = simple_with_redirects(&["cat"], vec![heredoc("hi\n", "EOF")]);
    let text = to_bash(&c);
    assert_eq!(text, "cat <<EOF\nhi\nEOF");
    assert!(text.contains("<<EOF"));
    let lines: Vec<&str> = text.lines().collect();
    assert_eq!(lines, vec!["cat <<EOF", "hi", "EOF"]);
}

#[test]
fn test_unparse_heredoc_body_gets_final_newline() {
    let c = simple_with_redirects(&["cat"], vec![heredoc("hi", "END")]);
    assert_eq!(to_bash(&c), "cat <<END\nhi\nEND");
}

#[test]
fn test_unparse_heredoc_marker_fd() {
    let mut h = heredoc("x\n", "EOF");
    h.source_fd = Some(3);
    let c = simple_with_redirects(&["cat"], vec![h]);
    assert_eq!(to_bash(&c), "cat 3<<EOF\nx\nEOF");
}

#[test]
fn test_unparse_pipeline() {
    let c = Command::Pipeline {
        line: None,
        commands: vec![simple(&["cat", "f"]), simple(&["grep", "x"]), simple(&["sort"])],
        negated: false,
    };
    assert_eq!(to_bash(&c), "cat f | grep x | sort");
}

#[test]
fn test_unparse_negated_pipeline() {
    let c = Command::Pipeline {
        line: None,
        commands: vec![simple(&["cmd1"]), simple(&["cmd2"])],
        negated: true,
    };
    assert_eq!(to_bash(&c), "! cmd1 | cmd2");
}

#[test]
fn test_unparse_negated_single_stage() {
    // A negated lone command is a one-stage pipeline, never collapsed away.
    let c = Command::Pipeline {
        line: None,
        commands: vec![simple(&["true"])],
        negated: true,
    };
    assert_eq!(to_bash(&c), "! true");
}

#[test]
fn test_unparse_lists() {
    let and = Command::List {
        line: None,
        op: ListOp::And,
        left: Box::new(simple(&["a"])),
        right: Box::new(simple(&["b"])),
    };
    assert_eq!(to_bash(&and), "a && b");
    let or = Command::List {
        line: None,
        op: ListOp::Or,
        left: Box::new(simple(&["a"])),
        right: Box::new(simple(&["b"])),
    };
    assert_eq!(to_bash(&or), "a || b");
    let semi = Command::List {
        line: None,
        op: ListOp::Semi,
        left: Box::new(simple(&["a"])),
        right: Box::new(simple(&["b"])),
    };
    assert_eq!(to_bash(&semi), "a; b");
}

#[test]
fn test_unparse_background_placeholder_elided() {
    // `a &` is a list whose right side is the reserved empty placeholder.
    let c = Command::List {
        line: None,
        op: ListOp::Amp,
        left: Box::new(simple(&["a"])),
        right: Box::new(empty_placeholder()),
    };
    assert_eq!(to_bash(&c), "a &");
}

#[test]
fn test_unparse_background_then_command() {
    let c = Command::List {
        line: None,
        op: ListOp::Amp,
        left: Box::new(simple(&["long_running_cmd"])),
        right: Box::new(simple(&["wait"])),
    };
    assert_eq!(to_bash(&c), "long_running_cmd & wait");
}

#[test]
fn test_unparse_semi_newline_when_lines_ascend() {
    let left = Command::Simple {
        line: Some(1),
        words: vec![word("a")],
        redirects: vec![],
        assignments: None,
    };
    let right = Command::Simple {
        line: Some(2),
        words: vec![word("b")],
        redirects: vec![],
        assignments: None,
    };
    let c = Command::List {
        line: None,
        op: ListOp::Semi,
        left: Box::new(left),
        right: Box::new(right),
    };
    assert_eq!(to_bash(&c), "a\nb");
}

#[test]
fn test_unparse_semi_newline_when_left_has_heredoc() {
    // A `;`-joined command switches to a real newline when the left operand
    // carries a here-document.
    let left = simple_with_redirects(&["cat"], vec![heredoc("hi\n", "EOF")]);
    let c = Command::List {
        line: None,
        op: ListOp::Semi,
        left: Box::new(left),
        right: Box::new(simple(&["echo", "done"])),
    };
    assert_eq!(to_bash(&c), "cat <<EOF\nhi\nEOF\necho done");
}

#[test]
fn test_unparse_and_list_defers_heredoc_bodies() {
    // For `&&`-joined commands the body is deferred past the right operand,
    // once per here-document.
    let left = simple_with_redirects(&["cat"], vec![heredoc("hi\n", "EOF")]);
    let c = Command::List {
        line: None,
        op: ListOp::And,
        left: Box::new(left),
        right: Box::new(simple(&["echo", "ok"])),
    };
    assert_eq!(to_bash(&c), "cat <<EOF && echo ok\nhi\nEOF");
}

#[test]
fn test_unparse_for_loop() {
    let c = Command::For {
        line: None,
        variable: "i".to_string(),
        words: Some(vec!["a".to_string(), "b".to_string(), "c".to_string()]),
        body: Box::new(simple(&["echo", "$i"])),
        redirects: vec![],
    };
    assert_eq!(to_bash(&c), "for i in a b c; do echo $i; done");
}

#[test]
fn test_unparse_for_loop_no_words_iterates_positionals() {
    // `None` means "iterate positional parameters": no `in` is printed.
    let c = Command::For {
        line: None,
        variable: "i".to_string(),
        words: None,
        body: Box::new(simple(&["echo", "$i"])),
        redirects: vec![],
    };
    assert_eq!(to_bash(&c), "for i; do echo $i; done");
}

#[test]
fn test_unparse_for_loop_explicit_empty_words() {
    // An explicit empty list is distinct from an absent one.
    let c = Command::For {
        line: None,
        variable: "i".to_string(),
        words: Some(vec![]),
        body: Box::new(simple(&["echo"])),
        redirects: vec![],
    };
    assert_eq!(to_bash(&c), "for i in; do echo; done");
}

#[test]
fn test_unparse_while_until() {
    let w = Command::While {
        line: None,
        test: Box::new(simple(&["true"])),
        body: Box::new(simple(&["echo", "loop"])),
        redirects: vec![],
    };
    assert_eq!(to_bash(&w), "while true; do echo loop; done");
    let u = Command::Until {
        line: None,
        test: Box::new(simple(&["false"])),
        body: Box::new(simple(&["echo", "x"])),
        redirects: vec![],
    };
    assert_eq!(to_bash(&u), "until false; do echo x; done");
}

#[test]
fn test_unparse_body_ending_with_background_drops_semicolon() {
    let body = Command::List {
        line: None,
        op: ListOp::Amp,
        left: Box::new(simple(&["work"])),
        right: Box::new(empty_placeholder()),
    };
    let c = Command::While {
        line: None,
        test: Box::new(simple(&["true"])),
        body: Box::new(body),
        redirects: vec![],
    };
    assert_eq!(to_bash(&c), "while true; do work & done");
}

#[test]
fn test_unparse_if_simple() {
    let c = Command::If {
        line: None,
        condition: Box::new(simple(&["true"])),
        then_branch: Box::new(simple(&["echo", "yes"])),
        else_branch: None,
        redirects: vec![],
    };
    assert_eq!(to_bash(&c), "if true; then echo yes; fi");
}

#[test]
fn test_unparse_if_else() {
    let c = Command::If {
        line: None,
        condition: Box::new(simple(&["true"])),
        then_branch: Box::new(simple(&["echo", "yes"])),
        else_branch: Some(Box::new(simple(&["echo", "no"]))),
        redirects: vec![],
    };
    assert_eq!(to_bash(&c), "if true; then echo yes; else echo no; fi");
}

#[test]
fn test_unparse_elif_chain_single_fi() {
    // A nested if in the else branch prints as `elif`, with exactly one `fi`
    // for the whole chain.
    let inner = Command::If {
        line: None,
        condition: Box::new(simple(&["c"])),
        then_branch: Box::new(simple(&["d"])),
        else_branch: Some(Box::new(simple(&["e"]))),
        redirects: vec![],
    };
    let c = Command::If {
        line: None,
        condition: Box::new(simple(&["a"])),
        then_branch: Box::new(simple(&["b"])),
        else_branch: Some(Box::new(inner)),
        redirects: vec![],
    };
    let text = to_bash(&c);
    assert_eq!(text, "if a; then b; elif c; then d; else e; fi");
    assert_eq!(text.matches("fi").count(), 1);
}

#[test]
fn test_unparse_case_terminators() {
    let clauses = vec![
        CaseClause {
            patterns: vec!["p".to_string()],
            action: Some(Box::new(simple(&["a"]))),
            flags: Some(CaseClauseFlags {
                fallthrough: true,
                test_next: false,
            }),
        },
        CaseClause {
            patterns: vec!["q".to_string()],
            action: Some(Box::new(simple(&["b"]))),
            flags: None,
        },
    ];
    let c = Command::Case {
        line: None,
        word: "x".to_string(),
        clauses,
        redirects: vec![],
    };
    assert_eq!(to_bash(&c), "case x in p) a;& q) b;; esac");
}

#[test]
fn test_unparse_case_test_next_and_multi_patterns() {
    let clauses = vec![
        CaseClause {
            patterns: vec!["a".to_string(), "b".to_string(), "c".to_string()],
            action: Some(Box::new(simple(&["echo", "match"]))),
            flags: Some(CaseClauseFlags {
                fallthrough: false,
                test_next: true,
            }),
        },
        CaseClause {
            patterns: vec!["*".to_string()],
            action: None,
            flags: None,
        },
    ];
    let c = Command::Case {
        line: None,
        word: "$x".to_string(),
        clauses,
        redirects: vec![],
    };
    assert_eq!(to_bash(&c), "case $x in a|b|c) echo match;;& *) ;; esac");
}

#[test]
fn test_unparse_select() {
    let c = Command::Select {
        line: None,
        variable: "opt".to_string(),
        words: Some(vec!["a".to_string(), "b".to_string()]),
        body: Box::new(simple(&["echo", "$opt"])),
        redirects: vec![],
    };
    assert_eq!(to_bash(&c), "select opt in a b; do echo $opt; done");
}

#[test]
fn test_unparse_group_and_subshell() {
    let body = Command::List {
        line: None,
        op: ListOp::Semi,
        left: Box::new(simple(&["echo", "hello"])),
        right: Box::new(simple(&["echo", "world"])),
    };
    let g = Command::Group {
        line: None,
        body: Box::new(body),
        redirects: vec![],
    };
    assert_eq!(to_bash(&g), "{ echo hello; echo world; }");
    let s = Command::Subshell {
        line: None,
        body: Box::new(simple(&["echo", "hi"])),
        redirects: vec![],
    };
    assert_eq!(to_bash(&s), "(echo hi)");
}

#[test]
fn test_unparse_group_wrapper_redirect() {
    let g = Command::Group {
        line: None,
        body: Box::new(simple(&["echo", "x"])),
        redirects: vec![redirect(
            RedirectType::Output,
            None,
            RedirectTarget::File("out".to_string()),
        )],
    };
    assert_eq!(to_bash(&g), "{ echo x; } > out");
}

#[test]
fn test_unparse_function_def() {
    let body = Command::Group {
        line: None,
        body: Box::new(simple(&["echo", "bar"])),
        redirects: vec![],
    };
    let c = Command::FunctionDef {
        line: None,
        name: "foo".to_string(),
        body: Box::new(body),
        source_file: None,
    };
    assert_eq!(to_bash(&c), "foo() { echo bar; }");
}

#[test]
fn test_unparse_arithmetic() {
    let c = Command::Arithmetic {
        line: None,
        expression: "x = 1 + 2".to_string(),
    };
    assert_eq!(to_bash(&c), "((x = 1 + 2))");
}

#[test]
fn test_unparse_arithmetic_for() {
    let c = Command::ArithmeticFor {
        line: None,
        init: "i=0".to_string(),
        test: "i<10".to_string(),
        step: "i++".to_string(),
        body: Box::new(simple(&["echo", "$i"])),
    };
    assert_eq!(to_bash(&c), "for ((i=0; i<10; i++)); do echo $i; done");
}

#[test]
fn test_unparse_conditional_expressions() {
    let unary = Command::Conditional {
        line: None,
        expr: ConditionalExpr::Unary {
            op: "-f".to_string(),
            arg: "file".to_string(),
        },
    };
    assert_eq!(to_bash(&unary), "[[ -f file ]]");
    let binary = Command::Conditional {
        line: None,
        expr: ConditionalExpr::Binary {
            op: "==".to_string(),
            left: "$a".to_string(),
            right: "$b".to_string(),
        },
    };
    assert_eq!(to_bash(&binary), "[[ $a == $b ]]");
    let grouped = Command::Conditional {
        line: None,
        expr: ConditionalExpr::Expr {
            expr: Box::new(ConditionalExpr::And {
                left: Box::new(ConditionalExpr::Unary {
                    op: "-f".to_string(),
                    arg: "x".to_string(),
                }),
                right: Box::new(ConditionalExpr::Not {
                    expr: Box::new(ConditionalExpr::Term {
                        word: "y".to_string(),
                    }),
                }),
            }),
        },
    };
    assert_eq!(to_bash(&grouped), "[[ ( -f x && ! y ) ]]");
    let or = Command::Conditional {
        line: None,
        expr: ConditionalExpr::Or {
            left: Box::new(ConditionalExpr::Term {
                word: "a".to_string(),
            }),
            right: Box::new(ConditionalExpr::Term {
                word: "b".to_string(),
            }),
        },
    };
    assert_eq!(to_bash(&or), "[[ a || b ]]");
}

#[test]
fn test_unparse_coproc() {
    let anonymous = Command::Coproc {
        line: None,
        name: None,
        body: Box::new(simple(&["cat"])),
    };
    assert_eq!(to_bash(&anonymous), "coproc cat");
    // The default name on a simple body is suppressed.
    let default_name = Command::Coproc {
        line: None,
        name: Some("COPROC".to_string()),
        body: Box::new(simple(&["cat"])),
    };
    assert_eq!(to_bash(&default_name), "coproc cat");
    // A custom name is always printed.
    let named = Command::Coproc {
        line: None,
        name: Some("MYPROC".to_string()),
        body: Box::new(Command::Group {
            line: None,
            body: Box::new(simple(&["cat"])),
            redirects: vec![],
        }),
    };
    assert_eq!(to_bash(&named), "coproc MYPROC { cat; }");
    // The default name on a non-simple body is printed.
    let default_group = Command::Coproc {
        line: None,
        name: Some("COPROC".to_string()),
        body: Box::new(Command::Group {
            line: None,
            body: Box::new(simple(&["cat"])),
            redirects: vec![],
        }),
    };
    assert_eq!(to_bash(&default_group), "coproc COPROC { cat; }");
}

#[test]
fn test_unparse_nested_compound() {
    let inner_while = Command::While {
        line: None,
        test: Box::new(simple(&["true"])),
        body: Box::new(simple(&["echo", "$i"])),
        redirects: vec![],
    };
    let for_loop = Command::For {
        line: None,
        variable: "i".to_string(),
        words: Some(vec!["1".to_string(), "2".to_string()]),
        body: Box::new(inner_while),
        redirects: vec![],
    };
    let c = Command::If {
        line: None,
        condition: Box::new(simple(&["true"])),
        then_branch: Box::new(for_loop),
        else_branch: None,
        redirects: vec![],
    };
    assert_eq!(
        to_bash(&c),
        "if true; then for i in 1 2; do while true; do echo $i; done; done; fi"
    );
}

#[test]
fn test_line_accessor() {
    let c = Command::Simple {
        line: Some(7),
        words: vec![word("x")],
        redirects: vec![],
        assignments: None,
    };
    assert_eq!(c.line(), Some(7));
    assert_eq!(simple(&["x"]).line(), None);
}
