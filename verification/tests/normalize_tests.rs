use bash_ast::convert_command;
use bash_ast::foreign::ForeignCommand;
use bash_ast::foreign::ForeignCond;
use bash_ast::foreign::ForeignNode;
use bash_ast::foreign::ForeignPattern;
use bash_ast::foreign::ForeignRedirect;
use bash_ast::foreign::ForeignWord;
use bash_ast::foreign::ForeignWordList;
use bash_ast::normalize::unwrap_script_group;
use bash_ast::normalize::CASEPAT_FALLTHROUGH;
use bash_ast::normalize::CMD_INVERT_RETURN;
use bash_ast::normalize::CONNECTOR_AMP;
use bash_ast::normalize::CONNECTOR_PIPE;
use bash_ast::normalize::CONNECTOR_SEMI;
use bash_ast::normalize::R_OUTPUT_DIRECTION;
use bash_ast::normalize::R_READING_UNTIL;
use bash_ast::normalize::TOKEN_AND_AND;
use bash_ast::normalize::TOKEN_OR_OR;
use bash_ast::to_bash;
use bash_ast::Command;
use bash_ast::ListOp;
use bash_ast::RedirectTarget;
use bash_ast::RedirectType;

fn fw(text: &str) -> ForeignWord {
    ForeignWord {
        text: text.to_string(),
        flags: 0,
    }
}

fn word_list(texts: &[&str]) -> Option<Box<ForeignWordList>> {
    let mut next: Option<Box<ForeignWordList>> = None;
    for t in texts.iter().rev() {
        next = Some(Box::new(ForeignWordList {
            word: Some(fw(t)),
            next,
        }));
    }
    next
}

fn node(n: ForeignNode) -> ForeignCommand {
    ForeignCommand {
        flags: 0,
        line: 0,
        redirects: None,
        node: n,
    }
}

fn simple(texts: &[&str]) -> ForeignCommand {
    node(ForeignNode::Simple {
        line: 0,
        words: word_list(texts),
        redirects: None,
    })
}

fn pipe(first: ForeignCommand, second: ForeignCommand) -> ForeignCommand {
    node(ForeignNode::Connection {
        connector: CONNECTOR_PIPE,
        first: Some(Box::new(first)),
        second: Some(Box::new(second)),
    })
}

#[test]
fn test_normalize_simple_words() {
    let cmd = convert_command(&simple(&["echo", "hello", "world"])).unwrap();
    match cmd {
        Command::Simple { words, .. } => {
            assert_eq!(words.len(), 3);
            assert_eq!(words[0].word, "echo");
            assert_eq!(words[1].word, "hello");
            assert_eq!(words[2].word, "world");
        }
        other => panic!("expected a simple command, got {other:?}"),
    }
}

#[test]
fn test_normalize_assignment_partition() {
    // Words flagged as assignments split off, preserving relative order.
    let mut f = simple(&[]);
    if let ForeignNode::Simple { words, .. } = &mut f.node {
        let mut a1 = fw("A=1");
        a1.flags = 4;
        let mut b2 = fw("B=2");
        b2.flags = 4;
        *words = Some(Box::new(ForeignWordList {
            word: Some(a1),
            next: Some(Box::new(ForeignWordList {
                word: Some(fw("cmd")),
                next: Some(Box::new(ForeignWordList {
                    word: Some(b2),
                    next: None,
                })),
            })),
        }));
    }
    let cmd = convert_command(&f).unwrap();
    match cmd {
        Command::Simple {
            words, assignments, ..
        } => {
            assert_eq!(words.len(), 1);
            assert_eq!(words[0].word, "cmd");
            assert_eq!(
                assignments,
                Some(vec!["A=1".to_string(), "B=2".to_string()])
            );
        }
        other => panic!("expected a simple command, got {other:?}"),
    }
}

#[test]
fn test_normalize_no_assignments_is_absent() {
    let cmd = convert_command(&simple(&["echo"])).unwrap();
    match cmd {
        Command::Simple { assignments, .. } => assert!(assignments.is_none()),
        other => panic!("expected a simple command, got {other:?}"),
    }
}

#[test]
fn test_normalize_pipeline_left_nested() {
    // ((a | b) | c) flattens to one three-stage pipeline.
    let f = pipe(pipe(simple(&["a"]), simple(&["b"])), simple(&["c"]));
    let cmd = convert_command(&f).unwrap();
    match cmd {
        Command::Pipeline {
            commands, negated, ..
        } => {
            assert_eq!(commands.len(), 3);
            assert!(!negated);
        }
        other => panic!("expected a pipeline, got {other:?}"),
    }
}

#[test]
fn test_normalize_pipeline_right_nested() {
    // (a | (b | c)) flattens to the same three-stage pipeline.
    let f = pipe(simple(&["a"]), pipe(simple(&["b"]), simple(&["c"])));
    let cmd = convert_command(&f).unwrap();
    match cmd {
        Command::Pipeline { commands, .. } => {
            assert_eq!(commands.len(), 3);
            assert!(commands.iter().all(|c| !matches!(c, Command::Pipeline { .. })));
        }
        other => panic!("expected a pipeline, got {other:?}"),
    }
}

#[test]
fn test_normalize_negated_pipeline() {
    let mut f = pipe(simple(&["a"]), simple(&["b"]));
    f.flags = CMD_INVERT_RETURN;
    let cmd = convert_command(&f).unwrap();
    match cmd {
        Command::Pipeline { negated, .. } => assert!(negated),
        other => panic!("expected a pipeline, got {other:?}"),
    }
    assert_eq!(to_bash(&convert_command(&f).unwrap()), "! a | b");
}

#[test]
fn test_normalize_negated_lone_command_is_one_stage_pipeline() {
    // A negated lone command becomes a one-stage negated pipeline, never
    // collapsed away.
    let mut f = simple(&["true"]);
    f.flags = CMD_INVERT_RETURN;
    let cmd = convert_command(&f).unwrap();
    match &cmd {
        Command::Pipeline {
            commands, negated, ..
        } => {
            assert_eq!(commands.len(), 1);
            assert!(*negated);
        }
        other => panic!("expected a pipeline, got {other:?}"),
    }
    assert_eq!(to_bash(&cmd), "! true");
}

#[test]
fn test_normalize_connector_tokens() {
    let and = node(ForeignNode::Connection {
        connector: TOKEN_AND_AND,
        first: Some(Box::new(simple(&["a"]))),
        second: Some(Box::new(simple(&["b"]))),
    });
    match convert_command(&and).unwrap() {
        Command::List { op, .. } => assert_eq!(op, ListOp::And),
        other => panic!("expected a list, got {other:?}"),
    }
    let or = node(ForeignNode::Connection {
        connector: TOKEN_OR_OR,
        first: Some(Box::new(simple(&["a"]))),
        second: Some(Box::new(simple(&["b"]))),
    });
    match convert_command(&or).unwrap() {
        Command::List { op, .. } => assert_eq!(op, ListOp::Or),
        other => panic!("expected a list, got {other:?}"),
    }
    let semi = node(ForeignNode::Connection {
        connector: CONNECTOR_SEMI,
        first: Some(Box::new(simple(&["a"]))),
        second: Some(Box::new(simple(&["b"]))),
    });
    match convert_command(&semi).unwrap() {
        Command::List { op, .. } => assert_eq!(op, ListOp::Semi),
        other => panic!("expected a list, got {other:?}"),
    }
    // An unrecognized connector token falls back to `;`.
    let odd = node(ForeignNode::Connection {
        connector: 999,
        first: Some(Box::new(simple(&["a"]))),
        second: Some(Box::new(simple(&["b"]))),
    });
    match convert_command(&odd).unwrap() {
        Command::List { op, .. } => assert_eq!(op, ListOp::Semi),
        other => panic!("expected a list, got {other:?}"),
    }
}

#[test]
fn test_normalize_background_missing_right_gets_placeholder() {
    // A background node with an absent right operand is a list with the
    // explicit empty placeholder on the right.
    let f = node(ForeignNode::Connection {
        connector: CONNECTOR_AMP,
        first: Some(Box::new(simple(&["a"]))),
        second: None,
    });
    let cmd = convert_command(&f).unwrap();
    match &cmd {
        Command::List { op, right, .. } => {
            assert_eq!(*op, ListOp::Amp);
            match &**right {
                Command::Simple {
                    words,
                    redirects,
                    assignments,
                    ..
                } => {
                    assert!(words.is_empty());
                    assert!(redirects.is_empty());
                    assert!(assignments.is_none());
                }
                other => panic!("expected the placeholder, got {other:?}"),
            }
        }
        other => panic!("expected a list, got {other:?}"),
    }
    assert_eq!(to_bash(&cmd), "a &");
}

#[test]
fn test_normalize_missing_right_fails_for_other_operators() {
    let f = node(ForeignNode::Connection {
        connector: CONNECTOR_SEMI,
        first: Some(Box::new(simple(&["a"]))),
        second: None,
    });
    assert!(convert_command(&f).is_none());
}

#[test]
fn test_normalize_depth_bound_rejects_deep_nest() {
    // A synthetic foreign tree nested 10,000 deep yields a conversion
    // failure, not a stack overflow.
    let mut f = simple(&["echo"]);
    for _ in 0..10000 {
        f = node(ForeignNode::Subshell {
            line: 0,
            command: Some(Box::new(f)),
        });
    }
    assert!(convert_command(&f).is_none());
}

#[test]
fn test_normalize_shallow_nest_converts() {
    let mut f = simple(&["echo"]);
    for _ in 0..10 {
        f = node(ForeignNode::Subshell {
            line: 0,
            command: Some(Box::new(f)),
        });
    }
    assert!(convert_command(&f).is_some());
}

#[test]
fn test_normalize_unknown_tag_fails() {
    assert!(convert_command(&node(ForeignNode::Unknown)).is_none());
}

#[test]
fn test_normalize_missing_required_child_fails() {
    // A for loop without a variable name cannot be converted.
    let f = node(ForeignNode::For {
        line: 0,
        name: None,
        map_list: word_list(&["a"]),
        action: Some(Box::new(simple(&["echo"]))),
    });
    assert!(convert_command(&f).is_none());
    // Nor one without a body.
    let g = node(ForeignNode::For {
        line: 0,
        name: Some(fw("i")),
        map_list: word_list(&["a"]),
        action: None,
    });
    assert!(convert_command(&g).is_none());
}

#[test]
fn test_normalize_line_filtering() {
    let mut f = simple(&["x"]);
    f.line = 5;
    match convert_command(&f).unwrap() {
        Command::Simple { line, .. } => assert_eq!(line, Some(5)),
        other => panic!("expected a simple command, got {other:?}"),
    }
    let mut zero = simple(&["x"]);
    zero.line = 0;
    assert_eq!(convert_command(&zero).unwrap().line(), None);
    let mut garbage = simple(&["x"]);
    garbage.line = 2000000;
    assert_eq!(convert_command(&garbage).unwrap().line(), None);
    let mut negative = simple(&["x"]);
    negative.line = -7;
    assert_eq!(convert_command(&negative).unwrap().line(), None);
}

#[test]
fn test_normalize_for_loop_words() {
    let f = node(ForeignNode::For {
        line: 0,
        name: Some(fw("i")),
        map_list: word_list(&["a", "b", "c"]),
        action: Some(Box::new(simple(&["echo", "$i"]))),
    });
    let cmd = convert_command(&f).unwrap();
    match &cmd {
        Command::For {
            variable, words, ..
        } => {
            assert_eq!(variable, "i");
            assert_eq!(
                *words,
                Some(vec!["a".to_string(), "b".to_string(), "c".to_string()])
            );
        }
        other => panic!("expected a for loop, got {other:?}"),
    }
    assert_eq!(to_bash(&cmd), "for i in a b c; do echo $i; done");
}

#[test]
fn test_normalize_for_loop_absent_word_list() {
    let f = node(ForeignNode::For {
        line: 0,
        name: Some(fw("i")),
        map_list: None,
        action: Some(Box::new(simple(&["echo"]))),
    });
    match convert_command(&f).unwrap() {
        Command::For { words, .. } => assert!(words.is_none()),
        other => panic!("expected a for loop, got {other:?}"),
    }
}

#[test]
fn test_normalize_elif_chain() {
    // `if a; then b; elif c; then d; else e; fi` arrives as a nested if in
    // the false case and stays that way.
    let inner = node(ForeignNode::If {
        test: Some(Box::new(simple(&["c"]))),
        true_case: Some(Box::new(simple(&["d"]))),
        false_case: Some(Box::new(simple(&["e"]))),
    });
    let f = node(ForeignNode::If {
        test: Some(Box::new(simple(&["a"]))),
        true_case: Some(Box::new(simple(&["b"]))),
        false_case: Some(Box::new(inner)),
    });
    let cmd = convert_command(&f).unwrap();
    match &cmd {
        Command::If { else_branch, .. } => match else_branch.as_deref() {
            Some(Command::If {
                else_branch: inner_else,
                ..
            }) => {
                assert!(matches!(
                    inner_else.as_deref(),
                    Some(Command::Simple { .. })
                ));
            }
            other => panic!("expected a nested if, got {other:?}"),
        },
        other => panic!("expected an if, got {other:?}"),
    }
    let text = to_bash(&cmd);
    assert_eq!(text, "if a; then b; elif c; then d; else e; fi");
    assert_eq!(text.matches("fi").count(), 1);
}

#[test]
fn test_normalize_case_terminator_flags() {
    // `case x in p) a;& q) b;; esac`: the first clause records fallthrough,
    // the second records no flags at all.
    let second = ForeignPattern {
        patterns: word_list(&["q"]),
        action: Some(Box::new(simple(&["b"]))),
        flags: 0,
        next: None,
    };
    let first = ForeignPattern {
        patterns: word_list(&["p"]),
        action: Some(Box::new(simple(&["a"]))),
        flags: CASEPAT_FALLTHROUGH,
        next: Some(Box::new(second)),
    };
    let f = node(ForeignNode::Case {
        line: 0,
        word: Some(fw("x")),
        clauses: Some(Box::new(first)),
    });
    let cmd = convert_command(&f).unwrap();
    match &cmd {
        Command::Case { clauses, .. } => {
            assert_eq!(clauses.len(), 2);
            let flags = clauses[0].flags.as_ref().unwrap();
            assert!(flags.fallthrough);
            assert!(!flags.test_next);
            assert!(clauses[1].flags.is_none());
        }
        other => panic!("expected a case, got {other:?}"),
    }
    assert_eq!(to_bash(&cmd), "case x in p) a;& q) b;; esac");
}

#[test]
fn test_normalize_clause_with_failed_action_keeps_clause() {
    // A clause whose action fails to convert keeps an absent action rather
    // than failing the whole case.
    let clause = ForeignPattern {
        patterns: word_list(&["p"]),
        action: Some(Box::new(node(ForeignNode::Unknown))),
        flags: 0,
        next: None,
    };
    let f = node(ForeignNode::Case {
        line: 0,
        word: Some(fw("x")),
        clauses: Some(Box::new(clause)),
    });
    match convert_command(&f).unwrap() {
        Command::Case { clauses, .. } => {
            assert_eq!(clauses.len(), 1);
            assert!(clauses[0].action.is_none());
        }
        other => panic!("expected a case, got {other:?}"),
    }
}

#[test]
fn test_normalize_redirects_inner_then_wrapper() {
    // Redirects on the inner node come before the wrapper's.
    let inner = ForeignRedirect {
        instruction: R_OUTPUT_DIRECTION,
        redirector_fd: 1,
        redirectee_fd: 0,
        redirectee_filename: fw("first"),
        here_doc_eof: None,
        next: None,
    };
    let wrapper = ForeignRedirect {
        instruction: R_OUTPUT_DIRECTION,
        redirector_fd: 2,
        redirectee_fd: 0,
        redirectee_filename: fw("second"),
        here_doc_eof: None,
        next: None,
    };
    let mut f = node(ForeignNode::Simple {
        line: 0,
        words: word_list(&["echo"]),
        redirects: Some(Box::new(inner)),
    });
    f.redirects = Some(Box::new(wrapper));
    let cmd = convert_command(&f).unwrap();
    match &cmd {
        Command::Simple { redirects, .. } => {
            assert_eq!(redirects.len(), 2);
            assert_eq!(redirects[0].target, RedirectTarget::File("first".to_string()));
            // Descriptor 1 is the implicit default of an output redirect.
            assert_eq!(redirects[0].source_fd, None);
            assert_eq!(redirects[1].target, RedirectTarget::File("second".to_string()));
            assert_eq!(redirects[1].source_fd, Some(2));
        }
        other => panic!("expected a simple command, got {other:?}"),
    }
    assert_eq!(to_bash(&cmd), "echo > first 2> second");
}

#[test]
fn test_normalize_heredoc_redirect() {
    let h = ForeignRedirect {
        instruction: R_READING_UNTIL,
        redirector_fd: 0,
        redirectee_fd: 0,
        redirectee_filename: fw("hi\n"),
        here_doc_eof: Some("EOF".to_string()),
        next: None,
    };
    let f = node(ForeignNode::Simple {
        line: 0,
        words: word_list(&["cat"]),
        redirects: Some(Box::new(h)),
    });
    let cmd = convert_command(&f).unwrap();
    match &cmd {
        Command::Simple { redirects, .. } => {
            assert_eq!(redirects[0].direction, RedirectType::HereDoc);
            assert_eq!(redirects[0].here_doc_eof, Some("EOF".to_string()));
        }
        other => panic!("expected a simple command, got {other:?}"),
    }
    assert_eq!(to_bash(&cmd), "cat <<EOF\nhi\nEOF");
}

#[test]
fn test_normalize_group_wrapper_redirect() {
    let wrapper = ForeignRedirect {
        instruction: R_OUTPUT_DIRECTION,
        redirector_fd: 1,
        redirectee_fd: 0,
        redirectee_filename: fw("out"),
        here_doc_eof: None,
        next: None,
    };
    let mut f = node(ForeignNode::Group {
        command: Some(Box::new(simple(&["echo", "x"]))),
    });
    f.redirects = Some(Box::new(wrapper));
    let cmd = convert_command(&f).unwrap();
    assert_eq!(to_bash(&cmd), "{ echo x; } > out");
}

#[test]
fn test_normalize_conditional() {
    let unary = ForeignCond {
        kind: 3,
        op: Some(fw("-f")),
        left: Some(Box::new(ForeignCond {
            kind: 5,
            op: Some(fw("file")),
            left: None,
            right: None,
        })),
        right: None,
    };
    let f = node(ForeignNode::Cond {
        line: 0,
        expr: Some(Box::new(unary)),
    });
    let cmd = convert_command(&f).unwrap();
    assert_eq!(to_bash(&cmd), "[[ -f file ]]");
}

#[test]
fn test_normalize_conditional_binary_and() {
    let left_test = ForeignCond {
        kind: 4,
        op: Some(fw("==")),
        left: Some(Box::new(ForeignCond {
            kind: 5,
            op: Some(fw("$a")),
            left: None,
            right: None,
        })),
        right: Some(Box::new(ForeignCond {
            kind: 5,
            op: Some(fw("$b")),
            left: None,
            right: None,
        })),
    };
    let right_term = ForeignCond {
        kind: 5,
        op: Some(fw("x")),
        left: None,
        right: None,
    };
    let and = ForeignCond {
        kind: 1,
        op: None,
        left: Some(Box::new(left_test)),
        right: Some(Box::new(right_term)),
    };
    let f = node(ForeignNode::Cond {
        line: 0,
        expr: Some(Box::new(and)),
    });
    assert_eq!(to_bash(&convert_command(&f).unwrap()), "[[ $a == $b && x ]]");
}

#[test]
fn test_normalize_conditional_unknown_kind_fails() {
    let odd = ForeignCond {
        kind: 42,
        op: None,
        left: None,
        right: None,
    };
    let f = node(ForeignNode::Cond {
        line: 0,
        expr: Some(Box::new(odd)),
    });
    assert!(convert_command(&f).is_none());
}

#[test]
fn test_normalize_arithmetic_words_joined() {
    let f = node(ForeignNode::Arith {
        line: 0,
        exp: word_list(&["x", "=", "1"]),
    });
    let cmd = convert_command(&f).unwrap();
    match &cmd {
        Command::Arithmetic { expression, .. } => assert_eq!(expression, "x = 1"),
        other => panic!("expected arithmetic, got {other:?}"),
    }
    assert_eq!(to_bash(&cmd), "((x = 1))");
}

#[test]
fn test_normalize_arith_for() {
    let f = node(ForeignNode::ArithFor {
        line: 0,
        init: word_list(&["i=0"]),
        test: word_list(&["i<10"]),
        step: word_list(&["i++"]),
        action: Some(Box::new(simple(&["echo", "$i"]))),
    });
    assert_eq!(
        to_bash(&convert_command(&f).unwrap()),
        "for ((i=0; i<10; i++)); do echo $i; done"
    );
}

#[test]
fn test_normalize_function_def() {
    let body = node(ForeignNode::Group {
        command: Some(Box::new(simple(&["echo", "bar"]))),
    });
    let f = node(ForeignNode::FunctionDef {
        name: Some(fw("foo")),
        command: Some(Box::new(body)),
        source_file: Some("lib.sh".to_string()),
    });
    let cmd = convert_command(&f).unwrap();
    match &cmd {
        Command::FunctionDef {
            name, source_file, ..
        } => {
            assert_eq!(name, "foo");
            assert_eq!(*source_file, Some("lib.sh".to_string()));
        }
        other => panic!("expected a function definition, got {other:?}"),
    }
    assert_eq!(to_bash(&cmd), "foo() { echo bar; }");
}

#[test]
fn test_normalize_coproc() {
    let f = node(ForeignNode::Coproc {
        name: Some("MYPROC".to_string()),
        command: Some(Box::new(node(ForeignNode::Group {
            command: Some(Box::new(simple(&["cat"]))),
        }))),
    });
    assert_eq!(to_bash(&convert_command(&f).unwrap()), "coproc MYPROC { cat; }");
}

#[test]
fn test_normalize_while_until_select() {
    let w = node(ForeignNode::While {
        test: Some(Box::new(simple(&["true"]))),
        action: Some(Box::new(simple(&["echo", "loop"]))),
    });
    assert_eq!(
        to_bash(&convert_command(&w).unwrap()),
        "while true; do echo loop; done"
    );
    let u = node(ForeignNode::Until {
        test: Some(Box::new(simple(&["false"]))),
        action: Some(Box::new(simple(&["echo", "x"]))),
    });
    assert_eq!(
        to_bash(&convert_command(&u).unwrap()),
        "until false; do echo x; done"
    );
    let s = node(ForeignNode::Select {
        line: 0,
        name: Some(fw("opt")),
        map_list: word_list(&["a", "b"]),
        action: Some(Box::new(simple(&["echo", "$opt"]))),
    });
    assert_eq!(
        to_bash(&convert_command(&s).unwrap()),
        "select opt in a b; do echo $opt; done"
    );
}

#[test]
fn test_normalize_word_list_skips_absent_entries() {
    let with_hole = Some(Box::new(ForeignWordList {
        word: Some(fw("echo")),
        next: Some(Box::new(ForeignWordList {
            word: None,
            next: Some(Box::new(ForeignWordList {
                word: Some(fw("x")),
                next: None,
            })),
        })),
    }));
    let f = node(ForeignNode::Simple {
        line: 0,
        words: with_hole,
        redirects: None,
    });
    match convert_command(&f).unwrap() {
        Command::Simple { words, .. } => {
            assert_eq!(words.len(), 2);
            assert_eq!(words[0].word, "echo");
            assert_eq!(words[1].word, "x");
        }
        other => panic!("expected a simple command, got {other:?}"),
    }
}

#[test]
fn test_unwrap_script_group() {
    let grouped = Command::Group {
        line: None,
        body: Box::new(convert_command(&simple(&["echo", "hi"])).unwrap()),
        redirects: vec![],
    };
    match unwrap_script_group(grouped) {
        Command::Simple { words, .. } => assert_eq!(words[0].word, "echo"),
        other => panic!("expected the unwrapped body, got {other:?}"),
    }
    let plain = convert_command(&simple(&["ls"])).unwrap();
    assert!(matches!(
        unwrap_script_group(plain),
        Command::Simple { .. }
    ));
}

#[test]
fn test_normalize_source_fd_default_is_absent() {
    // A recorded source descriptor equal to the operator's implicit default
    // maps to an absent one; only a non-default descriptor is kept.
    let mk = |instruction: i32, fd: i32| {
        let r = ForeignRedirect {
            instruction,
            redirector_fd: fd,
            redirectee_fd: 1,
            redirectee_filename: fw("f"),
            here_doc_eof: None,
            next: None,
        };
        let f = node(ForeignNode::Simple {
            line: 0,
            words: word_list(&["cmd"]),
            redirects: Some(Box::new(r)),
        });
        match convert_command(&f).unwrap() {
            Command::Simple { redirects, .. } => redirects.into_iter().next().unwrap(),
            other => panic!("expected a simple command, got {other:?}"),
        }
    };
    // Output-like default is 1.
    assert_eq!(mk(R_OUTPUT_DIRECTION, 1).source_fd, None);
    assert_eq!(mk(R_OUTPUT_DIRECTION, 2).source_fd, Some(2));
    // Input-like default is 0.
    assert_eq!(mk(1, 0).source_fd, None);
    assert_eq!(mk(1, 3).source_fd, Some(3));
    // A negative recorded descriptor is absent.
    assert_eq!(mk(R_OUTPUT_DIRECTION, -1).source_fd, None);
    // A duplicating output redirect keeps a non-default descriptor.
    let dup = mk(7, 2);
    assert_eq!(dup.source_fd, Some(2));
    assert_eq!(dup.target, RedirectTarget::Fd(1));
}
