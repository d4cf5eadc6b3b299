use rslint_parser::ast::{
    ChildTest, Decl, Expr, ForHead, IfStmt, ImportDecl, Specifier, Stmt, StmtListItem, VarDecl,
    WildcardImport,
};
use rslint_parser::builder::{build_tree, parse_script_tree};
use rslint_parser::decl::{
    arrow_body, block_stmt, class_body, class_decl, formal_parameters, function_decl, method,
    parse_script,
};
use rslint_parser::kind::SyntaxKind;
use rslint_parser::parser::{
    contains_newline, text_is, DiagnosticKind, Event, Parser, ParserState, StrictMode, TextRange,
    Token,
};
use rslint_parser::tree::{SyntaxElement, SyntaxNode, SyntaxToken};

fn all_kinds() -> Vec<SyntaxKind> {
    vec![
        SyntaxKind::TOMBSTONE,
        SyntaxKind::EOF,
        SyntaxKind::SEMICOLON,
        SyntaxKind::COMMA,
        SyntaxKind::L_PAREN,
        SyntaxKind::R_PAREN,
        SyntaxKind::L_CURLY,
        SyntaxKind::R_CURLY,
        SyntaxKind::L_BRACK,
        SyntaxKind::R_BRACK,
        SyntaxKind::STAR,
        SyntaxKind::DOT,
        SyntaxKind::DOT3,
        SyntaxKind::EQ,
        SyntaxKind::COLON,
        SyntaxKind::ARROW,
        SyntaxKind::IDENT,
        SyntaxKind::STRING,
        SyntaxKind::NUMBER,
        SyntaxKind::AWAIT_KW,
        SyntaxKind::BREAK_KW,
        SyntaxKind::CASE_KW,
        SyntaxKind::CATCH_KW,
        SyntaxKind::CLASS_KW,
        SyntaxKind::CONST_KW,
        SyntaxKind::CONTINUE_KW,
        SyntaxKind::DEBUGGER_KW,
        SyntaxKind::DEFAULT_KW,
        SyntaxKind::DELETE_KW,
        SyntaxKind::DO_KW,
        SyntaxKind::ELSE_KW,
        SyntaxKind::EXPORT_KW,
        SyntaxKind::EXTENDS_KW,
        SyntaxKind::FALSE_KW,
        SyntaxKind::FINALLY_KW,
        SyntaxKind::FOR_KW,
        SyntaxKind::FUNCTION_KW,
        SyntaxKind::IF_KW,
        SyntaxKind::IMPORT_KW,
        SyntaxKind::IN_KW,
        SyntaxKind::INSTANCEOF_KW,
        SyntaxKind::NEW_KW,
        SyntaxKind::NULL_KW,
        SyntaxKind::RETURN_KW,
        SyntaxKind::SUPER_KW,
        SyntaxKind::SWITCH_KW,
        SyntaxKind::THIS_KW,
        SyntaxKind::THROW_KW,
        SyntaxKind::TRUE_KW,
        SyntaxKind::TRY_KW,
        SyntaxKind::TYPEOF_KW,
        SyntaxKind::VAR_KW,
        SyntaxKind::VOID_KW,
        SyntaxKind::WHILE_KW,
        SyntaxKind::WITH_KW,
        SyntaxKind::YIELD_KW,
        SyntaxKind::SCRIPT,
        SyntaxKind::ERROR,
        SyntaxKind::NAME,
        SyntaxKind::NAME_REF,
        SyntaxKind::LITERAL,
        SyntaxKind::THIS_EXPR,
        SyntaxKind::DOT_EXPR,
        SyntaxKind::CALL_EXPR,
        SyntaxKind::ARG_LIST,
        SyntaxKind::ASSIGN_EXPR,
        SyntaxKind::FN_EXPR,
        SyntaxKind::CLASS_EXPR,
        SyntaxKind::ARROW_EXPR,
        SyntaxKind::COMPUTED_PROPERTY_NAME,
        SyntaxKind::BLOCK_STMT,
        SyntaxKind::EMPTY_STMT,
        SyntaxKind::EXPR_STMT,
        SyntaxKind::IF_STMT,
        SyntaxKind::DO_WHILE_STMT,
        SyntaxKind::WHILE_STMT,
        SyntaxKind::FOR_STMT,
        SyntaxKind::FOR_IN_STMT,
        SyntaxKind::CONTINUE_STMT,
        SyntaxKind::BREAK_STMT,
        SyntaxKind::RETURN_STMT,
        SyntaxKind::WITH_STMT,
        SyntaxKind::LABELLED_STMT,
        SyntaxKind::SWITCH_STMT,
        SyntaxKind::THROW_STMT,
        SyntaxKind::TRY_STMT,
        SyntaxKind::DEBUGGER_STMT,
        SyntaxKind::FN_DECL,
        SyntaxKind::CLASS_DECL,
        SyntaxKind::VAR_DECL,
        SyntaxKind::IMPORT_DECL,
        SyntaxKind::SPECIFIER,
        SyntaxKind::WILDCARD_IMPORT,
        SyntaxKind::CLASS_BODY,
        SyntaxKind::METHOD,
        SyntaxKind::GETTER,
        SyntaxKind::SETTER,
        SyntaxKind::STATIC_METHOD,
        SyntaxKind::PARAMETER_LIST,
        SyntaxKind::SINGLE_PATTERN,
        SyntaxKind::ASSIGN_PATTERN,
        SyntaxKind::REST_PATTERN,
    ]
}

fn keyword(word: &str) -> Option<SyntaxKind> {
    Some(match word {
        "await" => SyntaxKind::AWAIT_KW,
        "break" => SyntaxKind::BREAK_KW,
        "case" => SyntaxKind::CASE_KW,
        "catch" => SyntaxKind::CATCH_KW,
        "class" => SyntaxKind::CLASS_KW,
        "const" => SyntaxKind::CONST_KW,
        "continue" => SyntaxKind::CONTINUE_KW,
        "debugger" => SyntaxKind::DEBUGGER_KW,
        "default" => SyntaxKind::DEFAULT_KW,
        "delete" => SyntaxKind::DELETE_KW,
        "do" => SyntaxKind::DO_KW,
        "else" => SyntaxKind::ELSE_KW,
        "export" => SyntaxKind::EXPORT_KW,
        "extends" => SyntaxKind::EXTENDS_KW,
        "false" => SyntaxKind::FALSE_KW,
        "finally" => SyntaxKind::FINALLY_KW,
        "for" => SyntaxKind::FOR_KW,
        "function" => SyntaxKind::FUNCTION_KW,
        "if" => SyntaxKind::IF_KW,
        "import" => SyntaxKind::IMPORT_KW,
        "in" => SyntaxKind::IN_KW,
        "instanceof" => SyntaxKind::INSTANCEOF_KW,
        "new" => SyntaxKind::NEW_KW,
        "null" => SyntaxKind::NULL_KW,
        "return" => SyntaxKind::RETURN_KW,
        "super" => SyntaxKind::SUPER_KW,
        "switch" => SyntaxKind::SWITCH_KW,
        "this" => SyntaxKind::THIS_KW,
        "throw" => SyntaxKind::THROW_KW,
        "true" => SyntaxKind::TRUE_KW,
        "try" => SyntaxKind::TRY_KW,
        "typeof" => SyntaxKind::TYPEOF_KW,
        "var" => SyntaxKind::VAR_KW,
        "void" => SyntaxKind::VOID_KW,
        "while" => SyntaxKind::WHILE_KW,
        "with" => SyntaxKind::WITH_KW,
        "yield" => SyntaxKind::YIELD_KW,
        _ => return None,
    })
}

/// A small lexer for the tests: whitespace becomes leading trivia.
fn lex(src: &str) -> Vec<Token> {
    let chars: Vec<char> = src.chars().collect();
    let mut out = Vec::new();
    let mut i = 0;
    let mut leading = String::new();
    while i < chars.len() {
        let c = chars[i];
        if c.is_whitespace() {
            leading.push(c);
            i += 1;
            continue;
        }
        let start = i;
        let kind;
        if c.is_alphabetic() || c == '_' || c == '$' {
            while i < chars.len() && (chars[i].is_alphanumeric() || chars[i] == '_' || chars[i] == '$') {
                i += 1;
            }
            let word: String = chars[start..i].iter().collect();
            kind = keyword(&word).unwrap_or(SyntaxKind::IDENT);
        } else if c.is_ascii_digit() {
            while i < chars.len() && chars[i].is_ascii_digit() {
                i += 1;
            }
            kind = SyntaxKind::NUMBER;
        } else if c == '"' || c == '\'' {
            i += 1;
            while i < chars.len() && chars[i] != c {
                i += 1;
            }
            i += 1;
            kind = SyntaxKind::STRING;
        } else if src[start..].starts_with("...") {
            i += 3;
            kind = SyntaxKind::DOT3;
        } else if src[start..].starts_with("=>") {
            i += 2;
            kind = SyntaxKind::ARROW;
        } else {
            i += 1;
            kind = match c {
                '(' => SyntaxKind::L_PAREN,
                ')' => SyntaxKind::R_PAREN,
                '{' => SyntaxKind::L_CURLY,
                '}' => SyntaxKind::R_CURLY,
                '[' => SyntaxKind::L_BRACK,
                ']' => SyntaxKind::R_BRACK,
                ';' => SyntaxKind::SEMICOLON,
                ',' => SyntaxKind::COMMA,
                '*' => SyntaxKind::STAR,
                '.' => SyntaxKind::DOT,
                '=' => SyntaxKind::EQ,
                ':' => SyntaxKind::COLON,
                _ => SyntaxKind::ERROR,
            };
        }
        let text: String = chars[start..i].iter().collect();
        out.push(Token {
            kind,
            text,
            leading: std::mem::take(&mut leading),
            range: TextRange { start, end: i },
        });
    }
    if !leading.is_empty() {
        let end = chars.len();
        out.push(Token { kind: SyntaxKind::EOF, text: String::new(), leading, range: TextRange { start: end, end } });
    }
    out
}

fn parser(src: &str) -> Parser {
    Parser::new(lex(src), ParserState::new(None))
}

fn starts(p: &Parser, k: SyntaxKind) -> usize {
    p.events.iter().filter(|e| **e == Event::Start { kind: k }).count()
}

fn diag_kinds(p: &Parser) -> Vec<DiagnosticKind> {
    p.diagnostics.iter().map(|d| d.kind).collect()
}

/// The text spelled by the token events, trivia included.
fn spelled(tokens: &[Token], events: &[Event]) -> String {
    let mut s = String::new();
    for e in events {
        if let Event::Token { index } = e {
            s.push_str(&tokens[*index].leading);
            s.push_str(&tokens[*index].text);
        }
    }
    s
}

fn state_snapshot(s: &ParserState) -> (bool, bool, bool, Option<StrictMode>, usize) {
    (s.in_function, s.in_generator, s.in_async, s.strict, s.labels.len())
}

fn tok(kind: SyntaxKind, text: &str) -> SyntaxElement {
    SyntaxElement::Token(SyntaxToken { kind, text: text.to_string(), leading: String::new() })
}

fn node(kind: SyntaxKind, children: Vec<SyntaxElement>) -> SyntaxNode {
    SyntaxNode { kind, children }
}

fn child(n: SyntaxNode) -> SyntaxElement {
    SyntaxElement::Node(n)
}

#[test]
fn cast_agrees_with_can_cast_for_every_kind() {
    for k in all_kinds() {
        let n = node(k, vec![]);
        assert_eq!(Stmt::cast(&n).is_some(), Stmt::can_cast(k), "{:?}", k);
        assert_eq!(Decl::cast(&n).is_some(), Decl::can_cast(k), "{:?}", k);
        assert_eq!(Expr::cast(&n).is_some(), Expr::can_cast(k), "{:?}", k);
        assert_eq!(StmtListItem::cast(&n).is_some(), StmtListItem::can_cast(k), "{:?}", k);
        assert_eq!(ForHead::cast(&n).is_some(), ForHead::can_cast(k), "{:?}", k);
        assert_eq!(VarDecl::cast(&n).is_some(), VarDecl::can_cast(k), "{:?}", k);
        if let Some(s) = Stmt::cast(&n) {
            assert_eq!(s.syntax().kind, k);
        }
    }
}

#[test]
fn cast_precedence_statement_before_declaration() {
    let b = node(SyntaxKind::BLOCK_STMT, vec![]);
    assert!(matches!(Stmt::cast(&b), Some(Stmt::BlockStmt(_))));
    let f = node(SyntaxKind::FN_DECL, vec![]);
    assert!(matches!(Stmt::cast(&f), Some(Stmt::Decl(Decl::FnDecl(_)))));
    assert!(matches!(StmtListItem::cast(&f), Some(StmtListItem::Stmt(Stmt::Decl(_)))));
    let v = node(SyntaxKind::VAR_DECL, vec![]);
    assert!(matches!(ForHead::cast(&v), Some(ForHead::Decl(_))));
    let e = node(SyntaxKind::CALL_EXPR, vec![]);
    assert!(matches!(ForHead::cast(&e), Some(ForHead::Expr(Expr::CallExpr(_)))));
    assert!(Stmt::cast(&node(SyntaxKind::METHOD, vec![])).is_none());
    let s: Stmt = rslint_parser::ast::EmptyStmt { syntax: &b }.into();
    assert!(matches!(s, Stmt::EmptyStmt(_)));
}

#[test]
fn lossless_round_trip() {
    for src in [
        "function foo(a, b = c) { x; }",
        "class A extends B.c { static get x() {} ;; async *m() {} }",
        "} ) function () { class { ) } ",
        "  async\n function f(...r, a) {}  ",
        "",
    ] {
        let toks = lex(src);
        let parse = parse_script(toks, ParserState::new(None));
        assert_eq!(spelled(&parse.tokens, &parse.events), src);
        assert_eq!(parse.events[0], Event::Start { kind: SyntaxKind::SCRIPT });
        assert_eq!(build_tree(&parse).text(), src);
        let (root, _) = parse_script_tree(lex(src), ParserState::new(None));
        assert_eq!(root.kind, SyntaxKind::SCRIPT);
        assert_eq!(root.text(), src);
    }
}

#[test]
fn parsed_tree_casts() {
    let (root, diags) = parse_script_tree(lex("class A { get() {} } function f() {}"), ParserState::new(None));
    assert!(diags.is_empty());
    let first = match &root.children[0] {
        SyntaxElement::Node(n) => n,
        SyntaxElement::Token(_) => panic!("expected a node"),
    };
    assert!(matches!(Stmt::cast(first), Some(Stmt::Decl(Decl::ClassDecl(_)))));
    assert_eq!(Stmt::cast(first).unwrap().text(), "class A { get() {} }");
    let second = root.nth_child(1).unwrap();
    assert!(matches!(StmtListItem::cast(second), Some(StmtListItem::Stmt(Stmt::Decl(Decl::FnDecl(_))))));
    assert_eq!(second.text(), " function f() {}");
}

#[test]
fn trailing_comma_is_not_a_parameter() {
    let mut p = parser("(a, b, c,)");
    formal_parameters(&mut p);
    assert_eq!(starts(&p, SyntaxKind::SINGLE_PATTERN), 3);
    assert_eq!(p.diagnostics.len(), 0);
    assert_eq!(p.pos, p.tokens.len());
    assert_eq!(p.events[0], Event::Start { kind: SyntaxKind::PARAMETER_LIST });
}

#[test]
fn rest_parameter_ends_the_list() {
    let mut p = parser("(...rest, a)");
    formal_parameters(&mut p);
    assert_eq!(starts(&p, SyntaxKind::REST_PATTERN), 1);
    assert_eq!(starts(&p, SyntaxKind::SINGLE_PATTERN), 1);
    // the loop stopped right after `rest`: `, a)` was not taken
    assert_eq!(p.pos, 3);
}

#[test]
fn default_values_wrap_the_pattern() {
    let mut p = parser("(a = b.c, d)");
    formal_parameters(&mut p);
    assert_eq!(starts(&p, SyntaxKind::ASSIGN_PATTERN), 1);
    assert_eq!(starts(&p, SyntaxKind::DOT_EXPR), 1);
    assert_eq!(starts(&p, SyntaxKind::SINGLE_PATTERN), 2);
    assert_eq!(p.diagnostics.len(), 0);
    // the pattern node was re-parented under the assignment pattern
    assert_eq!(p.events[1], Event::Token { index: 0 });
    assert_eq!(p.events[2], Event::Start { kind: SyntaxKind::ASSIGN_PATTERN });
    assert_eq!(p.events[3], Event::Start { kind: SyntaxKind::SINGLE_PATTERN });
}

#[test]
fn missing_paren_is_reported() {
    let mut p = parser("a)");
    formal_parameters(&mut p);
    assert_eq!(p.diagnostics[0].kind, DiagnosticKind::MissingToken);
    assert_eq!(p.diagnostics[0].expected, SyntaxKind::L_PAREN);
}

#[test]
fn unnamed_function_declaration() {
    let mut p = parser("function () {}");
    let m = p.start();
    function_decl(&mut p, m, false);
    assert_eq!(p.events[0], Event::Start { kind: SyntaxKind::FN_DECL });
    assert_eq!(diag_kinds(&p), vec![DiagnosticKind::MissingFunctionName]);

    let mut p = parser("function () {}");
    let m = p.start();
    function_decl(&mut p, m, true);
    assert_eq!(p.events[0], Event::Start { kind: SyntaxKind::FN_DECL });
    assert_eq!(p.diagnostics.len(), 0);
}

#[test]
fn named_generator_function() {
    let mut p = parser("function *foo(a) { yield; }");
    let m = p.start();
    function_decl(&mut p, m, false);
    assert_eq!(p.diagnostics.len(), 0);
    assert_eq!(p.pos, p.tokens.len());
    // the function's name and the parameter's
    assert_eq!(starts(&p, SyntaxKind::NAME), 2);
    assert_eq!(p.events[3], Event::Start { kind: SyntaxKind::NAME });
}

#[test]
fn get_followed_by_paren_is_a_method() {
    let mut p = parser("get() {}");
    let r = method(&mut p, None);
    assert!(r.is_some());
    assert_eq!(p.events[0], Event::Start { kind: SyntaxKind::METHOD });
    assert_eq!(starts(&p, SyntaxKind::GETTER), 0);
    assert_eq!(p.events[1], Event::Start { kind: SyntaxKind::NAME });
    assert_eq!(p.events[2], Event::Token { index: 0 });
    assert_eq!(p.diagnostics.len(), 0);

    let parse = parse_script(lex("class A { get() {} }"), ParserState::new(None));
    assert!(!parse.events.contains(&Event::Start { kind: SyntaxKind::GETTER }));
    assert!(parse.diagnostics.is_empty());
}

#[test]
fn getters_and_setters() {
    let mut p = parser("get x() {}");
    method(&mut p, None);
    assert_eq!(p.events[0], Event::Start { kind: SyntaxKind::GETTER });
    assert_eq!(p.diagnostics.len(), 0);
    let mut p = parser("set x(v) {}");
    method(&mut p, None);
    assert_eq!(p.events[0], Event::Start { kind: SyntaxKind::SETTER });
    assert_eq!(p.diagnostics.len(), 0);
}

#[test]
fn async_needs_no_line_break() {
    let mut p = parser("async foo(){}");
    method(&mut p, None);
    assert_eq!(p.events[0], Event::Start { kind: SyntaxKind::METHOD });
    assert_eq!(p.events[1], Event::Token { index: 0 });
    assert_eq!(p.diagnostics.len(), 0);

    let mut p = parser("async\nfoo(){}");
    method(&mut p, None);
    // `async` is the method's name here
    assert_eq!(p.events[1], Event::Start { kind: SyntaxKind::NAME });
    assert!(!p.diagnostics.is_empty());
}

#[test]
fn nested_scopes_restore_the_state() {
    for src in ["function *f() { function g() {} }", "function ( { ) "] {
        let mut p = Parser::new(lex(src), ParserState::new(Some(StrictMode::Inherited)));
        let before = state_snapshot(&p.state);
        let m = p.start();
        function_decl(&mut p, m, false);
        assert_eq!(state_snapshot(&p.state), before);
    }
    for src in ["async *m() {}", "*g() {}", ")", "[k]() {}", "get x() {}"] {
        let mut p = parser(src);
        let before = state_snapshot(&p.state);
        method(&mut p, None);
        assert_eq!(state_snapshot(&p.state), before);
    }
    let mut p = parser("class A { async *m() {} static f() {} }");
    let before = state_snapshot(&p.state);
    class_decl(&mut p, false);
    assert_eq!(state_snapshot(&p.state), before);
}

#[test]
fn class_declarations() {
    let mut p = parser("class foo extends foo.bar { ;; get foo() {};; }");
    class_decl(&mut p, false);
    assert_eq!(p.diagnostics.len(), 0);
    assert_eq!(p.pos, p.tokens.len());
    assert_eq!(starts(&p, SyntaxKind::EMPTY_STMT), 4);
    assert_eq!(starts(&p, SyntaxKind::GETTER), 1);

    let mut p = parser("class {}");
    class_decl(&mut p, false);
    assert_eq!(diag_kinds(&p), vec![DiagnosticKind::MissingClassName]);
    let mut p = parser("class extends bar {}");
    class_decl(&mut p, true);
    assert_eq!(p.diagnostics.len(), 0);
}

#[test]
fn static_members() {
    let mut p = parser("{ static foo(bar) {} static *foo() {} static async *foo() {} }");
    class_body(&mut p);
    assert_eq!(starts(&p, SyntaxKind::STATIC_METHOD), 3);
    assert_eq!(starts(&p, SyntaxKind::METHOD), 3);
    assert_eq!(p.diagnostics.len(), 0);
}

#[test]
fn unknown_member_recovers() {
    let mut p = parser(") }");
    let r = method(&mut p, None);
    assert!(r.is_none());
    assert_eq!(diag_kinds(&p), vec![DiagnosticKind::ExpectedMethod]);
    assert_eq!(p.pos, 0);

    let mut p = parser("{ ) = foo() {} }");
    class_body(&mut p);
    assert_eq!(p.pos, p.tokens.len());
    assert!(starts(&p, SyntaxKind::ERROR) >= 1);
}

#[test]
fn keyword_named_method() {
    let mut p = parser("delete() {}");
    method(&mut p, None);
    assert_eq!(p.events[0], Event::Start { kind: SyntaxKind::METHOD });
    assert_eq!(p.diagnostics.len(), 0);
}

#[test]
fn arrow_bodies() {
    let mut p = parser("{ x; }");
    let r = arrow_body(&mut p).unwrap();
    assert_eq!(p.events[r.start], Event::Start { kind: SyntaxKind::BLOCK_STMT });
    assert!(!p.state.in_function);
    let mut p = parser("a = b");
    arrow_body(&mut p).unwrap();
    assert_eq!(starts(&p, SyntaxKind::ASSIGN_EXPR), 1);
    let mut p = parser(")");
    assert!(arrow_body(&mut p).is_none());
}

#[test]
fn missing_block_is_empty() {
    let mut p = parser("x");
    block_stmt(&mut p);
    assert_eq!(p.pos, 0);
    assert_eq!(p.diagnostics[0].expected, SyntaxKind::L_CURLY);
}

#[test]
fn markers_precede_and_abandon() {
    let mut p = parser("a b");
    let m = p.start();
    p.bump_any();
    let c = m.complete(&mut p, SyntaxKind::NAME);
    let outer = c.precede(&mut p);
    outer.complete(&mut p, SyntaxKind::SINGLE_PATTERN);
    assert_eq!(
        p.events,
        vec![
            Event::Start { kind: SyntaxKind::SINGLE_PATTERN },
            Event::Start { kind: SyntaxKind::NAME },
            Event::Token { index: 0 },
            Event::Finish,
            Event::Finish,
        ]
    );
    let m = p.start();
    m.abandon(&mut p);
    assert_eq!(p.events.len(), 5);
}

#[test]
fn primitives() {
    let mut p = parser("a\n(");
    assert_eq!(p.cur(), SyntaxKind::IDENT);
    assert_eq!(p.nth(1), SyntaxKind::L_PAREN);
    assert_eq!(p.nth(5), SyntaxKind::EOF);
    assert!(p.has_linebreak_before_n(1));
    assert!(!p.has_linebreak_before_n(0));
    assert!(!p.eat(SyntaxKind::COMMA));
    assert!(p.eat(SyntaxKind::IDENT));
    assert!(!p.expect(SyntaxKind::R_PAREN));
    assert_eq!(p.diagnostics.len(), 1);
    assert_eq!(p.cur_src(), "(");
    assert_eq!(p.cur_range(), TextRange { start: 2, end: 3 });
    assert!(text_is("static", "static"));
    assert!(!text_is("stat", "static"));
    assert!(contains_newline(" \n"));
    assert!(!contains_newline("  "));
}

#[test]
fn var_decl_accessors() {
    let let_decl = node(SyntaxKind::VAR_DECL, vec![tok(SyntaxKind::IDENT, "let"), tok(SyntaxKind::IDENT, "x")]);
    let v = VarDecl::cast(&let_decl).unwrap();
    assert!(v.is_let());
    assert!(!v.is_const());
    assert!(!v.is_var());
    assert_eq!(v.let_token().unwrap().text, "let");
    let const_decl = node(SyntaxKind::VAR_DECL, vec![tok(SyntaxKind::CONST_KW, "const")]);
    let v = VarDecl::cast(&const_decl).unwrap();
    assert!(v.is_const() && !v.is_let() && !v.is_var());
    let var_decl = node(SyntaxKind::VAR_DECL, vec![tok(SyntaxKind::VAR_KW, "var")]);
    assert!(VarDecl::cast(&var_decl).unwrap().is_var());
}

#[test]
fn import_accessors() {
    let lit = |k, t: &str| node(SyntaxKind::LITERAL, vec![tok(k, t)]);
    let import = node(
        SyntaxKind::IMPORT_DECL,
        vec![
            tok(SyntaxKind::IMPORT_KW, "import"),
            child(lit(SyntaxKind::NUMBER, "1")),
            child(lit(SyntaxKind::STRING, "\"a\"")),
            child(lit(SyntaxKind::STRING, "\"b\"")),
        ],
    );
    let src = ImportDecl::cast(&import).unwrap().source().unwrap();
    assert_eq!(src.syntax.first_token().unwrap().text, "\"a\"");
    let bare = node(SyntaxKind::IMPORT_DECL, vec![tok(SyntaxKind::IMPORT_KW, "import")]);
    assert!(ImportDecl::cast(&bare).unwrap().source().is_none());

    let name = |t: &str| node(SyntaxKind::NAME, vec![tok(SyntaxKind::IDENT, t)]);
    let spec = node(
        SyntaxKind::SPECIFIER,
        vec![child(name("a")), tok(SyntaxKind::IDENT, "x"), tok(SyntaxKind::IDENT, "as"), child(name("b"))],
    );
    let s = Specifier::cast(&spec).unwrap();
    assert_eq!(s.as_token().unwrap().text, "as");
    assert_eq!(s.alias().unwrap().syntax.first_token().unwrap().text, "b");
    assert_eq!(s.name().unwrap().first_token().unwrap().text, "a");
    let lone = node(SyntaxKind::SPECIFIER, vec![child(name("a"))]);
    let s = Specifier::cast(&lone).unwrap();
    assert!(s.as_token().is_none() && s.alias().is_none());

    let wild = node(
        SyntaxKind::WILDCARD_IMPORT,
        vec![tok(SyntaxKind::STAR, "*"), tok(SyntaxKind::IDENT, "as"), child(lit(SyntaxKind::STRING, "\"q\"")), child(name("ns"))],
    );
    let w = WildcardImport::cast(&wild).unwrap();
    assert_eq!(w.as_token().unwrap().text, "as");
    assert_eq!(w.alias().unwrap().syntax.first_token().unwrap().text, "ns");
}

#[test]
fn if_alternative() {
    let cond = node(SyntaxKind::NAME_REF, vec![tok(SyntaxKind::IDENT, "c")]);
    let with_else = node(
        SyntaxKind::IF_STMT,
        vec![
            tok(SyntaxKind::IF_KW, "if"),
            child(cond),
            child(node(SyntaxKind::BLOCK_STMT, vec![])),
            tok(SyntaxKind::ELSE_KW, "else"),
            child(node(SyntaxKind::FN_DECL, vec![])),
        ],
    );
    let alt = IfStmt::cast(&with_else).unwrap().alt().unwrap();
    assert_eq!(alt.syntax().kind, SyntaxKind::FN_DECL);
    assert!(matches!(alt, Stmt::Decl(Decl::FnDecl(_))));
    let stmt = Stmt::cast(&with_else).unwrap();
    assert_eq!(stmt.text(), "ifcelse");
    let without = node(SyntaxKind::IF_STMT, vec![child(node(SyntaxKind::EMPTY_STMT, vec![]))]);
    assert!(IfStmt::cast(&without).unwrap().alt().is_none());
    let _ = ChildTest::Statement;
}

#[test]
fn keywords_are_reserved_words_only() {
    assert!(SyntaxKind::CLASS_KW.is_keyword());
    assert!(SyntaxKind::YIELD_KW.is_keyword());
    assert!(!SyntaxKind::IDENT.is_keyword());
    assert!(!SyntaxKind::METHOD.is_keyword());
}

#[test]
fn class_without_keyword_is_reported() {
    let mut p = parser("Foo {}");
    class_decl(&mut p, false);
    assert_eq!(p.diagnostics[0].kind, DiagnosticKind::MissingToken);
    assert_eq!(p.diagnostics[0].expected, SyntaxKind::CLASS_KW);
    assert_eq!(p.pos, p.tokens.len());
}

#[test]
fn well_formed_members_add_no_diagnostics() {
    for src in ["foo(a, b,) {}", "get x() {}", "async foo(a) {}", "static() {}"] {
        let mut p = parser(src);
        method(&mut p, None);
        assert!(p.diagnostics.is_empty(), "{}", src);
        assert_eq!(p.pos, p.tokens.len(), "{}", src);
    }
    let mut p = parser("class A { }");
    class_decl(&mut p, false);
    assert!(p.diagnostics.is_empty());
    assert_eq!(p.pos, 4);
}

#[test]
fn arrow_body_without_expression() {
    let mut p = parser("; x");
    assert!(arrow_body(&mut p).is_none());
    assert_eq!(p.pos, 0);
    assert_eq!(p.diagnostics[0].kind, DiagnosticKind::ExpectedExpression);
}
