//! Function, parameter, class and method declarations, with the small parts of the
//! pattern, expression and statement grammar that they call into.

use vstd::prelude::*;
use crate::kind::SyntaxKind;
use crate::parser::{
    is_open_start, keeps_prefix, CompletedMarker, Diagnostic, DiagnosticKind, Event, Marker,
    events_text, lossless, missing, source_text, stops_recovery, text_is, token_indices, upto, Parse, Parser,
    ParserState, StrictMode, TextRange, Token,
};

verus! {

/// The kinds of `expr_recovery_set`.
pub open spec fn expr_recovery_seq() -> Seq<SyntaxKind> {
    seq![
        SyntaxKind::VAR_KW,
        SyntaxKind::R_PAREN,
        SyntaxKind::L_PAREN,
        SyntaxKind::L_BRACK,
        SyntaxKind::R_BRACK,
    ]
}

/// Kinds that error recovery inside expressions and class members stops at.
pub fn expr_recovery_set() -> (r: Vec<SyntaxKind>)
    ensures
        r@ == expr_recovery_seq(),
{
    vec![
        SyntaxKind::VAR_KW,
        SyntaxKind::R_PAREN,
        SyntaxKind::L_PAREN,
        SyntaxKind::L_BRACK,
        SyntaxKind::R_BRACK,
    ]
}

/// A token that can name a binding here: an identifier, or `yield` / `await` where
/// the context does not reserve them.
pub open spec fn is_binding_token(k: SyntaxKind, s: ParserState) -> bool {
    k == SyntaxKind::IDENT || (k == SyntaxKind::YIELD_KW && !s.in_generator) || (k
        == SyntaxKind::AWAIT_KW && !s.in_async)
}

/// A token that can start a method's name without further checks.
pub open spec fn starts_plain_method(k: SyntaxKind) -> bool {
    k == SyntaxKind::STAR || k == SyntaxKind::STRING || k == SyntaxKind::NUMBER || k
        == SyntaxKind::AWAIT_KW || k == SyntaxKind::IDENT || k == SyntaxKind::YIELD_KW || k
        == SyntaxKind::L_BRACK
}

/// The current token is the contextual word `w` and the next one is not `(`.
pub open spec fn at_accessor_word(p: &Parser, w: Seq<char>) -> bool {
    p.spec_cur() == SyntaxKind::IDENT && p.spec_cur_src() == w && p.spec_nth(1)
        != SyntaxKind::L_PAREN
}

/// The current token is `async` with no line break before the next token.
pub open spec fn at_async_method(p: &Parser) -> bool {
    p.spec_cur() == SyntaxKind::IDENT && p.spec_cur_src() == "async"@
        && !p.spec_linebreak_before(1)
}

/// The kind of node that a class member starting at the cursor becomes, in the
/// fixed order of the dispatch; none where no method starts here.
pub open spec fn method_kind(p: &Parser) -> Option<SyntaxKind> {
    if p.spec_cur() == SyntaxKind::L_PAREN {
        Some(SyntaxKind::METHOD)
    } else if at_accessor_word(p, "get"@) {
        Some(SyntaxKind::GETTER)
    } else if at_accessor_word(p, "set"@) {
        Some(SyntaxKind::SETTER)
    } else if at_async_method(p) || starts_plain_method(p.spec_cur())
        || p.spec_cur().spec_is_keyword() {
        Some(SyntaxKind::METHOD)
    } else {
        None
    }
}

/// A function declaration lacks its name: after `function` and an optional `*`
/// there is no binding name.
pub open spec fn fn_name_missing(p: &Parser) -> bool {
    let gen = p.spec_nth(1) == SyntaxKind::STAR;
    let k = if gen {
        p.spec_nth(2)
    } else {
        p.spec_nth(1)
    };
    !is_binding_token(k, p.state)
}

/// The events of a name node over token `i`.
pub open spec fn name_events(i: int) -> Seq<Event> {
    seq![
        Event::Start { kind: SyntaxKind::NAME },
        Event::Token { index: i as usize },
        Event::Finish,
    ]
}

/// The events of a plain parameter pattern over token `i`.
pub open spec fn param_events(i: int) -> Seq<Event> {
    seq![Event::Start { kind: SyntaxKind::SINGLE_PATTERN }] + name_events(i) + seq![Event::Finish]
}

/// The token `k` ahead of the cursor.
pub open spec fn ahead(p: &Parser, k: int) -> SyntaxKind {
    p.spec_nth(k)
}

/// The cursor is at `( x0, x1, ..., x(n-1) )`: `n` binding names separated by commas,
/// with a comma before `)` when `trailing`.
pub open spec fn simple_params(p: &Parser, n: nat, trailing: bool) -> bool {
    &&& p.spec_cur() == SyntaxKind::L_PAREN
    &&& forall|k: int|
        0 <= k < n ==> is_binding_token(#[trigger] ahead(p, 2 * k + 1), p.state) && ahead(
            p,
            2 * k + 2,
        ) == (if k + 1 < n || trailing {
            SyntaxKind::COMMA
        } else {
            SyntaxKind::R_PAREN
        })
    &&& n == 0 ==> !trailing && ahead(p, 1) == SyntaxKind::R_PAREN
    &&& n > 0 && trailing ==> ahead(p, (2 * n + 1) as int) == SyntaxKind::R_PAREN
}

/// The cursor is at a simple list of `n` names.
pub open spec fn simple_params_of(p: &Parser, n: nat) -> bool {
    exists|t: bool| simple_params(p, n, t)
}

/// How many tokens such a list spans.
pub open spec fn params_len(n: nat, trailing: bool) -> nat {
    if n == 0 {
        2
    } else if trailing {
        2 * n + 2
    } else {
        2 * n + 1
    }
}

/// The events of the first `k` parameters of a list whose `(` is token `s`, with the
/// commas between them.
pub open spec fn params_body(s: int, k: nat) -> Seq<Event>
    decreases k,
{
    if k == 0 {
        Seq::empty()
    } else if k == 1 {
        param_events(s + 1)
    } else {
        params_body(s, (k - 1) as nat) + seq![Event::Token { index: (s + 2 * k - 2) as usize }]
            + param_events(s + 2 * k - 1)
    }
}

/// The events of a whole simple list whose `(` is token `s`.
pub open spec fn param_list_events(s: int, n: nat, trailing: bool) -> Seq<Event> {
    seq![
        Event::Start { kind: SyntaxKind::PARAMETER_LIST },
        Event::Token { index: s as usize },
    ] + params_body(s, n) + (if n > 0 && trailing {
        seq![Event::Token { index: (s + 2 * n) as usize }]
    } else {
        Seq::empty()
    }) + seq![Event::Token { index: (s + params_len(n, trailing) - 1) as usize }, Event::Finish]
}

proof fn lemma_simple_params_unique(p: &Parser, n1: nat, t1: bool, n2: nat, t2: bool)
    requires
        simple_params(p, n1, t1),
        simple_params(p, n2, t2),
    ensures
        n1 == n2 && t1 == t2,
{
    if n1 < n2 {
        if n1 == 0 {
            assert(is_binding_token(ahead(p, (2 * 0 + 1) as int), p.state));
        } else if t1 {
            assert(is_binding_token(ahead(p, (2 * n1 + 1) as int), p.state));
        } else {
            assert(is_binding_token(ahead(p, (2 * (n1 - 1) + 1) as int), p.state));
        }
    } else if n2 < n1 {
        if n2 == 0 {
            assert(is_binding_token(ahead(p, (2 * 0 + 1) as int), p.state));
        } else if t2 {
            assert(is_binding_token(ahead(p, (2 * n2 + 1) as int), p.state));
        } else {
            assert(is_binding_token(ahead(p, (2 * (n2 - 1) + 1) as int), p.state));
        }
    } else if n1 > 0 {
        assert(is_binding_token(ahead(p, (2 * (n1 - 1) + 1) as int), p.state));
    }
}

/// The cursor is at `( ... x`: the list opens with a rest parameter.
pub open spec fn rest_first(p: &Parser) -> bool {
    p.spec_cur() == SyntaxKind::L_PAREN && p.spec_nth(1) == SyntaxKind::DOT3 && is_binding_token(
        p.spec_nth(2),
        p.state,
    )
}

/// The events of a list that opens with a rest parameter: the loop ends right after
/// it, whatever follows; `)` is taken only where it comes next.
pub open spec fn rest_list_events(s: int, closed: bool) -> Seq<Event> {
    seq![
        Event::Start { kind: SyntaxKind::PARAMETER_LIST },
        Event::Token { index: s as usize },
        Event::Start { kind: SyntaxKind::REST_PATTERN },
        Event::Token { index: (s + 1) as usize },
    ] + param_events(s + 2) + seq![Event::Finish] + (if closed {
        seq![Event::Token { index: (s + 3) as usize }]
    } else {
        Seq::empty()
    }) + seq![Event::Finish]
}

/// The last token taken is `}`, or the input has ended.
pub open spec fn closed_or_eof(p: &Parser) -> bool {
    p.spec_nth(-1) == SyntaxKind::R_CURLY || p.spec_cur() == SyntaxKind::EOF
}

/// The tokens `d` and `d + 1` ahead of the cursor are `{` `}`.
pub open spec fn empty_block(p: &Parser, d: int) -> bool {
    p.spec_nth(d) == SyntaxKind::L_CURLY && p.spec_nth(d + 1) == SyntaxKind::R_CURLY
}

/// The events of an empty block whose `{` is token `s`.
pub open spec fn empty_block_events(s: int) -> Seq<Event> {
    seq![
        Event::Start { kind: SyntaxKind::BLOCK_STMT },
        Event::Token { index: s as usize },
        Event::Token { index: (s + 1) as usize },
        Event::Finish,
    ]
}

proof fn lemma_same_view(a: &Parser, b: &Parser, n: nat, t: bool)
    requires
        a.tokens == b.tokens,
        a.pos == b.pos,
        a.state == b.state,
    ensures
        simple_params(a, n, t) == simple_params(b, n, t),
{
    assert forall|k: int| ahead(a, k) == ahead(b, k) by {}
}

/// The events of an empty class body whose `{` is token `s`.
pub open spec fn empty_body_events(s: int) -> Seq<Event> {
    seq![
        Event::Start { kind: SyntaxKind::CLASS_BODY },
        Event::Token { index: s as usize },
        Event::Token { index: (s + 1) as usize },
        Event::Finish,
    ]
}

/// A class at the cursor carries a name.
pub open spec fn class_named(p: &Parser) -> bool {
    p.spec_nth(1) != SyntaxKind::L_CURLY && p.spec_nth(1) != SyntaxKind::EXTENDS_KW
}

/// The cursor is at `class {}` or `class Name {}`.
pub open spec fn simple_class(p: &Parser) -> bool {
    p.spec_cur() == SyntaxKind::CLASS_KW && (if class_named(p) {
        is_binding_token(p.spec_nth(1), p.state) && empty_block(p, 2)
    } else {
        empty_block(p, 1)
    })
}

/// How many tokens such a class spans.
pub open spec fn class_len(p: &Parser) -> int {
    if class_named(p) {
        4
    } else {
        3
    }
}

/// The events of such a class: the `CLASS_DECL` node holding `class`, the name where
/// there is one, and the empty body.
pub open spec fn class_events(p: &Parser) -> Seq<Event> {
    let s = p.pos as int;
    seq![Event::Start { kind: SyntaxKind::CLASS_DECL }, Event::Token { index: s as usize }]
        + (if class_named(p) {
        name_events(s + 1)
    } else {
        Seq::empty()
    }) + empty_body_events(s + class_len(p) - 2) + seq![Event::Finish]
}

/// The parser with its cursor `d` tokens further on.
pub open spec fn shifted(p: &Parser, d: int) -> Parser {
    Parser { pos: (p.pos + d) as usize, ..*p }
}

/// How many tokens a function's head spans: `function`, an optional `*`, the name
/// where there is one.
pub open spec fn fn_head_len(p: &Parser) -> int {
    1 + (if p.spec_nth(1) == SyntaxKind::STAR {
        1int
    } else {
        0int
    }) + (if fn_name_missing(p) {
        0int
    } else {
        1int
    })
}

/// The cursor is at a function whose head is followed by a simple list of `n`
/// names and an empty body.
pub open spec fn simple_fn(p: &Parser, n: nat, t: bool) -> bool {
    simple_params(&shifted(p, fn_head_len(p)), n, t) && empty_block(
        p,
        fn_head_len(p) + params_len(n, t),
    )
}

pub open spec fn simple_fn_of(p: &Parser, n: nat) -> bool {
    exists|t: bool| simple_fn(p, n, t)
}

/// The events such a function adds after its marker's start: its head, its
/// parameter list, its body, and the closing event.
pub open spec fn fn_events(p: &Parser, n: nat, t: bool) -> Seq<Event> {
    let s = p.pos as int;
    let star = p.spec_nth(1) == SyntaxKind::STAR;
    let h = fn_head_len(p);
    seq![Event::Token { index: s as usize }] + (if star {
        seq![Event::Token { index: (s + 1) as usize }]
    } else {
        Seq::empty()
    }) + (if fn_name_missing(p) {
        Seq::empty()
    } else {
        name_events(s + h - 1)
    }) + param_list_events(s + h, n, t) + empty_block_events(s + h + params_len(n, t)) + seq![
        Event::Finish,
    ]
}

/// The node at `start` has kind `k`.
pub open spec fn node_at(p: &Parser, start: int, k: SyntaxKind) -> bool {
    0 <= start < p.events@.len() && p.events@[start] == (Event::Start { kind: k })
}

/// A binding identifier, if one is at the cursor.
fn opt_binding_identifier(p: &mut Parser) -> (r: Option<CompletedMarker>)
    requires
        old(p).wf(),
    ensures
        final(p).advanced(old(p), old(p).events@.len() as int),
        final(p).diagnostics == old(p).diagnostics,
        r is Some <==> is_binding_token(old(p).spec_cur(), old(p).state),
        r is Some ==> final(p).pos == old(p).pos + 1 && node_at(
            final(p),
            r->Some_0.start as int,
            SyntaxKind::NAME,
        ) && final(p).events@ == old(p).events@ + name_events(old(p).pos as int),
        r is None ==> final(p).pos == old(p).pos && final(p).events == old(p).events,
{
    let k = p.cur();
    let ok = k == SyntaxKind::IDENT || (k == SyntaxKind::YIELD_KW && !p.state.in_generator) || (k
        == SyntaxKind::AWAIT_KW && !p.state.in_async);
    if ok {
        let m = p.start();
        p.bump_any();
        let c = m.complete(p, SyntaxKind::NAME);
        assert(p.events@ =~= old(p).events@ + name_events(old(p).pos as int));
        Some(c)
    } else {
        None
    }
}

/// What every production promises its caller: it only appended to the log after
/// `from`, recorded diagnostics after the old ones, and left input and context alone.
pub open spec fn produced(p: &Parser, old: &Parser) -> bool {
    p.advanced(old, old.events@.len() as int)
}

/// A finished node of kind `k` that this production opened.
pub open spec fn new_node(p: &Parser, old: &Parser, c: CompletedMarker, k: SyntaxKind) -> bool {
    c.start == old.events@.len() && node_at(p, c.start as int, k)
}

proof fn lemma_insert_keeps_prefix(a: Seq<Event>, b: Seq<Event>, n: int, i: int, e: Event)
    requires
        keeps_prefix(a, b, n),
        0 <= n <= i <= b.len(),
    ensures
        keeps_prefix(a, b.insert(i, e), n),
{
    b.insert_ensures(i, e);
}

/// A binding pattern: a plain name, or an error node where none stands.
fn pattern(p: &mut Parser) -> (c: CompletedMarker)
    requires
        old(p).wf(),
    ensures
        produced(final(p), old(p)),
        c.start == old(p).events@.len(),
        c.start < final(p).events@.len(),
        is_binding_token(old(p).spec_cur(), old(p).state) ==> node_at(
            final(p),
            c.start as int,
            SyntaxKind::SINGLE_PATTERN,
        ),
        !is_binding_token(old(p).spec_cur(), old(p).state) ==> node_at(
            final(p),
            c.start as int,
            SyntaxKind::ERROR,
        ),
        old(p).spec_cur() != SyntaxKind::EOF && old(p).spec_cur() != SyntaxKind::R_PAREN
            ==> final(p).pos > old(p).pos,
        is_binding_token(old(p).spec_cur(), old(p).state) ==> final(p).pos == old(p).pos + 1
            && final(p).diagnostics == old(p).diagnostics && final(p).events@ == old(p).events@
            + param_events(old(p).pos as int),
{
    let m = p.start();
    let name = opt_binding_identifier(p);
    if name.is_some() {
        let c = m.complete(p, SyntaxKind::SINGLE_PATTERN);
        assert(p.events@ =~= old(p).events@ + param_events(old(p).pos as int));
        c
    } else {
        let range = p.cur_range();
        p.error(
            Diagnostic {
                kind: DiagnosticKind::ExpectedPattern,
                expected: SyntaxKind::TOMBSTONE,
                primary: range,
            },
        );
        if !p.at(SyntaxKind::EOF) && !p.at(SyntaxKind::R_PAREN) {
            p.bump_any();
        }
        m.complete(p, SyntaxKind::ERROR)
    }
}

/// A pattern, optionally followed by `= default`.
fn binding_element(p: &mut Parser) -> (c: CompletedMarker)
    requires
        old(p).wf(),
    ensures
        produced(final(p), old(p)),
        c.start == old(p).events@.len(),
        old(p).spec_cur() != SyntaxKind::EOF && old(p).spec_cur() != SyntaxKind::R_PAREN
            ==> final(p).pos > old(p).pos,
        is_binding_token(old(p).spec_cur(), old(p).state) && old(p).spec_nth(1) != SyntaxKind::EQ
            ==> final(p).pos == old(p).pos + 1 && final(p).diagnostics == old(p).diagnostics
            && final(p).events@ == old(p).events@ + param_events(old(p).pos as int),
{
    let c = pattern(p);
    if p.at(SyntaxKind::EQ) {
        let ghost before = *p;
        let m = c.precede(p);
        proof {
            lemma_insert_keeps_prefix(
                old(p).events@,
                before.events@,
                old(p).events@.len() as int,
                c.start as int,
                Event::Start { kind: SyntaxKind::TOMBSTONE },
            );
        }
        p.bump_any();
        assign_expr(p);
        m.complete(p, SyntaxKind::ASSIGN_PATTERN)
    } else {
        c
    }
}

/// A token that starts an expression: a name, `this`, or a literal.
pub open spec fn starts_expr(k: SyntaxKind) -> bool {
    k == SyntaxKind::IDENT || k == SyntaxKind::YIELD_KW || k == SyntaxKind::AWAIT_KW || k
        == SyntaxKind::THIS_KW || k == SyntaxKind::STRING || k == SyntaxKind::NUMBER || k
        == SyntaxKind::TRUE_KW || k == SyntaxKind::FALSE_KW || k == SyntaxKind::NULL_KW
}

/// A primary expression: a name, `this`, or a literal.
fn primary_expr(p: &mut Parser) -> (r: Option<CompletedMarker>)
    requires
        old(p).wf(),
    ensures
        produced(final(p), old(p)),
        r is Some ==> final(p).pos == old(p).pos + 1 && r->Some_0.start
            == old(p).events@.len() && r->Some_0.start < final(p).events@.len(),
        r is None ==> final(p).pos == old(p).pos && final(p).events == old(p).events,
        r is Some <==> starts_expr(old(p).spec_cur()),
        r is None ==> final(p).diagnostics@.len() == old(p).diagnostics@.len() + 1,
{
    let k = p.cur();
    let kind = if k == SyntaxKind::IDENT || k == SyntaxKind::YIELD_KW || k == SyntaxKind::AWAIT_KW {
        SyntaxKind::NAME_REF
    } else if k == SyntaxKind::THIS_KW {
        SyntaxKind::THIS_EXPR
    } else if k == SyntaxKind::STRING || k == SyntaxKind::NUMBER || k == SyntaxKind::TRUE_KW || k
        == SyntaxKind::FALSE_KW || k == SyntaxKind::NULL_KW {
        SyntaxKind::LITERAL
    } else {
        let range = p.cur_range();
        p.error(
            Diagnostic {
                kind: DiagnosticKind::ExpectedExpression,
                expected: SyntaxKind::TOMBSTONE,
                primary: range,
            },
        );
        return None;
    };
    let m = p.start();
    p.bump_any();
    Some(m.complete(p, kind))
}

/// The arguments of a call: primaries separated by commas, up to `)`.
fn arg_list(p: &mut Parser) -> (c: CompletedMarker)
    requires
        old(p).wf(),
        old(p).spec_cur() == SyntaxKind::L_PAREN,
    ensures
        produced(final(p), old(p)),
        new_node(final(p), old(p), c, SyntaxKind::ARG_LIST),
        final(p).pos > old(p).pos,
{
    let m = p.start();
    p.bump_any();
    while !p.at(SyntaxKind::EOF) && !p.at(SyntaxKind::R_PAREN)
        invariant
            produced(p, old(p)),
            p.pos > old(p).pos,
            m.pos == old(p).events@.len(),
            m.pos < p.events@.len(),
            is_open_start(p.events@[m.pos as int]),
        decreases p.tokens@.len() - p.pos,
    {
        if primary_expr(p).is_none() {
            p.bump_any();
        }
        p.eat(SyntaxKind::COMMA);
    }
    p.expect(SyntaxKind::R_PAREN);
    m.complete(p, SyntaxKind::ARG_LIST)
}

/// A left-hand-side expression: a primary followed by member accesses and calls.
fn lhs_expr(p: &mut Parser) -> (r: Option<CompletedMarker>)
    requires
        old(p).wf(),
    ensures
        produced(final(p), old(p)),
        r is Some ==> final(p).pos > old(p).pos && r->Some_0.start == old(p).events@.len(),
        r is None ==> final(p).pos == old(p).pos && final(p).events == old(p).events,
        r is Some <==> starts_expr(old(p).spec_cur()),
        r is None ==> final(p).diagnostics@.len() == old(p).diagnostics@.len() + 1,
{
    let first = primary_expr(p);
    if first.is_none() {
        return None;
    }
    let mut c = first.unwrap();
    while p.at(SyntaxKind::DOT) || p.at(SyntaxKind::L_PAREN)
        invariant
            produced(p, old(p)),
            p.pos > old(p).pos,
            c.start == old(p).events@.len(),
            c.start < p.events@.len(),
        decreases p.tokens@.len() - p.pos,
    {
        let ghost before = *p;
        let m = c.precede(p);
        proof {
            lemma_insert_keeps_prefix(
                old(p).events@,
                before.events@,
                old(p).events@.len() as int,
                c.start as int,
                Event::Start { kind: SyntaxKind::TOMBSTONE },
            );
        }
        if p.at(SyntaxKind::DOT) {
            p.bump_any();
            if p.at(SyntaxKind::IDENT) || p.cur().is_keyword() {
                let n = p.start();
                p.bump_any();
                n.complete(p, SyntaxKind::NAME);
            } else {
                let range = p.cur_range();
                p.error(
                    Diagnostic {
                        kind: DiagnosticKind::ExpectedName,
                        expected: SyntaxKind::TOMBSTONE,
                        primary: range,
                    },
                );
            }
            c = m.complete(p, SyntaxKind::DOT_EXPR);
        } else {
            arg_list(p);
            c = m.complete(p, SyntaxKind::CALL_EXPR);
        }
    }
    Some(c)
}

/// An assignment expression, or the left-hand side alone.
fn assign_expr(p: &mut Parser) -> (r: Option<CompletedMarker>)
    requires
        old(p).wf(),
    ensures
        produced(final(p), old(p)),
        r is Some ==> final(p).pos > old(p).pos && r->Some_0.start == old(p).events@.len(),
        r is None ==> final(p).pos == old(p).pos && final(p).events == old(p).events,
        r is Some <==> starts_expr(old(p).spec_cur()),
        r is None ==> final(p).diagnostics@.len() == old(p).diagnostics@.len() + 1,
{
    let lhs = lhs_expr(p);
    match lhs {
        None => None,
        Some(c) => {
            if p.at(SyntaxKind::EQ) {
                let ghost before = *p;
                let m = c.precede(p);
                proof {
                    lemma_insert_keeps_prefix(
                        old(p).events@,
                        before.events@,
                        old(p).events@.len() as int,
                        c.start as int,
                        Event::Start { kind: SyntaxKind::TOMBSTONE },
                    );
                }
                p.bump_any();
                if lhs_expr(p).is_none() {
                    let range = p.cur_range();
                    p.error(
                        Diagnostic {
                            kind: DiagnosticKind::ExpectedExpression,
                            expected: SyntaxKind::TOMBSTONE,
                            primary: range,
                        },
                    );
                }
                Some(m.complete(p, SyntaxKind::ASSIGN_EXPR))
            } else {
                Some(c)
            }
        },
    }
}

/// A token that names a property without brackets.
pub open spec fn is_plain_prop_name(k: SyntaxKind) -> bool {
    k == SyntaxKind::STRING || k == SyntaxKind::NUMBER || k == SyntaxKind::IDENT
        || k.spec_is_keyword()
}

/// A property name: a literal, an identifier or reserved word, or, where `computed`
/// allows it, `[expr]`.
fn object_prop_name(p: &mut Parser, computed: bool) -> (r: Option<CompletedMarker>)
    requires
        old(p).wf(),
    ensures
        produced(final(p), old(p)),
        r is Some <==> (is_plain_prop_name(old(p).spec_cur()) || (computed && old(p).spec_cur()
            == SyntaxKind::L_BRACK)),
        r is Some ==> final(p).pos > old(p).pos && r->Some_0.start == old(p).events@.len()
            && r->Some_0.start + 2 < final(p).events@.len(),
        r is Some && (old(p).spec_cur() == SyntaxKind::IDENT || old(p).spec_cur().spec_is_keyword())
            ==> node_at(final(p), r->Some_0.start as int, SyntaxKind::NAME) && final(p).events@[r->Some_0.start + 1]
            == (Event::Token { index: old(p).pos }),
        r is None ==> final(p).pos == old(p).pos && final(p).events == old(p).events,
        is_plain_prop_name(old(p).spec_cur()) ==> final(p).pos == old(p).pos + 1
            && final(p).diagnostics == old(p).diagnostics,
{
    let k = p.cur();
    if k == SyntaxKind::STRING || k == SyntaxKind::NUMBER {
        let m = p.start();
        p.bump_any();
        Some(m.complete(p, SyntaxKind::LITERAL))
    } else if k == SyntaxKind::IDENT || k.is_keyword() {
        let m = p.start();
        p.bump_any();
        Some(m.complete(p, SyntaxKind::NAME))
    } else if computed && k == SyntaxKind::L_BRACK {
        let m = p.start();
        p.bump_any();
        if assign_expr(p).is_none() {
            let range = p.cur_range();
            p.error(
                Diagnostic {
                    kind: DiagnosticKind::ExpectedExpression,
                    expected: SyntaxKind::TOMBSTONE,
                    primary: range,
                },
            );
        }
        p.expect(SyntaxKind::R_BRACK);
        Some(m.complete(p, SyntaxKind::COMPUTED_PROPERTY_NAME))
    } else {
        let range = p.cur_range();
        p.error(
            Diagnostic {
                kind: DiagnosticKind::ExpectedName,
                expected: SyntaxKind::TOMBSTONE,
                primary: range,
            },
        );
        None
    }
}

/// A parenthesised parameter list. After the first parameter each one needs a
/// leading comma; a comma right before `)` ends the list without adding a
/// parameter; a rest parameter `...pattern` ends the loop wherever it stands.
pub fn formal_parameters(p: &mut Parser) -> (c: CompletedMarker)
    requires
        old(p).wf(),
    ensures
        produced(final(p), old(p)),
        final(p).state == old(p).state,
        new_node(final(p), old(p), c, SyntaxKind::PARAMETER_LIST),
        final(p).events@.last() == Event::Finish,
        old(p).spec_cur() == SyntaxKind::L_PAREN ==> final(p).pos > old(p).pos,
        old(p).spec_cur() != SyntaxKind::L_PAREN ==> final(p).diagnostics@.len() > old(
            p,
        ).diagnostics@.len() && final(p).diagnostics@[old(p).diagnostics@.len() as int]
            == missing(SyntaxKind::L_PAREN, old(p).spec_cur_range()),
        forall|n: nat, t: bool|
            simple_params(old(p), n, t) ==> final(p).pos == old(p).pos + params_len(n, t)
                && final(p).diagnostics == old(p).diagnostics && final(p).events@ == old(p).events@
                + param_list_events(old(p).pos as int, n, t),
        rest_first(old(p)) ==> final(p).pos == old(p).pos + 3 + (if old(p).spec_nth(3)
            == SyntaxKind::R_PAREN {
            1int
        } else {
            0int
        }) && final(p).events@ == old(p).events@ + rest_list_events(
            old(p).pos as int,
            old(p).spec_nth(3) == SyntaxKind::R_PAREN,
        ) && (old(p).spec_nth(3) == SyntaxKind::R_PAREN ==> final(p).diagnostics
            == old(p).diagnostics) && (old(p).spec_nth(3) != SyntaxKind::R_PAREN
            ==> final(p).diagnostics@ == old(p).diagnostics@.push(
            missing(SyntaxKind::R_PAREN, final(p).spec_cur_range()),
        )),
{
    let ghost s = old(p).pos as int;
    let ghost sp = exists|n: nat, t: bool| #[trigger] simple_params(old(p), n, t);
    let ghost n: nat = if sp {
        choose|n: nat| #[trigger] simple_params_of(old(p), n)
    } else {
        0
    };
    proof {
        if sp {
            let (n1, t1) = choose|n1: nat, t1: bool| simple_params(old(p), n1, t1);
            assert(simple_params_of(old(p), n1));
        }
    }
    let ghost t: bool = if sp {
        choose|t: bool| simple_params(old(p), n, t)
    } else {
        false
    };
    let ghost rest = rest_first(old(p));
    let ghost mut k: nat = 0;
    let m = p.start();
    let mut first = true;
    p.expect(SyntaxKind::L_PAREN);
    let ghost e0 = p.events@;
    proof {
        if sp || rest {
            assert(e0 =~= old(p).events@ + seq![
                Event::Start { kind: SyntaxKind::TOMBSTONE },
                Event::Token { index: s as usize },
            ]);
        }
    }
    while !p.at(SyntaxKind::EOF) && !p.at(SyntaxKind::R_PAREN)
        invariant_except_break
            sp || rest ==> p.diagnostics == old(p).diagnostics,
            sp ==> (first <==> k == 0) && k <= n,
            sp && first ==> p.pos == s + 1 && p.events@ =~= e0,
            sp && !first ==> p.pos == s + 2 * k && p.events@ =~= e0 + params_body(s, k) && ahead(
                old(p),
                (2 * k) as int,
            ) == (if k < n || t {
                SyntaxKind::COMMA
            } else {
                SyntaxKind::R_PAREN
            }),
            rest ==> first && p.pos == s + 1 && p.events@ =~= e0,
        invariant
            produced(p, old(p)),
            old(p).spec_cur() == SyntaxKind::L_PAREN ==> p.pos > old(p).pos,
            old(p).spec_cur() != SyntaxKind::L_PAREN ==> p.diagnostics@.len() > old(
                p,
            ).diagnostics@.len() && p.diagnostics@[old(p).diagnostics@.len() as int]
                == missing(SyntaxKind::L_PAREN, old(p).spec_cur_range()),
            m.pos == old(p).events@.len(),
            m.pos < p.events@.len(),
            is_open_start(p.events@[m.pos as int]),
            s == old(p).pos,
            sp ==> simple_params(old(p), n, t),
            p.spec_cur() == ahead(old(p), p.pos - s),
            rest == rest_first(old(p)),
        ensures
            sp ==> p.pos == s + params_len(n, t) - 1 && p.diagnostics == old(p).diagnostics
                && p.events@ =~= e0 + params_body(s, n) + (if n > 0 && t {
                seq![Event::Token { index: (s + 2 * n) as usize }]
            } else {
                Seq::empty()
            }),
            rest ==> p.pos == s + 3 && p.diagnostics == old(p).diagnostics && p.events@ =~= e0
                + seq![
                Event::Start { kind: SyntaxKind::REST_PATTERN },
                Event::Token { index: (s + 1) as usize },
            ] + param_events(s + 2) + seq![Event::Finish],
        decreases p.tokens@.len() - p.pos,
    {
        let ghost before = p.pos;
        let ghost ev = p.events@;
        proof {
            if sp {
                if k < n {
                    assert(is_binding_token(ahead(old(p), (2 * k + 1) as int), old(p).state));
                }
                assert(p.spec_nth(0) == ahead(old(p), p.pos - s));
                assert(p.spec_nth(1) == ahead(old(p), p.pos - s + 1));
                assert(p.spec_nth(2) == ahead(old(p), p.pos - s + 2));
                if first {
                    assert(n > 0);
                }
            }
            if rest {
                assert(p.spec_nth(0) == old(p).spec_nth(1));
                assert(p.spec_nth(1) == old(p).spec_nth(2));
            }
        }
        if first {
            first = false;
        } else if p.nth_at(1, SyntaxKind::R_PAREN) {
            p.eat(SyntaxKind::COMMA);
            break;
        } else {
            p.expect(SyntaxKind::COMMA);
            proof {
                if sp {
                    assert(p.spec_nth(0) == ahead(old(p), p.pos - s));
                    assert(p.spec_nth(1) == ahead(old(p), p.pos - s + 1));
                }
            }
        }
        if p.at(SyntaxKind::DOT3) {
            let r = p.start();
            p.bump_any();
            pattern(p);
            r.complete(p, SyntaxKind::REST_PATTERN);
            proof {
                if rest {
                    assert(p.events@ =~= e0 + seq![
                        Event::Start { kind: SyntaxKind::REST_PATTERN },
                        Event::Token { index: (s + 1) as usize },
                    ] + param_events(s + 2) + seq![Event::Finish]);
                }
            }
            break;
        }
        binding_element(p);
        proof {
            if sp {
                k = k + 1;
                assert(p.events@ =~= e0 + params_body(s, k));
            }
        }
        assert(p.pos > before);
        assert(p.spec_cur() == ahead(old(p), p.pos - s));
    }
    let ghost trail = if n > 0 && t {
        seq![Event::Token { index: (s + 2 * n) as usize }]
    } else {
        Seq::<Event>::empty()
    };
    proof {
        if rest {
            assert(p.spec_cur() == old(p).spec_nth(3));
        }
        if sp {
            if n > 0 {
                assert(is_binding_token(ahead(old(p), (2 * (n - 1) + 1) as int), old(p).state));
            }
            assert(p.spec_cur() == SyntaxKind::R_PAREN);
        }
    }
    p.expect(SyntaxKind::R_PAREN);
    let ghost e1 = p.events@;
    let c = m.complete(p, SyntaxKind::PARAMETER_LIST);
    proof {
        if sp {
            let close = seq![Event::Token { index: (s + params_len(n, t) - 1) as usize }];
            assert(e1 =~= e0 + params_body(s, n) + trail + close);
            assert(p.events@ =~= e1.update(old(p).events@.len() as int, Event::Start { kind: SyntaxKind::PARAMETER_LIST }).push(Event::Finish));
            assert(p.events@ =~= old(p).events@ + param_list_events(s, n, t));
            assert forall|n2: nat, t2: bool| simple_params(old(p), n2, t2) implies final(p).pos
                == old(p).pos + params_len(n2, t2) && final(p).diagnostics == old(p).diagnostics
                && final(p).events@ == old(p).events@ + param_list_events(
                old(p).pos as int,
                n2,
                t2,
            ) by {
                lemma_simple_params_unique(old(p), n, t, n2, t2);
            }
        } else {
            assert forall|n2: nat, t2: bool| !simple_params(old(p), n2, t2) by {}
        }
        if rest {
            assert(p.events@ =~= old(p).events@ + rest_list_events(
                s,
                old(p).spec_nth(3) == SyntaxKind::R_PAREN,
            ));
        }
    }
    c
}

/// The diagnostic for a member where no method starts.
pub open spec fn expected_method(at: TextRange) -> Diagnostic {
    Diagnostic { kind: DiagnosticKind::ExpectedMethod, expected: SyntaxKind::TOMBSTONE, primary: at }
}

/// A block `{ ... }` of statements. Where `{` is missing the block is left empty.
pub fn block_stmt(p: &mut Parser) -> (c: CompletedMarker)
    requires
        old(p).wf(),
    ensures
        produced(final(p), old(p)),
        final(p).state == old(p).state,
        new_node(final(p), old(p), c, SyntaxKind::BLOCK_STMT),
        old(p).spec_cur() == SyntaxKind::L_CURLY ==> final(p).pos > old(p).pos && closed_or_eof(
            final(p),
        ),
        empty_block(old(p), 0) ==> final(p).pos == old(p).pos + 2 && final(p).diagnostics
            == old(p).diagnostics && final(p).events@ == old(p).events@ + empty_block_events(
            old(p).pos as int,
        ),
    decreases old(p).tokens@.len() - old(p).pos, 1int,
{
    let m = p.start();
    if p.expect(SyntaxKind::L_CURLY) {
        while !p.at(SyntaxKind::EOF) && !p.at(SyntaxKind::R_CURLY)
            invariant
                produced(p, old(p)),
                p.pos > old(p).pos,
                m.pos == old(p).events@.len(),
                m.pos < p.events@.len(),
                is_open_start(p.events@[m.pos as int]),
                empty_block(old(p), 0) ==> p.pos == old(p).pos + 1 && p.diagnostics
                    == old(p).diagnostics && p.events@ =~= old(p).events@ + seq![
                    Event::Start { kind: SyntaxKind::TOMBSTONE },
                    Event::Token { index: old(p).pos },
                ],
            decreases p.tokens@.len() - p.pos,
        {
            stmt(p);
        }
        proof {
            if empty_block(old(p), 0) {
                assert(p.spec_cur() == old(p).spec_nth(1));
            }
        }
        p.expect(SyntaxKind::R_CURLY);
    }
    let ghost e1 = p.events@;
    let c = m.complete(p, SyntaxKind::BLOCK_STMT);
    proof {
        if empty_block(old(p), 0) {
            assert(e1 =~= old(p).events@ + seq![
                Event::Start { kind: SyntaxKind::TOMBSTONE },
                Event::Token { index: old(p).pos },
                Event::Token { index: (old(p).pos + 1) as usize },
            ]);
            assert(p.events@ =~= old(p).events@ + empty_block_events(old(p).pos as int));
        }
    }
    c
}

/// One statement inside a block: an empty statement, a nested block, a function or
/// class declaration, or an expression statement running up to `;` or a brace.
fn stmt(p: &mut Parser)
    requires
        old(p).wf(),
    ensures
        produced(final(p), old(p)),
        old(p).spec_cur() != SyntaxKind::EOF && old(p).spec_cur() != SyntaxKind::R_CURLY
            ==> final(p).pos > old(p).pos,
    decreases old(p).tokens@.len() - old(p).pos, 3int,
{
    let k = p.cur();
    if k == SyntaxKind::SEMICOLON {
        let m = p.start();
        p.bump_any();
        m.complete(p, SyntaxKind::EMPTY_STMT);
    } else if k == SyntaxKind::L_CURLY {
        block_stmt(p);
    } else if k == SyntaxKind::FUNCTION_KW {
        let m = p.start();
        function_decl(p, m, false);
    } else if k == SyntaxKind::CLASS_KW {
        class_decl(p, false);
    } else if k == SyntaxKind::EOF || k == SyntaxKind::R_CURLY {
    } else if k == SyntaxKind::IDENT && text_is(p.cur_src(), "async") && p.nth_at(
        1,
        SyntaxKind::FUNCTION_KW,
    ) && !p.has_linebreak_before_n(1) {
        let m = p.start();
        p.bump_any();
        let prev_async = p.state.in_async;
        p.state.in_async = true;
        function_decl(p, m, false);
        p.state.in_async = prev_async;
    } else {
        let m = p.start();
        p.bump_any();
        while !p.at(SyntaxKind::SEMICOLON) && !p.at(SyntaxKind::R_CURLY) && !p.at(
            SyntaxKind::L_CURLY,
        ) && !p.at(SyntaxKind::EOF)
            invariant
                produced(p, old(p)),
                p.pos > old(p).pos,
                m.pos == old(p).events@.len(),
                m.pos < p.events@.len(),
                is_open_start(p.events@[m.pos as int]),
            decreases p.tokens@.len() - p.pos,
        {
            p.bump_any();
        }
        p.eat(SyntaxKind::SEMICOLON);
        m.complete(p, SyntaxKind::EXPR_STMT);
    }
}

/// A function declaration, async or a generator, at `function`. The caller opens the
/// marker, having already consumed a leading `async`. Without a name, a diagnostic is
/// recorded unless `fn_expr` says the function stands in expression position. The
/// body is parsed in a fresh function context with an empty label table; the
/// caller's context is back in place on return.
#[verifier::rlimit(50)]
pub fn function_decl(p: &mut Parser, m: Marker, fn_expr: bool) -> (c: CompletedMarker)
    requires
        old(p).wf(),
        old(p).spec_cur() == SyntaxKind::FUNCTION_KW,
        m.pos < old(p).events@.len(),
        is_open_start(old(p).events@[m.pos as int]),
    ensures
        final(p).advanced(old(p), m.pos as int),
        final(p).state == old(p).state,
        c.start == m.pos,
        node_at(final(p), m.pos as int, SyntaxKind::FN_DECL),
        final(p).pos > old(p).pos,
        !fn_expr && fn_name_missing(old(p)) ==> final(p).diagnostics@.len() > old(p).diagnostics@.len() && final(p).diagnostics@[old(p).diagnostics@.len() as int].kind
            == DiagnosticKind::MissingFunctionName,
        forall|n: nat, t: bool|
            simple_fn(old(p), n, t) ==> final(p).pos == old(p).pos + fn_head_len(old(p))
                + params_len(n, t) + 2 && final(p).diagnostics@.len() == old(p).diagnostics@.len()
                + (if !fn_expr && fn_name_missing(old(p)) {
                1int
            } else {
                0int
            }) && final(p).events@ == old(p).events@.update(
                m.pos as int,
                Event::Start { kind: SyntaxKind::FN_DECL },
            ) + fn_events(old(p), n, t),
    decreases old(p).tokens@.len() - old(p).pos, 1int,
{
    let ghost s = old(p).pos as int;
    let ghost h = fn_head_len(old(p));
    let ghost wf = exists|n: nat, t: bool| #[trigger] simple_fn(old(p), n, t);
    let ghost n: nat = if wf {
        choose|n: nat| #[trigger] simple_fn_of(old(p), n)
    } else {
        0
    };
    proof {
        if wf {
            let (n1, t1) = choose|n1: nat, t1: bool| simple_fn(old(p), n1, t1);
            assert(simple_fn_of(old(p), n1));
        }
    }
    let ghost t: bool = if wf {
        choose|t: bool| simple_fn(old(p), n, t)
    } else {
        false
    };
    p.expect(SyntaxKind::FUNCTION_KW);
    let in_generator = p.eat(SyntaxKind::STAR);
    let name = opt_binding_identifier(p);
    if name.is_none() && !fn_expr {
        let range = p.cur_range();
        p.error(
            Diagnostic {
                kind: DiagnosticKind::MissingFunctionName,
                expected: SyntaxKind::TOMBSTONE,
                primary: range,
            },
        );
    }
    proof {
        if wf {
            assert(p.pos == s + h);
            lemma_same_view(&*p, &shifted(old(p), h), n, t);
            assert(simple_params(&*p, n, t));
        }
    }
    formal_parameters(p);
    proof {
        if wf {
            assert(empty_block(&*p, 0));
        }
    }
    let body_state = ParserState {
        in_function: true,
        in_generator,
        in_async: p.state.in_async,
        strict: p.state.strict,
        labels: Vec::new(),
    };
    let prev = p.with_state(body_state);
    block_stmt(p);
    p.restore_state(prev);
    let ghost e1 = p.events@;
    let c = m.complete(p, SyntaxKind::FN_DECL);
    proof {
        if wf {
            assert(e1 =~= old(p).events@ + fn_events(old(p), n, t).drop_last());
            assert(p.events@ =~= old(p).events@.update(
                m.pos as int,
                Event::Start { kind: SyntaxKind::FN_DECL },
            ) + fn_events(old(p), n, t));
            assert forall|n2: nat, t2: bool| simple_fn(old(p), n2, t2) implies n2 == n && t2 == t by {
                lemma_simple_params_unique(&shifted(old(p), h), n, t, n2, t2);
            }
        }
    }
    c
}

/// A class at `class`: an optional name, an optional `extends` clause with a
/// left-hand-side expression, and the body. Everything after `class` is parsed
/// as strict code. Without a name, a diagnostic is recorded unless `expr` says the
/// class stands in expression position.
#[verifier::rlimit(80)]
pub fn class_decl(p: &mut Parser, expr: bool) -> (c: CompletedMarker)
    requires
        old(p).wf(),
    ensures
        produced(final(p), old(p)),
        final(p).state == old(p).state,
        new_node(final(p), old(p), c, SyntaxKind::CLASS_DECL),
        old(p).spec_cur() == SyntaxKind::CLASS_KW ==> final(p).pos > old(p).pos,
        old(p).spec_cur() != SyntaxKind::CLASS_KW ==> final(p).diagnostics@.len() > old(
            p,
        ).diagnostics@.len() && final(p).diagnostics@[old(p).diagnostics@.len() as int]
            == missing(SyntaxKind::CLASS_KW, old(p).spec_cur_range()),
        old(p).spec_cur() == SyntaxKind::CLASS_KW && !expr && (old(p).spec_nth(1)
            == SyntaxKind::L_CURLY || old(p).spec_nth(1) == SyntaxKind::EXTENDS_KW)
            ==> final(p).diagnostics@.len() > old(p).diagnostics@.len()
            && final(p).diagnostics@[old(p).diagnostics@.len() as int].kind
            == DiagnosticKind::MissingClassName,
        closed_or_eof(final(p)),
        simple_class(old(p)) ==> final(p).pos == old(p).pos + class_len(old(p))
            && final(p).diagnostics@.len() == old(p).diagnostics@.len() + (if !expr
            && !class_named(old(p)) {
            1int
        } else {
            0int
        }) && final(p).events@ == old(p).events@ + class_events(old(p)),
    decreases old(p).tokens@.len() - old(p).pos, 2int,
{
    let ghost sc = simple_class(old(p));
    let ghost named = class_named(old(p));
    let ghost s = old(p).pos as int;
    let m = p.start();
    p.expect(SyntaxKind::CLASS_KW);
    let prev_strict = p.state.strict;
    let here = p.cur_range();
    p.state.strict = Some(StrictMode::Class(here));
    let ghost e0 = p.events@;
    let ghost d0 = p.diagnostics@;
    proof {
        if old(p).spec_cur() == SyntaxKind::CLASS_KW {
            assert(p.spec_cur() == old(p).spec_nth(1));
            assert(p.spec_nth(1) == old(p).spec_nth(2));
        }
    }
    if !p.at(SyntaxKind::L_CURLY) && !p.at(SyntaxKind::EXTENDS_KW) {
        if opt_binding_identifier(p).is_none() {
            let range = p.cur_range();
            p.error(
                Diagnostic {
                    kind: DiagnosticKind::ExpectedName,
                    expected: SyntaxKind::TOMBSTONE,
                    primary: range,
                },
            );
        }
    } else if !expr {
        let range = p.cur_range();
        p.error(
            Diagnostic {
                kind: DiagnosticKind::MissingClassName,
                expected: SyntaxKind::TOMBSTONE,
                primary: range,
            },
        );
    }
    let ghost e1 = p.events@;
    proof {
        if sc {
            if named {
                assert(e1 =~= e0 + name_events(s + 1));
                assert(p.spec_cur() == old(p).spec_nth(2));
                assert(p.spec_nth(1) == old(p).spec_nth(3));
            } else {
                assert(e1 =~= e0);
            }
            assert(empty_block(&*p, 0));
        }
    }
    if p.eat(SyntaxKind::EXTENDS_KW) {
        if lhs_expr(p).is_none() {
            let range = p.cur_range();
            p.error(
                Diagnostic {
                    kind: DiagnosticKind::ExpectedExpression,
                    expected: SyntaxKind::TOMBSTONE,
                    primary: range,
                },
            );
        }
    }
    let ghost e2 = p.events@;
    class_body(p);
    p.state.strict = prev_strict;
    let ghost e3 = p.events@;
    let c = m.complete(p, SyntaxKind::CLASS_DECL);
    proof {
        if sc {
            assert(e2 == e1);
            assert(e0 =~= old(p).events@ + seq![
                Event::Start { kind: SyntaxKind::TOMBSTONE },
                Event::Token { index: s as usize },
            ]);
            assert(p.events@ =~= old(p).events@ + class_events(old(p)));
        }
    }
    c
}

/// A class body `{ ... }`: empty members `;`, `static` members, and methods. A
/// member where nothing can be parsed is kept as an error node, so the loop always
/// moves on.
pub fn class_body(p: &mut Parser) -> (c: CompletedMarker)
    requires
        old(p).wf(),
    ensures
        produced(final(p), old(p)),
        final(p).state == old(p).state,
        new_node(final(p), old(p), c, SyntaxKind::CLASS_BODY),
        old(p).spec_cur() == SyntaxKind::L_CURLY ==> final(p).pos > old(p).pos,
        closed_or_eof(final(p)),
        empty_block(old(p), 0) ==> final(p).pos == old(p).pos + 2 && final(p).diagnostics
            == old(p).diagnostics && final(p).events@ == old(p).events@ + empty_body_events(
            old(p).pos as int,
        ),
    decreases old(p).tokens@.len() - old(p).pos, 1int,
{
    let m = p.start();
    p.expect(SyntaxKind::L_CURLY);
    while !p.at(SyntaxKind::EOF) && !p.at(SyntaxKind::R_CURLY)
        invariant
            empty_block(old(p), 0) ==> p.pos == old(p).pos + 1 && p.diagnostics
                == old(p).diagnostics && p.events@ =~= old(p).events@ + seq![
                Event::Start { kind: SyntaxKind::TOMBSTONE },
                Event::Token { index: old(p).pos },
            ],
            produced(p, old(p)),
            old(p).spec_cur() == SyntaxKind::L_CURLY ==> p.pos > old(p).pos,
            m.pos == old(p).events@.len(),
            m.pos < p.events@.len(),
            is_open_start(p.events@[m.pos as int]),
        decreases p.tokens@.len() - p.pos,
    {
        let before = p.pos;
        if p.at(SyntaxKind::SEMICOLON) {
            let inner = p.start();
            p.bump_any();
            inner.complete(p, SyntaxKind::EMPTY_STMT);
        } else if p.at(SyntaxKind::IDENT) && text_is(p.cur_src(), "static") {
            let inner = p.start();
            p.bump_any();
            method(p, None);
            inner.complete(p, SyntaxKind::STATIC_METHOD);
        } else {
            method(p, None);
            if p.pos == before {
                let e = p.start();
                p.bump_any();
                e.complete(p, SyntaxKind::ERROR);
            }
        }
    }
    proof {
        if empty_block(old(p), 0) {
            assert(p.spec_cur() == old(p).spec_nth(1));
        }
    }
    let ghost at_close = p.spec_cur();
    p.expect(SyntaxKind::R_CURLY);
    proof {
        if at_close == SyntaxKind::R_CURLY {
            assert(p.spec_nth(-1) == SyntaxKind::R_CURLY);
        }
    }
    let ghost e1 = p.events@;
    let c = m.complete(p, SyntaxKind::CLASS_BODY);
    proof {
        if empty_block(old(p), 0) {
            assert(e1 =~= old(p).events@ + seq![
                Event::Start { kind: SyntaxKind::TOMBSTONE },
                Event::Token { index: old(p).pos },
                Event::Token { index: (old(p).pos + 1) as usize },
            ]);
            assert(p.events@ =~= old(p).events@ + empty_body_events(old(p).pos as int));
        }
    }
    c
}

/// The context in which a plain method's parameters are parsed.
pub open spec fn plain_method_state(p: &Parser) -> ParserState {
    ParserState { in_function: true, in_generator: false, ..p.state }
}

/// The cursor is at `name ( x0, ..., x(n-1) ) { }`: a method named by an identifier,
/// with a simple parameter list and an empty body.
pub open spec fn simple_plain_method(p: &Parser, n: nat, t: bool) -> bool {
    &&& method_kind(p) == Some(SyntaxKind::METHOD)
    &&& p.spec_cur() == SyntaxKind::IDENT
    &&& !at_async_method(p)
    &&& simple_params(
        &Parser { pos: (p.pos + 1) as usize, state: plain_method_state(p), ..*p },
        n,
        t,
    )
    &&& empty_block(p, (1 + params_len(n, t)) as int)
}

/// The cursor is at `get name ( ) { }`.
pub open spec fn simple_getter(p: &Parser) -> bool {
    &&& at_accessor_word(p, "get"@)
    &&& is_plain_prop_name(p.spec_nth(1))
    &&& p.spec_nth(2) == SyntaxKind::L_PAREN
    &&& p.spec_nth(3) == SyntaxKind::R_PAREN
    &&& empty_block(p, 4)
}

/// Where a member's node starts: at the caller's marker, or at the next event.
pub open spec fn member_start(old: &Parser, marker: Option<Marker>) -> int {
    match marker {
        Some(m) => m.pos as int,
        None => old.events@.len() as int,
    }
}

/// A method definition. The kind of node is decided by the first tokens, in this
/// order: `(` an ordinary method; `get` or `set` not followed by `(` a getter or
/// setter; `async` with no line break after it an async method; a name, `*`, `[`
/// or any reserved word a method. Anything else records a diagnostic, skips to a
/// recovery point and gives no node. On every path the caller's context is back in
/// place on return.
#[verifier::rlimit(100)]
pub fn method(p: &mut Parser, marker: Option<Marker>) -> (r: Option<CompletedMarker>)
    requires
        old(p).wf(),
        marker matches Some(m) ==> m.pos < old(p).events@.len() && is_open_start(
            old(p).events@[m.pos as int],
        ),
    ensures
        final(p).advanced(old(p), member_start(old(p), marker)),
        final(p).state == old(p).state,
        r is Some <==> method_kind(old(p)) is Some,
        r is Some ==> r->Some_0.start == member_start(old(p), marker) && node_at(
            final(p),
            r->Some_0.start as int,
            method_kind(old(p))->Some_0,
        ) && final(p).pos > old(p).pos,
        r is None ==> final(p).diagnostics@.len() == old(p).diagnostics@.len() + 1
            && final(p).diagnostics@.last() == expected_method(old(p).spec_cur_range()),
        marker is None && method_kind(old(p)) is Some && at_async_method(old(p)) ==> final(p).events@[old(p).events@.len() as int + 1] == (Event::Token { index: old(p).pos }),
        marker is None && method_kind(old(p)) == Some(SyntaxKind::METHOD) && old(p).spec_cur()
            == SyntaxKind::IDENT && !at_async_method(old(p)) ==> node_at(
            final(p),
            old(p).events@.len() as int + 1,
            SyntaxKind::NAME,
        ) && final(p).events@[old(p).events@.len() as int + 2] == (Event::Token { index: old(p).pos }),
        r is None ==> final(p).pos >= old(p).pos && stops_recovery(
            final(p).spec_cur(),
            expr_recovery_seq(),
        ),
        forall|n: nat, t: bool|
            simple_plain_method(old(p), n, t) ==> final(p).pos == old(p).pos + 1 + params_len(n, t)
                + 2 && final(p).diagnostics == old(p).diagnostics,
        simple_getter(old(p)) ==> final(p).pos == old(p).pos + 6 && final(p).diagnostics
            == old(p).diagnostics,
    decreases old(p).tokens@.len() - old(p).pos, 0int,
{
    let m = match marker {
        Some(m) => m,
        None => p.start(),
    };
    let prev_function = p.state.in_function;
    p.state.in_function = true;
    let k = p.cur();
    let complete = if k == SyntaxKind::L_PAREN {
        formal_parameters(p);
        block_stmt(p);
        m.complete(p, SyntaxKind::METHOD)
    } else if k == SyntaxKind::IDENT && text_is(p.cur_src(), "get") && !p.nth_at(
        1,
        SyntaxKind::L_PAREN,
    ) {
        p.bump_any();
        object_prop_name(p, false);
        proof {
            if simple_getter(old(p)) {
                assert(p.spec_cur() == old(p).spec_nth(2));
                assert(p.spec_nth(1) == old(p).spec_nth(3));
                assert(p.spec_nth(2) == old(p).spec_nth(4));
                assert(p.spec_nth(3) == old(p).spec_nth(5));
            }
        }
        p.expect(SyntaxKind::L_PAREN);
        p.expect(SyntaxKind::R_PAREN);
        block_stmt(p);
        m.complete(p, SyntaxKind::GETTER)
    } else if k == SyntaxKind::IDENT && text_is(p.cur_src(), "set") && !p.nth_at(
        1,
        SyntaxKind::L_PAREN,
    ) {
        p.bump_any();
        object_prop_name(p, false);
        formal_parameters(p);
        block_stmt(p);
        m.complete(p, SyntaxKind::SETTER)
    } else if k == SyntaxKind::IDENT && text_is(p.cur_src(), "async")
        && !p.has_linebreak_before_n(1) {
        p.bump_any();
        let in_generator = p.eat(SyntaxKind::STAR);
        let prev_async = p.state.in_async;
        let prev_generator = p.state.in_generator;
        p.state.in_async = true;
        p.state.in_generator = in_generator;
        object_prop_name(p, true);
        formal_parameters(p);
        block_stmt(p);
        p.state.in_async = prev_async;
        p.state.in_generator = prev_generator;
        m.complete(p, SyntaxKind::METHOD)
    } else if k == SyntaxKind::STAR || k == SyntaxKind::STRING || k == SyntaxKind::NUMBER || k
        == SyntaxKind::AWAIT_KW || k == SyntaxKind::IDENT || k == SyntaxKind::YIELD_KW || k
        == SyntaxKind::L_BRACK {
        let in_generator = p.eat(SyntaxKind::STAR);
        let prev_generator = p.state.in_generator;
        p.state.in_generator = in_generator;
        object_prop_name(p, true);
        let ghost named = marker is None && k == SyntaxKind::IDENT;
        let ghost at = old(p).events@.len() as int + 2;
        let ghost p1 = *p;
        formal_parameters(p);
        assert(named ==> p.events@[at] == (Event::Token { index: old(p).pos }));
        let ghost p2 = *p;
        block_stmt(p);
        assert(named ==> p.events@[at] == (Event::Token { index: old(p).pos }));
        proof {
            assert forall|n: nat, t: bool| simple_plain_method(old(p), n, t) implies p.pos
                == old(p).pos + 1 + params_len(n, t) + 2 && p.diagnostics == old(p).diagnostics by {
                lemma_same_view(
                    &p1,
                    &Parser { pos: (old(p).pos + 1) as usize, state: plain_method_state(old(p)), ..*old(p) },
                    n,
                    t,
                );
                assert(p2.spec_nth(0) == old(p).spec_nth((1 + params_len(n, t)) as int));
                assert(p2.spec_nth(1) == old(p).spec_nth((2 + params_len(n, t)) as int));
            }
        }
        p.state.in_generator = prev_generator;
        m.complete(p, SyntaxKind::METHOD)
    } else if k.is_keyword() {
        let in_generator = p.eat(SyntaxKind::STAR);
        let prev_generator = p.state.in_generator;
        p.state.in_generator = in_generator;
        object_prop_name(p, false);
        formal_parameters(p);
        block_stmt(p);
        p.state.in_generator = prev_generator;
        m.complete(p, SyntaxKind::METHOD)
    } else {
        let range = p.cur_range();
        m.abandon(p);
        let recovery = expr_recovery_set();
        p.err_recover(
            Diagnostic {
                kind: DiagnosticKind::ExpectedMethod,
                expected: SyntaxKind::TOMBSTONE,
                primary: range,
            },
            recovery.as_slice(),
        );
        p.state.in_function = prev_function;
        return None;
    };
    p.state.in_function = prev_function;
    Some(complete)
}

/// The body of an arrow function: a block, or a single expression, parsed in a
/// function context.
pub fn arrow_body(p: &mut Parser) -> (r: Option<CompletedMarker>)
    requires
        old(p).wf(),
    ensures
        produced(final(p), old(p)),
        final(p).state == old(p).state,
        old(p).spec_cur() == SyntaxKind::L_CURLY ==> (r is Some && new_node(
            final(p),
            old(p),
            r->Some_0,
            SyntaxKind::BLOCK_STMT,
        )),
        r is Some ==> r->Some_0.start == old(p).events@.len() && final(p).pos > old(p).pos,
        old(p).spec_cur() != SyntaxKind::L_CURLY ==> (r is Some <==> starts_expr(
            old(p).spec_cur(),
        )),
        old(p).spec_cur() != SyntaxKind::L_CURLY && !starts_expr(old(p).spec_cur())
            ==> final(p).pos == old(p).pos && final(p).events == old(p).events
            && final(p).diagnostics@.len() == old(p).diagnostics@.len() + 1,
    decreases old(p).tokens@.len() - old(p).pos, 2int,
{
    let prev_function = p.state.in_function;
    p.state.in_function = true;
    let r = if p.at(SyntaxKind::L_CURLY) {
        Some(block_stmt(p))
    } else {
        assign_expr(p)
    };
    p.state.in_function = prev_function;
    r
}

/// Parses a whole script: statements until the input ends, under a `SCRIPT` root.
/// A stray `}` and anything no statement takes become error nodes, and an `EOF`
/// token that carries trailing trivia goes to the root, so every token lands in the
/// tree, once and in order.
pub fn parse_script(tokens: Vec<Token>, state: ParserState) -> (r: Parse)
    ensures
        r.tokens == tokens,
        token_indices(r.events@) == upto(tokens@.len()),
        events_text(r.events@, r.tokens@) == source_text(tokens@),
        r.events@.len() > 0 && r.events@[0] == (Event::Start { kind: SyntaxKind::SCRIPT }),
{
    let mut p = Parser::new(tokens, state);
    let m = p.start();
    while p.pos < p.tokens.len()
        invariant
            p.wf(),
            p.tokens == tokens,
            m.pos == 0,
            m.pos < p.events@.len(),
            is_open_start(p.events@[m.pos as int]),
        decreases p.tokens@.len() - p.pos,
    {
        let before = p.pos;
        if p.at(SyntaxKind::EOF) {
            p.bump_any();
        } else if !p.at(SyntaxKind::R_CURLY) {
            stmt(&mut p);
        }
        if p.pos == before {
            let e = p.start();
            p.bump_any();
            e.complete(&mut p, SyntaxKind::ERROR);
        }
    }
    m.complete(&mut p, SyntaxKind::SCRIPT);
    proof {
        lossless(p.events@, p.tokens@);
    }
    p.finish()
}

} // verus!
