//! The parser core: a token cursor, an append-only event log from which the tree
//! is built, a diagnostic sink, and the scoped grammatical context.

use vstd::prelude::*;
use crate::kind::SyntaxKind;

verus! {

/// A span of source text, as byte offsets.
#[derive(Clone, Copy, Debug, PartialEq, Eq, Structural)]
pub struct TextRange {
    pub start: usize,
    pub end: usize,
}

/// A token as the lexer hands it over: its kind, its exact text, the trivia
/// (whitespace, comments) that precedes it, and its range.
pub struct Token {
    pub kind: SyntaxKind,
    pub text: String,
    pub leading: String,
    pub range: TextRange,
}

/// One step of tree construction.
#[derive(Clone, Copy, Debug, PartialEq, Eq, Structural)]
pub enum Event {
    /// Opens a node; `TOMBSTONE` while the node is open or once it was abandoned.
    Start { kind: SyntaxKind },
    /// Attaches the input token with this index to the innermost open node.
    Token { index: usize },
    /// Closes the innermost open node.
    Finish,
}

#[derive(Clone, Copy, Debug, PartialEq, Eq, Structural)]
pub enum DiagnosticKind {
    MissingToken,
    MissingFunctionName,
    MissingClassName,
    ExpectedMethod,
    ExpectedPattern,
    ExpectedExpression,
    ExpectedName,
}

/// A recorded problem. Diagnostics never change the course of a parse.
#[derive(Clone, Copy, Debug, PartialEq, Eq, Structural)]
pub struct Diagnostic {
    pub kind: DiagnosticKind,
    /// The token kind that was expected, for `MissingToken`.
    pub expected: SyntaxKind,
    pub primary: TextRange,
}

/// Why the code being parsed is strict.
#[derive(Clone, Copy, Debug, PartialEq, Eq, Structural)]
pub enum StrictMode {
    /// Inside a class body; the range is where the body's context began.
    Class(TextRange),
    /// Taken over from the surrounding code.
    Inherited,
}

#[derive(Clone, Copy, Debug, PartialEq, Eq, Structural)]
pub enum LabelledItem {
    Iteration,
    Other,
}

/// A label in scope, and what it labels.
pub struct Label {
    pub name: String,
    pub item: LabelledItem,
}

/// The grammatical context of the production being parsed.
pub struct ParserState {
    pub in_function: bool,
    pub in_generator: bool,
    pub in_async: bool,
    pub strict: Option<StrictMode>,
    /// Labels of the innermost function; they never cross a function boundary.
    pub labels: Vec<Label>,
}

impl ParserState {
    /// The label table maps each name once: no two entries share a name.
    pub open spec fn wf(&self) -> bool {
        forall|i: int, j: int|
            0 <= i < j < self.labels@.len() ==> #[trigger] self.labels@[i].name@
                != #[trigger] self.labels@[j].name@
    }

    /// The context at the top of a script, strict or not.
    pub fn new(strict: Option<StrictMode>) -> (r: ParserState)
        ensures
            !r.in_function && !r.in_generator && !r.in_async,
            r.strict == strict,
            r.labels@.len() == 0,
            r.wf(),
    {
        ParserState {
            in_function: false,
            in_generator: false,
            in_async: false,
            strict,
            labels: Vec::new(),
        }
    }
}

/// The indices of the input tokens that the events attach, in order.
pub open spec fn token_indices(events: Seq<Event>) -> Seq<int>
    decreases events.len(),
{
    if events.len() == 0 {
        Seq::empty()
    } else {
        let rest = token_indices(events.drop_last());
        match events.last() {
            Event::Token { index } => rest.push(index as int),
            _ => rest,
        }
    }
}

/// `0, 1, ..., n - 1`.
pub open spec fn upto(n: nat) -> Seq<int> {
    Seq::new(n, |i: int| i)
}

/// An open marker's start event.
pub open spec fn is_open_start(e: Event) -> bool {
    e == (Event::Start { kind: SyntaxKind::TOMBSTONE })
}

/// Events before `n` are untouched.
pub open spec fn keeps_prefix(a: Seq<Event>, b: Seq<Event>, n: int) -> bool {
    &&& 0 <= n <= a.len()
    &&& n <= b.len()
    &&& forall|i: int| 0 <= i < n ==> #[trigger] b[i] == a[i]
}

proof fn lemma_indices_update(s: Seq<Event>, i: int, k: SyntaxKind)
    requires
        0 <= i < s.len(),
        s[i] is Start,
    ensures
        token_indices(s.update(i, Event::Start { kind: k })) == token_indices(s),
    decreases s.len(),
{
    let t = s.update(i, Event::Start { kind: k });
    if i < s.len() - 1 {
        assert(t.drop_last() =~= s.drop_last().update(i, Event::Start { kind: k }));
        lemma_indices_update(s.drop_last(), i, k);
    } else {
        assert(t.drop_last() =~= s.drop_last());
    }
}

proof fn lemma_indices_insert(s: Seq<Event>, i: int, k: SyntaxKind)
    requires
        0 <= i <= s.len(),
    ensures
        token_indices(s.insert(i, Event::Start { kind: k })) == token_indices(s),
    decreases s.len(),
{
    let t = s.insert(i, Event::Start { kind: k });
    if i < s.len() {
        assert(t.drop_last() =~= s.drop_last().insert(i, Event::Start { kind: k }));
        assert(t.last() == s.last());
        lemma_indices_insert(s.drop_last(), i, k);
    } else {
        assert(t.drop_last() =~= s);
    }
}

proof fn lemma_indices_pop(s: Seq<Event>)
    requires
        s.len() > 0,
        s.last() is Start,
    ensures
        token_indices(s.drop_last()) == token_indices(s),
{
}

/// A handle to an open node whose kind is not decided yet.
pub struct Marker {
    pub pos: usize,
}

/// A handle to a finished node: the index of its start event.
#[derive(Clone, Copy, Debug, PartialEq, Eq, Structural)]
pub struct CompletedMarker {
    pub start: usize,
}

/// A parse session over one token sequence.
pub struct Parser {
    pub tokens: Vec<Token>,
    pub pos: usize,
    pub events: Vec<Event>,
    pub diagnostics: Vec<Diagnostic>,
    pub state: ParserState,
}

/// The finished output of a parse.
pub struct Parse {
    pub tokens: Vec<Token>,
    pub events: Vec<Event>,
    pub diagnostics: Vec<Diagnostic>,
}

impl Parser {
    /// The log attaches exactly the tokens before the cursor, each once, in order.
    pub open spec fn wf(&self) -> bool {
        &&& self.pos <= self.tokens@.len()
        &&& token_indices(self.events@) == upto(self.pos as nat)
    }

    pub open spec fn spec_nth(&self, n: int) -> SyntaxKind {
        if 0 <= self.pos + n < self.tokens@.len() {
            self.tokens@[self.pos + n].kind
        } else {
            SyntaxKind::EOF
        }
    }

    pub open spec fn spec_cur(&self) -> SyntaxKind {
        self.spec_nth(0)
    }

    pub open spec fn spec_nth_src(&self, n: int) -> Seq<char> {
        if 0 <= self.pos + n < self.tokens@.len() {
            self.tokens@[self.pos + n].text@
        } else {
            Seq::empty()
        }
    }

    pub open spec fn spec_cur_src(&self) -> Seq<char> {
        self.spec_nth_src(0)
    }

    pub open spec fn spec_cur_range(&self) -> TextRange {
        if self.pos < self.tokens@.len() {
            self.tokens@[self.pos as int].range
        } else if self.tokens@.len() > 0 {
            let r = self.tokens@.last().range;
            TextRange { start: r.end, end: r.end }
        } else {
            TextRange { start: 0, end: 0 }
        }
    }

    /// The token `n` ahead has a line break in its leading trivia.
    pub open spec fn spec_linebreak_before(&self, n: int) -> bool {
        0 <= self.pos + n < self.tokens@.len() && self.tokens@[self.pos + n].leading@.contains(
            '\n',
        )
    }

    /// What a grammar production may change, and what it must keep: the input, the
    /// context, the events before `from`, the diagnostics already recorded, and the
    /// log's agreement with the cursor.
    pub open spec fn advanced(&self, old: &Parser, from: int) -> bool {
        &&& self.wf()
        &&& self.tokens == old.tokens
        &&& self.state == old.state
        &&& old.pos <= self.pos
        &&& keeps_prefix(old.events@, self.events@, from)
        &&& self.diagnostics@.len() >= old.diagnostics@.len()
        &&& forall|i: int|
            0 <= i < old.diagnostics@.len() ==> #[trigger] self.diagnostics@[i]
                == old.diagnostics@[i]
    }

    pub fn new(tokens: Vec<Token>, state: ParserState) -> (r: Parser)
        ensures
            r.wf(),
            r.pos == 0,
            r.tokens == tokens,
            r.state == state,
            r.events@.len() == 0,
            r.diagnostics@.len() == 0,
    {
        let r = Parser { tokens, pos: 0, events: Vec::new(), diagnostics: Vec::new(), state };
        assert(token_indices(r.events@) =~= upto(0));
        r
    }

    /// The kind of the token `n` ahead of the cursor, `EOF` past the end.
    pub fn nth(&self, n: usize) -> (r: SyntaxKind)
        requires
            self.wf(),
        ensures
            r == self.spec_nth(n as int),
    {
        if n < self.tokens.len() - self.pos {
            self.tokens[self.pos + n].kind
        } else {
            SyntaxKind::EOF
        }
    }

    pub fn cur(&self) -> (r: SyntaxKind)
        requires
            self.wf(),
        ensures
            r == self.spec_cur(),
    {
        self.nth(0)
    }

    pub fn at(&self, k: SyntaxKind) -> (r: bool)
        requires
            self.wf(),
        ensures
            r == (self.spec_cur() == k),
    {
        self.cur() == k
    }

    pub fn nth_at(&self, n: usize, k: SyntaxKind) -> (r: bool)
        requires
            self.wf(),
        ensures
            r == (self.spec_nth(n as int) == k),
    {
        self.nth(n) == k
    }

    /// The exact text of the current token, empty past the end.
    pub fn cur_src(&self) -> (r: &str)
        requires
            self.wf(),
        ensures
            r@ == self.spec_cur_src(),
    {
        if self.pos < self.tokens.len() {
            self.tokens[self.pos].text.as_str()
        } else {
            proof {
                reveal_strlit("");
            }
            ""
        }
    }

    /// The range of the current token; an empty range at the end of input.
    pub fn cur_range(&self) -> (r: TextRange)
        requires
            self.wf(),
        ensures
            r == self.spec_cur_range(),
    {
        if self.pos < self.tokens.len() {
            self.tokens[self.pos].range
        } else if self.tokens.len() > 0 {
            let e = self.tokens[self.tokens.len() - 1].range.end;
            TextRange { start: e, end: e }
        } else {
            TextRange { start: 0, end: 0 }
        }
    }

    /// Whether the trivia before the token `n` ahead holds a line break.
    pub fn has_linebreak_before_n(&self, n: usize) -> (r: bool)
        requires
            self.wf(),
        ensures
            r == self.spec_linebreak_before(n as int),
    {
        if n < self.tokens.len() - self.pos {
            contains_newline(self.tokens[self.pos + n].leading.as_str())
        } else {
            false
        }
    }

    /// Consumes the current token into the tree; nothing at the end of input.
    pub fn bump_any(&mut self)
        requires
            old(self).wf(),
        ensures
            final(self).wf(),
            final(self).tokens == old(self).tokens,
            final(self).state == old(self).state,
            final(self).diagnostics == old(self).diagnostics,
            old(self).pos < old(self).tokens@.len() ==> final(self).pos == old(self).pos + 1
                && final(self).events@ == old(self).events@.push(
                Event::Token { index: old(self).pos },
            ),
            old(self).pos >= old(self).tokens@.len() ==> final(self).pos == old(self).pos
                && final(self).events@ == old(self).events@,
    {
        if self.pos < self.tokens.len() {
            self.events.push(Event::Token { index: self.pos });
            self.pos = self.pos + 1;
            assert(self.events@.drop_last() =~= old(self).events@);
            assert(token_indices(self.events@) =~= upto(self.pos as nat));
        }
    }

    /// Consumes the current token if it has kind `k`.
    pub fn eat(&mut self, k: SyntaxKind) -> (r: bool)
        requires
            old(self).wf(),
        ensures
            r == (old(self).spec_cur() == k),
            final(self).wf(),
            final(self).tokens == old(self).tokens,
            final(self).state == old(self).state,
            final(self).diagnostics == old(self).diagnostics,
            r && k != SyntaxKind::EOF ==> final(self).pos == old(self).pos + 1
                && final(self).events@ == old(self).events@.push(
                Event::Token { index: old(self).pos },
            ),
            !r || k == SyntaxKind::EOF ==> final(self).pos == old(self).pos
                && final(self).events@ == old(self).events@,
    {
        if self.at(k) {
            if k != SyntaxKind::EOF {
                self.bump_any();
            }
            true
        } else {
            false
        }
    }

    /// Records a diagnostic.
    pub fn error(&mut self, d: Diagnostic)
        ensures
            final(self).diagnostics@ == old(self).diagnostics@.push(d),
            final(self).tokens == old(self).tokens,
            final(self).pos == old(self).pos,
            final(self).events == old(self).events,
            final(self).state == old(self).state,
    {
        self.diagnostics.push(d);
    }

    /// Consumes the current token if it has kind `k`; otherwise records that it is
    /// missing and goes on as if it were there.
    pub fn expect(&mut self, k: SyntaxKind) -> (r: bool)
        requires
            old(self).wf(),
            k != SyntaxKind::EOF,
        ensures
            r == (old(self).spec_cur() == k),
            final(self).wf(),
            final(self).tokens == old(self).tokens,
            final(self).state == old(self).state,
            r ==> final(self).pos == old(self).pos + 1 && final(self).events@
                == old(self).events@.push(Event::Token { index: old(self).pos })
                && final(self).diagnostics == old(self).diagnostics,
            !r ==> final(self).pos == old(self).pos && final(self).events@ == old(self).events@
                && final(self).diagnostics@ == old(self).diagnostics@.push(
                missing(k, old(self).spec_cur_range()),
            ),
    {
        if self.eat(k) {
            true
        } else {
            let range = self.cur_range();
            self.error(Diagnostic { kind: DiagnosticKind::MissingToken, expected: k, primary: range });
            false
        }
    }

    /// Opens a node at the cursor.
    pub fn start(&mut self) -> (m: Marker)
        requires
            old(self).wf(),
        ensures
            final(self).wf(),
            final(self).tokens == old(self).tokens,
            final(self).state == old(self).state,
            final(self).pos == old(self).pos,
            final(self).diagnostics == old(self).diagnostics,
            final(self).events@ == old(self).events@.push(
                Event::Start { kind: SyntaxKind::TOMBSTONE },
            ),
            m.pos == old(self).events@.len(),
    {
        let m = Marker { pos: self.events.len() };
        self.events.push(Event::Start { kind: SyntaxKind::TOMBSTONE });
        proof {
            lemma_indices_pop(self.events@);
            assert(self.events@.drop_last() =~= old(self).events@);
        }
        m
    }

    /// Records a diagnostic, then wraps the tokens up to the next one in
    /// `recovery`, a brace, or the end of input, in an error node.
    pub fn err_recover(&mut self, d: Diagnostic, recovery: &[SyntaxKind])
        requires
            old(self).wf(),
        ensures
            final(self).wf(),
            final(self).tokens == old(self).tokens,
            final(self).state == old(self).state,
            final(self).pos >= old(self).pos,
            final(self).diagnostics@ == old(self).diagnostics@.push(d),
            keeps_prefix(old(self).events@, final(self).events@, old(self).events@.len() as int),
            !stops_recovery(old(self).spec_cur(), recovery@) ==> final(self).pos > old(self).pos,
            stops_recovery(old(self).spec_cur(), recovery@) ==> final(self).pos == old(self).pos,
            stops_recovery(final(self).spec_cur(), recovery@),
    {
        self.error(d);
        if !in_recovery_set(self.cur(), recovery) {
            let m = self.start();
            while !in_recovery_set(self.cur(), recovery)
                invariant
                    self.wf(),
                    self.tokens == old(self).tokens,
                    self.state == old(self).state,
                    self.diagnostics@ == old(self).diagnostics@.push(d),
                    old(self).pos <= self.pos,
                    keeps_prefix(old(self).events@, self.events@, old(self).events@.len() as int),
                    m.pos < self.events@.len(),
                    is_open_start(self.events@[m.pos as int]),
                    self.pos == old(self).pos || self.pos > old(self).pos,
                decreases self.tokens@.len() - self.pos,
            {
                self.bump_any();
            }
            m.complete(self, SyntaxKind::ERROR);
        }
    }

    /// Installs `s` as the current context and hands back the one it replaces,
    /// which the caller puts back with `restore_state` on every way out.
    pub fn with_state(&mut self, s: ParserState) -> (prev: ParserState)
        ensures
            prev == old(self).state,
            final(self).state == s,
            final(self).tokens == old(self).tokens,
            final(self).pos == old(self).pos,
            final(self).events == old(self).events,
            final(self).diagnostics == old(self).diagnostics,
    {
        let mut prev = s;
        std::mem::swap(&mut self.state, &mut prev);
        prev
    }

    /// Puts back a context that `with_state` handed out.
    pub fn restore_state(&mut self, prev: ParserState)
        ensures
            final(self).state == prev,
            final(self).tokens == old(self).tokens,
            final(self).pos == old(self).pos,
            final(self).events == old(self).events,
            final(self).diagnostics == old(self).diagnostics,
    {
        self.state = prev;
    }

    /// Ends the session and hands over what it produced.
    pub fn finish(self) -> (r: Parse)
        ensures
            r.tokens == self.tokens,
            r.events == self.events,
            r.diagnostics == self.diagnostics,
    {
        Parse { tokens: self.tokens, events: self.events, diagnostics: self.diagnostics }
    }
}

impl Marker {
    /// Gives the node opened by this marker its kind, closing it.
    pub fn complete(self, p: &mut Parser, kind: SyntaxKind) -> (c: CompletedMarker)
        requires
            old(p).wf(),
            self.pos < old(p).events@.len(),
            is_open_start(old(p).events@[self.pos as int]),
        ensures
            final(p).wf(),
            final(p).tokens == old(p).tokens,
            final(p).state == old(p).state,
            final(p).pos == old(p).pos,
            final(p).diagnostics == old(p).diagnostics,
            final(p).events@ == old(p).events@.update(self.pos as int, Event::Start { kind }).push(
                Event::Finish,
            ),
            c.start == self.pos,
    {
        proof {
            lemma_indices_update(p.events@, self.pos as int, kind);
        }
        p.events.set(self.pos, Event::Start { kind });
        let ghost mid = p.events@;
        p.events.push(Event::Finish);
        assert(p.events@.drop_last() =~= mid);
        CompletedMarker { start: self.pos }
    }

    /// Gives up the node: what it would have held belongs to the enclosing node.
    pub fn abandon(self, p: &mut Parser)
        requires
            old(p).wf(),
            self.pos < old(p).events@.len(),
            is_open_start(old(p).events@[self.pos as int]),
        ensures
            final(p).wf(),
            final(p).tokens == old(p).tokens,
            final(p).state == old(p).state,
            final(p).pos == old(p).pos,
            final(p).diagnostics == old(p).diagnostics,
            self.pos == old(p).events@.len() - 1 ==> final(p).events@
                == old(p).events@.drop_last(),
            self.pos < old(p).events@.len() - 1 ==> final(p).events == old(p).events,
    {
        if self.pos == p.events.len() - 1 {
            proof {
                lemma_indices_pop(p.events@);
            }
            p.events.pop();
        }
    }
}

impl CompletedMarker {
    /// Opens a node that, once completed, becomes the parent of this finished one.
    pub fn precede(self, p: &mut Parser) -> (m: Marker)
        requires
            old(p).wf(),
            self.start <= old(p).events@.len(),
        ensures
            final(p).wf(),
            final(p).tokens == old(p).tokens,
            final(p).state == old(p).state,
            final(p).pos == old(p).pos,
            final(p).diagnostics == old(p).diagnostics,
            final(p).events@ == old(p).events@.insert(
                self.start as int,
                Event::Start { kind: SyntaxKind::TOMBSTONE },
            ),
            m.pos == self.start,
    {
        proof {
            lemma_indices_insert(p.events@, self.start as int, SyntaxKind::TOMBSTONE);
        }
        p.events.insert(self.start, Event::Start { kind: SyntaxKind::TOMBSTONE });
        Marker { pos: self.start }
    }
}

/// The diagnostic for a missing token of kind `k`.
pub open spec fn missing(k: SyntaxKind, at: TextRange) -> Diagnostic {
    Diagnostic { kind: DiagnosticKind::MissingToken, expected: k, primary: at }
}

/// Where error recovery stops: a token of the set, a brace, or the end of input.
pub open spec fn stops_recovery(k: SyntaxKind, recovery: Seq<SyntaxKind>) -> bool {
    k == SyntaxKind::EOF || k == SyntaxKind::L_CURLY || k == SyntaxKind::R_CURLY
        || recovery.contains(k)
}

fn in_recovery_set(k: SyntaxKind, recovery: &[SyntaxKind]) -> (r: bool)
    ensures
        r == stops_recovery(k, recovery@),
{
    if k == SyntaxKind::EOF || k == SyntaxKind::L_CURLY || k == SyntaxKind::R_CURLY {
        return true;
    }
    let mut i: usize = 0;
    while i < recovery.len()
        invariant
            i <= recovery@.len(),
            forall|j: int| 0 <= j < i ==> recovery@[j] != k,
        decreases recovery@.len() - i,
    {
        if recovery[i] == k {
            return true;
        }
        i = i + 1;
    }
    false
}

/// Whether `s` holds a line feed.
pub fn contains_newline(s: &str) -> (r: bool)
    ensures
        r == s@.contains('\n'),
{
    let n = s.unicode_len();
    let mut i: usize = 0;
    while i < n
        invariant
            n == s@.len(),
            i <= n,
            forall|j: int| 0 <= j < i ==> s@[j] != '\n',
        decreases n - i,
    {
        if s.get_char(i) == '\n' {
            return true;
        }
        i = i + 1;
    }
    false
}

/// Whether the text of `s` is exactly `lit`.
pub fn text_is(s: &str, lit: &str) -> (r: bool)
    ensures
        r == (s@ == lit@),
{
    let n = s.unicode_len();
    if n != lit.unicode_len() {
        return false;
    }
    let mut i: usize = 0;
    while i < n
        invariant
            n == s@.len(),
            n == lit@.len(),
            i <= n,
            forall|j: int| 0 <= j < i ==> s@[j] == lit@[j],
        decreases n - i,
    {
        if s.get_char(i) != lit.get_char(i) {
            return false;
        }
        i = i + 1;
    }
    assert(s@ =~= lit@);
    true
}

/// The source text that a token stands for: its leading trivia, then its text.
pub open spec fn token_source(t: Token) -> Seq<char> {
    t.leading@ + t.text@
}

/// The whole input, token after token.
pub open spec fn source_text(tokens: Seq<Token>) -> Seq<char>
    decreases tokens.len(),
{
    if tokens.len() == 0 {
        Seq::empty()
    } else {
        source_text(tokens.drop_last()) + token_source(tokens.last())
    }
}

/// The text of the tokens at the given indices, in that order.
pub open spec fn text_at(indices: Seq<int>, tokens: Seq<Token>) -> Seq<char>
    decreases indices.len(),
{
    if indices.len() == 0 {
        Seq::empty()
    } else {
        text_at(indices.drop_last(), tokens) + token_source(tokens[indices.last()])
    }
}

/// The text that the tokens of an event log spell.
pub open spec fn events_text(events: Seq<Event>, tokens: Seq<Token>) -> Seq<char> {
    text_at(token_indices(events), tokens)
}

/// A log that attaches every input token once, in order, spells the input exactly,
/// trivia included, whatever diagnostics were raised on the way.
pub proof fn lossless(events: Seq<Event>, tokens: Seq<Token>)
    requires
        token_indices(events) == upto(tokens.len()),
    ensures
        events_text(events, tokens) == source_text(tokens),
{
    lemma_text_upto(tokens, tokens.len());
    assert(tokens.subrange(0, tokens.len() as int) =~= tokens);
}

proof fn lemma_text_upto(tokens: Seq<Token>, n: nat)
    requires
        n <= tokens.len(),
    ensures
        text_at(upto(n), tokens) == source_text(tokens.subrange(0, n as int)),
    decreases n,
{
    if n > 0 {
        lemma_text_upto(tokens, (n - 1) as nat);
        assert(upto(n).drop_last() =~= upto((n - 1) as nat));
        assert(tokens.subrange(0, n as int).drop_last() =~= tokens.subrange(0, n - 1));
    } else {
        assert(upto(0) =~= Seq::<int>::empty());
    }
}

} // verus!
