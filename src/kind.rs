//! The closed enumeration of token and node kinds.

use vstd::prelude::*;

verus! {

#[allow(non_camel_case_types)]
#[derive(Clone, Copy, Debug, PartialEq, Eq, Structural, Hash)]
pub enum SyntaxKind {
    // markers for nodes that have no kind yet, and the end of input
    TOMBSTONE,
    EOF,
    // punctuation
    SEMICOLON,
    COMMA,
    L_PAREN,
    R_PAREN,
    L_CURLY,
    R_CURLY,
    L_BRACK,
    R_BRACK,
    STAR,
    DOT,
    DOT3,
    EQ,
    COLON,
    ARROW,
    // literals and identifiers
    IDENT,
    STRING,
    NUMBER,
    // keywords
    AWAIT_KW,
    BREAK_KW,
    CASE_KW,
    CATCH_KW,
    CLASS_KW,
    CONST_KW,
    CONTINUE_KW,
    DEBUGGER_KW,
    DEFAULT_KW,
    DELETE_KW,
    DO_KW,
    ELSE_KW,
    EXPORT_KW,
    EXTENDS_KW,
    FALSE_KW,
    FINALLY_KW,
    FOR_KW,
    FUNCTION_KW,
    IF_KW,
    IMPORT_KW,
    IN_KW,
    INSTANCEOF_KW,
    NEW_KW,
    NULL_KW,
    RETURN_KW,
    SUPER_KW,
    SWITCH_KW,
    THIS_KW,
    THROW_KW,
    TRUE_KW,
    TRY_KW,
    TYPEOF_KW,
    VAR_KW,
    VOID_KW,
    WHILE_KW,
    WITH_KW,
    YIELD_KW,
    // nodes
    SCRIPT,
    ERROR,
    NAME,
    NAME_REF,
    LITERAL,
    THIS_EXPR,
    DOT_EXPR,
    CALL_EXPR,
    ARG_LIST,
    ASSIGN_EXPR,
    FN_EXPR,
    CLASS_EXPR,
    ARROW_EXPR,
    COMPUTED_PROPERTY_NAME,
    BLOCK_STMT,
    EMPTY_STMT,
    EXPR_STMT,
    IF_STMT,
    DO_WHILE_STMT,
    WHILE_STMT,
    FOR_STMT,
    FOR_IN_STMT,
    CONTINUE_STMT,
    BREAK_STMT,
    RETURN_STMT,
    WITH_STMT,
    LABELLED_STMT,
    SWITCH_STMT,
    THROW_STMT,
    TRY_STMT,
    DEBUGGER_STMT,
    FN_DECL,
    CLASS_DECL,
    VAR_DECL,
    IMPORT_DECL,
    SPECIFIER,
    WILDCARD_IMPORT,
    CLASS_BODY,
    METHOD,
    GETTER,
    SETTER,
    STATIC_METHOD,
    PARAMETER_LIST,
    SINGLE_PATTERN,
    ASSIGN_PATTERN,
    REST_PATTERN,
}

impl SyntaxKind {
    /// Reserved words: every kind whose name ends in `_KW`. Contextual words such as
    /// `get`, `set`, `async`, `static` and `let` are plain identifiers.
    pub open spec fn spec_is_keyword(self) -> bool {
        match self {
            SyntaxKind::AWAIT_KW | SyntaxKind::BREAK_KW | SyntaxKind::CASE_KW
            | SyntaxKind::CATCH_KW | SyntaxKind::CLASS_KW | SyntaxKind::CONST_KW
            | SyntaxKind::CONTINUE_KW | SyntaxKind::DEBUGGER_KW | SyntaxKind::DEFAULT_KW
            | SyntaxKind::DELETE_KW | SyntaxKind::DO_KW | SyntaxKind::ELSE_KW
            | SyntaxKind::EXPORT_KW | SyntaxKind::EXTENDS_KW | SyntaxKind::FALSE_KW
            | SyntaxKind::FINALLY_KW | SyntaxKind::FOR_KW | SyntaxKind::FUNCTION_KW
            | SyntaxKind::IF_KW | SyntaxKind::IMPORT_KW | SyntaxKind::IN_KW
            | SyntaxKind::INSTANCEOF_KW | SyntaxKind::NEW_KW | SyntaxKind::NULL_KW
            | SyntaxKind::RETURN_KW | SyntaxKind::SUPER_KW | SyntaxKind::SWITCH_KW
            | SyntaxKind::THIS_KW | SyntaxKind::THROW_KW | SyntaxKind::TRUE_KW
            | SyntaxKind::TRY_KW | SyntaxKind::TYPEOF_KW | SyntaxKind::VAR_KW
            | SyntaxKind::VOID_KW | SyntaxKind::WHILE_KW | SyntaxKind::WITH_KW
            | SyntaxKind::YIELD_KW => true,
            _ => false,
        }
    }

    /// Whether this kind is a reserved word.
    pub fn is_keyword(self) -> (r: bool)
        ensures
            r == self.spec_is_keyword(),
    {
        match self {
            SyntaxKind::AWAIT_KW | SyntaxKind::BREAK_KW | SyntaxKind::CASE_KW
            | SyntaxKind::CATCH_KW | SyntaxKind::CLASS_KW | SyntaxKind::CONST_KW
            | SyntaxKind::CONTINUE_KW | SyntaxKind::DEBUGGER_KW | SyntaxKind::DEFAULT_KW
            | SyntaxKind::DELETE_KW | SyntaxKind::DO_KW | SyntaxKind::ELSE_KW
            | SyntaxKind::EXPORT_KW | SyntaxKind::EXTENDS_KW | SyntaxKind::FALSE_KW
            | SyntaxKind::FINALLY_KW | SyntaxKind::FOR_KW | SyntaxKind::FUNCTION_KW
            | SyntaxKind::IF_KW | SyntaxKind::IMPORT_KW | SyntaxKind::IN_KW
            | SyntaxKind::INSTANCEOF_KW | SyntaxKind::NEW_KW | SyntaxKind::NULL_KW
            | SyntaxKind::RETURN_KW | SyntaxKind::SUPER_KW | SyntaxKind::SWITCH_KW
            | SyntaxKind::THIS_KW | SyntaxKind::THROW_KW | SyntaxKind::TRUE_KW
            | SyntaxKind::TRY_KW | SyntaxKind::TYPEOF_KW | SyntaxKind::VAR_KW
            | SyntaxKind::VOID_KW | SyntaxKind::WHILE_KW | SyntaxKind::WITH_KW
            | SyntaxKind::YIELD_KW => true,
            _ => false,
        }
    }
}

} // verus!
