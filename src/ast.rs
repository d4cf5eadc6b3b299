//! Typed views over the finished tree. Each view borrows exactly one node of the
//! tree and is reached by casting, which the node's kind alone decides.

use vstd::prelude::*;
use crate::kind::SyntaxKind;
use crate::tree::{first_token_of, node_text, tokens_of, SyntaxElement, SyntaxNode, SyntaxToken};

verus! {

/// A view of a `BLOCK_STMT` node.
#[derive(Clone, Copy)]
pub struct BlockStmt<'a> {
    pub syntax: &'a SyntaxNode,
}

/// A view of a `EMPTY_STMT` node.
#[derive(Clone, Copy)]
pub struct EmptyStmt<'a> {
    pub syntax: &'a SyntaxNode,
}

/// A view of a `EXPR_STMT` node.
#[derive(Clone, Copy)]
pub struct ExprStmt<'a> {
    pub syntax: &'a SyntaxNode,
}

/// A view of a `IF_STMT` node.
#[derive(Clone, Copy)]
pub struct IfStmt<'a> {
    pub syntax: &'a SyntaxNode,
}

/// A view of a `DO_WHILE_STMT` node.
#[derive(Clone, Copy)]
pub struct DoWhileStmt<'a> {
    pub syntax: &'a SyntaxNode,
}

/// A view of a `WHILE_STMT` node.
#[derive(Clone, Copy)]
pub struct WhileStmt<'a> {
    pub syntax: &'a SyntaxNode,
}

/// A view of a `FOR_STMT` node.
#[derive(Clone, Copy)]
pub struct ForStmt<'a> {
    pub syntax: &'a SyntaxNode,
}

/// A view of a `FOR_IN_STMT` node.
#[derive(Clone, Copy)]
pub struct ForInStmt<'a> {
    pub syntax: &'a SyntaxNode,
}

/// A view of a `CONTINUE_STMT` node.
#[derive(Clone, Copy)]
pub struct ContinueStmt<'a> {
    pub syntax: &'a SyntaxNode,
}

/// A view of a `BREAK_STMT` node.
#[derive(Clone, Copy)]
pub struct BreakStmt<'a> {
    pub syntax: &'a SyntaxNode,
}

/// A view of a `RETURN_STMT` node.
#[derive(Clone, Copy)]
pub struct ReturnStmt<'a> {
    pub syntax: &'a SyntaxNode,
}

/// A view of a `WITH_STMT` node.
#[derive(Clone, Copy)]
pub struct WithStmt<'a> {
    pub syntax: &'a SyntaxNode,
}

/// A view of a `LABELLED_STMT` node.
#[derive(Clone, Copy)]
pub struct LabelledStmt<'a> {
    pub syntax: &'a SyntaxNode,
}

/// A view of a `SWITCH_STMT` node.
#[derive(Clone, Copy)]
pub struct SwitchStmt<'a> {
    pub syntax: &'a SyntaxNode,
}

/// A view of a `THROW_STMT` node.
#[derive(Clone, Copy)]
pub struct ThrowStmt<'a> {
    pub syntax: &'a SyntaxNode,
}

/// A view of a `TRY_STMT` node.
#[derive(Clone, Copy)]
pub struct TryStmt<'a> {
    pub syntax: &'a SyntaxNode,
}

/// A view of a `DEBUGGER_STMT` node.
#[derive(Clone, Copy)]
pub struct DebuggerStmt<'a> {
    pub syntax: &'a SyntaxNode,
}

/// A view of a `FN_DECL` node.
#[derive(Clone, Copy)]
pub struct FnDecl<'a> {
    pub syntax: &'a SyntaxNode,
}

/// A view of a `CLASS_DECL` node.
#[derive(Clone, Copy)]
pub struct ClassDecl<'a> {
    pub syntax: &'a SyntaxNode,
}

/// A view of a `VAR_DECL` node.
#[derive(Clone, Copy)]
pub struct VarDecl<'a> {
    pub syntax: &'a SyntaxNode,
}

/// A view of a `NAME_REF` node.
#[derive(Clone, Copy)]
pub struct NameRef<'a> {
    pub syntax: &'a SyntaxNode,
}

/// A view of a `LITERAL` node.
#[derive(Clone, Copy)]
pub struct Literal<'a> {
    pub syntax: &'a SyntaxNode,
}

/// A view of a `THIS_EXPR` node.
#[derive(Clone, Copy)]
pub struct ThisExpr<'a> {
    pub syntax: &'a SyntaxNode,
}

/// A view of a `DOT_EXPR` node.
#[derive(Clone, Copy)]
pub struct DotExpr<'a> {
    pub syntax: &'a SyntaxNode,
}

/// A view of a `CALL_EXPR` node.
#[derive(Clone, Copy)]
pub struct CallExpr<'a> {
    pub syntax: &'a SyntaxNode,
}

/// A view of a `ASSIGN_EXPR` node.
#[derive(Clone, Copy)]
pub struct AssignExpr<'a> {
    pub syntax: &'a SyntaxNode,
}

/// A view of a `FN_EXPR` node.
#[derive(Clone, Copy)]
pub struct FnExpr<'a> {
    pub syntax: &'a SyntaxNode,
}

/// A view of a `CLASS_EXPR` node.
#[derive(Clone, Copy)]
pub struct ClassExpr<'a> {
    pub syntax: &'a SyntaxNode,
}

/// A view of a `ARROW_EXPR` node.
#[derive(Clone, Copy)]
pub struct ArrowExpr<'a> {
    pub syntax: &'a SyntaxNode,
}

/// A view of a `IMPORT_DECL` node.
#[derive(Clone, Copy)]
pub struct ImportDecl<'a> {
    pub syntax: &'a SyntaxNode,
}

/// A view of a `SPECIFIER` node.
#[derive(Clone, Copy)]
pub struct Specifier<'a> {
    pub syntax: &'a SyntaxNode,
}

/// A view of a `WILDCARD_IMPORT` node.
#[derive(Clone, Copy)]
pub struct WildcardImport<'a> {
    pub syntax: &'a SyntaxNode,
}

/// A view of a `NAME` node.
#[derive(Clone, Copy)]
pub struct Name<'a> {
    pub syntax: &'a SyntaxNode,
}

impl<'a> BlockStmt<'a> {
    pub fn can_cast(kind: SyntaxKind) -> (r: bool)
        ensures
            r == (kind == SyntaxKind::BLOCK_STMT),
    {
        kind == SyntaxKind::BLOCK_STMT
    }

    pub fn cast(syntax: &'a SyntaxNode) -> (r: Option<BlockStmt<'a>>)
        ensures
            r is Some <==> syntax.kind == SyntaxKind::BLOCK_STMT,
            r is Some ==> r->Some_0.syntax == syntax,
    {
        if syntax.kind == SyntaxKind::BLOCK_STMT {
            Some(BlockStmt { syntax })
        } else {
            None
        }
    }

    pub fn syntax(&self) -> (r: &'a SyntaxNode)
        ensures
            r == self.syntax,
    {
        self.syntax
    }
}

impl<'a> EmptyStmt<'a> {
    pub fn can_cast(kind: SyntaxKind) -> (r: bool)
        ensures
            r == (kind == SyntaxKind::EMPTY_STMT),
    {
        kind == SyntaxKind::EMPTY_STMT
    }

    pub fn cast(syntax: &'a SyntaxNode) -> (r: Option<EmptyStmt<'a>>)
        ensures
            r is Some <==> syntax.kind == SyntaxKind::EMPTY_STMT,
            r is Some ==> r->Some_0.syntax == syntax,
    {
        if syntax.kind == SyntaxKind::EMPTY_STMT {
            Some(EmptyStmt { syntax })
        } else {
            None
        }
    }

    pub fn syntax(&self) -> (r: &'a SyntaxNode)
        ensures
            r == self.syntax,
    {
        self.syntax
    }
}

impl<'a> ExprStmt<'a> {
    pub fn can_cast(kind: SyntaxKind) -> (r: bool)
        ensures
            r == (kind == SyntaxKind::EXPR_STMT),
    {
        kind == SyntaxKind::EXPR_STMT
    }

    pub fn cast(syntax: &'a SyntaxNode) -> (r: Option<ExprStmt<'a>>)
        ensures
            r is Some <==> syntax.kind == SyntaxKind::EXPR_STMT,
            r is Some ==> r->Some_0.syntax == syntax,
    {
        if syntax.kind == SyntaxKind::EXPR_STMT {
            Some(ExprStmt { syntax })
        } else {
            None
        }
    }

    pub fn syntax(&self) -> (r: &'a SyntaxNode)
        ensures
            r == self.syntax,
    {
        self.syntax
    }
}

impl<'a> IfStmt<'a> {
    pub fn can_cast(kind: SyntaxKind) -> (r: bool)
        ensures
            r == (kind == SyntaxKind::IF_STMT),
    {
        kind == SyntaxKind::IF_STMT
    }

    pub fn cast(syntax: &'a SyntaxNode) -> (r: Option<IfStmt<'a>>)
        ensures
            r is Some <==> syntax.kind == SyntaxKind::IF_STMT,
            r is Some ==> r->Some_0.syntax == syntax,
    {
        if syntax.kind == SyntaxKind::IF_STMT {
            Some(IfStmt { syntax })
        } else {
            None
        }
    }

    pub fn syntax(&self) -> (r: &'a SyntaxNode)
        ensures
            r == self.syntax,
    {
        self.syntax
    }
}

impl<'a> DoWhileStmt<'a> {
    pub fn can_cast(kind: SyntaxKind) -> (r: bool)
        ensures
            r == (kind == SyntaxKind::DO_WHILE_STMT),
    {
        kind == SyntaxKind::DO_WHILE_STMT
    }

    pub fn cast(syntax: &'a SyntaxNode) -> (r: Option<DoWhileStmt<'a>>)
        ensures
            r is Some <==> syntax.kind == SyntaxKind::DO_WHILE_STMT,
            r is Some ==> r->Some_0.syntax == syntax,
    {
        if syntax.kind == SyntaxKind::DO_WHILE_STMT {
            Some(DoWhileStmt { syntax })
        } else {
            None
        }
    }

    pub fn syntax(&self) -> (r: &'a SyntaxNode)
        ensures
            r == self.syntax,
    {
        self.syntax
    }
}

impl<'a> WhileStmt<'a> {
    pub fn can_cast(kind: SyntaxKind) -> (r: bool)
        ensures
            r == (kind == SyntaxKind::WHILE_STMT),
    {
        kind == SyntaxKind::WHILE_STMT
    }

    pub fn cast(syntax: &'a SyntaxNode) -> (r: Option<WhileStmt<'a>>)
        ensures
            r is Some <==> syntax.kind == SyntaxKind::WHILE_STMT,
            r is Some ==> r->Some_0.syntax == syntax,
    {
        if syntax.kind == SyntaxKind::WHILE_STMT {
            Some(WhileStmt { syntax })
        } else {
            None
        }
    }

    pub fn syntax(&self) -> (r: &'a SyntaxNode)
        ensures
            r == self.syntax,
    {
        self.syntax
    }
}

impl<'a> ForStmt<'a> {
    pub fn can_cast(kind: SyntaxKind) -> (r: bool)
        ensures
            r == (kind == SyntaxKind::FOR_STMT),
    {
        kind == SyntaxKind::FOR_STMT
    }

    pub fn cast(syntax: &'a SyntaxNode) -> (r: Option<ForStmt<'a>>)
        ensures
            r is Some <==> syntax.kind == SyntaxKind::FOR_STMT,
            r is Some ==> r->Some_0.syntax == syntax,
    {
        if syntax.kind == SyntaxKind::FOR_STMT {
            Some(ForStmt { syntax })
        } else {
            None
        }
    }

    pub fn syntax(&self) -> (r: &'a SyntaxNode)
        ensures
            r == self.syntax,
    {
        self.syntax
    }
}

impl<'a> ForInStmt<'a> {
    pub fn can_cast(kind: SyntaxKind) -> (r: bool)
        ensures
            r == (kind == SyntaxKind::FOR_IN_STMT),
    {
        kind == SyntaxKind::FOR_IN_STMT
    }

    pub fn cast(syntax: &'a SyntaxNode) -> (r: Option<ForInStmt<'a>>)
        ensures
            r is Some <==> syntax.kind == SyntaxKind::FOR_IN_STMT,
            r is Some ==> r->Some_0.syntax == syntax,
    {
        if syntax.kind == SyntaxKind::FOR_IN_STMT {
            Some(ForInStmt { syntax })
        } else {
            None
        }
    }

    pub fn syntax(&self) -> (r: &'a SyntaxNode)
        ensures
            r == self.syntax,
    {
        self.syntax
    }
}

impl<'a> ContinueStmt<'a> {
    pub fn can_cast(kind: SyntaxKind) -> (r: bool)
        ensures
            r == (kind == SyntaxKind::CONTINUE_STMT),
    {
        kind == SyntaxKind::CONTINUE_STMT
    }

    pub fn cast(syntax: &'a SyntaxNode) -> (r: Option<ContinueStmt<'a>>)
        ensures
            r is Some <==> syntax.kind == SyntaxKind::CONTINUE_STMT,
            r is Some ==> r->Some_0.syntax == syntax,
    {
        if syntax.kind == SyntaxKind::CONTINUE_STMT {
            Some(ContinueStmt { syntax })
        } else {
            None
        }
    }

    pub fn syntax(&self) -> (r: &'a SyntaxNode)
        ensures
            r == self.syntax,
    {
        self.syntax
    }
}

impl<'a> BreakStmt<'a> {
    pub fn can_cast(kind: SyntaxKind) -> (r: bool)
        ensures
            r == (kind == SyntaxKind::BREAK_STMT),
    {
        kind == SyntaxKind::BREAK_STMT
    }

    pub fn cast(syntax: &'a SyntaxNode) -> (r: Option<BreakStmt<'a>>)
        ensures
            r is Some <==> syntax.kind == SyntaxKind::BREAK_STMT,
            r is Some ==> r->Some_0.syntax == syntax,
    {
        if syntax.kind == SyntaxKind::BREAK_STMT {
            Some(BreakStmt { syntax })
        } else {
            None
        }
    }

    pub fn syntax(&self) -> (r: &'a SyntaxNode)
        ensures
            r == self.syntax,
    {
        self.syntax
    }
}

impl<'a> ReturnStmt<'a> {
    pub fn can_cast(kind: SyntaxKind) -> (r: bool)
        ensures
            r == (kind == SyntaxKind::RETURN_STMT),
    {
        kind == SyntaxKind::RETURN_STMT
    }

    pub fn cast(syntax: &'a SyntaxNode) -> (r: Option<ReturnStmt<'a>>)
        ensures
            r is Some <==> syntax.kind == SyntaxKind::RETURN_STMT,
            r is Some ==> r->Some_0.syntax == syntax,
    {
        if syntax.kind == SyntaxKind::RETURN_STMT {
            Some(ReturnStmt { syntax })
        } else {
            None
        }
    }

    pub fn syntax(&self) -> (r: &'a SyntaxNode)
        ensures
            r == self.syntax,
    {
        self.syntax
    }
}

impl<'a> WithStmt<'a> {
    pub fn can_cast(kind: SyntaxKind) -> (r: bool)
        ensures
            r == (kind == SyntaxKind::WITH_STMT),
    {
        kind == SyntaxKind::WITH_STMT
    }

    pub fn cast(syntax: &'a SyntaxNode) -> (r: Option<WithStmt<'a>>)
        ensures
            r is Some <==> syntax.kind == SyntaxKind::WITH_STMT,
            r is Some ==> r->Some_0.syntax == syntax,
    {
        if syntax.kind == SyntaxKind::WITH_STMT {
            Some(WithStmt { syntax })
        } else {
            None
        }
    }

    pub fn syntax(&self) -> (r: &'a SyntaxNode)
        ensures
            r == self.syntax,
    {
        self.syntax
    }
}

impl<'a> LabelledStmt<'a> {
    pub fn can_cast(kind: SyntaxKind) -> (r: bool)
        ensures
            r == (kind == SyntaxKind::LABELLED_STMT),
    {
        kind == SyntaxKind::LABELLED_STMT
    }

    pub fn cast(syntax: &'a SyntaxNode) -> (r: Option<LabelledStmt<'a>>)
        ensures
            r is Some <==> syntax.kind == SyntaxKind::LABELLED_STMT,
            r is Some ==> r->Some_0.syntax == syntax,
    {
        if syntax.kind == SyntaxKind::LABELLED_STMT {
            Some(LabelledStmt { syntax })
        } else {
            None
        }
    }

    pub fn syntax(&self) -> (r: &'a SyntaxNode)
        ensures
            r == self.syntax,
    {
        self.syntax
    }
}

impl<'a> SwitchStmt<'a> {
    pub fn can_cast(kind: SyntaxKind) -> (r: bool)
        ensures
            r == (kind == SyntaxKind::SWITCH_STMT),
    {
        kind == SyntaxKind::SWITCH_STMT
    }

    pub fn cast(syntax: &'a SyntaxNode) -> (r: Option<SwitchStmt<'a>>)
        ensures
            r is Some <==> syntax.kind == SyntaxKind::SWITCH_STMT,
            r is Some ==> r->Some_0.syntax == syntax,
    {
        if syntax.kind == SyntaxKind::SWITCH_STMT {
            Some(SwitchStmt { syntax })
        } else {
            None
        }
    }

    pub fn syntax(&self) -> (r: &'a SyntaxNode)
        ensures
            r == self.syntax,
    {
        self.syntax
    }
}

impl<'a> ThrowStmt<'a> {
    pub fn can_cast(kind: SyntaxKind) -> (r: bool)
        ensures
            r == (kind == SyntaxKind::THROW_STMT),
    {
        kind == SyntaxKind::THROW_STMT
    }

    pub fn cast(syntax: &'a SyntaxNode) -> (r: Option<ThrowStmt<'a>>)
        ensures
            r is Some <==> syntax.kind == SyntaxKind::THROW_STMT,
            r is Some ==> r->Some_0.syntax == syntax,
    {
        if syntax.kind == SyntaxKind::THROW_STMT {
            Some(ThrowStmt { syntax })
        } else {
            None
        }
    }

    pub fn syntax(&self) -> (r: &'a SyntaxNode)
        ensures
            r == self.syntax,
    {
        self.syntax
    }
}

impl<'a> TryStmt<'a> {
    pub fn can_cast(kind: SyntaxKind) -> (r: bool)
        ensures
            r == (kind == SyntaxKind::TRY_STMT),
    {
        kind == SyntaxKind::TRY_STMT
    }

    pub fn cast(syntax: &'a SyntaxNode) -> (r: Option<TryStmt<'a>>)
        ensures
            r is Some <==> syntax.kind == SyntaxKind::TRY_STMT,
            r is Some ==> r->Some_0.syntax == syntax,
    {
        if syntax.kind == SyntaxKind::TRY_STMT {
            Some(TryStmt { syntax })
        } else {
            None
        }
    }

    pub fn syntax(&self) -> (r: &'a SyntaxNode)
        ensures
            r == self.syntax,
    {
        self.syntax
    }
}

impl<'a> DebuggerStmt<'a> {
    pub fn can_cast(kind: SyntaxKind) -> (r: bool)
        ensures
            r == (kind == SyntaxKind::DEBUGGER_STMT),
    {
        kind == SyntaxKind::DEBUGGER_STMT
    }

    pub fn cast(syntax: &'a SyntaxNode) -> (r: Option<DebuggerStmt<'a>>)
        ensures
            r is Some <==> syntax.kind == SyntaxKind::DEBUGGER_STMT,
            r is Some ==> r->Some_0.syntax == syntax,
    {
        if syntax.kind == SyntaxKind::DEBUGGER_STMT {
            Some(DebuggerStmt { syntax })
        } else {
            None
        }
    }

    pub fn syntax(&self) -> (r: &'a SyntaxNode)
        ensures
            r == self.syntax,
    {
        self.syntax
    }
}

impl<'a> FnDecl<'a> {
    pub fn can_cast(kind: SyntaxKind) -> (r: bool)
        ensures
            r == (kind == SyntaxKind::FN_DECL),
    {
        kind == SyntaxKind::FN_DECL
    }

    pub fn cast(syntax: &'a SyntaxNode) -> (r: Option<FnDecl<'a>>)
        ensures
            r is Some <==> syntax.kind == SyntaxKind::FN_DECL,
            r is Some ==> r->Some_0.syntax == syntax,
    {
        if syntax.kind == SyntaxKind::FN_DECL {
            Some(FnDecl { syntax })
        } else {
            None
        }
    }

    pub fn syntax(&self) -> (r: &'a SyntaxNode)
        ensures
            r == self.syntax,
    {
        self.syntax
    }
}

impl<'a> ClassDecl<'a> {
    pub fn can_cast(kind: SyntaxKind) -> (r: bool)
        ensures
            r == (kind == SyntaxKind::CLASS_DECL),
    {
        kind == SyntaxKind::CLASS_DECL
    }

    pub fn cast(syntax: &'a SyntaxNode) -> (r: Option<ClassDecl<'a>>)
        ensures
            r is Some <==> syntax.kind == SyntaxKind::CLASS_DECL,
            r is Some ==> r->Some_0.syntax == syntax,
    {
        if syntax.kind == SyntaxKind::CLASS_DECL {
            Some(ClassDecl { syntax })
        } else {
            None
        }
    }

    pub fn syntax(&self) -> (r: &'a SyntaxNode)
        ensures
            r == self.syntax,
    {
        self.syntax
    }
}

impl<'a> VarDecl<'a> {
    pub fn can_cast(kind: SyntaxKind) -> (r: bool)
        ensures
            r == (kind == SyntaxKind::VAR_DECL),
    {
        kind == SyntaxKind::VAR_DECL
    }

    pub fn cast(syntax: &'a SyntaxNode) -> (r: Option<VarDecl<'a>>)
        ensures
            r is Some <==> syntax.kind == SyntaxKind::VAR_DECL,
            r is Some ==> r->Some_0.syntax == syntax,
    {
        if syntax.kind == SyntaxKind::VAR_DECL {
            Some(VarDecl { syntax })
        } else {
            None
        }
    }

    pub fn syntax(&self) -> (r: &'a SyntaxNode)
        ensures
            r == self.syntax,
    {
        self.syntax
    }
}

impl<'a> NameRef<'a> {
    pub fn can_cast(kind: SyntaxKind) -> (r: bool)
        ensures
            r == (kind == SyntaxKind::NAME_REF),
    {
        kind == SyntaxKind::NAME_REF
    }

    pub fn cast(syntax: &'a SyntaxNode) -> (r: Option<NameRef<'a>>)
        ensures
            r is Some <==> syntax.kind == SyntaxKind::NAME_REF,
            r is Some ==> r->Some_0.syntax == syntax,
    {
        if syntax.kind == SyntaxKind::NAME_REF {
            Some(NameRef { syntax })
        } else {
            None
        }
    }

    pub fn syntax(&self) -> (r: &'a SyntaxNode)
        ensures
            r == self.syntax,
    {
        self.syntax
    }
}

impl<'a> Literal<'a> {
    pub fn can_cast(kind: SyntaxKind) -> (r: bool)
        ensures
            r == (kind == SyntaxKind::LITERAL),
    {
        kind == SyntaxKind::LITERAL
    }

    pub fn cast(syntax: &'a SyntaxNode) -> (r: Option<Literal<'a>>)
        ensures
            r is Some <==> syntax.kind == SyntaxKind::LITERAL,
            r is Some ==> r->Some_0.syntax == syntax,
    {
        if syntax.kind == SyntaxKind::LITERAL {
            Some(Literal { syntax })
        } else {
            None
        }
    }

    pub fn syntax(&self) -> (r: &'a SyntaxNode)
        ensures
            r == self.syntax,
    {
        self.syntax
    }
}

impl<'a> ThisExpr<'a> {
    pub fn can_cast(kind: SyntaxKind) -> (r: bool)
        ensures
            r == (kind == SyntaxKind::THIS_EXPR),
    {
        kind == SyntaxKind::THIS_EXPR
    }

    pub fn cast(syntax: &'a SyntaxNode) -> (r: Option<ThisExpr<'a>>)
        ensures
            r is Some <==> syntax.kind == SyntaxKind::THIS_EXPR,
            r is Some ==> r->Some_0.syntax == syntax,
    {
        if syntax.kind == SyntaxKind::THIS_EXPR {
            Some(ThisExpr { syntax })
        } else {
            None
        }
    }

    pub fn syntax(&self) -> (r: &'a SyntaxNode)
        ensures
            r == self.syntax,
    {
        self.syntax
    }
}

impl<'a> DotExpr<'a> {
    pub fn can_cast(kind: SyntaxKind) -> (r: bool)
        ensures
            r == (kind == SyntaxKind::DOT_EXPR),
    {
        kind == SyntaxKind::DOT_EXPR
    }

    pub fn cast(syntax: &'a SyntaxNode) -> (r: Option<DotExpr<'a>>)
        ensures
            r is Some <==> syntax.kind == SyntaxKind::DOT_EXPR,
            r is Some ==> r->Some_0.syntax == syntax,
    {
        if syntax.kind == SyntaxKind::DOT_EXPR {
            Some(DotExpr { syntax })
        } else {
            None
        }
    }

    pub fn syntax(&self) -> (r: &'a SyntaxNode)
        ensures
            r == self.syntax,
    {
        self.syntax
    }
}

impl<'a> CallExpr<'a> {
    pub fn can_cast(kind: SyntaxKind) -> (r: bool)
        ensures
            r == (kind == SyntaxKind::CALL_EXPR),
    {
        kind == SyntaxKind::CALL_EXPR
    }

    pub fn cast(syntax: &'a SyntaxNode) -> (r: Option<CallExpr<'a>>)
        ensures
            r is Some <==> syntax.kind == SyntaxKind::CALL_EXPR,
            r is Some ==> r->Some_0.syntax == syntax,
    {
        if syntax.kind == SyntaxKind::CALL_EXPR {
            Some(CallExpr { syntax })
        } else {
            None
        }
    }

    pub fn syntax(&self) -> (r: &'a SyntaxNode)
        ensures
            r == self.syntax,
    {
        self.syntax
    }
}

impl<'a> AssignExpr<'a> {
    pub fn can_cast(kind: SyntaxKind) -> (r: bool)
        ensures
            r == (kind == SyntaxKind::ASSIGN_EXPR),
    {
        kind == SyntaxKind::ASSIGN_EXPR
    }

    pub fn cast(syntax: &'a SyntaxNode) -> (r: Option<AssignExpr<'a>>)
        ensures
            r is Some <==> syntax.kind == SyntaxKind::ASSIGN_EXPR,
            r is Some ==> r->Some_0.syntax == syntax,
    {
        if syntax.kind == SyntaxKind::ASSIGN_EXPR {
            Some(AssignExpr { syntax })
        } else {
            None
        }
    }

    pub fn syntax(&self) -> (r: &'a SyntaxNode)
        ensures
            r == self.syntax,
    {
        self.syntax
    }
}

impl<'a> FnExpr<'a> {
    pub fn can_cast(kind: SyntaxKind) -> (r: bool)
        ensures
            r == (kind == SyntaxKind::FN_EXPR),
    {
        kind == SyntaxKind::FN_EXPR
    }

    pub fn cast(syntax: &'a SyntaxNode) -> (r: Option<FnExpr<'a>>)
        ensures
            r is Some <==> syntax.kind == SyntaxKind::FN_EXPR,
            r is Some ==> r->Some_0.syntax == syntax,
    {
        if syntax.kind == SyntaxKind::FN_EXPR {
            Some(FnExpr { syntax })
        } else {
            None
        }
    }

    pub fn syntax(&self) -> (r: &'a SyntaxNode)
        ensures
            r == self.syntax,
    {
        self.syntax
    }
}

impl<'a> ClassExpr<'a> {
    pub fn can_cast(kind: SyntaxKind) -> (r: bool)
        ensures
            r == (kind == SyntaxKind::CLASS_EXPR),
    {
        kind == SyntaxKind::CLASS_EXPR
    }

    pub fn cast(syntax: &'a SyntaxNode) -> (r: Option<ClassExpr<'a>>)
        ensures
            r is Some <==> syntax.kind == SyntaxKind::CLASS_EXPR,
            r is Some ==> r->Some_0.syntax == syntax,
    {
        if syntax.kind == SyntaxKind::CLASS_EXPR {
            Some(ClassExpr { syntax })
        } else {
            None
        }
    }

    pub fn syntax(&self) -> (r: &'a SyntaxNode)
        ensures
            r == self.syntax,
    {
        self.syntax
    }
}

impl<'a> ArrowExpr<'a> {
    pub fn can_cast(kind: SyntaxKind) -> (r: bool)
        ensures
            r == (kind == SyntaxKind::ARROW_EXPR),
    {
        kind == SyntaxKind::ARROW_EXPR
    }

    pub fn cast(syntax: &'a SyntaxNode) -> (r: Option<ArrowExpr<'a>>)
        ensures
            r is Some <==> syntax.kind == SyntaxKind::ARROW_EXPR,
            r is Some ==> r->Some_0.syntax == syntax,
    {
        if syntax.kind == SyntaxKind::ARROW_EXPR {
            Some(ArrowExpr { syntax })
        } else {
            None
        }
    }

    pub fn syntax(&self) -> (r: &'a SyntaxNode)
        ensures
            r == self.syntax,
    {
        self.syntax
    }
}

impl<'a> ImportDecl<'a> {
    pub fn can_cast(kind: SyntaxKind) -> (r: bool)
        ensures
            r == (kind == SyntaxKind::IMPORT_DECL),
    {
        kind == SyntaxKind::IMPORT_DECL
    }

    pub fn cast(syntax: &'a SyntaxNode) -> (r: Option<ImportDecl<'a>>)
        ensures
            r is Some <==> syntax.kind == SyntaxKind::IMPORT_DECL,
            r is Some ==> r->Some_0.syntax == syntax,
    {
        if syntax.kind == SyntaxKind::IMPORT_DECL {
            Some(ImportDecl { syntax })
        } else {
            None
        }
    }

    pub fn syntax(&self) -> (r: &'a SyntaxNode)
        ensures
            r == self.syntax,
    {
        self.syntax
    }
}

impl<'a> Specifier<'a> {
    pub fn can_cast(kind: SyntaxKind) -> (r: bool)
        ensures
            r == (kind == SyntaxKind::SPECIFIER),
    {
        kind == SyntaxKind::SPECIFIER
    }

    pub fn cast(syntax: &'a SyntaxNode) -> (r: Option<Specifier<'a>>)
        ensures
            r is Some <==> syntax.kind == SyntaxKind::SPECIFIER,
            r is Some ==> r->Some_0.syntax == syntax,
    {
        if syntax.kind == SyntaxKind::SPECIFIER {
            Some(Specifier { syntax })
        } else {
            None
        }
    }

    pub fn syntax(&self) -> (r: &'a SyntaxNode)
        ensures
            r == self.syntax,
    {
        self.syntax
    }
}

impl<'a> WildcardImport<'a> {
    pub fn can_cast(kind: SyntaxKind) -> (r: bool)
        ensures
            r == (kind == SyntaxKind::WILDCARD_IMPORT),
    {
        kind == SyntaxKind::WILDCARD_IMPORT
    }

    pub fn cast(syntax: &'a SyntaxNode) -> (r: Option<WildcardImport<'a>>)
        ensures
            r is Some <==> syntax.kind == SyntaxKind::WILDCARD_IMPORT,
            r is Some ==> r->Some_0.syntax == syntax,
    {
        if syntax.kind == SyntaxKind::WILDCARD_IMPORT {
            Some(WildcardImport { syntax })
        } else {
            None
        }
    }

    pub fn syntax(&self) -> (r: &'a SyntaxNode)
        ensures
            r == self.syntax,
    {
        self.syntax
    }
}

impl<'a> Name<'a> {
    pub fn can_cast(kind: SyntaxKind) -> (r: bool)
        ensures
            r == (kind == SyntaxKind::NAME),
    {
        kind == SyntaxKind::NAME
    }

    pub fn cast(syntax: &'a SyntaxNode) -> (r: Option<Name<'a>>)
        ensures
            r is Some <==> syntax.kind == SyntaxKind::NAME,
            r is Some ==> r->Some_0.syntax == syntax,
    {
        if syntax.kind == SyntaxKind::NAME {
            Some(Name { syntax })
        } else {
            None
        }
    }

    pub fn syntax(&self) -> (r: &'a SyntaxNode)
        ensures
            r == self.syntax,
    {
        self.syntax
    }
}

/// Kinds that the statement list names one by one.
pub open spec fn is_stmt_kind(k: SyntaxKind) -> bool {
    k == SyntaxKind::BLOCK_STMT
            || k == SyntaxKind::EMPTY_STMT
            || k == SyntaxKind::EXPR_STMT
            || k == SyntaxKind::IF_STMT
            || k == SyntaxKind::DO_WHILE_STMT
            || k == SyntaxKind::WHILE_STMT
            || k == SyntaxKind::FOR_STMT
            || k == SyntaxKind::FOR_IN_STMT
            || k == SyntaxKind::CONTINUE_STMT
            || k == SyntaxKind::BREAK_STMT
            || k == SyntaxKind::RETURN_STMT
            || k == SyntaxKind::WITH_STMT
            || k == SyntaxKind::LABELLED_STMT
            || k == SyntaxKind::SWITCH_STMT
            || k == SyntaxKind::THROW_STMT
            || k == SyntaxKind::TRY_STMT
            || k == SyntaxKind::DEBUGGER_STMT
}

/// Kinds of declarations.
pub open spec fn is_decl_kind(k: SyntaxKind) -> bool {
    k == SyntaxKind::FN_DECL
            || k == SyntaxKind::CLASS_DECL
            || k == SyntaxKind::VAR_DECL
}

/// Kinds of expressions.
pub open spec fn is_expr_kind(k: SyntaxKind) -> bool {
    k == SyntaxKind::NAME_REF
            || k == SyntaxKind::LITERAL
            || k == SyntaxKind::THIS_EXPR
            || k == SyntaxKind::DOT_EXPR
            || k == SyntaxKind::CALL_EXPR
            || k == SyntaxKind::ASSIGN_EXPR
            || k == SyntaxKind::FN_EXPR
            || k == SyntaxKind::CLASS_EXPR
            || k == SyntaxKind::ARROW_EXPR
}

/// A declaration.
#[derive(Clone, Copy)]
pub enum Decl<'a> {
    FnDecl(FnDecl<'a>),
    ClassDecl(ClassDecl<'a>),
    VarDecl(VarDecl<'a>),
}

impl<'a> Decl<'a> {
    /// The kind that this variant stands for.
    pub open spec fn variant_kind(self) -> SyntaxKind {
        match self {
            Decl::FnDecl(_) => SyntaxKind::FN_DECL,
            Decl::ClassDecl(_) => SyntaxKind::CLASS_DECL,
            Decl::VarDecl(_) => SyntaxKind::VAR_DECL,
        }
    }

    pub open spec fn spec_syntax(self) -> &'a SyntaxNode {
        match self {
            Decl::FnDecl(it) => it.syntax,
            Decl::ClassDecl(it) => it.syntax,
            Decl::VarDecl(it) => it.syntax,
        }
    }

    pub fn can_cast(kind: SyntaxKind) -> (r: bool)
        ensures
            r == is_decl_kind(kind),
    {
        match kind {
            SyntaxKind::FN_DECL
            | SyntaxKind::CLASS_DECL
            | SyntaxKind::VAR_DECL => true,
            _ => false,
        }
    }

    /// The view of `syntax` as the variant that its kind names.
    /// What `cast` gives for a node.
    pub open spec fn spec_cast(syntax: &'a SyntaxNode) -> Option<Decl<'a>> 
    {
        match syntax.kind {
            SyntaxKind::FN_DECL => Some(Decl::FnDecl(FnDecl { syntax })),
            SyntaxKind::CLASS_DECL => Some(Decl::ClassDecl(ClassDecl { syntax })),
            SyntaxKind::VAR_DECL => Some(Decl::VarDecl(VarDecl { syntax })),
            _ => None,
        }
    }
    pub fn cast(syntax: &'a SyntaxNode) -> (r: Option<Decl<'a>>)
        ensures
            r is Some <==> is_decl_kind(syntax.kind),
            r is Some ==> r->Some_0.spec_syntax() == syntax && r->Some_0.variant_kind()
                == syntax.kind,
            r == Self::spec_cast(syntax),
    {
        match syntax.kind {
            SyntaxKind::FN_DECL => Some(Decl::FnDecl(FnDecl { syntax })),
            SyntaxKind::CLASS_DECL => Some(Decl::ClassDecl(ClassDecl { syntax })),
            SyntaxKind::VAR_DECL => Some(Decl::VarDecl(VarDecl { syntax })),
            _ => None,
        }
    }

    /// The node under the view.
    pub fn syntax(&self) -> (r: &'a SyntaxNode)
        ensures
            r == self.spec_syntax(),
    {
        match self {
            Decl::FnDecl(it) => it.syntax,
            Decl::ClassDecl(it) => it.syntax,
            Decl::VarDecl(it) => it.syntax,
        }
    }
}

/// An expression.
#[derive(Clone, Copy)]
pub enum Expr<'a> {
    NameRef(NameRef<'a>),
    Literal(Literal<'a>),
    ThisExpr(ThisExpr<'a>),
    DotExpr(DotExpr<'a>),
    CallExpr(CallExpr<'a>),
    AssignExpr(AssignExpr<'a>),
    FnExpr(FnExpr<'a>),
    ClassExpr(ClassExpr<'a>),
    ArrowExpr(ArrowExpr<'a>),
}

impl<'a> Expr<'a> {
    /// The kind that this variant stands for.
    pub open spec fn variant_kind(self) -> SyntaxKind {
        match self {
            Expr::NameRef(_) => SyntaxKind::NAME_REF,
            Expr::Literal(_) => SyntaxKind::LITERAL,
            Expr::ThisExpr(_) => SyntaxKind::THIS_EXPR,
            Expr::DotExpr(_) => SyntaxKind::DOT_EXPR,
            Expr::CallExpr(_) => SyntaxKind::CALL_EXPR,
            Expr::AssignExpr(_) => SyntaxKind::ASSIGN_EXPR,
            Expr::FnExpr(_) => SyntaxKind::FN_EXPR,
            Expr::ClassExpr(_) => SyntaxKind::CLASS_EXPR,
            Expr::ArrowExpr(_) => SyntaxKind::ARROW_EXPR,
        }
    }

    pub open spec fn spec_syntax(self) -> &'a SyntaxNode {
        match self {
            Expr::NameRef(it) => it.syntax,
            Expr::Literal(it) => it.syntax,
            Expr::ThisExpr(it) => it.syntax,
            Expr::DotExpr(it) => it.syntax,
            Expr::CallExpr(it) => it.syntax,
            Expr::AssignExpr(it) => it.syntax,
            Expr::FnExpr(it) => it.syntax,
            Expr::ClassExpr(it) => it.syntax,
            Expr::ArrowExpr(it) => it.syntax,
        }
    }

    pub fn can_cast(kind: SyntaxKind) -> (r: bool)
        ensures
            r == is_expr_kind(kind),
    {
        match kind {
            SyntaxKind::NAME_REF
            | SyntaxKind::LITERAL
            | SyntaxKind::THIS_EXPR
            | SyntaxKind::DOT_EXPR
            | SyntaxKind::CALL_EXPR
            | SyntaxKind::ASSIGN_EXPR
            | SyntaxKind::FN_EXPR
            | SyntaxKind::CLASS_EXPR
            | SyntaxKind::ARROW_EXPR => true,
            _ => false,
        }
    }

    /// The view of `syntax` as the variant that its kind names.
    /// What `cast` gives for a node.
    pub open spec fn spec_cast(syntax: &'a SyntaxNode) -> Option<Expr<'a>> 
    {
        match syntax.kind {
            SyntaxKind::NAME_REF => Some(Expr::NameRef(NameRef { syntax })),
            SyntaxKind::LITERAL => Some(Expr::Literal(Literal { syntax })),
            SyntaxKind::THIS_EXPR => Some(Expr::ThisExpr(ThisExpr { syntax })),
            SyntaxKind::DOT_EXPR => Some(Expr::DotExpr(DotExpr { syntax })),
            SyntaxKind::CALL_EXPR => Some(Expr::CallExpr(CallExpr { syntax })),
            SyntaxKind::ASSIGN_EXPR => Some(Expr::AssignExpr(AssignExpr { syntax })),
            SyntaxKind::FN_EXPR => Some(Expr::FnExpr(FnExpr { syntax })),
            SyntaxKind::CLASS_EXPR => Some(Expr::ClassExpr(ClassExpr { syntax })),
            SyntaxKind::ARROW_EXPR => Some(Expr::ArrowExpr(ArrowExpr { syntax })),
            _ => None,
        }
    }
    pub fn cast(syntax: &'a SyntaxNode) -> (r: Option<Expr<'a>>)
        ensures
            r is Some <==> is_expr_kind(syntax.kind),
            r is Some ==> r->Some_0.spec_syntax() == syntax && r->Some_0.variant_kind()
                == syntax.kind,
            r == Self::spec_cast(syntax),
    {
        match syntax.kind {
            SyntaxKind::NAME_REF => Some(Expr::NameRef(NameRef { syntax })),
            SyntaxKind::LITERAL => Some(Expr::Literal(Literal { syntax })),
            SyntaxKind::THIS_EXPR => Some(Expr::ThisExpr(ThisExpr { syntax })),
            SyntaxKind::DOT_EXPR => Some(Expr::DotExpr(DotExpr { syntax })),
            SyntaxKind::CALL_EXPR => Some(Expr::CallExpr(CallExpr { syntax })),
            SyntaxKind::ASSIGN_EXPR => Some(Expr::AssignExpr(AssignExpr { syntax })),
            SyntaxKind::FN_EXPR => Some(Expr::FnExpr(FnExpr { syntax })),
            SyntaxKind::CLASS_EXPR => Some(Expr::ClassExpr(ClassExpr { syntax })),
            SyntaxKind::ARROW_EXPR => Some(Expr::ArrowExpr(ArrowExpr { syntax })),
            _ => None,
        }
    }

    /// The node under the view.
    pub fn syntax(&self) -> (r: &'a SyntaxNode)
        ensures
            r == self.spec_syntax(),
    {
        match self {
            Expr::NameRef(it) => it.syntax,
            Expr::Literal(it) => it.syntax,
            Expr::ThisExpr(it) => it.syntax,
            Expr::DotExpr(it) => it.syntax,
            Expr::CallExpr(it) => it.syntax,
            Expr::AssignExpr(it) => it.syntax,
            Expr::FnExpr(it) => it.syntax,
            Expr::ClassExpr(it) => it.syntax,
            Expr::ArrowExpr(it) => it.syntax,
        }
    }
}

/// A statement. A declaration is a statement too.
#[derive(Clone, Copy)]
pub enum Stmt<'a> {
    BlockStmt(BlockStmt<'a>),
    EmptyStmt(EmptyStmt<'a>),
    ExprStmt(ExprStmt<'a>),
    IfStmt(IfStmt<'a>),
    DoWhileStmt(DoWhileStmt<'a>),
    WhileStmt(WhileStmt<'a>),
    ForStmt(ForStmt<'a>),
    ForInStmt(ForInStmt<'a>),
    ContinueStmt(ContinueStmt<'a>),
    BreakStmt(BreakStmt<'a>),
    ReturnStmt(ReturnStmt<'a>),
    WithStmt(WithStmt<'a>),
    LabelledStmt(LabelledStmt<'a>),
    SwitchStmt(SwitchStmt<'a>),
    ThrowStmt(ThrowStmt<'a>),
    TryStmt(TryStmt<'a>),
    DebuggerStmt(DebuggerStmt<'a>),
    Decl(Decl<'a>),
}

impl<'a> Stmt<'a> {
    pub open spec fn spec_can_cast(kind: SyntaxKind) -> bool {
        is_stmt_kind(kind) || is_decl_kind(kind)
    }

    /// The listed statement kind that this variant stands for; none for `Decl`.
    pub open spec fn variant_kind(self) -> Option<SyntaxKind> {
        match self {
            Stmt::BlockStmt(_) => Some(SyntaxKind::BLOCK_STMT),
            Stmt::EmptyStmt(_) => Some(SyntaxKind::EMPTY_STMT),
            Stmt::ExprStmt(_) => Some(SyntaxKind::EXPR_STMT),
            Stmt::IfStmt(_) => Some(SyntaxKind::IF_STMT),
            Stmt::DoWhileStmt(_) => Some(SyntaxKind::DO_WHILE_STMT),
            Stmt::WhileStmt(_) => Some(SyntaxKind::WHILE_STMT),
            Stmt::ForStmt(_) => Some(SyntaxKind::FOR_STMT),
            Stmt::ForInStmt(_) => Some(SyntaxKind::FOR_IN_STMT),
            Stmt::ContinueStmt(_) => Some(SyntaxKind::CONTINUE_STMT),
            Stmt::BreakStmt(_) => Some(SyntaxKind::BREAK_STMT),
            Stmt::ReturnStmt(_) => Some(SyntaxKind::RETURN_STMT),
            Stmt::WithStmt(_) => Some(SyntaxKind::WITH_STMT),
            Stmt::LabelledStmt(_) => Some(SyntaxKind::LABELLED_STMT),
            Stmt::SwitchStmt(_) => Some(SyntaxKind::SWITCH_STMT),
            Stmt::ThrowStmt(_) => Some(SyntaxKind::THROW_STMT),
            Stmt::TryStmt(_) => Some(SyntaxKind::TRY_STMT),
            Stmt::DebuggerStmt(_) => Some(SyntaxKind::DEBUGGER_STMT),
            Stmt::Decl(_) => None,
        }
    }

    pub open spec fn spec_syntax(self) -> &'a SyntaxNode {
        match self {
            Stmt::BlockStmt(it) => it.syntax,
            Stmt::EmptyStmt(it) => it.syntax,
            Stmt::ExprStmt(it) => it.syntax,
            Stmt::IfStmt(it) => it.syntax,
            Stmt::DoWhileStmt(it) => it.syntax,
            Stmt::WhileStmt(it) => it.syntax,
            Stmt::ForStmt(it) => it.syntax,
            Stmt::ForInStmt(it) => it.syntax,
            Stmt::ContinueStmt(it) => it.syntax,
            Stmt::BreakStmt(it) => it.syntax,
            Stmt::ReturnStmt(it) => it.syntax,
            Stmt::WithStmt(it) => it.syntax,
            Stmt::LabelledStmt(it) => it.syntax,
            Stmt::SwitchStmt(it) => it.syntax,
            Stmt::ThrowStmt(it) => it.syntax,
            Stmt::TryStmt(it) => it.syntax,
            Stmt::DebuggerStmt(it) => it.syntax,
            Stmt::Decl(d) => d.spec_syntax(),
        }
    }

    pub fn can_cast(kind: SyntaxKind) -> (r: bool)
        ensures
            r == Self::spec_can_cast(kind),
    {
        match kind {
            SyntaxKind::BLOCK_STMT
            | SyntaxKind::EMPTY_STMT
            | SyntaxKind::EXPR_STMT
            | SyntaxKind::IF_STMT
            | SyntaxKind::DO_WHILE_STMT
            | SyntaxKind::WHILE_STMT
            | SyntaxKind::FOR_STMT
            | SyntaxKind::FOR_IN_STMT
            | SyntaxKind::CONTINUE_STMT
            | SyntaxKind::BREAK_STMT
            | SyntaxKind::RETURN_STMT
            | SyntaxKind::WITH_STMT
            | SyntaxKind::LABELLED_STMT
            | SyntaxKind::SWITCH_STMT
            | SyntaxKind::THROW_STMT
            | SyntaxKind::TRY_STMT
            | SyntaxKind::DEBUGGER_STMT => true,
            t => Decl::can_cast(t),
        }
    }

    /// The view of `syntax` as a statement: the listed statement kinds first, then
    /// a declaration.
    /// What `cast` gives for a node.
    pub open spec fn spec_cast(syntax: &'a SyntaxNode) -> Option<Stmt<'a>> 
    {
        match syntax.kind {
            SyntaxKind::BLOCK_STMT => Some(Stmt::BlockStmt(BlockStmt { syntax })),
            SyntaxKind::EMPTY_STMT => Some(Stmt::EmptyStmt(EmptyStmt { syntax })),
            SyntaxKind::EXPR_STMT => Some(Stmt::ExprStmt(ExprStmt { syntax })),
            SyntaxKind::IF_STMT => Some(Stmt::IfStmt(IfStmt { syntax })),
            SyntaxKind::DO_WHILE_STMT => Some(Stmt::DoWhileStmt(DoWhileStmt { syntax })),
            SyntaxKind::WHILE_STMT => Some(Stmt::WhileStmt(WhileStmt { syntax })),
            SyntaxKind::FOR_STMT => Some(Stmt::ForStmt(ForStmt { syntax })),
            SyntaxKind::FOR_IN_STMT => Some(Stmt::ForInStmt(ForInStmt { syntax })),
            SyntaxKind::CONTINUE_STMT => Some(Stmt::ContinueStmt(ContinueStmt { syntax })),
            SyntaxKind::BREAK_STMT => Some(Stmt::BreakStmt(BreakStmt { syntax })),
            SyntaxKind::RETURN_STMT => Some(Stmt::ReturnStmt(ReturnStmt { syntax })),
            SyntaxKind::WITH_STMT => Some(Stmt::WithStmt(WithStmt { syntax })),
            SyntaxKind::LABELLED_STMT => Some(Stmt::LabelledStmt(LabelledStmt { syntax })),
            SyntaxKind::SWITCH_STMT => Some(Stmt::SwitchStmt(SwitchStmt { syntax })),
            SyntaxKind::THROW_STMT => Some(Stmt::ThrowStmt(ThrowStmt { syntax })),
            SyntaxKind::TRY_STMT => Some(Stmt::TryStmt(TryStmt { syntax })),
            SyntaxKind::DEBUGGER_STMT => Some(Stmt::DebuggerStmt(DebuggerStmt { syntax })),
            _ => match Decl::spec_cast(syntax) {
                Some(d) => Some(Stmt::Decl(d)),
                None => None,
            },
        }
    }
    pub fn cast(syntax: &'a SyntaxNode) -> (r: Option<Stmt<'a>>)
        ensures
            r is Some <==> Self::spec_can_cast(syntax.kind),
            r is Some ==> r->Some_0.spec_syntax() == syntax,
            r is Some ==> r->Some_0.variant_kind() == (if is_stmt_kind(syntax.kind) {
                Some(syntax.kind)
            } else {
                None
            }),
            r == Self::spec_cast(syntax),
    {
        match syntax.kind {
            SyntaxKind::BLOCK_STMT => Some(Stmt::BlockStmt(BlockStmt { syntax })),
            SyntaxKind::EMPTY_STMT => Some(Stmt::EmptyStmt(EmptyStmt { syntax })),
            SyntaxKind::EXPR_STMT => Some(Stmt::ExprStmt(ExprStmt { syntax })),
            SyntaxKind::IF_STMT => Some(Stmt::IfStmt(IfStmt { syntax })),
            SyntaxKind::DO_WHILE_STMT => Some(Stmt::DoWhileStmt(DoWhileStmt { syntax })),
            SyntaxKind::WHILE_STMT => Some(Stmt::WhileStmt(WhileStmt { syntax })),
            SyntaxKind::FOR_STMT => Some(Stmt::ForStmt(ForStmt { syntax })),
            SyntaxKind::FOR_IN_STMT => Some(Stmt::ForInStmt(ForInStmt { syntax })),
            SyntaxKind::CONTINUE_STMT => Some(Stmt::ContinueStmt(ContinueStmt { syntax })),
            SyntaxKind::BREAK_STMT => Some(Stmt::BreakStmt(BreakStmt { syntax })),
            SyntaxKind::RETURN_STMT => Some(Stmt::ReturnStmt(ReturnStmt { syntax })),
            SyntaxKind::WITH_STMT => Some(Stmt::WithStmt(WithStmt { syntax })),
            SyntaxKind::LABELLED_STMT => Some(Stmt::LabelledStmt(LabelledStmt { syntax })),
            SyntaxKind::SWITCH_STMT => Some(Stmt::SwitchStmt(SwitchStmt { syntax })),
            SyntaxKind::THROW_STMT => Some(Stmt::ThrowStmt(ThrowStmt { syntax })),
            SyntaxKind::TRY_STMT => Some(Stmt::TryStmt(TryStmt { syntax })),
            SyntaxKind::DEBUGGER_STMT => Some(Stmt::DebuggerStmt(DebuggerStmt { syntax })),
            _ => match Decl::cast(syntax) {
                Some(d) => Some(Stmt::Decl(d)),
                None => None,
            },
        }
    }

    /// The node under the view.
    pub fn syntax(&self) -> (r: &'a SyntaxNode)
        ensures
            r == self.spec_syntax(),
    {
        match self {
            Stmt::BlockStmt(it) => it.syntax,
            Stmt::EmptyStmt(it) => it.syntax,
            Stmt::ExprStmt(it) => it.syntax,
            Stmt::IfStmt(it) => it.syntax,
            Stmt::DoWhileStmt(it) => it.syntax,
            Stmt::WhileStmt(it) => it.syntax,
            Stmt::ForStmt(it) => it.syntax,
            Stmt::ForInStmt(it) => it.syntax,
            Stmt::ContinueStmt(it) => it.syntax,
            Stmt::BreakStmt(it) => it.syntax,
            Stmt::ReturnStmt(it) => it.syntax,
            Stmt::WithStmt(it) => it.syntax,
            Stmt::LabelledStmt(it) => it.syntax,
            Stmt::SwitchStmt(it) => it.syntax,
            Stmt::ThrowStmt(it) => it.syntax,
            Stmt::TryStmt(it) => it.syntax,
            Stmt::DebuggerStmt(it) => it.syntax,
            Stmt::Decl(d) => d.syntax(),
        }
    }

    /// The source text of the statement.
    pub fn text(&self) -> (r: String)
        ensures
            r@ == node_text(*self.spec_syntax()),
    {
        self.syntax().text()
    }
}

impl<'a> From<BlockStmt<'a>> for Stmt<'a> {
    fn from(node: BlockStmt<'a>) -> (r: Stmt<'a>)
        ensures
            r == Stmt::BlockStmt(node),
    {
        Stmt::BlockStmt(node)
    }
}

impl<'a> vstd::std_specs::convert::FromSpecImpl<BlockStmt<'a>> for Stmt<'a> {
    open spec fn obeys_from_spec() -> bool {
        true
    }

    open spec fn from_spec(node: BlockStmt<'a>) -> Stmt<'a> {
        Stmt::BlockStmt(node)
    }
}

impl<'a> From<EmptyStmt<'a>> for Stmt<'a> {
    fn from(node: EmptyStmt<'a>) -> (r: Stmt<'a>)
        ensures
            r == Stmt::EmptyStmt(node),
    {
        Stmt::EmptyStmt(node)
    }
}

impl<'a> vstd::std_specs::convert::FromSpecImpl<EmptyStmt<'a>> for Stmt<'a> {
    open spec fn obeys_from_spec() -> bool {
        true
    }

    open spec fn from_spec(node: EmptyStmt<'a>) -> Stmt<'a> {
        Stmt::EmptyStmt(node)
    }
}

impl<'a> From<ExprStmt<'a>> for Stmt<'a> {
    fn from(node: ExprStmt<'a>) -> (r: Stmt<'a>)
        ensures
            r == Stmt::ExprStmt(node),
    {
        Stmt::ExprStmt(node)
    }
}

impl<'a> vstd::std_specs::convert::FromSpecImpl<ExprStmt<'a>> for Stmt<'a> {
    open spec fn obeys_from_spec() -> bool {
        true
    }

    open spec fn from_spec(node: ExprStmt<'a>) -> Stmt<'a> {
        Stmt::ExprStmt(node)
    }
}

impl<'a> From<IfStmt<'a>> for Stmt<'a> {
    fn from(node: IfStmt<'a>) -> (r: Stmt<'a>)
        ensures
            r == Stmt::IfStmt(node),
    {
        Stmt::IfStmt(node)
    }
}

impl<'a> vstd::std_specs::convert::FromSpecImpl<IfStmt<'a>> for Stmt<'a> {
    open spec fn obeys_from_spec() -> bool {
        true
    }

    open spec fn from_spec(node: IfStmt<'a>) -> Stmt<'a> {
        Stmt::IfStmt(node)
    }
}

impl<'a> From<DoWhileStmt<'a>> for Stmt<'a> {
    fn from(node: DoWhileStmt<'a>) -> (r: Stmt<'a>)
        ensures
            r == Stmt::DoWhileStmt(node),
    {
        Stmt::DoWhileStmt(node)
    }
}

impl<'a> vstd::std_specs::convert::FromSpecImpl<DoWhileStmt<'a>> for Stmt<'a> {
    open spec fn obeys_from_spec() -> bool {
        true
    }

    open spec fn from_spec(node: DoWhileStmt<'a>) -> Stmt<'a> {
        Stmt::DoWhileStmt(node)
    }
}

impl<'a> From<WhileStmt<'a>> for Stmt<'a> {
    fn from(node: WhileStmt<'a>) -> (r: Stmt<'a>)
        ensures
            r == Stmt::WhileStmt(node),
    {
        Stmt::WhileStmt(node)
    }
}

impl<'a> vstd::std_specs::convert::FromSpecImpl<WhileStmt<'a>> for Stmt<'a> {
    open spec fn obeys_from_spec() -> bool {
        true
    }

    open spec fn from_spec(node: WhileStmt<'a>) -> Stmt<'a> {
        Stmt::WhileStmt(node)
    }
}

impl<'a> From<ForStmt<'a>> for Stmt<'a> {
    fn from(node: ForStmt<'a>) -> (r: Stmt<'a>)
        ensures
            r == Stmt::ForStmt(node),
    {
        Stmt::ForStmt(node)
    }
}

impl<'a> vstd::std_specs::convert::FromSpecImpl<ForStmt<'a>> for Stmt<'a> {
    open spec fn obeys_from_spec() -> bool {
        true
    }

    open spec fn from_spec(node: ForStmt<'a>) -> Stmt<'a> {
        Stmt::ForStmt(node)
    }
}

impl<'a> From<ForInStmt<'a>> for Stmt<'a> {
    fn from(node: ForInStmt<'a>) -> (r: Stmt<'a>)
        ensures
            r == Stmt::ForInStmt(node),
    {
        Stmt::ForInStmt(node)
    }
}

impl<'a> vstd::std_specs::convert::FromSpecImpl<ForInStmt<'a>> for Stmt<'a> {
    open spec fn obeys_from_spec() -> bool {
        true
    }

    open spec fn from_spec(node: ForInStmt<'a>) -> Stmt<'a> {
        Stmt::ForInStmt(node)
    }
}

impl<'a> From<ContinueStmt<'a>> for Stmt<'a> {
    fn from(node: ContinueStmt<'a>) -> (r: Stmt<'a>)
        ensures
            r == Stmt::ContinueStmt(node),
    {
        Stmt::ContinueStmt(node)
    }
}

impl<'a> vstd::std_specs::convert::FromSpecImpl<ContinueStmt<'a>> for Stmt<'a> {
    open spec fn obeys_from_spec() -> bool {
        true
    }

    open spec fn from_spec(node: ContinueStmt<'a>) -> Stmt<'a> {
        Stmt::ContinueStmt(node)
    }
}

impl<'a> From<BreakStmt<'a>> for Stmt<'a> {
    fn from(node: BreakStmt<'a>) -> (r: Stmt<'a>)
        ensures
            r == Stmt::BreakStmt(node),
    {
        Stmt::BreakStmt(node)
    }
}

impl<'a> vstd::std_specs::convert::FromSpecImpl<BreakStmt<'a>> for Stmt<'a> {
    open spec fn obeys_from_spec() -> bool {
        true
    }

    open spec fn from_spec(node: BreakStmt<'a>) -> Stmt<'a> {
        Stmt::BreakStmt(node)
    }
}

impl<'a> From<ReturnStmt<'a>> for Stmt<'a> {
    fn from(node: ReturnStmt<'a>) -> (r: Stmt<'a>)
        ensures
            r == Stmt::ReturnStmt(node),
    {
        Stmt::ReturnStmt(node)
    }
}

impl<'a> vstd::std_specs::convert::FromSpecImpl<ReturnStmt<'a>> for Stmt<'a> {
    open spec fn obeys_from_spec() -> bool {
        true
    }

    open spec fn from_spec(node: ReturnStmt<'a>) -> Stmt<'a> {
        Stmt::ReturnStmt(node)
    }
}

impl<'a> From<WithStmt<'a>> for Stmt<'a> {
    fn from(node: WithStmt<'a>) -> (r: Stmt<'a>)
        ensures
            r == Stmt::WithStmt(node),
    {
        Stmt::WithStmt(node)
    }
}

impl<'a> vstd::std_specs::convert::FromSpecImpl<WithStmt<'a>> for Stmt<'a> {
    open spec fn obeys_from_spec() -> bool {
        true
    }

    open spec fn from_spec(node: WithStmt<'a>) -> Stmt<'a> {
        Stmt::WithStmt(node)
    }
}

impl<'a> From<LabelledStmt<'a>> for Stmt<'a> {
    fn from(node: LabelledStmt<'a>) -> (r: Stmt<'a>)
        ensures
            r == Stmt::LabelledStmt(node),
    {
        Stmt::LabelledStmt(node)
    }
}

impl<'a> vstd::std_specs::convert::FromSpecImpl<LabelledStmt<'a>> for Stmt<'a> {
    open spec fn obeys_from_spec() -> bool {
        true
    }

    open spec fn from_spec(node: LabelledStmt<'a>) -> Stmt<'a> {
        Stmt::LabelledStmt(node)
    }
}

impl<'a> From<SwitchStmt<'a>> for Stmt<'a> {
    fn from(node: SwitchStmt<'a>) -> (r: Stmt<'a>)
        ensures
            r == Stmt::SwitchStmt(node),
    {
        Stmt::SwitchStmt(node)
    }
}

impl<'a> vstd::std_specs::convert::FromSpecImpl<SwitchStmt<'a>> for Stmt<'a> {
    open spec fn obeys_from_spec() -> bool {
        true
    }

    open spec fn from_spec(node: SwitchStmt<'a>) -> Stmt<'a> {
        Stmt::SwitchStmt(node)
    }
}

impl<'a> From<ThrowStmt<'a>> for Stmt<'a> {
    fn from(node: ThrowStmt<'a>) -> (r: Stmt<'a>)
        ensures
            r == Stmt::ThrowStmt(node),
    {
        Stmt::ThrowStmt(node)
    }
}

impl<'a> vstd::std_specs::convert::FromSpecImpl<ThrowStmt<'a>> for Stmt<'a> {
    open spec fn obeys_from_spec() -> bool {
        true
    }

    open spec fn from_spec(node: ThrowStmt<'a>) -> Stmt<'a> {
        Stmt::ThrowStmt(node)
    }
}

impl<'a> From<TryStmt<'a>> for Stmt<'a> {
    fn from(node: TryStmt<'a>) -> (r: Stmt<'a>)
        ensures
            r == Stmt::TryStmt(node),
    {
        Stmt::TryStmt(node)
    }
}

impl<'a> vstd::std_specs::convert::FromSpecImpl<TryStmt<'a>> for Stmt<'a> {
    open spec fn obeys_from_spec() -> bool {
        true
    }

    open spec fn from_spec(node: TryStmt<'a>) -> Stmt<'a> {
        Stmt::TryStmt(node)
    }
}

impl<'a> From<DebuggerStmt<'a>> for Stmt<'a> {
    fn from(node: DebuggerStmt<'a>) -> (r: Stmt<'a>)
        ensures
            r == Stmt::DebuggerStmt(node),
    {
        Stmt::DebuggerStmt(node)
    }
}

impl<'a> vstd::std_specs::convert::FromSpecImpl<DebuggerStmt<'a>> for Stmt<'a> {
    open spec fn obeys_from_spec() -> bool {
        true
    }

    open spec fn from_spec(node: DebuggerStmt<'a>) -> Stmt<'a> {
        Stmt::DebuggerStmt(node)
    }
}

/// Either a statement or a declaration such as a function.
#[derive(Clone, Copy)]
pub enum StmtListItem<'a> {
    Stmt(Stmt<'a>),
    Decl(Decl<'a>),
}

impl<'a> StmtListItem<'a> {
    pub open spec fn spec_can_cast(kind: SyntaxKind) -> bool {
        Stmt::spec_can_cast(kind) || is_decl_kind(kind)
    }

    pub open spec fn spec_syntax(self) -> &'a SyntaxNode {
        match self {
            StmtListItem::Stmt(s) => s.spec_syntax(),
            StmtListItem::Decl(d) => d.spec_syntax(),
        }
    }

    pub fn can_cast(kind: SyntaxKind) -> (r: bool)
        ensures
            r == Self::spec_can_cast(kind),
    {
        Stmt::can_cast(kind) || Decl::can_cast(kind)
    }

    /// Tries `Stmt` first and falls back to `Decl`.
    pub fn cast(syntax: &'a SyntaxNode) -> (r: Option<StmtListItem<'a>>)
        ensures
            r is Some <==> Self::spec_can_cast(syntax.kind),
            r is Some ==> r->Some_0.spec_syntax() == syntax,
            Stmt::spec_can_cast(syntax.kind) ==> r == (match Stmt::spec_cast(syntax) {
                Some(st) => Some(StmtListItem::Stmt(st)),
                None => None,
            }),
            !Stmt::spec_can_cast(syntax.kind) ==> r == (match Decl::spec_cast(syntax) {
                Some(d) => Some(StmtListItem::Decl(d)),
                None => None,
            }),
    {
        if Stmt::can_cast(syntax.kind) {
            match Stmt::cast(syntax) {
                Some(s) => Some(StmtListItem::Stmt(s)),
                None => None,
            }
        } else {
            match Decl::cast(syntax) {
                Some(d) => Some(StmtListItem::Decl(d)),
                None => None,
            }
        }
    }

    pub fn syntax(&self) -> (r: &'a SyntaxNode)
        ensures
            r == self.spec_syntax(),
    {
        match self {
            StmtListItem::Stmt(stmt) => stmt.syntax(),
            StmtListItem::Decl(decl) => decl.syntax(),
        }
    }
}

/// The head of a `for` or `for..in` statement: a variable declaration or an
/// expression.
#[derive(Clone, Copy)]
pub enum ForHead<'a> {
    Decl(VarDecl<'a>),
    Expr(Expr<'a>),
}

impl<'a> ForHead<'a> {
    pub open spec fn spec_can_cast(kind: SyntaxKind) -> bool {
        kind == SyntaxKind::VAR_DECL || is_expr_kind(kind)
    }

    pub open spec fn spec_syntax(self) -> &'a SyntaxNode {
        match self {
            ForHead::Decl(d) => d.syntax,
            ForHead::Expr(e) => e.spec_syntax(),
        }
    }

    pub fn can_cast(kind: SyntaxKind) -> (r: bool)
        ensures
            r == Self::spec_can_cast(kind),
    {
        VarDecl::can_cast(kind) || Expr::can_cast(kind)
    }

    /// Tries `VarDecl` first and falls back to `Expr`.
    pub fn cast(syntax: &'a SyntaxNode) -> (r: Option<ForHead<'a>>)
        ensures
            r is Some <==> Self::spec_can_cast(syntax.kind),
            r is Some ==> r->Some_0.spec_syntax() == syntax,
            syntax.kind == SyntaxKind::VAR_DECL ==> r == Some(ForHead::Decl(VarDecl { syntax })),
            syntax.kind != SyntaxKind::VAR_DECL ==> r == (match Expr::spec_cast(syntax) {
                Some(e) => Some(ForHead::Expr(e)),
                None => None,
            }),
    {
        if VarDecl::can_cast(syntax.kind) {
            match VarDecl::cast(syntax) {
                Some(d) => Some(ForHead::Decl(d)),
                None => None,
            }
        } else {
            match Expr::cast(syntax) {
                Some(e) => Some(ForHead::Expr(e)),
                None => None,
            }
        }
    }

    pub fn syntax(&self) -> (r: &'a SyntaxNode)
        ensures
            r == self.spec_syntax(),
    {
        match self {
            ForHead::Decl(stmt) => stmt.syntax(),
            ForHead::Expr(expr) => expr.syntax(),
        }
    }
}

/// Which child nodes a structural search looks for.
#[derive(Clone, Copy, PartialEq, Eq, Structural)]
pub enum ChildTest {
    /// A literal whose first token is a string.
    StringLiteral,
    /// A `NAME` node.
    Name,
    /// A node that casts to `Stmt`.
    Statement,
}

pub open spec fn is_string_literal(n: SyntaxNode) -> bool {
    n.kind == SyntaxKind::LITERAL && first_token_of(n) is Some && first_token_of(n)->Some_0.kind
        == SyntaxKind::STRING
}

pub open spec fn passes(t: ChildTest, n: SyntaxNode) -> bool {
    match t {
        ChildTest::StringLiteral => is_string_literal(n),
        ChildTest::Name => n.kind == SyntaxKind::NAME,
        ChildTest::Statement => Stmt::spec_can_cast(n.kind),
    }
}

/// The child nodes among `s` that pass the test, in order.
pub open spec fn selected(s: Seq<SyntaxElement>, t: ChildTest) -> Seq<SyntaxNode>
    decreases s.len(),
{
    if s.len() == 0 {
        Seq::empty()
    } else {
        let rest = selected(s.drop_last(), t);
        match s.last() {
            SyntaxElement::Node(n) => if passes(t, n) {
                rest.push(n)
            } else {
                rest
            },
            SyntaxElement::Token(_) => rest,
        }
    }
}

proof fn lemma_selected_step(s: Seq<SyntaxElement>, t: ChildTest, i: int)
    requires
        0 <= i < s.len(),
    ensures
        selected(s.subrange(0, i + 1), t) == (match s[i] {
            SyntaxElement::Node(n) => if passes(t, n) {
                selected(s.subrange(0, i), t).push(n)
            } else {
                selected(s.subrange(0, i), t)
            },
            SyntaxElement::Token(_) => selected(s.subrange(0, i), t),
        }),
{
    assert(s.subrange(0, i + 1).drop_last() =~= s.subrange(0, i));
    assert(s.subrange(0, i + 1).last() == s[i]);
}

proof fn lemma_selected_prefix(s: Seq<SyntaxElement>, t: ChildTest, i: int)
    requires
        0 <= i <= s.len(),
    ensures
        selected(s.subrange(0, i), t).len() <= selected(s, t).len(),
        forall|j: int|
            0 <= j < selected(s.subrange(0, i), t).len() ==> #[trigger] selected(
                s.subrange(0, i),
                t,
            )[j] == selected(s, t)[j],
    decreases s.len(),
{
    if i < s.len() {
        assert(s.drop_last().subrange(0, i) =~= s.subrange(0, i));
        lemma_selected_prefix(s.drop_last(), t, i);
    } else {
        assert(s.subrange(0, i) =~= s);
    }
}

proof fn lemma_selected_pass(s: Seq<SyntaxElement>, t: ChildTest)
    ensures
        forall|j: int| 0 <= j < selected(s, t).len() ==> passes(t, #[trigger] selected(s, t)[j]),
    decreases s.len(),
{
    if s.len() > 0 {
        lemma_selected_pass(s.drop_last(), t);
        let rest = selected(s.drop_last(), t);
        assert forall|j: int| 0 <= j < selected(s, t).len() implies passes(
            t,
            #[trigger] selected(s, t)[j],
        ) by {
            if j < rest.len() {
                assert(selected(s, t)[j] == rest[j]);
            }
        }
    }
}

fn test_child(t: ChildTest, n: &SyntaxNode) -> (r: bool)
    ensures
        r == passes(t, *n),
{
    match t {
        ChildTest::StringLiteral => {
            if n.kind != SyntaxKind::LITERAL {
                return false;
            }
            match n.first_token() {
                Some(tok) => tok.kind == SyntaxKind::STRING,
                None => false,
            }
        },
        ChildTest::Name => n.kind == SyntaxKind::NAME,
        ChildTest::Statement => Stmt::can_cast(n.kind),
    }
}

/// The `n`-th child node of `node` that passes the test, counting from zero.
pub fn nth_child_where<'a>(node: &'a SyntaxNode, t: ChildTest, n: usize) -> (r: Option<&'a SyntaxNode>)
    ensures
        n < selected(node.children@, t).len() ==> r == Some(&selected(node.children@, t)[n as int]),
        n >= selected(node.children@, t).len() ==> r is None,
{
    let mut seen: usize = 0;
    let mut i: usize = 0;
    while i < node.children.len()
        invariant
            i <= node.children@.len(),
            seen == selected(node.children@.subrange(0, i as int), t).len(),
            seen <= n,
        decreases node.children@.len() - i,
    {
        proof {
            lemma_selected_step(node.children@, t, i as int);
            lemma_selected_prefix(node.children@, t, i as int + 1);
        }
        if let SyntaxElement::Node(c) = &node.children[i] {
            if test_child(t, c) {
                if seen == n {
                    assert(selected(node.children@.subrange(0, i as int + 1), t)[seen as int] == *c);
                    return Some(c);
                }
                seen = seen + 1;
            }
        }
        i = i + 1;
    }
    proof {
        assert(node.children@.subrange(0, i as int) =~= node.children@);
    }
    None
}

/// The first token of `n` when it is the identifier `let`.
pub open spec fn let_token_of(n: SyntaxNode) -> Option<SyntaxToken> {
    match first_token_of(n) {
        Some(t) => if t.kind == SyntaxKind::IDENT && t.text@ == "let"@ {
            Some(t)
        } else {
            None
        },
        None => None,
    }
}

/// `n` has a direct child token of kind `k`.
pub open spec fn has_token(n: SyntaxNode, k: SyntaxKind) -> bool {
    exists|i: int| 0 <= i < tokens_of(n.children@).len() && #[trigger] tokens_of(n.children@)[i].kind == k
}

impl<'a> VarDecl<'a> {
    /// The leading `let`, which is an identifier and not a reserved word.
    pub fn let_token(&self) -> (r: Option<SyntaxToken>)
        ensures
            r == let_token_of(*self.syntax),
    {
        match self.syntax.first_token() {
            Some(t) => if t.kind == SyntaxKind::IDENT && crate::parser::text_is(t.text.as_str(), "let") {
                Some(t)
            } else {
                None
            },
            None => None,
        }
    }

    /// Whether the declaration is a const declaration.
    pub fn is_const(&self) -> (r: bool)
        ensures
            r == has_token(*self.syntax, SyntaxKind::CONST_KW),
    {
        self.syntax.token_of_kind(SyntaxKind::CONST_KW).is_some()
    }

    /// Whether the declaration is a let declaration.
    pub fn is_let(&self) -> (r: bool)
        ensures
            r == (let_token_of(*self.syntax) is Some),
    {
        self.let_token().is_some()
    }

    /// Whether the declaration is a var declaration.
    pub fn is_var(&self) -> (r: bool)
        ensures
            r == has_token(*self.syntax, SyntaxKind::VAR_KW),
    {
        self.syntax.token_of_kind(SyntaxKind::VAR_KW).is_some()
    }
}

impl<'a> ImportDecl<'a> {
    /// The source of the import: its first child that is a string literal, such as
    /// `"a"` in `import a from "a"`.
    pub fn source(&self) -> (r: Option<Literal<'a>>)
        ensures
            selected(self.syntax.children@, ChildTest::StringLiteral).len() > 0 ==> (r is Some && r->Some_0.syntax == &selected(self.syntax.children@, ChildTest::StringLiteral)[0]),
            selected(self.syntax.children@, ChildTest::StringLiteral).len() == 0 ==> r is None,
    {
        match nth_child_where(self.syntax, ChildTest::StringLiteral, 0) {
            Some(c) => Some(Literal { syntax: c }),
            None => None,
        }
    }
}

impl<'a> Specifier<'a> {
    /// The second direct token, the `as` of `a as b`.
    pub fn as_token(&self) -> (r: Option<SyntaxToken>)
        ensures
            tokens_of(self.syntax.children@).len() > 1 ==> r == Some(tokens_of(self.syntax.children@)[1]),
            tokens_of(self.syntax.children@).len() <= 1 ==> r is None,
    {
        self.syntax.nth_token(1)
    }

    /// The second child node, where it is a name.
    pub fn alias(&self) -> (r: Option<Name<'a>>)
        ensures
            r is Some <==> crate::tree::nodes_of(self.syntax.children@).len() > 1
                && crate::tree::nodes_of(self.syntax.children@)[1].kind == SyntaxKind::NAME,
            r is Some ==> r->Some_0.syntax == &crate::tree::nodes_of(self.syntax.children@)[1],
    {
        match self.syntax.nth_child(1) {
            Some(c) => Name::cast(c),
            None => None,
        }
    }

    /// The first child node.
    pub fn name(&self) -> (r: Option<&'a SyntaxNode>)
        ensures
            crate::tree::nodes_of(self.syntax.children@).len() > 0 ==> r == Some(
                &crate::tree::nodes_of(self.syntax.children@)[0],
            ),
            crate::tree::nodes_of(self.syntax.children@).len() == 0 ==> r is None,
    {
        self.syntax.nth_child(0)
    }
}

impl<'a> WildcardImport<'a> {
    /// The second direct token, the `as` of `* as b`.
    pub fn as_token(&self) -> (r: Option<SyntaxToken>)
        ensures
            tokens_of(self.syntax.children@).len() > 1 ==> r == Some(tokens_of(self.syntax.children@)[1]),
            tokens_of(self.syntax.children@).len() <= 1 ==> r is None,
    {
        self.syntax.nth_token(1)
    }

    /// The first child node that is a name.
    pub fn alias(&self) -> (r: Option<Name<'a>>)
        ensures
            selected(self.syntax.children@, ChildTest::Name).len() > 0 ==> (r is Some
                && r->Some_0.syntax == &selected(self.syntax.children@, ChildTest::Name)[0]),
            selected(self.syntax.children@, ChildTest::Name).len() == 0 ==> r is None,
    {
        match nth_child_where(self.syntax, ChildTest::Name, 0) {
            Some(c) => Some(Name { syntax: c }),
            None => None,
        }
    }
}

impl<'a> IfStmt<'a> {
    /// The `else` branch: the second child node that is a statement.
    pub fn alt(&self) -> (r: Option<Stmt<'a>>)
        ensures
            selected(self.syntax.children@, ChildTest::Statement).len() > 1 ==> r == Stmt::spec_cast(
                &selected(self.syntax.children@, ChildTest::Statement)[1],
            ),
            selected(self.syntax.children@, ChildTest::Statement).len() <= 1 ==> r is None,
    {
        proof {
            lemma_selected_pass(self.syntax.children@, ChildTest::Statement);
        }
        match nth_child_where(self.syntax, ChildTest::Statement, 1) {
            Some(c) => Stmt::cast(c),
            None => None,
        }
    }
}

} // verus!
