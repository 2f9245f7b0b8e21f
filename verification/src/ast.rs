//! The fragment of the host's syntax tree that the detector reads.
//!
//! Every node carries a [`Span`] into the host's source map. Call nodes also
//! carry the canonical identity their callee resolved to, as reported by the
//! host's symbol resolver; `None` means resolution was unavailable and every
//! match on such a call fails closed.
//!
//! Each node kind has a *shape*: the node with all spans erased. Two
//! expressions are semantically interchangeable for the detector exactly when
//! their shapes are equal; [`crate::spanless_eq`] decides that equality.

use vstd::prelude::*;

verus! {

/// A region of source text, as offsets into the host's source map.
#[derive(Clone, Copy, PartialEq, Eq, Structural, Debug)]
pub struct Span {
    pub lo: u64,
    pub hi: u64,
}

/// The canonical identity of the function a call resolved to.
///
/// The host's symbol resolver maps each call expression to the library item
/// it actually binds to, independent of surface spelling (aliases, method
/// syntax, fully qualified calls). The detector recognizes the four
/// identities it needs; everything else is `Other`.
#[derive(Clone, Copy, PartialEq, Eq, Structural, Debug)]
pub enum CallIdentity {
    /// A dynamically-sized array's pop operation.
    VecPop,
    /// A dynamically-sized array's is-empty query.
    VecIsEmpty,
    /// An optional value's forceful unwrap.
    OptionUnwrap,
    /// An optional value's unwrap-with-message.
    OptionExpect,
    /// Any other resolved item.
    Other,
}

/// A unary operator.
#[derive(Clone, Copy, PartialEq, Eq, Structural, Debug)]
pub enum UnOp {
    Not,
    Neg,
    Deref,
}

/// A binding pattern, kept as its source text.
///
/// The detector never looks inside a pattern: it only reuses its text in the
/// suggested rewrite, so the pattern is opaque here.
#[derive(PartialEq, Debug)]
pub struct Pat {
    pub text: String,
    pub span: Span,
}

/// An expression node.
#[derive(PartialEq, Debug)]
pub struct Expr {
    pub kind: ExprKind,
    pub span: Span,
}

/// The kinds of expression the detector distinguishes.
#[derive(PartialEq, Debug)]
pub enum ExprKind {
    /// A variable or path reference, one segment per name.
    Path { segments: Vec<String> },
    /// A literal value.
    Lit { value: u64 },
    /// A field access: `base.name`.
    Field { base: Box<Expr>, name: String },
    /// A unary operation.
    Unary { op: UnOp, operand: Box<Expr> },
    /// A method call: `receiver.method(args)`, with the identity the host's
    /// resolver assigned to the callee (`None` when unresolved).
    MethodCall {
        method: String,
        resolved: Option<CallIdentity>,
        receiver: Box<Expr>,
        args: Vec<Expr>,
    },
    /// A free call: `callee(args)`.
    Call { callee: Box<Expr>, args: Vec<Expr> },
    /// A block of statements.
    Block(Block),
}

/// An ordered sequence of statements.
#[derive(PartialEq, Debug)]
pub struct Block {
    pub stmts: Vec<Stmt>,
    pub span: Span,
}

/// A statement node.
#[derive(PartialEq, Debug)]
pub struct Stmt {
    pub kind: StmtKind,
    pub span: Span,
}

/// The kinds of statement the detector distinguishes.
#[derive(PartialEq, Debug)]
pub enum StmtKind {
    /// A local binding: `let pat = init;`.
    Local { pat: Pat, init: Option<Expr> },
    /// An expression without a trailing semicolon.
    Expr(Expr),
    /// An expression with a trailing semicolon.
    Semi(Expr),
}

/// The shape of an expression: the node with all spans erased.
pub enum ExprShape {
    Path { segments: Seq<Seq<char>> },
    Lit { value: u64 },
    Field { base: Box<ExprShape>, name: Seq<char> },
    Unary { op: UnOp, operand: Box<ExprShape> },
    MethodCall {
        method: Seq<char>,
        resolved: Option<CallIdentity>,
        receiver: Box<ExprShape>,
        args: Seq<ExprShape>,
    },
    Call { callee: Box<ExprShape>, args: Seq<ExprShape> },
    Block { stmts: Seq<StmtShape> },
}

/// The shape of a statement: the node with all spans erased.
pub enum StmtShape {
    Local { pat: Seq<char>, init: Option<ExprShape> },
    Expr { expr: ExprShape },
    Semi { expr: ExprShape },
}

impl Expr {
    /// This expression with all spans erased.
    pub open spec fn shape(self) -> ExprShape
        decreases self,
    {
        match self.kind {
            ExprKind::Path { segments } => ExprShape::Path { segments: segments.deep_view() },
            ExprKind::Lit { value } => ExprShape::Lit { value },
            ExprKind::Field { base, name } => ExprShape::Field {
                base: Box::new((*base).shape()),
                name: name@,
            },
            ExprKind::Unary { op, operand } => ExprShape::Unary {
                op,
                operand: Box::new((*operand).shape()),
            },
            ExprKind::MethodCall { method, resolved, receiver, args } => ExprShape::MethodCall {
                method: method@,
                resolved,
                receiver: Box::new((*receiver).shape()),
                args: shape_of_exprs(args@),
            },
            ExprKind::Call { callee, args } => ExprShape::Call {
                callee: Box::new((*callee).shape()),
                args: shape_of_exprs(args@),
            },
            ExprKind::Block(b) => ExprShape::Block { stmts: shape_of_stmts(b.stmts@) },
        }
    }
}

impl Stmt {
    /// This statement with all spans erased.
    pub open spec fn shape(self) -> StmtShape
        decreases self,
    {
        match self.kind {
            StmtKind::Local { pat, init } => StmtShape::Local {
                pat: pat.text@,
                init: match init {
                    Some(e) => Some(e.shape()),
                    None => None,
                },
            },
            StmtKind::Expr(e) => StmtShape::Expr { expr: e.shape() },
            StmtKind::Semi(e) => StmtShape::Semi { expr: e.shape() },
        }
    }
}

/// The shapes of a sequence of expressions, element by element.
pub open spec fn shape_of_exprs(exprs: Seq<Expr>) -> Seq<ExprShape>
    decreases exprs,
{
    if exprs.len() == 0 {
        Seq::empty()
    } else {
        seq![exprs[0].shape()] + shape_of_exprs(exprs.subrange(1, exprs.len() as int))
    }
}

/// The shapes of a sequence of statements, element by element.
pub open spec fn shape_of_stmts(stmts: Seq<Stmt>) -> Seq<StmtShape>
    decreases stmts,
{
    if stmts.len() == 0 {
        Seq::empty()
    } else {
        seq![stmts[0].shape()] + shape_of_stmts(stmts.subrange(1, stmts.len() as int))
    }
}

/// `shape_of_exprs` maps the sequence element by element.
pub proof fn lemma_shape_of_exprs(exprs: Seq<Expr>)
    ensures
        shape_of_exprs(exprs).len() == exprs.len(),
        forall|i: int| 0 <= i < exprs.len() ==> shape_of_exprs(exprs)[i] == exprs[i].shape(),
    decreases exprs.len(),
{
    if exprs.len() > 0 {
        lemma_shape_of_exprs(exprs.subrange(1, exprs.len() as int));
    }
}

/// `shape_of_stmts` maps the sequence element by element.
pub proof fn lemma_shape_of_stmts(stmts: Seq<Stmt>)
    ensures
        shape_of_stmts(stmts).len() == stmts.len(),
        forall|i: int| 0 <= i < stmts.len() ==> shape_of_stmts(stmts)[i] == stmts[i].shape(),
    decreases stmts.len(),
{
    if stmts.len() > 0 {
        lemma_shape_of_stmts(stmts.subrange(1, stmts.len() as int));
    }
}

} // verus!
