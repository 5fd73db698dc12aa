//! The syntax tree that a front end hands to the translator.
//!
//! The tree is a closed set of node kinds. Every shape that the translator
//! gives no meaning to is still a node (`Other`, or a node with a field the
//! translator refuses), so that the translator decides on every input.
use vstd::prelude::*;

use crate::text::texts;

verus! {

/// A binary operator as written in the source, compound assignment
/// operators included.
#[derive(Debug, Clone, Copy, PartialEq, Eq, Structural)]
pub enum BinOp {
    Add,
    Sub,
    Mul,
    Div,
    Rem,
    And,
    Or,
    BitXor,
    BitAnd,
    BitOr,
    Shl,
    Shr,
    Eq,
    Lt,
    Le,
    Ne,
    Ge,
    Gt,
    AddEq,
    SubEq,
    MulEq,
    DivEq,
    RemEq,
    BitXorEq,
    BitAndEq,
    BitOrEq,
    ShlEq,
    ShrEq,
}

/// A pattern in a binding position.
#[derive(Debug, PartialEq, Eq)]
pub enum Pat {
    /// A plain name.
    Ident(String),
    /// Any other pattern.
    Other,
}

/// A parameter of a function.
#[derive(Debug, PartialEq, Eq)]
pub enum FnArg {
    /// The receiver of a method.
    Receiver,
    /// A parameter bound by a pattern.
    Typed(Pat),
}

/// A literal.
#[derive(Debug, PartialEq, Eq)]
pub enum Lit {
    Bool(bool),
    /// A string literal, by the text it denotes.
    Str(String),
    /// An integer literal, by its digits in base ten.
    Int(String),
    /// A floating-point literal, by its digits in base ten.
    Float(String),
    /// Any other literal.
    Other,
}

/// An expression.
#[derive(Debug, PartialEq, Eq)]
pub enum Expr {
    Lit(Lit),
    Call { func: Box<Expr>, args: Vec<Expr> },
    /// A name, possibly qualified, by its segments.
    Path { segments: Vec<String> },
    Assign { left: Box<Expr>, right: Box<Expr> },
    AssignOp { left: Box<Expr>, op: BinOp, right: Box<Expr> },
    Closure { inputs: Vec<Pat>, body: Box<Expr> },
    Block { stmts: Vec<Stmt> },
    Binary { left: Box<Expr>, op: BinOp, right: Box<Expr> },
    Array { elems: Vec<Expr> },
    Tuple { elems: Vec<Expr> },
    Loop { block: Vec<Stmt> },
    While { cond: Box<Expr>, block: Vec<Stmt> },
    ForLoop { pat: Pat, expr: Box<Expr>, block: Vec<Stmt> },
    /// A range; an absent bound is an open end.
    Range { from: Option<Box<Expr>>, to: Option<Box<Expr>> },
    Break,
    Continue,
    If { cond: Box<Expr>, then_branch: Vec<Stmt>, else_branch: Option<Box<Expr>> },
    /// A macro call, by the segments of its name and by its arguments, which
    /// are absent when they are no list of expressions separated by commas.
    Macro { path: Vec<String>, parsed: Option<Vec<Expr>> },
    /// Any other expression.
    Other,
}

/// A statement of a block.
#[derive(Debug, PartialEq, Eq)]
pub enum Stmt {
    Item(Decl),
    Local { pat: Pat, init: Option<Expr> },
    /// An expression without a trailing semicolon.
    Expr(Expr),
    /// An expression with a trailing semicolon.
    Semi(Expr),
}

/// A declaration inside a foreign block.
#[derive(Debug, PartialEq, Eq)]
pub enum ForeignDecl {
    /// A function declared without a body.
    Fn { name: String },
    /// A static.
    Static { name: String },
    /// A type.
    Type { name: String },
    /// Tokens that the front end kept as they were, read once more as a
    /// declaration; absent when they are none.
    Verbatim(Option<Decl>),
    /// Any other foreign declaration.
    Other,
}

/// A declaration.
#[derive(Debug, PartialEq, Eq)]
pub enum Decl {
    /// A function; `is_extern` tells whether it carries a linkage marker.
    Fn { is_extern: bool, name: String, inputs: Vec<FnArg>, body: Vec<Stmt> },
    /// A foreign block.
    ForeignMod { items: Vec<ForeignDecl> },
    /// A module; `content` is absent when the module is declared without a body.
    Mod { name: String, content: Option<Vec<Decl>> },
    /// Any other declaration.
    Other,
}

/// A compilation unit.
#[derive(Debug, PartialEq, Eq)]
pub struct SourceFile {
    pub items: Vec<Decl>,
}

/// The model of a pattern.
pub ghost enum PatView {
    Ident(Seq<char>),
    Other,
}

/// The model of a parameter.
pub ghost enum FnArgView {
    Receiver,
    Typed(PatView),
}

/// The model of a literal.
pub ghost enum LitView {
    Bool(bool),
    Str(Seq<char>),
    Int(Seq<char>),
    Float(Seq<char>),
    Other,
}

/// The model of an expression: the same tree over sequences.
pub ghost enum ExprView {
    Lit(LitView),
    Call { func: Box<ExprView>, args: Seq<ExprView> },
    Path { segments: Seq<Seq<char>> },
    Assign { left: Box<ExprView>, right: Box<ExprView> },
    AssignOp { left: Box<ExprView>, op: BinOp, right: Box<ExprView> },
    Closure { inputs: Seq<PatView>, body: Box<ExprView> },
    Block { stmts: Seq<StmtView> },
    Binary { left: Box<ExprView>, op: BinOp, right: Box<ExprView> },
    Array { elems: Seq<ExprView> },
    Tuple { elems: Seq<ExprView> },
    Loop { block: Seq<StmtView> },
    While { cond: Box<ExprView>, block: Seq<StmtView> },
    ForLoop { pat: PatView, expr: Box<ExprView>, block: Seq<StmtView> },
    Range { from: Option<Box<ExprView>>, to: Option<Box<ExprView>> },
    Break,
    Continue,
    If { cond: Box<ExprView>, then_branch: Seq<StmtView>, else_branch: Option<Box<ExprView>> },
    Macro { path: Seq<Seq<char>>, parsed: Option<Seq<ExprView>> },
    Other,
}

/// The model of a statement.
pub ghost enum StmtView {
    Item(DeclView),
    Local { pat: PatView, init: Option<ExprView> },
    Expr(ExprView),
    Semi(ExprView),
}

/// The model of a declaration inside a foreign block.
pub ghost enum ForeignDeclView {
    Fn { name: Seq<char> },
    Static { name: Seq<char> },
    Type { name: Seq<char> },
    Verbatim(Option<DeclView>),
    Other,
}

/// The model of a declaration.
pub ghost enum DeclView {
    Fn { is_extern: bool, name: Seq<char>, inputs: Seq<FnArgView>, body: Seq<StmtView> },
    ForeignMod { items: Seq<ForeignDeclView> },
    Mod { name: Seq<char>, content: Option<Seq<DeclView>> },
    Other,
}

/// The model of a compilation unit.
pub ghost struct SourceFileView {
    pub items: Seq<DeclView>,
}

/// The model of a pattern.
pub open spec fn pat_view(pat: Pat) -> PatView {
    match pat {
        Pat::Ident(name) => PatView::Ident(name@),
        Pat::Other => PatView::Other,
    }
}

/// The models of a sequence of patterns, in their order.
pub open spec fn pat_views(pats: Seq<Pat>) -> Seq<PatView> {
    Seq::new(pats.len(), |i: int| pat_view(pats[i]))
}

/// The model of a parameter.
pub open spec fn fn_arg_view(arg: FnArg) -> FnArgView {
    match arg {
        FnArg::Receiver => FnArgView::Receiver,
        FnArg::Typed(pat) => FnArgView::Typed(pat_view(pat)),
    }
}

/// The models of a sequence of parameters, in their order.
pub open spec fn fn_arg_views(args: Seq<FnArg>) -> Seq<FnArgView> {
    Seq::new(args.len(), |i: int| fn_arg_view(args[i]))
}

/// The model of a literal.
pub open spec fn lit_view(lit: Lit) -> LitView {
    match lit {
        Lit::Bool(value) => LitView::Bool(value),
        Lit::Str(value) => LitView::Str(value@),
        Lit::Int(digits) => LitView::Int(digits@),
        Lit::Float(digits) => LitView::Float(digits@),
        Lit::Other => LitView::Other,
    }
}

/// The model of an expression.
pub open spec fn expr_view(expr: Expr) -> ExprView
    decreases expr,
{
    match expr {
        Expr::Lit(lit) => ExprView::Lit(lit_view(lit)),
        Expr::Call { func, args } => ExprView::Call {
            func: Box::new(expr_view(*func)),
            args: expr_views(args@),
        },
        Expr::Path { segments } => ExprView::Path { segments: texts(segments@) },
        Expr::Assign { left, right } => ExprView::Assign {
            left: Box::new(expr_view(*left)),
            right: Box::new(expr_view(*right)),
        },
        Expr::AssignOp { left, op, right } => ExprView::AssignOp {
            left: Box::new(expr_view(*left)),
            op,
            right: Box::new(expr_view(*right)),
        },
        Expr::Closure { inputs, body } => ExprView::Closure {
            inputs: pat_views(inputs@),
            body: Box::new(expr_view(*body)),
        },
        Expr::Block { stmts } => ExprView::Block { stmts: stmt_views(stmts@) },
        Expr::Binary { left, op, right } => ExprView::Binary {
            left: Box::new(expr_view(*left)),
            op,
            right: Box::new(expr_view(*right)),
        },
        Expr::Array { elems } => ExprView::Array { elems: expr_views(elems@) },
        Expr::Tuple { elems } => ExprView::Tuple { elems: expr_views(elems@) },
        Expr::Loop { block } => ExprView::Loop { block: stmt_views(block@) },
        Expr::While { cond, block } => ExprView::While {
            cond: Box::new(expr_view(*cond)),
            block: stmt_views(block@),
        },
        Expr::ForLoop { pat, expr, block } => ExprView::ForLoop {
            pat: pat_view(pat),
            expr: Box::new(expr_view(*expr)),
            block: stmt_views(block@),
        },
        Expr::Range { from, to } => ExprView::Range {
            from: optional_expr_view(from),
            to: optional_expr_view(to),
        },
        Expr::Break => ExprView::Break,
        Expr::Continue => ExprView::Continue,
        Expr::If { cond, then_branch, else_branch } => ExprView::If {
            cond: Box::new(expr_view(*cond)),
            then_branch: stmt_views(then_branch@),
            else_branch: optional_expr_view(else_branch),
        },
        Expr::Macro { path, parsed } => ExprView::Macro {
            path: texts(path@),
            parsed: match parsed {
                Some(args) => Some(expr_views(args@)),
                None => None,
            },
        },
        Expr::Other => ExprView::Other,
    }
}

/// The model of an expression that may be absent.
pub open spec fn optional_expr_view(expr: Option<Box<Expr>>) -> Option<Box<ExprView>>
    decreases expr,
{
    match expr {
        Some(inner) => Some(Box::new(expr_view(*inner))),
        None => None,
    }
}

/// The models of a sequence of expressions, in their order.
pub open spec fn expr_views(exprs: Seq<Expr>) -> Seq<ExprView>
    decreases exprs,
{
    Seq::new(
        exprs.len(),
        |i: int|
            if 0 <= i < exprs.len() {
                expr_view(exprs[i])
            } else {
                ExprView::Other
            },
    )
}

/// The model of a statement.
pub open spec fn stmt_view(stmt: Stmt) -> StmtView
    decreases stmt,
{
    match stmt {
        Stmt::Item(decl) => StmtView::Item(decl_view(decl)),
        Stmt::Local { pat, init } => StmtView::Local {
            pat: pat_view(pat),
            init: match init {
                Some(expr) => Some(expr_view(expr)),
                None => None,
            },
        },
        Stmt::Expr(expr) => StmtView::Expr(expr_view(expr)),
        Stmt::Semi(expr) => StmtView::Semi(expr_view(expr)),
    }
}

/// The models of a sequence of statements, in their order.
pub open spec fn stmt_views(stmts: Seq<Stmt>) -> Seq<StmtView>
    decreases stmts,
{
    Seq::new(
        stmts.len(),
        |i: int|
            if 0 <= i < stmts.len() {
                stmt_view(stmts[i])
            } else {
                StmtView::Expr(ExprView::Other)
            },
    )
}

/// The model of a declaration inside a foreign block.
pub open spec fn foreign_decl_view(decl: ForeignDecl) -> ForeignDeclView
    decreases decl,
{
    match decl {
        ForeignDecl::Fn { name } => ForeignDeclView::Fn { name: name@ },
        ForeignDecl::Static { name } => ForeignDeclView::Static { name: name@ },
        ForeignDecl::Type { name } => ForeignDeclView::Type { name: name@ },
        ForeignDecl::Verbatim(parsed) => ForeignDeclView::Verbatim(
            match parsed {
                Some(decl) => Some(decl_view(decl)),
                None => None,
            },
        ),
        ForeignDecl::Other => ForeignDeclView::Other,
    }
}

/// The models of a sequence of foreign declarations, in their order.
pub open spec fn foreign_decl_views(decls: Seq<ForeignDecl>) -> Seq<ForeignDeclView>
    decreases decls,
{
    Seq::new(
        decls.len(),
        |i: int|
            if 0 <= i < decls.len() {
                foreign_decl_view(decls[i])
            } else {
                ForeignDeclView::Other
            },
    )
}

/// The model of a declaration.
pub open spec fn decl_view(decl: Decl) -> DeclView
    decreases decl,
{
    match decl {
        Decl::Fn { is_extern, name, inputs, body } => DeclView::Fn {
            is_extern,
            name: name@,
            inputs: fn_arg_views(inputs@),
            body: stmt_views(body@),
        },
        Decl::ForeignMod { items } => DeclView::ForeignMod { items: foreign_decl_views(items@) },
        Decl::Mod { name, content } => DeclView::Mod {
            name: name@,
            content: match content {
                Some(decls) => Some(decl_views(decls@)),
                None => None,
            },
        },
        Decl::Other => DeclView::Other,
    }
}

/// The models of a sequence of declarations, in their order.
pub open spec fn decl_views(decls: Seq<Decl>) -> Seq<DeclView>
    decreases decls,
{
    Seq::new(
        decls.len(),
        |i: int|
            if 0 <= i < decls.len() {
                decl_view(decls[i])
            } else {
                DeclView::Other
            },
    )
}

impl View for Pat {
    type V = PatView;

    open spec fn view(&self) -> PatView {
        pat_view(*self)
    }
}

impl View for FnArg {
    type V = FnArgView;

    open spec fn view(&self) -> FnArgView {
        fn_arg_view(*self)
    }
}

impl View for Lit {
    type V = LitView;

    open spec fn view(&self) -> LitView {
        lit_view(*self)
    }
}

impl View for Expr {
    type V = ExprView;

    open spec fn view(&self) -> ExprView {
        expr_view(*self)
    }
}

impl View for Stmt {
    type V = StmtView;

    open spec fn view(&self) -> StmtView {
        stmt_view(*self)
    }
}

impl View for ForeignDecl {
    type V = ForeignDeclView;

    open spec fn view(&self) -> ForeignDeclView {
        foreign_decl_view(*self)
    }
}

impl View for Decl {
    type V = DeclView;

    open spec fn view(&self) -> DeclView {
        decl_view(*self)
    }
}

impl View for SourceFile {
    type V = SourceFileView;

    open spec fn view(&self) -> SourceFileView {
        SourceFileView { items: decl_views(self.items@) }
    }
}

} // verus!
