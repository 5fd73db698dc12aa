//! What the translation yields: for every syntax node the node of the
//! intermediate representation that it is translated to, or the error that
//! ends the translation. The error of a node is the one met first when its
//! parts are translated in their order.
use vstd::prelude::*;

use crate::backend::{operator_tag, BackendError, BinaryOp, IfElifView, ItemView};
use crate::syntax::{
    BinOp, DeclView, ExprView, FnArgView, ForeignDeclView, LitView, PatView, SourceFileView,
    StmtView,
};
use crate::text::{fragments, is_decimal_literal, joined, parsed_i64, slot_numbers};

verus! {

/// The bound that stands for an open end of a range.
pub const OPEN_BOUND: i64 = 9999;

/// A qualified name as one name: its segments joined by two underscores.
pub open spec fn flat_name(segments: Seq<Seq<char>>) -> Seq<char> {
    joined(segments, "__"@)
}

/// The name that `e` is, if `e` is a simple name: a path of one segment.
pub open spec fn simple_name(e: ExprView) -> Option<Seq<char>> {
    match e {
        ExprView::Path { segments } => if segments.len() == 1 {
            Some(segments[0])
        } else {
            None
        },
        _ => None,
    }
}

/// The name that a pattern binds, if it is a plain name.
pub open spec fn pattern_name(pat: PatView) -> Option<Seq<char>> {
    match pat {
        PatView::Ident(name) => Some(name),
        PatView::Other => None,
    }
}

/// The names that the patterns bind, if each is a plain name.
pub open spec fn pattern_names(pats: Seq<PatView>) -> Option<Seq<Seq<char>>> {
    if forall|i: int| 0 <= i < pats.len() ==> (#[trigger] pattern_name(pats[i])) is Some {
        Some(Seq::new(pats.len(), |i: int| pattern_name(pats[i])->0))
    } else {
        None
    }
}

/// The name of a parameter: `self` for a receiver, else the name that its
/// pattern binds.
pub open spec fn param_name(arg: FnArgView) -> Option<Seq<char>> {
    match arg {
        FnArgView::Receiver => Some("self"@),
        FnArgView::Typed(pat) => pattern_name(pat),
    }
}

/// The names of the parameters, if each has one.
pub open spec fn param_names(inputs: Seq<FnArgView>) -> Option<Seq<Seq<char>>> {
    if forall|i: int| 0 <= i < inputs.len() ==> (#[trigger] param_name(inputs[i])) is Some {
        Some(Seq::new(inputs.len(), |i: int| param_name(inputs[i])->0))
    } else {
        None
    }
}

/// The name that a foreign declaration binds: that of a function, of a
/// static or of a type, or that of a function with a body that the front end
/// kept as tokens.
pub open spec fn foreign_name(decl: ForeignDeclView) -> Option<Seq<char>> {
    match decl {
        ForeignDeclView::Fn { name } => Some(name),
        ForeignDeclView::Static { name } => Some(name),
        ForeignDeclView::Type { name } => Some(name),
        ForeignDeclView::Verbatim(Some(DeclView::Fn { name, .. })) => Some(name),
        _ => None,
    }
}

/// The names that the foreign declarations bind, if each binds one.
pub open spec fn foreign_names(decls: Seq<ForeignDeclView>) -> Option<Seq<Seq<char>>> {
    if forall|i: int| 0 <= i < decls.len() ==> (#[trigger] foreign_name(decls[i])) is Some {
        Some(Seq::new(decls.len(), |i: int| foreign_name(decls[i])->0))
    } else {
        None
    }
}

/// What a literal is translated to.
pub open spec fn translate_lit(lit: LitView) -> Result<ItemView, BackendError> {
    match lit {
        LitView::Bool(value) => Ok(ItemView::ExprBool(value)),
        LitView::Str(value) => Ok(ItemView::ExprString(value)),
        LitView::Int(digits) => match parsed_i64(digits) {
            Some(value) => Ok(ItemView::ExprInteger(value)),
            None => Err(BackendError::ParseError),
        },
        LitView::Float(digits) => if is_decimal_literal(digits) {
            Ok(ItemView::ExprDecimal(digits))
        } else {
            Err(BackendError::ParseError)
        },
        LitView::Other => Err(BackendError::UnsupportedConstruct),
    }
}

/// An assignment of `value` to the variable `name`.
pub open spec fn assignment(name: Seq<char>, value: ItemView) -> ItemView {
    ItemView::VarSet { name, expr: Box::new(value) }
}

/// `name` combined with `value` by the operator `op`.
pub open spec fn applied(name: Seq<char>, op: BinaryOp, value: ItemView) -> ItemView {
    ItemView::ExprBinary {
        lhs: Box::new(ItemView::ExprIdent(name)),
        rhs: Box::new(value),
        op,
    }
}

/// The format template that `template` and `values` make: the pieces of the
/// text between its markers, one slot number for each marker, counted from
/// one, and the values.
pub open spec fn format_template(template: Seq<char>, values: Seq<ItemView>) -> ItemView {
    ItemView::ExprFString {
        strings: fragments(template),
        replacements: slot_numbers((fragments(template).len() - 1) as nat),
        values,
    }
}

/// What an expression is translated to.
pub open spec fn translate_expr(expr: ExprView) -> Result<ItemView, BackendError>
    decreases expr,
{
    match expr {
        ExprView::Lit(lit) => translate_lit(lit),
        ExprView::Call { func, args } => match translate_expr(*func) {
            Err(e) => Err(e),
            Ok(callee) => match translate_exprs(args) {
                Err(e) => Err(e),
                Ok(values) => Ok(ItemView::ExprCall { func: Box::new(callee), args: values }),
            },
        },
        ExprView::Path { segments } => Ok(ItemView::ExprIdent(flat_name(segments))),
        ExprView::Assign { left, right } => match simple_name(*left) {
            None => Err(BackendError::IllFormedBinding),
            Some(name) => match translate_expr(*right) {
                Err(e) => Err(e),
                Ok(value) => Ok(assignment(name, value)),
            },
        },
        ExprView::AssignOp { left, op, right } => match operator_tag(op).base_of() {
            None => Err(BackendError::UnsupportedConstruct),
            Some(base) => match simple_name(*left) {
                None => Err(BackendError::IllFormedBinding),
                Some(name) => match translate_expr(*right) {
                    Err(e) => Err(e),
                    Ok(value) => Ok(assignment(name, applied(name, base, value))),
                },
            },
        },
        ExprView::Closure { inputs, body } => match pattern_names(inputs) {
            None => Err(BackendError::UnsupportedConstruct),
            Some(params) => match *body {
                ExprView::Block { stmts } => match translate_stmts(stmts) {
                    Err(e) => Err(e),
                    Ok(body) => Ok(ItemView::ExprClosure { params, stmts: body }),
                },
                _ => Err(BackendError::UnsupportedConstruct),
            },
        },
        ExprView::Binary { left, op, right } => match translate_expr(*left) {
            Err(e) => Err(e),
            Ok(lhs) => match translate_expr(*right) {
                Err(e) => Err(e),
                Ok(rhs) => Ok(
                    ItemView::ExprBinary {
                        lhs: Box::new(lhs),
                        rhs: Box::new(rhs),
                        op: operator_tag(op),
                    },
                ),
            },
        },
        ExprView::Array { elems } => match translate_exprs(elems) {
            Err(e) => Err(e),
            Ok(elements) => Ok(ItemView::ExprArray { elements }),
        },
        ExprView::Tuple { elems } => match translate_exprs(elems) {
            Err(e) => Err(e),
            Ok(elements) => Ok(ItemView::ExprArray { elements }),
        },
        ExprView::Loop { block } => match translate_stmts(block) {
            Err(e) => Err(e),
            Ok(stmts) => Ok(
                ItemView::While { condition: Box::new(ItemView::ExprBool(true)), stmts },
            ),
        },
        ExprView::While { cond, block } => match translate_expr(*cond) {
            Err(e) => Err(e),
            Ok(condition) => match translate_stmts(block) {
                Err(e) => Err(e),
                Ok(stmts) => Ok(ItemView::While { condition: Box::new(condition), stmts }),
            },
        },
        ExprView::ForLoop { pat, expr, block } => match pattern_name(pat) {
            None => Err(BackendError::UnsupportedConstruct),
            Some(var) => match *expr {
                ExprView::Range { from, to } => match translate_bound(to) {
                    Err(e) => Err(e),
                    Ok(max) => match translate_bound(from) {
                        Err(e) => Err(e),
                        Ok(min) => match translate_stmts(block) {
                            Err(e) => Err(e),
                            Ok(stmts) => Ok(
                                ItemView::ForRange {
                                    var,
                                    min: Box::new(min),
                                    max: Box::new(max),
                                    jump: None,
                                    stmts,
                                },
                            ),
                        },
                    },
                },
                _ => match translate_expr(*expr) {
                    Err(e) => Err(e),
                    Ok(source) => match translate_stmts(block) {
                        Err(e) => Err(e),
                        Ok(stmts) => Ok(ItemView::ForIn { var, expr: Box::new(source), stmts }),
                    },
                },
            },
        },
        ExprView::Break => Ok(ItemView::Break),
        ExprView::Continue => Ok(ItemView::Continue),
        ExprView::If { cond, then_branch, else_branch } => match translate_expr(*cond) {
            Err(e) => Err(e),
            Ok(condition) => match translate_stmts(then_branch) {
                Err(e) => Err(e),
                Ok(stmts) => match translate_else(else_branch) {
                    Err(e) => Err(e),
                    Ok(rest) => Ok(
                        ItemView::IfElif(
                            IfElifView {
                                condition: Box::new(condition),
                                stmts,
                                elif: rest.0,
                                else_stmts: rest.1,
                            },
                        ),
                    ),
                },
            },
        },
        ExprView::Macro { path, parsed } => if flat_name(path) == "println"@ {
            match parsed {
                None => Err(BackendError::ParseError),
                Some(args) => match translate_exprs(args) {
                    Err(e) => Err(e),
                    Ok(values) => Ok(
                        ItemView::ExprCall {
                            func: Box::new(ItemView::ExprIdent("print"@)),
                            args: values,
                        },
                    ),
                },
            }
        } else if flat_name(path) == "format"@ {
            match parsed {
                None => Err(BackendError::ParseError),
                Some(args) => translate_format(args),
            }
        } else {
            Err(BackendError::UnsupportedConstruct)
        },
        ExprView::Block { .. } => Err(BackendError::UnsupportedConstruct),
        ExprView::Range { .. } => Err(BackendError::UnsupportedConstruct),
        ExprView::Other => Err(BackendError::UnsupportedConstruct),
    }
}

/// What the arguments of a format call are translated to: the first must be
/// a string literal, the others are the values.
pub open spec fn translate_format(args: Seq<ExprView>) -> Result<ItemView, BackendError>
    decreases args,
{
    if args.len() == 0 {
        Err(BackendError::IllFormedBinding)
    } else {
        match args[0] {
            ExprView::Lit(LitView::Str(template)) => match translate_exprs(args.skip(1)) {
                Err(e) => Err(e),
                Ok(values) => Ok(format_template(template, values)),
            },
            _ => Err(BackendError::IllFormedBinding),
        }
    }
}

/// What a bound of a range is translated to: an open end becomes the
/// integer `OPEN_BOUND`.
pub open spec fn translate_bound(bound: Option<Box<ExprView>>) -> Result<ItemView, BackendError>
    decreases bound,
{
    match bound {
        Some(expr) => translate_expr(*expr),
        None => Ok(ItemView::ExprInteger(OPEN_BOUND)),
    }
}

/// What follows the first branch of a conditional: the further branches in
/// their order, and the last body if there is one. An `else` must be a
/// block or another conditional.
pub open spec fn translate_else(else_branch: Option<Box<ExprView>>) -> Result<
    (Seq<(ItemView, Seq<ItemView>)>, Option<Seq<ItemView>>),
    BackendError,
>
    decreases else_branch,
{
    match else_branch {
        None => Ok((Seq::empty(), None)),
        Some(expr) => match *expr {
            ExprView::Block { stmts } => match translate_stmts(stmts) {
                Err(e) => Err(e),
                Ok(body) => Ok((Seq::empty(), Some(body))),
            },
            ExprView::If { cond, then_branch, else_branch: next } => match translate_expr(*cond) {
                Err(e) => Err(e),
                Ok(condition) => match translate_stmts(then_branch) {
                    Err(e) => Err(e),
                    Ok(stmts) => match translate_else(next) {
                        Err(e) => Err(e),
                        Ok(rest) => Ok((seq![(condition, stmts)] + rest.0, rest.1)),
                    },
                },
            },
            _ => Err(BackendError::UnsupportedConstruct),
        },
    }
}

/// What a sequence of expressions is translated to, in its order.
pub open spec fn translate_exprs(exprs: Seq<ExprView>) -> Result<Seq<ItemView>, BackendError>
    decreases exprs,
{
    if exprs.len() == 0 {
        Ok(Seq::empty())
    } else {
        match translate_expr(exprs[0]) {
            Err(e) => Err(e),
            Ok(first) => match translate_exprs(exprs.skip(1)) {
                Err(e) => Err(e),
                Ok(rest) => Ok(seq![first] + rest),
            },
        }
    }
}

/// What a statement is translated to.
pub open spec fn translate_stmt(stmt: StmtView) -> Result<ItemView, BackendError>
    decreases stmt,
{
    match stmt {
        StmtView::Item(decl) => translate_decl(decl),
        StmtView::Local { pat, init } => match pattern_name(pat) {
            None => Err(BackendError::IllFormedBinding),
            Some(name) => match init {
                None => Err(BackendError::IllFormedBinding),
                Some(expr) => match translate_expr(expr) {
                    Err(e) => Err(e),
                    Ok(value) => Ok(ItemView::VarDecl { name, expr: Box::new(value) }),
                },
            },
        },
        StmtView::Expr(expr) => translate_expr(expr),
        StmtView::Semi(expr) => translate_expr(expr),
    }
}

/// What a sequence of statements is translated to, in its order.
pub open spec fn translate_stmts(stmts: Seq<StmtView>) -> Result<Seq<ItemView>, BackendError>
    decreases stmts,
{
    if stmts.len() == 0 {
        Ok(Seq::empty())
    } else {
        match translate_stmt(stmts[0]) {
            Err(e) => Err(e),
            Ok(first) => match translate_stmts(stmts.skip(1)) {
                Err(e) => Err(e),
                Ok(rest) => Ok(seq![first] + rest),
            },
        }
    }
}

/// What a declaration is translated to.
pub open spec fn translate_decl(decl: DeclView) -> Result<ItemView, BackendError>
    decreases decl,
{
    match decl {
        DeclView::Fn { is_extern, name, inputs, body } => if is_extern {
            Ok(ItemView::Externs { functions: seq![name] })
        } else {
            match param_names(inputs) {
                None => Err(BackendError::UnsupportedConstruct),
                Some(params) => match translate_stmts(body) {
                    Err(e) => Err(e),
                    Ok(stmts) => Ok(
                        ItemView::FunctionDefinition { name: name, params, stmts },
                    ),
                },
            }
        },
        DeclView::ForeignMod { items } => match foreign_names(items) {
            None => Err(BackendError::UnsupportedConstruct),
            Some(functions) => Ok(ItemView::Externs { functions }),
        },
        DeclView::Mod { name, content } => match content {
            None => Err(BackendError::UnsupportedConstruct),
            Some(decls) => match translate_decls(decls) {
                Err(e) => Err(e),
                Ok(items) => Ok(ItemView::Mod { name: name, items }),
            },
        },
        DeclView::Other => Err(BackendError::UnsupportedConstruct),
    }
}

/// What a sequence of declarations is translated to, in its order.
pub open spec fn translate_decls(decls: Seq<DeclView>) -> Result<Seq<ItemView>, BackendError>
    decreases decls,
{
    if decls.len() == 0 {
        Ok(Seq::empty())
    } else {
        match translate_decl(decls[0]) {
            Err(e) => Err(e),
            Ok(first) => match translate_decls(decls.skip(1)) {
                Err(e) => Err(e),
                Ok(rest) => Ok(seq![first] + rest),
            },
        }
    }
}

/// What a compilation unit is translated to.
pub open spec fn translate_file(source: SourceFileView) -> Result<Seq<ItemView>, BackendError> {
    translate_decls(source.items)
}

/// The nodes `done`, followed by what `rest` holds.
pub open spec fn followed_by(
    done: Seq<ItemView>,
    rest: Result<Seq<ItemView>, BackendError>,
) -> Result<Seq<ItemView>, BackendError> {
    match rest {
        Ok(more) => Ok(done + more),
        Err(e) => Err(e),
    }
}

/// A sequence of declarations is translated part by part: to the nodes of
/// its front part and then those of its back part, or to the error that is
/// met first. What a declaration is translated to does not depend on its
/// neighbours.
pub proof fn lemma_translate_decls_splits(front: Seq<DeclView>, back: Seq<DeclView>)
    ensures
        translate_decls(front + back) == match translate_decls(front) {
            Ok(nodes) => followed_by(nodes, translate_decls(back)),
            Err(e) => Err(e),
        },
    decreases front.len(),
{
    if front.len() == 0 {
        assert(front + back =~= back);
        match translate_decls(back) {
            Ok(nodes) => {
                assert(Seq::<ItemView>::empty() + nodes =~= nodes);
            },
            Err(_) => {},
        }
    } else {
        let all = front + back;
        assert(all[0] == front[0]);
        assert(all.skip(1) =~= front.skip(1) + back);
        lemma_translate_decls_splits(front.skip(1), back);
        match (translate_decl(front[0]), translate_decls(front.skip(1)), translate_decls(back)) {
            (Ok(first), Ok(middle), Ok(last)) => {
                assert(seq![first] + (middle + last) =~= (seq![first] + middle) + last);
            },
            _ => {},
        }
    }
}

/// A compound assignment is translated to what the plain assignment is
/// translated to that assigns the target combined with the right-hand side
/// by the base operator: `x += e` gives what `x = x + e` gives, the same
/// node or the same error.
pub proof fn lemma_compound_assignment_desugars(
    target: ExprView,
    op: BinOp,
    base: BinOp,
    value: ExprView,
)
    requires
        operator_tag(op).base_of() == Some(operator_tag(base)),
    ensures
        translate_expr(
            ExprView::AssignOp { left: Box::new(target), op, right: Box::new(value) },
        ) == translate_expr(
            ExprView::Assign {
                left: Box::new(target),
                right: Box::new(
                    ExprView::Binary { left: Box::new(target), op: base, right: Box::new(value) },
                ),
            },
        ),
{
    let combined = ExprView::Binary { left: Box::new(target), op: base, right: Box::new(value) };
    match simple_name(target) {
        None => {},
        Some(name) => {
            let segments = target->segments;
            assert(flat_name(segments) == name);
            assert(translate_expr(target) == Ok::<ItemView, BackendError>(
                ItemView::ExprIdent(name),
            ));
            assert(translate_expr(combined) == match translate_expr(value) {
                Err(e) => Err(e),
                Ok(rhs) => Ok(applied(name, operator_tag(base), rhs)),
            });
        },
    }
}

/// The assignment that a compound assignment is translated to carries no
/// compound operator: it assigns to the target the target combined with the
/// value by the base operator.
pub proof fn lemma_assignment_carries_base_operator(target: ExprView, op: BinOp, value: ExprView)
    ensures
        match translate_expr(
            ExprView::AssignOp { left: Box::new(target), op, right: Box::new(value) },
        ) {
            Ok(item) => {
                &&& item matches ItemView::VarSet { name, expr }
                &&& *expr matches ItemView::ExprBinary { lhs, rhs, op: base }
                &&& *lhs == ItemView::ExprIdent(name)
                &&& translate_expr(value) == Ok::<ItemView, BackendError>(*rhs)
                &&& operator_tag(op).base_of() == Some(base)
                &&& base.base_of() is None
            },
            Err(_) => true,
        },
{
}

} // verus!
