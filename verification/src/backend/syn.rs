//! The translator: from the syntax tree to the intermediate representation.
//! Every function computes exactly what the rules of the translation say.
use vstd::prelude::*;

use crate::backend::rules::{
    applied, flat_name, followed_by, foreign_name, foreign_names, param_name, param_names,
    pattern_name, pattern_names, simple_name, translate_bound, translate_decl, translate_decls,
    translate_else, translate_expr, translate_exprs, translate_file, translate_format,
    translate_lit, translate_stmt, translate_stmts, OPEN_BOUND,
};
use crate::backend::{
    branch_views, item_views, BackendError, BinaryOp, Decimal, IfElif, IfElifView, Item,
    ItemView, AST,
};
use crate::syntax::{
    decl_views, expr_views, fn_arg_views, foreign_decl_views, optional_expr_view, pat_views,
    stmt_views, Decl, Expr, ExprView, FnArg, ForeignDecl, Lit, Pat, SourceFile, SourceFileView,
    Stmt,
};
use crate::text::{join, parse_i64, slot_numbers, split_fragments, texts};

verus! {

/// The model of the outcome of translating one node.
pub open spec fn item_result(r: Result<Item, BackendError>) -> Result<ItemView, BackendError> {
    match r {
        Ok(item) => Ok(item@),
        Err(e) => Err(e),
    }
}

/// The model of the outcome of translating a sequence of nodes.
pub open spec fn items_result(r: Result<Vec<Item>, BackendError>) -> Result<
    Seq<ItemView>,
    BackendError,
> {
    match r {
        Ok(items) => Ok(item_views(items@)),
        Err(e) => Err(e),
    }
}

/// Joins the segments of a qualified name into one name.
pub fn flatten_path(segments: &Vec<String>) -> (r: String)
    ensures
        r@ == flat_name(texts(segments@)),
{
    join(segments, "__")
}

/// The name that `expr` is, if it is a simple name.
pub fn simple_name_of(expr: &Expr) -> (r: Option<String>)
    ensures
        match r {
            Some(name) => simple_name(expr@) == Some(name@),
            None => simple_name(expr@) is None,
        },
{
    match expr {
        Expr::Path { segments } => {
            if segments.len() == 1 {
                Some(segments[0].clone())
            } else {
                None
            }
        },
        _ => None,
    }
}

/// The names that the parameters of a closure bind.
pub fn closure_params(inputs: &Vec<Pat>) -> (r: Result<Vec<String>, BackendError>)
    ensures
        match r {
            Ok(names) => pattern_names(pat_views(inputs@)) == Some(texts(names@)),
            Err(e) => pattern_names(pat_views(inputs@)) is None && e
                == BackendError::UnsupportedConstruct,
        },
{
    let mut names: Vec<String> = Vec::new();
    let mut i: usize = 0;
    while i < inputs.len()
        invariant
            i <= inputs.len(),
            names@.len() == i,
            forall|j: int|
                0 <= j < i ==> (#[trigger] pattern_name(pat_views(inputs@)[j])) == Some(names@[j]@),
        decreases inputs.len() - i,
    {
        match &inputs[i] {
            Pat::Ident(name) => {
                names.push(name.clone());
            },
            Pat::Other => {
                assert(pattern_name(pat_views(inputs@)[i as int]) is None);
                return Err(BackendError::UnsupportedConstruct);
            },
        }
        i += 1;
    }
    proof {
        assert(texts(names@) =~= Seq::new(
            pat_views(inputs@).len(),
            |i: int| pattern_name(pat_views(inputs@)[i])->0,
        ));
    }
    Ok(names)
}

/// The names of the parameters of a function.
pub fn fn_params(inputs: &Vec<FnArg>) -> (r: Result<Vec<String>, BackendError>)
    ensures
        match r {
            Ok(names) => param_names(fn_arg_views(inputs@)) == Some(texts(names@)),
            Err(e) => param_names(fn_arg_views(inputs@)) is None && e
                == BackendError::UnsupportedConstruct,
        },
{
    let mut names: Vec<String> = Vec::new();
    let mut i: usize = 0;
    while i < inputs.len()
        invariant
            i <= inputs.len(),
            names@.len() == i,
            forall|j: int|
                0 <= j < i ==> (#[trigger] param_name(fn_arg_views(inputs@)[j])) == Some(
                    names@[j]@,
                ),
        decreases inputs.len() - i,
    {
        match &inputs[i] {
            FnArg::Receiver => {
                names.push(String::from_str("self"));
            },
            FnArg::Typed(Pat::Ident(name)) => {
                names.push(name.clone());
            },
            FnArg::Typed(Pat::Other) => {
                assert(param_name(fn_arg_views(inputs@)[i as int]) is None);
                return Err(BackendError::UnsupportedConstruct);
            },
        }
        i += 1;
    }
    proof {
        assert(texts(names@) =~= Seq::new(
            fn_arg_views(inputs@).len(),
            |i: int| param_name(fn_arg_views(inputs@)[i])->0,
        ));
    }
    Ok(names)
}

/// The names that the declarations of a foreign block bind.
pub fn foreign_functions(decls: &Vec<ForeignDecl>) -> (r: Result<Vec<String>, BackendError>)
    ensures
        match r {
            Ok(names) => foreign_names(foreign_decl_views(decls@)) == Some(texts(names@)),
            Err(e) => foreign_names(foreign_decl_views(decls@)) is None && e
                == BackendError::UnsupportedConstruct,
        },
{
    let mut names: Vec<String> = Vec::new();
    let mut i: usize = 0;
    while i < decls.len()
        invariant
            i <= decls.len(),
            names@.len() == i,
            forall|j: int|
                0 <= j < i ==> (#[trigger] foreign_name(foreign_decl_views(decls@)[j])) == Some(
                    names@[j]@,
                ),
        decreases decls.len() - i,
    {
        match &decls[i] {
            ForeignDecl::Fn { name } => {
                names.push(name.clone());
            },
            ForeignDecl::Static { name } => {
                names.push(name.clone());
            },
            ForeignDecl::Type { name } => {
                names.push(name.clone());
            },
            ForeignDecl::Verbatim(Some(Decl::Fn { name, .. })) => {
                names.push(name.clone());
            },
            _ => {
                assert(foreign_name(foreign_decl_views(decls@)[i as int]) is None);
                return Err(BackendError::UnsupportedConstruct);
            },
        }
        i += 1;
    }
    proof {
        assert(texts(names@) =~= Seq::new(
            foreign_decl_views(decls@).len(),
            |i: int| foreign_name(foreign_decl_views(decls@)[i])->0,
        ));
    }
    Ok(names)
}

/// The slot numbers of a format template with `count` markers.
pub fn slots(count: usize) -> (r: Vec<u16>)
    ensures
        r@ == slot_numbers(count as nat),
{
    let mut out: Vec<u16> = Vec::new();
    let mut k: usize = 0;
    while k < count
        invariant
            k <= count,
            out@ == slot_numbers(k as nat),
        decreases count - k,
    {
        k += 1;
        out.push((k % 65536) as u16);
        proof {
            assert(out@ =~= slot_numbers(k as nat));
        }
    }
    out
}

/// Translates a literal.
pub fn lit_to_item(lit: &Lit) -> (r: Result<Item, BackendError>)
    ensures
        item_result(r) == translate_lit(lit@),
{
    match lit {
        Lit::Bool(value) => Ok(Item::ExprBool(*value)),
        Lit::Str(value) => Ok(Item::ExprString(value.clone())),
        Lit::Int(digits) => match parse_i64(digits.as_str()) {
            Some(value) => Ok(Item::ExprInteger(value)),
            None => Err(BackendError::ParseError),
        },
        Lit::Float(digits) => match Decimal::parse(digits.as_str()) {
            Some(decimal) => Ok(Item::ExprDecimal(decimal)),
            None => Err(BackendError::ParseError),
        },
        Lit::Other => Err(BackendError::UnsupportedConstruct),
    }
}

/// Translates an expression.
pub fn expr_to_item(expr: &Expr) -> (r: Result<Item, BackendError>)
    ensures
        item_result(r) == translate_expr(expr@),
    decreases expr, 1nat,
{
    match expr {
        Expr::Lit(lit) => lit_to_item(lit),
        Expr::Call { .. } => call_to_item(expr),
        Expr::Path { segments } => Ok(Item::ExprIdent(flatten_path(segments))),
        Expr::Assign { .. } => assign_to_item(expr),
        Expr::AssignOp { .. } => assign_op_to_item(expr),
        Expr::Closure { .. } => closure_to_item(expr),
        Expr::Binary { .. } => binary_to_item(expr),
        Expr::Array { elems } => {
            let elements = exprs_to_items(elems)?;
            Ok(Item::ExprArray { elements })
        },
        Expr::Tuple { elems } => {
            let elements = exprs_to_items(elems)?;
            Ok(Item::ExprArray { elements })
        },
        Expr::Loop { .. } => loop_to_item(expr),
        Expr::While { .. } => loop_to_item(expr),
        Expr::ForLoop { .. } => for_to_item(expr),
        Expr::Break => Ok(Item::Break),
        Expr::Continue => Ok(Item::Continue),
        Expr::If { .. } => if_to_item(expr),
        Expr::Macro { .. } => macro_to_item(expr),
        Expr::Block { .. } => Err(BackendError::UnsupportedConstruct),
        Expr::Range { .. } => Err(BackendError::UnsupportedConstruct),
        Expr::Other => Err(BackendError::UnsupportedConstruct),
    }
}

/// Translates a call.
fn call_to_item(expr: &Expr) -> (r: Result<Item, BackendError>)
    requires
        *expr is Call,
    ensures
        item_result(r) == translate_expr(expr@),
    decreases expr, 0nat,
{
    match expr {
        Expr::Call { func, args } => {
            let callee = expr_to_item(func)?;
            let values = exprs_to_items(args)?;
            Ok(Item::ExprCall { func: Box::new(callee), args: values })
        },
        // No other shape gets here.
        _ => Err(BackendError::UnsupportedConstruct),
    }
}

/// Translates a plain assignment.
fn assign_to_item(expr: &Expr) -> (r: Result<Item, BackendError>)
    requires
        *expr is Assign,
    ensures
        item_result(r) == translate_expr(expr@),
    decreases expr, 0nat,
{
    match expr {
        Expr::Assign { left, right } => match simple_name_of(left) {
            None => Err(BackendError::IllFormedBinding),
            Some(name) => {
                let value = expr_to_item(right)?;
                Ok(Item::VarSet { name, expr: Box::new(value) })
            },
        },
        // No other shape gets here.
        _ => Err(BackendError::UnsupportedConstruct),
    }
}

/// Translates a compound assignment: the target is assigned the target
/// combined with the right-hand side.
fn assign_op_to_item(expr: &Expr) -> (r: Result<Item, BackendError>)
    requires
        *expr is AssignOp,
    ensures
        item_result(r) == translate_expr(expr@),
    decreases expr, 0nat,
{
    match expr {
        Expr::AssignOp { left, op, right } => match BinaryOp::from(*op).base() {
            None => Err(BackendError::UnsupportedConstruct),
            Some(base) => match simple_name_of(left) {
                None => Err(BackendError::IllFormedBinding),
                Some(name) => {
                    let value = expr_to_item(right)?;
                    let target = Item::ExprIdent(name.clone());
                    assert(target@ == ItemView::ExprIdent(name@));
                    let combined = Item::ExprBinary {
                        lhs: Box::new(target),
                        rhs: Box::new(value),
                        op: base,
                    };
                    assert(combined@ == applied(name@, base, value@));
                    Ok(Item::VarSet { name, expr: Box::new(combined) })
                },
            },
        },
        // No other shape gets here.
        _ => Err(BackendError::UnsupportedConstruct),
    }
}

/// Translates a closure.
fn closure_to_item(expr: &Expr) -> (r: Result<Item, BackendError>)
    requires
        *expr is Closure,
    ensures
        item_result(r) == translate_expr(expr@),
    decreases expr, 0nat,
{
    match expr {
        Expr::Closure { inputs, body } => {
            let params = closure_params(inputs)?;
            match &**body {
                Expr::Block { stmts } => {
                    assert(body@ == ExprView::Block { stmts: stmt_views(stmts@) });
                    let body = stmts_to_items(stmts)?;
                    Ok(Item::ExprClosure { params, stmts: body })
                },
                _ => {
                    assert(!(body@ is Block));
                    Err(BackendError::UnsupportedConstruct)
                },
            }
        },
        // No other shape gets here.
        _ => Err(BackendError::UnsupportedConstruct),
    }
}

/// Translates a binary operation.
fn binary_to_item(expr: &Expr) -> (r: Result<Item, BackendError>)
    requires
        *expr is Binary,
    ensures
        item_result(r) == translate_expr(expr@),
    decreases expr, 0nat,
{
    match expr {
        Expr::Binary { left, op, right } => {
            let lhs = expr_to_item(left)?;
            let rhs = expr_to_item(right)?;
            Ok(Item::ExprBinary { lhs: Box::new(lhs), rhs: Box::new(rhs), op: BinaryOp::from(*op) })
        },
        // No other shape gets here.
        _ => Err(BackendError::UnsupportedConstruct),
    }
}

/// Translates a loop without a condition, or one with a condition.
fn loop_to_item(expr: &Expr) -> (r: Result<Item, BackendError>)
    requires
        *expr is Loop || *expr is While,
    ensures
        item_result(r) == translate_expr(expr@),
    decreases expr, 0nat,
{
    match expr {
        Expr::Loop { block } => {
            let stmts = stmts_to_items(block)?;
            let always = Item::ExprBool(true);
            assert(always@ == ItemView::ExprBool(true));
            Ok(Item::While { condition: Box::new(always), stmts })
        },
        Expr::While { cond, block } => {
            let condition = expr_to_item(cond)?;
            let stmts = stmts_to_items(block)?;
            Ok(Item::While { condition: Box::new(condition), stmts })
        },
        // No other shape gets here.
        _ => Err(BackendError::UnsupportedConstruct),
    }
}

/// Translates a `for` loop: over a range, or over any other expression.
fn for_to_item(expr: &Expr) -> (r: Result<Item, BackendError>)
    requires
        *expr is ForLoop,
    ensures
        item_result(r) == translate_expr(expr@),
    decreases expr, 0nat,
{
    match expr {
        Expr::ForLoop { pat, expr: source, block } => match pat {
            Pat::Other => Err(BackendError::UnsupportedConstruct),
            Pat::Ident(var) => match &**source {
                Expr::Range { from, to } => {
                    assert(source@ == ExprView::Range {
                        from: optional_expr_view(*from),
                        to: optional_expr_view(*to),
                    });
                    let max = bound_to_item(to)?;
                    let min = bound_to_item(from)?;
                    let stmts = stmts_to_items(block)?;
                    Ok(
                        Item::ForRange {
                            var: var.clone(),
                            min: Box::new(min),
                            max: Box::new(max),
                            jump: None,
                            stmts,
                        },
                    )
                },
                _ => {
                    assert(!(source@ is Range));
                    let iterated = expr_to_item(source)?;
                    let stmts = stmts_to_items(block)?;
                    Ok(Item::ForIn { var: var.clone(), expr: Box::new(iterated), stmts })
                },
            },
        },
        // No other shape gets here.
        _ => Err(BackendError::UnsupportedConstruct),
    }
}

/// Translates a conditional with all that follows its first branch.
fn if_to_item(expr: &Expr) -> (r: Result<Item, BackendError>)
    requires
        *expr is If,
    ensures
        item_result(r) == translate_expr(expr@),
    decreases expr, 0nat,
{
    match expr {
        Expr::If { cond, then_branch, else_branch } => {
            let condition = expr_to_item(cond)?;
            let stmts = stmts_to_items(then_branch)?;
            let mut elif: Vec<(Item, Vec<Item>)> = Vec::new();
            let else_stmts = else_chain(else_branch, &mut elif)?;
            proof {
                let rest = translate_else(optional_expr_view(*else_branch))->Ok_0;
                assert(branch_views(elif@) =~= rest.0);
            }
            let chain = IfElif { condition: Box::new(condition), stmts, elif, else_stmts };
            assert(chain@ == IfElifView {
                condition: Box::new(condition@),
                stmts: item_views(stmts@),
                elif: branch_views(elif@),
                else_stmts: translate_else(optional_expr_view(*else_branch))->Ok_0.1,
            });
            Ok(Item::IfElif(chain))
        },
        // No other shape gets here.
        _ => Err(BackendError::UnsupportedConstruct),
    }
}

/// Translates a macro call: a print call, or a format call.
fn macro_to_item(expr: &Expr) -> (r: Result<Item, BackendError>)
    requires
        *expr is Macro,
    ensures
        item_result(r) == translate_expr(expr@),
    decreases expr, 0nat,
{
    match expr {
        Expr::Macro { path, parsed } => {
            let name = flatten_path(path);
            if name == String::from_str("println") {
                match parsed {
                    None => Err(BackendError::ParseError),
                    Some(args) => {
                        let values = exprs_to_items(args)?;
                        let print = Item::ExprIdent(String::from_str("print"));
                        assert(print@ == ItemView::ExprIdent("print"@));
                        Ok(Item::ExprCall { func: Box::new(print), args: values })
                    },
                }
            } else if name == String::from_str("format") {
                match parsed {
                    None => Err(BackendError::ParseError),
                    Some(args) => format_to_item(args),
                }
            } else {
                Err(BackendError::UnsupportedConstruct)
            }
        },
        // No other shape gets here.
        _ => Err(BackendError::UnsupportedConstruct),
    }
}

/// Translates the arguments of a format call.
pub fn format_to_item(args: &Vec<Expr>) -> (r: Result<Item, BackendError>)
    ensures
        item_result(r) == translate_format(expr_views(args@)),
    decreases args, 1nat,
{
    if args.len() == 0 {
        return Err(BackendError::IllFormedBinding);
    }
    match &args[0] {
        Expr::Lit(Lit::Str(template)) => {
            let values = exprs_from(args, 1)?;
            let strings = split_fragments(template.as_str());
            let replacements = slots(strings.len() - 1);
            Ok(Item::ExprFString { strings, replacements, values })
        },
        _ => Err(BackendError::IllFormedBinding),
    }
}

/// Translates a bound of a range.
pub fn bound_to_item(bound: &Option<Box<Expr>>) -> (r: Result<Item, BackendError>)
    ensures
        item_result(r) == translate_bound(optional_expr_view(*bound)),
    decreases bound, 0nat,
{
    match bound {
        Some(expr) => expr_to_item(expr),
        None => Ok(Item::ExprInteger(OPEN_BOUND)),
    }
}

/// Translates what follows the first branch of a conditional: appends the
/// further branches to `elif` and returns the last body.
pub fn else_chain(else_branch: &Option<Box<Expr>>, elif: &mut Vec<(Item, Vec<Item>)>) -> (r:
    Result<Option<Vec<Item>>, BackendError>)
    ensures
        match r {
            Ok(last) => {
                &&& translate_else(optional_expr_view(*else_branch)) matches Ok(rest)
                &&& branch_views(final(elif)@) == branch_views(old(elif)@) + rest.0
                &&& rest.1 == (match last {
                    Some(stmts) => Some(item_views(stmts@)),
                    None => None,
                })
            },
            Err(e) => {
                &&& translate_else(optional_expr_view(*else_branch)) matches Err(failure)
                &&& failure == e
            },
        },
    decreases else_branch, 0nat,
{
    match else_branch {
        None => {
            proof {
                assert(branch_views(elif@) + Seq::empty() =~= branch_views(elif@));
            }
            Ok(None)
        },
        Some(expr) => match &**expr {
            Expr::Block { stmts } => {
                let body = stmts_to_items(stmts)?;
                proof {
                    assert(branch_views(elif@) + Seq::empty() =~= branch_views(elif@));
                }
                Ok(Some(body))
            },
            Expr::If { cond, then_branch, else_branch: next } => {
                let condition = expr_to_item(cond)?;
                let stmts = stmts_to_items(then_branch)?;
                let ghost branch = (condition@, item_views(stmts@));
                elif.push((condition, stmts));
                proof {
                    assert(branch_views(elif@) =~= branch_views(old(elif)@) + seq![branch]);
                }
                let last = else_chain(next, elif)?;
                proof {
                    let rest = translate_else(optional_expr_view(*next))->Ok_0;
                    assert(branch_views(old(elif)@) + (seq![branch] + rest.0) =~= (branch_views(
                        old(elif)@,
                    ) + seq![branch]) + rest.0);
                }
                Ok(last)
            },
            _ => Err(BackendError::UnsupportedConstruct),
        },
    }
}

/// Translates a sequence of expressions, in their order.
pub fn exprs_to_items(exprs: &Vec<Expr>) -> (r: Result<Vec<Item>, BackendError>)
    ensures
        items_result(r) == translate_exprs(expr_views(exprs@)),
    decreases exprs, 1nat,
{
    proof {
        assert(expr_views(exprs@).skip(0) =~= expr_views(exprs@));
    }
    exprs_from(exprs, 0)
}

/// Translates the expressions of `exprs` from index `from` on, in their order.
fn exprs_from(exprs: &Vec<Expr>, from: usize) -> (r: Result<Vec<Item>, BackendError>)
    requires
        from <= exprs@.len(),
    ensures
        items_result(r) == translate_exprs(expr_views(exprs@).skip(from as int)),
    decreases exprs, 0nat,
{
    let mut out: Vec<Item> = Vec::new();
    let mut i: usize = from;
    proof {
        assert(item_views(out@) + translate_exprs(expr_views(exprs@).skip(i as int))->Ok_0
            =~= translate_exprs(expr_views(exprs@).skip(i as int))->Ok_0);
    }
    while i < exprs.len()
        invariant
            from <= i <= exprs.len(),
            translate_exprs(expr_views(exprs@).skip(from as int)) == followed_by(
                item_views(out@),
                translate_exprs(expr_views(exprs@).skip(i as int)),
            ),
        decreases exprs.len() - i,
    {
        proof {
            assert(expr_views(exprs@).skip(i as int).skip(1) =~= expr_views(exprs@).skip(i + 1));
        }
        let item = expr_to_item(&exprs[i])?;
        proof {
            let rest = translate_exprs(expr_views(exprs@).skip(i + 1));
            if rest is Ok {
                assert(item_views(out@) + (seq![item@] + rest->Ok_0) =~= item_views(
                    out@.push(item),
                ) + rest->Ok_0);
            }
        }
        out.push(item);
        i += 1;
    }
    proof {
        assert(item_views(out@) + Seq::empty() =~= item_views(out@));
    }
    Ok(out)
}

/// Translates a statement.
pub fn stmt_to_item(stmt: &Stmt) -> (r: Result<Item, BackendError>)
    ensures
        item_result(r) == translate_stmt(stmt@),
    decreases stmt, 0nat,
{
    match stmt {
        Stmt::Item(decl) => syn_item_to_item(decl),
        Stmt::Local { pat, init } => match pat {
            Pat::Other => Err(BackendError::IllFormedBinding),
            Pat::Ident(name) => match init {
                None => Err(BackendError::IllFormedBinding),
                Some(expr) => {
                    let value = expr_to_item(expr)?;
                    Ok(Item::VarDecl { name: name.clone(), expr: Box::new(value) })
                },
            },
        },
        Stmt::Expr(expr) => expr_to_item(expr),
        Stmt::Semi(expr) => expr_to_item(expr),
    }
}

/// Translates a sequence of statements, in their order.
pub fn stmts_to_items(stmts: &Vec<Stmt>) -> (r: Result<Vec<Item>, BackendError>)
    ensures
        items_result(r) == translate_stmts(stmt_views(stmts@)),
    decreases stmts, 0nat,
{
    let mut out: Vec<Item> = Vec::new();
    let mut i: usize = 0;
    proof {
        assert(stmt_views(stmts@).skip(0) =~= stmt_views(stmts@));
        assert(item_views(out@) + translate_stmts(stmt_views(stmts@))->Ok_0 =~= translate_stmts(
            stmt_views(stmts@),
        )->Ok_0);
    }
    while i < stmts.len()
        invariant
            i <= stmts.len(),
            translate_stmts(stmt_views(stmts@)) == followed_by(
                item_views(out@),
                translate_stmts(stmt_views(stmts@).skip(i as int)),
            ),
        decreases stmts.len() - i,
    {
        proof {
            assert(stmt_views(stmts@).skip(i as int).skip(1) =~= stmt_views(stmts@).skip(i + 1));
        }
        let item = stmt_to_item(&stmts[i])?;
        proof {
            let rest = translate_stmts(stmt_views(stmts@).skip(i + 1));
            if rest is Ok {
                assert(item_views(out@) + (seq![item@] + rest->Ok_0) =~= item_views(
                    out@.push(item),
                ) + rest->Ok_0);
            }
        }
        out.push(item);
        i += 1;
    }
    proof {
        assert(item_views(out@) + Seq::empty() =~= item_views(out@));
    }
    Ok(out)
}

/// Translates a declaration.
pub fn syn_item_to_item(decl: &Decl) -> (r: Result<Item, BackendError>)
    ensures
        item_result(r) == translate_decl(decl@),
    decreases decl, 0nat,
{
    match decl {
        Decl::Fn { is_extern, name, inputs, body } => {
            if *is_extern {
                let mut functions: Vec<String> = Vec::new();
                functions.push(name.clone());
                proof {
                    assert(texts(functions@) =~= seq![name@]);
                }
                Ok(Item::Externs { functions })
            } else {
                let params = fn_params(inputs)?;
                let stmts = stmts_to_items(body)?;
                Ok(Item::FunctionDefinition { name: name.clone(), params, stmts })
            }
        },
        Decl::ForeignMod { items } => {
            let functions = foreign_functions(items)?;
            Ok(Item::Externs { functions })
        },
        Decl::Mod { name, content } => match content {
            None => Err(BackendError::UnsupportedConstruct),
            Some(decls) => {
                let items = syn_items_to_items(decls)?;
                Ok(Item::Mod { name: name.clone(), items })
            },
        },
        Decl::Other => Err(BackendError::UnsupportedConstruct),
    }
}

/// Translates a sequence of declarations, in their order.
pub fn syn_items_to_items(decls: &Vec<Decl>) -> (r: Result<Vec<Item>, BackendError>)
    ensures
        items_result(r) == translate_decls(decl_views(decls@)),
    decreases decls, 0nat,
{
    let mut out: Vec<Item> = Vec::new();
    let mut i: usize = 0;
    proof {
        assert(decl_views(decls@).skip(0) =~= decl_views(decls@));
        assert(item_views(out@) + translate_decls(decl_views(decls@))->Ok_0 =~= translate_decls(
            decl_views(decls@),
        )->Ok_0);
    }
    while i < decls.len()
        invariant
            i <= decls.len(),
            translate_decls(decl_views(decls@)) == followed_by(
                item_views(out@),
                translate_decls(decl_views(decls@).skip(i as int)),
            ),
        decreases decls.len() - i,
    {
        proof {
            assert(decl_views(decls@).skip(i as int).skip(1) =~= decl_views(decls@).skip(i + 1));
        }
        let item = syn_item_to_item(&decls[i])?;
        proof {
            let rest = translate_decls(decl_views(decls@).skip(i + 1));
            if rest is Ok {
                assert(item_views(out@) + (seq![item@] + rest->Ok_0) =~= item_views(
                    out@.push(item),
                ) + rest->Ok_0);
            }
        }
        out.push(item);
        i += 1;
    }
    proof {
        assert(item_views(out@) + Seq::empty() =~= item_views(out@));
    }
    Ok(out)
}

/// A compilation unit, translated.
#[derive(Debug, PartialEq, Eq)]
pub struct SynBackend {
    pub items: Vec<Item>,
}

impl View for SynBackend {
    type V = Seq<ItemView>;

    open spec fn view(&self) -> Seq<ItemView> {
        item_views(self.items@)
    }
}

impl AST for SynBackend {
    open spec fn translation(source: SourceFileView) -> Result<Seq<ItemView>, BackendError> {
        translate_file(source)
    }

    open spec fn nodes(&self) -> Seq<ItemView> {
        self@
    }

    fn generate(source: &SourceFile) -> (r: Result<Self, BackendError>) {
        let items = syn_items_to_items(&source.items)?;
        Ok(SynBackend { items })
    }

    fn items(&self) -> (r: &Vec<Item>) {
        &self.items
    }
}

} // verus!
