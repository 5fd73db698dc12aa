//! The Lua generator: one recursive emitter from the intermediate
//! representation to Lua text.
use vstd::prelude::*;

use crate::backend::{branch_views, item_views, BinaryOp, IfElif, Item, ItemView, AST};
use crate::gen::lua::rules::{
    op_token, render, render_all, render_branches, render_else, render_externs, render_list,
    render_values, template_text,
};
use crate::gen::{CodeGenerator, CodegenError};
use crate::text::{join, push_escaped, push_integer, texts};

pub mod rules;

verus! {

/// The token of an operator.
pub fn token(op: BinaryOp) -> (r: &'static str)
    ensures
        r@ == op_token(op),
{
    match op {
        BinaryOp::Add => "+",
        BinaryOp::Sub => "-",
        BinaryOp::Mul => "*",
        BinaryOp::Div => "/",
        BinaryOp::Mod => "%",
        BinaryOp::And => " and ",
        BinaryOp::Or => " or ",
        BinaryOp::Bxor => "~",
        BinaryOp::Band => "&",
        BinaryOp::Bor => "|",
        BinaryOp::Bshl => "<<",
        BinaryOp::Bshr => ">>",
        BinaryOp::Eq => "==",
        BinaryOp::Lt => "<",
        BinaryOp::Le => "<=",
        BinaryOp::Ne => "~=",
        BinaryOp::Ge => ">=",
        BinaryOp::Gt => ">",
        BinaryOp::AddEq => "+=",
        BinaryOp::SubEq => "-=",
        BinaryOp::MulEq => "*=",
        BinaryOp::DivEq => "/=",
        BinaryOp::ModEq => "%=",
        BinaryOp::BxorEq => "^=",
        BinaryOp::BandEq => "&=",
        BinaryOp::BorEq => "|=",
        BinaryOp::BshlEq => "<<=",
        BinaryOp::BshrEq => ">>=",
    }
}

/// Appends the bindings of foreign names.
pub fn push_externs(buf: &mut String, names: &Vec<String>)
    ensures
        final(buf)@ == old(buf)@ + render_externs(texts(names@)),
{
    let mut i: usize = 0;
    while i < names.len()
        invariant
            i <= names.len(),
            buf@ == old(buf)@ + render_externs(texts(names@.take(i as int))),
        decreases names.len() - i,
    {
        let ghost before = buf@;
        buf.append("local ");
        buf.append(names[i].as_str());
        buf.append(" = _G.");
        buf.append(names[i].as_str());
        buf.append(";");
        proof {
            let done = texts(names@.take(i as int));
            let next = texts(names@.take(i + 1));
            assert(next.drop_last() =~= done);
            assert(next.last() == names@[i as int]@);
            assert(buf@ =~= old(buf)@ + render_externs(next));
        }
        i += 1;
    }
    proof {
        assert(names@.take(i as int) =~= names@);
    }
}

/// Appends the text of a format template with `slots` slots.
pub fn push_template(buf: &mut String, strings: &Vec<String>, slots: usize)
    ensures
        final(buf)@ == old(buf)@ + template_text(texts(strings@), slots as nat),
{
    let mut i: usize = 0;
    while i < strings.len()
        invariant
            i <= strings.len(),
            buf@ == old(buf)@ + template_text(texts(strings@.take(i as int)), slots as nat),
        decreases strings.len() - i,
    {
        buf.append(strings[i].as_str());
        if i < slots {
            buf.append("%s");
        }
        proof {
            let done = texts(strings@.take(i as int));
            let next = texts(strings@.take(i + 1));
            assert(next.drop_last() =~= done);
            assert(next.last() == strings@[i as int]@);
            assert(buf@ =~= old(buf)@ + template_text(next, slots as nat));
        }
        i += 1;
    }
    proof {
        assert(strings@.take(i as int) =~= strings@);
    }
}

/// Appends the text of one node.
pub fn push_item(buf: &mut String, item: &Item)
    ensures
        final(buf)@ == old(buf)@ + render(item@),
    decreases item, 1nat,
{
    match item {
        Item::FunctionDefinition { .. } => push_function(buf, item),
        Item::ExprClosure { .. } => push_function(buf, item),
        Item::While { .. } => push_loop(buf, item),
        Item::ForIn { .. } => push_loop(buf, item),
        Item::ForRange { .. } => push_loop(buf, item),
        Item::IfElif(chain) => push_if(buf, chain),
        Item::VarSet { .. } => push_var(buf, item),
        Item::VarDecl { .. } => push_var(buf, item),
        Item::Break => {
            buf.append("break;");
        },
        Item::Continue => {
            buf.append("goto __continue__;");
        },
        Item::Externs { functions } => push_externs(buf, functions),
        Item::Mod { .. } => push_mod(buf, item),
        Item::ExprCall { .. } => push_call(buf, item),
        Item::ExprIdent(name) => {
            buf.append(name.as_str());
        },
        Item::ExprDecimal(decimal) => {
            buf.append(decimal.as_str());
        },
        Item::ExprInteger(value) => push_integer(buf, *value),
        Item::ExprString(value) => {
            buf.append("\"");
            push_escaped(buf, value.as_str());
            buf.append("\"");
            proof {
                assert(buf@ =~= old(buf)@ + render(item@));
            }
        },
        Item::ExprBool(value) => {
            if *value {
                buf.append("true");
            } else {
                buf.append("false");
            }
        },
        Item::ExprArray { .. } => push_array(buf, item),
        Item::ExprBinary { .. } => push_binary(buf, item),
        Item::ExprFString { .. } => push_fstring(buf, item),
    }
}

/// Appends the text of a function or of a closure.
fn push_function(buf: &mut String, item: &Item)
    requires
        *item is FunctionDefinition || *item is ExprClosure,
    ensures
        final(buf)@ == old(buf)@ + render(item@),
    decreases item, 0nat,
{
    match item {
        Item::FunctionDefinition { name, params, stmts } => {
            buf.append("function ");
            buf.append(name.as_str());
            buf.append("(");
            buf.append(join(params, ",").as_str());
            buf.append(")");
            push_stmts(buf, stmts);
            buf.append("end;");
            proof {
                assert(buf@ =~= old(buf)@ + render(item@));
            }
        },
        Item::ExprClosure { params, stmts } => {
            buf.append("function(");
            buf.append(join(params, ",").as_str());
            buf.append(")");
            push_stmts(buf, stmts);
            buf.append("end;");
            proof {
                assert(buf@ =~= old(buf)@ + render(item@));
            }
        },
        // No other node gets here.
        _ => {},
    }
}

/// Appends the text of a loop. Every loop ends in the label that a
/// `continue` jumps to, whether its body holds one or not.
fn push_loop(buf: &mut String, item: &Item)
    requires
        *item is While || *item is ForIn || *item is ForRange,
    ensures
        final(buf)@ == old(buf)@ + render(item@),
    decreases item, 0nat,
{
    match item {
        Item::While { condition, stmts } => {
            buf.append("while ");
            push_item(buf, condition);
            buf.append(" do ");
            push_stmts(buf, stmts);
            buf.append(" ::__continue__:: end;");
            proof {
                assert(buf@ =~= old(buf)@ + render(item@));
            }
        },
        Item::ForIn { var, expr, stmts } => {
            buf.append("for ");
            buf.append(var.as_str());
            buf.append(" in ");
            push_item(buf, expr);
            buf.append(" do ");
            push_stmts(buf, stmts);
            buf.append(" ::__continue__:: end;");
            proof {
                assert(buf@ =~= old(buf)@ + render(item@));
            }
        },
        Item::ForRange { var, min, max, jump: _, stmts } => {
            buf.append("for ");
            buf.append(var.as_str());
            buf.append(" = ");
            push_item(buf, min);
            buf.append(",");
            push_item(buf, max);
            buf.append(" do ");
            push_stmts(buf, stmts);
            buf.append(" ::__continue__:: end;");
            proof {
                assert(buf@ =~= old(buf)@ + render(item@));
            }
        },
        // No other node gets here.
        _ => {},
    }
}

/// Appends the text of a conditional chain, its branches in their order.
pub fn push_if(buf: &mut String, chain: &IfElif)
    ensures
        final(buf)@ == old(buf)@ + render(ItemView::IfElif(chain@)),
    decreases chain, 0nat,
{
    let ghost model = chain@;
    proof {
        assert(model.condition == Box::new(chain.condition@));
        assert(model.stmts == item_views(chain.stmts@));
        assert(model.elif == branch_views(chain.elif@));
    }
    buf.append("if ");
    push_item(buf, &chain.condition);
    buf.append(" then ");
    push_stmts(buf, &chain.stmts);
    push_branches(buf, &chain.elif);
    let ghost before_else = buf@;
    match &chain.else_stmts {
        Some(stmts) => {
            buf.append(" else ");
            push_stmts(buf, stmts);
            proof {
                assert(model.else_stmts == Some(item_views(stmts@)));
                assert(buf@ =~= before_else + render_else(model.else_stmts));
            }
        },
        None => {
            proof {
                assert(model.else_stmts is None);
                assert(buf@ =~= before_else + render_else(model.else_stmts));
            }
        },
    }
    buf.append(" end;");
    proof {
        assert(buf@ =~= old(buf)@ + render(ItemView::IfElif(model)));
    }
}

/// Appends the text of the further branches of a conditional chain.
pub fn push_branches(buf: &mut String, branches: &Vec<(Item, Vec<Item>)>)
    ensures
        final(buf)@ == old(buf)@ + render_branches(branch_views(branches@)),
    decreases branches, 0nat,
{
    let mut i: usize = 0;
    while i < branches.len()
        invariant
            i <= branches.len(),
            buf@ == old(buf)@ + render_branches(branch_views(branches@.take(i as int))),
        decreases branches.len() - i,
    {
        buf.append(" elseif ");
        push_item(buf, &branches[i].0);
        buf.append(" then ");
        push_stmts(buf, &branches[i].1);
        proof {
            let done = branch_views(branches@.take(i as int));
            let next = branch_views(branches@.take(i + 1));
            assert(next.drop_last() =~= done);
            assert(next.last() == (branches@[i as int].0@, item_views(branches@[i as int].1@)));
            assert(buf@ =~= old(buf)@ + render_branches(next));
        }
        i += 1;
    }
    proof {
        assert(branches@.take(i as int) =~= branches@);
    }
}

/// Appends the text of a declaration of a variable, or of an assignment.
fn push_var(buf: &mut String, item: &Item)
    requires
        *item is VarSet || *item is VarDecl,
    ensures
        final(buf)@ == old(buf)@ + render(item@),
    decreases item, 0nat,
{
    match item {
        Item::VarDecl { name, expr } => {
            buf.append("local ");
            buf.append(name.as_str());
            buf.append(" = ");
            push_item(buf, expr);
            buf.append(";");
            proof {
                assert(buf@ =~= old(buf)@ + render(item@));
            }
        },
        Item::VarSet { name, expr } => {
            buf.append(name.as_str());
            buf.append(" = ");
            push_item(buf, expr);
            buf.append(";");
            proof {
                assert(buf@ =~= old(buf)@ + render(item@));
            }
        },
        // No other node gets here.
        _ => {},
    }
}

/// Appends the text of a module: an empty table of its name, then its items.
fn push_mod(buf: &mut String, item: &Item)
    requires
        *item is Mod,
    ensures
        final(buf)@ == old(buf)@ + render(item@),
    decreases item, 0nat,
{
    match item {
        Item::Mod { name, items } => {
            buf.append("local ");
            buf.append(name.as_str());
            buf.append(" = {};");
            push_stmts(buf, items);
            proof {
                assert(buf@ =~= old(buf)@ + render(item@));
            }
        },
        // No other node gets here.
        _ => {},
    }
}

/// Appends the text of a call.
fn push_call(buf: &mut String, item: &Item)
    requires
        *item is ExprCall,
    ensures
        final(buf)@ == old(buf)@ + render(item@),
    decreases item, 0nat,
{
    match item {
        Item::ExprCall { func, args } => {
            push_item(buf, func);
            buf.append("(");
            push_list(buf, args);
            buf.append(")");
            proof {
                assert(buf@ =~= old(buf)@ + render(item@));
            }
        },
        // No other node gets here.
        _ => {},
    }
}

/// Appends the text of an array.
fn push_array(buf: &mut String, item: &Item)
    requires
        *item is ExprArray,
    ensures
        final(buf)@ == old(buf)@ + render(item@),
    decreases item, 0nat,
{
    match item {
        Item::ExprArray { elements } => {
            buf.append("{");
            push_list(buf, elements);
            buf.append("}");
            proof {
                assert(buf@ =~= old(buf)@ + render(item@));
            }
        },
        // No other node gets here.
        _ => {},
    }
}

/// Appends the text of a binary operation.
fn push_binary(buf: &mut String, item: &Item)
    requires
        *item is ExprBinary,
    ensures
        final(buf)@ == old(buf)@ + render(item@),
    decreases item, 0nat,
{
    match item {
        Item::ExprBinary { lhs, rhs, op } => {
            push_item(buf, lhs);
            buf.append(token(*op));
            push_item(buf, rhs);
            proof {
                assert(buf@ =~= old(buf)@ + render(item@));
            }
        },
        // No other node gets here.
        _ => {},
    }
}

/// Appends the text of a format template: a call of `string.format` with the
/// text of the template and then the values.
fn push_fstring(buf: &mut String, item: &Item)
    requires
        *item is ExprFString,
    ensures
        final(buf)@ == old(buf)@ + render(item@),
    decreases item, 0nat,
{
    match item {
        Item::ExprFString { strings, replacements, values } => {
            buf.append("string.format(\"");
            push_template(buf, strings, replacements.len());
            buf.append("\"");
            push_values(buf, values);
            buf.append(")");
            proof {
                assert(buf@ =~= old(buf)@ + render(item@));
            }
        },
        // No other node gets here.
        _ => {},
    }
}

/// Appends the texts of the nodes, one after the other.
pub fn push_stmts(buf: &mut String, stmts: &Vec<Item>)
    ensures
        final(buf)@ == old(buf)@ + render_all(item_views(stmts@)),
    decreases stmts, 0nat,
{
    let mut i: usize = 0;
    while i < stmts.len()
        invariant
            i <= stmts.len(),
            buf@ == old(buf)@ + render_all(item_views(stmts@.take(i as int))),
        decreases stmts.len() - i,
    {
        push_item(buf, &stmts[i]);
        proof {
            let done = item_views(stmts@.take(i as int));
            let next = item_views(stmts@.take(i + 1));
            assert(next.drop_last() =~= done);
            assert(next.last() == stmts@[i as int]@);
            assert(buf@ =~= old(buf)@ + render_all(next));
        }
        i += 1;
    }
    proof {
        assert(stmts@.take(i as int) =~= stmts@);
    }
}

/// Appends the texts of the nodes with a comma between neighbours.
pub fn push_list(buf: &mut String, items: &Vec<Item>)
    ensures
        final(buf)@ == old(buf)@ + render_list(item_views(items@)),
    decreases items, 0nat,
{
    let mut i: usize = 0;
    while i < items.len()
        invariant
            i <= items.len(),
            buf@ == old(buf)@ + render_list(item_views(items@.take(i as int))),
        decreases items.len() - i,
    {
        if i > 0 {
            buf.append(",");
        }
        push_item(buf, &items[i]);
        proof {
            let done = item_views(items@.take(i as int));
            let next = item_views(items@.take(i + 1));
            assert(next.drop_last() =~= done);
            assert(next.last() == items@[i as int]@);
            assert(buf@ =~= old(buf)@ + render_list(next));
        }
        i += 1;
    }
    proof {
        assert(items@.take(i as int) =~= items@);
    }
}

/// Appends the texts of the nodes, each behind a comma.
pub fn push_values(buf: &mut String, items: &Vec<Item>)
    ensures
        final(buf)@ == old(buf)@ + render_values(item_views(items@)),
    decreases items, 0nat,
{
    let mut i: usize = 0;
    while i < items.len()
        invariant
            i <= items.len(),
            buf@ == old(buf)@ + render_values(item_views(items@.take(i as int))),
        decreases items.len() - i,
    {
        buf.append(",");
        push_item(buf, &items[i]);
        proof {
            let done = item_views(items@.take(i as int));
            let next = item_views(items@.take(i + 1));
            assert(next.drop_last() =~= done);
            assert(next.last() == items@[i as int]@);
            assert(buf@ =~= old(buf)@ + render_values(next));
        }
        i += 1;
    }
    proof {
        assert(items@.take(i as int) =~= items@);
    }
}

/// The Lua generator.
#[derive(Debug)]
pub struct LuaCodegen {}

impl LuaCodegen {
    /// A Lua generator.
    pub fn new() -> (r: Self)
        ensures
            r == (LuaCodegen {  }),
    {
        LuaCodegen {  }
    }
}

impl CodeGenerator for LuaCodegen {
    open spec fn rendering(&self, items: Seq<ItemView>) -> Result<Seq<char>, CodegenError> {
        Ok(render_all(items))
    }

    fn generate<A: AST>(&self, ast: &A) -> (r: Result<String, CodegenError>) {
        let mut buf = String::new();
        push_stmts(&mut buf, ast.items());
        proof {
            assert(buf@ =~= render_all(ast.nodes()));
        }
        Ok(buf)
    }
}

} // verus!
