//! The text of every node: what the Lua generator renders.
//!
//! Lua has no `continue`. Every loop therefore ends in a label, and a
//! `continue` is a jump to it.
use vstd::prelude::*;

use crate::backend::rules::format_template;
use crate::backend::{BinaryOp, ItemView};
use crate::text::{decimal_text, escaped, fragments, joined, lemma_fragments_rejoin};

verus! {

/// The token of an operator. Every tag has one.
pub open spec fn op_token(op: BinaryOp) -> Seq<char> {
    match op {
        BinaryOp::Add => "+"@,
        BinaryOp::Sub => "-"@,
        BinaryOp::Mul => "*"@,
        BinaryOp::Div => "/"@,
        BinaryOp::Mod => "%"@,
        BinaryOp::And => " and "@,
        BinaryOp::Or => " or "@,
        BinaryOp::Bxor => "~"@,
        BinaryOp::Band => "&"@,
        BinaryOp::Bor => "|"@,
        BinaryOp::Bshl => "<<"@,
        BinaryOp::Bshr => ">>"@,
        BinaryOp::Eq => "=="@,
        BinaryOp::Lt => "<"@,
        BinaryOp::Le => "<="@,
        BinaryOp::Ne => "~="@,
        BinaryOp::Ge => ">="@,
        BinaryOp::Gt => ">"@,
        BinaryOp::AddEq => "+="@,
        BinaryOp::SubEq => "-="@,
        BinaryOp::MulEq => "*="@,
        BinaryOp::DivEq => "/="@,
        BinaryOp::ModEq => "%="@,
        BinaryOp::BxorEq => "^="@,
        BinaryOp::BandEq => "&="@,
        BinaryOp::BorEq => "|="@,
        BinaryOp::BshlEq => "<<="@,
        BinaryOp::BshrEq => ">>="@,
    }
}

/// The length of the token of an operator, its first character and its last.
spec fn token_shape(op: BinaryOp) -> (nat, char, char) {
    let t = op_token(op);
    (t.len(), t[0], t[t.len() - 1])
}

/// The shapes of all tokens, written out.
proof fn lemma_token_shapes(op: BinaryOp)
    ensures
        token_shape(op) == match op {
            BinaryOp::Add => (1nat, '+', '+'),
            BinaryOp::Sub => (1nat, '-', '-'),
            BinaryOp::Mul => (1nat, '*', '*'),
            BinaryOp::Div => (1nat, '/', '/'),
            BinaryOp::Mod => (1nat, '%', '%'),
            BinaryOp::And => (5nat, ' ', ' '),
            BinaryOp::Or => (4nat, ' ', ' '),
            BinaryOp::Bxor => (1nat, '~', '~'),
            BinaryOp::Band => (1nat, '&', '&'),
            BinaryOp::Bor => (1nat, '|', '|'),
            BinaryOp::Bshl => (2nat, '<', '<'),
            BinaryOp::Bshr => (2nat, '>', '>'),
            BinaryOp::Eq => (2nat, '=', '='),
            BinaryOp::Lt => (1nat, '<', '<'),
            BinaryOp::Le => (2nat, '<', '='),
            BinaryOp::Ne => (2nat, '~', '='),
            BinaryOp::Ge => (2nat, '>', '='),
            BinaryOp::Gt => (1nat, '>', '>'),
            BinaryOp::AddEq => (2nat, '+', '='),
            BinaryOp::SubEq => (2nat, '-', '='),
            BinaryOp::MulEq => (2nat, '*', '='),
            BinaryOp::DivEq => (2nat, '/', '='),
            BinaryOp::ModEq => (2nat, '%', '='),
            BinaryOp::BxorEq => (2nat, '^', '='),
            BinaryOp::BandEq => (2nat, '&', '='),
            BinaryOp::BorEq => (2nat, '|', '='),
            BinaryOp::BshlEq => (3nat, '<', '='),
            BinaryOp::BshrEq => (3nat, '>', '='),
        },
{
    reveal_strlit("+");
    reveal_strlit("-");
    reveal_strlit("*");
    reveal_strlit("/");
    reveal_strlit("%");
    reveal_strlit(" and ");
    reveal_strlit(" or ");
    reveal_strlit("~");
    reveal_strlit("&");
    reveal_strlit("|");
    reveal_strlit("<<");
    reveal_strlit(">>");
    reveal_strlit("==");
    reveal_strlit("<");
    reveal_strlit("<=");
    reveal_strlit("~=");
    reveal_strlit(">=");
    reveal_strlit(">");
    reveal_strlit("+=");
    reveal_strlit("-=");
    reveal_strlit("*=");
    reveal_strlit("/=");
    reveal_strlit("%=");
    reveal_strlit("^=");
    reveal_strlit("&=");
    reveal_strlit("|=");
    reveal_strlit("<<=");
    reveal_strlit(">>=");
}

/// Every operator has a token, the token is not empty, and no two operators
/// share one.
pub proof fn lemma_tokens_total_and_distinct(a: BinaryOp, b: BinaryOp)
    ensures
        op_token(a).len() > 0,
        a != b ==> op_token(a) != op_token(b),
{
    lemma_token_shapes(a);
    lemma_token_shapes(b);
}

/// What closes every loop: the label that a `continue` jumps to, and the
/// closing keyword.
pub open spec fn loop_end() -> Seq<char> {
    " ::__continue__:: end;"@
}

/// The text of a format template: its pieces in their order, each of the
/// first `slots` of them followed by the placeholder `%s`.
pub open spec fn template_text(strings: Seq<Seq<char>>, slots: nat) -> Seq<char>
    decreases strings.len(),
{
    if strings.len() == 0 {
        Seq::empty()
    } else {
        template_text(strings.drop_last(), slots) + strings.last() + (if strings.len() - 1
            < slots {
            "%s"@
        } else {
            Seq::empty()
        })
    }
}

/// With a slot behind every piece, the text of a template is its pieces
/// joined by the placeholder, and one more placeholder.
proof fn lemma_template_text_full(strings: Seq<Seq<char>>, slots: nat)
    requires
        strings.len() > 0,
        slots >= strings.len(),
    ensures
        template_text(strings, slots) == joined(strings, "%s"@) + "%s"@,
    decreases strings.len(),
{
    if strings.len() == 1 {
        assert(template_text(strings.drop_last(), slots) =~= Seq::<char>::empty());
        assert(template_text(strings, slots) =~= joined(strings, "%s"@) + "%s"@);
    } else {
        lemma_template_text_full(strings.drop_last(), slots);
        assert(template_text(strings, slots) =~= joined(strings, "%s"@) + "%s"@);
    }
}

/// With one slot fewer than there are pieces, the text of a template is its
/// pieces joined by the placeholder: one placeholder between neighbours, in
/// the order of the pieces.
pub proof fn lemma_template_text_joins(strings: Seq<Seq<char>>)
    requires
        strings.len() > 0,
    ensures
        template_text(strings, (strings.len() - 1) as nat) == joined(strings, "%s"@),
{
    let slots = (strings.len() - 1) as nat;
    if strings.len() == 1 {
        assert(template_text(strings.drop_last(), slots) =~= Seq::<char>::empty());
        assert(template_text(strings, slots) =~= joined(strings, "%s"@));
    } else {
        lemma_template_text_full(strings.drop_last(), slots);
        assert(template_text(strings, slots) =~= joined(strings, "%s"@));
    }
}

/// The text that binds foreign names: each one a local alias of the entry of
/// that name in the global table.
pub open spec fn render_externs(names: Seq<Seq<char>>) -> Seq<char>
    decreases names.len(),
{
    if names.len() == 0 {
        Seq::empty()
    } else {
        render_externs(names.drop_last()) + "local "@ + names.last() + " = _G."@ + names.last()
            + ";"@
    }
}

/// The text of one node. The step of a range loop is not rendered.
pub open spec fn render(item: ItemView) -> Seq<char>
    decreases item,
{
    match item {
        ItemView::FunctionDefinition { name, params, stmts } => "function "@ + name + "("@
            + joined(params, ","@) + ")"@ + render_all(stmts) + "end;"@,
        ItemView::While { condition, stmts } => "while "@ + render(*condition) + " do "@
            + render_all(stmts) + loop_end(),
        ItemView::ForIn { var, expr, stmts } => "for "@ + var + " in "@ + render(*expr) + " do "@
            + render_all(stmts) + loop_end(),
        ItemView::ForRange { var, min, max, jump, stmts } => "for "@ + var + " = "@ + render(*min)
            + ","@ + render(*max) + " do "@ + render_all(stmts) + loop_end(),
        ItemView::IfElif(chain) => "if "@ + render(*chain.condition) + " then "@ + render_all(
            chain.stmts,
        ) + render_branches(chain.elif) + render_else(chain.else_stmts) + " end;"@,
        ItemView::VarSet { name, expr } => name + " = "@ + render(*expr) + ";"@,
        ItemView::VarDecl { name, expr } => "local "@ + name + " = "@ + render(*expr) + ";"@,
        ItemView::Break => "break;"@,
        ItemView::Continue => "goto __continue__;"@,
        ItemView::Externs { functions } => render_externs(functions),
        ItemView::Mod { name, items } => "local "@ + name + " = {};"@ + render_all(items),
        ItemView::ExprCall { func, args } => render(*func) + "("@ + render_list(args) + ")"@,
        ItemView::ExprIdent(name) => name,
        ItemView::ExprDecimal(digits) => digits,
        ItemView::ExprInteger(value) => decimal_text(value as int),
        ItemView::ExprString(value) => "\""@ + escaped(value) + "\""@,
        ItemView::ExprBool(value) => if value {
            "true"@
        } else {
            "false"@
        },
        ItemView::ExprClosure { params, stmts } => "function("@ + joined(params, ","@) + ")"@
            + render_all(stmts) + "end;"@,
        ItemView::ExprArray { elements } => "{"@ + render_list(elements) + "}"@,
        ItemView::ExprBinary { lhs, rhs, op } => render(*lhs) + op_token(op) + render(*rhs),
        ItemView::ExprFString { strings, replacements, values } => "string.format(\""@
            + template_text(strings, replacements.len()) + "\""@ + render_values(values) + ")"@,
    }
}

/// The texts of the nodes, one after the other.
pub open spec fn render_all(items: Seq<ItemView>) -> Seq<char>
    decreases items,
{
    if items.len() == 0 {
        Seq::empty()
    } else {
        render_all(items.drop_last()) + render(items.last())
    }
}

/// The texts of the nodes with a comma between neighbours.
pub open spec fn render_list(items: Seq<ItemView>) -> Seq<char>
    decreases items,
{
    if items.len() == 0 {
        Seq::empty()
    } else if items.len() == 1 {
        render(items[0])
    } else {
        render_list(items.drop_last()) + ","@ + render(items.last())
    }
}

/// The texts of the nodes, each behind a comma.
pub open spec fn render_values(items: Seq<ItemView>) -> Seq<char>
    decreases items,
{
    if items.len() == 0 {
        Seq::empty()
    } else {
        render_values(items.drop_last()) + ","@ + render(items.last())
    }
}

/// The text of the further branches of a conditional chain, in their order.
pub open spec fn render_branches(branches: Seq<(ItemView, Seq<ItemView>)>) -> Seq<char>
    decreases branches,
{
    if branches.len() == 0 {
        Seq::empty()
    } else {
        render_branches(branches.drop_last()) + " elseif "@ + render(branches.last().0)
            + " then "@ + render_all(branches.last().1)
    }
}

/// The text of the last body of a conditional chain, if there is one.
pub open spec fn render_else(stmts: Option<Seq<ItemView>>) -> Seq<char>
    decreases stmts,
{
    match stmts {
        Some(body) => " else "@ + render_all(body),
        None => Seq::empty(),
    }
}

/// The text of a sequence of nodes is the text of its front part and then
/// the text of its back part: what a node is rendered as does not depend on
/// its neighbours.
pub proof fn lemma_render_all_splits(front: Seq<ItemView>, back: Seq<ItemView>)
    ensures
        render_all(front + back) == render_all(front) + render_all(back),
    decreases back.len(),
{
    if back.len() == 0 {
        assert(front + back =~= front);
        assert(render_all(front) + render_all(back) =~= render_all(front));
    } else {
        lemma_render_all_splits(front, back.drop_last());
        assert((front + back).drop_last() =~= front + back.drop_last());
        assert((front + back).last() == back.last());
        assert(render_all(front + back) =~= render_all(front) + render_all(back));
    }
}

/// The label that a `continue` jumps to.
pub open spec fn continue_label() -> Seq<char> {
    "::__continue__::"@
}

/// Whether an occurrence of the label ends at the end of `s`.
pub open spec fn ends_in_label(s: Seq<char>) -> bool {
    s.len() >= continue_label().len() && s.subrange(
        s.len() - continue_label().len(),
        s.len() as int,
    ) == continue_label()
}

/// How many times the label occurs in `s`.
pub open spec fn label_count(s: Seq<char>) -> nat
    decreases s.len(),
{
    if s.len() == 0 {
        0
    } else {
        label_count(s.drop_last()) + (if ends_in_label(s) {
            1nat
        } else {
            0nat
        })
    }
}

/// The text of a loop before its body.
pub open spec fn loop_head(item: ItemView) -> Seq<char> {
    match item {
        ItemView::While { condition, .. } => "while "@ + render(*condition) + " do "@,
        ItemView::ForIn { var, expr, .. } => "for "@ + var + " in "@ + render(*expr) + " do "@,
        ItemView::ForRange { var, min, max, .. } => "for "@ + var + " = "@ + render(*min) + ","@
            + render(*max) + " do "@,
        _ => Seq::empty(),
    }
}

/// The body of a loop.
pub open spec fn loop_body(item: ItemView) -> Seq<ItemView> {
    match item {
        ItemView::While { stmts, .. } => stmts,
        ItemView::ForIn { stmts, .. } => stmts,
        ItemView::ForRange { stmts, .. } => stmts,
        _ => Seq::empty(),
    }
}

/// Appending the first `k` characters of the end of a loop to a text adds
/// one occurrence of the label once the label is complete, and none before.
proof fn lemma_label_count_grows(text: Seq<char>, k: int)
    requires
        0 <= k <= loop_end().len(),
    ensures
        label_count(text + loop_end().take(k)) == label_count(text) + (if k >= 17 {
            1nat
        } else {
            0nat
        }),
    decreases k,
{
    reveal_strlit("::__continue__::");
    reveal_strlit(" ::__continue__:: end;");
    let label = continue_label();
    let end = loop_end();
    let s = text + end.take(k);
    if k == 0 {
        assert(s =~= text);
    } else {
        lemma_label_count_grows(text, k - 1);
        assert(s.drop_last() =~= text + end.take(k - 1));
        let window = s.subrange(s.len() - 16, s.len() as int);
        if s.len() >= 16 {
            if k <= 16 {
                assert(window[16 - k] == end[0]);
                assert(label[16 - k] != ' ');
            } else if k == 17 {
                assert(window =~= label);
            } else {
                assert(window[15] == end[k - 1]);
            }
        }
    }
}

/// The text of a loop is its head, its body, and then the label and the
/// closing keyword; with them the label occurs exactly once more than in
/// the head and the body, whatever the body holds.
pub proof fn lemma_loop_ends_in_one_label(item: ItemView)
    requires
        item is While || item is ForIn || item is ForRange,
    ensures
        render(item) == loop_head(item) + render_all(loop_body(item)) + loop_end(),
        label_count(render(item)) == label_count(loop_head(item) + render_all(loop_body(item)))
            + 1,
{
    let before = loop_head(item) + render_all(loop_body(item));
    assert(render(item) =~= before + loop_end());
    lemma_label_count_grows(before, loop_end().len() as int);
    reveal_strlit(" ::__continue__:: end;");
    assert(loop_end().take(loop_end().len() as int) =~= loop_end());
}

/// The text of a translated format call holds the pieces of its template in
/// their order with one placeholder in place of each marker, and then the
/// values.
pub proof fn lemma_format_call_text(template: Seq<char>, values: Seq<ItemView>)
    ensures
        render(format_template(template, values)) == "string.format(\""@ + joined(
            fragments(template),
            "%s"@,
        ) + "\""@ + render_values(values) + ")"@,
{
    lemma_fragments_rejoin(template);
    lemma_template_text_joins(fragments(template));
}

} // verus!
