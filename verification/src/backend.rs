//! The intermediate representation, and what a translator into it owes.
use vstd::prelude::*;

use crate::syntax::{BinOp, SourceFile, SourceFileView};
use crate::text::{check_decimal_literal, is_decimal_literal, texts};

pub mod rules;
pub mod syn;

pub use self::syn::SynBackend as Backend;

verus! {

/// Why a translation failed. Every failure ends the translation of the whole
/// compilation unit.
#[derive(Debug, Clone, Copy, PartialEq, Eq, Structural)]
pub enum BackendError {
    /// A piece of source text could not be read: a numeric literal that does
    /// not fit the target width, or macro arguments that are no expressions.
    ParseError,
    /// A syntax shape or a macro name that has no meaning in the
    /// intermediate representation.
    UnsupportedConstruct,
    /// A well-formed shape that binds or assigns in a way that is not
    /// allowed: no initializer, a target that is no simple name, a format
    /// call whose first argument is no string literal.
    IllFormedBinding,
}

/// The operator tags: arithmetic, logical, bitwise and comparison operators,
/// and the compound assignment forms of the arithmetic and bitwise ones.
#[derive(Debug, Clone, Copy, PartialEq, Eq, Structural)]
pub enum BinaryOp {
    Add,
    Sub,
    Mul,
    Div,
    Mod,
    And,
    Or,
    Bxor,
    Band,
    Bor,
    Bshl,
    Bshr,
    Eq,
    Lt,
    Le,
    Ne,
    Ge,
    Gt,
    AddEq,
    SubEq,
    MulEq,
    DivEq,
    ModEq,
    BxorEq,
    BandEq,
    BorEq,
    BshlEq,
    BshrEq,
}

/// The tag of a source operator.
pub open spec fn operator_tag(x: BinOp) -> BinaryOp {
    match x {
        BinOp::Add => BinaryOp::Add,
        BinOp::Sub => BinaryOp::Sub,
        BinOp::Mul => BinaryOp::Mul,
        BinOp::Div => BinaryOp::Div,
        BinOp::Rem => BinaryOp::Mod,
        BinOp::And => BinaryOp::And,
        BinOp::Or => BinaryOp::Or,
        BinOp::BitXor => BinaryOp::Bxor,
        BinOp::BitAnd => BinaryOp::Band,
        BinOp::BitOr => BinaryOp::Bor,
        BinOp::Shl => BinaryOp::Bshl,
        BinOp::Shr => BinaryOp::Bshr,
        BinOp::Eq => BinaryOp::Eq,
        BinOp::Lt => BinaryOp::Lt,
        BinOp::Le => BinaryOp::Le,
        BinOp::Ne => BinaryOp::Ne,
        BinOp::Ge => BinaryOp::Ge,
        BinOp::Gt => BinaryOp::Gt,
        BinOp::AddEq => BinaryOp::AddEq,
        BinOp::SubEq => BinaryOp::SubEq,
        BinOp::MulEq => BinaryOp::MulEq,
        BinOp::DivEq => BinaryOp::DivEq,
        BinOp::RemEq => BinaryOp::ModEq,
        BinOp::BitXorEq => BinaryOp::BxorEq,
        BinOp::BitAndEq => BinaryOp::BandEq,
        BinOp::BitOrEq => BinaryOp::BorEq,
        BinOp::ShlEq => BinaryOp::BshlEq,
        BinOp::ShrEq => BinaryOp::BshrEq,
    }
}

impl From<BinOp> for BinaryOp {
    fn from(x: BinOp) -> (r: BinaryOp) {
        match x {
            BinOp::Add => BinaryOp::Add,
            BinOp::Sub => BinaryOp::Sub,
            BinOp::Mul => BinaryOp::Mul,
            BinOp::Div => BinaryOp::Div,
            BinOp::Rem => BinaryOp::Mod,
            BinOp::And => BinaryOp::And,
            BinOp::Or => BinaryOp::Or,
            BinOp::BitXor => BinaryOp::Bxor,
            BinOp::BitAnd => BinaryOp::Band,
            BinOp::BitOr => BinaryOp::Bor,
            BinOp::Shl => BinaryOp::Bshl,
            BinOp::Shr => BinaryOp::Bshr,
            BinOp::Eq => BinaryOp::Eq,
            BinOp::Lt => BinaryOp::Lt,
            BinOp::Le => BinaryOp::Le,
            BinOp::Ne => BinaryOp::Ne,
            BinOp::Ge => BinaryOp::Ge,
            BinOp::Gt => BinaryOp::Gt,
            BinOp::AddEq => BinaryOp::AddEq,
            BinOp::SubEq => BinaryOp::SubEq,
            BinOp::MulEq => BinaryOp::MulEq,
            BinOp::DivEq => BinaryOp::DivEq,
            BinOp::RemEq => BinaryOp::ModEq,
            BinOp::BitXorEq => BinaryOp::BxorEq,
            BinOp::BitAndEq => BinaryOp::BandEq,
            BinOp::BitOrEq => BinaryOp::BorEq,
            BinOp::ShlEq => BinaryOp::BshlEq,
            BinOp::ShrEq => BinaryOp::BshrEq,
        }
    }
}

impl vstd::std_specs::convert::FromSpecImpl<BinOp> for BinaryOp {
    open spec fn obeys_from_spec() -> bool {
        true
    }

    open spec fn from_spec(x: BinOp) -> BinaryOp {
        operator_tag(x)
    }
}

impl BinaryOp {
    /// The operator that a compound assignment applies before it assigns;
    /// `None` for a tag that is no compound assignment.
    pub open spec fn base_of(self) -> Option<BinaryOp> {
        match self {
            BinaryOp::AddEq => Some(BinaryOp::Add),
            BinaryOp::SubEq => Some(BinaryOp::Sub),
            BinaryOp::MulEq => Some(BinaryOp::Mul),
            BinaryOp::DivEq => Some(BinaryOp::Div),
            BinaryOp::ModEq => Some(BinaryOp::Mod),
            BinaryOp::BxorEq => Some(BinaryOp::Bxor),
            BinaryOp::BandEq => Some(BinaryOp::Band),
            BinaryOp::BorEq => Some(BinaryOp::Bor),
            BinaryOp::BshlEq => Some(BinaryOp::Bshl),
            BinaryOp::BshrEq => Some(BinaryOp::Bshr),
            _ => None,
        }
    }

    /// The operator that a compound assignment applies before it assigns.
    pub fn base(self) -> (r: Option<BinaryOp>)
        ensures
            r == self.base_of(),
    {
        match self {
            BinaryOp::AddEq => Some(BinaryOp::Add),
            BinaryOp::SubEq => Some(BinaryOp::Sub),
            BinaryOp::MulEq => Some(BinaryOp::Mul),
            BinaryOp::DivEq => Some(BinaryOp::Div),
            BinaryOp::ModEq => Some(BinaryOp::Mod),
            BinaryOp::BxorEq => Some(BinaryOp::Bxor),
            BinaryOp::BandEq => Some(BinaryOp::Band),
            BinaryOp::BorEq => Some(BinaryOp::Bor),
            BinaryOp::BshlEq => Some(BinaryOp::Bshl),
            BinaryOp::BshrEq => Some(BinaryOp::Bshr),
            _ => None,
        }
    }
}

/// A decimal literal, held as its text. It stands where a floating-point
/// number is meant: the text is always one that `is_decimal_literal`
/// accepts, and it is rendered as it is.
#[derive(Debug, PartialEq, Eq)]
pub struct Decimal {
    digits: String,
}

impl View for Decimal {
    type V = Seq<char>;

    closed spec fn view(&self) -> Seq<char> {
        self.digits@
    }
}

impl Decimal {
    #[verifier::type_invariant]
    spec fn well_formed(self) -> bool {
        is_decimal_literal(self.digits@)
    }

    /// Reads a decimal literal: `None` for a text that is none.
    pub fn parse(text: &str) -> (r: Option<Decimal>)
        ensures
            match r {
                Some(decimal) => decimal@ == text@ && is_decimal_literal(text@),
                None => !is_decimal_literal(text@),
            },
    {
        if check_decimal_literal(text) {
            Some(Decimal { digits: String::from_str(text) })
        } else {
            None
        }
    }

    /// The text of the literal.
    pub fn as_str(&self) -> (r: &str)
        ensures
            r@ == self@,
            is_decimal_literal(r@),
    {
        proof {
            use_type_invariant(self);
        }
        self.digits.as_str()
    }
}

/// A conditional chain: a first condition with its body, further conditions
/// with their bodies in the order in which they are tried, and a last body
/// for the case that no condition held.
#[derive(Debug, PartialEq, Eq)]
pub struct IfElif {
    pub condition: Box<Item>,
    pub stmts: Vec<Item>,
    pub elif: Vec<(Item, Vec<Item>)>,
    pub else_stmts: Option<Vec<Item>>,
}

/// A node of the intermediate representation: a statement or an expression.
#[derive(Debug, PartialEq, Eq)]
pub enum Item {
    FunctionDefinition { name: String, params: Vec<String>, stmts: Vec<Item> },
    While { condition: Box<Item>, stmts: Vec<Item> },
    /// `for var in expr`.
    ForIn { var: String, expr: Box<Item>, stmts: Vec<Item> },
    /// `for var = min, max`, with an optional step.
    ForRange {
        var: String,
        min: Box<Item>,
        max: Box<Item>,
        jump: Option<Box<Item>>,
        stmts: Vec<Item>,
    },
    IfElif(IfElif),
    VarSet { name: String, expr: Box<Item> },
    VarDecl { name: String, expr: Box<Item> },
    Break,
    Continue,
    /// Names that are bound outside the compilation unit.
    Externs { functions: Vec<String> },
    Mod { name: String, items: Vec<Item> },
    ExprCall { func: Box<Item>, args: Vec<Item> },
    ExprIdent(String),
    ExprDecimal(Decimal),
    ExprInteger(i64),
    ExprString(String),
    ExprBool(bool),
    ExprClosure { params: Vec<String>, stmts: Vec<Item> },
    /// The elements of an array or of a tuple.
    ExprArray { elements: Vec<Item> },
    ExprBinary { lhs: Box<Item>, rhs: Box<Item>, op: BinaryOp },
    /// A format template: the pieces of its text, the numbers of the slots
    /// between them, and the values that fill the slots.
    ExprFString { strings: Vec<String>, replacements: Vec<u16>, values: Vec<Item> },
}

/// The model of a conditional chain.
pub ghost struct IfElifView {
    pub condition: Box<ItemView>,
    pub stmts: Seq<ItemView>,
    pub elif: Seq<(ItemView, Seq<ItemView>)>,
    pub else_stmts: Option<Seq<ItemView>>,
}

/// The model of a node: the same tree over sequences of characters and of
/// nodes.
pub ghost enum ItemView {
    FunctionDefinition { name: Seq<char>, params: Seq<Seq<char>>, stmts: Seq<ItemView> },
    While { condition: Box<ItemView>, stmts: Seq<ItemView> },
    ForIn { var: Seq<char>, expr: Box<ItemView>, stmts: Seq<ItemView> },
    ForRange {
        var: Seq<char>,
        min: Box<ItemView>,
        max: Box<ItemView>,
        jump: Option<Box<ItemView>>,
        stmts: Seq<ItemView>,
    },
    IfElif(IfElifView),
    VarSet { name: Seq<char>, expr: Box<ItemView> },
    VarDecl { name: Seq<char>, expr: Box<ItemView> },
    Break,
    Continue,
    Externs { functions: Seq<Seq<char>> },
    Mod { name: Seq<char>, items: Seq<ItemView> },
    ExprCall { func: Box<ItemView>, args: Seq<ItemView> },
    ExprIdent(Seq<char>),
    ExprDecimal(Seq<char>),
    ExprInteger(i64),
    ExprString(Seq<char>),
    ExprBool(bool),
    ExprClosure { params: Seq<Seq<char>>, stmts: Seq<ItemView> },
    ExprArray { elements: Seq<ItemView> },
    ExprBinary { lhs: Box<ItemView>, rhs: Box<ItemView>, op: BinaryOp },
    ExprFString { strings: Seq<Seq<char>>, replacements: Seq<u16>, values: Seq<ItemView> },
}

/// The model of one node.
pub open spec fn item_view(item: Item) -> ItemView
    decreases item,
{
    match item {
        Item::FunctionDefinition { name, params, stmts } => ItemView::FunctionDefinition {
            name: name@,
            params: texts(params@),
            stmts: item_views(stmts@),
        },
        Item::While { condition, stmts } => ItemView::While {
            condition: Box::new(item_view(*condition)),
            stmts: item_views(stmts@),
        },
        Item::ForIn { var, expr, stmts } => ItemView::ForIn {
            var: var@,
            expr: Box::new(item_view(*expr)),
            stmts: item_views(stmts@),
        },
        Item::ForRange { var, min, max, jump, stmts } => ItemView::ForRange {
            var: var@,
            min: Box::new(item_view(*min)),
            max: Box::new(item_view(*max)),
            jump: match jump {
                Some(step) => Some(Box::new(item_view(*step))),
                None => None,
            },
            stmts: item_views(stmts@),
        },
        Item::IfElif(chain) => ItemView::IfElif(if_elif_view(chain)),
        Item::VarSet { name, expr } => ItemView::VarSet {
            name: name@,
            expr: Box::new(item_view(*expr)),
        },
        Item::VarDecl { name, expr } => ItemView::VarDecl {
            name: name@,
            expr: Box::new(item_view(*expr)),
        },
        Item::Break => ItemView::Break,
        Item::Continue => ItemView::Continue,
        Item::Externs { functions } => ItemView::Externs { functions: texts(functions@) },
        Item::Mod { name, items } => ItemView::Mod { name: name@, items: item_views(items@) },
        Item::ExprCall { func, args } => ItemView::ExprCall {
            func: Box::new(item_view(*func)),
            args: item_views(args@),
        },
        Item::ExprIdent(name) => ItemView::ExprIdent(name@),
        Item::ExprDecimal(decimal) => ItemView::ExprDecimal(decimal@),
        Item::ExprInteger(value) => ItemView::ExprInteger(value),
        Item::ExprString(value) => ItemView::ExprString(value@),
        Item::ExprBool(value) => ItemView::ExprBool(value),
        Item::ExprClosure { params, stmts } => ItemView::ExprClosure {
            params: texts(params@),
            stmts: item_views(stmts@),
        },
        Item::ExprArray { elements } => ItemView::ExprArray { elements: item_views(elements@) },
        Item::ExprBinary { lhs, rhs, op } => ItemView::ExprBinary {
            lhs: Box::new(item_view(*lhs)),
            rhs: Box::new(item_view(*rhs)),
            op,
        },
        Item::ExprFString { strings, replacements, values } => ItemView::ExprFString {
            strings: texts(strings@),
            replacements: replacements@,
            values: item_views(values@),
        },
    }
}

/// The models of a sequence of nodes, in their order.
pub open spec fn item_views(items: Seq<Item>) -> Seq<ItemView>
    decreases items,
{
    Seq::new(
        items.len(),
        |i: int|
            if 0 <= i < items.len() {
                item_view(items[i])
            } else {
                ItemView::Break
            },
    )
}

/// The model of a conditional chain.
pub open spec fn if_elif_view(chain: IfElif) -> IfElifView
    decreases chain,
{
    IfElifView {
        condition: Box::new(item_view(*chain.condition)),
        stmts: item_views(chain.stmts@),
        elif: branch_views(chain.elif@),
        else_stmts: match chain.else_stmts {
            Some(stmts) => Some(item_views(stmts@)),
            None => None,
        },
    }
}

/// The models of the further branches of a conditional chain, in their order.
pub open spec fn branch_views(branches: Seq<(Item, Vec<Item>)>) -> Seq<(ItemView, Seq<ItemView>)>
    decreases branches,
{
    Seq::new(
        branches.len(),
        |i: int|
            if 0 <= i < branches.len() {
                (item_view(branches[i].0), item_views(branches[i].1@))
            } else {
                (ItemView::Break, Seq::empty())
            },
    )
}

impl View for Item {
    type V = ItemView;

    open spec fn view(&self) -> ItemView {
        item_view(*self)
    }
}

impl View for IfElif {
    type V = IfElifView;

    open spec fn view(&self) -> IfElifView {
        if_elif_view(*self)
    }
}

/// A translated compilation unit.
pub trait AST: Sized {
    /// The nodes that a compilation unit is translated to, or the error that
    /// ends its translation.
    spec fn translation(source: SourceFileView) -> Result<Seq<ItemView>, BackendError>;

    /// The top-level nodes, as models.
    spec fn nodes(&self) -> Seq<ItemView>;

    /// Translates a compilation unit.
    fn generate(source: &SourceFile) -> (r: Result<Self, BackendError>)
        ensures
            match r {
                Ok(ast) => Self::translation(source@) == Ok::<Seq<ItemView>, BackendError>(
                    ast.nodes(),
                ),
                Err(e) => Self::translation(source@) == Err::<Seq<ItemView>, BackendError>(e),
            },
    ;

    /// The top-level nodes.
    fn items(&self) -> (r: &Vec<Item>)
        ensures
            item_views(r@) == self.nodes(),
    ;
}

} // verus!
