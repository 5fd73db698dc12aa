use smyth::backend::syn::{
    expr_to_item, exprs_to_items, flatten_path, slots, stmt_to_item, syn_item_to_item,
};
use smyth::backend::{Backend, BackendError, BinaryOp, Decimal, IfElif, Item, AST};
use smyth::syntax::{BinOp, Decl, Expr, FnArg, ForeignDecl, Lit, Pat, SourceFile, Stmt};

const COMPOUND: [(BinOp, BinOp, BinaryOp); 10] = [
    (BinOp::AddEq, BinOp::Add, BinaryOp::Add),
    (BinOp::SubEq, BinOp::Sub, BinaryOp::Sub),
    (BinOp::MulEq, BinOp::Mul, BinaryOp::Mul),
    (BinOp::DivEq, BinOp::Div, BinaryOp::Div),
    (BinOp::RemEq, BinOp::Rem, BinaryOp::Mod),
    (BinOp::BitXorEq, BinOp::BitXor, BinaryOp::Bxor),
    (BinOp::BitAndEq, BinOp::BitAnd, BinaryOp::Band),
    (BinOp::BitOrEq, BinOp::BitOr, BinaryOp::Bor),
    (BinOp::ShlEq, BinOp::Shl, BinaryOp::Bshl),
    (BinOp::ShrEq, BinOp::Shr, BinaryOp::Bshr),
];

fn path(name: &str) -> Expr {
    Expr::Path { segments: vec![name.to_string()] }
}

fn qualified(segments: &[&str]) -> Expr {
    Expr::Path { segments: segments.iter().map(|s| s.to_string()).collect() }
}

fn integer(digits: &str) -> Expr {
    Expr::Lit(Lit::Int(digits.to_string()))
}

fn text_literal(value: &str) -> Expr {
    Expr::Lit(Lit::Str(value.to_string()))
}

fn macro_call(name: &str, args: Vec<Expr>) -> Expr {
    Expr::Macro { path: vec![name.to_string()], parsed: Some(args) }
}

fn ident(name: &str) -> Item {
    Item::ExprIdent(name.to_string())
}

fn function(name: &str, body: Vec<Stmt>) -> Decl {
    Decl::Fn { is_extern: false, name: name.to_string(), inputs: vec![], body }
}

fn unit(items: Vec<Decl>) -> Result<Vec<Item>, BackendError> {
    Backend::generate(&SourceFile { items }).map(|ast| ast.items)
}

#[test]
fn operators_keep_their_meaning() {
    assert_eq!(BinaryOp::from(BinOp::Add), BinaryOp::Add);
    assert_eq!(BinaryOp::from(BinOp::Sub), BinaryOp::Sub);
    assert_eq!(BinaryOp::from(BinOp::Mul), BinaryOp::Mul);
    assert_eq!(BinaryOp::from(BinOp::Div), BinaryOp::Div);
    assert_eq!(BinaryOp::from(BinOp::Rem), BinaryOp::Mod);
    assert_eq!(BinaryOp::from(BinOp::And), BinaryOp::And);
    assert_eq!(BinaryOp::from(BinOp::Or), BinaryOp::Or);
    assert_eq!(BinaryOp::from(BinOp::BitXor), BinaryOp::Bxor);
    assert_eq!(BinaryOp::from(BinOp::BitAnd), BinaryOp::Band);
    assert_eq!(BinaryOp::from(BinOp::BitOr), BinaryOp::Bor);
    assert_eq!(BinaryOp::from(BinOp::Shl), BinaryOp::Bshl);
    assert_eq!(BinaryOp::from(BinOp::Shr), BinaryOp::Bshr);
    assert_eq!(BinaryOp::from(BinOp::Eq), BinaryOp::Eq);
    assert_eq!(BinaryOp::from(BinOp::Lt), BinaryOp::Lt);
    assert_eq!(BinaryOp::from(BinOp::Le), BinaryOp::Le);
    assert_eq!(BinaryOp::from(BinOp::Ne), BinaryOp::Ne);
    assert_eq!(BinaryOp::from(BinOp::Ge), BinaryOp::Ge);
    assert_eq!(BinaryOp::from(BinOp::Gt), BinaryOp::Gt);
    assert_eq!(BinaryOp::from(BinOp::AddEq), BinaryOp::AddEq);
    assert_eq!(BinaryOp::from(BinOp::SubEq), BinaryOp::SubEq);
    assert_eq!(BinaryOp::from(BinOp::MulEq), BinaryOp::MulEq);
    assert_eq!(BinaryOp::from(BinOp::DivEq), BinaryOp::DivEq);
    assert_eq!(BinaryOp::from(BinOp::RemEq), BinaryOp::ModEq);
    assert_eq!(BinaryOp::from(BinOp::BitXorEq), BinaryOp::BxorEq);
    assert_eq!(BinaryOp::from(BinOp::BitAndEq), BinaryOp::BandEq);
    assert_eq!(BinaryOp::from(BinOp::BitOrEq), BinaryOp::BorEq);
    assert_eq!(BinaryOp::from(BinOp::ShlEq), BinaryOp::BshlEq);
    assert_eq!(BinaryOp::from(BinOp::ShrEq), BinaryOp::BshrEq);
}

#[test]
fn base_of_a_compound_operator() {
    for (compound, base, tag) in COMPOUND {
        assert_eq!(BinaryOp::from(compound).base(), Some(tag));
        assert_eq!(BinaryOp::from(base), tag);
        assert_eq!(tag.base(), None);
    }
    assert_eq!(BinaryOp::Eq.base(), None);
    assert_eq!(BinaryOp::And.base(), None);
}

#[test]
fn compound_assignment_equals_plain_assignment_of_the_sum() {
    let compound = Expr::AssignOp {
        left: Box::new(path("x")),
        op: BinOp::AddEq,
        right: Box::new(integer("5")),
    };
    let plain = Expr::Assign {
        left: Box::new(path("x")),
        right: Box::new(Expr::Binary {
            left: Box::new(path("x")),
            op: BinOp::Add,
            right: Box::new(integer("5")),
        }),
    };
    let expected = Item::VarSet {
        name: "x".to_string(),
        expr: Box::new(Item::ExprBinary {
            lhs: Box::new(ident("x")),
            rhs: Box::new(Item::ExprInteger(5)),
            op: BinaryOp::Add,
        }),
    };
    assert_eq!(expr_to_item(&compound), Ok(expected));
    assert_eq!(expr_to_item(&compound), expr_to_item(&plain));
}

#[test]
fn every_compound_assignment_equals_its_plain_form() {
    for (compound, base, tag) in COMPOUND {
        let short = Expr::AssignOp {
            left: Box::new(path("total")),
            op: compound,
            right: Box::new(path("step")),
        };
        let long = Expr::Assign {
            left: Box::new(path("total")),
            right: Box::new(Expr::Binary {
                left: Box::new(path("total")),
                op: base,
                right: Box::new(path("step")),
            }),
        };
        let expected = Item::VarSet {
            name: "total".to_string(),
            expr: Box::new(Item::ExprBinary {
                lhs: Box::new(ident("total")),
                rhs: Box::new(ident("step")),
                op: tag,
            }),
        };
        assert_eq!(expr_to_item(&short), Ok(expected));
        assert_eq!(expr_to_item(&short), expr_to_item(&long));
    }
}

#[test]
fn compound_assignment_and_plain_form_fail_alike() {
    let short = Expr::AssignOp {
        left: Box::new(path("x")),
        op: BinOp::SubEq,
        right: Box::new(Expr::Other),
    };
    let long = Expr::Assign {
        left: Box::new(path("x")),
        right: Box::new(Expr::Binary {
            left: Box::new(path("x")),
            op: BinOp::Sub,
            right: Box::new(Expr::Other),
        }),
    };
    assert_eq!(expr_to_item(&short), Err(BackendError::UnsupportedConstruct));
    assert_eq!(expr_to_item(&short), expr_to_item(&long));
}

#[test]
fn compound_assignment_to_what_is_no_simple_name_is_ill_formed() {
    for target in [
        qualified(&["a", "b"]),
        qualified(&[]),
        integer("1"),
        Expr::Call { func: Box::new(path("f")), args: vec![] },
        Expr::Other,
    ] {
        let expr = Expr::AssignOp { left: Box::new(target), op: BinOp::AddEq, right: Box::new(integer("1")) };
        assert_eq!(expr_to_item(&expr), Err(BackendError::IllFormedBinding));
    }
}

#[test]
fn assignment_to_what_is_no_simple_name_is_ill_formed() {
    let expr = Expr::Assign { left: Box::new(qualified(&["a", "b"])), right: Box::new(integer("1")) };
    assert_eq!(expr_to_item(&expr), Err(BackendError::IllFormedBinding));
}

#[test]
fn assign_op_with_a_plain_operator_is_unsupported() {
    let expr = Expr::AssignOp { left: Box::new(path("x")), op: BinOp::Add, right: Box::new(integer("1")) };
    assert_eq!(expr_to_item(&expr), Err(BackendError::UnsupportedConstruct));
    let expr = Expr::AssignOp {
        left: Box::new(Expr::Other),
        op: BinOp::Eq,
        right: Box::new(integer("1")),
    };
    assert_eq!(expr_to_item(&expr), Err(BackendError::UnsupportedConstruct));
}

#[test]
fn format_call_is_decomposed() {
    let expr = macro_call("format", vec![text_literal("{}-{}"), path("a"), path("b")]);
    let expected = Item::ExprFString {
        strings: vec!["".to_string(), "-".to_string(), "".to_string()],
        replacements: vec![1, 2],
        values: vec![ident("a"), ident("b")],
    };
    assert_eq!(expr_to_item(&expr), Ok(expected));
}

#[test]
fn format_call_without_markers() {
    let expr = macro_call("format", vec![text_literal("plain")]);
    let expected = Item::ExprFString {
        strings: vec!["plain".to_string()],
        replacements: vec![],
        values: vec![],
    };
    assert_eq!(expr_to_item(&expr), Ok(expected));
}

#[test]
fn format_call_does_not_count_its_values() {
    let expr = macro_call("format", vec![text_literal("{} and {}"), path("a")]);
    let expected = Item::ExprFString {
        strings: vec!["".to_string(), " and ".to_string(), "".to_string()],
        replacements: vec![1, 2],
        values: vec![ident("a")],
    };
    assert_eq!(expr_to_item(&expr), Ok(expected));
}

#[test]
fn format_call_needs_a_string_literal_first() {
    assert_eq!(
        expr_to_item(&macro_call("format", vec![])),
        Err(BackendError::IllFormedBinding)
    );
    assert_eq!(
        expr_to_item(&macro_call("format", vec![path("template"), path("a")])),
        Err(BackendError::IllFormedBinding)
    );
    assert_eq!(
        expr_to_item(&macro_call("format", vec![Expr::Other])),
        Err(BackendError::IllFormedBinding)
    );
}

#[test]
fn format_call_fails_with_the_error_of_its_first_bad_value() {
    let expr = macro_call("format", vec![text_literal("{}{}"), integer("x"), Expr::Other]);
    assert_eq!(expr_to_item(&expr), Err(BackendError::ParseError));
}

#[test]
fn slots_count_from_one() {
    assert_eq!(slots(0), Vec::<u16>::new());
    assert_eq!(slots(3), vec![1, 2, 3]);
}

#[test]
fn slots_wrap_at_sixteen_bits() {
    let all = slots(65537);
    assert_eq!(all.len(), 65537);
    assert_eq!(all[0], 1);
    assert_eq!(all[65534], 65535);
    assert_eq!(all[65535], 0);
    assert_eq!(all[65536], 1);
}

#[test]
fn print_call_becomes_a_call_of_print() {
    let expr = macro_call("println", vec![text_literal("Hello"), path("a")]);
    let expected = Item::ExprCall {
        func: Box::new(ident("print")),
        args: vec![Item::ExprString("Hello".to_string()), ident("a")],
    };
    assert_eq!(expr_to_item(&expr), Ok(expected));
}

#[test]
fn other_macros_are_unsupported() {
    assert_eq!(
        expr_to_item(&macro_call("vec", vec![integer("1")])),
        Err(BackendError::UnsupportedConstruct)
    );
    let qualified_name = Expr::Macro {
        path: vec!["std".to_string(), "println".to_string()],
        parsed: Some(vec![]),
    };
    assert_eq!(expr_to_item(&qualified_name), Err(BackendError::UnsupportedConstruct));
    let unread = Expr::Macro { path: vec!["matches".to_string()], parsed: None };
    assert_eq!(expr_to_item(&unread), Err(BackendError::UnsupportedConstruct));
}

#[test]
fn macro_arguments_that_are_no_expressions_are_a_parse_error() {
    let print = Expr::Macro { path: vec!["println".to_string()], parsed: None };
    let format = Expr::Macro { path: vec!["format".to_string()], parsed: None };
    assert_eq!(expr_to_item(&print), Err(BackendError::ParseError));
    assert_eq!(expr_to_item(&format), Err(BackendError::ParseError));
}

#[test]
fn literals_become_literal_nodes() {
    assert_eq!(expr_to_item(&Expr::Lit(Lit::Bool(true))), Ok(Item::ExprBool(true)));
    assert_eq!(expr_to_item(&text_literal("a{}b")), Ok(Item::ExprString("a{}b".to_string())));
    assert_eq!(expr_to_item(&integer("5")), Ok(Item::ExprInteger(5)));
    assert_eq!(
        expr_to_item(&integer("9223372036854775807")),
        Ok(Item::ExprInteger(i64::MAX))
    );
    assert_eq!(
        expr_to_item(&Expr::Lit(Lit::Float("1.5".to_string()))),
        Ok(Item::ExprDecimal(Decimal::parse("1.5").unwrap()))
    );
}

#[test]
fn literals_that_cannot_be_read_are_a_parse_error() {
    assert_eq!(expr_to_item(&integer("9223372036854775808")), Err(BackendError::ParseError));
    assert_eq!(expr_to_item(&integer("")), Err(BackendError::ParseError));
    assert_eq!(expr_to_item(&integer("12ab")), Err(BackendError::ParseError));
    assert_eq!(
        expr_to_item(&Expr::Lit(Lit::Float("1.5.2".to_string()))),
        Err(BackendError::ParseError)
    );
    assert_eq!(
        expr_to_item(&Expr::Lit(Lit::Float("nan".to_string()))),
        Err(BackendError::ParseError)
    );
}

#[test]
fn other_literals_are_unsupported() {
    assert_eq!(expr_to_item(&Expr::Lit(Lit::Other)), Err(BackendError::UnsupportedConstruct));
}

#[test]
fn qualified_name_is_flattened() {
    assert_eq!(expr_to_item(&path("x")), Ok(ident("x")));
    assert_eq!(expr_to_item(&qualified(&["namespace", "test"])), Ok(ident("namespace__test")));
    assert_eq!(expr_to_item(&qualified(&["a", "b", "c"])), Ok(ident("a__b__c")));
    assert_eq!(flatten_path(&vec!["std".to_string(), "mem".to_string()]), "std__mem");
}

#[test]
fn call_keeps_callee_and_arguments() {
    let expr = Expr::Call {
        func: Box::new(qualified(&["namespace", "test"])),
        args: vec![integer("1"), integer("2"), integer("3")],
    };
    let expected = Item::ExprCall {
        func: Box::new(ident("namespace__test")),
        args: vec![Item::ExprInteger(1), Item::ExprInteger(2), Item::ExprInteger(3)],
    };
    assert_eq!(expr_to_item(&expr), Ok(expected));
}

#[test]
fn binary_operation_keeps_its_operator() {
    let expr = Expr::Binary {
        left: Box::new(path("a")),
        op: BinOp::Add,
        right: Box::new(Expr::Binary {
            left: Box::new(path("b")),
            op: BinOp::Mul,
            right: Box::new(path("c")),
        }),
    };
    let expected = Item::ExprBinary {
        lhs: Box::new(ident("a")),
        rhs: Box::new(Item::ExprBinary {
            lhs: Box::new(ident("b")),
            rhs: Box::new(ident("c")),
            op: BinaryOp::Mul,
        }),
        op: BinaryOp::Add,
    };
    assert_eq!(expr_to_item(&expr), Ok(expected));
}

#[test]
fn array_and_tuple_become_the_same_node() {
    let elems = || vec![integer("1"), integer("2"), integer("3")];
    let expected = || Item::ExprArray {
        elements: vec![Item::ExprInteger(1), Item::ExprInteger(2), Item::ExprInteger(3)],
    };
    assert_eq!(expr_to_item(&Expr::Array { elems: elems() }), Ok(expected()));
    assert_eq!(expr_to_item(&Expr::Tuple { elems: elems() }), Ok(expected()));
}

#[test]
fn closure_with_a_block_body() {
    let expr = Expr::Closure {
        inputs: vec![Pat::Ident("a".to_string()), Pat::Ident("b".to_string())],
        body: Box::new(Expr::Block { stmts: vec![Stmt::Semi(path("a"))] }),
    };
    let expected = Item::ExprClosure {
        params: vec!["a".to_string(), "b".to_string()],
        stmts: vec![ident("a")],
    };
    assert_eq!(expr_to_item(&expr), Ok(expected));
}

#[test]
fn closure_with_another_body_is_unsupported() {
    let expr = Expr::Closure { inputs: vec![], body: Box::new(path("a")) };
    assert_eq!(expr_to_item(&expr), Err(BackendError::UnsupportedConstruct));
}

#[test]
fn closure_with_a_pattern_parameter_is_unsupported() {
    let expr = Expr::Closure {
        inputs: vec![Pat::Ident("a".to_string()), Pat::Other],
        body: Box::new(Expr::Block { stmts: vec![] }),
    };
    assert_eq!(expr_to_item(&expr), Err(BackendError::UnsupportedConstruct));
}

#[test]
fn unconditional_loop_is_a_while_true() {
    let expr = Expr::Loop { block: vec![Stmt::Semi(Expr::Break)] };
    let expected = Item::While {
        condition: Box::new(Item::ExprBool(true)),
        stmts: vec![Item::Break],
    };
    assert_eq!(expr_to_item(&expr), Ok(expected));
}

#[test]
fn conditioned_loop_keeps_its_condition() {
    let expr = Expr::While { cond: Box::new(path("busy")), block: vec![Stmt::Semi(Expr::Continue)] };
    let expected = Item::While { condition: Box::new(ident("busy")), stmts: vec![Item::Continue] };
    assert_eq!(expr_to_item(&expr), Ok(expected));
}

#[test]
fn for_over_a_range_is_a_range_loop() {
    let expr = Expr::ForLoop {
        pat: Pat::Ident("i".to_string()),
        expr: Box::new(Expr::Range {
            from: Some(Box::new(integer("1"))),
            to: Some(Box::new(path("n"))),
        }),
        block: vec![],
    };
    let expected = Item::ForRange {
        var: "i".to_string(),
        min: Box::new(Item::ExprInteger(1)),
        max: Box::new(ident("n")),
        jump: None,
        stmts: vec![],
    };
    assert_eq!(expr_to_item(&expr), Ok(expected));
}

#[test]
fn open_range_ends_become_the_sentinel_bound() {
    let expr = Expr::ForLoop {
        pat: Pat::Ident("i".to_string()),
        expr: Box::new(Expr::Range { from: None, to: None }),
        block: vec![],
    };
    let expected = Item::ForRange {
        var: "i".to_string(),
        min: Box::new(Item::ExprInteger(9999)),
        max: Box::new(Item::ExprInteger(9999)),
        jump: None,
        stmts: vec![],
    };
    assert_eq!(expr_to_item(&expr), Ok(expected));
}

#[test]
fn for_over_another_expression_is_an_iterator_loop() {
    let expr = Expr::ForLoop {
        pat: Pat::Ident("v".to_string()),
        expr: Box::new(path("values")),
        block: vec![Stmt::Expr(path("v"))],
    };
    let expected = Item::ForIn {
        var: "v".to_string(),
        expr: Box::new(ident("values")),
        stmts: vec![ident("v")],
    };
    assert_eq!(expr_to_item(&expr), Ok(expected));
}

#[test]
fn for_with_a_pattern_is_unsupported() {
    let expr = Expr::ForLoop { pat: Pat::Other, expr: Box::new(path("values")), block: vec![] };
    assert_eq!(expr_to_item(&expr), Err(BackendError::UnsupportedConstruct));
}

#[test]
fn break_and_continue_are_leaves() {
    assert_eq!(expr_to_item(&Expr::Break), Ok(Item::Break));
    assert_eq!(expr_to_item(&Expr::Continue), Ok(Item::Continue));
}

#[test]
fn conditional_without_else() {
    let expr = Expr::If {
        cond: Box::new(path("c")),
        then_branch: vec![Stmt::Semi(Expr::Break)],
        else_branch: None,
    };
    let expected = Item::IfElif(IfElif {
        condition: Box::new(ident("c")),
        stmts: vec![Item::Break],
        elif: vec![],
        else_stmts: None,
    });
    assert_eq!(expr_to_item(&expr), Ok(expected));
}

#[test]
fn conditional_with_else_block() {
    let expr = Expr::If {
        cond: Box::new(path("c")),
        then_branch: vec![],
        else_branch: Some(Box::new(Expr::Block { stmts: vec![Stmt::Semi(Expr::Continue)] })),
    };
    let expected = Item::IfElif(IfElif {
        condition: Box::new(ident("c")),
        stmts: vec![],
        elif: vec![],
        else_stmts: Some(vec![Item::Continue]),
    });
    assert_eq!(expr_to_item(&expr), Ok(expected));
}

#[test]
fn else_if_chain_is_flattened_in_source_order() {
    let expr = Expr::If {
        cond: Box::new(path("c1")),
        then_branch: vec![Stmt::Semi(path("s1"))],
        else_branch: Some(Box::new(Expr::If {
            cond: Box::new(path("c2")),
            then_branch: vec![Stmt::Semi(path("s2"))],
            else_branch: Some(Box::new(Expr::If {
                cond: Box::new(path("c3")),
                then_branch: vec![Stmt::Semi(path("s3"))],
                else_branch: Some(Box::new(Expr::Block { stmts: vec![Stmt::Semi(path("s4"))] })),
            })),
        })),
    };
    let expected = Item::IfElif(IfElif {
        condition: Box::new(ident("c1")),
        stmts: vec![ident("s1")],
        elif: vec![(ident("c2"), vec![ident("s2")]), (ident("c3"), vec![ident("s3")])],
        else_stmts: Some(vec![ident("s4")]),
    });
    assert_eq!(expr_to_item(&expr), Ok(expected));
}

#[test]
fn else_if_chain_may_end_without_else() {
    let expr = Expr::If {
        cond: Box::new(path("c1")),
        then_branch: vec![],
        else_branch: Some(Box::new(Expr::If {
            cond: Box::new(path("c2")),
            then_branch: vec![],
            else_branch: None,
        })),
    };
    let expected = Item::IfElif(IfElif {
        condition: Box::new(ident("c1")),
        stmts: vec![],
        elif: vec![(ident("c2"), vec![])],
        else_stmts: None,
    });
    assert_eq!(expr_to_item(&expr), Ok(expected));
}

#[test]
fn else_of_another_shape_is_unsupported() {
    let expr = Expr::If {
        cond: Box::new(path("c")),
        then_branch: vec![],
        else_branch: Some(Box::new(path("x"))),
    };
    assert_eq!(expr_to_item(&expr), Err(BackendError::UnsupportedConstruct));
}

#[test]
fn shapes_without_a_meaning_are_unsupported() {
    assert_eq!(expr_to_item(&Expr::Other), Err(BackendError::UnsupportedConstruct));
    assert_eq!(
        expr_to_item(&Expr::Block { stmts: vec![] }),
        Err(BackendError::UnsupportedConstruct)
    );
    assert_eq!(
        expr_to_item(&Expr::Range { from: None, to: None }),
        Err(BackendError::UnsupportedConstruct)
    );
}

#[test]
fn the_first_failure_in_source_order_wins() {
    let expr = Expr::Call {
        func: Box::new(path("f")),
        args: vec![integer("1"), integer("nope"), Expr::Other],
    };
    assert_eq!(expr_to_item(&expr), Err(BackendError::ParseError));
    let expr = Expr::Call {
        func: Box::new(path("f")),
        args: vec![integer("1"), Expr::Other, integer("nope")],
    };
    assert_eq!(expr_to_item(&expr), Err(BackendError::UnsupportedConstruct));
    let expr = Expr::Call { func: Box::new(Expr::Other), args: vec![integer("nope")] };
    assert_eq!(expr_to_item(&expr), Err(BackendError::UnsupportedConstruct));
}

#[test]
fn exprs_to_items_translates_in_order() {
    let failing = vec![path("a"), Expr::Other, path("b")];
    let passing = vec![path("a"), path("b")];
    assert_eq!(exprs_to_items(&failing), Err(BackendError::UnsupportedConstruct));
    assert_eq!(exprs_to_items(&passing), Ok(vec![ident("a"), ident("b")]));
    assert_eq!(exprs_to_items(&vec![]), Ok(vec![]));
}

#[test]
fn local_binding_becomes_a_declaration() {
    let stmt = Stmt::Local { pat: Pat::Ident("x".to_string()), init: Some(integer("5")) };
    let expected = Item::VarDecl { name: "x".to_string(), expr: Box::new(Item::ExprInteger(5)) };
    assert_eq!(stmt_to_item(&stmt), Ok(expected));
}

#[test]
fn local_binding_without_initializer_is_ill_formed() {
    let stmt = Stmt::Local { pat: Pat::Ident("x".to_string()), init: None };
    assert_eq!(stmt_to_item(&stmt), Err(BackendError::IllFormedBinding));
}

#[test]
fn local_binding_of_a_pattern_is_ill_formed() {
    let stmt = Stmt::Local { pat: Pat::Other, init: Some(integer("5")) };
    assert_eq!(stmt_to_item(&stmt), Err(BackendError::IllFormedBinding));
    let stmt = Stmt::Local { pat: Pat::Other, init: Some(Expr::Other) };
    assert_eq!(stmt_to_item(&stmt), Err(BackendError::IllFormedBinding));
}

#[test]
fn expression_statements_are_their_expressions() {
    assert_eq!(stmt_to_item(&Stmt::Expr(path("x"))), Ok(ident("x")));
    assert_eq!(stmt_to_item(&Stmt::Semi(path("x"))), Ok(ident("x")));
}

#[test]
fn nested_item_statement_is_a_declaration() {
    let stmt = Stmt::Item(function("inner", vec![]));
    let expected = Item::FunctionDefinition {
        name: "inner".to_string(),
        params: vec![],
        stmts: vec![],
    };
    assert_eq!(stmt_to_item(&stmt), Ok(expected));
}

#[test]
fn function_keeps_name_parameters_and_body() {
    let decl = Decl::Fn {
        is_extern: false,
        name: "test".to_string(),
        inputs: vec![FnArg::Receiver, FnArg::Typed(Pat::Ident("a".to_string()))],
        body: vec![Stmt::Expr(path("a"))],
    };
    let expected = Item::FunctionDefinition {
        name: "test".to_string(),
        params: vec!["self".to_string(), "a".to_string()],
        stmts: vec![ident("a")],
    };
    assert_eq!(syn_item_to_item(&decl), Ok(expected));
}

#[test]
fn function_with_a_pattern_parameter_is_unsupported() {
    let decl = Decl::Fn {
        is_extern: false,
        name: "test".to_string(),
        inputs: vec![FnArg::Typed(Pat::Other)],
        body: vec![],
    };
    assert_eq!(syn_item_to_item(&decl), Err(BackendError::UnsupportedConstruct));
}

#[test]
fn function_with_a_linkage_marker_is_an_extern() {
    let decl = Decl::Fn {
        is_extern: true,
        name: "lua_func".to_string(),
        inputs: vec![FnArg::Typed(Pat::Other)],
        body: vec![Stmt::Semi(Expr::Other)],
    };
    let expected = Item::Externs { functions: vec!["lua_func".to_string()] };
    assert_eq!(syn_item_to_item(&decl), Ok(expected));
}

#[test]
fn foreign_block_names_are_collected_into_one_list() {
    let decl = Decl::ForeignMod {
        items: vec![
            ForeignDecl::Fn { name: "f".to_string() },
            ForeignDecl::Verbatim(Some(function("g", vec![Stmt::Semi(Expr::Other)]))),
            ForeignDecl::Static { name: "h".to_string() },
            ForeignDecl::Type { name: "t".to_string() },
        ],
    };
    let expected = Item::Externs {
        functions: vec!["f".to_string(), "g".to_string(), "h".to_string(), "t".to_string()],
    };
    assert_eq!(syn_item_to_item(&decl), Ok(expected));
    assert_eq!(
        syn_item_to_item(&Decl::ForeignMod { items: vec![] }),
        Ok(Item::Externs { functions: vec![] })
    );
}

#[test]
fn foreign_block_with_another_declaration_is_unsupported() {
    for odd in [
        ForeignDecl::Other,
        ForeignDecl::Verbatim(None),
        ForeignDecl::Verbatim(Some(Decl::Other)),
        ForeignDecl::Verbatim(Some(Decl::Mod { name: "m".to_string(), content: None })),
    ] {
        let decl = Decl::ForeignMod { items: vec![ForeignDecl::Fn { name: "f".to_string() }, odd] };
        assert_eq!(syn_item_to_item(&decl), Err(BackendError::UnsupportedConstruct));
    }
}

#[test]
fn module_keeps_its_nesting() {
    let decl = Decl::Mod {
        name: "outer".to_string(),
        content: Some(vec![
            Decl::Mod { name: "inner".to_string(), content: Some(vec![function("f", vec![])]) },
            function("g", vec![]),
        ]),
    };
    let f = Item::FunctionDefinition { name: "f".to_string(), params: vec![], stmts: vec![] };
    let g = Item::FunctionDefinition { name: "g".to_string(), params: vec![], stmts: vec![] };
    let expected = Item::Mod {
        name: "outer".to_string(),
        items: vec![Item::Mod { name: "inner".to_string(), items: vec![f] }, g],
    };
    assert_eq!(syn_item_to_item(&decl), Ok(expected));
}

#[test]
fn module_without_a_body_is_unsupported() {
    let decl = Decl::Mod { name: "m".to_string(), content: None };
    assert_eq!(syn_item_to_item(&decl), Err(BackendError::UnsupportedConstruct));
}

#[test]
fn other_declarations_are_unsupported() {
    assert_eq!(syn_item_to_item(&Decl::Other), Err(BackendError::UnsupportedConstruct));
}

#[test]
fn unit_of_main_with_a_binding_and_a_compound_assignment() {
    let main = function(
        "main",
        vec![
            Stmt::Local { pat: Pat::Ident("x".to_string()), init: Some(integer("5")) },
            Stmt::Semi(Expr::AssignOp {
                left: Box::new(path("x")),
                op: BinOp::AddEq,
                right: Box::new(integer("1")),
            }),
        ],
    );
    let expected = vec![Item::FunctionDefinition {
        name: "main".to_string(),
        params: vec![],
        stmts: vec![
            Item::VarDecl { name: "x".to_string(), expr: Box::new(Item::ExprInteger(5)) },
            Item::VarSet {
                name: "x".to_string(),
                expr: Box::new(Item::ExprBinary {
                    lhs: Box::new(ident("x")),
                    rhs: Box::new(Item::ExprInteger(1)),
                    op: BinaryOp::Add,
                }),
            },
        ],
    }];
    assert_eq!(unit(vec![main]), Ok(expected));
}

#[test]
fn unit_with_an_unsupported_construct_gives_no_items() {
    let good = function("good", vec![]);
    let bad = function("bad", vec![Stmt::Semi(Expr::Other)]);
    let later = function("later", vec![]);
    assert_eq!(unit(vec![good, bad, later]), Err(BackendError::UnsupportedConstruct));
}

#[test]
fn unit_items_are_read_back_in_order() {
    let ast = Backend::generate(&SourceFile {
        items: vec![function("a", vec![]), function("b", vec![])],
    })
    .unwrap();
    let names: Vec<String> = ast
        .items()
        .iter()
        .map(|item| match item {
            Item::FunctionDefinition { name, .. } => name.clone(),
            _ => String::new(),
        })
        .collect();
    assert_eq!(names, vec!["a".to_string(), "b".to_string()]);
}

#[test]
fn translating_twice_gives_the_same_items() {
    let source = || SourceFile {
        items: vec![function("main", vec![Stmt::Semi(macro_call("println", vec![text_literal("x")]))])],
    };
    assert_eq!(
        Backend::generate(&source()).map(|ast| ast.items),
        Backend::generate(&source()).map(|ast| ast.items)
    );
}

#[test]
fn unit_items_do_not_depend_on_their_neighbours() {
    let front = || vec![function("a", vec![]), Decl::ForeignMod { items: vec![] }];
    let back = || vec![function("b", vec![Stmt::Semi(Expr::Break)])];
    let whole = || {
        let mut items = front();
        items.extend(back());
        items
    };
    let mut expected = unit(front()).unwrap();
    expected.extend(unit(back()).unwrap());
    assert_eq!(unit(whole()), Ok(expected));
}

#[test]
fn unit_fails_with_the_first_failure_of_its_parts() {
    let front = || vec![function("a", vec![Stmt::Semi(integer("x"))])];
    let back = || vec![Decl::Other];
    let whole = || {
        let mut items = front();
        items.extend(back());
        items
    };
    assert_eq!(unit(front()), Err(BackendError::ParseError));
    assert_eq!(unit(back()), Err(BackendError::UnsupportedConstruct));
    assert_eq!(unit(whole()), Err(BackendError::ParseError));
}
