use syn::parse::Parser;
use syn::punctuated::Punctuated;

use smyth::backend::{Backend, BackendError, BinaryOp, Item, AST};
use smyth::syntax::{BinOp, Decl, Expr, FnArg, ForeignDecl, Lit, Pat, SourceFile, Stmt};
use smyth::{transpile, TranspileError};

fn file(file: syn::File) -> SourceFile {
    SourceFile { items: file.items.into_iter().map(decl).collect() }
}

fn decl(item: syn::Item) -> Decl {
    match item {
        syn::Item::Fn(syn::ItemFn { sig, block, .. }) => Decl::Fn {
            is_extern: sig.abi.is_some(),
            name: sig.ident.to_string(),
            inputs: sig.inputs.into_iter().map(fn_arg).collect(),
            body: stmts(*block),
        },
        syn::Item::ForeignMod(syn::ItemForeignMod { items, .. }) => {
            Decl::ForeignMod { items: items.into_iter().map(foreign_item).collect() }
        }
        syn::Item::Mod(syn::ItemMod { ident, content, .. }) => Decl::Mod {
            name: ident.to_string(),
            content: content.map(|(_, items)| items.into_iter().map(decl).collect()),
        },
        _ => Decl::Other,
    }
}

fn foreign_item(foreign: syn::ForeignItem) -> ForeignDecl {
    match foreign {
        syn::ForeignItem::Fn(syn::ForeignItemFn { sig, .. }) => {
            ForeignDecl::Fn { name: sig.ident.to_string() }
        }
        syn::ForeignItem::Static(syn::ForeignItemStatic { ident, .. }) => {
            ForeignDecl::Static { name: ident.to_string() }
        }
        syn::ForeignItem::Type(syn::ForeignItemType { ident, .. }) => {
            ForeignDecl::Type { name: ident.to_string() }
        }
        syn::ForeignItem::Verbatim(tokens) => {
            ForeignDecl::Verbatim(syn::parse2::<syn::Item>(tokens).ok().map(decl))
        }
        _ => ForeignDecl::Other,
    }
}

fn fn_arg(arg: syn::FnArg) -> FnArg {
    match arg {
        syn::FnArg::Receiver(_) => FnArg::Receiver,
        syn::FnArg::Typed(typed) => FnArg::Typed(pat(*typed.pat)),
    }
}

fn pat(p: syn::Pat) -> Pat {
    match p {
        syn::Pat::Ident(name) => Pat::Ident(name.ident.to_string()),
        _ => Pat::Other,
    }
}

fn stmts(block: syn::Block) -> Vec<Stmt> {
    block.stmts.into_iter().map(stmt).collect()
}

fn stmt(s: syn::Stmt) -> Stmt {
    match s {
        syn::Stmt::Item(i) => Stmt::Item(decl(i)),
        syn::Stmt::Local(local) => Stmt::Local {
            pat: pat(local.pat),
            init: local.init.map(|(_, init)| expr(*init)),
        },
        syn::Stmt::Expr(e) => Stmt::Expr(expr(e)),
        syn::Stmt::Semi(e, _) => Stmt::Semi(expr(e)),
    }
}

fn boxed(e: Box<syn::Expr>) -> Box<Expr> {
    Box::new(expr(*e))
}

fn segments(path: &syn::Path) -> Vec<String> {
    path.segments.iter().map(|segment| segment.ident.to_string()).collect()
}

fn expr(e: syn::Expr) -> Expr {
    match e {
        syn::Expr::Lit(syn::ExprLit { lit: l, .. }) => Expr::Lit(lit(l)),
        syn::Expr::Call(syn::ExprCall { func, args, .. }) => {
            Expr::Call { func: boxed(func), args: args.into_iter().map(expr).collect() }
        }
        syn::Expr::Path(syn::ExprPath { path, .. }) => Expr::Path { segments: segments(&path) },
        syn::Expr::Assign(syn::ExprAssign { left, right, .. }) => {
            Expr::Assign { left: boxed(left), right: boxed(right) }
        }
        syn::Expr::AssignOp(syn::ExprAssignOp { left, op, right, .. }) => {
            Expr::AssignOp { left: boxed(left), op: bin_op(op), right: boxed(right) }
        }
        syn::Expr::Closure(syn::ExprClosure { inputs, body, .. }) => {
            Expr::Closure { inputs: inputs.into_iter().map(pat).collect(), body: boxed(body) }
        }
        syn::Expr::Block(syn::ExprBlock { block, .. }) => Expr::Block { stmts: stmts(block) },
        syn::Expr::Binary(syn::ExprBinary { left, op, right, .. }) => {
            Expr::Binary { left: boxed(left), op: bin_op(op), right: boxed(right) }
        }
        syn::Expr::Array(syn::ExprArray { elems, .. }) => {
            Expr::Array { elems: elems.into_iter().map(expr).collect() }
        }
        syn::Expr::Tuple(syn::ExprTuple { elems, .. }) => {
            Expr::Tuple { elems: elems.into_iter().map(expr).collect() }
        }
        syn::Expr::Loop(syn::ExprLoop { body, .. }) => Expr::Loop { block: stmts(body) },
        syn::Expr::While(syn::ExprWhile { cond, body, .. }) => {
            Expr::While { cond: boxed(cond), block: stmts(body) }
        }
        syn::Expr::ForLoop(syn::ExprForLoop { pat: p, expr: source, body, .. }) => {
            Expr::ForLoop { pat: pat(p), expr: boxed(source), block: stmts(body) }
        }
        syn::Expr::Range(syn::ExprRange { from, to, .. }) => {
            Expr::Range { from: from.map(boxed), to: to.map(boxed) }
        }
        syn::Expr::Break(_) => Expr::Break,
        syn::Expr::Continue(_) => Expr::Continue,
        syn::Expr::If(syn::ExprIf { cond, then_branch, else_branch, .. }) => Expr::If {
            cond: boxed(cond),
            then_branch: stmts(then_branch),
            else_branch: else_branch.map(|(_, rest)| boxed(rest)),
        },
        syn::Expr::Macro(syn::ExprMacro { mac, .. }) => Expr::Macro {
            path: segments(&mac.path),
            parsed: Punctuated::<syn::Expr, syn::token::Comma>::parse_terminated
                .parse2(mac.tokens)
                .ok()
                .map(|args| args.into_iter().map(expr).collect()),
        },
        _ => Expr::Other,
    }
}

fn lit(l: syn::Lit) -> Lit {
    match l {
        syn::Lit::Bool(b) => Lit::Bool(b.value()),
        syn::Lit::Str(s) => Lit::Str(s.value()),
        syn::Lit::Int(i) => Lit::Int(i.base10_digits().to_string()),
        syn::Lit::Float(f) => Lit::Float(f.base10_digits().to_string()),
        _ => Lit::Other,
    }
}

fn bin_op(op: syn::BinOp) -> BinOp {
    match op {
        syn::BinOp::Add(_) => BinOp::Add,
        syn::BinOp::Sub(_) => BinOp::Sub,
        syn::BinOp::Mul(_) => BinOp::Mul,
        syn::BinOp::Div(_) => BinOp::Div,
        syn::BinOp::Rem(_) => BinOp::Rem,
        syn::BinOp::And(_) => BinOp::And,
        syn::BinOp::Or(_) => BinOp::Or,
        syn::BinOp::BitXor(_) => BinOp::BitXor,
        syn::BinOp::BitAnd(_) => BinOp::BitAnd,
        syn::BinOp::BitOr(_) => BinOp::BitOr,
        syn::BinOp::Shl(_) => BinOp::Shl,
        syn::BinOp::Shr(_) => BinOp::Shr,
        syn::BinOp::Eq(_) => BinOp::Eq,
        syn::BinOp::Lt(_) => BinOp::Lt,
        syn::BinOp::Le(_) => BinOp::Le,
        syn::BinOp::Ne(_) => BinOp::Ne,
        syn::BinOp::Ge(_) => BinOp::Ge,
        syn::BinOp::Gt(_) => BinOp::Gt,
        syn::BinOp::AddEq(_) => BinOp::AddEq,
        syn::BinOp::SubEq(_) => BinOp::SubEq,
        syn::BinOp::MulEq(_) => BinOp::MulEq,
        syn::BinOp::DivEq(_) => BinOp::DivEq,
        syn::BinOp::RemEq(_) => BinOp::RemEq,
        syn::BinOp::BitXorEq(_) => BinOp::BitXorEq,
        syn::BinOp::BitAndEq(_) => BinOp::BitAndEq,
        syn::BinOp::BitOrEq(_) => BinOp::BitOrEq,
        syn::BinOp::ShlEq(_) => BinOp::ShlEq,
        syn::BinOp::ShrEq(_) => BinOp::ShrEq,
    }
}

fn read(code: &str) -> SourceFile {
    file(syn::parse_file(code).unwrap())
}

fn items(code: &str) -> Result<Vec<Item>, BackendError> {
    Backend::generate(&read(code)).map(|ast| ast.items)
}

fn lua(code: &str) -> Result<String, TranspileError> {
    transpile(&read(code))
}

fn ident(name: &str) -> Item {
    Item::ExprIdent(name.to_string())
}

#[test]
fn source_of_main_with_a_binding_and_a_compound_assignment() {
    let code = "fn main() { let x = 5; x += 1; }";
    let expected = vec![Item::FunctionDefinition {
        name: "main".to_string(),
        params: vec![],
        stmts: vec![
            Item::VarDecl { name: "x".to_string(), expr: Box::new(Item::ExprInteger(5)) },
            Item::VarSet {
                name: "x".to_string(),
                expr: Box::new(Item::ExprBinary {
                    lhs: Box::new(ident("x")),
                    rhs: Box::new(Item::ExprInteger(1)),
                    op: BinaryOp::Add,
                }),
            },
        ],
    }];
    assert_eq!(items(code), Ok(expected));
    assert_eq!(lua(code), Ok("function main()local x = 5;x = x+1;end;".to_string()));
}

#[test]
fn source_of_a_compound_assignment_and_of_its_plain_form_give_the_same_items() {
    assert_eq!(items("fn f() { x += 5; }"), items("fn f() { x = x + 5; }"));
    assert_eq!(items("fn f() { x -= y; }"), items("fn f() { x = x - y; }"));
    assert_eq!(items("fn f() { x *= 2; }"), items("fn f() { x = x * 2; }"));
    assert_eq!(items("fn f() { x /= 2; }"), items("fn f() { x = x / 2; }"));
    assert_eq!(items("fn f() { x %= 2; }"), items("fn f() { x = x % 2; }"));
    assert_eq!(items("fn f() { x <<= 2; }"), items("fn f() { x = x << 2; }"));
    assert!(items("fn f() { x += 5; }").is_ok());
}

#[test]
fn source_of_a_three_branch_conditional() {
    let code = "fn main() { if c1 { s1(); } else if c2 { s2(); } else { s3(); } }";
    assert_eq!(
        lua(code),
        Ok("function main()if c1 then s1() elseif c2 then s2() else s3() end;end;".to_string())
    );
}

#[test]
fn source_with_a_match_is_unsupported() {
    let code = "fn main() { let x = 5; match x { _ => {} } }";
    assert_eq!(items(code), Err(BackendError::UnsupportedConstruct));
    assert_eq!(lua(code), Err(TranspileError::Backend(BackendError::UnsupportedConstruct)));
}

#[test]
fn source_of_a_format_call() {
    let code = "fn main() { let s = format!(\"{}-{}\", a, b); }";
    let expected = vec![Item::FunctionDefinition {
        name: "main".to_string(),
        params: vec![],
        stmts: vec![Item::VarDecl {
            name: "s".to_string(),
            expr: Box::new(Item::ExprFString {
                strings: vec!["".to_string(), "-".to_string(), "".to_string()],
                replacements: vec![1, 2],
                values: vec![ident("a"), ident("b")],
            }),
        }],
    }];
    assert_eq!(items(code), Ok(expected));
    assert_eq!(
        lua(code),
        Ok("function main()local s = string.format(\"%s-%s\",a,b);end;".to_string())
    );
}

#[test]
fn source_of_a_print_call() {
    let code = "fn main() { println!(\"Hello\", a); }";
    assert_eq!(lua(code), Ok("function main()print(\"Hello\",a)end;".to_string()));
}

#[test]
fn source_of_loops() {
    let code = "fn main() { for i in 1..n { continue; } for v in values { f(v); } }";
    assert_eq!(
        lua(code),
        Ok("function main()\
            for i = 1,n do goto __continue__; ::__continue__:: end;\
            for v in values do f(v) ::__continue__:: end;\
            end;"
            .to_string())
    );
    let open = "fn main() { for i in .. { break; } }";
    assert_eq!(
        lua(open),
        Ok("function main()for i = 9999,9999 do break; ::__continue__:: end;end;".to_string())
    );
}

#[test]
fn source_of_foreign_declarations() {
    let code = "extern \"C\" { fn f(); static g: i32; }  extern fn h() {}";
    assert_eq!(
        lua(code),
        Ok("local f = _G.f;local g = _G.g;local h = _G.h;".to_string())
    );
}

#[test]
fn source_of_literals() {
    let code = "fn main() { let a = 0x10; let b = 1_000; let c = 2.5e3; let d = \"q\\\"\"; \
                let e = false; }";
    assert_eq!(
        lua(code),
        Ok("function main()local a = 16;local b = 1000;local c = 2.5e3;\
            local d = \"q\\\"\";local e = false;end;"
            .to_string())
    );
}

#[test]
fn source_of_an_integer_that_does_not_fit() {
    let code = "fn main() { let a = 9223372036854775808; }";
    assert_eq!(items(code), Err(BackendError::ParseError));
}

#[test]
fn source_of_ill_formed_bindings() {
    assert_eq!(items("fn main() { let x; }"), Err(BackendError::IllFormedBinding));
    assert_eq!(items("fn main() { let (a, b) = t; }"), Err(BackendError::IllFormedBinding));
    assert_eq!(items("fn main() { a.b += 1; }"), Err(BackendError::IllFormedBinding));
    assert_eq!(items("fn main() { format!(a, b); }"), Err(BackendError::IllFormedBinding));
}

#[test]
fn source_of_a_whole_program() {
    let code = "extern fn lua_func() {}

mod namespace {
    fn test() {

    }
}

fn main() {
    let x = 5;
    let y = \"Test\\u{242}\";
    let b = true;

    namespace::test();

    x += 5;

    let y = |a, b, c| {
        print(a + b * c);
    };

    y(1, 2, 3);

    let array = [1, 2, 3];

    fn test(a: i32) {
        print(\"Hello\", a)
    }

    loop {
        print(\"Loop\");
        break;
    }

    while true {
        break;
    }

    test(5)
}";
    let expected = "local lua_func = _G.lua_func;\
                    local namespace = {};function test()end;\
                    function main()\
                    local x = 5;\
                    local y = \"Test\\u{242}\";\
                    local b = true;\
                    namespace__test()\
                    x = x+5;\
                    local y = function(a,b,c)print(a+b*c)end;;\
                    y(1,2,3)\
                    local array = {1,2,3};\
                    function test(a)print(\"Hello\",a)end;\
                    while true do print(\"Loop\")break; ::__continue__:: end;\
                    while true do break; ::__continue__:: end;\
                    test(5)\
                    end;";
    assert_eq!(lua(code), Ok(expected.to_string()));
}

#[test]
fn source_translated_twice_gives_the_same_text() {
    let code = "fn main() { let x = [1, 2, 3]; while x { f(x); } }";
    assert!(lua(code).is_ok());
    assert_eq!(lua(code), lua(code));
}
