use ignis::compiler::ir::{ArithOp, IntPredicate, IrType, IrValue, Name, Op, RealPredicate, TypeKind};
use ignis::compiler::lower::{CompileError, Selected};
use ignis::compiler::unit::{Command, Plan};
use ignis::compiler::value::IGValue;
use ignis::compiler::values::{qualified_name, select, yields_bool};
use ignis::compiler::{Compiler, IGLib, Source};
use ignis::lexer::{Token, TokenKind};
use ignis::parser::ast::{Expr, Stmt, Type};
use ignis::parser::{ParseError, ParseErrorKind};

fn sym(name: &str) -> Expr {
    Expr::Symbol(name.to_string())
}

fn ty(name: &str) -> Box<Type> {
    Box::new(Type::Symbol(name.to_string()))
}

fn bin(left: Expr, op: Token, right: Expr) -> Expr {
    Expr::Binary { left: Box::new(left), op, right: Box::new(right) }
}

fn field(name: &str, t: &str) -> Stmt {
    Stmt::Field { name: name.to_string(), _type: ty(t) }
}

fn ret(value: Expr) -> Stmt {
    Stmt::Return { value: Box::new(value) }
}

fn function(name: &str, return_type: &str, arguments: Vec<Stmt>, body: Vec<Stmt>) -> Stmt {
    Stmt::FunctionDeclaration {
        name: name.to_string(),
        return_type: ty(return_type),
        arguments,
        body: Box::new(Stmt::Block(body)),
    }
}

fn var(name: &str, mutable: bool, value: Expr) -> Stmt {
    Stmt::VariableDeclaration { name: name.to_string(), mutable, explicit_type: None, value: Box::new(value) }
}

fn inst(id: usize, kind: TypeKind) -> IrValue {
    IrValue::Inst { id, kind }
}

fn intv(id: usize) -> IrValue {
    inst(id, TypeKind::Integer)
}

fn ptr(id: usize) -> IrValue {
    inst(id, TypeKind::Pointer)
}

fn i32t() -> IrType {
    IrType::Int(32)
}

fn texts(items: &[&str]) -> Vec<String> {
    items.iter().map(|s| s.to_string()).collect()
}

fn compile(program: Vec<Stmt>) -> Result<(Compiler, Plan), CompileError> {
    Compiler::compile("out".to_string(), Stmt::Block(program), &vec![], false)
}

fn failure(program: Vec<Stmt>) -> CompileError {
    match compile(program) {
        Ok(_) => panic!("the program compiled"),
        Err(e) => e,
    }
}

/// A generator inside a function `f` that takes nothing and returns
/// nothing, ready to lower the body.
fn inside_function() -> Compiler {
    let mut c = Compiler::new("out".to_string(), vec![], vec![]);
    c.enter_function(&"f".to_string(), IrType::Void, &vec![], &vec![]);
    c
}

#[test]
fn new_generator() {
    let c = Compiler::new("out".to_string(), vec![], vec![]);
    assert_eq!(c.ops, vec![Op::BeginUnit]);
    assert_eq!(c.texts, Vec::<String>::new());
    assert_eq!(c.outputs, texts(&["out.ll"]));
    assert_eq!(c.objects, texts(&["out.o"]));
    assert_eq!(c.libs, vec![]);
    assert_eq!(c.insert, None);
    assert!(!c.terminated);
    assert_eq!(c.output, "out");
    assert_eq!(c.current_scope.symbols.len(), 0);
    assert_eq!(c.current_scope.fields.len(), 0);
    assert!(c.current_scope.parent.is_none());
}

#[test]
fn built_in_types() {
    let map = Compiler::get_type_map();
    assert_eq!(map.len(), 10);
    assert_eq!(map.get(&"bool".to_string()), Some(&IrType::Int(1)));
    assert_eq!(map.get(&"i8".to_string()), Some(&IrType::Int(8)));
    assert_eq!(map.get(&"i16".to_string()), Some(&IrType::Int(16)));
    assert_eq!(map.get(&"i32".to_string()), Some(&IrType::Int(32)));
    assert_eq!(map.get(&"i64".to_string()), Some(&IrType::Int(64)));
    assert_eq!(map.get(&"f16".to_string()), Some(&IrType::Half));
    assert_eq!(map.get(&"f32".to_string()), Some(&IrType::Float));
    assert_eq!(map.get(&"f64".to_string()), Some(&IrType::Double));
    assert_eq!(map.get(&"string".to_string()), Some(&IrType::Pointer));
    assert_eq!(map.get(&"void".to_string()), Some(&IrType::Void));
    assert_eq!(map.get(&"u32".to_string()), None);
}

#[test]
fn type_resolution() {
    let mut c = Compiler::new("out".to_string(), vec![], vec![]);
    let none: Vec<Source> = vec![];
    assert_eq!(c.get_type(&none, &Type::Symbol("i64".to_string())), Ok(IrType::Int(64)));
    assert_eq!(c.get_type(&none, &Type::Ref(ty("f32"))), Ok(IrType::Float));
    assert_eq!(c.get_type(&none, &Type::Symbol("Point".to_string())), Err(CompileError::InvalidType));
    assert_eq!(c.get_type(&none, &Type::Array(ty("i32"))), Err(CompileError::UnsupportedType));
    c.define(
        "Point".to_string(),
        IGValue { value: IrValue::Sentinel, _type: IrType::Struct(3), mutable: false, public: true, parent: None },
    );
    assert_eq!(c.get_type(&none, &Type::Symbol("Point".to_string())), Ok(IrType::Struct(3)));
    assert_eq!(c.get_type(&none, &Type::Ref(Box::new(Type::Ref(ty("Point"))))), Ok(IrType::Struct(3)));
    assert_eq!(
        c.get_arg_types(&none, &vec![field("a", "i8"), field("p", "Point")]),
        Ok(vec![IrType::Int(8), IrType::Struct(3)])
    );
    assert_eq!(c.get_arg_types(&none, &vec![ret(Expr::Int(1))]), Err(CompileError::ExpectedField));
    assert_eq!(c.get_arg_types(&none, &vec![field("a", "nope")]), Err(CompileError::InvalidType));
}

#[test]
fn literals() {
    let none: Vec<Source> = vec![];
    let mut c = Compiler::new("out".to_string(), vec![], vec![]);
    let v = c.resolve_value(&none, &Expr::Int(7)).unwrap();
    assert_eq!(v, IGValue::new(intv(1), i32t()));
    let v = c.resolve_value(&none, &Expr::Int(-1)).unwrap();
    assert_eq!(v, IGValue::new(intv(2), i32t()));
    let v = c.resolve_value(&none, &Expr::Float(1.5f64.to_bits())).unwrap();
    assert_eq!(v, IGValue::new(inst(3, TypeKind::Float), IrType::Float));
    let v = c.resolve_value(&none, &Expr::Bool(true)).unwrap();
    assert_eq!(v, IGValue::new(intv(4), IrType::Int(1)));
    let v = c.resolve_value(&none, &Expr::Bool(false)).unwrap();
    assert_eq!(v, IGValue::new(intv(5), IrType::Int(1)));
    let v = c.resolve_value(&none, &Expr::String("\"hi\"".to_string())).unwrap();
    assert_eq!(v, IGValue::new(ptr(7), IrType::Pointer));
    assert_eq!(
        c.ops,
        vec![
            Op::BeginUnit,
            Op::ConstInt { ty: i32t(), number: 7 },
            Op::ConstInt { ty: i32t(), number: u64::MAX },
            Op::ConstReal { ty: IrType::Float, bits: 1.5f64.to_bits() },
            Op::ConstInt { ty: IrType::Int(1), number: 1 },
            Op::ConstInt { ty: IrType::Int(1), number: 0 },
            Op::GlobalString { text: 0, name: Name::Fresh },
            Op::PointerCast { value: ptr(6), ty: IrType::Pointer, name: Name::Fresh },
        ]
    );
    assert_eq!(c.texts, texts(&["\"hi\""]));
}

#[test]
fn equality_of_integers_is_an_integer_comparison_of_type_bool() {
    let none: Vec<Source> = vec![];
    let mut c = Compiler::new("out".to_string(), vec![], vec![]);
    let v = c.visit_binexpr(&none, &bin(Expr::Int(1), Token::Equals, Expr::Int(1))).unwrap();
    assert_eq!(v, IGValue::new(intv(3), IrType::Int(1)));
    assert_eq!(
        c.ops,
        vec![
            Op::BeginUnit,
            Op::ConstInt { ty: i32t(), number: 1 },
            Op::ConstInt { ty: i32t(), number: 1 },
            Op::ICmp { pred: IntPredicate::EQ, lhs: intv(1), rhs: intv(2), name: Name::Prefixed(0) },
        ]
    );
    assert_eq!(c.texts, texts(&["op"]));
}

#[test]
fn mixed_arithmetic_is_rejected() {
    let none: Vec<Source> = vec![];
    let mut c = Compiler::new("out".to_string(), vec![], vec![]);
    let one_point_zero = Expr::Float(1.0f64.to_bits());
    assert_eq!(
        c.visit_binexpr(&none, &bin(Expr::Int(1), Token::Plus, one_point_zero)),
        Err(CompileError::UnsupportedOperands)
    );
    let program = vec![function(
        "f",
        "i32",
        vec![],
        vec![ret(bin(Expr::Int(1), Token::Plus, Expr::Float(1.0f64.to_bits())))],
    )];
    assert_eq!(failure(program), CompileError::UnsupportedOperands);
}

#[test]
fn operands_of_other_kinds_are_rejected() {
    let none: Vec<Source> = vec![];
    let mut c = Compiler::new("out".to_string(), vec![], vec![]);
    let text = Expr::String("a".to_string());
    assert_eq!(
        c.visit_binexpr(&none, &bin(text, Token::Plus, Expr::String("b".to_string()))),
        Err(CompileError::UnsupportedOperands)
    );
    assert_eq!(
        c.visit_binexpr(&none, &bin(Expr::Float(0), Token::Plus, Expr::Int(1))),
        Err(CompileError::UnsupportedOperands)
    );
    assert_eq!(
        c.visit_binexpr(&none, &bin(Expr::Int(1), Token::Mod, Expr::Int(1))),
        Err(CompileError::InvalidOperation)
    );
    assert_eq!(c.visit_binexpr(&none, &Expr::Int(1)), Err(CompileError::UnexpectedNode));
}

#[test]
fn instruction_selection() {
    assert_eq!(select(TokenKind::Plus, false), Some(Selected::Arith(ArithOp::Add)));
    assert_eq!(select(TokenKind::Plus, true), Some(Selected::Arith(ArithOp::FAdd)));
    assert_eq!(select(TokenKind::Minus, false), Some(Selected::Arith(ArithOp::Sub)));
    assert_eq!(select(TokenKind::Minus, true), Some(Selected::Arith(ArithOp::FSub)));
    assert_eq!(select(TokenKind::Multiply, false), Some(Selected::Arith(ArithOp::Mul)));
    assert_eq!(select(TokenKind::Multiply, true), Some(Selected::Arith(ArithOp::FMul)));
    assert_eq!(select(TokenKind::Divide, false), Some(Selected::Arith(ArithOp::SDiv)));
    assert_eq!(select(TokenKind::Divide, true), Some(Selected::Arith(ArithOp::FDiv)));
    assert_eq!(select(TokenKind::Greater, false), Some(Selected::ICmp(IntPredicate::UGT)));
    assert_eq!(select(TokenKind::Greater, true), Some(Selected::FCmp(RealPredicate::UGT)));
    assert_eq!(select(TokenKind::GreaterOrEqual, false), Some(Selected::ICmp(IntPredicate::UGE)));
    assert_eq!(select(TokenKind::GreaterOrEqual, true), Some(Selected::FCmp(RealPredicate::UGE)));
    assert_eq!(select(TokenKind::Less, false), Some(Selected::ICmp(IntPredicate::ULT)));
    assert_eq!(select(TokenKind::Less, true), Some(Selected::FCmp(RealPredicate::ULT)));
    assert_eq!(select(TokenKind::LessOrEqual, false), Some(Selected::ICmp(IntPredicate::ULE)));
    assert_eq!(select(TokenKind::LessOrEqual, true), Some(Selected::FCmp(RealPredicate::ULE)));
    assert_eq!(select(TokenKind::Equals, false), Some(Selected::ICmp(IntPredicate::EQ)));
    assert_eq!(select(TokenKind::Equals, true), Some(Selected::FCmp(RealPredicate::UEQ)));
    assert_eq!(select(TokenKind::NotEquals, false), Some(Selected::ICmp(IntPredicate::NE)));
    assert_eq!(select(TokenKind::NotEquals, true), Some(Selected::FCmp(RealPredicate::UNE)));
    assert_eq!(select(TokenKind::Or, false), Some(Selected::Arith(ArithOp::Or)));
    assert_eq!(select(TokenKind::Or, true), Some(Selected::Arith(ArithOp::Or)));
    assert_eq!(select(TokenKind::And, false), Some(Selected::Arith(ArithOp::And)));
    assert_eq!(select(TokenKind::And, true), Some(Selected::Arith(ArithOp::And)));
    assert_eq!(select(TokenKind::Mod, false), None);
    assert_eq!(select(TokenKind::Power, true), None);
    assert_eq!(select(TokenKind::Range, false), None);
    assert_eq!(select(TokenKind::Assignment, false), None);
    for op in [
        TokenKind::Equals,
        TokenKind::NotEquals,
        TokenKind::Less,
        TokenKind::LessOrEqual,
        TokenKind::Greater,
        TokenKind::GreaterOrEqual,
        TokenKind::Not,
        TokenKind::Or,
        TokenKind::And,
    ] {
        assert!(yields_bool(op));
    }
    for op in [TokenKind::Plus, TokenKind::Minus, TokenKind::Multiply, TokenKind::Divide, TokenKind::Mod] {
        assert!(!yields_bool(op));
    }
}

#[test]
fn arithmetic_keeps_the_type_of_the_left_operand() {
    let none: Vec<Source> = vec![];
    let mut c = Compiler::new("out".to_string(), vec![], vec![]);
    let half = Expr::Float(0.5f64.to_bits());
    let v = c.visit_binexpr(&none, &bin(half, Token::Multiply, Expr::Float(2.0f64.to_bits()))).unwrap();
    assert_eq!(v, IGValue::new(inst(3, TypeKind::Float), IrType::Float));
    assert_eq!(
        c.ops[3],
        Op::Arith { op: ArithOp::FMul, lhs: inst(1, TypeKind::Float), rhs: inst(2, TypeKind::Float), name: Name::Prefixed(0) }
    );
    let v = c.visit_binexpr(&none, &bin(Expr::Float(0), Token::Less, Expr::Float(0))).unwrap();
    assert_eq!(v, IGValue::new(intv(6), IrType::Int(1)));
    assert_eq!(
        c.ops[6],
        Op::FCmp { real: RealPredicate::ULT, lhs: inst(4, TypeKind::Float), rhs: inst(5, TypeKind::Float), name: Name::Prefixed(1) }
    );
    // Truth values are integers: the logical operators take them, and
    // both sides are evaluated.
    let both = bin(
        bin(Expr::Int(1), Token::Equals, Expr::Int(1)),
        Token::And,
        bin(Expr::Int(2), Token::Less, Expr::Int(3)),
    );
    let v = c.visit_binexpr(&none, &both).unwrap();
    assert_eq!(v, IGValue::new(intv(13), IrType::Int(1)));
    assert_eq!(
        c.ops[13],
        Op::Arith { op: ArithOp::And, lhs: intv(9), rhs: intv(12), name: Name::Prefixed(4) }
    );
}

#[test]
fn two_functions() {
    let add = function(
        "add",
        "i32",
        vec![field("a", "i32"), field("b", "i32")],
        vec![ret(bin(sym("a"), Token::Plus, sym("b")))],
    );
    let main = function(
        "main",
        "void",
        vec![],
        vec![ret(Expr::Call { name: "add".to_string(), args: vec![Expr::Int(2), Expr::Int(3)] })],
    );
    let (c, _) = compile(vec![add, main]).unwrap();
    let add_type = IrType::Function(3);
    let main_type = IrType::Function(17);
    assert_eq!(
        c.ops,
        vec![
            Op::BeginUnit,
            Op::TypeItem(i32t()),
            Op::TypeItem(i32t()),
            Op::FunctionType { ret: i32t(), count: 2 },
            Op::AddFunction { name: Name::Exact(0), ty: add_type },
            Op::AppendBlock { function: ptr(4), name: Name::Wrapped(1, 2) },
            Op::PositionAtEnd { block: 5 },
            Op::Alloca { ty: i32t(), name: Name::Prefixed(3) },
            Op::Param { function: ptr(4), index: 0 },
            Op::Store { value: intv(8), ptr: ptr(7) },
            Op::Alloca { ty: i32t(), name: Name::Prefixed(4) },
            Op::Param { function: ptr(4), index: 1 },
            Op::Store { value: intv(11), ptr: ptr(10) },
            Op::Load { ty: i32t(), ptr: ptr(7), name: Name::Fresh },
            Op::Load { ty: i32t(), ptr: ptr(10), name: Name::Fresh },
            Op::Arith { op: ArithOp::Add, lhs: intv(13), rhs: intv(14), name: Name::Prefixed(5) },
            Op::Ret { value: intv(15) },
            Op::FunctionType { ret: i32t(), count: 0 },
            Op::AddFunction { name: Name::Exact(6), ty: main_type },
            Op::AppendBlock { function: ptr(18), name: Name::Wrapped(7, 8) },
            Op::PositionAtEnd { block: 19 },
            Op::ConstInt { ty: i32t(), number: 2 },
            Op::ConstInt { ty: i32t(), number: 3 },
            Op::Argument(intv(21)),
            Op::Argument(intv(22)),
            Op::Call { fn_ty: add_type, callee: ptr(4), count: 2, name: Name::Fresh },
            // The call's result is the only return of `main`.
            Op::Ret { value: intv(25) },
            Op::WriteIr { path: 9 },
        ]
    );
    assert_eq!(
        c.texts,
        texts(&["add", "add", "ignis_entry", "a", "b", "op", "main", "main", "ignis_entry", "out.ll"])
    );
    // Both functions are bound in the scope of the file, immutable and public.
    assert_eq!(
        c.current_scope.resolve("add".to_string()),
        Some(&IGValue { value: ptr(4), _type: add_type, mutable: false, public: true, parent: None })
    );
    assert_eq!(
        c.current_scope.resolve("main".to_string()),
        Some(&IGValue { value: ptr(18), _type: main_type, mutable: false, public: true, parent: None })
    );
    // The parameters were bound in the scope of the function only.
    assert_eq!(c.current_scope.resolve("a".to_string()), None);
    assert!(c.current_scope.parent.is_none());
}

#[test]
fn main_without_return_type_returns_zero() {
    let (c, _) = compile(vec![function("main", "void", vec![], vec![])]).unwrap();
    assert_eq!(c.output, "out");
    assert_eq!(c.type_map.len(), 10);
    assert_eq!(c.type_map.get(&"i32".to_string()), Some(&IrType::Int(32)));
    assert_eq!(
        c.ops,
        vec![
            Op::BeginUnit,
            Op::FunctionType { ret: i32t(), count: 0 },
            Op::AddFunction { name: Name::Exact(0), ty: IrType::Function(1) },
            Op::AppendBlock { function: ptr(2), name: Name::Wrapped(1, 2) },
            Op::PositionAtEnd { block: 3 },
            Op::ConstInt { ty: i32t(), number: 0 },
            Op::Ret { value: intv(5) },
            Op::WriteIr { path: 3 },
        ]
    );
}

#[test]
fn return_is_added_only_where_control_falls_through() {
    // `main` with an explicit return gets no other.
    let (c, _) = compile(vec![function("main", "void", vec![], vec![ret(Expr::Int(7))])]).unwrap();
    assert_eq!(
        &c.ops[5..],
        &[Op::ConstInt { ty: i32t(), number: 7 }, Op::Ret { value: intv(5) }, Op::WriteIr { path: 3 }]
    );
    assert!(c.terminated);
    // What stands behind the return is lowered into the same block, which
    // then does not end in a return: control falls through.
    let dead = vec![ret(Expr::Int(7)), var("x", true, Expr::Int(1))];
    let (c, _) = compile(vec![function("main", "void", vec![], dead)]).unwrap();
    assert_eq!(
        &c.ops[5..],
        &[
            Op::ConstInt { ty: i32t(), number: 7 },
            Op::Ret { value: intv(5) },
            Op::ConstInt { ty: i32t(), number: 1 },
            Op::Alloca { ty: i32t(), name: Name::Prefixed(3) },
            Op::Store { value: intv(7), ptr: ptr(8) },
            Op::ConstInt { ty: i32t(), number: 0 },
            Op::Ret { value: intv(10) },
            Op::WriteIr { path: 4 },
        ]
    );
    // A loop leaves the builder in a new block, which is empty.
    let looped = Stmt::While {
        condition: Box::new(Expr::Bool(true)),
        body: Box::new(Stmt::Block(vec![])),
    };
    let (c, _) = compile(vec![function("spin", "void", vec![], vec![looped])]).unwrap();
    let n = c.ops.len();
    assert_eq!(&c.ops[n - 3..], &[Op::PositionAtEnd { block: 6 }, Op::RetVoid, Op::WriteIr { path: 5 }]);
    // A function with a return type gets no return of its own.
    let (c, _) = compile(vec![function("f", "i32", vec![], vec![])]).unwrap();
    assert_eq!(c.ops.len(), 6);
    assert!(!c.terminated);
}

#[test]
fn other_function_without_return_type_returns_nothing() {
    let (c, _) = compile(vec![function("helper", "void", vec![], vec![])]).unwrap();
    assert_eq!(
        c.ops,
        vec![
            Op::BeginUnit,
            Op::FunctionType { ret: IrType::Void, count: 0 },
            Op::AddFunction { name: Name::Exact(0), ty: IrType::Function(1) },
            Op::AppendBlock { function: ptr(2), name: Name::Wrapped(1, 2) },
            Op::PositionAtEnd { block: 3 },
            Op::RetVoid,
            Op::WriteIr { path: 3 },
        ]
    );
    // `main` with a return type is lowered as any other function.
    let (c, _) = compile(vec![function("main", "i64", vec![], vec![])]).unwrap();
    assert_eq!(c.ops[1], Op::FunctionType { ret: IrType::Int(64), count: 0 });
    assert_eq!(c.ops.len(), 6);
}

#[test]
fn call_of_a_function_that_returns_nothing_yields_no_value() {
    let none: Vec<Source> = vec![];
    let mut c = Compiler::new("out".to_string(), vec![], vec![]);
    let program = Stmt::Block(vec![
        Stmt::Extern { name: "stop".to_string(), symbol: "abort".to_string(), return_type: ty("void"), arguments: vec![] },
        Stmt::Extern {
            name: "print".to_string(),
            symbol: "puts".to_string(),
            return_type: ty("i32"),
            arguments: vec![field("s", "string")],
        },
    ]);
    assert_eq!(c.visit_block(&none, &program), Ok(()));
    assert_eq!(
        c.ops,
        vec![
            Op::BeginUnit,
            Op::FunctionType { ret: IrType::Void, count: 0 },
            Op::AddFunction { name: Name::Exact(0), ty: IrType::Function(1) },
            Op::TypeItem(IrType::Pointer),
            Op::FunctionType { ret: i32t(), count: 1 },
            Op::AddFunction { name: Name::Exact(1), ty: IrType::Function(4) },
        ]
    );
    assert_eq!(c.texts, texts(&["abort", "puts"]));
    let stop = Expr::Call { name: "stop".to_string(), args: vec![] };
    assert_eq!(c.visit_call_expr(&none, &stop), Ok(None));
    assert_eq!(c.ops[6], Op::Call { fn_ty: IrType::Function(1), callee: ptr(2), count: 0, name: Name::Empty });
    assert_eq!(c.resolve_value(&none, &stop), Err(CompileError::NoValueFromCall));
    let print = Expr::Call { name: "print".to_string(), args: vec![Expr::String("x".to_string())] };
    assert_eq!(c.visit_call_expr(&none, &print), Ok(Some(IGValue::new(intv(11), i32t()))));
    assert_eq!(
        &c.ops[8..],
        &[
            Op::GlobalString { text: 2, name: Name::Fresh },
            Op::PointerCast { value: ptr(8), ty: IrType::Pointer, name: Name::Fresh },
            Op::Argument(ptr(9)),
            Op::Call { fn_ty: IrType::Function(4), callee: ptr(5), count: 1, name: Name::Fresh },
        ]
    );
    let missing = Expr::Call { name: "nope".to_string(), args: vec![] };
    assert_eq!(c.visit_call_expr(&none, &missing), Err(CompileError::UnresolvedFunction));
    assert_eq!(c.visit_call_expr(&none, &Expr::Int(1)), Err(CompileError::UnexpectedNode));
}

#[test]
fn calling_a_variable_is_rejected() {
    let none: Vec<Source> = vec![];
    let mut c = inside_function();
    assert_eq!(c.visit(&none, &var("x", true, Expr::Int(1))), Ok(()));
    let call = Expr::Call { name: "x".to_string(), args: vec![] };
    assert_eq!(c.visit_call_expr(&none, &call), Err(CompileError::NotAFunction));
}

#[test]
fn variable_declaration_and_use() {
    let none: Vec<Source> = vec![];
    let mut c = inside_function();
    let start = c.ops.len();
    assert_eq!(c.visit(&none, &var("x", true, Expr::Int(5))), Ok(()));
    assert_eq!(
        &c.ops[start..],
        &[
            Op::ConstInt { ty: i32t(), number: 5 },
            Op::Alloca { ty: i32t(), name: Name::Prefixed(3) },
            Op::Store { value: intv(start), ptr: ptr(start + 1) },
        ]
    );
    assert_eq!(c.texts[3], "x");
    assert_eq!(
        c.current_scope.resolve("x".to_string()),
        Some(&IGValue { value: ptr(start + 1), _type: i32t(), mutable: true, public: true, parent: None })
    );
    let v = c.resolve_value(&none, &sym("x")).unwrap();
    assert_eq!(v, IGValue::new(intv(start + 3), i32t()));
    assert_eq!(c.ops[start + 3], Op::Load { ty: i32t(), ptr: ptr(start + 1), name: Name::Fresh });
    assert_eq!(c.resolve_value(&none, &sym("y")), Err(CompileError::UnresolvedSymbol));
}

#[test]
fn pointer_held_by_a_variable() {
    let none: Vec<Source> = vec![];
    let mut c = inside_function();
    assert_eq!(c.visit(&none, &var("x", true, Expr::Int(5))), Ok(()));
    let slot = c.current_scope.resolve("x".to_string()).unwrap().value;
    let at = c.ops.len();
    assert_eq!(c.resolve_mutable_symbol(&sym("x")), Ok(IGValue::new(ptr(at), i32t())));
    assert_eq!(c.ops[at], Op::Load { ty: IrType::Pointer, ptr: slot, name: Name::Fresh });
    assert_eq!(c.resolve_mutable_symbol(&sym("y")), Err(CompileError::UnresolvedSymbol));
    assert_eq!(c.resolve_mutable_symbol(&Expr::Int(1)), Err(CompileError::UnexpectedNode));
}

#[test]
fn redeclaration_in_the_same_scope_fails() {
    let none: Vec<Source> = vec![];
    let mut c = inside_function();
    assert_eq!(c.visit(&none, &var("x", true, Expr::Int(1))), Ok(()));
    let ops = c.ops.clone();
    let names = c.texts.clone();
    let bound = c.current_scope.resolve("x".to_string()).cloned();
    assert_eq!(c.visit(&none, &var("x", false, Expr::Int(2))), Err(CompileError::Redefinition));
    // Nothing was done: the generator is as it was.
    assert_eq!(c.ops, ops);
    assert_eq!(c.texts, names);
    assert_eq!(c.current_scope.resolve("x".to_string()).cloned(), bound);
    assert_eq!(c.current_scope.symbols.len(), 2);
    assert!(!c.terminated);
}

#[test]
fn failure_before_anything_is_emitted_leaves_the_generator_as_it_was() {
    let none: Vec<Source> = vec![];
    let mut c = inside_function();
    let ops = c.ops.clone();
    let names = c.texts.clone();
    let symbols = c.current_scope.symbols.len();
    let member = Expr::Access { lhs: Box::new(sym("nobody")), rhs: Box::new(sym("a")) };
    assert_eq!(c.resolve_value(&none, &member), Err(CompileError::UnresolvedSymbol));
    assert_eq!(c.visit(&none, &Stmt::Include { path: "nowhere.ig".to_string() }), Err(CompileError::IncludeNotFound));
    let record = Stmt::StructDeclaration {
        name: "P".to_string(),
        fields: vec![field("a", "nothing")],
        functions: vec![],
    };
    assert_eq!(c.visit(&none, &record), Err(CompileError::InvalidType));
    let outside = Stmt::Extern {
        name: "g".to_string(),
        symbol: "g".to_string(),
        return_type: ty("nothing"),
        arguments: vec![],
    };
    assert_eq!(c.visit(&none, &outside), Err(CompileError::InvalidType));
    assert_eq!(c.ops, ops);
    assert_eq!(c.texts, names);
    assert_eq!(c.current_scope.symbols.len(), symbols);
    assert_eq!(c.current_scope.fields.len(), 0);
    assert_eq!(c.current_scope.resolve("P".to_string()), None);
    assert_eq!(c.current_scope.resolve("g".to_string()), None);
}

#[test]
fn declaration_in_a_function_shadows_the_outer_binding() {
    let none: Vec<Source> = vec![];
    let mut c = inside_function();
    assert_eq!(c.visit(&none, &var("x", true, Expr::Int(1))), Ok(()));
    let outer = c.current_scope.resolve("x".to_string()).cloned().unwrap();
    c.enter_scope("g".to_string());
    // The inner scope sees the outer binding,
    assert_eq!(c.current_scope.resolve("x".to_string()), Some(&outer));
    assert!(!c.declares(&"x".to_string()));
    // may declare the name again,
    assert_eq!(c.visit(&none, &var("x", false, Expr::Float(0))), Ok(()));
    let inner = c.current_scope.resolve("x".to_string()).cloned().unwrap();
    assert_eq!(inner._type, IrType::Float);
    assert!(!inner.mutable);
    assert_ne!(inner, outer);
    // and once it is given up, the name means again what it meant.
    c.leave_scope();
    assert_eq!(c.current_scope.resolve("x".to_string()), Some(&outer));
}

#[test]
fn assignment() {
    let none: Vec<Source> = vec![];
    let mut c = inside_function();
    assert_eq!(c.visit(&none, &var("x", true, Expr::Int(1))), Ok(()));
    assert_eq!(c.visit(&none, &var("k", false, Expr::Int(1))), Ok(()));
    let slot = c.current_scope.resolve("x".to_string()).unwrap().value;
    let start = c.ops.len();
    let assign = Expr::Assignment { assignee: Box::new(sym("x")), right: Box::new(Expr::Int(9)) };
    assert_eq!(c.visit_expression(&none, &assign), Ok(()));
    assert_eq!(
        &c.ops[start..],
        &[Op::ConstInt { ty: i32t(), number: 9 }, Op::Store { value: intv(start), ptr: slot }]
    );
    let assign = Expr::Assignment { assignee: Box::new(sym("k")), right: Box::new(Expr::Int(9)) };
    assert_eq!(c.visit_assignment_expr(&none, &assign), Err(CompileError::ImmutableAssignment));
    let assign = Expr::Assignment { assignee: Box::new(sym("nope")), right: Box::new(Expr::Int(9)) };
    assert_eq!(c.visit_assignment_expr(&none, &assign), Err(CompileError::UnresolvedSymbol));
    let assign = Expr::Assignment { assignee: Box::new(Expr::Int(1)), right: Box::new(Expr::Int(9)) };
    assert_eq!(c.visit_assignment_expr(&none, &assign), Err(CompileError::InvalidAssignee));
    assert_eq!(c.visit_assignment_expr(&none, &Expr::Int(1)), Err(CompileError::UnexpectedNode));
}

fn point() -> Stmt {
    Stmt::StructDeclaration {
        name: "Point".to_string(),
        fields: vec![field("a", "i32"), field("b", "f32"), field("c", "i64")],
        functions: vec![],
    }
}

#[test]
fn struct_fields_lie_in_the_order_of_the_declaration() {
    let none: Vec<Source> = vec![];
    let mut c = Compiler::new("out".to_string(), vec![], vec![]);
    assert_eq!(c.visit(&none, &point()), Ok(()));
    assert_eq!(
        c.ops,
        vec![
            Op::BeginUnit,
            Op::TypeItem(i32t()),
            Op::TypeItem(IrType::Float),
            Op::TypeItem(IrType::Int(64)),
            Op::StructType { count: 3 },
        ]
    );
    assert_eq!(c.current_scope.resolve_field("Point.a".to_string()), Some(&0));
    assert_eq!(c.current_scope.resolve_field("Point.b".to_string()), Some(&1));
    assert_eq!(c.current_scope.resolve_field("Point.c".to_string()), Some(&2));
    assert_eq!(c.current_scope.resolve_field("Point.d".to_string()), None);
    assert_eq!(c.current_scope.resolve_field("a".to_string()), None);
    assert_eq!(
        c.current_scope.resolve("Point".to_string()),
        Some(&IGValue { value: IrValue::Sentinel, _type: IrType::Struct(4), mutable: false, public: true, parent: None })
    );
    assert_eq!(qualified_name(&"Point".to_string(), &"a".to_string()), "Point.a");
}

#[test]
fn member_access_addresses_the_slot_of_the_field() {
    let none: Vec<Source> = vec![];
    let mut c = inside_function();
    assert_eq!(c.visit(&none, &point()), Ok(()));
    let point_type = c.current_scope.resolve("Point".to_string()).unwrap()._type;
    let init = Expr::StructInitialize {
        name: "Point".to_string(),
        fields: vec![
            Stmt::StructInitField { name: "c".to_string(), value: Box::new(Expr::Int(3)) },
            Stmt::StructInitField { name: "a".to_string(), value: Box::new(Expr::Int(1)) },
        ],
    };
    let start = c.ops.len();
    assert_eq!(c.visit(&none, &var("p", true, init)), Ok(()));
    assert_eq!(
        &c.ops[start..],
        &[
            Op::Alloca { ty: point_type, name: Name::Fresh },
            Op::ConstInt { ty: i32t(), number: 3 },
            Op::StructGep { ty: point_type, ptr: ptr(start), index: 2, name: Name::Fresh },
            Op::Store { value: intv(start + 1), ptr: ptr(start + 2) },
            Op::ConstInt { ty: i32t(), number: 1 },
            Op::StructGep { ty: point_type, ptr: ptr(start), index: 0, name: Name::Fresh },
            Op::Store { value: intv(start + 4), ptr: ptr(start + 5) },
            Op::Alloca { ty: point_type, name: Name::Prefixed(3) },
            Op::Store { value: ptr(start), ptr: ptr(start + 7) },
        ]
    );
    // The variable is bound to the storage that the initialiser filled.
    let p = c.current_scope.resolve("p".to_string()).cloned().unwrap();
    assert_eq!(
        p,
        IGValue {
            value: ptr(start),
            _type: point_type,
            mutable: true,
            public: true,
            parent: Some("Point".to_string()),
        }
    );
    for (name, index) in [("a", 0), ("b", 1), ("c", 2)] {
        let at = c.ops.len();
        let access = Expr::Access { lhs: Box::new(sym("p")), rhs: Box::new(sym(name)) };
        let v = c.resolve_value(&none, &access).unwrap();
        assert_eq!(v, IGValue::new(ptr(at), point_type));
        assert_eq!(c.ops[at], Op::StructGep { ty: point_type, ptr: p.value, index, name: Name::Fresh });
    }
    // Assigning to a member stores at its address.
    let at = c.ops.len();
    let assign = Expr::Assignment {
        assignee: Box::new(Expr::Access { lhs: Box::new(sym("p")), rhs: Box::new(sym("b")) }),
        right: Box::new(Expr::Float(0)),
    };
    assert_eq!(c.visit_expression(&none, &assign), Ok(()));
    assert_eq!(
        &c.ops[at..],
        &[
            Op::StructGep { ty: point_type, ptr: p.value, index: 1, name: Name::Fresh },
            Op::ConstReal { ty: IrType::Float, bits: 0 },
            Op::Store { value: inst(at + 1, TypeKind::Float), ptr: ptr(at) },
        ]
    );
}

#[test]
fn member_access_errors() {
    let none: Vec<Source> = vec![];
    let mut c = inside_function();
    assert_eq!(c.visit(&none, &point()), Ok(()));
    assert_eq!(c.visit(&none, &var("n", true, Expr::Int(1))), Ok(()));
    let init = Expr::StructInitialize { name: "Point".to_string(), fields: vec![] };
    assert_eq!(c.visit(&none, &var("p", true, init)), Ok(()));
    let access = |l: Expr, r: Expr| Expr::Access { lhs: Box::new(l), rhs: Box::new(r) };
    assert_eq!(c.resolve_value(&none, &access(sym("n"), sym("a"))), Err(CompileError::NoMemberType));
    assert_eq!(c.resolve_value(&none, &access(sym("q"), sym("a"))), Err(CompileError::UnresolvedSymbol));
    assert_eq!(c.resolve_value(&none, &access(sym("p"), sym("z"))), Err(CompileError::UnresolvedMember));
    assert_eq!(c.resolve_value(&none, &access(sym("p"), Expr::Int(1))), Err(CompileError::ExpectedMemberName));
    assert_eq!(
        c.resolve_value(&none, &access(access(sym("p"), sym("a")), sym("b"))),
        Err(CompileError::NestedAccess)
    );
    let init = Expr::StructInitialize { name: "Nope".to_string(), fields: vec![] };
    assert_eq!(c.resolve_value(&none, &init), Err(CompileError::UnresolvedStruct));
    let init = Expr::StructInitialize {
        name: "Point".to_string(),
        fields: vec![Stmt::StructInitField { name: "z".to_string(), value: Box::new(Expr::Int(1)) }],
    };
    assert_eq!(c.resolve_value(&none, &init), Err(CompileError::UnresolvedMember));
    let init = Expr::StructInitialize { name: "Point".to_string(), fields: vec![ret(Expr::Int(1))] };
    assert_eq!(c.resolve_value(&none, &init), Err(CompileError::ExpectedStructInitField));
}

#[test]
fn loop_runs_the_body_before_the_condition() {
    let none: Vec<Source> = vec![];
    let mut c = inside_function();
    let function = c.get_current_function().unwrap();
    let start = c.ops.len();
    let texts_before = c.texts.len();
    let body = Stmt::Block(vec![Stmt::Expression(Box::new(bin(Expr::Int(1), Token::Plus, Expr::Int(2))))]);
    let looped = Stmt::While {
        condition: Box::new(bin(Expr::Int(1), Token::Less, Expr::Int(2))),
        body: Box::new(body),
    };
    assert_eq!(c.visit(&none, &looped), Ok(()));
    assert_eq!(
        &c.ops[start..],
        &[
            Op::AppendBlock { function, name: Name::Prefixed(texts_before) },
            Op::AppendBlock { function, name: Name::Prefixed(texts_before + 1) },
            Op::Br { dest: start },
            Op::PositionAtEnd { block: start },
            Op::ConstInt { ty: i32t(), number: 1 },
            Op::ConstInt { ty: i32t(), number: 2 },
            Op::Arith { op: ArithOp::Add, lhs: intv(start + 4), rhs: intv(start + 5), name: Name::Prefixed(texts_before + 2) },
            Op::ConstInt { ty: i32t(), number: 1 },
            Op::ConstInt { ty: i32t(), number: 2 },
            Op::ICmp { pred: IntPredicate::ULT, lhs: intv(start + 7), rhs: intv(start + 8), name: Name::Prefixed(texts_before + 3) },
            Op::CondBr { cond: intv(start + 9), then: start, otherwise: start + 1 },
            Op::PositionAtEnd { block: start + 1 },
        ]
    );
    assert_eq!(&c.texts[texts_before..], &texts(&["while_inside", "while_outside", "op", "op"])[..]);
    assert_eq!(c.insert, Some(start + 1));
    assert_eq!(c.get_current_function(), Some(function));
}

#[test]
fn loop_conditions() {
    let none: Vec<Source> = vec![];
    let mut c = inside_function();
    let v = c.visit_conditional(&none, &Expr::Bool(true)).unwrap();
    assert_eq!(v._type, IrType::Int(1));
    let at = c.ops.len();
    let negation = Expr::Prefix { op: Token::Not, right: Box::new(Expr::Bool(false)) };
    let v = c.visit_conditional(&none, &negation).unwrap();
    assert_eq!(v, IGValue::new(intv(at + 1), IrType::Int(1)));
    assert_eq!(c.ops[at + 1], Op::Not { value: intv(at), name: Name::Fresh });
    let minus = Expr::Prefix { op: Token::Minus, right: Box::new(Expr::Int(1)) };
    assert_eq!(c.visit_conditional(&none, &minus), Err(CompileError::UnsupportedPrefix));
    assert_eq!(c.visit_conditional(&none, &Expr::Int(1)), Err(CompileError::ExpectedConditional));
    assert_eq!(c.visit_prefix(&none, &Expr::Int(1)), Err(CompileError::UnexpectedNode));
    let outside = Stmt::While { condition: Box::new(Expr::Bool(true)), body: Box::new(Stmt::Block(vec![])) };
    let mut top = Compiler::new("out".to_string(), vec![], vec![]);
    assert_eq!(top.visit(&none, &outside), Err(CompileError::NoInsertionPoint));
    let not_a_block = Stmt::While { condition: Box::new(Expr::Bool(true)), body: Box::new(ret(Expr::Int(1))) };
    assert_eq!(c.visit(&none, &not_a_block), Err(CompileError::ExpectedBlock));
}

#[test]
fn unsupported_nodes() {
    let none: Vec<Source> = vec![];
    let mut c = inside_function();
    assert_eq!(c.visit(&none, &Stmt::Block(vec![])), Err(CompileError::UnsupportedStatement));
    let branch = Stmt::If { condition: Box::new(Expr::Bool(true)), body: Box::new(Stmt::Block(vec![])), _else: None };
    assert_eq!(c.visit(&none, &branch), Err(CompileError::UnsupportedStatement));
    assert_eq!(c.visit(&none, &field("a", "i32")), Err(CompileError::UnsupportedStatement));
    assert_eq!(c.visit(&none, &Stmt::Expression(Box::new(Expr::Int(1)))), Err(CompileError::UnsupportedExpression));
    assert_eq!(c.visit_expression(&none, &sym("x")), Err(CompileError::UnsupportedExpression));
    assert_eq!(c.resolve_value(&none, &Expr::Array(vec![])), Err(CompileError::UnsupportedValue));
    let negation = Expr::Prefix { op: Token::Not, right: Box::new(Expr::Bool(false)) };
    assert_eq!(c.resolve_value(&none, &negation), Err(CompileError::UnsupportedValue));
    assert_eq!(c.visit_block(&none, &ret(Expr::Int(1))), Err(CompileError::ExpectedBlock));
    assert_eq!(c.visit_return(&none, &Stmt::Block(vec![])), Err(CompileError::UnexpectedNode));
    assert_eq!(c.visit_variable_declaration(&none, &Stmt::Block(vec![])), Err(CompileError::UnexpectedNode));
    assert_eq!(c.visit_function_declaration(&none, &Stmt::Block(vec![])), Err(CompileError::UnexpectedNode));
    assert_eq!(c.visit_struct_declaration(&none, &Stmt::Block(vec![])), Err(CompileError::UnexpectedNode));
    assert_eq!(c.visit_extern(&none, &Stmt::Block(vec![])), Err(CompileError::UnexpectedNode));
    assert_eq!(c.visit_while(&none, &Stmt::Block(vec![])), Err(CompileError::UnexpectedNode));
    assert_eq!(c.visit_include(&none, &Stmt::Block(vec![])), Err(CompileError::UnexpectedNode));
    let array = function("f", "i32", vec![Stmt::Field { name: "a".to_string(), _type: Box::new(Type::Array(ty("i32"))) }], vec![]);
    assert_eq!(c.visit(&none, &array), Err(CompileError::UnsupportedType));
}

#[test]
fn link_directives_are_recorded() {
    let program = vec![
        Stmt::Link { library: "m".to_string(), _static: false },
        Stmt::Link { library: "lib/x.a".to_string(), _static: true },
    ];
    let (c, plan) = compile(program).unwrap();
    assert_eq!(
        c.libs,
        vec![
            IGLib { lib: "m".to_string(), _static: false },
            IGLib { lib: "lib/x.a".to_string(), _static: true },
        ]
    );
    assert_eq!(c.ops, vec![Op::BeginUnit, Op::WriteIr { path: 0 }]);
    assert_eq!(
        plan,
        Plan {
            emit: vec![Command {
                program: "llc".to_string(),
                args: texts(&["--filetype=obj", "out.ll", "-o", "out.o"]),
            }],
            link: Some(Command {
                program: "gcc".to_string(),
                args: texts(&["-o", "out", "-no-pie", "out.o", "-lm", "lib/x.a"]),
            }),
            remove: texts(&["out.o"]),
        }
    );
}

fn helper_tokens() -> Vec<Token> {
    let id = |s: &str| Token::Identifier(s.to_string());
    vec![
        Token::LinkLib,
        Token::String("m".to_string()),
        id("helper"),
        Token::Arrow,
        Token::Subroutine,
        Token::OpenParen,
        id("n"),
        Token::Colon,
        id("i32"),
        Token::CloseParen,
        id("i32"),
        Token::OpenCurly,
        Token::Return,
        id("n"),
        Token::Semicolon,
        Token::CloseCurly,
        id("Pair"),
        Token::Arrow,
        Token::Struct,
        Token::OpenCurly,
        id("first"),
        Token::Colon,
        id("i32"),
        Token::Comma,
        id("second"),
        Token::Colon,
        id("i32"),
        Token::CloseCurly,
        Token::EOF,
    ]
}

#[test]
fn spliced_module_brings_its_public_function() {
    let sources = vec![Source {
        path: "b.ig".to_string(),
        output: "build/b.ig".to_string(),
        tokens: helper_tokens(),
        includes: vec![],
    }];
    let program = Stmt::Block(vec![
        Stmt::Include { path: "b.ig".to_string() },
        function(
            "main",
            "void",
            vec![],
            vec![ret(Expr::Call { name: "helper".to_string(), args: vec![Expr::Int(1)] })],
        ),
    ]);
    let (c, plan) = Compiler::compile("out".to_string(), program, &sources, false).unwrap();
    // The module B: instructions 1 to 14.
    assert_eq!(c.ops[0], Op::BeginUnit);
    assert_eq!(c.ops[1], Op::BeginUnit);
    assert_eq!(c.ops[2], Op::TypeItem(i32t()));
    assert_eq!(c.ops[3], Op::FunctionType { ret: i32t(), count: 1 });
    assert_eq!(c.ops[4], Op::AddFunction { name: Name::Exact(0), ty: IrType::Function(3) });
    assert_eq!(c.ops[11], Op::Ret { value: intv(10) });
    assert_eq!(c.ops[12], Op::TypeItem(i32t()));
    assert_eq!(c.ops[14], Op::StructType { count: 2 });
    assert_eq!(c.ops[15], Op::WriteIr { path: 4 });
    assert_eq!(c.texts[4], "build/b.ig.ll");
    // Spliced into A: `helper` is declared again, by the name that the
    // backend knows it by; the struct type is taken over as it is.
    assert_eq!(c.ops[16], Op::AddFunction { name: Name::OfValue(ptr(4)), ty: IrType::Function(3) });
    assert_eq!(
        c.current_scope.resolve("helper".to_string()),
        Some(&IGValue { value: ptr(16), _type: IrType::Function(3), mutable: false, public: false, parent: None })
    );
    assert_eq!(
        c.current_scope.resolve("Pair".to_string()),
        Some(&IGValue { value: IrValue::Sentinel, _type: IrType::Struct(14), mutable: false, public: false, parent: None })
    );
    assert_eq!(c.current_scope.resolve_field("Pair.first".to_string()), Some(&0));
    assert_eq!(c.current_scope.resolve_field("Pair.second".to_string()), Some(&1));
    // `helper` can be called in A.
    let call = c.ops.iter().position(|op| matches!(op, Op::Call { .. })).unwrap();
    assert_eq!(
        c.ops[call],
        Op::Call { fn_ty: IrType::Function(3), callee: ptr(16), count: 1, name: Name::Fresh }
    );
    // The lists of A hold those of B.
    assert_eq!(c.libs, vec![IGLib { lib: "m".to_string(), _static: false }]);
    assert_eq!(c.outputs, texts(&["out.ll", "build/b.ig.ll"]));
    assert_eq!(c.objects, texts(&["out.o", "build/b.ig.o"]));
    assert_eq!(
        plan.emit,
        vec![
            Command { program: "llc".to_string(), args: texts(&["--filetype=obj", "out.ll", "-o", "out.o"]) },
            Command {
                program: "llc".to_string(),
                args: texts(&["--filetype=obj", "build/b.ig.ll", "-o", "build/b.ig.o"]),
            },
        ]
    );
    assert_eq!(
        plan.link,
        Some(Command {
            program: "gcc".to_string(),
            args: texts(&["-o", "out", "-no-pie", "out.o", "build/b.ig.o", "-lm"]),
        })
    );
    assert_eq!(plan.remove, texts(&["out.o", "build/b.ig.o"]));
    assert_eq!(*c.ops.last().unwrap(), Op::WriteIr { path: c.texts.len() - 1 });
    assert_eq!(c.texts.last().unwrap(), "out.ll");
}

#[test]
fn spliced_module_is_looked_up_by_the_path_of_the_directive() {
    let sources = vec![
        Source { path: "a.ig".to_string(), output: "a".to_string(), tokens: vec![Token::EOF], includes: vec![] },
        Source { path: "bad.ig".to_string(), output: "bad".to_string(), tokens: vec![Token::Plus], includes: vec![] },
    ];
    let mut c = Compiler::new("out".to_string(), vec![], vec![]);
    assert_eq!(
        c.visit(&sources, &Stmt::Include { path: "missing.ig".to_string() }),
        Err(CompileError::IncludeNotFound)
    );
    assert_eq!(
        c.visit(&sources, &Stmt::Include { path: "bad.ig".to_string() }),
        Err(CompileError::Parse(ParseError { kind: ParseErrorKind::NoPrefixHandler, position: 0 }))
    );
    let mut c = Compiler::new("out".to_string(), vec![], vec![]);
    assert_eq!(c.visit(&sources, &Stmt::Include { path: "a.ig".to_string() }), Ok(()));
    assert_eq!(c.ops, vec![Op::BeginUnit, Op::BeginUnit, Op::WriteIr { path: 0 }]);
    assert_eq!(c.texts, texts(&["a.ll"]));
    assert_eq!(c.outputs, texts(&["out.ll", "a.ll"]));
}

#[test]
fn nested_modules_are_spliced_through() {
    let id = |s: &str| Token::Identifier(s.to_string());
    let inner = Source {
        path: "c.ig".to_string(),
        output: "c".to_string(),
        tokens: vec![
            id("deep"),
            Token::Arrow,
            Token::Extern,
            Token::OpenParen,
            Token::CloseParen,
            Token::Semicolon,
            Token::LinkStatic,
            Token::String("libc.a".to_string()),
            Token::EOF,
        ],
        includes: vec![],
    };
    let middle = Source {
        path: "b.ig".to_string(),
        output: "b".to_string(),
        tokens: vec![Token::Include, Token::String("c.ig".to_string()), Token::EOF],
        includes: vec![inner],
    };
    let program = Stmt::Block(vec![Stmt::Include { path: "b.ig".to_string() }]);
    let (c, plan) = Compiler::compile("out".to_string(), program, &vec![middle], true).unwrap();
    assert_eq!(c.outputs, texts(&["out.ll", "b.ll", "c.ll"]));
    assert_eq!(c.libs, vec![IGLib { lib: "libc.a".to_string(), _static: true }]);
    // `deep` is public in C, so B declares it again; there it is private,
    // so A does not get it.
    let in_b = Op::AddFunction { name: Name::OfValue(ptr(4)), ty: IrType::Function(3) };
    assert_eq!(c.ops.iter().filter(|op| **op == in_b).count(), 1);
    assert_eq!(c.ops.iter().filter(|op| matches!(op, Op::AddFunction { .. })).count(), 2);
    assert_eq!(c.current_scope.resolve("deep".to_string()), None);
    assert_eq!(c.current_scope.symbols.len(), 0);
    // A unit that is spliced into another leaves nothing to do.
    assert_eq!(plan, Plan { emit: vec![], link: None, remove: vec![] });
    // The source of C is known to B only.
    let program = Stmt::Block(vec![Stmt::Include { path: "c.ig".to_string() }]);
    let sources = vec![Source { path: "b.ig".to_string(), output: "b".to_string(), tokens: vec![], includes: vec![] }];
    assert!(matches!(
        Compiler::compile("out".to_string(), program, &sources, false),
        Err(CompileError::IncludeNotFound)
    ));
}

#[test]
fn values() {
    let v = IGValue::new(intv(1), i32t());
    assert!(v.mutable && v.public && v.parent.is_none());
    let s = IGValue::new_struct(ptr(2), IrType::Struct(5), "Point".to_string());
    assert!(s.mutable && s.public);
    assert_eq!(s.parent, Some("Point".to_string()));
    assert!(v.is_type(IrType::Int(1)));
    assert!(v.is_type(IrType::Int(64)));
    assert!(!v.is_type(IrType::Float));
    assert!(!v.is_type(IrType::Pointer));
    assert!(v.same_type(&IGValue::new(intv(9), IrType::Int(8))));
    assert!(!v.same_type(&s));
    assert!(v.are_both(&IGValue::new(intv(9), IrType::Int(8)), i32t()));
    assert!(!v.are_both(&IGValue::new(intv(9), IrType::Int(8)), IrType::Float));
    assert!(!v.are_both(&s, i32t()));
    let f = IGValue::new(inst(3, TypeKind::Float), IrType::Float);
    assert!(f.are_both(&f.clone(), IrType::Float));
    assert!(!f.are_both(&f.clone(), IrType::Double));
    assert_eq!(IrType::Void.kind(), TypeKind::Void);
    assert_eq!(IrType::Half.kind(), TypeKind::Half);
    assert_eq!(IrType::Double.kind(), TypeKind::Double);
    assert_eq!(IrType::Pointer.kind(), TypeKind::Pointer);
    assert_eq!(IrType::Struct(0).kind(), TypeKind::Struct);
    assert_eq!(IrType::Function(0).kind(), TypeKind::Function);
    assert_eq!(IrValue::Sentinel.kind(), TypeKind::Integer);
    assert_eq!(ptr(1).kind(), TypeKind::Pointer);
}
