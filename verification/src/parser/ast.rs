//! The syntax tree, and its mathematical value.

use vstd::prelude::*;
use crate::lexer::{Token, TokenV};

verus! {

/// A type as it is written in the source.
#[derive(Debug, PartialEq)]
pub enum Type {
    Symbol(String),
    Ref(Box<Type>),
    Array(Box<Type>),
}

/// An expression. `Float` holds the IEEE-754 binary64 bit pattern of the
/// literal. `StmtHack` carries a declaration that was met where an
/// expression was expected.
#[derive(Debug, PartialEq)]
pub enum Expr {
    Int(isize),
    Float(u64),
    String(String),
    Symbol(String),
    Bool(bool),
    Binary { left: Box<Expr>, op: Token, right: Box<Expr> },
    Prefix { op: Token, right: Box<Expr> },
    Array(Vec<Expr>),
    Call { name: String, args: Vec<Expr> },
    Assignment { assignee: Box<Expr>, right: Box<Expr> },
    StructInitialize { name: String, fields: Vec<Stmt> },
    Access { lhs: Box<Expr>, rhs: Box<Expr> },
    StmtHack(Stmt),
}

/// A statement.
#[derive(Debug, PartialEq)]
pub enum Stmt {
    Block(Vec<Stmt>),
    Expression(Box<Expr>),
    VariableDeclaration { name: String, mutable: bool, explicit_type: Option<Box<Type>>, value: Box<Expr> },
    If { condition: Box<Expr>, body: Box<Stmt>, _else: Option<Box<Stmt>> },
    While { condition: Box<Expr>, body: Box<Stmt> },
    Link { library: String, _static: bool },
    Field { name: String, _type: Box<Type> },
    Return { value: Box<Expr> },
    StructDeclaration { name: String, fields: Vec<Stmt>, functions: Vec<Stmt> },
    StructInitField { name: String, value: Box<Expr> },
    FunctionDeclaration { name: String, return_type: Box<Type>, arguments: Vec<Stmt>, body: Box<Stmt> },
    Extern { name: String, symbol: String, return_type: Box<Type>, arguments: Vec<Stmt> },
    Include { path: String },
}

/// The mathematical value of a [`Type`].
pub enum TypeV {
    Symbol(Seq<char>),
    Ref(Box<TypeV>),
    Array(Box<TypeV>),
}

/// The mathematical value of an [`Expr`].
pub enum ExprV {
    Int(isize),
    Float(u64),
    String(Seq<char>),
    Symbol(Seq<char>),
    Bool(bool),
    Binary { left: Box<ExprV>, op: TokenV, right: Box<ExprV> },
    Prefix { op: TokenV, right: Box<ExprV> },
    Array(Seq<ExprV>),
    Call { name: Seq<char>, args: Seq<ExprV> },
    Assignment { assignee: Box<ExprV>, right: Box<ExprV> },
    StructInitialize { name: Seq<char>, fields: Seq<StmtV> },
    Access { lhs: Box<ExprV>, rhs: Box<ExprV> },
    StmtHack(Box<StmtV>),
}

/// The mathematical value of a [`Stmt`].
pub enum StmtV {
    Block(Seq<StmtV>),
    Expression(Box<ExprV>),
    VariableDeclaration { name: Seq<char>, mutable: bool, explicit_type: Option<TypeV>, value: Box<ExprV> },
    If { condition: Box<ExprV>, body: Box<StmtV>, _else: Option<Box<StmtV>> },
    While { condition: Box<ExprV>, body: Box<StmtV> },
    Link { library: Seq<char>, _static: bool },
    Field { name: Seq<char>, _type: TypeV },
    Return { value: Box<ExprV> },
    StructDeclaration { name: Seq<char>, fields: Seq<StmtV>, functions: Seq<StmtV> },
    StructInitField { name: Seq<char>, value: Box<ExprV> },
    FunctionDeclaration { name: Seq<char>, return_type: TypeV, arguments: Seq<StmtV>, body: Box<StmtV> },
    Extern { name: Seq<char>, symbol: Seq<char>, return_type: TypeV, arguments: Seq<StmtV> },
    Include { path: Seq<char> },
}

pub open spec fn type_view(t: Type) -> TypeV
    decreases t,
{
    match t {
        Type::Symbol(s) => TypeV::Symbol(s@),
        Type::Ref(inner) => TypeV::Ref(Box::new(type_view(*inner))),
        Type::Array(inner) => TypeV::Array(Box::new(type_view(*inner))),
    }
}

pub open spec fn expr_view(e: Expr) -> ExprV
    decreases e,
{
    match e {
        Expr::Int(v) => ExprV::Int(v),
        Expr::Float(v) => ExprV::Float(v),
        Expr::String(s) => ExprV::String(s@),
        Expr::Symbol(s) => ExprV::Symbol(s@),
        Expr::Bool(b) => ExprV::Bool(b),
        Expr::Binary { left, op, right } => ExprV::Binary {
            left: Box::new(expr_view(*left)),
            op: op.deep_view(),
            right: Box::new(expr_view(*right)),
        },
        Expr::Prefix { op, right } => ExprV::Prefix { op: op.deep_view(), right: Box::new(expr_view(*right)) },
        Expr::Array(items) => ExprV::Array(exprs_view(items@)),
        Expr::Call { name, args } => ExprV::Call { name: name@, args: exprs_view(args@) },
        Expr::Assignment { assignee, right } => ExprV::Assignment {
            assignee: Box::new(expr_view(*assignee)),
            right: Box::new(expr_view(*right)),
        },
        Expr::StructInitialize { name, fields } => ExprV::StructInitialize {
            name: name@,
            fields: stmts_view(fields@),
        },
        Expr::Access { lhs, rhs } => ExprV::Access {
            lhs: Box::new(expr_view(*lhs)),
            rhs: Box::new(expr_view(*rhs)),
        },
        Expr::StmtHack(s) => ExprV::StmtHack(Box::new(stmt_view(s))),
    }
}

/// The values of a run of expressions, in order.
pub open spec fn exprs_view(s: Seq<Expr>) -> Seq<ExprV>
    decreases s,
{
    if s.len() == 0 {
        Seq::empty()
    } else {
        exprs_view(s.drop_last()).push(expr_view(s.last()))
    }
}

pub open spec fn stmt_view(s: Stmt) -> StmtV
    decreases s,
{
    match s {
        Stmt::Block(items) => StmtV::Block(stmts_view(items@)),
        Stmt::Expression(e) => StmtV::Expression(Box::new(expr_view(*e))),
        Stmt::VariableDeclaration { name, mutable, explicit_type, value } => StmtV::VariableDeclaration {
            name: name@,
            mutable,
            explicit_type: match explicit_type {
                Some(t) => Some(type_view(*t)),
                None => None,
            },
            value: Box::new(expr_view(*value)),
        },
        Stmt::If { condition, body, _else } => StmtV::If {
            condition: Box::new(expr_view(*condition)),
            body: Box::new(stmt_view(*body)),
            _else: match _else {
                Some(e) => Some(Box::new(stmt_view(*e))),
                None => None,
            },
        },
        Stmt::While { condition, body } => StmtV::While {
            condition: Box::new(expr_view(*condition)),
            body: Box::new(stmt_view(*body)),
        },
        Stmt::Link { library, _static } => StmtV::Link { library: library@, _static },
        Stmt::Field { name, _type } => StmtV::Field { name: name@, _type: type_view(*_type) },
        Stmt::Return { value } => StmtV::Return { value: Box::new(expr_view(*value)) },
        Stmt::StructDeclaration { name, fields, functions } => StmtV::StructDeclaration {
            name: name@,
            fields: stmts_view(fields@),
            functions: stmts_view(functions@),
        },
        Stmt::StructInitField { name, value } => StmtV::StructInitField {
            name: name@,
            value: Box::new(expr_view(*value)),
        },
        Stmt::FunctionDeclaration { name, return_type, arguments, body } => StmtV::FunctionDeclaration {
            name: name@,
            return_type: type_view(*return_type),
            arguments: stmts_view(arguments@),
            body: Box::new(stmt_view(*body)),
        },
        Stmt::Extern { name, symbol, return_type, arguments } => StmtV::Extern {
            name: name@,
            symbol: symbol@,
            return_type: type_view(*return_type),
            arguments: stmts_view(arguments@),
        },
        Stmt::Include { path } => StmtV::Include { path: path@ },
    }
}

/// The values of a run of statements, in order.
pub open spec fn stmts_view(s: Seq<Stmt>) -> Seq<StmtV>
    decreases s,
{
    if s.len() == 0 {
        Seq::empty()
    } else {
        stmts_view(s.drop_last()).push(stmt_view(s.last()))
    }
}

impl DeepView for Type {
    type V = TypeV;

    open spec fn deep_view(&self) -> TypeV {
        type_view(*self)
    }
}

impl DeepView for Expr {
    type V = ExprV;

    open spec fn deep_view(&self) -> ExprV {
        expr_view(*self)
    }
}

impl DeepView for Stmt {
    type V = StmtV;

    open spec fn deep_view(&self) -> StmtV {
        stmt_view(*self)
    }
}

/// The value of a run of statements is taken item by item.
pub proof fn lemma_stmts_view(s: Seq<Stmt>)
    ensures
        stmts_view(s).len() == s.len(),
        forall|i: int| 0 <= i < s.len() ==> #[trigger] stmts_view(s)[i] == stmt_view(s[i]),
    decreases s.len(),
{
    if s.len() > 0 {
        lemma_stmts_view(s.drop_last());
    }
}

/// The value of a run of expressions is taken item by item.
pub proof fn lemma_exprs_view(s: Seq<Expr>)
    ensures
        exprs_view(s).len() == s.len(),
        forall|i: int| 0 <= i < s.len() ==> #[trigger] exprs_view(s)[i] == expr_view(s[i]),
    decreases s.len(),
{
    if s.len() > 0 {
        lemma_exprs_view(s.drop_last());
    }
}

/// Appending a statement appends its value.
pub proof fn lemma_stmts_view_push(s: Seq<Stmt>, x: Stmt)
    ensures
        stmts_view(s.push(x)) == stmts_view(s).push(stmt_view(x)),
{
    assert(s.push(x).drop_last() =~= s);
}

/// Appending an expression appends its value.
pub proof fn lemma_exprs_view_push(s: Seq<Expr>, x: Expr)
    ensures
        exprs_view(s.push(x)) == exprs_view(s).push(expr_view(x)),
{
    assert(s.push(x).drop_last() =~= s);
}

impl Clone for Type {
    fn clone(&self) -> (r: Self)
        ensures
            r.deep_view() == self.deep_view(),
        decreases self,
    {
        match self {
            Type::Symbol(name) => Type::Symbol(name.clone()),
            Type::Ref(inner) => Type::Ref(Box::new((**inner).clone())),
            Type::Array(inner) => Type::Array(Box::new((**inner).clone())),
        }
    }
}

/// A copy of each of the expressions `items`, in order.
fn copy_exprs(items: &Vec<Expr>) -> (r: Vec<Expr>)
    ensures
        exprs_view(r@) == exprs_view(items@),
    decreases items, 0nat,
{
    let mut r: Vec<Expr> = Vec::new();
    let mut i: usize = 0;
    while i < items.len()
        invariant
            i <= items@.len(),
            r@.len() == i,
            forall|k: int| 0 <= k < i ==> expr_view(#[trigger] r@[k]) == expr_view(items@[k]),
        decreases items@.len() - i,
    {
        let item = items[i].clone();
        r.push(item);
        i += 1;
    }
    proof {
        lemma_exprs_view(r@);
        lemma_exprs_view(items@);
        assert(exprs_view(r@) =~= exprs_view(items@));
    }
    r
}

/// A copy of each of the statements `items`, in order.
fn copy_stmts(items: &Vec<Stmt>) -> (r: Vec<Stmt>)
    ensures
        stmts_view(r@) == stmts_view(items@),
    decreases items, 0nat,
{
    let mut r: Vec<Stmt> = Vec::new();
    let mut i: usize = 0;
    while i < items.len()
        invariant
            i <= items@.len(),
            r@.len() == i,
            forall|k: int| 0 <= k < i ==> stmt_view(#[trigger] r@[k]) == stmt_view(items@[k]),
        decreases items@.len() - i,
    {
        let item = items[i].clone();
        r.push(item);
        i += 1;
    }
    proof {
        lemma_stmts_view(r@);
        lemma_stmts_view(items@);
        assert(stmts_view(r@) =~= stmts_view(items@));
    }
    r
}

impl Clone for Expr {
    fn clone(&self) -> (r: Self)
        ensures
            r.deep_view() == self.deep_view(),
        decreases self, 1nat,
    {
        match self {
            Expr::Int(v) => Expr::Int(*v),
            Expr::Float(v) => Expr::Float(*v),
            Expr::String(text) => Expr::String(text.clone()),
            Expr::Symbol(name) => Expr::Symbol(name.clone()),
            Expr::Bool(b) => Expr::Bool(*b),
            Expr::Binary { left, op, right } => Expr::Binary {
                left: Box::new((**left).clone()),
                op: op.clone(),
                right: Box::new((**right).clone()),
            },
            Expr::Prefix { op, right } => Expr::Prefix { op: op.clone(), right: Box::new((**right).clone()) },
            Expr::Array(items) => Expr::Array(copy_exprs(items)),
            Expr::Call { name, args } => Expr::Call { name: name.clone(), args: copy_exprs(args) },
            Expr::Assignment { assignee, right } => Expr::Assignment {
                assignee: Box::new((**assignee).clone()),
                right: Box::new((**right).clone()),
            },
            Expr::StructInitialize { name, fields } => Expr::StructInitialize {
                name: name.clone(),
                fields: copy_stmts(fields),
            },
            Expr::Access { lhs, rhs } => Expr::Access {
                lhs: Box::new((**lhs).clone()),
                rhs: Box::new((**rhs).clone()),
            },
            Expr::StmtHack(s) => Expr::StmtHack(s.clone()),
        }
    }
}

impl Clone for Stmt {
    fn clone(&self) -> (r: Self)
        ensures
            r.deep_view() == self.deep_view(),
        decreases self, 1nat,
    {
        match self {
            Stmt::Block(items) => Stmt::Block(copy_stmts(items)),
            Stmt::Expression(e) => Stmt::Expression(Box::new((**e).clone())),
            Stmt::VariableDeclaration { name, mutable, explicit_type, value } => Stmt::VariableDeclaration {
                name: name.clone(),
                mutable: *mutable,
                explicit_type: match explicit_type {
                    Some(t) => Some(Box::new((**t).clone())),
                    None => None,
                },
                value: Box::new((**value).clone()),
            },
            Stmt::If { condition, body, _else } => Stmt::If {
                condition: Box::new((**condition).clone()),
                body: Box::new((**body).clone()),
                _else: match _else {
                    Some(e) => Some(Box::new((**e).clone())),
                    None => None,
                },
            },
            Stmt::While { condition, body } => Stmt::While {
                condition: Box::new((**condition).clone()),
                body: Box::new((**body).clone()),
            },
            Stmt::Link { library, _static } => Stmt::Link { library: library.clone(), _static: *_static },
            Stmt::Field { name, _type } => Stmt::Field { name: name.clone(), _type: Box::new((**_type).clone()) },
            Stmt::Return { value } => Stmt::Return { value: Box::new((**value).clone()) },
            Stmt::StructDeclaration { name, fields, functions } => Stmt::StructDeclaration {
                name: name.clone(),
                fields: copy_stmts(fields),
                functions: copy_stmts(functions),
            },
            Stmt::StructInitField { name, value } => Stmt::StructInitField {
                name: name.clone(),
                value: Box::new((**value).clone()),
            },
            Stmt::FunctionDeclaration { name, return_type, arguments, body } => Stmt::FunctionDeclaration {
                name: name.clone(),
                return_type: Box::new((**return_type).clone()),
                arguments: copy_stmts(arguments),
                body: Box::new((**body).clone()),
            },
            Stmt::Extern { name, symbol, return_type, arguments } => Stmt::Extern {
                name: name.clone(),
                symbol: symbol.clone(),
                return_type: Box::new((**return_type).clone()),
                arguments: copy_stmts(arguments),
            },
            Stmt::Include { path } => Stmt::Include { path: path.clone() },
        }
    }
}

} // verus!
