//! The generator, as mathematics: what lowering a tree does to the state
//! of a compilation, and what it yields.

use vstd::prelude::*;
use crate::lexer::{TokenKind, TokenV};
use crate::parser::ast::{ExprV, StmtV, TypeV};
use crate::parser::grammar::{language, spec_parse};
use crate::parser::ParseError;
use super::ir::{
    bool_type, f32_type, i32_type, ArithOp, IntPredicate, IrType, IrValue, Name, Op, RealPredicate,
    TypeKind,
};
use super::scope::{bound, find, put, Entries, ScopeV};
use super::value::IGValueV;

verus! {

/// Why a compilation stopped.
#[derive(Clone, Copy, PartialEq, Eq, Structural, Debug)]
pub enum CompileError {
    /// A type names neither a built-in type nor a binding of the scope.
    InvalidType,
    /// Array types are not lowered.
    UnsupportedType,
    /// A name that is read or assigned to is not bound.
    UnresolvedSymbol,
    /// The function that is called is not bound.
    UnresolvedFunction,
    /// What is called is bound to no function type.
    NotAFunction,
    /// The struct type of an initialiser is not bound.
    UnresolvedStruct,
    /// No offset is recorded for a member.
    UnresolvedMember,
    /// The object of a member access holds no struct.
    NoMemberType,
    /// The object of a member access is not a name.
    NestedAccess,
    /// The member of a member access is not a name.
    ExpectedMemberName,
    /// A variable is declared twice in one scope.
    Redefinition,
    /// An immutable binding is assigned to.
    ImmutableAssignment,
    /// What is assigned to is neither a name nor a member.
    InvalidAssignee,
    /// The operands are not both integers, nor both single-precision
    /// floating-point numbers.
    UnsupportedOperands,
    /// The token is no binary operator that can be lowered.
    InvalidOperation,
    /// The prefix operator is not the logical negation.
    UnsupportedPrefix,
    /// The statement cannot stand where it stands.
    UnsupportedStatement,
    /// The expression cannot stand as a statement.
    UnsupportedExpression,
    /// The expression yields no value.
    UnsupportedValue,
    /// A call that yields no value stands where a value is needed.
    NoValueFromCall,
    /// The condition of a loop is no comparison, truth value or negation.
    ExpectedConditional,
    /// A block was needed.
    ExpectedBlock,
    /// A parameter or field was needed.
    ExpectedField,
    /// A field initialiser was needed.
    ExpectedStructInitField,
    /// An instruction needs a block, and the builder stands in none.
    NoInsertionPoint,
    /// No source was given for the file that is to be compiled and spliced in.
    IncludeNotFound,
    /// The file that is to be compiled and spliced in does not parse.
    Parse(ParseError),
    /// A node was handed to the function that lowers another kind of node.
    UnexpectedNode,
}

/// A library to link: its name, or its path where it is linked statically.
pub struct LibV {
    pub lib: Seq<char>,
    pub _static: bool,
}

/// A source file that a compilation may splice in: the path by which the
/// including file names it, the path that its output goes by, its tokens,
/// and the sources that it may splice in itself.
pub struct SourceV {
    pub path: Seq<char>,
    pub output: Seq<char>,
    pub tokens: Seq<TokenV>,
    pub includes: Seq<SourceV>,
}

/// What stays the same while one unit is compiled: the built-in types and
/// the sources that the unit may splice in.
pub struct Env {
    pub types: Entries<IrType>,
    pub sources: Seq<SourceV>,
}

/// The state of a compilation: the instructions given to the backend so
/// far and the texts that they refer to, the block that the builder
/// stands in, the current scope, the libraries to link, the files that
/// the modules are printed to, and the object files that are made of them.
pub struct GenV {
    pub ops: Seq<Op>,
    pub texts: Seq<Seq<char>>,
    pub insert: Option<usize>,
    pub scope: ScopeV,
    pub libs: Seq<LibV>,
    pub outputs: Seq<Seq<char>>,
    pub objects: Seq<Seq<char>>,
    /// Whether the block that the builder stands in ends in a return or a
    /// branch, so that control does not fall through its end: the
    /// instruction that the builder last put into the block, since it was
    /// placed there, is one of these.
    pub terminated: bool,
}

/// What lowering yields: the state behind it and a result, or an error.
pub type Lowered<T> = Result<(GenV, T), CompileError>;

impl GenV {
    /// The state with one more instruction. An instruction that the
    /// builder puts into its block decides whether the block is
    /// terminated; any other leaves that as it is.
    pub open spec fn emit(self, op: Op) -> GenV {
        GenV {
            ops: self.ops.push(op),
            terminated: if op.in_block() {
                op.terminates()
            } else {
                self.terminated
            },
            ..self
        }
    }

    /// The handle of the instruction that is emitted next.
    pub open spec fn next(self) -> usize {
        self.ops.len() as usize
    }

    /// What the instruction that is emitted next yields, as a value of
    /// kind `kind`.
    pub open spec fn next_value(self, kind: TypeKind) -> IrValue {
        IrValue::Inst { id: self.next(), kind }
    }

    /// The state with one more text.
    pub open spec fn intern(self, text: Seq<char>) -> GenV {
        GenV { texts: self.texts.push(text), ..self }
    }

    /// The index of the text that is added next.
    pub open spec fn next_text(self) -> usize {
        self.texts.len() as usize
    }

    /// The state with the scope `scope`.
    pub open spec fn with_scope(self, scope: ScopeV) -> GenV {
        GenV { scope, ..self }
    }

    /// The state with the builder in the block made by instruction `block`.
    pub open spec fn position(self, block: usize) -> GenV {
        GenV { insert: Some(block), terminated: false, ..self }.emit(Op::PositionAtEnd { block })
    }

    /// The function that the builder stands in: the one that the block
    /// it stands in was appended to.
    pub open spec fn current_function(self) -> Option<IrValue> {
        match self.insert {
            Some(block) => if block < self.ops.len() {
                match self.ops[block as int] {
                    Op::AppendBlock { function, name } => Some(function),
                    _ => None,
                }
            } else {
                None
            },
            None => None,
        }
    }
}

/// The built-in types, by name.
pub open spec fn builtin_types() -> Entries<IrType> {
    let t = Seq::<(Seq<char>, IrType)>::empty();
    let t = put(t, "bool"@, IrType::Int(1));
    let t = put(t, "i8"@, IrType::Int(8));
    let t = put(t, "i16"@, IrType::Int(16));
    let t = put(t, "i32"@, IrType::Int(32));
    let t = put(t, "i64"@, IrType::Int(64));
    let t = put(t, "f16"@, IrType::Half);
    let t = put(t, "f32"@, IrType::Float);
    let t = put(t, "f64"@, IrType::Double);
    let t = put(t, "string"@, IrType::Pointer);
    put(t, "void"@, IrType::Void)
}

/// The backend type that the source type `t` stands for: a name is looked
/// up among the built-in types first and in the scope second; a reference
/// is its referent; an array has no backend type.
pub open spec fn spec_get_type(env: Env, st: GenV, t: TypeV) -> Result<IrType, CompileError>
    decreases t,
{
    match t {
        TypeV::Symbol(name) => match find(env.types, name) {
            Some(ty) => Ok(ty),
            None => match st.scope.resolve(name) {
                Some(v) => Ok(v._type),
                None => Err(CompileError::InvalidType),
            },
        },
        TypeV::Ref(inner) => spec_get_type(env, st, *inner),
        TypeV::Array(_) => Err(CompileError::UnsupportedType),
    }
}

/// The backend types of the parameters or fields `args` from the index
/// `i` on, behind those in `done`.
pub open spec fn spec_get_arg_types(env: Env, st: GenV, args: Seq<StmtV>, i: nat, done: Seq<IrType>) -> Result<
    Seq<IrType>,
    CompileError,
>
    decreases args.len() - i,
{
    if i >= args.len() {
        Ok(done)
    } else {
        match args[i as int] {
            StmtV::Field { name, _type } => match spec_get_type(env, st, _type) {
                Err(e) => Err(e),
                Ok(t) => spec_get_arg_types(env, st, args, i + 1, done.push(t)),
            },
            _ => Err(CompileError::ExpectedField),
        }
    }
}

/// The state with the types `types` from the index `i` on given to the
/// backend, one instruction each.
pub open spec fn spec_emit_types(st: GenV, types: Seq<IrType>, i: nat) -> GenV
    decreases types.len() - i,
{
    if i >= types.len() {
        st
    } else {
        spec_emit_types(st.emit(Op::TypeItem(types[i as int])), types, i + 1)
    }
}

/// The state with the function type made that returns `ret` and takes
/// `params`, and the type.
pub open spec fn spec_function_type(st: GenV, ret: IrType, params: Seq<IrType>) -> (GenV, IrType) {
    let st1 = spec_emit_types(st, params, 0);
    (st1.emit(Op::FunctionType { ret, count: params.len() as usize }), IrType::Function(st1.next()))
}

/// The state with the struct type made that holds `fields`, and the type.
pub open spec fn spec_struct_type(st: GenV, fields: Seq<IrType>) -> (GenV, IrType) {
    let st1 = spec_emit_types(st, fields, 0);
    (st1.emit(Op::StructType { count: fields.len() as usize }), IrType::Struct(st1.next()))
}

/// The type that the function type `t` returns, where `t` is a function
/// type made in `ops`.
pub open spec fn spec_return_type_of(ops: Seq<Op>, t: IrType) -> Option<IrType> {
    match t {
        IrType::Function(id) => if id < ops.len() {
            match ops[id as int] {
                Op::FunctionType { ret, count } => Some(ret),
                _ => None,
            }
        } else {
            None
        },
        _ => None,
    }
}

// ---------------------------------------------------------------------
// Values
// ---------------------------------------------------------------------

/// The value `value` of type `_type`, as a scalar: mutable, public, of no
/// struct.
pub open spec fn scalar(value: IrValue, _type: IrType) -> IGValueV {
    IGValueV { value, _type, mutable: true, public: true, parent: None }
}

/// The name of the field `field` of the struct type `owner` in the table
/// of field offsets.
pub open spec fn qualified(owner: Seq<char>, field: Seq<char>) -> Seq<char> {
    owner + seq!['.'] + field
}

/// The instruction that a binary operator is lowered to.
#[derive(Clone, Copy, PartialEq, Eq, Structural, Debug)]
pub enum Selected {
    Arith(ArithOp),
    ICmp(IntPredicate),
    FCmp(RealPredicate),
}

/// Whether the operator `op` yields a truth value.
pub open spec fn is_bool_op(op: TokenKind) -> bool {
    op == TokenKind::Equals || op == TokenKind::NotEquals || op == TokenKind::Less || op
        == TokenKind::LessOrEqual || op == TokenKind::Greater || op == TokenKind::GreaterOrEqual || op
        == TokenKind::Not || op == TokenKind::Or || op == TokenKind::And
}

/// The instruction for the operator `op` on integers, or on
/// floating-point numbers where `floating` holds; none where the operator
/// cannot be lowered.
pub open spec fn spec_select(op: TokenKind, floating: bool) -> Option<Selected> {
    match op {
        TokenKind::Plus => Some(
            Selected::Arith(
                if floating {
                    ArithOp::FAdd
                } else {
                    ArithOp::Add
                },
            ),
        ),
        TokenKind::Minus => Some(
            Selected::Arith(
                if floating {
                    ArithOp::FSub
                } else {
                    ArithOp::Sub
                },
            ),
        ),
        TokenKind::Multiply => Some(
            Selected::Arith(
                if floating {
                    ArithOp::FMul
                } else {
                    ArithOp::Mul
                },
            ),
        ),
        TokenKind::Divide => Some(
            Selected::Arith(
                if floating {
                    ArithOp::FDiv
                } else {
                    ArithOp::SDiv
                },
            ),
        ),
        TokenKind::Greater => Some(
            if floating {
                Selected::FCmp(RealPredicate::UGT)
            } else {
                Selected::ICmp(IntPredicate::UGT)
            },
        ),
        TokenKind::GreaterOrEqual => Some(
            if floating {
                Selected::FCmp(RealPredicate::UGE)
            } else {
                Selected::ICmp(IntPredicate::UGE)
            },
        ),
        TokenKind::Less => Some(
            if floating {
                Selected::FCmp(RealPredicate::ULT)
            } else {
                Selected::ICmp(IntPredicate::ULT)
            },
        ),
        TokenKind::LessOrEqual => Some(
            if floating {
                Selected::FCmp(RealPredicate::ULE)
            } else {
                Selected::ICmp(IntPredicate::ULE)
            },
        ),
        TokenKind::Equals => Some(
            if floating {
                Selected::FCmp(RealPredicate::UEQ)
            } else {
                Selected::ICmp(IntPredicate::EQ)
            },
        ),
        TokenKind::NotEquals => Some(
            if floating {
                Selected::FCmp(RealPredicate::UNE)
            } else {
                Selected::ICmp(IntPredicate::NE)
            },
        ),
        TokenKind::Or => Some(Selected::Arith(ArithOp::Or)),
        TokenKind::And => Some(Selected::Arith(ArithOp::And)),
        _ => None,
    }
}

/// The selected instruction on the operands `lhs` and `rhs`.
pub open spec fn selected_op(sel: Selected, lhs: IrValue, rhs: IrValue, name: Name) -> Op {
    match sel {
        Selected::Arith(op) => Op::Arith { op, lhs, rhs, name },
        Selected::ICmp(pred) => Op::ICmp { pred, lhs, rhs, name },
        Selected::FCmp(pred) => Op::FCmp { real: pred, lhs, rhs, name },
    }
}

/// The kind of what the selected instruction yields on operands of kind
/// `operands`: a comparison yields an integer.
pub open spec fn selected_kind(sel: Selected, operands: TypeKind) -> TypeKind {
    match sel {
        Selected::Arith(_) => operands,
        _ => TypeKind::Integer,
    }
}

/// Whether the operands are lowered as floating-point numbers: they are
/// both integers, or both single-precision floating-point numbers.
pub open spec fn spec_floating(l: IGValueV, r: IGValueV) -> Result<bool, CompileError> {
    if l._type.kind() == r._type.kind() && l._type.kind() == TypeKind::Integer {
        Ok(false)
    } else if l._type.kind() == r._type.kind() && l._type.kind() == TypeKind::Float {
        Ok(true)
    } else {
        Err(CompileError::UnsupportedOperands)
    }
}

/// The operator `op` applied to the values `l` and `r`: a comparison or a
/// logical operator yields a truth value, any other operator a value of
/// the type of `l`.
pub open spec fn spec_visit_op(st: GenV, l: IGValueV, r: IGValueV, op: TokenKind) -> Lowered<IGValueV> {
    match spec_floating(l, r) {
        Err(e) => Err(e),
        Ok(floating) => match spec_select(op, floating) {
            None => Err(CompileError::InvalidOperation),
            Some(sel) => {
                let st1 = st.intern("op"@);
                let st2 = st1.emit(selected_op(sel, l.value, r.value, Name::Prefixed(st.next_text())));
                let ty = if is_bool_op(op) {
                    bool_type()
                } else {
                    l._type
                };
                Ok((st2, scalar(st1.next_value(selected_kind(sel, l._type.kind())), ty)))
            },
        },
    }
}

/// The address of the member `rhs` of the object `lhs`: the object is a
/// name bound to a value that holds a struct, and the member a name whose
/// offset is recorded for the struct type.
pub open spec fn spec_access(st: GenV, lhs: ExprV, rhs: ExprV) -> Lowered<IGValueV> {
    match lhs {
        ExprV::Symbol(object) => match rhs {
            ExprV::Symbol(member) => match st.scope.resolve(object) {
                None => Err(CompileError::UnresolvedSymbol),
                Some(v) => match v.parent {
                    None => Err(CompileError::NoMemberType),
                    Some(owner) => match st.scope.resolve_field(qualified(owner, member)) {
                        None => Err(CompileError::UnresolvedMember),
                        Some(index) => Ok(
                            (
                                st.emit(Op::StructGep { ty: v._type, ptr: v.value, index, name: Name::Fresh }),
                                scalar(st.next_value(TypeKind::Pointer), v._type),
                            ),
                        ),
                    },
                },
            },
            _ => Err(CompileError::ExpectedMemberName),
        },
        _ => Err(CompileError::NestedAccess),
    }
}

/// The pointer that the variable `e` holds: the name is resolved, and
/// what it is bound to is loaded as a pointer.
pub open spec fn spec_resolve_mutable_symbol(st: GenV, e: ExprV) -> Lowered<IGValueV> {
    match e {
        ExprV::Symbol(name) => match st.scope.resolve(name) {
            None => Err(CompileError::UnresolvedSymbol),
            Some(v) => Ok(
                (
                    st.emit(Op::Load { ty: IrType::Pointer, ptr: v.value, name: Name::Fresh }),
                    scalar(st.next_value(TypeKind::Pointer), v._type),
                ),
            ),
        },
        _ => Err(CompileError::UnexpectedNode),
    }
}

/// A text literal: a global constant, and the pointer to it.
pub open spec fn spec_string(st: GenV, text: Seq<char>) -> (GenV, IGValueV) {
    let st1 = st.intern(text);
    let st2 = st1.emit(Op::GlobalString { text: st.next_text(), name: Name::Fresh });
    let st3 = st2.emit(
        Op::PointerCast { value: st1.next_value(TypeKind::Pointer), ty: IrType::Pointer, name: Name::Fresh },
    );
    (st3, scalar(st2.next_value(TypeKind::Pointer), IrType::Pointer))
}

/// The value of the expression `e`.
pub open spec fn spec_resolve_value(env: Env, st: GenV, e: ExprV) -> Lowered<IGValueV>
    decreases env.sources, e, 0nat, 3nat,
{
    match e {
        ExprV::Int(i) => Ok(
            (
                st.emit(Op::ConstInt { ty: i32_type(), number: i as u64 }),
                scalar(st.next_value(TypeKind::Integer), i32_type()),
            ),
        ),
        ExprV::Float(bits) => Ok(
            (
                st.emit(Op::ConstReal { ty: f32_type(), bits }),
                scalar(st.next_value(TypeKind::Float), f32_type()),
            ),
        ),
        ExprV::Bool(b) => Ok(
            (
                st.emit(
                    Op::ConstInt {
                        ty: bool_type(),
                        number: if b {
                            1
                        } else {
                            0
                        },
                    },
                ),
                scalar(st.next_value(TypeKind::Integer), bool_type()),
            ),
        ),
        ExprV::Symbol(name) => match st.scope.resolve(name) {
            None => Err(CompileError::UnresolvedSymbol),
            Some(v) => Ok(
                (
                    st.emit(Op::Load { ty: v._type, ptr: v.value, name: Name::Fresh }),
                    scalar(st.next_value(v._type.kind()), v._type),
                ),
            ),
        },
        ExprV::String(text) => Ok(spec_string(st, text)),
        ExprV::Binary { .. } => spec_visit_binexpr(env, st, e),
        ExprV::Call { .. } => match spec_visit_call_expr(env, st, e) {
            Err(e) => Err(e),
            Ok((st1, None)) => Err(CompileError::NoValueFromCall),
            Ok((st1, Some(v))) => Ok((st1, v)),
        },
        ExprV::StructInitialize { name, fields } => spec_struct_initialize(env, st, name, fields),
        ExprV::Access { lhs, rhs } => spec_access(st, *lhs, *rhs),
        _ => Err(CompileError::UnsupportedValue),
    }
}

/// A binary expression: both operands, the left one first, then the
/// operator on their values.
pub open spec fn spec_visit_binexpr(env: Env, st: GenV, e: ExprV) -> Lowered<IGValueV>
    decreases env.sources, e, 0nat, 2nat,
{
    match e {
        ExprV::Binary { left, op, right } => match spec_resolve_value(env, st, *left) {
            Err(e) => Err(e),
            Ok((st1, l)) => match spec_resolve_value(env, st1, *right) {
                Err(e) => Err(e),
                Ok((st2, r)) => spec_visit_op(st2, l, r, op.kind()),
            },
        },
        _ => Err(CompileError::UnexpectedNode),
    }
}

/// The values of the arguments `args` from the index `i` on, behind
/// those in `done`.
pub open spec fn spec_get_arg_values(env: Env, st: GenV, args: Seq<ExprV>, i: nat, done: Seq<IrValue>) -> Lowered<
    Seq<IrValue>,
>
    decreases env.sources, args, args.len() - i, 0nat,
{
    if i >= args.len() {
        Ok((st, done))
    } else {
        match spec_resolve_value(env, st, args[i as int]) {
            Err(e) => Err(e),
            Ok((st1, v)) => spec_get_arg_values(env, st1, args, i + 1, done.push(v.value)),
        }
    }
}

/// The state with the values `values` from the index `i` on given to the
/// backend as arguments, one instruction each.
pub open spec fn spec_emit_arguments(st: GenV, values: Seq<IrValue>, i: nat) -> GenV
    decreases values.len() - i,
{
    if i >= values.len() {
        st
    } else {
        spec_emit_arguments(st.emit(Op::Argument(values[i as int])), values, i + 1)
    }
}

/// The call of the function `f` on `values`: no value where the function
/// returns nothing, a value of its return type otherwise.
pub open spec fn spec_emit_call(st: GenV, f: IGValueV, values: Seq<IrValue>) -> Lowered<Option<IGValueV>> {
    match spec_return_type_of(st.ops, f._type) {
        None => Err(CompileError::NotAFunction),
        Some(ret) => {
            let st1 = spec_emit_arguments(st, values, 0);
            let count = values.len() as usize;
            if ret.kind() == TypeKind::Void {
                Ok((st1.emit(Op::Call { fn_ty: f._type, callee: f.value, count, name: Name::Empty }), None))
            } else {
                Ok(
                    (
                        st1.emit(Op::Call { fn_ty: f._type, callee: f.value, count, name: Name::Fresh }),
                        Some(scalar(st1.next_value(ret.kind()), ret)),
                    ),
                )
            }
        },
    }
}

/// A call: the callee is resolved, the arguments are evaluated from left
/// to right, and the call is made.
pub open spec fn spec_visit_call_expr(env: Env, st: GenV, e: ExprV) -> Lowered<Option<IGValueV>>
    decreases env.sources, e, 0nat, 2nat,
{
    match e {
        ExprV::Call { name, args } => match st.scope.resolve(name) {
            None => Err(CompileError::UnresolvedFunction),
            Some(f) => match spec_get_arg_values(env, st, args, 0, Seq::empty()) {
                Err(e) => Err(e),
                Ok((st1, values)) => spec_emit_call(st1, f, values),
            },
        },
        _ => Err(CompileError::UnexpectedNode),
    }
}

/// A struct initialiser: storage for the struct, then each field in the
/// order of the source.
pub open spec fn spec_struct_initialize(env: Env, st: GenV, name: Seq<char>, fields: Seq<StmtV>) -> Lowered<
    IGValueV,
>
    decreases env.sources, fields, fields.len() + 1, 0nat,
{
    match st.scope.resolve(name) {
        None => Err(CompileError::UnresolvedStruct),
        Some(t) => {
            let slot = st.next_value(TypeKind::Pointer);
            let st1 = st.emit(Op::Alloca { ty: t._type, name: Name::Fresh });
            match spec_init_fields(env, st1, name, t._type, slot, fields, 0) {
                Err(e) => Err(e),
                Ok(st2) => Ok(
                    (
                        st2,
                        IGValueV { value: slot, _type: t._type, mutable: true, public: true, parent: Some(name) },
                    ),
                ),
            }
        },
    }
}

/// The field initialisers `fields` from the index `i` on: each value is
/// stored at the offset that is recorded for its field.
pub open spec fn spec_init_fields(
    env: Env,
    st: GenV,
    owner: Seq<char>,
    ty: IrType,
    slot: IrValue,
    fields: Seq<StmtV>,
    i: nat,
) -> Result<GenV, CompileError>
    decreases env.sources, fields, fields.len() - i, 0nat,
{
    if i >= fields.len() {
        Ok(st)
    } else {
        match fields[i as int] {
            StmtV::StructInitField { name, value } => match spec_resolve_value(env, st, *value) {
                Err(e) => Err(e),
                Ok((st1, v)) => match st1.scope.resolve_field(qualified(owner, name)) {
                    None => Err(CompileError::UnresolvedMember),
                    Some(index) => {
                        let st2 = st1.emit(Op::StructGep { ty, ptr: slot, index, name: Name::Fresh });
                        let st3 = st2.emit(
                            Op::Store { value: v.value, ptr: st1.next_value(TypeKind::Pointer) },
                        );
                        spec_init_fields(env, st3, owner, ty, slot, fields, i + 1)
                    },
                },
            },
            _ => Err(CompileError::ExpectedStructInitField),
        }
    }
}

/// A prefix expression: the operand, then the logical negation of its
/// value, which is a truth value.
pub open spec fn spec_visit_prefix(env: Env, st: GenV, e: ExprV) -> Lowered<IGValueV>
    decreases env.sources, e, 0nat, 2nat,
{
    match e {
        ExprV::Prefix { op, right } => match spec_resolve_value(env, st, *right) {
            Err(e) => Err(e),
            Ok((st1, v)) => if op.kind() == TokenKind::Not {
                Ok(
                    (
                        st1.emit(Op::Not { value: v.value, name: Name::Fresh }),
                        scalar(st1.next_value(v.value.kind()), bool_type()),
                    ),
                )
            } else {
                Err(CompileError::UnsupportedPrefix)
            },
        },
        _ => Err(CompileError::UnexpectedNode),
    }
}

/// The condition of a loop: a binary expression, a truth value or a
/// prefix expression.
pub open spec fn spec_visit_conditional(env: Env, st: GenV, e: ExprV) -> Lowered<IGValueV>
    decreases env.sources, e, 0nat, 4nat,
{
    match e {
        ExprV::Binary { .. } => spec_visit_binexpr(env, st, e),
        ExprV::Bool(_) => spec_resolve_value(env, st, e),
        ExprV::Prefix { .. } => spec_visit_prefix(env, st, e),
        _ => Err(CompileError::ExpectedConditional),
    }
}

/// What is assigned to: the binding of a name, or the address of a member.
pub open spec fn spec_assignee(env: Env, st: GenV, e: ExprV) -> Lowered<IGValueV>
    decreases env.sources, e, 0nat, 4nat,
{
    match e {
        ExprV::Symbol(name) => match st.scope.resolve(name) {
            None => Err(CompileError::UnresolvedSymbol),
            Some(v) => Ok((st, v)),
        },
        ExprV::Access { .. } => spec_resolve_value(env, st, e),
        _ => Err(CompileError::InvalidAssignee),
    }
}

/// An assignment: the target, then the value, which is stored at the
/// target unless the target is immutable.
pub open spec fn spec_visit_assignment_expr(env: Env, st: GenV, e: ExprV) -> Result<GenV, CompileError>
    decreases env.sources, e, 0nat, 2nat,
{
    match e {
        ExprV::Assignment { assignee, right } => match spec_assignee(env, st, *assignee) {
            Err(e) => Err(e),
            Ok((st1, target)) => match spec_resolve_value(env, st1, *right) {
                Err(e) => Err(e),
                Ok((st2, v)) => if !target.mutable {
                    Err(CompileError::ImmutableAssignment)
                } else {
                    Ok(st2.emit(Op::Store { value: v.value, ptr: target.value }))
                },
            },
        },
        _ => Err(CompileError::UnexpectedNode),
    }
}

/// An expression that stands as a statement: a binary expression, an
/// assignment or a call.
pub open spec fn spec_visit_expression(env: Env, st: GenV, e: ExprV) -> Result<GenV, CompileError>
    decreases env.sources, e, 0nat, 4nat,
{
    match e {
        ExprV::Binary { .. } => match spec_visit_binexpr(env, st, e) {
            Err(e) => Err(e),
            Ok((st1, _)) => Ok(st1),
        },
        ExprV::Assignment { .. } => spec_visit_assignment_expr(env, st, e),
        ExprV::Call { .. } => match spec_visit_call_expr(env, st, e) {
            Err(e) => Err(e),
            Ok((st1, _)) => Ok(st1),
        },
        _ => Err(CompileError::UnsupportedExpression),
    }
}

// ---------------------------------------------------------------------
// Statements
// ---------------------------------------------------------------------

/// The name of the entry point.
pub open spec fn main_name() -> Seq<char> {
    "main"@
}

/// The extension of the file that a module is printed to.
pub open spec fn ir_extension() -> Seq<char> {
    ".ll"@
}

/// The extension of the object file that is made of a module.
pub open spec fn object_extension() -> Seq<char> {
    ".o"@
}

/// `return value;`
pub open spec fn spec_visit_return(env: Env, st: GenV, s: StmtV) -> Result<GenV, CompileError>
    decreases env.sources, s, 0nat, 4nat,
{
    match s {
        StmtV::Return { value } => match spec_resolve_value(env, st, *value) {
            Err(e) => Err(e),
            Ok((st1, v)) => Ok(st1.emit(Op::Ret { value: v.value })),
        },
        _ => Err(CompileError::UnexpectedNode),
    }
}

/// What the variable is bound to whose initialiser yielded `v` and whose
/// own storage is `slot`: the storage that the initialiser filled where
/// the value holds a struct, so that a member access addresses what was
/// stored; the storage of the variable otherwise.
pub open spec fn variable_binding(v: IGValueV, slot: IrValue, mutable: bool) -> IGValueV {
    IGValueV {
        value: if v.parent is Some {
            v.value
        } else {
            slot
        },
        _type: v._type,
        mutable,
        public: true,
        parent: v.parent,
    }
}

/// The declaration of a variable: it fails where the current scope
/// itself binds the name already, and nothing is done then. Else the
/// initialiser is evaluated, storage of its type is made and takes the
/// value, and the name is bound, with the name of the struct type where
/// the value holds a struct.
pub open spec fn spec_visit_variable_declaration(env: Env, st: GenV, s: StmtV) -> Result<GenV, CompileError>
    decreases env.sources, s, 0nat, 4nat,
{
    match s {
        StmtV::VariableDeclaration { name, mutable, explicit_type, value } => if bound(
            st.scope.symbols,
            name,
        ) {
            Err(CompileError::Redefinition)
        } else {
            match spec_resolve_value(env, st, *value) {
                Err(e) => Err(e),
                Ok((st1, v)) => {
                    let st2 = st1.intern(name);
                    let slot = st2.next_value(TypeKind::Pointer);
                    let st3 = st2.emit(Op::Alloca { ty: v._type, name: Name::Prefixed(st1.next_text()) });
                    let st4 = st3.emit(Op::Store { value: v.value, ptr: slot });
                    Ok(st4.with_scope(st4.scope.define(name, variable_binding(v, slot, mutable))))
                },
            }
        },
        _ => Err(CompileError::UnexpectedNode),
    }
}

/// What a function is bound to: immutable, public, of no struct.
pub open spec fn function_binding(value: IrValue, _type: IrType) -> IGValueV {
    IGValueV { value, _type, mutable: false, public: true, parent: None }
}

/// The state with the function `name` declared, of the type that returns
/// `ret` and takes `params`, and what the function is bound to.
pub open spec fn spec_declare_function(st: GenV, symbol: Seq<char>, ret: IrType, params: Seq<IrType>) -> (
    GenV,
    IGValueV,
) {
    let (st1, fty) = spec_function_type(st, ret, params);
    let st2 = st1.intern(symbol);
    let func = st2.next_value(TypeKind::Pointer);
    let st3 = st2.emit(Op::AddFunction { name: Name::Exact(st1.next_text()), ty: fty });
    (st3, function_binding(func, fty))
}

/// The declaration of an external function: the function is declared
/// under its linked symbol and bound under its name.
pub open spec fn spec_visit_extern(env: Env, st: GenV, s: StmtV) -> Result<GenV, CompileError> {
    match s {
        StmtV::Extern { name, symbol, return_type, arguments } => match spec_get_arg_types(
            env,
            st,
            arguments,
            0,
            Seq::empty(),
        ) {
            Err(e) => Err(e),
            Ok(types) => match spec_get_type(env, st, return_type) {
                Err(e) => Err(e),
                Ok(ret) => {
                    let (st1, f) = spec_declare_function(st, symbol, ret, types);
                    Ok(st1.with_scope(st1.scope.define(name, f)))
                },
            },
        },
        _ => Err(CompileError::UnexpectedNode),
    }
}

/// The scope with the offsets of the fields `fields` of the struct
/// `owner` recorded from the index `i` on: the offset of a field is its
/// place in the declaration.
pub open spec fn spec_record_fields(scope: ScopeV, owner: Seq<char>, fields: Seq<StmtV>, i: nat) -> ScopeV
    decreases fields.len() - i,
{
    if i >= fields.len() {
        scope
    } else {
        match fields[i as int] {
            StmtV::Field { name, _type } => spec_record_fields(
                scope.define_field(qualified(owner, name), i as usize),
                owner,
                fields,
                i + 1,
            ),
            _ => scope,
        }
    }
}

/// The declaration of a struct: the struct type is made of the types of
/// the fields, the name is bound to the type, and the offset of each
/// field is recorded.
pub open spec fn spec_visit_struct_declaration(env: Env, st: GenV, s: StmtV) -> Result<GenV, CompileError> {
    match s {
        StmtV::StructDeclaration { name, fields, functions } => match spec_get_arg_types(
            env,
            st,
            fields,
            0,
            Seq::empty(),
        ) {
            Err(e) => Err(e),
            Ok(types) => {
                let (st1, ty) = spec_struct_type(st, types);
                let scope = st1.scope.define(
                    name,
                    IGValueV { value: IrValue::Sentinel, _type: ty, mutable: false, public: true, parent: None },
                );
                Ok(st1.with_scope(spec_record_fields(scope, name, fields, 0)))
            },
        },
        _ => Err(CompileError::UnexpectedNode),
    }
}

/// The state with a new block in the function that the builder stands
/// in, and the handle of the block.
pub open spec fn spec_create_basic_block(st: GenV, name: Seq<char>) -> Result<(GenV, usize), CompileError> {
    match st.current_function() {
        None => Err(CompileError::NoInsertionPoint),
        Some(function) => {
            let st1 = st.intern(name);
            Ok((st1.emit(Op::AppendBlock { function, name: Name::Prefixed(st.next_text()) }), st1.next()))
        },
    }
}

/// A loop: a branch into the body, the body, then the condition, and a
/// branch back into the body or out of the loop. The body runs once
/// before the condition is first tested.
pub open spec fn spec_visit_while(env: Env, st: GenV, s: StmtV) -> Result<GenV, CompileError>
    decreases env.sources, s, 0nat, 4nat,
{
    match s {
        StmtV::While { condition, body } => match spec_create_basic_block(st, "while_inside"@) {
            Err(e) => Err(e),
            Ok((st1, inside)) => match spec_create_basic_block(st1, "while_outside"@) {
                Err(e) => Err(e),
                Ok((st2, outside)) => {
                    let st3 = st2.emit(Op::Br { dest: inside }).position(inside);
                    match spec_visit_block(env, st3, *body) {
                        Err(e) => Err(e),
                        Ok(st4) => match spec_visit_conditional(env, st4, *condition) {
                            Err(e) => Err(e),
                            Ok((st5, c)) => Ok(
                                st5.emit(Op::CondBr { cond: c.value, then: inside, otherwise: outside }).position(
                                    outside,
                                ),
                            ),
                        },
                    }
                },
            },
        },
        _ => Err(CompileError::UnexpectedNode),
    }
}

/// The state with the parameters `arguments` of the function `func`
/// bound from the index `i` on: each parameter gets storage of its type,
/// which takes the value that is passed, and its name is bound to the
/// storage, immutable.
pub open spec fn spec_bind_parameters(st: GenV, func: IrValue, arguments: Seq<StmtV>, types: Seq<IrType>, i: nat) -> GenV
    decreases arguments.len() - i,
{
    if i >= arguments.len() || i >= types.len() {
        st
    } else {
        match arguments[i as int] {
            StmtV::Field { name, _type } => {
                let st1 = st.intern(name);
                let slot = st1.next_value(TypeKind::Pointer);
                let st2 = st1.emit(Op::Alloca { ty: types[i as int], name: Name::Prefixed(st.next_text()) });
                let st3 = st2.emit(Op::Param { function: func, index: i as usize });
                let st4 = st3.emit(Op::Store { value: st2.next_value(types[i as int].kind()), ptr: slot });
                spec_bind_parameters(
                    st4.with_scope(st4.scope.define(name, function_binding(slot, types[i as int]))),
                    func,
                    arguments,
                    types,
                    i + 1,
                )
            },
            _ => st,
        }
    }
}

/// The end of the body of a function. Where control falls through the
/// end of the body, `main` without a return type returns 0 and any other
/// function without a return type returns; where the body has returned
/// or branched already, nothing is added.
pub open spec fn spec_finish_function(st: GenV, implicit_main: bool, ret: IrType) -> GenV {
    if st.terminated {
        st
    } else if implicit_main {
        st.emit(Op::ConstInt { ty: i32_type(), number: 0 }).emit(
            Op::Ret { value: st.next_value(TypeKind::Integer) },
        )
    } else if ret == IrType::Void {
        st.emit(Op::RetVoid)
    } else {
        st
    }
}

/// The scope around `scope`, or `scope` itself where none stands around it.
pub open spec fn spec_leave(scope: ScopeV) -> ScopeV {
    match scope.parent {
        Some(outer) => *outer,
        None => scope,
    }
}

/// The start of a function: the function is declared, with the return
/// type of the source, or a 32-bit integer for `main` without a return
/// type; a scope is opened inside the current one; the builder is placed
/// in the entry block; the parameters and the function itself are bound
/// in the new scope.
pub open spec fn spec_enter_function(
    st: GenV,
    name: Seq<char>,
    ret: IrType,
    arguments: Seq<StmtV>,
    types: Seq<IrType>,
) -> (GenV, IGValueV) {
    let (st1, f) = spec_declare_function(st, name, ret, types);
    let named = st1.intern(name);
    let st2 = named.intern("ignis_entry"@);
    let block = st2.next();
    let st3 = st2.emit(
        Op::AppendBlock { function: f.value, name: Name::Wrapped(st1.next_text(), named.next_text()) },
    );
    let st4 = st3.with_scope(ScopeV::child(st3.scope, Some(name))).position(block);
    let st5 = spec_bind_parameters(st4, f.value, arguments, types, 0);
    (st5.with_scope(st5.scope.define(name, f)), f)
}

/// The type that the function `name` returns, where the source states
/// the type `stated`: a 32-bit integer for `main` where the source states
/// none, for the entry point gives the exit code of the program.
pub open spec fn i32_type_of_main(stated: IrType, name: Seq<char>) -> IrType {
    if stated == IrType::Void && name == main_name() {
        i32_type()
    } else {
        stated
    }
}

/// The declaration of a function: its start, its body in the new scope,
/// its end; then the scope is given up for the one around it, in which
/// the function is bound.
pub open spec fn spec_visit_function_declaration(env: Env, st: GenV, s: StmtV) -> Result<GenV, CompileError>
    decreases env.sources, s, 0nat, 4nat,
{
    match s {
        StmtV::FunctionDeclaration { name, return_type, arguments, body } => match spec_get_arg_types(
            env,
            st,
            arguments,
            0,
            Seq::empty(),
        ) {
            Err(e) => Err(e),
            Ok(types) => match spec_get_type(env, st, return_type) {
                Err(e) => Err(e),
                Ok(stated) => {
                    let implicit_main = stated == IrType::Void && name == main_name();
                    let ret = i32_type_of_main(stated, name);
                    let (st1, f) = spec_enter_function(st, name, ret, arguments, types);
                    match spec_visit_block(env, st1, *body) {
                        Err(e) => Err(e),
                        Ok(st2) => {
                            let st3 = spec_finish_function(st2, implicit_main, ret);
                            Ok(st3.with_scope(spec_leave(st3.scope).define(name, f)))
                        },
                    }
                },
            },
        },
        _ => Err(CompileError::UnexpectedNode),
    }
}

/// The index of the first of the sources `sources` from `i` on that the
/// including file names by `path`.
pub open spec fn spec_find_source(sources: Seq<SourceV>, path: Seq<char>, i: nat) -> Option<nat>
    decreases sources.len() - i,
{
    if i >= sources.len() {
        None
    } else if sources[i as int].path == path {
        Some(i)
    } else {
        spec_find_source(sources, path, i + 1)
    }
}

/// What something spliced in from another module is bound to: immutable
/// and private.
pub open spec fn spliced_binding(value: IrValue, _type: IrType) -> IGValueV {
    IGValueV { value, _type, mutable: false, public: false, parent: None }
}

/// The state with the binding of `name` to `v` in a module that was
/// compiled apart spliced in. A private binding is left out. A public
/// binding of a pointer is declared again in this module, under the name
/// that the backend knows it by; any other public binding is taken over
/// as it is.
pub open spec fn spec_splice_symbol(st: GenV, name: Seq<char>, v: IGValueV) -> GenV {
    if !v.public {
        st
    } else if v.value.kind() == TypeKind::Pointer {
        let st0 = st.emit(Op::AddFunction { name: Name::OfValue(v.value), ty: v._type });
        st0.with_scope(st0.scope.define(name, spliced_binding(st.next_value(TypeKind::Pointer), v._type)))
    } else {
        st.with_scope(st.scope.define(name, spliced_binding(v.value, v._type)))
    }
}

/// The state with the public bindings among `entries`, the bindings of a
/// module that was compiled apart, spliced in from the index `i` on.
pub open spec fn spec_splice_symbols(st: GenV, entries: Entries<IGValueV>, i: nat) -> GenV
    decreases entries.len() - i,
{
    if i >= entries.len() {
        st
    } else {
        spec_splice_symbols(spec_splice_symbol(st, entries[i as int].0, entries[i as int].1), entries, i + 1)
    }
}

/// The scope with the field offsets `entries` taken over from the index `i` on.
pub open spec fn spec_splice_fields(scope: ScopeV, entries: Entries<usize>, i: nat) -> ScopeV
    decreases entries.len() - i,
{
    if i >= entries.len() {
        scope
    } else {
        spec_splice_fields(scope.define_field(entries[i as int].0, entries[i as int].1), entries, i + 1)
    }
}

/// The state of the including module once the module `sub` was compiled
/// apart: the instructions go on behind those of `sub`, the public
/// bindings and the field offsets of `sub` are spliced in, and its
/// libraries and output files are added.
pub open spec fn spec_splice(st: GenV, sub: GenV) -> GenV {
    let st1 = GenV { ops: sub.ops, texts: sub.texts, ..st };
    let st2 = spec_splice_symbols(st1, sub.scope.symbols, 0);
    GenV {
        scope: spec_splice_fields(st2.scope, sub.scope.fields, 0),
        libs: st2.libs + sub.libs,
        outputs: st2.outputs + sub.outputs,
        objects: st2.objects + sub.objects,
        ..st2
    }
}

/// The state in which the lowering of a unit starts, behind the
/// instructions `ops`: a new unit, an empty scope, and the files of the
/// unit as the only outputs.
pub open spec fn spec_new(ops: Seq<Op>, texts: Seq<Seq<char>>, output: Seq<char>) -> GenV {
    GenV {
        ops: ops.push(Op::BeginUnit),
        texts,
        insert: None,
        scope: ScopeV::root(),
        libs: Seq::empty(),
        outputs: seq![output + ir_extension()],
        objects: seq![output + object_extension()],
        terminated: false,
    }
}

/// The lowering of a unit: its statements, then the module is printed.
pub open spec fn spec_compile_unit(
    env: Env,
    ops: Seq<Op>,
    texts: Seq<Seq<char>>,
    output: Seq<char>,
    ast: StmtV,
) -> Result<GenV, CompileError>
    decreases env.sources, ast, 0nat, 9nat,
{
    match spec_visit_block(env, spec_new(ops, texts, output), ast) {
        Err(e) => Err(e),
        Ok(st) => Ok(st.intern(output + ir_extension()).emit(Op::WriteIr { path: st.next_text() })),
    }
}

/// The splicing in of another source file: the file is looked up among
/// the sources by the path that the directive gives, parsed, and lowered
/// as a unit of its own by a new generator, whose bindings are then
/// spliced in.
pub open spec fn spec_visit_include(env: Env, st: GenV, s: StmtV) -> Result<GenV, CompileError>
    decreases env.sources, s, 0nat, 4nat,
{
    match s {
        StmtV::Include { path } => match spec_find_source(env.sources, path, 0) {
            None => Err(CompileError::IncludeNotFound),
            Some(i) => if i < env.sources.len() {
                let source = env.sources[i as int];
                match spec_parse(language(), source.tokens) {
                    Err(e) => Err(CompileError::Parse(e)),
                    Ok(ast) => match spec_compile_unit(
                        Env { types: builtin_types(), sources: source.includes },
                        st.ops,
                        st.texts,
                        source.output,
                        ast,
                    ) {
                        Err(e) => Err(e),
                        Ok(sub) => Ok(spec_splice(st, sub)),
                    },
                }
            } else {
                Err(CompileError::IncludeNotFound)
            },
        },
        _ => Err(CompileError::UnexpectedNode),
    }
}

/// One statement.
pub open spec fn spec_visit(env: Env, st: GenV, s: StmtV) -> Result<GenV, CompileError>
    decreases env.sources, s, 0nat, 5nat,
{
    match s {
        StmtV::Expression(e) => spec_visit_expression(env, st, *e),
        StmtV::FunctionDeclaration { .. } => spec_visit_function_declaration(env, st, s),
        StmtV::Return { .. } => spec_visit_return(env, st, s),
        StmtV::VariableDeclaration { .. } => spec_visit_variable_declaration(env, st, s),
        StmtV::Extern { .. } => spec_visit_extern(env, st, s),
        StmtV::Include { .. } => spec_visit_include(env, st, s),
        StmtV::Link { library, _static } => Ok(GenV { libs: st.libs.push(LibV { lib: library, _static }), ..st }),
        StmtV::While { .. } => spec_visit_while(env, st, s),
        StmtV::StructDeclaration { .. } => spec_visit_struct_declaration(env, st, s),
        _ => Err(CompileError::UnsupportedStatement),
    }
}

/// The statements `items` from the index `i` on, one after the other.
pub open spec fn spec_visit_items(env: Env, st: GenV, items: Seq<StmtV>, i: nat) -> Result<GenV, CompileError>
    decreases env.sources, items, items.len() - i, 0nat,
{
    if i >= items.len() {
        Ok(st)
    } else {
        match spec_visit(env, st, items[i as int]) {
            Err(e) => Err(e),
            Ok(st1) => spec_visit_items(env, st1, items, i + 1),
        }
    }
}

/// A block: its statements, one after the other, in the current scope.
pub open spec fn spec_visit_block(env: Env, st: GenV, s: StmtV) -> Result<GenV, CompileError>
    decreases env.sources, s, 0nat, 7nat,
{
    match s {
        StmtV::Block(items) => spec_visit_items(env, st, items, 0),
        _ => Err(CompileError::ExpectedBlock),
    }
}

// ---------------------------------------------------------------------
// Finding the files to splice in
// ---------------------------------------------------------------------

/// The paths of the files that the lowering of `s` splices in, in the
/// order in which it meets them: a directive names its file; a block, the
/// body of a function and the body of a loop hold what their statements
/// name.
pub open spec fn spec_includes_of(s: StmtV) -> Seq<Seq<char>>
    decreases s, 0nat,
{
    match s {
        StmtV::Include { path } => seq![path],
        StmtV::Block(items) => spec_includes_of_items(items, 0),
        StmtV::FunctionDeclaration { name, return_type, arguments, body } => spec_includes_of(*body),
        StmtV::While { condition, body } => spec_includes_of(*body),
        _ => Seq::empty(),
    }
}

/// The paths of the files that the lowering of the statements `items`
/// from the index `i` on splices in.
pub open spec fn spec_includes_of_items(items: Seq<StmtV>, i: nat) -> Seq<Seq<char>>
    decreases items, items.len() - i,
{
    if i >= items.len() {
        Seq::empty()
    } else {
        spec_includes_of(items[i as int]) + spec_includes_of_items(items, i + 1)
    }
}

/// The index of the first of the candidates from `i` on that exists.
pub open spec fn spec_first_hit(exists: Seq<bool>, i: nat) -> Option<nat>
    decreases exists.len() - i,
{
    if i >= exists.len() {
        None
    } else if exists[i as int] {
        Some(i)
    } else {
        spec_first_hit(exists, i + 1)
    }
}

/// The character that stands for `c` in the name of the output of a
/// spliced file: an underscore for a separator of directories.
pub open spec fn flat_char(c: char) -> char {
    if c == '/' || c == '\\' {
        '_'
    } else {
        c
    }
}

/// The path `path` as one file name: every separator of directories is
/// an underscore.
pub open spec fn spec_flat_name(path: Seq<char>) -> Seq<char> {
    path.map_values(|c: char| flat_char(c))
}

// ---------------------------------------------------------------------
// Assembling
// ---------------------------------------------------------------------

/// A program to run, with its arguments.
pub struct CommandV {
    pub program: Seq<char>,
    pub args: Seq<Seq<char>>,
}

/// What is left to do once a compilation has printed its modules: the
/// commands that make an object file of each module, the command that
/// links them, and the files to remove afterwards.
pub struct PlanV {
    pub emit: Seq<CommandV>,
    pub link: Option<CommandV>,
    pub remove: Seq<Seq<char>>,
}

/// The command that makes the object file `object` of the module printed
/// to `ir`.
pub open spec fn spec_emit_command(ir: Seq<char>, object: Seq<char>) -> CommandV {
    CommandV { program: "llc"@, args: seq!["--filetype=obj"@, ir, "-o"@, object] }
}

/// The commands that make the object files of the modules from the index
/// `i` on.
pub open spec fn spec_emit_commands(outputs: Seq<Seq<char>>, objects: Seq<Seq<char>>, i: nat) -> Seq<CommandV>
    decreases outputs.len() - i,
{
    if i >= outputs.len() || i >= objects.len() {
        Seq::empty()
    } else {
        seq![spec_emit_command(outputs[i as int], objects[i as int])] + spec_emit_commands(
            outputs,
            objects,
            i + 1,
        )
    }
}

/// How the linker is told of the library `lib`: by its path where it is
/// linked statically, as `-l` and its name otherwise.
pub open spec fn spec_lib_flag(lib: LibV) -> Seq<char> {
    if lib._static {
        lib.lib
    } else {
        "-l"@ + lib.lib
    }
}

/// The command that links the object files `objects` and the libraries
/// `libs` to the program `output`.
pub open spec fn spec_link_command(output: Seq<char>, objects: Seq<Seq<char>>, libs: Seq<LibV>) -> CommandV {
    CommandV {
        program: "gcc"@,
        args: seq!["-o"@, output, "-no-pie"@] + objects + libs.map_values(|l: LibV| spec_lib_flag(l)),
    }
}

/// What is left to do after the compilation `st` of the program
/// `output`: nothing for a unit that is spliced into another.
pub open spec fn spec_plan(st: GenV, output: Seq<char>, inside: bool) -> PlanV {
    if inside {
        PlanV { emit: Seq::empty(), link: None, remove: Seq::empty() }
    } else {
        PlanV {
            emit: spec_emit_commands(st.outputs, st.objects, 0),
            link: Some(spec_link_command(output, st.objects, st.libs)),
            remove: st.objects,
        }
    }
}

} // verus!
