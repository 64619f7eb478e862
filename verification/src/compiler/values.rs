//! The lowering of expressions.

use vstd::prelude::*;
use crate::lexer::TokenKind;
use crate::parser::ast::{exprs_view, lemma_exprs_view, lemma_stmts_view, stmts_view, Expr, Stmt};
use super::ir::{ArithOp, IntPredicate, IrType, IrValue, Name, Op, RealPredicate, TypeKind};
use super::lower::{spec_resolve_mutable_symbol, 
    is_bool_op, qualified, spec_access, spec_assignee, spec_emit_arguments, spec_emit_call, spec_floating,
    spec_get_arg_values, spec_init_fields, spec_resolve_value, spec_select, spec_string,
    spec_struct_initialize, spec_visit_assignment_expr, spec_visit_binexpr, spec_visit_call_expr,
    spec_visit_conditional, spec_visit_expression, spec_visit_op, spec_visit_prefix, CompileError,
    Selected,
};
use super::value::IGValue;
use super::{lowered, lowered_to, Compiler, Source};

verus! {

/// Whether the operator `op` yields a truth value.
pub fn yields_bool(op: TokenKind) -> (b: bool)
    ensures
        b == is_bool_op(op),
{
    match op {
        TokenKind::Equals
        | TokenKind::NotEquals
        | TokenKind::Less
        | TokenKind::LessOrEqual
        | TokenKind::Greater
        | TokenKind::GreaterOrEqual
        | TokenKind::Not
        | TokenKind::Or
        | TokenKind::And => true,
        _ => false,
    }
}

/// The instruction for the operator `op`.
pub fn select(op: TokenKind, floating: bool) -> (r: Option<Selected>)
    ensures
        r == spec_select(op, floating),
{
    match op {
        TokenKind::Plus => Some(Selected::Arith(if floating { ArithOp::FAdd } else { ArithOp::Add })),
        TokenKind::Minus => Some(Selected::Arith(if floating { ArithOp::FSub } else { ArithOp::Sub })),
        TokenKind::Multiply => Some(Selected::Arith(if floating { ArithOp::FMul } else { ArithOp::Mul })),
        TokenKind::Divide => Some(Selected::Arith(if floating { ArithOp::FDiv } else { ArithOp::SDiv })),
        TokenKind::Greater => Some(
            if floating { Selected::FCmp(RealPredicate::UGT) } else { Selected::ICmp(IntPredicate::UGT) },
        ),
        TokenKind::GreaterOrEqual => Some(
            if floating { Selected::FCmp(RealPredicate::UGE) } else { Selected::ICmp(IntPredicate::UGE) },
        ),
        TokenKind::Less => Some(
            if floating { Selected::FCmp(RealPredicate::ULT) } else { Selected::ICmp(IntPredicate::ULT) },
        ),
        TokenKind::LessOrEqual => Some(
            if floating { Selected::FCmp(RealPredicate::ULE) } else { Selected::ICmp(IntPredicate::ULE) },
        ),
        TokenKind::Equals => Some(
            if floating { Selected::FCmp(RealPredicate::UEQ) } else { Selected::ICmp(IntPredicate::EQ) },
        ),
        TokenKind::NotEquals => Some(
            if floating { Selected::FCmp(RealPredicate::UNE) } else { Selected::ICmp(IntPredicate::NE) },
        ),
        TokenKind::Or => Some(Selected::Arith(ArithOp::Or)),
        TokenKind::And => Some(Selected::Arith(ArithOp::And)),
        _ => None,
    }
}

/// The name of the field `field` of the struct type `owner` in the table
/// of field offsets.
pub fn qualified_name(owner: &String, field: &String) -> (name: String)
    ensures
        name@ == qualified(owner@, field@),
{
    proof {
        reveal_strlit(".");
    }
    let mut name = String::new();
    name.append(owner.as_str());
    name.append(".");
    name.append(field.as_str());
    assert("."@ =~= seq!['.']);
    assert(name@ =~= qualified(owner@, field@));
    name
}

impl Compiler {
    /// Whether the operands are lowered as floating-point numbers.
    pub fn floating(l: &IGValue, r: &IGValue) -> (f: Result<bool, CompileError>)
        ensures
            f == spec_floating(l@, r@),
    {
        if l.are_both(r, IrType::Int(32)) {
            Ok(false)
        } else if l.are_both(r, IrType::Float) {
            Ok(true)
        } else {
            Err(CompileError::UnsupportedOperands)
        }
    }

    /// Lowers the operator `op` on the values `l` and `r`.
    pub fn visit_op(&mut self, l: &IGValue, r: &IGValue, op: TokenKind) -> (v: Result<IGValue, CompileError>)
        ensures
            v is Err ==> final(self)@ == old(self)@,
            lowered(old(self), final(self), v, spec_visit_op(old(self)@, l@, r@, op)),
    {
        let floating = match Self::floating(l, r) {
            Ok(f) => f,
            Err(e) => {
                return Err(e);
            },
        };
        let sel = match select(op, floating) {
            Some(s) => s,
            None => {
                return Err(CompileError::InvalidOperation);
            },
        };
        let text = self.intern(String::from_str("op"));
        let name = Name::Prefixed(text);
        let instruction = match sel {
            Selected::Arith(a) => Op::Arith { op: a, lhs: l.value, rhs: r.value, name },
            Selected::ICmp(p) => Op::ICmp { pred: p, lhs: l.value, rhs: r.value, name },
            Selected::FCmp(p) => Op::FCmp { real: p, lhs: l.value, rhs: r.value, name },
        };
        let id = self.emit(instruction);
        let kind = match sel {
            Selected::Arith(_) => l._type.kind(),
            _ => TypeKind::Integer,
        };
        let ty = if yields_bool(op) {
            IrType::Int(1)
        } else {
            l._type
        };
        Ok(IGValue::new(IrValue::Inst { id, kind }, ty))
    }

    /// Lowers a member access to the address of the member.
    pub fn access(&mut self, lhs: &Expr, rhs: &Expr) -> (v: Result<IGValue, CompileError>)
        ensures
            v is Err ==> final(self)@ == old(self)@,
            lowered(old(self), final(self), v, spec_access(old(self)@, lhs.deep_view(), rhs.deep_view())),
    {
        let object = match lhs {
            Expr::Symbol(object) => object,
            _ => {
                return Err(CompileError::NestedAccess);
            },
        };
        let member = match rhs {
            Expr::Symbol(member) => member,
            _ => {
                return Err(CompileError::ExpectedMemberName);
            },
        };
        let value = match self.resolve(object) {
            Some(v) => v,
            None => {
                return Err(CompileError::UnresolvedSymbol);
            },
        };
        let owner = match &value.parent {
            Some(p) => p,
            None => {
                return Err(CompileError::NoMemberType);
            },
        };
        let index = match self.resolve_field(qualified_name(owner, member)) {
            Some(i) => i,
            None => {
                return Err(CompileError::UnresolvedMember);
            },
        };
        let id = self.emit(Op::StructGep { ty: value._type, ptr: value.value, index, name: Name::Fresh });
        Ok(IGValue::new(IrValue::Inst { id, kind: TypeKind::Pointer }, value._type))
    }

    /// Loads the pointer that the variable `expr` holds.
    pub fn resolve_mutable_symbol(&mut self, expr: &Expr) -> (v: Result<IGValue, CompileError>)
        ensures
            v is Err ==> final(self)@ == old(self)@,
            lowered(old(self), final(self), v, spec_resolve_mutable_symbol(old(self)@, expr.deep_view())),
    {
        let name = match expr {
            Expr::Symbol(name) => name,
            _ => {
                return Err(CompileError::UnexpectedNode);
            },
        };
        let bound = match self.resolve(name) {
            Some(v) => v,
            None => {
                return Err(CompileError::UnresolvedSymbol);
            },
        };
        let id = self.emit(Op::Load { ty: IrType::Pointer, ptr: bound.value, name: Name::Fresh });
        Ok(IGValue::new(IrValue::Inst { id, kind: TypeKind::Pointer }, bound._type))
    }

    /// Lowers a text literal to a global constant and the pointer to it.
    pub fn string(&mut self, text: &String) -> (v: IGValue)
        ensures
            final(self).follows(old(self)),
            (final(self)@, v@) == spec_string(old(self)@, text@),
    {
        let t = self.intern(text.clone());
        let global = self.emit(Op::GlobalString { text: t, name: Name::Fresh });
        let id = self.emit(
            Op::PointerCast {
                value: IrValue::Inst { id: global, kind: TypeKind::Pointer },
                ty: IrType::Pointer,
                name: Name::Fresh,
            },
        );
        IGValue::new(IrValue::Inst { id, kind: TypeKind::Pointer }, IrType::Pointer)
    }

    /// Lowers an expression to its value.
    pub fn resolve_value(&mut self, sources: &Vec<Source>, value: &Expr) -> (v: Result<IGValue, CompileError>)
        ensures
            lowered(
                old(self),
                final(self),
                v,
                spec_resolve_value(old(self).env(sources), old(self)@, value.deep_view()),
            ),
        decreases sources, value, 0nat, 3nat,
    {
        match value {
            Expr::Int(i) => {
                let id = self.emit(Op::ConstInt { ty: IrType::Int(32), number: *i as u64 });
                Ok(IGValue::new(IrValue::Inst { id, kind: TypeKind::Integer }, IrType::Int(32)))
            },
            Expr::Float(bits) => {
                let id = self.emit(Op::ConstReal { ty: IrType::Float, bits: *bits });
                Ok(IGValue::new(IrValue::Inst { id, kind: TypeKind::Float }, IrType::Float))
            },
            Expr::Bool(b) => {
                let id = self.emit(Op::ConstInt { ty: IrType::Int(1), number: if *b { 1 } else { 0 } });
                Ok(IGValue::new(IrValue::Inst { id, kind: TypeKind::Integer }, IrType::Int(1)))
            },
            Expr::Symbol(name) => {
                let bound = match self.resolve(name) {
                    Some(v) => v,
                    None => {
                        return Err(CompileError::UnresolvedSymbol);
                    },
                };
                let id = self.emit(Op::Load { ty: bound._type, ptr: bound.value, name: Name::Fresh });
                Ok(IGValue::new(IrValue::Inst { id, kind: bound._type.kind() }, bound._type))
            },
            Expr::String(text) => Ok(self.string(text)),
            Expr::Binary { .. } => self.visit_binexpr(sources, value),
            Expr::Call { .. } => match self.visit_call_expr(sources, value) {
                Ok(Some(v)) => Ok(v),
                Ok(None) => Err(CompileError::NoValueFromCall),
                Err(e) => Err(e),
            },
            Expr::StructInitialize { name, fields } => self.struct_initialize(sources, name, fields),
            Expr::Access { lhs, rhs } => self.access(lhs, rhs),
            _ => Err(CompileError::UnsupportedValue),
        }
    }

    /// Lowers a binary expression.
    pub fn visit_binexpr(&mut self, sources: &Vec<Source>, binexpr: &Expr) -> (v: Result<
        IGValue,
        CompileError,
    >)
        ensures
            lowered(
                old(self),
                final(self),
                v,
                spec_visit_binexpr(old(self).env(sources), old(self)@, binexpr.deep_view()),
            ),
        decreases sources, binexpr, 0nat, 2nat,
    {
        match binexpr {
            Expr::Binary { left, op, right } => {
                let lvalue = match self.resolve_value(sources, left) {
                    Ok(v) => v,
                    Err(e) => {
                        return Err(e);
                    },
                };
                let rvalue = match self.resolve_value(sources, right) {
                    Ok(v) => v,
                    Err(e) => {
                        return Err(e);
                    },
                };
                self.visit_op(&lvalue, &rvalue, op.kind())
            },
            _ => Err(CompileError::UnexpectedNode),
        }
    }

    /// Lowers the arguments of a call, from left to right.
    pub fn get_arg_values(&mut self, sources: &Vec<Source>, args: &Vec<Expr>) -> (r: Result<
        Vec<IrValue>,
        CompileError,
    >)
        ensures
            final(self).follows(old(self)),
            match spec_get_arg_values(old(self).env(sources), old(self)@, exprs_view(args@), 0, Seq::empty()) {
                Ok((st, values)) => r is Ok && r->Ok_0@ == values && final(self)@ == st,
                Err(e) => r == Err::<Vec<IrValue>, CompileError>(e),
            },
        decreases sources, args, args@.len(), 0nat,
    {
        let ghost env = self.env(sources);
        let ghost items = exprs_view(args@);
        proof {
            lemma_exprs_view(args@);
        }
        let mut values: Vec<IrValue> = Vec::new();
        let mut i: usize = 0;
        while i < args.len()
            invariant
                i <= args@.len(),
                items == exprs_view(args@),
                items.len() == args@.len(),
                self.follows(old(self)),
                env == old(self).env(sources),
                forall|k: int| 0 <= k < items.len() ==> #[trigger] items[k] == args@[k].deep_view(),
                spec_get_arg_values(env, old(self)@, items, 0, Seq::empty()) == spec_get_arg_values(
                    env,
                    self@,
                    items,
                    i as nat,
                    values@,
                ),
            decreases args@.len() - i,
        {
            assert(items[i as int] == args@[i as int].deep_view());
            let v = match self.resolve_value(sources, &args[i]) {
                Ok(v) => v,
                Err(e) => {
                    return Err(e);
                },
            };
            values.push(v.value);
            i += 1;
        }
        Ok(values)
    }

    /// Gives the values `values` to the backend as arguments.
    pub fn emit_arguments(&mut self, values: &Vec<IrValue>)
        ensures
            final(self).follows(old(self)),
            final(self)@ == spec_emit_arguments(old(self)@, values@, 0),
    {
        let mut i: usize = 0;
        while i < values.len()
            invariant
                i <= values@.len(),
                self.follows(old(self)),
                spec_emit_arguments(old(self)@, values@, 0) == spec_emit_arguments(self@, values@, i as nat),
            decreases values@.len() - i,
        {
            self.emit(Op::Argument(values[i]));
            i += 1;
        }
    }

    /// Calls the function `f` on `values`.
    pub fn emit_call(&mut self, f: &IGValue, values: &Vec<IrValue>) -> (r: Result<
        Option<IGValue>,
        CompileError,
    >)
        ensures
            r is Err ==> final(self)@ == old(self)@,
            final(self).follows(old(self)),
            match spec_emit_call(old(self)@, f@, values@) {
                Ok((st, v)) => r is Ok && final(self)@ == st && (match r->Ok_0 {
                    Some(x) => v == Some(x@),
                    None => v is None,
                }),
                Err(e) => r == Err::<Option<IGValue>, CompileError>(e),
            },
    {
        let ret = match self.return_type_of(f._type) {
            Some(t) => t,
            None => {
                return Err(CompileError::NotAFunction);
            },
        };
        self.emit_arguments(values);
        if ret.kind() == TypeKind::Void {
            self.emit(Op::Call { fn_ty: f._type, callee: f.value, count: values.len(), name: Name::Empty });
            Ok(None)
        } else {
            let id = self.emit(
                Op::Call { fn_ty: f._type, callee: f.value, count: values.len(), name: Name::Fresh },
            );
            Ok(Some(IGValue::new(IrValue::Inst { id, kind: ret.kind() }, ret)))
        }
    }

    /// Lowers a call.
    pub fn visit_call_expr(&mut self, sources: &Vec<Source>, expr: &Expr) -> (r: Result<
        Option<IGValue>,
        CompileError,
    >)
        ensures
            final(self).follows(old(self)),
            match spec_visit_call_expr(old(self).env(sources), old(self)@, expr.deep_view()) {
                Ok((st, v)) => r is Ok && final(self)@ == st && (match r->Ok_0 {
                    Some(x) => v == Some(x@),
                    None => v is None,
                }),
                Err(e) => r == Err::<Option<IGValue>, CompileError>(e),
            },
        decreases sources, expr, 0nat, 2nat,
    {
        match expr {
            Expr::Call { name, args } => {
                let f = match self.resolve(name) {
                    Some(f) => f,
                    None => {
                        return Err(CompileError::UnresolvedFunction);
                    },
                };
                let values = match self.get_arg_values(sources, args) {
                    Ok(v) => v,
                    Err(e) => {
                        return Err(e);
                    },
                };
                self.emit_call(&f, &values)
            },
            _ => Err(CompileError::UnexpectedNode),
        }
    }

    /// Lowers the field initialisers of a struct.
    pub fn init_fields(
        &mut self,
        sources: &Vec<Source>,
        owner: &String,
        ty: IrType,
        slot: IrValue,
        fields: &Vec<Stmt>,
    ) -> (r: Result<(), CompileError>)
        ensures
            lowered_to(
                old(self),
                final(self),
                r,
                spec_init_fields(old(self).env(sources), old(self)@, owner@, ty, slot, stmts_view(fields@), 0),
            ),
        decreases sources, fields, fields@.len(), 0nat,
    {
        let ghost env = self.env(sources);
        let ghost items = stmts_view(fields@);
        proof {
            lemma_stmts_view(fields@);
        }
        let mut i: usize = 0;
        while i < fields.len()
            invariant
                i <= fields@.len(),
                items == stmts_view(fields@),
                items.len() == fields@.len(),
                self.follows(old(self)),
                env == old(self).env(sources),
                forall|k: int| 0 <= k < items.len() ==> #[trigger] items[k] == fields@[k].deep_view(),
                spec_init_fields(env, old(self)@, owner@, ty, slot, items, 0) == spec_init_fields(
                    env,
                    self@,
                    owner@,
                    ty,
                    slot,
                    items,
                    i as nat,
                ),
            decreases fields@.len() - i,
        {
            assert(items[i as int] == fields@[i as int].deep_view());
            match &fields[i] {
                Stmt::StructInitField { name, value } => {
                    let v = match self.resolve_value(sources, value) {
                        Ok(v) => v,
                        Err(e) => {
                            return Err(e);
                        },
                    };
                    let index = match self.resolve_field(qualified_name(owner, name)) {
                        Some(index) => index,
                        None => {
                            return Err(CompileError::UnresolvedMember);
                        },
                    };
                    let gep = self.emit(Op::StructGep { ty, ptr: slot, index, name: Name::Fresh });
                    self.emit(
                        Op::Store { value: v.value, ptr: IrValue::Inst { id: gep, kind: TypeKind::Pointer } },
                    );
                },
                _ => {
                    return Err(CompileError::ExpectedStructInitField);
                },
            }
            i += 1;
        }
        Ok(())
    }

    /// Lowers a struct initialiser.
    pub fn struct_initialize(&mut self, sources: &Vec<Source>, name: &String, fields: &Vec<Stmt>) -> (v: Result<
        IGValue,
        CompileError,
    >)
        ensures
            lowered(
                old(self),
                final(self),
                v,
                spec_struct_initialize(old(self).env(sources), old(self)@, name@, stmts_view(fields@)),
            ),
        decreases sources, fields, fields@.len() + 1, 0nat,
    {
        let t = match self.resolve(name) {
            Some(t) => t,
            None => {
                return Err(CompileError::UnresolvedStruct);
            },
        };
        let id = self.emit(Op::Alloca { ty: t._type, name: Name::Fresh });
        let slot = IrValue::Inst { id, kind: TypeKind::Pointer };
        match self.init_fields(sources, name, t._type, slot, fields) {
            Ok(_) => Ok(IGValue::new_struct(slot, t._type, name.clone())),
            Err(e) => Err(e),
        }
    }

    /// Lowers a prefix expression.
    pub fn visit_prefix(&mut self, sources: &Vec<Source>, expr: &Expr) -> (v: Result<IGValue, CompileError>)
        ensures
            lowered(
                old(self),
                final(self),
                v,
                spec_visit_prefix(old(self).env(sources), old(self)@, expr.deep_view()),
            ),
        decreases sources, expr, 0nat, 2nat,
    {
        match expr {
            Expr::Prefix { op, right } => {
                let operand = match self.resolve_value(sources, right) {
                    Ok(v) => v,
                    Err(e) => {
                        return Err(e);
                    },
                };
                if op.kind() == TokenKind::Not {
                    let id = self.emit(Op::Not { value: operand.value, name: Name::Fresh });
                    Ok(IGValue::new(IrValue::Inst { id, kind: operand.value.kind() }, IrType::Int(1)))
                } else {
                    Err(CompileError::UnsupportedPrefix)
                }
            },
            _ => Err(CompileError::UnexpectedNode),
        }
    }

    /// Lowers the condition of a loop.
    pub fn visit_conditional(&mut self, sources: &Vec<Source>, expr: &Expr) -> (v: Result<
        IGValue,
        CompileError,
    >)
        ensures
            lowered(
                old(self),
                final(self),
                v,
                spec_visit_conditional(old(self).env(sources), old(self)@, expr.deep_view()),
            ),
        decreases sources, expr, 0nat, 4nat,
    {
        match expr {
            Expr::Binary { .. } => self.visit_binexpr(sources, expr),
            Expr::Bool(_) => self.resolve_value(sources, expr),
            Expr::Prefix { .. } => self.visit_prefix(sources, expr),
            _ => Err(CompileError::ExpectedConditional),
        }
    }

    /// Lowers what is assigned to.
    pub fn assignee(&mut self, sources: &Vec<Source>, expr: &Expr) -> (v: Result<IGValue, CompileError>)
        ensures
            lowered(
                old(self),
                final(self),
                v,
                spec_assignee(old(self).env(sources), old(self)@, expr.deep_view()),
            ),
        decreases sources, expr, 0nat, 4nat,
    {
        match expr {
            Expr::Symbol(name) => match self.resolve(name) {
                Some(v) => Ok(v),
                None => Err(CompileError::UnresolvedSymbol),
            },
            Expr::Access { .. } => self.resolve_value(sources, expr),
            _ => Err(CompileError::InvalidAssignee),
        }
    }

    /// Lowers an assignment.
    pub fn visit_assignment_expr(&mut self, sources: &Vec<Source>, expr: &Expr) -> (r: Result<
        (),
        CompileError,
    >)
        ensures
            lowered_to(
                old(self),
                final(self),
                r,
                spec_visit_assignment_expr(old(self).env(sources), old(self)@, expr.deep_view()),
            ),
        decreases sources, expr, 0nat, 2nat,
    {
        match expr {
            Expr::Assignment { assignee, right } => {
                let target = match self.assignee(sources, assignee) {
                    Ok(v) => v,
                    Err(e) => {
                        return Err(e);
                    },
                };
                let val = match self.resolve_value(sources, right) {
                    Ok(v) => v,
                    Err(e) => {
                        return Err(e);
                    },
                };
                if !target.mutable {
                    return Err(CompileError::ImmutableAssignment);
                }
                self.emit(Op::Store { value: val.value, ptr: target.value });
                Ok(())
            },
            _ => Err(CompileError::UnexpectedNode),
        }
    }

    /// Lowers an expression that stands as a statement.
    pub fn visit_expression(&mut self, sources: &Vec<Source>, expr: &Expr) -> (r: Result<(), CompileError>)
        ensures
            lowered_to(
                old(self),
                final(self),
                r,
                spec_visit_expression(old(self).env(sources), old(self)@, expr.deep_view()),
            ),
        decreases sources, expr, 0nat, 4nat,
    {
        match expr {
            Expr::Binary { .. } => match self.visit_binexpr(sources, expr) {
                Ok(_) => Ok(()),
                Err(e) => Err(e),
            },
            Expr::Assignment { .. } => self.visit_assignment_expr(sources, expr),
            Expr::Call { .. } => match self.visit_call_expr(sources, expr) {
                Ok(_) => Ok(()),
                Err(e) => Err(e),
            },
            _ => Err(CompileError::UnsupportedExpression),
        }
    }
}

} // verus!
