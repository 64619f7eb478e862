//! The lowering of statements.

use vstd::prelude::*;
use crate::parser::ast::{lemma_stmts_view, stmts_view, Stmt};
use super::ir::{IrType, IrValue, Name, Op, TypeKind};
use super::lower::{
    spec_bind_parameters, spec_create_basic_block, spec_declare_function, spec_enter_function,
    spec_finish_function, spec_record_fields, spec_visit, spec_visit_block, spec_visit_extern,
    spec_visit_function_declaration, spec_visit_items, spec_visit_return, spec_visit_struct_declaration,
    spec_visit_variable_declaration, spec_visit_while, CompileError,
};
use super::scope::bound;
use super::value::IGValue;
use super::values::qualified_name;
use super::{lowered_to, Compiler, Source};

verus! {

impl Compiler {
    /// Lowers `return value;`.
    pub fn visit_return(&mut self, sources: &Vec<Source>, stmt: &Stmt) -> (r: Result<(), CompileError>)
        ensures
            lowered_to(
                old(self),
                final(self),
                r,
                spec_visit_return(old(self).env(sources), old(self)@, stmt.deep_view()),
            ),
        decreases sources, stmt, 0nat, 4nat,
    {
        match stmt {
            Stmt::Return { value } => {
                let v = match self.resolve_value(sources, value) {
                    Ok(v) => v,
                    Err(e) => {
                        return Err(e);
                    },
                };
                self.emit(Op::Ret { value: v.value });
                Ok(())
            },
            _ => Err(CompileError::UnexpectedNode),
        }
    }

    /// Lowers the declaration of a variable.
    pub fn visit_variable_declaration(&mut self, sources: &Vec<Source>, stmt: &Stmt) -> (r: Result<
        (),
        CompileError,
    >)
        ensures
            stmt.deep_view() is VariableDeclaration && bound(
                old(self)@.scope.symbols,
                stmt.deep_view()->VariableDeclaration_name,
            ) ==> final(self)@ == old(self)@,
            lowered_to(
                old(self),
                final(self),
                r,
                spec_visit_variable_declaration(old(self).env(sources), old(self)@, stmt.deep_view()),
            ),
        decreases sources, stmt, 0nat, 4nat,
    {
        match stmt {
            Stmt::VariableDeclaration { name, mutable, explicit_type, value } => {
                if self.declares(name) {
                    return Err(CompileError::Redefinition);
                }
                let val = match self.resolve_value(sources, value) {
                    Ok(v) => v,
                    Err(e) => {
                        return Err(e);
                    },
                };
                let text = self.intern(name.clone());
                let id = self.emit(Op::Alloca { ty: val._type, name: Name::Prefixed(text) });
                let slot = IrValue::Inst { id, kind: TypeKind::Pointer };
                self.emit(Op::Store { value: val.value, ptr: slot });
                let bound_to = match &val.parent {
                    Some(_) => val.value,
                    None => slot,
                };
                self.define(
                    name.clone(),
                    IGValue {
                        value: bound_to,
                        _type: val._type,
                        mutable: *mutable,
                        public: true,
                        parent: val.parent,
                    },
                );
                Ok(())
            },
            _ => Err(CompileError::UnexpectedNode),
        }
    }

    /// Declares the function `symbol`, of the type that returns `ret` and
    /// takes `params`, and gives what the function is bound to.
    pub fn declare_function(&mut self, symbol: &String, ret: IrType, params: &Vec<IrType>) -> (f: IGValue)
        ensures
            final(self).follows(old(self)),
            (final(self)@, f@) == spec_declare_function(old(self)@, symbol@, ret, params@),
    {
        let fty = self.function_type(ret, params);
        let text = self.intern(symbol.clone());
        let id = self.emit(Op::AddFunction { name: Name::Exact(text), ty: fty });
        IGValue {
            value: IrValue::Inst { id, kind: TypeKind::Pointer },
            _type: fty,
            mutable: false,
            public: true,
            parent: None,
        }
    }

    /// Lowers the declaration of an external function.
    pub fn visit_extern(&mut self, sources: &Vec<Source>, stmt: &Stmt) -> (r: Result<(), CompileError>)
        ensures
            r is Err ==> final(self)@ == old(self)@,
            lowered_to(
                old(self),
                final(self),
                r,
                spec_visit_extern(old(self).env(sources), old(self)@, stmt.deep_view()),
            ),
    {
        match stmt {
            Stmt::Extern { name, symbol, return_type, arguments } => {
                let types = match self.get_arg_types(sources, arguments) {
                    Ok(t) => t,
                    Err(e) => {
                        return Err(e);
                    },
                };
                let ret = match self.get_type(sources, return_type) {
                    Ok(t) => t,
                    Err(e) => {
                        return Err(e);
                    },
                };
                let f = self.declare_function(symbol, ret, &types);
                self.define(name.clone(), f);
                Ok(())
            },
            _ => Err(CompileError::UnexpectedNode),
        }
    }

    /// Records the offsets of the fields `fields` of the struct `owner`.
    pub fn record_fields(&mut self, owner: &String, fields: &Vec<Stmt>)
        ensures
            final(self).follows(old(self)),
            final(self)@ == old(self)@.with_scope(
                spec_record_fields(old(self)@.scope, owner@, stmts_view(fields@), 0),
            ),
    {
        let ghost items = stmts_view(fields@);
        proof {
            lemma_stmts_view(fields@);
        }
        let mut i: usize = 0;
        while i < fields.len()
            invariant
                i <= fields@.len(),
                items == stmts_view(fields@),
                items.len() == fields@.len(),
                self.follows(old(self)),
                self@ == old(self)@.with_scope(self@.scope),
                forall|k: int| 0 <= k < items.len() ==> #[trigger] items[k] == fields@[k].deep_view(),
                spec_record_fields(old(self)@.scope, owner@, items, 0) == spec_record_fields(
                    self@.scope,
                    owner@,
                    items,
                    i as nat,
                ),
            decreases fields@.len() - i,
        {
            assert(items[i as int] == fields@[i as int].deep_view());
            match &fields[i] {
                Stmt::Field { name, _type } => {
                    self.define_field(qualified_name(owner, name), i);
                },
                _ => {
                    return ;
                },
            }
            i += 1;
        }
    }

    /// Lowers the declaration of a struct.
    pub fn visit_struct_declaration(&mut self, sources: &Vec<Source>, stmt: &Stmt) -> (r: Result<
        (),
        CompileError,
    >)
        ensures
            r is Err ==> final(self)@ == old(self)@,
            lowered_to(
                old(self),
                final(self),
                r,
                spec_visit_struct_declaration(old(self).env(sources), old(self)@, stmt.deep_view()),
            ),
    {
        match stmt {
            Stmt::StructDeclaration { name, fields, functions } => {
                let types = match self.get_arg_types(sources, fields) {
                    Ok(t) => t,
                    Err(e) => {
                        return Err(e);
                    },
                };
                let ty = self.struct_type(&types);
                self.define(
                    name.clone(),
                    IGValue { value: IrValue::Sentinel, _type: ty, mutable: false, public: true, parent: None },
                );
                self.record_fields(name, fields);
                Ok(())
            },
            _ => Err(CompileError::UnexpectedNode),
        }
    }

    /// Appends a block to the function that the builder stands in, and
    /// gives the handle of the block.
    pub fn create_basic_block(&mut self, name: String) -> (r: Result<usize, CompileError>)
        ensures
            r is Err ==> final(self)@ == old(self)@,
            final(self).follows(old(self)),
            match spec_create_basic_block(old(self)@, name@) {
                Ok((st, block)) => r == Ok::<usize, CompileError>(block) && final(self)@ == st,
                Err(e) => r == Err::<usize, CompileError>(e),
            },
    {
        let function = match self.get_current_function() {
            Some(f) => f,
            None => {
                return Err(CompileError::NoInsertionPoint);
            },
        };
        let text = self.intern(name);
        Ok(self.emit(Op::AppendBlock { function, name: Name::Prefixed(text) }))
    }

    /// Lowers a loop.
    pub fn visit_while(&mut self, sources: &Vec<Source>, stmt: &Stmt) -> (r: Result<(), CompileError>)
        ensures
            lowered_to(
                old(self),
                final(self),
                r,
                spec_visit_while(old(self).env(sources), old(self)@, stmt.deep_view()),
            ),
        decreases sources, stmt, 0nat, 4nat,
    {
        match stmt {
            Stmt::While { condition, body } => {
                let inside = match self.create_basic_block(String::from_str("while_inside")) {
                    Ok(b) => b,
                    Err(e) => {
                        return Err(e);
                    },
                };
                let outside = match self.create_basic_block(String::from_str("while_outside")) {
                    Ok(b) => b,
                    Err(e) => {
                        return Err(e);
                    },
                };
                self.emit(Op::Br { dest: inside });
                self.position(inside);
                match self.visit_block(sources, body) {
                    Ok(_) => {},
                    Err(e) => {
                        return Err(e);
                    },
                }
                let cond = match self.visit_conditional(sources, condition) {
                    Ok(c) => c,
                    Err(e) => {
                        return Err(e);
                    },
                };
                self.emit(Op::CondBr { cond: cond.value, then: inside, otherwise: outside });
                self.position(outside);
                Ok(())
            },
            _ => Err(CompileError::UnexpectedNode),
        }
    }

    /// Binds the parameters `arguments`, of the types `types`, of the
    /// function `func`.
    pub fn bind_parameters(&mut self, func: IrValue, arguments: &Vec<Stmt>, types: &Vec<IrType>)
        ensures
            final(self).follows(old(self)),
            final(self)@ == spec_bind_parameters(old(self)@, func, stmts_view(arguments@), types@, 0),
    {
        let ghost items = stmts_view(arguments@);
        proof {
            lemma_stmts_view(arguments@);
        }
        let mut i: usize = 0;
        while i < arguments.len() && i < types.len()
            invariant
                i <= arguments@.len(),
                items == stmts_view(arguments@),
                items.len() == arguments@.len(),
                self.follows(old(self)),
                forall|k: int| 0 <= k < items.len() ==> #[trigger] items[k] == arguments@[k].deep_view(),
                spec_bind_parameters(old(self)@, func, items, types@, 0) == spec_bind_parameters(
                    self@,
                    func,
                    items,
                    types@,
                    i as nat,
                ),
            decreases arguments@.len() - i,
        {
            assert(items[i as int] == arguments@[i as int].deep_view());
            match &arguments[i] {
                Stmt::Field { name, _type } => {
                    let t = types[i];
                    let text = self.intern(name.clone());
                    let alloca = self.emit(Op::Alloca { ty: t, name: Name::Prefixed(text) });
                    let slot = IrValue::Inst { id: alloca, kind: TypeKind::Pointer };
                    let param = self.emit(Op::Param { function: func, index: i });
                    self.emit(Op::Store { value: IrValue::Inst { id: param, kind: t.kind() }, ptr: slot });
                    self.define(
                        name.clone(),
                        IGValue { value: slot, _type: t, mutable: false, public: true, parent: None },
                    );
                },
                _ => {
                    return ;
                },
            }
            i += 1;
        }
    }

    /// Starts a function: declares it, opens its scope, places the
    /// builder in its entry block and binds its parameters and itself.
    pub fn enter_function(&mut self, name: &String, ret: IrType, arguments: &Vec<Stmt>, types: &Vec<IrType>) -> (f:
        IGValue)
        ensures
            final(self).follows(old(self)),
            (final(self)@, f@) == spec_enter_function(old(self)@, name@, ret, stmts_view(arguments@), types@),
    {
        let f = self.declare_function(name, ret, types);
        let pre = self.intern(name.clone());
        let post = self.intern(String::from_str("ignis_entry"));
        let block = self.emit(Op::AppendBlock { function: f.value, name: Name::Wrapped(pre, post) });
        self.enter_scope(name.clone());
        self.position(block);
        self.bind_parameters(f.value, arguments, types);
        self.define(name.clone(), f.clone());
        f
    }

    /// Ends the body of a function.
    pub fn finish_function(&mut self, implicit_main: bool, ret: IrType)
        ensures
            final(self).follows(old(self)),
            final(self)@ == spec_finish_function(old(self)@, implicit_main, ret),
    {
        if self.terminated {
            return ;
        }
        if implicit_main {
            let zero = self.emit(Op::ConstInt { ty: IrType::Int(32), number: 0 });
            self.emit(Op::Ret { value: IrValue::Inst { id: zero, kind: TypeKind::Integer } });
        } else if ret == IrType::Void {
            self.emit(Op::RetVoid);
        }
    }

    /// Lowers the declaration of a function.
    pub fn visit_function_declaration(&mut self, sources: &Vec<Source>, stmt: &Stmt) -> (r: Result<
        (),
        CompileError,
    >)
        ensures
            lowered_to(
                old(self),
                final(self),
                r,
                spec_visit_function_declaration(old(self).env(sources), old(self)@, stmt.deep_view()),
            ),
        decreases sources, stmt, 0nat, 4nat,
    {
        match stmt {
            Stmt::FunctionDeclaration { name, return_type, arguments, body } => {
                let types = match self.get_arg_types(sources, arguments) {
                    Ok(t) => t,
                    Err(e) => {
                        return Err(e);
                    },
                };
                let stated = match self.get_type(sources, return_type) {
                    Ok(t) => t,
                    Err(e) => {
                        return Err(e);
                    },
                };
                let implicit_main = stated == IrType::Void && *name == String::from_str("main");
                let ret = if implicit_main {
                    IrType::Int(32)
                } else {
                    stated
                };
                let f = self.enter_function(name, ret, arguments, &types);
                match self.visit_block(sources, body) {
                    Ok(_) => {},
                    Err(e) => {
                        return Err(e);
                    },
                }
                self.finish_function(implicit_main, ret);
                self.leave_scope();
                self.define(name.clone(), f);
                Ok(())
            },
            _ => Err(CompileError::UnexpectedNode),
        }
    }

    /// Lowers one statement.
    pub fn visit(&mut self, sources: &Vec<Source>, stmt: &Stmt) -> (r: Result<(), CompileError>)
        ensures
            lowered_to(old(self), final(self), r, spec_visit(old(self).env(sources), old(self)@, stmt.deep_view())),
        decreases sources, stmt, 0nat, 5nat,
    {
        match stmt {
            Stmt::Expression(expr) => self.visit_expression(sources, expr),
            Stmt::FunctionDeclaration { .. } => self.visit_function_declaration(sources, stmt),
            Stmt::Return { .. } => self.visit_return(sources, stmt),
            Stmt::VariableDeclaration { .. } => self.visit_variable_declaration(sources, stmt),
            Stmt::Extern { .. } => self.visit_extern(sources, stmt),
            Stmt::Include { .. } => self.visit_include(sources, stmt),
            Stmt::Link { library, _static } => {
                self.add_lib(library.clone(), *_static);
                Ok(())
            },
            Stmt::While { .. } => self.visit_while(sources, stmt),
            Stmt::StructDeclaration { .. } => self.visit_struct_declaration(sources, stmt),
            _ => Err(CompileError::UnsupportedStatement),
        }
    }

    /// Lowers a block.
    pub fn visit_block(&mut self, sources: &Vec<Source>, stmt: &Stmt) -> (r: Result<(), CompileError>)
        ensures
            lowered_to(
                old(self),
                final(self),
                r,
                spec_visit_block(old(self).env(sources), old(self)@, stmt.deep_view()),
            ),
        decreases sources, stmt, 0nat, 7nat,
    {
        match stmt {
            Stmt::Block(block) => {
                let ghost env = self.env(sources);
                let ghost items = stmts_view(block@);
                proof {
                    lemma_stmts_view(block@);
                }
                let mut i: usize = 0;
                while i < block.len()
                    invariant
                        i <= block@.len(),
                        items == stmts_view(block@),
                        items.len() == block@.len(),
                        self.follows(old(self)),
                        env == old(self).env(sources),
                        stmt == Stmt::Block(*block),
                        forall|k: int| 0 <= k < items.len() ==> #[trigger] items[k] == block@[k].deep_view(),
                        spec_visit_items(env, old(self)@, items, 0) == spec_visit_items(
                            env,
                            self@,
                            items,
                            i as nat,
                        ),
                    decreases block@.len() - i,
                {
                    assert(items[i as int] == block@[i as int].deep_view());
                    match self.visit(sources, &block[i]) {
                        Ok(_) => {},
                        Err(e) => {
                            return Err(e);
                        },
                    }
                    i += 1;
                }
                Ok(())
            },
            _ => Err(CompileError::ExpectedBlock),
        }
    }
}

} // verus!
