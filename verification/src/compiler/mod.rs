//! The code generator: its state, and the steps that every lowering is
//! made of.

use vstd::prelude::*;
use crate::lexer::Token;
use crate::parser::ast::{lemma_stmts_view, stmts_view, Stmt, Type};
use ir::{IrType, IrValue, Op};
use lower::{
    builtin_types, spec_emit_types, spec_function_type, spec_get_arg_types, spec_get_type, spec_new,
    spec_return_type_of, spec_struct_type, CompileError, Env, GenV, LibV, Lowered, SourceV,
};
use scope::{IGScope, NameTable};
use value::IGValue;

pub mod growth;
pub mod inclusion;
pub mod ir;
pub mod layout;
pub mod lower;
pub mod namegen;
pub mod names;
pub mod operators;
pub mod scope;
pub mod scoping;
pub mod value;
pub mod statements;
pub mod surroundings;
pub mod unit;
pub mod values;

verus! {

/// A library to link: its name, or its path where it is linked statically.
#[derive(Debug, PartialEq)]
pub struct IGLib {
    pub lib: String,
    pub _static: bool,
}

impl View for IGLib {
    type V = LibV;

    open spec fn view(&self) -> LibV {
        LibV { lib: self.lib@, _static: self._static }
    }
}

/// The libraries of `libs`, in order.
pub open spec fn libs_view(libs: Seq<IGLib>) -> Seq<LibV> {
    Seq::new(libs.len(), |i: int| libs[i]@)
}

/// The texts of `texts`, in order.
pub open spec fn texts_view(texts: Seq<String>) -> Seq<Seq<char>> {
    Seq::new(texts.len(), |i: int| texts[i]@)
}

/// A source file that a compilation may splice in: the path by which the
/// including file names it, the path that its output goes by, its tokens,
/// and the sources that it may splice in itself.
#[derive(Debug, PartialEq)]
pub struct Source {
    pub path: String,
    pub output: String,
    pub tokens: Vec<Token>,
    pub includes: Vec<Source>,
}

/// The value of a source.
pub open spec fn source_view(s: Source) -> SourceV
    decreases s,
{
    SourceV { path: s.path@, output: s.output@, tokens: s.tokens.deep_view(), includes: sources_view(s.includes@) }
}

/// The values of a run of sources, in order.
pub open spec fn sources_view(s: Seq<Source>) -> Seq<SourceV>
    decreases s,
{
    if s.len() == 0 {
        Seq::empty()
    } else {
        sources_view(s.drop_last()).push(source_view(s.last()))
    }
}

/// The value of a run of sources is taken item by item.
pub proof fn lemma_sources_view(s: Seq<Source>)
    ensures
        sources_view(s).len() == s.len(),
        forall|i: int| 0 <= i < s.len() ==> #[trigger] sources_view(s)[i] == source_view(s[i]),
    decreases s.len(),
{
    if s.len() > 0 {
        lemma_sources_view(s.drop_last());
    }
}

/// The table of the built-in types.
pub type TypeMap = NameTable<IrType>;

/// The generator: the built-in types, the state of the compilation, and
/// the path that the output of the unit goes by.
pub struct Compiler {
    pub type_map: TypeMap,
    pub libs: Vec<IGLib>,
    pub ops: Vec<Op>,
    pub texts: Vec<String>,
    pub insert: Option<usize>,
    pub current_scope: IGScope,
    pub output: String,
    pub outputs: Vec<String>,
    pub objects: Vec<String>,
    pub terminated: bool,
}

/// What stays the same while the unit is compiled that may splice in
/// `sources`, with the built-in types `types`.
pub open spec fn env_of(types: TypeMap, sources: &Vec<Source>) -> Env {
    Env { types: types@, sources: sources_view(sources@) }
}

impl Compiler {
    /// The state of the compilation.
    pub open spec fn view(&self) -> GenV {
        GenV {
            ops: self.ops@,
            texts: texts_view(self.texts@),
            insert: self.insert,
            scope: self.current_scope@,
            libs: libs_view(self.libs@),
            outputs: texts_view(self.outputs@),
            objects: texts_view(self.objects@),
            terminated: self.terminated,
        }
    }

    /// What stays the same while this generator compiles a unit that may
    /// splice in `sources`.
    pub open spec fn env(&self, sources: &Vec<Source>) -> Env {
        env_of(self.type_map, sources)
    }

    /// Whether `self` follows `before` in the compilation of one unit:
    /// the built-in types and the output path are the same.
    pub open spec fn follows(&self, before: &Compiler) -> bool {
        self.type_map@ == before.type_map@ && self.output@ == before.output@
    }

    /// The table of the built-in types.
    pub fn get_type_map() -> (t: TypeMap)
        ensures
            t@ == builtin_types(),
    {
        let mut type_map = TypeMap::new();
        type_map.insert(String::from_str("bool"), IrType::Int(1));
        type_map.insert(String::from_str("i8"), IrType::Int(8));
        type_map.insert(String::from_str("i16"), IrType::Int(16));
        type_map.insert(String::from_str("i32"), IrType::Int(32));
        type_map.insert(String::from_str("i64"), IrType::Int(64));
        type_map.insert(String::from_str("f16"), IrType::Half);
        type_map.insert(String::from_str("f32"), IrType::Float);
        type_map.insert(String::from_str("f64"), IrType::Double);
        type_map.insert(String::from_str("string"), IrType::Pointer);
        type_map.insert(String::from_str("void"), IrType::Void);
        type_map
    }

    /// Gives one more instruction to the backend, and the handle of the
    /// instruction.
    pub fn emit(&mut self, op: Op) -> (id: usize)
        ensures
            final(self).follows(old(self)),
            final(self)@ == old(self)@.emit(op),
            id == old(self)@.next(),
    {
        let id = self.ops.len();
        if op.in_block() {
            self.terminated = op.terminates();
        }
        self.ops.push(op);
        id
    }

    /// Adds one more text, and gives its index.
    pub fn intern(&mut self, text: String) -> (id: usize)
        ensures
            final(self).follows(old(self)),
            final(self)@ == old(self)@.intern(text@),
            id == old(self)@.next_text(),
    {
        let id = self.texts.len();
        self.texts.push(text);
        assert(texts_view(self.texts@) =~= texts_view(old(self).texts@).push(text@));
        id
    }

    /// Places the builder at the end of the block made by instruction `block`.
    pub fn position(&mut self, block: usize)
        ensures
            final(self).follows(old(self)),
            final(self)@ == old(self)@.position(block),
    {
        self.insert = Some(block);
        self.terminated = false;
        self.ops.push(Op::PositionAtEnd { block });
    }

    /// The backend type that the source type `_type` stands for.
    pub fn get_type(&self, sources: &Vec<Source>, _type: &Type) -> (r: Result<IrType, CompileError>)
        ensures
            r == spec_get_type(self.env(sources), self@, _type.deep_view()),
        decreases _type,
    {
        match _type {
            Type::Symbol(name) => match self.type_map.get(name) {
                Some(t) => Ok(*t),
                None => match self.current_scope.resolve(name.clone()) {
                    Some(v) => Ok(v._type),
                    None => Err(CompileError::InvalidType),
                },
            },
            Type::Ref(inner) => self.get_type(sources, inner),
            Type::Array(_) => Err(CompileError::UnsupportedType),
        }
    }

    /// The backend types of the parameters or fields `args`.
    pub fn get_arg_types(&self, sources: &Vec<Source>, args: &Vec<Stmt>) -> (r: Result<
        Vec<IrType>,
        CompileError,
    >)
        ensures
            match spec_get_arg_types(self.env(sources), self@, stmts_view(args@), 0, Seq::empty()) {
                Ok(types) => r is Ok && r->Ok_0@ == types && types.len() == args@.len(),
                Err(e) => r == Err::<Vec<IrType>, CompileError>(e),
            },
    {
        let ghost env = self.env(sources);
        let ghost items = stmts_view(args@);
        proof {
            lemma_stmts_view(args@);
        }
        let mut types: Vec<IrType> = Vec::new();
        let mut i: usize = 0;
        while i < args.len()
            invariant
                i <= args@.len(),
                items == stmts_view(args@),
                items.len() == args@.len(),
                env == self.env(sources),
                types@.len() == i,
                forall|k: int| 0 <= k < items.len() ==> #[trigger] items[k] == args@[k].deep_view(),
                spec_get_arg_types(env, self@, items, 0, Seq::empty()) == spec_get_arg_types(
                    env,
                    self@,
                    items,
                    i as nat,
                    types@,
                ),
            decreases args@.len() - i,
        {
            assert(items[i as int] == args@[i as int].deep_view());
            match &args[i] {
                Stmt::Field { name, _type } => {
                    let t = match self.get_type(sources, _type) {
                        Ok(t) => t,
                        Err(e) => {
                            return Err(e);
                        },
                    };
                    types.push(t);
                },
                _ => {
                    return Err(CompileError::ExpectedField);
                },
            }
            i += 1;
        }
        Ok(types)
    }

    /// Gives the types `types` to the backend, one instruction each.
    pub fn emit_types(&mut self, types: &Vec<IrType>)
        ensures
            final(self).follows(old(self)),
            final(self)@ == spec_emit_types(old(self)@, types@, 0),
    {
        let mut i: usize = 0;
        while i < types.len()
            invariant
                i <= types@.len(),
                self.follows(old(self)),
                spec_emit_types(old(self)@, types@, 0) == spec_emit_types(self@, types@, i as nat),
            decreases types@.len() - i,
        {
            self.emit(Op::TypeItem(types[i]));
            i += 1;
        }
    }

    /// Makes the function type that returns `ret` and takes `params`.
    pub fn function_type(&mut self, ret: IrType, params: &Vec<IrType>) -> (t: IrType)
        ensures
            final(self).follows(old(self)),
            (final(self)@, t) == spec_function_type(old(self)@, ret, params@),
    {
        self.emit_types(params);
        let id = self.emit(Op::FunctionType { ret, count: params.len() });
        IrType::Function(id)
    }

    /// Makes the struct type that holds `fields`.
    pub fn struct_type(&mut self, fields: &Vec<IrType>) -> (t: IrType)
        ensures
            final(self).follows(old(self)),
            (final(self)@, t) == spec_struct_type(old(self)@, fields@),
    {
        self.emit_types(fields);
        let id = self.emit(Op::StructType { count: fields.len() });
        IrType::Struct(id)
    }

    /// The type that the function type `t` returns.
    pub fn return_type_of(&self, t: IrType) -> (r: Option<IrType>)
        ensures
            r == spec_return_type_of(self@.ops, t),
    {
        match t {
            IrType::Function(id) => {
                if id < self.ops.len() {
                    match self.ops[id] {
                        Op::FunctionType { ret, count } => Some(ret),
                        _ => None,
                    }
                } else {
                    None
                }
            },
            _ => None,
        }
    }

    /// Binds `name` in the current scope.
    pub fn define(&mut self, name: String, value: IGValue)
        ensures
            final(self).follows(old(self)),
            final(self)@ == old(self)@.with_scope(old(self)@.scope.define(name@, value@)),
    {
        self.current_scope.symbols.insert(name, value);
    }

    /// What `name` is bound to, in the current scope or around it.
    pub fn resolve(&self, name: &String) -> (r: Option<IGValue>)
        ensures
            match r {
                Some(v) => self@.scope.resolve(name@) == Some(v@),
                None => self@.scope.resolve(name@) is None,
            },
    {
        match self.current_scope.resolve(name.clone()) {
            Some(v) => Some(v.clone()),
            None => None,
        }
    }

    /// The offset recorded for the field `name`.
    pub fn resolve_field(&self, name: String) -> (r: Option<usize>)
        ensures
            r == self@.scope.resolve_field(name@),
    {
        match self.current_scope.resolve_field(name) {
            Some(i) => Some(*i),
            None => None,
        }
    }

    /// Records the offset `index` for the field `name` in the current scope.
    pub fn define_field(&mut self, name: String, index: usize)
        ensures
            final(self).follows(old(self)),
            final(self)@ == old(self)@.with_scope(old(self)@.scope.define_field(name@, index)),
    {
        self.current_scope.fields.insert(name, index);
    }

    /// Whether the current scope itself binds `name`.
    pub fn declares(&self, name: &String) -> (b: bool)
        ensures
            b == scope::bound(self@.scope.symbols, name@),
    {
        self.current_scope.declares(name)
    }

    /// Opens a scope named `name` inside the current one.
    pub fn enter_scope(&mut self, name: String)
        ensures
            final(self).follows(old(self)),
            final(self)@ == old(self)@.with_scope(scope::ScopeV::child(old(self)@.scope, Some(name@))),
    {
        let mut outer = IGScope::new(None, None, None, None);
        core::mem::swap(&mut outer, &mut self.current_scope);
        self.current_scope = IGScope::new(None, None, Some(name), Some(Box::new(outer)));
    }

    /// Gives the current scope up for the one around it, where one
    /// stands around it.
    pub fn leave_scope(&mut self)
        ensures
            final(self).follows(old(self)),
            final(self)@ == old(self)@.with_scope(lower::spec_leave(old(self)@.scope)),
    {
        let mut inner = IGScope::new(None, None, None, None);
        core::mem::swap(&mut inner, &mut self.current_scope);
        let IGScope { symbols, fields, parent, name } = inner;
        match parent {
            Some(outer) => {
                self.current_scope = *outer;
            },
            None => {
                self.current_scope = IGScope { symbols, fields, parent: None, name };
            },
        }
    }

    /// The function that the builder stands in.
    pub fn get_current_function(&self) -> (r: Option<IrValue>)
        ensures
            r == self@.current_function(),
    {
        match self.insert {
            Some(block) => {
                if block < self.ops.len() {
                    match self.ops[block] {
                        Op::AppendBlock { function, name } => Some(function),
                        _ => None,
                    }
                } else {
                    None
                }
            },
            None => None,
        }
    }

    /// Records a library to link.
    pub fn add_lib(&mut self, library: String, _static: bool)
        ensures
            final(self).follows(old(self)),
            final(self)@ == (GenV {
                libs: old(self)@.libs.push(LibV { lib: library@, _static }),
                ..old(self)@
            }),
    {
        self.libs.push(IGLib { lib: library, _static });
        assert(libs_view(self.libs@) =~= libs_view(old(self).libs@).push(LibV { lib: library@, _static }));
    }

    /// A generator at the start of the unit whose output goes by `output`,
    /// behind the instructions `ops` with their texts `texts`.
    pub fn new(output: String, ops: Vec<Op>, texts: Vec<String>) -> (c: Self)
        ensures
            c@ == spec_new(ops@, texts_view(texts@), output@),
            c.type_map@ == builtin_types(),
            c.output@ == output@,
    {
        let mut ops = ops;
        ops.push(Op::BeginUnit);
        let ir_file = output.clone().concat(".ll");
        let mut outputs: Vec<String> = Vec::new();
        outputs.push(ir_file);
        let object_file = output.clone().concat(".o");
        let mut objects: Vec<String> = Vec::new();
        objects.push(object_file);
        let c = Self {
            type_map: Self::get_type_map(),
            libs: Vec::new(),
            ops,
            texts,
            insert: None,
            current_scope: IGScope::new(None, None, None, None),
            output,
            outputs,
            objects,
            terminated: false,
        };
        assert(libs_view(c.libs@) =~= Seq::<LibV>::empty());
        assert(texts_view(c.outputs@) =~= seq![output@ + lower::ir_extension()]);
        assert(texts_view(c.objects@) =~= seq![output@ + lower::object_extension()]);
        c
    }
}

/// Whether `r`, which a lowering function returned that found the
/// generator as `before` and left it as `after`, is what the lowering
/// gives as `expected`: on success the state is the expected one and the
/// value the expected value; on failure the error is the expected one.
/// A failure ends the compilation, and the generator then holds what was
/// emitted before it; the functions that fail before they emit anything
/// say of themselves that the generator is as it was.
pub open spec fn lowered(
    before: &Compiler,
    after: &Compiler,
    r: Result<IGValue, CompileError>,
    expected: Lowered<value::IGValueV>,
) -> bool {
    &&& after.follows(before)
    &&& match expected {
        Ok((st, v)) => r is Ok && r->Ok_0@ == v && after@ == st,
        Err(e) => r == Err::<IGValue, CompileError>(e),
    }
}

/// Whether `r`, which a lowering function returned that found the
/// generator as `before` and left it as `after`, is what the lowering
/// gives as `expected`: on success the state is the expected one; on
/// failure the error is the expected one.
pub open spec fn lowered_to(
    before: &Compiler,
    after: &Compiler,
    r: Result<(), CompileError>,
    expected: Result<GenV, CompileError>,
) -> bool {
    &&& after.follows(before)
    &&& match expected {
        Ok(st) => r is Ok && after@ == st,
        Err(e) => r == Err::<(), CompileError>(e),
    }
}

} // verus!
