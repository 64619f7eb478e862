//! The compilation of a unit, the splicing in of another, and what is
//! left to do once the modules are printed.

use vstd::prelude::*;
use crate::lexer::Token;
use crate::parser::ast::Stmt;

use crate::parser::Parser;
use super::ir::{IrValue, Name, Op, TypeKind};
use super::lower::{
    builtin_types, spec_compile_unit, spec_emit_command, spec_emit_commands, spec_find_source,
    spec_lib_flag, spec_link_command, spec_plan, spec_splice, spec_splice_fields, spec_splice_symbol, spec_splice_symbols,
    spec_visit_include, CommandV, CompileError, Env, LibV, PlanV,
};
use super::lower::{spec_first_hit, spec_flat_name, spec_includes_of, spec_includes_of_items};
use crate::parser::ast::{lemma_stmts_view, stmts_view};

use super::value::IGValue;
use super::{
    lemma_sources_view, libs_view, lowered_to, source_view, sources_view, texts_view, Compiler, IGLib,
    Source,
};

verus! {

/// A program to run, with its arguments.
#[derive(Debug, PartialEq)]
pub struct Command {
    pub program: String,
    pub args: Vec<String>,
}

impl View for Command {
    type V = CommandV;

    open spec fn view(&self) -> CommandV {
        CommandV { program: self.program@, args: texts_view(self.args@) }
    }
}

/// The commands of `commands`, in order.
pub open spec fn commands_view(commands: Seq<Command>) -> Seq<CommandV> {
    Seq::new(commands.len(), |i: int| commands[i]@)
}

/// What is left to do once a compilation has printed its modules.
#[derive(Debug, PartialEq)]
pub struct Plan {
    pub emit: Vec<Command>,
    pub link: Option<Command>,
    pub remove: Vec<String>,
}

impl View for Plan {
    type V = PlanV;

    open spec fn view(&self) -> PlanV {
        PlanV {
            emit: commands_view(self.emit@),
            link: match self.link {
                Some(c) => Some(c@),
                None => None,
            },
            remove: texts_view(self.remove@),
        }
    }
}

/// A copy of `tokens`.
pub fn clone_tokens(tokens: &Vec<Token>) -> (r: Vec<Token>)
    ensures
        r.deep_view() == tokens.deep_view(),
{
    let mut r: Vec<Token> = Vec::new();
    let mut i: usize = 0;
    while i < tokens.len()
        invariant
            i <= tokens@.len(),
            r@.len() == i,
            forall|k: int| 0 <= k < i ==> #[trigger] r@[k] == tokens@[k],
        decreases tokens@.len() - i,
    {
        r.push(tokens[i].clone());
        i += 1;
    }
    assert(r.deep_view() =~= tokens.deep_view());
    r
}

/// A copy of `texts`.
pub fn clone_texts(texts: &Vec<String>) -> (r: Vec<String>)
    ensures
        texts_view(r@) == texts_view(texts@),
{
    let mut r: Vec<String> = Vec::new();
    let mut i: usize = 0;
    while i < texts.len()
        invariant
            i <= texts@.len(),
            r@.len() == i,
            forall|k: int| 0 <= k < i ==> #[trigger] r@[k] == texts@[k],
        decreases texts@.len() - i,
    {
        r.push(texts[i].clone());
        i += 1;
    }
    assert(texts_view(r@) =~= texts_view(texts@));
    r
}

/// The index of the first of `sources` that the including file names
/// by `path`.
pub fn find_source(sources: &Vec<Source>, path: &String) -> (r: Option<usize>)
    ensures
        match r {
            Some(i) => spec_find_source(sources_view(sources@), path@, 0) == Some(i as nat) && i < sources@.len(),
            None => spec_find_source(sources_view(sources@), path@, 0) is None,
        },
{
    let ghost items = sources_view(sources@);
    proof {
        lemma_sources_view(sources@);
    }
    let mut i: usize = 0;
    while i < sources.len()
        invariant
            i <= sources@.len(),
            items == sources_view(sources@),
            items.len() == sources@.len(),
            forall|k: int| 0 <= k < items.len() ==> #[trigger] items[k] == source_view(sources@[k]),
            spec_find_source(items, path@, 0) == spec_find_source(items, path@, i as nat),
        decreases sources@.len() - i,
    {
        assert(items[i as int] == source_view(sources@[i as int]));
        if sources[i].path == *path {
            return Some(i);
        }
        i += 1;
    }
    None
}

/// The paths of the files that the lowering of `stmt` splices in, in the
/// order in which it meets them.
pub fn includes_of(stmt: &Stmt) -> (paths: Vec<String>)
    ensures
        texts_view(paths@) == spec_includes_of(stmt.deep_view()),
    decreases stmt, 0nat,
{
    match stmt {
        Stmt::Include { path } => {
            let mut paths: Vec<String> = Vec::new();
            paths.push(path.clone());
            assert(texts_view(paths@) =~= seq![path@]);
            paths
        },
        Stmt::Block(items) => {
            let ghost all = stmts_view(items@);
            proof {
                lemma_stmts_view(items@);
            }
            let mut paths: Vec<String> = Vec::new();
            assert(texts_view(paths@) =~= Seq::<Seq<char>>::empty());
            let mut i: usize = 0;
            while i < items.len()
                invariant
                    i <= items@.len(),
                    all == stmts_view(items@),
                    all.len() == items@.len(),
                    decreases_to!(stmt => items),
                    forall|k: int| 0 <= k < all.len() ==> #[trigger] all[k] == items@[k].deep_view(),
                    spec_includes_of_items(all, 0) == texts_view(paths@) + spec_includes_of_items(all, i as nat),
                decreases items@.len() - i,
            {
                assert(all[i as int] == items@[i as int].deep_view());
                assert(decreases_to!(items => items[i as int]));
                let mut more = includes_of(&items[i]);
                proof {
                    assert(texts_view(paths@ + more@) =~= texts_view(paths@) + texts_view(more@));
                    assert((texts_view(paths@) + texts_view(more@)) + spec_includes_of_items(all, (i + 1) as nat)
                        =~= texts_view(paths@) + (texts_view(more@) + spec_includes_of_items(
                        all,
                        (i + 1) as nat,
                    )));
                }
                paths.append(&mut more);
                i += 1;
            }
            assert(texts_view(paths@) + Seq::<Seq<char>>::empty() =~= texts_view(paths@));
            paths
        },
        Stmt::FunctionDeclaration { name, return_type, arguments, body } => includes_of(body),
        Stmt::While { condition, body } => includes_of(body),
        _ => {
            let paths: Vec<String> = Vec::new();
            assert(texts_view(paths@) =~= Seq::<Seq<char>>::empty());
            paths
        },
    }
}

/// The directories in which a file that is to be spliced in is looked
/// for, once the path itself names no file: the directory of the
/// including file first, then the directories that were configured, in
/// their order.
pub fn search_dirs(cwd: &String, include_paths: &Vec<String>) -> (dirs: Vec<String>)
    ensures
        texts_view(dirs@) == seq![cwd@] + texts_view(include_paths@),
{
    let mut dirs: Vec<String> = Vec::new();
    dirs.push(cwd.clone());
    let ghost all = texts_view(include_paths@);
    let mut i: usize = 0;
    while i < include_paths.len()
        invariant
            i <= include_paths@.len(),
            all == texts_view(include_paths@),
            texts_view(dirs@) == seq![cwd@] + all.subrange(0, i as int),
        decreases include_paths@.len() - i,
    {
        let dir = include_paths[i].clone();
        proof {
            assert(texts_view(dirs@.push(dir)) =~= texts_view(dirs@).push(dir@));
            assert((seq![cwd@] + all.subrange(0, i as int)).push(all[i as int]) =~= seq![cwd@] + all.subrange(
                0,
                i + 1,
            ));
        }
        dirs.push(dir);
        i += 1;
    }
    assert(all.subrange(0, include_paths@.len() as int) =~= all);
    dirs
}

/// The path of the file to splice in: the first of the candidates that
/// exists, where `exists` tells of each candidate whether it does.
pub fn get_include_path(candidates: &Vec<String>, exists: &Vec<bool>) -> (r: Result<String, CompileError>)
    ensures
        match spec_first_hit(exists@, 0) {
            Some(i) => if i < candidates@.len() {
                r is Ok && r->Ok_0@ == candidates@[i as int]@
            } else {
                r == Err::<String, CompileError>(CompileError::IncludeNotFound)
            },
            None => r == Err::<String, CompileError>(CompileError::IncludeNotFound),
        },
{
    let mut i: usize = 0;
    while i < exists.len()
        invariant
            i <= exists@.len(),
            spec_first_hit(exists@, 0) == spec_first_hit(exists@, i as nat),
        decreases exists@.len() - i,
    {
        if exists[i] {
            if i < candidates.len() {
                return Ok(candidates[i].clone());
            } else {
                return Err(CompileError::IncludeNotFound);
            }
        }
        i += 1;
    }
    Err(CompileError::IncludeNotFound)
}

/// `str::replace` of the standard library, from one character to one
/// character: every occurrence of `from` becomes `to`, and every other
/// character stays.
#[verifier::external_body]
fn replace_char(s: &String, from: char, to: char) -> (r: String)
    ensures
        r@ == s@.map_values(|c: char| if c == from { to } else { c }),
{
    s.replace(from, to.encode_utf8(&mut [0; 4]))
}

/// The path `path` as one file name: every separator of directories is
/// an underscore. The output of a spliced file goes by this name.
pub fn flat_name(path: &String) -> (name: String)
    ensures
        name@ == spec_flat_name(path@),
{
    let a = replace_char(path, '\\', '_');
    let b = replace_char(&a, '/', '_');
    assert(b@ =~= spec_flat_name(path@));
    b
}

/// How the linker is told of the library `lib`.
pub fn lib_flag(lib: &IGLib) -> (flag: String)
    ensures
        flag@ == spec_lib_flag(lib@),
{
    if lib._static {
        lib.lib.clone()
    } else {
        String::from_str("-l").concat(lib.lib.as_str())
    }
}

/// The command that makes the object file `object` of the module printed
/// to `ir`.
pub fn emit_command(ir: &String, object: &String) -> (c: Command)
    ensures
        c@ == spec_emit_command(ir@, object@),
{
    let mut args: Vec<String> = Vec::new();
    args.push(String::from_str("--filetype=obj"));
    args.push(ir.clone());
    args.push(String::from_str("-o"));
    args.push(object.clone());
    let c = Command { program: String::from_str("llc"), args };
    assert(c@.args =~= spec_emit_command(ir@, object@).args);
    c
}

/// The command that links the object files `objects` and the libraries
/// `libs` to the program `output`.
pub fn link_command(output: &String, objects: &Vec<String>, libs: &Vec<IGLib>) -> (c: Command)
    ensures
        c@ == spec_link_command(output@, texts_view(objects@), libs_view(libs@)),
{
    let mut args: Vec<String> = Vec::new();
    args.push(String::from_str("-o"));
    args.push(output.clone());
    args.push(String::from_str("-no-pie"));
    let ghost head = texts_view(args@);
    assert(head =~= seq!["-o"@, output@, "-no-pie"@]);
    let ghost objs = texts_view(objects@);
    let mut i: usize = 0;
    while i < objects.len()
        invariant
            i <= objects@.len(),
            objs == texts_view(objects@),
            texts_view(args@) == head + objs.subrange(0, i as int),
        decreases objects@.len() - i,
    {
        let item = objects[i].clone();
        proof {
            assert(texts_view(args@.push(item)) =~= texts_view(args@).push(item@));
            assert((head + objs.subrange(0, i as int)).push(objs[i as int]) =~= head + objs.subrange(
                0,
                i + 1,
            ));
        }
        args.push(item);
        i += 1;
    }
    let ghost middle = texts_view(args@);
    assert(objs.subrange(0, objects@.len() as int) =~= objs);
    let ghost flags = libs_view(libs@).map_values(|l: LibV| spec_lib_flag(l));
    let mut k: usize = 0;
    while k < libs.len()
        invariant
            k <= libs@.len(),
            flags == libs_view(libs@).map_values(|l: LibV| spec_lib_flag(l)),
            texts_view(args@) == middle + flags.subrange(0, k as int),
        decreases libs@.len() - k,
    {
        let flag = lib_flag(&libs[k]);
        proof {
            assert(texts_view(args@.push(flag)) =~= texts_view(args@).push(flag@));
            assert((middle + flags.subrange(0, k as int)).push(flags[k as int]) =~= middle + flags.subrange(
                0,
                k + 1,
            ));
        }
        args.push(flag);
        k += 1;
    }
    assert(flags.subrange(0, libs@.len() as int) =~= flags);
    let c = Command { program: String::from_str("gcc"), args };
    assert(c@.args =~= spec_link_command(output@, texts_view(objects@), libs_view(libs@)).args);
    c
}

/// The parts of `a` from `i` on are those that the commands are made of.
proof fn lemma_emit_commands_step(outputs: Seq<Seq<char>>, objects: Seq<Seq<char>>, i: nat)
    requires
        i < outputs.len(),
        i < objects.len(),
    ensures
        spec_emit_commands(outputs, objects, i) == seq![
            spec_emit_command(outputs[i as int], objects[i as int]),
        ] + spec_emit_commands(outputs, objects, i + 1),
{
}

impl Compiler {
    /// Splices in the binding of `name` to `value` in a module that was
    /// compiled apart, where the binding is public.
    pub fn splice_symbol(&mut self, name: &String, value: &IGValue)
        ensures
            final(self).follows(old(self)),
            final(self)@ == spec_splice_symbol(old(self)@, name@, value@),
    {
        if !value.public {
            return ;
        }
        if value.value.kind() == TypeKind::Pointer {
            let id = self.emit(Op::AddFunction { name: Name::OfValue(value.value), ty: value._type });
            self.define(
                name.clone(),
                IGValue {
                    value: IrValue::Inst { id, kind: TypeKind::Pointer },
                    _type: value._type,
                    mutable: false,
                    public: false,
                    parent: None,
                },
            );
        } else {
            self.define(
                name.clone(),
                IGValue { value: value.value, _type: value._type, mutable: false, public: false, parent: None },
            );
        }
    }

    /// Splices in the public bindings among `symbols`, the bindings of a
    /// module that was compiled apart.
    pub fn splice_symbols(&mut self, symbols: &super::scope::NameTable<IGValue>)
        ensures
            final(self).follows(old(self)),
            final(self)@ == spec_splice_symbols(old(self)@, symbols@, 0),
    {
        let mut i: usize = 0;
        while i < symbols.len()
            invariant
                i <= symbols@.len(),
                self.follows(old(self)),
                spec_splice_symbols(old(self)@, symbols@, 0) == spec_splice_symbols(self@, symbols@, i as nat),
            decreases symbols@.len() - i,
        {
            self.splice_symbol(symbols.name_at(i), symbols.value_at(i));
            i += 1;
        }
    }

    /// Takes over the field offsets `fields` of a module that was
    /// compiled apart.
    pub fn splice_fields(&mut self, fields: &super::scope::NameTable<usize>)
        ensures
            final(self).follows(old(self)),
            final(self)@ == old(self)@.with_scope(spec_splice_fields(old(self)@.scope, fields@, 0)),
    {
        let mut i: usize = 0;
        while i < fields.len()
            invariant
                i <= fields@.len(),
                self.follows(old(self)),
                self@ == old(self)@.with_scope(self@.scope),
                spec_splice_fields(old(self)@.scope, fields@, 0) == spec_splice_fields(
                    self@.scope,
                    fields@,
                    i as nat,
                ),
            decreases fields@.len() - i,
        {
            self.define_field(fields.name_at(i).clone(), *fields.value_at(i));
            i += 1;
        }
    }

    /// Splices in the module `sub`, which was compiled apart behind the
    /// instructions of this generator.
    pub fn splice(&mut self, sub: Compiler)
        ensures
            final(self).follows(old(self)),
            final(self)@ == spec_splice(old(self)@, sub@),
    {
        let Compiler { type_map, libs, ops, texts, insert, current_scope, output, outputs, objects, terminated } =
            sub;
        self.ops = ops;
        self.texts = texts;
        self.splice_symbols(&current_scope.symbols);
        self.splice_fields(&current_scope.fields);
        let ghost before = self@;
        let mut libs = libs;
        let mut outputs = outputs;
        let mut objects = objects;
        self.libs.append(&mut libs);
        self.outputs.append(&mut outputs);
        self.objects.append(&mut objects);
        assert(libs_view(self.libs@) =~= before.libs + sub@.libs);
        assert(texts_view(self.outputs@) =~= before.outputs + sub@.outputs);
        assert(texts_view(self.objects@) =~= before.objects + sub@.objects);
    }

    /// Compiles the unit `ast`, whose output goes by `output`, behind the
    /// instructions `ops` with their texts `texts`.
    pub fn compile_unit(output: String, ast: &Stmt, sources: &Vec<Source>, ops: Vec<Op>, texts: Vec<String>) -> (r:
        Result<Compiler, CompileError>)
        ensures
            match spec_compile_unit(
                Env { types: builtin_types(), sources: sources_view(sources@) },
                ops@,
                texts_view(texts@),
                output@,
                ast.deep_view(),
            ) {
                Ok(st) => r is Ok && r->Ok_0@ == st && r->Ok_0.output@ == output@ && r->Ok_0.type_map@
                    == builtin_types(),
                Err(e) => r is Err && r->Err_0 == e,
            },
        decreases sources, ast, 0nat, 9nat,
    {
        proof {
            reveal_strlit(".ll");
        }
        let mut compiler = Self::new(output, ops, texts);
        match compiler.visit_block(sources, ast) {
            Ok(_) => {},
            Err(e) => {
                return Err(e);
            },
        }
        let path = compiler.intern(compiler.output.clone().concat(".ll"));
        compiler.emit(Op::WriteIr { path });
        Ok(compiler)
    }

    /// Compiles another source file apart and splices it in.
    pub fn visit_include(&mut self, sources: &Vec<Source>, stmt: &Stmt) -> (r: Result<(), CompileError>)
        ensures
            stmt.deep_view() is Include && spec_find_source(
                sources_view(sources@),
                stmt.deep_view()->Include_path,
                0,
            ) is None ==> final(self)@ == old(self)@,
            lowered_to(
                old(self),
                final(self),
                r,
                spec_visit_include(old(self).env(sources), old(self)@, stmt.deep_view()),
            ),
        decreases sources, stmt, 0nat, 4nat,
    {
        match stmt {
            Stmt::Include { path } => {
                let i = match find_source(sources, path) {
                    Some(i) => i,
                    None => {
                        return Err(CompileError::IncludeNotFound);
                    },
                };
                proof {
                    lemma_sources_view(sources@);
                }
                let source = &sources[i];
                assert(sources_view(sources@)[i as int] == source_view(*source));
                let ast = match Parser::parse(clone_tokens(&source.tokens)) {
                    Ok(ast) => ast,
                    Err(e) => {
                        return Err(CompileError::Parse(e));
                    },
                };
                let mut ops: Vec<Op> = Vec::new();
                core::mem::swap(&mut ops, &mut self.ops);
                let mut texts: Vec<String> = Vec::new();
                core::mem::swap(&mut texts, &mut self.texts);
                let sub = match Self::compile_unit(source.output.clone(), &ast, &source.includes, ops, texts) {
                    Ok(c) => c,
                    Err(e) => {
                        return Err(e);
                    },
                };
                self.splice(sub);
                Ok(())
            },
            _ => Err(CompileError::UnexpectedNode),
        }
    }

    /// The commands that make an object file of each module.
    pub fn emit_commands(&self) -> (r: Vec<Command>)
        ensures
            commands_view(r@) == spec_emit_commands(self@.outputs, self@.objects, 0),
    {
        let mut commands: Vec<Command> = Vec::new();
        let ghost all = spec_emit_commands(self@.outputs, self@.objects, 0);
        let mut i: usize = 0;
        while i < self.outputs.len() && i < self.objects.len()
            invariant
                i <= self.outputs@.len(),
                i <= self.objects@.len(),
                all == commands_view(commands@) + spec_emit_commands(self@.outputs, self@.objects, i as nat),
            decreases self.outputs@.len() - i,
        {
            let c = emit_command(&self.outputs[i], &self.objects[i]);
            proof {
                lemma_emit_commands_step(self@.outputs, self@.objects, i as nat);
                assert(commands_view(commands@.push(c)) =~= commands_view(commands@) + seq![c@]);
                assert(commands_view(commands@.push(c)) + spec_emit_commands(
                    self@.outputs,
                    self@.objects,
                    (i + 1) as nat,
                ) =~= all);
            }
            commands.push(c);
            i += 1;
        }
        assert(commands_view(commands@) + Seq::<CommandV>::empty() =~= commands_view(commands@));
        commands
    }

    /// What is left to do once the modules are printed: nothing for a
    /// unit that is spliced into another.
    pub fn plan(&self, inside: bool) -> (p: Plan)
        ensures
            p@ == spec_plan(self@, self.output@, inside),
    {
        if inside {
            let p = Plan { emit: Vec::new(), link: None, remove: Vec::new() };
            assert(commands_view(p.emit@) =~= Seq::<CommandV>::empty());
            assert(texts_view(p.remove@) =~= Seq::<Seq<char>>::empty());
            p
        } else {
            Plan {
                emit: self.emit_commands(),
                link: Some(link_command(&self.output, &self.objects, &self.libs)),
                remove: clone_texts(&self.objects),
            }
        }
    }

    /// Compiles the program `ast`, whose output goes by `output` and which
    /// may splice in `sources`. Gives the generator as the compilation
    /// leaves it, and what is left to do; for a unit that is spliced into
    /// another (`inside`), nothing is left to do.
    pub fn compile(output: String, ast: Stmt, sources: &Vec<Source>, inside: bool) -> (r: Result<
        (Compiler, Plan),
        CompileError,
    >)
        ensures
            match spec_compile_unit(
                Env { types: builtin_types(), sources: sources_view(sources@) },
                Seq::empty(),
                Seq::empty(),
                output@,
                ast.deep_view(),
            ) {
                Ok(st) => r is Ok && r->Ok_0.0@ == st && r->Ok_0.0.output@ == output@ && r->Ok_0.0.type_map@
                    == builtin_types() && r->Ok_0.1@ == spec_plan(st, output@, inside),
                Err(e) => r is Err && r->Err_0 == e,
            },
    {
        let ops: Vec<Op> = Vec::new();
        let texts: Vec<String> = Vec::new();
        assert(texts_view(texts@) =~= Seq::<Seq<char>>::empty());
        let compiler = match Self::compile_unit(output, &ast, sources, ops, texts) {
            Ok(c) => c,
            Err(e) => {
                return Err(e);
            },
        };
        let plan = compiler.plan(inside);
        Ok((compiler, plan))
    }
}

} // verus!
