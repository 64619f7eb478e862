//! Every parse makes progress: where a parsing function of the grammar
//! succeeds, it stops behind its start and inside the stream.

use vstd::prelude::*;
use crate::lexer::{TokenKind, TokenV};
use super::ast::{ExprV, StmtV};
use super::grammar::{
    behind, spec_annotation, spec_arguments, spec_block_items, spec_braced_block, spec_climb, spec_else,
    spec_else_branch, spec_expect, spec_extern_parameter_list, spec_extern_parameters, spec_init_fields,
    spec_initializer, spec_led, spec_member, spec_members, spec_nud, spec_parameter, spec_parameter_list,
    spec_parameters, spec_parse_array_type, spec_parse_arrow_expression,
    spec_parse_assignment_expression, spec_parse_binary_expression, spec_parse_call_expression,
    spec_parse_expression, spec_parse_extern, spec_parse_function_declaration,
    spec_parse_grouped_expression, spec_parse_if, spec_parse_op_equals_expression,
    spec_parse_prefix_expression, spec_parse_ref_type, spec_parse_return, spec_parse_stmt,
    spec_parse_struct_create_expression, spec_parse_struct_declaration, spec_parse_type,
    spec_parse_var_decl, spec_return_type, spec_separator, spec_stated_type, Grammar, MembersV, Parsed,
};
use super::pratt::{BindingPower, LedHandler, NudHandler, StmtHandler, TypeNudHandler};

verus! {

/// Whether the parse `r`, which started at `pos` in a stream of `len`
/// tokens, has read at least one token and none behind the stream, where
/// it succeeded.
pub open spec fn advances<T>(r: Parsed<T>, pos: nat, len: nat) -> bool {
    r matches Ok((_, p)) ==> pos < p <= len
}

/// Whether the parse `r`, which started at `pos` in a stream of `len`
/// tokens, has stopped at or behind its start and inside the stream,
/// where it succeeded.
pub open spec fn stays<T>(r: Parsed<T>, pos: nat, len: nat) -> bool {
    r matches Ok((_, p)) ==> pos <= p <= len
}

/// Where the parse of an expression succeeds, it has read at least one token.
pub proof fn lemma_expression_advances(g: Grammar, ts: Seq<TokenV>, pos: nat, bp: BindingPower)
    ensures
        advances(spec_parse_expression(g, ts, pos, bp), pos, ts.len()),
    decreases ts.len() - pos, 3int,
{
    if pos < ts.len() {
        lemma_nud_advances(g, ts, pos);
        match spec_nud(g, ts, pos) {
            Ok((left, p)) => {
                lemma_climb_stays(g, ts, behind(p, pos, ts.len()), left, bp);
            },
            Err(_) => {},
        }
    }
}

/// Where the parse of a prefix form succeeds, it has read at least one token.
pub proof fn lemma_nud_advances(g: Grammar, ts: Seq<TokenV>, pos: nat)
    ensures
        advances(spec_nud(g, ts, pos), pos, ts.len()),
    decreases ts.len() - pos, 2int,
{
    if pos < ts.len() && g.exprs.nud.dom().contains(ts[pos as int].kind()) {
        match g.exprs.nud[ts[pos as int].kind()] {
            NudHandler::Primary => {},
            NudHandler::Bool => {},
            NudHandler::Grouped => {
                lemma_grouped_advances(g, ts, pos);
            },
            NudHandler::Prefix => {
                lemma_prefix_advances(g, ts, pos);
            },
            NudHandler::StructCreate => {
                lemma_struct_create_advances(g, ts, pos);
            },
        }
    }
}

/// Where the parse of the infix forms behind an expression succeeds, it has stopped at or behind its start.
pub proof fn lemma_climb_stays(g: Grammar, ts: Seq<TokenV>, pos: nat, left: ExprV, bp: BindingPower)
    ensures
        stays(spec_climb(g, ts, pos, left, bp), pos, ts.len()),
    decreases ts.len() - pos, 2int,
{
    if pos < ts.len() {
        let k = ts[pos as int].kind();
        if g.exprs.bp.dom().contains(k) && g.exprs.bp[k].level() > bp.level() && g.exprs.led.dom().contains(k) {
            lemma_led_advances(g, ts, pos, left, bp, g.exprs.led[k]);
            match spec_led(g, ts, pos, left, bp, g.exprs.led[k]) {
                Ok((next, p)) => {
                    lemma_climb_stays(g, ts, behind(p, pos, ts.len()), next, bp);
                },
                Err(_) => {},
            }
        }
    }
}

/// Where the parse of an infix form succeeds, it has read at least one token.
pub proof fn lemma_led_advances(
    g: Grammar,
    ts: Seq<TokenV>,
    pos: nat,
    left: ExprV,
    bp: BindingPower,
    handler: LedHandler,
)
    ensures
        advances(spec_led(g, ts, pos, left, bp, handler), pos, ts.len()),
    decreases ts.len() - pos, 1int,
{
    match handler {
        LedHandler::Binary => {
            lemma_binary_advances(g, ts, pos, left, bp);
        },
        LedHandler::Assignment => {
            lemma_assignment_advances(g, ts, pos, left);
        },
        LedHandler::Arrow => {
            lemma_arrow_advances(g, ts, pos, left);
        },
        LedHandler::Access => {},
        LedHandler::Call => {
            lemma_call_advances(g, ts, pos, left);
        },
        LedHandler::OpEquals => {
            lemma_op_equals_advances(g, ts, pos, left);
        },
    }
}

/// Where the parse of a binary expression succeeds, it has read at least one token.
pub proof fn lemma_binary_advances(g: Grammar, ts: Seq<TokenV>, pos: nat, left: ExprV, bp: BindingPower)
    ensures
        advances(spec_parse_binary_expression(g, ts, pos, left, bp), pos, ts.len()),
    decreases ts.len() - pos, 0int,
{
    if pos < ts.len() {
        lemma_expression_advances(g, ts, pos + 1, super::grammar::operand_power(g, ts[pos as int], bp));
    }
}

/// Where the parse of a grouped expression succeeds, it has read at least one token.
pub proof fn lemma_grouped_advances(g: Grammar, ts: Seq<TokenV>, pos: nat)
    ensures
        advances(spec_parse_grouped_expression(g, ts, pos), pos, ts.len()),
    decreases ts.len() - pos, 0int,
{
    if pos < ts.len() {
        lemma_expression_advances(g, ts, pos + 1, BindingPower::Default);
    }
}

/// Where the parse of an assignment succeeds, it has read at least one token.
pub proof fn lemma_assignment_advances(g: Grammar, ts: Seq<TokenV>, pos: nat, left: ExprV)
    ensures
        advances(spec_parse_assignment_expression(g, ts, pos, left), pos, ts.len()),
    decreases ts.len() - pos, 0int,
{
    if pos < ts.len() {
        lemma_expression_advances(g, ts, pos + 1, BindingPower::Default);
    }
}

/// Where the parse of a prefix expression succeeds, it has read at least one token.
pub proof fn lemma_prefix_advances(g: Grammar, ts: Seq<TokenV>, pos: nat)
    ensures
        advances(spec_parse_prefix_expression(g, ts, pos), pos, ts.len()),
    decreases ts.len() - pos, 0int,
{
    if pos < ts.len() {
        lemma_nud_advances(g, ts, pos + 1);
    }
}

/// Where the parse of a declaration behind an arrow succeeds, it has read at least one token.
pub proof fn lemma_arrow_advances(g: Grammar, ts: Seq<TokenV>, pos: nat, left: ExprV)
    ensures
        advances(spec_parse_arrow_expression(g, ts, pos, left), pos, ts.len()),
    decreases ts.len() - pos, 0int,
{
    match left {
        ExprV::Symbol(name) => {
            if pos < ts.len() && pos + 1 < ts.len() {
                lemma_function_advances(g, ts, pos + 2, name);
                lemma_struct_advances(g, ts, pos + 2, name);
                lemma_extern_advances(g, ts, pos + 2, name);
            }
        },
        _ => {},
    }
}

/// Where the parse of a call succeeds, it has read at least one token.
pub proof fn lemma_call_advances(g: Grammar, ts: Seq<TokenV>, pos: nat, left: ExprV)
    ensures
        advances(spec_parse_call_expression(g, ts, pos, left), pos, ts.len()),
    decreases ts.len() - pos, 0int,
{
    if pos < ts.len() {
        lemma_arguments_stay(g, ts, pos + 1, Seq::empty());
    }
}

/// Where the parse of the arguments of a call succeeds, it has stopped at or behind its start.
pub proof fn lemma_arguments_stay(g: Grammar, ts: Seq<TokenV>, pos: nat, done: Seq<ExprV>)
    requires
        pos <= ts.len(),
    ensures
        stays(spec_arguments(g, ts, pos, done), pos, ts.len()),
    decreases ts.len() - pos, 4int,
{
    if pos < ts.len() {
        lemma_expression_advances(g, ts, pos, BindingPower::Default);
        match spec_parse_expression(g, ts, pos, BindingPower::Default) {
            Ok((arg, p)) => {
                match spec_separator(ts, behind(p, pos, ts.len()), TokenKind::CloseParen) {
                    Ok(p1) => {
                        lemma_arguments_stay(g, ts, p1, done.push(arg));
                    },
                    Err(_) => {},
                }
            },
            Err(_) => {},
        }
    }
}

/// Where the parse of a compound assignment succeeds, it has read at least one token.
pub proof fn lemma_op_equals_advances(g: Grammar, ts: Seq<TokenV>, pos: nat, left: ExprV)
    ensures
        advances(spec_parse_op_equals_expression(g, ts, pos, left), pos, ts.len()),
    decreases ts.len() - pos, 0int,
{
    if pos < ts.len() {
        lemma_expression_advances(g, ts, pos + 1, BindingPower::Default);
    }
}

/// Where the parse of a struct initialiser succeeds, it has read at least one token.
pub proof fn lemma_struct_create_advances(g: Grammar, ts: Seq<TokenV>, pos: nat)
    ensures
        advances(spec_parse_struct_create_expression(g, ts, pos), pos, ts.len()),
    decreases ts.len() - pos, 0int,
{
    if pos + 2 < ts.len() {
        lemma_init_fields_stay(g, ts, pos + 3, Seq::empty());
    }
}

/// Where the parse of the field initialisers of a struct succeeds, it has stopped at or behind its start.
pub proof fn lemma_init_fields_stay(g: Grammar, ts: Seq<TokenV>, pos: nat, done: Seq<StmtV>)
    requires
        pos <= ts.len(),
    ensures
        stays(spec_init_fields(g, ts, pos, done), pos, ts.len()),
    decreases ts.len() - pos, 4int,
{
    if pos + 1 < ts.len() {
        lemma_expression_advances(g, ts, pos + 2, BindingPower::Default);
        match spec_parse_expression(g, ts, pos + 2, BindingPower::Default) {
            Ok((value, p1)) => {
                match spec_separator(ts, behind(p1, pos, ts.len()), TokenKind::CloseCurly) {
                    Ok(p2) => {
                        match ts[pos as int] {
                            TokenV::Identifier(name) => {
                                lemma_init_fields_stay(
                                    g,
                                    ts,
                                    p2,
                                    done.push(StmtV::StructInitField { name, value: Box::new(value) }),
                                );
                            },
                            _ => {},
                        }
                    },
                    Err(_) => {},
                }
            },
            Err(_) => {},
        }
    }
}

/// Where the parse of a type succeeds, it has read at least one token.
pub proof fn lemma_type_advances(g: Grammar, ts: Seq<TokenV>, pos: nat, bp: BindingPower)
    ensures
        advances(spec_parse_type(g, ts, pos, bp), pos, ts.len()),
    decreases ts.len() - pos, 3int,
{
    if pos < ts.len() && g.types.nud.dom().contains(ts[pos as int].kind()) {
        match g.types.nud[ts[pos as int].kind()] {
            TypeNudHandler::Symbol => {},
            TypeNudHandler::Array => {
                lemma_array_type_advances(g, ts, pos);
            },
            TypeNudHandler::Ref => {
                lemma_ref_type_advances(g, ts, pos);
            },
        }
    }
}

/// Where the parse of an array type succeeds, it has read at least one token.
pub proof fn lemma_array_type_advances(g: Grammar, ts: Seq<TokenV>, pos: nat)
    ensures
        advances(spec_parse_array_type(g, ts, pos), pos, ts.len()),
    decreases ts.len() - pos, 0int,
{
    if pos + 1 < ts.len() {
        lemma_type_advances(g, ts, pos + 2, BindingPower::Default);
    }
}

/// Where the parse of a reference type succeeds, it has read at least one token.
pub proof fn lemma_ref_type_advances(g: Grammar, ts: Seq<TokenV>, pos: nat)
    ensures
        advances(spec_parse_ref_type(g, ts, pos), pos, ts.len()),
    decreases ts.len() - pos, 0int,
{
    if pos < ts.len() {
        lemma_type_advances(g, ts, pos + 1, BindingPower::Default);
    }
}

/// Where the parse of the type behind a colon succeeds, it has read at least one token.
pub proof fn lemma_annotation_advances(g: Grammar, ts: Seq<TokenV>, pos: nat)
    ensures
        advances(spec_annotation(g, ts, pos), pos, ts.len()),
    decreases ts.len() - pos, 4int,
{
    if pos < ts.len() {
        lemma_type_advances(g, ts, pos + 1, BindingPower::Default);
    }
}

/// Where the parse of a return type succeeds, it has stopped at or behind its start.
pub proof fn lemma_return_type_stays(g: Grammar, ts: Seq<TokenV>, pos: nat)
    ensures
        stays(spec_return_type(g, ts, pos), pos, ts.len()),
    decreases ts.len() - pos, 4int,
{
    lemma_type_advances(g, ts, pos, BindingPower::Default);
}

/// Where the parse of a statement succeeds, it has read at least one token.
pub proof fn lemma_stmt_advances(g: Grammar, ts: Seq<TokenV>, pos: nat)
    ensures
        advances(spec_parse_stmt(g, ts, pos), pos, ts.len()),
    decreases ts.len() - pos, 4int,
{
    if pos < ts.len() {
        let k = ts[pos as int].kind();
        if g.exprs.stmt.dom().contains(k) {
            match g.exprs.stmt[k] {
                StmtHandler::If => {
                    lemma_if_advances(g, ts, pos);
                },
                StmtHandler::VarDecl => {
                    lemma_var_decl_advances(g, ts, pos);
                },
                StmtHandler::Return => {
                    lemma_return_advances(g, ts, pos);
                },
                StmtHandler::LinkStatic => {},
                StmtHandler::LinkLib => {},
                StmtHandler::Include => {},
            }
        } else {
            lemma_expression_advances(g, ts, pos, BindingPower::Default);
        }
    }
}

/// Where the parse of the statements of a block succeeds, it has stopped at or behind its start.
pub proof fn lemma_block_items_stay(g: Grammar, ts: Seq<TokenV>, pos: nat, done: Seq<StmtV>)
    requires
        pos <= ts.len(),
    ensures
        stays(spec_block_items(g, ts, pos, done), pos, ts.len()),
    decreases ts.len() - pos, 5int,
{
    if pos < ts.len() {
        lemma_stmt_advances(g, ts, pos);
        match spec_parse_stmt(g, ts, pos) {
            Ok((s, p)) => {
                lemma_block_items_stay(g, ts, behind(p, pos, ts.len()), done.push(s));
            },
            Err(_) => {},
        }
    }
}

/// Where the parse of a block in braces succeeds, it has read at least one token.
pub proof fn lemma_braced_block_advances(g: Grammar, ts: Seq<TokenV>, pos: nat)
    ensures
        advances(spec_braced_block(g, ts, pos), pos, ts.len()),
    decreases ts.len() - pos, 6int,
{
    if pos < ts.len() {
        lemma_block_items_stay(g, ts, pos + 1, Seq::empty());
    }
}

/// Where the parse of the branch behind `else` succeeds, it has read at least one token.
pub proof fn lemma_else_branch_advances(g: Grammar, ts: Seq<TokenV>, pos: nat)
    ensures
        advances(spec_else_branch(g, ts, pos), pos, ts.len()),
    decreases ts.len() - pos, 7int,
{
    lemma_if_advances(g, ts, pos);
    lemma_braced_block_advances(g, ts, pos);
}

/// Where the parse of what follows the body of an `if` succeeds, it has stopped at or behind its start.
pub proof fn lemma_else_stays(g: Grammar, ts: Seq<TokenV>, pos: nat)
    ensures
        stays(spec_else(g, ts, pos), pos, ts.len()),
    decreases ts.len() - pos, 8int,
{
    if pos < ts.len() {
        lemma_else_branch_advances(g, ts, pos + 1);
    }
}

/// Where the parse of an `if` succeeds, it has read at least one token.
pub proof fn lemma_if_advances(g: Grammar, ts: Seq<TokenV>, pos: nat)
    ensures
        advances(spec_parse_if(g, ts, pos), pos, ts.len()),
    decreases ts.len() - pos, 0int,
{
    if pos < ts.len() {
        lemma_expression_advances(g, ts, pos + 1, BindingPower::Default);
        match spec_parse_expression(g, ts, pos + 1, BindingPower::Default) {
            Ok((condition, p)) => {
                lemma_braced_block_advances(g, ts, behind(p, pos, ts.len()));
                match spec_braced_block(g, ts, behind(p, pos, ts.len())) {
                    Ok((body, p1)) => {
                        lemma_else_stays(g, ts, behind(p1, pos, ts.len()));
                    },
                    Err(_) => {},
                }
            },
            Err(_) => {},
        }
    }
}

/// Where the parse of a parameter succeeds, it has read at least one token.
pub proof fn lemma_parameter_advances(g: Grammar, ts: Seq<TokenV>, pos: nat)
    ensures
        advances(spec_parameter(g, ts, pos), pos, ts.len()),
    decreases ts.len() - pos, 5int,
{
    if pos < ts.len() {
        lemma_annotation_advances(g, ts, pos + 1);
    }
}

/// Where the parse of the parameters of a function succeeds, it has stopped at or behind its start.
pub proof fn lemma_parameters_stay(g: Grammar, ts: Seq<TokenV>, pos: nat, done: Seq<StmtV>)
    requires
        pos <= ts.len(),
    ensures
        stays(spec_parameters(g, ts, pos, done), pos, ts.len()),
    decreases ts.len() - pos, 6int,
{
    if pos < ts.len() {
        lemma_parameter_advances(g, ts, pos);
        match spec_parameter(g, ts, pos) {
            Ok((param, p)) => {
                match spec_separator(ts, behind(p, pos, ts.len()), TokenKind::CloseParen) {
                    Ok(p1) => {
                        lemma_parameters_stay(g, ts, p1, done.push(param));
                    },
                    Err(_) => {},
                }
            },
            Err(_) => {},
        }
    }
}

/// Where the parse of a list of parameters in parentheses succeeds, it has read at least one token.
pub proof fn lemma_parameter_list_advances(g: Grammar, ts: Seq<TokenV>, pos: nat)
    ensures
        advances(spec_parameter_list(g, ts, pos), pos, ts.len()),
    decreases ts.len() - pos, 7int,
{
    if pos < ts.len() {
        lemma_parameters_stay(g, ts, pos + 1, Seq::empty());
    }
}

/// Where the parse of a function succeeds, it has read at least one token.
pub proof fn lemma_function_advances(g: Grammar, ts: Seq<TokenV>, pos: nat, name: Seq<char>)
    ensures
        advances(spec_parse_function_declaration(g, ts, pos, name), pos, ts.len()),
    decreases ts.len() - pos, 8int,
{
    lemma_parameter_list_advances(g, ts, pos);
    match spec_parameter_list(g, ts, pos) {
        Ok((arguments, p)) => {
            lemma_return_type_stays(g, ts, behind(p, pos, ts.len()));
            match spec_return_type(g, ts, behind(p, pos, ts.len())) {
                Ok((return_type, p1)) => {
                    lemma_braced_block_advances(g, ts, behind(p1, pos, ts.len()));
                },
                Err(_) => {},
            }
        },
        Err(_) => {},
    }
}

/// Where the parse of a member of a struct succeeds, it has read at least one token.
pub proof fn lemma_member_advances(g: Grammar, ts: Seq<TokenV>, pos: nat)
    ensures
        advances(spec_member(g, ts, pos), pos, ts.len()),
    decreases ts.len() - pos, 9int,
{
    if pos + 1 < ts.len() {
        match ts[pos as int] {
            TokenV::Identifier(member) => {
                if pos + 2 < ts.len() {
                    lemma_function_advances(g, ts, pos + 3, member);
                }
                lemma_annotation_advances(g, ts, pos + 1);
            },
            _ => {},
        }
    }
}

/// Where the parse of the members of a struct succeeds, it has stopped at or behind its start.
pub proof fn lemma_members_stay(g: Grammar, ts: Seq<TokenV>, pos: nat, done: MembersV)
    requires
        pos <= ts.len(),
    ensures
        stays(spec_members(g, ts, pos, done), pos, ts.len()),
    decreases ts.len() - pos, 10int,
{
    if pos < ts.len() {
        lemma_member_advances(g, ts, pos);
        match spec_member(g, ts, pos) {
            Ok((m, p)) => {
                lemma_members_stay(g, ts, behind(p, pos, ts.len()), done.with(m));
            },
            Err(_) => {},
        }
    }
}

/// Where the parse of a struct succeeds, it has read at least one token.
pub proof fn lemma_struct_advances(g: Grammar, ts: Seq<TokenV>, pos: nat, name: Seq<char>)
    ensures
        advances(spec_parse_struct_declaration(g, ts, pos, name), pos, ts.len()),
    decreases ts.len() - pos, 11int,
{
    if pos < ts.len() {
        lemma_members_stay(g, ts, pos + 1, MembersV { fields: Seq::empty(), functions: Seq::empty() });
    }
}

/// Where the parse of the initialiser of a variable succeeds, it has read at least one token.
pub proof fn lemma_initializer_advances(g: Grammar, ts: Seq<TokenV>, pos: nat)
    ensures
        advances(spec_initializer(g, ts, pos), pos, ts.len()),
    decreases ts.len() - pos, 4int,
{
    if pos < ts.len() {
        lemma_expression_advances(g, ts, pos + 1, BindingPower::Default);
    }
}

/// Where the parse of the stated type of a variable succeeds, it has stopped at or behind its start.
pub proof fn lemma_stated_type_stays(g: Grammar, ts: Seq<TokenV>, pos: nat)
    ensures
        stays(spec_stated_type(g, ts, pos), pos, ts.len()),
    decreases ts.len() - pos, 4int,
{
    if pos < ts.len() {
        lemma_type_advances(g, ts, pos + 1, BindingPower::Default);
    }
}

/// Where the parse of the declaration of a variable succeeds, it has read at least one token.
pub proof fn lemma_var_decl_advances(g: Grammar, ts: Seq<TokenV>, pos: nat)
    ensures
        advances(spec_parse_var_decl(g, ts, pos), pos, ts.len()),
    decreases ts.len() - pos, 0int,
{
    if pos + 1 < ts.len() {
        lemma_stated_type_stays(g, ts, pos + 2);
        match spec_stated_type(g, ts, pos + 2) {
            Ok((explicit_type, p)) => {
                lemma_initializer_advances(g, ts, behind(p, pos, ts.len()));
            },
            Err(_) => {},
        }
    }
}

/// Where the parse of the parameters of an external function succeeds, it has stopped at or behind its start.
pub proof fn lemma_extern_parameters_stay(g: Grammar, ts: Seq<TokenV>, pos: nat, done: Seq<StmtV>)
    requires
        pos <= ts.len(),
    ensures
        stays(spec_extern_parameters(g, ts, pos, done), pos, ts.len()),
    decreases ts.len() - pos, 6int,
{
    if pos < ts.len() {
        match ts[pos as int] {
            TokenV::Identifier(name) => {
                lemma_annotation_advances(g, ts, pos + 1);
                match spec_annotation(g, ts, pos + 1) {
                    Ok((t, p)) => {
                        match spec_separator(ts, behind(p, pos, ts.len()), TokenKind::CloseParen) {
                            Ok(p1) => {
                                lemma_extern_parameters_stay(
                                    g,
                                    ts,
                                    p1,
                                    done.push(super::grammar::field(name, t)),
                                );
                            },
                            Err(_) => {},
                        }
                    },
                    Err(_) => {},
                }
            },
            _ => {},
        }
    }
}

/// Where the parse of the parameters of an external function in parentheses succeeds, it has read at least one token.
pub proof fn lemma_extern_parameter_list_advances(g: Grammar, ts: Seq<TokenV>, pos: nat)
    ensures
        advances(spec_extern_parameter_list(g, ts, pos), pos, ts.len()),
    decreases ts.len() - pos, 7int,
{
    if pos < ts.len() {
        lemma_extern_parameters_stay(g, ts, pos + 1, Seq::empty());
    }
}

/// Where the parse of the declaration of an external function succeeds, it has read at least one token.
pub proof fn lemma_extern_advances(g: Grammar, ts: Seq<TokenV>, pos: nat, name: Seq<char>)
    ensures
        advances(spec_parse_extern(g, ts, pos, name), pos, ts.len()),
    decreases ts.len() - pos, 8int,
{
    match super::grammar::spec_linked_symbol(ts, pos, name) {
        Ok((symbol, p)) => {
            lemma_extern_parameter_list_advances(g, ts, p);
            match spec_extern_parameter_list(g, ts, p) {
                Ok((arguments, p1)) => {
                    lemma_return_type_stays(g, ts, p1);
                },
                Err(_) => {},
            }
        },
        Err(_) => {},
    }
}

/// Where the parse of a `return` succeeds, it has read at least one token.
pub proof fn lemma_return_advances(g: Grammar, ts: Seq<TokenV>, pos: nat)
    ensures
        advances(spec_parse_return(g, ts, pos), pos, ts.len()),
    decreases ts.len() - pos, 0int,
{
    if pos < ts.len() {
        lemma_expression_advances(g, ts, pos + 1, BindingPower::Default);
    }
}

} // verus!
