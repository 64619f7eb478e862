//! Binding powers, the names of the handlers, and the registries of a
//! Pratt parser.

use vstd::prelude::*;
use crate::lexer::{Token, TokenKind};
use super::lookup::LookupTable;

verus! {

/// How strongly a token binds, from the weakest to the strongest.
#[derive(Clone, Copy, PartialEq, Eq, Structural, Debug)]
pub enum BindingPower {
    Default,
    Comma,
    Assignment,
    Logical,
    Relational,
    Additive,
    Multiplicative,
    Unary,
    Call,
    Member,
    Primary,
}

impl BindingPower {
    /// The place of this power in the order: 0 for `Default`, 10 for `Primary`.
    pub open spec fn spec_level(self) -> usize {
        match self {
            BindingPower::Default => 0,
            BindingPower::Comma => 1,
            BindingPower::Assignment => 2,
            BindingPower::Logical => 3,
            BindingPower::Relational => 4,
            BindingPower::Additive => 5,
            BindingPower::Multiplicative => 6,
            BindingPower::Unary => 7,
            BindingPower::Call => 8,
            BindingPower::Member => 9,
            BindingPower::Primary => 10,
        }
    }

    #[verifier::when_used_as_spec(spec_level)]
    pub fn level(self) -> (n: usize)
        ensures
            n == self.spec_level(),
    {
        match self {
            BindingPower::Default => 0,
            BindingPower::Comma => 1,
            BindingPower::Assignment => 2,
            BindingPower::Logical => 3,
            BindingPower::Relational => 4,
            BindingPower::Additive => 5,
            BindingPower::Multiplicative => 6,
            BindingPower::Unary => 7,
            BindingPower::Call => 8,
            BindingPower::Member => 9,
            BindingPower::Primary => 10,
        }
    }
}

/// The order of binding powers is strict: two powers of one level are equal.
pub proof fn lemma_levels_strict(a: BindingPower, b: BindingPower)
    ensures
        a.level() == b.level() <==> a == b,
{
}

/// The names of the prefix handlers of expressions.
#[derive(Clone, Copy, PartialEq, Eq, Structural, Debug)]
pub enum NudHandler {
    Primary,
    Bool,
    Grouped,
    Prefix,
    StructCreate,
}

/// The names of the infix handlers of expressions.
#[derive(Clone, Copy, PartialEq, Eq, Structural, Debug)]
pub enum LedHandler {
    Binary,
    Assignment,
    Arrow,
    Access,
    Call,
    OpEquals,
}

/// The names of the statement handlers.
#[derive(Clone, Copy, PartialEq, Eq, Structural, Debug)]
pub enum StmtHandler {
    If,
    VarDecl,
    Return,
    LinkStatic,
    LinkLib,
    Include,
}

/// The names of the prefix handlers of types.
#[derive(Clone, Copy, PartialEq, Eq, Structural, Debug)]
pub enum TypeNudHandler {
    Symbol,
    Array,
    Ref,
}

/// The infix handlers of types. The language has no infix form of a type,
/// so nothing is ever registered under this name: it stands for a
/// continuation that cannot be parsed.
#[derive(Clone, Copy, PartialEq, Eq, Structural, Debug)]
pub enum TypeLedHandler {
    Unsupported,
}

/// The four registries of a grammar, as maps from token kind.
pub struct PrattV<N, L, S> {
    pub bp: Map<TokenKind, BindingPower>,
    pub nud: Map<TokenKind, N>,
    pub led: Map<TokenKind, L>,
    pub stmt: Map<TokenKind, S>,
}

/// The registries of a Pratt parser: for each token kind a binding power,
/// a prefix handler, an infix handler and a statement handler, each of
/// them optional. `N`, `L` and `S` are the types that name the handlers.
pub struct PrattLookups<N, L, S> {
    bp_lu: LookupTable<BindingPower>,
    nud_lu: LookupTable<N>,
    led_lu: LookupTable<L>,
    stmt_lu: LookupTable<S>,
}

impl<N, L, S> PrattLookups<N, L, S> {
    pub closed spec fn view(&self) -> PrattV<N, L, S> {
        PrattV { bp: self.bp_lu@, nud: self.nud_lu@, led: self.led_lu@, stmt: self.stmt_lu@ }
    }

    pub fn new() -> (t: Self)
        ensures
            t@.bp == Map::<TokenKind, BindingPower>::empty(),
            t@.nud == Map::<TokenKind, N>::empty(),
            t@.led == Map::<TokenKind, L>::empty(),
            t@.stmt == Map::<TokenKind, S>::empty(),
    {
        Self {
            bp_lu: LookupTable::new(),
            nud_lu: LookupTable::new(),
            led_lu: LookupTable::new(),
            stmt_lu: LookupTable::new(),
        }
    }

    /// Registers an infix handler, and with it the binding power of the token.
    pub fn led(&mut self, token: Token, bp: BindingPower, handler: L)
        ensures
            final(self)@ == (PrattV {
                led: old(self)@.led.insert(token.kind(), handler),
                bp: old(self)@.bp.insert(token.kind(), bp),
                ..old(self)@
            }),
    {
        self.led_lu.insert(token.clone(), handler);
        self.bp_lu.insert(token, bp);
    }

    /// Registers a prefix handler.
    pub fn nud(&mut self, token: Token, handler: N)
        ensures
            final(self)@ == (PrattV { nud: old(self)@.nud.insert(token.kind(), handler), ..old(self)@ }),
    {
        self.nud_lu.insert(token, handler);
    }

    /// Registers a statement handler, at the lowest binding power.
    pub fn stmt(&mut self, token: Token, handler: S)
        ensures
            final(self)@ == (PrattV {
                stmt: old(self)@.stmt.insert(token.kind(), handler),
                bp: old(self)@.bp.insert(token.kind(), BindingPower::Default),
                ..old(self)@
            }),
    {
        self.stmt_lu.insert(token.clone(), handler);
        self.bp_lu.insert(token, BindingPower::Default);
    }

    pub fn get_stmt(&self, token: &Token) -> (r: Option<&S>)
        ensures
            match r {
                Some(h) => self@.stmt.dom().contains(token.kind()) && self@.stmt[token.kind()] == *h,
                None => !self@.stmt.dom().contains(token.kind()),
            },
    {
        self.stmt_lu.get(token)
    }

    pub fn get_nud(&self, token: &Token) -> (r: Option<&N>)
        ensures
            match r {
                Some(h) => self@.nud.dom().contains(token.kind()) && self@.nud[token.kind()] == *h,
                None => !self@.nud.dom().contains(token.kind()),
            },
    {
        self.nud_lu.get(token)
    }

    pub fn get_led(&self, token: &Token) -> (r: Option<&L>)
        ensures
            match r {
                Some(h) => self@.led.dom().contains(token.kind()) && self@.led[token.kind()] == *h,
                None => !self@.led.dom().contains(token.kind()),
            },
    {
        self.led_lu.get(token)
    }

    pub fn get_bp(&self, token: &Token) -> (r: Option<&BindingPower>)
        ensures
            match r {
                Some(p) => self@.bp.dom().contains(token.kind()) && self@.bp[token.kind()] == *p,
                None => !self@.bp.dom().contains(token.kind()),
            },
    {
        self.bp_lu.get(token)
    }
}

} // verus!
