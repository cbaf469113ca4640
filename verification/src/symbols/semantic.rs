use crate::span::Span;
use crate::types::{Type, TypeView};
use vstd::prelude::*;

verus! {

/// The signature of a function as semantic analysis knows it.
#[derive(Debug, PartialEq)]
pub struct FunctionSignature {
    pub params: Vec<Type>,
    pub returns: Type,
}

impl View for FunctionSignature {
    type V = TypeView;

    /// The type of the functions with this signature.
    open spec fn view(&self) -> TypeView {
        TypeView::Function(crate::types::type_views(self.params@), Box::new(self.returns@))
    }
}

impl FunctionSignature {
    /// The type of the functions with this signature.
    pub fn ty(&self) -> (ty: Type)
        ensures
            ty@ == self@,
    {
        let mut params: Vec<Type> = Vec::new();
        let mut k: usize = 0;
        while k < self.params.len()
            invariant
                k <= self.params.len(),
                params.len() == k,
                forall|i: int| 0 <= i < k ==> (#[trigger] params[i])@ == self.params[i]@,
            decreases self.params.len() - k,
        {
            params.push(self.params[k].duplicate());
            k += 1;
        }
        let ty = Type::Function(params, Box::new(self.returns.duplicate()));
        assert(ty@->Function_0 =~= crate::types::type_views(self.params@));
        ty
    }
}

/// The type of a variable as semantic analysis knows it.
#[derive(Debug, PartialEq)]
pub struct TypeSignature {
    pub ty: Type,
}

impl View for TypeSignature {
    type V = TypeView;

    open spec fn view(&self) -> TypeView {
        self.ty@
    }
}

/// A declared name with its type.
#[derive(Debug, PartialEq)]
pub struct Symbol {
    pub name: String,
    pub ty: Type,
}

pub struct SymbolView {
    pub name: Seq<char>,
    pub ty: TypeView,
}

impl View for Symbol {
    type V = SymbolView;

    open spec fn view(&self) -> SymbolView {
        SymbolView { name: self.name@, ty: self.ty@ }
    }
}

/// A scope of the source: the names declared in it and, for the body of a
/// function, the type of the function's result. The global scope has no
/// span; every other scope is known by the span of what it belongs to.
#[derive(Debug, PartialEq)]
pub struct SemanticScope {
    pub span: Option<Span>,
    pub symbols: Vec<Symbol>,
    pub returns: Option<Type>,
}

pub struct SemanticScopeView {
    pub span: Option<Span>,
    pub symbols: Seq<SymbolView>,
    pub returns: Option<TypeView>,
}

/// The view of an optional type.
pub open spec fn optional_type_view(ty: Option<Type>) -> Option<TypeView> {
    match ty {
        Some(ty) => Some(ty@),
        None => None,
    }
}

impl View for SemanticScope {
    type V = SemanticScopeView;

    open spec fn view(&self) -> SemanticScopeView {
        SemanticScopeView {
            span: self.span,
            symbols: Seq::new(self.symbols.len() as nat, |i: int| self.symbols[i]@),
            returns: optional_type_view(self.returns),
        }
    }
}

/// The first position at or after `k` at which `symbols` holds `name`.
pub open spec fn symbol_from(symbols: Seq<SymbolView>, name: Seq<char>, k: int) -> Option<int>
    decreases symbols.len() - k,
{
    if k < 0 || k >= symbols.len() {
        None
    } else if symbols[k].name == name {
        Some(k)
    } else {
        symbol_from(symbols, name, k + 1)
    }
}

/// The first position at or after `k` of a scope with the key `span`.
pub open spec fn scope_from(scopes: Seq<SemanticScopeView>, span: Option<Span>, k: int) -> Option<int>
    decreases scopes.len() - k,
{
    if k < 0 || k >= scopes.len() {
        None
    } else if scopes[k].span == span {
        Some(k)
    } else {
        scope_from(scopes, span, k + 1)
    }
}

impl SemanticScopeView {
    /// The type of `name` in this scope.
    pub open spec fn lookup(self, name: Seq<char>) -> Option<TypeView> {
        match symbol_from(self.symbols, name, 0) {
            Some(i) => Some(self.symbols[i].ty),
            None => None,
        }
    }

    /// The scope after `name` is declared with type `ty`: a name that is
    /// there changes its type, a new one goes to the end.
    pub open spec fn define(self, name: Seq<char>, ty: TypeView) -> SemanticScopeView {
        let symbol = SymbolView { name, ty };
        SemanticScopeView {
            symbols: match symbol_from(self.symbols, name, 0) {
                Some(i) => self.symbols.update(i, symbol),
                None => self.symbols.push(symbol),
            },
            ..self
        }
    }
}

/// The table as the contracts see it: every scope that is known, and the
/// positions of those that are entered, the outermost first.
pub struct SemanticTableView {
    pub scopes: Seq<SemanticScopeView>,
    pub stack: Seq<nat>,
}

/// The type of `name` in the innermost of the first `depth` entered scopes
/// that declares it.
pub open spec fn type_below(table: SemanticTableView, name: Seq<char>, depth: int) -> Option<TypeView>
    decreases depth,
{
    if depth <= 0 || depth > table.stack.len() {
        None
    } else {
        match table.scopes[table.stack[depth - 1] as int].lookup(name) {
            Some(ty) => Some(ty),
            None => type_below(table, name, depth - 1),
        }
    }
}

impl SemanticTableView {
    /// The table that knows no scope.
    pub open spec fn empty() -> SemanticTableView {
        SemanticTableView { scopes: Seq::empty(), stack: Seq::empty() }
    }

    /// Every entered scope is a known scope.
    pub open spec fn wf(self) -> bool {
        forall|i: int| 0 <= i < self.stack.len() ==> #[trigger] self.stack[i] < self.scopes.len()
    }

    /// The number of entered scopes.
    pub open spec fn depth(self) -> nat {
        self.stack.len()
    }

    /// The position of the scope with the key `span`.
    pub open spec fn scope_index(self, span: Option<Span>) -> Option<int> {
        scope_from(self.scopes, span, 0)
    }

    /// Enters the scope with the key `span`. Where none is known yet, an
    /// empty one is made, with `result` as the type of its result; where
    /// one is known, it keeps its names, and takes over `result` only where
    /// that names a type.
    pub open spec fn enter(self, span: Option<Span>, result: Option<TypeView>) -> SemanticTableView {
        match self.scope_index(span) {
            Some(i) => SemanticTableView {
                scopes: if result is Some {
                    self.scopes.update(i, SemanticScopeView { returns: result, ..self.scopes[i] })
                } else {
                    self.scopes
                },
                stack: self.stack.push(i as nat),
            },
            None => SemanticTableView {
                scopes: self.scopes.push(
                    SemanticScopeView { span, symbols: Seq::empty(), returns: result },
                ),
                stack: self.stack.push(self.scopes.len()),
            },
        }
    }

    /// Leaves the innermost entered scope, which stays known.
    pub open spec fn leave(self) -> SemanticTableView {
        SemanticTableView { stack: self.stack.drop_last(), ..self }
    }

    /// Declares `name` in the innermost entered scope.
    pub open spec fn define(self, name: Seq<char>, ty: TypeView) -> SemanticTableView {
        let i = self.stack.last() as int;
        SemanticTableView { scopes: self.scopes.update(i, self.scopes[i].define(name, ty)), ..self }
    }

    /// The type of `name`, looked up from the innermost entered scope
    /// outward.
    pub open spec fn lookup(self, name: Seq<char>) -> Option<TypeView> {
        type_below(self, name, self.stack.len() as int)
    }

    /// The scope with the key `span`.
    pub open spec fn get_scope(self, span: Span) -> Option<SemanticScopeView> {
        match self.scope_index(Some(span)) {
            Some(i) => Some(self.scopes[i]),
            None => None,
        }
    }
}

/// The scopes of the source with their declarations, as semantic analysis
/// leaves them. A pass enters the scope of the function it works on and
/// leaves it again; what a scope holds outlives that.
#[derive(Debug, PartialEq)]
pub struct SemanticSymbolTable {
    pub scopes: Vec<SemanticScope>,
    pub stack: Vec<usize>,
}

impl View for SemanticSymbolTable {
    type V = SemanticTableView;

    open spec fn view(&self) -> SemanticTableView {
        SemanticTableView {
            scopes: Seq::new(self.scopes.len() as nat, |i: int| self.scopes[i]@),
            stack: Seq::new(self.stack.len() as nat, |i: int| self.stack[i] as nat),
        }
    }
}

/// Finds the declaration of `name` in a list of declarations.
pub fn find_symbol(symbols: &Vec<Symbol>, name: &String) -> (found: Option<usize>)
    ensures
        match found {
            Some(i) => i < symbols.len() && symbol_from(
                Seq::new(symbols.len() as nat, |j: int| symbols[j]@),
                name@,
                0,
            ) == Some(i as int),
            None => symbol_from(Seq::new(symbols.len() as nat, |j: int| symbols[j]@), name@, 0)
                is None,
        },
{
    let ghost all = Seq::new(symbols.len() as nat, |j: int| symbols[j]@);
    let mut k: usize = 0;
    while k < symbols.len()
        invariant
            k <= symbols.len(),
            all == Seq::new(symbols.len() as nat, |j: int| symbols[j]@),
            symbol_from(all, name@, 0) == symbol_from(all, name@, k as int),
        decreases symbols.len() - k,
    {
        if symbols[k].name == *name {
            return Some(k);
        }
        k += 1;
    }
    None
}

impl SemanticSymbolTable {
    /// The table that knows no scope.
    pub fn new() -> (table: Self)
        ensures
            table@ == SemanticTableView::empty(),
            table@.wf(),
    {
        let table = SemanticSymbolTable { scopes: Vec::new(), stack: Vec::new() };
        assert(table@.scopes =~= Seq::empty());
        assert(table@.stack =~= Seq::empty());
        table
    }

    /// Finds the scope with the key `span`.
    fn find_scope(&self, span: Option<Span>) -> (found: Option<usize>)
        ensures
            match found {
                Some(i) => i < self.scopes.len() && self@.scope_index(span) == Some(i as int),
                None => self@.scope_index(span) is None,
            },
    {
        let mut k: usize = 0;
        while k < self.scopes.len()
            invariant
                k <= self.scopes.len(),
                self@.scope_index(span) == scope_from(self@.scopes, span, k as int),
            decreases self.scopes.len() - k,
        {
            let same = match (self.scopes[k].span, span) {
                (Some(a), Some(b)) => a == b,
                (None, None) => true,
                _ => false,
            };
            if same {
                return Some(k);
            }
            k += 1;
        }
        None
    }

    /// Enters the scope with the key `span`; see `SemanticTableView::enter`.
    fn enter(&mut self, span: Option<Span>, result: Option<Type>)
        requires
            old(self)@.wf(),
        ensures
            final(self)@ == old(self)@.enter(span, optional_type_view(result)),
            final(self)@.wf(),
    {
        let ghost before = self@;
        match self.find_scope(span) {
            Some(i) => {
                match result {
                    Some(ty) => {
                        let mut scope = self.scopes.swap_remove(i);
                        scope.returns = Some(ty);
                        self.scopes.push(scope);
                        let last = self.scopes.len() - 1;
                        if i < last {
                            let moved = self.scopes.swap_remove(i);
                            self.scopes.push(moved);
                        }
                        assert(self@.scopes =~= before.enter(span, optional_type_view(result)).scopes);
                    },
                    None => {},
                }
                self.stack.push(i);
            },
            None => {
                let at = self.scopes.len();
                self.scopes.push(SemanticScope { span, symbols: Vec::new(), returns: result });
                assert(self.scopes[at as int]@.symbols =~= Seq::empty());
                self.stack.push(at);
            },
        }
        assert(self@.scopes =~= before.enter(span, optional_type_view(result)).scopes);
        assert(self@.stack =~= before.enter(span, optional_type_view(result)).stack);
    }

    /// Enters the global scope.
    pub fn push_global_scope(&mut self)
        requires
            old(self)@.wf(),
        ensures
            final(self)@ == old(self)@.enter(None, None),
            final(self)@.wf(),
    {
        self.enter(None, None);
    }

    /// Enters the scope that belongs to `span`.
    pub fn push_scope(&mut self, span: Span, result: Option<Type>)
        requires
            old(self)@.wf(),
        ensures
            final(self)@ == old(self)@.enter(Some(span), optional_type_view(result)),
            final(self)@.wf(),
    {
        self.enter(Some(span), result);
    }

    /// Leaves the innermost entered scope.
    pub fn pop_scope(&mut self)
        requires
            old(self)@.depth() > 0,
        ensures
            final(self)@ == old(self)@.leave(),
            old(self)@.wf() ==> final(self)@.wf(),
    {
        let ghost before = self@;
        self.stack.pop();
        assert(self@.stack =~= before.leave().stack);
        assert(self@.scopes =~= before.scopes);
    }

    /// The number of entered scopes.
    pub fn depth(&self) -> (depth: usize)
        ensures
            depth == self@.depth(),
    {
        self.stack.len()
    }

    /// Declares `name` with type `ty` in the innermost entered scope.
    pub fn define(&mut self, name: String, ty: Type)
        requires
            old(self)@.wf(),
            old(self)@.depth() > 0,
        ensures
            final(self)@ == old(self)@.define(name@, ty@),
            final(self)@.wf(),
    {
        let ghost before = self@;
        let at = self.stack[self.stack.len() - 1];
        assert(before.stack.last() == at);
        let last = self.scopes.len() - 1;
        let mut scope = self.scopes.swap_remove(at);
        let ghost prior = scope@;
        assert(prior == before.scopes[at as int]);
        let found = find_symbol(&scope.symbols, &name);
        let symbol = Symbol { name, ty };
        match found {
            Some(i) => {
                scope.symbols.set(i, symbol);
            },
            None => {
                scope.symbols.push(symbol);
            },
        }
        assert(scope@.symbols =~= prior.define(symbol.name@, symbol.ty@).symbols);
        self.scopes.push(scope);
        if at < last {
            let moved = self.scopes.swap_remove(at);
            self.scopes.push(moved);
        }
        assert(self@.scopes =~= before.define(symbol.name@, symbol.ty@).scopes);
        assert(self@.stack =~= before.stack);
    }

    /// The type of `name`, looked up from the innermost entered scope
    /// outward.
    pub fn lookup(&self, name: &String) -> (found: Option<&Type>)
        requires
            self@.wf(),
        ensures
            match found {
                Some(ty) => self@.lookup(name@) == Some(ty@),
                None => self@.lookup(name@) is None,
            },
    {
        let mut depth: usize = self.stack.len();
        while depth > 0
            invariant
                self@.wf(),
                depth <= self.stack.len(),
                self@.lookup(name@) == type_below(self@, name@, depth as int),
            decreases depth,
        {
            let at = self.stack[depth - 1];
            assert(self@.stack[depth - 1] == at);
            let scope = &self.scopes[at];
            if let Some(i) = find_symbol(&scope.symbols, name) {
                return Some(&scope.symbols[i].ty);
            }
            depth -= 1;
        }
        None
    }

    /// The scope that belongs to `span`.
    pub fn get_scope(&self, span: Span) -> (found: Option<&SemanticScope>)
        ensures
            match found {
                Some(scope) => self@.get_scope(span) == Some(scope@),
                None => self@.get_scope(span) is None,
            },
    {
        match self.find_scope(Some(span)) {
            Some(i) => Some(&self.scopes[i]),
            None => None,
        }
    }
}

} // verus!
