use crate::text::{decimal, decimal_string};
use crate::wast::ValueType;
use vstd::prelude::*;
use vstd::string::StringExecFns;

verus! {

/// What a name stands for while code is generated.
#[derive(Debug, Clone, Copy, PartialEq, Eq, Structural)]
pub enum WastSymbol {
    /// A parameter, with its position among the parameters.
    Param(usize, ValueType),
    Local(ValueType),
    Global(ValueType),
}

/// One scope: its names with what they stand for, in the order in which
/// they were first defined. No name comes twice.
pub type ScopeView = Seq<(Seq<char>, WastSymbol)>;

/// The first position at or after `k` at which `scope` holds `name`.
pub open spec fn find_from(scope: ScopeView, name: Seq<char>, k: int) -> Option<int>
    decreases scope.len() - k,
{
    if k < 0 || k >= scope.len() {
        None
    } else if scope[k].0 == name {
        Some(k)
    } else {
        find_from(scope, name, k + 1)
    }
}

/// The first position at which `scope` holds `name`.
pub open spec fn position(scope: ScopeView, name: Seq<char>) -> Option<int> {
    find_from(scope, name, 0)
}

/// What `name` stands for in `scope`.
pub open spec fn scope_lookup(scope: ScopeView, name: Seq<char>) -> Option<WastSymbol> {
    match position(scope, name) {
        Some(i) => Some(scope[i].1),
        None => None,
    }
}

/// The scope after `name` is defined as `symbol`: a name that is there keeps
/// its place and changes what it stands for, a new one goes to the end.
pub open spec fn scope_define(scope: ScopeView, name: Seq<char>, symbol: WastSymbol) -> ScopeView {
    match position(scope, name) {
        Some(i) => scope.update(i, (name, symbol)),
        None => scope.push((name, symbol)),
    }
}

/// No name comes twice in the scope.
pub open spec fn distinct_names(scope: ScopeView) -> bool {
    forall|i: int, j: int| 0 <= i < j < scope.len() ==> scope[i].0 != scope[j].0
}

/// The search finds the first position that holds the name, and nothing
/// where no position does.
pub proof fn lemma_find_from(scope: ScopeView, name: Seq<char>, k: int)
    requires
        0 <= k,
    ensures
        match find_from(scope, name, k) {
            Some(i) => k <= i < scope.len() && scope[i].0 == name && forall|j: int|
                k <= j < i ==> scope[j].0 != name,
            None => forall|j: int| k <= j < scope.len() ==> scope[j].0 != name,
        },
    decreases scope.len() - k,
{
    if k < scope.len() && scope[k].0 != name {
        lemma_find_from(scope, name, k + 1);
    }
}

/// A name defined in a scope is found there with what it was defined as;
/// every other name stands for what it stood for; distinct names stay
/// distinct.
pub proof fn lemma_scope_define(scope: ScopeView, name: Seq<char>, symbol: WastSymbol, other: Seq<char>)
    requires
        distinct_names(scope),
    ensures
        distinct_names(scope_define(scope, name, symbol)),
        scope_lookup(scope_define(scope, name, symbol), name) == Some(symbol),
        other != name ==> scope_lookup(scope_define(scope, name, symbol), other) == scope_lookup(
            scope,
            other,
        ),
{
    let after = scope_define(scope, name, symbol);
    lemma_find_from(scope, name, 0);
    lemma_find_from(scope, other, 0);
    lemma_find_from(after, name, 0);
    lemma_find_from(after, other, 0);
    match position(scope, name) {
        Some(i) => {
            assert(after[i].0 == name);
            assert forall|a: int, b: int| 0 <= a < b < after.len() implies after[a].0 != after[b].0 by {
                assert(scope[a].0 != scope[b].0);
            }
            if other != name {
                match position(scope, other) {
                    Some(p) => {
                        assert(after[p].0 == other);
                    },
                    None => {
                        if let Some(q) = position(after, other) {
                            assert(scope[q].0 == other);
                        }
                    },
                }
            }
        },
        None => {
            assert(after[scope.len() as int].0 == name);
            if other != name {
                match position(scope, other) {
                    Some(p) => {
                        assert(after[p].0 == other);
                    },
                    None => {
                        if let Some(q) = position(after, other) {
                            assert(scope[q].0 == other);
                        }
                    },
                }
            }
        },
    }
}

/// The table as the contracts see it: the scopes from the outermost to the
/// innermost, and how many synthetic locals were named so far.
pub struct WastTableView {
    pub scopes: Seq<ScopeView>,
    pub synthetic: nat,
}

/// What `name` stands for in the innermost of the first `depth` scopes that
/// holds it.
pub open spec fn lookup_below(scopes: Seq<ScopeView>, name: Seq<char>, depth: int) -> Option<WastSymbol>
    decreases depth,
{
    if depth <= 0 || depth > scopes.len() {
        None
    } else {
        match scope_lookup(scopes[depth - 1], name) {
            Some(symbol) => Some(symbol),
            None => lookup_below(scopes, name, depth - 1),
        }
    }
}

/// The name of the synthetic local with the given number.
pub open spec fn synthetic_name(number: nat) -> Seq<char> {
    seq!['#', 'r'] + decimal(number)
}

impl WastTableView {
    /// The table without scopes.
    pub open spec fn empty() -> WastTableView {
        WastTableView { scopes: Seq::empty(), synthetic: 0 }
    }

    /// The number of open scopes.
    pub open spec fn depth(self) -> nat {
        self.scopes.len()
    }

    /// Every scope holds each of its names once.
    pub open spec fn wf(self) -> bool {
        forall|i: int| 0 <= i < self.scopes.len() ==> distinct_names(#[trigger] self.scopes[i])
    }

    /// The table with one more scope, which is empty.
    pub open spec fn push_scope(self) -> WastTableView {
        WastTableView { scopes: self.scopes.push(Seq::empty()), ..self }
    }

    /// The table without its innermost scope.
    pub open spec fn pop_scope(self) -> WastTableView {
        WastTableView { scopes: self.scopes.drop_last(), ..self }
    }

    /// The names of the innermost scope; none where there is no scope.
    pub open spec fn current(self) -> ScopeView {
        if self.scopes.len() > 0 {
            self.scopes.last()
        } else {
            Seq::empty()
        }
    }

    /// Defines `name` in the innermost scope.
    pub open spec fn define(self, name: Seq<char>, symbol: WastSymbol) -> WastTableView {
        WastTableView {
            scopes: self.scopes.update(
                self.scopes.len() - 1,
                scope_define(self.scopes.last(), name, symbol),
            ),
            ..self
        }
    }

    /// Looks `name` up from the innermost scope outward.
    pub open spec fn lookup(self, name: Seq<char>) -> Option<WastSymbol> {
        lookup_below(self.scopes, name, self.scopes.len() as int)
    }

    /// Looks `name` up in the innermost scope alone.
    pub open spec fn lookup_current(self, name: Seq<char>) -> Option<WastSymbol> {
        scope_lookup(self.current(), name)
    }

    /// Looks `name` up in the outermost scope alone.
    pub open spec fn lookup_global(self, name: Seq<char>) -> Option<WastSymbol> {
        if self.scopes.len() > 0 {
            scope_lookup(self.scopes[0], name)
        } else {
            None
        }
    }

    /// Defines the next synthetic local in the innermost scope.
    pub open spec fn define_synthetic_local(self, ty: ValueType) -> WastTableView {
        WastTableView {
            synthetic: self.synthetic + 1,
            ..self.define(synthetic_name(self.synthetic), WastSymbol::Local(ty))
        }
    }
}

/// A stack of scopes, each a list of names with what they stand for.
#[derive(Debug)]
pub struct WastSymbolTable {
    pub scopes: Vec<Vec<(String, WastSymbol)>>,
    pub synthetic: usize,
}

/// The entries of one scope as the contracts see them.
pub open spec fn scope_view(scope: Vec<(String, WastSymbol)>) -> ScopeView {
    Seq::new(scope.len() as nat, |i: int| (scope[i].0@, scope[i].1))
}

impl View for WastSymbolTable {
    type V = WastTableView;

    open spec fn view(&self) -> WastTableView {
        WastTableView {
            scopes: Seq::new(self.scopes.len() as nat, |i: int| scope_view(self.scopes[i])),
            synthetic: self.synthetic as nat,
        }
    }
}

/// Finds `name` in one scope.
pub fn find_in_scope(scope: &Vec<(String, WastSymbol)>, name: &String) -> (found: Option<usize>)
    ensures
        match found {
            Some(i) => position(scope_view(*scope), name@) == Some(i as int) && i < scope.len(),
            None => position(scope_view(*scope), name@) is None,
        },
{
    let mut k: usize = 0;
    while k < scope.len()
        invariant
            k <= scope.len(),
            position(scope_view(*scope), name@) == find_from(scope_view(*scope), name@, k as int),
        decreases scope.len() - k,
    {
        if scope[k].0 == *name {
            return Some(k);
        }
        k += 1;
    }
    None
}

impl WastSymbolTable {
    /// The table without scopes.
    pub fn new() -> (table: Self)
        ensures
            table@ == WastTableView::empty(),
            table@.wf(),
    {
        let table = WastSymbolTable { scopes: Vec::new(), synthetic: 0 };
        assert(table@.scopes =~= Seq::empty());
        table
    }

    /// Opens a scope inside the innermost one.
    pub fn push_scope(&mut self)
        ensures
            final(self)@ == old(self)@.push_scope(),
            old(self)@.wf() ==> final(self)@.wf(),
    {
        self.scopes.push(Vec::new());
        assert(scope_view(self.scopes[self.scopes.len() - 1]) =~= Seq::empty());
        assert(self@.scopes =~= old(self)@.push_scope().scopes);
    }

    /// Closes the innermost scope and forgets its names.
    pub fn pop_scope(&mut self)
        requires
            old(self)@.depth() > 0,
        ensures
            final(self)@ == old(self)@.pop_scope(),
            old(self)@.wf() ==> final(self)@.wf(),
    {
        self.scopes.pop();
        assert(self@.scopes =~= old(self)@.pop_scope().scopes);
    }

    /// The number of open scopes; 1 while only the global scope is open.
    pub fn depth(&self) -> (depth: usize)
        ensures
            depth == self@.depth(),
    {
        self.scopes.len()
    }

    /// Defines `name` in the innermost scope. From then on a lookup finds
    /// this definition, whatever the scopes around define.
    pub fn define(&mut self, name: String, symbol: WastSymbol)
        requires
            old(self)@.depth() > 0,
        ensures
            final(self)@ == old(self)@.define(name@, symbol),
            old(self)@.wf() ==> final(self)@.wf(),
            old(self)@.wf() ==> final(self)@.lookup(name@) == Some(symbol),
            old(self)@.wf() ==> final(self)@.lookup_current(name@) == Some(symbol),
    {
        let ghost before = self@;
        let mut scope = self.scopes.pop().unwrap();
        let ghost prior = scope_view(scope);
        assert(prior == before.scopes.last());
        let found = find_in_scope(&scope, &name);
        match found {
            Some(i) => {
                scope.set(i, (name, symbol));
            },
            None => {
                scope.push((name, symbol));
            },
        }
        assert(scope_view(scope) =~= scope_define(prior, name@, symbol));
        self.scopes.push(scope);
        assert(self@.scopes =~= before.define(name@, symbol).scopes);
        proof {
            if before.wf() {
                lemma_scope_define(prior, name@, symbol, name@);
                assert(self@.scopes.last() == scope_define(prior, name@, symbol));
            }
        }
    }

    /// Looks `name` up from the innermost scope outward.
    pub fn lookup(&self, name: &String) -> (found: Option<WastSymbol>)
        ensures
            found == self@.lookup(name@),
    {
        let mut depth: usize = self.scopes.len();
        while depth > 0
            invariant
                depth <= self.scopes.len(),
                self@.lookup(name@) == lookup_below(self@.scopes, name@, depth as int),
            decreases depth,
        {
            let scope = &self.scopes[depth - 1];
            if let Some(i) = find_in_scope(scope, name) {
                return Some(scope[i].1);
            }
            depth -= 1;
        }
        None
    }

    /// Looks `name` up in the innermost scope alone.
    pub fn lookup_current(&self, name: &String) -> (found: Option<WastSymbol>)
        ensures
            found == self@.lookup_current(name@),
    {
        if self.scopes.len() == 0 {
            return None;
        }
        let scope = &self.scopes[self.scopes.len() - 1];
        match find_in_scope(scope, name) {
            Some(i) => Some(scope[i].1),
            None => None,
        }
    }

    /// Looks `name` up in the outermost scope alone.
    pub fn lookup_global(&self, name: &String) -> (found: Option<WastSymbol>)
        ensures
            found == self@.lookup_global(name@),
    {
        if self.scopes.len() == 0 {
            return None;
        }
        let scope = &self.scopes[0];
        match find_in_scope(scope, name) {
            Some(i) => Some(scope[i].1),
            None => None,
        }
    }

    /// The names of the innermost scope with what they stand for, in the
    /// order in which they were first defined.
    pub fn symbols_in_current_scope(&self) -> (symbols: Vec<(String, WastSymbol)>)
        ensures
            scope_view(symbols) == self@.current(),
    {
        let mut symbols: Vec<(String, WastSymbol)> = Vec::new();
        if self.scopes.len() == 0 {
            assert(scope_view(symbols) =~= self@.current());
            return symbols;
        }
        let scope = &self.scopes[self.scopes.len() - 1];
        let mut k: usize = 0;
        while k < scope.len()
            invariant
                k <= scope.len(),
                symbols.len() == k,
                forall|i: int| 0 <= i < k ==> symbols[i].0@ == scope[i].0@ && symbols[i].1 == scope[i].1,
            decreases scope.len() - k,
        {
            symbols.push((scope[k].0.clone(), scope[k].1));
            k += 1;
        }
        assert(scope_view(symbols) =~= self@.current());
        symbols
    }

    /// Names a new local of type `ty`, defines it in the innermost scope and
    /// returns the name. `None`, with nothing changed, where the numbers for
    /// such names have run out.
    pub fn define_synthetic_local(&mut self, ty: ValueType) -> (name: Option<String>)
        requires
            old(self)@.depth() > 0,
        ensures
            old(self)@.wf() ==> final(self)@.wf(),
            match name {
                Some(name) => old(self)@.synthetic < usize::MAX && name@ == synthetic_name(old(self)@.synthetic)
                    && final(self)@ == old(self)@.define_synthetic_local(ty),
                None => old(self)@.synthetic == usize::MAX && final(self)@ == old(self)@,
            },
    {
        if self.synthetic == usize::MAX {
            return None;
        }
        proof {
            reveal_strlit("#r");
        }
        let name = String::from_str("#r").concat(decimal_string(self.synthetic).as_str());
        assert(name@ =~= synthetic_name(self.synthetic as nat));
        self.define(name.clone(), WastSymbol::Local(ty));
        let ghost defined = self@;
        self.synthetic = self.synthetic + 1;
        assert(self@.scopes =~= defined.scopes);
        Some(name)
    }
}

} // verus!
