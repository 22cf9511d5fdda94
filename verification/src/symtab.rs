//! Scopes and the symbols they define.
//!
//! The scopes of a table live in one list, and a scope is named by its index
//! there: its handle. A scope refers to its parent and to its children by
//! handle, and so does a symbol to the scope that defines it.
use crate::ast::{Type, TypeView};
use vstd::prelude::*;

verus! {

/// A name with its type, and the handle of the scope that defines it.
#[derive(Debug)]
pub struct Symbol {
    pub id: String,
    pub ty: Type,
    pub scope: usize,
}

/// The mathematical value of a [`Symbol`].
pub struct SymbolView {
    pub id: Seq<char>,
    pub ty: TypeView,
    pub scope: nat,
}

impl Symbol {
    /// The symbol as a mathematical value.
    pub open spec fn view(&self) -> SymbolView {
        SymbolView { id: self.id@, ty: self.ty@, scope: self.scope as nat }
    }
}

impl Clone for Symbol {
    fn clone(&self) -> (r: Self)
        ensures
            r@ == self@,
    {
        Symbol { id: self.id.clone(), ty: self.ty.clone(), scope: self.scope }
    }
}

/// The values of a list of symbols, in order.
pub open spec fn symbols_view(symbols: Seq<Symbol>) -> Seq<SymbolView> {
    Seq::new(symbols.len(), |i: int| symbols[i]@)
}

/// The first symbol from `from` on that is named `id`.
pub open spec fn first_named(symbols: Seq<SymbolView>, id: Seq<char>, from: nat) -> Option<
    SymbolView,
>
    decreases symbols.len() - from,
{
    if from >= symbols.len() {
        None
    } else if symbols[from as int].id == id {
        Some(symbols[from as int])
    } else {
        first_named(symbols, id, from + 1)
    }
}

/// A scope: the symbols it defines, in the order of their definition, and
/// the handles of its children and of its parent.
#[derive(Debug)]
pub struct Scope {
    pub symbols: Vec<Symbol>,
    pub child_scopes: Vec<usize>,
    pub parent_scope: Option<usize>,
}

/// The mathematical value of a [`Scope`].
pub struct ScopeView {
    pub symbols: Seq<SymbolView>,
    pub child_scopes: Seq<usize>,
    pub parent_scope: Option<usize>,
}

impl Scope {
    /// The scope as a mathematical value.
    pub open spec fn view(&self) -> ScopeView {
        ScopeView {
            symbols: symbols_view(self.symbols@),
            child_scopes: self.child_scopes@,
            parent_scope: self.parent_scope,
        }
    }

    /// A scope without symbols or children.
    pub fn new(parent_scope: Option<usize>) -> (r: Self)
        ensures
            r@.symbols == Seq::<SymbolView>::empty(),
            r@.child_scopes == Seq::<usize>::empty(),
            r@.parent_scope == parent_scope,
    {
        let r = Scope { symbols: Vec::new(), child_scopes: Vec::new(), parent_scope };
        assert(symbols_view(r.symbols@) =~= Seq::empty());
        r
    }

    /// Records `scope` as the last child.
    pub fn add_child_scope(&mut self, scope: usize)
        ensures
            final(self)@.child_scopes == old(self)@.child_scopes.push(scope),
            final(self)@.symbols == old(self)@.symbols,
            final(self)@.parent_scope == old(self)@.parent_scope,
    {
        self.child_scopes.push(scope);
    }

    /// The first symbol of this scope that is named `id`.
    pub fn resolve(&self, id: &str) -> (r: Option<Symbol>)
        ensures
            match r {
                Some(symbol) => first_named(self@.symbols, id@, 0) == Some(symbol@),
                None => first_named(self@.symbols, id@, 0) is None,
            },
    {
        let name = String::from_str(id);
        self.find(&name)
    }

    /// The first symbol of this scope that is named `id`.
    fn find(&self, id: &String) -> (r: Option<Symbol>)
        ensures
            match r {
                Some(symbol) => first_named(self@.symbols, id@, 0) == Some(symbol@),
                None => first_named(self@.symbols, id@, 0) is None,
            },
    {
        let mut i: usize = 0;
        while i < self.symbols.len()
            invariant
                i <= self.symbols.len(),
                first_named(self@.symbols, id@, i as nat) == first_named(self@.symbols, id@, 0),
            decreases self.symbols.len() - i,
        {
            if self.symbols[i].id == *id {
                return Some(self.symbols[i].clone());
            }
            i += 1;
        }
        None
    }
}

/// The values of a list of scopes, in order.
pub open spec fn scopes_view(scopes: Seq<Scope>) -> Seq<ScopeView> {
    Seq::new(scopes.len(), |i: int| scopes[i]@)
}

/// What `id` means where the innermost `depth` entries of the stack have been
/// left: the first symbol of that name in the nearest scope, from entry
/// `depth - 1` of the stack down to its bottom, that defines one.
pub open spec fn resolve_below(
    scopes: Seq<ScopeView>,
    stack: Seq<usize>,
    id: Seq<char>,
    depth: nat,
) -> Option<SymbolView>
    decreases depth,
{
    if depth == 0 || depth > stack.len() {
        None
    } else {
        match first_named(scopes[stack[depth - 1] as int].symbols, id, 0) {
            Some(symbol) => Some(symbol),
            None => resolve_below(scopes, stack, id, (depth - 1) as nat),
        }
    }
}

/// The scopes of a program, and the stack of those that are open: the global
/// scope at the bottom, the innermost on top.
#[derive(Debug)]
pub struct SymbolTable {
    scopes: Vec<Scope>,
    scope_stack: Vec<usize>,
}

impl SymbolTable {
    /// Whether the table is sound: it holds the global scope, and every handle
    /// on the stack is that of a scope of the table.
    pub closed spec fn wf(&self) -> bool {
        &&& self.scopes.len() >= 1
        &&& forall|i: int|
            0 <= i < self.scope_stack.len() ==> (#[trigger] self.scope_stack[i]) < self.scopes.len()
    }

    /// All scopes, each at its handle.
    pub closed spec fn scopes(&self) -> Seq<ScopeView> {
        scopes_view(self.scopes@)
    }

    /// The handles of the open scopes, the innermost last.
    pub closed spec fn stack(&self) -> Seq<usize> {
        self.scope_stack@
    }

    /// What `id` means in the innermost open scope that defines it.
    pub open spec fn resolution(&self, id: Seq<char>) -> Option<SymbolView> {
        resolve_below(self.scopes(), self.stack(), id, self.stack().len())
    }

    /// A table with the global scope, which has handle 0, and that scope open.
    pub fn new() -> (r: Self)
        ensures
            r.wf(),
            r.scopes().len() == 1,
            r.scopes()[0].symbols == Seq::<SymbolView>::empty(),
            r.scopes()[0].parent_scope == None::<usize>,
            r.stack() == seq![0usize],
    {
        let mut scopes: Vec<Scope> = Vec::new();
        scopes.push(Scope::new(None));
        let mut scope_stack: Vec<usize> = Vec::new();
        scope_stack.push(0);
        SymbolTable { scopes, scope_stack }
    }

    /// The symbol that `id` names in the innermost open scope that defines
    /// the name.
    pub fn resolve(&self, id: &str) -> (r: Option<Symbol>)
        requires
            self.wf(),
        ensures
            match r {
                Some(symbol) => self.resolution(id@) == Some(symbol@),
                None => self.resolution(id@) is None,
            },
    {
        let name = String::from_str(id);
        let mut depth: usize = self.scope_stack.len();
        while depth > 0
            invariant
                name@ == id@,
                depth <= self.scope_stack.len(),
                self.scopes.len() >= 1,
                forall|i: int|
                    0 <= i < self.scope_stack.len() ==> (#[trigger] self.scope_stack[i])
                        < self.scopes.len(),
                resolve_below(self.scopes(), self.stack(), id@, depth as nat) == self.resolution(
                    id@,
                ),
            decreases depth,
        {
            let handle = self.scope_stack[depth - 1];
            assert(self.scopes()[handle as int] == self.scopes@[handle as int]@);
            if let Some(symbol) = self.scopes[handle].find(&name) {
                return Some(symbol);
            }
            depth -= 1;
        }
        None
    }

    /// Adds `scope` to the table and opens it. Its handle is the number of
    /// scopes that the table held before.
    pub fn push_scope(&mut self, scope: Scope)
        requires
            old(self).wf(),
        ensures
            final(self).wf(),
            final(self).scopes() == old(self).scopes().push(scope@),
            final(self).stack() == old(self).stack().push(old(self).scopes().len() as usize),
    {
        let handle = self.scopes.len();
        let ghost before = self.scopes@;
        self.scopes.push(scope);
        self.scope_stack.push(handle);
        assert(scopes_view(self.scopes@) =~= scopes_view(before).push(scope@));
    }

    /// Closes the innermost open scope, if one is open. The scope stays in
    /// the table.
    pub fn pop_scope(&mut self)
        requires
            old(self).wf(),
        ensures
            final(self).wf(),
            final(self).scopes() == old(self).scopes(),
            final(self).stack() == if old(self).stack().len() > 0 {
                old(self).stack().drop_last()
            } else {
                old(self).stack()
            },
    {
        self.scope_stack.pop();
    }
}

} // verus!
