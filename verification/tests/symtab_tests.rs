use tinyml::ast::Type;
use tinyml::symtab::{Scope, Symbol, SymbolTable};

fn symbol(id: &str, ty: Type, scope: usize) -> Symbol {
    Symbol { id: id.to_string(), ty, scope }
}

fn shown(s: Option<Symbol>) -> String {
    format!("{:?}", s)
}

#[test]
fn new_scope_is_empty() {
    let scope = Scope::new(Some(3));
    assert!(scope.symbols.is_empty());
    assert!(scope.child_scopes.is_empty());
    assert_eq!(scope.parent_scope, Some(3));
    assert_eq!(Scope::new(None).parent_scope, None);
}

#[test]
fn add_child_scope_appends() {
    let mut scope = Scope::new(None);
    scope.add_child_scope(4);
    scope.add_child_scope(2);
    assert_eq!(scope.child_scopes, vec![4, 2]);
    assert!(scope.symbols.is_empty());
    assert_eq!(scope.parent_scope, None);
}

#[test]
fn scope_resolves_the_first_symbol_of_a_name() {
    let mut scope = Scope::new(None);
    scope.symbols.push(symbol("x", Type::Int, 0));
    scope.symbols.push(symbol("y", Type::Bool, 0));
    scope.symbols.push(symbol("x", Type::Char, 0));
    assert_eq!(shown(scope.resolve("x")), "Some(Symbol { id: \"x\", ty: Int, scope: 0 })");
    assert_eq!(shown(scope.resolve("y")), "Some(Symbol { id: \"y\", ty: Bool, scope: 0 })");
    assert_eq!(shown(scope.resolve("z")), "None");
    assert_eq!(shown(scope.resolve("")), "None");
}

#[test]
fn new_table_resolves_nothing() {
    let table = SymbolTable::new();
    assert_eq!(shown(table.resolve("x")), "None");
}

#[test]
fn innermost_scope_wins() {
    let mut table = SymbolTable::new();
    let mut outer = Scope::new(Some(0));
    outer.symbols.push(symbol("x", Type::Int, 1));
    outer.symbols.push(symbol("y", Type::Bool, 1));
    table.push_scope(outer);
    let mut inner = Scope::new(Some(1));
    inner.symbols.push(symbol("x", Type::String, 2));
    table.push_scope(inner);
    assert_eq!(shown(table.resolve("x")), "Some(Symbol { id: \"x\", ty: String, scope: 2 })");
    assert_eq!(shown(table.resolve("y")), "Some(Symbol { id: \"y\", ty: Bool, scope: 1 })");
    assert_eq!(shown(table.resolve("z")), "None");
}

#[test]
fn pop_scope_closes_the_innermost() {
    let mut table = SymbolTable::new();
    let mut outer = Scope::new(Some(0));
    outer.symbols.push(symbol("x", Type::Int, 1));
    table.push_scope(outer);
    let mut inner = Scope::new(Some(1));
    inner.symbols.push(symbol("x", Type::Var("a".to_string()), 2));
    table.push_scope(inner);
    table.pop_scope();
    assert_eq!(shown(table.resolve("x")), "Some(Symbol { id: \"x\", ty: Int, scope: 1 })");
    table.pop_scope();
    assert_eq!(shown(table.resolve("x")), "None");
}

#[test]
fn pop_scope_on_an_empty_stack_does_nothing() {
    let mut table = SymbolTable::new();
    table.pop_scope();
    table.pop_scope();
    assert_eq!(shown(table.resolve("x")), "None");
    let mut scope = Scope::new(None);
    scope.symbols.push(symbol("x", Type::Int, 1));
    table.push_scope(scope);
    assert_eq!(shown(table.resolve("x")), "Some(Symbol { id: \"x\", ty: Int, scope: 1 })");
}

#[test]
fn symbol_clone_keeps_all_fields() {
    let s = symbol("f", Type::Arrow(Box::new(Type::Int), Box::new(Type::Bool)), 7);
    assert_eq!(format!("{:?}", s.clone()), format!("{:?}", s));
}
