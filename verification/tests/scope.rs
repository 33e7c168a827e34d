// The chain of scopes.

use intl_extract::scope::{ScopeError, ScopeStack};

#[test]
fn new_stack_has_one_empty_scope() {
    let s = ScopeStack::new();
    assert_eq!(s.depth(), 1);
    assert_eq!(s.lookup("t"), None);
}

#[test]
fn innermost_binding_wins() {
    let mut s = ScopeStack::new();
    s.define("t", "translator");
    s.push_scope();
    assert_eq!(s.lookup("t"), Some("translator"));
    s.define("t", "other");
    assert_eq!(s.lookup("t"), Some("other"));
    s.define("u", "translator");
    assert_eq!(s.pop_scope(), Ok(()));
    assert_eq!(s.lookup("t"), Some("translator"));
    assert_eq!(s.lookup("u"), None);
}

#[test]
fn define_replaces_within_one_scope() {
    let mut s = ScopeStack::new();
    s.define("t", "a");
    s.define("t", "b");
    assert_eq!(s.lookup("t"), Some("b"));
    assert_eq!(s.depth(), 1);
}

#[test]
fn pop_without_a_scope_is_out_of_scope() {
    let mut s = ScopeStack::new();
    assert_eq!(s.pop_scope(), Ok(()));
    assert_eq!(s.depth(), 0);
    assert_eq!(s.pop_scope(), Err(ScopeError::OutOfScope));
    assert_eq!(s.depth(), 0);
    // Without a scope nothing can be defined.
    s.define("t", "translator");
    assert_eq!(s.lookup("t"), None);
    s.push_scope();
    s.define("t", "translator");
    assert_eq!(s.lookup("t"), Some("translator"));
}
