//! A chain of lexical scopes that maps local names to binding kinds.

use vstd::hash_map::StringHashMap;
use vstd::prelude::*;

verus! {

/// One scope as a map from name to kind.
pub type ScopeModel = Map<Seq<char>, Seq<char>>;

/// Why an operation on a [`ScopeStack`] was refused.
#[derive(Debug, Clone, Copy, PartialEq, Eq)]
pub enum ScopeError {
    /// A scope was left although none was open.
    OutOfScope,
}

/// The kind that `name` resolves to in `scopes`: that of the innermost
/// scope that binds it.
pub open spec fn lookup_in(scopes: Seq<ScopeModel>, name: Seq<char>) -> Option<Seq<char>>
    decreases scopes.len(),
{
    if scopes.len() == 0 {
        None
    } else if scopes.last().contains_key(name) {
        Some(scopes.last()[name])
    } else {
        lookup_in(scopes.drop_last(), name)
    }
}

/// The scopes of `scopes` with `name` bound to `kind` in the innermost one;
/// unchanged where no scope is open.
pub open spec fn define_in(scopes: Seq<ScopeModel>, name: Seq<char>, kind: Seq<char>) -> Seq<
    ScopeModel,
> {
    if scopes.len() == 0 {
        scopes
    } else {
        scopes.drop_last().push(scopes.last().insert(name, kind))
    }
}

/// The model of one stored scope.
pub open spec fn scope_model(m: StringHashMap<String>) -> ScopeModel {
    m@.map_values(|v: String| v@)
}

/// The open scopes, outermost first.
pub struct ScopeStack {
    stack: Vec<StringHashMap<String>>,
}

impl View for ScopeStack {
    type V = Seq<ScopeModel>;

    closed spec fn view(&self) -> Seq<ScopeModel> {
        self.stack@.map_values(|m: StringHashMap<String>| scope_model(m))
    }
}

impl ScopeStack {
    /// A stack with one empty scope open.
    pub fn new() -> (s: Self)
        ensures
            s@ == seq![Map::<Seq<char>, Seq<char>>::empty()],
    {
        let mut stack: Vec<StringHashMap<String>> = Vec::new();
        let root: StringHashMap<String> = StringHashMap::new();
        assert(scope_model(root) =~= Map::<Seq<char>, Seq<char>>::empty());
        stack.push(root);
        let s = ScopeStack { stack };
        assert(s@ =~= seq![Map::<Seq<char>, Seq<char>>::empty()]);
        s
    }

    /// Opens an empty scope inside the current one.
    pub fn push_scope(&mut self)
        ensures
            final(self)@ == old(self)@.push(Map::<Seq<char>, Seq<char>>::empty()),
    {
        let scope: StringHashMap<String> = StringHashMap::new();
        assert(scope_model(scope) =~= Map::<Seq<char>, Seq<char>>::empty());
        self.stack.push(scope);
        assert(self@ =~= old(self)@.push(Map::<Seq<char>, Seq<char>>::empty()));
    }

    /// Leaves the innermost scope. Refused with `OutOfScope`, and nothing
    /// changed, where no scope is open.
    pub fn pop_scope(&mut self) -> (r: Result<(), ScopeError>)
        ensures
            r is Ok <==> old(self)@.len() > 0,
            r is Ok ==> final(self)@ == old(self)@.drop_last(),
            r is Err ==> r == Err::<(), ScopeError>(ScopeError::OutOfScope) && final(self)@ == old(
                self,
            )@,
    {
        match self.stack.pop() {
            Some(_) => {
                assert(self@ =~= old(self)@.drop_last());
                Ok(())
            },
            None => {
                assert(self@ =~= old(self)@);
                Err(ScopeError::OutOfScope)
            },
        }
    }

    /// Binds `name` to `kind` in the innermost scope, replacing what it
    /// bound there before. Does nothing where no scope is open.
    pub fn define(&mut self, name: &str, kind: &str)
        ensures
            final(self)@ == define_in(old(self)@, name@, kind@),
    {
        match self.stack.pop() {
            Some(top) => {
                let mut top = top;
                let ghost before = scope_model(top);
                let key = String::from_str(name);
                let value = String::from_str(kind);
                top.insert(key, value);
                assert(scope_model(top) =~= before.insert(name@, kind@));
                self.stack.push(top);
                assert(self@ =~= define_in(old(self)@, name@, kind@));
            },
            None => {
                assert(self@ =~= old(self)@);
            },
        }
    }

    /// The kind that `name` resolves to, innermost scope first.
    pub fn lookup(&self, name: &str) -> (kind: Option<&str>)
        ensures
            match kind {
                Some(k) => lookup_in(self@, name@) == Some(k@),
                None => lookup_in(self@, name@) is None,
            },
    {
        let mut i: usize = self.stack.len();
        assert(self@.take(i as int) =~= self@);
        while i > 0
            invariant
                i <= self.stack@.len(),
                lookup_in(self@, name@) == lookup_in(self@.take(i as int), name@),
            decreases i,
        {
            let ghost prefix = self@.take(i as int);
            assert(prefix.last() == scope_model(self.stack@[i - 1]));
            assert(prefix.drop_last() =~= self@.take(i - 1));
            match self.stack[i - 1].get(name) {
                Some(kind) => {
                    return Some(kind.as_str());
                },
                None => {},
            }
            i = i - 1;
        }
        assert(self@.take(0).len() == 0);
        None
    }

    /// Number of open scopes.
    pub fn depth(&self) -> (n: usize)
        ensures
            n == self@.len(),
    {
        self.stack.len()
    }
}

} // verus!
