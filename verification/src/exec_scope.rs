use vstd::prelude::*;

use vstd::string::StringExecFns;

verus! {

/// Why leaving a scope failed: the outermost scope can never be left.
#[derive(Debug, Clone, PartialEq, Eq, Structural)]
pub enum ExecScopeError {
    ExitMainScopeError,
}

/// A value a scope may bind to a name: a signed integer.
#[derive(Eq, Hash, PartialEq, Debug, Clone, Copy, Structural)]
pub enum PyValueType {
    BigInt(i128),
}

/// The binding a scope holds for a name: the value of its first entry with
/// that name, if any. Well-formed scopes bind each name at most once, so the
/// first entry is the only one.
pub open spec fn spec_lookup(scope: Seq<(String, PyValueType)>, name: Seq<char>) -> Option<
    PyValueType,
>
    decreases scope.len(),
{
    if scope.len() == 0 {
        None
    } else if scope[0].0@ == name {
        Some(scope[0].1)
    } else {
        spec_lookup(scope.drop_first(), name)
    }
}

/// Each name is bound at most once in the scope.
pub open spec fn scope_wf(scope: Seq<(String, PyValueType)>) -> bool {
    forall|i: int, j: int|
        0 <= i < j < scope.len() ==> (#[trigger] scope[i]).0@ != (#[trigger] scope[j]).0@
}

pub proof fn lemma_lookup_absent(scope: Seq<(String, PyValueType)>, name: Seq<char>)
    requires
        forall|j: int| 0 <= j < scope.len() ==> (#[trigger] scope[j]).0@ != name,
    ensures
        spec_lookup(scope, name) is None,
    decreases scope.len(),
{
    if scope.len() > 0 {
        lemma_lookup_absent(scope.drop_first(), name);
    }
}

pub proof fn lemma_lookup_push(
    scope: Seq<(String, PyValueType)>,
    entry: (String, PyValueType),
    name: Seq<char>,
)
    ensures
        spec_lookup(scope.push(entry), name) == if spec_lookup(scope, name) is Some {
            spec_lookup(scope, name)
        } else if entry.0@ == name {
            Some(entry.1)
        } else {
            None
        },
    decreases scope.len(),
{
    if scope.len() == 0 {
        assert(scope.push(entry)[0] == entry);
        assert(scope.push(entry).drop_first() =~= Seq::<(String, PyValueType)>::empty());
        assert(spec_lookup(scope, name) is None);
        assert(spec_lookup(scope.push(entry).drop_first(), name) is None);
    } else {
        assert(scope.push(entry)[0] == scope[0]);
        assert(scope.push(entry).drop_first() =~= scope.drop_first().push(entry));
        lemma_lookup_push(scope.drop_first(), entry, name);
        assert(spec_lookup(scope.push(entry), name) == if scope[0].0@ == name {
            Some(scope[0].1)
        } else {
            spec_lookup(scope.drop_first().push(entry), name)
        });
        assert(spec_lookup(scope, name) == if scope[0].0@ == name {
            Some(scope[0].1)
        } else {
            spec_lookup(scope.drop_first(), name)
        });
    }
}

pub proof fn lemma_lookup_update(
    scope: Seq<(String, PyValueType)>,
    idx: int,
    entry: (String, PyValueType),
    name: Seq<char>,
)
    requires
        0 <= idx < scope.len(),
        scope[idx].0@ == entry.0@,
        forall|j: int| 0 <= j < idx ==> (#[trigger] scope[j]).0@ != entry.0@,
    ensures
        spec_lookup(scope.update(idx, entry), name) == if entry.0@ == name {
            Some(entry.1)
        } else {
            spec_lookup(scope, name)
        },
    decreases idx,
{
    let updated = scope.update(idx, entry);
    if idx == 0 {
        assert(updated[0] == entry);
        assert(updated.drop_first() =~= scope.drop_first());
    } else {
        assert(updated[0] == scope[0]);
        assert(updated.drop_first() =~= scope.drop_first().update(idx - 1, entry));
        assert(scope.drop_first()[idx - 1] == scope[idx]);
        assert(forall|j: int|
            0 <= j < idx - 1 ==> (#[trigger] scope.drop_first()[j]).0@ != entry.0@);
        lemma_lookup_update(scope.drop_first(), idx - 1, entry, name);
    }
}

pub proof fn lemma_lookup_remove(
    scope: Seq<(String, PyValueType)>,
    idx: int,
    name: Seq<char>,
)
    requires
        0 <= idx < scope.len(),
        forall|j: int| 0 <= j < idx ==> (#[trigger] scope[j]).0@ != scope[idx].0@,
        scope_wf(scope),
    ensures
        spec_lookup(scope.remove(idx), name) == if scope[idx].0@ == name {
            None
        } else {
            spec_lookup(scope, name)
        },
    decreases idx,
{
    let removed = scope.remove(idx);
    if idx == 0 {
        assert(removed =~= scope.drop_first());
        if scope[0].0@ == name {
            assert(forall|j: int|
                0 <= j < scope.drop_first().len() ==> (#[trigger] scope.drop_first()[j]).0@
                    != name);
            lemma_lookup_absent(scope.drop_first(), name);
        }
    } else {
        assert(removed[0] == scope[0]);
        assert(removed.drop_first() =~= scope.drop_first().remove(idx - 1));
        assert(scope.drop_first()[idx - 1] == scope[idx]);
        lemma_lookup_remove(scope.drop_first(), idx - 1, name);
    }
}

/// A stack of scopes of named bindings. The stack always holds at least the
/// outermost (main) scope; entering pushes a fresh scope and leaving pops
/// one, except that the main scope can never be left.
#[derive(Eq, PartialEq, Debug)]
pub struct ExecutionScopes {
    pub exec_scopes: Vec<Vec<(String, PyValueType)>>,
}

impl ExecutionScopes {
    /// Every scope in the stack binds each name at most once.
    pub open spec fn wf(self) -> bool {
        forall|i: int|
            0 <= i < self.exec_scopes@.len() ==> scope_wf((#[trigger] self.exec_scopes@[i])@)
    }

    /// The current (innermost) scope.
    pub open spec fn spec_top(self) -> Seq<(String, PyValueType)> {
        self.exec_scopes@.last()@
    }

    pub fn new() -> (r: ExecutionScopes)
        ensures
            r.exec_scopes@.len() == 1,
            r.spec_top() =~= Seq::<(String, PyValueType)>::empty(),
            r.wf(),
    {
        let main_scope: Vec<(String, PyValueType)> = Vec::new();
        let mut stack: Vec<Vec<(String, PyValueType)>> = Vec::new();
        stack.push(main_scope);
        ExecutionScopes { exec_scopes: stack }
    }

    pub fn enter_scope(&mut self, new_scope_locals: Vec<(String, PyValueType)>)
        requires
            scope_wf(new_scope_locals@),
            old(self).wf(),
        ensures
            final(self).exec_scopes@ == old(self).exec_scopes@.push(new_scope_locals),
            final(self).wf(),
    {
        self.exec_scopes.push(new_scope_locals);
    }

    pub fn exit_scope(&mut self) -> (r: Result<(), ExecScopeError>)
        requires
            old(self).wf(),
        ensures
            old(self).exec_scopes@.len() == 1 ==> r == Err::<(), ExecScopeError>(
                ExecScopeError::ExitMainScopeError,
            ) && *final(self) == *old(self),
            old(self).exec_scopes@.len() > 1 ==> r == Ok::<(), ExecScopeError>(()) && final(self).exec_scopes@ == old(self).exec_scopes@.drop_last(),
            old(self).exec_scopes@.len() == 0 ==> r == Ok::<(), ExecScopeError>(()) && final(self).exec_scopes@ == old(self).exec_scopes@,
            final(self).wf(),
    {
        if self.exec_scopes.len() == 1 {
            return Err(ExecScopeError::ExitMainScopeError);
        }
        self.exec_scopes.pop();
        Ok(())
    }

    /// The current scope's bindings, absent only when the stack is empty
    /// (which a value built by `new` never is).
    pub fn get_local_variables(&self) -> (r: Option<&Vec<(String, PyValueType)>>)
        ensures
            self.exec_scopes@.len() > 0 ==> (r matches Some(s) && *s == self.exec_scopes@.last()),
            self.exec_scopes@.len() == 0 ==> r is None,
    {
        let n = self.exec_scopes.len();
        if n == 0 {
            return None;
        }
        Some(&self.exec_scopes[n - 1])
    }

    /// Binds the name to the value in the current scope, replacing the
    /// binding the scope already held for it, if any. Every other binding and
    /// every outer scope is untouched; a stack without scopes is untouched.
    pub fn assign_or_update_variable(&mut self, var_name: &str, var_value: PyValueType)
        requires
            old(self).wf(),
        ensures
            final(self).wf(),
            final(self).exec_scopes@.len() == old(self).exec_scopes@.len(),
            forall|i: int|
                0 <= i < old(self).exec_scopes@.len() - 1 ==> final(self).exec_scopes@[i] == old(self).exec_scopes@[i],
            old(self).exec_scopes@.len() == 0 ==> *final(self) == *old(self),
            old(self).exec_scopes@.len() > 0 ==> forall|n: Seq<char>|
                spec_lookup(final(self).spec_top(), n) == if n == var_name@ {
                    Some(var_value)
                } else {
                    spec_lookup(old(self).spec_top(), n)
                },
    {
        let n_scopes = self.exec_scopes.len();
        if n_scopes == 0 {
            return ;
        }
        let wanted = String::from_str(var_name);
        let mut scope = self.exec_scopes.pop().unwrap();
        let ghost scope0 = scope@;
        let mut idx: usize = 0;
        let mut found = false;
        while idx < scope.len() && !found
            invariant
                scope@ == scope0,
                idx <= scope0.len(),
                wanted@ == var_name@,
                !found ==> forall|j: int| 0 <= j < idx ==> (#[trigger] scope0[j]).0@ != var_name@,
                found ==> idx < scope0.len() && scope0[idx as int].0@ == var_name@ && forall|
                    j: int,
                | 0 <= j < idx ==> (#[trigger] scope0[j]).0@ != var_name@,
            decreases scope0.len() - idx + (if found {
                0int
            } else {
                1
            }),
        {
            if scope[idx].0 == wanted {
                found = true;
            } else {
                idx += 1;
            }
        }
        if found {
            proof {
                lemma_lookup_update(scope0, idx as int, (wanted, var_value), var_name@);
            }
            scope[idx] = (wanted, var_value);
        } else {
            proof {
                lemma_lookup_push(scope0, (wanted, var_value), var_name@);
                lemma_lookup_absent(scope0, var_name@);
            }
            scope.push((wanted, var_value));
        }
        proof {
            assert forall|n: Seq<char>|
                spec_lookup(scope@, n) == if n == var_name@ {
                    Some(var_value)
                } else {
                    spec_lookup(scope0, n)
                } by {
                if found {
                    lemma_lookup_update(scope0, idx as int, (wanted, var_value), n);
                } else {
                    lemma_lookup_push(scope0, (wanted, var_value), n);
                }
            }
            assert(scope0 == old(self).exec_scopes@[old(self).exec_scopes@.len() - 1]@);
            assert(scope_wf(scope0));
            assert forall|a: int, b: int| 0 <= a < b < scope@.len() implies (#[trigger] scope@[a]).0@
                != (#[trigger] scope@[b]).0@ by {
                if found {
                    assert(scope@[a].0@ == scope0[a].0@);
                    assert(scope@[b].0@ == scope0[b].0@);
                } else {
                    if b < scope0.len() {
                        assert(scope@[a] == scope0[a]);
                        assert(scope@[b] == scope0[b]);
                    } else {
                        assert(scope@[a] == scope0[a]);
                        assert(scope@[b].0@ == var_name@);
                    }
                }
            }
            assert(scope_wf(scope@));
        }
        let ghost new_top = scope@;
        self.exec_scopes.push(scope);
        proof {
            assert forall|i2: int| 0 <= i2 < self.exec_scopes@.len() implies scope_wf(
                (#[trigger] self.exec_scopes@[i2])@,
            ) by {
                if i2 < self.exec_scopes@.len() - 1 {
                    assert(self.exec_scopes@[i2] == old(self).exec_scopes@[i2]);
                } else {
                    assert(self.exec_scopes@[i2]@ == new_top);
                }
            }
        }
    }

    /// Removes the current scope's binding for the name, if it holds one.
    /// Every other binding and every outer scope is untouched; a stack
    /// without scopes is untouched.
    pub fn delete_variable(&mut self, var_name: &str)
        requires
            old(self).wf(),
        ensures
            final(self).wf(),
            final(self).exec_scopes@.len() == old(self).exec_scopes@.len(),
            forall|i: int|
                0 <= i < old(self).exec_scopes@.len() - 1 ==> final(self).exec_scopes@[i] == old(self).exec_scopes@[i],
            old(self).exec_scopes@.len() == 0 ==> *final(self) == *old(self),
            old(self).exec_scopes@.len() > 0 ==> forall|n: Seq<char>|
                spec_lookup(final(self).spec_top(), n) == if n == var_name@ {
                    None
                } else {
                    spec_lookup(old(self).spec_top(), n)
                },
    {
        let n_scopes = self.exec_scopes.len();
        if n_scopes == 0 {
            return ;
        }
        let wanted = String::from_str(var_name);
        let mut scope = self.exec_scopes.pop().unwrap();
        let ghost scope0 = scope@;
        let mut idx: usize = 0;
        let mut found = false;
        while idx < scope.len() && !found
            invariant
                scope@ == scope0,
                idx <= scope0.len(),
                wanted@ == var_name@,
                !found ==> forall|j: int| 0 <= j < idx ==> (#[trigger] scope0[j]).0@ != var_name@,
                found ==> idx < scope0.len() && scope0[idx as int].0@ == var_name@ && forall|
                    j: int,
                | 0 <= j < idx ==> (#[trigger] scope0[j]).0@ != var_name@,
            decreases scope0.len() - idx + (if found {
                0int
            } else {
                1
            }),
        {
            if scope[idx].0 == wanted {
                found = true;
            } else {
                idx += 1;
            }
        }
        proof {
            assert(scope0 == old(self).exec_scopes@[old(self).exec_scopes@.len() - 1]@);
            assert(scope_wf(scope0));
        }
        if found {
            scope.remove(idx);
            proof {
                assert forall|n: Seq<char>|
                    spec_lookup(scope@, n) == if n == var_name@ {
                        None
                    } else {
                        spec_lookup(scope0, n)
                    } by {
                    lemma_lookup_remove(scope0, idx as int, n);
                }
                assert forall|a: int, b: int| 0 <= a < b < scope@.len() implies (
                #[trigger] scope@[a]).0@ != (#[trigger] scope@[b]).0@ by {
                    assert(scope@[a] == (if a < idx {
                        scope0[a]
                    } else {
                        scope0[a + 1]
                    }));
                    assert(scope@[b] == (if b < idx {
                        scope0[b]
                    } else {
                        scope0[b + 1]
                    }));
                }
                assert(scope_wf(scope@));
            }
        } else {
            proof {
                assert forall|n: Seq<char>|
                    spec_lookup(scope@, n) == if n == var_name@ {
                        None
                    } else {
                        spec_lookup(scope0, n)
                    } by {
                    if n == var_name@ {
                        lemma_lookup_absent(scope0, n);
                    }
                }
            }
        }
        let ghost new_top = scope@;
        self.exec_scopes.push(scope);
        proof {
            assert forall|i2: int| 0 <= i2 < self.exec_scopes@.len() implies scope_wf(
                (#[trigger] self.exec_scopes@[i2])@,
            ) by {
                if i2 < self.exec_scopes@.len() - 1 {
                    assert(self.exec_scopes@[i2] == old(self).exec_scopes@[i2]);
                } else {
                    assert(self.exec_scopes@[i2]@ == new_top);
                }
            }
        }
    }
}

impl Default for ExecutionScopes {
    fn default() -> (r: Self)
        ensures
            r.exec_scopes@.len() == 1,
            r.spec_top() =~= Seq::<(String, PyValueType)>::empty(),
            r.wf(),
    {
        Self::new()
    }
}

} // verus!
