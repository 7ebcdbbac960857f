//! Scopes that map variable names to the stack slots that hold them.
//!
//! A scope has bindings of its own and, optionally, an enclosing scope. Looking
//! a name up finds the binding of the innermost scope that has one.
use crate::llvm::IntSlot;
use vstd::hash_map::StringHashMap;
use vstd::prelude::*;

verus! {

/// The kind of value a slot holds.
#[derive(Debug, Clone, Copy, PartialEq, Eq, Structural)]
pub enum DataType {
    Number,
}

/// A slot: where its value is stored and the kind of value stored there.
#[derive(Clone, Copy)]
pub struct Pointer<'ctx> {
    pub ptr: IntSlot<'ctx>,
    pub data_type: DataType,
}

/// A scope: its own bindings, and the scope that encloses it, if any.
pub struct Env<'ctx> {
    parent: Option<Box<Env<'ctx>>>,
    symbols: StringHashMap<Pointer<'ctx>>,
}

/// What looking `name` up in `bindings` gives.
pub open spec fn lookup_in<'ctx>(bindings: Map<Seq<char>, Pointer<'ctx>>, name: Seq<char>) -> Option<Pointer<'ctx>> {
    if bindings.contains_key(name) {
        Some(bindings[name])
    } else {
        None
    }
}

impl<'ctx> Env<'ctx> {
    /// The bindings made in this scope itself.
    pub closed spec fn locals(&self) -> Map<Seq<char>, Pointer<'ctx>> {
        self.symbols@
    }

    /// The scope that encloses this one, if any.
    pub closed spec fn enclosing(&self) -> Option<Env<'ctx>> {
        match self.parent {
            Some(p) => Some(*p),
            None => None,
        }
    }

    /// The bindings visible from this scope: those of the enclosing scopes,
    /// shadowed by the ones made here.
    pub closed spec fn visible(&self) -> Map<Seq<char>, Pointer<'ctx>>
        decreases self,
    {
        match self.parent {
            Some(p) => p.visible().union_prefer_right(self.symbols@),
            None => self.symbols@,
        }
    }

    /// Whether this scope or one of the scopes around it binds `name`.
    pub closed spec fn binds_in_chain(&self, name: Seq<char>) -> bool
        decreases self,
    {
        self.symbols@.contains_key(name) || match self.parent {
            Some(p) => p.binds_in_chain(name),
            None => false,
        }
    }

    /// What looking `name` up from this scope gives.
    pub open spec fn lookup(&self, name: Seq<char>) -> Option<Pointer<'ctx>> {
        lookup_in(self.visible(), name)
    }

    /// A scope with no bindings of its own, inside `parent` if one is given.
    pub fn new(parent: Option<Box<Env<'ctx>>>) -> (env: Self)
        ensures
            env.locals() == Map::<Seq<char>, Pointer<'ctx>>::empty(),
            env.enclosing() == match parent {
                Some(p) => Some(*p),
                None => None::<Env<'ctx>>,
            },
            env.visible() == match parent {
                Some(p) => p.visible(),
                None => Map::<Seq<char>, Pointer<'ctx>>::empty(),
            },
    {
        let env = Env { parent, symbols: StringHashMap::new() };
        proof {
            if let Some(p) = &env.parent {
                assert(p.visible().union_prefer_right(env.symbols@) =~= p.visible());
            }
        }
        env
    }

    /// Binds `name` to `ptr` in this scope, replacing a binding of `name` made
    /// here before. Afterwards `name` is found bound to `ptr`, every other name
    /// is found as before, and the enclosing scopes are left as they were.
    pub fn add(&mut self, name: &str, ptr: Pointer<'ctx>)
        ensures
            final(self).locals() == old(self).locals().insert(name@, ptr),
            final(self).enclosing() == old(self).enclosing(),
            final(self).visible() == old(self).visible().insert(name@, ptr),
            final(self).lookup(name@) == Some(ptr),
            forall|other: Seq<char>|
                other != name@ ==> #[trigger] final(self).lookup(other) == old(self).lookup(other),
    {
        let key = name.to_string();
        self.symbols.insert(key, ptr);
        proof {
            if let Some(p) = &self.parent {
                assert(p.visible().union_prefer_right(self.symbols@) =~= p.visible().union_prefer_right(
                    old(self).symbols@,
                ).insert(name@, ptr));
            }
        }
    }

    /// The slot bound to `name` in the innermost scope that binds it, if any.
    pub fn get(&self, name: &str) -> (found: Option<Pointer<'ctx>>)
        ensures
            found == self.lookup(name@),
        decreases self,
    {
        match self.symbols.get(name) {
            Some(value) => Some(*value),
            None => match &self.parent {
                Some(p) => p.get(name),
                None => None,
            },
        }
    }
}

/// A binding made in a scope shadows the bindings of the same name in the
/// enclosing scopes; a name that a scope does not bind itself is looked up in
/// the enclosing scope, and is unbound where there is none.
pub proof fn law_inner_binding_shadows<'ctx>(env: Env<'ctx>, name: Seq<char>)
    ensures
        env.locals().contains_key(name) ==> env.lookup(name) == Some(env.locals()[name]),
        !env.locals().contains_key(name) ==> env.lookup(name) == match env.enclosing() {
            Some(outer) => outer.lookup(name),
            None => None::<Pointer<'ctx>>,
        },
{
}

/// A scope opened inside another sees exactly what the outer one sees, and a
/// scope opened on its own sees nothing.
pub proof fn law_new_scope_sees_enclosing<'ctx>(outer: Env<'ctx>, inner: Env<'ctx>, name: Seq<char>)
    requires
        inner.locals() == Map::<Seq<char>, Pointer<'ctx>>::empty(),
    ensures
        inner.enclosing() == Some(outer) ==> inner.lookup(name) == outer.lookup(name),
        inner.enclosing() is None ==> inner.lookup(name) is None,
{
    law_inner_binding_shadows(inner, name);
}

/// Looking a name up finds nothing exactly when no scope of the chain, this
/// one and those around it, binds the name: a lookup neither invents a
/// binding nor misses one.
pub proof fn law_lookup_none_iff_unbound<'ctx>(env: Env<'ctx>, name: Seq<char>)
    ensures
        env.lookup(name) is None <==> !env.binds_in_chain(name),
    decreases env,
{
    if let Some(p) = env.parent {
        law_lookup_none_iff_unbound(*p, name);
    }
}

/// The position of the last occurrence of `name` in `names`, or -1 if there is none.
pub open spec fn last_index_of(names: Seq<Seq<char>>, name: Seq<char>) -> int
    decreases names.len(),
{
    if names.len() == 0 {
        -1
    } else if names.last() == name {
        names.len() - 1
    } else {
        last_index_of(names.drop_last(), name)
    }
}

proof fn lemma_last_index_of_bounds(names: Seq<Seq<char>>, name: Seq<char>)
    ensures
        -1 <= last_index_of(names, name) < names.len(),
        last_index_of(names, name) >= 0 ==> names[last_index_of(names, name)] == name,
    decreases names.len(),
{
    if names.len() > 0 && names.last() != name {
        lemma_last_index_of_bounds(names.drop_last(), name);
    }
}

/// After a run of `add` calls on one scope, binding `names[i]` to `ptrs[i]` in
/// turn (`envs[i + 1]` is `envs[i]` after the call), looking a name up finds
/// what the last of those calls bound it to, and a name none of them bound is
/// found as before the run.
pub proof fn law_lookup_after_adds<'ctx>(
    envs: Seq<Env<'ctx>>,
    names: Seq<Seq<char>>,
    ptrs: Seq<Pointer<'ctx>>,
    name: Seq<char>,
)
    requires
        envs.len() == names.len() + 1,
        ptrs.len() == names.len(),
        forall|i: int|
            0 <= i < names.len() ==> #[trigger] envs[i + 1].visible() == envs[i].visible().insert(names[i], ptrs[i]),
    ensures
        envs.last().lookup(name) == if last_index_of(names, name) >= 0 {
            Some(ptrs[last_index_of(names, name)])
        } else {
            envs[0].lookup(name)
        },
    decreases names.len(),
{
    lemma_last_index_of_bounds(names, name);
    if names.len() > 0 {
        let k = names.len() - 1;
        let shorter = envs.drop_last();
        assert forall|i: int| 0 <= i < names.drop_last().len() implies #[trigger] shorter[i + 1].visible()
            == shorter[i].visible().insert(names.drop_last()[i], ptrs.drop_last()[i]) by {
            assert(envs[i + 1].visible() == envs[i].visible().insert(names[i], ptrs[i]));
        }
        law_lookup_after_adds(shorter, names.drop_last(), ptrs.drop_last(), name);
        assert(envs[k + 1].visible() == envs[k].visible().insert(names[k], ptrs[k]));
        assert(envs.last() == envs[k + 1]);
        assert(shorter.last() == envs[k]);
    }
}

} // verus!
