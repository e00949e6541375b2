use vstd::prelude::*;
use std::sync::Arc;
use crate::pipeline::NamedSlots;

verus! {

/// Why an operator could not be resolved.
#[derive(Debug)]
pub enum OpError {
    /// No operator is registered under this name.
    NotFound { name: String },
}

/// Shared, immutable operators under symbolic names.
pub struct OpRegistry<T> {
    ops: NamedSlots<Arc<T>>,
}

impl<T> View for OpRegistry<T> {
    type V = Map<Seq<char>, Arc<T>>;

    closed spec fn view(&self) -> Map<Seq<char>, Arc<T>> {
        Map::new(
            |n: Seq<char>| self.ops.names().has(n),
            |n: Seq<char>| self.ops.items()[self.ops.names().slot(n)],
        )
    }
}

impl<T> OpRegistry<T> {
    /// A registry with no operator.
    pub fn new() -> (r: OpRegistry<T>)
        ensures
            r@ == Map::<Seq<char>, Arc<T>>::empty(),
    {
        let r = OpRegistry { ops: NamedSlots::new() };
        assert(r@ =~= Map::<Seq<char>, Arc<T>>::empty());
        r
    }

    /// Registers `op` under `name`, in place of any operator registered
    /// under that name before.
    pub fn register(&mut self, name: &str, op: Arc<T>)
        ensures
            final(self)@ == old(self)@.insert(name@, op),
    {
        let mut ops = NamedSlots::new();
        std::mem::swap(&mut self.ops, &mut ops);
        proof {
            use_type_invariant(&ops);
        }
        let ghost before = ops;
        let ops = ops.push_named(name, op);
        proof {
            use_type_invariant(&ops);
            if before.names().has(name@) {
                assert(before.names()@[before.names().slot(name@)] == name@);
            }
            assert forall|n: Seq<char>| #[trigger] ops.names().has(n) && n != name@ implies
                before.names().has(n) && ops.names().slot(n) == before.names().slot(n) by {
                let k = ops.names().slot(n);
                assert(0 <= k < ops.names()@.len() && ops.names()@[k] == n);
                if !before.names().has(name@) {
                    assert(k < before.names()@.len());
                }
                assert(before.names()@[k] == n);
                assert(before.names()@.contains(n));
            }
            assert forall|n: Seq<char>| #[trigger] before.names().has(n) implies ops.names().has(n) by {
                let k = before.names().slot(n);
                assert(ops.names()@[k] == n);
            }
            let k0 = ops.names().slot(name@);
            assert(ops.names().has(name@)) by {
                if before.names().has(name@) {
                    assert(ops.names()@[before.names().slot(name@)] == name@);
                } else {
                    assert(ops.names()@[before.names()@.len() as int] == name@);
                }
            }
            assert(0 <= k0 < ops.names()@.len() && ops.names()@[k0] == name@);
            assert(ops.items()[k0] == op) by {
                if before.names().has(name@) {
                    let b0 = before.names().slot(name@);
                    assert(ops.names()@[b0] == name@);
                } else {
                    assert(ops.names()@[before.names()@.len() as int] == name@);
                }
            }
            assert forall|n: Seq<char>| #[trigger] before.names().has(n) && n != name@ implies
                ops.items()[ops.names().slot(n)] == before.items()[before.names().slot(n)] by {
                let k = before.names().slot(n);
                assert(0 <= k < before.names()@.len() && before.names()@[k] == n);
                if before.names().has(name@) {
                    assert(before.names()@[before.names().slot(name@)] == name@);
                    assert(k != before.names().slot(name@));
                }
            }
            let m = OpRegistry { ops }@;
            assert(m =~= old(self)@.insert(name@, op));
        }
        self.ops = ops;
    }

    /// The operator registered under `key`.
    pub fn arc_to(&self, key: &str) -> (r: Result<Arc<T>, OpError>)
        ensures
            match r {
                Ok(op) => self@.contains_key(key@) && op == self@[key@],
                Err(OpError::NotFound { name }) => !self@.contains_key(key@) && name@ == key@,
            },
    {
        match self.ops.get(key) {
            Some(op) => Ok(op.clone()),
            None => Err(OpError::NotFound { name: key.to_owned() }),
        }
    }
}

/// Resolving a name right after registering an operator under it gives that
/// operator; every other name resolves, or fails to, as it did before; and
/// in a registry that nothing was registered in, every name fails.
pub proof fn lemma_resolve_after_register<T>(
    registry: OpRegistry<T>,
    name: Seq<char>,
    op: Arc<T>,
    other: Seq<char>,
)
    requires
        other != name,
    ensures
        registry@.insert(name, op).contains_key(name),
        registry@.insert(name, op)[name] == op,
        registry@.insert(name, op).contains_key(other) == registry@.contains_key(other),
        registry@.contains_key(other) ==> registry@.insert(name, op)[other] == registry@[other],
        !Map::<Seq<char>, Arc<T>>::empty().contains_key(name),
{
}

} // verus!
