//! The alias namespace of the cluster and the way a batch of alias actions
//! changes it: all of the batch, or nothing.

use vstd::prelude::*;
use crate::alias_ops::{AliasOperations, ChangeAliasesOperation};
use crate::keyed;

verus! {

/// Why a single alias action cannot be carried out.
#[derive(Debug, PartialEq, Eq, Hash, Clone, Copy, Structural)]
pub enum AliasError {
    /// The alias to create, or the new name of a rename, is bound already.
    Conflict,
    /// The alias to delete or to rename is not bound.
    NotFound,
}

/// Why a batch of alias actions was refused as a whole.
#[derive(Debug, PartialEq, Eq, Hash, Clone, Copy, Structural)]
pub struct AliasBatchError {
    /// Position in the batch of the first action that failed.
    pub action: usize,
    pub error: AliasError,
}

/// What one action makes of the bindings `aliases`, from alias to collection.
///
/// - Create binds a new alias; an alias that is bound already is a conflict.
/// - Delete unbinds an alias; an alias that is not bound is not found.
/// - Rename moves a binding to a new alias. An old alias that is not bound
///   is not found; this is judged first. A new alias that is bound already,
///   the old one included, is a conflict.
pub open spec fn spec_apply_action(
    aliases: Map<Seq<char>, Seq<char>>,
    action: AliasOperations,
) -> Result<Map<Seq<char>, Seq<char>>, AliasError> {
    match action {
        AliasOperations::CreateAlias(op) => {
            if aliases.contains_key(op.create_alias.alias_name@) {
                Err(AliasError::Conflict)
            } else {
                Ok(aliases.insert(op.create_alias.alias_name@, op.create_alias.collection_name@))
            }
        },
        AliasOperations::DeleteAlias(op) => {
            if aliases.contains_key(op.delete_alias.alias_name@) {
                Ok(aliases.remove(op.delete_alias.alias_name@))
            } else {
                Err(AliasError::NotFound)
            }
        },
        AliasOperations::RenameAlias(op) => {
            if !aliases.contains_key(op.rename_alias.old_alias_name@) {
                Err(AliasError::NotFound)
            } else if aliases.contains_key(op.rename_alias.new_alias_name@) {
                Err(AliasError::Conflict)
            } else {
                Ok(
                    aliases.remove(op.rename_alias.old_alias_name@).insert(
                        op.rename_alias.new_alias_name@,
                        aliases[op.rename_alias.old_alias_name@],
                    ),
                )
            }
        },
    }
}

/// What the first `n` actions of a batch make of `aliases`, each applied to
/// what the one before it left: the bindings after the last of them, or the
/// first failure with its position.
pub open spec fn spec_apply_prefix(
    aliases: Map<Seq<char>, Seq<char>>,
    actions: Seq<AliasOperations>,
    n: nat,
) -> Result<Map<Seq<char>, Seq<char>>, AliasBatchError>
    decreases n,
{
    if n == 0 {
        Ok(aliases)
    } else {
        match spec_apply_prefix(aliases, actions, (n - 1) as nat) {
            Err(failure) => Err(failure),
            Ok(before) => match spec_apply_action(before, actions[n - 1]) {
                Ok(after) => Ok(after),
                Err(error) => Err(AliasBatchError { action: (n - 1) as usize, error }),
            },
        }
    }
}

/// What a whole batch makes of `aliases`.
pub open spec fn spec_apply_batch(
    aliases: Map<Seq<char>, Seq<char>>,
    actions: Seq<AliasOperations>,
) -> Result<Map<Seq<char>, Seq<char>>, AliasBatchError> {
    spec_apply_prefix(aliases, actions, actions.len())
}

/// A batch whose action at position `k` fails, after all actions before it
/// went through, fails as a whole with that action's error, whatever follows.
pub proof fn lemma_batch_fails_at_first_failure(
    aliases: Map<Seq<char>, Seq<char>>,
    actions: Seq<AliasOperations>,
    k: nat,
    n: nat,
)
    requires
        k < n <= actions.len(),
        k <= usize::MAX,
        spec_apply_prefix(aliases, actions, k) is Ok,
        spec_apply_action(spec_apply_prefix(aliases, actions, k)->Ok_0, actions[k as int]) is Err,
    ensures
        spec_apply_prefix(aliases, actions, n) == Err::<Map<Seq<char>, Seq<char>>, _>(
            AliasBatchError {
                action: k as usize,
                error: spec_apply_action(
                    spec_apply_prefix(aliases, actions, k)->Ok_0,
                    actions[k as int],
                )->Err_0,
            },
        ),
    decreases n,
{
    if n > k + 1 {
        lemma_batch_fails_at_first_failure(aliases, actions, k, (n - 1) as nat);
    }
}

/// The alias of a binding.
spec fn alias_of() -> spec_fn((String, String)) -> Seq<char> {
    |binding: (String, String)| binding.0@
}

/// The collection of a binding.
spec fn collection_of() -> spec_fn((String, String)) -> Seq<char> {
    |binding: (String, String)| binding.1@
}

/// No alias is bound twice.
spec fn distinct(bindings: Seq<(String, String)>) -> bool {
    keyed::distinct(bindings, alias_of())
}

/// The bindings as a map from alias to collection.
spec fn as_map(bindings: Seq<(String, String)>) -> Map<Seq<char>, Seq<char>> {
    keyed::as_map(bindings, alias_of(), collection_of())
}

/// Where `alias` is bound, if it is.
fn find(bindings: &Vec<(String, String)>, alias: &String) -> (found: Option<usize>)
    ensures
        match found {
            Some(i) => keyed::holds(bindings@, alias_of(), i as int, alias@),
            None => !keyed::has_key(bindings@, alias_of(), alias@),
        },
{
    let n = bindings.len();
    let mut i: usize = 0;
    while i < n
        invariant
            n == bindings@.len(),
            i <= n,
            forall|k: int| 0 <= k < i ==> !keyed::holds(bindings@, alias_of(), k, alias@),
        decreases n - i,
    {
        if bindings[i].0 == *alias {
            return Some(i);
        }
        i = i + 1;
    }
    None
}

/// The same bindings in a vector of their own.
fn copy_of(bindings: &Vec<(String, String)>) -> (copy: Vec<(String, String)>)
    ensures
        copy@ == bindings@,
{
    let n = bindings.len();
    let mut copy: Vec<(String, String)> = Vec::new();
    let mut i: usize = 0;
    while i < n
        invariant
            n == bindings@.len(),
            i <= n,
            copy@ == bindings@.subrange(0, i as int),
        decreases n - i,
    {
        let entry = (bindings[i].0.clone(), bindings[i].1.clone());
        copy.push(entry);
        assert(copy@ =~= bindings@.subrange(0, i + 1));
        i = i + 1;
    }
    assert(copy@ =~= bindings@);
    copy
}

/// Carries out one action on the bindings, or leaves them as they are.
fn apply_to(bindings: &mut Vec<(String, String)>, action: &AliasOperations) -> (outcome: Result<
    (),
    AliasError,
>)
    requires
        distinct(old(bindings)@),
    ensures
        distinct(final(bindings)@),
        match spec_apply_action(as_map(old(bindings)@), *action) {
            Ok(after) => outcome is Ok && as_map(final(bindings)@) == after,
            Err(error) => outcome == Err::<(), _>(error) && final(bindings)@ == old(bindings)@,
        },
{
    match action {
        AliasOperations::CreateAlias(op) => {
            match find(bindings, &op.create_alias.alias_name) {
                Some(i) => {
                    proof {
                        keyed::lemma_entry(bindings@, alias_of(), collection_of(), i as int);
                    }
                    Err(AliasError::Conflict)
                },
                None => {
                    let entry = (
                        op.create_alias.alias_name.clone(),
                        op.create_alias.collection_name.clone(),
                    );
                    proof {
                        keyed::lemma_push(bindings@, alias_of(), collection_of(), entry);
                    }
                    bindings.push(entry);
                    Ok(())
                },
            }
        },
        AliasOperations::DeleteAlias(op) => {
            match find(bindings, &op.delete_alias.alias_name) {
                Some(i) => {
                    proof {
                        keyed::lemma_entry(bindings@, alias_of(), collection_of(), i as int);
                        keyed::lemma_remove(bindings@, alias_of(), collection_of(), i as int);
                    }
                    bindings.remove(i);
                    Ok(())
                },
                None => Err(AliasError::NotFound),
            }
        },
        AliasOperations::RenameAlias(op) => {
            match find(bindings, &op.rename_alias.old_alias_name) {
                None => Err(AliasError::NotFound),
                Some(i) => {
                    proof {
                        keyed::lemma_entry(bindings@, alias_of(), collection_of(), i as int);
                    }
                    match find(bindings, &op.rename_alias.new_alias_name) {
                        Some(j) => {
                            proof {
                                keyed::lemma_entry(bindings@, alias_of(), collection_of(), j as int);
                            }
                            Err(AliasError::Conflict)
                        },
                        None => {
                            let ghost before = bindings@;
                            proof {
                                keyed::lemma_remove(before, alias_of(), collection_of(), i as int);
                            }
                            let moved = bindings.remove(i);
                            let entry = (op.rename_alias.new_alias_name.clone(), moved.1);
                            proof {
                                assert(!as_map(before).contains_key(entry.0@));
                                assert(!as_map(bindings@).contains_key(entry.0@));
                                keyed::lemma_push(bindings@, alias_of(), collection_of(), entry);
                            }
                            bindings.push(entry);
                            Ok(())
                        },
                    }
                },
            }
        },
    }
}

/// The aliases of the cluster: each alias names exactly one collection, and
/// no alias is bound twice.
#[derive(Debug)]
pub struct AliasNamespace {
    bindings: Vec<(String, String)>,
}

impl View for AliasNamespace {
    type V = Map<Seq<char>, Seq<char>>;

    /// The bindings, from alias to collection.
    closed spec fn view(&self) -> Map<Seq<char>, Seq<char>> {
        as_map(self.bindings@)
    }
}

impl AliasNamespace {
    #[verifier::type_invariant]
    spec fn no_alias_twice(self) -> bool {
        distinct(self.bindings@)
    }

    /// A namespace without aliases.
    pub fn new() -> (namespace: Self)
        ensures
            namespace@ == Map::<Seq<char>, Seq<char>>::empty(),
    {
        let namespace = AliasNamespace { bindings: Vec::new() };
        assert(namespace@ =~= Map::<Seq<char>, Seq<char>>::empty());
        namespace
    }

    /// The collection that `alias` names, if it names one.
    pub fn resolve(&self, alias: &String) -> (collection: Option<String>)
        ensures
            match collection {
                Some(name) => self@.contains_key(alias@) && self@[alias@] == name@,
                None => !self@.contains_key(alias@),
            },
    {
        proof {
            use_type_invariant(self);
        }
        match find(&self.bindings, alias) {
            Some(i) => {
                proof {
                    keyed::lemma_entry(self.bindings@, alias_of(), collection_of(), i as int);
                }
                Some(self.bindings[i].1.clone())
            },
            None => None,
        }
    }

    /// Carries out one action, or leaves the namespace as it is and says why.
    pub fn apply_action(&mut self, action: &AliasOperations) -> (outcome: Result<(), AliasError>)
        ensures
            match spec_apply_action(old(self)@, *action) {
                Ok(after) => outcome is Ok && final(self)@ == after,
                Err(error) => outcome == Err::<(), _>(error) && final(self)@ == old(self)@,
            },
    {
        proof {
            use_type_invariant(&*self);
        }
        let mut bindings: Vec<(String, String)> = Vec::new();
        std::mem::swap(&mut bindings, &mut self.bindings);
        let outcome = apply_to(&mut bindings, action);
        self.bindings = bindings;
        outcome
    }

    /// Carries out a batch of actions as one step. The actions are applied in
    /// order, each to what the one before it left. If one of them fails, the
    /// batch fails with it and the namespace stays exactly as it was before
    /// the batch.
    pub fn apply(&mut self, operation: &ChangeAliasesOperation) -> (outcome: Result<
        (),
        AliasBatchError,
    >)
        ensures
            match spec_apply_batch(old(self)@, operation.actions@) {
                Ok(after) => outcome is Ok && final(self)@ == after,
                Err(failure) => outcome == Err::<(), _>(failure) && final(self)@ == old(self)@,
            },
    {
        proof {
            use_type_invariant(&*self);
        }
        let mut work = copy_of(&self.bindings);
        let n = operation.actions.len();
        let mut i: usize = 0;
        while i < n
            invariant
                n == operation.actions@.len(),
                i <= n,
                distinct(work@),
                spec_apply_prefix(self@, operation.actions@, i as nat) == Ok::<_, AliasBatchError>(
                    as_map(work@),
                ),
            decreases n - i,
        {
            match apply_to(&mut work, &operation.actions[i]) {
                Ok(()) => {},
                Err(error) => {
                    proof {
                        lemma_batch_fails_at_first_failure(
                            self@,
                            operation.actions@,
                            i as nat,
                            n as nat,
                        );
                    }
                    return Err(AliasBatchError { action: i, error });
                },
            }
            i = i + 1;
        }
        self.bindings = work;
        Ok(())
    }
}

} // verus!
