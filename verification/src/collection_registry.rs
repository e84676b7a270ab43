//! The names of the collections that exist. A name that a collection was
//! created under is taken until that collection is deleted.

use vstd::prelude::*;
use crate::collection_ops::{
    CreateCollectionOperation, CreateCollectionOperationView, DeleteCollectionOperation,
};
use crate::keyed;
use crate::shard_distribution::ShardDistributionProposal;

verus! {

/// Why a collection is not created.
#[derive(Debug, PartialEq, Eq, Hash, Clone, Copy, Structural)]
pub enum CreateCollectionError {
    /// The command carries no distribution of the shards: at the time a
    /// command is applied its slot has to be filled.
    DistributionNotSet,
    /// A collection of this name exists.
    AlreadyExists,
}

/// What a create command makes of the names `names`: the names with the new
/// one among them, and the distribution that the command carried. A command
/// without a distribution is refused before its name is looked at.
pub open spec fn spec_create(names: Set<Seq<char>>, operation: CreateCollectionOperationView)
    -> Result<(Set<Seq<char>>, ShardDistributionProposal), CreateCollectionError> {
    match operation.distribution {
        None => Err(CreateCollectionError::DistributionNotSet),
        Some(distribution) => if names.contains(operation.collection_name) {
            Err(CreateCollectionError::AlreadyExists)
        } else {
            Ok((names.insert(operation.collection_name), distribution))
        },
    }
}

/// A name is taken from the creation of its collection until the deletion:
/// a second creation under it is refused, and after the deletion the name
/// is free again.
pub proof fn lemma_name_is_unique_until_deleted(
    names: Set<Seq<char>>,
    first: CreateCollectionOperationView,
    second: CreateCollectionOperationView,
)
    requires
        spec_create(names, first) is Ok,
        second.collection_name == first.collection_name,
        second.distribution is Some,
    ensures
        spec_create(spec_create(names, first)->Ok_0.0, second) == Err::<
            (Set<Seq<char>>, ShardDistributionProposal),
            _,
        >(CreateCollectionError::AlreadyExists),
        spec_create(spec_create(names, first)->Ok_0.0.remove(first.collection_name), second)
            is Ok,
        spec_create(names, first)->Ok_0.0.remove(first.collection_name) == names,
{
    let created = spec_create(names, first)->Ok_0.0;
    assert(created.remove(first.collection_name) =~= names);
}

/// The key of an entry: the name itself.
spec fn name_of() -> spec_fn(String) -> Seq<char> {
    |name: String| name@
}

/// An entry holds nothing beside its name.
spec fn nothing() -> spec_fn(String) -> () {
    |name: String| ()
}

/// The names as a set.
spec fn as_set(names: Seq<String>) -> Set<Seq<char>> {
    keyed::as_map(names, name_of(), nothing()).dom()
}

/// Where `name` is recorded, if it is.
fn find(names: &Vec<String>, name: &String) -> (found: Option<usize>)
    ensures
        match found {
            Some(i) => keyed::holds(names@, name_of(), i as int, name@),
            None => !keyed::has_key(names@, name_of(), name@),
        },
{
    let n = names.len();
    let mut i: usize = 0;
    while i < n
        invariant
            n == names@.len(),
            i <= n,
            forall|k: int| 0 <= k < i ==> !keyed::holds(names@, name_of(), k, name@),
        decreases n - i,
    {
        if names[i] == *name {
            return Some(i);
        }
        i = i + 1;
    }
    None
}

/// The collections that exist, by name. No name is recorded twice.
#[derive(Debug)]
pub struct CollectionRegistry {
    names: Vec<String>,
}

impl View for CollectionRegistry {
    type V = Set<Seq<char>>;

    /// The names of the collections that exist.
    closed spec fn view(&self) -> Set<Seq<char>> {
        as_set(self.names@)
    }
}

impl CollectionRegistry {
    #[verifier::type_invariant]
    spec fn no_name_twice(self) -> bool {
        keyed::distinct(self.names@, name_of())
    }

    /// The registry of a cluster without collections.
    pub fn new() -> (registry: Self)
        ensures
            registry@ == Set::<Seq<char>>::empty(),
    {
        let registry = CollectionRegistry { names: Vec::new() };
        assert(registry@ =~= Set::<Seq<char>>::empty());
        registry
    }

    /// Whether a collection of this name exists.
    pub fn contains(&self, name: &String) -> (exists: bool)
        ensures
            exists == self@.contains(name@),
    {
        find(&self.names, name).is_some()
    }

    /// Applies a create command. The distribution is taken out of the command
    /// and handed to the caller, and the name is recorded. A command that is
    /// refused stays as it is, and so does the registry.
    pub fn apply_create(&mut self, operation: &mut CreateCollectionOperation) -> (outcome: Result<
        ShardDistributionProposal,
        CreateCollectionError,
    >)
        ensures
            match spec_create(old(self)@, old(operation)@) {
                Ok((names, distribution)) => {
                    &&& outcome == Ok::<_, CreateCollectionError>(distribution)
                    &&& final(self)@ == names
                    &&& final(operation)@ == old(operation)@.without_distribution()
                },
                Err(error) => {
                    &&& outcome == Err::<ShardDistributionProposal, _>(error)
                    &&& final(self)@ == old(self)@
                    &&& final(operation)@ == old(operation)@
                },
            },
    {
        proof {
            use_type_invariant(&*self);
        }
        if !operation.is_distribution_set() {
            return Err(CreateCollectionError::DistributionNotSet);
        }
        if find(&self.names, operation.name()).is_some() {
            return Err(CreateCollectionError::AlreadyExists);
        }
        let name = operation.name().clone();
        let mut names: Vec<String> = Vec::new();
        std::mem::swap(&mut names, &mut self.names);
        proof {
            keyed::lemma_push(names@, name_of(), nothing(), name);
        }
        names.push(name);
        self.names = names;
        let distribution = operation.take_distribution();
        Ok(distribution.unwrap())
    }

    /// Applies a delete command: the name is free again. Says whether a
    /// collection of that name existed.
    pub fn apply_delete(&mut self, operation: &DeleteCollectionOperation) -> (existed: bool)
        ensures
            existed == old(self)@.contains(operation.0@),
            final(self)@ == old(self)@.remove(operation.0@),
    {
        proof {
            use_type_invariant(&*self);
        }
        match find(&self.names, &operation.0) {
            Some(i) => {
                let mut names: Vec<String> = Vec::new();
                std::mem::swap(&mut names, &mut self.names);
                proof {
                    keyed::lemma_remove(names@, name_of(), nothing(), i as int);
                }
                names.remove(i);
                self.names = names;
                true
            },
            None => {
                assert(self@.remove(operation.0@) =~= self@);
                false
            },
        }
    }
}

} // verus!
