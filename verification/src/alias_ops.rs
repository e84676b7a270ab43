//! The three alias mutations and the batch that carries them.

use vstd::prelude::*;
use vstd::std_specs::convert::FromSpecImpl;
use crate::validation::ValidationError;

verus! {

/// Create alternative name for a collection.
/// Collection will be available under both names for search, retrieve,
#[derive(Debug, PartialEq, Eq, Hash, Clone)]
pub struct CreateAlias {
    pub collection_name: String,
    pub alias_name: String,
}

#[derive(Debug, PartialEq, Eq, Hash, Clone)]
pub struct CreateAliasOperation {
    pub create_alias: CreateAlias,
}

/// Delete alias if exists
#[derive(Debug, PartialEq, Eq, Hash, Clone)]
pub struct DeleteAlias {
    pub alias_name: String,
}

/// Delete alias if exists
#[derive(Debug, PartialEq, Eq, Hash, Clone)]
pub struct DeleteAliasOperation {
    pub delete_alias: DeleteAlias,
}

/// Change alias to a new one
#[derive(Debug, PartialEq, Eq, Hash, Clone)]
pub struct RenameAlias {
    pub old_alias_name: String,
    pub new_alias_name: String,
}

/// Change alias to a new one
#[derive(Debug, PartialEq, Eq, Hash, Clone)]
pub struct RenameAliasOperation {
    pub rename_alias: RenameAlias,
}

/// Group of all the possible operations related to collection aliases
#[derive(Debug, PartialEq, Eq, Hash, Clone)]
pub enum AliasOperations {
    CreateAlias(CreateAliasOperation),
    DeleteAlias(DeleteAliasOperation),
    RenameAlias(RenameAliasOperation),
}

impl From<CreateAlias> for AliasOperations {
    fn from(create_alias: CreateAlias) -> (op: Self) {
        AliasOperations::CreateAlias(CreateAliasOperation { create_alias })
    }
}

impl FromSpecImpl<CreateAlias> for AliasOperations {
    open spec fn obeys_from_spec() -> bool {
        true
    }

    open spec fn from_spec(create_alias: CreateAlias) -> Self {
        AliasOperations::CreateAlias(CreateAliasOperation { create_alias })
    }
}

impl From<DeleteAlias> for AliasOperations {
    fn from(delete_alias: DeleteAlias) -> (op: Self) {
        AliasOperations::DeleteAlias(DeleteAliasOperation { delete_alias })
    }
}

impl FromSpecImpl<DeleteAlias> for AliasOperations {
    open spec fn obeys_from_spec() -> bool {
        true
    }

    open spec fn from_spec(delete_alias: DeleteAlias) -> Self {
        AliasOperations::DeleteAlias(DeleteAliasOperation { delete_alias })
    }
}

impl From<RenameAlias> for AliasOperations {
    fn from(rename_alias: RenameAlias) -> (op: Self) {
        AliasOperations::RenameAlias(RenameAliasOperation { rename_alias })
    }
}

impl FromSpecImpl<RenameAlias> for AliasOperations {
    open spec fn obeys_from_spec() -> bool {
        true
    }

    open spec fn from_spec(rename_alias: RenameAlias) -> Self {
        AliasOperations::RenameAlias(RenameAliasOperation { rename_alias })
    }
}

/// Operation for performing changes of collection aliases.
/// Alias changes are atomic, meaning that no collection modifications can happen between
/// alias operations.
#[derive(Debug, PartialEq, Eq, Hash, Clone)]
pub struct ChangeAliasesOperation {
    pub actions: Vec<AliasOperations>,
}

impl AliasOperations {
    /// The action binds an alias to a collection without a name.
    pub open spec fn names_no_collection(self) -> bool {
        self matches AliasOperations::CreateAlias(op) && op.create_alias.collection_name@.len()
            == 0
    }

    /// Whether the action binds an alias to a collection without a name.
    pub fn has_empty_collection_name(&self) -> (empty: bool)
        ensures
            empty == self.names_no_collection(),
    {
        match self {
            AliasOperations::CreateAlias(op) => op.create_alias.collection_name.as_str().is_empty(),
            _ => false,
        }
    }
}

/// Why the parts of an encoded alias action do not make an action.
#[derive(Debug, PartialEq, Eq, Hash, Clone, Copy, Structural)]
pub enum AliasShapeError {
    /// None of the three shapes is there.
    NoAction,
    /// More than one of the three shapes is there.
    AmbiguousAction,
}

/// An alias action as it is written down: three places, one for each kind
/// of action, of which exactly one is filled.
#[derive(Debug, PartialEq, Eq, Hash, Clone)]
pub struct AliasActionParts {
    pub create_alias: Option<CreateAlias>,
    pub delete_alias: Option<DeleteAlias>,
    pub rename_alias: Option<RenameAlias>,
}

impl AliasActionParts {
    /// The action that these parts make: the one that is there, where exactly
    /// one is.
    pub open spec fn spec_into_action(self) -> Result<AliasOperations, AliasShapeError> {
        match (self.create_alias, self.delete_alias, self.rename_alias) {
            (Some(create_alias), None, None) => Ok(
                AliasOperations::CreateAlias(CreateAliasOperation { create_alias }),
            ),
            (None, Some(delete_alias), None) => Ok(
                AliasOperations::DeleteAlias(DeleteAliasOperation { delete_alias }),
            ),
            (None, None, Some(rename_alias)) => Ok(
                AliasOperations::RenameAlias(RenameAliasOperation { rename_alias }),
            ),
            (None, None, None) => Err(AliasShapeError::NoAction),
            _ => Err(AliasShapeError::AmbiguousAction),
        }
    }

    /// The parts under which `action` is written down.
    pub open spec fn spec_of(action: AliasOperations) -> Self {
        match action {
            AliasOperations::CreateAlias(op) => AliasActionParts {
                create_alias: Some(op.create_alias),
                delete_alias: None,
                rename_alias: None,
            },
            AliasOperations::DeleteAlias(op) => AliasActionParts {
                create_alias: None,
                delete_alias: Some(op.delete_alias),
                rename_alias: None,
            },
            AliasOperations::RenameAlias(op) => AliasActionParts {
                create_alias: None,
                delete_alias: None,
                rename_alias: Some(op.rename_alias),
            },
        }
    }

    /// Reads the parts as an action, and refuses parts that hold no action
    /// or more than one.
    pub fn into_action(self) -> (action: Result<AliasOperations, AliasShapeError>)
        ensures
            action == self.spec_into_action(),
    {
        match (self.create_alias, self.delete_alias, self.rename_alias) {
            (Some(create_alias), None, None) => Ok(
                AliasOperations::CreateAlias(CreateAliasOperation { create_alias }),
            ),
            (None, Some(delete_alias), None) => Ok(
                AliasOperations::DeleteAlias(DeleteAliasOperation { delete_alias }),
            ),
            (None, None, Some(rename_alias)) => Ok(
                AliasOperations::RenameAlias(RenameAliasOperation { rename_alias }),
            ),
            (None, None, None) => Err(AliasShapeError::NoAction),
            _ => Err(AliasShapeError::AmbiguousAction),
        }
    }

    /// Writes an action down as its parts.
    pub fn of(action: AliasOperations) -> (parts: Self)
        ensures
            parts == Self::spec_of(action),
    {
        match action {
            AliasOperations::CreateAlias(op) => AliasActionParts {
                create_alias: Some(op.create_alias),
                delete_alias: None,
                rename_alias: None,
            },
            AliasOperations::DeleteAlias(op) => AliasActionParts {
                create_alias: None,
                delete_alias: Some(op.delete_alias),
                rename_alias: None,
            },
            AliasOperations::RenameAlias(op) => AliasActionParts {
                create_alias: None,
                delete_alias: None,
                rename_alias: Some(op.rename_alias),
            },
        }
    }
}

/// An action that is written down as its parts and read again is the same
/// action: the three shapes exclude one another.
pub proof fn lemma_parts_round_trip(action: AliasOperations)
    ensures
        AliasActionParts::spec_of(action).spec_into_action() == Ok::<_, AliasShapeError>(action),
{
}

/// Parts are read as an action exactly when one of them is there.
pub proof fn lemma_parts_accepted_iff_one(parts: AliasActionParts)
    ensures
        parts.spec_into_action() is Ok <==> (if parts.create_alias is Some {
            1int
        } else {
            0int
        }) + (if parts.delete_alias is Some {
            1int
        } else {
            0int
        }) + (if parts.rename_alias is Some {
            1int
        } else {
            0int
        }) == 1,
        parts.spec_into_action() matches Ok(action) ==> AliasActionParts::spec_of(action)
            == parts,
{
}

impl ChangeAliasesOperation {
    /// The verdict on this batch: every collection that an alias is to be
    /// bound to has a name.
    pub open spec fn spec_validate(self) -> Result<(), ValidationError> {
        if exists|i: int|
            0 <= i < self.actions@.len() && (#[trigger] self.actions@[i]).names_no_collection() {
            Err(ValidationError::EmptyCollectionName)
        } else {
            Ok(())
        }
    }

    /// Judges the batch before it may be logged.
    pub fn validate(&self) -> (verdict: Result<(), ValidationError>)
        ensures
            verdict == self.spec_validate(),
    {
        let n = self.actions.len();
        let mut i: usize = 0;
        while i < n
            invariant
                n == self.actions@.len(),
                i <= n,
                forall|k: int| 0 <= k < i ==> !(#[trigger] self.actions@[k]).names_no_collection(),
            decreases n - i,
        {
            if self.actions[i].has_empty_collection_name() {
                return Err(ValidationError::EmptyCollectionName);
            }
            i = i + 1;
        }
        Ok(())
    }
}

} // verus!
