//! Who may change a project, its members and its tasks. Each check takes
//! what the store answered about the project (its owner, or `None` where it
//! was not found) and about the users involved.

use vstd::prelude::*;

verus! {

/// Why a change is refused.
#[derive(Debug, Clone, Copy, PartialEq, Eq, Structural)]
pub enum AccessError {
    /// The owner tried to add themself as a member.
    OwnerAsMember,
    /// The project does not exist, or the user cannot see it.
    ProjectNotFound,
    /// The user does not own the project.
    NotOwner,
    /// The user to add is a member already.
    AlreadyMember,
    /// The user to remove is not a member.
    NotMember,
    /// The user neither owns nor belongs to the project.
    NotParticipant,
}

impl AccessError {
    /// The message shown for this refusal.
    pub fn message(&self) -> (r: &'static str)
        ensures
            *self == AccessError::OwnerAsMember ==> r@ == "User is the owner of the project"@,
            *self == AccessError::ProjectNotFound ==> r@ == "Project not found"@,
            *self == AccessError::NotOwner ==> r@ == "User is not the owner of the project"@,
            *self == AccessError::AlreadyMember ==> r@ == "User is already a member of the project"@,
            *self == AccessError::NotMember ==> r@ == "User is not a member of the project"@,
            *self == AccessError::NotParticipant ==> r@
                == "User is not a member or owner of the project"@,
    {
        match self {
            AccessError::OwnerAsMember => "User is the owner of the project",
            AccessError::ProjectNotFound => "Project not found",
            AccessError::NotOwner => "User is not the owner of the project",
            AccessError::AlreadyMember => "User is already a member of the project",
            AccessError::NotMember => "User is not a member of the project",
            AccessError::NotParticipant => "User is not a member or owner of the project",
        }
    }
}

/// What deleting a project comes to for the user who asks.
#[derive(Debug, Clone, Copy, PartialEq, Eq, Structural)]
pub enum DeleteAction {
    /// The owner deletes the project.
    Delete,
    /// Anyone else leaves it instead.
    Leave,
}

/// Whether `owner_id` may change a project owned by `project_owner`.
pub fn check_project_owner(owner_id: u64, project_owner: Option<u64>) -> (r: Result<(), AccessError>)
    ensures
        r is Ok <==> project_owner == Some(owner_id),
        r == Err::<(), AccessError>(AccessError::ProjectNotFound) <==> project_owner is None,
        r == Err::<(), AccessError>(AccessError::NotOwner) <==> (project_owner matches Some(o)
            && o != owner_id),
{
    match project_owner {
        None => Err(AccessError::ProjectNotFound),
        Some(o) => if o == owner_id {
            Ok(())
        } else {
            Err(AccessError::NotOwner)
        },
    }
}

/// Whether `owner_id` may add `user_id` to a project owned by
/// `project_owner`, of which `user_id` is a member already or not.
pub fn check_add_member(owner_id: u64, user_id: u64, project_owner: Option<u64>, already_member: bool) -> (r:
    Result<(), AccessError>)
    ensures
        r is Ok <==> owner_id != user_id && project_owner == Some(owner_id) && !already_member,
        r == Err::<(), AccessError>(AccessError::OwnerAsMember) <==> owner_id == user_id,
        r == Err::<(), AccessError>(AccessError::ProjectNotFound) <==> owner_id != user_id
            && project_owner is None,
        r == Err::<(), AccessError>(AccessError::NotOwner) <==> owner_id != user_id && (
        project_owner matches Some(o) && o != owner_id),
        r == Err::<(), AccessError>(AccessError::AlreadyMember) <==> owner_id != user_id
            && project_owner == Some(owner_id) && already_member,
{
    if owner_id == user_id {
        return Err(AccessError::OwnerAsMember);
    }
    check_project_owner(owner_id, project_owner)?;
    if already_member {
        Err(AccessError::AlreadyMember)
    } else {
        Ok(())
    }
}

/// Whether `owner_id` may remove a user, member or not, from a project owned
/// by `project_owner`.
pub fn check_remove_member(owner_id: u64, project_owner: Option<u64>, is_member: bool) -> (r: Result<
    (),
    AccessError,
>)
    ensures
        r is Ok <==> project_owner == Some(owner_id) && is_member,
        r == Err::<(), AccessError>(AccessError::ProjectNotFound) <==> project_owner is None,
        r == Err::<(), AccessError>(AccessError::NotOwner) <==> (project_owner matches Some(o)
            && o != owner_id),
        r == Err::<(), AccessError>(AccessError::NotMember) <==> project_owner == Some(owner_id)
            && !is_member,
{
    match check_project_owner(owner_id, project_owner) {
        Err(e) => Err(e),
        Ok(()) => if is_member {
            Ok(())
        } else {
            Err(AccessError::NotMember)
        },
    }
}

/// What deleting a project owned by `project_owner` means for `user_id`.
pub fn delete_project_action(user_id: u64, project_owner: Option<u64>) -> (r: Result<
    DeleteAction,
    AccessError,
>)
    ensures
        r == Err::<DeleteAction, AccessError>(AccessError::ProjectNotFound) <==> project_owner is None,
        r == Ok::<DeleteAction, AccessError>(DeleteAction::Delete) <==> project_owner == Some(user_id),
        r == Ok::<DeleteAction, AccessError>(DeleteAction::Leave) <==> (project_owner matches Some(o)
            && o != user_id),
{
    match project_owner {
        None => Err(AccessError::ProjectNotFound),
        Some(o) => if o == user_id {
            Ok(DeleteAction::Delete)
        } else {
            Ok(DeleteAction::Leave)
        },
    }
}

/// Whether a user who is, or is not, a member and the owner of a project
/// may work on its tasks.
pub fn require_project_participant(is_member: bool, is_owner: bool) -> (r: Result<(), AccessError>)
    ensures
        r is Ok <==> is_member || is_owner,
        r is Err ==> r == Err::<(), AccessError>(AccessError::NotParticipant),
{
    if !is_member && !is_owner {
        Err(AccessError::NotParticipant)
    } else {
        Ok(())
    }
}

} // verus!
