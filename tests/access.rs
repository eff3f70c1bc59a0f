use krakker::access::{
    check_add_member, check_project_owner, check_remove_member, delete_project_action,
    require_project_participant, AccessError, DeleteAction,
};

#[test]
fn owner_may_change_project() {
    assert_eq!(check_project_owner(1, Some(1)), Ok(()));
    assert_eq!(check_project_owner(1, Some(2)), Err(AccessError::NotOwner));
    assert_eq!(check_project_owner(1, None), Err(AccessError::ProjectNotFound));
}

#[test]
fn adding_members() {
    assert_eq!(check_add_member(1, 2, Some(1), false), Ok(()));
    assert_eq!(check_add_member(1, 1, Some(1), false), Err(AccessError::OwnerAsMember));
    assert_eq!(check_add_member(1, 2, None, false), Err(AccessError::ProjectNotFound));
    assert_eq!(check_add_member(1, 2, Some(3), false), Err(AccessError::NotOwner));
    assert_eq!(check_add_member(1, 2, Some(1), true), Err(AccessError::AlreadyMember));
}

#[test]
fn removing_members() {
    assert_eq!(check_remove_member(1, Some(1), true), Ok(()));
    assert_eq!(check_remove_member(1, Some(1), false), Err(AccessError::NotMember));
    assert_eq!(check_remove_member(1, Some(4), true), Err(AccessError::NotOwner));
    assert_eq!(check_remove_member(1, None, true), Err(AccessError::ProjectNotFound));
}

#[test]
fn deleting_projects() {
    assert_eq!(delete_project_action(1, Some(1)), Ok(DeleteAction::Delete));
    assert_eq!(delete_project_action(1, Some(2)), Ok(DeleteAction::Leave));
    assert_eq!(delete_project_action(1, None), Err(AccessError::ProjectNotFound));
}

#[test]
fn participants_only() {
    assert_eq!(require_project_participant(true, false), Ok(()));
    assert_eq!(require_project_participant(false, true), Ok(()));
    assert_eq!(require_project_participant(false, false), Err(AccessError::NotParticipant));
    assert_eq!(AccessError::NotParticipant.message(), "User is not a member or owner of the project");
}
