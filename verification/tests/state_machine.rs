use convit::app::{App, CommitStatus, CurrentScreen, CurrentlyEditing};
use convit::catalog::{CommitFooter, CommitType};
use convit::errors::ConvitError;
use convit::select::NavigateOp;

#[test]
fn a_fresh_session_starts_on_the_main_screen() {
    let a = App::new();
    assert_eq!(a.current_screen(), CurrentScreen::Main);
    assert_eq!(a.current_editing_field(), None);
    assert_eq!(a.selected_index(), None);
    assert_eq!(a.commit_status(), CommitStatus::Unready);
    assert!(a.draft_snapshot().commit_type.is_none());
}

#[test]
fn begin_edit_enters_the_editing_screen() {
    let mut a = App::new();
    assert_eq!(a.begin_edit(CurrentlyEditing::CommitType), Ok(()));
    assert_eq!(
        a.current_screen(),
        CurrentScreen::Editing(CurrentlyEditing::CommitType)
    );
    assert_eq!(
        a.current_editing_field(),
        Some(CurrentlyEditing::CommitType)
    );
}

#[test]
fn begin_edit_while_editing_fails_and_changes_nothing() {
    let mut a = App::new();
    a.begin_edit(CurrentlyEditing::CommitDescription).unwrap();
    assert_eq!(
        a.begin_edit(CurrentlyEditing::CommitScope),
        Err(ConvitError::InvalidStateTransition)
    );
    assert_eq!(
        a.current_screen(),
        CurrentScreen::Editing(CurrentlyEditing::CommitDescription)
    );
}

#[test]
fn cancel_discards_the_pending_edit() {
    let mut a = App::new();
    a.begin_edit(CurrentlyEditing::CommitDescription).unwrap();
    assert_eq!(a.cancel(), Ok(()));
    assert_eq!(a.current_screen(), CurrentScreen::Main);
    assert_eq!(a.draft_snapshot().description, "");
}

#[test]
fn cancel_outside_an_edit_fails() {
    let mut a = App::new();
    assert_eq!(a.cancel(), Err(ConvitError::InvalidStateTransition));
}

#[test]
fn request_exit_is_terminal() {
    let mut a = App::new();
    assert_eq!(a.request_exit(), Ok(()));
    assert_eq!(a.current_screen(), CurrentScreen::Exiting);
    assert_eq!(
        a.begin_edit(CurrentlyEditing::CommitType),
        Err(ConvitError::InvalidStateTransition)
    );
    assert_eq!(a.request_exit(), Err(ConvitError::InvalidStateTransition));
    assert_eq!(
        a.navigate(NavigateOp::Next),
        Err(ConvitError::InvalidStateTransition)
    );
    assert_eq!(a.current_screen(), CurrentScreen::Exiting);
}

#[test]
fn request_exit_while_editing_fails() {
    let mut a = App::new();
    a.begin_edit(CurrentlyEditing::CommitBody).unwrap();
    assert_eq!(a.request_exit(), Err(ConvitError::InvalidStateTransition));
    assert_eq!(
        a.current_screen(),
        CurrentScreen::Editing(CurrentlyEditing::CommitBody)
    );
}

#[test]
fn confirm_outside_an_edit_fails() {
    let mut a = App::new();
    assert_eq!(
        a.confirm(String::from("feat")),
        Err(ConvitError::InvalidStateTransition)
    );
}

#[test]
fn confirm_resolves_the_commit_type_keyword() {
    let mut a = App::new();
    a.begin_edit(CurrentlyEditing::CommitType).unwrap();
    assert_eq!(a.confirm(String::from("feat")), Ok(()));
    assert_eq!(a.current_screen(), CurrentScreen::Main);
    assert_eq!(a.draft_snapshot().commit_type, Some(CommitType::Feat));
}

#[test]
fn confirm_rejects_an_unknown_type_keyword_and_stays_editing() {
    let mut a = App::new();
    a.begin_edit(CurrentlyEditing::CommitType).unwrap();
    assert_eq!(
        a.confirm(String::from("bogus")),
        Err(ConvitError::UnknownCommitType)
    );
    assert_eq!(
        a.current_screen(),
        CurrentScreen::Editing(CurrentlyEditing::CommitType)
    );
    assert_eq!(a.draft_snapshot().commit_type, None);
}

#[test]
fn confirm_rejects_a_blank_description_and_stays_editing() {
    let mut a = App::new();
    a.begin_edit(CurrentlyEditing::CommitDescription).unwrap();
    assert_eq!(
        a.confirm(String::from("  \t")),
        Err(ConvitError::EmptyDescription)
    );
    assert_eq!(
        a.current_screen(),
        CurrentScreen::Editing(CurrentlyEditing::CommitDescription)
    );
    assert_eq!(a.confirm(String::from("add x")), Ok(()));
    assert_eq!(a.current_screen(), CurrentScreen::Main);
    assert_eq!(a.draft_snapshot().description, "add x");
}

#[test]
fn confirm_stores_scope_and_body() {
    let mut a = App::new();
    a.begin_edit(CurrentlyEditing::CommitScope).unwrap();
    a.confirm(String::from("ui")).unwrap();
    a.begin_edit(CurrentlyEditing::CommitBody).unwrap();
    a.confirm(String::from("Longer text.")).unwrap();
    assert_eq!(a.draft_snapshot().scope.as_deref(), Some("ui"));
    assert_eq!(a.draft_snapshot().body.as_deref(), Some("Longer text."));
}

#[test]
fn confirm_takes_the_footer_kind_from_the_cursor() {
    let mut a = App::new();
    a.begin_edit(CurrentlyEditing::CommitFooters).unwrap();
    // Move the footer cursor to the first entry: BreakingChange.
    a.navigate(NavigateOp::Next).unwrap();
    assert_eq!(a.selected_index(), Some(0));
    assert_eq!(a.confirm(String::from("v2 api")), Ok(()));
    assert_eq!(a.current_screen(), CurrentScreen::Main);
    assert_eq!(
        a.draft_snapshot().footers,
        vec![(CommitFooter::BreakingChange, String::from("v2 api"))]
    );
}

#[test]
fn confirm_without_a_footer_selection_fails() {
    let mut a = App::new();
    a.begin_edit(CurrentlyEditing::CommitFooters).unwrap();
    assert_eq!(
        a.confirm(String::from("value")),
        Err(ConvitError::UnknownFooterKind)
    );
    assert_eq!(
        a.current_screen(),
        CurrentScreen::Editing(CurrentlyEditing::CommitFooters)
    );
    assert!(a.draft_snapshot().footers.is_empty());
}

#[test]
fn navigation_moves_the_type_cursor_on_the_main_screen() {
    let mut a = App::new();
    a.navigate(NavigateOp::Next).unwrap();
    assert_eq!(a.selected_index(), Some(0));
    a.navigate(NavigateOp::Next).unwrap();
    assert_eq!(a.selected_index(), Some(1));
    a.navigate(NavigateOp::Last).unwrap();
    assert_eq!(a.selected_index(), Some(10));
    a.navigate(NavigateOp::Next).unwrap();
    assert_eq!(a.selected_index(), Some(0));
}

#[test]
fn footer_navigation_does_not_move_the_type_cursor() {
    let mut a = App::new();
    a.navigate(NavigateOp::Next).unwrap();
    assert_eq!(a.selected_index(), Some(0));
    a.begin_edit(CurrentlyEditing::CommitFooters).unwrap();
    a.navigate(NavigateOp::Last).unwrap();
    assert_eq!(a.selected_index(), Some(8));
    a.cancel().unwrap();
    assert_eq!(a.selected_index(), Some(0));
}

#[test]
fn save_commit_type_stores_the_selected_entry() {
    let mut a = App::new();
    assert_eq!(a.save_commit_type(), Err(ConvitError::UnknownCommitType));
    a.navigate(NavigateOp::Next).unwrap();
    a.navigate(NavigateOp::Next).unwrap();
    assert_eq!(a.save_commit_type(), Ok(()));
    assert_eq!(a.draft_snapshot().commit_type, Some(CommitType::Feat));
}

#[test]
fn a_whole_session_builds_the_expected_message() {
    let mut a = App::new();

    a.begin_edit(CurrentlyEditing::CommitType).unwrap();
    a.confirm(String::from("fix")).unwrap();

    a.begin_edit(CurrentlyEditing::CommitDescription).unwrap();
    a.confirm(String::from("d")).unwrap();

    a.begin_edit(CurrentlyEditing::CommitFooters).unwrap();
    a.navigate(NavigateOp::First).unwrap();
    a.confirm(String::from("v2 api")).unwrap();

    a.begin_edit(CurrentlyEditing::CommitFooters).unwrap();
    a.navigate(NavigateOp::Last).unwrap();
    a.navigate(NavigateOp::Previous).unwrap();
    assert_eq!(a.selected_index(), Some(7));
    a.confirm(String::from("alice")).unwrap();

    assert_eq!(a.commit_status(), CommitStatus::Ready);
    let c = a.finalize_commit().unwrap();
    assert_eq!(c.text, "fix: d\n\nBreakingChange: v2 api\nCc: alice");

    a.request_exit().unwrap();
    assert_eq!(a.current_screen(), CurrentScreen::Exiting);
}

#[test]
fn finalize_commit_reports_an_incomplete_draft() {
    let a = App::new();
    assert_eq!(
        a.finalize_commit(),
        Err(ConvitError::IncompleteDraft {
            missing_type: true,
            missing_description: true,
        })
    );
}
