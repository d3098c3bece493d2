use vstd::prelude::*;

use crate::catalog::{
    spec_all_footers, spec_all_types, spec_type_of_keyword, CommitFooter, CommitType,
};
use crate::commit::{spec_message, ConventionalCommit};
use crate::draft::{is_blank, CommitDraft};
use crate::errors::ConvitError;
use crate::select::{nav_rel, NavigateOp, SelectableList};

verus! {

/// Which screen is active. `Exiting` is terminal: no transition leaves it.
#[derive(Debug, Clone, Copy, PartialEq, Eq, Structural)]
pub enum CurrentScreen {
    Main,
    Editing(CurrentlyEditing),
    Exiting,
}

/// The single field under edit while the editing screen is active.
#[derive(Debug, Clone, Copy, PartialEq, Eq, Structural)]
pub enum CurrentlyEditing {
    CommitType,
    CommitScope,
    CommitDescription,
    CommitBody,
    CommitFooters,
}

/// Whether the draft could be finalized as it stands.
#[derive(Debug, Clone, Copy, PartialEq, Eq, Structural)]
pub enum CommitStatus {
    Ready,
    Unready,
}

/// The interaction state machine of one session: the active screen, the
/// draft accumulated so far, and the two catalog cursors. The input loop
/// outside the core decodes key presses into the commands below; the
/// rendering layer reads the state back through the queries.
pub struct App {
    /// The active screen.
    pub current_screen: CurrentScreen,
    /// The fields chosen or typed so far.
    pub draft: CommitDraft,
    /// The cursor over the commit-type catalog.
    pub commit_types: SelectableList<CommitType>,
    /// The cursor over the footer catalog.
    pub commit_footers: SelectableList<CommitFooter>,
}

impl App {
    /// Both cursors are well formed and range over the fixed catalogs the
    /// session was started from.
    pub open spec fn wf(self) -> bool {
        &&& self.commit_types.wf()
        &&& self.commit_footers.wf()
        &&& self.commit_types.items@ == spec_all_types()
        &&& self.commit_footers.items@ == spec_all_footers()
    }

    /// Navigation targets the footer cursor exactly while the footers
    /// field is under edit; every other screen navigates the commit-type
    /// cursor.
    pub open spec fn footers_pane_active(self) -> bool {
        self.current_screen == CurrentScreen::Editing(CurrentlyEditing::CommitFooters)
    }

    /// A fresh session: main screen, empty draft, both cursors over their
    /// full catalogs with nothing selected.
    pub fn new() -> (r: Self)
        ensures
            r.wf(),
            r.current_screen == CurrentScreen::Main,
            r.draft.commit_type is None,
            r.draft.scope is None,
            r.draft.description@ == Seq::<char>::empty(),
            r.draft.body is None,
            r.draft.footers@ == Seq::<(CommitFooter, String)>::empty(),
            r.commit_types.selected is None,
            r.commit_types.last_selected is None,
            r.commit_footers.selected is None,
            r.commit_footers.last_selected is None,
    {
        App {
            current_screen: CurrentScreen::Main,
            draft: CommitDraft::new(),
            commit_types: SelectableList::new(CommitType::all()),
            commit_footers: SelectableList::new(CommitFooter::all()),
        }
    }

    /// The active screen.
    pub fn current_screen(&self) -> (r: CurrentScreen)
        ensures
            r == self.current_screen,
    {
        self.current_screen
    }

    /// The field under edit, if the editing screen is active.
    pub fn current_editing_field(&self) -> (r: Option<CurrentlyEditing>)
        ensures
            r == (match self.current_screen {
                CurrentScreen::Editing(f) => Some(f),
                _ => None,
            }),
    {
        match self.current_screen {
            CurrentScreen::Editing(f) => Some(f),
            _ => None,
        }
    }

    /// The selected index of the cursor that navigation would move now.
    pub fn selected_index(&self) -> (r: Option<usize>)
        ensures
            r == (if self.footers_pane_active() {
                self.commit_footers.selected
            } else {
                self.commit_types.selected
            }),
    {
        match self.current_screen {
            CurrentScreen::Editing(CurrentlyEditing::CommitFooters) => {
                self.commit_footers.selected_index()
            },
            _ => self.commit_types.selected_index(),
        }
    }

    /// A read-only view of the draft accumulated so far.
    pub fn draft_snapshot(&self) -> (r: &CommitDraft)
        ensures
            *r == self.draft,
    {
        &self.draft
    }

    /// Whether the draft could be finalized as it stands.
    pub fn commit_status(&self) -> (r: CommitStatus)
        ensures
            r == (if self.draft.complete() {
                CommitStatus::Ready
            } else {
                CommitStatus::Unready
            }),
    {
        if self.draft.is_complete() {
            CommitStatus::Ready
        } else {
            CommitStatus::Unready
        }
    }

    /// Apply one navigation operation to the active cursor. Fails with
    /// `InvalidStateTransition` once the session is exiting; otherwise the
    /// catalogs are never empty, so the operation succeeds.
    pub fn navigate(&mut self, op: NavigateOp) -> (r: Result<(), ConvitError>)
        requires
            old(self).wf(),
        ensures
            final(self).wf(),
            final(self).current_screen == old(self).current_screen,
            final(self).draft == old(self).draft,
            old(self).current_screen is Exiting ==> {
                &&& r == Err::<(), ConvitError>(ConvitError::InvalidStateTransition)
                &&& final(self).commit_types == old(self).commit_types
                &&& final(self).commit_footers == old(self).commit_footers
            },
            !(old(self).current_screen is Exiting) && old(self).footers_pane_active() ==> {
                &&& nav_rel(old(self).commit_footers, final(self).commit_footers, op, r)
                &&& final(self).commit_types == old(self).commit_types
            },
            !(old(self).current_screen is Exiting) && !old(self).footers_pane_active() ==> {
                &&& nav_rel(old(self).commit_types, final(self).commit_types, op, r)
                &&& final(self).commit_footers == old(self).commit_footers
            },
    {
        match self.current_screen {
            CurrentScreen::Exiting => Err(ConvitError::InvalidStateTransition),
            CurrentScreen::Editing(CurrentlyEditing::CommitFooters) => {
                self.commit_footers.apply(op)
            },
            _ => self.commit_types.apply(op),
        }
    }

    /// Enter the editing screen for `field`. Allowed from the main screen
    /// only: while another edit is open, or once the session is exiting,
    /// the transition fails with `InvalidStateTransition` and the state is
    /// left unchanged.
    pub fn begin_edit(&mut self, field: CurrentlyEditing) -> (r: Result<(), ConvitError>)
        requires
            old(self).wf(),
        ensures
            final(self).wf(),
            final(self).draft == old(self).draft,
            final(self).commit_types == old(self).commit_types,
            final(self).commit_footers == old(self).commit_footers,
            old(self).current_screen == CurrentScreen::Main ==> {
                &&& r == Ok::<(), ConvitError>(())
                &&& final(self).current_screen == CurrentScreen::Editing(field)
            },
            old(self).current_screen != CurrentScreen::Main ==> {
                &&& r == Err::<(), ConvitError>(ConvitError::InvalidStateTransition)
                &&& final(self).current_screen == old(self).current_screen
            },
    {
        match self.current_screen {
            CurrentScreen::Main => {
                self.current_screen = CurrentScreen::Editing(field);
                Ok(())
            },
            _ => Err(ConvitError::InvalidStateTransition),
        }
    }

    /// Discard the pending edit and return to the main screen; the draft
    /// is left exactly as it was. Fails with `InvalidStateTransition`
    /// when no edit is open.
    pub fn cancel(&mut self) -> (r: Result<(), ConvitError>)
        requires
            old(self).wf(),
        ensures
            final(self).wf(),
            final(self).draft == old(self).draft,
            final(self).commit_types == old(self).commit_types,
            final(self).commit_footers == old(self).commit_footers,
            old(self).current_screen is Editing ==> {
                &&& r == Ok::<(), ConvitError>(())
                &&& final(self).current_screen == CurrentScreen::Main
            },
            !(old(self).current_screen is Editing) ==> {
                &&& r == Err::<(), ConvitError>(ConvitError::InvalidStateTransition)
                &&& final(self).current_screen == old(self).current_screen
            },
    {
        match self.current_screen {
            CurrentScreen::Editing(_) => {
                self.current_screen = CurrentScreen::Main;
                Ok(())
            },
            _ => Err(ConvitError::InvalidStateTransition),
        }
    }

    /// Move to the terminal exiting screen. Allowed from the main screen
    /// only.
    pub fn request_exit(&mut self) -> (r: Result<(), ConvitError>)
        requires
            old(self).wf(),
        ensures
            final(self).wf(),
            final(self).draft == old(self).draft,
            final(self).commit_types == old(self).commit_types,
            final(self).commit_footers == old(self).commit_footers,
            old(self).current_screen == CurrentScreen::Main ==> {
                &&& r == Ok::<(), ConvitError>(())
                &&& final(self).current_screen == CurrentScreen::Exiting
            },
            old(self).current_screen != CurrentScreen::Main ==> {
                &&& r == Err::<(), ConvitError>(ConvitError::InvalidStateTransition)
                &&& final(self).current_screen == old(self).current_screen
            },
    {
        match self.current_screen {
            CurrentScreen::Main => {
                self.current_screen = CurrentScreen::Exiting;
                Ok(())
            },
            _ => Err(ConvitError::InvalidStateTransition),
        }
    }

    /// Route the confirmed input of the open edit into its slot of the
    /// draft and return to the main screen. On a setter failure the
    /// transition does not occur: the error propagates, the screen stays
    /// on the open edit and the draft is unchanged. The commit type is
    /// resolved through the keyword table; a footer takes its kind from
    /// the footer cursor and fails with `UnknownFooterKind` when no kind
    /// is selected.
    pub fn confirm(&mut self, value: String) -> (r: Result<(), ConvitError>)
        requires
            old(self).wf(),
        ensures
            final(self).wf(),
            final(self).commit_types == old(self).commit_types,
            final(self).commit_footers == old(self).commit_footers,
            !(old(self).current_screen is Editing) ==> {
                &&& r == Err::<(), ConvitError>(ConvitError::InvalidStateTransition)
                &&& final(self).current_screen == old(self).current_screen
                &&& final(self).draft == old(self).draft
            },
            old(self).current_screen == CurrentScreen::Editing(CurrentlyEditing::CommitType)
                ==> (match spec_type_of_keyword(value@) {
                Some(t) => {
                    &&& r == Ok::<(), ConvitError>(())
                    &&& final(self).current_screen == CurrentScreen::Main
                    &&& final(self).draft.commit_type == Some(t)
                    &&& final(self).draft.scope == old(self).draft.scope
                    &&& final(self).draft.description == old(self).draft.description
                    &&& final(self).draft.body == old(self).draft.body
                    &&& final(self).draft.footers == old(self).draft.footers
                },
                None => {
                    &&& r == Err::<(), ConvitError>(ConvitError::UnknownCommitType)
                    &&& final(self).current_screen == old(self).current_screen
                    &&& final(self).draft == old(self).draft
                },
            }),
            old(self).current_screen == CurrentScreen::Editing(CurrentlyEditing::CommitScope)
                ==> {
                &&& r == Ok::<(), ConvitError>(())
                &&& final(self).current_screen == CurrentScreen::Main
                &&& (value@.len() == 0 ==> final(self).draft.scope is None)
                &&& (value@.len() > 0 ==> final(self).draft.scope_view() == Some(value@))
                &&& final(self).draft.commit_type == old(self).draft.commit_type
                &&& final(self).draft.description == old(self).draft.description
                &&& final(self).draft.body == old(self).draft.body
                &&& final(self).draft.footers == old(self).draft.footers
            },
            old(self).current_screen == CurrentScreen::Editing(CurrentlyEditing::CommitDescription)
                ==> (if is_blank(value@) {
                &&& r == Err::<(), ConvitError>(ConvitError::EmptyDescription)
                &&& final(self).current_screen == old(self).current_screen
                &&& final(self).draft == old(self).draft
            } else {
                &&& r == Ok::<(), ConvitError>(())
                &&& final(self).current_screen == CurrentScreen::Main
                &&& final(self).draft.description@ == value@
                &&& final(self).draft.commit_type == old(self).draft.commit_type
                &&& final(self).draft.scope == old(self).draft.scope
                &&& final(self).draft.body == old(self).draft.body
                &&& final(self).draft.footers == old(self).draft.footers
            }),
            old(self).current_screen == CurrentScreen::Editing(CurrentlyEditing::CommitBody)
                ==> {
                &&& r == Ok::<(), ConvitError>(())
                &&& final(self).current_screen == CurrentScreen::Main
                &&& (value@.len() == 0 ==> final(self).draft.body is None)
                &&& (value@.len() > 0 ==> final(self).draft.body_view() == Some(value@))
                &&& final(self).draft.commit_type == old(self).draft.commit_type
                &&& final(self).draft.scope == old(self).draft.scope
                &&& final(self).draft.description == old(self).draft.description
                &&& final(self).draft.footers == old(self).draft.footers
            },
            old(self).current_screen == CurrentScreen::Editing(CurrentlyEditing::CommitFooters)
                ==> (match old(self).commit_footers.selected {
                Some(i) => {
                    &&& r == Ok::<(), ConvitError>(())
                    &&& final(self).current_screen == CurrentScreen::Main
                    &&& final(self).draft.footers@ == old(self).draft.footers@.push(
                        (old(self).commit_footers.items@[i as int], value),
                    )
                    &&& final(self).draft.commit_type == old(self).draft.commit_type
                    &&& final(self).draft.scope == old(self).draft.scope
                    &&& final(self).draft.description == old(self).draft.description
                    &&& final(self).draft.body == old(self).draft.body
                },
                None => {
                    &&& r == Err::<(), ConvitError>(ConvitError::UnknownFooterKind)
                    &&& final(self).current_screen == old(self).current_screen
                    &&& final(self).draft == old(self).draft
                },
            }),
    {
        match self.current_screen {
            CurrentScreen::Editing(CurrentlyEditing::CommitType) => {
                match CommitType::from_keyword(value.as_str()) {
                    Ok(t) => {
                        self.draft.set_type(t);
                        self.current_screen = CurrentScreen::Main;
                        Ok(())
                    },
                    Err(e) => Err(e),
                }
            },
            CurrentScreen::Editing(CurrentlyEditing::CommitScope) => {
                self.draft.set_scope(value);
                self.current_screen = CurrentScreen::Main;
                Ok(())
            },
            CurrentScreen::Editing(CurrentlyEditing::CommitDescription) => {
                match self.draft.set_description(value) {
                    Ok(()) => {
                        self.current_screen = CurrentScreen::Main;
                        Ok(())
                    },
                    Err(e) => Err(e),
                }
            },
            CurrentScreen::Editing(CurrentlyEditing::CommitBody) => {
                self.draft.set_body(value);
                self.current_screen = CurrentScreen::Main;
                Ok(())
            },
            CurrentScreen::Editing(CurrentlyEditing::CommitFooters) => {
                match self.commit_footers.selected {
                    Some(i) => {
                        let kind = self.commit_footers.items[i];
                        self.draft.push_footer(kind, value);
                        self.current_screen = CurrentScreen::Main;
                        Ok(())
                    },
                    None => Err(ConvitError::UnknownFooterKind),
                }
            },
            _ => Err(ConvitError::InvalidStateTransition),
        }
    }

    /// Store the commit type the type cursor rests on into the draft.
    /// Fails with `UnknownCommitType` when nothing is selected, leaving
    /// the draft unchanged.
    pub fn save_commit_type(&mut self) -> (r: Result<(), ConvitError>)
        requires
            old(self).wf(),
        ensures
            final(self).wf(),
            final(self).current_screen == old(self).current_screen,
            final(self).commit_types == old(self).commit_types,
            final(self).commit_footers == old(self).commit_footers,
            (match old(self).commit_types.selected {
                Some(i) => {
                    &&& r == Ok::<(), ConvitError>(())
                    &&& final(self).draft.commit_type == Some(
                        old(self).commit_types.items@[i as int],
                    )
                    &&& final(self).draft.scope == old(self).draft.scope
                    &&& final(self).draft.description == old(self).draft.description
                    &&& final(self).draft.body == old(self).draft.body
                    &&& final(self).draft.footers == old(self).draft.footers
                },
                None => {
                    &&& r == Err::<(), ConvitError>(ConvitError::UnknownCommitType)
                    &&& final(self).draft == old(self).draft
                },
            }),
    {
        match self.commit_types.selected {
            Some(i) => {
                let entry = self.commit_types.items[i];
                self.draft.set_type(entry);
                Ok(())
            },
            None => Err(ConvitError::UnknownCommitType),
        }
    }

    /// Finalize the current draft into its canonical message text.
    /// Succeeds exactly when the draft is complete; otherwise fails with
    /// `IncompleteDraft` naming the missing fields.
    pub fn finalize_commit(&self) -> (r: Result<ConventionalCommit, ConvitError>)
        ensures
            self.draft.complete() <==> r is Ok,
            r is Ok ==> r->Ok_0.text@ == spec_message(self.draft),
            !self.draft.complete() ==> r == Err::<ConventionalCommit, ConvitError>(
                ConvitError::IncompleteDraft {
                    missing_type: self.draft.commit_type is None,
                    missing_description: is_blank(self.draft.description@),
                },
            ),
    {
        ConventionalCommit::new(&self.draft)
    }
}

} // verus!
