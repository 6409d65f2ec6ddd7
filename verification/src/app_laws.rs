//! What holds of every state of the wizard and every key.

use vstd::prelude::*;
use crate::app::outcome_screen;
use crate::app::AppModel;
use crate::app::CurrentScreen;
use crate::app::KeyInput;
use crate::models::resume::ResumeModel;
use crate::models::selection::SelectionModel;
use crate::models::types::FilteredResumeData;

verus! {

/// Whether two lists hold the same payloads in the same order, whatever their
/// cursors and inclusion flags.
pub open spec fn same_payloads<T>(a: SelectionModel<T>, b: SelectionModel<T>) -> bool {
    &&& a.items.len() == b.items.len()
    &&& forall|i: int| 0 <= i < a.items.len() ==> (#[trigger] a.items[i]).item == b.items[i].item
}

/// A key keeps a well-formed state well-formed, and so does the end of a
/// generation attempt.
pub proof fn lemma_step_preserves_wf(state: AppModel, key: KeyInput, outcome: Result<String, String>)
    requires
        state.wf(),
    ensures
        state.step(key).wf(),
        state.resolve(outcome).wf(),
{
}

/// No key changes anything while the document is generated or once the
/// session is over.
pub proof fn lemma_no_key_leaves_generating_or_exiting(state: AppModel, key: KeyInput)
    requires
        state.screen == CurrentScreen::Generating || state.screen == CurrentScreen::Exiting,
    ensures
        state.step(key) == state,
{
}

/// A key that is bound to nothing changes nothing, on any screen.
pub proof fn lemma_unbound_key_changes_nothing(state: AppModel)
    ensures
        state.step(KeyInput::Unbound) == state,
{
}

/// The quit key ends the session from every screen on which keys are read.
pub proof fn lemma_quit_ends_session(state: AppModel)
    requires
        state.screen != CurrentScreen::Generating,
    ensures
        state.step(KeyInput::Quit) == state.on(CurrentScreen::Exiting),
{
}

/// No key adds, removes, reorders or alters an entry: in every list the
/// payloads stay as they are, and so does the profile. Job titles keep their
/// inclusion flags too, since choosing one is no inclusion.
pub proof fn lemma_step_keeps_entries(state: AppModel, key: KeyInput)
    ensures
        state.step(key).data.profile == state.data.profile,
        same_payloads(state.step(key).data.education, state.data.education),
        same_payloads(state.step(key).data.experience, state.data.experience),
        same_payloads(state.step(key).data.projects, state.data.projects),
        state.step(key).data.job_titles.items == state.data.job_titles.items,
{
}

/// A key changes the cursor and the flags of the active screen's list at
/// most: the lists of the other screens are untouched, except that entering a
/// screen puts the cursor of its list on the first entry.
pub proof fn lemma_step_touches_active_list_only(state: AppModel, key: KeyInput)
    ensures
        state.screen != CurrentScreen::EducationSelection && !(state.screen
            == CurrentScreen::ProfileView && key == KeyInput::Confirm)
            ==> state.step(key).data.education == state.data.education,
        state.screen != CurrentScreen::ExperienceSelection && !(state.screen
            == CurrentScreen::EducationSelection && key == KeyInput::Confirm)
            ==> state.step(key).data.experience == state.data.experience,
        state.screen != CurrentScreen::ProjectsSelection && !(state.screen
            == CurrentScreen::ExperienceSelection && key == KeyInput::Confirm)
            ==> state.step(key).data.projects == state.data.projects,
        state.screen != CurrentScreen::JobTitleSelection && !(state.screen
            == CurrentScreen::Welcome && key == KeyInput::Confirm)
            ==> state.step(key).data.job_titles == state.data.job_titles,
        state.screen != CurrentScreen::JobTitleSelection ==> state.step(key).data.job_title
            == state.data.job_title,
{
}

/// The toggle key changes nothing when the list of the active screen is empty
/// or its cursor points at no entry.
pub proof fn lemma_toggle_without_current_changes_nothing(state: AppModel)
    requires
        state.screen == CurrentScreen::EducationSelection ==> !state.data.education.has_current(),
        state.screen == CurrentScreen::ExperienceSelection
            ==> !state.data.experience.has_current(),
        state.screen == CurrentScreen::ProjectsSelection ==> !state.data.projects.has_current(),
    ensures
        state.step(KeyInput::Toggle) == state,
{
}

/// With no job titles to choose from, confirming on the welcome screen leads
/// straight to the profile and leaves the data set as it is; with job titles,
/// it leads to their screen with the cursor on the first.
pub proof fn lemma_welcome_confirm(state: AppModel)
    requires
        state.screen == CurrentScreen::Welcome,
    ensures
        state.data.job_titles.items.len() == 0 ==> state.step(KeyInput::Confirm) == state.on(
            CurrentScreen::ProfileView,
        ),
        state.data.job_titles.items.len() > 0 ==> {
            &&& state.step(KeyInput::Confirm).screen == CurrentScreen::JobTitleSelection
            &&& state.step(KeyInput::Confirm).data.job_titles.cursor == Some(0usize)
            &&& state.step(KeyInput::Confirm).data.job_titles.items == state.data.job_titles.items
        },
{
}

/// Confirming a job title stores its text as the chosen title and changes no
/// inclusion flag and no cursor.
pub proof fn lemma_confirm_chooses_title(state: AppModel, at: usize)
    requires
        state.screen == CurrentScreen::JobTitleSelection,
        state.data.job_titles.cursor == Some(at),
        at < state.data.job_titles.items.len(),
    ensures
        state.step(KeyInput::Confirm).screen == CurrentScreen::ProfileView,
        state.step(KeyInput::Confirm).data == (ResumeModel {
            job_title: Some(state.data.job_titles.items[at as int].item.title),
            ..state.data
        }),
{
}

/// Going back from the experience screen changes the screen and nothing else.
/// So a visit to the experience screen and back leaves the education list as
/// it was: cursor, payloads and inclusion flags.
pub proof fn lemma_back_keeps_education(state: AppModel)
    ensures
        state.screen == CurrentScreen::ExperienceSelection ==> state.step(KeyInput::Back)
            == state.on(CurrentScreen::EducationSelection),
        state.screen == CurrentScreen::ProjectsSelection ==> state.step(KeyInput::Back)
            == state.on(CurrentScreen::ExperienceSelection),
        state.screen == CurrentScreen::EducationSelection ==> {
            &&& state.step(KeyInput::Confirm).step(KeyInput::Back).screen
                == CurrentScreen::EducationSelection
            &&& state.step(KeyInput::Confirm).step(KeyInput::Back).data.education
                == state.data.education
        },
        state.screen == CurrentScreen::EducationSelection ==> state.step(KeyInput::Back) == state,
{
}

/// A generation starts by the confirm key on the projects screen and in no
/// other way, and it leaves the data set as it is.
pub proof fn lemma_generation_starts_on_projects(state: AppModel, key: KeyInput)
    requires
        state.screen != CurrentScreen::Generating,
    ensures
        state.step(key).screen == CurrentScreen::Generating <==> state.starts_generation(key),
        state.starts_generation(key) ==> state.step(key).data == state.data,
{
}

/// A result screen comes up only at the end of a generation attempt: no key
/// leads to one, and the end of an attempt leads to one only from the
/// generating screen. Success then carries the path and error the description
/// that the attempt ended with.
pub proof fn lemma_result_screens_follow_generation(
    state: AppModel,
    key: KeyInput,
    outcome: Result<String, String>,
)
    ensures
        state.step(key).screen is Success || state.step(key).screen is Error ==> state.step(
            key,
        ).screen == state.screen,
        state.screen != CurrentScreen::Generating ==> state.resolve(outcome) == state,
        state.screen == CurrentScreen::Generating ==> state.resolve(outcome).data == state.data,
        state.screen == CurrentScreen::Generating ==> (match outcome {
            Ok(path) => state.resolve(outcome).screen == CurrentScreen::Success(path),
            Err(message) => state.resolve(outcome).screen == CurrentScreen::Error(message),
        }),
{
}

/// Confirming on the projects screen and then ending the attempt leads to the
/// result screen of its outcome, with the data set as it was.
pub proof fn lemma_projects_confirm_resolves(state: AppModel, outcome: Result<String, String>)
    requires
        state.screen == CurrentScreen::ProjectsSelection,
    ensures
        state.step(KeyInput::Confirm).resolve(outcome) == state.on(outcome_screen(outcome)),
{
}

/// An acknowledgement on a result screen ends the session.
pub proof fn lemma_result_acknowledged(state: AppModel, key: KeyInput)
    requires
        state.screen is Success || state.screen is Error,
    ensures
        key == KeyInput::Quit || key == KeyInput::Confirm || key == KeyInput::Cancel
            ==> state.step(key) == state.on(CurrentScreen::Exiting),
        !(key == KeyInput::Quit || key == KeyInput::Confirm || key == KeyInput::Cancel)
            ==> state.step(key) == state,
{
}

/// The payload is a function of the data set: two payloads made of the same
/// data set, with nothing changed in between, have the same content.
pub proof fn lemma_projection_repeatable(
    data: ResumeModel,
    first: FilteredResumeData,
    second: FilteredResumeData,
)
    requires
        first@ == data.projection(),
        second@ == data.projection(),
    ensures
        first@ == second@,
{
}

/// Moving a cursor does not change the payload: it depends on the profile,
/// the payloads, the inclusion flags and the chosen title alone.
pub proof fn lemma_projection_ignores_cursors(a: ResumeModel, b: ResumeModel)
    requires
        a.profile == b.profile,
        a.job_title == b.job_title,
        a.education.items == b.education.items,
        a.experience.items == b.experience.items,
        a.projects.items == b.projects.items,
    ensures
        a.projection() == b.projection(),
{
}

} // verus!
