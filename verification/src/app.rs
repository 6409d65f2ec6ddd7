//! The wizard: its screens, its keys, and the transition that a key causes.

use vstd::prelude::*;
use crate::models::resume::ResumeData;
use crate::models::resume::ResumeModel;
use crate::models::types::FilteredResumeData;

verus! {

/// The screen that the wizard shows.
#[derive(Debug, Clone, PartialEq, Eq)]
pub enum CurrentScreen {
    Welcome,
    ProfileView,
    JobTitleSelection,
    EducationSelection,
    ExperienceSelection,
    ProjectsSelection,
    /// The document is being produced.
    Generating,
    /// The document was written to this path.
    Success(String),
    /// The document could not be produced, for this reason.
    Error(String),
    /// The session is over.
    Exiting,
}

impl Default for CurrentScreen {
    fn default() -> (screen: CurrentScreen)
        ensures
            screen == CurrentScreen::Welcome,
    {
        CurrentScreen::Welcome
    }
}

/// A key as the keyboard reports it.
#[derive(Debug, Clone, Copy, PartialEq, Eq)]
pub enum Key {
    Char(char),
    Enter,
    Up,
    Down,
    Backspace,
    Esc,
    /// Any key that the wizard has no use for.
    Other,
}

/// What a key means to the wizard.
#[derive(Debug, Clone, Copy, PartialEq, Eq)]
pub enum KeyInput {
    Quit,
    Confirm,
    Down,
    Up,
    Toggle,
    Back,
    Cancel,
    /// The key is bound to nothing.
    Unbound,
}

/// The key bindings: `q` quits, Enter confirms, `j` and the down arrow move
/// down, `k` and the up arrow move up, the space bar toggles, Backspace goes
/// back and Escape cancels.
pub open spec fn key_input(key: Key) -> KeyInput {
    match key {
        Key::Char(c) => if c == 'q' {
            KeyInput::Quit
        } else if c == 'j' {
            KeyInput::Down
        } else if c == 'k' {
            KeyInput::Up
        } else if c == ' ' {
            KeyInput::Toggle
        } else {
            KeyInput::Unbound
        },
        Key::Enter => KeyInput::Confirm,
        Key::Up => KeyInput::Up,
        Key::Down => KeyInput::Down,
        Key::Backspace => KeyInput::Back,
        Key::Esc => KeyInput::Cancel,
        Key::Other => KeyInput::Unbound,
    }
}

impl Key {
    /// What this key means to the wizard.
    pub fn input(self) -> (input: KeyInput)
        ensures
            input == key_input(self),
    {
        match self {
            Key::Char(c) => if c == 'q' {
                KeyInput::Quit
            } else if c == 'j' {
                KeyInput::Down
            } else if c == 'k' {
                KeyInput::Up
            } else if c == ' ' {
                KeyInput::Toggle
            } else {
                KeyInput::Unbound
            },
            Key::Enter => KeyInput::Confirm,
            Key::Up => KeyInput::Up,
            Key::Down => KeyInput::Down,
            Key::Backspace => KeyInput::Back,
            Key::Esc => KeyInput::Cancel,
            Key::Other => KeyInput::Unbound,
        }
    }
}

/// The screen that ends a generation attempt: success with the path of the
/// document, or the error with its description.
pub open spec fn outcome_screen(outcome: Result<String, String>) -> CurrentScreen {
    match outcome {
        Ok(path) => CurrentScreen::Success(path),
        Err(message) => CurrentScreen::Error(message),
    }
}

/// The mathematical content of an [`App`]: the active screen and the data set.
pub struct AppModel {
    pub screen: CurrentScreen,
    pub data: ResumeModel,
}

impl AppModel {
    /// Every list of the data set is well-formed.
    pub open spec fn wf(self) -> bool {
        self.data.wf()
    }

    /// The same state on another screen.
    pub open spec fn on(self, screen: CurrentScreen) -> AppModel {
        AppModel { screen, ..self }
    }

    /// The same screen over another data set.
    pub open spec fn with(self, data: ResumeModel) -> AppModel {
        AppModel { data, ..self }
    }

    /// The state after a key on the welcome screen: on to the job titles, or
    /// straight to the profile when there are none to choose from.
    pub open spec fn step_welcome(self, key: KeyInput) -> AppModel {
        match key {
            KeyInput::Quit => self.on(CurrentScreen::Exiting),
            KeyInput::Confirm => if self.data.job_titles.items.len() == 0 {
                self.on(CurrentScreen::ProfileView)
            } else {
                AppModel {
                    screen: CurrentScreen::JobTitleSelection,
                    data: ResumeModel {
                        job_titles: self.data.job_titles.select_initial(),
                        ..self.data
                    },
                }
            },
            _ => self,
        }
    }

    /// The state after a key on the job title screen: confirming chooses the
    /// title under the cursor and moves on, provided the cursor points at one.
    pub open spec fn step_job_titles(self, key: KeyInput) -> AppModel {
        match key {
            KeyInput::Quit => self.on(CurrentScreen::Exiting),
            KeyInput::Down => self.with(
                ResumeModel { job_titles: self.data.job_titles.next(), ..self.data },
            ),
            KeyInput::Up => self.with(
                ResumeModel { job_titles: self.data.job_titles.previous(), ..self.data },
            ),
            KeyInput::Confirm => if self.data.job_titles.has_current() {
                AppModel {
                    screen: CurrentScreen::ProfileView,
                    data: self.data.choose_current_title(),
                }
            } else {
                self
            },
            _ => self,
        }
    }

    /// The state after a key on the profile screen.
    pub open spec fn step_profile(self, key: KeyInput) -> AppModel {
        match key {
            KeyInput::Quit => self.on(CurrentScreen::Exiting),
            KeyInput::Confirm => AppModel {
                screen: CurrentScreen::EducationSelection,
                data: ResumeModel {
                    education: self.data.education.select_initial(),
                    ..self.data
                },
            },
            _ => self,
        }
    }

    /// The state after a key on the education screen. There is no way back
    /// from here.
    pub open spec fn step_education(self, key: KeyInput) -> AppModel {
        match key {
            KeyInput::Quit => self.on(CurrentScreen::Exiting),
            KeyInput::Down => self.with(
                ResumeModel { education: self.data.education.next(), ..self.data },
            ),
            KeyInput::Up => self.with(
                ResumeModel { education: self.data.education.previous(), ..self.data },
            ),
            KeyInput::Toggle => self.with(
                ResumeModel { education: self.data.education.toggle_current(), ..self.data },
            ),
            KeyInput::Confirm => AppModel {
                screen: CurrentScreen::ExperienceSelection,
                data: ResumeModel {
                    experience: self.data.experience.select_initial(),
                    ..self.data
                },
            },
            _ => self,
        }
    }

    /// The state after a key on the experience screen. Going back leaves the
    /// education list as it was.
    pub open spec fn step_experience(self, key: KeyInput) -> AppModel {
        match key {
            KeyInput::Quit => self.on(CurrentScreen::Exiting),
            KeyInput::Down => self.with(
                ResumeModel { experience: self.data.experience.next(), ..self.data },
            ),
            KeyInput::Up => self.with(
                ResumeModel { experience: self.data.experience.previous(), ..self.data },
            ),
            KeyInput::Toggle => self.with(
                ResumeModel { experience: self.data.experience.toggle_current(), ..self.data },
            ),
            KeyInput::Confirm => AppModel {
                screen: CurrentScreen::ProjectsSelection,
                data: ResumeModel {
                    projects: self.data.projects.select_initial(),
                    ..self.data
                },
            },
            KeyInput::Back => self.on(CurrentScreen::EducationSelection),
            _ => self,
        }
    }

    /// The state after a key on the projects screen. Confirming starts the
    /// generation of the document.
    pub open spec fn step_projects(self, key: KeyInput) -> AppModel {
        match key {
            KeyInput::Quit => self.on(CurrentScreen::Exiting),
            KeyInput::Down => self.with(
                ResumeModel { projects: self.data.projects.next(), ..self.data },
            ),
            KeyInput::Up => self.with(
                ResumeModel { projects: self.data.projects.previous(), ..self.data },
            ),
            KeyInput::Toggle => self.with(
                ResumeModel { projects: self.data.projects.toggle_current(), ..self.data },
            ),
            KeyInput::Confirm => self.on(CurrentScreen::Generating),
            KeyInput::Back => self.on(CurrentScreen::ExperienceSelection),
            _ => self,
        }
    }

    /// The state after a key on a result screen: any acknowledgement ends the
    /// session.
    pub open spec fn step_result(self, key: KeyInput) -> AppModel {
        match key {
            KeyInput::Quit | KeyInput::Confirm | KeyInput::Cancel => self.on(
                CurrentScreen::Exiting,
            ),
            _ => self,
        }
    }

    /// The transition of the wizard: the state after `key` was pressed. A key
    /// that the active screen has no use for changes nothing, and no key
    /// changes anything while the document is generated or once the session
    /// is over.
    pub open spec fn step(self, key: KeyInput) -> AppModel {
        match self.screen {
            CurrentScreen::Welcome => self.step_welcome(key),
            CurrentScreen::JobTitleSelection => self.step_job_titles(key),
            CurrentScreen::ProfileView => self.step_profile(key),
            CurrentScreen::EducationSelection => self.step_education(key),
            CurrentScreen::ExperienceSelection => self.step_experience(key),
            CurrentScreen::ProjectsSelection => self.step_projects(key),
            CurrentScreen::Success(_) | CurrentScreen::Error(_) => self.step_result(key),
            CurrentScreen::Generating | CurrentScreen::Exiting => self,
        }
    }

    /// Whether `key` starts the generation of the document: it is the confirm
    /// key on the projects screen.
    pub open spec fn starts_generation(self, key: KeyInput) -> bool {
        self.screen == CurrentScreen::ProjectsSelection && key == KeyInput::Confirm
    }

    /// The state after a generation attempt ended with `outcome`: the result
    /// screen for it. Nothing changes unless a generation is under way.
    pub open spec fn resolve(self, outcome: Result<String, String>) -> AppModel {
        if self.screen == CurrentScreen::Generating {
            self.on(outcome_screen(outcome))
        } else {
            self
        }
    }
}

/// The state of the wizard: the active screen and the data set with its
/// selections.
#[derive(Debug, Clone, PartialEq, Eq)]
pub struct App {
    pub current_screen: CurrentScreen,
    pub data: ResumeData,
}

impl View for App {
    type V = AppModel;

    open spec fn view(&self) -> AppModel {
        AppModel { screen: self.current_screen, data: self.data@ }
    }
}

impl App {
    /// Every list of the data set is well-formed.
    pub open spec fn wf(&self) -> bool {
        self@.wf()
    }

    /// A session over `data`, on the welcome screen.
    pub fn new(data: ResumeData) -> (app: App)
        ensures
            app@ == (AppModel { screen: CurrentScreen::Welcome, data: data@ }),
            data.wf() ==> app.wf(),
    {
        App { current_screen: CurrentScreen::Welcome, data }
    }

    /// Moves the cursor of the education list forward.
    pub fn next_education(&mut self)
        ensures
            final(self)@ == old(self)@.with(
                ResumeModel { education: old(self)@.data.education.next(), ..old(self)@.data },
            ),
    {
        self.data.education.next();
    }

    /// Moves the cursor of the education list backward.
    pub fn previous_education(&mut self)
        ensures
            final(self)@ == old(self)@.with(
                ResumeModel {
                    education: old(self)@.data.education.previous(),
                    ..old(self)@.data
                },
            ),
    {
        self.data.education.previous();
    }

    /// Flips the inclusion flag of the education entry under the cursor.
    pub fn toggle_education(&mut self)
        ensures
            final(self)@ == old(self)@.with(
                ResumeModel {
                    education: old(self)@.data.education.toggle_current(),
                    ..old(self)@.data
                },
            ),
    {
        self.data.education.toggle_current();
    }

    /// Moves the cursor of the job title list forward.
    pub fn next_job_title(&mut self)
        ensures
            final(self)@ == old(self)@.with(
                ResumeModel { job_titles: old(self)@.data.job_titles.next(), ..old(self)@.data },
            ),
    {
        self.data.job_titles.next();
    }

    /// Moves the cursor of the job title list backward.
    pub fn previous_job_title(&mut self)
        ensures
            final(self)@ == old(self)@.with(
                ResumeModel {
                    job_titles: old(self)@.data.job_titles.previous(),
                    ..old(self)@.data
                },
            ),
    {
        self.data.job_titles.previous();
    }

    /// Moves the cursor of the experience list forward.
    pub fn next_experience(&mut self)
        ensures
            final(self)@ == old(self)@.with(
                ResumeModel { experience: old(self)@.data.experience.next(), ..old(self)@.data },
            ),
    {
        self.data.experience.next();
    }

    /// Moves the cursor of the experience list backward.
    pub fn previous_experience(&mut self)
        ensures
            final(self)@ == old(self)@.with(
                ResumeModel {
                    experience: old(self)@.data.experience.previous(),
                    ..old(self)@.data
                },
            ),
    {
        self.data.experience.previous();
    }

    /// Flips the inclusion flag of the experience entry under the cursor.
    pub fn toggle_experience(&mut self)
        ensures
            final(self)@ == old(self)@.with(
                ResumeModel {
                    experience: old(self)@.data.experience.toggle_current(),
                    ..old(self)@.data
                },
            ),
    {
        self.data.experience.toggle_current();
    }

    /// Moves the cursor of the projects list forward.
    pub fn next_project(&mut self)
        ensures
            final(self)@ == old(self)@.with(
                ResumeModel { projects: old(self)@.data.projects.next(), ..old(self)@.data },
            ),
    {
        self.data.projects.next();
    }

    /// Moves the cursor of the projects list backward.
    pub fn previous_project(&mut self)
        ensures
            final(self)@ == old(self)@.with(
                ResumeModel { projects: old(self)@.data.projects.previous(), ..old(self)@.data },
            ),
    {
        self.data.projects.previous();
    }

    /// Flips the inclusion flag of the project under the cursor.
    pub fn toggle_project(&mut self)
        ensures
            final(self)@ == old(self)@.with(
                ResumeModel {
                    projects: old(self)@.data.projects.toggle_current(),
                    ..old(self)@.data
                },
            ),
    {
        self.data.projects.toggle_current();
    }

    /// Applies one key press. Where the key starts the generation of the
    /// document, the wizard goes to the generating screen and hands out the
    /// payload to render; the caller renders it and reports how that went with
    /// [`App::finish_generation`]. For every other key nothing is handed out.
    pub fn handle_key_event(&mut self, key: Key) -> (request: Option<FilteredResumeData>)
        ensures
            final(self)@ == old(self)@.step(key_input(key)),
            old(self).wf() ==> final(self).wf(),
            request is Some <==> old(self)@.starts_generation(key_input(key)),
            request matches Some(payload) ==> payload@ == old(self)@.data.projection(),
    {
        let input = key.input();
        match self.current_screen {
            CurrentScreen::Welcome => match input {
                KeyInput::Quit => {
                    self.current_screen = CurrentScreen::Exiting;
                },
                KeyInput::Confirm => {
                    if self.data.job_titles.items.len() == 0 {
                        self.current_screen = CurrentScreen::ProfileView;
                    } else {
                        self.current_screen = CurrentScreen::JobTitleSelection;
                        self.data.job_titles.select_initial();
                    }
                },
                _ => {},
            },
            CurrentScreen::JobTitleSelection => match input {
                KeyInput::Quit => {
                    self.current_screen = CurrentScreen::Exiting;
                },
                KeyInput::Down => self.next_job_title(),
                KeyInput::Up => self.previous_job_title(),
                KeyInput::Confirm => {
                    if let Some(i) = self.data.job_titles.cursor {
                        if i < self.data.job_titles.items.len() {
                            self.data.choose_current_title();
                            self.current_screen = CurrentScreen::ProfileView;
                        }
                    }
                },
                _ => {},
            },
            CurrentScreen::ProfileView => match input {
                KeyInput::Quit => {
                    self.current_screen = CurrentScreen::Exiting;
                },
                KeyInput::Confirm => {
                    self.current_screen = CurrentScreen::EducationSelection;
                    self.data.education.select_initial();
                },
                _ => {},
            },
            CurrentScreen::EducationSelection => match input {
                KeyInput::Quit => {
                    self.current_screen = CurrentScreen::Exiting;
                },
                KeyInput::Down => self.next_education(),
                KeyInput::Up => self.previous_education(),
                KeyInput::Toggle => self.toggle_education(),
                KeyInput::Confirm => {
                    self.current_screen = CurrentScreen::ExperienceSelection;
                    self.data.experience.select_initial();
                },
                _ => {},
            },
            CurrentScreen::ExperienceSelection => match input {
                KeyInput::Quit => {
                    self.current_screen = CurrentScreen::Exiting;
                },
                KeyInput::Down => self.next_experience(),
                KeyInput::Up => self.previous_experience(),
                KeyInput::Toggle => self.toggle_experience(),
                KeyInput::Confirm => {
                    self.current_screen = CurrentScreen::ProjectsSelection;
                    self.data.projects.select_initial();
                },
                KeyInput::Back => {
                    self.current_screen = CurrentScreen::EducationSelection;
                },
                _ => {},
            },
            CurrentScreen::ProjectsSelection => match input {
                KeyInput::Quit => {
                    self.current_screen = CurrentScreen::Exiting;
                },
                KeyInput::Down => self.next_project(),
                KeyInput::Up => self.previous_project(),
                KeyInput::Toggle => self.toggle_project(),
                KeyInput::Confirm => {
                    self.current_screen = CurrentScreen::Generating;
                    return Some(self.data.to_filtered_data());
                },
                KeyInput::Back => {
                    self.current_screen = CurrentScreen::ExperienceSelection;
                },
                _ => {},
            },
            CurrentScreen::Success(_) | CurrentScreen::Error(_) => match input {
                KeyInput::Quit | KeyInput::Confirm | KeyInput::Cancel => {
                    self.current_screen = CurrentScreen::Exiting;
                },
                _ => {},
            },
            CurrentScreen::Generating | CurrentScreen::Exiting => {},
        }
        None
    }

    /// Ends a generation attempt: the wizard shows the path of the document,
    /// or the description of what went wrong. Nothing happens unless a
    /// generation is under way.
    pub fn finish_generation(&mut self, outcome: Result<String, String>)
        ensures
            final(self)@ == old(self)@.resolve(outcome),
            old(self).wf() ==> final(self).wf(),
    {
        if let CurrentScreen::Generating = self.current_screen {
            match outcome {
                Ok(path) => {
                    self.current_screen = CurrentScreen::Success(path);
                },
                Err(message) => {
                    self.current_screen = CurrentScreen::Error(message);
                },
            }
        }
    }

    /// Applies one key press and, where the key starts the generation of the
    /// document, has `render` produce it before returning: the wizard then
    /// shows the result that `render` reported. `render` is called once with
    /// the payload in that case, and not at all otherwise.
    pub fn handle_key_event_with<F>(&mut self, key: Key, render: F)
        where F: FnOnce(FilteredResumeData) -> Result<String, String>
        requires
            forall|payload: FilteredResumeData| render.requires((payload,)),
        ensures
            !old(self)@.starts_generation(key_input(key)) ==> final(self)@ == old(self)@.step(
                key_input(key),
            ),
            old(self)@.starts_generation(key_input(key)) ==> exists|
                payload: FilteredResumeData,
                outcome: Result<String, String>,
            |
                {
                    &&& payload@ == old(self)@.data.projection()
                    &&& render.ensures((payload,), outcome)
                    &&& final(self)@ == old(self)@.on(outcome_screen(outcome))
                },
            old(self).wf() ==> final(self).wf(),
    {
        match self.handle_key_event(key) {
            Some(payload) => {
                let outcome = render(payload);
                self.finish_generation(outcome);
            },
            None => {},
        }
    }

    /// Whether the session is over.
    pub fn is_exiting(&self) -> (over: bool)
        ensures
            over == (self@.screen == CurrentScreen::Exiting),
    {
        match self.current_screen {
            CurrentScreen::Exiting => true,
            _ => false,
        }
    }
}

impl Default for App {
    /// A session over no data, on the welcome screen.
    fn default() -> (app: App)
        ensures
            app@ == (AppModel { screen: CurrentScreen::Welcome, data: ResumeModel::empty() }),
            app.wf(),
    {
        App { current_screen: CurrentScreen::Welcome, data: ResumeData::default() }
    }
}

} // verus!
