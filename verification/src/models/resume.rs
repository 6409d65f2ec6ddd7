//! The data set of one wizard session: everything that was loaded, together
//! with the selections made so far.

use vstd::prelude::*;
use crate::models::selection::included_payloads;
use crate::models::selection::SelectionList;
use crate::models::selection::SelectionModel;
use crate::models::selection::fresh_entries;
use crate::models::types::contents;
use crate::models::types::education_of;
use crate::models::types::flatten_education;
use crate::models::types::flatten_projects;
use crate::models::types::placeholder_job_title;
use crate::models::types::placeholder_profile;
use crate::models::types::projects_of;
use crate::models::types::Education;
use crate::models::types::EducationWrapper;
use crate::models::types::Experience;
use crate::models::types::FilteredResumeData;
use crate::models::types::FilteredResumeView;
use crate::models::types::JobTitle;
use crate::models::types::Profile;
use crate::models::types::Project;
use crate::models::types::ProjectsWrapper;
use crate::models::types::Record;

verus! {

/// One of the five places the resume data comes from.
#[derive(Debug, Clone, Copy, PartialEq, Eq)]
pub enum Source {
    Profile,
    JobTitles,
    Education,
    Experience,
    Projects,
}

/// The file that holds each source.
pub open spec fn source_file_name(source: Source) -> Seq<char> {
    match source {
        Source::Profile => "profile.yaml"@,
        Source::JobTitles => "jobtitles.yaml"@,
        Source::Education => "education.yaml"@,
        Source::Experience => "experience.yaml"@,
        Source::Projects => "projects.yaml"@,
    }
}

impl Source {
    /// The file that holds this source.
    pub fn file_name(self) -> (name: &'static str)
        ensures
            name@ == source_file_name(self),
    {
        match self {
            Source::Profile => "profile.yaml",
            Source::JobTitles => "jobtitles.yaml",
            Source::Education => "education.yaml",
            Source::Experience => "experience.yaml",
            Source::Projects => "projects.yaml",
        }
    }
}

/// A source that could not be read or understood. The session goes on without
/// it.
#[derive(Debug, Clone, PartialEq, Eq)]
pub struct LoadWarning {
    pub source: Source,
    pub reason: String,
}

/// The text of a warning about `source`, given the text of its reason.
pub open spec fn warning_text(source: Source, reason: Seq<char>) -> Seq<char> {
    "Warning: Could not load "@ + source_file_name(source) + ": "@ + reason
}

impl LoadWarning {
    /// The line that reports this warning to the operator.
    pub fn message(&self) -> (line: String)
        ensures
            line@ == warning_text(self.source, self.reason@),
    {
        let mut line = "Warning: Could not load ".to_owned();
        line.append(self.source.file_name());
        line.append(": ");
        line.append(self.reason.as_str());
        line
    }
}

/// What the five sources held, before any selection is made.
#[derive(Debug, Clone, PartialEq, Eq)]
pub struct RawResumeData {
    pub profile: Option<Profile>,
    pub job_titles: Vec<JobTitle>,
    pub education: Vec<Education>,
    pub experience: Vec<Experience>,
    pub projects: Vec<Project>,
}

/// The warning that the outcome of reading `source` calls for, if any.
pub open spec fn warning_for<T>(source: Source, outcome: Result<T, String>) -> Seq<LoadWarning> {
    match outcome {
        Ok(_) => Seq::empty(),
        Err(reason) => seq![LoadWarning { source, reason }],
    }
}

/// The entries that a source contributes: those that were read, or none where
/// reading failed.
pub open spec fn recovered<T>(outcome: Result<Vec<T>, String>) -> Seq<T> {
    match outcome {
        Ok(entries) => entries@,
        Err(_) => Seq::empty(),
    }
}

/// The profile that its source contributes: the one that was read, if there
/// was one and reading did not fail.
pub open spec fn recovered_profile(outcome: Result<Option<Profile>, String>) -> Option<Profile> {
    match outcome {
        Ok(profile) => profile,
        Err(_) => None,
    }
}

impl RawResumeData {
    /// Puts together what the five sources gave. A source that failed
    /// contributes nothing and is reported by a warning; the others are taken
    /// as they are. The warnings come in the order of the parameters.
    pub fn recover(
        profile: Result<Option<Profile>, String>,
        job_titles: Result<Vec<JobTitle>, String>,
        education: Result<Vec<EducationWrapper>, String>,
        experience: Result<Vec<Experience>, String>,
        projects: Result<Vec<ProjectsWrapper>, String>,
    ) -> (loaded: (RawResumeData, Vec<LoadWarning>))
        ensures
            loaded.0.profile == recovered_profile(profile),
            loaded.0.job_titles@ == recovered(job_titles),
            loaded.0.education@ == education_of(recovered(education)),
            loaded.0.experience@ == recovered(experience),
            loaded.0.projects@ == projects_of(recovered(projects)),
            loaded.1@ == warning_for(Source::Profile, profile) + warning_for(
                Source::JobTitles,
                job_titles,
            ) + warning_for(Source::Education, education) + warning_for(
                Source::Experience,
                experience,
            ) + warning_for(Source::Projects, projects),
    {
        let mut warnings: Vec<LoadWarning> = Vec::new();
        let profile_value = match profile {
            Ok(value) => value,
            Err(reason) => {
                warnings.push(LoadWarning { source: Source::Profile, reason });
                None
            },
        };
        let job_title_values = match job_titles {
            Ok(value) => value,
            Err(reason) => {
                warnings.push(LoadWarning { source: Source::JobTitles, reason });
                Vec::new()
            },
        };
        let education_groups = match education {
            Ok(value) => value,
            Err(reason) => {
                warnings.push(LoadWarning { source: Source::Education, reason });
                Vec::new()
            },
        };
        let experience_values = match experience {
            Ok(value) => value,
            Err(reason) => {
                warnings.push(LoadWarning { source: Source::Experience, reason });
                Vec::new()
            },
        };
        let project_groups = match projects {
            Ok(value) => value,
            Err(reason) => {
                warnings.push(LoadWarning { source: Source::Projects, reason });
                Vec::new()
            },
        };
        let raw = RawResumeData {
            profile: profile_value,
            job_titles: job_title_values,
            education: flatten_education(education_groups),
            experience: experience_values,
            projects: flatten_projects(project_groups),
        };
        (raw, warnings)
    }
}

/// Everything that was loaded, with the cursor and the inclusion flags of each
/// list and the job title that was chosen.
#[derive(Debug, Clone, PartialEq, Eq)]
pub struct ResumeData {
    pub profile: Option<Profile>,
    pub education: SelectionList<Education>,
    pub experience: SelectionList<Experience>,
    pub projects: SelectionList<Project>,
    pub job_titles: SelectionList<JobTitle>,
    pub job_title: Option<String>,
}

/// The mathematical content of a [`ResumeData`].
pub struct ResumeModel {
    pub profile: Option<Profile>,
    pub education: SelectionModel<Education>,
    pub experience: SelectionModel<Experience>,
    pub projects: SelectionModel<Project>,
    pub job_titles: SelectionModel<JobTitle>,
    pub job_title: Option<String>,
}

impl ResumeModel {
    /// Every list is well-formed.
    pub open spec fn wf(self) -> bool {
        &&& self.education.wf()
        &&& self.experience.wf()
        &&& self.projects.wf()
        &&& self.job_titles.wf()
    }

    /// The data set that a session starts with.
    pub open spec fn fresh(raw: RawResumeData) -> ResumeModel {
        ResumeModel {
            profile: raw.profile,
            education: SelectionModel { items: fresh_entries(raw.education@), cursor: None },
            experience: SelectionModel { items: fresh_entries(raw.experience@), cursor: None },
            projects: SelectionModel { items: fresh_entries(raw.projects@), cursor: None },
            job_titles: SelectionModel { items: fresh_entries(raw.job_titles@), cursor: None },
            job_title: None,
        }
    }

    /// The data set of a session for which nothing was loaded.
    pub open spec fn empty() -> ResumeModel {
        ResumeModel {
            profile: None,
            education: SelectionModel { items: Seq::empty(), cursor: None },
            experience: SelectionModel { items: Seq::empty(), cursor: None },
            projects: SelectionModel { items: Seq::empty(), cursor: None },
            job_titles: SelectionModel { items: Seq::empty(), cursor: None },
            job_title: None,
        }
    }

    /// The data set after the job title under the cursor was chosen: its text
    /// becomes the chosen title. Nothing changes when the cursor points at no
    /// job title.
    pub open spec fn choose_current_title(self) -> ResumeModel {
        match self.job_titles.cursor {
            Some(i) if i < self.job_titles.items.len() => ResumeModel {
                job_title: Some(self.job_titles.items[i as int].item.title),
                ..self
            },
            _ => self,
        }
    }

    /// What the document renderer receives: the profile or its placeholder,
    /// the selected entries of each list in list order, and the chosen job
    /// title or its placeholder.
    pub open spec fn projection(self) -> FilteredResumeView {
        FilteredResumeView {
            profile: match self.profile {
                Some(profile) => profile@,
                None => placeholder_profile(),
            },
            education: contents(included_payloads(self.education.items)),
            experience: contents(included_payloads(self.experience.items)),
            projects: contents(included_payloads(self.projects.items)),
            job_title: match self.job_title {
                Some(title) => title@,
                None => placeholder_job_title(),
            },
        }
    }
}

impl View for ResumeData {
    type V = ResumeModel;

    open spec fn view(&self) -> ResumeModel {
        ResumeModel {
            profile: self.profile,
            education: self.education@,
            experience: self.experience@,
            projects: self.projects@,
            job_titles: self.job_titles@,
            job_title: self.job_title,
        }
    }
}

impl ResumeData {
    /// Every list is well-formed.
    pub open spec fn wf(&self) -> bool {
        self@.wf()
    }

    /// The data set that a session starts with: every entry selected for
    /// export, no cursor anywhere, no job title chosen.
    pub fn from_raw(raw: RawResumeData) -> (data: ResumeData)
        ensures
            data@ == ResumeModel::fresh(raw),
            data.wf(),
    {
        ResumeData {
            profile: raw.profile,
            education: SelectionList::new(raw.education),
            experience: SelectionList::new(raw.experience),
            projects: SelectionList::new(raw.projects),
            job_titles: SelectionList::new(raw.job_titles),
            job_title: None,
        }
    }

    /// Makes the job title under the cursor the chosen one. No inclusion flag
    /// changes.
    pub fn choose_current_title(&mut self)
        ensures
            final(self)@ == old(self)@.choose_current_title(),
            old(self).wf() ==> final(self).wf(),
    {
        if let Some(i) = self.job_titles.cursor {
            if i < self.job_titles.items.len() {
                self.job_title = Some(self.job_titles.items[i].item.title.clone());
            }
        }
    }

    /// The payload for the document renderer.
    pub fn to_filtered_data(&self) -> (payload: FilteredResumeData)
        ensures
            payload@ == self@.projection(),
    {
        FilteredResumeData {
            profile: match &self.profile {
                Some(profile) => profile.duplicate(),
                None => Profile::placeholder(),
            },
            education: self.education.included_items(),
            experience: self.experience.included_items(),
            projects: self.projects.included_items(),
            job_title: match &self.job_title {
                Some(title) => title.clone(),
                None => " N/A".to_owned(),
            },
        }
    }
}

impl Default for ResumeData {
    /// The data set of a session for which nothing was loaded.
    fn default() -> (data: ResumeData)
        ensures
            data@ == ResumeModel::empty(),
            data.wf(),
    {
        let data = ResumeData::from_raw(
            RawResumeData {
                profile: None,
                job_titles: Vec::new(),
                education: Vec::new(),
                experience: Vec::new(),
                projects: Vec::new(),
            },
        );
        assert(data@.education.items =~= Seq::empty());
        assert(data@.experience.items =~= Seq::empty());
        assert(data@.projects.items =~= Seq::empty());
        assert(data@.job_titles.items =~= Seq::empty());
        data
    }
}

} // verus!
