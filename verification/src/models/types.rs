//! The records of a resume and the payload handed to the document renderer.

use vstd::prelude::*;

verus! {

/// The inclusion flag of a freshly loaded entry: everything starts out
/// selected for export.
pub fn default_true() -> (flag: bool)
    ensures
        flag,
{
    true
}

/// A record whose content can be copied.
pub trait Record: View + Sized {
    /// An independent copy with the same content.
    fn duplicate(&self) -> (copy: Self)
        ensures
            copy@ == self@,
    ;
}

/// The texts of a list of strings, in order.
pub open spec fn texts(strings: Seq<String>) -> Seq<Seq<char>> {
    strings.map_values(|s: String| s@)
}

/// Copies a list of strings.
pub fn duplicate_strings(strings: &Vec<String>) -> (copy: Vec<String>)
    ensures
        texts(copy@) == texts(strings@),
{
    let mut copy: Vec<String> = Vec::new();
    let mut i: usize = 0;
    while i < strings.len()
        invariant
            i <= strings.len(),
            copy@ == strings@.take(i as int),
        decreases strings.len() - i,
    {
        copy.push(strings[i].clone());
        i += 1;
    }
    copy
}

/// Who the resume is about.
#[derive(Debug, Clone, PartialEq, Eq)]
pub struct Profile {
    pub name: String,
    pub email: String,
    pub phone: String,
    pub url: String,
    pub location: String,
    pub citizenship: String,
}

/// The content of a [`Profile`].
pub struct ProfileView {
    pub name: Seq<char>,
    pub email: Seq<char>,
    pub phone: Seq<char>,
    pub url: Seq<char>,
    pub location: Seq<char>,
    pub citizenship: Seq<char>,
}

impl View for Profile {
    type V = ProfileView;

    open spec fn view(&self) -> ProfileView {
        ProfileView {
            name: self.name@,
            email: self.email@,
            phone: self.phone@,
            url: self.url@,
            location: self.location@,
            citizenship: self.citizenship@,
        }
    }
}

impl Record for Profile {
    fn duplicate(&self) -> (copy: Self) {
        Profile {
            name: self.name.clone(),
            email: self.email.clone(),
            phone: self.phone.clone(),
            url: self.url.clone(),
            location: self.location.clone(),
            citizenship: self.citizenship.clone(),
        }
    }
}

/// The record that stands in where no profile was loaded.
pub open spec fn placeholder_profile() -> ProfileView {
    ProfileView {
        name: "Unknown"@,
        email: "unknown@example.com"@,
        phone: "N/A"@,
        url: "N/A"@,
        location: "N/A"@,
        citizenship: "N/A"@,
    }
}

/// The job title that stands in where none was chosen.
pub open spec fn placeholder_job_title() -> Seq<char> {
    " N/A"@
}

impl Profile {
    /// The record that stands in where no profile was loaded.
    pub fn placeholder() -> (profile: Profile)
        ensures
            profile@ == placeholder_profile(),
    {
        Profile {
            name: "Unknown".to_owned(),
            email: "unknown@example.com".to_owned(),
            phone: "N/A".to_owned(),
            url: "N/A".to_owned(),
            location: "N/A".to_owned(),
            citizenship: "N/A".to_owned(),
        }
    }
}

/// A role the resume can be targeted at.
#[derive(Debug, Clone, PartialEq, Eq)]
pub struct JobTitle {
    pub title: String,
}

/// The content of a [`JobTitle`].
pub struct JobTitleView {
    pub title: Seq<char>,
}

impl View for JobTitle {
    type V = JobTitleView;

    open spec fn view(&self) -> JobTitleView {
        JobTitleView { title: self.title@ }
    }
}

impl Record for JobTitle {
    fn duplicate(&self) -> (copy: Self) {
        JobTitle { title: self.title.clone() }
    }
}

/// One entry of the education section.
#[derive(Debug, Clone, PartialEq, Eq)]
pub struct Education {
    pub school: String,
    pub degree: String,
    pub status: String,
}

/// The content of an [`Education`] entry.
pub struct EducationView {
    pub school: Seq<char>,
    pub degree: Seq<char>,
    pub status: Seq<char>,
}

impl View for Education {
    type V = EducationView;

    open spec fn view(&self) -> EducationView {
        EducationView { school: self.school@, degree: self.degree@, status: self.status@ }
    }
}

impl Record for Education {
    fn duplicate(&self) -> (copy: Self) {
        Education {
            school: self.school.clone(),
            degree: self.degree.clone(),
            status: self.status.clone(),
        }
    }
}

/// One entry of the work history.
#[derive(Debug, Clone, PartialEq, Eq)]
pub struct Experience {
    pub role: String,
    pub company: String,
    pub location: String,
    pub date: String,
    pub summary: String,
    pub bullets: Vec<String>,
}

/// The content of an [`Experience`] entry.
pub struct ExperienceView {
    pub role: Seq<char>,
    pub company: Seq<char>,
    pub location: Seq<char>,
    pub date: Seq<char>,
    pub summary: Seq<char>,
    pub bullets: Seq<Seq<char>>,
}

impl View for Experience {
    type V = ExperienceView;

    open spec fn view(&self) -> ExperienceView {
        ExperienceView {
            role: self.role@,
            company: self.company@,
            location: self.location@,
            date: self.date@,
            summary: self.summary@,
            bullets: texts(self.bullets@),
        }
    }
}

impl Record for Experience {
    fn duplicate(&self) -> (copy: Self) {
        Experience {
            role: self.role.clone(),
            company: self.company.clone(),
            location: self.location.clone(),
            date: self.date.clone(),
            summary: self.summary.clone(),
            bullets: duplicate_strings(&self.bullets),
        }
    }
}

/// One entry of the projects section.
#[derive(Debug, Clone, PartialEq, Eq)]
pub struct Project {
    pub title: String,
    pub description: String,
    pub tech_stack: Vec<String>,
}

/// The content of a [`Project`] entry.
pub struct ProjectView {
    pub title: Seq<char>,
    pub description: Seq<char>,
    pub tech_stack: Seq<Seq<char>>,
}

impl View for Project {
    type V = ProjectView;

    open spec fn view(&self) -> ProjectView {
        ProjectView {
            title: self.title@,
            description: self.description@,
            tech_stack: texts(self.tech_stack@),
        }
    }
}

impl Record for Project {
    fn duplicate(&self) -> (copy: Self) {
        Project {
            title: self.title.clone(),
            description: self.description.clone(),
            tech_stack: duplicate_strings(&self.tech_stack),
        }
    }
}

/// The contents of a list of records, in order.
pub open spec fn contents<T: View>(records: Seq<T>) -> Seq<T::V> {
    records.map_values(|r: T| r@)
}

/// What the document renderer receives: the profile, the entries that were
/// left selected, and the job title. Cursors and inclusion flags are not part
/// of it.
#[derive(Debug, Clone, PartialEq, Eq)]
pub struct FilteredResumeData {
    pub profile: Profile,
    pub education: Vec<Education>,
    pub experience: Vec<Experience>,
    pub projects: Vec<Project>,
    pub job_title: String,
}

/// The content of a [`FilteredResumeData`].
pub struct FilteredResumeView {
    pub profile: ProfileView,
    pub education: Seq<EducationView>,
    pub experience: Seq<ExperienceView>,
    pub projects: Seq<ProjectView>,
    pub job_title: Seq<char>,
}

impl View for FilteredResumeData {
    type V = FilteredResumeView;

    open spec fn view(&self) -> FilteredResumeView {
        FilteredResumeView {
            profile: self.profile@,
            education: contents(self.education@),
            experience: contents(self.experience@),
            projects: contents(self.projects@),
            job_title: self.job_title@,
        }
    }
}

/// One document of the education source: a group of entries.
#[derive(Debug, Clone, PartialEq, Eq)]
pub struct EducationWrapper {
    pub education: Vec<Education>,
}

/// One document of the projects source: a group of entries.
#[derive(Debug, Clone, PartialEq, Eq)]
pub struct ProjectsWrapper {
    pub projects: Vec<Project>,
}

/// The education entries of all groups, group after group.
pub open spec fn education_of(groups: Seq<EducationWrapper>) -> Seq<Education> {
    groups.map_values(|group: EducationWrapper| group.education@).flatten()
}

/// The projects of all groups, group after group.
pub open spec fn projects_of(groups: Seq<ProjectsWrapper>) -> Seq<Project> {
    groups.map_values(|group: ProjectsWrapper| group.projects@).flatten()
}

/// Joins the groups of the education source into one list.
pub fn flatten_education(groups: Vec<EducationWrapper>) -> (entries: Vec<Education>)
    ensures
        entries@ == education_of(groups@),
{
    let mut entries: Vec<Education> = Vec::new();
    for group in it: groups
        invariant
            it.seq() == groups@,
            entries@ == education_of(groups@.take(it.index())),
    {
        let mut members = group.education;
        proof {
            let before = groups@.take(it.index()).map_values(
                |group: EducationWrapper| group.education@,
            );
            before.lemma_flatten_push(members@);
            assert(groups@.take(it.index() + 1).map_values(
                |group: EducationWrapper| group.education@,
            ) =~= before.push(members@));
        }
        entries.append(&mut members);
    }
    assert(groups@.take(groups@.len() as int) =~= groups@);
    entries
}

/// Joins the groups of the projects source into one list.
pub fn flatten_projects(groups: Vec<ProjectsWrapper>) -> (entries: Vec<Project>)
    ensures
        entries@ == projects_of(groups@),
{
    let mut entries: Vec<Project> = Vec::new();
    for group in it: groups
        invariant
            it.seq() == groups@,
            entries@ == projects_of(groups@.take(it.index())),
    {
        let mut members = group.projects;
        proof {
            let before = groups@.take(it.index()).map_values(
                |group: ProjectsWrapper| group.projects@,
            );
            before.lemma_flatten_push(members@);
            assert(groups@.take(it.index() + 1).map_values(
                |group: ProjectsWrapper| group.projects@,
            ) =~= before.push(members@));
        }
        entries.append(&mut members);
    }
    assert(groups@.take(groups@.len() as int) =~= groups@);
    entries
}

} // verus!
