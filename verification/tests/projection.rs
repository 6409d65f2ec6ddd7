use resume_wizard::models::resume::LoadWarning;
use resume_wizard::models::resume::RawResumeData;
use resume_wizard::models::resume::ResumeData;
use resume_wizard::models::resume::Source;
use resume_wizard::models::selection::SelectionList;
use resume_wizard::models::types::flatten_education;
use resume_wizard::models::types::flatten_projects;
use resume_wizard::models::types::duplicate_strings;
use resume_wizard::models::types::Education;
use resume_wizard::models::types::EducationWrapper;
use resume_wizard::models::types::Experience;
use resume_wizard::models::types::FilteredResumeData;
use resume_wizard::models::types::JobTitle;
use resume_wizard::models::types::Profile;
use resume_wizard::models::types::Project;
use resume_wizard::models::types::ProjectsWrapper;
use resume_wizard::models::types::Record;

fn school(name: &str) -> Education {
    Education {
        school: name.to_string(),
        degree: format!("BSc at {}", name),
        status: "Completed".to_string(),
    }
}

fn job(role: &str) -> Experience {
    Experience {
        role: role.to_string(),
        company: "Acme".to_string(),
        location: "Remote".to_string(),
        date: "2020-2024".to_string(),
        summary: "Did things".to_string(),
        bullets: vec!["first".to_string(), "second".to_string()],
    }
}

fn project(title: &str) -> Project {
    Project {
        title: title.to_string(),
        description: "A project".to_string(),
        tech_stack: vec!["Rust".to_string()],
    }
}

fn someone() -> Profile {
    Profile {
        name: "Ada".to_string(),
        email: "ada@example.com".to_string(),
        phone: "123".to_string(),
        url: "ada.example.com".to_string(),
        location: "London".to_string(),
        citizenship: "UK".to_string(),
    }
}

fn loaded() -> ResumeData {
    ResumeData::from_raw(RawResumeData {
        profile: Some(someone()),
        job_titles: vec![
            JobTitle { title: "Engineer".to_string() },
            JobTitle { title: "Manager".to_string() },
        ],
        education: vec![school("A"), school("B"), school("C")],
        experience: vec![job("Dev"), job("Lead")],
        projects: vec![project("Alpha"), project("Beta"), project("Gamma")],
    })
}

#[test]
fn projection_drops_excluded_items_and_keeps_order() {
    let mut data = loaded();
    data.education.items[1].included = false;
    let payload = data.to_filtered_data();
    assert_eq!(payload.education, vec![school("A"), school("C")]);
}

#[test]
fn projection_filters_each_list_on_its_own() {
    let mut data = loaded();
    data.experience.items[0].included = false;
    data.projects.items[0].included = false;
    data.projects.items[2].included = false;
    let payload = data.to_filtered_data();
    assert_eq!(payload.education, vec![school("A"), school("B"), school("C")]);
    assert_eq!(payload.experience, vec![job("Lead")]);
    assert_eq!(payload.projects, vec![project("Beta")]);
}

#[test]
fn projection_of_everything_excluded_is_empty() {
    let mut data = loaded();
    for entry in data.education.items.iter_mut() {
        entry.included = false;
    }
    let payload = data.to_filtered_data();
    assert!(payload.education.is_empty());
    assert_eq!(payload.experience.len(), 2);
}

#[test]
fn projection_is_repeatable() {
    let mut data = loaded();
    data.education.items[0].included = false;
    data.job_title = Some("Manager".to_string());
    let first = data.to_filtered_data();
    let second = data.to_filtered_data();
    assert_eq!(first, second);
}

#[test]
fn projection_leaves_the_data_set_alone() {
    let mut data = loaded();
    data.projects.items[1].included = false;
    data.projects.cursor = Some(2);
    let before = data.clone();
    let _ = data.to_filtered_data();
    assert_eq!(data, before);
}

#[test]
fn projection_ignores_cursors() {
    let mut data = loaded();
    data.education.items[2].included = false;
    let before = data.to_filtered_data();
    data.education.cursor = Some(1);
    data.experience.next();
    data.projects.previous();
    data.job_titles.select_initial();
    assert_eq!(data.to_filtered_data(), before);
}

#[test]
fn projection_of_a_projection_loaded_again_is_the_same() {
    let mut data = loaded();
    data.education.items[1].included = false;
    data.projects.items[0].included = false;
    let first = data.to_filtered_data();
    let again = ResumeData::from_raw(RawResumeData {
        profile: Some(first.profile.clone()),
        job_titles: Vec::new(),
        education: first.education.clone(),
        experience: first.experience.clone(),
        projects: first.projects.clone(),
    });
    let second = again.to_filtered_data();
    assert_eq!(second.education, first.education);
    assert_eq!(second.experience, first.experience);
    assert_eq!(second.projects, first.projects);
    assert_eq!(second.profile, first.profile);
}

#[test]
fn projection_keeps_loaded_profile_and_chosen_title() {
    let mut data = loaded();
    data.job_title = Some("Engineer".to_string());
    let payload = data.to_filtered_data();
    assert_eq!(payload.profile, someone());
    assert_eq!(payload.job_title, "Engineer");
}

#[test]
fn projection_fills_in_placeholders() {
    let payload = ResumeData::default().to_filtered_data();
    assert_eq!(
        payload,
        FilteredResumeData {
            profile: Profile {
                name: "Unknown".to_string(),
                email: "unknown@example.com".to_string(),
                phone: "N/A".to_string(),
                url: "N/A".to_string(),
                location: "N/A".to_string(),
                citizenship: "N/A".to_string(),
            },
            education: Vec::new(),
            experience: Vec::new(),
            projects: Vec::new(),
            job_title: " N/A".to_string(),
        }
    );
}

#[test]
fn placeholder_profile_has_the_fixed_texts() {
    let profile = Profile::placeholder();
    assert_eq!(profile.name, "Unknown");
    assert_eq!(profile.email, "unknown@example.com");
    assert_eq!(profile.phone, "N/A");
    assert_eq!(profile.url, "N/A");
    assert_eq!(profile.location, "N/A");
    assert_eq!(profile.citizenship, "N/A");
}

#[test]
fn included_items_of_a_list() {
    let mut list = SelectionList::new(vec![school("A"), school("B"), school("C"), school("D")]);
    list.items[0].included = false;
    list.items[3].included = false;
    assert_eq!(list.included_items(), vec![school("B"), school("C")]);
}

#[test]
fn duplicates_equal_what_they_copy() {
    assert_eq!(someone().duplicate(), someone());
    assert_eq!(school("A").duplicate(), school("A"));
    assert_eq!(job("Dev").duplicate(), job("Dev"));
    assert_eq!(project("P").duplicate(), project("P"));
    let title = JobTitle { title: "Engineer".to_string() };
    assert_eq!(title.duplicate(), title);
    let strings = vec!["a".to_string(), "".to_string(), "c".to_string()];
    assert_eq!(duplicate_strings(&strings), strings);
}

#[test]
fn from_raw_starts_with_everything_included_and_nothing_chosen() {
    let data = loaded();
    assert_eq!(data.profile, Some(someone()));
    assert_eq!(data.job_title, None);
    assert_eq!(data.education.cursor, None);
    assert_eq!(data.experience.cursor, None);
    assert_eq!(data.projects.cursor, None);
    assert_eq!(data.job_titles.cursor, None);
    assert!(data.education.items.iter().all(|e| e.included));
    assert!(data.experience.items.iter().all(|e| e.included));
    assert!(data.projects.items.iter().all(|e| e.included));
    assert!(data.job_titles.items.iter().all(|e| e.included));
    let schools: Vec<&str> = data.education.items.iter().map(|e| e.item.school.as_str()).collect();
    assert_eq!(schools, vec!["A", "B", "C"]);
}

#[test]
fn default_data_set_is_empty() {
    let data = ResumeData::default();
    assert_eq!(data.profile, None);
    assert_eq!(data.job_title, None);
    assert!(data.education.items.is_empty());
    assert!(data.experience.items.is_empty());
    assert!(data.projects.items.is_empty());
    assert!(data.job_titles.items.is_empty());
    assert_eq!(data.job_titles.cursor, None);
}

#[test]
fn flatten_joins_groups_in_order() {
    let groups = vec![
        EducationWrapper { education: vec![school("A"), school("B")] },
        EducationWrapper { education: Vec::new() },
        EducationWrapper { education: vec![school("C")] },
    ];
    assert_eq!(flatten_education(groups), vec![school("A"), school("B"), school("C")]);
    let groups = vec![
        ProjectsWrapper { projects: vec![project("Alpha")] },
        ProjectsWrapper { projects: vec![project("Beta"), project("Gamma")] },
    ];
    assert_eq!(flatten_projects(groups), vec![project("Alpha"), project("Beta"), project("Gamma")]);
    assert!(flatten_education(Vec::new()).is_empty());
    assert!(flatten_projects(Vec::new()).is_empty());
}

#[test]
fn recover_takes_what_was_read() {
    let (raw, warnings) = RawResumeData::recover(
        Ok(Some(someone())),
        Ok(vec![JobTitle { title: "Engineer".to_string() }]),
        Ok(vec![
            EducationWrapper { education: vec![school("A")] },
            EducationWrapper { education: vec![school("B")] },
        ]),
        Ok(vec![job("Dev")]),
        Ok(vec![ProjectsWrapper { projects: vec![project("Alpha")] }]),
    );
    assert!(warnings.is_empty());
    assert_eq!(
        raw,
        RawResumeData {
            profile: Some(someone()),
            job_titles: vec![JobTitle { title: "Engineer".to_string() }],
            education: vec![school("A"), school("B")],
            experience: vec![job("Dev")],
            projects: vec![project("Alpha")],
        }
    );
}

#[test]
fn recover_replaces_each_failed_source_on_its_own() {
    let (raw, warnings) = RawResumeData::recover(
        Ok(None),
        Err("no such file".to_string()),
        Ok(vec![EducationWrapper { education: vec![school("A")] }]),
        Err("bad syntax".to_string()),
        Ok(Vec::new()),
    );
    assert_eq!(raw.profile, None);
    assert!(raw.job_titles.is_empty());
    assert_eq!(raw.education, vec![school("A")]);
    assert!(raw.experience.is_empty());
    assert!(raw.projects.is_empty());
    assert_eq!(
        warnings,
        vec![
            LoadWarning { source: Source::JobTitles, reason: "no such file".to_string() },
            LoadWarning { source: Source::Experience, reason: "bad syntax".to_string() },
        ]
    );
}

#[test]
fn recover_with_every_source_failed_gives_an_empty_data_set() {
    let (raw, warnings) = RawResumeData::recover(
        Err("e1".to_string()),
        Err("e2".to_string()),
        Err("e3".to_string()),
        Err("e4".to_string()),
        Err("e5".to_string()),
    );
    assert_eq!(ResumeData::from_raw(raw), ResumeData::default());
    let sources: Vec<Source> = warnings.iter().map(|w| w.source).collect();
    assert_eq!(
        sources,
        vec![
            Source::Profile,
            Source::JobTitles,
            Source::Education,
            Source::Experience,
            Source::Projects,
        ]
    );
    let reasons: Vec<&str> = warnings.iter().map(|w| w.reason.as_str()).collect();
    assert_eq!(reasons, vec!["e1", "e2", "e3", "e4", "e5"]);
}

#[test]
fn source_file_names() {
    assert_eq!(Source::Profile.file_name(), "profile.yaml");
    assert_eq!(Source::JobTitles.file_name(), "jobtitles.yaml");
    assert_eq!(Source::Education.file_name(), "education.yaml");
    assert_eq!(Source::Experience.file_name(), "experience.yaml");
    assert_eq!(Source::Projects.file_name(), "projects.yaml");
}

#[test]
fn warning_message_names_file_and_reason() {
    let warning = LoadWarning { source: Source::Education, reason: "File not found".to_string() };
    assert_eq!(warning.message(), "Warning: Could not load education.yaml: File not found");
    let warning = LoadWarning { source: Source::Profile, reason: String::new() };
    assert_eq!(warning.message(), "Warning: Could not load profile.yaml: ");
}

#[test]
fn choose_current_title_copies_the_title_under_the_cursor() {
    let mut data = loaded();
    data.job_titles.cursor = Some(1);
    let flags_before = data.job_titles.items.clone();
    data.choose_current_title();
    assert_eq!(data.job_title, Some("Manager".to_string()));
    assert_eq!(data.job_titles.items, flags_before);
    assert_eq!(data.job_titles.cursor, Some(1));
}

#[test]
fn choose_current_title_without_cursor_is_noop() {
    let mut data = loaded();
    let before = data.clone();
    data.choose_current_title();
    assert_eq!(data, before);
    data.job_titles.cursor = Some(7);
    let before = data.clone();
    data.choose_current_title();
    assert_eq!(data, before);
}
