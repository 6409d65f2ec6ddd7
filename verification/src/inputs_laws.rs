//! What the inputs of the document template hold under each key.

use vstd::prelude::*;
use crate::inputs::education_entries;
use crate::inputs::experience_entries;
use crate::inputs::payload_entries;
use crate::inputs::profile_entries;
use crate::inputs::project_entries;
use crate::inputs::record_list;
use crate::inputs::text_list;
use crate::inputs::DocumentInput;
use crate::inputs::ValueModel;
use crate::models::types::Education;
use crate::models::types::EducationView;
use crate::models::types::Experience;
use crate::models::types::ExperienceView;
use crate::models::types::FilteredResumeView;
use crate::models::types::ProfileView;
use crate::models::types::Project;
use crate::models::types::ProjectView;

verus! {

/// A profile is read under six keys, each holding the text of one field.
pub proof fn lemma_profile_entries(profile: ProfileView)
    ensures
        profile_entries(profile).dom() =~= set![
            "name"@,
            "email"@,
            "phone"@,
            "url"@,
            "location"@,
            "citizenship"@,
        ],
        profile_entries(profile)["name"@] == ValueModel::Text(profile.name),
        profile_entries(profile)["email"@] == ValueModel::Text(profile.email),
        profile_entries(profile)["phone"@] == ValueModel::Text(profile.phone),
        profile_entries(profile)["url"@] == ValueModel::Text(profile.url),
        profile_entries(profile)["location"@] == ValueModel::Text(profile.location),
        profile_entries(profile)["citizenship"@] == ValueModel::Text(profile.citizenship),
{
    reveal_strlit("name");
    assert("name"@.len() == 4);
    reveal_strlit("email");
    assert("email"@.len() == 5);
    reveal_strlit("phone");
    assert("phone"@.len() == 5);
    reveal_strlit("url");
    assert("url"@.len() == 3);
    reveal_strlit("location");
    assert("location"@.len() == 8);
    reveal_strlit("citizenship");
    assert("citizenship"@.len() == 11);
    assert("email"@[0] != "phone"@[0]);
}

/// An education entry is read under three keys, each holding the text of one
/// field. No cursor and no inclusion flag is among them.
pub proof fn lemma_education_entries(entry: EducationView)
    ensures
        education_entries(entry).dom() =~= set!["school"@, "degree"@, "status"@],
        education_entries(entry)["school"@] == ValueModel::Text(entry.school),
        education_entries(entry)["degree"@] == ValueModel::Text(entry.degree),
        education_entries(entry)["status"@] == ValueModel::Text(entry.status),
{
    reveal_strlit("school");
    assert("school"@.len() == 6);
    reveal_strlit("degree");
    assert("degree"@.len() == 6);
    reveal_strlit("status");
    assert("status"@.len() == 6);
    assert("school"@[0] != "degree"@[0]);
    assert("school"@[1] != "status"@[1]);
    assert("degree"@[0] != "status"@[0]);
}

/// An entry of the work history is read under six keys: five texts and the
/// list of its bullet points.
pub proof fn lemma_experience_entries(entry: ExperienceView)
    ensures
        experience_entries(entry).dom() =~= set![
            "role"@,
            "company"@,
            "location"@,
            "date"@,
            "summary"@,
            "bullets"@,
        ],
        experience_entries(entry)["role"@] == ValueModel::Text(entry.role),
        experience_entries(entry)["company"@] == ValueModel::Text(entry.company),
        experience_entries(entry)["location"@] == ValueModel::Text(entry.location),
        experience_entries(entry)["date"@] == ValueModel::Text(entry.date),
        experience_entries(entry)["summary"@] == ValueModel::Text(entry.summary),
        experience_entries(entry)["bullets"@] == text_list(entry.bullets),
{
    reveal_strlit("role");
    assert("role"@.len() == 4);
    reveal_strlit("company");
    assert("company"@.len() == 7);
    reveal_strlit("location");
    assert("location"@.len() == 8);
    reveal_strlit("date");
    assert("date"@.len() == 4);
    reveal_strlit("summary");
    assert("summary"@.len() == 7);
    reveal_strlit("bullets");
    assert("bullets"@.len() == 7);
    assert("role"@[0] != "date"@[0]);
    assert("company"@[0] != "summary"@[0]);
    assert("company"@[0] != "bullets"@[0]);
    assert("summary"@[0] != "bullets"@[0]);
}

/// A project is read under three keys: two texts and the list of its
/// technologies.
pub proof fn lemma_project_entries(entry: ProjectView)
    ensures
        project_entries(entry).dom() =~= set!["title"@, "description"@, "tech_stack"@],
        project_entries(entry)["title"@] == ValueModel::Text(entry.title),
        project_entries(entry)["description"@] == ValueModel::Text(entry.description),
        project_entries(entry)["tech_stack"@] == text_list(entry.tech_stack),
{
    reveal_strlit("title");
    assert("title"@.len() == 5);
    reveal_strlit("description");
    assert("description"@.len() == 11);
    reveal_strlit("tech_stack");
    assert("tech_stack"@.len() == 10);
}

/// The payload is read under five keys: the profile as a dictionary, the
/// three lists as lists of dictionaries in payload order, and the job title as
/// a text.
pub proof fn lemma_payload_entries(payload: FilteredResumeView)
    ensures
        payload_entries(payload).dom() =~= set![
            "profile"@,
            "education"@,
            "experience"@,
            "projects"@,
            "job_title"@,
        ],
        payload_entries(payload)["profile"@] == ValueModel::Dict(profile_entries(payload.profile)),
        payload_entries(payload)["education"@] == record_list::<Education>(payload.education),
        payload_entries(payload)["experience"@] == record_list::<Experience>(payload.experience),
        payload_entries(payload)["projects"@] == record_list::<Project>(payload.projects),
        payload_entries(payload)["job_title"@] == ValueModel::Text(payload.job_title),
{
    reveal_strlit("profile");
    assert("profile"@.len() == 7);
    reveal_strlit("education");
    assert("education"@.len() == 9);
    reveal_strlit("experience");
    assert("experience"@.len() == 10);
    reveal_strlit("projects");
    assert("projects"@.len() == 8);
    reveal_strlit("job_title");
    assert("job_title"@.len() == 9);
    assert("education"@[0] != "job_title"@[0]);
}

/// A list of records is read as a list of the same length, whose items are the
/// dictionaries of the records in the same order.
pub proof fn lemma_record_list_items<T: DocumentInput>(entries: Seq<T::V>, at: int)
    requires
        0 <= at < entries.len(),
    ensures
        record_list::<T>(entries) matches ValueModel::List(items) && items.len() == entries.len()
            && items[at] == ValueModel::Dict(T::entries_of(entries[at])),
{
}

} // verus!
