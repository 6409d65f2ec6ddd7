use resume_wizard::inputs::records_value;
use resume_wizard::inputs::strings_value;
use resume_wizard::inputs::DocumentInput;
use resume_wizard::models::resume::RawResumeData;
use resume_wizard::models::resume::ResumeData;
use resume_wizard::models::types::Education;
use resume_wizard::models::types::Experience;
use resume_wizard::models::types::FilteredResumeData;
use resume_wizard::models::types::Profile;
use resume_wizard::models::types::Project;
use typst::foundations::Dict;
use typst::foundations::Value;

fn text(s: &str) -> Value {
    Value::Str(s.into())
}

fn entries(value: &Value) -> Dict {
    match value {
        Value::Dict(dict) => dict.clone(),
        other => panic!("expected a dictionary, found {:?}", other),
    }
}

fn items(value: &Value) -> Vec<Value> {
    match value {
        Value::Array(array) => array.iter().cloned().collect(),
        other => panic!("expected an array, found {:?}", other),
    }
}

fn keys(dict: &Dict) -> Vec<String> {
    let mut keys: Vec<String> = dict.iter().map(|(k, _)| k.as_str().to_string()).collect();
    keys.sort();
    keys
}

fn ada() -> Profile {
    Profile {
        name: "Ada".to_string(),
        email: "ada@example.com".to_string(),
        phone: "123".to_string(),
        url: "ada.example.com".to_string(),
        location: "London".to_string(),
        citizenship: "UK".to_string(),
    }
}

fn studies(school: &str) -> Education {
    Education {
        school: school.to_string(),
        degree: "BSc".to_string(),
        status: "Completed".to_string(),
    }
}

fn position(role: &str) -> Experience {
    Experience {
        role: role.to_string(),
        company: "Acme".to_string(),
        location: "Remote".to_string(),
        date: "2020".to_string(),
        summary: "Built things".to_string(),
        bullets: vec!["one".to_string(), "two".to_string()],
    }
}

fn side_project(title: &str) -> Project {
    Project {
        title: title.to_string(),
        description: "desc".to_string(),
        tech_stack: vec!["Rust".to_string(), "Verus".to_string()],
    }
}

#[test]
fn profile_value_holds_its_six_fields() {
    let dict = entries(&ada().into_value());
    assert_eq!(
        keys(&dict),
        vec!["citizenship", "email", "location", "name", "phone", "url"]
    );
    assert_eq!(dict.get("name").unwrap(), &text("Ada"));
    assert_eq!(dict.get("email").unwrap(), &text("ada@example.com"));
    assert_eq!(dict.get("phone").unwrap(), &text("123"));
    assert_eq!(dict.get("url").unwrap(), &text("ada.example.com"));
    assert_eq!(dict.get("location").unwrap(), &text("London"));
    assert_eq!(dict.get("citizenship").unwrap(), &text("UK"));
}

#[test]
fn education_value_holds_its_three_fields() {
    let dict = entries(&studies("MIT").into_value());
    assert_eq!(keys(&dict), vec!["degree", "school", "status"]);
    assert_eq!(dict.get("school").unwrap(), &text("MIT"));
    assert_eq!(dict.get("degree").unwrap(), &text("BSc"));
    assert_eq!(dict.get("status").unwrap(), &text("Completed"));
}

#[test]
fn experience_value_holds_texts_and_bullets() {
    let dict = entries(&position("Dev").into_value());
    assert_eq!(
        keys(&dict),
        vec!["bullets", "company", "date", "location", "role", "summary"]
    );
    assert_eq!(dict.get("role").unwrap(), &text("Dev"));
    assert_eq!(dict.get("company").unwrap(), &text("Acme"));
    assert_eq!(dict.get("location").unwrap(), &text("Remote"));
    assert_eq!(dict.get("date").unwrap(), &text("2020"));
    assert_eq!(dict.get("summary").unwrap(), &text("Built things"));
    assert_eq!(items(dict.get("bullets").unwrap()), vec![text("one"), text("two")]);
}

#[test]
fn project_value_holds_texts_and_technologies() {
    let dict = entries(&side_project("Compiler").into_value());
    assert_eq!(keys(&dict), vec!["description", "tech_stack", "title"]);
    assert_eq!(dict.get("title").unwrap(), &text("Compiler"));
    assert_eq!(dict.get("description").unwrap(), &text("desc"));
    assert_eq!(items(dict.get("tech_stack").unwrap()), vec![text("Rust"), text("Verus")]);
}

#[test]
fn strings_value_is_an_array_of_texts_in_order() {
    let value = strings_value(vec!["b".to_string(), "a".to_string(), "".to_string()]);
    assert_eq!(items(&value), vec![text("b"), text("a"), text("")]);
    assert!(items(&strings_value(Vec::new())).is_empty());
}

#[test]
fn records_value_is_an_array_of_dictionaries_in_order() {
    let value = records_value(vec![studies("A"), studies("B"), studies("C")]);
    let schools: Vec<Value> =
        items(&value).iter().map(|v| entries(v).get("school").unwrap().clone()).collect();
    assert_eq!(schools, vec![text("A"), text("B"), text("C")]);
    assert!(items(&records_value(Vec::<Project>::new())).is_empty());
}

#[test]
fn payload_dictionary_has_the_five_keys() {
    let payload = FilteredResumeData {
        profile: ada(),
        education: vec![studies("A"), studies("B")],
        experience: vec![position("Dev")],
        projects: vec![side_project("Alpha"), side_project("Beta"), side_project("Gamma")],
        job_title: "Engineer".to_string(),
    };
    let dict = payload.into_dict();
    assert_eq!(dict.len(), 5);
    assert_eq!(
        keys(&dict),
        vec!["education", "experience", "job_title", "profile", "projects"]
    );
    assert_eq!(dict.get("job_title").unwrap(), &text("Engineer"));
    assert_eq!(entries(dict.get("profile").unwrap()).get("name").unwrap(), &text("Ada"));
    let education = items(dict.get("education").unwrap());
    assert_eq!(education.len(), 2);
    assert_eq!(education[0], studies("A").into_value());
    assert_eq!(education[1], studies("B").into_value());
    let experience = items(dict.get("experience").unwrap());
    assert_eq!(experience, vec![position("Dev").into_value()]);
    let projects = items(dict.get("projects").unwrap());
    let titles: Vec<Value> =
        projects.iter().map(|v| entries(v).get("title").unwrap().clone()).collect();
    assert_eq!(titles, vec![text("Alpha"), text("Beta"), text("Gamma")]);
}

#[test]
fn payload_dictionary_exposes_no_selection_state() {
    let mut data = ResumeData::from_raw(RawResumeData {
        profile: None,
        job_titles: Vec::new(),
        education: vec![studies("A"), studies("B")],
        experience: vec![position("Dev")],
        projects: vec![side_project("Alpha")],
    });
    data.education.cursor = Some(1);
    data.education.items[0].included = false;
    let dict = data.to_filtered_data().into_dict();
    let education = items(dict.get("education").unwrap());
    assert_eq!(education.len(), 1);
    for list in ["education", "experience", "projects"] {
        for item in items(dict.get(list).unwrap()) {
            let item = entries(&item);
            for key in ["included", "is_visible", "cursor", "item"] {
                assert!(!item.contains(key));
            }
        }
    }
    assert_eq!(entries(&education[0]).get("school").unwrap(), &text("B"));
    assert_eq!(dict.get("job_title").unwrap(), &text(" N/A"));
    assert_eq!(entries(dict.get("profile").unwrap()).get("name").unwrap(), &text("Unknown"));
}

#[test]
fn payload_dictionary_of_an_empty_data_set() {
    let dict = ResumeData::default().to_filtered_data().into_dict();
    assert_eq!(dict.len(), 5);
    assert!(items(dict.get("education").unwrap()).is_empty());
    assert!(items(dict.get("experience").unwrap()).is_empty());
    assert!(items(dict.get("projects").unwrap()).is_empty());
}
