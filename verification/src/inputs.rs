//! The inputs of the document template: the payload as a dictionary of the
//! document language, with the keys that the template reads.

use vstd::prelude::*;
use typst::foundations::Dict;
use typst::foundations::IntoValue;
use typst::foundations::Value;
use crate::models::types::contents;
use crate::models::types::Education;
use crate::models::types::EducationView;
use crate::models::types::Experience;
use crate::models::types::ExperienceView;
use crate::models::types::FilteredResumeData;
use crate::models::types::FilteredResumeView;
use crate::models::types::Profile;
use crate::models::types::ProfileView;
use crate::models::types::Project;
use crate::models::types::ProjectView;
use crate::models::types::texts;

verus! {

/// `typst::foundations::Dict`, the dictionary of the document language. Its
/// inside is not visible here; [`dict_model`] names what it holds.
#[verifier::external_type_specification]
#[verifier::external_body]
pub struct ExDict(typst::foundations::Dict);

/// `typst::foundations::Value`, a value of the document language. Its inside
/// is not visible here; [`value_model`] names what it holds.
#[verifier::external_type_specification]
#[verifier::external_body]
pub struct ExValue(typst::foundations::Value);

/// What a value of the document language holds, as far as this library makes
/// such values: texts, lists and dictionaries.
pub enum ValueModel {
    Text(Seq<char>),
    List(Seq<ValueModel>),
    Dict(Map<Seq<char>, ValueModel>),
    /// A value of any other kind.
    Other,
}

/// The content of a dictionary without entries.
pub open spec fn no_entries() -> Map<Seq<char>, ValueModel> {
    Map::empty()
}

/// The entries of a dictionary of the document language: what each key maps
/// to. It is a name only: nothing is known of it but what the functions below
/// that make and fill dictionaries say.
pub uninterp spec fn dict_model(dict: Dict) -> Map<Seq<char>, ValueModel>;

/// What a value of the document language holds. It is a name only: nothing is
/// known of it but what the functions below that make values say.
pub uninterp spec fn value_model(value: Value) -> ValueModel;

/// What each of a list of values holds, in order.
pub open spec fn value_models(values: Seq<Value>) -> Seq<ValueModel> {
    values.map_values(|value: Value| value_model(value))
}

/// `typst::foundations::Dict::new`: the new dictionary has no entries.
#[verifier::external_body]
fn new_dict() -> (dict: Dict)
    ensures
        dict_model(dict) == no_entries(),
{
    Dict::new()
}

/// `typst::foundations::Dict::insert`, with the key made from a string slice:
/// afterwards the key maps to the value, whether or not it was present before,
/// and every other key maps to what it did.
#[verifier::external_body]
fn dict_insert(dict: &mut Dict, key: &str, value: Value)
    ensures
        dict_model(*final(dict)) == dict_model(*old(dict)).insert(key@, value_model(value)),
{
    dict.insert(key.into(), value)
}

/// `IntoValue::into_value` of typst for a `String`: the value is the string
/// value with the same text.
#[verifier::external_body]
fn text_value(text: String) -> (value: Value)
    ensures
        value_model(value) == ValueModel::Text(text@),
{
    text.into_value()
}

/// `IntoValue::into_value` of typst for a `Vec` of values: the value is the
/// array of these values, in the same order.
#[verifier::external_body]
fn list_value(items: Vec<Value>) -> (value: Value)
    ensures
        value_model(value) == ValueModel::List(value_models(items@)),
{
    items.into_value()
}

/// The variant `Dict` of typst's `Value`: the value is the dictionary value
/// with the same entries.
#[verifier::external_body]
fn dict_value(dict: Dict) -> (value: Value)
    ensures
        value_model(value) == ValueModel::Dict(dict_model(dict)),
{
    Value::Dict(dict)
}

/// The list value of some texts.
pub open spec fn text_list(strings: Seq<Seq<char>>) -> ValueModel {
    ValueModel::List(strings.map_values(|text: Seq<char>| ValueModel::Text(text)))
}

/// The entries that stand for a profile.
pub open spec fn profile_entries(profile: ProfileView) -> Map<Seq<char>, ValueModel> {
    no_entries().insert("name"@, ValueModel::Text(profile.name)).insert(
        "email"@,
        ValueModel::Text(profile.email),
    ).insert("phone"@, ValueModel::Text(profile.phone)).insert(
        "url"@,
        ValueModel::Text(profile.url),
    ).insert("location"@, ValueModel::Text(profile.location)).insert(
        "citizenship"@,
        ValueModel::Text(profile.citizenship),
    )
}

/// The entries that stand for an education entry.
pub open spec fn education_entries(entry: EducationView) -> Map<Seq<char>, ValueModel> {
    no_entries().insert("school"@, ValueModel::Text(entry.school)).insert(
        "degree"@,
        ValueModel::Text(entry.degree),
    ).insert("status"@, ValueModel::Text(entry.status))
}

/// The entries that stand for an entry of the work history.
pub open spec fn experience_entries(entry: ExperienceView) -> Map<Seq<char>, ValueModel> {
    no_entries().insert("role"@, ValueModel::Text(entry.role)).insert(
        "company"@,
        ValueModel::Text(entry.company),
    ).insert("location"@, ValueModel::Text(entry.location)).insert(
        "date"@,
        ValueModel::Text(entry.date),
    ).insert("summary"@, ValueModel::Text(entry.summary)).insert(
        "bullets"@,
        text_list(entry.bullets),
    )
}

/// The entries that stand for a project.
pub open spec fn project_entries(entry: ProjectView) -> Map<Seq<char>, ValueModel> {
    no_entries().insert("title"@, ValueModel::Text(entry.title)).insert(
        "description"@,
        ValueModel::Text(entry.description),
    ).insert("tech_stack"@, text_list(entry.tech_stack))
}

/// A record that the document template can read.
pub trait DocumentInput: View + Sized {
    /// The entries that stand for a record with the given content.
    spec fn entries_of(content: Self::V) -> Map<Seq<char>, ValueModel>;

    /// The record as a dictionary value of the document language.
    fn into_value(self) -> (value: Value)
        ensures
            value_model(value) == ValueModel::Dict(Self::entries_of(self@)),
    ;
}

/// The list value of some records: their dictionary values in order.
pub open spec fn record_list<T: DocumentInput>(records: Seq<T::V>) -> ValueModel {
    ValueModel::List(records.map_values(|content: T::V| ValueModel::Dict(T::entries_of(content))))
}

/// The entries that stand for the payload: the profile, the three lists and
/// the job title, each under its key.
pub open spec fn payload_entries(payload: FilteredResumeView) -> Map<Seq<char>, ValueModel> {
    no_entries().insert("profile"@, ValueModel::Dict(profile_entries(payload.profile))).insert(
        "education"@,
        record_list::<Education>(payload.education),
    ).insert("experience"@, record_list::<Experience>(payload.experience)).insert(
        "projects"@,
        record_list::<Project>(payload.projects),
    ).insert("job_title"@, ValueModel::Text(payload.job_title))
}

/// Some texts as a list value of the document language.
pub fn strings_value(strings: Vec<String>) -> (value: Value)
    ensures
        value_model(value) == text_list(texts(strings@)),
{
    let mut items: Vec<Value> = Vec::new();
    for text in it: strings
        invariant
            it.seq() == strings@,
            value_models(items@) == text_list(texts(strings@.take(it.index())))->List_0,
    {
        let item = text_value(text);
        items.push(item);
        assert(text_list(texts(strings@.take(it.index() + 1)))->List_0 =~= text_list(
            texts(strings@.take(it.index())),
        )->List_0.push(ValueModel::Text(text@)));
    }
    assert(strings@.take(strings@.len() as int) =~= strings@);
    list_value(items)
}

/// Some records as a list value of the document language.
pub fn records_value<T: DocumentInput>(records: Vec<T>) -> (value: Value)
    ensures
        value_model(value) == record_list::<T>(contents(records@)),
{
    let mut items: Vec<Value> = Vec::new();
    for record in it: records
        invariant
            it.seq() == records@,
            value_models(items@) == record_list::<T>(
                contents(records@.take(it.index())),
            )->List_0,
    {
        let ghost content = record@;
        let item = record.into_value();
        items.push(item);
        assert(record_list::<T>(contents(records@.take(it.index() + 1)))->List_0 =~= record_list::<
            T,
        >(contents(records@.take(it.index())))->List_0.push(
            ValueModel::Dict(T::entries_of(content)),
        ));
    }
    assert(records@.take(records@.len() as int) =~= records@);
    list_value(items)
}

impl DocumentInput for Profile {
    open spec fn entries_of(content: ProfileView) -> Map<Seq<char>, ValueModel> {
        profile_entries(content)
    }

    fn into_value(self) -> (value: Value) {
        let mut dict = new_dict();
        dict_insert(&mut dict, "name", text_value(self.name));
        dict_insert(&mut dict, "email", text_value(self.email));
        dict_insert(&mut dict, "phone", text_value(self.phone));
        dict_insert(&mut dict, "url", text_value(self.url));
        dict_insert(&mut dict, "location", text_value(self.location));
        dict_insert(&mut dict, "citizenship", text_value(self.citizenship));
        dict_value(dict)
    }
}

impl DocumentInput for Education {
    open spec fn entries_of(content: EducationView) -> Map<Seq<char>, ValueModel> {
        education_entries(content)
    }

    fn into_value(self) -> (value: Value) {
        let mut dict = new_dict();
        dict_insert(&mut dict, "school", text_value(self.school));
        dict_insert(&mut dict, "degree", text_value(self.degree));
        dict_insert(&mut dict, "status", text_value(self.status));
        dict_value(dict)
    }
}

impl DocumentInput for Experience {
    open spec fn entries_of(content: ExperienceView) -> Map<Seq<char>, ValueModel> {
        experience_entries(content)
    }

    fn into_value(self) -> (value: Value) {
        let mut dict = new_dict();
        dict_insert(&mut dict, "role", text_value(self.role));
        dict_insert(&mut dict, "company", text_value(self.company));
        dict_insert(&mut dict, "location", text_value(self.location));
        dict_insert(&mut dict, "date", text_value(self.date));
        dict_insert(&mut dict, "summary", text_value(self.summary));
        dict_insert(&mut dict, "bullets", strings_value(self.bullets));
        dict_value(dict)
    }
}

impl DocumentInput for Project {
    open spec fn entries_of(content: ProjectView) -> Map<Seq<char>, ValueModel> {
        project_entries(content)
    }

    fn into_value(self) -> (value: Value) {
        let mut dict = new_dict();
        dict_insert(&mut dict, "title", text_value(self.title));
        dict_insert(&mut dict, "description", text_value(self.description));
        dict_insert(&mut dict, "tech_stack", strings_value(self.tech_stack));
        dict_value(dict)
    }
}

impl FilteredResumeData {
    /// The payload as the dictionary of inputs that the document template
    /// reads.
    pub fn into_dict(self) -> (dict: Dict)
        ensures
            dict_model(dict) == payload_entries(self@),
    {
        let mut dict = new_dict();
        dict_insert(&mut dict, "profile", self.profile.into_value());
        dict_insert(&mut dict, "education", records_value(self.education));
        dict_insert(&mut dict, "experience", records_value(self.experience));
        dict_insert(&mut dict, "projects", records_value(self.projects));
        dict_insert(&mut dict, "job_title", text_value(self.job_title));
        dict
    }
}

} // verus!
