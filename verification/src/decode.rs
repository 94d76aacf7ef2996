//! Typed data out of JSON values.
//!
//! A record is read member by member, in the order of the keys; members that it
//! does not know are passed over. The first member of a wrong type is the
//! failure, with the path that leads to it. A record whose members all fit but
//! that lacks a required one fails at its own path, with the first such member
//! in the order in which the record lists them.

use vstd::prelude::*;
use serde_json::Value;
use crate::domain::{
    Certification, CertificationKeyword, Degree, HardSkill, IndustryTerm, Job, JobTitle, KeywordSet,
    PersonalInformation, Resume, ResumeYaml, SkillCategory, SoftSkill,
};
use crate::json;
use crate::json::Tree;
use crate::text;

verus! {

// ---------------------------------------------------------------------------
// Scalars and containers of serde_json
// ---------------------------------------------------------------------------

/// The message of `serde_json::from_value::<String>` on a value that is no
/// string.
pub uninterp spec fn text_decode_error(t: Tree) -> Seq<char>;

/// The message of `serde_json::from_value::<i32>` on a value that is no integer
/// of 32 bits.
pub uninterp spec fn int_decode_error(t: Tree) -> Seq<char>;

/// The message of `serde_json::from_value::<Vec<Value>>` on a value that is no
/// list.
pub uninterp spec fn list_decode_error(t: Tree) -> Seq<char>;

/// The message of `serde_json::from_value::<Map<String, Value>>` on a value that
/// is no object.
pub uninterp spec fn object_decode_error(t: Tree) -> Seq<char>;

/// `serde_json::from_value::<String>`: the text of a string, an error on any
/// other value.
#[verifier::external_body]
fn text_from_value(v: &Value) -> (r: Result<String, String>)
    ensures
        match r {
            Ok(s) => json::json_tree(*v) == Tree::Text(s@),
            Err(e) => !(json::json_tree(*v) is Text) && e@ == text_decode_error(
                json::json_tree(*v),
            ),
        },
{
    serde_json::from_value::<String>(v.clone()).map_err(|e| e.to_string())
}

/// The integer of a value, where it is one of 32 bits.
pub open spec fn tree_i32(t: Tree) -> Option<int> {
    match t {
        Tree::Int(n) => if i32::MIN <= n <= i32::MAX {
            Some(n)
        } else {
            None
        },
        _ => None,
    }
}

/// `serde_json::from_value::<i32>`: the number of an integer of 32 bits, an
/// error on any other value.
#[verifier::external_body]
fn int_from_value(v: &Value) -> (r: Result<i32, String>)
    ensures
        match r {
            Ok(n) => json::json_tree(*v) == Tree::Int(n as int),
            Err(e) => tree_i32(json::json_tree(*v)) is None && e@ == int_decode_error(
                json::json_tree(*v),
            ),
        },
{
    serde_json::from_value::<i32>(v.clone()).map_err(|e| e.to_string())
}

/// `serde_json::from_value::<Vec<Value>>`: the elements of a list, an error on
/// any other value.
#[verifier::external_body]
fn list_from_value(v: &Value) -> (r: Result<Vec<Value>, String>)
    ensures
        match r {
            Ok(items) => json::json_tree(*v) == Tree::List(json::trees(items@)),
            Err(e) => !(json::json_tree(*v) is List) && e@ == list_decode_error(
                json::json_tree(*v),
            ),
        },
{
    serde_json::from_value::<Vec<Value>>(v.clone()).map_err(|e| e.to_string())
}

/// The error of `serde_json::from_value::<Map<String, Value>>`, which comes on
/// every value but an object.
#[verifier::external_body]
fn object_error(v: &Value) -> (r: Option<String>)
    ensures
        match r {
            None => json::json_tree(*v) is Object,
            Some(e) => !(json::json_tree(*v) is Object) && e@ == object_decode_error(
                json::json_tree(*v),
            ),
        },
{
    serde_json::from_value::<serde_json::Map<String, Value>>(v.clone()).map_err(
        |e| e.to_string(),
    ).err()
}

// ---------------------------------------------------------------------------
// Failures and paths
// ---------------------------------------------------------------------------

/// Where reading failed, and why.
pub struct DecodeError {
    pub path: String,
    pub reason: String,
}

/// A failure as plain texts.
#[verifier::ext_equal]
pub struct Problem {
    pub path: Seq<char>,
    pub reason: Seq<char>,
}

impl View for DecodeError {
    type V = Problem;

    open spec fn view(&self) -> Problem {
        Problem { path: self.path@, reason: self.reason@ }
    }
}

/// The path of a member.
pub open spec fn member_path(path: Seq<char>, key: Seq<char>) -> Seq<char> {
    if path.len() == 0 {
        key
    } else {
        path + "."@ + key
    }
}

/// The path of a list element.
pub open spec fn element_path(path: Seq<char>, i: nat) -> Seq<char> {
    path + "["@ + text::numeral(i) + "]"@
}

fn path_of_member(path: &str, key: &str) -> (r: String)
    ensures
        r@ == member_path(path@, key@),
{
    if path.is_empty() {
        key.to_string()
    } else {
        text::concat3(path, ".", key)
    }
}

fn path_of_element(path: &str, i: usize) -> (r: String)
    ensures
        r@ == element_path(path@, i as nat),
{
    let mut out = text::concat3(path, "[", text::decimal(i as u64).as_str());
    out.push_str("]");
    out
}

/// The first failure of a sequence of possible ones.
pub open spec fn first_of(problems: Seq<Option<Problem>>) -> Option<Problem>
    decreases problems.len(),
{
    if problems.len() == 0 {
        None
    } else {
        match problems.first() {
            Some(p) => Some(p),
            None => first_of(problems.drop_first()),
        }
    }
}

// ---------------------------------------------------------------------------
// Reading
// ---------------------------------------------------------------------------

/// Data that can be read out of a JSON value.
pub trait Decode: Sized {
    /// The failure on a value, where there is one.
    spec fn problem(t: Tree, path: Seq<char>) -> Option<Problem>;

    /// `x` is what the value says.
    spec fn decodes(t: Tree, x: Self) -> bool;

    /// Reads the value at `path`.
    fn decode(v: &Value, path: &str) -> (r: Result<Self, DecodeError>)
        ensures
            match r {
                Ok(x) => Self::problem(json::json_tree(*v), path@) is None && Self::decodes(
                    json::json_tree(*v),
                    x,
                ),
                Err(e) => Self::problem(json::json_tree(*v), path@) == Some(e@),
            },
    ;
}

impl Decode for String {
    open spec fn problem(t: Tree, path: Seq<char>) -> Option<Problem> {
        match t {
            Tree::Text(_) => None,
            _ => Some(Problem { path, reason: text_decode_error(t) }),
        }
    }

    open spec fn decodes(t: Tree, x: Self) -> bool {
        t == Tree::Text(x@)
    }

    fn decode(v: &Value, path: &str) -> (r: Result<Self, DecodeError>) {
        match text_from_value(v) {
            Ok(s) => Ok(s),
            Err(e) => Err(DecodeError { path: path.to_string(), reason: e }),
        }
    }
}

impl Decode for i32 {
    open spec fn problem(t: Tree, path: Seq<char>) -> Option<Problem> {
        match tree_i32(t) {
            Some(_) => None,
            None => Some(Problem { path, reason: int_decode_error(t) }),
        }
    }

    open spec fn decodes(t: Tree, x: Self) -> bool {
        t == Tree::Int(x as int)
    }

    fn decode(v: &Value, path: &str) -> (r: Result<Self, DecodeError>) {
        match int_from_value(v) {
            Ok(n) => Ok(n),
            Err(e) => Err(DecodeError { path: path.to_string(), reason: e }),
        }
    }
}

/// The first failure among the elements of a list from the index `from` on.
pub open spec fn elements_problem<T: Decode>(
    items: Seq<Tree>,
    path: Seq<char>,
    from: nat,
) -> Option<Problem>
    decreases items.len() - from,
{
    if from >= items.len() {
        None
    } else {
        match T::problem(items[from as int], element_path(path, from)) {
            Some(p) => Some(p),
            None => elements_problem::<T>(items, path, from + 1),
        }
    }
}

/// The failure on a value that should be a list.
pub open spec fn list_problem<T: Decode>(t: Tree, path: Seq<char>) -> Option<Problem> {
    match t {
        Tree::List(items) => elements_problem::<T>(items, path, 0),
        _ => Some(Problem { path, reason: list_decode_error(t) }),
    }
}

/// `xs` are what the elements of a list say.
pub open spec fn list_decodes<T: Decode>(t: Tree, xs: Seq<T>) -> bool {
    &&& t matches Tree::List(items)
    &&& xs.len() == items.len()
    &&& forall|i: int| 0 <= i < xs.len() ==> T::decodes(items[i], #[trigger] xs[i])
}

impl<T: Decode> Decode for Vec<T> {
    open spec fn problem(t: Tree, path: Seq<char>) -> Option<Problem> {
        list_problem::<T>(t, path)
    }

    open spec fn decodes(t: Tree, x: Self) -> bool {
        list_decodes::<T>(t, x@)
    }

    fn decode(v: &Value, path: &str) -> (r: Result<Self, DecodeError>) {
        let items = match list_from_value(v) {
            Ok(items) => items,
            Err(e) => {
                return Err(DecodeError { path: path.to_string(), reason: e });
            },
        };
        let ghost tree_items = json::trees(items@);
        let mut out: Vec<T> = Vec::new();
        for i in 0..items.len()
            invariant
                tree_items == json::trees(items@),
                json::json_tree(*v) == Tree::List(tree_items),
                elements_problem::<T>(tree_items, path@, 0) == elements_problem::<T>(
                    tree_items,
                    path@,
                    i as nat,
                ),
                out@.len() == i,
                forall|k: int| 0 <= k < i ==> T::decodes(tree_items[k], #[trigger] out@[k]),
        {
            let at = path_of_element(path, i);
            let item = T::decode(&items[i], at.as_str())?;
            out.push(item);
        }
        Ok(out)
    }
}

/// The failure of the member under `key`, where the member is there.
pub open spec fn field_problem<T: Decode>(
    m: Map<Seq<char>, Tree>,
    key: Seq<char>,
    path: Seq<char>,
) -> Option<Problem> {
    if m.dom().contains(key) {
        T::problem(m[key], member_path(path, key))
    } else {
        None
    }
}

/// The failure of an object without the member under `key`.
pub open spec fn missing_problem(
    m: Map<Seq<char>, Tree>,
    key: Seq<char>,
    path: Seq<char>,
) -> Option<Problem> {
    if m.dom().contains(key) {
        None
    } else {
        Some(Problem { path, reason: "missing field `"@ + key + "`"@ })
    }
}

/// The failure of a value that is no object.
pub open spec fn object_problem(t: Tree, path: Seq<char>) -> Option<Problem> {
    match t {
        Tree::Object(_) => None,
        _ => Some(Problem { path, reason: object_decode_error(t) }),
    }
}

/// `x` is what the member under `key` says.
pub open spec fn field_decodes<T: Decode>(
    m: Map<Seq<char>, Tree>,
    key: Seq<char>,
    x: T,
) -> bool {
    m.dom().contains(key) && T::decodes(m[key], x)
}

/// `xs` are what the list under `key` says, none where the member is missing.
pub open spec fn optional_list_decodes<T: Decode>(
    m: Map<Seq<char>, Tree>,
    key: Seq<char>,
    xs: Seq<T>,
) -> bool {
    if m.dom().contains(key) {
        list_decodes::<T>(m[key], xs)
    } else {
        xs.len() == 0
    }
}

pub(crate) fn expect_object(v: &Value, path: &str) -> (r: Result<(), DecodeError>)
    ensures
        match r {
            Ok(_) => json::json_tree(*v) is Object,
            Err(e) => !(json::json_tree(*v) is Object) && object_problem(
                json::json_tree(*v),
                path@,
            ) == Some(e@),
        },
{
    match object_error(v) {
        None => Ok(()),
        Some(e) => Err(DecodeError { path: path.to_string(), reason: e }),
    }
}

/// Reads the member under `key` of an object, where it is there.
pub(crate) fn field<T: Decode>(v: &Value, key: &str, path: &str) -> (r: Result<Option<T>, DecodeError>)
    requires
        json::json_tree(*v) is Object,
    ensures
        match r {
            Ok(x) => {
                let m = json::json_tree(*v)->Object_0;
                &&& field_problem::<T>(m, key@, path@) is None
                &&& x is Some <==> m.dom().contains(key@)
                &&& x matches Some(y) ==> field_decodes::<T>(m, key@, y)
            },
            Err(e) => field_problem::<T>(json::json_tree(*v)->Object_0, key@, path@) == Some(e@),
        },
{
    match json::member(v, key) {
        None => Ok(None),
        Some(u) => {
            let at = path_of_member(path, key);
            let x = T::decode(u, at.as_str())?;
            Ok(Some(x))
        },
    }
}

/// The value of a required member, or the failure of its absence.
pub(crate) fn required<T: Decode>(x: Option<T>, key: &str, path: &str) -> (r: Result<T, DecodeError>)
    ensures
        match r {
            Ok(y) => x == Some(y),
            Err(e) => x is None && e@ == (Problem {
                path: path@,
                reason: "missing field `"@ + key@ + "`"@,
            }),
        },
{
    match x {
        Some(y) => Ok(y),
        None => Err(
            DecodeError {
                path: path.to_string(),
                reason: text::concat3("missing field `", key, "`"),
            },
        ),
    }
}

/// The elements of an optional list.
fn listed<T: Decode>(x: Option<Vec<T>>) -> (r: Vec<T>)
    ensures
        x matches Some(y) ==> r == y,
        x is None ==> r@.len() == 0,
{
    match x {
        Some(y) => y,
        None => Vec::new(),
    }
}

// ---------------------------------------------------------------------------
// The resume document
// ---------------------------------------------------------------------------

impl Decode for PersonalInformation {
    open spec fn problem(t: Tree, path: Seq<char>) -> Option<Problem> {
        match t {
            Tree::Object(m) => first_of(
                seq![
                    field_problem::<String>(m, "email"@, path),
                    field_problem::<String>(m, "full_name"@, path),
                    field_problem::<String>(m, "linkedin_url"@, path),
                    field_problem::<String>(m, "location"@, path),
                    field_problem::<String>(m, "phone"@, path),
                    missing_problem(m, "full_name"@, path),
                    missing_problem(m, "email"@, path),
                    missing_problem(m, "phone"@, path),
                    missing_problem(m, "linkedin_url"@, path),
                    missing_problem(m, "location"@, path),
                ],
            ),
            _ => object_problem(t, path),
        }
    }

    open spec fn decodes(t: Tree, x: Self) -> bool {
        &&& t matches Tree::Object(m)
        &&& field_decodes::<String>(m, "full_name"@, x.full_name)
        &&& field_decodes::<String>(m, "email"@, x.email)
        &&& field_decodes::<String>(m, "phone"@, x.phone)
        &&& field_decodes::<String>(m, "linkedin_url"@, x.linkedin_url)
        &&& field_decodes::<String>(m, "location"@, x.location)
    }

    fn decode(v: &Value, path: &str) -> (r: Result<Self, DecodeError>) {
        proof {
            reveal_with_fuel(first_of, 11);
        }
        expect_object(v, path)?;
        let email = field::<String>(v, "email", path)?;
        let full_name = field::<String>(v, "full_name", path)?;
        let linkedin_url = field::<String>(v, "linkedin_url", path)?;
        let location = field::<String>(v, "location", path)?;
        let phone = field::<String>(v, "phone", path)?;
        let full_name = required(full_name, "full_name", path)?;
        let email = required(email, "email", path)?;
        let phone = required(phone, "phone", path)?;
        let linkedin_url = required(linkedin_url, "linkedin_url", path)?;
        let location = required(location, "location", path)?;
        Ok(PersonalInformation { full_name, email, phone, linkedin_url, location })
    }
}

impl Decode for SkillCategory {
    open spec fn problem(t: Tree, path: Seq<char>) -> Option<Problem> {
        match t {
            Tree::Object(m) => first_of(
                seq![
                    field_problem::<String>(m, "category"@, path),
                    field_problem::<Vec<String>>(m, "items"@, path),
                    missing_problem(m, "category"@, path),
                ],
            ),
            _ => object_problem(t, path),
        }
    }

    open spec fn decodes(t: Tree, x: Self) -> bool {
        &&& t matches Tree::Object(m)
        &&& field_decodes::<String>(m, "category"@, x.category)
        &&& optional_list_decodes::<String>(m, "items"@, x.items@)
    }

    fn decode(v: &Value, path: &str) -> (r: Result<Self, DecodeError>) {
        proof {
            reveal_with_fuel(first_of, 4);
        }
        expect_object(v, path)?;
        let category = field::<String>(v, "category", path)?;
        let items = field::<Vec<String>>(v, "items", path)?;
        let category = required(category, "category", path)?;
        let items = listed(items);
        Ok(SkillCategory { category, items })
    }
}

impl Decode for Job {
    open spec fn problem(t: Tree, path: Seq<char>) -> Option<Problem> {
        match t {
            Tree::Object(m) => first_of(
                seq![
                    field_problem::<Vec<String>>(m, "bullets"@, path),
                    field_problem::<String>(m, "company_name"@, path),
                    field_problem::<String>(m, "end_date"@, path),
                    field_problem::<String>(m, "job_title"@, path),
                    field_problem::<String>(m, "location"@, path),
                    field_problem::<String>(m, "start_date"@, path),
                    missing_problem(m, "job_title"@, path),
                    missing_problem(m, "company_name"@, path),
                    missing_problem(m, "location"@, path),
                    missing_problem(m, "start_date"@, path),
                    missing_problem(m, "end_date"@, path),
                ],
            ),
            _ => object_problem(t, path),
        }
    }

    open spec fn decodes(t: Tree, x: Self) -> bool {
        &&& t matches Tree::Object(m)
        &&& field_decodes::<String>(m, "job_title"@, x.job_title)
        &&& field_decodes::<String>(m, "company_name"@, x.company_name)
        &&& field_decodes::<String>(m, "location"@, x.location)
        &&& field_decodes::<String>(m, "start_date"@, x.start_date)
        &&& field_decodes::<String>(m, "end_date"@, x.end_date)
        &&& optional_list_decodes::<String>(m, "bullets"@, x.bullets@)
    }

    fn decode(v: &Value, path: &str) -> (r: Result<Self, DecodeError>) {
        proof {
            reveal_with_fuel(first_of, 12);
        }
        expect_object(v, path)?;
        let bullets = field::<Vec<String>>(v, "bullets", path)?;
        let company_name = field::<String>(v, "company_name", path)?;
        let end_date = field::<String>(v, "end_date", path)?;
        let job_title = field::<String>(v, "job_title", path)?;
        let location = field::<String>(v, "location", path)?;
        let start_date = field::<String>(v, "start_date", path)?;
        let job_title = required(job_title, "job_title", path)?;
        let company_name = required(company_name, "company_name", path)?;
        let location = required(location, "location", path)?;
        let start_date = required(start_date, "start_date", path)?;
        let end_date = required(end_date, "end_date", path)?;
        let bullets = listed(bullets);
        Ok(Job { job_title, company_name, location, start_date, end_date, bullets })
    }
}

impl Decode for Degree {
    open spec fn problem(t: Tree, path: Seq<char>) -> Option<Problem> {
        match t {
            Tree::Object(m) => first_of(
                seq![
                    field_problem::<String>(m, "degree_name"@, path),
                    field_problem::<String>(m, "graduation_date"@, path),
                    field_problem::<String>(m, "institution"@, path),
                    field_problem::<String>(m, "location"@, path),
                    missing_problem(m, "degree_name"@, path),
                    missing_problem(m, "institution"@, path),
                    missing_problem(m, "location"@, path),
                    missing_problem(m, "graduation_date"@, path),
                ],
            ),
            _ => object_problem(t, path),
        }
    }

    open spec fn decodes(t: Tree, x: Self) -> bool {
        &&& t matches Tree::Object(m)
        &&& field_decodes::<String>(m, "degree_name"@, x.degree_name)
        &&& field_decodes::<String>(m, "institution"@, x.institution)
        &&& field_decodes::<String>(m, "location"@, x.location)
        &&& field_decodes::<String>(m, "graduation_date"@, x.graduation_date)
    }

    fn decode(v: &Value, path: &str) -> (r: Result<Self, DecodeError>) {
        proof {
            reveal_with_fuel(first_of, 9);
        }
        expect_object(v, path)?;
        let degree_name = field::<String>(v, "degree_name", path)?;
        let graduation_date = field::<String>(v, "graduation_date", path)?;
        let institution = field::<String>(v, "institution", path)?;
        let location = field::<String>(v, "location", path)?;
        let degree_name = required(degree_name, "degree_name", path)?;
        let institution = required(institution, "institution", path)?;
        let location = required(location, "location", path)?;
        let graduation_date = required(graduation_date, "graduation_date", path)?;
        Ok(Degree { degree_name, institution, location, graduation_date })
    }
}

impl Decode for Certification {
    open spec fn problem(t: Tree, path: Seq<char>) -> Option<Problem> {
        match t {
            Tree::Object(m) => first_of(
                seq![
                    field_problem::<String>(m, "issuing_organization"@, path),
                    field_problem::<String>(m, "title"@, path),
                    field_problem::<String>(m, "year"@, path),
                    missing_problem(m, "title"@, path),
                    missing_problem(m, "issuing_organization"@, path),
                    missing_problem(m, "year"@, path),
                ],
            ),
            _ => object_problem(t, path),
        }
    }

    open spec fn decodes(t: Tree, x: Self) -> bool {
        &&& t matches Tree::Object(m)
        &&& field_decodes::<String>(m, "title"@, x.title)
        &&& field_decodes::<String>(m, "issuing_organization"@, x.issuing_organization)
        &&& field_decodes::<String>(m, "year"@, x.year)
    }

    fn decode(v: &Value, path: &str) -> (r: Result<Self, DecodeError>) {
        proof {
            reveal_with_fuel(first_of, 7);
        }
        expect_object(v, path)?;
        let issuing_organization = field::<String>(v, "issuing_organization", path)?;
        let title = field::<String>(v, "title", path)?;
        let year = field::<String>(v, "year", path)?;
        let title = required(title, "title", path)?;
        let issuing_organization = required(issuing_organization, "issuing_organization", path)?;
        let year = required(year, "year", path)?;
        Ok(Certification { title, issuing_organization, year })
    }
}

impl Decode for Resume {
    open spec fn problem(t: Tree, path: Seq<char>) -> Option<Problem> {
        match t {
            Tree::Object(m) => first_of(
                seq![
                    field_problem::<Vec<Certification>>(m, "certifications"@, path),
                    field_problem::<Vec<Degree>>(m, "education"@, path),
                    field_problem::<PersonalInformation>(m, "personal_information"@, path),
                    field_problem::<String>(m, "professional_summary"@, path),
                    field_problem::<Vec<SkillCategory>>(m, "skills"@, path),
                    field_problem::<Vec<Job>>(m, "work_experience"@, path),
                    missing_problem(m, "personal_information"@, path),
                    missing_problem(m, "professional_summary"@, path),
                ],
            ),
            _ => object_problem(t, path),
        }
    }

    open spec fn decodes(t: Tree, x: Self) -> bool {
        &&& t matches Tree::Object(m)
        &&& field_decodes::<PersonalInformation>(m, "personal_information"@, x.personal_information)
        &&& field_decodes::<String>(m, "professional_summary"@, x.professional_summary)
        &&& optional_list_decodes::<SkillCategory>(m, "skills"@, x.skills@)
        &&& optional_list_decodes::<Job>(m, "work_experience"@, x.work_experience@)
        &&& optional_list_decodes::<Degree>(m, "education"@, x.education@)
        &&& optional_list_decodes::<Certification>(m, "certifications"@, x.certifications@)
    }

    fn decode(v: &Value, path: &str) -> (r: Result<Self, DecodeError>) {
        proof {
            reveal_with_fuel(first_of, 9);
        }
        expect_object(v, path)?;
        let certifications = field::<Vec<Certification>>(v, "certifications", path)?;
        let education = field::<Vec<Degree>>(v, "education", path)?;
        let personal_information = field::<PersonalInformation>(v, "personal_information", path)?;
        let professional_summary = field::<String>(v, "professional_summary", path)?;
        let skills = field::<Vec<SkillCategory>>(v, "skills", path)?;
        let work_experience = field::<Vec<Job>>(v, "work_experience", path)?;
        let personal_information = required(personal_information, "personal_information", path)?;
        let professional_summary = required(professional_summary, "professional_summary", path)?;
        let skills = listed(skills);
        let work_experience = listed(work_experience);
        let education = listed(education);
        let certifications = listed(certifications);
        Ok(
            Resume {
                personal_information,
                professional_summary,
                skills,
                work_experience,
                education,
                certifications,
            },
        )
    }
}

impl Decode for ResumeYaml {
    open spec fn problem(t: Tree, path: Seq<char>) -> Option<Problem> {
        match t {
            Tree::Object(m) => first_of(
                seq![
                    field_problem::<Resume>(m, "cv"@, path),
                    missing_problem(m, "cv"@, path),
                ],
            ),
            _ => object_problem(t, path),
        }
    }

    open spec fn decodes(t: Tree, x: Self) -> bool {
        &&& t matches Tree::Object(m)
        &&& field_decodes::<Resume>(m, "cv"@, x.cv)
    }

    fn decode(v: &Value, path: &str) -> (r: Result<Self, DecodeError>) {
        proof {
            reveal_with_fuel(first_of, 3);
        }
        expect_object(v, path)?;
        let cv = field::<Resume>(v, "cv", path)?;
        let cv = required(cv, "cv", path)?;
        Ok(ResumeYaml { cv })
    }
}

// ---------------------------------------------------------------------------
// The keyword catalogue
// ---------------------------------------------------------------------------

impl Decode for HardSkill {
    open spec fn problem(t: Tree, path: Seq<char>) -> Option<Problem> {
        match t {
            Tree::Object(m) => first_of(
                seq![
                    field_problem::<String>(m, "acronym"@, path),
                    field_problem::<i32>(m, "importance_score"@, path),
                    field_problem::<String>(m, "primary_term"@, path),
                    field_problem::<String>(m, "semantic_cluster"@, path),
                    missing_problem(m, "primary_term"@, path),
                    missing_problem(m, "acronym"@, path),
                    missing_problem(m, "semantic_cluster"@, path),
                    missing_problem(m, "importance_score"@, path),
                ],
            ),
            _ => object_problem(t, path),
        }
    }

    open spec fn decodes(t: Tree, x: Self) -> bool {
        &&& t matches Tree::Object(m)
        &&& field_decodes::<String>(m, "primary_term"@, x.primary_term)
        &&& field_decodes::<String>(m, "acronym"@, x.acronym)
        &&& field_decodes::<String>(m, "semantic_cluster"@, x.semantic_cluster)
        &&& field_decodes::<i32>(m, "importance_score"@, x.importance_score)
    }

    fn decode(v: &Value, path: &str) -> (r: Result<Self, DecodeError>) {
        proof {
            reveal_with_fuel(first_of, 9);
        }
        expect_object(v, path)?;
        let acronym = field::<String>(v, "acronym", path)?;
        let importance_score = field::<i32>(v, "importance_score", path)?;
        let primary_term = field::<String>(v, "primary_term", path)?;
        let semantic_cluster = field::<String>(v, "semantic_cluster", path)?;
        let primary_term = required(primary_term, "primary_term", path)?;
        let acronym = required(acronym, "acronym", path)?;
        let semantic_cluster = required(semantic_cluster, "semantic_cluster", path)?;
        let importance_score = required(importance_score, "importance_score", path)?;
        Ok(HardSkill { primary_term, acronym, semantic_cluster, importance_score })
    }
}

impl Decode for SoftSkill {
    open spec fn problem(t: Tree, path: Seq<char>) -> Option<Problem> {
        match t {
            Tree::Object(m) => first_of(
                seq![
                    field_problem::<i32>(m, "importance_score"@, path),
                    field_problem::<String>(m, "primary_term"@, path),
                    field_problem::<String>(m, "semantic_cluster"@, path),
                    missing_problem(m, "primary_term"@, path),
                    missing_problem(m, "semantic_cluster"@, path),
                    missing_problem(m, "importance_score"@, path),
                ],
            ),
            _ => object_problem(t, path),
        }
    }

    open spec fn decodes(t: Tree, x: Self) -> bool {
        &&& t matches Tree::Object(m)
        &&& field_decodes::<String>(m, "primary_term"@, x.primary_term)
        &&& field_decodes::<String>(m, "semantic_cluster"@, x.semantic_cluster)
        &&& field_decodes::<i32>(m, "importance_score"@, x.importance_score)
    }

    fn decode(v: &Value, path: &str) -> (r: Result<Self, DecodeError>) {
        proof {
            reveal_with_fuel(first_of, 7);
        }
        expect_object(v, path)?;
        let importance_score = field::<i32>(v, "importance_score", path)?;
        let primary_term = field::<String>(v, "primary_term", path)?;
        let semantic_cluster = field::<String>(v, "semantic_cluster", path)?;
        let primary_term = required(primary_term, "primary_term", path)?;
        let semantic_cluster = required(semantic_cluster, "semantic_cluster", path)?;
        let importance_score = required(importance_score, "importance_score", path)?;
        Ok(SoftSkill { primary_term, semantic_cluster, importance_score })
    }
}

impl Decode for IndustryTerm {
    open spec fn problem(t: Tree, path: Seq<char>) -> Option<Problem> {
        match t {
            Tree::Object(m) => first_of(
                seq![
                    field_problem::<String>(m, "acronym"@, path),
                    field_problem::<i32>(m, "importance_score"@, path),
                    field_problem::<String>(m, "primary_term"@, path),
                    missing_problem(m, "primary_term"@, path),
                    missing_problem(m, "acronym"@, path),
                    missing_problem(m, "importance_score"@, path),
                ],
            ),
            _ => object_problem(t, path),
        }
    }

    open spec fn decodes(t: Tree, x: Self) -> bool {
        &&& t matches Tree::Object(m)
        &&& field_decodes::<String>(m, "primary_term"@, x.primary_term)
        &&& field_decodes::<String>(m, "acronym"@, x.acronym)
        &&& field_decodes::<i32>(m, "importance_score"@, x.importance_score)
    }

    fn decode(v: &Value, path: &str) -> (r: Result<Self, DecodeError>) {
        proof {
            reveal_with_fuel(first_of, 7);
        }
        expect_object(v, path)?;
        let acronym = field::<String>(v, "acronym", path)?;
        let importance_score = field::<i32>(v, "importance_score", path)?;
        let primary_term = field::<String>(v, "primary_term", path)?;
        let primary_term = required(primary_term, "primary_term", path)?;
        let acronym = required(acronym, "acronym", path)?;
        let importance_score = required(importance_score, "importance_score", path)?;
        Ok(IndustryTerm { primary_term, acronym, importance_score })
    }
}

impl Decode for CertificationKeyword {
    open spec fn problem(t: Tree, path: Seq<char>) -> Option<Problem> {
        match t {
            Tree::Object(m) => first_of(
                seq![
                    field_problem::<i32>(m, "importance_score"@, path),
                    field_problem::<String>(m, "primary_term"@, path),
                    missing_problem(m, "primary_term"@, path),
                    missing_problem(m, "importance_score"@, path),
                ],
            ),
            _ => object_problem(t, path),
        }
    }

    open spec fn decodes(t: Tree, x: Self) -> bool {
        &&& t matches Tree::Object(m)
        &&& field_decodes::<String>(m, "primary_term"@, x.primary_term)
        &&& field_decodes::<i32>(m, "importance_score"@, x.importance_score)
    }

    fn decode(v: &Value, path: &str) -> (r: Result<Self, DecodeError>) {
        proof {
            reveal_with_fuel(first_of, 5);
        }
        expect_object(v, path)?;
        let importance_score = field::<i32>(v, "importance_score", path)?;
        let primary_term = field::<String>(v, "primary_term", path)?;
        let primary_term = required(primary_term, "primary_term", path)?;
        let importance_score = required(importance_score, "importance_score", path)?;
        Ok(CertificationKeyword { primary_term, importance_score })
    }
}

impl Decode for JobTitle {
    open spec fn problem(t: Tree, path: Seq<char>) -> Option<Problem> {
        match t {
            Tree::Object(m) => first_of(
                seq![
                    field_problem::<i32>(m, "importance_score"@, path),
                    field_problem::<String>(m, "primary_term"@, path),
                    missing_problem(m, "primary_term"@, path),
                    missing_problem(m, "importance_score"@, path),
                ],
            ),
            _ => object_problem(t, path),
        }
    }

    open spec fn decodes(t: Tree, x: Self) -> bool {
        &&& t matches Tree::Object(m)
        &&& field_decodes::<String>(m, "primary_term"@, x.primary_term)
        &&& field_decodes::<i32>(m, "importance_score"@, x.importance_score)
    }

    fn decode(v: &Value, path: &str) -> (r: Result<Self, DecodeError>) {
        proof {
            reveal_with_fuel(first_of, 5);
        }
        expect_object(v, path)?;
        let importance_score = field::<i32>(v, "importance_score", path)?;
        let primary_term = field::<String>(v, "primary_term", path)?;
        let primary_term = required(primary_term, "primary_term", path)?;
        let importance_score = required(importance_score, "importance_score", path)?;
        Ok(JobTitle { primary_term, importance_score })
    }
}

impl Decode for KeywordSet {
    open spec fn problem(t: Tree, path: Seq<char>) -> Option<Problem> {
        match t {
            Tree::Object(m) => first_of(
                seq![
                    field_problem::<Vec<CertificationKeyword>>(m, "certifications_and_credentials"@, path),
                    field_problem::<Vec<HardSkill>>(m, "hard_skills_and_tools"@, path),
                    field_problem::<Vec<IndustryTerm>>(m, "industry_specific_terminology"@, path),
                    field_problem::<Vec<JobTitle>>(m, "job_titles_and_seniority"@, path),
                    field_problem::<Vec<SoftSkill>>(m, "soft_skills_and_competencies"@, path),
                    missing_problem(m, "hard_skills_and_tools"@, path),
                    missing_problem(m, "soft_skills_and_competencies"@, path),
                    missing_problem(m, "industry_specific_terminology"@, path),
                    missing_problem(m, "certifications_and_credentials"@, path),
                    missing_problem(m, "job_titles_and_seniority"@, path),
                ],
            ),
            _ => object_problem(t, path),
        }
    }

    open spec fn decodes(t: Tree, x: Self) -> bool {
        &&& t matches Tree::Object(m)
        &&& field_decodes::<Vec<HardSkill>>(m, "hard_skills_and_tools"@, x.hard_skills_and_tools)
        &&& field_decodes::<Vec<SoftSkill>>(m, "soft_skills_and_competencies"@, x.soft_skills_and_competencies)
        &&& field_decodes::<Vec<IndustryTerm>>(m, "industry_specific_terminology"@, x.industry_specific_terminology)
        &&& field_decodes::<Vec<CertificationKeyword>>(m, "certifications_and_credentials"@, x.certifications_and_credentials)
        &&& field_decodes::<Vec<JobTitle>>(m, "job_titles_and_seniority"@, x.job_titles_and_seniority)
    }

    fn decode(v: &Value, path: &str) -> (r: Result<Self, DecodeError>) {
        proof {
            reveal_with_fuel(first_of, 11);
        }
        expect_object(v, path)?;
        let certifications_and_credentials = field::<Vec<CertificationKeyword>>(v, "certifications_and_credentials", path)?;
        let hard_skills_and_tools = field::<Vec<HardSkill>>(v, "hard_skills_and_tools", path)?;
        let industry_specific_terminology = field::<Vec<IndustryTerm>>(v, "industry_specific_terminology", path)?;
        let job_titles_and_seniority = field::<Vec<JobTitle>>(v, "job_titles_and_seniority", path)?;
        let soft_skills_and_competencies = field::<Vec<SoftSkill>>(v, "soft_skills_and_competencies", path)?;
        let hard_skills_and_tools = required(hard_skills_and_tools, "hard_skills_and_tools", path)?;
        let soft_skills_and_competencies = required(soft_skills_and_competencies, "soft_skills_and_competencies", path)?;
        let industry_specific_terminology = required(industry_specific_terminology, "industry_specific_terminology", path)?;
        let certifications_and_credentials = required(certifications_and_credentials, "certifications_and_credentials", path)?;
        let job_titles_and_seniority = required(job_titles_and_seniority, "job_titles_and_seniority", path)?;
        Ok(
            KeywordSet {
                hard_skills_and_tools,
                soft_skills_and_competencies,
                industry_specific_terminology,
                certifications_and_credentials,
                job_titles_and_seniority,
            },
        )
    }
}

} // verus!
