//! One request per operation of the service, described as plain values,
//! and what the answers to them mean.
use vstd::prelude::*;
use crate::model::Failure;
use crate::resolver::ListArgs;
use crate::text::{decimal, decimal_text, digits, signed_decimal_text};

verus! {

/// Seconds a request may take before it is given up.
pub const TIMEOUT_SECS: u64 = 10;

/// The most questions a campaign can carry: the service reads them from
/// six numbered fields.
pub const MAX_QUESTIONS: usize = 6;

/// HTTP method of a request.
#[derive(PartialEq, Eq, Structural, Clone, Copy, Debug)]
pub enum Method {
    Get,
    Post,
    Delete,
}

/// Body of a request.
pub enum Body {
    Empty,
    /// URL-encoded form fields.
    Form(Vec<(String, String)>),
    /// Multipart text fields followed by one file, read from `file_path`
    /// and sent under the field `file_field`.
    Multipart { fields: Vec<(String, String)>, file_field: String, file_path: String },
}

/// A request to the service, relative to its base address.
pub struct Request {
    pub method: Method,
    pub path: String,
    pub query: Vec<(String, String)>,
    pub body: Body,
}

/// Name-value pairs as character sequences.
pub open spec fn pair_texts(v: Seq<(String, String)>) -> Seq<(Seq<char>, Seq<char>)> {
    v.map_values(|p: (String, String)| (p.0@, p.1@))
}

/// The text of a boolean as sent in a query.
pub open spec fn bool_text(b: bool) -> Seq<char> {
    if b {
        "true"@
    } else {
        "false"@
    }
}

/// Name of the multipart field of the question at `i`.
pub open spec fn question_field(i: nat) -> Seq<char> {
    "Question"@ + digits(i)
}

/// The multipart text fields of a campaign.
pub open spec fn campaign_fields(name: Seq<char>, date: Seq<char>, questions: Seq<Seq<char>>) -> Seq<
    (Seq<char>, Seq<char>),
> {
    seq![("name"@, name), ("date"@, date)] + Seq::new(
        questions.len(),
        |i: int| (question_field(i as nat), questions[i]),
    )
}

fn pair(name: &str, value: String) -> (r: (String, String))
    ensures
        r.0@ == name@,
        r.1@ == value@,
{
    (String::from_str(name), value)
}

/// Signing in with a user name and password.
pub fn login_request(username: &str, password: &str) -> (r: Request)
    ensures
        r.method == Method::Post,
        r.path@ == "CheckLogin"@,
        r.query@.len() == 0,
        r.body matches Body::Form(f) && pair_texts(f@) == seq![
            ("username"@, username@),
            ("pwd"@, password@),
        ],
{
    let mut form: Vec<(String, String)> = Vec::new();
    form.push(pair("username", String::from_str(username)));
    form.push(pair("pwd", String::from_str(password)));
    assert(pair_texts(form@) =~= seq![("username"@, username@), ("pwd"@, password@)]);
    Request {
        method: Method::Post,
        path: String::from_str("CheckLogin"),
        query: Vec::new(),
        body: Body::Form(form),
    }
}

fn bool_string(b: bool) -> (r: String)
    ensures
        r@ == bool_text(b),
{
    if b {
        String::from_str("true")
    } else {
        String::from_str("false")
    }
}

/// Listing campaigns: the three arguments go out as they are.
pub fn list_request(args: &ListArgs) -> (r: Request)
    ensures
        r.method == Method::Get,
        r.path@ == "admin/listQuestionnaires"@,
        pair_texts(r.query@) == seq![
            ("start"@, args.start@),
            ("size"@, args.size@),
            ("past"@, bool_text(args.past)),
        ],
        r.body is Empty,
{
    let mut query: Vec<(String, String)> = Vec::new();
    query.push(pair("start", args.start.clone()));
    query.push(pair("size", args.size.clone()));
    query.push(pair("past", bool_string(args.past)));
    assert(pair_texts(query@) =~= seq![
        ("start"@, args.start@),
        ("size"@, args.size@),
        ("past"@, bool_text(args.past)),
    ]);
    Request {
        method: Method::Get,
        path: String::from_str("admin/listQuestionnaires"),
        query,
        body: Body::Empty,
    }
}

/// Why a campaign cannot be submitted.
#[derive(PartialEq, Eq, Structural, Clone, Copy, Debug)]
pub enum CreateError {
    /// More questions than the service has fields for.
    TooManyQuestions,
}

/// Creating a campaign with its image and questions. More than six
/// questions are refused here, before anything is sent.
pub fn create_request(name: &str, date: &str, image: &str, questions: &Vec<String>) -> (r: Result<
    Request,
    CreateError,
>)
    ensures
        r is Err <==> questions@.len() > MAX_QUESTIONS,
        r is Err ==> r == Err::<Request, CreateError>(CreateError::TooManyQuestions),
        r matches Ok(q) ==> {
            &&& q.method == Method::Post
            &&& q.path@ == "admin/create"@
            &&& q.query@.len() == 0
            &&& q.body matches Body::Multipart { fields, file_field, file_path } && {
                &&& pair_texts(fields@) == campaign_fields(
                    name@,
                    date@,
                    crate::tokens::texts(questions@),
                )
                &&& file_field@ == "image"@
                &&& file_path@ == image@
            }
        },
{
    if questions.len() > MAX_QUESTIONS {
        return Err(CreateError::TooManyQuestions);
    }
    let ghost qs = crate::tokens::texts(questions@);
    let mut fields: Vec<(String, String)> = Vec::new();
    fields.push(pair("name", String::from_str(name)));
    fields.push(pair("date", String::from_str(date)));
    let mut i: usize = 0;
    while i < questions.len()
        invariant
            i <= questions@.len() <= MAX_QUESTIONS,
            qs == crate::tokens::texts(questions@),
            pair_texts(fields@) == seq![("name"@, name@), ("date"@, date@)] + Seq::new(
                i as nat,
                |k: int| (question_field(k as nat), qs[k]),
            ),
        decreases questions.len() - i,
    {
        let mut field = String::from_str("Question");
        field.append(decimal_text(i as u64).as_str());
        assert(field@ == question_field(i as nat));
        assert(qs[i as int] == questions@[i as int]@);
        let ghost before = fields@;
        fields.push((field, questions[i].clone()));
        assert(pair_texts(fields@) =~= pair_texts(before).push((question_field(i as nat), qs[i as int])));
        i = i + 1;
        assert(pair_texts(fields@) =~= seq![("name"@, name@), ("date"@, date@)] + Seq::new(
            i as nat,
            |k: int| (question_field(k as nat), qs[k]),
        ));
    }
    Ok(
        Request {
            method: Method::Post,
            path: String::from_str("admin/create"),
            query: Vec::new(),
            body: Body::Multipart {
                fields,
                file_field: String::from_str("image"),
                file_path: String::from_str(image),
            },
        },
    )
}

/// Deleting the campaign `id`.
pub fn delete_request(id: &str) -> (r: Request)
    ensures
        r.method == Method::Delete,
        r.path@ == "admin/delete"@,
        pair_texts(r.query@) == seq![("id"@, id@)],
        r.body is Empty,
{
    let mut query: Vec<(String, String)> = Vec::new();
    query.push(pair("id", String::from_str(id)));
    assert(pair_texts(query@) =~= seq![("id"@, id@)]);
    Request {
        method: Method::Delete,
        path: String::from_str("admin/delete"),
        query,
        body: Body::Empty,
    }
}

/// Path of the respondents of a campaign, in one of its two partitions.
pub open spec fn respondents_path(canceled: bool) -> Seq<char> {
    if canceled {
        "admin/listQuestionnaireCanceledUsers"@
    } else {
        "admin/listQuestionnaireCompletedUsers"@
    }
}

/// The first hundred respondents of the campaign `id` who completed it,
/// or who canceled it when `canceled` is set.
pub fn respondents_request(id: &str, canceled: bool) -> (r: Request)
    ensures
        r.method == Method::Get,
        r.path@ == respondents_path(canceled),
        pair_texts(r.query@) == seq![("id"@, id@), ("start"@, "0"@), ("size"@, "100"@)],
        r.body is Empty,
{
    let path = if canceled {
        String::from_str("admin/listQuestionnaireCanceledUsers")
    } else {
        String::from_str("admin/listQuestionnaireCompletedUsers")
    };
    let mut query: Vec<(String, String)> = Vec::new();
    query.push(pair("id", String::from_str(id)));
    query.push(pair("start", String::from_str("0")));
    query.push(pair("size", String::from_str("100")));
    assert(pair_texts(query@) =~= seq![("id"@, id@), ("start"@, "0"@), ("size"@, "100"@)]);
    Request { method: Method::Get, path, query, body: Body::Empty }
}

/// The answers that the respondent `user_id` gave in the campaign
/// `campaign_id`.
pub fn answers_request(campaign_id: &str, user_id: i64) -> (r: Request)
    ensures
        r.method == Method::Get,
        r.path@ == "admin/getAnswers"@,
        pair_texts(r.query@) == seq![
            ("questionnaireId"@, campaign_id@),
            ("userId"@, decimal(user_id as int)),
        ],
        r.body is Empty,
{
    let mut query: Vec<(String, String)> = Vec::new();
    query.push(pair("questionnaireId", String::from_str(campaign_id)));
    query.push(pair("userId", signed_decimal_text(user_id)));
    assert(pair_texts(query@) =~= seq![
        ("questionnaireId"@, campaign_id@),
        ("userId"@, decimal(user_id as int)),
    ]);
    Request {
        method: Method::Get,
        path: String::from_str("admin/getAnswers"),
        query,
        body: Body::Empty,
    }
}

/// The status of a successful answer.
pub open spec fn is_ok_status(status: u16) -> bool {
    status == 200
}

/// Whether an operation that returns nothing (create, delete) succeeded.
pub fn succeeded(status: u16) -> (r: bool)
    ensures
        r == is_ok_status(status),
{
    status == 200
}

/// What an answer with a body yields: its decoded content on success, else
/// the reason it cannot be used. `decoded` is `None` where the body did not
/// have the expected shape.
pub fn outcome<T>(status: u16, decoded: Option<T>) -> (r: Result<T, Failure>)
    ensures
        !is_ok_status(status) ==> r == Err::<T, Failure>(Failure::Status(status)),
        is_ok_status(status) ==> r == match decoded {
            Some(v) => Ok::<T, Failure>(v),
            None => Err(Failure::Payload),
        },
{
    if status != 200 {
        Err(Failure::Status(status))
    } else {
        match decoded {
            Some(v) => Ok(v),
            None => Err(Failure::Payload),
        }
    }
}

/// The path prefix under which the service names a signed-in user's area.
pub open spec fn area_prefix() -> Seq<char> {
    "/GamifyUser/"@
}

/// The role that a successful sign-in names in its body: the body less
/// the area prefix, or the whole body where that prefix is missing.
pub open spec fn role_of(body: Seq<char>) -> Seq<char> {
    if area_prefix().is_prefix_of(body) {
        body.subrange(area_prefix().len() as int, body.len() as int)
    } else {
        body
    }
}

/// What a successful sign-in established.
pub struct Session {
    pub role: String,
}

impl Session {
    /// Whether the signed-in user may administer campaigns.
    pub fn is_admin(&self) -> (r: bool)
        ensures
            r == (self.role@ == "admin"@),
    {
        crate::tokens::is_word(&self.role, "admin")
    }
}

/// Why signing in failed.
#[derive(PartialEq, Eq, Structural, Clone, Copy, Debug)]
pub enum LoginError {
    /// The service refused the credentials, with this status.
    Rejected(u16),
}

/// What the answer to a sign-in means: a session exactly when the status
/// is success.
pub fn login_outcome(status: u16, body: &str) -> (r: Result<Session, LoginError>)
    ensures
        r is Ok <==> is_ok_status(status),
        r matches Ok(s) ==> s.role@ == role_of(body@),
        r matches Err(e) ==> e == LoginError::Rejected(status),
{
    if status != 200 {
        return Err(LoginError::Rejected(status));
    }
    proof {
        reveal_strlit("/GamifyUser/");
    }
    let prefix = "/GamifyUser/";
    let n = body.unicode_len();
    let p = prefix.unicode_len();
    if n >= p {
        let head = body.substring_char(0, p).to_owned();
        if head.eq(&String::from_str(prefix)) {
            let role = body.substring_char(p, n).to_owned();
            assert(area_prefix().is_prefix_of(body@)) by {
                assert(body@.subrange(0, p as int) =~= area_prefix());
            }
            return Ok(Session { role });
        }
        assert(!area_prefix().is_prefix_of(body@)) by {
            if area_prefix().is_prefix_of(body@) {
                assert(body@.subrange(0, p as int) =~= area_prefix());
            }
        }
    }
    Ok(Session { role: String::from_str(body) })
}

} // verus!
