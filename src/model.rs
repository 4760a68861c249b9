//! The records the service hands back, checked as they come in.
use vstd::prelude::*;

verus! {

/// Why a response could not be used.
#[derive(PartialEq, Eq, Structural, Clone, Copy, Debug)]
pub enum Failure {
    /// The service answered with a status other than success.
    Status(u16),
    /// The service answered with a body of the wrong shape.
    Payload,
}

/// `k` is the position of the one comma of `s`.
pub open spec fn sole_comma_at(s: Seq<char>, k: int) -> bool {
    &&& 0 <= k < s.len()
    &&& s[k] == ','
    &&& forall|j: int| 0 <= j < s.len() && j != k ==> s[j] != ','
}

/// A comma-joined pair `a,b`: `s` holds exactly one comma.
pub open spec fn is_pair(s: Seq<char>) -> bool {
    exists|k: int| sole_comma_at(s, k)
}

/// Splits a comma-joined pair into its two parts.
pub fn split_pair(s: &str) -> (r: Option<(String, String)>)
    ensures
        r is Some <==> is_pair(s@),
        r matches Some((a, b)) ==> s@ == a@ + seq![','] + b@ && sole_comma_at(s@, a@.len() as int),
{
    let n = s.unicode_len();
    let mut k: usize = 0;
    while k < n && s.get_char(k) != ','
        invariant
            k <= n,
            n == s@.len(),
            forall|j: int| 0 <= j < k ==> s@[j] != ',',
        decreases n - k,
    {
        k = k + 1;
    }
    if k == n {
        return None;
    }
    let mut j: usize = k + 1;
    while j < n
        invariant
            k < j <= n,
            n == s@.len(),
            s@[k as int] == ',',
            forall|i: int| 0 <= i < k ==> s@[i] != ',',
            forall|i: int| k < i < j ==> s@[i] != ',',
        decreases n - j,
    {
        if s.get_char(j) == ',' {
            assert(!is_pair(s@)) by {
                if exists|m: int| sole_comma_at(s@, m) {
                    let m = choose|m: int| sole_comma_at(s@, m);
                    if m == k as int {
                        assert(s@[j as int] == ',');
                    } else {
                        assert(s@[k as int] == ',');
                    }
                }
            }
            return None;
        }
        j = j + 1;
    }
    let a = s.substring_char(0, k).to_owned();
    let b = s.substring_char(k + 1, n).to_owned();
    assert(s@ =~= a@ + seq![','] + b@);
    assert(sole_comma_at(s@, k as int));
    Some((a, b))
}

/// A questionnaire campaign.
pub struct Campaign {
    pub id: u64,
    pub name: String,
    pub date: String,
    pub time: String,
    pub image: String,
}

impl Campaign {
    /// A campaign from the fields of the service's record, whose date-time
    /// is sent as `date,time`. Identifiers are never negative.
    pub fn from_wire(id: i64, name: String, datetime: &str, image: String) -> (r: Result<
        Campaign,
        Failure,
    >)
        ensures
            r is Ok <==> id >= 0 && is_pair(datetime@),
            r is Err ==> r == Err::<Campaign, Failure>(Failure::Payload),
            r matches Ok(c) ==> {
                &&& c.id == id
                &&& c.name == name
                &&& c.image == image
                &&& datetime@ == c.date@ + seq![','] + c.time@
                &&& sole_comma_at(datetime@, c.date@.len() as int)
            },
    {
        if id < 0 {
            return Err(Failure::Payload);
        }
        match split_pair(datetime) {
            Some((date, time)) => Ok(Campaign { id: id as u64, name, date, time, image }),
            None => Err(Failure::Payload),
        }
    }
}

/// Someone who completed or canceled a campaign.
pub struct Respondent {
    pub id: i64,
    pub username: String,
    pub birth_date: String,
    pub birth_time: String,
    pub sex: String,
}

impl Respondent {
    /// A respondent from the fields of the service's record, whose birth
    /// date-time is sent as `date,time`.
    pub fn from_wire(id: i64, username: String, birth: &str, sex: String) -> (r: Result<
        Respondent,
        Failure,
    >)
        ensures
            r is Ok <==> is_pair(birth@),
            r is Err ==> r == Err::<Respondent, Failure>(Failure::Payload),
            r matches Ok(u) ==> {
                &&& u.id == id
                &&& u.username == username
                &&& u.sex == sex
                &&& birth@ == u.birth_date@ + seq![','] + u.birth_time@
                &&& sole_comma_at(birth@, u.birth_date@.len() as int)
            },
    {
        match split_pair(birth) {
            Some((birth_date, birth_time)) => Ok(
                Respondent { id, username, birth_date, birth_time, sex },
            ),
            None => Err(Failure::Payload),
        }
    }
}

/// One free-text question of a campaign with the answer given to it.
pub struct FreeAnswer {
    pub question: String,
    pub content: String,
}

/// What one respondent answered in one campaign: the statistical answers
/// (age, sex, experience), each possibly absent, and the free-text ones.
pub struct AnswerSet {
    pub stats: Vec<Option<String>>,
    pub free: Vec<FreeAnswer>,
}

impl AnswerSet {
    /// There is a slot for each of the three statistical answers.
    pub open spec fn wf(&self) -> bool {
        self.stats@.len() == 3
    }

    /// An answer set from the service's record.
    pub fn from_wire(stats: Vec<Option<String>>, free: Vec<FreeAnswer>) -> (r: Result<
        AnswerSet,
        Failure,
    >)
        ensures
            r is Ok <==> stats@.len() == 3,
            r is Err ==> r == Err::<AnswerSet, Failure>(Failure::Payload),
            r matches Ok(a) ==> a.wf() && a.stats == stats && a.free == free,
    {
        if stats.len() == 3 {
            Ok(AnswerSet { stats, free })
        } else {
            Err(Failure::Payload)
        }
    }
}

} // verus!
