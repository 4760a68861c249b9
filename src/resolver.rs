//! Filling a command's arguments from the words that followed it on the
//! line, leaving the rest to be asked for interactively.
use vstd::prelude::*;
use crate::tokens::{is_word, texts};

verus! {

/// What `str::to_lowercase` makes of a text.
pub uninterp spec fn lowercase_of(s: Seq<char>) -> Seq<char>;

/// Relies on `str::to_lowercase`: the result depends on the characters of
/// `s` alone, and an empty text stays empty.
#[verifier::external_body]
fn lowercase(s: &str) -> (r: String)
    ensures
        r@ == lowercase_of(s@),
        s@.len() == 0 ==> r@.len() == 0,
{
    s.to_lowercase()
}

/// Whether `c` occurs in `s`.
pub fn has_char(s: &str, c: char) -> (r: bool)
    ensures
        r == s@.contains(c),
{
    let n = s.unicode_len();
    let mut i: usize = 0;
    while i < n
        invariant
            i <= n,
            n == s@.len(),
            forall|k: int| 0 <= k < i ==> s@[k] != c,
        decreases n - i,
    {
        if s.get_char(i) == c {
            return true;
        }
        i = i + 1;
    }
    false
}

/// An answer to "only past questionnaires?", already lower-cased, counts
/// as yes when it holds a `y` or a `t`.
pub open spec fn affirms_past(lowered: Seq<char>) -> bool {
    lowered.contains('y') || lowered.contains('t')
}

/// An answer to "canceled users?", already lower-cased, counts as yes when
/// it holds a `y`.
pub open spec fn affirms_canceled(lowered: Seq<char>) -> bool {
    lowered.contains('y')
}

/// Reads a lower-cased answer to "only past questionnaires?".
pub fn past_from_lowered(lowered: &str) -> (r: bool)
    ensures
        r == affirms_past(lowered@),
{
    has_char(lowered, 'y') || has_char(lowered, 't')
}

/// Reads a lower-cased answer to "canceled users?".
pub fn canceled_from_lowered(lowered: &str) -> (r: bool)
    ensures
        r == affirms_canceled(lowered@),
{
    has_char(lowered, 'y')
}

/// Reads an answer to "only past questionnaires?", in any case.
pub fn past_answer(answer: &str) -> (r: bool)
    ensures
        r == affirms_past(lowercase_of(answer@)),
{
    let lowered = lowercase(answer);
    past_from_lowered(lowered.as_str())
}

/// Reads an answer to "canceled users?", in any case.
pub fn canceled_answer(answer: &str) -> (r: bool)
    ensures
        r == affirms_canceled(lowercase_of(answer@)),
{
    let lowered = lowercase(answer);
    canceled_from_lowered(lowered.as_str())
}

/// The word that takes every default of `list` at once.
pub open spec fn is_shortcut(w: Seq<char>) -> bool {
    w == "d"@ || w == "default"@
}

/// The arguments of `list` known so far: `None` is still to be asked.
pub struct PendingList {
    pub start: Option<String>,
    pub size: Option<String>,
    pub past: Option<bool>,
}

/// The arguments of `list` known so far, as character sequences.
pub struct ListFill {
    pub start: Option<Seq<char>>,
    pub size: Option<Seq<char>>,
    pub past: Option<bool>,
}

/// What an optional string holds, as characters.
pub open spec fn opt_text(o: Option<String>) -> Option<Seq<char>> {
    match o {
        Some(t) => Some(t@),
        None => None,
    }
}

impl PendingList {
    /// The arguments known so far, as character sequences.
    pub open spec fn view(&self) -> ListFill {
        ListFill { start: opt_text(self.start), size: opt_text(self.size), past: self.past }
    }

    /// How many arguments are still to be asked for.
    pub fn prompt_count(&self) -> (r: usize)
        ensures
            r == open_fields(self.view()),
    {
        let mut n: usize = 0;
        if self.start.is_none() {
            n = n + 1;
        }
        if self.size.is_none() {
            n = n + 1;
        }
        if self.past.is_none() {
            n = n + 1;
        }
        n
    }
}

/// How many arguments of `list` are still to be asked for.
pub open spec fn open_fields(f: ListFill) -> nat {
    (if f.start is None { 1nat } else { 0nat }) + (if f.size is None { 1nat } else { 0nat }) + (
    if f.past is None {
        1nat
    } else {
        0nat
    })
}

/// Offset of the first campaign listed when nothing else is said.
pub open spec fn default_start() -> Seq<char> {
    "0"@
}

/// Number of campaigns listed when nothing else is said.
pub open spec fn default_size() -> Seq<char> {
    "100"@
}

/// `f` with every argument not yet known set to its default.
pub open spec fn with_defaults(f: ListFill) -> ListFill {
    ListFill {
        start: Some(
            match f.start {
                Some(t) => t,
                None => default_start(),
            },
        ),
        size: Some(
            match f.size {
                Some(t) => t,
                None => default_size(),
            },
        ),
        past: Some(
            match f.past {
                Some(p) => p,
                None => false,
            },
        ),
    }
}

/// The arguments of `list` once the words from position `i` on have been
/// read, starting from what `f` already knows. Reading stops at the end,
/// at an unknown word, at a keyword whose argument is already known, and
/// at a keyword with nothing after it; the shortcut word fills in every
/// default and stops.
pub open spec fn scan_list(rest: Seq<Seq<char>>, i: nat, f: ListFill) -> ListFill
    decreases rest.len() - i,
{
    if i >= rest.len() {
        f
    } else {
        let w = rest[i as int];
        if is_shortcut(w) {
            with_defaults(f)
        } else if w == "start"@ {
            if f.start is Some || i + 1 >= rest.len() {
                f
            } else {
                scan_list(
                    rest,
                    i + 2,
                    ListFill { start: Some(rest[i + 1 as int]), size: f.size, past: f.past },
                )
            }
        } else if w == "size"@ {
            if f.size is Some || i + 1 >= rest.len() {
                f
            } else {
                scan_list(
                    rest,
                    i + 2,
                    ListFill { start: f.start, size: Some(rest[i + 1 as int]), past: f.past },
                )
            }
        } else if w == "past"@ {
            if f.past is Some {
                f
            } else {
                scan_list(rest, i + 1, ListFill { start: f.start, size: f.size, past: Some(true) })
            }
        } else {
            f
        }
    }
}

/// What the words after `list` settle before any question is asked.
pub open spec fn list_inline(rest: Seq<Seq<char>>) -> ListFill {
    scan_list(rest, 0, ListFill { start: None, size: None, past: None })
}

fn fill_defaults(p: PendingList) -> (r: PendingList)
    ensures
        r.view() == with_defaults(p.view()),
{
    proof {
        reveal_strlit("0");
        reveal_strlit("100");
    }
    let start = match p.start {
        Some(t) => t,
        None => String::from_str("0"),
    };
    let size = match p.size {
        Some(t) => t,
        None => String::from_str("100"),
    };
    let past = match p.past {
        Some(b) => b,
        None => false,
    };
    PendingList { start: Some(start), size: Some(size), past: Some(past) }
}

/// Reads the words after `list`.
pub fn resolve_list(rest: &Vec<String>) -> (r: PendingList)
    ensures
        r.view() == list_inline(texts(rest@)),
{
    let ghost ws = texts(rest@);
    let mut p = PendingList { start: None, size: None, past: None };
    let mut i: usize = 0;
    while i < rest.len()
        invariant
            i <= rest.len(),
            ws == texts(rest@),
            scan_list(ws, i as nat, p.view()) == list_inline(ws),
        decreases rest.len() - i,
    {
        let w = &rest[i];
        assert(ws[i as int] == w@);
        if is_word(w, "d") || is_word(w, "default") {
            return fill_defaults(p);
        } else if is_word(w, "start") {
            if p.start.is_some() || i + 1 >= rest.len() {
                return p;
            }
            assert(ws[i + 1] == rest@[i + 1]@);
            p = PendingList { start: Some(rest[i + 1].clone()), size: p.size, past: p.past };
            i = i + 2;
        } else if is_word(w, "size") {
            if p.size.is_some() || i + 1 >= rest.len() {
                return p;
            }
            assert(ws[i + 1] == rest@[i + 1]@);
            p = PendingList { start: p.start, size: Some(rest[i + 1].clone()), past: p.past };
            i = i + 2;
        } else if is_word(w, "past") {
            if p.past.is_some() {
                return p;
            }
            p = PendingList { start: p.start, size: p.size, past: Some(true) };
            i = i + 1;
        } else {
            return p;
        }
    }
    p
}

/// The arguments a `list` request is sent with.
pub struct ListArgs {
    pub start: String,
    pub size: String,
    pub past: bool,
}

/// The known value if there is one, else the answer given.
pub open spec fn known_or(known: Option<Seq<char>>, answer: Seq<char>) -> Seq<char> {
    match known {
        Some(t) => t,
        None => answer,
    }
}

impl PendingList {
    /// Settles the arguments of `list`, taking each answer only where the
    /// command line left the argument open.
    pub fn complete(self, start_answer: String, size_answer: String, past_reply: &str) -> (r:
        ListArgs)
        ensures
            r.start@ == known_or(self.view().start, start_answer@),
            r.size@ == known_or(self.view().size, size_answer@),
            r.past == match self.past {
                Some(p) => p,
                None => affirms_past(lowercase_of(past_reply@)),
            },
    {
        let start = match self.start {
            Some(t) => t,
            None => start_answer,
        };
        let size = match self.size {
            Some(t) => t,
            None => size_answer,
        };
        let past = match self.past {
            Some(p) => p,
            None => past_answer(past_reply),
        };
        ListArgs { start, size, past }
    }
}

/// A word after the campaign identifier of `inspect` that asks for the
/// respondents who canceled.
pub open spec fn is_canceled_word(w: Seq<char>) -> bool {
    w == "canceled"@ || w == "c"@
}

/// The arguments of `inspect` known so far: `None` is still to be asked.
pub struct PendingInspect {
    pub id: Option<String>,
    pub canceled: Option<bool>,
}

/// What the words after `inspect` settle: the first is the campaign
/// identifier, and once it is given the partition is the canceled one
/// exactly when the next word asks for it.
pub open spec fn inspect_inline(rest: Seq<Seq<char>>) -> (Option<Seq<char>>, Option<bool>) {
    if rest.len() == 0 {
        (None, None)
    } else {
        (Some(rest[0]), Some(rest.len() > 1 && is_canceled_word(rest[1])))
    }
}

/// Reads the words after `inspect`.
pub fn resolve_inspect(rest: &Vec<String>) -> (r: PendingInspect)
    ensures
        (opt_text(r.id), r.canceled) == inspect_inline(texts(rest@)),
{
    if rest.len() == 0 {
        PendingInspect { id: None, canceled: None }
    } else {
        assert(texts(rest@)[0] == rest@[0]@);
        let canceled = rest.len() > 1 && (is_word(&rest[1], "canceled") || is_word(&rest[1], "c"));
        proof {
            if rest.len() > 1 {
                assert(texts(rest@)[1] == rest@[1]@);
            }
        }
        PendingInspect { id: Some(rest[0].clone()), canceled: Some(canceled) }
    }
}

/// The arguments an `inspect` is carried out with.
pub struct InspectArgs {
    pub id: String,
    pub canceled: bool,
}

impl PendingInspect {
    /// How many arguments are still to be asked for.
    pub fn prompt_count(&self) -> (r: usize)
        ensures
            r == (if self.id is None { 1nat } else { 0nat }) + (if self.canceled is None {
                1nat
            } else {
                0nat
            }),
    {
        let mut n: usize = 0;
        if self.id.is_none() {
            n = n + 1;
        }
        if self.canceled.is_none() {
            n = n + 1;
        }
        n
    }

    /// Settles the arguments of `inspect`, taking each answer only where
    /// the command line left the argument open.
    pub fn complete(self, id_answer: String, canceled_reply: &str) -> (r: InspectArgs)
        ensures
            r.id@ == known_or(opt_text(self.id), id_answer@),
            r.canceled == match self.canceled {
                Some(c) => c,
                None => affirms_canceled(lowercase_of(canceled_reply@)),
            },
    {
        let id = match self.id {
            Some(t) => t,
            None => id_answer,
        };
        let canceled = match self.canceled {
            Some(c) => c,
            None => canceled_answer(canceled_reply),
        };
        InspectArgs { id, canceled }
    }
}

/// `list` followed by the shortcut word takes every declared default,
/// start 0, size 100 and not only past campaigns, and leaves nothing to be
/// asked.
pub proof fn shortcut_takes_declared_defaults(rest: Seq<Seq<char>>)
    requires
        rest.len() > 0,
        is_shortcut(rest[0]),
    ensures
        list_inline(rest) == (ListFill {
            start: Some(default_start()),
            size: Some(default_size()),
            past: Some(false),
        }),
        open_fields(list_inline(rest)) == 0,
{
}

/// Reading stops at the shortcut word wherever it stands: every argument
/// is then known, so nothing is asked.
pub proof fn shortcut_leaves_nothing_to_ask(rest: Seq<Seq<char>>, i: nat, f: ListFill)
    requires
        i < rest.len(),
        is_shortcut(rest[i as int]),
    ensures
        open_fields(scan_list(rest, i, f)) == 0,
{
}

/// The arguments `list` is sent with are, for each of them, the value the
/// command line gave where it gave one, and the operator's answer
/// otherwise; the line and the answers are the only sources.
pub proof fn list_arguments_have_one_source(
    rest: Seq<Seq<char>>,
    start_answer: Seq<char>,
    size_answer: Seq<char>,
)
    ensures
        list_inline(rest).start is Some ==> known_or(list_inline(rest).start, start_answer)
            == list_inline(rest).start->0,
        list_inline(rest).start is None ==> known_or(list_inline(rest).start, start_answer)
            == start_answer,
        list_inline(rest).size is Some ==> known_or(list_inline(rest).size, size_answer)
            == list_inline(rest).size->0,
        list_inline(rest).size is None ==> known_or(list_inline(rest).size, size_answer)
            == size_answer,
{
}

} // verus!
