//! The command interpreter: which scope is active, what each line asks for
//! in it, and where the console goes next.
//!
//! In the administrative scope `b` and `back` return to the top scope and
//! `exit` ends the console; the top scope has a single command, `admin`.
use vstd::prelude::*;
use crate::client::Session;
use crate::resolver::{
    inspect_inline, list_inline, opt_text, resolve_inspect, resolve_list, PendingInspect,
    PendingList,
};
use crate::tokens::{is_word, texts, tokenize, words};

verus! {

/// The command vocabulary in force.
#[derive(PartialEq, Eq, Structural, Clone, Copy, Debug)]
pub enum Scope {
    Top,
    Admin,
    Exited,
}

/// What the console is to do about one line.
pub enum Action {
    /// Show the commands of this scope.
    Help(Scope),
    /// The administrative scope was entered.
    EnterAdmin,
    /// The administrative scope was asked for by a user who is no
    /// administrator.
    NotAdmin,
    /// The administrative scope was left for the top scope.
    BackToTop,
    /// The console ends.
    Quit,
    /// Ask for a new campaign and submit it.
    Create,
    /// List campaigns, with the arguments the line settled.
    List(PendingList),
    /// Show who answered a campaign, with the arguments the line settled.
    Inspect(PendingInspect),
    /// Ask for a campaign and delete it.
    Delete,
}

/// Words that leave the administrative scope for the top one.
pub open spec fn is_back(w: Seq<char>) -> bool {
    w == "b"@ || w == "back"@
}

/// Words that end the console from the administrative scope.
pub open spec fn is_quit(w: Seq<char>) -> bool {
    w == "exit"@ || w == "Ctrl-C"@ || w == "Ctrl-D"@
}

/// The scope after a line of words `ws`.
pub open spec fn next_scope(scope: Scope, admin_role: bool, ws: Seq<Seq<char>>) -> Scope {
    match scope {
        Scope::Exited => Scope::Exited,
        Scope::Top => if ws.len() > 0 && ws[0] == "admin"@ && admin_role {
            Scope::Admin
        } else {
            Scope::Top
        },
        Scope::Admin => if ws.len() > 0 && is_back(ws[0]) {
            Scope::Top
        } else if ws.len() > 0 && is_quit(ws[0]) {
            Scope::Exited
        } else {
            Scope::Admin
        },
    }
}

/// Whether `a` is what a line of words `ws` asks for in `scope`.
pub open spec fn action_for(scope: Scope, admin_role: bool, ws: Seq<Seq<char>>, a: Action) -> bool {
    match scope {
        Scope::Exited => a is Quit,
        Scope::Top => if ws.len() > 0 && ws[0] == "admin"@ {
            if admin_role {
                a is EnterAdmin
            } else {
                a is NotAdmin
            }
        } else {
            a matches Action::Help(s) && s == Scope::Top
        },
        Scope::Admin => if ws.len() == 0 {
            a matches Action::Help(s) && s == Scope::Admin
        } else if is_back(ws[0]) {
            a is BackToTop
        } else if is_quit(ws[0]) {
            a is Quit
        } else if ws[0] == "create"@ {
            a is Create
        } else if ws[0] == "list"@ {
            a matches Action::List(p) && p.view() == list_inline(ws.drop_first())
        } else if ws[0] == "inspect"@ {
            a matches Action::Inspect(p) && (opt_text(p.id), p.canceled) == inspect_inline(
                ws.drop_first(),
            )
        } else if ws[0] == "delete"@ {
            a is Delete
        } else {
            a matches Action::Help(s) && s == Scope::Admin
        },
    }
}

/// The console's state between lines.
pub struct Console {
    pub scope: Scope,
    /// Whether the signed-in user may enter the administrative scope.
    pub admin_role: bool,
}

fn rest_of(ws: &Vec<String>) -> (r: Vec<String>)
    requires
        ws@.len() > 0,
    ensures
        texts(r@) == texts(ws@).drop_first(),
{
    let mut r: Vec<String> = Vec::new();
    let mut i: usize = 1;
    while i < ws.len()
        invariant
            1 <= i <= ws@.len(),
            texts(r@) == texts(ws@).subrange(1, i as int),
        decreases ws.len() - i,
    {
        let ghost before = r@;
        let t = ws[i].clone();
        assert(t@ == texts(ws@)[i as int]);
        r.push(t);
        assert(texts(r@) =~= texts(before).push(t@));
        i = i + 1;
        assert(texts(r@) =~= texts(ws@).subrange(1, i as int));
    }
    assert(texts(ws@).subrange(1, ws@.len() as int) =~= texts(ws@).drop_first());
    r
}

impl Console {
    /// A console at the top scope, for a signed-in user.
    pub fn new(session: &Session) -> (r: Console)
        ensures
            r.scope == Scope::Top,
            r.admin_role == (session.role@ == "admin"@),
    {
        Console { scope: Scope::Top, admin_role: session.is_admin() }
    }

    /// Handles one line: says what to do about it and moves to the next
    /// scope.
    pub fn step(&mut self, line: &str) -> (a: Action)
        ensures
            final(self).admin_role == old(self).admin_role,
            final(self).scope == next_scope(old(self).scope, old(self).admin_role, words(line@)),
            action_for(old(self).scope, old(self).admin_role, words(line@), a),
    {
        let ws = tokenize(line);
        let ghost w = words(line@);
        proof {
            if ws@.len() > 0 {
                assert(w[0] == ws@[0]@);
            }
        }
        match self.scope {
            Scope::Exited => Action::Quit,
            Scope::Top => {
                if ws.len() > 0 && is_word(&ws[0], "admin") {
                    if self.admin_role {
                        self.scope = Scope::Admin;
                        Action::EnterAdmin
                    } else {
                        Action::NotAdmin
                    }
                } else {
                    Action::Help(Scope::Top)
                }
            },
            Scope::Admin => {
                if ws.len() == 0 {
                    return Action::Help(Scope::Admin);
                }
                let head = &ws[0];
                if is_word(head, "b") || is_word(head, "back") {
                    self.scope = Scope::Top;
                    Action::BackToTop
                } else if is_word(head, "exit") || is_word(head, "Ctrl-C") || is_word(
                    head,
                    "Ctrl-D",
                ) {
                    self.scope = Scope::Exited;
                    Action::Quit
                } else if is_word(head, "create") {
                    Action::Create
                } else if is_word(head, "list") {
                    Action::List(resolve_list(&rest_of(&ws)))
                } else if is_word(head, "inspect") {
                    Action::Inspect(resolve_inspect(&rest_of(&ws)))
                } else if is_word(head, "delete") {
                    Action::Delete
                } else {
                    Action::Help(Scope::Admin)
                }
            },
        }
    }

    /// An interrupt or the end of input: the console ends, whatever the
    /// scope.
    pub fn interrupt(&mut self)
        ensures
            final(self).scope == Scope::Exited,
            final(self).admin_role == old(self).admin_role,
    {
        self.scope = Scope::Exited;
    }

    /// The prompt of the current scope: the operator's name leads it in the
    /// administrative scope.
    pub fn prompt(&self, operator: &str) -> (r: String)
        ensures
            r@ == if self.scope == Scope::Admin {
                operator@ + " >> "@
            } else {
                ">> "@
            },
    {
        if self.scope == Scope::Admin {
            let mut p = String::from_str(operator);
            p.append(" >> ");
            p
        } else {
            String::from_str(">> ")
        }
    }
}

/// After a successful sign-in whose body names the administrator role,
/// the console starts at the top scope and `admin` enters the
/// administrative one.
pub proof fn admin_reachable_after_sign_in(body: Seq<char>, rest: Seq<Seq<char>>)
    requires
        crate::client::role_of(body) == "admin"@,
    ensures
        next_scope(
            Scope::Top,
            crate::client::role_of(body) == "admin"@,
            seq!["admin"@] + rest,
        ) == Scope::Admin,
{
    assert((seq!["admin"@] + rest)[0] == "admin"@);
}

/// `list` followed by the shortcut word is a listing with every declared
/// default and nothing left to ask.
pub proof fn list_shortcut_line(admin_role: bool, ws: Seq<Seq<char>>)
    requires
        ws.len() >= 2,
        ws[0] == "list"@,
        crate::resolver::is_shortcut(ws[1]),
    ensures
        next_scope(Scope::Admin, admin_role, ws) == Scope::Admin,
        list_inline(ws.drop_first()) == (crate::resolver::ListFill {
            start: Some(crate::resolver::default_start()),
            size: Some(crate::resolver::default_size()),
            past: Some(false),
        }),
        crate::resolver::open_fields(list_inline(ws.drop_first())) == 0,
{
    reveal_strlit("list");
    reveal_strlit("b");
    reveal_strlit("back");
    reveal_strlit("exit");
    reveal_strlit("Ctrl-C");
    reveal_strlit("Ctrl-D");
    assert("list"@.len() == 4 && "b"@.len() == 1);
    assert("Ctrl-C"@.len() == 6 && "Ctrl-D"@.len() == 6);
    assert("list"@ != "back"@) by {
        assert("list"@[0] != "back"@[0]);
    }
    assert("list"@ != "exit"@) by {
        assert("list"@[0] != "exit"@[0]);
    }
    assert(ws.drop_first()[0] == ws[1]);
    crate::resolver::shortcut_takes_declared_defaults(ws.drop_first());
}

/// The commands of a scope, as the help line lists them.
pub open spec fn help_text(scope: Scope) -> Seq<char> {
    match scope {
        Scope::Admin => "Available commands: create, list, delete, inspect, back, exit."@,
        _ => "Available commands: admin."@,
    }
}

/// The help line of a scope.
pub fn help_line(scope: Scope) -> (r: String)
    ensures
        r@ == help_text(scope),
{
    match scope {
        Scope::Admin => String::from_str("Available commands: create, list, delete, inspect, back, exit."),
        _ => String::from_str("Available commands: admin."),
    }
}

} // verus!
