//! Terminal layout: campaign tables, the respondent picker's rows and the
//! answers of one respondent, centered in the terminal's width.
use vstd::prelude::*;
use crate::model::{AnswerSet, Campaign, FreeAnswer, Respondent};
use crate::text::{
    cell_center, cell_centered, cell_right, cell_right_aligned, center, centered, decimal,
    decimal_text, lemma_cell_widths, repeat, signed_decimal_text,
};

verus! {

/// Width of the terminal when it cannot be measured.
pub const FALLBACK_WIDTH: usize = 137;

/// Characters in a campaign row and in the borders of a campaign table.
pub const CAMPAIGN_ROW_WIDTH: usize = 61;

/// Characters in a respondent row.
pub const RESPONDENT_ROW_WIDTH: usize = 71;

/// The terminal's width, or the fallback where it could not be measured.
pub fn effective_width(measured: Option<usize>) -> (r: usize)
    ensures
        r == match measured {
            Some(w) => w,
            None => FALLBACK_WIDTH,
        },
{
    match measured {
        Some(w) => w,
        None => FALLBACK_WIDTH,
    }
}

/// Top border of a campaign table.
pub open spec fn campaign_header() -> Seq<char> {
    "┌─ ID ──┬───────────── Name ─────────────┬────── Date ──────┐"@
}

/// Bottom border of a campaign table.
pub open spec fn campaign_footer() -> Seq<char> {
    "└─ ID ──┴───────────── Name ─────────────┴────── Date ──────┘"@
}

/// Heading of the respondent picker, above rows of respondents.
pub open spec fn respondent_header() -> Seq<char> {
    "   ─ ID ──┬───────────── Name ─────────────┬────── Birth ─────┬── Sex ── "@
}

/// A date-time pair as shown: date, a space, time.
pub open spec fn when_text(date: Seq<char>, time: Seq<char>) -> Seq<char> {
    date + seq![' '] + time
}

/// The row of a campaign: identifier and name centered in five and thirty
/// characters, date-time right-aligned in sixteen, each cut to its width.
pub open spec fn campaign_row(c: Campaign) -> Seq<char> {
    "│ "@ + cell_centered(decimal(c.id as int), 5) + " │ "@ + cell_centered(c.name@, 30) + " │ "@
        + cell_right(when_text(c.date@, c.time@), 16) + " │"@
}

/// The row of a respondent: as a campaign's, with the sex centered in
/// seven more characters.
pub open spec fn respondent_row(u: Respondent) -> Seq<char> {
    "│ "@ + cell_centered(decimal(u.id as int), 5) + " │ "@ + cell_centered(u.username@, 30)
        + " │ "@ + cell_right(when_text(u.birth_date@, u.birth_time@), 16) + " │ "@
        + cell_centered(u.sex@, 7) + " │"@
}

fn when_string(date: &String, time: &String) -> (r: String)
    ensures
        r@ == when_text(date@, time@),
{
    proof {
        reveal_strlit(" ");
    }
    let mut s = date.clone();
    s.append(" ");
    s.append(time.as_str());
    s
}

/// Every campaign row is exactly as wide as the table's borders, whatever
/// the campaign holds: long cells are cut, never widened.
pub proof fn campaign_rows_fit_budget(c: Campaign)
    ensures
        campaign_row(c).len() == CAMPAIGN_ROW_WIDTH,
        campaign_header().len() == CAMPAIGN_ROW_WIDTH,
        campaign_footer().len() == CAMPAIGN_ROW_WIDTH,
{
    reveal_strlit("│ ");
    reveal_strlit(" │ ");
    reveal_strlit(" │");
    reveal_strlit("┌─ ID ──┬───────────── Name ─────────────┬────── Date ──────┐");
    reveal_strlit("└─ ID ──┴───────────── Name ─────────────┴────── Date ──────┘");
    lemma_cell_widths(decimal(c.id as int), 5);
    lemma_cell_widths(c.name@, 30);
    lemma_cell_widths(when_text(c.date@, c.time@), 16);
}

/// The row of a campaign.
pub fn campaign_line(c: &Campaign) -> (r: String)
    ensures
        r@ == campaign_row(*c),
        r@.len() == CAMPAIGN_ROW_WIDTH,
{
    proof {
        reveal_strlit("│ ");
        reveal_strlit(" │ ");
        reveal_strlit(" │");
    }
    let id = decimal_text(c.id);
    let mut s = String::from_str("│ ");
    s.append(cell_center(id.as_str(), 5).as_str());
    s.append(" │ ");
    s.append(cell_center(c.name.as_str(), 30).as_str());
    s.append(" │ ");
    s.append(cell_right_aligned(when_string(&c.date, &c.time).as_str(), 16).as_str());
    s.append(" │");
    s
}

/// The row of a respondent, as the picker offers it.
pub fn respondent_line(u: &Respondent) -> (r: String)
    ensures
        r@ == respondent_row(*u),
        r@.len() == RESPONDENT_ROW_WIDTH,
{
    proof {
        reveal_strlit("│ ");
        reveal_strlit(" │ ");
        reveal_strlit(" │");
    }
    let id = signed_decimal_text(u.id);
    let mut s = String::from_str("│ ");
    s.append(cell_center(id.as_str(), 5).as_str());
    s.append(" │ ");
    s.append(cell_center(u.username.as_str(), 30).as_str());
    s.append(" │ ");
    s.append(cell_right_aligned(when_string(&u.birth_date, &u.birth_time).as_str(), 16).as_str());
    s.append(" │ ");
    s.append(cell_center(u.sex.as_str(), 7).as_str());
    s.append(" │");
    s
}

/// The heading of the respondent picker.
pub fn respondent_heading() -> (r: String)
    ensures
        r@ == respondent_header(),
{
    String::from_str("   ─ ID ──┬───────────── Name ─────────────┬────── Birth ─────┬── Sex ── ")
}

/// A table of campaigns: a top border, one row for each campaign in order,
/// and a bottom border, each line centered in `width` characters.
pub fn campaign_table(campaigns: &Vec<Campaign>, width: usize) -> (r: Vec<String>)
    ensures
        r@.len() == campaigns@.len() + 2,
        forall|i: int|
            0 <= i < campaigns@.len() ==> campaign_row(#[trigger] campaigns@[i]).len()
                == CAMPAIGN_ROW_WIDTH,
        r@[0]@ == centered(campaign_header(), width as nat, ' '),
        r@[r@.len() - 1]@ == centered(campaign_footer(), width as nat, ' '),
        forall|i: int|
            0 <= i < campaigns@.len() ==> r@[i + 1]@ == centered(
                campaign_row(#[trigger] campaigns@[i]),
                width as nat,
                ' ',
            ),
{
    proof {
        reveal_strlit(" ");
        assert forall|i: int| 0 <= i < campaigns@.len() implies campaign_row(
            #[trigger] campaigns@[i],
        ).len() == CAMPAIGN_ROW_WIDTH by {
            campaign_rows_fit_budget(campaigns@[i]);
        }
    }
    let mut lines: Vec<String> = Vec::new();
    lines.push(
        center("┌─ ID ──┬───────────── Name ─────────────┬────── Date ──────┐", width, " "),
    );
    let mut i: usize = 0;
    while i < campaigns.len()
        invariant
            i <= campaigns@.len(),
            lines@.len() == i + 1,
            lines@[0]@ == centered(campaign_header(), width as nat, ' '),
            " "@ == seq![' '],
            forall|k: int|
                0 <= k < i ==> lines@[k + 1]@ == centered(
                    campaign_row(#[trigger] campaigns@[k]),
                    width as nat,
                    ' ',
                ),
        decreases campaigns.len() - i,
    {
        let row = campaign_line(&campaigns[i]);
        lines.push(center(row.as_str(), width, " "));
        i = i + 1;
    }
    lines.push(
        center("└─ ID ──┴───────────── Name ─────────────┴────── Date ──────┘", width, " "),
    );
    lines
}

/// How a line of the answers view is to be shown.
#[derive(PartialEq, Eq, Structural, Clone, Copy, Debug)]
pub enum Style {
    Banner,
    Stats,
    Separator,
    Question,
    Answer,
}

/// A line of the answers view.
pub struct StyledLine {
    pub text: String,
    pub style: Style,
}

/// A statistical answer as shown: `N/A` when it was not given.
pub open spec fn slot_text(o: Option<String>) -> Seq<char> {
    match o {
        Some(t) => t@,
        None => "N/A"@,
    }
}

/// The line of statistical answers.
pub open spec fn stats_text(stats: Seq<Option<String>>) -> Seq<char> {
    "Age: "@ + slot_text(stats[0]) + ", Sex: "@ + slot_text(stats[1]) + ", Exp: "@ + slot_text(
        stats[2],
    )
}

/// Whether `l` shows `text` in the style `style`.
pub open spec fn shows(l: StyledLine, text: Seq<char>, style: Style) -> bool {
    l.text@ == text && l.style == style
}

fn slot_string(o: &Option<String>) -> (r: String)
    ensures
        r@ == slot_text(*o),
{
    match o {
        Some(t) => t.clone(),
        None => String::from_str("N/A"),
    }
}

/// The line of statistical answers.
pub fn stats_line(a: &AnswerSet) -> (r: String)
    requires
        a.wf(),
    ensures
        r@ == stats_text(a.stats@),
{
    let mut s = String::from_str("Age: ");
    s.append(slot_string(&a.stats[0]).as_str());
    s.append(", Sex: ");
    s.append(slot_string(&a.stats[1]).as_str());
    s.append(", Exp: ");
    s.append(slot_string(&a.stats[2]).as_str());
    s
}

/// The answers of one respondent: a banner, the statistical answers, a
/// second banner and a separator, then each free-text question with its
/// answer and a separator, and a closing rule; all `width` wide or
/// centered in it.
pub fn answer_lines(a: &AnswerSet, width: usize) -> (r: Vec<StyledLine>)
    requires
        a.wf(),
    ensures
        r@.len() == 5 + 3 * a.free@.len(),
        shows(r@[0], centered(" Statistical answers "@, width as nat, '~'), Style::Banner),
        shows(r@[1], centered(stats_text(a.stats@), width as nat, ' '), Style::Stats),
        shows(r@[2], centered(" Optional answers "@, width as nat, '~'), Style::Banner),
        shows(r@[3], repeat(' ', width as nat), Style::Separator),
        forall|i: int|
            0 <= i < a.free@.len() ==> {
                &&& shows(
                    r@[4 + 3 * i],
                    centered((#[trigger] a.free@[i]).question@, width as nat, ' '),
                    Style::Question,
                )
                &&& shows(r@[5 + 3 * i], centered(a.free@[i].content@, width as nat, ' '), Style::Answer)
                &&& shows(r@[6 + 3 * i], repeat(' ', width as nat), Style::Separator)
            },
        shows(r@[4 + 3 * a.free@.len() as int], repeat('~', width as nat), Style::Banner),
{
    proof {
        reveal_strlit(" ");
        reveal_strlit("~");
    }
    let mut lines: Vec<StyledLine> = Vec::new();
    lines.push(StyledLine { text: center(" Statistical answers ", width, "~"), style: Style::Banner });
    lines.push(StyledLine { text: center(stats_line(a).as_str(), width, " "), style: Style::Stats });
    lines.push(StyledLine { text: center(" Optional answers ", width, "~"), style: Style::Banner });
    let mut gap = String::new();
    crate::text::push_copies(&mut gap, " ", width);
    assert(gap@ =~= repeat(' ', width as nat));
    lines.push(StyledLine { text: gap, style: Style::Separator });
    let mut i: usize = 0;
    while i < a.free.len()
        invariant
            i <= a.free@.len(),
            a.wf(),
            lines@.len() == 4 + 3 * i,
            " "@ == seq![' '],
            shows(lines@[0], centered(" Statistical answers "@, width as nat, '~'), Style::Banner),
            shows(lines@[1], centered(stats_text(a.stats@), width as nat, ' '), Style::Stats),
            shows(lines@[2], centered(" Optional answers "@, width as nat, '~'), Style::Banner),
            shows(lines@[3], repeat(' ', width as nat), Style::Separator),
            forall|k: int|
                0 <= k < i ==> {
                    &&& shows(
                        lines@[4 + 3 * k],
                        centered((#[trigger] a.free@[k]).question@, width as nat, ' '),
                        Style::Question,
                    )
                    &&& shows(
                        lines@[5 + 3 * k],
                        centered(a.free@[k].content@, width as nat, ' '),
                        Style::Answer,
                    )
                    &&& shows(lines@[6 + 3 * k], repeat(' ', width as nat), Style::Separator)
                },
        decreases a.free.len() - i,
    {
        let f: &FreeAnswer = &a.free[i];
        lines.push(StyledLine { text: center(f.question.as_str(), width, " "), style: Style::Question });
        lines.push(StyledLine { text: center(f.content.as_str(), width, " "), style: Style::Answer });
        let mut sep = String::new();
        crate::text::push_copies(&mut sep, " ", width);
        assert(sep@ =~= repeat(' ', width as nat));
        lines.push(StyledLine { text: sep, style: Style::Separator });
        i = i + 1;
    }
    let mut rule = String::new();
    crate::text::push_copies(&mut rule, "~", width);
    assert(rule@ =~= repeat('~', width as nat));
    lines.push(StyledLine { text: rule, style: Style::Banner });
    lines
}

} // verus!
