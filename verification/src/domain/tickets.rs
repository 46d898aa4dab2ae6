//! Ticket files: their numbering (`T-001.md`, `T-002.md`, ...) and the
//! content rendered from the ticket template.
use vstd::prelude::*;

use crate::text;

verus! {

/// A ticket ready to be written: its file name, full path and content.
#[derive(Debug)]
pub struct TicketDraft {
    pub filename: String,
    pub path: String,
    pub content: String,
}

/// Why no ticket was created.
#[derive(Debug)]
pub enum TicketError {
    /// A file with the chosen name is already there (its path).
    TicketExists(String),
}

impl TicketError {
    /// The error's text.
    pub fn message(&self) -> (r: String)
        ensures
            match self {
                TicketError::TicketExists(p) => r@ == "Ticket already exists: "@ + p@,
            },
    {
        match self {
            TicketError::TicketExists(p) => text::concat("Ticket already exists: ", p.as_str()),
        }
    }
}

/// The tickets directory of a project.
pub open spec fn dir_of(project_root: Seq<char>) -> Seq<char> {
    text::join_path(text::join_path(project_root, ".agents"@), "tickets"@)
}

/// The number in a ticket file name `T-<digits>.md`, read as `u32`.
pub open spec fn ticket_number_of(filename: Seq<char>) -> Option<u32> {
    if text::starts_with(filename, "T-"@) {
        let rest = filename.subrange(2, filename.len() as int);
        if text::ends_with(rest, ".md"@) {
            text::parse_u32(rest.subrange(0, rest.len() - 3))
        } else {
            None
        }
    } else {
        None
    }
}

/// The largest ticket number among `names` (zero when none is a ticket).
pub open spec fn max_ticket_number(names: Seq<Seq<char>>) -> nat
    decreases names.len(),
{
    if names.len() == 0 {
        0
    } else {
        let m = max_ticket_number(names.drop_last());
        match ticket_number_of(names.last()) {
            Some(n) => if n > m {
                n as nat
            } else {
                m
            },
            None => m,
        }
    }
}

/// The id of ticket `n`: `T-` and the number padded to three digits.
pub open spec fn ticket_id_of(n: nat) -> Seq<char> {
    "T-"@ + text::zero_padded3(n)
}

/// The file name of ticket `n`.
pub open spec fn ticket_filename_of(n: nat) -> Seq<char> {
    ticket_id_of(n) + ".md"@
}

/// The template placeholders and what replaces them.
pub open spec fn id_placeholder() -> Seq<char> {
    "id: '001'"@
}

pub open spec fn title_placeholder() -> Seq<char> {
    "title: Short Title"@
}

pub open spec fn branch_placeholder() -> Seq<char> {
    "branch: feat/your-branch-name"@
}

/// A title prepared for the template: its first line, trimmed, with
/// backslashes and double quotes escaped.
pub open spec fn escaped_title(title: Seq<char>) -> Seq<char> {
    text::replace_char(
        text::replace_char(text::trim(text::first_line(title)), '\\', "\\\\"@),
        '"',
        "\\\""@,
    )
}

/// The ticket content: the template with the id placeholder replaced by the
/// id's number, then the title and branch placeholders replaced when a
/// non-empty title or branch is given (first occurrences only).
pub open spec fn rendered(
    template: Seq<char>,
    ticket_id: Seq<char>,
    title: Option<Seq<char>>,
    branch: Option<Seq<char>>,
) -> Seq<char> {
    let number = if text::starts_with(ticket_id, "T-"@) {
        ticket_id.subrange(2, ticket_id.len() as int)
    } else {
        ticket_id
    };
    let a = text::replace_first(template, id_placeholder(), "id: '"@ + number + "'"@);
    let b = match title {
        Some(t) => if text::trim(text::first_line(t)).len() > 0 {
            text::replace_first(a, title_placeholder(), "title: \""@ + escaped_title(t) + "\""@)
        } else {
            a
        },
        None => a,
    };
    match branch {
        Some(br) => if text::trim(br).len() > 0 {
            text::replace_first(b, branch_placeholder(), "branch: "@ + text::trim(br))
        } else {
            b
        },
        None => b,
    }
}

/// The strings of a vector of `String`s.
pub open spec fn names_of(v: Seq<String>) -> Seq<Seq<char>> {
    v.map_values(|s: String| s@)
}

/// `<project_root>/.agents/tickets`.
pub fn dir(project_root: &str) -> (r: String)
    ensures
        r@ == dir_of(project_root@),
{
    let a = text::join(project_root, ".agents");
    text::join(a.as_str(), "tickets")
}

/// The number of a ticket file name such as `T-042.md`.
pub fn parse_ticket_number(filename: &str) -> (r: Option<u32>)
    ensures
        r == ticket_number_of(filename@),
{
    if !text::starts_with_str(filename, "T-") {
        return None;
    }
    proof {
        reveal_strlit("T-");
        reveal_strlit(".md");
    }
    let v = text::chars_of(filename);
    let rest = filename.substring_char(2, v.len());
    if !text::ends_with_str(rest, ".md") {
        return None;
    }
    let w = text::chars_of(rest);
    let middle = rest.substring_char(0, w.len() - 3);
    let m = text::chars_of(middle);
    text::parse_u32_chars(&m)
}

/// One more than the largest ticket number among `names` (so `1` when there
/// is no ticket yet).
pub fn next_ticket_number(names: &Vec<String>) -> (r: u32)
    requires
        max_ticket_number(names_of(names@)) < u32::MAX,
    ensures
        r == max_ticket_number(names_of(names@)) + 1,
{
    let mut max: u32 = 0;
    let mut i: usize = 0;
    while i < names.len()
        invariant
            i <= names.len(),
            max == max_ticket_number(names_of(names@).subrange(0, i as int)),
            max_ticket_number(names_of(names@)) < u32::MAX,
        decreases names.len() - i,
    {
        let ghost prefix = names_of(names@).subrange(0, i as int);
        proof {
            assert(names_of(names@).subrange(0, i + 1).drop_last() =~= prefix);
            assert(names_of(names@).subrange(0, i + 1).last() == names@[i as int]@);
        }
        match parse_ticket_number(names[i].as_str()) {
            Some(n) => {
                if n > max {
                    max = n;
                }
            },
            None => {},
        }
        i = i + 1;
    }
    proof {
        assert(names_of(names@).subrange(0, names.len() as int) =~= names_of(names@));
    }
    max + 1
}

/// `T-<number padded to three digits>`.
pub fn ticket_id(number: u32) -> (r: String)
    ensures
        r@ == ticket_id_of(number as nat),
{
    let p = text::fmt_zero_padded3(number);
    text::concat("T-", p.as_str())
}

/// Fills the ticket template for `ticket_id`, with an optional title and
/// branch.
pub fn render_template(template: &str, ticket_id: &str, title: Option<&str>, branch: Option<&str>) -> (r:
    String)
    ensures
        r@ == rendered(
            template@,
            ticket_id@,
            match title {
                Some(t) => Some(t@),
                None => None,
            },
            match branch {
                Some(b) => Some(b@),
                None => None,
            },
        ),
{
    let number = if text::starts_with_str(ticket_id, "T-") {
        proof {
            reveal_strlit("T-");
        }
        let v = text::chars_of(ticket_id);
        text::owned(ticket_id.substring_char(2, v.len()))
    } else {
        text::owned(ticket_id)
    };
    proof {
        reveal_strlit("id: '001'");
        reveal_strlit("title: Short Title");
        reveal_strlit("branch: feat/your-branch-name");
    }
    let mut id_line = text::concat("id: '", number.as_str());
    id_line.append("'");
    let mut out = text::replace_first_str(template, "id: '001'", id_line.as_str());
    match title {
        Some(t) => {
            let first = text::first_line_str(t);
            let trimmed = text::trim_str(first.as_str());
            if trimmed.unicode_len() > 0 {
                let e1 = text::replace_char_str(trimmed.as_str(), '\\', "\\\\");
                let escaped = text::replace_char_str(e1.as_str(), '"', "\\\"");
                let mut line = text::concat("title: \"", escaped.as_str());
                line.append("\"");
                out = text::replace_first_str(out.as_str(), "title: Short Title", line.as_str());
            }
        },
        None => {},
    }
    match branch {
        Some(b) => {
            let trimmed = text::trim_str(b);
            if trimmed.unicode_len() > 0 {
                let line = text::concat("branch: ", trimmed.as_str());
                out = text::replace_first_str(
                    out.as_str(),
                    "branch: feat/your-branch-name",
                    line.as_str(),
                );
            }
        },
        None => {},
    }
    out
}

/// Whether `name` is among `names`.
fn listed(names: &Vec<String>, name: &str) -> (r: bool)
    ensures
        r == names_of(names@).contains(name@),
{
    let mut i: usize = 0;
    while i < names.len()
        invariant
            i <= names.len(),
            forall|k: int| 0 <= k < i ==> names@[k]@ != name@,
        decreases names.len() - i,
    {
        if text::str_eq(names[i].as_str(), name) {
            proof {
                assert(names_of(names@)[i as int] == name@);
            }
            return true;
        }
        i = i + 1;
    }
    proof {
        if names_of(names@).contains(name@) {
            let k = choose|k: int| 0 <= k < names_of(names@).len() && names_of(names@)[k] == name@;
            assert(names@[k]@ == name@);
        }
    }
    false
}

/// The next ticket of a project whose tickets directory holds `existing`
/// files: numbered one past the largest ticket number there, rendered from
/// `template`.
pub fn create_ticket_with_options(
    project_root: &str,
    existing: &Vec<String>,
    template: &str,
    title: Option<&str>,
    branch: Option<&str>,
) -> (r: Result<TicketDraft, TicketError>)
    requires
        max_ticket_number(names_of(existing@)) < u32::MAX,
    ensures
        ({
            let n = max_ticket_number(names_of(existing@)) + 1;
            let path = text::join_path(dir_of(project_root@), ticket_filename_of(n));
            match r {
                Ok(d) => {
                    &&& !names_of(existing@).contains(ticket_filename_of(n))
                    &&& d.filename@ == ticket_filename_of(n)
                    &&& d.path@ == path
                    &&& d.content@ == rendered(
                        template@,
                        ticket_id_of(n),
                        match title {
                            Some(t) => Some(t@),
                            None => None,
                        },
                        match branch {
                            Some(b) => Some(b@),
                            None => None,
                        },
                    )
                },
                Err(TicketError::TicketExists(p)) => names_of(existing@).contains(
                    ticket_filename_of(n),
                ) && p@ == path,
            }
        }),
{
    let tickets_dir = dir(project_root);
    let number = next_ticket_number(existing);
    let id = ticket_id(number);
    let filename = text::concat(id.as_str(), ".md");
    let path = text::join(tickets_dir.as_str(), filename.as_str());
    if listed(existing, filename.as_str()) {
        return Err(TicketError::TicketExists(path));
    }
    let content = render_template(template, id.as_str(), title, branch);
    Ok(TicketDraft { filename, path, content })
}

/// The next untitled ticket.
pub fn create_ticket(project_root: &str, existing: &Vec<String>, template: &str) -> (r: Result<
    TicketDraft,
    TicketError,
>)
    requires
        max_ticket_number(names_of(existing@)) < u32::MAX,
    ensures
        ({
            let n = max_ticket_number(names_of(existing@)) + 1;
            match r {
                Ok(d) => d.filename@ == ticket_filename_of(n) && d.content@ == rendered(
                    template@,
                    ticket_id_of(n),
                    None,
                    None,
                ) && d.path@ == text::join_path(dir_of(project_root@), ticket_filename_of(n)),
                Err(TicketError::TicketExists(p)) => names_of(existing@).contains(
                    ticket_filename_of(n),
                ),
            }
        }),
{
    create_ticket_with_options(project_root, existing, template, None, None)
}

/// The next ticket, with `title` in its front matter.
pub fn create_ticket_with_title(
    project_root: &str,
    existing: &Vec<String>,
    template: &str,
    title: &str,
) -> (r: Result<TicketDraft, TicketError>)
    requires
        max_ticket_number(names_of(existing@)) < u32::MAX,
    ensures
        ({
            let n = max_ticket_number(names_of(existing@)) + 1;
            match r {
                Ok(d) => d.filename@ == ticket_filename_of(n) && d.content@ == rendered(
                    template@,
                    ticket_id_of(n),
                    Some(title@),
                    None,
                ) && d.path@ == text::join_path(dir_of(project_root@), ticket_filename_of(n)),
                Err(TicketError::TicketExists(p)) => names_of(existing@).contains(
                    ticket_filename_of(n),
                ),
            }
        }),
{
    create_ticket_with_options(project_root, existing, template, Some(title), None)
}

/// The next ticket, with `branch` in its front matter.
pub fn create_ticket_with_branch(
    project_root: &str,
    existing: &Vec<String>,
    template: &str,
    branch: &str,
) -> (r: Result<TicketDraft, TicketError>)
    requires
        max_ticket_number(names_of(existing@)) < u32::MAX,
    ensures
        ({
            let n = max_ticket_number(names_of(existing@)) + 1;
            match r {
                Ok(d) => d.filename@ == ticket_filename_of(n) && d.content@ == rendered(
                    template@,
                    ticket_id_of(n),
                    None,
                    Some(branch@),
                ) && d.path@ == text::join_path(dir_of(project_root@), ticket_filename_of(n)),
                Err(TicketError::TicketExists(p)) => names_of(existing@).contains(
                    ticket_filename_of(n),
                ),
            }
        }),
{
    create_ticket_with_options(project_root, existing, template, None, Some(branch))
}

} // verus!

verus! {

proof fn lemma_nat_digits_value(n: nat)
    ensures
        text::all_digits(text::nat_digits(n)),
        text::digits_value(text::nat_digits(n)) == n,
        text::nat_digits(n).len() > 0,
    decreases n,
{
    let d = text::nat_digits(n);
    if n < 10 {
        assert(d.drop_last() =~= Seq::<char>::empty());
        assert(d.last() == text::digit_char(n));
        assert(text::digit_value(text::digit_char(n)) == n);
        assert(text::digits_value(Seq::<char>::empty()) == 0);
        assert(text::digits_value(d) == text::digits_value(d.drop_last()) * 10 + text::digit_value(d.last()));
    } else {
        lemma_nat_digits_value(n / 10);
        assert(d.drop_last() =~= text::nat_digits(n / 10));
        assert(d.last() == text::digit_char(n % 10));
        assert(text::digit_value(text::digit_char(n % 10)) == n % 10);
        assert(text::digits_value(d) == text::digits_value(d.drop_last()) * 10 + text::digit_value(d.last()));
        assert((n / 10) * 10 + n % 10 == n) by (nonlinear_arith);
        assert forall|i: int| 0 <= i < d.len() implies text::is_digit(d[i]) by {
            if i < d.len() - 1 {
                assert(d[i] == text::nat_digits(n / 10)[i]);
            }
        }
    }
}

proof fn lemma_leading_zeros(z: Seq<char>, d: Seq<char>)
    requires
        forall|i: int| 0 <= i < z.len() ==> z[i] == '0',
    ensures
        text::digits_value(z + d) == text::digits_value(d),
    decreases d.len(),
{
    if d.len() == 0 {
        assert(z + d =~= z);
        lemma_all_zeros(z);
    } else {
        assert((z + d).drop_last() =~= z + d.drop_last());
        assert((z + d).last() == d.last());
        lemma_leading_zeros(z, d.drop_last());
    }
}

proof fn lemma_all_zeros(z: Seq<char>)
    requires
        forall|i: int| 0 <= i < z.len() ==> z[i] == '0',
    ensures
        text::digits_value(z) == 0,
    decreases z.len(),
{
    if z.len() > 0 {
        lemma_all_zeros(z.drop_last());
    }
}

/// Every ticket number reads back from the file name it is written to:
/// `parse_ticket_number` undoes the naming of ticket `n`.
pub proof fn law_ticket_filename_round_trip(n: u32)
    ensures
        ticket_number_of(ticket_filename_of(n as nat)) == Some(n),
{
    let d = text::nat_digits(n as nat);
    let p = text::zero_padded3(n as nat);
    lemma_nat_digits_value(n as nat);
    let z = if d.len() >= 3 {
        Seq::<char>::empty()
    } else {
        Seq::new((3 - d.len()) as nat, |i: int| '0')
    };
    assert(p =~= z + d);
    lemma_leading_zeros(z, d);
    assert(text::all_digits(p)) by {
        assert forall|i: int| 0 <= i < p.len() implies text::is_digit(p[i]) by {
            if i < z.len() {
                assert(p[i] == '0');
            } else {
                assert(p[i] == d[i - z.len()]);
            }
        }
    }
    let f = ticket_filename_of(n as nat);
    reveal_strlit("T-");
    reveal_strlit(".md");
    assert(f =~= seq!['T', '-'] + p + seq!['.', 'm', 'd']);
    assert(text::starts_with(f, "T-"@)) by {
        assert(f.subrange(0, 2) =~= "T-"@);
    }
    let rest = f.subrange(2, f.len() as int);
    assert(rest =~= p + seq!['.', 'm', 'd']);
    assert(text::ends_with(rest, ".md"@)) by {
        assert(rest.subrange(rest.len() - 3, rest.len() as int) =~= ".md"@);
    }
    assert(rest.subrange(0, rest.len() - 3) =~= p);
    assert(p.len() > 0);
    assert(p[0] != '+');
}

proof fn lemma_parsed_below_max(names: Seq<Seq<char>>, i: int)
    requires
        0 <= i < names.len(),
        ticket_number_of(names[i]) is Some,
    ensures
        ticket_number_of(names[i])->0 <= max_ticket_number(names),
    decreases names.len(),
{
    if i < names.len() - 1 {
        lemma_parsed_below_max(names.drop_last(), i);
        assert(names.drop_last()[i] == names[i]);
    }
}

/// A new ticket never reuses a file name that is already there: the name
/// chosen for the next ticket is not among the existing names, so creation
/// never fails for that reason.
pub proof fn law_next_ticket_is_fresh(existing: Seq<Seq<char>>)
    requires
        max_ticket_number(existing) < u32::MAX,
    ensures
        !existing.contains(ticket_filename_of(max_ticket_number(existing) + 1)),
{
    let n = max_ticket_number(existing) + 1;
    if existing.contains(ticket_filename_of(n)) {
        let i = choose|i: int| 0 <= i < existing.len() && existing[i] == ticket_filename_of(n);
        law_ticket_filename_round_trip(n as u32);
        lemma_parsed_below_max(existing, i);
    }
}

} // verus!
