use agentctl::domain::tickets::{
    create_ticket, create_ticket_with_branch, create_ticket_with_options, create_ticket_with_title, dir,
    next_ticket_number, parse_ticket_number, render_template, ticket_id, TicketError,
};

const TEMPLATE: &str = "---\nid: '001'\ntitle: Short Title\nbranch: feat/your-branch-name\n---\n";

fn names(list: &[&str]) -> Vec<String> {
    list.iter().map(|s| s.to_string()).collect()
}

#[test]
fn creates_first_ticket_as_t001() {
    let draft = create_ticket("/p", &names(&[]), TEMPLATE).unwrap();
    assert_eq!(draft.filename, "T-001.md");
    assert_eq!(draft.path, "/p/.agents/tickets/T-001.md");
}

#[test]
fn increments_ticket_number() {
    let draft = create_ticket("/p", &names(&["T-001.md"]), TEMPLATE).unwrap();
    assert_eq!(draft.filename, "T-002.md");
}

#[test]
fn create_ticket_with_title_substitutes_placeholder() {
    let draft = create_ticket_with_title("/p", &names(&[]), TEMPLATE, "Add login feature").unwrap();
    assert!(draft.content.contains("title: \"Add login feature\""));
}

#[test]
fn create_ticket_with_branch_substitutes_placeholder() {
    let draft = create_ticket_with_branch("/p", &names(&[]), TEMPLATE, "feat/my-branch").unwrap();
    assert!(draft.content.contains("branch: feat/my-branch"));
}

#[test]
fn parse_ticket_number_handles_valid_filenames() {
    assert_eq!(parse_ticket_number("T-001.md"), Some(1));
    assert_eq!(parse_ticket_number("T-042.md"), Some(42));
}

#[test]
fn parse_ticket_number_rejects_invalid_filenames() {
    assert_eq!(parse_ticket_number("README.md"), None);
    assert_eq!(parse_ticket_number("T-abc.md"), None);
}

#[test]
fn parse_ticket_number_follows_integer_parsing() {
    assert_eq!(parse_ticket_number("T-+7.md"), Some(7));
    assert_eq!(parse_ticket_number("T-.md"), None);
    assert_eq!(parse_ticket_number("T--1.md"), None);
    assert_eq!(parse_ticket_number("T-4294967295.md"), Some(u32::MAX));
    assert_eq!(parse_ticket_number("T-4294967296.md"), None);
    assert_eq!(parse_ticket_number("T-1000.md"), Some(1000));
}

#[test]
fn ticket_ids_pad_to_three_digits() {
    assert_eq!(ticket_id(7), "T-007");
    assert_eq!(ticket_id(42), "T-042");
    assert_eq!(ticket_id(1234), "T-1234");
    assert_eq!(parse_ticket_number(&format!("{}.md", ticket_id(1234))), Some(1234));
}

#[test]
fn next_number_skips_past_the_largest_ticket() {
    assert_eq!(next_ticket_number(&names(&["T-003.md", "notes.md", "T-010.md", "T-002.md"])), 11);
    let draft = create_ticket("/p", &names(&["T-009.md", "T-010.md"]), TEMPLATE).unwrap();
    assert_eq!(draft.filename, "T-011.md");
}

#[test]
fn render_template_fills_id_title_and_branch() {
    let out = render_template(TEMPLATE, "T-012", Some("  Say \"hi\" \\ now\nsecond line"), Some("  feat/x "));
    assert!(out.contains("id: '012'"));
    assert!(out.contains("title: \"Say \\\"hi\\\" \\\\ now\""));
    assert!(out.contains("branch: feat/x\n"));
    let blank = render_template(TEMPLATE, "T-012", Some("   "), Some(" "));
    assert!(blank.contains("title: Short Title"));
    assert!(blank.contains("branch: feat/your-branch-name"));
}

#[test]
fn tickets_dir_is_under_agents() {
    assert_eq!(dir("/p"), "/p/.agents/tickets");
}

#[test]
fn ticket_error_message() {
    let e = TicketError::TicketExists("/p/.agents/tickets/T-001.md".to_string());
    assert_eq!(e.message(), "Ticket already exists: /p/.agents/tickets/T-001.md");
    assert!(create_ticket_with_options("/p", &names(&["T-1.md"]), TEMPLATE, None, None).is_ok());
}
