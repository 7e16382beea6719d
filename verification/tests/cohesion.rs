use cohesion_coupling::cohesion::coincidental_cohesion::{greeting, parse_hex_to_u32};
use cohesion_coupling::cohesion::communicational_cohesion::{
    generate_customer_summary, CustomerProfile,
};
use cohesion_coupling::cohesion::logical_cohesion::{
    format_log_message, ConsoleLogger, DatabaseLogger, FileLogger, LogDestination, Logger,
};
use cohesion_coupling::cohesion::procedural_cohesion::{
    assemble_report, fetch_raw_data, format_cover_page, generate_full_report, summarize_data,
};
use cohesion_coupling::cohesion::sequence_cohesion::process_text;

#[test]
fn report_user_profile() {
    let mut profile = CustomerProfile::new(
        "Alice",
        "Smith",
        "alice.smith@example.com",
        "123 Main Street",
    );

    println!("Full Name: {}", profile.get_full_name());
    println!("Mailing Label:\n{}", profile.get_mailing_label());

    assert_eq!(profile.get_full_name(), "Alice Smith");
    assert_eq!(profile.get_mailing_label(), "Alice Smith\n123 Main Street");

    profile.update_email("alice.s@newmail.com");
    println!("New email set, profile is updated.");
}

#[test]
fn logging_to_different_io() {
    let console_line = format_log_message("System started.", LogDestination::Console);
    let file_line = format_log_message("User logged in.", LogDestination::File);
    let database_line = format_log_message(
        "Error: Database connection failed.",
        LogDestination::Database,
    );

    println!("{}", console_line);
    println!("{}", file_line);
    println!("{}", database_line);

    assert_eq!(console_line, "LOG (Console): System started.");
    assert_eq!(file_line, "LOG (File): User logged in.");
    assert_eq!(database_line, "LOG (Database): Error: Database connection failed.");
}

#[test]
fn generating_report() {
    let report = generate_full_report();
    println!("\n--- Generated Report ---\n{}", report);

    assert_eq!(
        report,
        "** Confidential Report **\n\n---\nSummary: 2 items processed.\n---\nData for section 1\nData for section 2"
    );
}

#[test]
fn text_processor() {
    let raw_text = "   Hello World from Rust!   ";
    let processed_text = process_text(raw_text);

    println!("Original: '{}'", raw_text);
    println!("Processed: '{}'", processed_text);
    assert_eq!(processed_text, "hello-world-from-rust!");
}

#[test]
fn parse_hex_accepts_valid_numerals() {
    assert_eq!(parse_hex_to_u32("0"), Some(0));
    assert_eq!(parse_hex_to_u32("ff"), Some(255));
    assert_eq!(parse_hex_to_u32("FF"), Some(255));
    assert_eq!(parse_hex_to_u32("+10"), Some(16));
    assert_eq!(parse_hex_to_u32("DeadBeef"), Some(0xDEAD_BEEF));
    assert_eq!(parse_hex_to_u32("ffffffff"), Some(u32::MAX));
    assert_eq!(parse_hex_to_u32("00000000ff"), Some(255));
}

#[test]
fn parse_hex_rejects_bad_numerals() {
    assert_eq!(parse_hex_to_u32(""), None);
    assert_eq!(parse_hex_to_u32("+"), None);
    assert_eq!(parse_hex_to_u32("++1"), None);
    assert_eq!(parse_hex_to_u32("-1"), None);
    assert_eq!(parse_hex_to_u32("xyz"), None);
    assert_eq!(parse_hex_to_u32("12 34"), None);
    assert_eq!(parse_hex_to_u32("100000000"), None);
}

#[test]
fn parse_hex_matches_std() {
    for s in ["", "+", "0", "ff", "FF", "+10", "ffffffff", "100000000", "g", "0x1"] {
        assert_eq!(parse_hex_to_u32(s), u32::from_str_radix(s, 16).ok());
    }
}

#[test]
fn greeting_line() {
    assert_eq!(greeting("World"), "Hello, World!");
}

#[test]
fn customer_summary() {
    let profile = CustomerProfile::new("Alice", "Smith", "a@example.com", "123 Main Street");
    assert_eq!(
        generate_customer_summary(&profile),
        "Summary for Alice Smith: Last email update was 2 days ago."
    );
}

#[test]
fn loggers_render_their_prefixes() {
    assert_eq!(ConsoleLogger.log("up"), "LOG (Console): up");
    assert_eq!(FileLogger.log("up"), "LOG (File): up");
    assert_eq!(DatabaseLogger.log("up"), "LOG (Database): up");
}

#[test]
fn report_steps_compose() {
    let data = fetch_raw_data();
    assert_eq!(data, vec!["Data for section 1", "Data for section 2"]);

    let cover = format_cover_page();
    assert_eq!(cover, "** Confidential Report **\n");

    let summary = summarize_data(&data);
    assert_eq!(summary, "Summary: 2 items processed.");

    let report = assemble_report(cover, summary, &data);
    assert_eq!(report, generate_full_report());
}

#[test]
fn summarize_counts_items() {
    assert_eq!(summarize_data(&[]), "Summary: 0 items processed.");
    let one = vec!["only entry".to_string()];
    assert_eq!(summarize_data(&one), "Summary: 1 items processed.");
}

#[test]
fn process_text_lowercases_and_hyphenates() {
    assert_eq!(process_text("ABC"), "abc");
    assert_eq!(process_text("  A  B  "), "a--b");
    assert_eq!(process_text(""), "");
    assert_eq!(process_text(" \t\n "), "");
    assert_eq!(process_text("already-done"), "already-done");
}
