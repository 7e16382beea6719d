use cohesion_coupling::coupling::content_coupling::{Reportable, Storage};
use cohesion_coupling::coupling::control_coupling::{format_data, generate_report, Format};
use cohesion_coupling::coupling::formatters;
use cohesion_coupling::coupling::formatters::{Formatter, HtmlFormatter, PlainTextFormatter};
use cohesion_coupling::coupling::stamp_coupling::{telemetry_line, Record};

fn report_view_code<T>(rp: T) -> usize
where
    T: Reportable,
{
    rp.view_count()
}

#[test]
fn external_library() {
    let storage: Storage = Storage::default();

    let report = storage.view_count_report();
    println!("{}", report);

    let rule_40 = "-".repeat(40);
    let rule_37 = "-".repeat(37);
    assert_eq!(
        report,
        format!(
            "{} Reporting {}\nTotal view count is :0\n{} End of Reporting {}",
            rule_40, rule_40, rule_37, rule_37
        )
    );
}

#[test]
fn external_library_contract() {
    let storage: Storage = Storage::default();

    let count = report_view_code(storage);
    println!("Total view count is : {}", count);

    assert_eq!(count, 0);
}

#[test]
fn caller_dictate_callee() {
    let plain_report = generate_report(Format::PlainText);
    println!("{}", plain_report);

    let html_report = generate_report(Format::Html);
    println!("{}", html_report);

    assert_eq!(plain_report, "Some report data");
    assert_eq!(html_report, "<p>Some report data</p>");
}

#[test]
fn sending_telemry() {
    let record = Record {
        id: 1,
        name: "John".to_string(),
        email: "john@mail.com".to_string(),
        address: "US".to_string(),
    };

    let line = telemetry_line(&record);
    println!("{}", line);
    assert_eq!(line, "Sending record with 1 id");
}

#[test]
fn format_data_dispatches_on_flag() {
    assert_eq!(format_data("x".to_string(), Format::PlainText), "x");
    assert_eq!(format_data("x".to_string(), Format::Html), "<p>x</p>");
}

#[test]
fn formatters_behind_the_trait() {
    assert_eq!(PlainTextFormatter.format("data"), "data");
    assert_eq!(HtmlFormatter.format("data"), "<p>data</p>");
    assert_eq!(
        formatters::generate_report(&PlainTextFormatter),
        "Some report data"
    );
    assert_eq!(
        formatters::generate_report(&HtmlFormatter),
        "<p>Some report data</p>"
    );
}

#[test]
fn telemetry_uses_only_the_id() {
    let record = Record {
        id: 18446744073709551615,
        name: String::new(),
        email: String::new(),
        address: String::new(),
    };
    assert_eq!(
        telemetry_line(&record),
        "Sending record with 18446744073709551615 id"
    );
}
