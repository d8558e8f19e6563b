use printing::{
    build_lp_args, build_print_script, escape_path, lp_result, parse_default_printer,
    parse_job_id, parse_printer_line, parse_printers, printers_from_json, printers_from_lpstat,
    printers_from_powershell, printers_from_query, read_printers_json, resolve_options,
    styled_html, styled_html_for, submission_result, Json, JsonMember, PrintOptions,
};

fn opts(printer: Option<&str>, copies: Option<u32>, width: Option<u32>) -> PrintOptions {
    PrintOptions {
        printer: printer.map(|p| p.to_string()),
        copies,
        silent: Some(true),
        paper_width: width,
    }
}

fn record(members: Vec<(&str, Json)>) -> Json {
    Json::Object(
        members
            .into_iter()
            .map(|(k, v)| JsonMember { key: k.to_string(), value: v })
            .collect(),
    )
}

fn text(s: &str) -> Json {
    Json::Str(s.to_string())
}

#[test]
fn empty_lpstat_reply_lists_no_printers() {
    let ps = printers_from_lpstat("no system default destination\n", "");
    assert!(ps.is_empty());
    let ps = parse_printers("lpstat: No destinations added.\n", &String::new());
    assert!(ps.is_empty());
}

#[test]
fn blank_get_printer_reply_lists_no_printers() {
    let r = printers_from_query(true, "  \r\n", "", Err("EOF while parsing a value at line 2 column 0".to_string()));
    assert_eq!(r.unwrap().len(), 0);
}

#[test]
fn default_printer_is_text_after_colon() {
    assert_eq!(parse_default_printer("system default destination: Receipt_80\n"), "Receipt_80");
    assert_eq!(parse_default_printer("no system default destination"), "");
    assert_eq!(parse_default_printer(":"), "");
}

#[test]
fn record_lines_are_parsed() {
    let out = "printer Receipt_80 is idle.  enabled since Mon 01 Jan\n\
               \tAlerts: none\n\
               printer Kitchen now printing Kitchen-12.  enabled since Mon\n\
               printer Office disabled since Mon -\n";
    let ps = printers_from_lpstat("system default destination: Kitchen", out);
    assert_eq!(ps.len(), 3);
    assert_eq!(ps[0].name, "Receipt_80");
    assert!(!ps[0].is_default);
    assert_eq!(ps[0].status.as_deref(), Some("idle"));
    assert_eq!(ps[1].name, "Kitchen");
    assert!(ps[1].is_default);
    assert_eq!(ps[1].status.as_deref(), Some("printing"));
    assert_eq!(ps[2].name, "Office");
    assert_eq!(ps[2].status, None);
    assert!(ps.iter().all(|p| p.description.is_none()));
}

#[test]
fn record_name_is_second_token_and_default_is_exact() {
    let d = "kitchen".to_string();
    let p = parse_printer_line("printer   Kitchen is idle.\r", &d).unwrap();
    assert_eq!(p.name, "Kitchen");
    assert!(!p.is_default);
    let p = parse_printer_line("printer kitchen is idle.", &d).unwrap();
    assert!(p.is_default);
    assert!(parse_printer_line("printer ", &d).is_none());
    assert!(parse_printer_line("printers Kitchen", &d).is_none());
    assert!(parse_printer_line("device for Kitchen: usb://", &d).is_none());
}

#[test]
fn omitted_options_equal_explicit_defaults() {
    let a = resolve_options(None);
    let b = resolve_options(Some(opts(None, Some(1), Some(80))));
    assert_eq!(a.printer, b.printer);
    assert_eq!(a.copies, b.copies);
    assert_eq!(a.silent, b.silent);
    assert_eq!(a.paper_width, b.paper_width);
    assert_eq!(build_lp_args(&a, "/tmp/x"), build_lp_args(&b, "/tmp/x"));
    assert_eq!(build_print_script(&a, "C:\\t\\x.html"), build_print_script(&b, "C:\\t\\x.html"));
    assert_eq!(styled_html_for("<p>", &a), styled_html_for("<p>", &b));
}

#[test]
fn default_lp_args() {
    let a = resolve_options(None);
    assert_eq!(
        build_lp_args(&a, "/tmp/job"),
        vec!["-o", "media=Custom.80x200mm", "-o", "fit-to-page", "/tmp/job"]
    );
}

#[test]
fn media_directive_follows_width() {
    let w58 = build_lp_args(&opts(None, None, Some(58)), "/f");
    assert_eq!(w58, vec!["-o", "media=Custom.58x200mm", "-o", "fit-to-page", "/f"]);
    let w100 = build_lp_args(&opts(None, None, Some(100)), "/f");
    assert_eq!(w100, vec!["-o", "fit-to-page", "/f"]);
    let w80 = build_lp_args(&opts(None, None, None), "/f");
    assert!(w80.contains(&"media=Custom.80x200mm".to_string()));
}

#[test]
fn copies_argument_only_above_one() {
    let one = build_lp_args(&opts(Some("P"), Some(1), Some(80)), "/f");
    assert_eq!(one, vec!["-d", "P", "-o", "media=Custom.80x200mm", "-o", "fit-to-page", "/f"]);
    let zero = build_lp_args(&opts(None, Some(0), Some(80)), "/f");
    assert!(!zero.contains(&"-n".to_string()));
    let three = build_lp_args(&opts(Some("P"), Some(3), Some(58)), "/f");
    assert_eq!(
        three,
        vec!["-d", "P", "-n", "3", "-o", "media=Custom.58x200mm", "-o", "fit-to-page", "/f"]
    );
    let many = build_lp_args(&opts(None, Some(4294967295), Some(1)), "/f");
    assert_eq!(many, vec!["-n", "4294967295", "-o", "fit-to-page", "/f"]);
}

#[test]
fn job_id_follows_marker() {
    assert_eq!(
        parse_job_id("request id is Receipt_80-123 (1 file(s))\n").as_deref(),
        Some("Receipt_80-123")
    );
    assert_eq!(parse_job_id("no id here"), None);
    assert_eq!(parse_job_id("request id is   "), None);
}

#[test]
fn failed_submission_has_error_and_no_job() {
    let r = lp_result(false, "request id is P-1 (1 file(s))", "lp: The printer or class does not exist.\n");
    assert!(!r.success);
    assert_eq!(r.error.as_deref(), Some("lp: The printer or class does not exist."));
    assert_eq!(r.job_id, None);
    let r = lp_result(false, "", "  \n");
    assert!(!r.success);
    assert_eq!(r.error.as_deref(), Some("Print command failed"));
    let r = submission_result(false, Some("x".to_string()), "");
    assert_eq!(r.job_id, None);
    assert!(!r.error.unwrap().is_empty());
}

#[test]
fn successful_submission_has_no_error() {
    let r = lp_result(true, "request id is P-7 (1 file(s))", "warning");
    assert!(r.success);
    assert_eq!(r.error, None);
    assert_eq!(r.job_id.as_deref(), Some("P-7"));
    let r = submission_result(true, None, "");
    assert!(r.success);
    assert_eq!(r.error, None);
    assert_eq!(r.job_id, None);
}

#[test]
fn enumerate_then_print_to_first_printer() {
    let ps = printers_from_lpstat(
        "system default destination: Bar",
        "printer Bar is idle.  enabled since Tue\n",
    );
    assert!(!ps.is_empty());
    let mut o = resolve_options(None);
    o.printer = Some(ps[0].name.clone());
    let args = build_lp_args(&o, "/tmp/receipt");
    assert_eq!(&args[0..2], &["-d".to_string(), "Bar".to_string()]);
    let r = lp_result(true, "request id is Bar-1 (1 file(s))", "");
    assert!(r.success);
    assert_eq!(r.error, None);
}

#[test]
fn backslashes_are_doubled_in_scripts() {
    assert_eq!(escape_path("C:\\Temp\\a.html"), "C:\\\\Temp\\\\a.html");
    assert_eq!(escape_path("plain"), "plain");
    let p = "\\\\server\\share\\x\\\\y.html";
    assert_eq!(escape_path(p).replace("\\\\", "\\"), p);
    let s = build_print_script(&opts(None, None, None), "C:\\Temp\\x.html");
    assert_eq!(
        s,
        "\n            Start-Process -FilePath \"C:\\\\Temp\\\\x.html\" -Verb Print -Wait\n            "
    );
    let t = build_print_script(&opts(Some("P"), Some(2), None), "C:\\T\\y.html");
    assert!(t.contains("$ie.Navigate(\"C:\\\\T\\\\y.html\")"));
    assert!(t.contains("$i -lt 2;"));
    assert!(!t.contains("C:\\T"));
    assert!(t.starts_with("\n            $ie = New-Object -ComObject InternetExplorer.Application\n"));
    assert!(t.ends_with("$ie.Quit()\n            "));
}

#[test]
fn styled_page_uses_width() {
    let h = styled_html("<b>Total</b>", 58);
    assert_eq!(
        h,
        "<!DOCTYPE html>\n<html>\n<head>\n<style>\n@page {\n    size: 58mm auto;\n    margin: 0;\n}\n@media print {\n    body {\n        width: 58mm;\n        margin: 0;\n        padding: 2mm;\n    }\n}\n</style>\n</head>\n<body>\n<b>Total</b>\n</body>\n</html>"
    );
}

#[test]
fn json_list_and_single_object() {
    let list = Json::Array(vec![
        record(vec![("Name", text("A")), ("DriverName", text("Drv")), ("Default", Json::Bool(true))]),
        record(vec![("DriverName", Json::Null), ("Name", text("B")), ("Port", Json::Number("9100".to_string()))]),
    ]);
    let ps = printers_from_json(&list).unwrap();
    assert_eq!(ps.len(), 2);
    assert_eq!(ps[0].name, "A");
    assert!(ps[0].is_default);
    assert_eq!(ps[0].description.as_deref(), Some("Drv"));
    assert_eq!(ps[1].name, "B");
    assert_eq!(ps[1].description, None);
    assert!(!ps[1].is_default);
    let single = record(vec![("Name", text("Only")), ("Default", Json::Bool(false))]);
    let ps = printers_from_json(&single).unwrap();
    assert_eq!(ps.len(), 1);
    assert_eq!(ps[0].name, "Only");
}

#[test]
fn json_of_wrong_shape_is_an_error() {
    let expected = "expected an array of printer records or a single printer record";
    let bad = Json::Array(vec![record(vec![("Name", text("A"))]), Json::Null]);
    assert_eq!(printers_from_json(&bad).unwrap_err(), expected);
    let bad_name = record(vec![("Name", Json::Number("5".to_string()))]);
    assert_eq!(printers_from_json(&bad_name).unwrap_err(), expected);
    let bad_default = record(vec![("Name", text("A")), ("Default", text("yes"))]);
    assert!(printers_from_json(&bad_default).is_err());
    assert!(printers_from_json(&Json::Bool(true)).is_err());
    let r = printers_from_query(true, "oops", "", Err("expected value at line 1 column 1".to_string()));
    assert_eq!(
        r.unwrap_err(),
        "Failed to parse printer list: expected value at line 1 column 1 - Output: oops"
    );
    let r = printers_from_query(true, "true", "", Ok(Json::Bool(true)));
    assert_eq!(
        r.unwrap_err(),
        format!("Failed to parse printer list: {} - Output: true", expected)
    );
    let r = printers_from_query(false, "", "denied", Ok(Json::Null));
    assert_eq!(r.unwrap_err(), "PowerShell command failed: denied");
}

#[test]
fn get_printer_json_array() {
    let out = "[\r\n  {\"Name\": \"Receipt\", \"DriverName\": \"Generic / Text Only\", \"Default\": true},\r\n  {\"Name\": \"PDF\", \"DriverName\": null, \"Default\": false}\r\n]\r\n";
    let ps = printers_from_powershell(true, out, "").unwrap();
    assert_eq!(ps.len(), 2);
    assert_eq!(ps[0].name, "Receipt");
    assert_eq!(ps[0].description.as_deref(), Some("Generic / Text Only"));
    assert!(ps[0].is_default);
    assert_eq!(ps[1].name, "PDF");
    assert_eq!(ps[1].description, None);
    assert!(!ps[1].is_default);
    assert!(ps.iter().all(|p| p.status.is_none()));
}

#[test]
fn get_printer_json_single_object() {
    let out = "{\"Name\": \"Solo\", \"DriverName\": \"Drv\", \"Default\": false, \"Extra\": [1, 2]}";
    let ps = printers_from_powershell(true, out, "").unwrap();
    assert_eq!(ps.len(), 1);
    assert_eq!(ps[0].name, "Solo");
    assert_eq!(read_printers_json(out).unwrap()[0].description.as_deref(), Some("Drv"));
}

#[test]
fn get_printer_json_errors() {
    let r = printers_from_powershell(true, "not json", "");
    let m = r.unwrap_err();
    assert!(m.starts_with("Failed to parse printer list: "));
    assert!(m.ends_with(" - Output: not json"));
    assert!(m.len() > "Failed to parse printer list:  - Output: not json".len());
    let r = printers_from_powershell(true, "[{\"DriverName\":\"d\"}]", "");
    assert!(r.unwrap_err().starts_with("Failed to parse printer list: "));
    let r = printers_from_powershell(true, "[{\"Name\": 5}]", "");
    assert!(r.is_err());
    let r = printers_from_powershell(true, "[1, 2]", "");
    assert!(r.is_err());
    let r = printers_from_powershell(false, "[]", "Access denied");
    assert_eq!(r.unwrap_err(), "PowerShell command failed: Access denied");
    assert!(read_printers_json("42").is_err());
    let ps = printers_from_powershell(true, "[]", "").unwrap();
    assert!(ps.is_empty());
    let ps = printers_from_powershell(true, "\r\n", "").unwrap();
    assert!(ps.is_empty());
}
