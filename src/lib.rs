//! Printer discovery and print-job submission for thermal receipt printers.
//!
//! The library holds the logic that sits between the host's print tools and
//! the application: the commands and scripts that are handed to the host, and
//! the parsers that turn the host's replies into printer lists and job results.

pub mod lp;
pub mod lpstat;
pub mod model;
pub mod powershell;
pub mod printer_json;
pub mod text;

pub use model::{resolve_options, PrintOptions, PrintResult, PrinterInfo};
pub use lpstat::{parse_default_printer, parse_printer_line, parse_printers, printers_from_lpstat};
pub use lp::{build_lp_args, lp_result, parse_job_id, submission_result};
pub use powershell::{build_print_script, escape_path, styled_html, styled_html_for};
pub use printer_json::{
    printers_from_json, printers_from_powershell, printers_from_query, read_printers_json, Json,
    JsonMember,
};
