//! The data that the library hands to and takes from its callers.

use vstd::prelude::*;

verus! {

/// A printer as the host reports it.
#[derive(Clone, Debug)]
pub struct PrinterInfo {
    /// Name of the printer, used to address it when printing.
    pub name: String,
    /// Whether the host names this printer as its default.
    pub is_default: bool,
    /// Description or driver name, where the host gives one.
    pub description: Option<String>,
    /// Status, where the host's reply shows one.
    pub status: Option<String>,
}

/// Outcome of one print submission.
#[derive(Clone, Debug)]
pub struct PrintResult {
    /// Whether the host accepted the job.
    pub success: bool,
    /// The host's diagnostic when it did not.
    pub error: Option<String>,
    /// Job identifier, where the host returned one.
    pub job_id: Option<String>,
}

/// Options of a print submission.
#[derive(Clone, Debug)]
pub struct PrintOptions {
    /// Target printer; the host's default printer when absent.
    pub printer: Option<String>,
    /// Number of copies; one when absent.
    pub copies: Option<u32>,
    /// Whether to print without a dialog.
    pub silent: Option<bool>,
    /// Paper width in millimetres; 80 when absent.
    pub paper_width: Option<u32>,
}

/// Abstract value of a [`PrinterInfo`].
pub ghost struct PrinterModel {
    pub name: Seq<char>,
    pub is_default: bool,
    pub description: Option<Seq<char>>,
    pub status: Option<Seq<char>>,
}

/// Abstract value of a [`PrintResult`].
pub ghost struct ResultModel {
    pub success: bool,
    pub error: Option<Seq<char>>,
    pub job_id: Option<Seq<char>>,
}

/// Abstract value of [`PrintOptions`].
pub ghost struct OptionsModel {
    pub printer: Option<Seq<char>>,
    pub copies: Option<u32>,
    pub silent: Option<bool>,
    pub paper_width: Option<u32>,
}

/// The characters of an optional string.
pub open spec fn opt_view(o: Option<String>) -> Option<Seq<char>> {
    match o {
        Some(s) => Some(s@),
        None => None,
    }
}

impl View for PrinterInfo {
    type V = PrinterModel;

    open spec fn view(&self) -> PrinterModel {
        PrinterModel {
            name: self.name@,
            is_default: self.is_default,
            description: opt_view(self.description),
            status: opt_view(self.status),
        }
    }
}

impl View for PrintResult {
    type V = ResultModel;

    open spec fn view(&self) -> ResultModel {
        ResultModel { success: self.success, error: opt_view(self.error), job_id: opt_view(self.job_id) }
    }
}

impl View for PrintOptions {
    type V = OptionsModel;

    open spec fn view(&self) -> OptionsModel {
        OptionsModel {
            printer: opt_view(self.printer),
            copies: self.copies,
            silent: self.silent,
            paper_width: self.paper_width,
        }
    }
}

/// The abstract values of a list of printers.
pub open spec fn printers_view(ps: Seq<PrinterInfo>) -> Seq<PrinterModel> {
    ps.map_values(|p: PrinterInfo| p@)
}

/// Options used when a caller gives none: the default printer, one copy,
/// silent, 80 mm paper.
pub open spec fn default_options() -> OptionsModel {
    OptionsModel { printer: None, copies: Some(1), silent: Some(true), paper_width: Some(80) }
}

/// The options that a print call works with: the caller's, or the defaults.
pub open spec fn effective_options(options: Option<OptionsModel>) -> OptionsModel {
    match options {
        Some(o) => o,
        None => default_options(),
    }
}

impl PrintOptions {
    /// Options used when a caller gives none.
    pub fn defaults() -> (r: PrintOptions)
        ensures
            r@ == default_options(),
    {
        PrintOptions { printer: None, copies: Some(1), silent: Some(true), paper_width: Some(80) }
    }

    /// Number of copies asked for, one when absent.
    pub fn copies_or_one(&self) -> (r: u32)
        ensures
            r == copies_of(self@),
    {
        match self.copies {
            Some(c) => c,
            None => 1,
        }
    }

    /// Paper width asked for, 80 mm when absent.
    pub fn width_or_default(&self) -> (r: u32)
        ensures
            r == width_of(self@),
    {
        match self.paper_width {
            Some(w) => w,
            None => 80,
        }
    }
}

/// Number of copies that options ask for.
pub open spec fn copies_of(o: OptionsModel) -> u32 {
    match o.copies {
        Some(c) => c,
        None => 1,
    }
}

/// Paper width that options ask for.
pub open spec fn width_of(o: OptionsModel) -> u32 {
    match o.paper_width {
        Some(w) => w,
        None => 80,
    }
}

/// Options given by the caller, or the defaults when none were given.
pub fn resolve_options(options: Option<PrintOptions>) -> (r: PrintOptions)
    ensures
        r@ == effective_options(
            match options {
                Some(o) => Some(o@),
                None => None,
            },
        ),
{
    match options {
        Some(o) => o,
        None => PrintOptions::defaults(),
    }
}

} // verus!

verus! {

/// Printing with no options is printing with the default printer, one copy,
/// silent, on 80 mm paper, given explicitly.
pub proof fn lemma_omitted_options_are_defaults()
    ensures
        effective_options(None) == effective_options(
            Some(
                OptionsModel {
                    printer: None,
                    copies: Some(1u32),
                    silent: Some(true),
                    paper_width: Some(80u32),
                },
            ),
        ),
{
}

} // verus!
