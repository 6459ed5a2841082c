//! The printers: what each output format makes of a dictionary of values.
//!
//! A printer here produces the text. Writing it to a file or to the
//! terminal, and running the PDF tool, is left to the caller.

use crate::config::Config;
use crate::dict::FieldDict;
use crate::fdf::fdf_generator::{fdf_document, write_fdf, write_xfdf, xfdf_document, FdfData};
use crate::format::utils::{fill_template, filled};
use vstd::prelude::*;
use vstd::string::StringExecFns;

verus! {

/// Something that turns a dictionary of values into a text.
pub trait Printer {
    /// The text that the printer makes of a dictionary.
    spec fn printed(&self, data: Seq<(Seq<char>, Seq<char>)>) -> Seq<char>;

    /// Prints a dictionary.
    fn print(&self, data: FieldDict) -> (text: String)
        ensures
            text@ == self.printed(data@),
    ;
}

/// Prints the values as an FDF document.
pub struct FdfPrinter {}

/// Prints the values as an XFDF document.
pub struct XfdfPrinter {}

/// Prints the values into a text template.
pub struct StdoutPrinter {
    pub output_template: String,
}

/// Fills a PDF form: the values go to the PDF tool as an XFDF document.
pub struct PdfPrinter<'a> {
    pub config: &'a Config,
    /// The PDF form that is filled.
    pub source_pdf: String,
    pub xfdf_printer: &'a XfdfPrinter,
}

impl Printer for FdfPrinter {
    open spec fn printed(&self, data: Seq<(Seq<char>, Seq<char>)>) -> Seq<char> {
        fdf_document(data)
    }

    fn print(&self, data: FieldDict) -> (text: String) {
        write_fdf(FdfData::from_dict(data))
    }
}

impl Printer for XfdfPrinter {
    open spec fn printed(&self, data: Seq<(Seq<char>, Seq<char>)>) -> Seq<char> {
        xfdf_document(data)
    }

    fn print(&self, data: FieldDict) -> (text: String) {
        write_xfdf(FdfData::from_dict(data))
    }
}

impl Printer for StdoutPrinter {
    open spec fn printed(&self, data: Seq<(Seq<char>, Seq<char>)>) -> Seq<char> {
        filled(self.output_template@, data, data.len())
    }

    fn print(&self, data: FieldDict) -> (text: String) {
        fill_template(self.output_template.clone(), data)
    }
}

impl<'a> Printer for PdfPrinter<'a> {
    open spec fn printed(&self, data: Seq<(Seq<char>, Seq<char>)>) -> Seq<char> {
        xfdf_document(data)
    }

    fn print(&self, data: FieldDict) -> (text: String) {
        self.xfdf_printer.print(data)
    }
}

/// The arguments with which the PDF tool fills `source_pdf` from the values
/// in `values_file` and writes the result to `output_file`.
pub open spec fn fill_form_arguments(
    source_pdf: Seq<char>,
    values_file: Seq<char>,
    output_file: Seq<char>,
) -> Seq<Seq<char>> {
    seq![source_pdf, "fill_form"@, values_file, "output"@, output_file]
}

impl<'a> PdfPrinter<'a> {
    /// The program that fills the form.
    pub fn program(&self) -> (path: &String)
        ensures
            path@ == self.config.pdf.pdftk_path@,
    {
        &self.config.pdf.pdftk_path
    }

    /// The arguments for the PDF tool.
    pub fn arguments(&self, values_file: &str, output_file: &str) -> (args: Vec<String>)
        ensures
            args@.len() == 5,
            forall|i: int|
                0 <= i < 5 ==> (#[trigger] args@[i])@ == fill_form_arguments(
                    self.source_pdf@,
                    values_file@,
                    output_file@,
                )[i],
    {
        let mut args: Vec<String> = Vec::new();
        args.push(self.source_pdf.clone());
        args.push(String::from_str("fill_form"));
        args.push(String::from_str(values_file));
        args.push(String::from_str("output"));
        args.push(String::from_str(output_file));
        args
    }
}

} // verus!
