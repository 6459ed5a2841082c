//! Output formats and what is written in each of them.

use vstd::prelude::*;
use vstd::string::StringExecFns;

pub mod printer;
pub mod utils;

verus! {

/// The formats in which a filled form or a tax breakdown can be written.
#[derive(PartialEq, Eq, Clone, Copy, Debug, Structural)]
pub enum OutputFormat {
    Pdf,
    Fdf,
    Xfdf,
    Json,
    Stdout,
}

/// The name of a format, which is also the extension of its files.
pub open spec fn format_name(format: OutputFormat) -> Seq<char> {
    match format {
        OutputFormat::Pdf => "pdf"@,
        OutputFormat::Fdf => "fdf"@,
        OutputFormat::Xfdf => "xfdf"@,
        OutputFormat::Json => "json"@,
        OutputFormat::Stdout => "stdout"@,
    }
}

/// The format that a name stands for, if any. Names are lower case.
pub open spec fn format_named(name: Seq<char>) -> Option<OutputFormat> {
    if name == "pdf"@ {
        Some(OutputFormat::Pdf)
    } else if name == "fdf"@ {
        Some(OutputFormat::Fdf)
    } else if name == "xfdf"@ {
        Some(OutputFormat::Xfdf)
    } else if name == "json"@ {
        Some(OutputFormat::Json)
    } else if name == "stdout"@ {
        Some(OutputFormat::Stdout)
    } else {
        None
    }
}

/// Whether two strings hold the same characters.
pub fn same_text(a: &str, b: &str) -> (same: bool)
    ensures
        same == (a@ == b@),
{
    let n: usize = a.unicode_len();
    if n != b.unicode_len() {
        return false;
    }
    let mut i: usize = 0;
    while i < n
        invariant
            n == a@.len(),
            n == b@.len(),
            i <= n,
            forall|j: int| 0 <= j < i ==> a@[j] == b@[j],
        decreases n - i,
    {
        if a.get_char(i) != b.get_char(i) {
            return false;
        }
        i += 1;
    }
    assert(a@ =~= b@);
    true
}

impl OutputFormat {
    /// The name of the format.
    pub fn name(&self) -> (s: &'static str)
        ensures
            s@ == format_name(*self),
    {
        match self {
            OutputFormat::Pdf => "pdf",
            OutputFormat::Fdf => "fdf",
            OutputFormat::Xfdf => "xfdf",
            OutputFormat::Json => "json",
            OutputFormat::Stdout => "stdout",
        }
    }

    /// The name of the format as an owned string.
    pub fn to_string(&self) -> (s: String)
        ensures
            s@ == format_name(*self),
    {
        String::from_str(self.name())
    }

    /// Reads a format from its name. Any other text, a name in upper case
    /// included, is refused with a message.
    pub fn from_str(s: &str) -> (r: Result<OutputFormat, String>)
        ensures
            match format_named(s@) {
                Some(format) => r == Ok::<OutputFormat, String>(format),
                None => r is Err && r->Err_0@ == "Unknown format passed!"@,
            },
    {
        if same_text(s, "pdf") {
            Ok(OutputFormat::Pdf)
        } else if same_text(s, "fdf") {
            Ok(OutputFormat::Fdf)
        } else if same_text(s, "xfdf") {
            Ok(OutputFormat::Xfdf)
        } else if same_text(s, "json") {
            Ok(OutputFormat::Json)
        } else if same_text(s, "stdout") {
            Ok(OutputFormat::Stdout)
        } else {
            Err(String::from_str("Unknown format passed!"))
        }
    }
}

/// Reading the name of a format gives the format back.
pub proof fn lemma_format_name_is_read_back(format: OutputFormat)
    ensures
        format_named(format_name(format)) == Some(format),
{
    reveal_strlit("pdf");
    reveal_strlit("fdf");
    reveal_strlit("xfdf");
    reveal_strlit("json");
    reveal_strlit("stdout");
    match format {
        OutputFormat::Pdf => {},
        OutputFormat::Fdf => {
            assert("fdf"@[0] != "pdf"@[0]);
        },
        OutputFormat::Xfdf => {
            assert("xfdf"@.len() != "pdf"@.len());
        },
        OutputFormat::Json => {
            assert("json"@.len() != "pdf"@.len());
            assert("json"@[0] != "xfdf"@[0]);
        },
        OutputFormat::Stdout => {
            assert("stdout"@.len() != "pdf"@.len());
            assert("stdout"@.len() != "xfdf"@.len());
        },
    }
}

} // verus!
