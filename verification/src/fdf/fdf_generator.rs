//! The FDF and XFDF documents of a list of field values.
//!
//! Titles and values are written as they are: nothing is escaped, so a title
//! may carry a character reference of its own.

use crate::dict::FieldDict;
use vstd::prelude::*;
use vstd::string::StringExecFns;

verus! {

/// The field values of a form, in the order in which they are written.
pub struct FdfData {
    pub entries: Vec<FdfDataEntry>,
}

/// One field value: the name of the field and what it holds.
pub struct FdfDataEntry {
    pub title: String,
    pub value: String,
}

impl View for FdfDataEntry {
    type V = (Seq<char>, Seq<char>);

    open spec fn view(&self) -> (Seq<char>, Seq<char>) {
        (self.title@, self.value@)
    }
}

impl View for FdfData {
    type V = Seq<(Seq<char>, Seq<char>)>;

    open spec fn view(&self) -> Seq<(Seq<char>, Seq<char>)> {
        Seq::new(self.entries@.len(), |i: int| self.entries@[i]@)
    }
}

/// What stands before the fields of an FDF document.
pub open spec fn fdf_header() -> Seq<char> {
    "%FDF-1.2\n1 0 obj<</FDF<< /Fields[\n"@
}

/// What stands after the fields of an FDF document.
pub open spec fn fdf_footer() -> Seq<char> {
    "] >> >>\nendobj\ntrailer\n<</Root 1 0 R>>\n%%EOF"@
}

/// The line of one field in an FDF document.
pub open spec fn fdf_line(entry: (Seq<char>, Seq<char>)) -> Seq<char> {
    "<</T("@ + entry.0 + ")/V("@ + entry.1 + ")>>\n"@
}

/// The lines of the first `n` fields.
pub open spec fn fdf_lines(entries: Seq<(Seq<char>, Seq<char>)>, n: nat) -> Seq<char>
    decreases n,
{
    if n == 0 {
        Seq::empty()
    } else {
        fdf_lines(entries, (n - 1) as nat) + fdf_line(entries[n - 1])
    }
}

/// The FDF document of a list of field values.
pub open spec fn fdf_document(entries: Seq<(Seq<char>, Seq<char>)>) -> Seq<char> {
    fdf_header() + fdf_lines(entries, entries.len()) + fdf_footer()
}

/// What stands before the fields of an XFDF document.
pub open spec fn xfdf_header() -> Seq<char> {
    "<?xml version=\"1.0\" encoding=\"UTF-8\"?>\n<xfdf xmlns=\"http://ns.adobe.com/xfdf/\" xml:space=\"preserve\">\n<fields>\n"@
}

/// What stands after the fields of an XFDF document.
pub open spec fn xfdf_footer() -> Seq<char> {
    "</fields>\n</xfdf>\n"@
}

/// The line of one field in an XFDF document.
pub open spec fn xfdf_line(entry: (Seq<char>, Seq<char>)) -> Seq<char> {
    "<field name=\""@ + entry.0 + "\"><value>"@ + entry.1 + "</value></field>\n"@
}

/// The lines of the first `n` fields.
pub open spec fn xfdf_lines(entries: Seq<(Seq<char>, Seq<char>)>, n: nat) -> Seq<char>
    decreases n,
{
    if n == 0 {
        Seq::empty()
    } else {
        xfdf_lines(entries, (n - 1) as nat) + xfdf_line(entries[n - 1])
    }
}

/// The XFDF document of a list of field values.
pub open spec fn xfdf_document(entries: Seq<(Seq<char>, Seq<char>)>) -> Seq<char> {
    xfdf_header() + xfdf_lines(entries, entries.len()) + xfdf_footer()
}

impl FdfData {
    /// The list without any field value.
    pub fn new() -> (data: FdfData)
        ensures
            data@ == Seq::<(Seq<char>, Seq<char>)>::empty(),
    {
        let data = FdfData { entries: Vec::new() };
        assert(data@ =~= Seq::<(Seq<char>, Seq<char>)>::empty());
        data
    }

    /// The field values of a dictionary, in its order.
    pub fn from_dict(dict: FieldDict) -> (data: FdfData)
        ensures
            data@ == dict@,
    {
        let mut entries: Vec<FdfDataEntry> = Vec::new();
        let n: usize = dict.len();
        let mut i: usize = 0;
        while i < n
            invariant
                i <= n,
                n == dict@.len(),
                entries@.len() == i,
                forall|j: int| 0 <= j < i ==> (#[trigger] entries@[j])@ == dict@[j],
            decreases n - i,
        {
            match dict.entry(i) {
                Some(entry) => {
                    entries.push(
                        FdfDataEntry { title: entry.key.clone(), value: entry.value.clone() },
                    );
                },
                None => {},
            }
            i += 1;
        }
        let data = FdfData { entries };
        assert(data@ =~= dict@);
        data
    }

    /// Adds a field value at the end.
    pub fn add_entry(&mut self, title: String, value: String)
        ensures
            final(self)@ == old(self)@.push((title@, value@)),
    {
        let entry = FdfDataEntry { title, value };
        self.entries.push(entry);
        assert(self@ =~= old(self)@.push((title@, value@)));
    }
}

/// The FDF document of the field values: the header, one line for each
/// field, and the footer.
pub fn write_fdf(data: FdfData) -> (text: String)
    ensures
        text@ == fdf_document(data@),
{
    let mut text = String::from_str("%FDF-1.2\n1 0 obj<</FDF<< /Fields[\n");
    let n: usize = data.entries.len();
    let mut i: usize = 0;
    while i < n
        invariant
            i <= n,
            n == data.entries@.len(),
            n == data@.len(),
            text@ == fdf_header() + fdf_lines(data@, i as nat),
        decreases n - i,
    {
        let ghost before = text@;
        text.append("<</T(");
        text.append(data.entries[i].title.as_str());
        text.append(")/V(");
        text.append(data.entries[i].value.as_str());
        text.append(")>>\n");
        assert(text@ =~= before + fdf_line(data@[i as int]));
        assert(before + fdf_line(data@[i as int]) =~= fdf_header() + fdf_lines(
            data@,
            (i + 1) as nat,
        ));
        i += 1;
    }
    text.append("] >> >>\nendobj\ntrailer\n<</Root 1 0 R>>\n%%EOF");
    text
}

/// The XFDF document of the field values: the header, one line for each
/// field, and the footer.
pub fn write_xfdf(data: FdfData) -> (text: String)
    ensures
        text@ == xfdf_document(data@),
{
    let mut text = String::from_str(
        "<?xml version=\"1.0\" encoding=\"UTF-8\"?>\n<xfdf xmlns=\"http://ns.adobe.com/xfdf/\" xml:space=\"preserve\">\n<fields>\n",
    );
    let n: usize = data.entries.len();
    let mut i: usize = 0;
    while i < n
        invariant
            i <= n,
            n == data.entries@.len(),
            n == data@.len(),
            text@ == xfdf_header() + xfdf_lines(data@, i as nat),
        decreases n - i,
    {
        let ghost before = text@;
        text.append("<field name=\"");
        text.append(data.entries[i].title.as_str());
        text.append("\"><value>");
        text.append(data.entries[i].value.as_str());
        text.append("</value></field>\n");
        assert(text@ =~= before + xfdf_line(data@[i as int]));
        assert(before + xfdf_line(data@[i as int]) =~= xfdf_header() + xfdf_lines(
            data@,
            (i + 1) as nat,
        ));
        i += 1;
    }
    text.append("</fields>\n</xfdf>\n");
    text
}

} // verus!
