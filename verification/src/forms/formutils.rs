//! What both forms share: how a money value is written, the template that a
//! form is filled into, the values written so far, and how these become a
//! dictionary from field names to values.

use crate::amount::{
    decimal_text, digit_char, digits_text, fraction_text, Amount, DecimalValue,
};
use crate::dict::{assoc_insert, FieldDict};
use crate::error::{Error, ErrorView, PdfErrorKind, ValueError};
use crate::views::{option_view, result_view};
use std::collections::HashMap;
use vstd::arithmetic::power::pow;
use vstd::prelude::*;
use vstd::string::StringExecFns;

verus! {

/// A count of hundredths written as a fixed-point number: an optional minus
/// sign, the whole part, a point and exactly two fractional digits.
pub open spec fn cents_text(cents: int) -> Seq<char> {
    let magnitude = if cents < 0 {
        -cents
    } else {
        cents
    };
    let sign = if cents < 0 {
        seq!['-']
    } else {
        Seq::<char>::empty()
    };
    sign + digits_text((magnitude / 100) as nat) + seq![
        '.',
        digit_char(magnitude / 10 % 10),
        digit_char(magnitude % 10),
    ]
}

/// The hundredths that a value comes to when rounded half to even.
pub open spec fn cents_of(value: DecimalValue) -> int {
    value.rounded(2).mantissa_at(2)
}

/// The text of a money value: rounded half to even to two fractional digits
/// and written with exactly two of them.
pub open spec fn money_text(value: DecimalValue) -> Seq<char> {
    cents_text(cents_of(value))
}

/// What fills a number of at most two fractional digits up to two of them.
pub open spec fn padding(scale: nat) -> Seq<char> {
    if scale == 0 {
        seq!['.', '0', '0']
    } else if scale == 1 {
        seq!['0']
    } else {
        Seq::empty()
    }
}

proof fn lemma_whole_number_in_cents(n: int)
    requires
        n >= 0,
    ensures
        (n * 100) / 100 == n,
        (n * 100) / 10 % 10 == 0,
        (n * 100) % 10 == 0,
{
}

proof fn lemma_tenths_in_cents(n: int)
    requires
        n >= 0,
    ensures
        (n * 10) / 100 == n / 10,
        (n * 10) / 10 % 10 == n % 10,
        (n * 10) % 10 == 0,
{
}

proof fn lemma_cents_in_cents(n: int)
    requires
        n >= 0,
    ensures
        (n % 100) / 10 % 10 == n / 10 % 10,
        (n % 100) % 10 == n % 10,
{
}

/// A number of at most two fractional digits, written in plain notation and
/// filled up, is the text of its hundredths.
pub proof fn lemma_padded_plain_text(value: DecimalValue)
    requires
        value.scale <= 2,
    ensures
        decimal_text(value) + padding(value.scale) == cents_text(
            value.mantissa_at(2),
        ),
{
    reveal_with_fuel(pow, 3);
    reveal_with_fuel(fraction_text, 3);
    let magnitude = if value.mantissa < 0 {
        -value.mantissa
    } else {
        value.mantissa
    };
    assert(pow(10, 0) == 1);
    assert(pow(10, 1) == 10);
    assert(pow(10, 2) == 100);
    if value.scale == 0 {
        lemma_whole_number_in_cents(magnitude);
        assert(value.mantissa_at(2) == value.mantissa * 100);
    } else if value.scale == 1 {
        lemma_tenths_in_cents(magnitude);
        assert(value.mantissa_at(2) == value.mantissa * 10);
    } else {
        lemma_cents_in_cents(magnitude);
        assert(value.mantissa_at(2) == value.mantissa);
    }
    assert(decimal_text(value) + padding(value.scale) =~= cents_text(
        value.mantissa_at(2),
    ));
}

/// Formats a money value for a form field: rounded half to even to two
/// fractional digits, written in plain notation and filled up to exactly two
/// fractional digits.
pub fn format_money_value(value: Amount) -> (text: String)
    ensures
        text@ == money_text(value@),
{
    let rounded = value.round_dp(2);
    let scale: u32 = rounded.scale();
    let mut text = rounded.to_string();
    if scale == 0 {
        text.append(".00");
    } else if scale == 1 {
        text.append("0");
    }
    proof {
        reveal_strlit(".00");
        reveal_strlit("0");
        assert(text@ =~= decimal_text(rounded@) + padding(scale as nat));
        lemma_padded_plain_text(rounded@);
    }
    text
}

/// One field of a form template, as far as filling it is concerned.
pub struct TemplateField {
    /// The name that the template declares, where it can be read.
    pub name: Option<String>,
    /// The text that the field holds, if it is a text field.
    pub text: Option<String>,
}

/// What a template field is to the contracts.
pub struct TemplateFieldView {
    pub name: Option<Seq<char>>,
    pub text: Option<Seq<char>>,
}

impl View for TemplateField {
    type V = TemplateFieldView;

    open spec fn view(&self) -> TemplateFieldView {
        TemplateFieldView { name: option_view(self.name), text: option_view(self.text) }
    }
}

/// The fields of a form template, each at its position.
pub struct FormTemplate {
    pub fields: Vec<TemplateField>,
}

impl View for FormTemplate {
    type V = Seq<TemplateFieldView>;

    open spec fn view(&self) -> Seq<TemplateFieldView> {
        Seq::new(self.fields@.len(), |i: int| self.fields@[i]@)
    }
}

/// Whether the template has a text field at the position.
pub open spec fn accepts_text(template: Seq<TemplateFieldView>, index: int) -> bool {
    0 <= index < template.len() && template[index].text is Some
}

/// Why the template refuses a text at the position.
pub open spec fn refusal(template: Seq<TemplateFieldView>, index: int) -> ValueError {
    if 0 <= index < template.len() {
        ValueError::TypeMismatch
    } else {
        ValueError::NotFound
    }
}

/// The template after a text was set at the position.
pub open spec fn with_text(
    template: Seq<TemplateFieldView>,
    index: int,
    value: Seq<char>,
) -> Seq<TemplateFieldView> {
    template.update(index, TemplateFieldView { name: template[index].name, text: Some(value) })
}

impl FormTemplate {
    /// The number of fields.
    pub fn len(&self) -> (n: usize)
        ensures
            n == self@.len(),
    {
        self.fields.len()
    }

    /// The name of the field at a position, where there is such a field and
    /// its name can be read.
    pub fn get_name(&self, index: usize) -> (r: Option<&String>)
        ensures
            option_view(r) == declared_name(self@, index as int),
    {
        if index < self.fields.len() {
            match &self.fields[index].name {
                Some(name) => Some(name),
                None => None,
            }
        } else {
            None
        }
    }

    /// The text of the field at a position, where there is a text field.
    pub fn get_text(&self, index: usize) -> (r: Option<&String>)
        ensures
            option_view(r) == (if accepts_text(self@, index as int) {
                self@[index as int].text
            } else {
                None
            }),
    {
        if index < self.fields.len() {
            match &self.fields[index].text {
                Some(text) => Some(text),
                None => None,
            }
        } else {
            None
        }
    }
}

/// The name that the template declares at a position, if any.
pub open spec fn declared_name(template: Seq<TemplateFieldView>, index: int) -> Option<
    Seq<char>,
> {
    if 0 <= index < template.len() {
        template[index].name
    } else {
        None
    }
}

/// Sets the text of the field at `field_index`. A position that the template
/// lacks is refused as not found, a field that is no text field as a type
/// mismatch; the template is then left as it was.
pub fn fill_field(pdf_form: &mut FormTemplate, field_index: usize, value: String) -> (r: Result<
    (),
    Error,
>)
    ensures
        accepts_text(old(pdf_form)@, field_index as int) ==> r is Ok && final(pdf_form)@
            == with_text(old(pdf_form)@, field_index as int, value@),
        !accepts_text(old(pdf_form)@, field_index as int) ==> result_view(r) == Err::<
            (),
            ErrorView,
        >(ErrorView::Pdf(PdfErrorKind::Value(refusal(old(pdf_form)@, field_index as int))))
            && final(pdf_form)@ == old(pdf_form)@,
{
    if field_index >= pdf_form.fields.len() {
        return Err(Error::Pdf(PdfErrorKind::Value(ValueError::NotFound)));
    }
    if pdf_form.fields[field_index].text.is_none() {
        return Err(Error::Pdf(PdfErrorKind::Value(ValueError::TypeMismatch)));
    }
    let name = match &pdf_form.fields[field_index].name {
        Some(n) => Some(n.clone()),
        None => None,
    };
    pdf_form.fields.set(field_index, TemplateField { name, text: Some(value) });
    assert(pdf_form@ =~= with_text(old(pdf_form)@, field_index as int, value@));
    Ok(())
}

/// The values written into a form so far, each under the position of its
/// field. A later value replaces an earlier one at the same position.
pub struct FormFieldMap {
    values: HashMap<usize, String>,
}

impl View for FormFieldMap {
    type V = Map<int, Seq<char>>;

    closed spec fn view(&self) -> Map<int, Seq<char>> {
        Map::new(
            |k: int| 0 <= k <= usize::MAX && self.values@.contains_key(k as usize),
            |k: int| self.values@[k as usize]@,
        )
    }
}

impl FormFieldMap {
    /// The map without any value.
    pub fn new() -> (m: FormFieldMap)
        ensures
            m@ == Map::<int, Seq<char>>::empty(),
    {
        let m = FormFieldMap { values: HashMap::new() };
        assert(m@ =~= Map::<int, Seq<char>>::empty());
        m
    }

    /// The value at a position, if one was written there.
    pub fn get(&self, index: usize) -> (r: Option<&String>)
        ensures
            self@.contains_key(index as int) ==> option_view(r) == Some(self@[index as int]),
            !self@.contains_key(index as int) ==> r is None,
    {
        broadcast use vstd::std_specs::hash::group_hash_axioms;

        self.values.get(&index)
    }

    /// Writes a value at a position.
    pub fn insert(&mut self, index: usize, value: String)
        ensures
            final(self)@ == old(self)@.insert(index as int, value@),
    {
        broadcast use vstd::std_specs::hash::group_hash_axioms;

        self.values.insert(index, value);
        assert(self@ =~= old(self)@.insert(index as int, value@));
    }
}

/// One value to be written into a form.
pub struct FieldWrite {
    pub index: usize,
    pub value: String,
}

impl View for FieldWrite {
    type V = (int, Seq<char>);

    open spec fn view(&self) -> (int, Seq<char>) {
        (self.index as int, self.value@)
    }
}

/// The writes of a list, in order.
pub open spec fn writes_view(writes: Seq<FieldWrite>) -> Seq<(int, Seq<char>)> {
    Seq::new(writes.len(), |i: int| writes[i]@)
}

/// A form after some values were written into it.
pub struct Recorded {
    pub template: Seq<TemplateFieldView>,
    pub fields: Map<int, Seq<char>>,
    /// Why the template refused a value, if it did.
    pub refused: Option<ValueError>,
}

/// Writes one value after the other, each first among the values written so
/// far and then into the template, and stops at the first that the template
/// refuses.
pub open spec fn record_all(
    template: Seq<TemplateFieldView>,
    fields: Map<int, Seq<char>>,
    writes: Seq<(int, Seq<char>)>,
) -> Recorded
    decreases writes.len(),
{
    if writes.len() == 0 {
        Recorded { template, fields, refused: None }
    } else if accepts_text(template, writes[0].0) {
        record_all(
            with_text(template, writes[0].0, writes[0].1),
            fields.insert(writes[0].0, writes[0].1),
            writes.drop_first(),
        )
    } else {
        Recorded {
            template,
            fields: fields.insert(writes[0].0, writes[0].1),
            refused: Some(refusal(template, writes[0].0)),
        }
    }
}

impl Recorded {
    /// What the writes come to as a result.
    pub open spec fn result(self) -> Result<(), ErrorView> {
        match self.refused {
            Some(e) => Err(ErrorView::Pdf(PdfErrorKind::Value(e))),
            None => Ok(()),
        }
    }
}

/// Writes the values of a list into a form, in order, and stops at the first
/// that the template refuses.
pub fn record_fields(
    pdf_form: &mut FormTemplate,
    fields: &mut FormFieldMap,
    writes: Vec<FieldWrite>,
) -> (r: Result<(), Error>)
    ensures
        final(pdf_form)@ == record_all(
            old(pdf_form)@,
            old(fields)@,
            writes_view(writes@),
        ).template,
        final(fields)@ == record_all(old(pdf_form)@, old(fields)@, writes_view(writes@)).fields,
        result_view(r) == record_all(
            old(pdf_form)@,
            old(fields)@,
            writes_view(writes@),
        ).result(),
{
    let ghost all = writes_view(writes@);
    let mut pending = writes;
    let n: usize = pending.len();
    let mut i: usize = 0;
    assert(all.skip(0) =~= all);
    while i < n
        invariant
            i <= n,
            n == pending@.len(),
            all == writes_view(writes@),
            n == all.len(),
            forall|j: int| i <= j < n ==> (#[trigger] pending@[j])@ == all[j],
            record_all(old(pdf_form)@, old(fields)@, all) == record_all(
                pdf_form@,
                fields@,
                all.skip(i as int),
            ),
        decreases n - i,
    {
        let ghost rest = all.skip(i as int);
        assert(rest[0] == all[i as int]);
        assert(rest.drop_first() =~= all.skip(i + 1));
        let mut write = FieldWrite { index: 0, value: String::new() };
        pending.set_and_swap(i, &mut write);
        let index: usize = write.index;
        let copy = write.value.clone();
        fields.insert(index, copy);
        match fill_field(pdf_form, index, write.value) {
            Ok(()) => {},
            Err(e) => {
                return Err(e);
            },
        }
        i += 1;
    }
    Ok(())
}

/// Writing a list of values that the template took once more changes
/// nothing: the template takes them again, and every field keeps the value
/// that the list writes last.
pub proof fn lemma_recording_again(
    template: Seq<TemplateFieldView>,
    fields: Map<int, Seq<char>>,
    writes: Seq<(int, Seq<char>)>,
)
    requires
        record_all(template, fields, writes).refused is None,
    ensures
        record_all(
            record_all(template, fields, writes).template,
            record_all(template, fields, writes).fields,
            writes,
        ) == record_all(template, fields, writes),
{
    let once = record_all(template, fields, writes);
    lemma_recorded_shape(template, fields, writes);
    lemma_record_all_is_last_write(once.template, once.fields, writes);
    lemma_record_all_is_last_write(template, fields, writes);
    let twice = record_all(once.template, once.fields, writes);
    assert(twice.template =~= once.template);
    assert(twice.fields =~= once.fields);
}

/// The last value that a list writes at a position, if it writes there.
pub open spec fn last_write(writes: Seq<(int, Seq<char>)>, index: int) -> Option<Seq<char>>
    decreases writes.len(),
{
    if writes.len() == 0 {
        None
    } else if writes.last().0 == index {
        Some(writes.last().1)
    } else {
        last_write(writes.drop_last(), index)
    }
}

/// Whether the template takes a text at every position of a list.
pub open spec fn all_accepted(template: Seq<TemplateFieldView>, writes: Seq<(int, Seq<char>)>) -> bool {
    forall|i: int| 0 <= i < writes.len() ==> accepts_text(template, (#[trigger] writes[i]).0)
}

/// Writing sets no field that was not a text field and keeps every name, so
/// a template that took a list of values takes it at every later time.
pub proof fn lemma_recorded_shape(
    template: Seq<TemplateFieldView>,
    fields: Map<int, Seq<char>>,
    writes: Seq<(int, Seq<char>)>,
)
    requires
        record_all(template, fields, writes).refused is None,
    ensures
        all_accepted(template, writes),
        all_accepted(record_all(template, fields, writes).template, writes),
        record_all(template, fields, writes).template.len() == template.len(),
    decreases writes.len(),
{
    if writes.len() > 0 {
        let next = with_text(template, writes[0].0, writes[0].1);
        let rest = writes.drop_first();
        lemma_recorded_shape(next, fields.insert(writes[0].0, writes[0].1), rest);
        lemma_text_fields_stay(next, fields.insert(writes[0].0, writes[0].1), rest);
        let end = record_all(template, fields, writes).template;
        assert forall|i: int| 0 <= i < writes.len() implies accepts_text(
            template,
            (#[trigger] writes[i]).0,
        ) by {
            if i > 0 {
                assert(writes[i] == rest[i - 1]);
                assert(accepts_text(next, rest[i - 1].0));
            }
        }
        assert forall|i: int| 0 <= i < writes.len() implies accepts_text(
            end,
            (#[trigger] writes[i]).0,
        ) by {
            if i > 0 {
                assert(writes[i] == rest[i - 1]);
                assert(accepts_text(end, rest[i - 1].0));
            } else {
                assert(accepts_text(next, writes[0].0));
            }
        }
    }
}

/// A field that takes a text before a list of values is written takes one
/// after it.
pub proof fn lemma_text_fields_stay(
    template: Seq<TemplateFieldView>,
    fields: Map<int, Seq<char>>,
    writes: Seq<(int, Seq<char>)>,
)
    ensures
        record_all(template, fields, writes).template.len() == template.len(),
        forall|k: int|
            accepts_text(template, k) ==> accepts_text(
                record_all(template, fields, writes).template,
                k,
            ),
    decreases writes.len(),
{
    if writes.len() > 0 && accepts_text(template, writes[0].0) {
        let next = with_text(template, writes[0].0, writes[0].1);
        lemma_text_fields_stay(next, fields.insert(writes[0].0, writes[0].1), writes.drop_first());
        assert forall|k: int| accepts_text(template, k) implies accepts_text(
            record_all(template, fields, writes).template,
            k,
        ) by {
            assert(accepts_text(next, k));
        }
    }
}

/// Where the template takes every value of a list, each position that the
/// list writes holds the value that the list writes there last, in the
/// template and among the written values alike, and every other position
/// is as it was.
pub proof fn lemma_record_all_is_last_write(
    template: Seq<TemplateFieldView>,
    fields: Map<int, Seq<char>>,
    writes: Seq<(int, Seq<char>)>,
)
    requires
        all_accepted(template, writes),
    ensures
        record_all(template, fields, writes).refused is None,
        record_all(template, fields, writes).template.len() == template.len(),
        forall|k: int|
            0 <= k < template.len() ==> #[trigger] record_all(template, fields, writes).template[k]
                == (match last_write(writes, k) {
                Some(value) => TemplateFieldView { name: template[k].name, text: Some(value) },
                None => template[k],
            }),
        forall|k: int| #[trigger]
            record_all(template, fields, writes).fields.contains_key(k) <==> (fields.contains_key(k)
                || last_write(writes, k) is Some),
        forall|k: int|
            record_all(template, fields, writes).fields.contains_key(k) ==> #[trigger] record_all(
                template,
                fields,
                writes,
            ).fields[k] == (match last_write(writes, k) {
                Some(value) => value,
                None => fields[k],
            }),
    decreases writes.len(),
{
    if writes.len() > 0 {
        assert(accepts_text(template, writes[0].0));
        let next = with_text(template, writes[0].0, writes[0].1);
        let next_fields = fields.insert(writes[0].0, writes[0].1);
        let rest = writes.drop_first();
        assert forall|i: int| 0 <= i < rest.len() implies accepts_text(
            next,
            (#[trigger] rest[i]).0,
        ) by {
            assert(rest[i] == writes[i + 1]);
        }
        lemma_record_all_is_last_write(next, next_fields, rest);
        assert forall|k: int| true implies last_write(writes, k) == (match last_write(rest, k) {
            Some(value) => Some(value),
            None => if writes[0].0 == k {
                Some(writes[0].1)
            } else {
                None
            },
        }) by {
            lemma_last_write_of_rest(writes, k);
        }
    }
}

/// The last write of a list is that of its tail, or else its first entry.
pub proof fn lemma_last_write_of_rest(writes: Seq<(int, Seq<char>)>, index: int)
    requires
        writes.len() > 0,
    ensures
        last_write(writes, index) == (match last_write(writes.drop_first(), index) {
            Some(value) => Some(value),
            None => if writes[0].0 == index {
                Some(writes[0].1)
            } else {
                None
            },
        }),
    decreases writes.len(),
{
    if writes.len() > 1 {
        assert(writes.drop_first().last() == writes.last());
        assert(writes.drop_first().drop_last() =~= writes.drop_last().drop_first());
        if writes.last().0 != index {
            lemma_last_write_of_rest(writes.drop_last(), index);
            assert(writes.drop_last()[0] == writes[0]);
        }
    } else {
        assert(writes.drop_first() =~= Seq::<(int, Seq<char>)>::empty());
        assert(writes.drop_last() =~= Seq::<(int, Seq<char>)>::empty());
    }
}

/// The dictionary that the values at the positions below `n` come to, when
/// each position is given its name by `names`. Positions are taken in rising
/// order; one without a name is left out.
pub open spec fn resolved_entries(
    fields: Map<int, Seq<char>>,
    names: spec_fn(int) -> Option<Seq<char>>,
    n: nat,
) -> Seq<(Seq<char>, Seq<char>)>
    decreases n,
{
    if n == 0 {
        Seq::empty()
    } else if fields.contains_key(n - 1) && names(n - 1) is Some {
        assoc_insert(resolved_entries(fields, names, (n - 1) as nat), names(n - 1).unwrap(), fields[n - 1])
    } else {
        resolved_entries(fields, names, (n - 1) as nat)
    }
}

/// The name under which the value at a position goes into the dictionary:
/// the name that the template declares, unless it is empty; where the
/// template gives none, the name of the patch if the position is that of the
/// patch.
pub open spec fn resolved_name(
    template: Seq<TemplateFieldView>,
    patch: Option<(int, Seq<char>)>,
    index: int,
) -> Option<Seq<char>> {
    match declared_name(template, index) {
        Some(name) => if name.len() > 0 {
            Some(name)
        } else {
            None
        },
        None => match patch {
            Some((position, name)) => if position == index && name.len() > 0 {
                Some(name)
            } else {
                None
            },
            None => None,
        },
    }
}

/// A name that stands in for one that the template cannot give.
pub struct NamePatch {
    pub index: usize,
    pub name: String,
}

/// What a patch is to the contracts.
pub open spec fn patch_view(patch: Option<NamePatch>) -> Option<(int, Seq<char>)> {
    match patch {
        Some(p) => Some((p.index as int, p.name@)),
        None => None,
    }
}

/// Turns the values written at the positions below `count` into a dictionary
/// from field names to values. A value whose field has no readable name is
/// dropped, unless the patch names its position.
pub fn resolve_fields(
    pdf_form: &FormTemplate,
    fields: &FormFieldMap,
    patch: Option<NamePatch>,
    count: usize,
) -> (d: FieldDict)
    ensures
        d@ == resolved_entries(
            fields@,
            |k: int| resolved_name(pdf_form@, patch_view(patch), k),
            count as nat,
        ),
{
    let ghost names = |k: int| resolved_name(pdf_form@, patch_view(patch), k);
    let mut d = FieldDict::new();
    let n: usize = count;
    let mut k: usize = 0;
    while k < n
        invariant
            k <= n,
            names == (|k: int| resolved_name(pdf_form@, patch_view(patch), k)),
            d@ == resolved_entries(fields@, names, k as nat),
        decreases n - k,
    {
        match fields.get(k) {
            Some(value) => {
                let name: Option<String> = match pdf_form.get_name(k) {
                    Some(declared) => if declared.as_str().unicode_len() > 0 {
                        Some(declared.clone())
                    } else {
                        None
                    },
                    None => match &patch {
                        Some(p) => if p.index == k && p.name.as_str().unicode_len() > 0 {
                            Some(p.name.clone())
                        } else {
                            None
                        },
                        None => None,
                    },
                };
                assert(option_view(name) == names(k as int));
                match name {
                    Some(name) => {
                        d.insert(name, value.clone());
                    },
                    None => {},
                }
            },
            None => {},
        }
        k += 1;
    }
    d
}

} // verus!
