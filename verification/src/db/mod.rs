//! The income ledger: what was filed under each invoice date.

use crate::amount::{Amount, DecimalValue};
use crate::views::option_view;
use crate::dict::{
    assoc_get, assoc_insert, distinct_keys, has_key, key_position,
    lemma_insert_keeps_keys_distinct, lemma_key_position_is_unique,
};
use vstd::prelude::*;

verus! {

/// What was filed for one invoice: the income and the tax paid on it.
#[derive(Clone, Copy, Debug, PartialEq, Eq, Structural)]
pub struct AmsInfo {
    pub income_total: Amount,
    pub tax_paid: Amount,
}

/// What a ledger entry is to the contracts.
pub struct AmsInfoView {
    pub income_total: DecimalValue,
    pub tax_paid: DecimalValue,
}

impl View for AmsInfo {
    type V = AmsInfoView;

    open spec fn view(&self) -> AmsInfoView {
        AmsInfoView { income_total: self.income_total@, tax_paid: self.tax_paid@ }
    }
}

/// One entry of the ledger.
pub struct LedgerEntry {
    pub date: String,
    pub info: AmsInfo,
}

/// The ledger: invoice dates, each with what was filed under it. Filing
/// again under a date replaces what was there.
pub struct TaxDb {
    ams: Vec<LedgerEntry>,
}

impl View for TaxDb {
    type V = Seq<(Seq<char>, AmsInfoView)>;

    closed spec fn view(&self) -> Seq<(Seq<char>, AmsInfoView)> {
        Seq::new(self.ams@.len(), |i: int| (self.ams@[i].date@, self.ams@[i].info@))
    }
}

/// The income of an entry.
pub open spec fn income_of(info: AmsInfoView) -> DecimalValue {
    info.income_total
}

/// The tax paid of an entry.
pub open spec fn tax_paid_of(info: AmsInfoView) -> DecimalValue {
    info.tax_paid
}

/// The sum of what `pick` takes from each of the first `n` entries whose date
/// begins with `year`, added up in the order of the entries, starting from
/// the plain zero. The match is on the text alone: a date `20234-01-01`
/// begins with `2023`. `None` where an addition overflows.
pub open spec fn year_total(
    entries: Seq<(Seq<char>, AmsInfoView)>,
    year: Seq<char>,
    pick: spec_fn(AmsInfoView) -> DecimalValue,
    n: nat,
) -> Option<DecimalValue>
    decreases n,
{
    if n == 0 {
        Some(DecimalValue::zero())
    } else {
        match year_total(entries, year, pick, (n - 1) as nat) {
            Some(total) => if year.is_prefix_of(entries[n - 1].0) {
                total.checked_add(pick(entries[n - 1].1))
            } else {
                Some(total)
            },
            None => None,
        }
    }
}

/// Whether `text` begins with `prefix`.
pub fn has_prefix(text: &str, prefix: &str) -> (r: bool)
    ensures
        r == prefix@.is_prefix_of(text@),
{
    let n: usize = prefix.unicode_len();
    if n > text.unicode_len() {
        return false;
    }
    let mut i: usize = 0;
    while i < n
        invariant
            n == prefix@.len(),
            n <= text@.len(),
            i <= n,
            forall|j: int| 0 <= j < i ==> prefix@[j] == text@[j],
        decreases n - i,
    {
        if prefix.get_char(i) != text.get_char(i) {
            assert(text@.subrange(0, n as int)[i as int] == text@[i as int]);
            return false;
        }
        i += 1;
    }
    assert(prefix@ =~= text@.subrange(0, n as int));
    true
}

impl Default for TaxDb {
    fn default() -> (db: TaxDb)
        ensures
            db@ == Seq::<(Seq<char>, AmsInfoView)>::empty(),
    {
        let db = TaxDb { ams: Vec::new() };
        assert(db@ =~= Seq::<(Seq<char>, AmsInfoView)>::empty());
        db
    }
}

impl TaxDb {
    /// No date occurs twice.
    #[verifier::type_invariant]
    pub open spec fn well_formed(self) -> bool {
        distinct_keys(self@)
    }

    /// The number of entries.
    pub fn len(&self) -> (n: usize)
        ensures
            n == self@.len(),
    {
        self.ams.len()
    }

    /// The entry at a position, if the ledger is that long.
    pub fn entry(&self, i: usize) -> (r: Option<&LedgerEntry>)
        ensures
            i < self@.len() ==> r is Some && (r.unwrap().date@, r.unwrap().info@) == self@[i as int],
            i >= self@.len() ==> r is None,
    {
        if i < self.ams.len() {
            Some(&self.ams[i])
        } else {
            None
        }
    }

    fn position(&self, date: &String) -> (r: Option<usize>)
        ensures
            match r {
                Some(i) => i < self@.len() && self@[i as int].0 == date@ && has_key(self@, date@)
                    && key_position(self@, date@) == i,
                None => !has_key(self@, date@),
            },
    {
        proof {
            use_type_invariant(self);
        }
        let n: usize = self.ams.len();
        let mut i: usize = 0;
        while i < n
            invariant
                n == self.ams@.len(),
                n == self@.len(),
                i <= n,
                distinct_keys(self@),
                forall|j: int| 0 <= j < i ==> (#[trigger] self@[j]).0 != date@,
            decreases n - i,
        {
            if self.ams[i].date == *date {
                proof {
                    lemma_key_position_is_unique(self@, date@, i as int);
                }
                return Some(i);
            }
            i += 1;
        }
        None
    }

    /// What is filed under a date, if anything.
    pub fn get(&self, invoice_date: &String) -> (r: Option<AmsInfo>)
        ensures
            match assoc_get(self@, invoice_date@) {
                Some(info) => r is Some && r.unwrap()@ == info,
                None => r is None,
            },
    {
        match self.position(invoice_date) {
            Some(i) => Some(self.ams[i].info),
            None => None,
        }
    }

    /// Files an entry under a date. What was filed under that date before is
    /// replaced, not added to.
    pub fn add_ams_info(&mut self, ams_info: AmsInfo, invoice_date: String)
        ensures
            final(self)@ == assoc_insert(old(self)@, invoice_date@, ams_info@),
    {
        proof {
            use_type_invariant(&*self);
            lemma_insert_keeps_keys_distinct(self@, invoice_date@, ams_info@);
        }
        let found = self.position(&invoice_date);
        let mut ams: Vec<LedgerEntry> = Vec::new();
        std::mem::swap(&mut ams, &mut self.ams);
        match found {
            Some(i) => {
                ams.set(i, LedgerEntry { date: invoice_date, info: ams_info });
            },
            None => {
                ams.push(LedgerEntry { date: invoice_date, info: ams_info });
            },
        }
        let ghost after = Seq::new(ams@.len(), |i: int| (ams@[i].date@, ams@[i].info@));
        assert(after =~= assoc_insert(old(self)@, invoice_date@, ams_info@));
        self.ams = ams;
        assert(self@ =~= after);
    }

    fn total_for_year(&self, year: &String, income: bool) -> (r: Option<Amount>)
        ensures
            option_view(r) == year_total(
                self@,
                year@,
                if income {
                    |info: AmsInfoView| income_of(info)
                } else {
                    |info: AmsInfoView| tax_paid_of(info)
                },
                self@.len(),
            ),
    {
        let ghost pick = if income {
            |info: AmsInfoView| income_of(info)
        } else {
            |info: AmsInfoView| tax_paid_of(info)
        };
        let mut total = Amount::zero();
        let n: usize = self.ams.len();
        let mut i: usize = 0;
        while i < n
            invariant
                i <= n,
                n == self.ams@.len(),
                n == self@.len(),
                pick == (if income {
                    |info: AmsInfoView| income_of(info)
                } else {
                    |info: AmsInfoView| tax_paid_of(info)
                }),
                year_total(self@, year@, pick, i as nat) == Some(total@),
            decreases n - i,
        {
            if has_prefix(self.ams[i].date.as_str(), year.as_str()) {
                let part = if income {
                    self.ams[i].info.income_total
                } else {
                    self.ams[i].info.tax_paid
                };
                assert(part@ == pick(self@[i as int].1));
                match total.checked_add(part) {
                    Some(sum) => {
                        total = sum;
                    },
                    None => {
                        proof {
                            lemma_year_total_stays_none(self@, year@, pick, (i + 1) as nat, n as nat);
                        }
                        return None;
                    },
                }
            }
            i += 1;
        }
        Some(total)
    }

    /// The income filed under the dates that begin with `year`. `None` where
    /// the sum overflows.
    pub fn total_income_for_year(&self, year: String) -> (r: Option<Amount>)
        ensures
            option_view(r) == year_total(
                self@,
                year@,
                |info: AmsInfoView| income_of(info),
                self@.len(),
            ),
    {
        self.total_for_year(&year, true)
    }

    /// The tax paid under the dates that begin with `year`. `None` where the
    /// sum overflows.
    pub fn total_tax_paid_for_year(&self, year: String) -> (r: Option<Amount>)
        ensures
            option_view(r) == year_total(
                self@,
                year@,
                |info: AmsInfoView| tax_paid_of(info),
                self@.len(),
            ),
    {
        self.total_for_year(&year, false)
    }
}

/// A sum that has overflowed stays overflowed, whatever follows.
pub proof fn lemma_year_total_stays_none(
    entries: Seq<(Seq<char>, AmsInfoView)>,
    year: Seq<char>,
    pick: spec_fn(AmsInfoView) -> DecimalValue,
    m: nat,
    n: nat,
)
    requires
        m <= n,
        year_total(entries, year, pick, m) is None,
    ensures
        year_total(entries, year, pick, n) is None,
    decreases n,
{
    if m < n {
        lemma_year_total_stays_none(entries, year, pick, m, (n - 1) as nat);
    }
}

} // verus!
