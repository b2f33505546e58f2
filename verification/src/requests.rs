//! The request payloads the service accepts, and the rules each must satisfy
//! before it reaches the ledger.

use crate::money::{exact_sum_fits, lemma_pow10_monotone, lemma_value_sum_reordered, pow10, running_total, sums_fit_at_scale, value_sum, wider_scale, Amount, MAX_MANTISSA, MAX_SCALE};
use crate::text::{is_blank, is_blank_str};
use vstd::prelude::*;

verus! {

/// Parameters of a journal-entry listing: paging and optional filters.
pub struct JournalEntriesQuery {
    pub limit: Option<i64>,
    pub offset: Option<i64>,
    pub account_code: Option<String>,
    pub job_code: Option<String>,
    pub start_date: Option<String>,
    pub end_date: Option<String>,
}

/// The page size when none is asked for.
pub const DEFAULT_PAGE_SIZE: i64 = 50;

/// The largest page size served.
pub const MAX_PAGE_SIZE: i64 = 200;

/// The page size served for a requested limit: 50 when none is given, else the
/// request clamped into 1 to 200.
pub open spec fn spec_page_size(limit: Option<i64>) -> i64 {
    match limit {
        None => DEFAULT_PAGE_SIZE,
        Some(l) => if l < 1 {
            1
        } else if l > MAX_PAGE_SIZE {
            MAX_PAGE_SIZE
        } else {
            l
        },
    }
}

/// The number of entries skipped for a requested offset: 0 when none is given,
/// negative requests counting as 0.
pub open spec fn spec_page_offset(offset: Option<i64>) -> i64 {
    match offset {
        None => 0,
        Some(o) => if o < 0 {
            0
        } else {
            o
        },
    }
}

impl JournalEntriesQuery {
    /// The page size to serve: 50 when none is asked for, a request from 1 to
    /// 200 as it is, 1 below that and 200 above.
    pub fn normalized_limit(&self) -> (r: i64)
        ensures
            r == spec_page_size(self.limit),
            1 <= r <= MAX_PAGE_SIZE,
            self.limit is None ==> r == 50,
            self.limit matches Some(l) ==> (1 <= l <= 200 ==> r == l),
            self.limit matches Some(l) ==> (l < 1 ==> r == 1),
            self.limit matches Some(l) ==> (l > 200 ==> r == 200),
    {
        let requested = self.limit.unwrap_or(DEFAULT_PAGE_SIZE);
        if requested < 1 {
            1
        } else if requested > MAX_PAGE_SIZE {
            MAX_PAGE_SIZE
        } else {
            requested
        }
    }

    /// The number of entries to skip: none when no offset is asked for or a
    /// negative one is, else the offset asked for.
    pub fn normalized_offset(&self) -> (r: i64)
        ensures
            r == spec_page_offset(self.offset),
            r >= 0,
            self.offset is None ==> r == 0,
            self.offset matches Some(o) ==> (o >= 0 ==> r == o),
            self.offset matches Some(o) ==> (o < 0 ==> r == 0),
    {
        let requested = self.offset.unwrap_or(0);
        if requested < 0 {
            0
        } else {
            requested
        }
    }
}

/// Whether an optional field is present and blank.
pub open spec fn given_blank(field: Option<String>) -> bool {
    field matches Some(value) && is_blank(value@)
}

/// Answers whether an optional field is present and blank.
fn is_given_blank(field: &Option<String>) -> (r: bool)
    ensures
        r == given_blank(*field),
{
    match field {
        Some(value) => is_blank_str(value.as_str()),
        None => false,
    }
}

/// A new account of the chart of accounts.
pub struct CreateAccountRequest {
    pub code: String,
    pub name: String,
    pub account_type: String,
}

impl CreateAccountRequest {
    /// The verdict on a new account: code, name and type must each hold more
    /// than whitespace, and are checked in that order.
    pub open spec fn spec_validate(&self) -> Result<(), &'static str> {
        if is_blank(self.code@) {
            Err("Account code cannot be empty.")
        } else if is_blank(self.name@) {
            Err("Account name cannot be empty.")
        } else if is_blank(self.account_type@) {
            Err("Account type cannot be empty.")
        } else {
            Ok(())
        }
    }

    pub fn validate(&self) -> (r: Result<(), &'static str>)
        ensures
            r == self.spec_validate(),
            is_blank(self.code@) ==> r == Err::<(), &'static str>("Account code cannot be empty."),
            !is_blank(self.code@) && is_blank(self.name@) ==> r == Err::<(), &'static str>("Account name cannot be empty."),
            !is_blank(self.code@) && !is_blank(self.name@) && is_blank(self.account_type@)
                ==> r == Err::<(), &'static str>("Account type cannot be empty."),
            r is Ok <==> !is_blank(self.code@) && !is_blank(self.name@) && !is_blank(self.account_type@),
    {
        proof {
            lemma_account_verdict(*self);
        }
        if is_blank_str(self.code.as_str()) {
            return Err("Account code cannot be empty.");
        }
        if is_blank_str(self.name.as_str()) {
            return Err("Account name cannot be empty.");
        }
        if is_blank_str(self.account_type.as_str()) {
            return Err("Account type cannot be empty.");
        }
        Ok(())
    }
}

/// Changes to an account; absent fields stay as they are.
pub struct UpdateAccountRequest {
    pub name: Option<String>,
    pub account_type: Option<String>,
    pub is_active: Option<bool>,
}

impl UpdateAccountRequest {
    /// The verdict on an account change: a name or type that is given must hold
    /// more than whitespace.
    pub open spec fn spec_validate(&self) -> Result<(), &'static str> {
        if given_blank(self.name) {
            Err("Account name cannot be empty.")
        } else if given_blank(self.account_type) {
            Err("Account type cannot be empty.")
        } else {
            Ok(())
        }
    }

    pub fn validate(&self) -> (r: Result<(), &'static str>)
        ensures
            r == self.spec_validate(),
            self.name matches Some(n) && is_blank(n@) ==> r == Err::<(), &'static str>("Account name cannot be empty."),
            !(self.name matches Some(n) && is_blank(n@)) && (self.account_type matches Some(t) && is_blank(t@))
                ==> r == Err::<(), &'static str>("Account type cannot be empty."),
            r is Ok <==> !(self.name matches Some(n) && is_blank(n@)) && !(self.account_type matches Some(t) && is_blank(t@)),
    {
        proof {
            lemma_account_change_verdict(*self);
        }
        if is_given_blank(&self.name) {
            return Err("Account name cannot be empty.");
        }
        if is_given_blank(&self.account_type) {
            return Err("Account type cannot be empty.");
        }
        Ok(())
    }
}

/// A new business, with its profile; absent settings take the ledger's defaults.
pub struct CreateBusinessRequest {
    pub business_name: String,
    pub legal_name: Option<String>,
    pub business_type: Option<String>,
    pub industry: Option<String>,
    pub tax_id: Option<String>,
    pub email: Option<String>,
    pub phone: Option<String>,
    pub website: Option<String>,
    pub logo_url: Option<String>,
    pub brand_color: Option<String>,
    pub invoice_footer_text: Option<String>,
    pub default_payment_terms_days: Option<i16>,
    pub currency_code: Option<String>,
    pub timezone: Option<String>,
    pub fiscal_year_start_month: Option<i16>,
    pub fiscal_year_start_day: Option<i16>,
}

impl CreateBusinessRequest {
    /// The verdict on a new business: its name must hold more than whitespace.
    pub open spec fn spec_validate(&self) -> Result<(), &'static str> {
        if is_blank(self.business_name@) {
            Err("Business name cannot be empty.")
        } else {
            Ok(())
        }
    }

    pub fn validate(&self) -> (r: Result<(), &'static str>)
        ensures
            r == self.spec_validate(),
            is_blank(self.business_name@) ==> r == Err::<(), &'static str>("Business name cannot be empty."),
            r is Ok <==> !is_blank(self.business_name@),
    {
        proof {
            lemma_business_verdict(*self);
        }
        if is_blank_str(self.business_name.as_str()) {
            return Err("Business name cannot be empty.");
        }
        Ok(())
    }
}

/// Changes to a business; absent fields stay as they are.
pub struct UpdateBusinessRequest {
    pub business_name: Option<String>,
    pub legal_name: Option<String>,
    pub business_type: Option<String>,
    pub industry: Option<String>,
    pub tax_id: Option<String>,
    pub email: Option<String>,
    pub phone: Option<String>,
    pub website: Option<String>,
    pub logo_url: Option<String>,
    pub brand_color: Option<String>,
    pub invoice_footer_text: Option<String>,
    pub default_payment_terms_days: Option<i16>,
    pub currency_code: Option<String>,
    pub timezone: Option<String>,
    pub fiscal_year_start_month: Option<i16>,
    pub fiscal_year_start_day: Option<i16>,
    pub is_active: Option<bool>,
}

impl UpdateBusinessRequest {
    /// The verdict on a business change: a name that is given must hold more than
    /// whitespace.
    pub open spec fn spec_validate(&self) -> Result<(), &'static str> {
        if given_blank(self.business_name) {
            Err("Business name cannot be empty.")
        } else {
            Ok(())
        }
    }

    pub fn validate(&self) -> (r: Result<(), &'static str>)
        ensures
            r == self.spec_validate(),
            self.business_name matches Some(n) && is_blank(n@) ==> r == Err::<(), &'static str>("Business name cannot be empty."),
            r is Ok <==> !(self.business_name matches Some(n) && is_blank(n@)),
    {
        proof {
            lemma_business_change_verdict(*self);
        }
        if is_given_blank(&self.business_name) {
            return Err("Business name cannot be empty.");
        }
        Ok(())
    }
}

/// A new contact (customer or vendor) of a business.
pub struct CreateContactRequest {
    pub contact_type: Option<String>,
    pub display_name: String,
    pub legal_name: Option<String>,
    pub email: Option<String>,
    pub phone: Option<String>,
    pub tax_id: Option<String>,
    pub payment_terms_days: Option<i16>,
    pub notes: Option<String>,
}

impl CreateContactRequest {
    /// The verdict on a new contact: its display name must hold more than
    /// whitespace.
    pub open spec fn spec_validate(&self) -> Result<(), &'static str> {
        if is_blank(self.display_name@) {
            Err("Contact display name cannot be empty.")
        } else {
            Ok(())
        }
    }

    pub fn validate(&self) -> (r: Result<(), &'static str>)
        ensures
            r == self.spec_validate(),
            is_blank(self.display_name@) ==> r == Err::<(), &'static str>("Contact display name cannot be empty."),
            r is Ok <==> !is_blank(self.display_name@),
    {
        proof {
            lemma_contact_verdict(*self);
        }
        if is_blank_str(self.display_name.as_str()) {
            return Err("Contact display name cannot be empty.");
        }
        Ok(())
    }
}

/// Changes to a contact; absent fields stay as they are.
pub struct UpdateContactRequest {
    pub contact_type: Option<String>,
    pub display_name: Option<String>,
    pub legal_name: Option<String>,
    pub email: Option<String>,
    pub phone: Option<String>,
    pub tax_id: Option<String>,
    pub payment_terms_days: Option<i16>,
    pub notes: Option<String>,
    pub is_active: Option<bool>,
}

impl UpdateContactRequest {
    /// The verdict on a contact change: a display name that is given must hold
    /// more than whitespace.
    pub open spec fn spec_validate(&self) -> Result<(), &'static str> {
        if given_blank(self.display_name) {
            Err("Contact display name cannot be empty.")
        } else {
            Ok(())
        }
    }

    pub fn validate(&self) -> (r: Result<(), &'static str>)
        ensures
            r == self.spec_validate(),
            self.display_name matches Some(n) && is_blank(n@)
                ==> r == Err::<(), &'static str>("Contact display name cannot be empty."),
            r is Ok <==> !(self.display_name matches Some(n) && is_blank(n@)),
    {
        proof {
            lemma_contact_change_verdict(*self);
        }
        if is_given_blank(&self.display_name) {
            return Err("Contact display name cannot be empty.");
        }
        Ok(())
    }
}

/// One split of a journal entry: an amount posted to an account, positive for a
/// debit and negative for a credit, optionally tagged with a job.
pub struct CreateJournalLine {
    pub account_code: String,
    pub amount: Amount,
    pub job_code: Option<String>,
}

/// A journal entry to post: a dated, described transaction and its splits.
pub struct CreateJournalEntry {
    pub entry_date: String,
    pub description: String,
    pub reference_number: Option<String>,
    pub lines: Vec<CreateJournalLine>,
}

/// The amounts of a sequence of journal lines, in order.
pub open spec fn line_amounts(lines: Seq<CreateJournalLine>) -> Seq<Amount> {
    lines.map_values(|line: CreateJournalLine| line.amount)
}

/// Some line of the sequence has a zero amount.
pub open spec fn has_zero_amount(amounts: Seq<Amount>) -> bool {
    exists|i: int| 0 <= i < amounts.len() && (#[trigger] amounts[i]).spec_is_zero()
}

/// Summing the amounts from the first line onward overflows before a zero
/// amount is met: the lines up to and including some line `i` are all nonzero,
/// and their running total has no decimal value.
pub open spec fn sum_overflows_before_zero(amounts: Seq<Amount>) -> bool {
    exists|i: int|
        0 <= i < amounts.len() && (forall|j: int| 0 <= j <= i ==> !(#[trigger] amounts[j]).spec_is_zero())
            && (#[trigger] running_total(amounts.take(i + 1))) is None
}

impl CreateJournalEntry {
    /// The amounts of the entry's lines, in order.
    pub open spec fn amounts(&self) -> Seq<Amount> {
        line_amounts(self.lines@)
    }

    /// Checking this entry overflows the decimal total of its lines (where
    /// summing the amounts would abort).
    pub open spec fn check_overflows(&self) -> bool {
        &&& !is_blank(self.description@)
        &&& self.lines@.len() >= 2
        &&& sum_overflows_before_zero(self.amounts())
    }

    /// The double-entry verdict on a journal entry: the description must hold
    /// more than whitespace, there must be at least two lines, no line may be
    /// zero, and the lines must sum to zero (debits equal credits).
    pub open spec fn spec_validate(&self) -> Result<(), &'static str> {
        if is_blank(self.description@) {
            Err("Transaction rejected: Description cannot be empty.")
        } else if self.lines@.len() < 2 {
            Err("Transaction rejected: A valid journal entry must contain at least 2 lines (splits).")
        } else if has_zero_amount(self.amounts()) {
            Err("Transaction rejected: Individual line amounts cannot be zero.")
        } else if running_total(self.amounts()) matches Some(total) && total.spec_is_zero() {
            Ok(())
        } else {
            Err("Transaction rejected: Ledger out of balance. Total Debits must match Total Credits.")
        }
    }

    /// Some scale holds every amount, and every partial total of the amounts,
    /// summed in order and taken at that scale, has digits within 96 bits: each
    /// running total is exactly representable, so decimal addition is exact on
    /// them.
    pub open spec fn exact_sums(&self) -> bool {
        exists|scale: u32| #[trigger] sums_fit_at_scale(self.amounts(), scale)
    }

    /// The double-entry verdict in exact arithmetic: as `spec_validate`, with the
    /// balance test made on the exact sum of the amounts.
    pub open spec fn exact_verdict(&self) -> Result<(), &'static str> {
        if is_blank(self.description@) {
            Err("Transaction rejected: Description cannot be empty.")
        } else if self.lines@.len() < 2 {
            Err("Transaction rejected: A valid journal entry must contain at least 2 lines (splits).")
        } else if has_zero_amount(self.amounts()) {
            Err("Transaction rejected: Individual line amounts cannot be zero.")
        } else if value_sum(self.amounts()) == 0 {
            Ok(())
        } else {
            Err("Transaction rejected: Ledger out of balance. Total Debits must match Total Credits.")
        }
    }

    /// The verdict of the double-entry rules, computed line by line as the
    /// ledger does, or `None` where summing the line amounts overflows.
    fn verdict(&self) -> (r: Option<Result<(), &'static str>>)
        ensures
            r is None <==> self.check_overflows(),
            r matches Some(verdict) ==> verdict == self.spec_validate(),
            self.exact_sums() ==> r == Some(self.exact_verdict()),
    {
        if is_blank_str(self.description.as_str()) {
            return Some(Err("Transaction rejected: Description cannot be empty."));
        }
        if self.lines.len() < 2 {
            return Some(Err("Transaction rejected: A valid journal entry must contain at least 2 lines (splits)."));
        }
        let ghost amounts = self.amounts();
        let n = self.lines.len();
        let mut total = Amount::zero();
        let mut i: usize = 0;
        while i < n
            invariant
                n == self.lines@.len(),
                n >= 2,
                !is_blank(self.description@),
                amounts == self.amounts(),
                amounts.len() == n,
                i <= n,
                running_total(amounts.take(i as int)) == Some(total),
                forall|k: int| 0 <= k <= i ==> (#[trigger] running_total(amounts.take(k))) is Some,
                forall|j: int| 0 <= j < i ==> !(#[trigger] amounts[j]).spec_is_zero(),
                forall|scale: u32| #[trigger] sums_fit_at_scale(amounts, scale) ==> total.scale_of() <= scale
                    && total.exact_value() == value_sum(amounts.take(i as int)),
            decreases n - i,
        {
            let amount = &self.lines[i].amount;
            assert(*amount == amounts[i as int]);
            if amount.is_zero() {
                assert(has_zero_amount(amounts));
                assert forall|k: int| 0 <= k < amounts.len() && (forall|j: int| 0 <= j <= k ==> !(#[trigger] amounts[j]).spec_is_zero())
                    implies (#[trigger] running_total(amounts.take(k + 1))) is Some by {
                    assert(k + 1 <= i);
                }
                return Some(Err("Transaction rejected: Individual line amounts cannot be zero."));
            }
            assert(amounts.take(i + 1).drop_last() =~= amounts.take(i as int));
            assert(amounts.take(i + 1).last() == amounts[i as int]);
            match total.checked_add(amount) {
                Some(next) => {
                    proof {
                        assert forall|scale: u32| #[trigger] sums_fit_at_scale(amounts, scale)
                            implies next.scale_of() <= scale && next.exact_value() == value_sum(amounts.take(i + 1)) by {
                            lemma_step_fits(total, amounts, i as int, scale);
                        }
                    }
                    total = next;
                },
                None => {
                    assert forall|scale: u32| !sums_fit_at_scale(amounts, scale) by {
                        if sums_fit_at_scale(amounts, scale) {
                            lemma_step_fits(total, amounts, i as int, scale);
                        }
                    }
                    assert(sum_overflows_before_zero(amounts)) by {
                        assert(running_total(amounts.take(i + 1)) is None);
                    }
                    return None;
                },
            }
            i = i + 1;
        }
        assert(amounts.take(n as int) =~= amounts);
        proof {
            assert(!has_zero_amount(amounts));
            if sum_overflows_before_zero(amounts) {
                let k = choose|k: int|
                    0 <= k < amounts.len() && (forall|j: int| 0 <= j <= k ==> !(#[trigger] amounts[j]).spec_is_zero())
                        && (#[trigger] running_total(amounts.take(k + 1))) is None;
                assert(running_total(amounts.take(k + 1)) is Some);
            }
            assert forall|scale: u32| #[trigger] sums_fit_at_scale(amounts, scale)
                implies (total.mantissa_of() == 0) == (value_sum(amounts) == 0) by {
                lemma_pow10_monotone(0, (MAX_SCALE - total.scale_of()) as nat);
                lemma_zero_product(total.mantissa_of() as int, pow10((MAX_SCALE - total.scale_of()) as nat) as int);
            }
        }
        if total.is_zero() {
            Some(Ok(()))
        } else {
            Some(Err("Transaction rejected: Ledger out of balance. Total Debits must match Total Credits."))
        }
    }

    /// The double-entry verdict on this entry. Summing the line amounts must
    /// not overflow; `checked_validate` answers for every entry. Where every
    /// running total is exactly representable, the balance test is exact.
    pub fn validate(&self) -> (r: Result<(), &'static str>)
        requires
            !self.check_overflows(),
        ensures
            r == self.spec_validate(),
            self.exact_sums() ==> r == self.exact_verdict(),
            is_blank(self.description@) ==> r == Result::<(), &'static str>::Err("Transaction rejected: Description cannot be empty."),
            !is_blank(self.description@) && self.lines@.len() < 2 ==> r == Result::<(), &'static str>::Err("Transaction rejected: A valid journal entry must contain at least 2 lines (splits)."),
            !is_blank(self.description@) && self.lines@.len() >= 2 && (exists|i: int|
                0 <= i < self.lines@.len() && (#[trigger] self.lines@[i]).amount.spec_is_zero())
                ==> r == Result::<(), &'static str>::Err("Transaction rejected: Individual line amounts cannot be zero."),
            !is_blank(self.description@) && self.lines@.len() >= 2 && (forall|i: int|
                0 <= i < self.lines@.len() ==> !(#[trigger] self.lines@[i]).amount.spec_is_zero())
                && (running_total(self.amounts()) matches Some(total) && total.spec_is_zero()) ==> r == Result::<(), &'static str>::Ok(()),
            !is_blank(self.description@) && self.lines@.len() >= 2 && (forall|i: int|
                0 <= i < self.lines@.len() ==> !(#[trigger] self.lines@[i]).amount.spec_is_zero())
                && self.exact_sums() && value_sum(self.amounts()) == 0 ==> r == Result::<(), &'static str>::Ok(()),
            !is_blank(self.description@) && self.lines@.len() >= 2 && (forall|i: int|
                0 <= i < self.lines@.len() ==> !(#[trigger] self.lines@[i]).amount.spec_is_zero())
                && self.exact_sums() && value_sum(self.amounts()) != 0 ==> r == Result::<(), &'static str>::Err("Transaction rejected: Ledger out of balance. Total Debits must match Total Credits."),
            r == Result::<(), &'static str>::Ok(()) ==> !is_blank(self.description@) && self.lines@.len() >= 2 && (forall|i: int|
                0 <= i < self.lines@.len() ==> !(#[trigger] self.lines@[i]).amount.spec_is_zero())
                && (running_total(self.amounts()) matches Some(total) && total.spec_is_zero()),
    {
        proof {
            lemma_entry_verdict(*self);
        }
        match self.verdict() {
            Some(verdict) => verdict,
            None => {
                assert(false);
                Err("Transaction rejected: Ledger out of balance. Total Debits must match Total Credits.")
            },
        }
    }

    /// The verdict of the double-entry rules, or `None` where summing the line
    /// amounts overflows. Where every running total of the amounts is exactly
    /// representable (whatever their scales), nothing overflows and the balance
    /// test is exact: the entry balances exactly when its amounts sum to zero.
    pub fn checked_validate(&self) -> (r: Option<Result<(), &'static str>>)
        ensures
            r is None <==> self.check_overflows(),
            r matches Some(verdict) ==> verdict == self.spec_validate(),
            self.exact_sums() ==> r == Some(self.exact_verdict()),
            is_blank(self.description@) ==> r == Some(Result::<(), &'static str>::Err("Transaction rejected: Description cannot be empty.")),
            !is_blank(self.description@) && self.lines@.len() < 2 ==> r == Some(Result::<(), &'static str>::Err("Transaction rejected: A valid journal entry must contain at least 2 lines (splits).")),
            !is_blank(self.description@) && self.lines@.len() >= 2 && (exists|i: int|
                0 <= i < self.lines@.len() && (#[trigger] self.lines@[i]).amount.spec_is_zero()) && !self.check_overflows()
                ==> r == Some(Result::<(), &'static str>::Err("Transaction rejected: Individual line amounts cannot be zero.")),
            !is_blank(self.description@) && self.lines@.len() >= 2 && (forall|i: int|
                0 <= i < self.lines@.len() ==> !(#[trigger] self.lines@[i]).amount.spec_is_zero())
                && (running_total(self.amounts()) matches Some(total) && total.spec_is_zero()) ==> r == Some(Result::<(), &'static str>::Ok(())),
            !is_blank(self.description@) && self.lines@.len() >= 2 && (forall|i: int|
                0 <= i < self.lines@.len() ==> !(#[trigger] self.lines@[i]).amount.spec_is_zero())
                && self.exact_sums() && value_sum(self.amounts()) == 0 ==> r == Some(Result::<(), &'static str>::Ok(())),
            !is_blank(self.description@) && self.lines@.len() >= 2 && (forall|i: int|
                0 <= i < self.lines@.len() ==> !(#[trigger] self.lines@[i]).amount.spec_is_zero())
                && self.exact_sums() && value_sum(self.amounts()) != 0 ==> r == Some(Result::<(), &'static str>::Err("Transaction rejected: Ledger out of balance. Total Debits must match Total Credits.")),
            r == Some(Result::<(), &'static str>::Ok(())) ==> !is_blank(self.description@) && self.lines@.len() >= 2 && (forall|i: int|
                0 <= i < self.lines@.len() ==> !(#[trigger] self.lines@[i]).amount.spec_is_zero())
                && (running_total(self.amounts()) matches Some(total) && total.spec_is_zero()),
    {
        proof {
            lemma_entry_verdict(*self);
            if running_total(self.amounts()) is Some {
                lemma_totals_of_prefixes(self.amounts());
            }
        }
        self.verdict()
    }
}

/// Adding line `i` to a running total that holds the exact sum of the lines
/// before it, at a scale within `scale`, stays within what the scale allows.
proof fn lemma_step_fits(total: Amount, amounts: Seq<Amount>, i: int, scale: u32)
    requires
        sums_fit_at_scale(amounts, scale),
        0 <= i < amounts.len(),
        total.scale_of() <= scale,
        total.exact_value() == value_sum(amounts.take(i)),
    ensures
        value_sum(amounts.take(i + 1)) == total.exact_value() + amounts[i].exact_value(),
        wider_scale(total.scale_of(), amounts[i].scale_of()) <= scale,
        exact_sum_fits(total, amounts[i]),
{
    assert(amounts.take(i + 1).drop_last() =~= amounts.take(i));
    assert(amounts.take(i + 1).last() == amounts[i]);
    assert(amounts[i].scale_of() <= scale);
    let wide = wider_scale(total.scale_of(), amounts[i].scale_of());
    let fine = pow10((MAX_SCALE - scale) as nat) as int;
    let coarse = pow10((MAX_SCALE - wide) as nat) as int;
    lemma_pow10_monotone((MAX_SCALE - scale) as nat, (MAX_SCALE - wide) as nat);
    assert(MAX_MANTISSA * fine <= MAX_MANTISSA * coarse) by (nonlinear_arith)
        requires
            0 < fine <= coarse,
            MAX_MANTISSA > 0,
    ;
    assert(-MAX_MANTISSA * fine <= value_sum(amounts.take(i + 1)) <= MAX_MANTISSA * fine);
}

/// Where the running total of a sequence exists, so does that of each of its
/// prefixes: once a partial sum overflows, every later one does, so a sequence
/// whose total exists never overflows on the way.
proof fn lemma_totals_of_prefixes(amounts: Seq<Amount>)
    requires
        running_total(amounts) is Some,
    ensures
        forall|k: int| 0 <= k <= amounts.len() ==> (#[trigger] running_total(amounts.take(k))) is Some,
        !sum_overflows_before_zero(amounts),
    decreases amounts.len(),
{
    assert(amounts.take(amounts.len() as int) =~= amounts);
    if amounts.len() > 0 {
        let rest = amounts.drop_last();
        lemma_totals_of_prefixes(rest);
        assert forall|k: int| 0 <= k <= amounts.len() implies (#[trigger] running_total(amounts.take(k))) is Some by {
            if k < amounts.len() {
                assert(amounts.take(k) =~= rest.take(k));
            }
        }
    }
}

/// A product with a positive factor is zero exactly when the other factor is.
proof fn lemma_zero_product(m: int, p: int)
    requires
        p > 0,
    ensures
        (m == 0) == (m * p == 0),
{
    assert(m != 0 ==> m * p != 0) by (nonlinear_arith)
        requires
            p > 0,
    ;
}

/// The rules on a new account, field by field: a blank code (empty or all
/// whitespace) is refused first, then a blank name, then a blank type, and an
/// account whose three fields each hold something other than whitespace is
/// accepted.
pub proof fn lemma_account_verdict(req: CreateAccountRequest)
    ensures
        is_blank(req.code@) ==> req.spec_validate() == Err::<(), &'static str>("Account code cannot be empty."),
        !is_blank(req.code@) && is_blank(req.name@) ==> req.spec_validate() == Err::<(), &'static str>("Account name cannot be empty."),
        !is_blank(req.code@) && !is_blank(req.name@) && is_blank(req.account_type@)
            ==> req.spec_validate() == Err::<(), &'static str>("Account type cannot be empty."),
        req.spec_validate() is Ok <==> !is_blank(req.code@) && !is_blank(req.name@) && !is_blank(req.account_type@),
{
}

/// The rules on an account change: a name given blank is refused first, then a
/// type given blank; fields left out are never refused.
pub proof fn lemma_account_change_verdict(req: UpdateAccountRequest)
    ensures
        req.name matches Some(n) && is_blank(n@) ==> req.spec_validate() == Err::<(), &'static str>("Account name cannot be empty."),
        !(req.name matches Some(n) && is_blank(n@)) && (req.account_type matches Some(t) && is_blank(t@))
            ==> req.spec_validate() == Err::<(), &'static str>("Account type cannot be empty."),
        req.spec_validate() is Ok <==> !(req.name matches Some(n) && is_blank(n@)) && !(req.account_type matches Some(t)
            && is_blank(t@)),
{
}

/// A new business is accepted exactly when its name holds something other than
/// whitespace.
pub proof fn lemma_business_verdict(req: CreateBusinessRequest)
    ensures
        is_blank(req.business_name@) ==> req.spec_validate() == Err::<(), &'static str>("Business name cannot be empty."),
        req.spec_validate() is Ok <==> !is_blank(req.business_name@),
{
}

/// A business change is refused exactly when it gives a name made only of
/// whitespace (the empty name included).
pub proof fn lemma_business_change_verdict(req: UpdateBusinessRequest)
    ensures
        req.business_name matches Some(n) && is_blank(n@) ==> req.spec_validate() == Err::<(), &'static str>(
            "Business name cannot be empty.",
        ),
        req.spec_validate() is Ok <==> !(req.business_name matches Some(n) && is_blank(n@)),
{
}

/// A new contact is accepted exactly when its display name holds something
/// other than whitespace.
pub proof fn lemma_contact_verdict(req: CreateContactRequest)
    ensures
        is_blank(req.display_name@) ==> req.spec_validate() == Err::<(), &'static str>("Contact display name cannot be empty."),
        req.spec_validate() is Ok <==> !is_blank(req.display_name@),
{
}

/// A contact change is refused exactly when it gives a display name made only
/// of whitespace.
pub proof fn lemma_contact_change_verdict(req: UpdateContactRequest)
    ensures
        req.display_name matches Some(n) && is_blank(n@) ==> req.spec_validate() == Err::<(), &'static str>(
            "Contact display name cannot be empty.",
        ),
        req.spec_validate() is Ok <==> !(req.display_name matches Some(n) && is_blank(n@)),
{
}

/// The paging rules: a page holds 50 entries when no size is asked for, the
/// size asked for when it is from 1 to 200, 1 below that and 200 above; no
/// entries are skipped when no offset, or a negative one, is asked for, else
/// the offset asked for.
pub proof fn lemma_paging_rules(limit: Option<i64>, offset: Option<i64>)
    ensures
        limit is None ==> spec_page_size(limit) == 50,
        limit matches Some(l) ==> (1 <= l <= 200 ==> spec_page_size(limit) == l),
        limit matches Some(l) ==> (l < 1 ==> spec_page_size(limit) == 1),
        limit matches Some(l) ==> (l > 200 ==> spec_page_size(limit) == 200),
        offset is None ==> spec_page_offset(offset) == 0,
        offset matches Some(o) ==> (o >= 0 ==> spec_page_offset(offset) == o),
        offset matches Some(o) ==> (o < 0 ==> spec_page_offset(offset) == 0),
{
}

/// The double-entry rules, stated over the entry itself. A blank description is
/// refused first, then fewer than two lines, then a zero line. Past those, an
/// entry is accepted exactly when its lines' decimal total is zero, whatever
/// the number of lines; and where every running total is exactly
/// representable, exactly when the amounts sum to zero.
pub proof fn lemma_entry_verdict(entry: CreateJournalEntry)
    ensures
        is_blank(entry.description@) ==> entry.spec_validate() == Err::<(), &'static str>("Transaction rejected: Description cannot be empty.")
            && entry.exact_verdict() == Err::<(), &'static str>("Transaction rejected: Description cannot be empty."),
        !is_blank(entry.description@) && entry.lines@.len() < 2 ==> entry.spec_validate() == Err::<(), &'static str>(
            "Transaction rejected: A valid journal entry must contain at least 2 lines (splits).",
        ) && entry.exact_verdict() == Err::<(), &'static str>("Transaction rejected: A valid journal entry must contain at least 2 lines (splits)."),
        !is_blank(entry.description@) && entry.lines@.len() >= 2 && (exists|i: int|
            0 <= i < entry.lines@.len() && (#[trigger] entry.lines@[i]).amount.spec_is_zero())
            ==> entry.spec_validate() == Err::<(), &'static str>("Transaction rejected: Individual line amounts cannot be zero.")
            && entry.exact_verdict() == Err::<(), &'static str>("Transaction rejected: Individual line amounts cannot be zero."),
        !is_blank(entry.description@) && entry.lines@.len() >= 2 && (forall|i: int|
            0 <= i < entry.lines@.len() ==> !(#[trigger] entry.lines@[i]).amount.spec_is_zero()) ==> ({
            &&& (running_total(entry.amounts()) matches Some(total) && total.spec_is_zero())
                ==> entry.spec_validate() == Ok::<(), &'static str>(())
            &&& !(running_total(entry.amounts()) matches Some(total) && total.spec_is_zero())
                ==> entry.spec_validate() == Err::<(), &'static str>("Transaction rejected: Ledger out of balance. Total Debits must match Total Credits.")
            &&& value_sum(entry.amounts()) == 0 ==> entry.exact_verdict() == Ok::<(), &'static str>(())
            &&& value_sum(entry.amounts()) != 0 ==> entry.exact_verdict() == Err::<(), &'static str>("Transaction rejected: Ledger out of balance. Total Debits must match Total Credits.")
        }),
{
    let amounts = entry.amounts();
    if !is_blank(entry.description@) && entry.lines@.len() >= 2 {
        if exists|i: int| 0 <= i < entry.lines@.len() && (#[trigger] entry.lines@[i]).amount.spec_is_zero() {
            let i = choose|i: int| 0 <= i < entry.lines@.len() && (#[trigger] entry.lines@[i]).amount.spec_is_zero();
            assert(amounts[i] == entry.lines@[i].amount);
        } else {
            assert forall|i: int| 0 <= i < amounts.len() implies !(#[trigger] amounts[i]).spec_is_zero() by {
                assert(amounts[i] == entry.lines@[i].amount);
                assert(!entry.lines@[i].amount.spec_is_zero());
            }
            assert(!has_zero_amount(amounts));
        }
    }
}

/// Normalizing a page request twice changes nothing: a served page size or
/// offset, asked for again, is served as it is.
pub proof fn lemma_paging_idempotent(limit: Option<i64>, offset: Option<i64>)
    ensures
        spec_page_size(Some(spec_page_size(limit))) == spec_page_size(limit),
        spec_page_offset(Some(spec_page_offset(offset))) == spec_page_offset(offset),
{
}

/// An accepted journal entry has a description with more than whitespace, at
/// least two lines, no line of zero, and lines whose decimal total is zero.
pub proof fn lemma_accepted_entry_balances(entry: CreateJournalEntry)
    requires
        entry.spec_validate() is Ok,
    ensures
        !is_blank(entry.description@),
        entry.lines@.len() >= 2,
        forall|i: int| 0 <= i < entry.lines@.len() ==> !(#[trigger] entry.lines@[i]).amount.spec_is_zero(),
        running_total(entry.amounts()) matches Some(total) && total.spec_is_zero(),
{
    assert forall|i: int| 0 <= i < entry.lines@.len() implies !(#[trigger] entry.lines@[i]).amount.spec_is_zero() by {
        assert(entry.amounts()[i] == entry.lines@[i].amount);
    }
}

/// Sequences holding the same amounts, each as often, either both hold a zero
/// amount or neither does.
proof fn lemma_zero_amount_reordered(a: Seq<Amount>, b: Seq<Amount>)
    requires
        a.to_multiset() == b.to_multiset(),
    ensures
        has_zero_amount(a) == has_zero_amount(b),
{
    broadcast use vstd::seq_lib::group_to_multiset_ensures;

    if has_zero_amount(a) {
        let i = choose|i: int| 0 <= i < a.len() && (#[trigger] a[i]).spec_is_zero();
        assert(a.contains(a[i]));
        assert(b.to_multiset().count(a[i]) > 0);
        assert(b.contains(a[i]));
    }
    if has_zero_amount(b) {
        let i = choose|i: int| 0 <= i < b.len() && (#[trigger] b[i]).spec_is_zero();
        assert(b.contains(b[i]));
        assert(a.to_multiset().count(b[i]) > 0);
        assert(a.contains(b[i]));
    }
}

/// The verdict does not depend on the order of the lines: two entries with the
/// same description whose lines carry the same amounts, each as often, get the
/// same exact verdict, message included. Where every running total of an
/// entry's amounts is exactly representable (`exact_sums`), `validate` and
/// `checked_validate` give exactly this verdict, so two such entries whose lines
/// are reordered get the same answer from them.
pub proof fn lemma_verdict_ignores_line_order(first: CreateJournalEntry, second: CreateJournalEntry)
    requires
        first.description@ == second.description@,
        first.amounts().to_multiset() == second.amounts().to_multiset(),
    ensures
        first.exact_verdict() == second.exact_verdict(),
{
    broadcast use vstd::seq_lib::group_to_multiset_ensures;

    assert(first.amounts().to_multiset().len() == first.amounts().len());
    assert(second.amounts().to_multiset().len() == second.amounts().len());
    lemma_zero_amount_reordered(first.amounts(), second.amounts());
    lemma_value_sum_reordered(first.amounts(), second.amounts());
}

/// The fields of an accepted new account, sent as a change, are accepted too.
pub proof fn lemma_account_fields_accepted_as_change(create: CreateAccountRequest, change: UpdateAccountRequest)
    requires
        create.spec_validate() is Ok,
        change.name matches Some(name) && name@ == create.name@,
        change.account_type matches Some(account_type) && account_type@ == create.account_type@,
    ensures
        change.spec_validate() is Ok,
{
}

/// The name of an accepted new business, sent as a change, is accepted too.
pub proof fn lemma_business_fields_accepted_as_change(create: CreateBusinessRequest, change: UpdateBusinessRequest)
    requires
        create.spec_validate() is Ok,
        change.business_name matches Some(name) && name@ == create.business_name@,
    ensures
        change.spec_validate() is Ok,
{
}

/// The display name of an accepted new contact, sent as a change, is accepted
/// too.
pub proof fn lemma_contact_fields_accepted_as_change(create: CreateContactRequest, change: UpdateContactRequest)
    requires
        create.spec_validate() is Ok,
        change.display_name matches Some(name) && name@ == create.display_name@,
    ensures
        change.spec_validate() is Ok,
{
}

/// A change that gives no name, type or display name is always accepted.
pub proof fn lemma_empty_changes_accepted(account: UpdateAccountRequest, business: UpdateBusinessRequest, contact: UpdateContactRequest)
    requires
        account.name is None,
        account.account_type is None,
        business.business_name is None,
        contact.display_name is None,
    ensures
        account.spec_validate() is Ok,
        business.spec_validate() is Ok,
        contact.spec_validate() is Ok,
{
}

} // verus!
