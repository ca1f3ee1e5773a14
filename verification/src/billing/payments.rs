//! Payment records: invoices reported by a provider, dummy checkouts, and the CSV
//! export of a domain's payments.
use vstd::prelude::*;
use vstd::string::*;
use crate::app_error::AppError;
use crate::billing::plan_change::{timestamp_of, unix_seconds, valid_instant, NANOS_PER_SECOND};
use crate::billing::types::{
    BillingPaymentWithUser, CreatePaymentInput, SubscriptionPlanProfile, UserSubscriptionProfile,
};
use crate::entities::payment_mode::PaymentMode;
use crate::entities::payment_status::PaymentStatus;
use crate::outside::{
    datetime_text, format_timestamp, now_nanos,
    random_uuid, timestamp_in_range, timestamp_representable, uuid_text, uuid_to_string,
};
use crate::text::{
    chars_of, concat2, decimal, decimal_digits, owned, push_char, to_uppercase, unicode_uppercase,
};

verus! {

// ============================================================================
// CSV fields
// ============================================================================

/// The characters that force a CSV field into quotes.
pub open spec fn needs_quoting(f: Seq<char>) -> bool {
    f.contains(',') || f.contains('"') || f.contains('\n') || f.contains('\r')
}

/// The characters a spreadsheet reads as the start of a formula.
pub open spec fn formula_start(c: char) -> bool {
    c == '=' || c == '+' || c == '-' || c == '@' || c == '\t' || c == '\r'
}

/// Whether a field would be read as a formula.
pub open spec fn is_formula(f: Seq<char>) -> bool {
    f.len() > 0 && formula_start(f[0])
}

/// The field, with a single quote put in front of a formula.
pub open spec fn defused(f: Seq<char>) -> Seq<char> {
    if is_formula(f) {
        seq!['\''] + f
    } else {
        f
    }
}

/// The text written for one character inside a quoted field.
pub open spec fn quoted_char(c: char) -> Seq<char> {
    if c == '"' {
        seq!['"', '"']
    } else {
        seq![c]
    }
}

/// Every double quote of `s` doubled (`str::replace('"', "\"\"")`).
pub open spec fn double_quotes(s: Seq<char>) -> Seq<char>
    decreases s.len(),
{
    if s.len() == 0 {
        Seq::empty()
    } else {
        quoted_char(s[0]) + double_quotes(s.drop_first())
    }
}

/// A field as written to the CSV: defused, and put in double quotes (with its
/// quotes doubled) when it holds a separator or quote or was a formula.
pub open spec fn csv_field(f: Seq<char>) -> Seq<char> {
    if needs_quoting(f) || is_formula(f) {
        seq!['"'] + double_quotes(defused(f)) + seq!['"']
    } else {
        defused(f)
    }
}

/// The text inside a quoted field read back: each pair of double quotes is one.
pub open spec fn undouble(t: Seq<char>) -> Seq<char>
    decreases t.len(),
{
    if t.len() == 0 {
        Seq::empty()
    } else if t.len() >= 2 && t[0] == '"' && t[1] == '"' {
        seq!['"'] + undouble(t.subrange(2, t.len() as int))
    } else {
        seq![t[0]] + undouble(t.drop_first())
    }
}

/// A CSV field read back: a quoted field loses its quotes and has its doubled
/// quotes undone; any other field is taken as it stands.
pub open spec fn read_csv_field(t: Seq<char>) -> Seq<char> {
    if t.len() >= 2 && t[0] == '"' && t.last() == '"' {
        undouble(t.subrange(1, t.len() - 1))
    } else {
        t
    }
}

proof fn lemma_double_quotes_push(s: Seq<char>, c: char)
    ensures
        double_quotes(s.push(c)) == double_quotes(s) + quoted_char(c),
    decreases s.len(),
{
    if s.len() == 0 {
        assert(s.push(c).drop_first() =~= Seq::<char>::empty());
        assert(s.push(c)[0] == c);
        assert(double_quotes(s.push(c).drop_first()) =~= Seq::<char>::empty());
        assert(double_quotes(s) =~= Seq::<char>::empty());
        assert(double_quotes(s.push(c)) =~= quoted_char(c) + Seq::<char>::empty());
        assert(double_quotes(s.push(c)) =~= double_quotes(s) + quoted_char(c));
    } else {
        assert(s.push(c).drop_first() =~= s.drop_first().push(c));
        lemma_double_quotes_push(s.drop_first(), c);
        assert(double_quotes(s.push(c)) =~= double_quotes(s) + quoted_char(c));
    }
}

proof fn lemma_undouble_double_quotes(s: Seq<char>)
    ensures
        undouble(double_quotes(s)) == s,
    decreases s.len(),
{
    if s.len() > 0 {
        let rest = double_quotes(s.drop_first());
        lemma_undouble_double_quotes(s.drop_first());
        let t = quoted_char(s[0]) + rest;
        if s[0] == '"' {
            assert(t.subrange(2, t.len() as int) =~= rest);
        } else {
            assert(t.drop_first() =~= rest);
        }
        assert(undouble(t) =~= s);
    }
}

proof fn lemma_double_quotes_contains(s: Seq<char>, c: char)
    requires
        c != '"',
    ensures
        double_quotes(s).contains(c) <==> s.contains(c),
    decreases s.len(),
{
    if s.len() > 0 {
        lemma_double_quotes_contains(s.drop_first(), c);
        let t = quoted_char(s[0]) + double_quotes(s.drop_first());
        if s.contains(c) {
            let i = choose|i: int| 0 <= i < s.len() && s[i] == c;
            if i == 0 {
                assert(t[0] == c);
            } else {
                assert(s.drop_first()[i - 1] == c);
                let j = choose|j: int| 0 <= j < double_quotes(s.drop_first()).len() && double_quotes(s.drop_first())[j] == c;
                assert(t[quoted_char(s[0]).len() + j] == c);
            }
        }
        if t.contains(c) {
            let j = choose|j: int| 0 <= j < t.len() && t[j] == c;
            if j < quoted_char(s[0]).len() {
                assert(s[0] == c);
            } else {
                assert(double_quotes(s.drop_first())[j - quoted_char(s[0]).len()] == c);
                let i = choose|i: int| 0 <= i < s.drop_first().len() && s.drop_first()[i] == c;
                assert(s[i + 1] == c);
            }
        }
    }
}

/// A written field is never read by a spreadsheet as a formula: it starts with a
/// double quote, or with the field's own first character, which is no formula
/// start.
pub proof fn lemma_csv_field_not_formula(f: Seq<char>)
    ensures
        !is_formula(csv_field(f)),
{
}

/// Reading a written field back gives the field, with the single quote that
/// defuses a formula in front of it.
pub proof fn lemma_csv_field_roundtrip(f: Seq<char>)
    ensures
        read_csv_field(csv_field(f)) == defused(f),
{
    let t = csv_field(f);
    if needs_quoting(f) || is_formula(f) {
        let inner = double_quotes(defused(f));
        assert(t.subrange(1, t.len() - 1) =~= inner);
        lemma_undouble_double_quotes(defused(f));
    } else {
        if t.len() >= 2 && t[0] == '"' {
            assert(f.contains('"'));
        }
    }
}

/// A field left unquoted holds no separator, line break or quote.
pub proof fn lemma_unquoted_field_is_plain(f: Seq<char>)
    ensures
        csv_field(f)[0] != '"' || csv_field(f).len() == 0 ==> !needs_quoting(csv_field(f)),
{
    if needs_quoting(f) || is_formula(f) {
        assert(csv_field(f)[0] == '"');
    }
}

/// Escape a field for CSV output, including formula injection prevention.
/// Spreadsheet applications (Excel, Google Sheets, etc.) will execute formulas
/// starting with =, +, -, @, tab, or carriage return. We prefix such values
/// with a single quote to prevent formula injection attacks.
pub fn escape_csv_field(field: &str) -> (r: String)
    ensures
        r@ == csv_field(field@),
{
    let v: Vec<char> = chars_of(field);
    let mut needs: bool = false;
    let mut i: usize = 0;
    while i < v.len()
        invariant
            v@ == field@,
            i <= v.len(),
            needs == (v@.subrange(0, i as int).contains(',') || v@.subrange(0, i as int).contains('"')
                || v@.subrange(0, i as int).contains('\n') || v@.subrange(0, i as int).contains('\r')),
        decreases v.len() - i,
    {
        let c: char = v[i];
        proof {
            let a = v@.subrange(0, i as int);
            let b = v@.subrange(0, i + 1);
            assert(b =~= a.push(c));
            assert forall|x: char| b.contains(x) <==> (a.contains(x) || x == c) by {
                if b.contains(x) {
                    let k = choose|k: int| 0 <= k < b.len() && b[k] == x;
                    if k < a.len() {
                        assert(a[k] == x);
                    }
                }
                if a.contains(x) {
                    let k = choose|k: int| 0 <= k < a.len() && a[k] == x;
                    assert(b[k] == x);
                }
                if x == c {
                    assert(b[i as int] == x);
                }
            }
        }
        if c == ',' || c == '"' || c == '\n' || c == '\r' {
            needs = true;
        }
        i = i + 1;
    }
    assert(v@.subrange(0, v@.len() as int) =~= field@);
    // Check for formula injection characters at start
    let formula: bool = v.len() > 0 && (v[0] == '=' || v[0] == '+' || v[0] == '-' || v[0] == '@'
        || v[0] == '\t' || v[0] == '\r');
    let mut d: Vec<char> = Vec::new();
    if formula {
        // Prefix with single quote to prevent formula execution
        d.push('\'');
    }
    let mut k: usize = 0;
    while k < v.len()
        invariant
            v@ == field@,
            k <= v.len(),
            d@ == (if formula { seq!['\''] } else { Seq::<char>::empty() }) + v@.subrange(0, k as int),
        decreases v.len() - k,
    {
        d.push(v[k]);
        assert(v@.subrange(0, k + 1) =~= v@.subrange(0, k as int).push(v@[k as int]));
        k = k + 1;
    }
    assert(d@ =~= defused(field@));
    let mut out: String = String::new();
    if needs || formula {
        push_char(&mut out, '"');
        let mut j: usize = 0;
        assert(d@.subrange(0, 0) =~= Seq::<char>::empty());
        while j < d.len()
            invariant
                j <= d.len(),
                out@ == seq!['"'] + double_quotes(d@.subrange(0, j as int)),
            decreases d.len() - j,
        {
            let c: char = d[j];
            proof {
                assert(d@.subrange(0, j + 1) =~= d@.subrange(0, j as int).push(c));
                lemma_double_quotes_push(d@.subrange(0, j as int), c);
            }
            if c == '"' {
                push_char(&mut out, '"');
                push_char(&mut out, '"');
            } else {
                push_char(&mut out, c);
            }
            assert(out@ =~= seq!['"'] + double_quotes(d@.subrange(0, j + 1)));
            j = j + 1;
        }
        assert(d@.subrange(0, d@.len() as int) =~= d@);
        push_char(&mut out, '"');
        out
    } else {
        let mut j: usize = 0;
        while j < d.len()
            invariant
                j <= d.len(),
                out@ == d@.subrange(0, j as int),
            decreases d.len() - j,
        {
            push_char(&mut out, d[j]);
            assert(out@ =~= d@.subrange(0, j + 1));
            j = j + 1;
        }
        assert(d@.subrange(0, d@.len() as int) =~= d@);
        out
    }
}

// ============================================================================
// Amounts
// ============================================================================

/// The decimal digit of a value below ten.
pub open spec fn digit(v: int) -> char {
    (('0' as u32) + v) as char
}

/// An amount in cents written as currency units with two decimals: "19.99",
/// "0.05", "-3.10".
pub open spec fn cents_text(cents: int) -> Seq<char> {
    let a = if cents < 0 {
        -cents
    } else {
        cents
    };
    (if cents < 0 {
        "-"@
    } else {
        ""@
    }) + decimal_digits((a / 100) as nat) + seq!['.', digit((a % 100) / 10), digit(a % 10)]
}

/// An amount in cents as currency units with two decimals.
pub fn format_cents(cents: i32) -> (r: String)
    ensures
        r@ == cents_text(cents as int),
{
    let a: u64 = if cents < 0 {
        (-(cents as i64)) as u64
    } else {
        cents as u64
    };
    let mut s: String = if cents < 0 {
        concat2("-", decimal(a / 100).as_str())
    } else {
        decimal(a / 100)
    };
    push_char(&mut s, '.');
    let tens: u8 = (48 + (a % 100) / 10) as u8;
    let ones: u8 = (48 + a % 10) as u8;
    push_char(&mut s, tens as char);
    push_char(&mut s, ones as char);
    proof {
        reveal_strlit("-");
        reveal_strlit("");
    }
    assert(s@ =~= cents_text(cents as int));
    s
}

// ============================================================================
// CSV export
// ============================================================================

/// The first line of the export.
pub open spec fn csv_header() -> Seq<char> {
    "Date,User Email,Plan,Amount,Status,Invoice Number,Billing Reason\n"@
}

/// The date shown for an instant: its `%Y-%m-%d %H:%M:%S` text, or nothing when
/// chrono cannot represent it.
pub open spec fn date_text(t: Option<i128>) -> Seq<char> {
    match t {
        Some(v) => match datetime_text(unix_seconds(v as int) as i64, "%Y-%m-%d %H:%M:%S"@) {
            Some(s) => s,
            None => Seq::empty(),
        },
        None => Seq::empty(),
    }
}

/// The text of an optional string, empty when absent.
pub open spec fn text_or_empty(s: Option<String>) -> Seq<char> {
    match s {
        Some(v) => v@,
        None => Seq::empty(),
    }
}

/// One line of the export: the payment date (else its creation date), the user's
/// e-mail, the plan name, the amount, the status, the invoice number and the
/// billing reason, the user-provided fields escaped.
pub open spec fn csv_row(p: BillingPaymentWithUser) -> Seq<char> {
    let date = date_text(
        if p.payment.payment_date is Some {
            p.payment.payment_date
        } else {
            p.payment.created_at
        },
    );
    date + ","@ + csv_field(p.user_email@) + ","@ + csv_field(text_or_empty(p.payment.plan_name))
        + ","@ + cents_text(p.payment.amount_cents as int) + ","@ + p.payment.status.name() + ","@
        + csv_field(text_or_empty(p.payment.invoice_number)) + ","@ + csv_field(
        text_or_empty(p.payment.billing_reason),
    ) + "\n"@
}

/// The export of a list of payments: the header, then one line per payment.
pub open spec fn csv_export(payments: Seq<BillingPaymentWithUser>) -> Seq<char>
    decreases payments.len(),
{
    if payments.len() == 0 {
        csv_header()
    } else {
        csv_export(payments.drop_last()) + csv_row(payments.last())
    }
}

/// The instants of a payment that the export reads are instants the service can hold.
pub open spec fn export_instants_valid(p: BillingPaymentWithUser) -> bool {
    &&& p.payment.payment_date matches Some(t) ==> valid_instant(t as int)
    &&& p.payment.created_at matches Some(t) ==> valid_instant(t as int)
}

fn opt_text(s: &Option<String>) -> (r: &str)
    ensures
        r@ == text_or_empty(*s),
{
    match s {
        Some(v) => v.as_str(),
        None => {
            proof {
                reveal_strlit("");
            }
            ""
        },
    }
}

fn date_of(t: Option<i128>) -> (r: String)
    requires
        t matches Some(v) ==> valid_instant(v as int),
    ensures
        r@ == date_text(t),
{
    match t {
        Some(v) => match format_timestamp(timestamp_of(v), "%Y-%m-%d %H:%M:%S") {
            Some(s) => s,
            None => String::new(),
        },
        None => String::new(),
    }
}

fn csv_line(p: &BillingPaymentWithUser) -> (r: String)
    requires
        export_instants_valid(*p),
    ensures
        r@ == csv_row(*p),
{
    let when: Option<i128> = if p.payment.payment_date.is_some() {
        p.payment.payment_date
    } else {
        p.payment.created_at
    };
    let mut line: String = date_of(when);
    line.append(",");
    line.append(escape_csv_field(p.user_email.as_str()).as_str());
    line.append(",");
    line.append(escape_csv_field(opt_text(&p.payment.plan_name)).as_str());
    line.append(",");
    line.append(format_cents(p.payment.amount_cents).as_str());
    line.append(",");
    line.append(p.payment.status.as_str());
    line.append(",");
    line.append(escape_csv_field(opt_text(&p.payment.invoice_number)).as_str());
    line.append(",");
    line.append(escape_csv_field(opt_text(&p.payment.billing_reason)).as_str());
    line.append("\n");
    line
}

/// Export payments as CSV
pub fn export_payments_csv(payments: &Vec<BillingPaymentWithUser>) -> (r: String)
    requires
        forall|i: int| 0 <= i < payments@.len() ==> export_instants_valid(#[trigger] payments@[i]),
    ensures
        r@ == csv_export(payments@),
{
    let mut csv: String = String::new();
    csv.append("Date,User Email,Plan,Amount,Status,Invoice Number,Billing Reason\n");
    let mut i: usize = 0;
    assert(payments@.subrange(0, 0) =~= Seq::<BillingPaymentWithUser>::empty());
    while i < payments.len()
        invariant
            i <= payments@.len(),
            forall|k: int| 0 <= k < payments@.len() ==> export_instants_valid(#[trigger] payments@[k]),
            csv@ == csv_export(payments@.subrange(0, i as int)),
        decreases payments@.len() - i,
    {
        let line: String = csv_line(&payments[i]);
        csv.append(line.as_str());
        assert(payments@.subrange(0, i + 1).drop_last() =~= payments@.subrange(0, i as int));
        i = i + 1;
    }
    assert(payments@.subrange(0, payments@.len() as int) =~= payments@);
    csv
}

// ============================================================================
// Invoices reported by a provider
// ============================================================================

/// The fields of a provider invoice that the service reads, each `None` when the
/// invoice lacks it or holds a value of another kind.
#[derive(Debug, Clone)]
pub struct InvoiceFields {
    pub id: Option<String>,
    pub customer: Option<String>,
    pub status: Option<String>,
    /// `status_transitions.paid_at`, in Unix seconds.
    pub paid_at: Option<i64>,
    pub payment_intent: Option<String>,
    pub amount_due: Option<i64>,
    pub amount_paid: Option<i64>,
    pub currency: Option<String>,
    pub hosted_invoice_url: Option<String>,
    pub invoice_pdf: Option<String>,
    pub number: Option<String>,
    pub billing_reason: Option<String>,
    /// In Unix seconds.
    pub created: Option<i64>,
}

/// The instant of a Unix timestamp, when chrono can represent it.
pub open spec fn instant_of_seconds(secs: Option<i64>) -> Option<i128> {
    match secs {
        Some(s) => if timestamp_representable(s) {
            Some((s * 1_000_000_000) as i128)
        } else {
            None
        },
        None => None,
    }
}

fn instant_from_seconds(secs: Option<i64>) -> (r: Option<i128>)
    ensures
        r == instant_of_seconds(secs),
{
    match secs {
        Some(s) => if timestamp_in_range(s) {
            Some((s as i128) * NANOS_PER_SECOND)
        } else {
            None
        },
        None => None,
    }
}

/// The customer an invoice belongs to ("" when it names none).
pub fn invoice_customer_id(invoice: &InvoiceFields) -> (r: String)
    ensures
        r@ == text_or_empty(invoice.customer),
{
    owned(opt_text(&invoice.customer))
}

/// The currency an invoice is recorded in: its own, uppercased, else USD.
pub open spec fn invoice_currency(c: Option<String>) -> Seq<char> {
    unicode_uppercase(
        match c {
            Some(v) => v@,
            None => "usd"@,
        },
    )
}

/// The payment record for an invoice of a known subscription; an invoice whose
/// customer has no subscription in the mode cannot be recorded.
pub fn invoice_payment_input(
    domain_id: u128,
    mode: PaymentMode,
    invoice: &InvoiceFields,
    subscription: Option<UserSubscriptionProfile>,
    plan: Option<SubscriptionPlanProfile>,
) -> (r: Result<CreatePaymentInput, AppError>)
    ensures
        subscription is None ==> r == Err::<CreatePaymentInput, AppError>(AppError::NotFound),
        subscription matches Some(sub) ==> (r matches Ok(p) && {
            let status = PaymentStatus::of_invoice_status(text_or_empty(invoice.status));
            &&& p.domain_id == domain_id
            &&& p.payment_mode == mode
            &&& p.end_user_id == sub.end_user_id
            &&& p.subscription_id == Some(sub.id)
            &&& p.stripe_invoice_id@ == text_or_empty(invoice.id)
            &&& p.stripe_payment_intent_id == invoice.payment_intent
            &&& p.stripe_customer_id@ == text_or_empty(invoice.customer)
            &&& p.amount_cents == (match invoice.amount_due {
                Some(v) => v,
                None => 0,
            }) as i32
            &&& p.amount_paid_cents == (match invoice.amount_paid {
                Some(v) => v,
                None => 0,
            }) as i32
            &&& p.currency@ == invoice_currency(invoice.currency)
            &&& p.status == status
            &&& p.plan_id == Some(sub.plan_id)
            &&& p.plan_code == (match plan {
                Some(pl) => Some(pl.code),
                None => None::<String>,
            })
            &&& p.plan_name == (match plan {
                Some(pl) => Some(pl.name),
                None => None::<String>,
            })
            &&& p.hosted_invoice_url == invoice.hosted_invoice_url
            &&& p.invoice_pdf_url == invoice.invoice_pdf
            &&& p.invoice_number == invoice.number
            &&& p.billing_reason == invoice.billing_reason
            &&& p.failure_message is None
            &&& p.invoice_created_at == instant_of_seconds(invoice.created)
            &&& p.payment_date == (if status == PaymentStatus::Paid {
                instant_of_seconds(invoice.paid_at)
            } else {
                None
            })
        }),
{
    let sub: UserSubscriptionProfile = match subscription {
        Some(s) => s,
        // If we can't find the subscription, we can't create the payment
        None => return Err(AppError::NotFound),
    };
    let (plan_code, plan_name): (Option<String>, Option<String>) = match plan {
        Some(p) => (Some(p.code), Some(p.name)),
        None => (None, None),
    };
    let status: PaymentStatus = PaymentStatus::from_stripe_invoice_status(opt_text(&invoice.status));
    let payment_date: Option<i128> = if status == PaymentStatus::Paid {
        instant_from_seconds(invoice.paid_at)
    } else {
        None
    };
    let amount_due: i64 = match invoice.amount_due {
        Some(v) => v,
        None => 0,
    };
    let amount_paid: i64 = match invoice.amount_paid {
        Some(v) => v,
        None => 0,
    };
    let currency: String = match &invoice.currency {
        Some(c) => to_uppercase(c.as_str()),
        None => to_uppercase("usd"),
    };
    Ok(CreatePaymentInput {
        domain_id,
        payment_mode: mode,
        end_user_id: sub.end_user_id,
        subscription_id: Some(sub.id),
        stripe_invoice_id: owned(opt_text(&invoice.id)),
        stripe_payment_intent_id: invoice.payment_intent.clone(),
        stripe_customer_id: invoice_customer_id(invoice),
        amount_cents: amount_due as i32,
        amount_paid_cents: amount_paid as i32,
        currency,
        status,
        plan_id: Some(sub.plan_id),
        plan_code,
        plan_name,
        hosted_invoice_url: invoice.hosted_invoice_url.clone(),
        invoice_pdf_url: invoice.invoice_pdf.clone(),
        invoice_number: invoice.number.clone(),
        billing_reason: invoice.billing_reason.clone(),
        failure_message: None,
        invoice_created_at: instant_from_seconds(invoice.created),
        payment_date,
    })
}

// ============================================================================
// Dummy checkout
// ============================================================================

/// The invoice number of a dummy payment made at `now`.
pub open spec fn dummy_invoice_number(now: int) -> Seq<char> {
    "DUMMY-"@ + match datetime_text(unix_seconds(now) as i64, "%Y%m%d%H%M%S"@) {
        Some(t) => t,
        None => Seq::empty(),
    }
}

/// The payment recorded for a dummy provider checkout, given the two fresh ids
/// and the time it is recorded at.
pub fn dummy_payment_input(
    domain_id: u128,
    user_id: u128,
    subscription_id: u128,
    plan: &SubscriptionPlanProfile,
    invoice_uuid: u128,
    intent_uuid: u128,
    now: i128,
) -> (r: CreatePaymentInput)
    requires
        valid_instant(now as int),
    ensures
        r.domain_id == domain_id,
        r.payment_mode == PaymentMode::Test,
        r.end_user_id == user_id,
        r.subscription_id == Some(subscription_id),
        r.stripe_invoice_id@ == "dummy_inv_"@ + uuid_text(invoice_uuid),
        r.stripe_payment_intent_id matches Some(pi) && pi@ == "dummy_pi_"@ + uuid_text(intent_uuid),
        r.stripe_customer_id@ == "dummy_cus_"@ + uuid_text(user_id),
        r.amount_cents == plan.price_cents,
        r.amount_paid_cents == plan.price_cents,
        r.currency@ == unicode_uppercase(plan.currency@),
        r.status == PaymentStatus::Paid,
        r.plan_id == Some(plan.id),
        r.plan_code == Some(plan.code),
        r.plan_name == Some(plan.name),
        r.hosted_invoice_url is None,
        r.invoice_pdf_url is None,
        r.invoice_number matches Some(n) && n@ == dummy_invoice_number(now as int),
        r.billing_reason matches Some(b) && b@ == "subscription_create"@,
        r.failure_message is None,
        r.invoice_created_at == Some(now),
        r.payment_date == Some(now),
{
    let inv: String = uuid_to_string(invoice_uuid);
    let pi: String = uuid_to_string(intent_uuid);
    let cus: String = uuid_to_string(user_id);
    let stamp: String = match format_timestamp(timestamp_of(now), "%Y%m%d%H%M%S") {
        Some(t) => t,
        None => String::new(),
    };
    CreatePaymentInput {
        domain_id,
        payment_mode: PaymentMode::Test,
        end_user_id: user_id,
        subscription_id: Some(subscription_id),
        stripe_invoice_id: concat2("dummy_inv_", inv.as_str()),
        stripe_payment_intent_id: Some(concat2("dummy_pi_", pi.as_str())),
        stripe_customer_id: concat2("dummy_cus_", cus.as_str()),
        amount_cents: plan.price_cents,
        amount_paid_cents: plan.price_cents,
        currency: to_uppercase(plan.currency.as_str()),
        status: PaymentStatus::Paid,
        plan_id: Some(plan.id),
        plan_code: Some(plan.code.clone()),
        plan_name: Some(plan.name.clone()),
        hosted_invoice_url: None,
        invoice_pdf_url: None,
        invoice_number: Some(concat2("DUMMY-", stamp.as_str())),
        billing_reason: Some("subscription_create".to_owned()),
        failure_message: None,
        invoice_created_at: Some(now),
        payment_date: Some(now),
    }
}

/// `r` carries the invoice id `inv`, the payment intent id `pi` and the
/// creation time `now` of a dummy payment.
pub open spec fn dummy_ids_and_time(r: CreatePaymentInput, inv: u128, pi: u128, now: i128) -> bool {
    &&& valid_instant(now as int)
    &&& r.stripe_invoice_id@ == "dummy_inv_"@ + uuid_text(inv)
    &&& r.stripe_payment_intent_id matches Some(x) && x@ == "dummy_pi_"@ + uuid_text(pi)
    &&& r.invoice_number matches Some(n) && n@ == dummy_invoice_number(now as int)
    &&& r.invoice_created_at == Some(now)
    &&& r.payment_date == Some(now)
}

/// Create a payment record for dummy provider checkout: two fresh random ids and
/// the current time go into the record `dummy_payment_input` describes.
pub fn create_dummy_payment_input(
    domain_id: u128,
    user_id: u128,
    subscription_id: u128,
    plan: &SubscriptionPlanProfile,
) -> (r: CreatePaymentInput)
    ensures
        exists|inv: u128, pi: u128, now: i128| #[trigger] dummy_ids_and_time(r, inv, pi, now),
        r.domain_id == domain_id,
        r.payment_mode == PaymentMode::Test,
        r.end_user_id == user_id,
        r.subscription_id == Some(subscription_id),
        r.stripe_customer_id@ == "dummy_cus_"@ + uuid_text(user_id),
        r.amount_cents == plan.price_cents,
        r.amount_paid_cents == plan.price_cents,
        r.currency@ == unicode_uppercase(plan.currency@),
        r.status == PaymentStatus::Paid,
        r.plan_id == Some(plan.id),
        r.plan_code == Some(plan.code),
        r.plan_name == Some(plan.name),
        r.billing_reason matches Some(b) && b@ == "subscription_create"@,
{
    let now: i128 = now_nanos();
    let invoice_uuid: u128 = random_uuid();
    let intent_uuid: u128 = random_uuid();
    let r: CreatePaymentInput = dummy_payment_input(
        domain_id,
        user_id,
        subscription_id,
        plan,
        invoice_uuid,
        intent_uuid,
        now,
    );
    assert(dummy_ids_and_time(r, invoice_uuid, intent_uuid, now));
    r
}

/// The Date column of an exported payment comes first in its row: the payment
/// date whenever the payment has one, and the creation date only when it has none.
pub proof fn lemma_csv_date_column(p: BillingPaymentWithUser)
    ensures
        p.payment.payment_date is Some ==> exists|rest: Seq<char>|
            csv_row(p) == date_text(p.payment.payment_date) + ","@ + rest,
        p.payment.payment_date is None ==> exists|rest: Seq<char>|
            csv_row(p) == date_text(p.payment.created_at) + ","@ + rest,
{
    let rest = csv_field(p.user_email@) + ","@ + csv_field(text_or_empty(p.payment.plan_name)) + ","@
        + cents_text(p.payment.amount_cents as int) + ","@ + p.payment.status.name() + ","@ + csv_field(
        text_or_empty(p.payment.invoice_number),
    ) + ","@ + csv_field(text_or_empty(p.payment.billing_reason)) + "\n"@;
    let when = if p.payment.payment_date is Some {
        p.payment.payment_date
    } else {
        p.payment.created_at
    };
    assert(csv_row(p) =~= date_text(when) + ","@ + rest);
}

} // verus!
