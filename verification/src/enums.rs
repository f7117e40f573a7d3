//! The platform's canonical, closed enumerations.
//!
//! Every connector's native status vocabulary is mapped into
//! [`AttemptStatus`] and [`RefundStatus`]; the remaining enumerations
//! classify requests before a connector is called.

use vstd::prelude::*;

verus! {

/// Canonical lifecycle state of one payment attempt.
#[derive(Clone, Copy, Debug, PartialEq, Eq, Structural)]
pub enum AttemptStatus {
    Started,
    AuthenticationPending,
    Authorized,
    Charged,
    Failure,
    Pending,
    Unresolved,
    Voided,
}

/// Canonical lifecycle state of one refund.
#[derive(Clone, Copy, Debug, PartialEq, Eq, Structural)]
pub enum RefundStatus {
    Failure,
    ManualReview,
    Pending,
    Success,
    TransactionFailure,
}

/// Lifecycle state of a payment intent, before any attempt is picked.
#[derive(Clone, Copy, Debug, PartialEq, Eq, Structural)]
pub enum IntentStatus {
    Succeeded,
    Failed,
    Cancelled,
    Processing,
    RequiresCustomerAction,
    RequiresMerchantAction,
    RequiresPaymentMethod,
    RequiresConfirmation,
    RequiresCapture,
    PartiallyCaptured,
    PartiallyCapturedAndCapturable,
    Conflicted,
}

/// The snake_case rendering of an intent status, as the platform reports it
/// in error payloads.
pub open spec fn spec_intent_status_str(s: IntentStatus) -> Seq<char> {
    match s {
        IntentStatus::Succeeded => "succeeded"@,
        IntentStatus::Failed => "failed"@,
        IntentStatus::Cancelled => "cancelled"@,
        IntentStatus::Processing => "processing"@,
        IntentStatus::RequiresCustomerAction => "requires_customer_action"@,
        IntentStatus::RequiresMerchantAction => "requires_merchant_action"@,
        IntentStatus::RequiresPaymentMethod => "requires_payment_method"@,
        IntentStatus::RequiresConfirmation => "requires_confirmation"@,
        IntentStatus::RequiresCapture => "requires_capture"@,
        IntentStatus::PartiallyCaptured => "partially_captured"@,
        IntentStatus::PartiallyCapturedAndCapturable => "partially_captured_and_capturable"@,
        IntentStatus::Conflicted => "conflicted"@,
    }
}

impl IntentStatus {
    /// The snake_case name of the status.
    pub fn as_snake_str(&self) -> (r: &'static str)
        ensures
            r@ == spec_intent_status_str(*self),
    {
        match self {
            IntentStatus::Succeeded => "succeeded",
            IntentStatus::Failed => "failed",
            IntentStatus::Cancelled => "cancelled",
            IntentStatus::Processing => "processing",
            IntentStatus::RequiresCustomerAction => "requires_customer_action",
            IntentStatus::RequiresMerchantAction => "requires_merchant_action",
            IntentStatus::RequiresPaymentMethod => "requires_payment_method",
            IntentStatus::RequiresConfirmation => "requires_confirmation",
            IntentStatus::RequiresCapture => "requires_capture",
            IntentStatus::PartiallyCaptured => "partially_captured",
            IntentStatus::PartiallyCapturedAndCapturable => "partially_captured_and_capturable",
            IntentStatus::Conflicted => "conflicted",
        }
    }
}

/// ISO currency of an amount.
#[derive(Clone, Copy, Debug, Hash, PartialEq, Eq, Structural)]
pub enum Currency {
    EUR,
    GBP,
    INR,
    JPY,
    SGD,
    USD,
}

/// The upper-case ISO code of a currency.
pub open spec fn spec_currency_str(c: Currency) -> Seq<char> {
    match c {
        Currency::EUR => "EUR"@,
        Currency::GBP => "GBP"@,
        Currency::INR => "INR"@,
        Currency::JPY => "JPY"@,
        Currency::SGD => "SGD"@,
        Currency::USD => "USD"@,
    }
}

impl Currency {
    /// The upper-case ISO code of the currency.
    pub fn as_str(&self) -> (r: &'static str)
        ensures
            r@ == spec_currency_str(*self),
    {
        match self {
            Currency::EUR => "EUR",
            Currency::GBP => "GBP",
            Currency::INR => "INR",
            Currency::JPY => "JPY",
            Currency::SGD => "SGD",
            Currency::USD => "USD",
        }
    }
}

/// The kind of payment instrument a request uses.
#[derive(Clone, Copy, Debug, PartialEq, Eq, Structural)]
pub enum PaymentMethod {
    Card,
    Wallet,
    BankRedirect,
    BankTransfer,
    Crypto,
    Upi,
}

/// The concrete variant of a payment instrument.
#[derive(Clone, Copy, Debug, PartialEq, Eq, Structural)]
pub enum PaymentMethodType {
    Credit,
    Debit,
    ApplePay,
    GooglePay,
    Sepa,
    UpiCollect,
}

/// How the customer experiences the payment step.
#[derive(Clone, Copy, Debug, PartialEq, Eq, Structural)]
pub enum PaymentExperience {
    RedirectToUrl,
    InvokeSdkClient,
    DisplayQrCode,
}

/// HTTP method of a wire request.
#[derive(Clone, Copy, Debug, PartialEq, Eq, Structural)]
pub enum Method {
    Get,
    Post,
    Put,
    Delete,
    Patch,
}

} // verus!
