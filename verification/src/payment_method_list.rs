//! Listing the payment methods available for a payment: validating the
//! intent's state, then the pure pipeline that turns the enabled
//! payment-method records into the response shape.
//!
//! Fetching the intent and the connector accounts is the caller's
//! business; everything here is transformation.

use vstd::prelude::*;
use crate::enums::IntentStatus;
use crate::enums::PaymentExperience;
use crate::enums::PaymentMethod;
use crate::enums::PaymentMethodType;
use crate::enums::spec_intent_status_str;
use crate::error::ApiError;

verus! {

/// One field a payment method requires from the customer.
pub struct RequiredFieldInfo {
    pub required_field: String,
    pub display_name: String,
}

/// The surcharge attached to a payment method, as the response reports
/// it.
pub struct SurchargeDetailsResponse {
    pub display_surcharge_amount: i64,
    pub display_total_surcharge_amount: i64,
}

/// One of the customer's saved payment methods, as the response reports
/// it.
pub struct CustomerPaymentMethodResponseItem {
    pub payment_token: String,
    pub payment_method_id: String,
    pub payment_method: PaymentMethod,
}

/// One enabled payment-method subtype of a connector account.
pub struct EnabledPaymentMethodType {
    pub payment_method_subtype: PaymentMethodType,
    pub payment_experience: Option<PaymentExperience>,
}

/// One enabled payment-method record of a connector account.
pub struct PaymentMethodsEnabledForConnector {
    pub payment_methods_enabled: EnabledPaymentMethodType,
    pub payment_method: PaymentMethod,
}

/// The enabled payment-method records of every connector account, laid
/// flat.
pub struct FlattenedPaymentMethodsEnabled {
    pub payment_methods_enabled: Vec<PaymentMethodsEnabledForConnector>,
}

/// Container for the inputs the required-fields step needs. The step
/// currently derives everything from the records themselves.
pub struct RequiredFieldsInput {}

impl RequiredFieldsInput {
    /// Gather the inputs of the required-fields step.
    pub fn new() -> (r: Self)
        ensures
            r == (RequiredFieldsInput {  }),
    {
        RequiredFieldsInput {  }
    }
}

/// The records that survived filtering.
pub struct FilteredPaymentMethodsEnabled(pub Vec<PaymentMethodsEnabledForConnector>);

/// One filtered record with its required fields attached.
pub struct RequiredFieldsForEnabledPaymentMethod {
    pub required_field: Option<Vec<RequiredFieldInfo>>,
    pub payment_method_subtype: PaymentMethodType,
    pub payment_method_type: PaymentMethod,
    pub payment_experience: Option<PaymentExperience>,
}

/// The filtered records with required fields attached.
pub struct RequiredFieldsForEnabledPaymentMethodTypes(
    pub Vec<RequiredFieldsForEnabledPaymentMethod>,
);

/// One record with required fields and surcharge attached.
pub struct RequiredFieldsAndSurchargeForEnabledPaymentMethodType {
    pub required_field: Option<Vec<RequiredFieldInfo>>,
    pub payment_method_subtype: PaymentMethodType,
    pub payment_method_type: PaymentMethod,
    pub payment_experience: Option<PaymentExperience>,
    pub surcharge: Option<SurchargeDetailsResponse>,
}

/// The records with required fields and surcharge attached.
pub struct RequiredFieldsAndSurchargeForEnabledPaymentMethodTypes(
    pub Vec<RequiredFieldsAndSurchargeForEnabledPaymentMethodType>,
);

/// One payment-method entry of the response.
pub struct ResponsePaymentMethodTypesForPayments {
    pub payment_method_type: PaymentMethod,
    pub payment_method_subtype: PaymentMethodType,
    pub payment_experience: Option<PaymentExperience>,
    pub required_fields: Option<Vec<RequiredFieldInfo>>,
    pub surcharge_details: Option<SurchargeDetailsResponse>,
    pub extra_information: Option<serde_json::Value>,
}

/// The payment-method listing returned for one payment.
pub struct PaymentMethodListResponseForPayments {
    pub payment_methods_enabled: Vec<ResponsePaymentMethodTypesForPayments>,
    pub customer_payment_methods: Option<Vec<CustomerPaymentMethodResponseItem>>,
}

/// What the required-fields step attaches to one record: no fields are
/// required of the customer yet, and the record's identity carries over.
pub open spec fn spec_required_fields_entry(
    p: PaymentMethodsEnabledForConnector,
) -> RequiredFieldsForEnabledPaymentMethod {
    RequiredFieldsForEnabledPaymentMethod {
        required_field: None,
        payment_method_subtype: p.payment_methods_enabled.payment_method_subtype,
        payment_method_type: p.payment_method,
        payment_experience: p.payment_methods_enabled.payment_experience,
    }
}

/// What the surcharge step attaches to one record: no surcharge applies
/// yet, and the record carries over.
pub open spec fn spec_surcharge_entry(
    p: RequiredFieldsForEnabledPaymentMethod,
) -> RequiredFieldsAndSurchargeForEnabledPaymentMethodType {
    RequiredFieldsAndSurchargeForEnabledPaymentMethodType {
        required_field: p.required_field,
        payment_method_subtype: p.payment_method_subtype,
        payment_method_type: p.payment_method_type,
        payment_experience: p.payment_experience,
        surcharge: None,
    }
}

/// The response entry one record becomes.
pub open spec fn spec_response_entry(
    p: RequiredFieldsAndSurchargeForEnabledPaymentMethodType,
) -> ResponsePaymentMethodTypesForPayments {
    ResponsePaymentMethodTypesForPayments {
        payment_method_type: p.payment_method_type,
        payment_method_subtype: p.payment_method_subtype,
        payment_experience: p.payment_experience,
        required_fields: p.required_field,
        surcharge_details: p.surcharge,
        extra_information: None,
    }
}

/// Filtering of enabled payment-method records before the listing is
/// assembled.
pub trait PerformFilteringOnPaymentMethodsEnabled {
    /// Keep the records the listing may show.
    fn perform_filtering(self) -> FilteredPaymentMethodsEnabled;
}

impl PerformFilteringOnPaymentMethodsEnabled for FlattenedPaymentMethodsEnabled {
    /// No filter applies at this stage: every record passes.
    fn perform_filtering(self) -> (r: FilteredPaymentMethodsEnabled)
        ensures
            r.0 == self.payment_methods_enabled,
    {
        FilteredPaymentMethodsEnabled(self.payment_methods_enabled)
    }
}

impl FilteredPaymentMethodsEnabled {
    /// Attach to each record the fields it requires from the customer.
    pub fn get_required_fields(self, _input: RequiredFieldsInput) -> (r:
        RequiredFieldsForEnabledPaymentMethodTypes)
        ensures
            r.0@.len() == self.0@.len(),
            forall|i: int|
                0 <= i < self.0@.len() ==> r.0@[i] == spec_required_fields_entry(#[trigger] self.0@[i]),
    {
        let ghost orig = self.0@;
        let mut records = self.0;
        let mut required_fields_info: Vec<RequiredFieldsForEnabledPaymentMethod> = Vec::new();
        while records.len() > 0
            invariant
                required_fields_info@.len() + records@.len() == orig.len(),
                records@ == orig.subrange(required_fields_info@.len() as int, orig.len() as int),
                forall|i: int|
                    0 <= i < required_fields_info@.len() ==> required_fields_info@[i]
                        == spec_required_fields_entry(#[trigger] orig[i]),
            decreases records@.len(),
        {
            let payment_methods_enabled = records.remove(0);
            required_fields_info.push(
                RequiredFieldsForEnabledPaymentMethod {
                    required_field: None,
                    payment_method_type: payment_methods_enabled.payment_method,
                    payment_method_subtype: payment_methods_enabled
                        .payment_methods_enabled
                        .payment_method_subtype,
                    payment_experience: payment_methods_enabled
                        .payment_methods_enabled
                        .payment_experience,
                },
            );
            proof {
                assert(records@ =~= orig.subrange(
                    required_fields_info@.len() as int,
                    orig.len() as int,
                ));
            }
        }
        RequiredFieldsForEnabledPaymentMethodTypes(required_fields_info)
    }
}

impl RequiredFieldsForEnabledPaymentMethodTypes {
    /// Attach to each record the surcharge that applies to it.
    pub fn perform_surcharge_calculation(self) -> (r:
        RequiredFieldsAndSurchargeForEnabledPaymentMethodTypes)
        ensures
            r.0@.len() == self.0@.len(),
            forall|i: int|
                0 <= i < self.0@.len() ==> r.0@[i] == spec_surcharge_entry(#[trigger] self.0@[i]),
    {
        let ghost orig = self.0@;
        let mut records = self.0;
        let mut details_with_surcharge: Vec<RequiredFieldsAndSurchargeForEnabledPaymentMethodType> =
            Vec::new();
        while records.len() > 0
            invariant
                details_with_surcharge@.len() + records@.len() == orig.len(),
                records@ == orig.subrange(details_with_surcharge@.len() as int, orig.len() as int),
                forall|i: int|
                    0 <= i < details_with_surcharge@.len() ==> details_with_surcharge@[i]
                        == spec_surcharge_entry(#[trigger] orig[i]),
            decreases records@.len(),
        {
            let payment_methods_enabled = records.remove(0);
            details_with_surcharge.push(
                RequiredFieldsAndSurchargeForEnabledPaymentMethodType {
                    payment_method_type: payment_methods_enabled.payment_method_type,
                    required_field: payment_methods_enabled.required_field,
                    payment_method_subtype: payment_methods_enabled.payment_method_subtype,
                    payment_experience: payment_methods_enabled.payment_experience,
                    surcharge: None,
                },
            );
            proof {
                assert(records@ =~= orig.subrange(
                    details_with_surcharge@.len() as int,
                    orig.len() as int,
                ));
            }
        }
        RequiredFieldsAndSurchargeForEnabledPaymentMethodTypes(details_with_surcharge)
    }
}

impl RequiredFieldsAndSurchargeForEnabledPaymentMethodTypes {
    /// Assemble the listing response, pairing the per-method entries with
    /// the customer's saved payment methods.
    pub fn generate_response(
        self,
        customer_payment_methods: Option<Vec<CustomerPaymentMethodResponseItem>>,
    ) -> (r: PaymentMethodListResponseForPayments)
        ensures
            r.payment_methods_enabled@.len() == self.0@.len(),
            forall|i: int|
                0 <= i < self.0@.len() ==> r.payment_methods_enabled@[i] == spec_response_entry(
                    #[trigger] self.0@[i],
                ),
            r.customer_payment_methods == customer_payment_methods,
    {
        let ghost orig = self.0@;
        let mut records = self.0;
        let mut response_payment_methods: Vec<ResponsePaymentMethodTypesForPayments> = Vec::new();
        while records.len() > 0
            invariant
                response_payment_methods@.len() + records@.len() == orig.len(),
                records@ == orig.subrange(response_payment_methods@.len() as int, orig.len() as int),
                forall|i: int|
                    0 <= i < response_payment_methods@.len() ==> response_payment_methods@[i]
                        == spec_response_entry(#[trigger] orig[i]),
            decreases records@.len(),
        {
            let payment_methods_enabled = records.remove(0);
            response_payment_methods.push(
                ResponsePaymentMethodTypesForPayments {
                    payment_method_type: payment_methods_enabled.payment_method_type,
                    payment_method_subtype: payment_methods_enabled.payment_method_subtype,
                    payment_experience: payment_methods_enabled.payment_experience,
                    required_fields: payment_methods_enabled.required_field,
                    surcharge_details: payment_methods_enabled.surcharge,
                    extra_information: None,
                },
            );
            proof {
                assert(records@ =~= orig.subrange(
                    response_payment_methods@.len() as int,
                    orig.len() as int,
                ));
            }
        }
        PaymentMethodListResponseForPayments {
            payment_methods_enabled: response_payment_methods,
            customer_payment_methods,
        }
    }
}

/// Whether a payment in this state may have its payment methods listed:
/// only a payment still waiting for one.
pub fn validate_payment_status_for_payment_method_list(intent_status: IntentStatus) -> (r: Result<
    (),
    ApiError,
>)
    ensures
        intent_status == IntentStatus::RequiresPaymentMethod <==> r is Ok,
        intent_status != IntentStatus::RequiresPaymentMethod ==> (r matches Err(
            ApiError::PaymentUnexpectedState {
                current_flow,
                field_name,
                current_value,
                states,
            },
        ) && current_flow@ == "list_payment_methods"@
            && field_name@ == "status"@
            && current_value@ == spec_intent_status_str(intent_status)
            && states@ == "requires_payment_method"@),
{
    match intent_status {
        IntentStatus::RequiresPaymentMethod => Ok(()),
        IntentStatus::Succeeded
        | IntentStatus::Conflicted
        | IntentStatus::Failed
        | IntentStatus::Cancelled
        | IntentStatus::Processing
        | IntentStatus::RequiresCustomerAction
        | IntentStatus::RequiresMerchantAction
        | IntentStatus::RequiresCapture
        | IntentStatus::PartiallyCaptured
        | IntentStatus::RequiresConfirmation
        | IntentStatus::PartiallyCapturedAndCapturable => Err(
            ApiError::PaymentUnexpectedState {
                current_flow: "list_payment_methods".to_string(),
                field_name: "status".to_string(),
                current_value: intent_status.as_snake_str().to_string(),
                states: "requires_payment_method".to_string(),
            },
        ),
    }
}

/// The compute part of listing payment methods for a payment: validate
/// the intent's state, then run the records through the
/// filter/required-fields/surcharge pipeline and assemble the response.
/// The caller fetches the intent, the connector accounts and the
/// customer's saved methods, and hands their contents in as values.
pub fn payment_method_list_response(
    intent_status: IntentStatus,
    payment_connector_accounts: FlattenedPaymentMethodsEnabled,
    customer_payment_methods: Option<Vec<CustomerPaymentMethodResponseItem>>,
) -> (r: Result<PaymentMethodListResponseForPayments, ApiError>)
    ensures
        intent_status == IntentStatus::RequiresPaymentMethod <==> r is Ok,
        intent_status != IntentStatus::RequiresPaymentMethod ==> (r matches Err(
            ApiError::PaymentUnexpectedState {
                current_flow,
                field_name,
                current_value,
                states,
            },
        ) && current_flow@ == "list_payment_methods"@
            && field_name@ == "status"@
            && current_value@ == spec_intent_status_str(intent_status)
            && states@ == "requires_payment_method"@),
        r matches Ok(resp) ==> (resp.payment_methods_enabled@.len()
            == payment_connector_accounts.payment_methods_enabled@.len()
            && (forall|i: int|
            0 <= i < payment_connector_accounts.payment_methods_enabled@.len()
                ==> resp.payment_methods_enabled@[i] == spec_response_entry(
                spec_surcharge_entry(
                    spec_required_fields_entry(
                        #[trigger] payment_connector_accounts.payment_methods_enabled@[i],
                    ),
                ),
            )) && resp.customer_payment_methods == customer_payment_methods),
{
    match validate_payment_status_for_payment_method_list(intent_status) {
        Ok(_) => (),
        Err(e) => {
            return Err(e);
        },
    }
    let response = payment_connector_accounts
        .perform_filtering()
        .get_required_fields(RequiredFieldsInput::new())
        .perform_surcharge_calculation()
        .generate_response(customer_payment_methods);
    Ok(response)
}

} // verus!
