//! Sensitive commissioning input of the Matter node workflow.

use vstd::prelude::*;

use crate::matter_controller::MatterCommissioningRequest;
use crate::ports::SecretValue;

verus! {

/// Sensitive setup input accepted only after commissioning admission is durable.
#[derive(Clone)]
pub struct MatterCommissioningInput {
    setup_payload: SecretValue,
}

impl MatterCommissioningInput {
    /// Wraps setup bytes without making them serializable or ordinarily inspectable.
    pub fn new(setup_payload: SecretValue) -> (r: Self)
        ensures
            r.payload() == setup_payload@,
    {
        MatterCommissioningInput { setup_payload }
    }

    pub closed spec fn payload(&self) -> Seq<u8> {
        self.setup_payload@
    }

    /// Consumes the sensitive input at the explicit controller request boundary.
    pub fn into_controller_request(self, operation_id: u64, fabric_id: u64) -> (r: MatterCommissioningRequest)
        ensures
            r.operation() == operation_id,
            r.fabric() == fabric_id,
            r.payload() == self.payload(),
    {
        MatterCommissioningRequest::new(operation_id, fabric_id, self.setup_payload)
    }

    /// Debug rendering with the setup payload redacted.
    pub fn debug_string(&self) -> (s: String)
        ensures
            s@ == "MatterCommissioningInput { setup_payload: \"[REDACTED]\" }"@,
    {
        String::from_str("MatterCommissioningInput { setup_payload: \"[REDACTED]\" }")
    }
}

} // verus!
