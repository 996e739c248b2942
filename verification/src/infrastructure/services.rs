//! Adapters to the outside services: email notifications, the card payment
//! gateway and the bank that pays refunds out. Their calls are performed by
//! the application shell; the library holds their configuration.

use vstd::prelude::*;

verus! {

/// Sends transactional messages to users by email.
pub struct EmailNotificationService;

impl EmailNotificationService {
    pub fn new() -> (r: Self) {
        EmailNotificationService
    }
}

impl Default for EmailNotificationService {
    fn default() -> (r: Self) {
        Self::new()
    }
}

/// The card payment gateway, with the API key it authenticates with.
pub struct StripePaymentGateway {
    api_key: String,
}

impl StripePaymentGateway {
    #[verifier::type_invariant]
    spec fn uses_test_key(self) -> bool {
        self.api_key@ == "sk_test_mock_key"@
    }

    pub closed spec fn key(self) -> Seq<char> {
        self.api_key@
    }

    /// A gateway configured with the test API key.
    pub fn new() -> (r: Self)
        ensures
            r.key() == "sk_test_mock_key"@,
    {
        StripePaymentGateway { api_key: String::from_str("sk_test_mock_key") }
    }

    /// The first ten characters of the API key, which is all that is ever
    /// shown of it.
    pub fn key_prefix(&self) -> (r: &str)
        ensures
            r@ == self.key().subrange(0, 10),
    {
        proof {
            use_type_invariant(self);
            reveal_strlit("sk_test_mock_key");
        }
        self.api_key.as_str().substring_ascii(0, 10)
    }
}

impl Default for StripePaymentGateway {
    fn default() -> (r: Self)
        ensures
            r.key() == "sk_test_mock_key"@,
    {
        Self::new()
    }
}

/// Pays approved refunds out through the bank.
pub struct BankRefundService;

impl BankRefundService {
    pub fn new() -> (r: Self) {
        BankRefundService
    }
}

impl Default for BankRefundService {
    fn default() -> (r: Self) {
        Self::new()
    }
}

} // verus!
