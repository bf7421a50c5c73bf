//! The mock email transport: it logs the message to standard output
//! instead of delivering it. The engine only learns whether delivery
//! was accepted; nothing is promised about the outcome.

use std::io::Write;

use vstd::prelude::*;

use crate::email::Email;

verus! {

/// An email transport that logs instead of sending.
#[derive(Clone, Copy, Default)]
pub struct MockEmailClient;

impl MockEmailClient {
    /// Relies on `writeln!` to standard output: the mock transport
    /// only logs the recipient, subject and content.
    #[verifier::external_body]
    pub fn send_email(&self, recipient: &Email, subject: &str, content: &str) -> (r: Result<
        (),
        String,
    >) {
        let mut out = std::io::stdout();
        let _ = writeln!(
            out,
            "Sending email to {} with subject: {} and content: {}",
            recipient.value(),
            subject,
            content,
        );
        Ok(())
    }
}

} // verus!
