//! Developer faucet answers.

use vstd::prelude::*;
use crate::text::{join, joined};

verus! {

#[derive(Debug, Clone)]
pub struct FaucetResponse {
    pub success: bool,
    pub message: String,
    pub sol_tx_signature: Option<String>,
    pub token_tx_signature: Option<String>,
}

impl FaucetResponse {
    /// The answer after the requested actions, each described by one message.
    pub fn completed(messages: &Vec<String>, sol_tx_signature: Option<String>, token_tx_signature: Option<String>) -> (r: Self)
        ensures
            r.success,
            r.message@ == (if messages@.len() == 0 {
                "No actions requested"@
            } else {
                joined(messages@.map_values(|m: String| m@), ", "@)
            }),
            r.sol_tx_signature == sol_tx_signature,
            r.token_tx_signature == token_tx_signature,
    {
        let message = if messages.len() == 0 {
            String::from_str("No actions requested")
        } else {
            join(messages, ", ")
        };
        FaucetResponse { success: true, message, sol_tx_signature, token_tx_signature }
    }
}

} // verus!
