//! What an operation hands back to the host: a structured event and the
//! queued transfer instructions the host is to execute afterwards.

use vstd::prelude::*;

verus! {

/// One key/value pair of a structured event.
pub struct Attribute {
    pub key: String,
    pub value: String,
}

/// One asset movement a ledger operation asks the host to execute: `amount`
/// of the token at `token` moves from `owner` to `recipient`. It is the
/// plain record of what the opaque host instruction beside it encodes.
pub struct TransferInstruction {
    pub token: String,
    pub owner: String,
    pub recipient: String,
    pub amount: u128,
}

/// The outcome of an operation: event attributes, and host instructions to
/// be executed after the operation commits — each held twice, as the opaque
/// encoded message for the host and as the plain record of its content.
pub struct Response {
    pub attributes: Vec<Attribute>,
    pub messages: Vec<cosmwasm_std::CosmosMsg<cosmwasm_std::Empty>>,
    pub transfers: Vec<TransferInstruction>,
}

impl Response {
    /// An empty response: no attributes, no instructions.
    pub fn new() -> (r: Response)
        ensures
            r.attributes@.len() == 0,
            r.messages@.len() == 0,
            r.transfers@.len() == 0,
    {
        Response { attributes: Vec::new(), messages: Vec::new(), transfers: Vec::new() }
    }

    /// Appends one event attribute.
    pub fn add_attribute(self, key: &str, value: String) -> (r: Response)
        ensures
            r.attributes@.len() == self.attributes@.len() + 1,
            forall|i: int|
                0 <= i < self.attributes@.len() ==> #[trigger] r.attributes@[i]
                    == self.attributes@[i],
            r.attributes@.last().key@ == key@,
            r.attributes@.last().value@ == value@,
            r.messages@ == self.messages@,
            r.transfers@ == self.transfers@,
    {
        let mut attributes = self.attributes;
        attributes.push(Attribute { key: key.to_owned(), value });
        Response { attributes, messages: self.messages, transfers: self.transfers }
    }

    /// Queues one host instruction together with the record of the transfer
    /// it encodes.
    pub fn add_message(
        self,
        msg: cosmwasm_std::CosmosMsg<cosmwasm_std::Empty>,
        transfer: TransferInstruction,
    ) -> (r: Response)
        ensures
            r.attributes@ == self.attributes@,
            r.messages@ == self.messages@.push(msg),
            r.transfers@ == self.transfers@.push(transfer),
    {
        let mut messages = self.messages;
        messages.push(msg);
        let mut transfers = self.transfers;
        transfers.push(transfer);
        Response { attributes: self.attributes, messages, transfers }
    }
}

} // verus!
