//! Contract IDs as they are kept in stored data: by their text.

use vstd::prelude::*;
use crate::errors::Error;
#[allow(unused_imports)]
use crate::errors::undecodable;
use crate::info::ContractId;
use crate::outside::{parse_contract_id, show_contract_id};
#[allow(unused_imports)]
use crate::outside::{contract_id_bytes, contract_id_text};

verus! {

/// The text under which a contract ID is kept. It reads back as the same ID.
pub fn serialize(id: &ContractId) -> (r: String)
    ensures
        r@ == contract_id_text(id@),
        contract_id_bytes(r@) == Some(id@),
{
    show_contract_id(&id.0)
}

/// The contract ID that a kept text shows.
pub fn deserialize(text: &str) -> (r: Result<ContractId, Error>)
    ensures
        match r {
            Ok(id) => contract_id_bytes(text@) == Some(id@),
            Err(e) => contract_id_bytes(text@) is None && e@ == undecodable(),
        },
{
    match parse_contract_id(text) {
        Ok(bytes) => Ok(ContractId(bytes)),
        Err(message) => Err(Error::Undecodable { message }),
    }
}

} // verus!
