use vstd::prelude::*;
use vstd::string::*;

use crate::proto::MsgRequestBridgeWithdrawal;

verus! {

/// A key/value pair reported with a successful operation.
#[derive(Debug, Clone, PartialEq, Eq)]
pub struct Attribute {
    pub key: String,
    pub value: String,
}

/// An instruction attached to a successful operation, which the host
/// executes after the call returns; its failure undoes the whole call.
#[derive(Debug, Clone, PartialEq, Eq)]
pub enum Instruction {
    /// Send `amount` of the native asset `denom` to `to_address`.
    BankSend { to_address: String, denom: String, amount: u128 },
    /// Execute the JSON message `msg` on the contract `contract_addr`.
    WasmExecute { contract_addr: String, msg: String },
    /// A chain-module message, addressed by its type URL.
    BridgeWithdrawal { type_url: String, withdrawal: MsgRequestBridgeWithdrawal },
}

/// What a successful operation hands back to the host.
#[derive(Debug, Clone, PartialEq, Eq)]
pub struct Response {
    pub messages: Vec<Instruction>,
    pub attributes: Vec<Attribute>,
}

/// `a` is the attribute `key = value`.
pub open spec fn attribute_is(a: Attribute, key: Seq<char>, value: Seq<char>) -> bool {
    a.key@ == key && a.value@ == value
}

/// The attributes `attrs` are, in order, the pairs of `expected`.
pub open spec fn attributes_are(attrs: Seq<Attribute>, expected: Seq<(Seq<char>, Seq<char>)>) -> bool {
    &&& attrs.len() == expected.len()
    &&& forall|i: int|
        0 <= i < attrs.len() ==> attribute_is(#[trigger] attrs[i], expected[i].0, expected[i].1)
}

/// `after` is `before` followed by the pairs of `added`.
pub open spec fn attributes_extend(
    after: Seq<Attribute>,
    before: Seq<Attribute>,
    added: Seq<(Seq<char>, Seq<char>)>,
) -> bool {
    &&& after.len() == before.len() + added.len()
    &&& after.subrange(0, before.len() as int) == before
    &&& attributes_are(after.subrange(before.len() as int, after.len() as int), added)
}

/// Builds the attribute `key = value`.
pub fn attr(key: &str, value: String) -> (a: Attribute)
    ensures
        a.key@ == key@,
        a.value == value,
{
    Attribute { key: String::from_str(key), value }
}

} // verus!
