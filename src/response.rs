use crate::amount::{Amount, AmountView};
use crate::types::{
    Attribute, BankMsg, Coin, CosmosMsg, Cw20ExecuteMsg, Ics20Ack, ReplyOn, SubMsg, WasmMsg,
};
use vstd::prelude::*;
use vstd::string::*;

verus! {

/// The id a sub-operation is staged with when its outcome is never reported.
pub const UNUSED_MSG_ID: u64 = 0;

/// `msg` hands `asset` to `to` through the token ledger that issues it.
pub open spec fn sends(msg: CosmosMsg, asset: AmountView, to: Seq<char>) -> bool {
    match asset {
        AmountView::Native { denom, amount } => match msg {
            CosmosMsg::Bank(BankMsg::Send { to_address, amount: coins }) => {
                &&& to_address@ == to
                &&& coins@.len() == 1
                &&& coins@[0].denom@ == denom
                &&& coins@[0].amount == amount
            },
            _ => false,
        },
        AmountView::Cw20 { address, amount } => match msg {
            CosmosMsg::Wasm(
                WasmMsg::Execute {
                    contract_addr,
                    msg: Cw20ExecuteMsg::Transfer { recipient, amount: value },
                    funds,
                },
            ) => {
                &&& contract_addr@ == address
                &&& recipient@ == to
                &&& value == amount
                &&& funds@.len() == 0
            },
            _ => false,
        },
    }
}

/// The message that delivers `amount` to `recipient`: a bank send for a
/// native coin, a cw20 transfer for a token of a cw20 contract.
pub fn send_amount(amount: Amount, recipient: String) -> (r: CosmosMsg)
    ensures
        sends(r, amount@, recipient@),
{
    match amount {
        Amount::Native(coin) => {
            let mut coins: Vec<Coin> = Vec::new();
            coins.push(coin);
            CosmosMsg::Bank(BankMsg::Send { to_address: recipient, amount: coins })
        },
        Amount::Cw20(coin) => CosmosMsg::Wasm(
            WasmMsg::Execute {
                contract_addr: coin.address,
                msg: Cw20ExecuteMsg::Transfer { recipient, amount: coin.amount },
                funds: Vec::new(),
            },
        ),
    }
}

/// An attribute built from two strings.
pub fn attr(key: &str, value: &str) -> (r: Attribute)
    ensures
        r.key@ == key@,
        r.value@ == value@,
{
    Attribute { key: String::from_str(key), value: String::from_str(value) }
}

/// The acknowledgement of a packet that was accepted.
pub open spec fn success_ack_data() -> Seq<u8> {
    seq![49u8]
}

/// An acknowledgement that reports success.
pub fn ack_success() -> (r: Ics20Ack)
    ensures
        r matches Ics20Ack::Result(d) && d@ == success_ack_data(),
{
    let mut d: Vec<u8> = Vec::new();
    d.push(49u8);
    assert(d@ =~= success_ack_data());
    Ics20Ack::Result(d)
}

/// An acknowledgement that reports `err`.
pub fn ack_fail(err: String) -> (r: Ics20Ack)
    ensures
        r matches Ics20Ack::Error(e) && e@ == err@,
{
    Ics20Ack::Error(err)
}

impl SubMsg {
    /// A sub-operation whose outcome is never reported.
    pub fn new(msg: CosmosMsg) -> (r: SubMsg)
        ensures
            r.id == UNUSED_MSG_ID,
            r.msg == msg,
            r.gas_limit is None,
            r.reply_on == ReplyOn::Never,
    {
        SubMsg { id: UNUSED_MSG_ID, msg, gas_limit: None, reply_on: ReplyOn::Never }
    }

    /// A sub-operation whose success is reported under `id`.
    pub fn reply_on_success(msg: CosmosMsg, id: u64) -> (r: SubMsg)
        ensures
            r.id == id,
            r.msg == msg,
            r.gas_limit is None,
            r.reply_on == ReplyOn::Success,
    {
        SubMsg { id, msg, gas_limit: None, reply_on: ReplyOn::Success }
    }

    /// A sub-operation whose failure is reported under `id`.
    pub fn reply_on_error(msg: CosmosMsg, id: u64) -> (r: SubMsg)
        ensures
            r.id == id,
            r.msg == msg,
            r.gas_limit is None,
            r.reply_on == ReplyOn::Error,
    {
        SubMsg { id, msg, gas_limit: None, reply_on: ReplyOn::Error }
    }

    /// A sub-operation whose outcome is always reported under `id`.
    pub fn reply_always(msg: CosmosMsg, id: u64) -> (r: SubMsg)
        ensures
            r.id == id,
            r.msg == msg,
            r.gas_limit is None,
            r.reply_on == ReplyOn::Always,
    {
        SubMsg { id, msg, gas_limit: None, reply_on: ReplyOn::Always }
    }

    /// The same sub-operation with a gas limit.
    pub fn with_gas_limit(self, limit: u64) -> (r: SubMsg)
        ensures
            r.id == self.id,
            r.msg == self.msg,
            r.gas_limit == Some(limit),
            r.reply_on == self.reply_on,
    {
        SubMsg { gas_limit: Some(limit), ..self }
    }
}

/// The result of an entry point that may stage sub-operations and rewrite
/// the data returned to the caller.
#[derive(Debug, Clone, PartialEq, Eq)]
pub struct Response {
    pub messages: Vec<SubMsg>,
    pub attributes: Vec<Attribute>,
    /// an acknowledgement that replaces the one returned earlier
    pub data: Option<Ics20Ack>,
}

/// The result of a channel or packet callback.
#[derive(Debug, Clone, PartialEq, Eq)]
pub struct IbcBasicResponse {
    pub messages: Vec<SubMsg>,
    pub attributes: Vec<Attribute>,
}

/// The result of receiving a packet: the acknowledgement for the sender,
/// and the sub-operations to run.
#[derive(Debug, Clone, PartialEq, Eq)]
pub struct IbcReceiveResponse {
    pub acknowledgement: Ics20Ack,
    pub messages: Vec<SubMsg>,
    pub attributes: Vec<Attribute>,
}

impl Response {
    /// An empty response.
    pub fn new() -> (r: Response)
        ensures
            r.messages@.len() == 0,
            r.attributes@.len() == 0,
            r.data is None,
    {
        Response { messages: Vec::new(), attributes: Vec::new(), data: None }
    }

    /// Adds an attribute.
    pub fn add_attribute(self, key: &str, value: &str) -> (r: Response)
        ensures
            r.messages == self.messages,
            r.data == self.data,
            r.attributes@.len() == self.attributes@.len() + 1,
            r.attributes@.drop_last() == self.attributes@,
            r.attributes@.last().key@ == key@,
            r.attributes@.last().value@ == value@,
    {
        let mut attributes = self.attributes;
        attributes.push(attr(key, value));
        Response { attributes, ..self }
    }

    /// Adds a sub-operation.
    pub fn add_submessage(self, msg: SubMsg) -> (r: Response)
        ensures
            r.messages@ == self.messages@.push(msg),
            r.attributes == self.attributes,
            r.data == self.data,
    {
        let mut messages = self.messages;
        messages.push(msg);
        Response { messages, ..self }
    }

    /// Adds a sub-operation whose outcome is never reported.
    pub fn add_message(self, msg: CosmosMsg) -> (r: Response)
        ensures
            r.messages@.len() == self.messages@.len() + 1,
            r.messages@.drop_last() == self.messages@,
            r.messages@.last().msg == msg,
            r.messages@.last().reply_on == ReplyOn::Never,
            r.attributes == self.attributes,
            r.data == self.data,
    {
        self.add_submessage(SubMsg::new(msg))
    }

    /// Sets the data returned to the caller.
    pub fn set_data(self, data: Ics20Ack) -> (r: Response)
        ensures
            r.messages == self.messages,
            r.attributes == self.attributes,
            r.data == Some(data),
    {
        Response { data: Some(data), ..self }
    }
}

impl IbcBasicResponse {
    /// An empty response.
    pub fn new() -> (r: IbcBasicResponse)
        ensures
            r.messages@.len() == 0,
            r.attributes@.len() == 0,
    {
        IbcBasicResponse { messages: Vec::new(), attributes: Vec::new() }
    }

    /// Adds an attribute.
    pub fn add_attribute(self, key: &str, value: &str) -> (r: IbcBasicResponse)
        ensures
            r.messages == self.messages,
            r.attributes@.len() == self.attributes@.len() + 1,
            r.attributes@.drop_last() == self.attributes@,
            r.attributes@.last().key@ == key@,
            r.attributes@.last().value@ == value@,
    {
        let mut attributes = self.attributes;
        attributes.push(attr(key, value));
        IbcBasicResponse { attributes, ..self }
    }

    /// Adds a sub-operation.
    pub fn add_submessage(self, msg: SubMsg) -> (r: IbcBasicResponse)
        ensures
            r.messages@ == self.messages@.push(msg),
            r.attributes == self.attributes,
    {
        let mut messages = self.messages;
        messages.push(msg);
        IbcBasicResponse { messages, ..self }
    }

    /// Adds a sub-operation whose outcome is never reported.
    pub fn add_message(self, msg: CosmosMsg) -> (r: IbcBasicResponse)
        ensures
            r.messages@.len() == self.messages@.len() + 1,
            r.messages@.drop_last() == self.messages@,
            r.messages@.last().msg == msg,
            r.messages@.last().reply_on == ReplyOn::Never,
            r.attributes == self.attributes,
    {
        self.add_submessage(SubMsg::new(msg))
    }
}

impl IbcReceiveResponse {
    /// A response that acknowledges with `acknowledgement` and does nothing more.
    pub fn new(acknowledgement: Ics20Ack) -> (r: IbcReceiveResponse)
        ensures
            r.acknowledgement == acknowledgement,
            r.messages@.len() == 0,
            r.attributes@.len() == 0,
    {
        IbcReceiveResponse { acknowledgement, messages: Vec::new(), attributes: Vec::new() }
    }

    /// Replaces the acknowledgement.
    pub fn set_ack(self, ack: Ics20Ack) -> (r: IbcReceiveResponse)
        ensures
            r.acknowledgement == ack,
            r.messages == self.messages,
            r.attributes == self.attributes,
    {
        IbcReceiveResponse { acknowledgement: ack, ..self }
    }

    /// Adds an attribute.
    pub fn add_attribute(self, key: &str, value: &str) -> (r: IbcReceiveResponse)
        ensures
            r.acknowledgement == self.acknowledgement,
            r.messages == self.messages,
            r.attributes@.len() == self.attributes@.len() + 1,
            r.attributes@.drop_last() == self.attributes@,
            r.attributes@.last().key@ == key@,
            r.attributes@.last().value@ == value@,
    {
        let mut attributes = self.attributes;
        attributes.push(attr(key, value));
        IbcReceiveResponse { attributes, ..self }
    }

    /// Adds a sub-operation.
    pub fn add_submessage(self, msg: SubMsg) -> (r: IbcReceiveResponse)
        ensures
            r.acknowledgement == self.acknowledgement,
            r.messages@ == self.messages@.push(msg),
            r.attributes == self.attributes,
    {
        let mut messages = self.messages;
        messages.push(msg);
        IbcReceiveResponse { messages, ..self }
    }
}

} // verus!
