use vstd::prelude::*;

verus! {

/// An account address, kept as its textual form.
#[derive(Debug, Clone, PartialEq, Eq)]
pub struct Addr(pub String);

/// One end of a channel: a port and a channel id on one chain.
#[derive(Debug, Clone, PartialEq, Eq)]
pub struct IbcEndpoint {
    pub port_id: String,
    pub channel_id: String,
}

/// The ordering a channel guarantees for its packets.
#[derive(Debug, Clone, Copy, PartialEq, Eq, Structural)]
pub enum IbcOrder {
    Unordered,
    Ordered,
}

/// A block height on the remote chain after which a packet times out.
#[derive(Debug, Clone, Copy, PartialEq, Eq, Structural)]
pub struct IbcTimeoutBlock {
    /// the revision of the remote chain
    pub revision: u64,
    /// the height within that revision
    pub height: u64,
}

/// When a packet times out: at a block height, at a timestamp, or both.
#[derive(Debug, Clone, Copy, PartialEq, Eq, Structural)]
pub struct IbcTimeout {
    pub block: Option<IbcTimeoutBlock>,
    pub timestamp: Option<u64>,
}

/// A channel as the host hands it to the handshake callbacks.
#[derive(Debug, Clone, PartialEq, Eq)]
pub struct IbcChannel {
    pub endpoint: IbcEndpoint,
    pub counterparty_endpoint: IbcEndpoint,
    pub order: IbcOrder,
    /// the version proposed for the channel (may be empty in a handshake message)
    pub version: String,
    /// the connection the channel is built on
    pub connection_id: String,
}

/// The first step of the channel handshake.
#[derive(Debug, Clone, PartialEq, Eq)]
pub enum IbcChannelOpenMsg {
    OpenInit { channel: IbcChannel },
    OpenTry { channel: IbcChannel, counterparty_version: String },
}

/// The second step of the channel handshake.
#[derive(Debug, Clone, PartialEq, Eq)]
pub enum IbcChannelConnectMsg {
    OpenAck { channel: IbcChannel, counterparty_version: String },
    OpenConfirm { channel: IbcChannel },
}

/// A channel being closed.
#[derive(Debug, Clone, PartialEq, Eq)]
pub enum IbcChannelCloseMsg {
    CloseInit { channel: IbcChannel },
    CloseConfirm { channel: IbcChannel },
}

/// A packet as the host delivers it; `data` is the encoded payload.
#[derive(Debug, Clone, PartialEq, Eq)]
pub struct IbcPacket {
    pub data: Vec<u8>,
    /// the channel and port on the sending chain
    pub src: IbcEndpoint,
    /// the channel and port on the receiving chain
    pub dest: IbcEndpoint,
    pub sequence: u64,
    pub timeout: IbcTimeout,
}

/// The payload of a token transfer packet.
#[derive(Debug, Clone, PartialEq, Eq)]
pub struct Ics20Packet {
    pub amount: u128,
    /// the denomination as the sending chain names it
    pub denom: String,
    pub receiver: String,
    pub sender: String,
    pub memo: Option<String>,
}

/// The acknowledgement of a transfer packet.
#[derive(Debug, Clone, PartialEq, Eq)]
pub enum Ics20Ack {
    Result(Vec<u8>),
    Error(String),
}

/// A native coin.
#[derive(Debug, Clone, PartialEq, Eq)]
pub struct Coin {
    pub denom: String,
    pub amount: u128,
}

/// An amount of an externally issued (cw20) token.
#[derive(Debug, Clone, PartialEq, Eq)]
pub struct Cw20Coin {
    pub address: String,
    pub amount: u128,
}

/// A key/value pair reported with a response.
#[derive(Debug, Clone, PartialEq, Eq)]
pub struct Attribute {
    pub key: String,
    pub value: String,
}

/// When a staged sub-operation reports its outcome back.
#[derive(Debug, Clone, Copy, PartialEq, Eq, Structural)]
pub enum ReplyOn {
    /// always report
    Always,
    /// report only a failure
    Error,
    /// report only a success
    Success,
    /// never report
    Never,
}

/// A message to the external token ledger.
#[derive(Debug, Clone, PartialEq, Eq)]
pub enum Cw20ExecuteMsg {
    /// move tokens to another account
    Transfer { recipient: String, amount: u128 },
}

/// Native token operations of the host.
#[derive(Debug, Clone, PartialEq, Eq)]
pub enum BankMsg {
    /// send native coins held by this module to an address
    Send { to_address: String, amount: Vec<Coin> },
}

/// Calls into another contract.
#[derive(Debug, Clone, PartialEq, Eq)]
pub enum WasmMsg {
    Execute { contract_addr: String, msg: Cw20ExecuteMsg, funds: Vec<Coin> },
}

/// Operations of the host transport.
#[derive(Debug, Clone, PartialEq, Eq)]
pub enum IbcMsg {
    /// send a transfer packet over a channel
    SendPacket { channel_id: String, data: Ics20Packet, timeout: IbcTimeout },
}

/// A sub-operation that the host performs after the current call.
#[derive(Debug, Clone, PartialEq, Eq)]
pub enum CosmosMsg {
    Bank(BankMsg),
    Wasm(WasmMsg),
    Ibc(IbcMsg),
}

/// A staged sub-operation with the id its outcome is reported under.
#[derive(Debug, Clone, PartialEq, Eq)]
pub struct SubMsg {
    pub id: u64,
    pub msg: CosmosMsg,
    pub gas_limit: Option<u64>,
    pub reply_on: ReplyOn,
}

/// The outcome of a staged sub-operation.
#[derive(Debug, Clone, PartialEq, Eq)]
pub enum SubMsgResult {
    Success(SubMsgResponse),
    Failure(String),
}

/// What a successful sub-operation returned.
#[derive(Debug, Clone, PartialEq, Eq)]
pub struct SubMsgResponse {
    pub data: Option<Vec<u8>>,
}

/// The deferred report of a staged sub-operation.
#[derive(Debug, Clone, PartialEq, Eq)]
pub struct Reply {
    /// the id the sub-operation was staged with
    pub id: u64,
    pub result: SubMsgResult,
}

/// A packet delivered to this chain.
#[derive(Debug, Clone, PartialEq, Eq)]
pub struct IbcPacketReceiveMsg {
    pub packet: IbcPacket,
}

/// The acknowledgement bytes the remote chain sent back.
#[derive(Debug, Clone, PartialEq, Eq)]
pub struct IbcAcknowledgement {
    pub data: Vec<u8>,
}

/// An acknowledgement of a packet this chain sent.
#[derive(Debug, Clone, PartialEq, Eq)]
pub struct IbcPacketAckMsg {
    pub acknowledgement: IbcAcknowledgement,
    pub original_packet: IbcPacket,
}

/// A packet this chain sent that timed out.
#[derive(Debug, Clone, PartialEq, Eq)]
pub struct IbcPacketTimeoutMsg {
    pub packet: IbcPacket,
}

} // verus!
