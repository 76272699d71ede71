use crate::text::{decimal, decimal_digits};
use vstd::prelude::*;
use vstd::string::*;

verus! {

/// The errors of the bridge.
#[derive(Debug, Clone, PartialEq, Eq)]
pub enum Error {
    /// a channel id that no handshake registered
    NoSuchChannel { id: String },
    /// a channel version other than the protocol's
    InvalidVersion { got: String },
    /// a channel that is not unordered
    OnlyUnorderedChannel {},
    /// an amount that would overflow a ledger counter
    AmountOverflow {},
    /// more redeemed on a channel than is outstanding there
    InsufficientFunds {},
    /// a rollback that would lift a record above its lifetime total
    UndoReduceChannelBalanceError {},
    /// a voucher denomination that did not come from this chain
    NoForeignTokens {},
    /// a voucher minted for another port
    FromOtherPort { port: String },
    /// a voucher minted for another channel
    FromOtherChannel { channel: String },
    /// a reply under an id that nothing was staged with
    UnknownReplyId { id: u64 },
    /// a channel close that this side started
    CannotCloseChannel {},
    /// a packet payload that could not be decoded
    ParseError {},
    /// an acknowledgement that could not be decoded
    PacketAckError {},
    /// an allow-list limit lowered
    CannotLowerGas {},
    /// a caller that is not the admin
    Unauthorized {},
    /// a cw20 token that governance has not allowed
    NotOnAllowList {},
    /// a native transfer without exactly one coin attached
    PaymentError {},
}

/// The errors as mathematical values.
pub enum ErrorView {
    /// a channel id that no handshake registered
    NoSuchChannel { id: Seq<char> },
    /// a channel version other than the protocol's
    InvalidVersion { got: Seq<char> },
    /// a channel that is not unordered
    OnlyUnorderedChannel {},
    /// an amount that would overflow a ledger counter
    AmountOverflow {},
    /// more redeemed on a channel than is outstanding there
    InsufficientFunds {},
    /// a rollback that would lift a record above its lifetime total
    UndoReduceChannelBalanceError {},
    /// a voucher denomination that did not come from this chain
    NoForeignTokens {},
    /// a voucher minted for another port
    FromOtherPort { port: Seq<char> },
    /// a voucher minted for another channel
    FromOtherChannel { channel: Seq<char> },
    /// a reply under an id that nothing was staged with
    UnknownReplyId { id: u64 },
    /// a channel close that this side started
    CannotCloseChannel {},
    /// a packet payload that could not be decoded
    ParseError {},
    /// an acknowledgement that could not be decoded
    PacketAckError {},
    /// an allow-list limit lowered
    CannotLowerGas {},
    /// a caller that is not the admin
    Unauthorized {},
    /// a cw20 token that governance has not allowed
    NotOnAllowList {},
    PaymentError {},
}

impl View for Error {
    type V = ErrorView;

    open spec fn view(&self) -> ErrorView {
        match self {
            Error::NoSuchChannel { id } => ErrorView::NoSuchChannel { id: id@ },
            Error::InvalidVersion { got } => ErrorView::InvalidVersion { got: got@ },
            Error::OnlyUnorderedChannel {  } => ErrorView::OnlyUnorderedChannel {  },
            Error::AmountOverflow {  } => ErrorView::AmountOverflow {  },
            Error::InsufficientFunds {  } => ErrorView::InsufficientFunds {  },
            Error::UndoReduceChannelBalanceError {  } => ErrorView::UndoReduceChannelBalanceError {  },
            Error::NoForeignTokens {  } => ErrorView::NoForeignTokens {  },
            Error::FromOtherPort { port } => ErrorView::FromOtherPort { port: port@ },
            Error::FromOtherChannel { channel } => ErrorView::FromOtherChannel { channel: channel@ },
            Error::UnknownReplyId { id } => ErrorView::UnknownReplyId { id: *id },
            Error::CannotCloseChannel {  } => ErrorView::CannotCloseChannel {  },
            Error::ParseError {  } => ErrorView::ParseError {  },
            Error::PacketAckError {  } => ErrorView::PacketAckError {  },
            Error::CannotLowerGas {  } => ErrorView::CannotLowerGas {  },
            Error::Unauthorized {  } => ErrorView::Unauthorized {  },
            Error::NotOnAllowList {  } => ErrorView::NotOnAllowList {  },
            Error::PaymentError {  } => ErrorView::PaymentError {  },
        }
    }
}

/// The text that reports an error.
pub open spec fn error_text(e: ErrorView) -> Seq<char> {
    match e {
        ErrorView::NoSuchChannel { id } => "Channel doesn't exist: "@ + id,
        ErrorView::InvalidVersion { got } => "Only supports channel with ibc version ics20-1, got "@ + got,
        ErrorView::OnlyUnorderedChannel {  } => "Only supports unordered channel"@,
        ErrorView::AmountOverflow {  } => "Amount overflows the channel counters"@,
        ErrorView::InsufficientFunds {  } => "Insufficient funds to redeem voucher on channel"@,
        ErrorView::UndoReduceChannelBalanceError {  } => "Cannot return more to the channel than was sent over it"@,
        ErrorView::NoForeignTokens {  } => "Only accepts tokens that originate on this chain, not native tokens of remote chain"@,
        ErrorView::FromOtherPort { port } => "Parsed port from denom ("@ + port + ") doesn't match packet"@,
        ErrorView::FromOtherChannel { channel } => "Parsed channel from denom ("@ + channel + ") doesn't match packet"@,
        ErrorView::UnknownReplyId { id } => "Got a submessage reply with unknown id: "@ + decimal_digits(id as nat),
        ErrorView::CannotCloseChannel {  } => "Only the counterparty can close an ics20 channel"@,
        ErrorView::ParseError {  } => "Cannot decode the packet payload"@,
        ErrorView::PacketAckError {  } => "Cannot decode the packet acknowledgement"@,
        ErrorView::CannotLowerGas {  } => "You cannot lower the gas limit for a contract on the allow list"@,
        ErrorView::Unauthorized {  } => "Only the governance contract can do this"@,
        ErrorView::NotOnAllowList {  } => "You can only send cw20 tokens that have been explicitly allowed by governance"@,
        ErrorView::PaymentError {  } => "Exactly one coin must be sent"@,
    }
}

impl Error {
    /// The text that reports this error.
    pub fn message(&self) -> (r: String)
        ensures
            r@ == error_text(self@),
    {
        match self {
            Error::NoSuchChannel { id } => String::from_str("Channel doesn't exist: ").concat(id.as_str()),
            Error::InvalidVersion { got } => String::from_str("Only supports channel with ibc version ics20-1, got ").concat(got.as_str()),
            Error::OnlyUnorderedChannel {  } => String::from_str("Only supports unordered channel"),
            Error::AmountOverflow {  } => String::from_str("Amount overflows the channel counters"),
            Error::InsufficientFunds {  } => String::from_str("Insufficient funds to redeem voucher on channel"),
            Error::UndoReduceChannelBalanceError {  } => String::from_str("Cannot return more to the channel than was sent over it"),
            Error::NoForeignTokens {  } => String::from_str("Only accepts tokens that originate on this chain, not native tokens of remote chain"),
            Error::FromOtherPort { port } => String::from_str("Parsed port from denom (").concat(port.as_str()).concat(") doesn't match packet"),
            Error::FromOtherChannel { channel } => String::from_str("Parsed channel from denom (").concat(channel.as_str()).concat(") doesn't match packet"),
            Error::UnknownReplyId { id } => String::from_str("Got a submessage reply with unknown id: ").concat(decimal(*id as u128).as_str()),
            Error::CannotCloseChannel {  } => String::from_str("Only the counterparty can close an ics20 channel"),
            Error::ParseError {  } => String::from_str("Cannot decode the packet payload"),
            Error::PacketAckError {  } => String::from_str("Cannot decode the packet acknowledgement"),
            Error::CannotLowerGas {  } => String::from_str("You cannot lower the gas limit for a contract on the allow list"),
            Error::Unauthorized {  } => String::from_str("Only the governance contract can do this"),
            Error::NotOnAllowList {  } => String::from_str("You can only send cw20 tokens that have been explicitly allowed by governance"),
            Error::PaymentError {  } => String::from_str("Exactly one coin must be sent"),
        }
    }
}

} // verus!
