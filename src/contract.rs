use crate::allow::{lowers_gas, AllowList};
use crate::assoc::{assoc_map, lemma_assoc_map_push};
use crate::amount::{
    amount_denom, amount_from_parts, amount_value, lemma_from_parts_denom, Amount, AmountView,
};
use crate::channels::{ChannelInfo, ChannelInfoView, ChannelRegistry};
use crate::denom::{parse_voucher_denom, voucher_local_denom};
use crate::error::{Error, ErrorView};
use crate::ledger::{
    increased, law_undo_reduce_inverts_reduce, ledger_invariant, reduced, state_of, undo_reduced,
    ChannelLedger, ChannelState,
};
use crate::response::{
    ack_fail, ack_success, send_amount, sends, success_ack_data, IbcBasicResponse,
    IbcReceiveResponse, Response,
};
use crate::text::decimal;
use crate::types::{
    Addr, CosmosMsg, IbcChannel, IbcChannelCloseMsg, IbcChannelConnectMsg, IbcChannelOpenMsg,
    IbcMsg, IbcOrder, IbcPacket, IbcPacketAckMsg, IbcPacketReceiveMsg, IbcPacketTimeoutMsg,
    IbcTimeout, Ics20Ack, Ics20Packet, Reply, ReplyOn, SubMsg, SubMsgResult,
};
use vstd::prelude::*;
use vstd::string::*;

verus! {

/// The only channel version this module speaks.
pub const ICS20_VERSION: &'static str = "ics20-1";

/// The only channel ordering this module accepts.
pub const ICS20_ORDERING: IbcOrder = IbcOrder::Unordered;

/// The id under which the delivery of a received packet reports a failure.
pub const RECEIVE_ID: u64 = 1337;

/// The id under which the refund of a failed send reports a failure.
pub const ACK_FAILURE_ID: u64 = 0xfa17;

/// The protocol version as characters.
pub open spec fn ics20_version() -> Seq<char> {
    ICS20_VERSION@
}

/// Settings fixed at construction.
#[derive(Debug, Clone, Copy, PartialEq, Eq, Structural, Default)]
pub struct Config {
    /// timeout of a sent packet, in seconds, when the sender names none
    pub default_timeout: u64,
    /// gas limit for cw20 contracts that are not on the allow list
    pub default_gas_limit: Option<u64>,
}

/// The context of a receive whose delivery is still staged.
#[derive(Debug, Clone, PartialEq, Eq, Default)]
pub struct ReplyArgs {
    pub channel: String,
    pub denom: String,
    pub amount: u128,
}

/// Who called an entry point, and the coins sent with the call.
#[derive(Debug, Clone, PartialEq, Eq)]
pub struct MessageInfo {
    pub sender: Addr,
    pub funds: Vec<crate::types::Coin>,
}

/// An allow-list entry to set.
#[derive(Debug, Clone, PartialEq, Eq)]
pub struct AllowMsg {
    pub contract: String,
    pub gas_limit: Option<u64>,
}

/// The settings a bridge starts with.
#[derive(Debug, Clone, PartialEq, Eq)]
pub struct InitMsg {
    /// timeout of a sent packet, in seconds, when the sender names none
    pub default_timeout: u64,
    /// the admin, who may change the allow list
    pub gov_contract: String,
    /// the cw20 contracts allowed from the start
    pub allowlist: Vec<AllowMsg>,
    /// gas limit for cw20 contracts that are not on the allow list; without
    /// one, such contracts cannot be sent
    pub default_gas_limit: Option<u64>,
}

/// The notice a cw20 contract sends when tokens are moved to the bridge;
/// `msg` is the encoded `TransferMsg`.
#[derive(Debug, Clone, PartialEq, Eq)]
pub struct Cw20ReceiveMsg {
    pub sender: String,
    pub amount: u128,
    pub msg: Vec<u8>,
}

/// The configuration as reported.
#[derive(Debug, Clone, PartialEq, Eq)]
pub struct ConfigResponse {
    pub default_timeout: u64,
    pub default_gas_limit: Option<u64>,
    pub gov_contract: String,
}

/// The calls a user or a cw20 contract makes.
#[derive(Debug, Clone, PartialEq, Eq)]
pub enum ExecuteMsg {
    /// a cw20 contract moved tokens to the bridge; `transfer` is the
    /// transfer request its notice carries, decoded
    Receive { wrapper: Cw20ReceiveMsg, transfer: TransferMsg },
    /// send the one native coin attached to the call
    Transfer(TransferMsg),
    /// set an allow-list entry (admin only)
    Allow(AllowMsg),
    /// hand the admin role on (admin only)
    UpdateAdmin { admin: String },
}

/// A connected channel with what is outstanding on it and what was ever
/// sent over it, one amount per denomination.
#[derive(Debug, Clone, PartialEq, Eq)]
pub struct ChannelResponse {
    pub info: ChannelInfo,
    pub balances: Vec<Amount>,
    pub total_sent: Vec<Amount>,
}

/// Every connected channel.
#[derive(Debug, Clone, PartialEq, Eq)]
pub struct ListChannelsResponse {
    pub channels: Vec<ChannelInfo>,
}

/// Whether a cw20 contract is on the allow list, and its gas limit.
#[derive(Debug, Clone, Copy, PartialEq, Eq, Structural)]
pub struct AllowedResponse {
    pub is_allowed: bool,
    pub gas_limit: Option<u64>,
}

/// The allow list that `msgs` sets, the later of two entries for one
/// contract winning.
pub open spec fn allow_map(msgs: Seq<AllowMsg>) -> Map<Seq<char>, Option<u64>> {
    assoc_map(msgs.map_values(|a: AllowMsg| (a.contract@, a.gas_limit)))
}

/// A request to send tokens over a channel.
#[derive(Debug, Clone, PartialEq, Eq)]
pub struct TransferMsg {
    /// the local channel to send over
    pub channel: String,
    /// the recipient on the remote chain
    pub remote_address: String,
    /// seconds the packet lives; the configured default when absent
    pub timeout: Option<u64>,
    pub memo: Option<String>,
}

/// Whether a handshake with this channel version, counterparty version and
/// ordering is accepted, and why not.
pub open spec fn handshake_result(
    version: Seq<char>,
    counterparty_version: Option<Seq<char>>,
    order: IbcOrder,
) -> Result<(), ErrorView> {
    if version != ics20_version() {
        Err(ErrorView::InvalidVersion { got: version })
    } else if counterparty_version is Some && counterparty_version->0 != ics20_version() {
        Err(ErrorView::InvalidVersion { got: counterparty_version->0 })
    } else if order != IbcOrder::Unordered {
        Err(ErrorView::OnlyUnorderedChannel {  })
    } else {
        Ok(())
    }
}

pub open spec fn opt_view(o: Option<&String>) -> Option<Seq<char>> {
    match o {
        Some(s) => Some(s@),
        None => None,
    }
}

/// `r` is the outcome `s` describes.
pub open spec fn unit_outcome<T>(r: Result<T, Error>, s: Result<(), ErrorView>) -> bool {
    match s {
        Ok(_) => r is Ok,
        Err(e) => r matches Err(x) && x@ == e,
    }
}

/// Checks a proposed channel: both versions must be the protocol's and the
/// channel must be unordered.
pub fn enforce_order_and_version(channel: &IbcChannel, counterparty_version: Option<&String>) -> (r:
    Result<(), Error>)
    ensures
        unit_outcome(r, handshake_result(channel.version@, opt_view(counterparty_version), channel.order)),
{
    let v = String::from_str(ICS20_VERSION);
    if !channel.version.eq(&v) {
        return Err(Error::InvalidVersion { got: channel.version.clone() });
    }
    match counterparty_version {
        Some(cv) => {
            if !cv.eq(&v) {
                return Err(Error::InvalidVersion { got: cv.clone() });
            }
        },
        None => {},
    }
    if channel.order == ICS20_ORDERING {
        Ok(())
    } else {
        Err(Error::OnlyUnorderedChannel {  })
    }
}

/// The handshake verdict on an open message.
pub open spec fn open_result(msg: IbcChannelOpenMsg) -> Result<(), ErrorView> {
    match msg {
        IbcChannelOpenMsg::OpenInit { channel } => handshake_result(channel.version@, None, channel.order),
        IbcChannelOpenMsg::OpenTry { channel, counterparty_version } => handshake_result(
            channel.version@,
            Some(counterparty_version@),
            channel.order,
        ),
    }
}

/// The handshake verdict on a connect message.
pub open spec fn connect_result(msg: IbcChannelConnectMsg) -> Result<(), ErrorView> {
    match msg {
        IbcChannelConnectMsg::OpenAck { channel, counterparty_version } => handshake_result(
            channel.version@,
            Some(counterparty_version@),
            channel.order,
        ),
        IbcChannelConnectMsg::OpenConfirm { channel } => handshake_result(channel.version@, None, channel.order),
    }
}

/// The channel a connect message is about.
pub open spec fn connect_channel(msg: IbcChannelConnectMsg) -> IbcChannel {
    match msg {
        IbcChannelConnectMsg::OpenAck { channel, .. } => channel,
        IbcChannelConnectMsg::OpenConfirm { channel } => channel,
    }
}

/// The record kept of a connected channel.
pub open spec fn channel_info_of(c: IbcChannel) -> ChannelInfoView {
    ChannelInfoView {
        id: c.endpoint.channel_id@,
        counterparty_endpoint: c.counterparty_endpoint@,
        connection_id: c.connection_id@,
    }
}

/// The local denomination a received packet redeems, or why it is refused.
pub open spec fn receive_result(
    ledger: Map<(Seq<char>, Seq<char>), ChannelState>,
    packet: IbcPacket,
    payload: Option<Ics20Packet>,
) -> Result<Seq<char>, ErrorView> {
    match payload {
        None => Err(ErrorView::ParseError {  }),
        Some(p) => match voucher_local_denom(
            p.denom@,
            packet.src.port_id@,
            packet.src.channel_id@,
        ) {
            Err(e) => Err(e),
            Ok(d) => if reduced(ledger, packet.dest.channel_id@, d, p.amount) is None {
                Err(ErrorView::InsufficientFunds {  })
            } else {
                Ok(d)
            },
        },
    }
}

/// The ledger after a packet this chain sent is given back to its sender,
/// or why it cannot be.
pub open spec fn refund_result(
    ledger: Map<(Seq<char>, Seq<char>), ChannelState>,
    packet: IbcPacket,
    payload: Option<Ics20Packet>,
) -> Result<Map<(Seq<char>, Seq<char>), ChannelState>, ErrorView> {
    match payload {
        None => Err(ErrorView::ParseError {  }),
        Some(p) => match reduced(ledger, packet.src.channel_id@, p.denom@, p.amount) {
            None => Err(ErrorView::InsufficientFunds {  }),
            Some(m) => Ok(m),
        },
    }
}

/// The timestamp, in milliseconds, at which a packet sent at `now` with a
/// lifetime of `secs` seconds times out; the largest timestamp when it
/// would not fit.
pub open spec fn timeout_at(now: u64, secs: u64) -> u64 {
    if now + secs * 1000 > u64::MAX {
        u64::MAX
    } else {
        (now + secs * 1000) as u64
    }
}

/// The bridge: its configuration, the connected channels, the balance
/// ledger and the context of a staged delivery.
pub struct Contract {
    admin: Addr,
    config: Config,
    reply_args: Option<ReplyArgs>,
    channels: ChannelRegistry,
    ledger: ChannelLedger,
    allow_list: AllowList,
}

impl Contract {
    /// The balance ledger.
    pub closed spec fn ledger(&self) -> Map<(Seq<char>, Seq<char>), ChannelState> {
        self.ledger@
    }

    /// The connected channels by id.
    pub closed spec fn channels(&self) -> Map<Seq<char>, ChannelInfoView> {
        self.channels@
    }

    /// The (channel, denomination, amount) of the staged delivery, if any.
    pub closed spec fn pending(&self) -> Option<(Seq<char>, Seq<char>, u128)> {
        match self.reply_args {
            Some(a) => Some((a.channel@, a.denom@, a.amount)),
            None => None,
        }
    }

    /// The configuration.
    pub closed spec fn config(&self) -> Config {
        self.config
    }

    /// The admin's address.
    pub closed spec fn admin(&self) -> Seq<char> {
        self.admin.0@
    }

    /// The allow list: contract address to gas limit.
    pub closed spec fn allowed(&self) -> Map<Seq<char>, Option<u64>> {
        self.allow_list@
    }

    /// `a` is a cw20 amount that may not be sent: its contract is not on
    /// the allow list and there is no default gas limit.
    pub open spec fn blocks(&self, a: AmountView) -> bool {
        match a {
            AmountView::Cw20 { address, .. } => !self.allowed().contains_key(address)
                && self.config().default_gas_limit is None,
            AmountView::Native { .. } => false,
        }
    }

    /// No ledger record has more outstanding than was ever sent, and each
    /// store holds one record per key.
    pub open spec fn wf(&self) -> bool {
        ledger_invariant(self.ledger()) && self.stores_unique()
    }

    /// The ledger and the channel registry hold one record per key.
    pub closed spec fn stores_unique(&self) -> bool {
        self.ledger.unique() && self.channels.unique()
    }

    /// `self` and `other` hold the same state.
    pub open spec fn same_state(&self, other: &Contract) -> bool {
        &&& self.ledger() == other.ledger()
        &&& self.channels() == other.channels()
        &&& self.pending() == other.pending()
        &&& self.config() == other.config()
        &&& self.admin() == other.admin()
        &&& self.allowed() == other.allowed()
    }

    /// `self` differs from `other` at most in the ledger and the staged delivery.
    pub open spec fn same_setup(&self, other: &Contract) -> bool {
        &&& self.channels() == other.channels()
        &&& self.config() == other.config()
        &&& self.admin() == other.admin()
        &&& self.allowed() == other.allowed()
    }

    /// A bridge with no channels and an empty ledger, administered by
    /// `msg.gov_contract`, with the allow list `msg.allowlist`.
    pub fn new(msg: InitMsg) -> (r: Contract)
        ensures
            r.wf(),
            r.ledger() == Map::<(Seq<char>, Seq<char>), ChannelState>::empty(),
            r.channels() == Map::<Seq<char>, ChannelInfoView>::empty(),
            r.pending() is None,
            r.config() == (Config {
                default_timeout: msg.default_timeout,
                default_gas_limit: msg.default_gas_limit,
            }),
            r.admin() == msg.gov_contract@,
            r.allowed() == allow_map(msg.allowlist@),
    {
        let mut allow_list = AllowList::new();
        let ghost pairs = msg.allowlist@.map_values(|a: AllowMsg| (a.contract@, a.gas_limit));
        let mut i: usize = 0;
        while i < msg.allowlist.len()
            invariant
                i <= msg.allowlist@.len(),
                pairs == msg.allowlist@.map_values(|a: AllowMsg| (a.contract@, a.gas_limit)),
                allow_list@ == assoc_map(pairs.subrange(0, i as int)),
            decreases msg.allowlist@.len() - i,
        {
            let entry = &msg.allowlist[i];
            proof {
                lemma_assoc_map_push(pairs.subrange(0, i as int), pairs[i as int]);
                assert(pairs.subrange(0, i as int).push(pairs[i as int]) =~= pairs.subrange(
                    0,
                    i + 1,
                ));
            }
            allow_list.put(entry.contract.clone(), entry.gas_limit);
            i = i + 1;
        }
        assert(pairs.subrange(0, i as int) =~= pairs);
        let r = Contract {
            admin: Addr(msg.gov_contract),
            config: Config {
                default_timeout: msg.default_timeout,
                default_gas_limit: msg.default_gas_limit,
            },
            reply_args: None,
            channels: ChannelRegistry::new(),
            ledger: ChannelLedger::new(),
            allow_list,
        };
        r
    }

    /// Runs a user call at time `now` (milliseconds).
    pub fn execute(&mut self, info: MessageInfo, msg: ExecuteMsg, now: u64) -> (r: Result<
        Response,
        Error,
    >)
        requires
            old(self).wf(),
        ensures
            final(self).wf(),
            match msg {
                ExecuteMsg::Receive { wrapper, transfer } => transferred(
                    *old(self),
                    *final(self),
                    transfer,
                    AmountView::Cw20 { address: info.sender.0@, amount: wrapper.amount },
                    wrapper.sender@,
                    now,
                    r,
                ),
                ExecuteMsg::Transfer(t) => if info.funds@.len() != 1 {
                    (r matches Err(e) && e@ == ErrorView::PaymentError {  }) && final(self).same_state(old(self))
                } else {
                    transferred(
                        *old(self),
                        *final(self),
                        t,
                        AmountView::Native {
                            denom: info.funds@[0].denom@,
                            amount: info.funds@[0].amount,
                        },
                        info.sender.0@,
                        now,
                        r,
                    )
                },
                ExecuteMsg::Allow(a) => allow_set(*old(self), *final(self), info.sender.0@, a, r),
                ExecuteMsg::UpdateAdmin { admin } => admin_set(
                    *old(self),
                    *final(self),
                    info.sender.0@,
                    admin@,
                    r,
                ),
            },
    {
        match msg {
            ExecuteMsg::Receive { wrapper, transfer } => self.execute_receive(&info, wrapper, transfer, now),
            ExecuteMsg::Transfer(t) => {
                if info.funds.len() != 1 {
                    return Err(Error::PaymentError {  });
                }
                let mut funds = info.funds;
                let coin = funds.pop().unwrap();
                self.execute_transfer(t, Amount::Native(coin), info.sender, now)
            },
            ExecuteMsg::Allow(a) => self.execute_allow(&info, a),
            ExecuteMsg::UpdateAdmin { admin } => self.execute_update_admin(&info, Addr(admin)),
        }
    }

    /// Sets the allow-list entry of a cw20 contract. Only the admin may, and
    /// a gas limit once set can be raised but never lowered.
    pub fn execute_allow(&mut self, info: &MessageInfo, allow: AllowMsg) -> (r: Result<Response, Error>)
        requires
            old(self).wf(),
        ensures
            final(self).wf(),
            allow_set(*old(self), *final(self), info.sender.0@, allow, r),
    {
        if !info.sender.0.eq(&self.admin.0) {
            return Err(Error::Unauthorized {  });
        }
        let current = self.allow_list.get(allow.contract.as_str());
        let lowers = match (current, allow.gas_limit) {
            (Some(Some(old)), Some(new)) => new < old,
            (Some(None), Some(_)) => true,
            _ => false,
        };
        if lowers {
            return Err(Error::CannotLowerGas {  });
        }
        let resp = Response::new().add_attribute("action", "allow").add_attribute(
            "contract",
            allow.contract.as_str(),
        );
        self.allow_list.put(allow.contract, allow.gas_limit);
        Ok(resp)
    }

    /// Hands the admin role to `admin`. Only the admin may.
    pub fn execute_update_admin(&mut self, info: &MessageInfo, admin: Addr) -> (r: Result<
        Response,
        Error,
    >)
        requires
            old(self).wf(),
        ensures
            final(self).wf(),
            admin_set(*old(self), *final(self), info.sender.0@, admin.0@, r),
    {
        if !info.sender.0.eq(&self.admin.0) {
            return Err(Error::Unauthorized {  });
        }
        self.admin = admin;
        Ok(Response::new().add_attribute("action", "update_admin"))
    }

    /// The admin.
    pub fn query_admin(&self) -> (r: Option<Addr>)
        ensures
            r matches Some(a) && a.0@ == self.admin(),
    {
        Some(Addr(self.admin.0.clone()))
    }

    /// The configuration, with the admin as the governance contract.
    pub fn query_config(&self) -> (r: ConfigResponse)
        ensures
            r.default_timeout == self.config().default_timeout,
            r.default_gas_limit == self.config().default_gas_limit,
            r.gov_contract@ == self.admin(),
    {
        ConfigResponse {
            default_timeout: self.config.default_timeout,
            default_gas_limit: self.config.default_gas_limit,
            gov_contract: self.admin.0.clone(),
        }
    }

    /// Whether `contract` is on the allow list, and its gas limit there.
    pub fn query_allowed(&self, contract: &str) -> (r: AllowedResponse)
        ensures
            r.is_allowed == self.allowed().contains_key(contract@),
            r.gas_limit == (if r.is_allowed {
                self.allowed()[contract@]
            } else {
                None
            }),
    {
        match self.allow_list.get(contract) {
            Some(gas_limit) => AllowedResponse { is_allowed: true, gas_limit },
            None => AllowedResponse { is_allowed: false, gas_limit: None },
        }
    }

    /// The record of `(channel, denom)` in the ledger, zero when absent.
    pub fn channel_state(&self, channel: &str, denom: &str) -> (r: ChannelState)
        ensures
            r == state_of(self.ledger(), channel@, denom@),
    {
        self.ledger.state(channel, denom)
    }

    /// Channel `id` with its balances: for each denomination recorded on
    /// it, the amount outstanding and the amount ever sent.
    pub fn query_channel(&self, id: &str) -> (r: Result<ChannelResponse, Error>)
        requires
            self.wf(),
        ensures
            !self.channels().contains_key(id@) ==> (r matches Err(e) && e@
                == ErrorView::NoSuchChannel { id: id@ }),
            self.channels().contains_key(id@) ==> (r matches Ok(resp) && channel_reported(
                *self,
                id@,
                resp,
            )),
    {
        let info = match self.channels.get(id) {
            Some(info) => info.duplicate(),
            None => return Err(Error::NoSuchChannel { id: String::from_str(id) }),
        };
        let records = self.ledger.records_of(id);
        let mut balances: Vec<Amount> = Vec::new();
        let mut total_sent: Vec<Amount> = Vec::new();
        let mut i: usize = 0;
        while i < records.len()
            invariant
                i <= records@.len(),
                balances@.len() == i,
                total_sent@.len() == i,
                forall|k: int|
                    0 <= k < i ==> (#[trigger] balances@[k])@ == amount_from_parts(
                        records@[k].0@,
                        records@[k].1.outstanding,
                    ) && total_sent@[k]@ == amount_from_parts(
                        records@[k].0@,
                        records@[k].1.total_sent,
                    ),
            decreases records@.len() - i,
        {
            let (denom, state) = (&records[i].0, records[i].1);
            balances.push(Amount::from_parts(denom.clone(), state.outstanding));
            total_sent.push(Amount::from_parts(denom.clone(), state.total_sent));
            i = i + 1;
        }
        let resp = ChannelResponse { info, balances, total_sent };
        proof {
            lemma_channel_reported(*self, id@, resp, records@);
        }
        Ok(resp)
    }

    /// Every connected channel.
    pub fn query_list(&self) -> (r: ListChannelsResponse)
        requires
            self.wf(),
        ensures
            forall|k: int|
                0 <= k < r.channels@.len() ==> self.channels().contains_key(
                    #[trigger] r.channels@[k].id@,
                ) && self.channels()[r.channels@[k].id@] == r.channels@[k]@,
            forall|id: Seq<char>|
                #[trigger] self.channels().contains_key(id) ==> exists|k: int|
                    0 <= k < r.channels@.len() && #[trigger] r.channels@[k].id@ == id,
            forall|k1: int, k2: int|
                0 <= k1 < k2 < r.channels@.len() ==> r.channels@[k1].id@ != r.channels@[k2].id@,
    {
        ListChannelsResponse { channels: self.channels.list() }
    }

    /// The first step of the channel handshake: nothing is recorded.
    pub fn ibc_channel_open(&self, msg: &IbcChannelOpenMsg) -> (r: Result<(), Error>)
        ensures
            unit_outcome(r, open_result(*msg)),
    {
        match msg {
            IbcChannelOpenMsg::OpenInit { channel } => enforce_order_and_version(channel, None),
            IbcChannelOpenMsg::OpenTry { channel, counterparty_version } => enforce_order_and_version(
                channel,
                Some(counterparty_version),
            ),
        }
    }

    /// The second step of the channel handshake: an accepted channel is
    /// recorded under its id.
    pub fn ibc_channel_connect(&mut self, msg: IbcChannelConnectMsg) -> (r: Result<
        IbcBasicResponse,
        Error,
    >)
        requires
            old(self).wf(),
        ensures
            final(self).wf(),
            unit_outcome(r, connect_result(msg)),
            connect_result(msg) is Err ==> final(self).same_state(old(self)),
            connect_result(msg) is Ok ==> {
                &&& final(self).channels() == old(self).channels().insert(
                    connect_channel(msg).endpoint.channel_id@,
                    channel_info_of(connect_channel(msg)),
                )
                &&& final(self).ledger() == old(self).ledger()
                &&& final(self).pending() == old(self).pending()
                &&& final(self).config() == old(self).config()
                &&& final(self).admin() == old(self).admin()
            },
    {
        let channel = match msg {
            IbcChannelConnectMsg::OpenAck { channel, counterparty_version } => {
                match enforce_order_and_version(&channel, Some(&counterparty_version)) {
                    Ok(()) => {},
                    Err(e) => return Err(e),
                }
                channel
            },
            IbcChannelConnectMsg::OpenConfirm { channel } => {
                match enforce_order_and_version(&channel, None) {
                    Ok(()) => {},
                    Err(e) => return Err(e),
                }
                channel
            },
        };
        let id = channel.endpoint.channel_id;
        let info = ChannelInfo {
            id,
            counterparty_endpoint: channel.counterparty_endpoint,
            connection_id: channel.connection_id,
        };
        self.channels.put(info);
        Ok(IbcBasicResponse::new().add_attribute("action", "ibc_connect"))
    }

    /// A channel being closed. Funds may still be outstanding on it, and
    /// nothing could return them once it is gone, so this side never starts
    /// a close; a close the counterparty started is taken note of.
    pub fn ibc_channel_close(&self, msg: &IbcChannelCloseMsg) -> (r: Result<IbcBasicResponse, Error>)
        ensures
            (msg is CloseInit) ==> (r matches Err(e) && e@ == (ErrorView::CannotCloseChannel {  })),
            (msg is CloseConfirm) ==> (r is Ok),
    {
        match msg {
            IbcChannelCloseMsg::CloseInit { .. } => Err(Error::CannotCloseChannel {  }),
            IbcChannelCloseMsg::CloseConfirm { .. } => Ok(
                IbcBasicResponse::new().add_attribute("action", "ibc_close"),
            ),
        }
    }
    fn do_receive(&mut self, packet: &IbcPacket, payload: Option<Ics20Packet>) -> (r: Result<
        IbcReceiveResponse,
        Error,
    >)
        requires
            old(self).wf(),
        ensures
            final(self).wf(),
            final(self).same_setup(old(self)),
            match receive_result(old(self).ledger(), *packet, payload) {
                Err(e) => r matches Err(x) && x@ == e && final(self).same_state(old(self)),
                Ok(d) => r matches Ok(resp) && received(
                    *old(self),
                    *final(self),
                    *packet,
                    payload->0,
                    d,
                    resp,
                ),
            },
    {
        let p = match payload {
            Some(p) => p,
            None => return Err(Error::ParseError {  }),
        };
        let denom = match parse_voucher_denom(p.denom.as_str(), &packet.src) {
            Ok(d) => d,
            Err(e) => return Err(e),
        };
        let channel = packet.dest.channel_id.clone();
        match self.ledger.reduce(channel.as_str(), denom.as_str(), p.amount) {
            Ok(()) => {},
            Err(e) => return Err(e),
        }
        let amount_text = decimal(p.amount);
        let to_send = Amount::from_parts(denom.clone(), p.amount);
        let submsg = SubMsg::reply_on_error(send_amount(to_send, p.receiver.clone()), RECEIVE_ID);
        let resp = IbcReceiveResponse::new(ack_success()).add_submessage(submsg).add_attribute(
            "action",
            "receive",
        ).add_attribute("receiver", p.receiver.as_str()).add_attribute(
            "denom",
            denom.as_str(),
        ).add_attribute("amount", amount_text.as_str()).add_attribute("success", "true");
        self.reply_args = Some(ReplyArgs { channel, denom, amount: p.amount });
        Ok(resp)
    }

    /// Receives a transfer packet. `payload` is the packet's data decoded,
    /// or `None` when it could not be decoded.
    ///
    /// A payload that redeems a voucher of this chain, minted for the
    /// endpoint the packet came from, debits the ledger of the destination
    /// channel at once, records the debit as the staged delivery, stages the
    /// delivery of the tokens to the receiver (reported back under
    /// `RECEIVE_ID` only if it fails) and acknowledges success. Anything else
    /// is acknowledged with the error's text and changes nothing.
    pub fn ibc_packet_receive(&mut self, msg: &IbcPacketReceiveMsg, payload: Option<Ics20Packet>) -> (r:
        IbcReceiveResponse)
        requires
            old(self).wf(),
        ensures
            final(self).wf(),
            final(self).same_setup(old(self)),
            match receive_result(old(self).ledger(), msg.packet, payload) {
                Err(e) => {
                    &&& r.acknowledgement matches Ics20Ack::Error(t) && t@ == crate::error::error_text(e)
                    &&& r.messages@.len() == 0
                    &&& final(self).same_state(old(self))
                },
                Ok(d) => received(*old(self), *final(self), msg.packet, payload->0, d, r),
            },
    {
        match self.do_receive(&msg.packet, payload) {
            Ok(resp) => resp,
            Err(e) => {
                let text = e.message();
                IbcReceiveResponse::new(ack_fail(text.clone())).add_attribute(
                    "action",
                    "receive",
                ).add_attribute("success", "false").add_attribute("error", text.as_str())
            },
        }
    }

    /// The deferred report of a staged sub-operation.
    ///
    /// A failed delivery of a received packet (`RECEIVE_ID`) puts the staged
    /// debit back on the ledger, clears it, and replaces the acknowledgement
    /// with the failure; a successful one only clears it. A failed refund
    /// (`ACK_FAILURE_ID`) is reported in the response data. Any other id is
    /// refused, as is a failed delivery when no debit is staged.
    pub fn reply(&mut self, reply: &Reply) -> (r: Result<Response, Error>)
        requires
            old(self).wf(),
        ensures
            final(self).wf(),
            final(self).same_setup(old(self)),
            reply.id != RECEIVE_ID && reply.id != ACK_FAILURE_ID ==> (r matches Err(e) && e@
                == (ErrorView::UnknownReplyId { id: reply.id })) && final(self).same_state(old(self)),
            reply.id == RECEIVE_ID && reply.result is Success ==> (r matches Ok(resp)
                && resp.data is None && resp.messages@.len() == 0) && final(self).ledger() == old(self).ledger() && final(self).pending() is None,
            reply.id == RECEIVE_ID && reply.result is Failure && old(self).pending() is None ==> (
            r matches Err(e) && e@ == (ErrorView::UnknownReplyId { id: reply.id })) && final(self).same_state(old(self)),
            reply.id == RECEIVE_ID && reply.result is Failure && old(self).pending() is Some ==> ({
                let (c, d, a) = old(self).pending()->0;
                match undo_reduced(old(self).ledger(), c, d, a) {
                    None => (r matches Err(e) && e@ == ErrorView::UndoReduceChannelBalanceError {  })
                        && final(self).same_state(old(self)),
                    Some(m) => {
                        &&& r matches Ok(resp)
                        &&& resp.messages@.len() == 0
                        &&& resp.data matches Some(Ics20Ack::Error(t)) && t@
                            == reply.result->Failure_0@
                        &&& final(self).ledger() == m
                        &&& final(self).pending() is None
                    },
                }
            }),
            reply.id == ACK_FAILURE_ID ==> final(self).same_state(old(self)) && (r matches Ok(
                resp,
            ) && resp.messages@.len() == 0 && match reply.result {
                SubMsgResult::Failure(err) => resp.data matches Some(Ics20Ack::Error(t)) && t@
                    == err@,
                SubMsgResult::Success(_) => resp.data is None,
            }),
    {
        if reply.id == RECEIVE_ID {
            match &reply.result {
                SubMsgResult::Success(_) => {
                    self.reply_args = None;
                    Ok(Response::new())
                },
                SubMsgResult::Failure(err) => {
                    match &self.reply_args {
                        None => Err(Error::UnknownReplyId { id: reply.id }),
                        Some(args) => {
                            match self.ledger.undo_reduce(
                                args.channel.as_str(),
                                args.denom.as_str(),
                                args.amount,
                            ) {
                                Ok(()) => {},
                                Err(e) => return Err(e),
                            }
                            self.reply_args = None;
                            Ok(Response::new().set_data(ack_fail(err.clone())))
                        },
                    }
                },
            }
        } else if reply.id == ACK_FAILURE_ID {
            match &reply.result {
                SubMsgResult::Success(_) => Ok(Response::new()),
                SubMsgResult::Failure(err) => Ok(Response::new().set_data(ack_fail(err.clone()))),
            }
        } else {
            Err(Error::UnknownReplyId { id: reply.id })
        }
    }

    fn on_packet_success(payload: Option<Ics20Packet>) -> (r: Result<IbcBasicResponse, Error>)
        ensures
            payload is None ==> (r matches Err(e) && e@ == ErrorView::ParseError {  }),
            payload is Some ==> (r matches Ok(resp) && resp.messages@.len() == 0),
    {
        let p = match payload {
            Some(p) => p,
            None => return Err(Error::ParseError {  }),
        };
        let amount_text = decimal(p.amount);
        Ok(
            IbcBasicResponse::new().add_attribute("action", "acknowledge").add_attribute(
                "sender",
                p.sender.as_str(),
            ).add_attribute("receiver", p.receiver.as_str()).add_attribute(
                "denom",
                p.denom.as_str(),
            ).add_attribute("amount", amount_text.as_str()).add_attribute("success", "true"),
        )
    }

    fn on_packet_failure(
        &mut self,
        packet: &IbcPacket,
        payload: Option<Ics20Packet>,
        err: &str,
    ) -> (r: Result<IbcBasicResponse, Error>)
        requires
            old(self).wf(),
        ensures
            final(self).wf(),
            match refund_result(old(self).ledger(), *packet, payload) {
                Err(e) => r matches Err(x) && x@ == e && final(self).same_state(old(self)),
                Ok(m) => r matches Ok(resp) && refunded(*old(self), *final(self), payload->0, m, resp),
            },
    {
        let p = match payload {
            Some(p) => p,
            None => return Err(Error::ParseError {  }),
        };
        match self.ledger.reduce(packet.src.channel_id.as_str(), p.denom.as_str(), p.amount) {
            Ok(()) => {},
            Err(e) => return Err(e),
        }
        let amount_text = decimal(p.amount);
        let to_send = Amount::from_parts(p.denom.clone(), p.amount);
        let submsg = SubMsg::reply_on_error(send_amount(to_send, p.sender.clone()), ACK_FAILURE_ID);
        Ok(
            IbcBasicResponse::new().add_submessage(submsg).add_attribute(
                "action",
                "acknowledge",
            ).add_attribute("sender", p.sender.as_str()).add_attribute(
                "receiver",
                p.receiver.as_str(),
            ).add_attribute("denom", p.denom.as_str()).add_attribute(
                "amount",
                amount_text.as_str(),
            ).add_attribute("success", "false").add_attribute("error", err),
        )
    }

    /// The acknowledgement of a packet this chain sent. `payload` is the
    /// original packet's data decoded and `ack` the acknowledgement decoded,
    /// each `None` when it could not be decoded.
    ///
    /// A success changes nothing. An error takes the amount off what is
    /// outstanding on the source channel and stages its return to the
    /// sender, reported back under `ACK_FAILURE_ID` only if it fails.
    pub fn ibc_packet_ack(
        &mut self,
        msg: &IbcPacketAckMsg,
        payload: Option<Ics20Packet>,
        ack: Option<Ics20Ack>,
    ) -> (r: Result<IbcBasicResponse, Error>)
        requires
            old(self).wf(),
        ensures
            final(self).wf(),
            ack is None ==> (r matches Err(e) && e@ == ErrorView::PacketAckError {  }) && final(self).same_state(old(self)),
            ack matches Some(Ics20Ack::Result(_)) ==> final(self).same_state(old(self)) && (
            payload is None ==> (r matches Err(e) && e@ == ErrorView::ParseError {  })) && (
            payload is Some ==> (r matches Ok(resp) && resp.messages@.len() == 0)),
            ack matches Some(Ics20Ack::Error(_)) ==> match refund_result(
                old(self).ledger(),
                msg.original_packet,
                payload,
            ) {
                Err(e) => r matches Err(x) && x@ == e && final(self).same_state(old(self)),
                Ok(m) => r matches Ok(resp) && refunded(*old(self), *final(self), payload->0, m, resp),
            },
    {
        match ack {
            None => Err(Error::PacketAckError {  }),
            Some(Ics20Ack::Result(_)) => Contract::on_packet_success(payload),
            Some(Ics20Ack::Error(err)) => self.on_packet_failure(
                &msg.original_packet,
                payload,
                err.as_str(),
            ),
        }
    }

    /// A packet this chain sent timed out: as for an error acknowledgement,
    /// the amount comes off what is outstanding and goes back to the sender.
    pub fn ibc_packet_timeout(&mut self, msg: &IbcPacketTimeoutMsg, payload: Option<Ics20Packet>) -> (r:
        Result<IbcBasicResponse, Error>)
        requires
            old(self).wf(),
        ensures
            final(self).wf(),
            match refund_result(old(self).ledger(), msg.packet, payload) {
                Err(e) => r matches Err(x) && x@ == e && final(self).same_state(old(self)),
                Ok(m) => r matches Ok(resp) && refunded(*old(self), *final(self), payload->0, m, resp),
            },
    {
        self.on_packet_failure(&msg.packet, payload, "timeout")
    }

    /// Sends `amount` from `sender` to `msg.remote_address` over
    /// `msg.channel`, at time `now` (milliseconds). The amount is added to
    /// what is outstanding and to the lifetime total of the channel, and a
    /// packet is staged that times out after the requested or the
    /// configured number of seconds.
    pub fn execute_transfer(&mut self, msg: TransferMsg, amount: Amount, sender: Addr, now: u64) -> (r:
        Result<Response, Error>)
        requires
            old(self).wf(),
        ensures
            final(self).wf(),
            transferred(*old(self), *final(self), msg, amount@, sender.0@, now, r),
    {
        if self.channels.get(msg.channel.as_str()).is_none() {
            return Err(Error::NoSuchChannel { id: msg.channel });
        }
        match &amount {
            Amount::Cw20(coin) => {
                if self.allow_list.get(coin.address.as_str()).is_none()
                    && self.config.default_gas_limit.is_none() {
                    return Err(Error::NotOnAllowList {  });
                }
            },
            Amount::Native(_) => {},
        }
        let secs = match msg.timeout {
            Some(t) => t,
            None => self.config.default_timeout,
        };
        let t: u128 = now as u128 + secs as u128 * 1000;
        let timestamp: u64 = if t > u64::MAX as u128 {
            u64::MAX
        } else {
            t as u64
        };
        let denom = amount.denom();
        let value = amount.amount();
        match self.ledger.increase(msg.channel.as_str(), denom.as_str(), value) {
            Ok(()) => {},
            Err(e) => return Err(e),
        }
        let amount_text = decimal(value);
        let packet = Ics20Packet {
            amount: value,
            denom,
            receiver: msg.remote_address,
            sender: sender.0,
            memo: msg.memo,
        };
        let resp = Response::new().add_attribute("action", "transfer").add_attribute(
            "sender",
            packet.sender.as_str(),
        ).add_attribute("receiver", packet.receiver.as_str()).add_attribute(
            "denom",
            packet.denom.as_str(),
        ).add_attribute("amount", amount_text.as_str());
        let send = IbcMsg::SendPacket {
            channel_id: msg.channel,
            data: packet,
            timeout: IbcTimeout { block: None, timestamp: Some(timestamp) },
        };
        Ok(resp.add_message(CosmosMsg::Ibc(send)))
    }
    /// Sends cw20 tokens that their contract (`info.sender`) moved to the
    /// bridge: `wrapper` names the owner and the amount, `msg` is its
    /// decoded transfer request. The same as `execute_transfer` of that
    /// cw20 amount from the owner.
    pub fn execute_receive(
        &mut self,
        info: &MessageInfo,
        wrapper: Cw20ReceiveMsg,
        msg: TransferMsg,
        now: u64,
    ) -> (r: Result<Response, Error>)
        requires
            old(self).wf(),
        ensures
            final(self).wf(),
            transferred(
                *old(self),
                *final(self),
                msg,
                AmountView::Cw20 { address: info.sender.0@, amount: wrapper.amount },
                wrapper.sender@,
                now,
                r,
            ),
    {
        let amount = Amount::Cw20(
            crate::types::Cw20Coin { address: info.sender.0.clone(), amount: wrapper.amount },
        );
        self.execute_transfer(msg, amount, Addr(wrapper.sender), now)
    }
}

/// `balance` and `total` report the record in `ledger` of `channel` and
/// the denomination they name.
pub open spec fn denom_reported(
    ledger: Map<(Seq<char>, Seq<char>), ChannelState>,
    channel: Seq<char>,
    balance: AmountView,
    total: AmountView,
) -> bool {
    let d = amount_denom(balance);
    &&& ledger.contains_key((channel, d))
    &&& balance == amount_from_parts(d, ledger[(channel, d)].outstanding)
    &&& total == amount_from_parts(d, ledger[(channel, d)].total_sent)
}

/// `resp` reports channel `id` of `c`: its record, and one balance and one
/// lifetime total for each denomination recorded on it, in the same order.
pub open spec fn channel_reported(c: Contract, id: Seq<char>, resp: ChannelResponse) -> bool {
    &&& c.channels().contains_key(id)
    &&& resp.info@ == c.channels()[id]
    &&& resp.balances@.len() == resp.total_sent@.len()
    &&& forall|k: int|
        0 <= k < resp.balances@.len() ==> denom_reported(
            c.ledger(),
            id,
            (#[trigger] resp.balances@[k])@,
            resp.total_sent@[k]@,
        )
    &&& forall|d: Seq<char>|
        #[trigger] c.ledger().contains_key((id, d)) ==> exists|k: int|
            0 <= k < resp.balances@.len() && amount_denom((#[trigger] resp.balances@[k])@) == d
}

proof fn lemma_channel_reported(
    c: Contract,
    id: Seq<char>,
    resp: ChannelResponse,
    records: Seq<(String, ChannelState)>,
)
    requires
        c.channels().contains_key(id),
        resp.info@ == c.channels()[id],
        resp.balances@.len() == records.len(),
        resp.total_sent@.len() == records.len(),
        forall|k: int|
            0 <= k < records.len() ==> c.ledger().contains_key((id, #[trigger] records[k].0@))
                && c.ledger()[(id, records[k].0@)] == records[k].1,
        forall|d: Seq<char>|
            #[trigger] c.ledger().contains_key((id, d)) ==> exists|k: int|
                0 <= k < records.len() && #[trigger] records[k].0@ == d,
        forall|k: int|
            0 <= k < records.len() ==> (#[trigger] resp.balances@[k])@ == amount_from_parts(
                records[k].0@,
                records[k].1.outstanding,
            ) && resp.total_sent@[k]@ == amount_from_parts(records[k].0@, records[k].1.total_sent),
    ensures
        channel_reported(c, id, resp),
{
    assert forall|k: int| 0 <= k < resp.balances@.len() implies denom_reported(
        c.ledger(),
        id,
        (#[trigger] resp.balances@[k])@,
        resp.total_sent@[k]@,
    ) by {
        lemma_from_parts_denom(records[k].0@, records[k].1.outstanding);
    }
    assert forall|d: Seq<char>| #[trigger] c.ledger().contains_key((id, d)) implies exists|k: int|
        0 <= k < resp.balances@.len() && amount_denom((#[trigger] resp.balances@[k])@) == d by {
        let k = choose|k: int| 0 <= k < records.len() && #[trigger] records[k].0@ == d;
        lemma_from_parts_denom(records[k].0@, records[k].1.outstanding);
        assert(amount_denom(resp.balances@[k]@) == d);
    }
}

/// After an accepted receive of `p` that redeems local denomination `d`:
/// the destination channel is debited, the debit is staged, success is
/// acknowledged, and the delivery to the receiver is staged.
pub open spec fn received(
    before: Contract,
    after: Contract,
    packet: IbcPacket,
    p: Ics20Packet,
    d: Seq<char>,
    resp: IbcReceiveResponse,
) -> bool {
    &&& after.ledger() == reduced(before.ledger(), packet.dest.channel_id@, d, p.amount)->0
    &&& after.pending() == Some((packet.dest.channel_id@, d, p.amount))
    &&& resp.acknowledgement matches Ics20Ack::Result(x) && x@ == success_ack_data()
    &&& resp.messages@.len() == 1
    &&& resp.messages@[0].id == RECEIVE_ID
    &&& resp.messages@[0].reply_on == ReplyOn::Error
    &&& sends(resp.messages@[0].msg, amount_from_parts(d, p.amount), p.receiver@)
}

/// The ledger once the staged debit of `c` is put back, as the reply to a
/// failed delivery does; `None` when nothing is staged or it cannot be put back.
pub open spec fn rollback(c: Contract) -> Option<Map<(Seq<char>, Seq<char>), ChannelState>> {
    match c.pending() {
        Some((channel, denom, amount)) => undo_reduced(c.ledger(), channel, denom, amount),
        None => None,
    }
}

/// A receive that was accepted leaves a staged debit whose rollback, as a
/// failed delivery's reply performs it, succeeds and gives every
/// (channel, denomination) pair the record it had before the receive.
pub proof fn law_failed_delivery_restores_ledger(
    before: Contract,
    after: Contract,
    packet: IbcPacket,
    p: Ics20Packet,
    d: Seq<char>,
    resp: IbcReceiveResponse,
)
    requires
        before.wf(),
        receive_result(before.ledger(), packet, Some(p)) == Ok::<Seq<char>, ErrorView>(d),
        received(before, after, packet, p, d, resp),
    ensures
        rollback(after) is Some,
        forall|c: Seq<char>, e: Seq<char>|
            #[trigger] state_of(rollback(after)->0, c, e) == state_of(before.ledger(), c, e),
{
    law_undo_reduce_inverts_reduce(before.ledger(), packet.dest.channel_id@, d, p.amount);
}

/// After a packet `p` this chain sent is given back: the ledger is `m`, the
/// staged delivery is untouched, and the return of the amount to the sender
/// is staged.
pub open spec fn refunded(
    before: Contract,
    after: Contract,
    p: Ics20Packet,
    m: Map<(Seq<char>, Seq<char>), ChannelState>,
    resp: IbcBasicResponse,
) -> bool {
    &&& after.ledger() == m
    &&& after.same_setup(&before)
    &&& after.pending() == before.pending()
    &&& resp.messages@.len() == 1
    &&& resp.messages@[0].id == ACK_FAILURE_ID
    &&& resp.messages@[0].reply_on == ReplyOn::Error
    &&& sends(resp.messages@[0].msg, amount_from_parts(p.denom@, p.amount), p.sender@)
}

/// `before` becomes `after`, answering `r`, when `sender` sets the
/// allow-list entry `allow`: refused, with nothing changed, unless `sender`
/// is the admin and the entry does not lower a gas limit already set.
pub open spec fn allow_set(
    before: Contract,
    after: Contract,
    sender: Seq<char>,
    allow: AllowMsg,
    r: Result<Response, Error>,
) -> bool {
    let current = if before.allowed().contains_key(allow.contract@) {
        Some(before.allowed()[allow.contract@])
    } else {
        None
    };
    if sender != before.admin() {
        (r matches Err(e) && e@ == ErrorView::Unauthorized {  }) && after.same_state(&before)
    } else if lowers_gas(current, allow.gas_limit) {
        (r matches Err(e) && e@ == ErrorView::CannotLowerGas {  }) && after.same_state(&before)
    } else {
        &&& r matches Ok(resp)
        &&& resp.messages@.len() == 0
        &&& after.allowed() == before.allowed().insert(allow.contract@, allow.gas_limit)
        &&& after.ledger() == before.ledger()
        &&& after.channels() == before.channels()
        &&& after.pending() == before.pending()
        &&& after.config() == before.config()
        &&& after.admin() == before.admin()
    }
}

/// `before` becomes `after`, answering `r`, when `sender` hands the admin
/// role to `admin`: refused, with nothing changed, unless `sender` is the
/// admin.
pub open spec fn admin_set(
    before: Contract,
    after: Contract,
    sender: Seq<char>,
    admin: Seq<char>,
    r: Result<Response, Error>,
) -> bool {
    if sender != before.admin() {
        (r matches Err(e) && e@ == ErrorView::Unauthorized {  }) && after.same_state(&before)
    } else {
        &&& r is Ok
        &&& after.admin() == admin
        &&& after.ledger() == before.ledger()
        &&& after.channels() == before.channels()
        &&& after.pending() == before.pending()
        &&& after.config() == before.config()
        &&& after.allowed() == before.allowed()
    }
}

/// `before` becomes `after`, answering `r`, when `sender` sends `amount`
/// as `t` asks at time `now`: refused, with nothing changed, when the channel
/// is not connected, when the amount is a cw20 token that may not be sent,
/// or when the channel's lifetime total would overflow; otherwise the
/// ledger grows by the amount and one packet is staged.
pub open spec fn transferred(
    before: Contract,
    after: Contract,
    t: TransferMsg,
    amount: AmountView,
    sender: Seq<char>,
    now: u64,
    r: Result<Response, Error>,
) -> bool {
    let secs = match t.timeout {
        Some(x) => x,
        None => before.config().default_timeout,
    };
    &&& after.wf()
    &&& after.same_setup(&before)
    &&& after.pending() == before.pending()
    &&& if !before.channels().contains_key(t.channel@) {
        (r matches Err(e) && e@ == ErrorView::NoSuchChannel { id: t.channel@ }) && after.same_state(&before)
    } else if before.blocks(amount) {
        (r matches Err(e) && e@ == ErrorView::NotOnAllowList {  }) && after.same_state(&before)
    } else {
        match increased(before.ledger(), t.channel@, amount_denom(amount), amount_value(amount)) {
            None => (r matches Err(e) && e@ == ErrorView::AmountOverflow {  }) && after.same_state(&before),
            Some(m) => {
                &&& after.ledger() == m
                &&& r matches Ok(resp)
                &&& resp.data is None
                &&& resp.messages@.len() == 1
                &&& resp.messages@[0].reply_on == ReplyOn::Never
                &&& sends_packet(resp.messages@[0].msg, t, amount, sender, timeout_at(now, secs))
            },
        }
    }
}

/// `msg` sends over `t.channel` a packet of `amount` from `sender` to
/// `t.remote_address`, timing out at `timestamp`.
pub open spec fn sends_packet(
    msg: CosmosMsg,
    t: TransferMsg,
    amount: AmountView,
    sender: Seq<char>,
    timestamp: u64,
) -> bool {
    match msg {
        CosmosMsg::Ibc(IbcMsg::SendPacket { channel_id, data, timeout }) => {
            &&& channel_id@ == t.channel@
            &&& data.amount == amount_value(amount)
            &&& data.denom@ == amount_denom(amount)
            &&& data.receiver@ == t.remote_address@
            &&& data.sender@ == sender
            &&& data.memo == t.memo
            &&& timeout == (IbcTimeout { block: None, timestamp: Some(timestamp) })
        },
        _ => false,
    }
}

} // verus!
