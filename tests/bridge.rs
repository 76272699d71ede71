use ics20::amount::Amount;
use ics20::contract::{
    AllowMsg, Contract, ExecuteMsg, Cw20ReceiveMsg, InitMsg, MessageInfo, TransferMsg,
    ACK_FAILURE_ID, RECEIVE_ID,
};
use ics20::denom::parse_voucher_denom;
use ics20::error::Error;
use ics20::ledger::{ChannelLedger, ChannelState};
use ics20::response::IbcReceiveResponse;
use ics20::types::{
    Addr, BankMsg, CosmosMsg, Cw20ExecuteMsg, IbcChannel, IbcChannelCloseMsg,
    IbcChannelConnectMsg, IbcChannelOpenMsg, IbcEndpoint, IbcMsg, IbcOrder, IbcPacket,
    IbcPacketAckMsg, IbcPacketReceiveMsg, IbcPacketTimeoutMsg, IbcAcknowledgement, IbcTimeout,
    Ics20Ack, Ics20Packet, Reply, ReplyOn, SubMsgResponse, SubMsgResult, WasmMsg,
};

fn endpoint(port: &str, channel: &str) -> IbcEndpoint {
    IbcEndpoint { port_id: port.to_string(), channel_id: channel.to_string() }
}

fn channel(id: &str, order: IbcOrder, version: &str) -> IbcChannel {
    IbcChannel {
        endpoint: endpoint("transfer", id),
        counterparty_endpoint: endpoint("transfer", "chan-remote"),
        order,
        version: version.to_string(),
        connection_id: "conn-0".to_string(),
    }
}

fn init(default_gas_limit: Option<u64>) -> InitMsg {
    InitMsg {
        default_timeout: 300,
        gov_contract: "gov".to_string(),
        allowlist: vec![],
        default_gas_limit,
    }
}

/// A bridge with "chan-1" connected to ("transfer", "chan-remote").
fn connected() -> Contract {
    let mut c = Contract::new(init(None));
    let msg = IbcChannelConnectMsg::OpenConfirm { channel: channel("chan-1", IbcOrder::Unordered, "ics20-1") };
    c.ibc_channel_connect(msg).unwrap();
    c
}

fn transfer_msg(channel: &str) -> TransferMsg {
    TransferMsg {
        channel: channel.to_string(),
        remote_address: "remote-bob".to_string(),
        timeout: None,
        memo: None,
    }
}

fn send_native(c: &mut Contract, amount: u128, denom: &str) -> Ics20Packet {
    let resp = c
        .execute_transfer(transfer_msg("chan-1"), Amount::native(amount, denom), Addr("alice".to_string()), 1_000)
        .unwrap();
    match &resp.messages[0].msg {
        CosmosMsg::Ibc(IbcMsg::SendPacket { data, .. }) => data.clone(),
        other => panic!("unexpected message {:?}", other),
    }
}

fn incoming(amount: u128, denom: &str) -> (IbcPacketReceiveMsg, Ics20Packet) {
    let payload = Ics20Packet {
        amount,
        denom: denom.to_string(),
        receiver: "bob".to_string(),
        sender: "remote-carol".to_string(),
        memo: None,
    };
    let packet = IbcPacket {
        data: vec![],
        src: endpoint("transfer", "chan-remote"),
        dest: endpoint("transfer", "chan-1"),
        sequence: 7,
        timeout: IbcTimeout { block: None, timestamp: Some(5_000) },
    };
    (IbcPacketReceiveMsg { packet }, payload)
}

fn outgoing_packet() -> IbcPacket {
    IbcPacket {
        data: vec![],
        src: endpoint("transfer", "chan-1"),
        dest: endpoint("transfer", "chan-remote"),
        sequence: 3,
        timeout: IbcTimeout { block: None, timestamp: Some(301_000) },
    }
}

fn error_text(resp: &IbcReceiveResponse) -> String {
    match &resp.acknowledgement {
        Ics20Ack::Error(t) => t.clone(),
        other => panic!("expected an error ack, got {:?}", other),
    }
}

#[test]
fn voucher_denom_of_this_endpoint_is_accepted() {
    let ep = endpoint("portA", "chanA");
    assert_eq!(parse_voucher_denom("portA/chanA/uatom", &ep), Ok("uatom".to_string()));
}

#[test]
fn bare_denom_is_no_voucher() {
    let ep = endpoint("portA", "chanA");
    assert_eq!(parse_voucher_denom("uatom", &ep), Err(Error::NoForeignTokens {}));
    assert_eq!(parse_voucher_denom("a/b/c/d", &ep), Err(Error::NoForeignTokens {}));
    assert_eq!(parse_voucher_denom("portA/uatom", &ep), Err(Error::NoForeignTokens {}));
}

#[test]
fn voucher_of_other_port_is_refused() {
    let ep = endpoint("portA", "chanA");
    assert_eq!(
        parse_voucher_denom("portB/chanA/uatom", &ep),
        Err(Error::FromOtherPort { port: "portB".to_string() })
    );
}

#[test]
fn voucher_of_other_channel_is_refused() {
    let ep = endpoint("portA", "chanA");
    assert_eq!(
        parse_voucher_denom("portA/chanB/uatom", &ep),
        Err(Error::FromOtherChannel { channel: "chanB".to_string() })
    );
}

#[test]
fn reduce_then_undo_restores_outstanding() {
    let mut l = ChannelLedger::new();
    l.increase("c", "d", 100).unwrap();
    l.reduce("c", "d", 40).unwrap();
    assert_eq!(l.state("c", "d"), ChannelState { outstanding: 60, total_sent: 100 });
    l.undo_reduce("c", "d", 40).unwrap();
    assert_eq!(l.state("c", "d"), ChannelState { outstanding: 100, total_sent: 100 });
}

#[test]
fn reduce_beyond_outstanding_fails_and_changes_nothing() {
    let mut l = ChannelLedger::new();
    l.increase("c", "d", 10).unwrap();
    assert_eq!(l.reduce("c", "d", 11), Err(Error::InsufficientFunds {}));
    assert_eq!(l.state("c", "d"), ChannelState { outstanding: 10, total_sent: 10 });
    assert_eq!(l.reduce("c", "other", 1), Err(Error::InsufficientFunds {}));
    assert_eq!(l.state("c", "other"), ChannelState { outstanding: 0, total_sent: 0 });
    assert_eq!(l.reduce("c", "d", 10), Ok(()));
    assert_eq!(l.state("c", "d"), ChannelState { outstanding: 0, total_sent: 10 });
}

#[test]
fn ledger_records_are_kept_apart() {
    let mut l = ChannelLedger::new();
    l.increase("c1", "d", 5).unwrap();
    l.increase("c2", "d", 7).unwrap();
    l.increase("c1", "e", 9).unwrap();
    l.increase("c1", "d", 1).unwrap();
    assert_eq!(l.state("c1", "d"), ChannelState { outstanding: 6, total_sent: 6 });
    assert_eq!(l.state("c2", "d"), ChannelState { outstanding: 7, total_sent: 7 });
    assert_eq!(l.state("c1", "e"), ChannelState { outstanding: 9, total_sent: 9 });
}

#[test]
fn increase_overflow_fails() {
    let mut l = ChannelLedger::new();
    l.increase("c", "d", u128::MAX).unwrap();
    assert_eq!(l.increase("c", "d", 1), Err(Error::AmountOverflow {}));
    assert_eq!(l.state("c", "d"), ChannelState { outstanding: u128::MAX, total_sent: u128::MAX });
}

#[test]
fn undo_beyond_total_sent_fails() {
    let mut l = ChannelLedger::new();
    l.increase("c", "d", 10).unwrap();
    l.reduce("c", "d", 4).unwrap();
    assert_eq!(l.undo_reduce("c", "d", 5), Err(Error::UndoReduceChannelBalanceError {}));
    assert_eq!(l.state("c", "d"), ChannelState { outstanding: 6, total_sent: 10 });
}

#[test]
fn cw20_denom_round_trips() {
    let a = Amount::cw20(42, "juno1contract");
    assert_eq!(a.denom(), "cw20:juno1contract".to_string());
    let back = Amount::from_parts(a.denom(), 42);
    assert_eq!(back.denom(), a.denom());
    assert_eq!(back, a);
}

#[test]
fn native_amount_accessors() {
    let a = Amount::from_parts("uatom".to_string(), 0);
    assert_eq!(a, Amount::native(0, "uatom"));
    assert_eq!(a.denom(), "uatom".to_string());
    assert!(a.is_empty());
    assert_eq!(Amount::native(9, "x").amount(), 9);
    assert!(!Amount::native(9, "x").is_empty());
    assert_eq!(Amount::from_parts("cw20".to_string(), 3), Amount::native(3, "cw20"));
    assert_eq!(Amount::from_parts("cw20:".to_string(), 3), Amount::cw20(3, ""));
}

#[test]
fn u64_amount_checks_range() {
    assert_eq!(Amount::native(u64::MAX as u128, "x").u64_amount(), Ok(u64::MAX));
    assert_eq!(Amount::native(u64::MAX as u128 + 1, "x").u64_amount(), Err(Error::AmountOverflow {}));
}

#[test]
fn open_with_other_counterparty_version_is_refused() {
    let c = Contract::new(init(None));
    let msg = IbcChannelOpenMsg::OpenTry {
        channel: channel("chan-1", IbcOrder::Unordered, "ics20-1"),
        counterparty_version: "ics20-2".to_string(),
    };
    assert_eq!(c.ibc_channel_open(&msg), Err(Error::InvalidVersion { got: "ics20-2".to_string() }));
}

#[test]
fn open_of_ordered_channel_is_refused() {
    let c = Contract::new(init(None));
    let msg = IbcChannelOpenMsg::OpenInit { channel: channel("chan-1", IbcOrder::Ordered, "ics20-1") };
    assert_eq!(c.ibc_channel_open(&msg), Err(Error::OnlyUnorderedChannel {}));
}

#[test]
fn open_with_other_version_is_refused() {
    let c = Contract::new(init(None));
    let msg = IbcChannelOpenMsg::OpenInit { channel: channel("chan-1", IbcOrder::Unordered, "ics20-7") };
    assert_eq!(c.ibc_channel_open(&msg), Err(Error::InvalidVersion { got: "ics20-7".to_string() }));
    let ok = IbcChannelOpenMsg::OpenTry {
        channel: channel("chan-1", IbcOrder::Unordered, "ics20-1"),
        counterparty_version: "ics20-1".to_string(),
    };
    assert_eq!(c.ibc_channel_open(&ok), Ok(()));
}

#[test]
fn connect_records_the_channel() {
    let mut c = Contract::new(init(None));
    let bad = IbcChannelConnectMsg::OpenAck {
        channel: channel("chan-1", IbcOrder::Unordered, "ics20-1"),
        counterparty_version: "v2".to_string(),
    };
    assert_eq!(c.ibc_channel_connect(bad), Err(Error::InvalidVersion { got: "v2".to_string() }));
    assert_eq!(
        c.execute_transfer(transfer_msg("chan-1"), Amount::native(1, "uatom"), Addr("alice".to_string()), 0),
        Err(Error::NoSuchChannel { id: "chan-1".to_string() })
    );
    let good = IbcChannelConnectMsg::OpenAck {
        channel: channel("chan-1", IbcOrder::Unordered, "ics20-1"),
        counterparty_version: "ics20-1".to_string(),
    };
    assert!(c.ibc_channel_connect(good).is_ok());
    assert!(c
        .execute_transfer(transfer_msg("chan-1"), Amount::native(1, "uatom"), Addr("alice".to_string()), 0)
        .is_ok());
}

#[test]
fn close_is_only_taken_from_the_counterparty() {
    let c = connected();
    let ch = channel("chan-1", IbcOrder::Unordered, "ics20-1");
    assert_eq!(
        c.ibc_channel_close(&IbcChannelCloseMsg::CloseInit { channel: ch.clone() }),
        Err(Error::CannotCloseChannel {})
    );
    assert!(c.ibc_channel_close(&IbcChannelCloseMsg::CloseConfirm { channel: ch }).is_ok());
}

#[test]
fn failed_delivery_rolls_back_receive() {
    let mut c = connected();
    send_native(&mut c, 150, "uatom");
    let before = c.channel_state("chan-1", "uatom");
    assert_eq!(before, ChannelState { outstanding: 150, total_sent: 150 });
    let (msg, payload) = incoming(100, "transfer/chan-remote/uatom");
    let resp = c.ibc_packet_receive(&msg, Some(payload));
    assert_eq!(resp.acknowledgement, Ics20Ack::Result(vec![b'1']));
    assert_eq!(resp.messages.len(), 1);
    assert_eq!(resp.messages[0].id, RECEIVE_ID);
    assert_eq!(resp.messages[0].reply_on, ReplyOn::Error);
    assert_eq!(
        resp.messages[0].msg,
        CosmosMsg::Bank(BankMsg::Send {
            to_address: "bob".to_string(),
            amount: vec![ics20::types::Coin { denom: "uatom".to_string(), amount: 100 }],
        })
    );
    assert!(resp.attributes.iter().any(|a| a.key == "amount" && a.value == "100"));
    assert_eq!(c.channel_state("chan-1", "uatom").outstanding, 50);
    let reply = Reply { id: RECEIVE_ID, result: SubMsgResult::Failure("out of gas".to_string()) };
    let r = c.reply(&reply).unwrap();
    assert_eq!(r.data, Some(Ics20Ack::Error("out of gas".to_string())));
    assert_eq!(c.channel_state("chan-1", "uatom"), before);
    // the staged debit is consumed: a second report finds nothing to undo
    assert_eq!(c.reply(&reply), Err(Error::UnknownReplyId { id: RECEIVE_ID }));
    assert_eq!(c.channel_state("chan-1", "uatom"), before);
}

#[test]
fn successful_delivery_keeps_the_debit() {
    let mut c = connected();
    send_native(&mut c, 150, "uatom");
    let (msg, payload) = incoming(100, "transfer/chan-remote/uatom");
    c.ibc_packet_receive(&msg, Some(payload));
    let ok = Reply { id: RECEIVE_ID, result: SubMsgResult::Success(SubMsgResponse { data: None }) };
    let r = c.reply(&ok).unwrap();
    assert_eq!(r.data, None);
    assert_eq!(c.channel_state("chan-1", "uatom"), ChannelState { outstanding: 50, total_sent: 150 });
    let fail = Reply { id: RECEIVE_ID, result: SubMsgResult::Failure("late".to_string()) };
    assert_eq!(c.reply(&fail), Err(Error::UnknownReplyId { id: RECEIVE_ID }));
}

#[test]
fn receive_of_more_than_outstanding_is_acknowledged_as_error() {
    let mut c = connected();
    send_native(&mut c, 10, "uatom");
    let (msg, payload) = incoming(11, "transfer/chan-remote/uatom");
    let resp = c.ibc_packet_receive(&msg, Some(payload));
    assert_eq!(error_text(&resp), "Insufficient funds to redeem voucher on channel");
    assert!(resp.messages.is_empty());
    assert_eq!(c.channel_state("chan-1", "uatom").outstanding, 10);
}

#[test]
fn receive_of_foreign_or_undecodable_payload_is_acknowledged_as_error() {
    let mut c = connected();
    send_native(&mut c, 10, "uatom");
    let (msg, payload) = incoming(1, "uosmo");
    let resp = c.ibc_packet_receive(&msg, Some(payload));
    assert_eq!(
        error_text(&resp),
        "Only accepts tokens that originate on this chain, not native tokens of remote chain"
    );
    let (msg, payload) = incoming(1, "transfer/chan-9/uatom");
    let resp = c.ibc_packet_receive(&msg, Some(payload));
    assert_eq!(error_text(&resp), "Parsed channel from denom (chan-9) doesn't match packet");
    let (msg, payload) = incoming(1, "other/chan-remote/uatom");
    let resp = c.ibc_packet_receive(&msg, Some(payload));
    assert_eq!(error_text(&resp), "Parsed port from denom (other) doesn't match packet");
    let resp = c.ibc_packet_receive(&msg, None);
    assert_eq!(error_text(&resp), "Cannot decode the packet payload");
    assert_eq!(c.channel_state("chan-1", "uatom").outstanding, 10);
    // nothing was staged, so a failure report has nothing to undo
    let reply = Reply { id: RECEIVE_ID, result: SubMsgResult::Failure("x".to_string()) };
    assert_eq!(c.reply(&reply), Err(Error::UnknownReplyId { id: RECEIVE_ID }));
}

#[test]
fn receive_of_cw20_voucher_stages_a_cw20_transfer() {
    let mut c = Contract::new(InitMsg {
        default_timeout: 60,
        gov_contract: "gov".to_string(),
        allowlist: vec![AllowMsg { contract: "token".to_string(), gas_limit: None }],
        default_gas_limit: None,
    });
    let msg = IbcChannelConnectMsg::OpenConfirm { channel: channel("chan-1", IbcOrder::Unordered, "ics20-1") };
    c.ibc_channel_connect(msg).unwrap();
    let info = MessageInfo { sender: Addr("token".to_string()), funds: vec![] };
    let wrapper = Cw20ReceiveMsg { sender: "alice".to_string(), amount: 30, msg: vec![] };
    c.execute_receive(&info, wrapper, transfer_msg("chan-1"), 0).unwrap();
    assert_eq!(c.channel_state("chan-1", "cw20:token"), ChannelState { outstanding: 30, total_sent: 30 });
    let (msg, payload) = incoming(20, "transfer/chan-remote/cw20:token");
    let resp = c.ibc_packet_receive(&msg, Some(payload));
    assert_eq!(
        resp.messages[0].msg,
        CosmosMsg::Wasm(WasmMsg::Execute {
            contract_addr: "token".to_string(),
            msg: Cw20ExecuteMsg::Transfer { recipient: "bob".to_string(), amount: 20 },
            funds: vec![],
        })
    );
    assert_eq!(c.channel_state("chan-1", "cw20:token").outstanding, 10);
}

#[test]
fn timeout_returns_funds_to_sender() {
    let mut c = connected();
    let sent = send_native(&mut c, 50, "uatom");
    assert_eq!(c.channel_state("chan-1", "uatom"), ChannelState { outstanding: 50, total_sent: 50 });
    let resp = c.ibc_packet_timeout(&IbcPacketTimeoutMsg { packet: outgoing_packet() }, Some(sent)).unwrap();
    assert_eq!(c.channel_state("chan-1", "uatom"), ChannelState { outstanding: 0, total_sent: 50 });
    assert_eq!(resp.messages.len(), 1);
    assert_eq!(resp.messages[0].id, ACK_FAILURE_ID);
    assert_eq!(resp.messages[0].reply_on, ReplyOn::Error);
    assert_eq!(
        resp.messages[0].msg,
        CosmosMsg::Bank(BankMsg::Send {
            to_address: "alice".to_string(),
            amount: vec![ics20::types::Coin { denom: "uatom".to_string(), amount: 50 }],
        })
    );
    assert!(resp.attributes.iter().any(|a| a.key == "error" && a.value == "timeout"));
}

#[test]
fn transfer_builds_the_packet() {
    let mut c = connected();
    let mut msg = transfer_msg("chan-1");
    msg.memo = Some("hi".to_string());
    let resp = c
        .execute_transfer(msg, Amount::native(50, "uatom"), Addr("alice".to_string()), 1_000)
        .unwrap();
    assert_eq!(resp.messages.len(), 1);
    assert_eq!(resp.messages[0].reply_on, ReplyOn::Never);
    assert_eq!(
        resp.messages[0].msg,
        CosmosMsg::Ibc(IbcMsg::SendPacket {
            channel_id: "chan-1".to_string(),
            data: Ics20Packet {
                amount: 50,
                denom: "uatom".to_string(),
                receiver: "remote-bob".to_string(),
                sender: "alice".to_string(),
                memo: Some("hi".to_string()),
            },
            timeout: IbcTimeout { block: None, timestamp: Some(301_000) },
        })
    );
    let mut late = transfer_msg("chan-1");
    late.timeout = Some(u64::MAX);
    let resp = c.execute_transfer(late, Amount::native(1, "uatom"), Addr("alice".to_string()), 5).unwrap();
    match &resp.messages[0].msg {
        CosmosMsg::Ibc(IbcMsg::SendPacket { timeout, .. }) => assert_eq!(timeout.timestamp, Some(u64::MAX)),
        other => panic!("unexpected {:?}", other),
    }
    assert_eq!(c.channel_state("chan-1", "uatom"), ChannelState { outstanding: 51, total_sent: 51 });
}

#[test]
fn error_ack_refunds_and_success_ack_keeps() {
    let mut c = connected();
    let sent = send_native(&mut c, 40, "uatom");
    let ok = IbcPacketAckMsg {
        acknowledgement: IbcAcknowledgement { data: vec![] },
        original_packet: outgoing_packet(),
    };
    let resp = c.ibc_packet_ack(&ok, Some(sent.clone()), Some(Ics20Ack::Result(vec![b'1']))).unwrap();
    assert!(resp.messages.is_empty());
    assert_eq!(c.channel_state("chan-1", "uatom").outstanding, 40);
    let resp = c.ibc_packet_ack(&ok, Some(sent.clone()), Some(Ics20Ack::Error("denied".to_string()))).unwrap();
    assert_eq!(resp.messages[0].id, ACK_FAILURE_ID);
    assert_eq!(c.channel_state("chan-1", "uatom"), ChannelState { outstanding: 0, total_sent: 40 });
    // the same packet again: nothing is outstanding any more
    assert_eq!(
        c.ibc_packet_ack(&ok, Some(sent), Some(Ics20Ack::Error("denied".to_string()))),
        Err(Error::InsufficientFunds {})
    );
}

#[test]
fn undecodable_ack_or_packet_is_refused() {
    let mut c = connected();
    let sent = send_native(&mut c, 40, "uatom");
    let ack = IbcPacketAckMsg {
        acknowledgement: IbcAcknowledgement { data: vec![] },
        original_packet: outgoing_packet(),
    };
    assert_eq!(c.ibc_packet_ack(&ack, Some(sent), None), Err(Error::PacketAckError {}));
    assert_eq!(
        c.ibc_packet_ack(&ack, None, Some(Ics20Ack::Error("e".to_string()))),
        Err(Error::ParseError {})
    );
    assert_eq!(
        c.ibc_packet_timeout(&IbcPacketTimeoutMsg { packet: outgoing_packet() }, None),
        Err(Error::ParseError {})
    );
    assert_eq!(c.channel_state("chan-1", "uatom").outstanding, 40);
}

#[test]
fn reply_ids() {
    let mut c = connected();
    let r = Reply { id: 7, result: SubMsgResult::Failure("x".to_string()) };
    assert_eq!(c.reply(&r), Err(Error::UnknownReplyId { id: 7 }));
    assert_eq!(Error::UnknownReplyId { id: 7 }.message(), "Got a submessage reply with unknown id: 7");
    let r = Reply { id: ACK_FAILURE_ID, result: SubMsgResult::Failure("refund failed".to_string()) };
    assert_eq!(c.reply(&r).unwrap().data, Some(Ics20Ack::Error("refund failed".to_string())));
    let r = Reply { id: ACK_FAILURE_ID, result: SubMsgResult::Success(SubMsgResponse { data: None }) };
    assert_eq!(c.reply(&r).unwrap().data, None);
}

#[test]
fn cw20_transfer_needs_the_allow_list() {
    let mut c = connected();
    let info = MessageInfo { sender: Addr("token".to_string()), funds: vec![] };
    let wrapper = Cw20ReceiveMsg { sender: "alice".to_string(), amount: 5, msg: vec![] };
    assert_eq!(
        c.execute_receive(&info, wrapper.clone(), transfer_msg("chan-1"), 0),
        Err(Error::NotOnAllowList {})
    );
    let gov = MessageInfo { sender: Addr("gov".to_string()), funds: vec![] };
    c.execute_allow(&gov, AllowMsg { contract: "token".to_string(), gas_limit: Some(100) }).unwrap();
    assert!(c.execute_receive(&info, wrapper, transfer_msg("chan-1"), 0).is_ok());
    let mut open = Contract::new(init(Some(1)));
    let msg = IbcChannelConnectMsg::OpenConfirm { channel: channel("chan-1", IbcOrder::Unordered, "ics20-1") };
    open.ibc_channel_connect(msg).unwrap();
    assert!(open
        .execute_transfer(transfer_msg("chan-1"), Amount::cw20(5, "any"), Addr("a".to_string()), 0)
        .is_ok());
}

#[test]
fn allow_list_limits_only_rise() {
    let mut c = Contract::new(init(None));
    let gov = MessageInfo { sender: Addr("gov".to_string()), funds: vec![] };
    let other = MessageInfo { sender: Addr("mallory".to_string()), funds: vec![] };
    assert_eq!(
        c.execute_allow(&other, AllowMsg { contract: "t".to_string(), gas_limit: None }),
        Err(Error::Unauthorized {})
    );
    c.execute_allow(&gov, AllowMsg { contract: "t".to_string(), gas_limit: Some(10) }).unwrap();
    assert_eq!(
        c.execute_allow(&gov, AllowMsg { contract: "t".to_string(), gas_limit: Some(9) }),
        Err(Error::CannotLowerGas {})
    );
    c.execute_allow(&gov, AllowMsg { contract: "t".to_string(), gas_limit: Some(11) }).unwrap();
    c.execute_allow(&gov, AllowMsg { contract: "t".to_string(), gas_limit: None }).unwrap();
    assert_eq!(
        c.execute_allow(&gov, AllowMsg { contract: "t".to_string(), gas_limit: Some(1000) }),
        Err(Error::CannotLowerGas {})
    );
    let q = c.query_allowed("t");
    assert!(q.is_allowed);
    assert_eq!(q.gas_limit, None);
    assert!(!c.query_allowed("u").is_allowed);
}

#[test]
fn admin_can_hand_over() {
    let mut c = Contract::new(init(None));
    let gov = MessageInfo { sender: Addr("gov".to_string()), funds: vec![] };
    assert_eq!(
        c.execute_update_admin(&MessageInfo { sender: Addr("x".to_string()), funds: vec![] }, Addr("x".to_string())),
        Err(Error::Unauthorized {})
    );
    c.execute_update_admin(&gov, Addr("new-gov".to_string())).unwrap();
    assert_eq!(c.query_admin(), Some(Addr("new-gov".to_string())));
    assert_eq!(c.query_config().gov_contract, "new-gov".to_string());
    assert_eq!(c.query_config().default_timeout, 300);
}

#[test]
fn channel_query_reports_balances() {
    let mut c = connected();
    assert_eq!(c.query_channel("chan-9"), Err(Error::NoSuchChannel { id: "chan-9".to_string() }));
    let empty = c.query_channel("chan-1").unwrap();
    assert_eq!(empty.info.id, "chan-1".to_string());
    assert_eq!(empty.info.counterparty_endpoint, endpoint("transfer", "chan-remote"));
    assert_eq!(empty.info.connection_id, "conn-0".to_string());
    assert!(empty.balances.is_empty());
    send_native(&mut c, 70, "uatom");
    send_native(&mut c, 5, "ujuno");
    let (msg, payload) = incoming(20, "transfer/chan-remote/uatom");
    c.ibc_packet_receive(&msg, Some(payload));
    let q = c.query_channel("chan-1").unwrap();
    assert_eq!(q.balances, vec![Amount::native(50, "uatom"), Amount::native(5, "ujuno")]);
    assert_eq!(q.total_sent, vec![Amount::native(70, "uatom"), Amount::native(5, "ujuno")]);
}

#[test]
fn channel_list_holds_each_channel_once() {
    let mut c = connected();
    let again = IbcChannelConnectMsg::OpenConfirm { channel: channel("chan-1", IbcOrder::Unordered, "ics20-1") };
    c.ibc_channel_connect(again).unwrap();
    let second = IbcChannelConnectMsg::OpenConfirm { channel: channel("chan-2", IbcOrder::Unordered, "ics20-1") };
    c.ibc_channel_connect(second).unwrap();
    let ids: Vec<String> = c.query_list().channels.into_iter().map(|i| i.id).collect();
    assert_eq!(ids, vec!["chan-1".to_string(), "chan-2".to_string()]);
}

#[test]
fn initial_allow_list_is_taken() {
    let c = Contract::new(InitMsg {
        default_timeout: 10,
        gov_contract: "gov".to_string(),
        allowlist: vec![
            AllowMsg { contract: "a".to_string(), gas_limit: Some(1) },
            AllowMsg { contract: "a".to_string(), gas_limit: Some(2) },
        ],
        default_gas_limit: Some(7),
    });
    let q = c.query_allowed("a");
    assert!(q.is_allowed);
    assert_eq!(q.gas_limit, Some(2));
    assert_eq!(c.query_config().default_gas_limit, Some(7));
    assert_eq!(c.query_config().default_timeout, 10);
}

#[test]
fn execute_transfer_takes_exactly_one_coin() {
    let mut c = connected();
    let alice = |funds: Vec<ics20::types::Coin>| MessageInfo { sender: Addr("alice".to_string()), funds };
    let coin = |d: &str, a: u128| ics20::types::Coin { denom: d.to_string(), amount: a };
    assert_eq!(
        c.execute(alice(vec![]), ExecuteMsg::Transfer(transfer_msg("chan-1")), 0),
        Err(Error::PaymentError {})
    );
    assert_eq!(
        c.execute(alice(vec![coin("a", 1), coin("b", 2)]), ExecuteMsg::Transfer(transfer_msg("chan-1")), 0),
        Err(Error::PaymentError {})
    );
    assert!(c.execute(alice(vec![coin("uatom", 12)]), ExecuteMsg::Transfer(transfer_msg("chan-1")), 0).is_ok());
    assert_eq!(c.channel_state("chan-1", "uatom"), ChannelState { outstanding: 12, total_sent: 12 });
    let gov = MessageInfo { sender: Addr("gov".to_string()), funds: vec![] };
    c.execute(gov.clone(), ExecuteMsg::Allow(AllowMsg { contract: "tok".to_string(), gas_limit: None }), 0).unwrap();
    let token = MessageInfo { sender: Addr("tok".to_string()), funds: vec![] };
    let wrapper = Cw20ReceiveMsg { sender: "dave".to_string(), amount: 3, msg: vec![] };
    c.execute(token, ExecuteMsg::Receive { wrapper, transfer: transfer_msg("chan-1") }, 0).unwrap();
    assert_eq!(c.channel_state("chan-1", "cw20:tok").total_sent, 3);
    c.execute(gov, ExecuteMsg::UpdateAdmin { admin: "next".to_string() }, 0).unwrap();
    assert_eq!(c.query_admin(), Some(Addr("next".to_string())));
}
