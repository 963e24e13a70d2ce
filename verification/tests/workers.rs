use trading_desk::gui::ledger::Trade;
use trading_desk::ledger::Order;
use trading_desk::wire::{decode_request, encode_history, Decoded, Request};
use trading_desk::worker::{
    balance_request, history_request, login_accepted, login_request, read_balance, read_orders,
    read_u32, trade_request, Exchange, FollowUp, FromWorkerMsg, Purpose, ToWorkerMessageContents,
    Worker, HISTORY_DEPTH,
};

fn logged_in(password: &str) -> Worker {
    let mut worker = Worker::new();
    let exchange = worker
        .plan(true, Some(ToWorkerMessageContents::LoginAttempt(password.to_string())))
        .unwrap();
    worker.settle(exchange, true);
    worker
}

#[test]
fn a_new_worker_has_nothing_to_do() {
    let worker = Worker::new();
    assert!(!worker.is_logged_in());
    assert!(worker.plan(true, None).is_none());
    assert!(worker.plan(false, None).is_none());
    let trade = ToWorkerMessageContents::Trade { sender: 0, receiver: 1, money: 250 };
    assert!(worker.plan(true, Some(trade)).is_none());
}

#[test]
fn the_connection_is_reported_each_cycle() {
    assert!(matches!(Worker::connection_report(true), FromWorkerMsg::ConnectionLive));
    assert!(matches!(Worker::connection_report(false), FromWorkerMsg::ConnectionDead));
}

#[test]
fn a_login_attempt_brings_its_own_password() {
    let worker = Worker::new();
    let attempt = ToWorkerMessageContents::LoginAttempt("correct".to_string());
    let exchange = worker.plan(true, Some(attempt)).unwrap();
    assert_eq!(exchange.password, "correct");
    assert!(matches!(exchange.purpose, Purpose::Attempt));
    let attempt = ToWorkerMessageContents::LoginAttempt("correct".to_string());
    assert!(worker.plan(false, Some(attempt)).is_none());
}

#[test]
fn an_attempt_that_went_through_is_kept() {
    let mut worker = Worker::new();
    let exchange = Exchange { password: "correct".to_string(), purpose: Purpose::Attempt };
    let settled = worker.settle(exchange, true);
    assert_eq!(settled.messages.len(), 2);
    assert!(matches!(settled.messages[0], FromWorkerMsg::LoggedIn));
    assert!(matches!(settled.messages[1], FromWorkerMsg::LoginUnlock));
    assert!(matches!(settled.follow_up, FollowUp::Nothing));
    assert!(worker.is_logged_in());
    let refresh = worker.plan(true, None).unwrap();
    assert_eq!(refresh.password, "correct");
    assert!(matches!(refresh.purpose, Purpose::Refresh));
}

#[test]
fn an_attempt_that_was_refused_is_forgotten() {
    let mut worker = logged_in("old");
    let exchange = Exchange { password: "wrong".to_string(), purpose: Purpose::Attempt };
    let settled = worker.settle(exchange, false);
    assert_eq!(settled.messages.len(), 1);
    assert!(matches!(settled.messages[0], FromWorkerMsg::LoginUnlock));
    assert!(matches!(settled.follow_up, FollowUp::Nothing));
    assert!(!worker.is_logged_in());
    assert!(worker.plan(true, None).is_none());
}

#[test]
fn a_trade_goes_out_after_its_login() {
    let mut worker = logged_in("correct");
    let trade = ToWorkerMessageContents::Trade { sender: 0, receiver: 2, money: 300 };
    let exchange = worker.plan(true, Some(trade)).unwrap();
    assert_eq!(exchange.password, "correct");
    assert!(matches!(exchange.purpose, Purpose::Trade { sender: 0, receiver: 2, money: 300 }));
    let settled = worker.settle(exchange, true);
    assert!(settled.messages.is_empty());
    match settled.follow_up {
        FollowUp::SendTrade(bytes) => {
            assert_eq!(bytes, vec![2, 0, 0, 0, 0, 2, 0, 0, 0, 0x2c, 0x01, 0, 0]);
        }
        other => panic!("no trade to send: {:?}", other),
    }
    assert!(worker.is_logged_in());
}

#[test]
fn a_trade_whose_login_fails_drops_the_password() {
    let mut worker = logged_in("correct");
    let trade = ToWorkerMessageContents::Trade { sender: 0, receiver: 2, money: 300 };
    let exchange = worker.plan(true, Some(trade)).unwrap();
    let settled = worker.settle(exchange, false);
    assert_eq!(settled.messages.len(), 1);
    assert!(matches!(settled.messages[0], FromWorkerMsg::ConnectionDead));
    assert!(matches!(settled.follow_up, FollowUp::Nothing));
    assert!(!worker.is_logged_in());
}

#[test]
fn an_idle_cycle_refreshes_the_dashboard() {
    let mut worker = logged_in("correct");
    let exchange = worker.plan(true, None).unwrap();
    let settled = worker.settle(exchange, true);
    assert!(settled.messages.is_empty());
    assert!(matches!(settled.follow_up, FollowUp::Refresh));
    assert!(worker.is_logged_in());
    let exchange = worker.plan(true, None).unwrap();
    let settled = worker.settle(exchange, false);
    assert_eq!(settled.messages.len(), 1);
    assert!(matches!(settled.messages[0], FromWorkerMsg::ConnectionDead));
    assert!(matches!(settled.follow_up, FollowUp::Nothing));
    assert!(!worker.is_logged_in());
}

#[test]
fn a_restart_forgets_the_password() {
    let mut worker = logged_in("correct");
    assert!(matches!(worker.restart(), FromWorkerMsg::LoginUnlock));
    assert!(!worker.is_logged_in());
    assert!(worker.plan(true, None).is_none());
}

#[test]
fn the_requests_of_the_worker() {
    assert_eq!(
        login_request("correct").unwrap(),
        vec![0, 0, 7, 0, 0, 0, b'c', b'o', b'r', b'r', b'e', b'c', b't']
    );
    assert_eq!(login_request("").unwrap(), vec![0, 0, 0, 0, 0, 0]);
    assert_eq!(balance_request(), vec![1]);
    assert_eq!(trade_request(0, 1, 250), vec![2, 0, 0, 0, 0, 1, 0, 0, 0, 250, 0, 0, 0]);
    assert_eq!(history_request(HISTORY_DEPTH), vec![4, 50, 0, 0, 0]);
    assert_eq!(HISTORY_DEPTH, 50);
    assert_eq!(history_request(0x0102_0304), vec![4, 4, 3, 2, 1]);
}

#[test]
fn numbers_go_out_by_their_low_32_bits() {
    let bytes = trade_request(u32::MAX as usize, 0x8000_0000, 0x7fff_ffff);
    assert_eq!(bytes, vec![2, 0xff, 0xff, 0xff, 0xff, 0, 0, 0, 0x80, 0xff, 0xff, 0xff, 0x7f]);
    match decode_request(&bytes) {
        Decoded::Complete(request, 13) => {
            assert_eq!(request, Request::Trade { sender: -1, recipient: i32::MIN, money: i32::MAX });
        }
        other => panic!("not a trade: {:?}", other),
    }
    assert_eq!(history_request(usize::MAX), vec![4, 0xff, 0xff, 0xff, 0xff]);
}

#[test]
fn the_server_reads_what_the_worker_writes() {
    let bytes = login_request("pässwörd").unwrap();
    match decode_request(&bytes) {
        Decoded::Complete(request, used) => {
            assert_eq!(used, bytes.len());
            assert_eq!(request, Request::Login { region: 0, password: "pässwörd".to_string() });
        }
        other => panic!("not a login: {:?}", other),
    }
    assert!(matches!(decode_request(&balance_request()), Decoded::Complete(Request::Balance, 1)));
    assert!(matches!(
        decode_request(&history_request(50)),
        Decoded::Complete(Request::History { count: 50 }, 5)
    ));
}

#[test]
fn the_reply_to_a_login() {
    assert!(login_accepted(1));
    assert!(!login_accepted(0));
    assert!(!login_accepted(2));
    assert!(!login_accepted(255));
}

#[test]
fn numbers_off_the_wire() {
    assert_eq!(read_u32(&[0, 0, 0, 0]), 0);
    assert_eq!(read_u32(&[1, 2, 3, 4]), 0x0403_0201);
    assert_eq!(read_u32(&[0xff, 0xff, 0xff, 0xff]), u32::MAX);
    assert_eq!(read_balance(&[0x7c, 0x01, 0, 0]), 380);
    assert_eq!(read_balance(&[0xff, 0xff, 0xff, 0xff]), -1);
    assert_eq!(read_balance(&[0, 0, 0, 0x80]), i32::MIN);
}

#[test]
fn orders_come_back_most_recent_first() {
    let payload = [
        1, 0, 0, 0, 2, 0, 0, 0, 10, 0, 0, 0, //
        3, 0, 0, 0, 4, 0, 0, 0, 20, 0, 0, 0, //
        5, 0, 0, 0, 6, 0, 0, 0, 30, 1, 0, 0,
    ];
    assert_eq!(
        read_orders(3, &payload).unwrap(),
        vec![Trade::new(5, 6, 286), Trade::new(3, 4, 20), Trade::new(1, 2, 10)]
    );
    assert_eq!(read_orders(1, &payload[..12]).unwrap(), vec![Trade::new(1, 2, 10)]);
    assert_eq!(read_orders(0, &[]).unwrap(), vec![]);
}

#[test]
fn a_history_that_does_not_fit_its_count_is_refused() {
    let payload = [0u8; 24];
    assert!(read_orders(3, &payload).is_none());
    assert!(read_orders(1, &payload).is_none());
    assert!(read_orders(0, &payload).is_none());
    assert!(read_orders(2, &payload[..23]).is_none());
    assert!(read_orders(u32::MAX, &payload).is_none());
    assert!(read_orders(2, &payload).is_some());
}

#[test]
fn the_worker_reads_what_the_server_writes() {
    let orders = vec![Order::new(0, 1, 250, 0), Order::new(2, 0, 40, 0), Order::new(1, 0, -1, 0)];
    let reply = encode_history(&orders);
    let count = read_u32(&[reply[0], reply[1], reply[2], reply[3]]);
    assert_eq!(count, 3);
    assert_eq!(
        read_orders(count, &reply[4..]).unwrap(),
        vec![Trade::new(1, 0, u32::MAX as usize), Trade::new(2, 0, 40), Trade::new(0, 1, 250)]
    );
}
