use trading_desk::book::MasterOrderBook;
use trading_desk::ledger::{effect_of, recent, report, Order, COMMITTED};
use trading_desk::server::{AcquiredOrderServer, LedgerError};

fn calgary() -> (MasterOrderBook, AcquiredOrderServer) {
    let mut book = MasterOrderBook::new(vec![
        "Calgary".to_string(),
        "New York".to_string(),
        "Signapore".to_string(),
    ]);
    book.open_order_server(0, "correct");
    book.open_order_server(1, "second");
    let guard = book.try_lock(0, "correct").unwrap();
    (book, guard)
}

fn trade(book: &mut MasterOrderBook, guard: &AcquiredOrderServer, s: i32, r: i32, m: i32) {
    guard.open_record(book).unwrap();
    guard.set_sender(book, s).unwrap();
    guard.set_recipient(book, r).unwrap();
    guard.set_money(book, m).unwrap();
    guard.flush_record(book).unwrap();
}

#[test]
fn top_three_of_five_are_the_latest_oldest_first() {
    let (mut book, guard) = calgary();
    for amount in 1..=5 {
        trade(&mut book, &guard, 0, 1, amount * 10);
    }
    let orders = book.get_top_n_orders(&guard, 3).unwrap();
    assert_eq!(orders.len(), 3);
    assert_eq!(orders[0], Order::new(0, 1, 30, 0));
    assert_eq!(orders[1], Order::new(0, 1, 40, 0));
    assert_eq!(orders[2], Order::new(0, 1, 50, 0));
}

#[test]
fn history_with_fewer_orders_than_asked_for() {
    let (mut book, guard) = calgary();
    assert_eq!(book.get_top_n_orders(&guard, 3).unwrap(), vec![]);
    assert_eq!(book.get_top_n_orders(&guard, 0).unwrap(), vec![]);
    trade(&mut book, &guard, 0, 1, 7);
    trade(&mut book, &guard, 1, 0, 9);
    assert_eq!(
        book.get_top_n_orders(&guard, 3).unwrap(),
        vec![Order::new(0, 1, 7, 0), Order::new(1, 0, 9, 0)]
    );
    assert_eq!(
        book.get_top_n_orders(&guard, 2).unwrap(),
        vec![Order::new(0, 1, 7, 0), Order::new(1, 0, 9, 0)]
    );
    assert_eq!(book.get_top_n_orders(&guard, 1).unwrap(), vec![Order::new(1, 0, 9, 0)]);
    assert_eq!(book.get_top_n_orders(&guard, 0).unwrap(), vec![]);
    assert_eq!(book.get_top_n_orders(&guard, usize::MAX).unwrap().len(), 2);
}

#[test]
fn a_flushed_trade_is_the_latest_order() {
    let (mut book, guard) = calgary();
    trade(&mut book, &guard, 2, 0, 125);
    assert_eq!(book.get_top_n_orders(&guard, 1).unwrap(), vec![Order::new(2, 0, 125, 0)]);
    assert_eq!(guard.get_balance(&book), Ok(125));
    trade(&mut book, &guard, 0, 1, 25);
    assert_eq!(book.get_top_n_orders(&guard, 1).unwrap(), vec![Order::new(0, 1, 25, 0)]);
    assert_eq!(guard.get_balance(&book), Ok(100));
}

#[test]
fn the_balance_counts_what_comes_in_and_goes_out() {
    let (mut book, guard) = calgary();
    assert_eq!(guard.get_balance(&book), Ok(0));
    trade(&mut book, &guard, 1, 0, 500);
    assert_eq!(guard.get_balance(&book), Ok(500));
    trade(&mut book, &guard, 0, 2, 120);
    assert_eq!(guard.get_balance(&book), Ok(380));
    trade(&mut book, &guard, 0, 0, 77);
    assert_eq!(guard.get_balance(&book), Ok(380));
    trade(&mut book, &guard, 1, 2, 9000);
    assert_eq!(guard.get_balance(&book), Ok(380));
    trade(&mut book, &guard, 1, 0, -80);
    assert_eq!(guard.get_balance(&book), Ok(300));
    trade(&mut book, &guard, 0, 1, 1000);
    assert_eq!(guard.get_balance(&book), Ok(-700));
    assert_eq!(book.get_top_n_orders(&guard, 100).unwrap().len(), 6);
}

#[test]
fn a_balance_outside_32_bits_is_reported_at_the_bound() {
    let (mut book, guard) = calgary();
    trade(&mut book, &guard, 1, 0, i32::MAX);
    assert_eq!(guard.get_balance(&book), Ok(i32::MAX));
    trade(&mut book, &guard, 1, 0, i32::MAX);
    assert_eq!(guard.get_balance(&book), Ok(i32::MAX));
    trade(&mut book, &guard, 0, 1, i32::MAX);
    assert_eq!(guard.get_balance(&book), Ok(i32::MAX));
    trade(&mut book, &guard, 0, 1, 1);
    assert_eq!(guard.get_balance(&book), Ok(i32::MAX - 1));
    for _ in 0..3 {
        trade(&mut book, &guard, 1, 0, i32::MIN);
    }
    assert_eq!(guard.get_balance(&book), Ok(i32::MIN));
}

#[test]
fn each_region_has_its_own_ledger() {
    let (mut book, guard) = calgary();
    trade(&mut book, &guard, 0, 1, 40);
    let other = book.try_lock(1, "second").unwrap();
    assert_eq!(book.get_top_n_orders(&other, 5).unwrap(), vec![]);
    assert_eq!(other.get_balance(&book), Ok(0));
    trade(&mut book, &other, 0, 1, 40);
    assert_eq!(book.get_top_n_orders(&other, 5).unwrap(), vec![Order::new(0, 1, 40, 1)]);
    assert_eq!(other.get_balance(&book), Ok(40));
    assert_eq!(guard.get_balance(&book), Ok(-40));
    assert_eq!(book.get_top_n_orders(&guard, 5).unwrap(), vec![Order::new(0, 1, 40, 0)]);
}

#[test]
fn partial_trade_commits_nothing() {
    let (mut book, guard) = calgary();
    trade(&mut book, &guard, 1, 0, 11);
    guard.open_record(&mut book).unwrap();
    assert_eq!(guard.flush_record(&mut book), Err(LedgerError::Incomplete));
    guard.set_sender(&mut book, 5).unwrap();
    assert_eq!(guard.flush_record(&mut book), Err(LedgerError::Incomplete));
    guard.set_money(&mut book, 6).unwrap();
    assert_eq!(guard.flush_record(&mut book), Err(LedgerError::Incomplete));
    assert_eq!(book.get_top_n_orders(&guard, 10).unwrap(), vec![Order::new(1, 0, 11, 0)]);
    assert_eq!(guard.get_balance(&book), Ok(11));
    guard.set_recipient(&mut book, 0).unwrap();
    assert_eq!(guard.flush_record(&mut book), Ok(()));
    assert_eq!(
        book.get_top_n_orders(&guard, 10).unwrap(),
        vec![Order::new(1, 0, 11, 0), Order::new(5, 0, 6, 0)]
    );
}

#[test]
fn a_new_record_starts_without_the_fields_of_the_last() {
    let (mut book, guard) = calgary();
    trade(&mut book, &guard, 1, 0, 11);
    guard.open_record(&mut book).unwrap();
    guard.set_recipient(&mut book, 2).unwrap();
    assert_eq!(guard.flush_record(&mut book), Err(LedgerError::Incomplete));
    guard.set_money(&mut book, 3).unwrap();
    assert_eq!(guard.flush_record(&mut book), Err(LedgerError::Incomplete));
    assert_eq!(book.get_top_n_orders(&guard, 10).unwrap().len(), 1);
}

#[test]
fn the_value_set_last_is_committed() {
    let (mut book, guard) = calgary();
    guard.open_record(&mut book).unwrap();
    guard.set_sender(&mut book, 1).unwrap();
    guard.set_recipient(&mut book, 2).unwrap();
    guard.set_money(&mut book, 3).unwrap();
    guard.set_sender(&mut book, 0).unwrap();
    guard.set_money(&mut book, 30).unwrap();
    guard.flush_record(&mut book).unwrap();
    assert_eq!(book.get_top_n_orders(&guard, 1).unwrap(), vec![Order::new(0, 2, 30, 0)]);
}

#[test]
fn a_record_opens_once() {
    let (mut book, guard) = calgary();
    assert_eq!(guard.open_record(&mut book), Ok(()));
    assert_eq!(guard.open_record(&mut book), Err(LedgerError::AlreadyOpen));
    guard.set_sender(&mut book, 1).unwrap();
    guard.set_recipient(&mut book, 0).unwrap();
    guard.set_money(&mut book, 5).unwrap();
    assert_eq!(guard.open_record(&mut book), Err(LedgerError::AlreadyOpen));
    guard.flush_record(&mut book).unwrap();
    assert_eq!(guard.open_record(&mut book), Ok(()));
}

#[test]
fn nothing_is_set_or_flushed_without_an_open_record() {
    let (mut book, guard) = calgary();
    assert_eq!(guard.set_sender(&mut book, 1), Err(LedgerError::NoRecordOpen));
    assert_eq!(guard.set_recipient(&mut book, 1), Err(LedgerError::NoRecordOpen));
    assert_eq!(guard.set_money(&mut book, 1), Err(LedgerError::NoRecordOpen));
    assert_eq!(guard.flush_record(&mut book), Err(LedgerError::NoRecordOpen));
    assert_eq!(book.get_top_n_orders(&guard, 10).unwrap(), vec![]);
    trade(&mut book, &guard, 1, 0, 5);
    assert_eq!(guard.flush_record(&mut book), Err(LedgerError::NoRecordOpen));
    assert_eq!(guard.set_money(&mut book, 1), Err(LedgerError::NoRecordOpen));
}

#[test]
fn a_busy_store_takes_no_new_record() {
    let (mut book, guard) = calgary();
    assert!(!book.engine_busy());
    book.set_engine_busy(true);
    assert!(book.engine_busy());
    assert_eq!(guard.open_record(&mut book), Err(LedgerError::Busy));
    assert_eq!(guard.get_balance(&book), Ok(0));
    book.set_engine_busy(false);
    assert_eq!(guard.open_record(&mut book), Ok(()));
    book.set_engine_busy(true);
    assert_eq!(guard.open_record(&mut book), Err(LedgerError::AlreadyOpen));
    guard.set_sender(&mut book, 1).unwrap();
    guard.set_recipient(&mut book, 0).unwrap();
    guard.set_money(&mut book, 5).unwrap();
    assert_eq!(guard.flush_record(&mut book), Ok(()));
    assert_eq!(guard.open_record(&mut book), Err(LedgerError::Busy));
    assert!(guard.is_holder(&book));
}

#[test]
fn an_order_keeps_its_fields() {
    let order = Order::new(3, 4, -5, 6);
    assert_eq!(order.sender, 3);
    assert_eq!(order.recipient, 4);
    assert_eq!(order.money, -5);
    assert_eq!(order.region, 6);
    assert_eq!(order.status, COMMITTED);
    assert_eq!(COMMITTED, 1);
    assert_ne!(order, Order::new(4, 3, -5, 6));
}

#[test]
fn the_effect_of_an_order_on_a_region() {
    assert_eq!(effect_of(&Order::new(1, 0, 50, 0), 0), 50);
    assert_eq!(effect_of(&Order::new(0, 1, 50, 0), 0), -50);
    assert_eq!(effect_of(&Order::new(0, 0, 50, 0), 0), 0);
    assert_eq!(effect_of(&Order::new(1, 2, 50, 0), 0), 0);
    assert_eq!(effect_of(&Order::new(0, 1, i32::MIN, 0), 0), 2147483648);
    assert_eq!(effect_of(&Order::new(1, 0, i32::MIN, 0), 0), -2147483648);
    assert_eq!(effect_of(&Order::new(1, 0, 50, 7), 1), -50);
}

#[test]
fn a_total_is_reported_within_32_bits() {
    assert_eq!(report(0), 0);
    assert_eq!(report(-17), -17);
    assert_eq!(report(2147483647), i32::MAX);
    assert_eq!(report(2147483648), i32::MAX);
    assert_eq!(report(-2147483648), i32::MIN);
    assert_eq!(report(-2147483649), i32::MIN);
    assert_eq!(report(i128::MAX), i32::MAX);
    assert_eq!(report(i128::MIN), i32::MIN);
}

#[test]
fn the_most_recent_orders_of_a_history() {
    let history: Vec<Order> = (0..5).map(|i| Order::new(i, i + 1, i * 100, 0)).collect();
    assert_eq!(recent(&history, 0), vec![]);
    assert_eq!(recent(&history, 1), vec![history[4]]);
    assert_eq!(recent(&history, 3), vec![history[2], history[3], history[4]]);
    assert_eq!(recent(&history, 5), history);
    assert_eq!(recent(&history, 6), history);
    assert_eq!(recent(&Vec::new(), 4), vec![]);
}
