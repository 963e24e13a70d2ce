use std::time::SystemTime;
use trading_desk::gui::account::Account;
use trading_desk::gui::formbutton::{FormButton, FormButtonType, MONEY_STEP};
use trading_desk::gui::keys::{Key, KeyPress};
use trading_desk::gui::ledger::{id_to_region_name, Ledger, Trade};
use trading_desk::gui::login::Login;
use trading_desk::gui::waiting::Waiting;
use trading_desk::gui::{format_money, format_money_accounting, tick_after, TICK_PERIOD};

fn press(key: Key) -> KeyPress {
    KeyPress::plain(key)
}

fn regions() -> Vec<String> {
    vec!["Calgary".to_string(), "New York".to_string(), "Signapore".to_string()]
}

#[test]
fn money_is_grouped_by_thousands() {
    assert_eq!(format_money(0), "$0");
    assert_eq!(format_money(7), "$7");
    assert_eq!(format_money(250), "$250");
    assert_eq!(format_money(999), "$999");
    assert_eq!(format_money(1000), "$1,000");
    assert_eq!(format_money(1001), "$1,001");
    assert_eq!(format_money(9883), "$9,883");
    assert_eq!(format_money(10050), "$10,050");
    assert_eq!(format_money(100000), "$100,000");
    assert_eq!(format_money(1234567), "$1,234,567");
    assert_eq!(format_money(1000000000), "$1,000,000,000");
    assert_eq!(format_money(4294967295), "$4,294,967,295");
}

#[test]
fn the_largest_amount_is_written_in_full() {
    let digits = usize::MAX.to_string();
    let text = format_money(usize::MAX);
    assert_eq!(text.replace(',', ""), format!("${}", digits));
    assert_eq!(text.matches(',').count(), (digits.len() - 1) / 3);
}

#[test]
fn negative_amounts_stand_in_parentheses() {
    assert_eq!(format_money_accounting(0), "$0");
    assert_eq!(format_money_accounting(1), "$1");
    assert_eq!(format_money_accounting(1234), "$1,234");
    assert_eq!(format_money_accounting(-1), "($1)");
    assert_eq!(format_money_accounting(-250), "($250)");
    assert_eq!(format_money_accounting(-1234567), "($1,234,567)");
    assert_eq!(format_money_accounting(isize::MAX), format_money(isize::MAX as usize));
    assert_eq!(
        format_money_accounting(isize::MIN),
        format!("({})", format_money(isize::MAX as usize + 1))
    );
}

#[test]
fn the_ticks_start_over() {
    assert_eq!(TICK_PERIOD, 1000);
    assert_eq!(tick_after(0), 1);
    assert_eq!(tick_after(998), 999);
    assert_eq!(tick_after(999), 0);
    assert_eq!(tick_after(1000), 1001);
    assert_eq!(tick_after(usize::MAX - 1), usize::MAX);
}

#[test]
fn the_waiting_screen_counts_dots() {
    let mut waiting = Waiting::default();
    assert_eq!(waiting.tick, 0);
    assert_eq!(waiting.dots(), 0);
    waiting.tick = 2;
    assert_eq!(waiting.dots(), 0);
    waiting.tick = 3;
    assert_eq!(waiting.dots(), 1);
    waiting.tick = 23;
    assert_eq!(waiting.dots(), 7);
    waiting.tick = 24;
    assert_eq!(waiting.dots(), 0);
    waiting.tick = 999;
    assert_eq!(waiting.dots(), 5);
    waiting.advance();
    assert_eq!(waiting.tick, 0);
    waiting.advance();
    assert_eq!(waiting.tick, 1);
}

#[test]
fn the_names_of_the_regions() {
    assert_eq!(id_to_region_name(0), "Calgary");
    assert_eq!(id_to_region_name(1), "New York");
    assert_eq!(id_to_region_name(2), "Signapore");
}

#[test]
fn a_trade_is_signed_for_the_desk_it_is_shown_on() {
    let trade = Trade::new(1, 0, 250);
    assert_eq!(trade.sender, 1);
    assert_eq!(trade.receiver, 0);
    assert_eq!(trade.money, 250);
    assert_eq!(trade.signed_money(0), 250);
    assert_eq!(trade.signed_money(1), -250);
    assert_eq!(trade.signed_money(2), -250);
    assert_eq!(Trade::new(0, 0, 5).signed_money(0), 5);
    assert_eq!(Trade::new(0, 1, usize::MAX).signed_money(0), -(usize::MAX as i128));
    assert_eq!(Trade::new(0, 1, usize::MAX).signed_money(1), usize::MAX as i128);
}

#[test]
fn the_ledger_pane_keeps_its_trades() {
    let mut ledger = Ledger::new();
    assert!(ledger.trades().is_empty());
    assert!(!ledger.is_selected());
    assert!(!ledger.is_focused());
    ledger.set_order_list(vec![Trade::new(0, 1, 5), Trade::new(1, 0, 6)]);
    ledger.set_selected(true);
    assert!(ledger.is_selected());
    assert!(!ledger.is_focused());
    ledger.set_focused(true);
    assert!(ledger.is_selected());
    assert!(ledger.is_focused());
    ledger.set_selected(false);
    assert!(ledger.is_focused());
    ledger.set_selected(true);
    ledger.reset();
    assert!(!ledger.is_selected());
    assert!(!ledger.is_focused());
    assert_eq!(ledger.trades(), &vec![Trade::new(0, 1, 5), Trade::new(1, 0, 6)]);
    ledger.set_order_list(Vec::new());
    assert!(ledger.trades().is_empty());
}

#[test]
fn the_account_pane_keeps_its_balance() {
    let mut account = Account::default();
    assert_eq!(account.balance(), None);
    assert_eq!(account.last_update(), None);
    assert!(!account.is_selected());
    assert!(!account.is_focused());
    let before = SystemTime::now();
    account.set_balance(-40);
    let after = SystemTime::now();
    assert_eq!(account.balance(), Some(-40));
    let stamp = account.last_update().unwrap();
    assert!(before <= stamp && stamp <= after);
    account.set_selected(true);
    account.set_focused(true);
    assert!(account.is_selected());
    assert!(account.is_focused());
    account.set_focused(false);
    assert!(account.is_selected());
    account.set_focused(true);
    account.reset();
    assert!(!account.is_selected());
    assert!(!account.is_focused());
    assert_eq!(account.balance(), Some(-40));
    assert_eq!(account.last_update(), Some(stamp));
    account.record_balance(12, SystemTime::UNIX_EPOCH);
    assert_eq!(account.balance(), Some(12));
    assert_eq!(account.last_update(), Some(SystemTime::UNIX_EPOCH));
}

#[test]
fn the_login_screen_collects_a_password() {
    let mut login = Login::default();
    assert_eq!(login.tick, 0);
    assert!(login.password().is_empty());
    assert!(!login.is_locked());
    assert_eq!(login.handle_key_event(press(Key::Char('a'))), None);
    assert_eq!(login.handle_key_event(press(Key::Char('b'))), None);
    assert_eq!(login.handle_key_event(press(Key::Char('ç'))), None);
    assert_eq!(login.handle_key_event(press(Key::Backspace)), None);
    assert_eq!(login.handle_key_event(press(Key::Up)), None);
    assert_eq!(login.handle_key_event(press(Key::Other)), None);
    assert_eq!(login.password(), &vec!['a', 'b']);
    assert_eq!(login.handle_key_event(press(Key::Char('é'))), None);
    assert_eq!(login.handle_key_event(press(Key::Enter)), Some("abé".to_string()));
    assert!(login.is_locked());
    assert_eq!(login.password(), &vec!['a', 'b', 'é']);
}

#[test]
fn a_locked_login_screen_ignores_keys() {
    let mut login = Login::default();
    login.handle_key_event(press(Key::Char('x')));
    assert_eq!(login.handle_key_event(press(Key::Enter)), Some("x".to_string()));
    assert_eq!(login.handle_key_event(press(Key::Char('y'))), None);
    assert_eq!(login.handle_key_event(press(Key::Backspace)), None);
    assert_eq!(login.handle_key_event(press(Key::Enter)), None);
    assert_eq!(login.password(), &vec!['x']);
    assert!(login.is_locked());
    login.unlock();
    assert!(!login.is_locked());
    assert!(login.password().is_empty());
    assert_eq!(login.handle_key_event(press(Key::Enter)), Some(String::new()));
}

#[test]
fn backspace_on_an_empty_password_does_nothing() {
    let mut login = Login::default();
    assert_eq!(login.handle_key_event(press(Key::Backspace)), None);
    assert!(login.password().is_empty());
    assert!(!login.is_locked());
}

#[test]
fn the_cursor_blinks_while_the_login_is_open() {
    let mut login = Login::default();
    assert!(login.cursor_visible());
    login.tick = 4;
    assert!(login.cursor_visible());
    login.tick = 5;
    assert!(!login.cursor_visible());
    login.tick = 9;
    assert!(!login.cursor_visible());
    login.tick = 10;
    assert!(login.cursor_visible());
    login.handle_key_event(press(Key::Enter));
    assert!(!login.cursor_visible());
    login.tick = 999;
    login.advance();
    assert_eq!(login.tick, 0);
    login.advance();
    assert_eq!(login.tick, 1);
    assert!(login.is_locked());
}

#[test]
fn the_buttons_of_the_form() {
    let locked = FormButton::locked("Sender", "Calgary");
    assert_eq!(locked.name(), "Sender");
    assert!(matches!(locked.form_type(), FormButtonType::Normal { content } if content == "Calgary"));
    assert_eq!(locked.get_money(), None);
    assert_eq!(locked.get_position(), None);
    assert!(!locked.is_selected());
    assert!(!locked.is_focused());
    let cycle = FormButton::cycle("Receiver", regions());
    assert_eq!(cycle.name(), "Receiver");
    assert_eq!(cycle.get_position(), Some(0));
    assert_eq!(cycle.get_money(), None);
    assert!(matches!(cycle.form_type(), FormButtonType::Cycle { options, position: 0 } if *options == regions()));
    let money = FormButton::money("Money", 250);
    assert_eq!(money.get_money(), Some(250));
    assert_eq!(money.get_position(), None);
    let click = FormButton::clickable("Logout");
    assert_eq!(click.name(), "Logout");
    assert!(matches!(click.form_type(), FormButtonType::Clickable));
    assert_eq!(click.get_money(), None);
    assert_eq!(click.get_position(), None);
    let made = FormButton::new("Any", FormButtonType::Money { content: 7 });
    assert_eq!(made.name(), "Any");
    assert_eq!(made.get_money(), Some(7));
}

#[test]
fn a_button_is_marked_and_reset() {
    let mut button = FormButton::clickable("Submit Transaction");
    button.set_selected(true);
    assert!(button.is_selected());
    assert!(!button.is_focused());
    button.set_focused(true);
    assert!(button.is_selected());
    assert!(button.is_focused());
    button.set_selected(false);
    assert!(!button.is_selected());
    assert!(button.is_focused());
    button.set_selected(true);
    button.reset();
    assert!(!button.is_selected());
    assert!(!button.is_focused());
    assert_eq!(button.name(), "Submit Transaction");
}

#[test]
fn a_cycle_steps_through_its_options() {
    let mut button = FormButton::cycle("Receiver", regions());
    button.handle_key_event(press(Key::Down));
    assert_eq!(button.get_position(), Some(0));
    button.handle_key_event(press(Key::Up));
    assert_eq!(button.get_position(), Some(1));
    button.handle_key_event(press(Key::Up));
    assert_eq!(button.get_position(), Some(2));
    button.handle_key_event(press(Key::Up));
    assert_eq!(button.get_position(), Some(2));
    button.handle_key_event(press(Key::Left));
    button.handle_key_event(press(Key::Enter));
    button.handle_key_event(press(Key::Char('x')));
    assert_eq!(button.get_position(), Some(2));
    button.handle_key_event(press(Key::Down));
    assert_eq!(button.get_position(), Some(1));
    button.handle_key_event(press(Key::Down));
    button.handle_key_event(press(Key::Down));
    assert_eq!(button.get_position(), Some(0));
}

#[test]
fn money_steps_by_fifty() {
    assert_eq!(MONEY_STEP, 50);
    let mut button = FormButton::money("Money", 250);
    button.handle_key_event(press(Key::Up));
    assert_eq!(button.get_money(), Some(300));
    button.handle_key_event(press(Key::Down));
    button.handle_key_event(press(Key::Down));
    assert_eq!(button.get_money(), Some(200));
    button.handle_key_event(press(Key::Right));
    button.handle_key_event(press(Key::Backspace));
    assert_eq!(button.get_money(), Some(200));
    for _ in 0..4 {
        button.handle_key_event(press(Key::Down));
    }
    assert_eq!(button.get_money(), Some(0));
    button.handle_key_event(press(Key::Down));
    assert_eq!(button.get_money(), Some(0));
}

#[test]
fn other_buttons_take_no_keys() {
    let mut locked = FormButton::locked("Sender", "Calgary");
    let mut click = FormButton::clickable("Logout");
    for key in [Key::Up, Key::Down, Key::Left, Key::Enter, Key::Char('q')] {
        assert!(locked.accepts(press(key)));
        assert!(click.accepts(press(key)));
        locked.handle_key_event(press(key));
        click.handle_key_event(press(key));
    }
    assert!(matches!(locked.form_type(), FormButtonType::Normal { content } if content == "Calgary"));
    assert!(matches!(click.form_type(), FormButtonType::Clickable));
}

#[test]
fn a_button_says_which_keys_it_can_take() {
    let money = FormButton::money("Money", 250);
    assert!(money.accepts(press(Key::Up)));
    assert!(money.accepts(press(Key::Down)));
    let odd = FormButton::money("Money", 49);
    assert!(odd.accepts(press(Key::Up)));
    assert!(!odd.accepts(press(Key::Down)));
    assert!(odd.accepts(press(Key::Left)));
    assert!(FormButton::money("Money", 50).accepts(press(Key::Down)));
    assert!(FormButton::money("Money", 0).accepts(press(Key::Down)));
    let full = FormButton::money("Money", usize::MAX - 49);
    assert!(!full.accepts(press(Key::Up)));
    assert!(full.accepts(press(Key::Down)));
    assert!(FormButton::money("Money", usize::MAX - 50).accepts(press(Key::Up)));
    let empty = FormButton::cycle("Receiver", Vec::new());
    assert!(!empty.accepts(press(Key::Up)));
    assert!(empty.accepts(press(Key::Down)));
    let cycle = FormButton::cycle("Receiver", regions());
    assert!(cycle.accepts(press(Key::Up)));
    assert!(cycle.accepts(press(Key::Down)));
    let stray = FormButton::new(
        "Receiver",
        FormButtonType::Cycle { options: regions(), position: usize::MAX },
    );
    assert!(!stray.accepts(press(Key::Up)));
}

#[test]
fn a_plain_key_press_has_no_control() {
    let plain = KeyPress::plain(Key::Char('c'));
    assert_eq!(plain, KeyPress { key: Key::Char('c'), control: false });
    assert_ne!(plain, KeyPress { key: Key::Char('c'), control: true });
}
