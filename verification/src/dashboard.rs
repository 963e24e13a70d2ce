//! The dashboard: which screen is shown, which widget has the cursor, and
//! what a key press or a message from the worker does to both.
//!
//! The front end draws what is kept here and feeds it key presses and the
//! worker's messages; the commands for the worker are handed back to it.

use vstd::prelude::*;
use std::time::SystemTime;
use vstd::string::StringExecFns;
use crate::gui::account::{Account, AccountState};
use crate::gui::formbutton::{ButtonKind, ButtonState, FormButton};
use crate::gui::keys::{Key, KeyPress};
use crate::gui::ledger::{Ledger, LedgerState, Trade};
use crate::gui::login::{Login, LoginState};
use crate::gui::waiting::Waiting;
use crate::gui::next_tick;
use crate::worker::{CommandView, FromWorkerMsg, MessageView, ToWorkerMessageContents};

verus! {

/// The App Element, this is used mostly for interaction logic.
#[derive(Clone, Copy, Debug, PartialEq, Eq, Structural)]
pub enum AppElement {
    /// The account window.
    Account,
    /// The sender button.
    Sender,
    /// The receiver button.
    Receiver,
    /// The money button.
    Money,
    /// The submit button.
    Submit,
    /// The logout button.
    Logout,
    /// The ledger window.
    Ledger,
}

/// The application state.
#[derive(Clone, Copy, Debug, PartialEq, Eq, Structural)]
pub enum AppState {
    /// The application is currently waiting on a connection.
    Waiting,
    /// The application is logging in.
    Login,
    /// The application is logged in and ready.
    Active,
    /// The application is exiting.
    Exit,
}

impl AppElement {
    /// The element that the cursor moves to from this one.
    pub open spec fn neighbour(self, key: Key) -> AppElement {
        match key {
            Key::Left => match self {
                AppElement::Account => AppElement::Ledger,
                AppElement::Sender => AppElement::Account,
                AppElement::Receiver => AppElement::Sender,
                AppElement::Money => AppElement::Receiver,
                AppElement::Submit => AppElement::Money,
                AppElement::Logout => AppElement::Submit,
                AppElement::Ledger => AppElement::Logout,
            },
            Key::Right => match self {
                AppElement::Account => AppElement::Sender,
                AppElement::Sender => AppElement::Receiver,
                AppElement::Receiver => AppElement::Money,
                AppElement::Money => AppElement::Submit,
                AppElement::Submit => AppElement::Logout,
                AppElement::Logout => AppElement::Ledger,
                AppElement::Ledger => AppElement::Account,
            },
            Key::Up => match self {
                AppElement::Sender => AppElement::Account,
                AppElement::Logout => AppElement::Sender,
                AppElement::Ledger => AppElement::Logout,
                AppElement::Receiver => AppElement::Account,
                AppElement::Money => AppElement::Account,
                AppElement::Submit => AppElement::Logout,
                AppElement::Account => AppElement::Ledger,
            },
            Key::Down => match self {
                AppElement::Account => AppElement::Sender,
                AppElement::Sender => AppElement::Logout,
                AppElement::Logout => AppElement::Ledger,
                AppElement::Receiver => AppElement::Logout,
                AppElement::Money => AppElement::Logout,
                AppElement::Ledger => AppElement::Account,
                AppElement::Submit => AppElement::Logout,
            },
            _ => self,
        }
    }

    /// The element that the cursor moves to from this one.
    pub fn step(self, key: Key) -> (next: AppElement)
        ensures
            next == self.neighbour(key),
    {
        match key {
            Key::Left => match self {
                AppElement::Account => AppElement::Ledger,
                AppElement::Sender => AppElement::Account,
                AppElement::Receiver => AppElement::Sender,
                AppElement::Money => AppElement::Receiver,
                AppElement::Submit => AppElement::Money,
                AppElement::Logout => AppElement::Submit,
                AppElement::Ledger => AppElement::Logout,
            },
            Key::Right => match self {
                AppElement::Account => AppElement::Sender,
                AppElement::Sender => AppElement::Receiver,
                AppElement::Receiver => AppElement::Money,
                AppElement::Money => AppElement::Submit,
                AppElement::Submit => AppElement::Logout,
                AppElement::Logout => AppElement::Ledger,
                AppElement::Ledger => AppElement::Account,
            },
            Key::Up => match self {
                AppElement::Sender => AppElement::Account,
                AppElement::Logout => AppElement::Sender,
                AppElement::Ledger => AppElement::Logout,
                AppElement::Receiver => AppElement::Account,
                AppElement::Money => AppElement::Account,
                AppElement::Submit => AppElement::Logout,
                AppElement::Account => AppElement::Ledger,
            },
            Key::Down => match self {
                AppElement::Account => AppElement::Sender,
                AppElement::Sender => AppElement::Logout,
                AppElement::Logout => AppElement::Ledger,
                AppElement::Receiver => AppElement::Logout,
                AppElement::Money => AppElement::Logout,
                AppElement::Ledger => AppElement::Account,
                AppElement::Submit => AppElement::Logout,
            },
            _ => self,
        }
    }
}

/// A key that moves the cursor or picks what is under it.
pub open spec fn navigates(key: Key) -> bool {
    key == Key::Left || key == Key::Right || key == Key::Up || key == Key::Down || key
        == Key::Enter
}

/// A key press that asks the dashboard to quit: control-c, or q.
pub open spec fn quits(event: KeyPress) -> bool {
    (event.key == Key::Char('c') && event.control) || event.key == Key::Char('q')
}

/// The model of the dashboard.
pub struct AppModel {
    pub exit: bool,
    pub login: LoginState,
    pub account: AccountState,
    pub state: AppState,
    pub ledger: LedgerState,
    pub waiting: usize,
    pub sender_button: ButtonState,
    pub receiver_button: ButtonState,
    pub money_button: ButtonState,
    pub submit_button: ButtonState,
    pub logout_button: ButtonState,
    pub highlighted: AppElement,
    pub selected: Option<AppElement>,
}

/// A button that is neither selected nor focused.
pub open spec fn plain_button(name: Seq<char>, kind: ButtonKind) -> ButtonState {
    ButtonState { name, selected: false, focused: false, kind }
}

impl AppModel {
    /// The dashboard as it starts: waiting for a connection, the cursor on
    /// the account pane, nothing picked, a trade of 250 from Calgary to
    /// Calgary in the form.
    pub open spec fn initial() -> AppModel {
        AppModel {
            exit: false,
            login: LoginState { tick: 0, password: Seq::empty(), locked: false },
            account: AccountState {
                balance: None,
                last_update: None,
                selected: false,
                focused: false,
            },
            state: AppState::Waiting,
            ledger: LedgerState { trades: Seq::empty(), selected: false, focused: false },
            waiting: 0,
            sender_button: plain_button("Sender"@, ButtonKind::Normal { content: "Calgary"@ }),
            receiver_button: plain_button(
                "Receiver"@,
                ButtonKind::Cycle {
                    options: seq!["Calgary"@, "New York"@, "Signapore"@],
                    position: 0,
                },
            ),
            money_button: plain_button("Money"@, ButtonKind::Money { content: 250 }),
            submit_button: plain_button("Submit Transaction"@, ButtonKind::Clickable),
            logout_button: plain_button("Logout"@, ButtonKind::Clickable),
            highlighted: AppElement::Account,
            selected: None,
        }
    }

    /// The receiver button offers options and the money button an amount.
    pub open spec fn wf(self) -> bool {
        self.receiver_button.kind is Cycle && self.money_button.kind is Money
    }

    /// The dashboard one tick later.
    pub open spec fn ticked(self) -> AppModel {
        AppModel {
            login: LoginState { tick: next_tick(self.login.tick), ..self.login },
            waiting: next_tick(self.waiting),
            ..self
        }
    }

    /// The dashboard after one message from the worker, taken at `now`.
    pub open spec fn after_message(self, message: MessageView, now: SystemTime) -> AppModel {
        match message {
            MessageView::ConnectionLive => if self.state == AppState::Waiting {
                AppModel { state: AppState::Login, ..self }
            } else {
                self
            },
            MessageView::ConnectionDead => AppModel { state: AppState::Waiting, ..self },
            MessageView::LoggedIn => AppModel { state: AppState::Active, ..self },
            MessageView::LoginUnlock => AppModel {
                login: LoginState { password: Seq::empty(), locked: false, ..self.login },
                ..self
            },
            MessageView::Balance(balance) => AppModel {
                account: AccountState {
                    balance: Some(balance),
                    last_update: Some(now),
                    ..self.account
                },
                ..self
            },
            MessageView::UpdateOrder(trades) => AppModel {
                ledger: LedgerState { trades, ..self.ledger },
                ..self
            },
        }
    }

    /// The dashboard after the first `count` of `messages`, in order.
    pub open spec fn after_messages(
        self,
        messages: Seq<MessageView>,
        count: nat,
        now: SystemTime,
    ) -> AppModel
        decreases count,
    {
        if count == 0 {
            self
        } else {
            self.after_messages(messages, (count - 1) as nat, now).after_message(
                messages[count - 1],
                now,
            )
        }
    }

    /// Every mark of selection and focus taken away.
    pub open spec fn cleared(self) -> AppModel {
        AppModel {
            account: AccountState { selected: false, focused: false, ..self.account },
            sender_button: ButtonState { selected: false, focused: false, ..self.sender_button },
            receiver_button: ButtonState {
                selected: false,
                focused: false,
                ..self.receiver_button
            },
            money_button: ButtonState { selected: false, focused: false, ..self.money_button },
            submit_button: ButtonState { selected: false, focused: false, ..self.submit_button },
            logout_button: ButtonState { selected: false, focused: false, ..self.logout_button },
            ledger: LedgerState { selected: false, focused: false, ..self.ledger },
            ..self
        }
    }

    /// The one element `element` marked: as focused where `focus`, else as
    /// selected.
    pub open spec fn marked(self, element: AppElement, focus: bool) -> AppModel {
        match element {
            AppElement::Account => AppModel {
                account: if focus {
                    AccountState { focused: true, ..self.account }
                } else {
                    AccountState { selected: true, ..self.account }
                },
                ..self
            },
            AppElement::Sender => AppModel {
                sender_button: mark(self.sender_button, focus),
                ..self
            },
            AppElement::Receiver => AppModel {
                receiver_button: mark(self.receiver_button, focus),
                ..self
            },
            AppElement::Money => AppModel { money_button: mark(self.money_button, focus), ..self },
            AppElement::Submit => AppModel {
                submit_button: mark(self.submit_button, focus),
                ..self
            },
            AppElement::Logout => AppModel {
                logout_button: mark(self.logout_button, focus),
                ..self
            },
            AppElement::Ledger => AppModel {
                ledger: if focus {
                    LedgerState { focused: true, ..self.ledger }
                } else {
                    LedgerState { selected: true, ..self.ledger }
                },
                ..self
            },
        }
    }

    /// The trade that the form stands for.
    pub open spec fn form_trade(self) -> CommandView {
        CommandView::Trade {
            sender: 0,
            receiver: self.receiver_button.kind->Cycle_position,
            money: self.money_button.kind->Money_content,
        }
    }

    /// The marks brought up to date, and a pick of the logout or the submit
    /// button carried out: the element that was picked is marked as focused,
    /// or else the one under the cursor as selected, and no other. A picked
    /// logout button goes back to the waiting screen; a picked submit button
    /// sends the form's trade. Either pick is over afterwards.
    pub open spec fn refreshed(self) -> (AppModel, Option<CommandView>) {
        let marked = match self.selected {
            Some(element) => self.cleared().marked(element, true),
            None => self.cleared().marked(self.highlighted, false),
        };
        if self.selected == Some(AppElement::Logout) {
            (AppModel { selected: None, state: AppState::Waiting, ..marked }, None)
        } else if self.selected == Some(AppElement::Submit) {
            (AppModel { selected: None, ..marked }, Some(self.form_trade()))
        } else {
            (marked, None)
        }
    }

    /// The dashboard after a key that moves the cursor or picks what is
    /// under it, pressed while nothing is picked.
    pub open spec fn browsed(self, event: KeyPress) -> AppModel {
        if event.key == Key::Enter {
            AppModel { selected: Some(self.highlighted), ..self }
        } else {
            AppModel { highlighted: self.highlighted.neighbour(event.key), ..self }
        }
    }

    /// The dashboard after a key press was handed to the element that is
    /// picked: the money and the receiver button take it, nothing else does.
    pub open spec fn redirected(self, event: KeyPress) -> AppModel {
        match self.selected {
            Some(AppElement::Money) => AppModel {
                money_button: ButtonState {
                    kind: self.money_button.kind.after_key(event),
                    ..self.money_button
                },
                ..self
            },
            Some(AppElement::Receiver) => AppModel {
                receiver_button: ButtonState {
                    kind: self.receiver_button.kind.after_key(event),
                    ..self.receiver_button
                },
                ..self
            },
            _ => self,
        }
    }

    /// The picked element can take the key press.
    pub open spec fn redirect_accepts(self, event: KeyPress) -> bool {
        match self.selected {
            Some(AppElement::Money) => self.money_button.kind.accepts(event),
            Some(AppElement::Receiver) => self.receiver_button.kind.accepts(event),
            _ => true,
        }
    }

    /// The dashboard can take the key press: where it goes on to a button,
    /// the button can take it.
    pub open spec fn accepts(self, event: KeyPress) -> bool {
        let fresh = self.refreshed().0;
        fresh.state != AppState::Login && navigates(event.key) && fresh.selected is Some
            && event.key != Key::Enter ==> fresh.redirect_accepts(event)
    }

    /// The dashboard after a key press, past the refresh that comes first.
    pub open spec fn keyed(self, event: KeyPress) -> AppModel {
        let noted = AppModel { exit: self.exit || quits(event), ..self };
        if noted.state == AppState::Login {
            AppModel { login: noted.login.after_key(event), ..noted }
        } else if navigates(event.key) {
            if noted.selected is None {
                noted.browsed(event)
            } else if event.key == Key::Enter {
                AppModel { selected: None, ..noted }
            } else {
                noted.redirected(event)
            }
        } else {
            noted
        }
    }

    /// The dashboard after a key press.
    pub open spec fn after_key(self, event: KeyPress) -> AppModel {
        self.refreshed().0.keyed(event)
    }

    /// The password that a key press submits, if it submits one.
    pub open spec fn attempt(self, event: KeyPress) -> Option<Seq<char>> {
        let fresh = self.refreshed().0;
        if fresh.state == AppState::Login {
            fresh.login.submitted(event)
        } else {
            None
        }
    }
}

/// A button marked as focused where `focus`, else as selected.
pub open spec fn mark(button: ButtonState, focus: bool) -> ButtonState {
    if focus {
        ButtonState { focused: true, ..button }
    } else {
        ButtonState { selected: true, ..button }
    }
}

/// What a key press makes the dashboard send to the worker.
pub struct Outgoing {
    /// The form's trade, where the submit button had been picked.
    pub trade: Option<ToWorkerMessageContents>,
    /// The login attempt, where a password was submitted.
    pub attempt: Option<ToWorkerMessageContents>,
}

/// The main application state.
#[derive(Debug)]
pub struct App {
    /// If the application is exiting.
    exit: bool,
    login: Login,
    account: Account,
    state: AppState,
    ledger: Ledger,
    waiting: Waiting,
    sender_button: FormButton,
    receiver_button: FormButton,
    money_button: FormButton,
    submit_button: FormButton,
    logout_button: FormButton,
    highlighted: AppElement,
    selected: Option<AppElement>,
}

impl View for App {
    type V = AppModel;

    closed spec fn view(&self) -> AppModel {
        AppModel {
            exit: self.exit,
            login: self.login@,
            account: self.account@,
            state: self.state,
            ledger: self.ledger@,
            waiting: self.waiting.tick,
            sender_button: self.sender_button@,
            receiver_button: self.receiver_button@,
            money_button: self.money_button@,
            submit_button: self.submit_button@,
            logout_button: self.logout_button@,
            highlighted: self.highlighted,
            selected: self.selected,
        }
    }
}

impl App {
    /// Creates a new application: waiting for a connection, the cursor on
    /// the account pane, nothing picked, the form at its defaults.
    pub fn new() -> (app: App)
        ensures
            app@ == AppModel::initial(),
            app@.wf(),
    {
        let mut regions: Vec<String> = Vec::new();
        regions.push(String::from_str("Calgary"));
        regions.push(String::from_str("New York"));
        regions.push(String::from_str("Signapore"));
        let ghost options = Seq::new(regions@.len(), |i: int| regions@[i]@);
        assert(options =~= seq!["Calgary"@, "New York"@, "Signapore"@]);
        App {
            exit: false,
            account: Account::default(),
            state: AppState::Waiting,
            login: Login::default(),
            waiting: Waiting::default(),
            ledger: Ledger::new(),
            sender_button: FormButton::locked("Sender", "Calgary"),
            receiver_button: FormButton::cycle("Receiver", regions),
            money_button: FormButton::money("Money", 250),
            submit_button: FormButton::clickable("Submit Transaction"),
            logout_button: FormButton::clickable("Logout"),
            highlighted: AppElement::Account,
            selected: None,
        }
    }

    /// Moves the animations one tick on.
    pub fn tick(&mut self)
        requires
            old(self)@.login.tick < usize::MAX,
            old(self)@.waiting < usize::MAX,
        ensures
            final(self)@ == old(self)@.ticked(),
            old(self)@.wf() ==> final(self)@.wf(),
    {
        self.login.advance();
        self.waiting.advance();
    }

    /// Takes one message from the worker, received at `now`.
    pub fn apply(&mut self, message: FromWorkerMsg, now: SystemTime)
        ensures
            final(self)@ == old(self)@.after_message(message@, now),
            old(self)@.wf() ==> final(self)@.wf(),
    {
        match message {
            FromWorkerMsg::ConnectionLive => {
                if self.state == AppState::Waiting {
                    self.state = AppState::Login;
                }
            },
            FromWorkerMsg::ConnectionDead => {
                self.state = AppState::Waiting;
            },
            FromWorkerMsg::LoggedIn => {
                self.state = AppState::Active;
            },
            FromWorkerMsg::LoginUnlock => {
                self.login.unlock();
            },
            FromWorkerMsg::Balance(balance) => {
                self.account.record_balance(balance, now);
            },
            FromWorkerMsg::UpdateOrder(orders) => {
                self.ledger.set_order_list(orders);
            },
        }
    }

    /// Handles the messages from the worker thread, in the order in which
    /// they came. `now` is the time at which they were taken off the queue.
    pub fn unpack_messages(&mut self, messages: Vec<FromWorkerMsg>, now: SystemTime)
        ensures
            final(self)@ == old(self)@.after_messages(
                Seq::new(messages@.len(), |i: int| messages@[i]@),
                messages@.len(),
                now,
            ),
            old(self)@.wf() ==> final(self)@.wf(),
    {
        let ghost views = Seq::new(messages@.len(), |i: int| messages@[i]@);
        let ghost start = self@;
        for message in queue: messages
            invariant
                queue.seq().len() == views.len(),
                forall|i: int| 0 <= i < views.len() ==> (#[trigger] queue.seq()[i])@ == views[i],
                self@ == start.after_messages(views, queue.index() as nat, now),
                start.wf() ==> self@.wf(),
        {
            self.apply(message, now);
        }
    }

    /// Takes every mark of selection and focus away.
    fn clear_marks(&mut self)
        ensures
            final(self)@ == old(self)@.cleared(),
    {
        self.account.reset();
        self.sender_button.reset();
        self.receiver_button.reset();
        self.money_button.reset();
        self.submit_button.reset();
        self.logout_button.reset();
        self.ledger.reset();
    }

    /// Marks one element: as focused where `focus`, else as selected.
    fn mark(&mut self, element: AppElement, focus: bool)
        ensures
            final(self)@ == old(self)@.marked(element, focus),
    {
        match element {
            AppElement::Account => {
                if focus {
                    self.account.set_focused(true);
                } else {
                    self.account.set_selected(true);
                }
            },
            AppElement::Sender => {
                mark_button(&mut self.sender_button, focus);
            },
            AppElement::Receiver => {
                mark_button(&mut self.receiver_button, focus);
            },
            AppElement::Money => {
                mark_button(&mut self.money_button, focus);
            },
            AppElement::Submit => {
                mark_button(&mut self.submit_button, focus);
            },
            AppElement::Logout => {
                mark_button(&mut self.logout_button, focus);
            },
            AppElement::Ledger => {
                if focus {
                    self.ledger.set_focused(true);
                } else {
                    self.ledger.set_selected(true);
                }
            },
        }
    }

    /// Updates the focused and selection logic, and carries out a pick of
    /// the logout or the submit button. The trade to send to the worker is
    /// returned, where the submit button had been picked.
    pub fn refresh_selection(&mut self) -> (trade: Option<ToWorkerMessageContents>)
        requires
            old(self)@.wf(),
        ensures
            final(self)@ == old(self)@.refreshed().0,
            final(self)@.wf(),
            match trade {
                Some(command) => old(self)@.refreshed().1 == Some(command@),
                None => old(self)@.refreshed().1 is None,
            },
    {
        self.clear_marks();
        match self.selected {
            Some(element) => {
                self.mark(element, true);
            },
            None => {
                let element = self.highlighted;
                self.mark(element, false);
            },
        }
        match self.selected {
            Some(AppElement::Logout) => {
                self.selected = None;
                self.state = AppState::Waiting;
                None
            },
            Some(AppElement::Submit) => {
                self.selected = None;
                let receiver = self.receiver_button.get_position().unwrap();
                let money = self.money_button.get_money().unwrap();
                Some(ToWorkerMessageContents::Trade { sender: 0, receiver, money })
            },
            _ => None,
        }
    }

    /// Whether `handle_key_event` can take this key press.
    pub fn accepts(&self, event: KeyPress) -> (ok: bool)
        requires
            self@.wf(),
        ensures
            ok == self@.accepts(event),
    {
        let state = match self.selected {
            Some(AppElement::Logout) => AppState::Waiting,
            _ => self.state,
        };
        let selected = match self.selected {
            Some(AppElement::Logout) => None,
            Some(AppElement::Submit) => None,
            other => other,
        };
        if state == AppState::Login {
            return true;
        }
        match event.key {
            Key::Left | Key::Right | Key::Up | Key::Down => {},
            _ => {
                return true;
            },
        }
        match selected {
            Some(AppElement::Money) => self.money_button.accepts(event),
            Some(AppElement::Receiver) => self.receiver_button.accepts(event),
            _ => true,
        }
    }

    /// Handles a new key event: the marks are brought up to date first; then
    /// control-c or q asks to quit; then the key goes to the login screen
    /// while that is shown, and otherwise moves the cursor, picks or lets go
    /// of an element, or changes the button that is picked.
    pub fn handle_key_event(&mut self, event: KeyPress) -> (outgoing: Outgoing)
        requires
            old(self)@.wf(),
            old(self)@.accepts(event),
        ensures
            final(self)@ == old(self)@.after_key(event),
            final(self)@.wf(),
            match outgoing.trade {
                Some(command) => old(self)@.refreshed().1 == Some(command@),
                None => old(self)@.refreshed().1 is None,
            },
            match outgoing.attempt {
                Some(command) => old(self)@.attempt(event) matches Some(password) && command@
                    == CommandView::LoginAttempt(password),
                None => old(self)@.attempt(event) is None,
            },
    {
        let trade = self.refresh_selection();
        let mut attempt: Option<ToWorkerMessageContents> = None;
        let quit = match event.key {
            Key::Char(c) => (c == 'c' && event.control) || c == 'q',
            _ => false,
        };
        if quit {
            self.exit = true;
        }
        if self.state == AppState::Login {
            match self.login.handle_key_event(event) {
                Some(password) => {
                    attempt = Some(ToWorkerMessageContents::LoginAttempt(password));
                },
                None => {},
            }
        } else {
            match event.key {
                Key::Left | Key::Right | Key::Up | Key::Down | Key::Enter => {
                    if self.selected.is_none() {
                        self.handle_browse(event);
                    } else {
                        match event.key {
                            Key::Enter => {
                                self.selected = None;
                            },
                            _ => {
                                self.redirect_key_input(event);
                            },
                        }
                    }
                },
                _ => {},
            }
        }
        Outgoing { trade, attempt }
    }

    /// Redirects the key input to the proper element depending on which one
    /// is selected.
    pub fn redirect_key_input(&mut self, event: KeyPress)
        requires
            old(self)@.redirect_accepts(event),
        ensures
            final(self)@ == old(self)@.redirected(event),
            old(self)@.wf() ==> final(self)@.wf(),
    {
        match self.selected {
            Some(AppElement::Money) => {
                self.money_button.handle_key_event(event);
            },
            Some(AppElement::Receiver) => {
                self.receiver_button.handle_key_event(event);
            },
            _ => {},
        }
    }

    /// Handles the navigation logic: an arrow key moves the cursor to the
    /// neighbour in that direction, enter picks what is under the cursor.
    pub fn handle_browse(&mut self, event: KeyPress)
        requires
            navigates(event.key),
        ensures
            final(self)@ == old(self)@.browsed(event),
            old(self)@.wf() ==> final(self)@.wf(),
    {
        match event.key {
            Key::Enter => {
                self.selected = Some(self.highlighted);
            },
            key => {
                self.highlighted = self.highlighted.step(key);
            },
        }
    }

    /// If the application is exiting.
    pub fn should_exit(&self) -> (exit: bool)
        ensures
            exit == self@.exit,
    {
        self.exit
    }

    /// The screen that is shown.
    pub fn state(&self) -> (state: AppState)
        ensures
            state == self@.state,
    {
        self.state
    }

    /// The element under the cursor.
    pub fn highlighted(&self) -> (element: AppElement)
        ensures
            element == self@.highlighted,
    {
        self.highlighted
    }

    /// The element that is picked, if one is.
    pub fn selected(&self) -> (element: Option<AppElement>)
        ensures
            element == self@.selected,
    {
        self.selected
    }

    pub fn login(&self) -> (login: &Login)
        ensures
            login@ == self@.login,
    {
        &self.login
    }

    pub fn account(&self) -> (account: &Account)
        ensures
            account@ == self@.account,
    {
        &self.account
    }

    pub fn ledger(&self) -> (ledger: &Ledger)
        ensures
            ledger@ == self@.ledger,
    {
        &self.ledger
    }

    pub fn waiting(&self) -> (waiting: &Waiting)
        ensures
            waiting.tick == self@.waiting,
    {
        &self.waiting
    }

    /// The button of one of the form's elements; `None` for the two panes.
    pub fn button(&self, element: AppElement) -> (button: Option<&FormButton>)
        ensures
            button matches Some(found) ==> found@ == match element {
                AppElement::Sender => self@.sender_button,
                AppElement::Receiver => self@.receiver_button,
                AppElement::Money => self@.money_button,
                AppElement::Submit => self@.submit_button,
                _ => self@.logout_button,
            },
            button is None <==> element == AppElement::Account || element == AppElement::Ledger,
    {
        match element {
            AppElement::Sender => Some(&self.sender_button),
            AppElement::Receiver => Some(&self.receiver_button),
            AppElement::Money => Some(&self.money_button),
            AppElement::Submit => Some(&self.submit_button),
            AppElement::Logout => Some(&self.logout_button),
            _ => None,
        }
    }
}

/// Marks a button as focused where `focus`, else as selected.
fn mark_button(button: &mut FormButton, focus: bool)
    ensures
        final(button)@ == mark(old(button)@, focus),
{
    if focus {
        button.set_focused(true);
    } else {
        button.set_selected(true);
    }
}

} // verus!
