use vstd::prelude::*;
use crate::champ::Champ;
use crate::champ::parsed_id;
use crate::champ_select::ARAMChampSelectState;
use crate::champ_select::ChampSelectView;
use crate::lol_client_api::ChampSelectFetcher;

verus! {

/// A reference to the value of a result that is `Ok`.
pub fn ok_ref<T, E>(res: &Result<T, E>) -> (r: Option<&T>)
    ensures
        match *res {
            Ok(val) => r == Some(&val),
            Err(_) => r is None,
        },
{
    match res {
        Ok(val) => Some(val),
        Err(_) => None,
    }
}

/// Whether the game client is in champion select, and in what state.
#[derive(Debug)]
pub enum ClientState {
    WaitingForChampSelect,
    ChampSelect(ARAMChampSelectState),
}

/// The mathematical content of a [`ClientState`].
pub enum ClientStateView {
    WaitingForChampSelect,
    ChampSelect(ChampSelectView),
}

impl View for ClientState {
    type V = ClientStateView;

    open spec fn view(&self) -> ClientStateView {
        match *self {
            ClientState::WaitingForChampSelect => ClientStateView::WaitingForChampSelect,
            ClientState::ChampSelect(state) => ClientStateView::ChampSelect(state@),
        }
    }
}

impl Default for ClientState {
    fn default() -> (state: ClientState)
        ensures
            state@ == ClientStateView::WaitingForChampSelect,
    {
        ClientState::WaitingForChampSelect
    }
}

impl ClientState {
    /// Whether the client is in champion select.
    pub fn is_champ_select(&self) -> (b: bool)
        ensures
            b == (self@ is ChampSelect),
    {
        match self {
            ClientState::ChampSelect(_) => true,
            ClientState::WaitingForChampSelect => false,
        }
    }
}

/// One manual change to the champion select state.
#[derive(Debug, Clone)]
pub enum ManualInputMessage {
    /// The text of the champion input changed.
    ChangeSelection(String),
    AddBench(Champ),
    RemoveBench(usize),
    SwapBench(usize, Champ),
    SwapTeam(usize, Champ),
}

/// The mathematical content of a [`ManualInputMessage`].
pub enum ManualInputView {
    ChangeSelection(Seq<char>),
    AddBench(Champ),
    RemoveBench(usize),
    SwapBench(usize, Champ),
    SwapTeam(usize, Champ),
}

impl View for ManualInputMessage {
    type V = ManualInputView;

    open spec fn view(&self) -> ManualInputView {
        match *self {
            ManualInputMessage::ChangeSelection(text) => ManualInputView::ChangeSelection(text@),
            ManualInputMessage::AddBench(champ) => ManualInputView::AddBench(champ),
            ManualInputMessage::RemoveBench(index) => ManualInputView::RemoveBench(index),
            ManualInputMessage::SwapBench(index, champ) => ManualInputView::SwapBench(index, champ),
            ManualInputMessage::SwapTeam(index, champ) => ManualInputView::SwapTeam(index, champ),
        }
    }
}

/// Switches that concern debugging.
#[derive(Debug, Clone, Copy, PartialEq, Eq, Structural)]
pub enum DebugMessage {
    EnableDebug,
}

/// What is known for debugging: whether it is switched on, and how many
/// messages have come in since.
#[derive(Debug, Clone, Copy, PartialEq, Eq, Structural)]
pub struct DebugInfo {
    pub enabled: bool,
    /// Counts the messages that came in while debugging was on; wraps
    /// around.
    pub message_count: u32,
}

/// A message to the client application.
#[derive(Debug)]
pub enum Message {
    /// The fetcher for the game client is ready.
    InitFetcher(ChampSelectFetcher),
    /// The win rate model is loaded.
    InitARAMAIModel,
    /// The game client reported a champion select state.
    SetChampSelectState(ARAMChampSelectState),
    /// It is time to ask the game client again.
    UpdateChampSelectState,
    EnableManualInput,
    ManualInput(ManualInputMessage),
    Debug(DebugMessage),
    /// Something failed; the failure changes nothing.
    Error,
}

/// The mathematical content of a [`Message`].
pub enum MessageView {
    InitFetcher(ChampSelectFetcher),
    InitARAMAIModel,
    SetChampSelectState(ChampSelectView),
    UpdateChampSelectState,
    EnableManualInput,
    ManualInput(ManualInputView),
    Debug(DebugMessage),
    Error,
}

impl View for Message {
    type V = MessageView;

    open spec fn view(&self) -> MessageView {
        match *self {
            Message::InitFetcher(fetcher) => MessageView::InitFetcher(fetcher),
            Message::InitARAMAIModel => MessageView::InitARAMAIModel,
            Message::SetChampSelectState(state) => MessageView::SetChampSelectState(state@),
            Message::UpdateChampSelectState => MessageView::UpdateChampSelectState,
            Message::EnableManualInput => MessageView::EnableManualInput,
            Message::ManualInput(input) => MessageView::ManualInput(input@),
            Message::Debug(debug) => MessageView::Debug(debug),
            Message::Error => MessageView::Error,
        }
    }
}

/// What the application asks to have done after a message.
#[derive(Debug, Clone, Copy, PartialEq, Eq, Structural)]
pub enum Command {
    /// Nothing is to be done.
    Nothing,
    /// Ask the game client for the champion select state, through the
    /// fetcher given.
    FetchChampSelectState(ChampSelectFetcher),
}

/// How often the game client is asked while the application polls it, in
/// milliseconds.
pub const POLL_INTERVAL_MS: u64 = 1000;

/// The state of the client application.
#[derive(Debug)]
pub struct App {
    pub champ_select_state: ClientState,
    /// The fetcher for the game client, once it is ready.
    pub champ_select_fetcher: Option<ChampSelectFetcher>,
    /// Whether the win rate model is loaded.
    pub aram_ai_model: bool,
    pub debug: DebugInfo,
    pub manual_input_enabled: bool,
    /// The champion that the next manual change puts in.
    pub selected_champ: Champ,
    /// The text of the champion input.
    pub champ_input: String,
}

/// The mathematical content of an [`App`].
pub struct AppView {
    pub champ_select_state: ClientStateView,
    pub champ_select_fetcher: Option<ChampSelectFetcher>,
    pub aram_ai_model: bool,
    pub debug: DebugInfo,
    pub manual_input_enabled: bool,
    pub selected_champ: Champ,
    pub champ_input: Seq<char>,
}

impl View for App {
    type V = AppView;

    open spec fn view(&self) -> AppView {
        AppView {
            champ_select_state: self.champ_select_state@,
            champ_select_fetcher: self.champ_select_fetcher,
            aram_ai_model: self.aram_ai_model,
            debug: self.debug,
            manual_input_enabled: self.manual_input_enabled,
            selected_champ: self.selected_champ,
            champ_input: self.champ_input@,
        }
    }
}

impl AppView {
    /// The application as it starts: waiting for champion select, with
    /// nothing ready and nothing switched on.
    pub open spec fn initial() -> AppView {
        AppView {
            champ_select_state: ClientStateView::WaitingForChampSelect,
            champ_select_fetcher: None,
            aram_ai_model: false,
            debug: DebugInfo { enabled: false, message_count: 0 },
            manual_input_enabled: false,
            selected_champ: Champ { id: 0 },
            champ_input: Seq::empty(),
        }
    }

    /// The champion select state that a change works on: the current one,
    /// or the initial one while the client waits for champion select.
    pub open spec fn champ_select(self) -> ChampSelectView {
        match self.champ_select_state {
            ClientStateView::ChampSelect(state) => state,
            ClientStateView::WaitingForChampSelect => ChampSelectView::initial(),
        }
    }

    /// The state after a manual change. Any change puts the client into
    /// champion select. A change of the input text keeps the text, and
    /// selects the champion it denotes where it denotes one.
    pub open spec fn update_manual(self, input: ManualInputView) -> AppView {
        let select = self.champ_select();
        match input {
            ManualInputView::AddBench(champ) => AppView {
                champ_select_state: ClientStateView::ChampSelect(select.add_bench(champ)),
                ..self
            },
            ManualInputView::RemoveBench(index) => AppView {
                champ_select_state: ClientStateView::ChampSelect(select.remove_bench(index)),
                ..self
            },
            ManualInputView::SwapBench(index, champ) => AppView {
                champ_select_state: ClientStateView::ChampSelect(select.swap_bench(index, champ)),
                ..self
            },
            ManualInputView::SwapTeam(index, champ) => AppView {
                champ_select_state: ClientStateView::ChampSelect(select.swap_team(index, champ)),
                ..self
            },
            ManualInputView::ChangeSelection(text) => AppView {
                champ_select_state: ClientStateView::ChampSelect(select),
                selected_champ: match parsed_id(text) {
                    Some(id) => Champ { id },
                    None => self.selected_champ,
                },
                champ_input: text,
                ..self
            },
        }
    }

    /// The state after the message count went up by one; the count wraps
    /// around.
    pub open spec fn counted(self) -> AppView {
        AppView {
            debug: DebugInfo {
                enabled: self.debug.enabled,
                message_count: if self.debug.message_count == u32::MAX {
                    0
                } else {
                    (self.debug.message_count + 1) as u32
                },
            },
            ..self
        }
    }

    /// Whether the application can take `message`: the fetcher and the model
    /// are each set once, and the game client is asked only once the fetcher
    /// is ready.
    pub open spec fn accepts(self, message: MessageView) -> bool {
        match message {
            MessageView::InitFetcher(_) => self.champ_select_fetcher is None,
            MessageView::InitARAMAIModel => !self.aram_ai_model,
            MessageView::UpdateChampSelectState => self.champ_select_fetcher is Some,
            _ => true,
        }
    }

    /// The state after a message. Where debugging is on, the message is
    /// counted first; then it takes effect.
    pub open spec fn update(self, message: MessageView) -> AppView {
        let app = if self.debug.enabled {
            self.counted()
        } else {
            self
        };
        match message {
            MessageView::InitFetcher(fetcher) => AppView {
                champ_select_fetcher: Some(fetcher),
                ..app
            },
            MessageView::InitARAMAIModel => AppView { aram_ai_model: true, ..app },
            MessageView::SetChampSelectState(state) => AppView {
                champ_select_state: ClientStateView::ChampSelect(state),
                ..app
            },
            MessageView::UpdateChampSelectState => app,
            MessageView::Debug(DebugMessage::EnableDebug) => AppView {
                debug: DebugInfo { enabled: true, message_count: app.debug.message_count },
                ..app
            },
            MessageView::EnableManualInput => AppView {
                manual_input_enabled: true,
                champ_select_state: ClientStateView::ChampSelect(app.champ_select()),
                ..app
            },
            MessageView::ManualInput(input) => app.update_manual(input),
            MessageView::Error => app,
        }
    }

    /// What is to be done after a message: the game client is asked where
    /// the message says that it is time to, and nothing else.
    pub open spec fn command(self, message: MessageView) -> Command {
        match message {
            MessageView::UpdateChampSelectState => match self.champ_select_fetcher {
                Some(fetcher) => Command::FetchChampSelectState(fetcher),
                None => Command::Nothing,
            },
            _ => Command::Nothing,
        }
    }

    /// How often the application wants to be told to ask the game client,
    /// in milliseconds: every second once the fetcher is ready, and not at
    /// all while the state is put in by hand.
    pub open spec fn subscription(self) -> Option<u64> {
        if self.champ_select_fetcher is Some && !self.manual_input_enabled {
            Some(POLL_INTERVAL_MS)
        } else {
            None
        }
    }
}

impl App {
    /// The application as it starts.
    pub fn new() -> (app: App)
        ensures
            app@ == AppView::initial(),
    {
        App {
            champ_select_state: ClientState::WaitingForChampSelect,
            champ_select_fetcher: None,
            aram_ai_model: false,
            debug: DebugInfo { enabled: false, message_count: 0 },
            manual_input_enabled: false,
            selected_champ: Champ { id: 0 },
            champ_input: String::new(),
        }
    }

    /// The title of the application's window.
    pub fn title(&self) -> (title: String)
        ensures
            title@ == "ARAM Assistant"@,
    {
        "ARAM Assistant".to_owned()
    }

    /// Takes one message: counts it where debugging is on, lets it take
    /// effect, and says what is to be done next.
    pub fn update(&mut self, message: Message) -> (command: Command)
        requires
            old(self)@.accepts(message@),
        ensures
            final(self)@ == old(self)@.update(message@),
            command == old(self)@.command(message@),
    {
        if self.debug.enabled {
            self.update_debug();
        }
        match message {
            Message::InitFetcher(fetcher) => {
                self.champ_select_fetcher = Some(fetcher);
            },
            Message::InitARAMAIModel => {
                self.aram_ai_model = true;
            },
            Message::SetChampSelectState(state) => {
                self.champ_select_state = ClientState::ChampSelect(state);
            },
            Message::UpdateChampSelectState => {
                match self.champ_select_fetcher {
                    Some(fetcher) => {
                        return Command::FetchChampSelectState(fetcher);
                    },
                    None => {},
                }
            },
            Message::Debug(debug) => match debug {
                DebugMessage::EnableDebug => {
                    self.debug.enabled = true;
                },
            },
            Message::EnableManualInput => {
                self.manual_input_enabled = true;
                if !self.champ_select_state.is_champ_select() {
                    self.champ_select_state = ClientState::ChampSelect(
                        ARAMChampSelectState::default(),
                    );
                }
            },
            Message::ManualInput(input) => {
                self.update_manual(input);
            },
            Message::Error => {},
        }
        Command::Nothing
    }

    /// How often the application wants to be told to ask the game client,
    /// in milliseconds.
    pub fn subscription(&self) -> (interval: Option<u64>)
        ensures
            interval == self@.subscription(),
    {
        if self.champ_select_fetcher.is_some() && !self.manual_input_enabled {
            Some(POLL_INTERVAL_MS)
        } else {
            None
        }
    }

    /// Counts one message; the count wraps around.
    pub fn update_debug(&mut self)
        ensures
            final(self)@ == old(self)@.counted(),
    {
        self.debug.message_count = self.debug.message_count.wrapping_add(1);
    }

    /// Applies one manual change.
    pub fn update_manual(&mut self, input: ManualInputMessage)
        ensures
            final(self)@ == old(self)@.update_manual(input@),
    {
        let mut client = ClientState::WaitingForChampSelect;
        std::mem::swap(&mut client, &mut self.champ_select_state);
        let mut select = match client {
            ClientState::ChampSelect(state) => state,
            ClientState::WaitingForChampSelect => ARAMChampSelectState::default(),
        };
        match input {
            ManualInputMessage::AddBench(champ) => {
                select.add_bench(champ);
            },
            ManualInputMessage::RemoveBench(index) => {
                select.remove_bench(index);
            },
            ManualInputMessage::SwapBench(index, champ) => {
                select.swap_bench(index, champ);
            },
            ManualInputMessage::SwapTeam(index, champ) => {
                select.swap_team(index, champ);
            },
            ManualInputMessage::ChangeSelection(text) => {
                match Champ::parse(text.as_str()) {
                    Ok(champ) => {
                        self.selected_champ = champ;
                    },
                    Err(_) => {},
                }
                self.champ_input = text;
            },
        }
        self.champ_select_state = ClientState::ChampSelect(select);
    }
}

} // verus!
