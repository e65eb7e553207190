//! The application state machine: the single authority that applies each
//! multiplexed event to the conversation and UI state and decides what work to
//! start in response.
use crate::config::{opt_view, resolve, resolve_credential, Config};
use crate::models::{copy_messages, turn_of, turns_of, Message, Role};
use crate::mux::{AppEvent, InputEvent, KeyCode};
use crate::text::{pop_char, push_char, push_str, space_join, trim, trimmed};
use vstd::prelude::*;

verus! {

/// Whether a credential still has to be entered, or chat is under way.
#[derive(Debug, Clone, Copy, PartialEq, Eq, Structural)]
pub enum AppMode {
    Setup,
    Chat,
}

/// Work the control loop starts after an event was applied.
#[derive(Debug)]
pub enum Command {
    /// Nothing to do.
    Nothing,
    /// Leave the control loop.
    Quit,
    /// Persist these settings.
    SaveConfig(Config),
    /// Run a turn of this conversation against the remote backend.
    SpawnRemote { messages: Vec<Message>, api_key: String },
    /// Run a turn of the stand-in backend on this input.
    SpawnStandIn { input: String },
}

/// What a command asks for, in terms of views.
pub ghost enum Outcome {
    Nothing,
    Quit,
    Save(Option<Seq<char>>),
    Remote(Seq<char>),
    StandIn(Seq<char>),
}

/// The view of a command.
pub open spec fn outcome_of(c: Command) -> Outcome {
    match c {
        Command::Nothing => Outcome::Nothing,
        Command::Quit => Outcome::Quit,
        Command::SaveConfig(cfg) => Outcome::Save(opt_view(cfg.openrouter_api_key)),
        Command::SpawnRemote { messages, api_key } => Outcome::Remote(api_key@),
        Command::SpawnStandIn { input } => Outcome::StandIn(input@),
    }
}

/// The state of the application, leaving out turn identities.
pub ghost struct AppView {
    pub turns: Seq<(Role, Seq<char>)>,
    pub input: Seq<char>,
    pub streaming: Option<int>,
    pub scroll: int,
    pub mode: AppMode,
    pub config_key: Option<Seq<char>>,
    pub env_key: Option<Seq<char>>,
}

/// At most one turn is the streaming target, and it is an Assistant turn of the
/// history.
pub open spec fn well_formed(v: AppView) -> bool {
    v.streaming matches Some(i) ==> 0 <= i < v.turns.len() && v.turns[i].0 == Role::Assistant
}

/// A turn's content after a further streamed fragment was appended to it:
/// one space, then the fragment.
pub open spec fn append_fragment(content: Seq<char>, f: Seq<char>) -> Seq<char> {
    content + seq![' '] + f
}

/// The messages of `new` at the indices of `old` keep their identities.
pub open spec fn ids_kept(old: Seq<Message>, new: Seq<Message>) -> bool {
    old.len() <= new.len() && forall|j: int| 0 <= j < old.len() ==> #[trigger] new[j].id == old[j].id
}

/// The state after a streamed fragment: appended to the streaming target, or
/// to a new Assistant turn that becomes the target.
pub open spec fn chunk_step(v: AppView, f: Seq<char>) -> AppView {
    match v.streaming {
        Some(i) => AppView {
            turns: v.turns.update(i, (Role::Assistant, append_fragment(v.turns[i].1, f))),
            ..v
        },
        None => AppView {
            turns: v.turns.push((Role::Assistant, f)),
            streaming: Some(v.turns.len() as int),
            ..v
        },
    }
}

/// The state after the reply stream completed: no streaming target.
pub open spec fn done_step(v: AppView) -> AppView {
    AppView { streaming: None, ..v }
}

/// The state and outcome of submitting the input buffer.
pub open spec fn submit_step(v: AppView) -> (AppView, Outcome) {
    let content = trimmed(v.input);
    if content.len() == 0 {
        (v, Outcome::Nothing)
    } else {
        match v.mode {
            AppMode::Setup => (
                AppView { config_key: Some(content), mode: AppMode::Chat, input: seq![], ..v },
                Outcome::Save(Some(content)),
            ),
            AppMode::Chat => (
                AppView { turns: v.turns.push((Role::User, content)), input: seq![], ..v },
                match resolve(v.env_key, v.config_key) {
                    Some(k) => Outcome::Remote(k),
                    None => Outcome::StandIn(content),
                },
            ),
        }
    }
}

/// The state and outcome of a key press.
pub open spec fn key_step(v: AppView, code: KeyCode, ctrl: bool) -> (AppView, Outcome) {
    match code {
        KeyCode::Char(c) => if c == 'c' && ctrl {
            (v, Outcome::Quit)
        } else {
            (AppView { input: v.input.push(c), ..v }, Outcome::Nothing)
        },
        KeyCode::Esc => (v, Outcome::Quit),
        KeyCode::Enter => submit_step(v),
        KeyCode::Backspace => (
            AppView {
                input: if v.input.len() > 0 {
                    v.input.drop_last()
                } else {
                    v.input
                },
                ..v
            },
            Outcome::Nothing,
        ),
        KeyCode::Up => (
            AppView {
                scroll: if v.scroll < 65535 {
                    v.scroll + 1
                } else {
                    v.scroll
                },
                ..v
            },
            Outcome::Nothing,
        ),
        KeyCode::Down => (
            AppView {
                scroll: if v.scroll > 0 {
                    v.scroll - 1
                } else {
                    v.scroll
                },
                ..v
            },
            Outcome::Nothing,
        ),
        KeyCode::Other => (v, Outcome::Nothing),
    }
}

/// The state and outcome of applying one multiplexed event.
pub open spec fn app_step(v: AppView, e: AppEvent) -> (AppView, Outcome) {
    match e {
        AppEvent::Input(InputEvent::Key { code, ctrl }) => key_step(v, code, ctrl),
        AppEvent::Input(_) => (v, Outcome::Nothing),
        AppEvent::Tick => (v, Outcome::Nothing),
        AppEvent::AgentChunk(s) => (chunk_step(v, s@), Outcome::Nothing),
        AppEvent::AgentDone => (done_step(v), Outcome::Nothing),
    }
}

/// The application state.
#[derive(Debug)]
pub struct App {
    pub messages: Vec<Message>,
    pub input: String,
    pub streaming_idx: Option<usize>,
    pub scroll: u16,
    pub mode: AppMode,
    pub config: Config,
    /// The credential found in the environment, if any.
    pub env_key: Option<String>,
}

impl View for App {
    type V = AppView;

    open spec fn view(&self) -> AppView {
        AppView {
            turns: turns_of(self.messages@),
            input: self.input@,
            streaming: match self.streaming_idx {
                Some(i) => Some(i as int),
                None => None,
            },
            scroll: self.scroll as int,
            mode: self.mode,
            config_key: opt_view(self.config.openrouter_api_key),
            env_key: opt_view(self.env_key),
        }
    }
}

impl App {
    /// Whether the state is well formed.
    pub open spec fn wf(&self) -> bool {
        well_formed(self@)
    }

    /// A fresh state: empty history and input, in chat mode when a credential
    /// is known from the settings or the environment, else in setup mode.
    pub fn new(config: Config, env_key: Option<String>) -> (r: App)
        ensures
            r.wf(),
            r@.turns.len() == 0,
            r@.input.len() == 0,
            r@.streaming is None,
            r@.scroll == 0,
            r@.config_key == opt_view(config.openrouter_api_key),
            r@.env_key == opt_view(env_key),
            r@.mode == if config.openrouter_api_key is Some || env_key is Some {
                AppMode::Chat
            } else {
                AppMode::Setup
            },
    {
        let mode = if config.openrouter_api_key.is_some() || env_key.is_some() {
            AppMode::Chat
        } else {
            AppMode::Setup
        };
        App {
            messages: Vec::new(),
            input: String::new(),
            streaming_idx: None,
            scroll: 0,
            mode,
            config,
            env_key,
        }
    }

    /// Appends a User turn with `content`.
    pub fn push_user(&mut self, content: String)
        requires
            old(self).wf(),
        ensures
            final(self).wf(),
            final(self)@ == (AppView {
                turns: old(self)@.turns.push((Role::User, content@)),
                ..old(self)@
            }),
            ids_kept(old(self).messages@, final(self).messages@),
    {
        let ghost pre = self.messages@;
        self.messages.push(Message::new(Role::User, content));
        assert(turns_of(self.messages@) =~= turns_of(pre).push((Role::User, content@)));
    }

    /// Appends a streamed fragment to the streaming target, opening a new
    /// Assistant turn as the target when there is none.
    pub fn append_assistant_chunk(&mut self, chunk: String)
        requires
            old(self).wf(),
        ensures
            final(self).wf(),
            final(self)@ == chunk_step(old(self)@, chunk@),
            ids_kept(old(self).messages@, final(self).messages@),
    {
        let ghost pre = self.messages@;
        match self.streaming_idx {
            Some(idx) => {
                let old_msg = &self.messages[idx];
                let mut content = old_msg.content.clone();
                push_char(&mut content, ' ');
                push_str(&mut content, chunk.as_str());
                let m = Message { id: old_msg.id, role: old_msg.role, content };
                proof {
                    assert(turns_of(pre)[idx as int] == turn_of(pre[idx as int]));
                    assert(turn_of(m) == (Role::Assistant, append_fragment(
                        turns_of(pre)[idx as int].1,
                        chunk@,
                    )));
                }
                self.messages[idx] = m;
                assert(self.messages@ == pre.update(idx as int, m));
                assert(turns_of(self.messages@) =~= turns_of(pre).update(
                    idx as int,
                    (Role::Assistant, append_fragment(turns_of(pre)[idx as int].1, chunk@)),
                ));
            },
            None => {
                self.messages.push(Message::new(Role::Assistant, chunk));
                self.streaming_idx = Some(self.messages.len() - 1);
                assert(turns_of(self.messages@) =~= turns_of(pre).push((Role::Assistant, chunk@)));
            },
        }
    }

    /// Finalizes the turn being streamed, if any.
    pub fn finish_assistant(&mut self)
        requires
            old(self).wf(),
        ensures
            final(self).wf(),
            final(self)@ == done_step(old(self)@),
            final(self).messages@ == old(self).messages@,
    {
        self.streaming_idx = None;
    }

    /// Submits the input buffer. In setup mode non-empty text becomes the
    /// credential and chat begins; in chat mode it becomes a User turn and a
    /// backend turn is started: the remote one when a credential is in effect,
    /// else the stand-in one. Whitespace-only input is ignored.
    pub fn submit(&mut self) -> (c: Command)
        requires
            old(self).wf(),
        ensures
            final(self).wf(),
            (final(self)@, outcome_of(c)) == submit_step(old(self)@),
            ids_kept(old(self).messages@, final(self).messages@),
            c matches Command::SpawnRemote { messages, .. } ==> turns_of(messages@)
                == final(self)@.turns,
    {
        let content = trim(self.input.as_str());
        if content.as_str().is_empty() {
            return Command::Nothing;
        }
        match self.mode {
            AppMode::Setup => {
                self.config.openrouter_api_key = Some(content);
                self.mode = AppMode::Chat;
                self.input = String::new();
                Command::SaveConfig(self.config.duplicate())
            },
            AppMode::Chat => {
                let key = resolve_credential(&self.env_key, &self.config.openrouter_api_key);
                let typed = content.clone();
                self.push_user(content);
                self.input = String::new();
                match key {
                    Some(api_key) => Command::SpawnRemote {
                        messages: copy_messages(&self.messages),
                        api_key,
                    },
                    None => Command::SpawnStandIn { input: typed },
                }
            },
        }
    }

    /// Applies a key press.
    pub fn handle_key(&mut self, code: KeyCode, ctrl: bool) -> (c: Command)
        requires
            old(self).wf(),
        ensures
            final(self).wf(),
            (final(self)@, outcome_of(c)) == key_step(old(self)@, code, ctrl),
            ids_kept(old(self).messages@, final(self).messages@),
            c matches Command::SpawnRemote { messages, .. } ==> turns_of(messages@)
                == final(self)@.turns,
    {
        match code {
            KeyCode::Char(ch) => {
                if ch == 'c' && ctrl {
                    Command::Quit
                } else {
                    push_char(&mut self.input, ch);
                    Command::Nothing
                }
            },
            KeyCode::Esc => Command::Quit,
            KeyCode::Enter => self.submit(),
            KeyCode::Backspace => {
                pop_char(&mut self.input);
                Command::Nothing
            },
            KeyCode::Up => {
                if self.scroll < 65535 {
                    self.scroll = self.scroll + 1;
                }
                Command::Nothing
            },
            KeyCode::Down => {
                if self.scroll > 0 {
                    self.scroll = self.scroll - 1;
                }
                Command::Nothing
            },
            KeyCode::Other => Command::Nothing,
        }
    }

    /// Applies one multiplexed event and says what work to start.
    pub fn handle(&mut self, event: AppEvent) -> (c: Command)
        requires
            old(self).wf(),
        ensures
            final(self).wf(),
            (final(self)@, outcome_of(c)) == app_step(old(self)@, event),
            ids_kept(old(self).messages@, final(self).messages@),
            c matches Command::SpawnRemote { messages, .. } ==> turns_of(messages@)
                == final(self)@.turns,
    {
        match event {
            AppEvent::Input(InputEvent::Key { code, ctrl }) => self.handle_key(code, ctrl),
            AppEvent::Input(_) => Command::Nothing,
            AppEvent::Tick => Command::Nothing,
            AppEvent::AgentChunk(s) => {
                self.append_assistant_chunk(s);
                Command::Nothing
            },
            AppEvent::AgentDone => {
                self.finish_assistant();
                Command::Nothing
            },
        }
    }
}

/// The state after a sequence of streamed fragments, in order.
pub open spec fn apply_chunks(v: AppView, fs: Seq<Seq<char>>) -> AppView
    decreases fs.len(),
{
    if fs.len() == 0 {
        v
    } else {
        chunk_step(apply_chunks(v, fs.drop_last()), fs.last())
    }
}

/// The state after a sequence of multiplexed events, in order.
pub open spec fn run_events(v: AppView, es: Seq<AppEvent>) -> AppView
    decreases es.len(),
{
    if es.len() == 0 {
        v
    } else {
        run_events(app_step(v, es[0]).0, es.drop_first())
    }
}

/// The Enter key, unmodified.
pub open spec fn enter_event() -> AppEvent {
    AppEvent::Input(InputEvent::Key { code: KeyCode::Enter, ctrl: false })
}

/// When no turn is being streamed, the fragments relayed for one turn form one new Assistant turn whose content is the fragments joined by
/// single spaces, in relay order; earlier turns are untouched and the new turn
/// is the streaming target.
pub proof fn lemma_streamed_content(v: AppView, fs: Seq<Seq<char>>)
    requires
        well_formed(v),
        v.streaming is None,
        fs.len() > 0,
    ensures
        well_formed(apply_chunks(v, fs)),
        apply_chunks(v, fs).turns.len() == v.turns.len() + 1,
        apply_chunks(v, fs).turns.subrange(0, v.turns.len() as int) == v.turns,
        apply_chunks(v, fs).turns.last() == (Role::Assistant, space_join(fs)),
        apply_chunks(v, fs).streaming == Some(v.turns.len() as int),
    decreases fs.len(),
{
    let w = apply_chunks(v, fs);
    if fs.len() == 1 {
        assert(fs.drop_last() =~= Seq::<Seq<char>>::empty());
        assert(apply_chunks(v, fs.drop_last()) == v);
        assert(w.turns.subrange(0, v.turns.len() as int) =~= v.turns);
    } else {
        let init = fs.drop_last();
        lemma_streamed_content(v, init);
        let w0 = apply_chunks(v, init);
        let n = v.turns.len() as int;
        assert(w0.turns[n] == w0.turns.last());
        assert(space_join(fs) == space_join(init) + seq![' '] + fs.last());
        assert(w.turns =~= w0.turns.update(n, (Role::Assistant, space_join(fs))));
        assert(w.turns.subrange(0, n) =~= w0.turns.subrange(0, n));
    }
}

/// Every event keeps at most one streaming target, and it stays an Assistant
/// turn of the history.
pub proof fn lemma_step_well_formed(v: AppView, e: AppEvent)
    requires
        well_formed(v),
    ensures
        well_formed(app_step(v, e).0),
{
}

/// A completion finalizes the turn being streamed: the next fragment never
/// reaches it, and opens a new Assistant turn after all earlier turns.
pub proof fn lemma_completion_finalizes(v: AppView, f: Seq<char>)
    requires
        well_formed(v),
    ensures
        done_step(v).streaming is None,
        chunk_step(done_step(v), f).turns == v.turns.push((Role::Assistant, f)),
        chunk_step(done_step(v), f).streaming == Some(v.turns.len() as int),
{
}

/// Chat mode is never left, and the credentials in effect never change in it.
pub proof fn lemma_chat_is_final(v: AppView, es: Seq<AppEvent>)
    requires
        v.mode == AppMode::Chat,
    ensures
        run_events(v, es).mode == AppMode::Chat,
        run_events(v, es).config_key == v.config_key,
        run_events(v, es).env_key == v.env_key,
    decreases es.len(),
{
    if es.len() > 0 {
        lemma_chat_is_final(app_step(v, es[0]).0, es.drop_first());
    }
}

/// Submitting non-empty text in setup mode saves it as the credential and
/// enters chat mode; from then on, whatever events follow, each non-empty
/// submission starts a remote turn with the credential in effect (the one from
/// the environment when present, else the one entered), and setup mode never
/// returns.
pub proof fn lemma_setup_to_chat(v: AppView, es: Seq<AppEvent>)
    requires
        v.mode == AppMode::Setup,
        trimmed(v.input).len() > 0,
    ensures
        app_step(v, enter_event()).0.mode == AppMode::Chat,
        app_step(v, enter_event()).0.config_key == Some(trimmed(v.input)),
        app_step(v, enter_event()).0.turns == v.turns,
        app_step(v, enter_event()).0.input.len() == 0,
        app_step(v, enter_event()).1 == Outcome::Save(Some(trimmed(v.input))),
        run_events(app_step(v, enter_event()).0, es).mode == AppMode::Chat,
        trimmed(run_events(app_step(v, enter_event()).0, es).input).len() > 0 ==> app_step(
            run_events(app_step(v, enter_event()).0, es),
            enter_event(),
        ).1 == Outcome::Remote(
            if v.env_key is Some {
                v.env_key->Some_0
            } else {
                trimmed(v.input)
            },
        ),
{
    lemma_chat_is_final(app_step(v, enter_event()).0, es);
}

} // verus!
