use std::cell::RefCell;

use azookey_windows::engine::actions::{Batch, Effect};
use azookey_windows::engine::candidate_ui::{
    close_candidate_ui, open_candidate_ui, publish_candidates, updated_flags, WindowCommand,
};
use azookey_windows::engine::client_action::{ClientAction, SetSelectionType, SetTextType};
use azookey_windows::engine::composition::{CompositionEdit, CompositionState};
use azookey_windows::engine::fake_ipc::{FakeIpc, IpcCall};
use azookey_windows::engine::input_mode::{InputMode, ModeStep};
use azookey_windows::engine::ipc_service::{
    retry_idempotent, CandidateView, Candidates, IDEMPOTENT_ATTEMPTS,
};
use azookey_windows::engine::key_dispatch::KeyEvent;
use azookey_windows::failure::{is_server_unavailable, Cause, Failure};
use azookey_windows::globals::{
    GUID_PRESERVEDKEY_TOGGLE_ALT_GRAVE, VK_KANJI, VK_OEM_3,
};
use azookey_windows::tsf::compartment::{
    is_input_disabled, watched_compartments, Adoption, CompartmentSinks, CONVERSION_KANA,
};
use azookey_windows::tsf::edit_session::{
    edit_session, read_range_text, send_range_position, session_flags, set_text, shift_start,
    PositionSource, ReadStep, StartStep, ES_READWRITE, FIRST_READ,
};
use azookey_windows::tsf::factory::SinkCookies;
use azookey_windows::tsf::fakes::{
    EditSessionBehavior, RangeLog, SessionAnswer, TextExtBehavior, UiElementLog, ViewLog,
};
use azookey_windows::tsf::preserved_key::{toggle_keys, DOUBLE_DELIVERY_WINDOW, MOD_ALT};
use azookey_windows::tsf::surrounded_text::{context_text, update_context};
use azookey_windows::tsf::text_input_processor::{
    deactivation_steps, record, Activation, ActivationStep, DeactivationStep,
};
use azookey_windows::tsf::text_layout_sink::{LayoutContext, IID_TEXT_LAYOUT_SINK};
use azookey_windows::tsf::text_service::{PreservedKey, TextService};
use azookey_windows::tsf::thread_mgr_event_sink::{focus_steps, FocusStep};

/// The edit cookie that the host gives out.
const FAKE_COOKIE: u32 = 0x1234;

/// The code of a host that refuses.
const E_FAIL: u32 = 0x80004005;

const IID_THREAD_MGR_EVENT_SINK: u128 = 0xaa80e80e_2021_11d2_93e0_0060b067b86e;

/// A host: it carries out what the library asks for, as its switches say.
struct Host {
    service: TextService<u32>,
    ipc: FakeIpc,
    behavior: EditSessionBehavior,
    /// The flags of every edit that was requested.
    requests: Vec<u32>,
    /// The document, where the host shows one.
    document: Option<RangeLog>,
    /// What the composition holds.
    composed: RangeLog,
    view: ViewLog,
    has_context: bool,
    ui: Option<UiElementLog>,
    thread_mgr: bool,
    langbar_fails: bool,
    langbar_adds: usize,
    langbar_removes: usize,
    refuses_keys: bool,
    refuses_key_sink: bool,
    unpreserved: Vec<(u128, PreservedKey)>,
    key_sink_advises: usize,
    key_sink_unadvises: usize,
    cookies: SinkCookies,
    next_cookie: u32,
    advised: Vec<u32>,
    unadvised: Vec<u32>,
    focus: Option<u32>,
    layout: LayoutContext<u32>,
    layout_advised: Vec<u32>,
    layout_unadvised: Vec<u32>,
    open_close: Option<i32>,
    conversion: Option<i32>,
    set_value_calls: usize,
    compartment_sinks: CompartmentSinks<u128>,
    /// The compartments that notify, each with the cookie it gave out.
    notifying: Vec<(u128, u32)>,
    echoes: Vec<Option<InputMode>>,
    tid: u32,
    next_tip: u32,
    now: u64,
}

impl Host {
    fn new(behavior: EditSessionBehavior) -> Host {
        Host::answering(behavior, Candidates::none())
    }

    fn answering(behavior: EditSessionBehavior, scripted: Candidates) -> Host {
        Host {
            service: TextService::new(),
            ipc: FakeIpc::new(scripted),
            behavior,
            requests: Vec::new(),
            document: None,
            composed: RangeLog::new(Vec::new()),
            view: ViewLog {
                get_text_ext_calls: 0,
                text_ext_behavior: TextExtBehavior::Whole,
            },
            has_context: true,
            ui: None,
            thread_mgr: false,
            langbar_fails: false,
            langbar_adds: 0,
            langbar_removes: 0,
            refuses_keys: false,
            refuses_key_sink: false,
            unpreserved: Vec::new(),
            key_sink_advises: 0,
            key_sink_unadvises: 0,
            cookies: SinkCookies::new(),
            next_cookie: 0,
            advised: Vec::new(),
            unadvised: Vec::new(),
            focus: None,
            layout: LayoutContext::new(),
            layout_advised: Vec::new(),
            layout_unadvised: Vec::new(),
            open_close: None,
            conversion: None,
            set_value_calls: 0,
            compartment_sinks: CompartmentSinks::new(),
            notifying: Vec::new(),
            echoes: Vec::new(),
            tid: 0,
            next_tip: 0,
            now: 1_000_000,
        }
    }

    fn with_document(text: &str) -> Host {
        let mut host = Host::new(EditSessionBehavior::RunSync);
        host.document = Some(RangeLog::new(text.encode_utf16().collect()));
        host
    }

    /// A composition in this state, with a handle where it is under way.
    fn set_up(&mut self, state: CompositionState) {
        if state == CompositionState::Idle {
            self.service.composition.detach_tip();
        } else {
            self.next_tip += 1;
            self.service.composition.attach_tip(Some(self.next_tip));
        }
        CompositionEdit::from_composition(&self.service.composition, state)
            .commit(&mut self.service.composition);
    }

    fn refused() -> Failure {
        Failure::new("the edit was refused".to_string())
    }

    /// Requests an edit, which `edit` makes where the host lets it.
    fn session<T>(&mut self, edit: impl FnOnce(&mut Host) -> T) -> Result<Option<T>, u32> {
        let flags = session_flags();
        self.requests.push(flags);
        match self.behavior.request_edit_session(flags) {
            SessionAnswer::Made => {
                let left = edit(self);
                edit_session(Ok(()), Some(left))
            }
            SessionAnswer::NotMade => edit_session(Ok(()), None),
            SessionAnswer::Refused => edit_session(Err(E_FAIL), None),
        }
    }

    fn end_composition(&mut self) -> Result<(), Failure> {
        let mut result = Ok(());
        if self.service.composition.has_tip() {
            let made = self.session(|host| {
                host.composed.live += 1;
                let mut capacity = FIRST_READ;
                let text = loop {
                    let read = host.composed.get_text(capacity);
                    match read_range_text(read.len(), capacity) {
                        ReadStep::Complete(len) | ReadStep::Truncated(len) => {
                            break read[..len].to_vec()
                        }
                        ReadStep::Retry(larger) => capacity = larger,
                    }
                };
                host.composed.set_texts.push(text);
                host.composed.live -= 1;
            });
            if made.is_err() {
                result = Err(Host::refused());
            }
        }
        self.service.composition.detach_tip();
        result
    }

    fn start_composition(&mut self) -> Result<(), Failure> {
        for step in self.service.composition.start_composition() {
            match step {
                StartStep::EndStale => {
                    let _ = self.end_composition();
                }
                StartStep::Open => {
                    let opened = self.session(|host| {
                        host.next_tip += 1;
                        host.next_tip
                    });
                    match opened {
                        Ok(tip) => self.service.composition.attach_tip(tip),
                        Err(_) => return Err(Host::refused()),
                    }
                }
            }
        }
        Ok(())
    }

    fn show_text(&mut self, preview: &str, suffix: &str) -> Result<(), Failure> {
        if !self.service.composition.has_tip() {
            return Ok(());
        }
        let write = set_text(preview, suffix);
        let made = self.session(|host| {
            host.composed.live += 1;
            host.composed.shift_end_reqs.push(write.marked);
            host.composed.text = write.units.clone();
            host.composed.set_texts.push(write.units);
            host.composed.live -= 1;
        });
        made.map(|_| ()).map_err(|_| Host::refused())
    }

    fn commit_front(&mut self, committed: &str, preview: &str) -> Result<(), Failure> {
        if !self.service.composition.has_tip() {
            return Ok(());
        }
        let write = shift_start(committed, preview);
        let made = self.session(|host| {
            host.composed.live += 1;
            host.composed.shift_start_reqs.push(write.shift);
            host.composed.text = write.units.clone();
            host.composed.set_texts.push(write.units);
            host.composed.live -= 1;
        });
        made.map(|_| ()).map_err(|_| Host::refused())
    }

    fn tell_context(&mut self, shown: &str) -> Result<(), Failure> {
        let window = update_context(shown);
        let Some(document) = self.document.as_mut() else {
            return Err(Failure::new("no selection".to_string()));
        };
        document.live += 1;
        document.shift_start_reqs.push(window.start);
        document.shift_end_reqs.push(window.end);
        let read = document.get_text((window.end - window.start) as usize);
        document.live -= 1;
        let text = context_text(&read, read.len());
        self.ipc.calls.push(IpcCall::SetContext(text));
        Ok(())
    }

    fn measure(&mut self) -> Result<(), Failure> {
        let (measured, clipped, rect) = self.view.get_text_ext();
        match send_range_position(true, measured, clipped, rect) {
            Ok((_, Some(view))) => {
                self.ipc.calls.push(IpcCall::UpdateCandidateView(view));
                Ok(())
            }
            Ok((_, None)) => Ok(()),
            Err(_) => Err(Failure::new("GetTextExt".to_string())),
        }
    }

    fn tell_position(&mut self) -> Result<(), Failure> {
        let now = self.now;
        let Some(source) = self.service.update_pos(now) else {
            return Ok(());
        };
        let mut result = Ok(());
        if source == PositionSource::Composition && self.document.is_some() {
            result = self.measure();
        }
        self.service.finish_update_pos(now);
        result
    }

    fn tell_position_of_selection(&mut self) -> Result<(), Failure> {
        match self.service.update_pos_from_selection(self.has_context) {
            PositionSource::Selection => self.measure(),
            PositionSource::Composition | PositionSource::Nothing => Ok(()),
        }
    }

    fn command(&mut self, commands: Vec<WindowCommand>) {
        for command in commands {
            self.ipc.calls.push(match command {
                WindowCommand::Show => IpcCall::ShowWindow,
                WindowCommand::Hide => IpcCall::HideWindow,
                WindowCommand::Update(view) => IpcCall::UpdateCandidateView(view),
            });
        }
    }

    fn ui_begin(&mut self) -> bool {
        if let Some(known) = self.service.ui_element.known_answer() {
            return known;
        }
        let answer = self.ui.as_mut().map(|ui| ui.begin_ui_element());
        self.service.ui_element.ui_begin(answer, false)
    }

    fn ui_end(&mut self) {
        if let Some(id) = self.service.ui_element.ui_end() {
            if let Some(ui) = self.ui.as_mut() {
                ui.end_ui_element(id);
            }
        }
    }

    fn ui_update(&mut self, candidates: &Candidates, selection: i32, flags: u32) {
        if self
            .service
            .ui_element
            .ui_update(candidates.copy(), selection, flags)
            .is_some()
        {
            if let Some(ui) = self.ui.as_mut() {
                ui.update_ui_element();
            }
        }
    }

    fn update_lang_bar(&mut self) -> Result<(), Failure> {
        if !self.thread_mgr {
            return Err(Failure::new("no thread manager".to_string()));
        }
        self.langbar_removes += 1;
        self.langbar_adds += 1;
        if self.langbar_fails {
            return Err(Failure::new("AddItem".to_string()));
        }
        Ok(())
    }

    /// Writes a value that other programs see, which the service is notified
    /// of before the write returns.
    fn set_open_close(&mut self, value: i32) {
        self.open_close = Some(value);
        self.set_value_calls += 1;
        self.on_change();
    }

    fn set_conversion(&mut self, value: i32) {
        self.conversion = Some(value);
        self.set_value_calls += 1;
        self.on_change();
    }

    fn on_change(&mut self) {
        let mode = self
            .service
            .sync_input_mode_from_compartments(self.open_close, self.conversion);
        self.echoes.push(mode);
        if let Some(mode) = mode {
            let _ = self.apply_input_mode(mode, false);
        }
    }

    fn write_compartments(&mut self, mode: InputMode) -> Result<(), Failure> {
        if !self.thread_mgr {
            return Err(Failure::new("no thread manager".to_string()));
        }
        let (open_close, conversion) = self.service.publish_mode(mode);
        self.set_open_close(open_close);
        self.set_conversion(conversion);
        self.service.mode_published();
        Ok(())
    }

    fn apply_input_mode(&mut self, mode: InputMode, write: bool) -> Result<(), Failure> {
        for step in self.service.apply_input_mode(mode, write) {
            match step {
                ModeStep::UpdateLanguageBar => self.update_lang_bar()?,
                ModeStep::ShowIndicator(mode) => self
                    .ipc
                    .calls
                    .push(IpcCall::SetInputMode(mode.indicator().to_string())),
                ModeStep::Publish(mode) => self.write_compartments(mode)?,
            }
        }
        Ok(())
    }

    fn perform(&mut self, effect: Effect) -> Result<Candidates, Failure> {
        let done = match effect {
            Effect::UpdateContext(shown) => self.tell_context(&shown),
            Effect::StartComposition => self.start_composition(),
            Effect::EndComposition => self.end_composition(),
            Effect::ReleaseComposition => {
                self.service.composition.detach_tip();
                Ok(())
            }
            Effect::SetText { preview, suffix } => self.show_text(&preview, &suffix),
            Effect::ShiftStart { committed, preview } => self.commit_front(&committed, &preview),
            Effect::UpdatePos => self.tell_position(),
            Effect::OpenCandidates => {
                let show = self.ui_begin();
                self.command(open_candidate_ui(show));
                Ok(())
            }
            Effect::CloseCandidates => {
                self.ui_end();
                self.command(close_candidate_ui());
                Ok(())
            }
            Effect::Publish {
                candidates,
                selection,
                whole_list,
            } => {
                self.ui_update(&candidates, selection, updated_flags(whole_list));
                let shows = self.service.ui_should_show(false);
                if let Some(view) = publish_candidates(&candidates, selection, whole_list, shows) {
                    self.ipc.calls.push(IpcCall::UpdateCandidateView(view));
                }
                Ok(())
            }
            Effect::AppendText(text) => {
                return self.ipc.engine_answer(IpcCall::AppendText(text));
            }
            Effect::RemoveText(count) => {
                return self.ipc.engine_answer(IpcCall::RemoveText(count));
            }
            Effect::ShrinkText(offset, index) => {
                return self.ipc.engine_answer(IpcCall::ShrinkText(offset, index));
            }
            Effect::ClearText(index) => self.ipc.clear_text(index),
            Effect::NoteModeToggle => {
                self.service.note_preserved_toggle(self.now);
                Ok(())
            }
            Effect::ApplyInputMode(mode) => self.apply_input_mode(mode, true),
        };
        done.map(|_| Candidates::none())
    }

    fn run(&mut self, mut batch: Batch) -> Result<(), Failure> {
        while let Some(effect) = batch.effect() {
            let reply = self.perform(effect);
            batch.resume(reply);
        }
        batch.finish(&mut self.service.composition)
    }

    fn handle_action(
        &mut self,
        actions: Vec<ClientAction>,
        state: CompositionState,
    ) -> Result<(), Failure> {
        let batch = self.service.handle_action(actions, state);
        self.run(batch)
    }

    fn key(&self, key_code: usize, lparam: isize) -> KeyEvent {
        KeyEvent {
            key_code,
            lparam,
            has_context: true,
            input_disabled: false,
            shift: false,
            control: false,
            alt: false,
            now: self.now,
        }
    }

    /// Whether the key was taken.
    fn handle_key(&mut self, key_code: usize, lparam: isize) -> bool {
        let event = self.key(key_code, lparam);
        let typed = match key_code {
            0x41 => Some("a".to_string()),
            _ => None,
        };
        match self.service.handle_key(&event, Ok(typed)).unwrap() {
            Some(batch) => {
                self.run(batch).unwrap();
                true
            }
            None => false,
        }
    }

    fn test_key(&self, key_code: usize, lparam: isize) -> bool {
        self.service
            .test_key(&self.key(key_code, lparam), Ok(None))
            .unwrap()
    }

    /// What comes of a key that the host routes.
    fn preserved_key(&mut self, guid: u128) -> bool {
        if !self.service.is_preserved_toggle(guid) {
            return false;
        }
        if let Some(batch) = self.service.toggle_input_mode() {
            self.run(batch).unwrap();
        }
        true
    }

    fn advise_layout(&mut self, context: u32) {
        let left = self.layout.advise_text_layout_sink(context, &mut self.cookies);
        if let Some((_, Some(cookie))) = left {
            self.layout_unadvised.push(cookie);
        }
        self.next_cookie += 1;
        self.cookies.advise_sink(IID_TEXT_LAYOUT_SINK, self.next_cookie);
        self.layout_advised.push(self.next_cookie);
    }

    fn unadvise_layout(&mut self) {
        let left = self.layout.unadvise_text_layout_sink(&mut self.cookies);
        if let Some((_, Some(cookie))) = left {
            self.layout_unadvised.push(cookie);
        }
    }

    /// Activates the service, and says whether that succeeded.
    fn activate(&mut self) -> bool {
        self.thread_mgr = true;
        let mut adopted = None;
        let mut activation = Activation::begin();
        while let Some(step) = activation.step {
            let ok = match step {
                ActivationStep::AddModuleRef
                | ActivationStep::ResolveThreadManager
                | ActivationStep::RegisterDisplayAttribute
                | ActivationStep::ReleaseModuleRef => true,
                ActivationStep::RememberThread => {
                    self.tid = 1;
                    true
                }
                ActivationStep::ForgetThread => {
                    self.tid = 0;
                    true
                }
                // whether the engine answers does not matter
                ActivationStep::ConnectEngine => {
                    let _ = self.ipc.clear_text(None);
                    true
                }
                ActivationStep::AdviseKeySink => {
                    self.key_sink_advises += 1;
                    !self.refuses_key_sink
                }
                ActivationStep::PreserveKeys => {
                    for key in toggle_keys() {
                        if !self.refuses_keys {
                            self.service.note_reserved_key(key.guid, key.key);
                        }
                    }
                    !self.refuses_keys
                }
                ActivationStep::AdviseThreadManagerSink => {
                    self.next_cookie += 1;
                    self.cookies
                        .advise_sink(IID_THREAD_MGR_EVENT_SINK, self.next_cookie);
                    self.advised.push(self.next_cookie);
                    true
                }
                ActivationStep::AdviseLayoutSink => {
                    if let Some(context) = self.focus {
                        self.advise_layout(context);
                    }
                    true
                }
                ActivationStep::AddLanguageBarItem => {
                    self.langbar_adds += 1;
                    !self.langbar_fails
                }
                ActivationStep::InitCompartments => {
                    match self
                        .service
                        .init_compartments(self.open_close, self.conversion)
                    {
                        Adoption::Adopted(mode) => adopted = mode,
                        Adoption::Publish(open_close, conversion) => {
                            self.open_close = Some(open_close);
                            self.conversion = Some(conversion);
                        }
                    }
                    for guid in watched_compartments() {
                        self.next_cookie += 1;
                        self.notifying.push((guid, self.next_cookie));
                        self.compartment_sinks.advise_sink(guid, self.next_cookie);
                    }
                    true
                }
                ActivationStep::ApplyAdoptedMode => match adopted {
                    Some(mode) => self.apply_input_mode(mode, false).is_ok(),
                    None => true,
                },
            };
            activation.advance(ok);
        }
        !activation.failed
    }

    fn deactivate(&mut self) -> Result<(), Failure> {
        let mut result = Ok(());
        for step in deactivation_steps(self.thread_mgr) {
            let done = match step {
                DeactivationStep::ReleaseModuleRef => Ok(()),
                DeactivationStep::EndComposition => self.end_composition(),
                DeactivationStep::EndUiElement => {
                    self.ui_end();
                    Ok(())
                }
                DeactivationStep::ReportNoThreadManager => {
                    Err(Failure::new("no thread manager".to_string()))
                }
                DeactivationStep::UnadviseKeySink => {
                    self.key_sink_unadvises += 1;
                    Ok(())
                }
                DeactivationStep::UnpreserveKeys => {
                    self.unpreserved = self.service.take_reserved_keys();
                    Ok(())
                }
                DeactivationStep::RemoveLanguageBarItem => {
                    self.langbar_removes += 1;
                    Ok(())
                }
                DeactivationStep::UnadviseThreadManagerSink => {
                    if let Some(cookie) = self.cookies.unadvise_sink(IID_THREAD_MGR_EVENT_SINK) {
                        self.unadvised.push(cookie);
                    }
                    Ok(())
                }
                DeactivationStep::UnadviseLayoutSink => {
                    self.unadvise_layout();
                    Ok(())
                }
                DeactivationStep::UnadviseCompartmentSinks => {
                    for sink in self.compartment_sinks.unadvise_compartment_sinks() {
                        self.notifying.retain(|live| *live != sink);
                    }
                    Ok(())
                }
                DeactivationStep::ResetService => {
                    self.service.teardown_instance_state();
                    Ok(())
                }
            };
            record(&mut result, done);
        }
        result
    }

    fn set_focus(&mut self, entered: Option<u32>) -> Result<(), Failure> {
        let mut result = Ok(());
        for step in focus_steps(entered.is_some()) {
            match step {
                FocusStep::EndComposition => {
                    let batch = self.service.on_set_focus();
                    result = self.run(batch);
                }
                FocusStep::UpdateLanguageBar => {
                    let _ = self.update_lang_bar();
                }
                FocusStep::AdviseLayoutSink => {
                    if let Some(context) = entered {
                        self.advise_layout(context);
                    }
                }
            }
        }
        result
    }
}

fn scripted(texts: &[&str], hiragana: &str, counts: &[i32], surfaces: &[i32]) -> Candidates {
    Candidates {
        texts: texts.iter().map(|s| s.to_string()).collect(),
        sub_texts: texts.iter().map(|_| String::new()).collect(),
        hiragana: hiragana.to_string(),
        corresponding_count: counts.to_vec(),
        surface_count: surfaces.to_vec(),
    }
}

fn texts(list: &[&str]) -> Vec<String> {
    list.iter().map(|s| s.to_string()).collect()
}

fn blank() -> IpcCall {
    IpcCall::UpdateCandidateView(CandidateView::list(vec![]))
}

fn clears(calls: &[IpcCall]) -> bool {
    calls.iter().any(|call| matches!(call, IpcCall::ClearText(_)))
}

// --- what a batch of actions does ---

#[test]
fn append_text_applies_the_engine_answer_and_publishes_the_list() {
    let mut host = Host::answering(
        EditSessionBehavior::RunSync,
        scripted(&["水", "未"], "みず", &[4, 4], &[2, 2]),
    );
    host.set_up(CompositionState::Composing);

    host.handle_action(
        vec![ClientAction::AppendText("mi".to_string())],
        CompositionState::Composing,
    )
    .unwrap();

    let composition = &host.service.composition;
    assert_eq!(composition.preview, "水");
    assert_eq!(composition.raw_input, "mi");
    assert_eq!(composition.raw_hiragana, "みず");
    assert_eq!(composition.corresponding_count, 4);
    assert_eq!(composition.candidates.texts, vec!["水", "未"]);

    let calls = &host.ipc.calls;
    assert!(calls.contains(&IpcCall::AppendText("mi".to_string())));
    assert!(
        calls.contains(&IpcCall::UpdateCandidateView(
            CandidateView::list_and_selection(texts(&["水", "未"]), 0)
        )),
        "a CANDIDATES_CHANGED update must push the new list to the window: {calls:?}"
    );
}

#[test]
fn append_text_resets_a_selection_carried_over_from_previewing() {
    let mut host = Host::answering(
        EditSessionBehavior::RunSync,
        scripted(&["水", "未"], "みず", &[4, 4], &[2, 2]),
    );
    host.set_up(CompositionState::Previewing);
    host.service.composition.selection_index = 3;
    host.service.composition.preview = "水".to_string();

    host.handle_action(vec![ClientAction::MoveCursor(-1)], CompositionState::Composing)
        .unwrap();
    assert_eq!(
        host.service.composition.selection_index, 3,
        "precondition: the no-op arm must leave the stale index in Composing"
    );

    host.handle_action(
        vec![ClientAction::AppendText("mi".to_string())],
        CompositionState::Composing,
    )
    .unwrap();

    assert_eq!(
        host.service.composition.selection_index, 0,
        "a stale Previewing selection must not survive the next keystroke"
    );
    assert_eq!(
        host.service.composition.preview, "水",
        "the top of the fresh list must be adopted, not the stale index"
    );
    assert!(
        host.ipc.calls.contains(&IpcCall::UpdateCandidateView(
            CandidateView::list_and_selection(texts(&["水", "未"]), 0)
        )),
        "the window must be told the selection went back to the top"
    );
}

#[test]
fn remove_text_resets_the_selection_and_truncates_raw_input() {
    let mut host = Host::answering(
        EditSessionBehavior::RunSync,
        scripted(&["水"], "みず", &[4], &[2]),
    );
    host.set_up(CompositionState::Previewing);
    host.service.composition.selection_index = 3;
    host.service.composition.raw_input = "mizuu".to_string();

    host.handle_action(vec![ClientAction::RemoveText(1)], CompositionState::Composing)
        .unwrap();

    assert_eq!(
        host.service.composition.selection_index, 0,
        "a stale Previewing selection must not survive Backspace"
    );
    assert_eq!(
        host.service.composition.raw_input, "mizu",
        "raw_input must shrink to the new top candidate's corresponding count"
    );
    assert!(host.ipc.calls.contains(&IpcCall::RemoveText(1)));
}

#[test]
fn shrink_text_commits_and_returns_to_composing() {
    let mut host = Host::answering(
        EditSessionBehavior::RunSync,
        scripted(&["ん"], "ん", &[1], &[1]),
    );
    host.set_up(CompositionState::Previewing);
    host.service.composition.preview = "水".to_string();
    host.service.composition.raw_input = "mizu".to_string();
    host.service.composition.corresponding_count = 4;
    host.service.composition.surface_count = 2;

    host.handle_action(
        vec![ClientAction::ShrinkText("n".to_string())],
        CompositionState::Previewing,
    )
    .unwrap();

    assert_eq!(
        host.service.composition.state(),
        CompositionState::Composing,
        "the arm must force Composing for the fresh reading"
    );
    assert_eq!(
        host.service.composition.raw_input, "n",
        "the committed input elements must be dropped"
    );
    assert_eq!(host.service.composition.selection_index, 0);

    let calls = &host.ipc.calls;
    let shrink = calls
        .iter()
        .position(|c| matches!(c, IpcCall::ShrinkText(2, _)))
        .expect("shrink_text must be sent the committed KANA count, not the keystrokes");
    let append = calls
        .iter()
        .position(|c| *c == IpcCall::AppendText("n".to_string()))
        .expect("the new keystroke must be appended");
    assert!(
        shrink < append,
        "the server must commit BEFORE the new reading starts: {calls:?}"
    );
    assert_eq!(
        host.composed.shift_start_reqs,
        vec![1],
        "the front that is committed is the old preview"
    );
}

#[test]
fn set_selection_clamps_and_publishes_only_the_selection() {
    let mut host = Host::new(EditSessionBehavior::RunSync);
    host.set_up(CompositionState::Previewing);
    host.service.composition.candidates =
        scripted(&["a", "b", "c"], "あ", &[1, 1, 1], &[1, 1, 1]);
    host.service.composition.selection_index = 2;

    host.handle_action(
        vec![ClientAction::SetSelection(SetSelectionType::Down)],
        CompositionState::Previewing,
    )
    .unwrap();
    assert_eq!(
        host.service.composition.selection_index, 2,
        "Down must clamp at len-1"
    );

    for _ in 0..3 {
        host.handle_action(
            vec![ClientAction::SetSelection(SetSelectionType::Up)],
            CompositionState::Previewing,
        )
        .unwrap();
    }
    assert_eq!(
        host.service.composition.selection_index, 0,
        "Up must clamp at 0"
    );

    let calls = &host.ipc.calls;
    assert!(calls.contains(&IpcCall::UpdateCandidateView(CandidateView::selection(2))));
    assert!(
        !calls.iter().any(
            |c| matches!(c, IpcCall::UpdateCandidateView(view) if view.candidates.is_some())
        ),
        "SELECTION_CHANGED must not re-send the candidate list: {calls:?}"
    );

    host.service.composition.candidates = Candidates::none();
    host.service.composition.selection_index = 0;
    host.handle_action(
        vec![ClientAction::SetSelection(SetSelectionType::Down)],
        CompositionState::Previewing,
    )
    .unwrap();
    assert_eq!(host.service.composition.selection_index, 0);
}

#[test]
fn end_composition_tears_down_the_candidate_ui() {
    let mut host = Host::new(EditSessionBehavior::RunSync);
    host.set_up(CompositionState::Composing);
    host.service.composition.preview = "水".to_string();
    host.service.composition.candidates = scripted(&["水", "未"], "みず", &[4, 4], &[2, 2]);

    host.handle_action(vec![ClientAction::EndComposition], CompositionState::Idle)
        .unwrap();

    let calls = &host.ipc.calls;
    assert!(calls.contains(&IpcCall::HideWindow), "{calls:?}");
    assert!(
        calls.contains(&blank()),
        "the stale list must be blanked: {calls:?}"
    );
    assert!(
        calls.contains(&IpcCall::ClearText(Some(0))),
        "the server reading must be cleared, and learn what was confirmed: {calls:?}"
    );
    assert_eq!(host.service.composition.state(), CompositionState::Idle);
    assert!(
        host.service.composition.candidates.texts.is_empty(),
        "a finished composition must not keep its candidate list"
    );
}

#[test]
fn a_mode_switch_does_not_keep_the_candidate_list() {
    let mut host = Host::new(EditSessionBehavior::RunSync);
    host.set_up(CompositionState::Composing);
    host.service.composition.preview = "わたし".to_string();
    host.service.composition.candidates =
        scripted(&["私", "渡し"], "わたし", &[7, 7], &[3, 3]);

    let _ = host.handle_action(
        vec![ClientAction::SetIMEMode(InputMode::Kana)],
        CompositionState::Idle,
    );

    assert!(
        host.service.composition.candidates.texts.is_empty(),
        "a mode switch ends the composition, so its list is dead too"
    );
}

#[test]
fn set_ime_mode_hides_the_candidate_window() {
    let mut host = Host::new(EditSessionBehavior::RunSync);
    host.set_up(CompositionState::Composing);
    host.service.composition.preview = "わたし".to_string();

    let _ = host.handle_action(
        vec![ClientAction::SetIMEMode(InputMode::Kana)],
        CompositionState::Idle,
    );

    let calls = &host.ipc.calls;
    assert!(
        calls.contains(&IpcCall::HideWindow),
        "a mode switch must hide the candidate window: {calls:?}"
    );
    assert!(
        calls.contains(&blank()),
        "the stale list must be blanked on a mode switch: {calls:?}"
    );
}

#[test]
fn set_ime_mode_clears_the_reading_even_when_apply_input_mode_fails() {
    // without a thread manager the mode cannot be shown
    let mut host = Host::new(EditSessionBehavior::RunSync);
    host.set_up(CompositionState::Composing);
    let composition = &mut host.service.composition;
    composition.selection_index = 2;
    composition.corresponding_count = 7;
    composition.preview = "わたし".to_string();
    composition.suffix = "は".to_string();
    composition.raw_input = "watashiha".to_string();
    composition.raw_hiragana = "わたしは".to_string();

    let result = host.handle_action(
        vec![ClientAction::SetIMEMode(InputMode::Kana)],
        CompositionState::Idle,
    );
    assert!(
        result.is_err(),
        "the failure must still be surfaced, just not before the teardown"
    );

    let composition = &host.service.composition;
    assert_eq!(composition.preview, "");
    assert_eq!(composition.suffix, "");
    assert_eq!(composition.raw_input, "");
    assert_eq!(composition.raw_hiragana, "");
    assert_eq!(composition.selection_index, 0);
    assert_eq!(composition.corresponding_count, 0);
    assert!(
        clears(&host.ipc.calls),
        "the server's reading must be dropped too, or it comes back on the next key"
    );
}

#[test]
fn the_context_window_steps_back_over_the_suffix_too() {
    let mut host = Host::with_document("こんにちは");
    host.set_up(CompositionState::Composing);
    host.service.composition.preview = "水".to_string();
    host.service.composition.suffix = "うみ".to_string();

    host.handle_action(vec![ClientAction::RemoveText(1)], CompositionState::Composing)
        .unwrap();

    assert_eq!(
        host.document.as_ref().unwrap().shift_end_reqs.first(),
        Some(&-3),
        "preview + suffix is 3 UTF-16 units; the window must end before all of it"
    );
}

#[test]
fn start_composition_shows_our_window_without_a_uiless_host() {
    let mut host = Host::new(EditSessionBehavior::RunSync);

    host.handle_action(
        vec![ClientAction::StartComposition],
        CompositionState::Composing,
    )
    .unwrap();

    assert!(
        host.ipc.calls.contains(&IpcCall::ShowWindow),
        "no UILess host answered, so our own window must be shown"
    );
}

#[test]
fn set_text_with_type_syncs_the_written_back_state_with_the_screen() {
    let mut host = Host::new(EditSessionBehavior::RunSync);
    host.set_up(CompositionState::Previewing);
    let composition = &mut host.service.composition;
    composition.preview = "私".to_string();
    composition.suffix = "の".to_string();
    composition.raw_input = "watashino".to_string();
    composition.raw_hiragana = "わたしの".to_string();
    composition.corresponding_count = 7;

    host.handle_action(
        vec![ClientAction::SetTextWithType(SetTextType::Katakana)],
        CompositionState::Previewing,
    )
    .unwrap();

    let composition = &host.service.composition;
    assert_eq!(
        composition.preview, "ワタシノ",
        "the preview must be the converted text now shown on screen"
    );
    assert_eq!(
        composition.suffix, "",
        "the conversion consumed the whole reading — Enter must commit \
         and end, not take the pending-suffix path"
    );
    assert_eq!(
        composition.corresponding_count, 9,
        "all typed input elements (watashino) correspond to the shown \
         text, so a following ShrinkText must drop them all"
    );
    assert_eq!(
        host.composed.set_texts.last(),
        Some(&"ワタシノ".encode_utf16().collect())
    );
}

#[test]
fn only_converting_batches_measure_the_surrounding_text() {
    let mut host = Host::with_document("こんにちは");
    host.ipc.scripted_candidates = scripted(&["水", "見ず"], "みず", &[4, 4], &[2, 2]);
    host.set_up(CompositionState::Previewing);
    host.service.composition.preview = "水".to_string();
    host.service.composition.candidates = scripted(&["水", "見ず"], "みず", &[4, 4], &[2, 2]);

    let context_calls = |host: &Host| {
        host.ipc
            .calls
            .iter()
            .filter(|c| matches!(c, IpcCall::SetContext(_)))
            .count()
    };

    host.handle_action(
        vec![ClientAction::SetSelection(SetSelectionType::Down)],
        CompositionState::Previewing,
    )
    .unwrap();
    assert_eq!(
        context_calls(&host),
        0,
        "candidate navigation must not read the document back"
    );

    host.handle_action(vec![ClientAction::MoveCursor(-1)], CompositionState::Composing)
        .unwrap();
    assert_eq!(
        context_calls(&host),
        0,
        "the MoveCursor no-op must not either"
    );

    host.handle_action(
        vec![ClientAction::AppendText("mi".to_string())],
        CompositionState::Composing,
    )
    .unwrap();
    assert_eq!(
        context_calls(&host),
        1,
        "a conversion must be given the text it is converting after"
    );
    assert!(host
        .ipc
        .calls
        .contains(&IpcCall::SetContext("こんにちは".to_string())));
}

#[test]
fn a_rejected_keystroke_is_not_recorded_as_typed() {
    let mut host = Host::answering(
        EditSessionBehavior::RunSync,
        scripted(&["水"], "みず", &[4], &[2]),
    );
    host.ipc.engine_fails = true;
    host.set_up(CompositionState::Composing);
    host.service.composition.raw_input = "mizu".to_string();
    host.service.composition.raw_hiragana = "みず".to_string();

    let result = host.handle_action(
        vec![ClientAction::AppendText("ka".to_string())],
        CompositionState::Composing,
    );
    assert!(result.is_err(), "an engine error must still be surfaced");
    assert_eq!(
        host.service.composition.raw_input, "mizu",
        "the engine rejected the keystroke, so it was never typed as far \
         as the composition is concerned"
    );
}

#[test]
fn a_failed_commit_leaves_the_keystrokes_alone() {
    let mut host = Host::answering(
        EditSessionBehavior::RunSync,
        scripted(&["ん"], "ん", &[1], &[1]),
    );
    host.ipc.engine_fails = true;
    host.set_up(CompositionState::Previewing);
    host.service.composition.preview = "水".to_string();
    host.service.composition.raw_input = "mizu".to_string();
    host.service.composition.corresponding_count = 4;
    host.service.composition.surface_count = 2;

    let result = host.handle_action(
        vec![ClientAction::ShrinkText("n".to_string())],
        CompositionState::Previewing,
    );
    assert!(result.is_err(), "an engine error must still be surfaced");
    assert_eq!(
        host.service.composition.raw_input, "mizu",
        "ShrinkText failed, so nothing was committed and nothing was typed"
    );
}

#[test]
fn cancel_clears_client_state_even_when_the_edit_session_fails() {
    let mut host = Host::new(EditSessionBehavior::Reject);
    host.set_up(CompositionState::Composing);
    let composition = &mut host.service.composition;
    composition.preview = "わたし".to_string();
    composition.raw_input = "watashi".to_string();
    composition.raw_hiragana = "わたし".to_string();
    composition.corresponding_count = 7;

    let result = host.handle_action(vec![ClientAction::CancelComposition], CompositionState::Idle);
    assert!(
        result.is_err(),
        "a rejected edit session must still surface as an error"
    );

    let composition = &host.service.composition;
    assert_eq!(composition.state(), CompositionState::Idle);
    assert!(
        composition.raw_hiragana.is_empty()
            && composition.raw_input.is_empty()
            && composition.preview.is_empty(),
        "the reading must be gone"
    );
    assert!(!composition.has_tip(), "and so must the handle");
}

#[test]
fn a_form_that_spells_a_candidate_confirms_none() {
    let mut host = Host::new(EditSessionBehavior::RunSync);
    host.set_up(CompositionState::Previewing);
    host.service.composition.raw_hiragana = "ぱそこん".to_string();
    host.service.composition.raw_input = "pasokonn".to_string();
    host.service.composition.candidates = scripted(&["パソコン"], "ぱそこん", &[8], &[4]);

    host.handle_action(
        vec![ClientAction::SetTextWithType(SetTextType::Katakana)],
        CompositionState::Previewing,
    )
    .unwrap();
    host.handle_action(vec![ClientAction::EndComposition], CompositionState::Idle)
        .unwrap();
    assert!(host.ipc.calls.contains(&IpcCall::ClearText(None)));
}

#[test]
fn a_composition_that_the_host_ended_is_not_edited() {
    let mut host = Host::new(EditSessionBehavior::RunSync);
    host.set_up(CompositionState::Composing);
    host.service.composition.preview = "みず".to_string();
    let batch = host.service.on_composition_terminated();
    host.run(batch).unwrap();
    assert!(host.requests.is_empty(), "the document is the host's again");
    assert!(!host.service.composition.has_tip());
    assert_eq!(host.service.composition.preview, "");
    assert!(host.ipc.calls.contains(&IpcCall::ClearText(None)));
}

// --- losing the server ---

fn composing_mizu(host: &mut Host) {
    host.set_up(CompositionState::Composing);
    let composition = &mut host.service.composition;
    composition.preview = "水".to_string();
    composition.raw_input = "mizu".to_string();
    composition.raw_hiragana = "みず".to_string();
    composition.corresponding_count = 4;
}

#[test]
fn append_rebuilds_the_server_reading_when_the_server_only_stalls() {
    let mut host = Host::answering(
        EditSessionBehavior::RunSync,
        scripted(&["水"], "みず", &[4], &[2]),
    );
    host.ipc.engine_unavailable_for = 1;
    composing_mizu(&mut host);
    host.service.composition.surface_count = 2;
    host.service.composition.candidates = scripted(&["水"], "みず", &[4], &[2]);

    host.handle_action(
        vec![ClientAction::AppendText("ka".to_string())],
        CompositionState::Composing,
    )
    .expect("a recovered stall must be swallowed, not surfaced");

    let composition = &host.service.composition;
    assert_eq!(
        composition.state(),
        CompositionState::Composing,
        "a recoverable stall must not throw the composition away"
    );
    assert_eq!(
        composition.raw_input, "mizu",
        "the composition must be exactly the one the batch started with — \
         the keystroke that hit the stall is dropped, the rest survives"
    );
    assert_eq!(composition.raw_hiragana, "みず");
    assert_eq!(composition.preview, "水");
    assert!(composition.has_tip(), "the TSF composition must stay open");

    let calls = &host.ipc.calls;
    let clear = calls
        .iter()
        .position(|c| *c == IpcCall::ClearText(None))
        .expect("the rebuild must clear the server's half-applied reading first");
    let replay = calls
        .iter()
        .position(|c| *c == IpcCall::AppendText("mizu".to_string()))
        .expect("the rebuild must replay the batch-start raw_input in one call");
    assert!(
        clear < replay,
        "the reading must be re-established from scratch, not patched: {calls:?}"
    );
    assert!(
        !calls.contains(&IpcCall::HideWindow),
        "a recovered stall must leave the candidate window alone: {calls:?}"
    );
}

#[test]
fn ending_the_composition_does_not_rebuild_a_finished_reading() {
    let mut host = Host::new(EditSessionBehavior::RunSync);
    host.ipc.engine_unavailable_for = 1;
    host.set_up(CompositionState::Previewing);
    host.service.composition.preview = "水".to_string();
    host.service.composition.raw_input = "mizu".to_string();
    host.service.composition.raw_hiragana = "みず".to_string();

    host.handle_action(vec![ClientAction::EndComposition], CompositionState::Idle)
        .expect("the swallowed server loss must not surface");

    let composition = &host.service.composition;
    assert_eq!(composition.state(), CompositionState::Idle);
    assert!(
        composition.raw_input.is_empty() && composition.preview.is_empty(),
        "the finished composition must stay finished"
    );
    assert!(
        !host
            .ipc
            .calls
            .contains(&IpcCall::AppendText("mizu".to_string())),
        "the reading of a committed composition must never be replayed"
    );
}

#[test]
fn append_resets_the_composition_when_the_server_becomes_unavailable() {
    let mut host = Host::answering(
        EditSessionBehavior::RunSync,
        scripted(&["水"], "みず", &[4], &[2]),
    );
    host.ipc.engine_unavailable = true;
    composing_mizu(&mut host);

    host.handle_action(
        vec![ClientAction::AppendText("ka".to_string())],
        CompositionState::Composing,
    )
    .expect("a server-loss recovery must be swallowed, not surfaced");

    let composition = &host.service.composition;
    assert_eq!(
        composition.state(),
        CompositionState::Idle,
        "the composition must reset to None after the server was lost"
    );
    assert!(
        composition.preview.is_empty()
            && composition.suffix.is_empty()
            && composition.raw_input.is_empty()
            && composition.raw_hiragana.is_empty(),
        "the stale reading must be cleared so the next keystroke starts fresh"
    );
    assert!(
        !composition.has_tip(),
        "the TSF composition handle must be released"
    );

    let calls = &host.ipc.calls;
    assert!(
        calls.contains(&IpcCall::HideWindow),
        "the candidate window must hide on a server-loss reset: {calls:?}"
    );
    let hide = calls
        .iter()
        .position(|c| *c == IpcCall::HideWindow)
        .expect("the teardown must have run");
    assert!(
        !clears(&calls[hide..]),
        "the teardown must spend no further RPC on a pipe the rebuild \
         already found dead: {calls:?}"
    );
    assert!(
        !calls.contains(&IpcCall::AppendText("mizu".to_string())),
        "the rebuild's ClearText failed, so it must not go on to replay: {calls:?}"
    );
}

/// A call to clear the reading, made as often as the library has it made.
fn clear_text(fake: &RefCell<FakeIpc>) -> Result<(), Failure> {
    retry_idempotent(|_attempt| fake.borrow_mut().clear_text_once(None))
}

#[test]
fn an_idempotent_rpc_is_retried_exactly_once() {
    let fake = RefCell::new(FakeIpc::new(Candidates::none()));
    fake.borrow_mut().engine_unavailable_for = 1;
    clear_text(&fake).expect("the retry must carry the call through a one-call outage");
    assert_eq!(fake.borrow().calls.len(), 2);

    let fake = RefCell::new(FakeIpc::new(Candidates::none()));
    fake.borrow_mut().engine_unavailable_for = IDEMPOTENT_ATTEMPTS;
    let error = clear_text(&fake).expect_err("an outage past the attempt budget must surface");
    assert!(is_server_unavailable(&error), "{error:?}");
    assert_eq!(
        fake.borrow().engine_unavailable_for,
        0,
        "both attempts must have been spent, and no more than that"
    );
}

#[test]
fn the_stand_in_has_its_own_clearing_made_again() {
    let mut fake = FakeIpc::new(Candidates::none());
    fake.engine_unavailable_for = 1;
    assert!(fake.clear_text(None).is_ok());
    assert_eq!(fake.calls.len(), 2);

    fake.engine_unavailable_for = 3;
    assert!(fake.clear_text(None).is_err());
    assert_eq!(fake.engine_unavailable_for, 1);
}

#[test]
fn a_retry_ends_with_the_outcome_of_the_attempt_that_counts() {
    let attempts = RefCell::new(Vec::new());
    let outcome: Result<u32, Failure> = retry_idempotent(|attempt| {
        attempts.borrow_mut().push(attempt);
        if attempt == 1 {
            Err(Failure::unavailable())
        } else {
            Err(Failure::new("rejected".to_string()))
        }
    });
    assert!(!is_server_unavailable(&outcome.unwrap_err()));
    assert_eq!(*attempts.borrow(), vec![1, 2]);

    let attempts = RefCell::new(Vec::new());
    let outcome: Result<u32, Failure> = retry_idempotent(|attempt| {
        attempts.borrow_mut().push(attempt);
        Err(Failure::new("rejected".to_string()))
    });
    assert!(outcome.is_err());
    assert_eq!(*attempts.borrow(), vec![1], "a rejection is an answer");

    let outcome = retry_idempotent(|attempt| Ok::<u32, Failure>(attempt));
    assert_eq!(outcome.unwrap(), 1);
}

#[test]
fn the_stand_in_says_how_the_engine_fails() {
    let said = |result: Result<(), Failure>| -> Vec<String> {
        result
            .unwrap_err()
            .causes
            .into_iter()
            .map(|cause| match cause {
                Cause::Unavailable(tag) => tag.message().to_string(),
                Cause::Message(text) => text,
            })
            .collect()
    };
    let lost = "azookey server is unavailable";
    let mut fake = FakeIpc::new(Candidates::none());
    fake.engine_fails = true;
    assert_eq!(said(fake.engine_outage()), vec!["fake engine is down"]);
    fake.engine_unavailable = true;
    assert_eq!(said(fake.engine_outage()), vec![lost, "fake server unavailable"]);
    fake.engine_unavailable_for = 1;
    assert_eq!(said(fake.engine_outage()), vec![lost, "fake server is stalled"]);
    assert_eq!(fake.engine_unavailable_for, 0);
}

#[test]
fn the_layout_is_asked_only_for_a_key_that_goes_by_its_text() {
    let mut host = Host::new(EditSessionBehavior::RunSync);
    let letter = host.key(0x41, 0);
    assert!(host.service.asks_layout(&letter));
    assert!(!host.service.asks_layout(&host.key(VK_BACK_W, keydown(1, false))));
    assert!(!host.service.asks_layout(&host.key(VK_KANJI as usize, 0)));
    let chord = KeyEvent { control: true, ..letter };
    assert!(!host.service.asks_layout(&chord));
    let off = KeyEvent { input_disabled: true, ..letter };
    assert!(!host.service.asks_layout(&off));

    let unreadable = || Err(Failure::new("no layout".to_string()));
    assert!(!host.service.test_key(&chord, unreadable()).unwrap());
    assert!(host.service.handle_key(&off, unreadable()).unwrap().is_none());
    assert!(host.service.test_key(&letter, unreadable()).is_err());
}

#[test]
fn without_the_keys_an_activation_forgets_the_thread() {
    let mut host = Host::new(EditSessionBehavior::RunSync);
    host.refuses_key_sink = true;
    assert!(!host.activate());
    assert_eq!(host.tid, 0);
    assert!(host.notifying.is_empty());
}

// --- keys ---

fn keydown(count: u32, held: bool) -> isize {
    (count | if held { 1 << 30 } else { 0 }) as isize
}

/// Puts the host into a live composition whose reading is `reading`.
fn compose(host: &mut Host, reading: &str) {
    host.set_up(CompositionState::Composing);
    host.service.composition.raw_hiragana = reading.to_string();
    host.service.composition.raw_input = reading.to_string();
}

const VK_BACK_W: usize = 0x08;

#[test]
fn a_held_backspace_removes_the_whole_batch_in_one_call() {
    let mut host = Host::answering(
        EditSessionBehavior::RunSync,
        scripted(&["みず"], "みず", &[2], &[2]),
    );
    compose(&mut host, "みずうみあ");

    assert!(
        host.handle_key(VK_BACK_W, keydown(3, true)),
        "the composition owns Backspace"
    );

    let removals: Vec<_> = host
        .ipc
        .calls
        .iter()
        .filter(|call| matches!(call, IpcCall::RemoveText(_)))
        .collect();
    assert_eq!(
        removals,
        vec![&IpcCall::RemoveText(3)],
        "three presses must be one call for three kana, not three calls"
    );
    assert_eq!(
        host.service.composition.state(),
        CompositionState::Composing
    );
}

#[test]
fn the_tail_of_a_held_backspace_is_eaten_once_the_composition_ends() {
    let mut host = Host::answering(
        EditSessionBehavior::RunSync,
        scripted(&[""], "", &[0], &[0]),
    );
    compose(&mut host, "あ");

    host.handle_key(VK_BACK_W, keydown(1, true));
    assert_eq!(
        host.service.composition.state(),
        CompositionState::Idle,
        "precondition: the last kana ends the composition"
    );

    let before = host.ipc.calls.len();
    for _ in 0..3 {
        assert!(
            host.handle_key(VK_BACK_W, keydown(1, true)),
            "the repeat must be eaten, not handed to the host"
        );
    }
    assert_eq!(
        host.ipc.calls.len(),
        before,
        "an eaten repeat must issue no RPC at all"
    );
}

#[test]
fn a_fresh_backspace_press_reaches_the_host_and_disarms_the_guard() {
    let mut host = Host::answering(
        EditSessionBehavior::RunSync,
        scripted(&[""], "", &[0], &[0]),
    );
    compose(&mut host, "あ");
    host.handle_key(VK_BACK_W, keydown(1, true));

    assert!(
        !host.handle_key(VK_BACK_W, keydown(1, false)),
        "a fresh press outside a composition belongs to the host"
    );
    assert!(
        !host.handle_key(VK_BACK_W, keydown(1, true)),
        "and its own autorepeat must follow it, the guard being disarmed"
    );
}

#[test]
fn another_key_disarms_the_guard() {
    let mut host = Host::answering(
        EditSessionBehavior::RunSync,
        scripted(&["あ"], "あ", &[1], &[1]),
    );
    compose(&mut host, "あ");
    host.handle_key(VK_BACK_W, keydown(1, true));
    host.handle_key(0x41, keydown(1, false));

    assert!(
        !host.service.discard_backspace_repeat,
        "the guard belongs to the Backspace that armed it, not to the session"
    );
}

#[test]
fn releasing_backspace_disarms_the_guard() {
    let mut host = Host::answering(
        EditSessionBehavior::RunSync,
        scripted(&[""], "", &[0], &[0]),
    );
    compose(&mut host, "あ");
    host.handle_key(VK_BACK_W, keydown(1, true));
    assert!(
        host.service.discard_backspace_repeat,
        "precondition: ending the composition arms the guard"
    );

    host.service.note_key_up(VK_BACK_W);
    assert!(!host.service.discard_backspace_repeat);
}

#[test]
fn testing_a_discarded_repeat_changes_nothing() {
    let mut host = Host::answering(
        EditSessionBehavior::RunSync,
        scripted(&[""], "", &[0], &[0]),
    );
    compose(&mut host, "あ");
    host.handle_key(VK_BACK_W, keydown(1, true));

    let before = host.ipc.calls.len();
    assert!(
        host.test_key(VK_BACK_W, keydown(1, true)),
        "the probe must agree with what OnKeyDown will do"
    );
    assert!(
        host.service.discard_backspace_repeat,
        "a probe must not disarm the guard"
    );
    assert_eq!(host.ipc.calls.len(), before, "and must not act");
}

#[test]
fn a_password_field_takes_no_keys() {
    let mut host = Host::new(EditSessionBehavior::RunSync);
    host.service.input_mode = InputMode::Kana;
    let mut event = host.key(0x41, keydown(1, false));
    assert!(host
        .service
        .test_key(&event, Ok(Some("a".to_string())))
        .unwrap());
    event.input_disabled = true;
    assert!(!host
        .service
        .test_key(&event, Ok(Some("a".to_string())))
        .unwrap());
    event.input_disabled = false;
    event.has_context = false;
    assert!(!host
        .service
        .test_key(&event, Ok(Some("a".to_string())))
        .unwrap());
}

#[test]
fn typing_converting_and_confirming_a_word() {
    let mut host = Host::with_document("");
    host.ipc.scripted_candidates = scripted(&["水", "みず"], "みず", &[4, 4], &[2, 2]);
    host.service.input_mode = InputMode::Kana;

    assert!(host.handle_key(0x41, keydown(1, false)));
    assert_eq!(
        host.service.composition.state(),
        CompositionState::Composing
    );
    assert!(host.service.composition.has_tip());
    // space, and then the next candidate
    assert!(host.handle_key(0x20, keydown(1, false)));
    assert_eq!(
        host.service.composition.state(),
        CompositionState::Previewing
    );
    assert_eq!(host.service.composition.preview, "みず");
    // enter
    assert!(host.handle_key(0x0D, keydown(1, false)));
    assert_eq!(host.service.composition.state(), CompositionState::Idle);
    assert!(host.ipc.calls.contains(&IpcCall::ClearText(Some(1))));
    assert_eq!(
        host.composed.set_texts.last(),
        Some(&"みず".encode_utf16().collect())
    );
}

// --- edits of the document ---

#[test]
fn deferred_edit_session_yields_no_result() {
    let mut host = Host::new(EditSessionBehavior::Async);
    let result = host.session(|_| ());
    assert!(
        matches!(result, Ok(None)),
        "a deferred session should yield Ok(None), got {result:?}"
    );
    let mut host = Host::new(EditSessionBehavior::DenyViaSessionResult);
    assert!(matches!(host.session(|_| ()), Ok(None)));
}

#[test]
fn edit_session_is_not_forced_synchronous() {
    let mut host = Host::new(EditSessionBehavior::RunSync);
    let _ = host.session(|_| ());
    assert_eq!(
        host.requests.len(),
        1,
        "exactly one session should be requested"
    );
    assert_eq!(
        host.requests[0], ES_READWRITE,
        "the session must be requested read/write only, not synchronous"
    );
}

#[test]
fn update_pos_measures_the_composition_via_the_active_view() {
    let mut host = Host::with_document("");
    host.set_up(CompositionState::Composing);

    host.tell_position().unwrap();

    assert_eq!(
        host.view.get_text_ext_calls, 1,
        "the composition rect must be measured on the active view"
    );
    assert_eq!(
        host.composed.live_ranges(),
        0,
        "no range may leak from update_pos"
    );
    assert_eq!(
        host.ipc.calls,
        vec![IpcCall::UpdateCandidateView(CandidateView::at(
            20, 10, 44, 110
        ))]
    );
}

#[test]
fn the_caret_position_comes_from_the_selection_without_a_composition() {
    let mut host = Host::with_document("");
    host.tell_position_of_selection().unwrap();
    assert_eq!(
        host.view.get_text_ext_calls, 1,
        "the selection must be measured on the active view"
    );
    assert_eq!(
        host.document.as_ref().unwrap().live_ranges(),
        0,
        "the range GetSelection handed out must be released"
    );
}

#[test]
fn the_selection_is_not_measured_while_composing() {
    let mut host = Host::with_document("");
    host.set_up(CompositionState::Composing);
    host.tell_position_of_selection().unwrap();
    assert_eq!(
        host.view.get_text_ext_calls, 0,
        "update_pos already anchors to the composition while it is live"
    );
}

#[test]
fn no_context_is_not_a_failure_for_the_caret_position() {
    let mut host = Host::new(EditSessionBehavior::RunSync);
    host.has_context = false;
    host.tell_position_of_selection()
        .expect("a missing context is a skip, not an error");
    assert_eq!(host.view.get_text_ext_calls, 0);
}

#[test]
fn update_pos_leaks_no_range_when_layout_is_pending() {
    let mut host = Host::with_document("");
    host.set_up(CompositionState::Composing);
    host.view.text_ext_behavior = TextExtBehavior::NoLayout;

    host.tell_position().unwrap();

    assert_eq!(
        host.view.get_text_ext_calls, 1,
        "the view must still be measured; NOLAYOUT is the answer, not a skip"
    );
    assert_eq!(
        host.composed.live_ranges(),
        0,
        "a NOLAYOUT answer must not leak the measured range"
    );
    assert!(host.ipc.calls.is_empty(), "and tells the window nothing");
}

#[test]
fn successful_edit_session_returns_the_value() {
    let mut host = Host::new(EditSessionBehavior::RunSync);
    let result = host.session(|_| FAKE_COOKIE);
    assert_eq!(
        result.unwrap(),
        Some(FAKE_COOKIE),
        "the callback's value should reach the caller"
    );
}

#[test]
fn edit_session_succeeds_on_a_host_that_rejects_sync() {
    let mut host = Host::new(EditSessionBehavior::RejectSyncRequests);
    let result = host.session(|_| FAKE_COOKIE);
    assert_eq!(
        result.unwrap(),
        Some(FAKE_COOKIE),
        "a host that only rejects TF_ES_SYNC should still run the session"
    );
    assert_eq!(
        EditSessionBehavior::RejectSyncRequests.request_edit_session(7),
        SessionAnswer::Refused
    );
}

#[test]
fn start_composition_recovers_from_a_stale_composition() {
    let mut host = Host::new(EditSessionBehavior::RunSync);
    host.set_up(CompositionState::Composing);
    let stale = host.service.composition.tip().copied();
    let result = host.start_composition();
    assert!(
        result.is_ok(),
        "the stale-composition recovery path must not fail: {result:?}"
    );
    assert!(
        host.service.composition.has_tip(),
        "recovery must leave a fresh live composition, not return early \
         with none (which made the next set_text a silent no-op)"
    );
    assert_ne!(host.service.composition.tip().copied(), stale);
}

#[test]
fn end_composition_drops_the_composition_even_when_the_session_fails() {
    let mut host = Host::new(EditSessionBehavior::Reject);
    host.set_up(CompositionState::Composing);
    let _ = host.end_composition();
    assert!(
        !host.service.composition.has_tip(),
        "the client must let go of a composition it cannot end"
    );
}

#[test]
fn shift_start_measures_utf16_code_units() {
    let mut host = Host::new(EditSessionBehavior::RunSync);
    host.set_up(CompositionState::Composing);
    host.commit_front("\u{20BB7}", "a").expect("shift_start failed");
    assert_eq!(
        host.composed.shift_start_reqs,
        vec![2],
        "U+20BB7 is two UTF-16 code units"
    );
    assert_eq!(host.composed.set_texts, vec![vec![0x61]]);
}

#[test]
fn set_text_measures_utf16_code_units() {
    let mut host = Host::new(EditSessionBehavior::RunSync);
    host.set_up(CompositionState::Composing);
    host.show_text("\u{20BB7}", "").expect("set_text failed");
    assert_eq!(host.composed.shift_end_reqs, vec![2]);
    assert_eq!(host.composed.set_texts, vec![vec![0xD842, 0xDFB7]]);
}

#[test]
fn end_composition_preserves_text_longer_than_1024_units() {
    let mut host = Host::new(EditSessionBehavior::RunSync);
    host.set_up(CompositionState::Composing);
    let long: Vec<u16> = "あ".repeat(3000).encode_utf16().collect();
    host.composed.text = long.clone();

    host.end_composition().expect("end_composition failed");

    assert_eq!(
        host.composed
            .set_texts
            .last()
            .expect("SetText was never called"),
        &long,
        "the full composition text must reach SetText"
    );
    assert_eq!(
        host.composed.live_ranges(),
        0,
        "every retry clone must be released"
    );
}

#[test]
fn end_composition_handles_exactly_1024_units() {
    let mut host = Host::new(EditSessionBehavior::RunSync);
    host.set_up(CompositionState::Composing);
    let text: Vec<u16> = vec!['a' as u16; 1024];
    host.composed.text = text.clone();

    host.end_composition().expect("end_composition failed");

    assert_eq!(
        host.composed
            .set_texts
            .last()
            .expect("SetText was never called"),
        &text
    );
    assert_eq!(host.composed.live_ranges(), 0);
}

#[test]
fn update_context_shifts_by_utf16_units_and_releases_the_ranges() {
    let mut host = Host::with_document("こんにちは");

    // 𠮷 is one char but two UTF-16 units — the difference that matters
    host.tell_context("みず𠮷").unwrap();

    let log = host.document.as_ref().unwrap();
    assert_eq!(
        log.shift_start_reqs.last(),
        Some(&-34),
        "the start must clear the composed text (4 units) and then open the 30-unit window"
    );
    assert_eq!(
        log.shift_end_reqs.last(),
        Some(&-4),
        "ShiftEnd must retreat by the composed text's UTF-16 length (みず𠮷 = 4)"
    );
    assert_eq!(
        log.live_ranges(),
        0,
        "every range the host handed out must be released"
    );
}

#[test]
fn a_long_composition_must_not_invert_the_context_window() {
    let mut host = Host::with_document("こんにちは");
    host.tell_context(&"あ".repeat(35)).unwrap();

    let log = host.document.as_ref().unwrap();
    let start = *log.shift_start_reqs.last().unwrap();
    let end = *log.shift_end_reqs.last().unwrap();
    assert_eq!(start, -65);
    assert_eq!(end, -35);
    assert_eq!(
        end - start,
        30,
        "the window must stay 30 units wide however long the composition gets"
    );
}

// --- the mode that the system keeps ---

#[test]
fn a_disabled_context_disables_input() {
    assert!(
        is_input_disabled(true, Some(1), None, None),
        "a context with KEYBOARD_DISABLED must disable input"
    );
}

#[test]
fn an_empty_context_disables_input() {
    assert!(is_input_disabled(true, None, Some(1), None));
}

#[test]
fn an_ordinary_context_leaves_input_enabled() {
    assert!(
        !is_input_disabled(true, None, None, None),
        "an editable context must not be treated as disabled"
    );
    assert!(!is_input_disabled(true, Some(0), Some(0), Some(0)));
    assert!(!is_input_disabled(false, Some(1), Some(1), Some(1)));
    assert!(is_input_disabled(true, None, None, Some(1)));
}

#[test]
fn activate_adopts_an_existing_compartment_mode() {
    let mut host = Host::new(EditSessionBehavior::RunSync);
    host.open_close = Some(1);
    host.conversion = Some(CONVERSION_KANA);
    assert!(host.activate());
    assert_eq!(
        host.service.input_mode,
        InputMode::Kana,
        "Activate must adopt the mode the OS already held"
    );
}

#[test]
fn activate_adopts_an_open_ime_with_no_conversion_mode() {
    let mut host = Host::new(EditSessionBehavior::RunSync);
    host.open_close = Some(1);
    assert!(host.activate());
    assert_eq!(
        host.service.input_mode,
        InputMode::Kana,
        "an open IME must not be read as Latin just because nobody \
         wrote a conversion mode"
    );
}

#[test]
fn activate_publishes_a_default_when_the_compartment_is_unset() {
    let mut host = Host::new(EditSessionBehavior::RunSync);
    assert!(host.activate());
    assert_eq!(
        host.open_close,
        Some(0),
        "the default (Latin) must be published to the OS"
    );
}

#[test]
fn deactivate_releases_every_compartment_sink() {
    let mut host = Host::new(EditSessionBehavior::RunSync);
    assert!(host.activate());
    assert!(
        !host.notifying.is_empty(),
        "Activate must advise compartment sinks"
    );
    assert_eq!(host.notifying.len(), 3);
    host.deactivate().expect("Deactivate must succeed");
    assert_eq!(
        host.notifying.len(),
        0,
        "Deactivate must unadvise every compartment sink it advised"
    );
}

#[test]
fn an_external_mode_change_reaches_the_input_mode() {
    let mut host = Host::new(EditSessionBehavior::RunSync);
    assert!(host.activate());
    assert_eq!(host.service.input_mode, InputMode::Latin);

    host.set_conversion(CONVERSION_KANA);
    host.set_open_close(1);

    assert_eq!(
        host.service.input_mode,
        InputMode::Kana,
        "an OS-side mode change must be adopted"
    );
}

#[test]
fn writing_the_mode_survives_the_synchronous_on_change() {
    let mut host = Host::new(EditSessionBehavior::RunSync);
    assert!(host.activate());
    host.write_compartments(InputMode::Kana)
        .expect("writing the mode must not deadlock or fail on the re-entrant OnChange");
    assert_eq!(host.open_close, Some(1));
    assert_eq!(host.conversion, Some(CONVERSION_KANA));
    assert!(host.echoes.iter().all(|mode| mode.is_none()));
}

#[test]
fn our_own_write_does_not_echo_back() {
    let mut host = Host::new(EditSessionBehavior::RunSync);
    assert!(host.activate());
    let before = host.set_value_calls;
    host.write_compartments(InputMode::Kana).unwrap();
    let writes = host.set_value_calls - before;
    assert_eq!(
        writes, 2,
        "exactly one open/close and one conversion write; more means the \
         OnChange echo wrote again"
    );
}

// --- the keys that switch the mode ---

#[test]
fn activate_reserves_the_toggle_keys_and_deactivate_releases_them() {
    let mut host = Host::new(EditSessionBehavior::RunSync);
    assert!(host.activate());

    let reserved = host.service.preserved_keys.clone();
    assert_eq!(
        reserved.len(),
        toggle_keys().len(),
        "Activate must reserve every IME on/off key: {reserved:?}"
    );
    assert!(
        reserved
            .iter()
            .any(|(_, key)| key.vk == VK_OEM_3 && key.modifiers == MOD_ALT),
        "Alt+` is the US-layout on/off chord"
    );

    host.deactivate().expect("Deactivate must succeed");
    assert_eq!(
        host.unpreserved, reserved,
        "Deactivate must unpreserve exactly what Activate reserved"
    );
}

#[test]
fn a_preserved_key_toggles_the_input_mode() {
    let mut host = Host::new(EditSessionBehavior::RunSync);
    assert!(host.activate());
    assert_eq!(host.service.input_mode, InputMode::Latin);

    assert!(
        host.preserved_key(GUID_PRESERVEDKEY_TOGGLE_ALT_GRAVE),
        "our own preserved key must be eaten"
    );
    assert_eq!(
        host.service.input_mode,
        InputMode::Kana,
        "the reserved key must toggle the input mode"
    );
}

#[test]
fn an_unknown_preserved_key_is_handed_back() {
    let mut host = Host::new(EditSessionBehavior::RunSync);
    assert!(host.activate());

    let stranger: u128 = 0x0badf00d_0000_0000_0000_000000000001;
    assert!(
        !host.preserved_key(stranger),
        "a key we never reserved belongs to somebody else"
    );
    assert_eq!(
        host.service.input_mode,
        InputMode::Latin,
        "and it must not have changed anything"
    );
}

#[test]
fn a_raw_toggle_vk_is_handled_even_when_the_reservation_was_accepted() {
    let mut host = Host::new(EditSessionBehavior::RunSync);
    assert!(host.activate());
    assert!(
        !host.service.preserved_keys.is_empty(),
        "this host accepts the reservations"
    );
    assert!(
        host.test_key(0xF3, keydown(1, false)),
        "the raw VK must still be handled — its arrival proves TSF did \
         not route it as a preserved key"
    );
}

#[test]
fn a_raw_toggle_right_after_a_preserved_one_is_ignored() {
    let mut host = Host::new(EditSessionBehavior::RunSync);
    assert!(host.activate());
    host.service.note_preserved_toggle(host.now);

    assert!(
        host.service.raw_toggle_is_duplicate(host.now),
        "the raw VK arriving with the preserved dispatch is one press"
    );
    assert!(
        !host.test_key(0xF3, keydown(1, false)),
        "so it must not toggle a second time"
    );
}

#[test]
fn the_double_delivery_window_expires() {
    let mut host = Host::new(EditSessionBehavior::RunSync);
    assert!(host.activate());
    host.service.last_mode_toggle = Some(host.now - DOUBLE_DELIVERY_WINDOW * 2);

    assert!(
        !host.service.raw_toggle_is_duplicate(host.now),
        "a press long after the last preserved toggle is a new press"
    );
}

#[test]
fn the_raw_vk_still_toggles_when_the_reservation_fails() {
    let mut host = Host::new(EditSessionBehavior::RunSync);
    host.refuses_keys = true;
    assert!(host.activate());
    assert!(
        host.service.preserved_keys.is_empty(),
        "only reservations that took may be recorded"
    );
    assert!(
        host.test_key(0xF3, keydown(1, false)),
        "without a reservation the raw Zenkaku/Hankaku VK must still toggle"
    );
}

fn toggle_table() -> Vec<(u32, u32)> {
    toggle_keys()
        .iter()
        .map(|key| (key.key.vk, key.key.modifiers))
        .collect()
}

#[test]
fn the_reservation_table_covers_both_layouts() {
    let vks = toggle_table();
    assert!(vks.contains(&(0xF3, 0)), "JIS 半角/全角");
    assert!(vks.contains(&(0xF4, 0)), "JIS 半角/全角 (the other VK)");
    assert!(vks.contains(&(VK_KANJI, 0)), "JIS 漢字");
    assert!(vks.contains(&(VK_OEM_3, MOD_ALT)), "US Alt+`");
}

#[test]
fn alt_grave_is_reserved_as_alt_plus_vk_kanji() {
    let vks = toggle_table();
    assert!(
        vks.contains(&(VK_KANJI, MOD_ALT)),
        "Alt+` arrives as Alt+VK_KANJI on a 101-key layout: {vks:x?}"
    );
}

#[test]
fn both_kanji_reservations_match_their_own_modifier_state() {
    let kanji: Vec<u32> = toggle_table()
        .into_iter()
        .filter(|(vk, _)| *vk == VK_KANJI)
        .map(|(_, modifiers)| modifiers)
        .collect();
    assert_eq!(kanji.len(), 2, "plain 漢字 and Alt+`");
    assert_eq!(kanji[0], 0, "the bare 漢字 key");
    assert_eq!(kanji[1], MOD_ALT, "Alt+` after Windows' translation");
}

#[test]
fn the_reservation_table_uses_one_guid_per_purpose() {
    let mut guids: Vec<u128> = toggle_keys().iter().map(|key| key.guid).collect();
    assert_eq!(guids[0], guids[1], "both zenkaku VKs share one GUID");
    guids.sort_unstable();
    guids.dedup();
    assert_eq!(guids.len(), 3);
}

// --- activation, deactivation and the focus ---

#[test]
fn deactivating_one_tip_does_not_disturb_anothers_cookie() {
    let mut a = Host::new(EditSessionBehavior::RunSync);
    let mut b = Host::new(EditSessionBehavior::RunSync);
    a.next_cookie = 100;
    b.next_cookie = 200;
    assert!(a.activate());
    assert!(b.activate());

    a.deactivate().expect("Deactivate A must succeed");
    assert_eq!(
        a.unadvised, a.advised,
        "A must unadvise exactly the cookie its own thread manager issued, \
         not one belonging to another instance"
    );

    b.deactivate().expect("Deactivate B must succeed");
    assert_eq!(
        b.unadvised, b.advised,
        "B's cookie must survive A's lifecycle and be unadvised on B"
    );
}

#[test]
fn activate_succeeds_when_the_server_is_unreachable() {
    let mut host = Host::new(EditSessionBehavior::RunSync);
    host.ipc.engine_unavailable = true;
    assert!(host.activate());
    assert_eq!(
        host.key_sink_advises, 1,
        "Activate should advise exactly one live key-event sink"
    );
    assert!(
        !host.ipc.calls.is_empty(),
        "the IPC service should be installed even though its warm-up RPC fails"
    );
}

#[test]
fn activate_deactivate_activate_cycle_succeeds() {
    let mut host = Host::new(EditSessionBehavior::RunSync);
    assert!(host.activate());
    host.deactivate().expect("Deactivate must succeed");
    assert!(host.activate(), "re-Activate must succeed");
    assert_eq!(
        host.key_sink_advises, 2,
        "both activations must advise a live key-event sink"
    );
}

#[test]
fn deactivate_unadvises_what_activate_advised() {
    let mut host = Host::new(EditSessionBehavior::RunSync);
    assert!(host.activate());
    assert_eq!(host.langbar_adds, 1, "Activate adds one langbar item");
    assert_eq!(host.advised.len(), 1, "Activate advises one thread-mgr sink");

    host.deactivate().expect("Deactivate must succeed");
    assert_eq!(host.key_sink_unadvises, 1, "the key sink is unadvised");
    assert_eq!(host.langbar_removes, 1, "the langbar item is removed");
    assert_eq!(
        host.unadvised, host.advised,
        "Deactivate must unadvise exactly the cookie Activate advised"
    );
}

#[test]
fn activate_advises_the_layout_sink_when_a_document_has_focus() {
    let mut host = Host::new(EditSessionBehavior::RunSync);
    host.focus = Some(7);
    assert!(host.activate());
    let advised = host.layout_advised.clone();
    assert_eq!(
        advised.len(),
        1,
        "Activate advises the layout sink on the focused document's context"
    );
    assert_eq!(host.layout.context, Some(7));

    host.deactivate().expect("Deactivate must succeed");
    assert_eq!(
        host.layout_unadvised, advised,
        "Deactivate must unadvise exactly the layout-sink cookie it advised"
    );
}

#[test]
fn a_failing_langbar_keeps_the_key_sink_and_activation_succeeds() {
    let mut host = Host::new(EditSessionBehavior::RunSync);
    host.langbar_fails = true;
    assert!(
        host.activate(),
        "a failing langbar is advisory — Activate must still succeed so \
         the key sink stays live and typing works"
    );
    assert_eq!(
        host.key_sink_advises, 1,
        "the key-event sink must be advised"
    );
    assert_eq!(
        host.key_sink_unadvises, 0,
        "the key-event sink must NOT be unadvised when only the langbar \
         fails (unadvising it is what stopped conversion)"
    );
    assert_eq!(
        host.tid, 1,
        "a successful (advisory-degraded) Activate keeps the tid"
    );
    host.deactivate().expect("Deactivate must succeed");
}

#[test]
fn deactivate_resets_the_engine_composition() {
    let mut host = Host::new(EditSessionBehavior::RunSync);
    assert!(host.activate());
    host.set_up(CompositionState::Composing);
    host.service.composition.raw_hiragana = "わたし".to_string();
    host.service.composition.preview = "わたし".to_string();

    host.deactivate().expect("Deactivate must succeed");

    assert_eq!(
        host.service.composition.state(),
        CompositionState::Idle,
        "the composition state must be reset on Deactivate"
    );
    assert!(
        host.service.composition.raw_hiragana.is_empty()
            && host.service.composition.preview.is_empty(),
        "the leftover reading must be cleared so a re-Activate starts clean"
    );
}

#[test]
fn the_first_failure_of_a_teardown_is_reported() {
    let mut host = Host::new(EditSessionBehavior::RunSync);
    let failure = host
        .deactivate()
        .expect_err("there is no thread manager to give anything back to");
    assert_eq!(failure.causes.len(), 1);
}

#[test]
fn activation_gives_up_without_the_keys() {
    let mut activation = Activation::begin();
    let mut steps = Vec::new();
    while let Some(step) = activation.step {
        steps.push(step);
        activation.advance(step != ActivationStep::AdviseKeySink);
    }
    assert!(activation.failed);
    assert_eq!(
        &steps[4..],
        &[
            ActivationStep::AdviseKeySink,
            ActivationStep::ForgetThread,
            ActivationStep::ReleaseModuleRef
        ]
    );
}

#[test]
fn advising_twice_unadvises_the_first_cookie_first() {
    let mut host = Host::new(EditSessionBehavior::RunSync);
    host.advise_layout(1);
    let first = host.layout_advised.clone();
    assert_eq!(first.len(), 1);

    host.advise_layout(1);
    assert_eq!(host.layout_advised.len(), 2, "the new sink is advised");
    assert_eq!(
        host.layout_unadvised, first,
        "and the old cookie was handed back, exactly once"
    );
}

#[test]
fn unadvising_twice_only_talks_to_the_host_once() {
    let mut host = Host::new(EditSessionBehavior::RunSync);
    host.advise_layout(1);
    host.unadvise_layout();
    assert!(host.layout.context.is_none());
    host.unadvise_layout();
    assert_eq!(host.layout_unadvised.len(), 1);
}

#[test]
fn readvising_after_an_unadvise_does_not_release_anything() {
    let mut host = Host::new(EditSessionBehavior::RunSync);
    host.advise_layout(1);
    host.unadvise_layout();
    host.advise_layout(1);
    assert_eq!(host.layout_advised.len(), 2);
    assert_eq!(
        host.layout_unadvised.len(),
        1,
        "only the explicit unadvise, not one from the re-advise"
    );
}

fn host_for_focus(behavior: EditSessionBehavior, langbar_fails: bool) -> Host {
    let mut host = Host::new(behavior);
    host.thread_mgr = true;
    host.langbar_fails = langbar_fails;
    host.set_up(CompositionState::Composing);
    host.service.composition.preview = "みず".to_string();
    host
}

#[test]
fn a_failing_langbar_does_not_skip_the_composition_teardown() {
    let mut host = host_for_focus(EditSessionBehavior::RunSync, true);
    let result = host.set_focus(None);

    assert!(host.langbar_adds > 0, "the langbar update was tried");
    assert!(result.is_ok(), "a cosmetic failure must not break input");
    let calls = &host.ipc.calls;
    assert!(
        calls.contains(&IpcCall::HideWindow) && clears(calls),
        "the composition must have been torn down anyway: {calls:?}"
    );
}

#[test]
fn the_layout_sink_is_readvised_on_the_newly_focused_document() {
    let mut host = host_for_focus(EditSessionBehavior::RunSync, false);
    host.set_focus(Some(9)).unwrap();

    assert_eq!(
        host.layout_advised.len(),
        1,
        "the new document's context must be advised"
    );
    assert!(host.ipc.calls.contains(&IpcCall::HideWindow));
}

#[test]
fn a_failed_teardown_is_reported_but_only_after_the_rewiring_ran() {
    let mut host = host_for_focus(EditSessionBehavior::Reject, false);
    let result = host.set_focus(Some(9));

    assert!(result.is_err(), "the teardown failure must surface");
    assert!(host.langbar_adds > 0, "the langbar still refreshed");
    assert_eq!(
        host.layout_advised.len(),
        1,
        "and the layout sink was still advised"
    );
}

// --- the candidate list as the host sees it ---

fn candidates(list: &[&str]) -> Candidates {
    Candidates {
        texts: texts(list),
        ..Candidates::none()
    }
}

fn host_with_ui(ui: UiElementLog) -> Host {
    let mut host = Host::new(EditSessionBehavior::RunSync);
    host.ui = Some(ui);
    assert!(host.activate());
    host
}

#[test]
fn a_permissive_host_lets_us_show_our_own_window() {
    let mut host = host_with_ui(UiElementLog::new(true));
    assert!(host.ui_begin(), "pbShow=TRUE means we may draw");
    assert_eq!(host.ui.as_ref().unwrap().begin_calls, 1);
    assert!(host.service.ui_should_show(false));
}

#[test]
fn a_uiless_host_suppresses_our_window() {
    let mut host = host_with_ui(UiElementLog::suppressing());
    assert!(!host.ui_begin(), "pbShow=FALSE must suppress our window");
    assert!(!host.service.ui_should_show(false));
    assert!(host.service.ui_should_show(true), "unless it is forced");
}

#[test]
fn a_host_without_the_element_manager_still_gets_candidates() {
    let mut host = Host::new(EditSessionBehavior::RunSync);
    assert!(host.ui_begin());
    assert!(host.service.ui_should_show(false));
}

#[test]
fn the_host_reads_back_the_published_snapshot() {
    let mut host = host_with_ui(UiElementLog::new(true));
    host.ui_begin();
    host.ui_update(&candidates(&["水", "みず", "ミズ"]), 1, 4);

    let element = &host.service.ui_element;
    assert_eq!(element.count(), 3);
    assert_eq!(element.selection(), 1);
    assert_eq!(element.string(0), Some("水".to_string()));
    assert_eq!(element.string(2), Some("ミズ".to_string()));
    assert_eq!(host.ui.as_ref().unwrap().update_calls, 1);
}

#[test]
fn an_out_of_range_candidate_is_an_error_not_a_panic() {
    let mut host = host_with_ui(UiElementLog::new(true));
    host.ui_begin();
    host.ui_update(&candidates(&["水"]), 0, 4);
    let element = &host.service.ui_element;
    assert!(element.string(1).is_none());
    assert!(element.string(u32::MAX).is_none());
}

#[test]
fn get_page_index_answers_the_count_only_query() {
    let mut host = host_with_ui(UiElementLog::new(true));
    host.ui_begin();
    // 7 candidates over pages of 5 -> 2 pages
    host.ui_update(&candidates(&["1", "2", "3", "4", "5", "6", "7"]), 0, 32);

    let element = &host.service.ui_element;
    let (_, page_count) = element
        .get_page_index(None, true)
        .expect("the count-only query must succeed");
    assert_eq!(page_count, 2, "7 candidates over pages of 5 is 2 pages");

    let (pages, written) = element.get_page_index(Some(4), true).unwrap();
    assert_eq!(written, 2);
    assert_eq!(&pages[..2], &[0, 5], "pages start at candidate 0 and 5");
    assert_eq!(element.get_page_index(Some(1), true), Ok((vec![0], 1)));
}

#[test]
fn get_page_index_rejects_a_null_count_pointer() {
    let host = host_with_ui(UiElementLog::new(true));
    assert!(
        host.service.ui_element.get_page_index(None, false).is_err(),
        "a null out-pointer must be rejected, not dereferenced"
    );
}

#[test]
fn deactivate_ends_a_live_ui_element() {
    let mut host = host_with_ui(UiElementLog::new(true));
    host.ui_begin();
    assert_eq!(
        host.ui.as_ref().unwrap().live_elements(),
        1,
        "an element is open"
    );

    host.deactivate().expect("Deactivate must succeed");
    assert_eq!(
        host.ui.as_ref().unwrap().live_elements(),
        0,
        "Deactivate must end the element or the host pins the TIP forever"
    );
}

#[test]
fn ending_without_a_live_element_is_a_no_op() {
    let mut host = host_with_ui(UiElementLog::new(true));
    host.ui_end();
    host.ui_begin();
    host.ui_end();
    host.ui_end();
    assert_eq!(
        host.ui.as_ref().unwrap().end_calls,
        1,
        "only the live element is ended"
    );
}

#[test]
fn the_current_page_follows_the_selection() {
    let mut host = host_with_ui(UiElementLog::new(true));
    host.ui_begin();
    let list = candidates(&["1", "2", "3", "4", "5", "6", "7"]);

    host.ui_update(&list, 4, 16);
    assert_eq!(host.service.ui_element.current_page(), 0);

    host.ui_update(&list, 5, 16);
    assert_eq!(host.service.ui_element.current_page(), 1);
}

// --- laws on concrete values, and what the host calls ---

#[test]
fn a_click_switches_the_mode_and_leaves_nothing_composed() {
    let mut host = Host::new(EditSessionBehavior::RunSync);
    host.thread_mgr = true;
    host.set_up(CompositionState::Composing);
    host.service.composition.preview = "水".to_string();
    assert_eq!(host.service.input_mode, InputMode::Latin);

    let batch = host.service.on_click();
    host.run(batch).unwrap();

    assert_eq!(host.service.input_mode, InputMode::Kana);
    assert_eq!(host.service.composition.state(), CompositionState::Idle);
    assert_eq!(host.service.composition.preview, "");
    assert!(host.ipc.calls.contains(&IpcCall::ClearText(None)));
    assert_eq!(host.service.last_mode_toggle, Some(host.now));

    let batch = host.service.on_click();
    host.run(batch).unwrap();
    assert_eq!(host.service.input_mode, InputMode::Latin);
}

#[test]
fn the_layout_is_left_alone_while_the_position_is_told_and_shortly_after() {
    let mut host = Host::new(EditSessionBehavior::RunSync);
    assert!(host.service.on_layout_change(1_000));
    assert_eq!(host.service.update_pos(1_000), Some(PositionSource::Nothing));
    assert!(!host.service.on_layout_change(1_001));
    assert_eq!(host.service.update_pos(1_001), None, "it is being told already");
    host.service.finish_update_pos(1_010);
    assert!(!host.service.on_layout_change(1_200));
    assert!(host.service.on_layout_change(1_201));
    assert!(host.service.on_layout_change(1_202));
}

#[test]
fn a_removal_is_recorded_as_it_goes_over_the_wire() {
    let mut fake = FakeIpc::new(scripted(&["水"], "みず", &[4], &[2]));
    assert_eq!(fake.remove_text(3).unwrap().texts, vec!["水"]);
    fake.engine_unavailable_for = 1;
    assert!(is_server_unavailable(&fake.remove_text(u32::MAX).unwrap_err()));
    assert!(fake.remove_text(1).is_ok(), "the outage is over");
    assert_eq!(
        fake.calls,
        vec![
            IpcCall::RemoveText(3),
            IpcCall::RemoveText(i32::MAX),
            IpcCall::RemoveText(1)
        ]
    );
}

/// The effects that a batch asks for, each answered as given.
fn effects(batch: &mut Batch, replies: Vec<Result<Candidates, Failure>>) -> Vec<&'static str> {
    let mut asked = Vec::new();
    for reply in replies {
        asked.push(match batch.effect() {
            Some(Effect::UpdateContext(_)) => "context",
            Some(Effect::AppendText(_)) => "append",
            Some(Effect::RemoveText(_)) => "remove",
            Some(Effect::ShrinkText(_, _)) => "shrink",
            Some(Effect::ClearText(None)) => "clear",
            Some(Effect::EndComposition) => "end",
            Some(Effect::CloseCandidates) => "close",
            Some(_) => "other",
            None => "nothing",
        });
        batch.resume(reply);
    }
    asked
}

#[test]
fn a_stall_costs_one_keystroke_whatever_the_keystroke() {
    for (action, call) in [
        (ClientAction::AppendText("n".to_string()), "append"),
        (ClientAction::RemoveText(1), "remove"),
        (ClientAction::ShrinkText("n".to_string()), "shrink"),
    ] {
        let mut host = Host::new(EditSessionBehavior::RunSync);
        host.set_up(CompositionState::Previewing);
        host.service.composition.raw_input = "mizu".to_string();
        host.service.composition.preview = "水".to_string();
        host.service.composition.selection_index = 2;

        let mut batch = host
            .service
            .handle_action(vec![action], CompositionState::Composing);
        let asked = effects(
            &mut batch,
            vec![
                Ok(Candidates::none()),
                Err(Failure::unavailable()),
                Ok(Candidates::none()),
                Ok(scripted(&["未"], "みず", &[4], &[2])),
            ],
        );
        assert_eq!(asked, vec!["context", call, "clear", "append"]);
        assert!(batch.effect().is_none());
        batch.finish(&mut host.service.composition).unwrap();

        let composition = &host.service.composition;
        assert_eq!(composition.state(), CompositionState::Previewing);
        assert_eq!(composition.raw_input, "mizu");
        assert_eq!(composition.preview, "水");
        assert_eq!(composition.selection_index, 2);
    }
}

#[test]
fn a_server_that_stays_lost_costs_the_composition_and_no_more_calls() {
    let mut host = Host::new(EditSessionBehavior::RunSync);
    host.set_up(CompositionState::Composing);
    host.service.composition.raw_input = "mizu".to_string();
    host.service.composition.preview = "水".to_string();

    let mut batch = host.service.handle_action(
        vec![ClientAction::AppendText("n".to_string())],
        CompositionState::Composing,
    );
    let asked = effects(
        &mut batch,
        vec![
            Ok(Candidates::none()),
            Err(Failure::unavailable()),
            Err(Failure::unavailable()),
            Ok(Candidates::none()),
            Ok(Candidates::none()),
        ],
    );
    assert_eq!(asked, vec!["context", "append", "clear", "end", "close"]);
    assert!(batch.effect().is_none());
    host.service.composition.detach_tip();
    batch.finish(&mut host.service.composition).unwrap();
    assert_eq!(host.service.composition.state(), CompositionState::Idle);
    assert_eq!(host.service.composition.preview, "");
    assert_eq!(host.service.composition.raw_input, "");
}
