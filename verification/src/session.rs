//! The listening/idle session and the commands that drive it.
//!
//! A command changes the session and returns, in order, the effects that the
//! caller has to perform.  The commands check and set the same flag, so the
//! caller runs them one at a time.

use crate::events::{UiEvent, UiEventView};
use crate::protocol::{final_prefix, line_meaning};
use crate::speech::{
    exit_events, launch_arguments, launch_failed, launch_failure_events, line_event,
    start_recognition, stop_recognition, transcript_after, HelperExit, Recognizer, RecognizerView,
};
use crate::text::{trim, trimmed, trimmed_is_idempotent};
use vstd::prelude::*;

verus! {

/// The language that is used where none is set.
pub open spec fn default_language() -> Seq<char> {
    "en-US"@
}

/// The character that is pasted behind a transcript, so that one dictation
/// does not run into the next.
pub open spec fn padding() -> Seq<char> {
    " "@
}

/// Whether the session listens, and the settings of the next start.
#[derive(Debug, PartialEq, Eq)]
pub struct Session {
    listening: bool,
    /// The language tag; empty where none was set.
    language: String,
    on_device: bool,
}

/// A session as a mathematical value.
pub struct SessionView {
    pub listening: bool,
    pub language: Seq<char>,
    pub on_device: bool,
}

impl View for Session {
    type V = SessionView;

    closed spec fn view(&self) -> SessionView {
        SessionView {
            listening: self.listening,
            language: self.language@,
            on_device: self.on_device,
        }
    }
}

impl SessionView {
    /// The session at startup: idle, no language set, recognition on device.
    pub open spec fn initial() -> SessionView {
        SessionView { listening: false, language: Seq::empty(), on_device: true }
    }

    /// The language of the next start.
    pub open spec fn effective_language(self) -> Seq<char> {
        if self.language.len() == 0 {
            default_language()
        } else {
            self.language
        }
    }
}

/// Something for the caller to do.
#[derive(Debug, PartialEq, Eq)]
pub enum Effect {
    /// Publish an event to the user interface.
    Emit { event: UiEvent },
    /// Show the tray icon of the listening or of the idle state.
    TrayIcon { listening: bool },
    /// Show the heads-up display.
    ShowHud,
    /// Send the termination signal to a helper.
    Terminate { pid: u32 },
    /// Start a helper with these arguments and attach to its output.
    Launch { arguments: Vec<String> },
    /// Paste `paste` into the frontmost application and leave `retain` on
    /// the clipboard.
    Insert { paste: String, retain: String },
}

/// An effect as a mathematical value.
pub enum EffectView {
    Emit { event: UiEventView },
    TrayIcon { listening: bool },
    ShowHud,
    Terminate { pid: u32 },
    Launch { arguments: Seq<Seq<char>> },
    Insert { paste: Seq<char>, retain: Seq<char> },
}

impl View for Effect {
    type V = EffectView;

    open spec fn view(&self) -> EffectView {
        match self {
            Effect::Emit { event } => EffectView::Emit { event: event@ },
            Effect::TrayIcon { listening } => EffectView::TrayIcon { listening: *listening },
            Effect::ShowHud => EffectView::ShowHud,
            Effect::Terminate { pid } => EffectView::Terminate { pid: *pid },
            Effect::Launch { arguments } => EffectView::Launch {
                arguments: arguments.deep_view(),
            },
            Effect::Insert { paste, retain } => EffectView::Insert {
                paste: paste@,
                retain: retain@,
            },
        }
    }
}

impl DeepView for Effect {
    type V = EffectView;

    open spec fn deep_view(&self) -> EffectView {
        self@
    }
}

/// The session together with the recognizer it drives.
#[derive(Debug, PartialEq, Eq)]
pub struct Controller {
    session: Session,
    recognizer: Recognizer,
}

/// A controller as a mathematical value.
pub struct ControllerView {
    pub session: SessionView,
    pub recognizer: RecognizerView,
}

impl View for Controller {
    type V = ControllerView;

    closed spec fn view(&self) -> ControllerView {
        ControllerView { session: self.session@, recognizer: self.recognizer@ }
    }
}

/// The signal to a tracked helper, if there is one.
pub open spec fn terminate_effects(process: Option<u32>) -> Seq<EffectView> {
    match process {
        Some(pid) => seq![EffectView::Terminate { pid }],
        None => seq![],
    }
}

/// The insertion of a transcript, if there is one: the padded text is
/// pasted, the bare text stays on the clipboard.
pub open spec fn insert_effects(transcript: Seq<char>) -> Seq<EffectView> {
    if transcript.len() == 0 {
        seq![]
    } else {
        seq![EffectView::Insert { paste: transcript + padding(), retain: transcript }]
    }
}

impl ControllerView {
    pub open spec fn initial() -> ControllerView {
        ControllerView { session: SessionView::initial(), recognizer: RecognizerView::empty() }
    }

    /// The controller, idle.
    pub open spec fn idled(self) -> ControllerView {
        ControllerView { session: SessionView { listening: false, ..self.session }, ..self }
    }

    /// The state after `start`.
    pub open spec fn after_start(self) -> ControllerView {
        if self.session.listening {
            self
        } else {
            ControllerView {
                session: SessionView { listening: true, ..self.session },
                recognizer: RecognizerView::empty(),
            }
        }
    }

    /// The effects of `start`: none while listening; else the change of
    /// state is shown, a helper that is still tracked is signalled, and a
    /// new helper is started.
    pub open spec fn start_effects(self) -> Seq<EffectView> {
        if self.session.listening {
            seq![]
        } else {
            seq![
                EffectView::Emit { event: UiEventView::ListeningState { listening: true } },
                EffectView::TrayIcon { listening: true },
                EffectView::ShowHud,
            ] + terminate_effects(self.recognizer.process) + seq![
                EffectView::Launch {
                    arguments: launch_arguments(
                        self.session.effective_language(),
                        self.session.on_device,
                    ),
                },
            ]
        }
    }

    /// The state after `stop`.
    pub open spec fn after_stop(self) -> ControllerView {
        if self.session.listening {
            ControllerView {
                session: SessionView { listening: false, ..self.session },
                recognizer: RecognizerView::empty(),
            }
        } else {
            self
        }
    }

    /// The transcript that `stop` returns: nothing while idle; else the
    /// finished transcript, trimmed.
    pub open spec fn stop_transcript(self) -> Seq<char> {
        if self.session.listening {
            trimmed(self.recognizer.taken())
        } else {
            Seq::empty()
        }
    }

    /// The effects of `stop`: none while idle; else the change of state is
    /// shown, the tracked helper is signalled, and a transcript that is not
    /// empty is inserted.
    pub open spec fn stop_effects(self) -> Seq<EffectView> {
        if self.session.listening {
            seq![
                EffectView::Emit { event: UiEventView::ListeningState { listening: false } },
                EffectView::TrayIcon { listening: false },
            ] + terminate_effects(self.recognizer.process) + insert_effects(self.stop_transcript())
        } else {
            seq![]
        }
    }

    /// The state after `toggle`.
    pub open spec fn after_toggle(self) -> ControllerView {
        if self.session.listening {
            self.after_stop()
        } else {
            self.after_start()
        }
    }

    /// The effects of `toggle`.
    pub open spec fn toggle_effects(self) -> Seq<EffectView> {
        if self.session.listening {
            self.stop_effects()
        } else {
            self.start_effects()
        }
    }

    /// The state after the helper ended: it is no longer tracked, and a
    /// crash forces the session to idle.
    pub open spec fn after_exit(self, exit: HelperExit) -> ControllerView {
        ControllerView {
            session: SessionView {
                listening: self.session.listening && !exit.is_crash(),
                ..self.session
            },
            recognizer: RecognizerView { process: None, ..self.recognizer },
        }
    }
}

/// What `stop` hands out.
#[derive(Debug, PartialEq, Eq)]
pub struct StopReport {
    /// The finished transcript, without padding.
    pub transcript: String,
    /// The effects to perform, in order.
    pub effects: Vec<Effect>,
}

/// The language of the next start: the one that is set, or the default.
pub fn get_language(session: &Session) -> (language: String)
    ensures
        language@ == session@.effective_language(),
{
    if session.language.as_str().is_empty() {
        String::from_str("en-US")
    } else {
        session.language.clone()
    }
}

impl Session {
    /// The session at startup.
    pub fn new() -> (session: Session)
        ensures
            session@ == SessionView::initial(),
    {
        Session { listening: false, language: String::new(), on_device: true }
    }

    pub fn listening(&self) -> (listening: bool)
        ensures
            listening == self@.listening,
    {
        self.listening
    }

    /// The language tag that is set; empty where none is.
    pub fn language(&self) -> (language: &str)
        ensures
            language@ == self@.language,
    {
        self.language.as_str()
    }

    pub fn on_device(&self) -> (on_device: bool)
        ensures
            on_device == self@.on_device,
    {
        self.on_device
    }
}

impl Controller {
    /// The controller at startup.
    pub fn new() -> (controller: Controller)
        ensures
            controller@ == ControllerView::initial(),
    {
        Controller { session: Session::new(), recognizer: Recognizer::new() }
    }

    pub fn is_listening(&self) -> (listening: bool)
        ensures
            listening == self@.session.listening,
    {
        self.session.listening
    }

    pub fn session(&self) -> (session: &Session)
        ensures
            session@ == self@.session,
    {
        &self.session
    }

    pub fn recognizer(&self) -> (recognizer: &Recognizer)
        ensures
            recognizer@ == self@.recognizer,
    {
        &self.recognizer
    }

    /// Sets the language and the on-device preference of the next start.
    pub fn set_dictation_settings(&mut self, language: String, on_device: bool)
        ensures
            final(self)@ == (ControllerView {
                session: SessionView {
                    language: language@,
                    on_device,
                    ..old(self)@.session
                },
                ..old(self)@
            }),
    {
        self.session.language = language;
        self.session.on_device = on_device;
    }

    /// Starts listening.  Does nothing while the session listens.
    pub fn start_dictation(&mut self) -> (effects: Vec<Effect>)
        ensures
            final(self)@ == old(self)@.after_start(),
            effects.deep_view() == old(self)@.start_effects(),
            old(self)@.session.listening ==> final(self)@ == old(self)@ && effects@.len() == 0,
    {
        let mut effects: Vec<Effect> = Vec::new();
        if self.session.listening {
            assert(effects.deep_view() =~= old(self)@.start_effects());
            return effects;
        }
        self.session.listening = true;
        effects.push(Effect::Emit { event: UiEvent::ListeningState { listening: true } });
        effects.push(Effect::TrayIcon { listening: true });
        effects.push(Effect::ShowHud);
        let language = get_language(&self.session);
        let on_device = self.session.on_device;
        let plan = start_recognition(&mut self.recognizer, language.as_str(), on_device);
        if let Some(pid) = plan.terminate {
            effects.push(Effect::Terminate { pid });
        }
        effects.push(Effect::Launch { arguments: plan.arguments });
        assert(effects.deep_view() =~= old(self)@.start_effects());
        effects
    }

    /// Stops listening, and hands out the transcript and its insertion.
    /// Does nothing, and returns nothing, while the session is idle.
    pub fn stop_dictation(&mut self) -> (report: StopReport)
        ensures
            final(self)@ == old(self)@.after_stop(),
            report.transcript@ == old(self)@.stop_transcript(),
            report.effects.deep_view() == old(self)@.stop_effects(),
            !old(self)@.session.listening ==> final(self)@ == old(self)@
                && report.transcript@.len() == 0 && report.effects@.len() == 0,
    {
        let mut effects: Vec<Effect> = Vec::new();
        if !self.session.listening {
            assert(effects.deep_view() =~= old(self)@.stop_effects());
            return StopReport { transcript: String::new(), effects };
        }
        self.session.listening = false;
        effects.push(Effect::Emit { event: UiEvent::ListeningState { listening: false } });
        effects.push(Effect::TrayIcon { listening: false });
        let stopped = stop_recognition(&mut self.recognizer);
        if let Some(pid) = stopped.terminate {
            effects.push(Effect::Terminate { pid });
        }
        let transcript = trim(stopped.transcript.as_str());
        if !transcript.as_str().is_empty() {
            let mut paste = transcript.clone();
            paste.append(" ");
            effects.push(Effect::Insert { paste, retain: transcript.clone() });
        }
        assert(effects.deep_view() =~= old(self)@.stop_effects());
        StopReport { transcript, effects }
    }

    /// Stops where the session listens, starts where it is idle.
    pub fn toggle_dictation(&mut self) -> (effects: Vec<Effect>)
        ensures
            final(self)@ == old(self)@.after_toggle(),
            effects.deep_view() == old(self)@.toggle_effects(),
    {
        if self.session.listening {
            self.stop_dictation().effects
        } else {
            self.start_dictation()
        }
    }

    /// Takes the state of the secondary shortcut: a press toggles the
    /// session, a release does nothing.
    pub fn shortcut(&mut self, pressed: bool) -> (effects: Vec<Effect>)
        ensures
            pressed ==> final(self)@ == old(self)@.after_toggle() && effects.deep_view() == old(
                self,
            )@.toggle_effects(),
            !pressed ==> final(self)@ == old(self)@ && effects@.len() == 0,
    {
        if pressed {
            self.toggle_dictation()
        } else {
            Vec::new()
        }
    }

    /// Records that the helper with process id `pid` runs.
    pub fn helper_started(&mut self, pid: u32)
        ensures
            final(self)@ == (ControllerView {
                recognizer: RecognizerView { process: Some(pid), ..old(self)@.recognizer },
                ..old(self)@
            }),
    {
        self.recognizer.helper_started(pid);
    }

    /// Takes one line of the helper's output.
    pub fn helper_line(&mut self, line: &str) -> (event: Option<UiEvent>)
        ensures
            event.deep_view() == line_event(line_meaning(line@)),
            final(self)@ == (ControllerView {
                recognizer: RecognizerView {
                    transcript: transcript_after(
                        old(self)@.recognizer.transcript,
                        line_meaning(line@),
                    ),
                    ..old(self)@.recognizer
                },
                ..old(self)@
            }),
    {
        self.recognizer.helper_line(line)
    }

    /// Records that the helper ended.  After a crash the session is idle,
    /// whether or not it was stopped, and the user is told.
    pub fn helper_exited(&mut self, exit: HelperExit) -> (events: Vec<UiEvent>)
        ensures
            final(self)@ == old(self)@.after_exit(exit),
            events.deep_view() == exit_events(exit),
    {
        let events = self.recognizer.helper_exited(exit);
        if exit.crashed() {
            self.session.listening = false;
        }
        events
    }

    /// Records that no helper could be started.  The session is idle
    /// afterwards, and the user is told.
    pub fn helper_launch_failed(&mut self, reason: &str) -> (events: Vec<UiEvent>)
        ensures
            final(self)@ == old(self)@.idled(),
            events.deep_view() == launch_failure_events(reason@),
    {
        self.session.listening = false;
        launch_failed(reason)
    }
}

/// How many helpers a run of effects starts.
pub open spec fn launches(effects: Seq<EffectView>) -> nat
    decreases effects.len(),
{
    if effects.len() == 0 {
        0
    } else {
        launches(effects.drop_last()) + if effects.last() is Launch {
            1nat
        } else {
            0nat
        }
    }
}

/// A start while idle starts exactly one helper, and signals the helper that
/// was still tracked before it does; a start while listening starts none.
pub proof fn start_launches_once(c: ControllerView)
    ensures
        launches(c.start_effects()) == if c.session.listening {
            0nat
        } else {
            1nat
        },
        !c.session.listening ==> c.start_effects().last() is Launch,
        !c.session.listening && c.recognizer.process is Some ==> c.start_effects()[3] == (
            EffectView::Terminate { pid: c.recognizer.process->0 }
        ),
{
    reveal_with_fuel(launches, 6);
    let effects = c.start_effects();
    if !c.session.listening {
        let base = seq![
            EffectView::Emit { event: UiEventView::ListeningState { listening: true } },
            EffectView::TrayIcon { listening: true },
            EffectView::ShowHud,
        ];
        let signalled = base + terminate_effects(c.recognizer.process);
        assert(effects.drop_last() =~= signalled);
        if c.recognizer.process is Some {
            assert(signalled.drop_last() =~= base);
        }
        assert(base.drop_last() =~= base.take(2));
        assert(base.take(2).drop_last() =~= base.take(1));
        assert(base.take(1).drop_last() =~= base.take(0));
    }
}

/// Starting is idempotent: a start while listening changes nothing and asks
/// for nothing, so two starts in a row start exactly one helper.
pub proof fn start_is_idempotent(c: ControllerView)
    ensures
        c.after_start().after_start() == c.after_start(),
        c.after_start().start_effects() == Seq::<EffectView>::empty(),
        !c.session.listening ==> launches(c.start_effects() + c.after_start().start_effects())
            == 1,
{
    start_launches_once(c);
    assert(c.start_effects() + c.after_start().start_effects() =~= c.start_effects());
}

/// Stopping is idempotent: a stop while idle changes nothing, returns the
/// empty transcript and asks for nothing.
pub proof fn stop_is_idempotent(c: ControllerView)
    ensures
        c.after_stop().after_stop() == c.after_stop(),
        c.after_stop().stop_effects() == Seq::<EffectView>::empty(),
        c.after_stop().stop_transcript() == Seq::<char>::empty(),
{
}

/// A stop with no finished transcript inserts nothing.
pub proof fn empty_transcript_inserts_nothing(c: ControllerView)
    requires
        c.session.listening,
        c.recognizer.transcript is None,
    ensures
        c.stop_transcript() == Seq::<char>::empty(),
        forall|i: int| 0 <= i < c.stop_effects().len() ==> !(#[trigger] c.stop_effects()[i]
            is Insert),
{
}

/// Stop returns the finished transcript as it arrived: the text of a
/// `FINAL:` line is trimmed already, so the trimming at the stop leaves it
/// as it is.
pub proof fn stop_returns_the_final_text(c: ControllerView, line: Seq<char>)
    requires
        c.session.listening,
        line_meaning(line) is Final,
    ensures
        (ControllerView {
            recognizer: RecognizerView {
                transcript: transcript_after(c.recognizer.transcript, line_meaning(line)),
                ..c.recognizer
            },
            ..c
        }).stop_transcript() == line_meaning(line)->Final_text,
{
    trimmed_is_idempotent(line.skip(final_prefix().len() as int));
}

} // verus!
