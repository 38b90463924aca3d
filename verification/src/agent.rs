//! The conversation loop as a state machine.
//!
//! The agent owns the transcript and decides what happens next. It does not
//! act itself: each step hands out one [`Action`] for the outside world to
//! perform and takes the answer as an [`Event`]. A round begins with the
//! model's reply, carries out the directives of that reply in the order in
//! which they stand, and ends by putting the collected feedback into the
//! transcript. An `End` directive marks the run as over; the directives that
//! stand beside it in the same reply are still carried out, and no further
//! round begins.

use vstd::prelude::*;
use vstd::string::StringExecFns;
use crate::agent_tool::{AgentTool, ToolView};
use crate::config::Config;
use crate::error::{ProtocolError, RunError};
use crate::executor::{request, request_of, settle, settle_of, Action, ActionView, Event, Settled, SettledView};
use crate::fence::{strip_fences, without_fences};
use crate::persona::{Persona, PersonaView};
use crate::structured::{parse_response, structured_reading};
use crate::task_part::{directives, parts_outcome, Directive, TaskPart};
use crate::text::{chars_of, begins_with, joined, owned};

verus! {

/// Who wrote an entry of the transcript.
#[derive(Debug, Clone, Copy, PartialEq, Eq, Structural)]
pub enum Role {
    User,
    Model,
}

impl Role {
    /// The role's name as the model's service knows it.
    pub fn as_str(&self) -> (r: &'static str)
        ensures
            r@ == match self {
                Role::User => "user"@,
                Role::Model => "model"@,
            },
    {
        match self {
            Role::User => "user",
            Role::Model => "model",
        }
    }
}

/// Where the agent stands in a run.
#[derive(Debug, Clone, Copy, PartialEq, Eq, Structural)]
pub enum Stage {
    /// No run has begun.
    Idle,
    /// The model was asked, and its reply is awaited.
    Asking,
    /// A directive's request was handed out, and its answer is awaited.
    Working,
    /// A file is being written for a directive.
    Storing,
    /// The run is over.
    Finished,
    /// The run has failed.
    Failed,
}

/// The agent: its configuration, its persona and tools, the transcript, and
/// the state of the round that is under way.
pub struct Agent {
    config: Config,
    persona: Option<Persona>,
    messages: Vec<(Role, String)>,
    tools: Vec<AgentTool>,
    queue: Vec<TaskPart>,
    cursor: usize,
    feedback: String,
    should_exit: bool,
    stage: Stage,
}

/// The mathematical value of an [`Agent`].
pub struct AgentView {
    pub config: Config,
    pub persona: Option<PersonaView>,
    pub tools: Seq<ToolView>,
    /// The transcript: who said what, in order.
    pub transcript: Seq<(Role, Seq<char>)>,
    /// The directives of this round that are not yet done. The first one is
    /// the one whose answer is awaited.
    pub pending: Seq<Directive>,
    /// The feedback collected in this round.
    pub feedback: Seq<char>,
    /// Whether an `End` directive was met.
    pub terminal: bool,
    pub stage: Stage,
}

/// The entries that a list of messages stands for.
pub open spec fn entries(messages: Seq<(Role, String)>) -> Seq<(Role, Seq<char>)> {
    messages.map_values(|m: (Role, String)| (m.0, m.1@))
}

/// The views of a list of tools.
pub open spec fn tool_views(tools: Seq<AgentTool>) -> Seq<ToolView> {
    tools.map_values(|t: AgentTool| t@)
}

/// The view of an optional persona.
pub open spec fn persona_view(p: Option<Persona>) -> Option<PersonaView> {
    match p {
        Some(p) => Some(p@),
        None => None,
    }
}

/// What a catalog of personas stands for: each persona under the name of its
/// file.
pub open spec fn catalog_view(catalog: Seq<(String, Persona)>) -> Seq<(Seq<char>, PersonaView)> {
    catalog.map_values(|e: (String, Persona)| (e.0@, e.1@))
}

/// The command that calls the persona stored under the name `stem`.
pub open spec fn tool_command(stem: Seq<char>) -> Seq<char> {
    "agent-base --persona "@ + stem + " --task \"<task>\""@
}

/// The tool that offers a persona of the catalog to the model.
pub open spec fn persona_tool(stem: Seq<char>, persona: PersonaView) -> ToolView {
    ToolView {
        name: persona.name,
        description: persona.description,
        execution_command: tool_command(stem),
    }
}

/// Whether a persona's file is hidden: its name begins with a dot.
pub open spec fn is_hidden(stem: Seq<char>) -> bool {
    "."@.is_prefix_of(stem)
}

/// Whether a persona's file is hidden.
pub fn hidden(stem: &str) -> (r: bool)
    ensures
        r == is_hidden(stem@),
{
    let name = chars_of(stem);
    let dot = chars_of(".");
    begins_with(&name, &dot)
}

/// The tools for the personas of the catalog from index `i` on. A persona
/// whose file name begins with a dot gives none.
pub open spec fn persona_tools(catalog: Seq<(Seq<char>, PersonaView)>, i: int) -> Seq<ToolView>
    decreases catalog.len() - i,
{
    if i < 0 || i >= catalog.len() {
        Seq::empty()
    } else if is_hidden(catalog[i].0) {
        persona_tools(catalog, i + 1)
    } else {
        seq![persona_tool(catalog[i].0, catalog[i].1)] + persona_tools(catalog, i + 1)
    }
}

/// The agent after it has adopted a persona.
pub open spec fn with_persona(
    m: AgentView,
    persona: Option<PersonaView>,
    catalog: Seq<(Seq<char>, PersonaView)>,
) -> AgentView {
    match persona {
        None => m,
        Some(p) => AgentView {
            persona: Some(p),
            tools: if p.allow_personas_as_tools == Some(true) {
                m.tools + persona_tools(catalog, 0)
            } else {
                m.tools
            },
            ..m
        },
    }
}

/// The first entry of a transcript: the task, put to the model.
pub open spec fn task_entry(task: Seq<char>) -> (Role, Seq<char>) {
    (Role::User, "The task is: "@ + task)
}

/// What the model is told where a round gave no feedback.
pub open spec fn nudge() -> Seq<char> {
    "Please continue, use any command/tags whatever you need to. Choose the sanest option.\n                You might be missing something. Ensure you have the info about the environment that you need"@
}

/// The entry that ends a round: the feedback, or the nudge where there is none.
pub open spec fn round_entry(feedback: Seq<char>) -> (Role, Seq<char>) {
    (
        Role::User,
        if feedback.len() > 0 {
            feedback
        } else {
            nudge()
        },
    )
}

/// The run fails with `error`. Nothing but the stage changes.
pub open spec fn fail_of(m: AgentView, error: RunError) -> (AgentView, ActionView) {
    (AgentView { stage: Stage::Failed, ..m }, ActionView::Abort { error })
}

/// What comes next once everything before the pending directives is done.
///
/// `End` directives at the front are passed over and mark the run as over.
/// The first other directive is started. Where none is left the round ends:
/// the feedback goes into the transcript, and either the model is asked
/// again or, where the run is marked as over, the run finishes.
pub open spec fn advance_of(m: AgentView) -> (AgentView, ActionView)
    decreases m.pending.len(),
{
    if m.pending.len() == 0 {
        let transcript = m.transcript.push(round_entry(m.feedback));
        if m.terminal {
            (AgentView { transcript, stage: Stage::Finished, ..m }, ActionView::Finish)
        } else {
            (AgentView { transcript, stage: Stage::Asking, ..m }, ActionView::Ask)
        }
    } else {
        match request_of(m.pending[0]) {
            Some(action) => (AgentView { stage: Stage::Working, ..m }, action),
            None => advance_of(AgentView { pending: m.pending.skip(1), terminal: true, ..m }),
        }
    }
}

/// What the model's reply brings about. `reply` is the reply without its
/// fence, and `parsed` is what it was read as. The reply goes into the
/// transcript. A reply that could not be read fails the run, and none of it
/// is carried out. Otherwise a new round begins with empty feedback. A reply
/// that nobody asked for fails the run.
pub open spec fn reply_of(
    m: AgentView,
    reply: Seq<char>,
    parsed: Result<Seq<Directive>, ProtocolError>,
) -> (AgentView, ActionView) {
    if m.stage != Stage::Asking {
        fail_of(m, RunError::OutOfTurn)
    } else {
        let transcript = m.transcript.push((Role::Model, reply));
        match parsed {
            Err(e) => fail_of(AgentView { transcript, ..m }, RunError::Protocol(e)),
            Ok(pending) => advance_of(
                AgentView { transcript, pending, feedback: Seq::empty(), ..m },
            ),
        }
    }
}

/// `feedback` with the text added that a directive gave back, if any.
pub open spec fn with_feedback(feedback: Seq<char>, text: Option<Seq<char>>) -> Seq<char> {
    match text {
        Some(t) => feedback + t,
        None => feedback,
    }
}

/// One step of the agent: the state after the event, and what is asked for
/// next.
pub open spec fn step_of(m: AgentView, event: Event) -> (AgentView, ActionView) {
    match m.stage {
        Stage::Asking => match event {
            Event::Reply { text } => reply_of(
                m,
                without_fences(text@),
                structured_reading(without_fences(text@)),
            ),
            _ => fail_of(m, RunError::OutOfTurn),
        },
        Stage::Working => if m.pending.len() == 0 {
            fail_of(m, RunError::OutOfTurn)
        } else {
            match settle_of(m.pending[0], event) {
                SettledView::Feedback { text } => advance_of(
                    AgentView {
                        pending: m.pending.skip(1),
                        feedback: with_feedback(m.feedback, text),
                        ..m
                    },
                ),
                SettledView::Store { path, content } => (
                    AgentView { stage: Stage::Storing, ..m },
                    ActionView::Write { path, content },
                ),
                SettledView::Failed { error } => fail_of(m, error),
            }
        },
        Stage::Storing => match event {
            Event::Done => if m.pending.len() == 0 {
                fail_of(m, RunError::OutOfTurn)
            } else {
                advance_of(AgentView { pending: m.pending.skip(1), ..m })
            },
            _ => fail_of(m, RunError::OutOfTurn),
        },
        _ => fail_of(m, RunError::OutOfTurn),
    }
}

/// The state in which a run for `task` begins: the transcript holds the task
/// alone, and the model is about to be asked.
pub open spec fn started(m: AgentView, task: Seq<char>) -> AgentView {
    AgentView {
        transcript: seq![task_entry(task)],
        pending: Seq::empty(),
        feedback: Seq::empty(),
        terminal: false,
        stage: Stage::Asking,
        ..m
    }
}

impl View for Agent {
    type V = AgentView;

    closed spec fn view(&self) -> AgentView {
        AgentView {
            config: self.config,
            persona: persona_view(self.persona),
            tools: tool_views(self.tools@),
            transcript: entries(self.messages@),
            pending: if self.cursor <= self.queue.len() {
                directives(self.queue@).skip(self.cursor as int)
            } else {
                Seq::empty()
            },
            feedback: self.feedback@,
            terminal: self.should_exit,
            stage: self.stage,
        }
    }
}

impl Agent {
    /// An agent that has not begun a run: no persona, no tools, an empty
    /// transcript.
    pub fn new(config: Config) -> (r: Self)
        ensures
            r@ == (AgentView {
                config,
                persona: None,
                tools: Seq::empty(),
                transcript: Seq::empty(),
                pending: Seq::empty(),
                feedback: Seq::empty(),
                terminal: false,
                stage: Stage::Idle,
            }),
    {
        let r = Self {
            config,
            persona: None,
            messages: Vec::new(),
            tools: Vec::new(),
            queue: Vec::new(),
            cursor: 0,
            feedback: String::new(),
            should_exit: false,
            stage: Stage::Idle,
        };
        assert(r@.tools =~= Seq::empty());
        assert(r@.transcript =~= Seq::empty());
        assert(r@.pending =~= Seq::empty());
        r
    }

    /// The agent's configuration.
    pub fn config(&self) -> (r: &Config)
        ensures
            *r == self@.config,
    {
        &self.config
    }

    /// The persona that the agent has adopted.
    pub fn persona(&self) -> (r: Option<&Persona>)
        ensures
            match r {
                Some(p) => self@.persona == Some(p@),
                None => self@.persona is None,
            },
    {
        self.persona.as_ref()
    }

    /// The tools that the agent offers to the model.
    pub fn tools(&self) -> (r: &Vec<AgentTool>)
        ensures
            tool_views(r@) == self@.tools,
    {
        &self.tools
    }

    /// The transcript.
    pub fn messages(&self) -> (r: &Vec<(Role, String)>)
        ensures
            entries(r@) == self@.transcript,
    {
        &self.messages
    }

    /// Where the agent stands.
    pub fn stage(&self) -> (r: Stage)
        ensures
            r == self@.stage,
    {
        self.stage
    }

    /// Whether an `End` directive was met.
    pub fn should_exit(&self) -> (r: bool)
        ensures
            r == self@.terminal,
    {
        self.should_exit
    }

    /// Adopts a persona. `catalog` holds the personas that lie beside it,
    /// each under the name of its file. Where the persona allows it, every
    /// persona of the catalog whose name does not begin with a dot is
    /// offered to the model as a tool. Without a persona nothing changes.
    pub fn set_persona(&mut self, persona: Option<Persona>, catalog: &Vec<(String, Persona)>)
        ensures
            final(self)@ == with_persona(old(self)@, persona_view(persona), catalog_view(catalog@)),
    {
        let persona = match persona {
            Some(p) => p,
            None => {
                return ;
            },
        };
        let ghost cat = catalog_view(catalog@);
        if persona.allow_personas_as_tools() {
            let ghost before = self@.tools;
            let mut i: usize = 0;
            assert(before + persona_tools(cat, 0) == tool_views(self.tools@) + persona_tools(
                cat,
                0,
            ));
            while i < catalog.len()
                invariant
                    i <= catalog.len(),
                    cat == catalog_view(catalog@),
                    self@ == (AgentView { tools: tool_views(self.tools@), ..old(self)@ }),
                    before + persona_tools(cat, 0) == tool_views(self.tools@) + persona_tools(
                        cat,
                        i as int,
                    ),
                decreases catalog.len() - i,
            {
                assert(cat[i as int] == (catalog@[i as int].0@, catalog@[i as int].1@));
                if !hidden(catalog[i].0.as_str()) {
                    let mut command = joined("agent-base --persona ", catalog[i].0.as_str());
                    command.append(" --task \"<task>\"");
                    let tool = AgentTool::new(
                        catalog[i].1.name(),
                        catalog[i].1.description(),
                        command.as_str(),
                    );
                    proof {
                        let now = tool_views(self.tools@);
                        assert(tool_views(self.tools@.push(tool)) == now.push(tool@));
                        assert(now + (seq![tool@] + persona_tools(cat, i + 1)) == now.push(tool@)
                            + persona_tools(cat, i + 1));
                    }
                    self.tools.push(tool);
                }
                i += 1;
            }
            assert(tool_views(self.tools@) + Seq::<ToolView>::empty() == tool_views(self.tools@));
        }
        self.persona = Some(persona);
    }

    /// Begins a run for `task`. The transcript is set to the task alone, and
    /// the model is to be asked.
    pub fn start(&mut self, task: &str) -> (r: Action)
        ensures
            final(self)@ == started(old(self)@, task@),
            r@ == ActionView::Ask,
    {
        let first = joined("The task is: ", task);
        let mut messages: Vec<(Role, String)> = Vec::new();
        messages.push((Role::User, first));
        assert(entries(messages@) =~= seq![task_entry(task@)]);
        self.cursor = 0;
        self.queue = Vec::new();
        self.messages = messages;
        self.feedback = String::new();
        self.should_exit = false;
        self.stage = Stage::Asking;
        assert(self@.pending =~= Seq::empty());
        Action::Ask
    }

    /// Fails the run.
    fn fail(&mut self, error: RunError) -> (r: Action)
        ensures
            (final(self)@, r@) == fail_of(old(self)@, error),
    {
        self.stage = Stage::Failed;
        Action::Abort { error }
    }

    /// Goes on to whatever comes next once everything before the pending
    /// directives is done.
    fn advance(&mut self) -> (r: Action)
        ensures
            (final(self)@, r@) == advance_of(old(self)@),
    {
        while self.cursor < self.queue.len()
            invariant
                advance_of(self@) == advance_of(old(self)@),
            decreases self.queue.len() - self.cursor,
        {
            let ghost before = self@;
            assert(before.pending[0] == self.queue@[self.cursor as int]@);
            match request(&self.queue[self.cursor]) {
                Some(action) => {
                    self.stage = Stage::Working;
                    return action;
                },
                None => {
                    self.should_exit = true;
                    self.cursor = self.cursor + 1;
                    assert(self@.pending =~= before.pending.skip(1));
                },
            }
        }
        let ghost before = self@;
        assert(before.pending.len() == 0);
        let text = if self.feedback.as_str().is_empty() {
            owned(
                "Please continue, use any command/tags whatever you need to. Choose the sanest option.\n                You might be missing something. Ensure you have the info about the environment that you need",
            )
        } else {
            self.feedback.clone()
        };
        assert((Role::User, text@) == round_entry(before.feedback));
        self.messages.push((Role::User, text));
        assert(self@.transcript =~= before.transcript.push(round_entry(before.feedback)));
        if self.should_exit {
            self.stage = Stage::Finished;
            Action::Finish
        } else {
            self.stage = Stage::Asking;
            Action::Ask
        }
    }

    /// Takes the model's reply. `reply` is the reply without its fence, and
    /// `parsed` is what it was read as, in whichever encoding.
    pub fn take_reply(&mut self, reply: String, parsed: Result<Vec<TaskPart>, ProtocolError>) -> (r:
        Action)
        ensures
            (final(self)@, r@) == reply_of(old(self)@, reply@, parts_outcome(parsed)),
    {
        match self.stage {
            Stage::Asking => {},
            _ => {
                return self.fail(RunError::OutOfTurn);
            },
        }
        let ghost before = self@;
        self.messages.push((Role::Model, reply));
        assert(self@.transcript =~= before.transcript.push((Role::Model, reply@)));
        match parsed {
            Err(e) => self.fail(RunError::Protocol(e)),
            Ok(parts) => {
                self.cursor = 0;
                self.queue = parts;
                self.feedback = String::new();
                assert(self@.pending =~= directives(parts@));
                self.advance()
            },
        }
    }

    /// One step of the run: takes the answer to the last request and hands
    /// out the next one. A reply is read in the structured encoding.
    pub fn step(&mut self, event: Event) -> (r: Action)
        ensures
            (final(self)@, r@) == step_of(old(self)@, event),
    {
        let ghost before = self@;
        match self.stage {
            Stage::Asking => match event {
                Event::Reply { text } => {
                    let bare = strip_fences(text.as_str());
                    let parsed = parse_response(bare.as_str());
                    self.take_reply(bare, parsed)
                },
                _ => self.fail(RunError::OutOfTurn),
            },
            Stage::Working => {
                if self.cursor >= self.queue.len() {
                    return self.fail(RunError::OutOfTurn);
                }
                assert(before.pending[0] == self.queue@[self.cursor as int]@);
                match settle(&self.queue[self.cursor], &event) {
                    Settled::Feedback { text } => {
                        if let Some(t) = text {
                            self.feedback.append(t.as_str());
                        }
                        self.cursor = self.cursor + 1;
                        assert(self@.pending =~= before.pending.skip(1));
                        self.advance()
                    },
                    Settled::Store { path, content } => {
                        self.stage = Stage::Storing;
                        Action::Write { path, content }
                    },
                    Settled::Failed { error } => self.fail(error),
                }
            },
            Stage::Storing => match event {
                Event::Done => {
                    if self.cursor >= self.queue.len() {
                        return self.fail(RunError::OutOfTurn);
                    }
                    self.cursor = self.cursor + 1;
                    assert(self@.pending =~= before.pending.skip(1));
                    self.advance()
                },
                _ => self.fail(RunError::OutOfTurn),
            },
            _ => self.fail(RunError::OutOfTurn),
        }
    }
}

/// Whether `later` holds the directives of `earlier` from some index on.
pub open spec fn is_rest_of(later: Seq<Directive>, earlier: Seq<Directive>) -> bool {
    exists|k: int| 0 <= k <= earlier.len() && later == #[trigger] earlier.skip(k)
}

/// What `advance_of` keeps: the transcript only grows, the mark of the end
/// stays, the model is not asked again once the run is marked as over, the
/// directives still pending are the last ones of those pending before, and
/// configuration, persona and tools stay as they are.
pub proof fn lemma_advance(m: AgentView)
    ensures
        m.transcript.is_prefix_of(advance_of(m).0.transcript),
        m.terminal ==> advance_of(m).0.terminal,
        advance_of(m).0.terminal ==> !(advance_of(m).1 is Ask),
        is_rest_of(advance_of(m).0.pending, m.pending),
        advance_of(m).0.config == m.config,
        advance_of(m).0.persona == m.persona,
        advance_of(m).0.tools == m.tools,
    decreases m.pending.len(),
{
    if m.pending.len() == 0 {
        assert(m.pending.skip(0) == m.pending);
    } else {
        match request_of(m.pending[0]) {
            Some(_) => {
                assert(m.pending.skip(0) == m.pending);
            },
            None => {
                let next = AgentView { pending: m.pending.skip(1), terminal: true, ..m };
                lemma_advance(next);
                let k = choose|k: int|
                    0 <= k <= next.pending.len() && advance_of(next).0.pending
                        == #[trigger] next.pending.skip(k);
                assert(next.pending.skip(k) == m.pending.skip(k + 1));
            },
        }
    }
}

/// The transcript is only ever added to: after a step it begins with what it
/// held before.
pub proof fn lemma_transcript_only_grows(m: AgentView, event: Event)
    ensures
        m.transcript.is_prefix_of(step_of(m, event).0.transcript),
{
    lemma_step(m, event);
}

/// The mark of the end is never taken back, and once it is set the model is
/// not asked again: no further round begins.
pub proof fn lemma_end_is_final(m: AgentView, event: Event)
    requires
        m.terminal,
    ensures
        step_of(m, event).0.terminal,
        !(step_of(m, event).1 is Ask),
{
    lemma_step(m, event);
}

/// Within a round the directives are carried out in the order in which they
/// stand: after a step the pending directives are the last ones of those
/// that were pending before.
pub proof fn lemma_directives_run_in_order(m: AgentView, event: Event)
    requires
        m.stage == Stage::Working || m.stage == Stage::Storing,
    ensures
        is_rest_of(step_of(m, event).0.pending, m.pending),
{
    lemma_step(m, event);
}

/// A step changes neither configuration nor persona nor tools.
pub proof fn lemma_step_keeps_setup(m: AgentView, event: Event)
    ensures
        step_of(m, event).0.config == m.config,
        step_of(m, event).0.persona == m.persona,
        step_of(m, event).0.tools == m.tools,
{
    lemma_step(m, event);
}

/// What a step keeps.
proof fn lemma_step(m: AgentView, event: Event)
    ensures
        m.transcript.is_prefix_of(step_of(m, event).0.transcript),
        m.terminal ==> step_of(m, event).0.terminal && !(step_of(m, event).1 is Ask),
        (m.stage == Stage::Working || m.stage == Stage::Storing) ==> is_rest_of(
            step_of(m, event).0.pending,
            m.pending,
        ),
        step_of(m, event).0.config == m.config,
        step_of(m, event).0.persona == m.persona,
        step_of(m, event).0.tools == m.tools,
{
    assert(m.pending.skip(0) == m.pending);
    match m.stage {
        Stage::Asking => match event {
            Event::Reply { text } => {
                let reply = without_fences(text@);
                let transcript = m.transcript.push((Role::Model, reply));
                match structured_reading(reply) {
                    Err(_) => {},
                    Ok(pending) => {
                        let next = AgentView { transcript, pending, feedback: Seq::empty(), ..m };
                        lemma_advance(next);
                    },
                }
            },
            _ => {},
        },
        Stage::Working => if m.pending.len() > 0 {
            match settle_of(m.pending[0], event) {
                SettledView::Feedback { text } => {
                    let next = AgentView {
                        pending: m.pending.skip(1),
                        feedback: with_feedback(m.feedback, text),
                        ..m
                    };
                    lemma_advance(next);
                    let k = choose|k: int|
                        0 <= k <= next.pending.len() && advance_of(next).0.pending
                            == #[trigger] next.pending.skip(k);
                    assert(next.pending.skip(k) == m.pending.skip(k + 1));
                },
                _ => {},
            }
        },
        Stage::Storing => match event {
            Event::Done => if m.pending.len() > 0 {
                let next = AgentView { pending: m.pending.skip(1), ..m };
                lemma_advance(next);
                let k = choose|k: int|
                    0 <= k <= next.pending.len() && advance_of(next).0.pending
                        == #[trigger] next.pending.skip(k);
                assert(next.pending.skip(k) == m.pending.skip(k + 1));
            },
            _ => {},
        },
        _ => {},
    }
}

/// `advance_of` never gives up the run.
pub proof fn lemma_advance_does_not_abort(m: AgentView)
    ensures
        !(advance_of(m).1 is Abort),
        advance_of(m).0.stage != Stage::Failed,
        advance_of(m).0.feedback == m.feedback,
    decreases m.pending.len(),
{
    if m.pending.len() > 0 {
        match request_of(m.pending[0]) {
            Some(_) => {},
            None => {
                lemma_advance_does_not_abort(
                    AgentView { pending: m.pending.skip(1), terminal: true, ..m },
                );
            },
        }
    }
}

/// A file that is to be read and does not exist does not end the run: the
/// notice that it is missing is added to the feedback, and the round goes on.
pub proof fn lemma_missing_file_is_reported(m: AgentView, path: Seq<char>)
    requires
        m.stage == Stage::Working,
        m.pending.len() > 0,
        m.pending[0] == (Directive::FileRead { path }),
    ensures
        !(step_of(m, Event::Loaded { content: None }).1 is Abort),
        step_of(m, Event::Loaded { content: None }).0.stage != Stage::Failed,
        step_of(m, Event::Loaded { content: None }).0.feedback == m.feedback
            + crate::executor::read_report(path, None),
{
    let next = AgentView {
        pending: m.pending.skip(1),
        feedback: m.feedback + crate::executor::read_report(path, None),
        ..m
    };
    lemma_advance_does_not_abort(next);
}

/// A reply that holds a message and then the end: the message is shown
/// first, and once it has been shown the run finishes. The model is not
/// asked again.
pub proof fn lemma_message_then_end(
    m: AgentView,
    reply: Seq<char>,
    text: Seq<char>,
    reason: Seq<char>,
)
    requires
        m.stage == Stage::Asking,
    ensures
        ({
            let parts = seq![Directive::Message { text }, Directive::End { reason }];
            let shown = reply_of(m, reply, Ok(parts));
            let done = step_of(shown.0, Event::Done);
            &&& shown.1 == (ActionView::Show { text })
            &&& shown.0.stage == Stage::Working
            &&& done.1 == ActionView::Finish
            &&& done.0.stage == Stage::Finished
            &&& done.0.terminal
        }),
{
    let parts = seq![Directive::Message { text }, Directive::End { reason }];
    let shown = reply_of(m, reply, Ok(parts));
    assert(shown.0.pending == parts);
    let rest = parts.skip(1);
    assert(rest.len() == 1 && rest[0] == (Directive::End { reason }));
    assert(rest.skip(1).len() == 0);
    reveal_with_fuel(advance_of, 3);
}

} // verus!
