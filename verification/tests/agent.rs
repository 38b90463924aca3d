use fash::agent::{Agent, Role, Stage};
use fash::agent_tool::AgentTool;
use fash::config::Config;
use fash::error::{EditError, ProtocolError, RunError};
use fash::executor::{report_run, Action, Event};
use fash::parser::parse_markup;
use fash::persona::Persona;

const NUDGE: &str = "Please continue, use any command/tags whatever you need to. Choose the sanest option.\n                You might be missing something. Ensure you have the info about the environment that you need";

fn agent() -> Agent {
    Agent::new(Config::new(None, "/data/personas"))
}

fn reply(text: &str) -> Event {
    Event::Reply { text: text.to_string() }
}

fn said(agent: &Agent) -> Vec<(Role, String)> {
    agent.messages().clone()
}

#[test]
fn a_new_agent_has_not_begun() {
    let a = agent();
    assert_eq!(a.stage(), Stage::Idle);
    assert!(a.messages().is_empty());
    assert!(a.tools().is_empty());
    assert!(a.persona().is_none());
    assert!(!a.should_exit());
    assert_eq!(a.config().persona_dir(), "/data/personas");
}

#[test]
fn a_run_begins_with_the_task() {
    let mut a = agent();
    assert_eq!(a.start("fix it"), Action::Ask);
    assert_eq!(a.stage(), Stage::Asking);
    assert_eq!(said(&a), vec![(Role::User, "The task is: fix it".to_string())]);
}

#[test]
fn a_message_is_shown_before_the_run_ends() {
    let mut a = agent();
    a.start("greet");
    let text = "[{\"type\":\"message\",\"text\":\"Hello!\"},{\"type\":\"end\",\"reason\":\"done\"}]";
    assert_eq!(a.step(reply(text)), Action::Show { text: "Hello!".to_string() });
    assert_eq!(a.stage(), Stage::Working);
    assert_eq!(a.step(Event::Done), Action::Finish);
    assert_eq!(a.stage(), Stage::Finished);
    assert!(a.should_exit());
    assert_eq!(
        said(&a),
        vec![
            (Role::User, "The task is: greet".to_string()),
            (Role::Model, text.to_string()),
            (Role::User, NUDGE.to_string()),
        ]
    );
    assert_eq!(a.step(Event::Done), Action::Abort { error: RunError::OutOfTurn });
}

#[test]
fn directives_beside_an_end_are_still_carried_out() {
    let mut a = agent();
    a.start("t");
    let text = "[{\"type\":\"end\",\"reason\":\"done\"},{\"type\":\"run\",\"command\":\"ls\"}]";
    assert_eq!(a.step(reply(text)), Action::Spawn { command: "ls".to_string() });
    assert!(a.should_exit());
    let exited = Event::Exited {
        output: "a\n".to_string(),
        error: String::new(),
        status: "exit status: 0".to_string(),
    };
    assert_eq!(a.step(exited), Action::Finish);
    assert_eq!(said(&a)[2], (Role::User, report_run("ls", "a\n", "", "exit status: 0")));
}

#[test]
fn a_round_without_end_asks_the_model_again() {
    let mut a = agent();
    a.start("t");
    assert_eq!(
        a.step(reply("[{\"type\":\"reason\",\"text\":\"thinking\"}]")),
        Action::Trace { text: "thinking".to_string() }
    );
    assert_eq!(a.step(Event::Done), Action::Ask);
    assert_eq!(a.stage(), Stage::Asking);
    assert_eq!(said(&a)[2], (Role::User, NUDGE.to_string()));
    assert_eq!(a.step(reply("[]")), Action::Ask);
    assert_eq!(said(&a).len(), 5);
}

#[test]
fn the_fence_is_taken_away_before_the_reply_is_kept() {
    let mut a = agent();
    a.start("t");
    assert_eq!(a.step(reply("```json[]```")), Action::Ask);
    assert_eq!(said(&a)[1], (Role::Model, "[]".to_string()));
}

#[test]
fn reading_a_missing_file_does_not_end_the_run() {
    let mut a = agent();
    a.start("t");
    assert_eq!(
        a.step(reply("[{\"type\":\"file-read\",\"path\":\"nope.txt\"}]")),
        Action::Read { path: "nope.txt".to_string() }
    );
    assert_eq!(a.step(Event::Loaded { content: None }), Action::Ask);
    assert_eq!(a.stage(), Stage::Asking);
    assert_eq!(said(&a)[2], (Role::User, "The file `nope.txt` does not exist.".to_string()));
}

#[test]
fn feedback_is_collected_in_the_order_of_the_directives() {
    let mut a = agent();
    a.start("t");
    let text = "[{\"type\":\"file-read\",\"path\":\"a\"},{\"type\":\"message\",\"text\":\"m\"},{\"type\":\"file-read\",\"path\":\"b\"}]";
    assert_eq!(a.step(reply(text)), Action::Read { path: "a".to_string() });
    assert_eq!(
        a.step(Event::Loaded { content: Some("x".to_string()) }),
        Action::Show { text: "m".to_string() }
    );
    assert_eq!(a.step(Event::Done), Action::Read { path: "b".to_string() });
    assert_eq!(a.step(Event::Loaded { content: None }), Action::Ask);
    assert_eq!(
        said(&a)[2],
        (
            Role::User,
            "The content of the file `a` is:\n```\n1: x\n```The file `b` does not exist."
                .to_string()
        )
    );
}

#[test]
fn a_line_is_inserted_by_reading_and_writing() {
    let mut a = agent();
    a.start("t");
    let text = "[{\"type\":\"file-write-add\",\"path\":\"a.txt\",\"start\":0,\"content\":\"X\"},{\"type\":\"end\",\"reason\":\"r\"}]";
    assert_eq!(a.step(reply(text)), Action::Read { path: "a.txt".to_string() });
    assert_eq!(
        a.step(Event::Loaded { content: Some("a\nb\nc".to_string()) }),
        Action::Write { path: "a.txt".to_string(), content: "X\na\nb\nc".to_string() }
    );
    assert_eq!(a.stage(), Stage::Storing);
    assert_eq!(a.step(Event::Done), Action::Finish);
    assert_eq!(said(&a)[2], (Role::User, NUDGE.to_string()));
}

#[test]
fn replacing_lines_in_a_missing_file_aborts() {
    let mut a = agent();
    a.start("t");
    let text = "[{\"type\":\"file-write-replace\",\"path\":\"a.txt\",\"start\":1,\"end\":2,\"content\":\"X\"}]";
    assert_eq!(a.step(reply(text)), Action::Read { path: "a.txt".to_string() });
    assert_eq!(
        a.step(Event::Loaded { content: None }),
        Action::Abort { error: RunError::MissingFile }
    );
    assert_eq!(a.stage(), Stage::Failed);
}

#[test]
fn an_edit_outside_the_file_aborts() {
    let mut a = agent();
    a.start("t");
    let text = "[{\"type\":\"file-write-add\",\"path\":\"a.txt\",\"start\":7,\"content\":\"X\"}]";
    a.step(reply(text));
    assert_eq!(
        a.step(Event::Loaded { content: Some("a".to_string()) }),
        Action::Abort { error: RunError::Edit(EditError::StartPastEnd) }
    );
}

#[test]
fn a_reply_that_cannot_be_read_aborts_and_nothing_is_carried_out() {
    let mut a = agent();
    a.start("t");
    assert_eq!(
        a.step(reply("[{\"type\":\"message\",\"text\":\"hi\"},{\"type\":\"dance\"}]")),
        Action::Abort { error: RunError::Protocol(ProtocolError::UnknownKind) }
    );
    assert_eq!(a.stage(), Stage::Failed);
    assert_eq!(said(&a).len(), 2);
    assert_eq!(a.step(Event::Done), Action::Abort { error: RunError::OutOfTurn });
}

#[test]
fn an_event_out_of_turn_aborts() {
    let mut a = agent();
    assert_eq!(a.step(reply("[]")), Action::Abort { error: RunError::OutOfTurn });
    let mut a = agent();
    a.start("t");
    assert_eq!(a.step(Event::Done), Action::Abort { error: RunError::OutOfTurn });
    let mut a = agent();
    a.start("t");
    a.step(reply("[{\"type\":\"run\",\"command\":\"ls\"}]"));
    assert_eq!(a.step(reply("[]")), Action::Abort { error: RunError::OutOfTurn });
}

#[test]
fn a_reply_in_markup_can_be_handed_in_read() {
    let mut a = agent();
    a.start("t");
    let text = "<message>hi</message><end>r</end>";
    assert_eq!(
        a.take_reply(text.to_string(), parse_markup(text)),
        Action::Show { text: "hi".to_string() }
    );
    assert_eq!(a.step(Event::Done), Action::Finish);
    let mut b = agent();
    assert_eq!(
        b.take_reply(text.to_string(), parse_markup(text)),
        Action::Abort { error: RunError::OutOfTurn }
    );
}

#[test]
fn starting_again_clears_the_transcript() {
    let mut a = agent();
    a.start("one");
    a.step(reply("[{\"type\":\"end\",\"reason\":\"r\"}]"));
    assert_eq!(a.stage(), Stage::Finished);
    assert_eq!(a.start("two"), Action::Ask);
    assert!(!a.should_exit());
    assert_eq!(said(&a), vec![(Role::User, "The task is: two".to_string())]);
}

#[test]
fn a_persona_brings_the_other_personas_as_tools() {
    let mut a = agent();
    let me = Persona::new("coder", "writes code", "be brief", Some(true));
    let catalog = vec![
        ("coder".to_string(), Persona::new("coder", "writes code", "be brief", Some(true))),
        (".hidden".to_string(), Persona::new("ghost", "unseen", "", None)),
        ("poet".to_string(), Persona::new("poet", "writes verse", "rhyme", None)),
    ];
    a.set_persona(Some(me.clone()), &catalog);
    assert_eq!(a.persona(), Some(&me));
    assert_eq!(
        a.tools().clone(),
        vec![
            AgentTool::new("coder", "writes code", "agent-base --persona coder --task \"<task>\""),
            AgentTool::new("poet", "writes verse", "agent-base --persona poet --task \"<task>\""),
        ]
    );
}

#[test]
fn a_persona_that_does_not_allow_it_brings_no_tools() {
    let catalog = vec![("poet".to_string(), Persona::new("poet", "writes verse", "rhyme", None))];
    let mut a = agent();
    a.set_persona(Some(Persona::new("coder", "d", "i", None)), &catalog);
    assert!(a.tools().is_empty());
    assert_eq!(a.persona().map(|p| p.name().to_string()), Some("coder".to_string()));
    let mut b = agent();
    b.set_persona(Some(Persona::new("coder", "d", "i", Some(false))), &catalog);
    assert!(b.tools().is_empty());
    let mut c = agent();
    c.set_persona(None, &catalog);
    assert!(c.persona().is_none());
    assert!(c.tools().is_empty());
}

#[test]
fn roles_have_the_names_of_the_service() {
    assert_eq!(Role::User.as_str(), "user");
    assert_eq!(Role::Model.as_str(), "model");
}
