//! The instruction that goes to the model with every request.

use vstd::prelude::*;
use vstd::string::StringExecFns;
use crate::agent_tool::{AgentTool, ToolView};
use crate::persona::{Persona, PersonaView};
use crate::agent::{persona_view, tool_views};
use crate::text::{joined, owned};

verus! {

/// How every instruction begins.
pub open spec fn preamble() -> Seq<char> {
    "You are an instance of fash. You live at https://github.com/maheshbansod/fash-cli .\nYou are an autonomous agent that will be run in a terminal with very limited user interaction.\n\n"@
}

/// What the instruction says of the persona. Without a persona it says nothing.
pub open spec fn persona_part(persona: Option<PersonaView>) -> Seq<char> {
    match persona {
        Some(p) => "The persona you need to adopt is:\n"@ + p.name + " - "@ + p.description
            + "\n"@ + p.instructions,
        None => Seq::empty(),
    }
}

/// What the instruction says of one tool.
pub open spec fn tool_entry(tool: ToolView) -> Seq<char> {
    tool.name + "\n"@ + tool.description + "\nCommand: "@ + tool.execution_command
}

/// The entries of the tools, with an empty line between each two.
pub open spec fn tool_list(tools: Seq<ToolView>) -> Seq<char>
    decreases tools.len(),
{
    if tools.len() == 0 {
        Seq::empty()
    } else if tools.len() == 1 {
        tool_entry(tools[0])
    } else {
        tool_list(tools.drop_last()) + "\n\n"@ + tool_entry(tools.last())
    }
}

/// What the instruction says of the tools. Without tools it says nothing.
pub open spec fn tools_part(tools: Seq<ToolView>) -> Seq<char> {
    if tools.len() == 0 {
        Seq::empty()
    } else {
        "You can use the following tools:\n"@ + tool_list(tools)
    }
}

/// The instruction: the preamble, the system prompt, the persona, the
/// description of the response format, and the tools.
pub open spec fn instruction_of(
    system_prompt: Seq<char>,
    persona: Option<PersonaView>,
    tools: Seq<ToolView>,
    response_format: Seq<char>,
) -> Seq<char> {
    preamble() + system_prompt + "\n\n"@ + persona_part(persona) + "\n\n"@ + response_format
        + "\n\n"@ + tools_part(tools)
}

/// Writes what the instruction says of the persona.
fn write_persona(persona: Option<&Persona>) -> (r: String)
    ensures
        r@ == persona_part(
            match persona {
                Some(p) => Some(p@),
                None => None,
            },
        ),
{
    match persona {
        Some(p) => {
            let mut out = joined("The persona you need to adopt is:\n", p.name());
            out.append(" - ");
            out.append(p.description());
            out.append("\n");
            out.append(p.instructions());
            out
        },
        None => String::new(),
    }
}

/// Writes what the instruction says of the tools.
fn write_tools(tools: &Vec<AgentTool>) -> (r: String)
    ensures
        r@ == tools_part(tool_views(tools@)),
{
    if tools.len() == 0 {
        return String::new();
    }
    let mut list = String::new();
    let mut i: usize = 0;
    while i < tools.len()
        invariant
            i <= tools.len(),
            list@ == tool_list(tool_views(tools@).take(i as int)),
        decreases tools.len() - i,
    {
        proof {
            let now = tool_views(tools@).take(i + 1);
            assert(now.drop_last() == tool_views(tools@).take(i as int));
            assert(now.last() == tools@[i as int]@);
        }
        let mut entry = joined(tools[i].name(), "\n");
        entry.append(tools[i].description());
        entry.append("\nCommand: ");
        entry.append(tools[i].execution_command());
        if i > 0 {
            list.append("\n\n");
        } else {
            assert(Seq::<char>::empty() + entry@ == entry@);
        }
        list.append(entry.as_str());
        i += 1;
    }
    assert(tool_views(tools@).take(tools.len() as int) == tool_views(tools@));
    joined("You can use the following tools:\n", list.as_str())
}

/// Writes the instruction.
pub fn instruction(
    system_prompt: &str,
    persona: Option<&Persona>,
    tools: &Vec<AgentTool>,
    response_format: &str,
) -> (r: String)
    ensures
        r@ == instruction_of(
            system_prompt@,
            match persona {
                Some(p) => Some(p@),
                None => None,
            },
            tool_views(tools@),
            response_format@,
        ),
{
    let mut out = joined(
        "You are an instance of fash. You live at https://github.com/maheshbansod/fash-cli .\nYou are an autonomous agent that will be run in a terminal with very limited user interaction.\n\n",
        system_prompt,
    );
    out.append("\n\n");
    out.append(write_persona(persona).as_str());
    out.append("\n\n");
    out.append(response_format);
    out.append("\n\n");
    out.append(write_tools(tools).as_str());
    out
}

} // verus!
