//! Prompt construction for the completion request, and the reading of the
//! user's approval answer.

use vstd::prelude::*;
use vstd::string::StringExecFns;
use crate::text::{spec_trim_front, skip_ws};

verus! {

/// One chat message of the completion request.
pub struct Message {
    pub role: String,
    pub content: String,
}

/// The fixed system instruction sent with every request.
pub open spec fn system_instruction() -> Seq<char> {
    "You are a terminal command planner. Given a user request and project context, respond with ONLY a JSON object containing fields: \"command\", \"explanation\", and optionally \"summary\". Do not include any other text, explanations, or formatting. The \"command\" must be a single shell command. Example: {\"command\": \"ls\", \"explanation\": \"Lists files in the current directory\"}. Return \"summary\" only when the command involves multiple steps, non-trivial options, or could surprise the user; otherwise omit it. You must always propose a best-effort command even if information is missing—do not ask follow-up questions. If critical context is unavailable, make a reasonable assumption and mention it in \"explanation\". You cannot execute additional tools yourself; suggest only the command a user should run. If a safe command truly cannot be produced, return JSON with an empty \"command\" and a short explanation."@
}

/// Build the two-message prompt: the fixed system instruction, then the
/// user's task framed with the gathered context.
pub fn build_prompt(task: &str, context: &str) -> (r: Vec<Message>)
    ensures
        r@.len() == 2,
        r@[0].role@ == "system"@,
        r@[0].content@ == system_instruction(),
        r@[1].role@ == "user"@,
        r@[1].content@ == "Task: "@ + task@ + "\n\nContext:\n"@ + context@,
{
    let system_message = Message {
        role: "system".to_owned(),
        content: "You are a terminal command planner. Given a user request and project context, respond with ONLY a JSON object containing fields: \"command\", \"explanation\", and optionally \"summary\". Do not include any other text, explanations, or formatting. The \"command\" must be a single shell command. Example: {\"command\": \"ls\", \"explanation\": \"Lists files in the current directory\"}. Return \"summary\" only when the command involves multiple steps, non-trivial options, or could surprise the user; otherwise omit it. You must always propose a best-effort command even if information is missing—do not ask follow-up questions. If critical context is unavailable, make a reasonable assumption and mention it in \"explanation\". You cannot execute additional tools yourself; suggest only the command a user should run. If a safe command truly cannot be produced, return JSON with an empty \"command\" and a short explanation.".to_owned(),
    };
    let user_content = "Task: ".to_owned().concat(task).concat("\n\nContext:\n").concat(context);
    let user_message = Message { role: "user".to_owned(), content: user_content };
    let mut r: Vec<Message> = Vec::new();
    r.push(system_message);
    r.push(user_message);
    r
}

/// Whether an answer approves execution: after leading whitespace
/// characters, it starts with a `y` of either case.
pub open spec fn spec_approves(input: Seq<u8>) -> bool {
    let t = spec_trim_front(input);
    t.len() > 0 && (t[0] == 121 || t[0] == 89)
}

/// Read the user's answer to the execution prompt: anything that starts,
/// after whitespace, with `y` or `Y` approves; everything else declines.
pub fn approves(input: &Vec<u8>) -> (r: bool)
    ensures
        r == spec_approves(input@),
{
    proof {
        assert(input@.skip(0) =~= input@);
    }
    let lo = skip_ws(input, 0);
    if lo < input.len() {
        let b = input[lo];
        proof {
            assert(input@.skip(lo as int)[0] == input@[lo as int]);
        }
        b == 121 || b == 89
    } else {
        proof {
            assert(input@.skip(lo as int) =~= Seq::<u8>::empty());
        }
        false
    }
}

} // verus!
