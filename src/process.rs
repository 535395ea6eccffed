use vstd::prelude::*;
use crate::error::AgentError;
use crate::extract::{extract_structured_output, marker_texts, structured_answer};
use crate::json::JsonValue;

verus! {

/// One call of the agent: what to ask, the JSON Schema the answer must meet,
/// and the model to ask. `prepare_invocation` builds it with all three
/// non-empty.
pub struct Invocation {
    pub prompt: String,
    pub schema: String,
    pub model: String,
}

impl Invocation {
    pub open spec fn well_formed(&self) -> bool {
        &&& self.prompt@.len() > 0
        &&& self.schema@.len() > 0
        &&& self.model@.len() > 0
    }

    /// The command-line arguments of the agent, in batch mode with JSON
    /// output and the schema enforced; the prompt goes to its input instead.
    pub fn arguments(&self) -> (r: Vec<String>)
        ensures
            r@.map_values(|a: String| a@) == seq![
                "-p"@,
                "--output-format"@,
                "json"@,
                "--model"@,
                self.model@,
                "--json-schema"@,
                self.schema@,
            ],
    {
        let mut r: Vec<String> = Vec::new();
        r.push("-p".to_owned());
        r.push("--output-format".to_owned());
        r.push("json".to_owned());
        r.push("--model".to_owned());
        r.push(self.model.as_str().to_owned());
        r.push("--json-schema".to_owned());
        r.push(self.schema.as_str().to_owned());
        assert(r@.map_values(|a: String| a@) =~= seq![
            "-p"@,
            "--output-format"@,
            "json"@,
            "--model"@,
            self.model@,
            "--json-schema"@,
            self.schema@,
        ]);
        r
    }
}

pub open spec fn present(s: Option<&str>) -> bool {
    s matches Some(x) && x@.len() > 0
}

/// Checks a caller's inputs before anything is started: a missing or empty
/// prompt, then schema, then model, is refused.
pub fn prepare_invocation(prompt: Option<&str>, schema: Option<&str>, model: &str) -> (r: Result<
    Invocation,
    AgentError,
>)
    ensures
        !present(prompt) ==> r matches Err(AgentError::MissingPrompt),
        present(prompt) && !present(schema) ==> r matches Err(AgentError::MissingSchema),
        present(prompt) && present(schema) && model@.len() == 0 ==> r matches Err(
            AgentError::MissingModel,
        ),
        present(prompt) && present(schema) && model@.len() > 0 ==> (r matches Ok(inv)
            && inv.prompt@ == prompt.unwrap()@ && inv.schema@ == schema.unwrap()@ && inv.model@
            == model@ && inv.well_formed()),
{
    let prompt = match prompt {
        Some(p) if !p.is_empty() => p,
        _ => return Err(AgentError::MissingPrompt),
    };
    let schema = match schema {
        Some(s) if !s.is_empty() => s,
        _ => return Err(AgentError::MissingSchema),
    };
    if model.is_empty() {
        return Err(AgentError::MissingModel);
    }
    Ok(Invocation { prompt: prompt.to_owned(), schema: schema.to_owned(), model: model.to_owned() })
}

/// What a finished agent process amounts to. A failure status gives its
/// error stream, whatever the standard output held; success gives the answer
/// recovered from the standard output.
pub fn finish_invocation(exit_success: bool, stdout: &str, stderr: &str, markers: &Vec<String>) -> (r:
    Result<JsonValue, AgentError>)
    ensures
        !exit_success ==> (r matches Err(AgentError::Failed(e)) && e@ == stderr@),
        exit_success ==> match structured_answer(stdout@, marker_texts(markers@)) {
            Some(a) => r == Ok::<JsonValue, AgentError>(a),
            None => r matches Err(AgentError::UnrecognizedOutput(out)) && out@ == stdout@,
        },
{
    if !exit_success {
        return Err(AgentError::Failed(stderr.to_owned()));
    }
    extract_structured_output(stdout, markers)
}

} // verus!
