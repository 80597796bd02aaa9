use vstd::prelude::*;

use crate::runtime::{GenerateArgs, GeneratorError, GeneratorMetadata};
use crate::module::Module;

verus! {

/// The payload of a response.
pub enum ResponseData {
    /// The generator's identity, the answer to `getManifest`.
    Manifest { pretty_name: String, default_output: String },
    /// Success without a payload, the answer to a successful `generate`.
    Null,
    /// A failure with a code and a message.
    Error { code: i64, message: String },
}

/// One response, echoing the identifier of its request.
pub struct Response {
    pub id: serde_json::Value,
    pub data: ResponseData,
}

/// Where a session stands: answering queries, waiting for the outcome of its one
/// generation, or over.
#[derive(Clone, Copy, Debug, PartialEq, Eq, Structural)]
pub enum SessionState {
    Handshaking,
    Generating,
    Terminated,
}

/// What the host of a session does with a request.
pub enum Step {
    /// Send this response and read the next request.
    Respond(Response),
    /// Run the generation on these parameters, then hand its outcome to the session.
    Generate { id: serde_json::Value, params: serde_json::Value },
}

/// One conversation with the host: any number of queries, then one generation.
pub struct Session {
    pub state: SessionState,
}

/// `<name> cannot handle method <method>`.
pub open spec fn unknown_method_message(name: Seq<char>, method: Seq<char>) -> Seq<char> {
    name + " cannot handle method "@ + method
}

/// The state after a request with `method` in a session that answers queries.
pub open spec fn next_state(method: Seq<char>) -> SessionState {
    if method == "generate"@ {
        SessionState::Generating
    } else {
        SessionState::Handshaking
    }
}

/// The payload is an error of code 0 with this message.
pub open spec fn is_error(data: ResponseData, message: Seq<char>) -> bool {
    match data {
        ResponseData::Error { code, message: m } => code == 0 && m@ == message,
        _ => false,
    }
}

/// The step answers with the manifest of this name and default output.
pub open spec fn manifest_step(
    r: Step,
    id: serde_json::Value,
    name: Seq<char>,
    default_output: Seq<char>,
) -> bool {
    match r {
        Step::Respond(resp) => resp.id == id && match resp.data {
            ResponseData::Manifest { pretty_name, default_output: d } => pretty_name@ == name
                && d@ == default_output,
            _ => false,
        },
        _ => false,
    }
}

/// The step hands these parameters to the generation.
pub open spec fn generate_step(r: Step, id: serde_json::Value, params: serde_json::Value) -> bool {
    match r {
        Step::Generate { id: gid, params: p } => gid == id && p == params,
        _ => false,
    }
}

/// The step answers with an error of code 0 and this message.
pub open spec fn error_step(r: Step, id: serde_json::Value, message: Seq<char>) -> bool {
    match r {
        Step::Respond(resp) => resp.id == id && is_error(resp.data, message),
        _ => false,
    }
}

/// A `generate` request is the last one read in a session: after it the session no longer
/// answers queries, and the answer to the generation ends it; every other request leaves
/// the session reading.
pub proof fn lemma_generate_is_last(method: Seq<char>)
    ensures
        method == "generate"@ <==> next_state(method) != SessionState::Handshaking,
        next_state(method) != SessionState::Terminated,
{
}

/// Whether two strings hold the same characters.
pub fn str_equal(a: &str, b: &str) -> (r: bool)
    ensures
        r == (a@ == b@),
{
    let n = a.unicode_len();
    if n != b.unicode_len() {
        return false;
    }
    let mut i: usize = 0;
    while i < n
        invariant
            n == a@.len(),
            n == b@.len(),
            i <= n,
            a@.subrange(0, i as int) == b@.subrange(0, i as int),
        decreases n - i,
    {
        if a.get_char(i) != b.get_char(i) {
            return false;
        }
        assert(a@.subrange(0, i + 1) =~= a@.subrange(0, i as int).push(a@[i as int]));
        assert(b@.subrange(0, i + 1) =~= b@.subrange(0, i as int).push(b@[i as int]));
        i = i + 1;
    }
    assert(a@ =~= a@.subrange(0, n as int));
    assert(b@ =~= b@.subrange(0, n as int));
    true
}

impl Session {
    pub fn new() -> (r: Session)
        ensures
            r.state == SessionState::Handshaking,
    {
        Session { state: SessionState::Handshaking }
    }

    /// Whether the session reads another request.
    pub fn is_open(&self) -> (r: bool)
        ensures
            r == (self.state == SessionState::Handshaking),
    {
        self.state == SessionState::Handshaking
    }

    /// Answers one request. `getManifest` is answered with the generator's name and default
    /// output, whatever its parameters; `generate` hands the parameters back to be
    /// generated and ends the reading of requests; any other method is answered with an
    /// error of code 0 naming the generator and the method.
    pub fn handle<F: Fn(GenerateArgs) -> Result<Module, GeneratorError>>(
        &mut self,
        meta: &GeneratorMetadata<F>,
        id: serde_json::Value,
        method: &str,
        params: serde_json::Value,
    ) -> (r: Step)
        requires
            old(self).state == SessionState::Handshaking,
        ensures
            final(self).state == next_state(method@),
            method@ == "getManifest"@ ==> manifest_step(r, id, meta.name@, meta.default_output@),
            method@ == "generate"@ ==> generate_step(r, id, params),
            method@ != "getManifest"@ && method@ != "generate"@ ==> error_step(
                r,
                id,
                unknown_method_message(meta.name@, method@),
            ),
    {
        proof {
            reveal_strlit("getManifest");
            reveal_strlit("generate");
            assert("getManifest"@.len() != "generate"@.len());
        }
        if str_equal(method, "getManifest") {
            let data = ResponseData::Manifest {
                pretty_name: String::from_str(meta.name),
                default_output: String::from_str(meta.default_output),
            };
            Step::Respond(Response { id, data })
        } else if str_equal(method, "generate") {
            self.state = SessionState::Generating;
            Step::Generate { id, params }
        } else {
            let mut message = String::from_str(meta.name);
            message.append(" cannot handle method ");
            message.append(method);
            Step::Respond(Response { id, data: ResponseData::Error { code: 0, message } })
        }
    }

    /// Answers the generation with its outcome and ends the session: success without a
    /// payload, or the generator's message with code 0.
    pub fn finish_generate(&mut self, id: serde_json::Value, outcome: Result<(), GeneratorError>) -> (r:
        Response)
        requires
            old(self).state == SessionState::Generating,
        ensures
            final(self).state == SessionState::Terminated,
            r.id == id,
            outcome is Ok ==> r.data is Null,
            outcome matches Err(e) ==> is_error(r.data, e.message@),
    {
        self.state = SessionState::Terminated;
        match outcome {
            Ok(()) => Response { id, data: ResponseData::Null },
            Err(e) => Response { id, data: ResponseData::Error { code: 0, message: e.message } },
        }
    }
}

} // verus!
