use vstd::prelude::*;
use serde_json::Value as JsonValue;

verus! {

/// `serde_json::Value`: a JSON document, carried through unread.
#[verifier::external_type_specification]
#[verifier::external_body]
pub struct ExJsonValue(JsonValue);

/// A command that the front end can ask the backend to carry out.
pub trait DebuggerCommand: Sized {
    /// The name under which requests for this command arrive.
    const TYPE: &'static str;

    /// What carrying out the command gives back.
    type Response;
}

/// A request from the front end: its id, the command's name, and the
/// command's arguments as JSON.
pub struct DebuggerCommandRequest {
    pub id: u64,
    pub ty: String,
    pub command: JsonValue,
}

impl DebuggerCommandRequest {
    /// A request with the given parts.
    pub fn new(id: u64, ty: String, command: JsonValue) -> (r: Self)
        ensures
            r.id == id,
            r.ty == ty,
            r.command == command,
    {
        DebuggerCommandRequest { id, ty, command }
    }

    /// The name of the requested command.
    pub fn ty(&self) -> (t: &str)
        ensures
            t@ == self.ty@,
    {
        self.ty.as_str()
    }
}

/// The answer to a request: the request's id and command name, and the
/// command's result as JSON.
pub struct DebuggerCommandResponse {
    pub request_id: u64,
    pub request_ty: String,
    pub response: JsonValue,
}

/// Routes one request to the first handler registered for its command.
pub struct DebuggerCommandDispatcher<'a, Cx> {
    pub context: &'a mut Cx,
    pub request: DebuggerCommandRequest,
    pub result: Option<DebuggerCommandResponse>,
}

impl<'a, Cx> DebuggerCommandDispatcher<'a, Cx> {
    /// Whether the handler of a command named `command_type` is to run: no
    /// handler has answered yet, and the request names that command.
    pub open spec fn spec_accepts(&self, command_type: Seq<char>) -> bool {
        self.result is None && self.request.ty@ == command_type
    }

    /// A dispatcher for `request` that has not answered it yet.
    pub fn new(context: &'a mut Cx, request: DebuggerCommandRequest) -> (d: Self)
        ensures
            *d.context == *old(context),
            d.request == request,
            d.result is None,
    {
        DebuggerCommandDispatcher { context, request, result: None }
    }

    /// Whether the handler of a command named `command_type` is to run.
    pub fn accepts(&self, command_type: &str) -> (b: bool)
        ensures
            b == self.spec_accepts(command_type@),
            b == (self.result is None && self.request.ty@ == command_type@),
    {
        if self.result.is_some() {
            return false;
        }
        let wanted = command_type.to_owned();
        self.request.ty == wanted
    }

    /// Records `response`, a handler's result, as the answer to the request.
    pub fn respond(&mut self, response: JsonValue)
        requires
            old(self).result is None,
        ensures
            *final(self).context == *old(self).context,
            final(self).request == old(self).request,
            final(self).result matches Some(r) && r.request_id == old(self).request.id
                && r.request_ty@ == old(self).request.ty@ && r.response == response,
    {
        let request_ty = self.request.ty.clone();
        self.result = Some(
            DebuggerCommandResponse { request_id: self.request.id, request_ty, response },
        );
    }

    /// The answer to the request, if a handler gave one.
    pub fn finish(self) -> (r: Option<DebuggerCommandResponse>)
        ensures
            r == self.result,
    {
        self.result
    }
}

/// A dispatcher accepts a command exactly when it has not answered and the
/// request's command name equals the command's, character for character and
/// in full length.
pub proof fn lemma_accepts_whole_name<'a, Cx>(
    d: DebuggerCommandDispatcher<'a, Cx>,
    command_type: Seq<char>,
)
    ensures
        d.spec_accepts(command_type) <==> {
            &&& d.result is None
            &&& d.request.ty@.len() == command_type.len()
            &&& forall|i: int| 0 <= i < command_type.len() ==> d.request.ty@[i] == command_type[i]
        },
{
    if d.result is None && d.request.ty@.len() == command_type.len() && (forall|i: int|
        0 <= i < command_type.len() ==> d.request.ty@[i] == command_type[i]) {
        assert(d.request.ty@ =~= command_type);
    }
}

/// Once a request is answered, no further handler runs for it.
pub proof fn lemma_answered_request_accepts_nothing<'a, Cx>(
    d: DebuggerCommandDispatcher<'a, Cx>,
    command_type: Seq<char>,
)
    requires
        d.result is Some,
    ensures
        !d.spec_accepts(command_type),
{
}

/// The command that executes one instruction of the debuggee.
pub struct SingleStep {}

impl DebuggerCommand for SingleStep {
    const TYPE: &'static str = "single_step";

    type Response = ();
}

} // verus!
