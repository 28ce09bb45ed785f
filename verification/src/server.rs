//! The server side of a client: handlers for the method calls and notifications that the
//! remote end sends, the dispatch of incoming calls to them, and the responses.
use crate::id_generator::IdGenerator;
use crate::text::same_text;
use crate::types::{Call, Failure, Id, IdView, MethodCall, Notification, Output, Request, Response, RpcError, Version, ErrorCode, code_description};
use vstd::prelude::*;
use vstd::string::StringExecFns;

verus! {

/// A callback for incoming method calls (`M`) or notifications (`N`).
#[derive(Debug)]
pub enum Handler<M, N> {
    /// Method handler.
    Method(M),
    /// Notification handler.
    Notification(N),
}

impl<M, N> Handler<M, N> {
    /// Names the kind of the handler.
    pub fn description(&self) -> (text: &'static str)
        ensures
            self is Method ==> text@ == "method"@,
            self is Notification ==> text@ == "notification"@,
    {
        match self {
            Handler::Method(_) => "method",
            Handler::Notification(_) => "notification",
        }
    }
}

/// Failure kinds that can occur when managing the handlers.
#[derive(Debug, Clone, Copy, PartialEq, Eq, Structural)]
pub enum HandlerError {
    /// A handler for the name already exists.
    AlreadyExists,
    /// There is no handler for the name.
    NoHandler,
    /// The server is already shutting down.
    Shutdown,
}

/// The message that describes a handler error.
pub open spec fn handler_error_message(kind: HandlerError) -> Seq<char> {
    match kind {
        HandlerError::AlreadyExists => "HandlerError - Handler for the given method name is already set"@,
        HandlerError::NoHandler => "HandlerError - Handler for the given method name does not exist"@,
        HandlerError::Shutdown => "HandlerError - RPC client already shut down"@,
    }
}

impl HandlerError {
    /// Describes the error.
    pub fn message(&self) -> (text: &'static str)
        ensures
            text@ == handler_error_message(*self),
    {
        match self {
            HandlerError::AlreadyExists => "HandlerError - Handler for the given method name is already set",
            HandlerError::NoHandler => "HandlerError - Handler for the given method name does not exist",
            HandlerError::Shutdown => "HandlerError - RPC client already shut down",
        }
    }
}

/// An error returned when a handler could not be set; it gives the handler back.
#[derive(Debug)]
pub struct HandlerSettingError<M, N> {
    /// The handler that was not set.
    pub handler: Handler<M, N>,
    /// Why it was not set.
    pub kind: HandlerError,
}

impl<M, N> HandlerSettingError<M, N> {
    /// The handler could not be set because one for its name exists.
    pub fn already_exists(handler: Handler<M, N>) -> (error: Self)
        ensures
            error.handler == handler,
            error.kind == HandlerError::AlreadyExists,
    {
        Self { handler, kind: HandlerError::AlreadyExists }
    }

    /// The handler could not be set because the server is shutting down.
    pub fn shutdown(handler: Handler<M, N>) -> (error: Self)
        ensures
            error.handler == handler,
            error.kind == HandlerError::Shutdown,
    {
        Self { handler, kind: HandlerError::Shutdown }
    }

    /// Describes the error: which kind of handler was not set, and why.
    pub fn message(&self) -> (text: String)
        ensures
            text@ == "Failure to set new "@ + (if self.handler is Method { "method"@ } else { "notification"@ })
                + " - "@ + handler_error_message(self.kind),
    {
        let mut text = "Failure to set new ".to_owned();
        text.append(self.handler.description());
        text.append(" - ");
        text.append(self.kind.message());
        text
    }
}

/// The handlers that a list of named handlers stands for; a later entry for a name
/// takes the place of an earlier one.
pub open spec fn handler_map<M, N>(entries: Seq<(String, Handler<M, N>)>) -> Map<Seq<char>, Handler<M, N>>
    decreases entries.len(),
{
    if entries.len() == 0 {
        Map::empty()
    } else {
        handler_map(entries.drop_last()).insert(entries.last().0@, entries.last().1)
    }
}

/// No name occurs twice in a list of named handlers.
pub open spec fn distinct_names<M, N>(entries: Seq<(String, Handler<M, N>)>) -> bool {
    forall|i: int, j: int| 0 <= i < j < entries.len() ==> #[trigger] entries[i].0@ != #[trigger] entries[j].0@
}

proof fn lemma_handler_map_contains<M, N>(entries: Seq<(String, Handler<M, N>)>, name: Seq<char>)
    ensures
        handler_map(entries).contains_key(name) <==> exists|i: int| 0 <= i < entries.len() && #[trigger] entries[i].0@ == name,
    decreases entries.len(),
{
    if entries.len() > 0 {
        let rest = entries.drop_last();
        lemma_handler_map_contains(rest, name);
        if handler_map(rest).contains_key(name) {
            let i = choose|i: int| 0 <= i < rest.len() && #[trigger] rest[i].0@ == name;
            assert(entries[i].0@ == name);
        }
        if exists|i: int| 0 <= i < entries.len() && #[trigger] entries[i].0@ == name {
            let i = choose|i: int| 0 <= i < entries.len() && #[trigger] entries[i].0@ == name;
            if i < entries.len() - 1 {
                assert(rest[i].0@ == name);
            }
        }
    }
}

proof fn lemma_prefix_distinct<M, N>(entries: Seq<(String, Handler<M, N>)>)
    requires
        distinct_names(entries),
        entries.len() > 0,
    ensures
        distinct_names(entries.drop_last()),
{
    let rest = entries.drop_last();
    assert forall|a: int, b: int| 0 <= a < b < rest.len() implies #[trigger] rest[a].0@ != #[trigger] rest[b].0@ by {
        assert(rest[a] == entries[a]);
        assert(rest[b] == entries[b]);
    }
}

proof fn lemma_handler_map_index<M, N>(entries: Seq<(String, Handler<M, N>)>, i: int)
    requires
        distinct_names(entries),
        0 <= i < entries.len(),
    ensures
        handler_map(entries).contains_key(entries[i].0@),
        handler_map(entries)[entries[i].0@] == entries[i].1,
    decreases entries.len(),
{
    let rest = entries.drop_last();
    if i < entries.len() - 1 {
        assert(rest[i] == entries[i]);
        lemma_prefix_distinct(entries);
        lemma_handler_map_index(rest, i);
        assert(entries[i].0@ != entries.last().0@);
    }
}

proof fn lemma_handler_map_remove<M, N>(entries: Seq<(String, Handler<M, N>)>, i: int)
    requires
        distinct_names(entries),
        0 <= i < entries.len(),
    ensures
        distinct_names(entries.remove(i)),
        handler_map(entries.remove(i)) == handler_map(entries).remove(entries[i].0@),
    decreases entries.len(),
{
    let name = entries[i].0@;
    let rest = entries.drop_last();
    let removed = entries.remove(i);
    assert(distinct_names(removed)) by {
        assert forall|a: int, b: int| 0 <= a < b < removed.len() implies #[trigger] removed[a].0@ != #[trigger] removed[b].0@ by {
            let a2 = if a < i { a } else { a + 1 };
            let b2 = if b < i { b } else { b + 1 };
            assert(removed[a] == entries[a2]);
            assert(removed[b] == entries[b2]);
        }
    }
    if i == entries.len() - 1 {
        assert(removed =~= rest);
        lemma_handler_map_contains(rest, name);
        if handler_map(rest).contains_key(name) {
            let k = choose|k: int| 0 <= k < rest.len() && #[trigger] rest[k].0@ == name;
            assert(entries[k].0@ == name);
        }
        assert(handler_map(entries.remove(i)) =~= handler_map(entries).remove(name));
    } else {
        lemma_prefix_distinct(entries);
        lemma_handler_map_remove(rest, i);
        assert(removed.drop_last() =~= rest.remove(i));
        assert(removed.last() == entries.last());
        assert(entries.last().0@ != name);
        assert(handler_map(entries.remove(i)) =~= handler_map(entries).remove(name));
    }
}

/// The callbacks to run for incoming method calls and notifications, by method name.
pub struct Handlers<M, N> {
    handlers: Vec<(String, Handler<M, N>)>,
}

impl<M, N> View for Handlers<M, N> {
    type V = Map<Seq<char>, Handler<M, N>>;

    closed spec fn view(&self) -> Map<Seq<char>, Handler<M, N>> {
        handler_map(self.handlers@)
    }
}

/// The line that describes one handler: its name and kind.
pub open spec fn handler_line<M, N>(name: Seq<char>, handler: Handler<M, N>) -> Seq<char> {
    "\t"@ + name + " - "@ + (if handler is Method { "method"@ } else { "notification"@ }) + "\n"@
}

/// The text that describes handlers in order: one line per handler, with its name and
/// kind.
pub open spec fn handlers_text<M, N>(entries: Seq<(Seq<char>, Handler<M, N>)>) -> Seq<char>
    decreases entries.len(),
{
    if entries.len() == 0 {
        Seq::empty()
    } else {
        handlers_text(entries.drop_last()) + handler_line(entries.last().0, entries.last().1)
    }
}

/// Where an incoming call goes.
pub enum Dispatch<'a, M, N, P, V> {
    /// Run this method handler on the call; what it returns answers the call.
    Method(&'a M, MethodCall<P>),
    /// Run this notification handler; nothing answers a notification.
    Notification(&'a N, Notification<P>),
    /// Answer the call with this output at once.
    Answer(Output<V>),
    /// Nothing to do and nothing to answer.
    Nothing,
}

/// Whether a dispatch is where a call goes, given the handlers: a method call to the
/// method handler for its name, else back as "method not found"; a notification to the
/// notification handler for its name, else nowhere; an invalid call back as "invalid
/// request".
pub open spec fn routes_to<M, N, P, V>(handlers: Map<Seq<char>, Handler<M, N>>, call: Call<P>, dispatch: Dispatch<M, N, P, V>) -> bool {
    match call {
        Call::MethodCall(method_call) => match dispatch {
            Dispatch::Method(h, c) => handlers.contains_key(method_call.method@)
                && handlers[method_call.method@] == Handler::<M, N>::Method(*h) && c == method_call,
            Dispatch::Answer(output) => !(handlers.contains_key(method_call.method@) && handlers[method_call.method@] is Method)
                && failure_output(method_call.id@, ErrorCode::MethodNotFound, output),
            _ => false,
        },
        Call::Notification(notification) => match dispatch {
            Dispatch::Notification(h, n) => handlers.contains_key(notification.method@)
                && handlers[notification.method@] == Handler::<M, N>::Notification(*h) && n == notification,
            Dispatch::Nothing => !(handlers.contains_key(notification.method@) && handlers[notification.method@] is Notification),
            _ => false,
        },
        Call::Invalid(id) => match dispatch {
            Dispatch::Answer(output) => failure_output(id@, ErrorCode::InvalidRequest, output),
            _ => false,
        },
    }
}

/// A failure output for the call with the given id.
pub open spec fn failure_output<V>(id: IdView, code: ErrorCode, output: Output<V>) -> bool {
    &&& output matches Output::Failure(f)
    &&& f.jsonrpc == Some(Version::V2)
    &&& f.id@ == id
    &&& f.error.code == code
    &&& f.error.message@ == code_description(code)
    &&& f.error.data is None
}

/// Builds the failure output that answers the call with `id`.
pub fn failure<V>(id: Id, error: RpcError<V>) -> (output: Output<V>)
    ensures
        output matches Output::Failure(f) && f.jsonrpc == Some(Version::V2) && f.error == error && f.id == id,
{
    Output::Failure(Failure { jsonrpc: Some(Version::V2), error, id })
}

impl<M, N> Handlers<M, N> {
    /// No name occurs twice.
    pub closed spec fn wf(&self) -> bool {
        distinct_names(self.handlers@)
    }

    /// No handlers.
    pub fn new() -> (handlers: Self)
        ensures
            handlers.wf(),
            handlers@ == Map::<Seq<char>, Handler<M, N>>::empty(),
            handlers.order() == Seq::<(Seq<char>, Handler<M, N>)>::empty(),
    {
        Handlers { handlers: Vec::new() }
    }

    /// The handlers with their names, in the order they were added.
    pub closed spec fn order(&self) -> Seq<(Seq<char>, Handler<M, N>)> {
        self.handlers@.map_values(|e: (String, Handler<M, N>)| (e.0@, e.1))
    }

    /// The lines that describe the handlers, in the order they were added.
    pub open spec fn listing(&self) -> Seq<char> {
        handlers_text(self.order())
    }

    /// Describes the handlers, one line per handler with its name and kind.
    pub fn describe(&self) -> (text: String)
        ensures
            text@ == "Handlers{\n"@ + self.listing() + "}"@,
    {
        let mut text = "Handlers{\n".to_owned();
        let n = self.handlers.len();
        let mut i: usize = 0;
        while i < n
            invariant
                n == self.handlers@.len(),
                i <= n,
                text@ == "Handlers{\n"@ + handlers_text(self.order().take(i as int)),
            decreases n - i,
        {
            text.append("\t");
            text.append(self.handlers[i].0.as_str());
            text.append(" - ");
            text.append(self.handlers[i].1.description());
            text.append("\n");
            assert(self.order().take(i as int + 1).drop_last() =~= self.order().take(i as int));
            assert(self.order().take(i as int + 1).last() == (self.handlers@[i as int].0@, self.handlers@[i as int].1));
            assert(text@ =~= "Handlers{\n"@ + handlers_text(self.order().take(i as int + 1)));
            i += 1;
        }
        assert(self.order().take(n as int) =~= self.order());
        text.append("}");
        text
    }

    /// Finds the position of the handler for a name.
    fn find(&self, name: &str) -> (found: Option<usize>)
        requires
            self.wf(),
        ensures
            match found {
                Some(i) => i < self.handlers@.len() && self.handlers@[i as int].0@ == name@
                    && self@.contains_key(name@) && self@[name@] == self.handlers@[i as int].1,
                None => !self@.contains_key(name@),
            },
    {
        let n = self.handlers.len();
        let mut i: usize = 0;
        while i < n
            invariant
                n == self.handlers@.len(),
                i <= n,
                distinct_names(self.handlers@),
                forall|j: int| 0 <= j < i ==> #[trigger] self.handlers@[j].0@ != name@,
            decreases n - i,
        {
            if same_text(self.handlers[i].0.as_str(), name) {
                proof { lemma_handler_map_index(self.handlers@, i as int); }
                return Some(i);
            }
            i += 1;
        }
        proof { lemma_handler_map_contains(self.handlers@, name@); }
        None
    }

    /// Adds a handler for a method or notification name. A name that has a handler
    /// already keeps it, and the new handler comes back in the error.
    pub fn add(&mut self, method: String, handler: Handler<M, N>) -> (result: Result<(), HandlerSettingError<M, N>>)
        requires
            old(self).wf(),
        ensures
            final(self).wf(),
            old(self)@.contains_key(method@) ==> {
                &&& result matches Err(e) && e.handler == handler && e.kind == HandlerError::AlreadyExists
                &&& final(self)@ == old(self)@
                &&& final(self).order() == old(self).order()
            },
            !old(self)@.contains_key(method@) ==> {
                &&& result is Ok
                &&& final(self)@ == old(self)@.insert(method@, handler)
                &&& final(self).order() == old(self).order().push((method@, handler))
            },
    {
        if self.find(method.as_str()).is_some() {
            return Err(HandlerSettingError::already_exists(handler));
        }
        proof { lemma_handler_map_contains(self.handlers@, method@); }
        let ghost before = self.handlers@;
        let ghost old_order = self.order();
        let ghost name = method@;
        self.handlers.push((method, handler));
        proof {
            assert(self.handlers@.drop_last() =~= before);
            assert(self.handlers@.last().0@ == name);
            assert(distinct_names(self.handlers@)) by {
                assert forall|a: int, b: int| 0 <= a < b < self.handlers@.len() implies
                    #[trigger] self.handlers@[a].0@ != #[trigger] self.handlers@[b].0@ by {
                    assert(before[a] == self.handlers@[a]);
                    if b == self.handlers@.len() - 1 {
                        if before[a].0@ == name {
                            assert(exists|k: int| 0 <= k < before.len() && #[trigger] before[k].0@ == name);
                        }
                    } else {
                        assert(before[b] == self.handlers@[b]);
                    }
                }
            }
            assert(self.order() =~= old_order.push((name, handler)));
        }
        Ok(())
    }

    /// Removes the handler for a name and returns it.
    pub fn remove(&mut self, method: &str) -> (result: Result<Handler<M, N>, HandlerError>)
        requires
            old(self).wf(),
        ensures
            final(self).wf(),
            old(self)@.contains_key(method@) ==> {
                &&& result == Ok::<Handler<M, N>, HandlerError>(old(self)@[method@])
                &&& final(self)@ == old(self)@.remove(method@)
                &&& exists|i: int| 0 <= i < old(self).order().len() && #[trigger] old(self).order()[i].0 == method@
                    && final(self).order() == old(self).order().remove(i)
            },
            !old(self)@.contains_key(method@) ==> {
                &&& result == Err::<Handler<M, N>, HandlerError>(HandlerError::NoHandler)
                &&& final(self)@ == old(self)@
                &&& final(self).order() == old(self).order()
            },
    {
        match self.find(method) {
            Some(i) => {
                proof { lemma_handler_map_remove(self.handlers@, i as int); }
                let ghost old_order = self.order();
                let (_, handler) = self.handlers.remove(i);
                proof {
                    assert(self.order() =~= old_order.remove(i as int));
                    assert(old_order[i as int].0 == method@);
                }
                Ok(handler)
            },
            None => Err(HandlerError::NoHandler),
        }
    }

    /// Drops all handlers.
    pub fn shutdown(&mut self)
        ensures
            final(self).wf(),
            final(self)@ == Map::<Seq<char>, Handler<M, N>>::empty(),
            final(self).order() == Seq::<(Seq<char>, Handler<M, N>)>::empty(),
    {
        self.handlers = Vec::new();
    }

    /// Where a method call goes: to the method handler for its name, or, when there is
    /// none, back to the caller as a "method not found" failure.
    pub fn handle_method_call<P, V>(&self, method_call: MethodCall<P>) -> (dispatch: Dispatch<'_, M, N, P, V>)
        requires
            self.wf(),
        ensures
            match dispatch {
                Dispatch::Method(h, call) => self@.contains_key(method_call.method@)
                    && self@[method_call.method@] == Handler::<M, N>::Method(*h) && call == method_call,
                Dispatch::Answer(output) => !(self@.contains_key(method_call.method@) && self@[method_call.method@] is Method)
                    && failure_output(method_call.id@, ErrorCode::MethodNotFound, output),
                _ => false,
            },
    {
        match self.find(method_call.method.as_str()) {
            Some(i) => match &self.handlers[i].1 {
                Handler::Method(handler) => Dispatch::Method(handler, method_call),
                _ => Dispatch::Answer(failure(method_call.id, RpcError::method_not_found())),
            },
            None => Dispatch::Answer(failure(method_call.id, RpcError::method_not_found())),
        }
    }

    /// Where a notification goes: to the notification handler for its name, or nowhere.
    pub fn handle_notification_call<P, V>(&self, notification: Notification<P>) -> (dispatch: Dispatch<'_, M, N, P, V>)
        requires
            self.wf(),
        ensures
            match dispatch {
                Dispatch::Notification(h, n) => self@.contains_key(notification.method@)
                    && self@[notification.method@] == Handler::<M, N>::Notification(*h) && n == notification,
                Dispatch::Nothing => !(self@.contains_key(notification.method@) && self@[notification.method@] is Notification),
                _ => false,
            },
    {
        match self.find(notification.method.as_str()) {
            Some(i) => match &self.handlers[i].1 {
                Handler::Notification(handler) => Dispatch::Notification(handler, notification),
                _ => Dispatch::Nothing,
            },
            None => Dispatch::Nothing,
        }
    }

    /// Where a single incoming call goes: method calls and notifications to their
    /// handlers, an invalid call back to the caller as an "invalid request" failure.
    pub fn handle_single_call<P, V>(&self, call: Call<P>) -> (dispatch: Dispatch<'_, M, N, P, V>)
        requires
            self.wf(),
        ensures
            routes_to(self@, call, dispatch),
    {
        match call {
            Call::MethodCall(method_call) => self.handle_method_call(method_call),
            Call::Notification(notification) => self.handle_notification_call(notification),
            Call::Invalid(id) => Dispatch::Answer(failure(id, RpcError::invalid_request())),
        }
    }
}

/// Where a request goes: the dispatch of its single call, or one per call of a batch.
pub enum RequestDispatch<'a, M, N, P, V> {
    /// The dispatch of a single call.
    Single(Dispatch<'a, M, N, P, V>),
    /// The dispatches of the calls of a batch, in order.
    Batch(Vec<Dispatch<'a, M, N, P, V>>),
}

impl<M, N> Handlers<M, N> {
    /// Where each call of a request goes.
    pub fn handle_request<P, V>(&self, request: Request<P>) -> (dispatch: RequestDispatch<'_, M, N, P, V>)
        requires
            self.wf(),
        ensures
            match request {
                Request::Single(call) => dispatch matches RequestDispatch::Single(d) && routes_to(self@, call, d),
                Request::Batch(calls) => dispatch matches RequestDispatch::Batch(ds) && ds@.len() == calls@.len()
                    && forall|i: int| 0 <= i < calls@.len() ==> routes_to(self@, #[trigger] calls@[i], ds@[i]),
            },
    {
        match request {
            Request::Single(call) => RequestDispatch::Single(self.handle_single_call(call)),
            Request::Batch(calls) => {
                let ghost all = calls@;
                let mut rest = calls;
                let mut dispatches: Vec<Dispatch<'_, M, N, P, V>> = Vec::new();
                while rest.len() > 0
                    invariant
                        self.wf(),
                        dispatches@.len() + rest@.len() == all.len(),
                        rest@ == all.subrange(dispatches@.len() as int, all.len() as int),
                        forall|i: int| 0 <= i < dispatches@.len() ==> routes_to(self@, #[trigger] all[i], dispatches@[i]),
                    decreases rest@.len(),
                {
                    let call = rest.remove(0);
                    let d = self.handle_single_call(call);
                    dispatches.push(d);
                }
                RequestDispatch::Batch(dispatches)
            },
        }
    }
}

/// What carrying out a dispatch gave.
pub enum Ran<V> {
    /// The method handler returned this output.
    Method(Output<V>),
    /// The notification handler ran.
    Notification,
    /// The dispatch was this answer.
    Answer(Output<V>),
    /// There was nothing to run.
    Nothing,
}

/// The output that answers a call once its dispatch was carried out: what the method
/// handler returned, or the answer given at once; a notification, and a call that went
/// nowhere, get no answer.
pub fn answer_of<V>(ran: Ran<V>) -> (output: Option<Output<V>>)
    ensures
        match ran {
            Ran::Method(o) => output == Some(o),
            Ran::Answer(o) => output == Some(o),
            Ran::Notification => output is None,
            Ran::Nothing => output is None,
        },
{
    match ran {
        Ran::Method(o) => Some(o),
        Ran::Answer(o) => Some(o),
        Ran::Notification => None,
        Ran::Nothing => None,
    }
}

/// The outputs of a batch that answer something, in order.
pub open spec fn answered<V>(outputs: Seq<Option<Output<V>>>) -> Seq<Output<V>>
    decreases outputs.len(),
{
    if outputs.len() == 0 {
        Seq::empty()
    } else {
        let rest = answered(outputs.drop_first());
        match outputs[0] {
            Some(output) => seq![output] + rest,
            None => rest,
        }
    }
}

/// The response to a single call: its output, if it has one.
pub fn single_response<V>(output: Option<Output<V>>) -> (response: Option<Response<V>>)
    ensures
        match output {
            Some(o) => response matches Some(Response::Single(r)) && r == o,
            None => response is None,
        },
{
    match output {
        Some(o) => Some(Response::Single(o)),
        None => None,
    }
}

/// The response to a batch: the outputs that answer something, in order; no response at
/// all when nothing answers.
pub fn batch_response<V>(outputs: Vec<Option<Output<V>>>) -> (response: Option<Response<V>>)
    ensures
        answered(outputs@).len() > 0 ==> (response matches Some(Response::Batch(v)) && v@ == answered(outputs@)),
        answered(outputs@).len() == 0 ==> response is None,
{
    let ghost all = outputs@;
    let mut rest = outputs;
    let mut results: Vec<Output<V>> = Vec::new();
    while rest.len() > 0
        invariant
            results@ + answered(rest@) == answered(all),
        decreases rest@.len(),
    {
        let ghost before = rest@;
        let next = rest.remove(0);
        assert(before.drop_first() =~= rest@);
        match next {
            Some(o) => {
                results.push(o);
                assert(results@ + answered(rest@) =~= answered(all));
            },
            None => {},
        }
    }
    assert(results@ =~= answered(all));
    if results.len() > 0 {
        Some(Response::Batch(results))
    } else {
        None
    }
}

/// What the first poll of a new future that answers a request gave.
pub enum FuturePoll<F> {
    /// It finished at once.
    Ready,
    /// It is still running.
    NotReady(F),
    /// It failed; this future yields its error when the server is next polled.
    Failed(F),
}

/// The futures of a poll round that are still running, with their keys, in order.
pub open spec fn still_running<F>(polled: Seq<(u64, F, bool)>) -> Seq<(u64, F)>
    decreases polled.len(),
{
    if polled.len() == 0 {
        Seq::empty()
    } else {
        let rest = still_running(polled.drop_last());
        let last = polled.last();
        if last.2 {
            rest
        } else {
            rest.push((last.0, last.1))
        }
    }
}

/// The futures of a poll round, with their keys, in order, whether finished or not.
pub open spec fn all_polled<F>(polled: Seq<(u64, F, bool)>) -> Seq<(u64, F)> {
    polled.map_values(|t: (u64, F, bool)| (t.0, t.1))
}

/// Every key of a list of futures lies in `1..bound`.
pub open spec fn keys_below<F>(futures: Seq<(u64, F)>, bound: nat) -> bool {
    forall|i: int| 0 <= i < futures.len() ==> 1 <= #[trigger] futures[i].0 < bound
}

proof fn lemma_still_running_keys<F>(polled: Seq<(u64, F, bool)>, bound: nat)
    requires
        forall|i: int| 0 <= i < polled.len() ==> 1 <= #[trigger] polled[i].0 < bound,
    ensures
        keys_below(still_running(polled), bound),
    decreases polled.len(),
{
    if polled.len() > 0 {
        let rest = polled.drop_last();
        assert forall|i: int| 0 <= i < rest.len() implies 1 <= #[trigger] rest[i].0 < bound by {
            assert(rest[i] == polled[i]);
        }
        lemma_still_running_keys(rest, bound);
    }
}

/// The server state: the handlers, and the futures that still answer requests, each
/// under its own key, in the order they came.
pub struct Server<M, N, F> {
    handler_map: Handlers<M, N>,
    pending_futures: Vec<(u64, F)>,
    id_generator: IdGenerator,
}

impl<M, N, F> Server<M, N, F> {
    /// The handlers are well formed and every pending future has a key that was
    /// handed out before.
    pub closed spec fn wf(&self) -> bool {
        &&& self.handler_map.wf()
        &&& self.id_generator@ >= 1
        &&& keys_below(self.pending_futures@, self.id_generator@)
    }

    /// The handlers, by name.
    pub closed spec fn handlers(&self) -> Map<Seq<char>, Handler<M, N>> {
        self.handler_map@
    }

    /// The futures that still answer requests, with their keys, in order.
    pub closed spec fn pending(&self) -> Seq<(u64, F)> {
        self.pending_futures@
    }

    /// The key that the next future gets.
    pub closed spec fn next_key(&self) -> nat {
        self.id_generator@
    }

    /// A server without handlers and without pending futures.
    pub fn new() -> (server: Self)
        ensures
            server.wf(),
            server.handlers() == Map::<Seq<char>, Handler<M, N>>::empty(),
            server.pending() == Seq::<(u64, F)>::empty(),
            server.next_key() == 1,
    {
        Server { handler_map: Handlers::new(), pending_futures: Vec::new(), id_generator: IdGenerator::new() }
    }

    /// The handlers, to dispatch incoming calls with.
    pub fn handler_map(&self) -> (handlers: &Handlers<M, N>)
        requires
            self.wf(),
        ensures
            handlers.wf(),
            handlers@ == self.handlers(),
    {
        &self.handler_map
    }

    /// Adds a handler, as [`Handlers::add`] does.
    pub fn add_handler(&mut self, name: String, handler: Handler<M, N>) -> (result: Result<(), HandlerSettingError<M, N>>)
        requires
            old(self).wf(),
        ensures
            final(self).wf(),
            final(self).pending() == old(self).pending(),
            final(self).next_key() == old(self).next_key(),
            old(self).handlers().contains_key(name@) ==> {
                &&& result matches Err(e) && e.handler == handler && e.kind == HandlerError::AlreadyExists
                &&& final(self).handlers() == old(self).handlers()
            },
            !old(self).handlers().contains_key(name@) ==> {
                &&& result is Ok
                &&& final(self).handlers() == old(self).handlers().insert(name@, handler)
            },
    {
        self.handler_map.add(name, handler)
    }

    /// Removes a handler, as [`Handlers::remove`] does.
    pub fn remove_handler(&mut self, name: &str) -> (result: Result<Handler<M, N>, HandlerError>)
        requires
            old(self).wf(),
        ensures
            final(self).wf(),
            final(self).pending() == old(self).pending(),
            final(self).next_key() == old(self).next_key(),
            old(self).handlers().contains_key(name@) ==> {
                &&& result == Ok::<Handler<M, N>, HandlerError>(old(self).handlers()[name@])
                &&& final(self).handlers() == old(self).handlers().remove(name@)
            },
            !old(self).handlers().contains_key(name@) ==> {
                &&& result == Err::<Handler<M, N>, HandlerError>(HandlerError::NoHandler)
                &&& final(self).handlers() == old(self).handlers()
            },
    {
        self.handler_map.remove(name)
    }

    /// Whether another future can get a key.
    pub fn keys_left(&self) -> (left: bool)
        ensures
            left == (self.next_key() < u64::MAX),
    {
        self.id_generator.has_next()
    }

    /// Keeps a future that still has to be driven, under a fresh key.
    pub fn push_future(&mut self, future: F) -> (key: u64)
        requires
            old(self).wf(),
            old(self).next_key() < u64::MAX,
        ensures
            final(self).wf(),
            key == old(self).next_key(),
            forall|i: int| 0 <= i < old(self).pending().len() ==> #[trigger] old(self).pending()[i].0 < key,
            final(self).pending() == old(self).pending().push((key, future)),
            final(self).next_key() == old(self).next_key() + 1,
            final(self).handlers() == old(self).handlers(),
    {
        let key = self.id_generator.next_int();
        self.pending_futures.push((key, future));
        key
    }

    /// Keeps the future of a new request unless its first poll finished it; a failed
    /// one is kept so that the next poll of the server reports the failure.
    pub fn keep_polled_future(&mut self, polled: FuturePoll<F>)
        requires
            old(self).wf(),
            old(self).next_key() < u64::MAX,
        ensures
            final(self).wf(),
            final(self).handlers() == old(self).handlers(),
            match polled {
                FuturePoll::Ready => final(self).pending() == old(self).pending()
                    && final(self).next_key() == old(self).next_key(),
                FuturePoll::NotReady(f) => final(self).pending() == old(self).pending().push((old(self).next_key() as u64, f))
                    && final(self).next_key() == old(self).next_key() + 1,
                FuturePoll::Failed(f) => final(self).pending() == old(self).pending().push((old(self).next_key() as u64, f))
                    && final(self).next_key() == old(self).next_key() + 1,
            },
    {
        match polled {
            FuturePoll::Ready => {},
            FuturePoll::NotReady(f) => {
                self.push_future(f);
            },
            FuturePoll::Failed(f) => {
                self.push_future(f);
            },
        }
    }

    /// Takes the pending futures out, to poll each of them.
    pub fn take_futures(&mut self) -> (taken: Vec<(u64, F)>)
        requires
            old(self).wf(),
        ensures
            final(self).wf(),
            taken@ == old(self).pending(),
            keys_below(taken@, old(self).next_key()),
            final(self).pending() == Seq::<(u64, F)>::empty(),
            final(self).handlers() == old(self).handlers(),
            final(self).next_key() == old(self).next_key(),
    {
        let mut taken = Vec::new();
        std::mem::swap(&mut taken, &mut self.pending_futures);
        taken
    }

    /// Puts the futures of a poll round back, each with whether it finished. When one of
    /// them failed, the failure is reported and all are kept; otherwise the finished ones
    /// are dropped and the others kept, in order.
    pub fn return_futures<E>(&mut self, polled: Vec<(u64, F, bool)>, failure: Option<E>) -> (result: Result<(), E>)
        requires
            old(self).wf(),
            old(self).pending() == Seq::<(u64, F)>::empty(),
            forall|i: int| 0 <= i < polled@.len() ==> 1 <= #[trigger] polled@[i].0 < old(self).next_key(),
        ensures
            final(self).wf(),
            final(self).handlers() == old(self).handlers(),
            final(self).next_key() == old(self).next_key(),
            match failure {
                Some(e) => result == Err::<(), E>(e) && final(self).pending() == all_polled(polled@),
                None => result is Ok && final(self).pending() == still_running(polled@),
            },
    {
        let ghost all = polled@;
        let n = polled.len();
        let mut rest = polled;
        let mut i: usize = 0;
        match failure {
            Some(e) => {
                while rest.len() > 0
                    invariant
                        self.pending_futures@ + all_polled(rest@) == all_polled(all),
                        keys_below(self.pending_futures@, self.id_generator@),
                        forall|j: int| 0 <= j < rest@.len() ==> 1 <= #[trigger] rest@[j].0 < self.id_generator@,
                        self.handler_map@ == old(self).handler_map@,
                        self.handler_map.wf(),
                        self.id_generator@ == old(self).id_generator@,
                        self.id_generator@ >= 1,
                    decreases rest@.len(),
                {
                    let ghost before = rest@;
                    let (key, future, _) = rest.remove(0);
                    assert(before[0].0 == key);
                    self.pending_futures.push((key, future));
                    assert(all_polled(before) =~= seq![(key, future)] + all_polled(rest@));
                    assert(self.pending_futures@ + all_polled(rest@) =~= all_polled(all));
                    assert forall|j: int| 0 <= j < rest@.len() implies 1 <= #[trigger] rest@[j].0 < self.id_generator@ by {
                        assert(rest@[j] == before[j + 1]);
                    }
                }
                assert(self.pending_futures@ =~= all_polled(all));
                Err(e)
            },
            None => {
                proof { lemma_still_running_keys(all, self.id_generator@); }
                while i < n
                    invariant
                        n == all.len(),
                        i <= n,
                        rest@ == all.subrange(i as int, n as int),
                        self.pending_futures@ == still_running(all.take(i as int)),
                        self.handler_map@ == old(self).handler_map@,
                        self.handler_map.wf(),
                        self.id_generator@ == old(self).id_generator@,
                        self.id_generator@ >= 1,
                    decreases n - i,
                {
                    let ghost before = rest@;
                    let (key, future, done) = rest.remove(0);
                    assert(all[i as int] == (key, future, done));
                    if !done {
                        self.pending_futures.push((key, future));
                    }
                    assert(all.take(i as int + 1).drop_last() =~= all.take(i as int));
                    assert(rest@ =~= all.subrange(i as int + 1, n as int));
                    i += 1;
                }
                assert(all.take(n as int) =~= all);
                Ok(())
            },
        }
    }

    /// Drops all handlers, as dropping the server does.
    pub fn shutdown(&mut self)
        requires
            old(self).wf(),
        ensures
            final(self).wf(),
            final(self).handlers() == Map::<Seq<char>, Handler<M, N>>::empty(),
            final(self).pending() == old(self).pending(),
            final(self).next_key() == old(self).next_key(),
    {
        self.handler_map.shutdown();
    }
}

/// Removing the handler that was just added for a fresh name gives that handler back and
/// leaves the handlers as they were before.
pub proof fn law_remove_undoes_add<M, N>(handlers: Map<Seq<char>, Handler<M, N>>, name: Seq<char>, handler: Handler<M, N>)
    requires
        !handlers.contains_key(name),
    ensures
        handlers.insert(name, handler).contains_key(name),
        handlers.insert(name, handler)[name] == handler,
        handlers.insert(name, handler).remove(name) == handlers,
{
    assert(handlers.insert(name, handler).remove(name) =~= handlers);
}

/// A batch in which no call has an answer gets no response at all; otherwise the
/// response holds exactly the answers, in order.
pub proof fn law_batch_answers_exactly<V>(outputs: Seq<Option<Output<V>>>)
    ensures
        (forall|i: int| 0 <= i < outputs.len() ==> outputs[i] is None) ==> answered(outputs).len() == 0,
        answered(outputs).len() <= outputs.len(),
    decreases outputs.len(),
{
    if outputs.len() > 0 {
        law_batch_answers_exactly(outputs.drop_first());
        if forall|i: int| 0 <= i < outputs.len() ==> outputs[i] is None {
            assert forall|i: int| 0 <= i < outputs.drop_first().len() implies outputs.drop_first()[i] is None by {
                assert(outputs.drop_first()[i] == outputs[i + 1]);
            }
        }
    }
}

/// How many entries of a batch's outputs answer a call.
pub open spec fn answer_count<V>(outputs: Seq<Option<Output<V>>>) -> nat
    decreases outputs.len(),
{
    if outputs.len() == 0 {
        0
    } else {
        answer_count(outputs.drop_first()) + if outputs[0] is Some { 1nat } else { 0nat }
    }
}

/// The response to a batch keeps every output that answers a call, whatever its kind,
/// successes and failures alike, in the order of the calls, and nothing else: an output
/// in front of the others comes first in the response, an entry without output adds
/// nothing, and there are as many answers as outputs.
pub proof fn law_batch_keeps_every_answer<V>(outputs: Seq<Option<Output<V>>>)
    ensures
        answered(Seq::<Option<Output<V>>>::empty()) == Seq::<Output<V>>::empty(),
        forall|o: Output<V>| #[trigger] answered(seq![Some(o)] + outputs) == seq![o] + answered(outputs),
        answered(seq![None::<Output<V>>] + outputs) == answered(outputs),
        answered(outputs).len() == answer_count(outputs),
        forall|i: int| 0 <= i < outputs.len() && #[trigger] outputs[i] is Some ==> answered(outputs).contains(outputs[i]->0),
    decreases outputs.len(),
{
    assert forall|o: Output<V>| #[trigger] answered(seq![Some(o)] + outputs) == seq![o] + answered(outputs) by {
        assert((seq![Some(o)] + outputs).drop_first() =~= outputs);
    }
    assert((seq![None::<Output<V>>] + outputs).drop_first() =~= outputs);
    if outputs.len() > 0 {
        let rest = outputs.drop_first();
        law_batch_keeps_every_answer(rest);
        assert forall|i: int| 0 <= i < outputs.len() && #[trigger] outputs[i] is Some implies answered(outputs).contains(outputs[i]->0) by {
            if i == 0 {
                assert(answered(outputs)[0] == outputs[0]->0);
            } else {
                assert(rest[i - 1] == outputs[i]);
                let k = choose|k: int| 0 <= k < answered(rest).len() && answered(rest)[k] == outputs[i]->0;
                if outputs[0] is Some {
                    assert(answered(outputs)[k + 1] == answered(rest)[k]);
                } else {
                    assert(answered(outputs)[k] == answered(rest)[k]);
                }
            }
        }
    }
}

/// A poll round keeps every future that did not finish pending, with its key, in the
/// order of the round, and drops the finished ones: a future that is still running is
/// appended to what is kept, a finished one adds nothing.
pub proof fn law_running_futures_stay_pending<F>(polled: Seq<(u64, F, bool)>)
    ensures
        still_running(Seq::<(u64, F, bool)>::empty()) == Seq::<(u64, F)>::empty(),
        forall|k: u64, f: F| #[trigger] still_running(polled.push((k, f, false))) == still_running(polled).push((k, f)),
        forall|k: u64, f: F| #[trigger] still_running(polled.push((k, f, true))) == still_running(polled),
        forall|i: int| 0 <= i < polled.len() && !(#[trigger] polled[i]).2 ==> still_running(polled).contains((polled[i].0, polled[i].1)),
    decreases polled.len(),
{
    assert forall|k: u64, f: F| #[trigger] still_running(polled.push((k, f, false))) == still_running(polled).push((k, f)) by {
        assert(polled.push((k, f, false)).drop_last() =~= polled);
    }
    assert forall|k: u64, f: F| #[trigger] still_running(polled.push((k, f, true))) == still_running(polled) by {
        assert(polled.push((k, f, true)).drop_last() =~= polled);
    }
    if polled.len() > 0 {
        let rest = polled.drop_last();
        law_running_futures_stay_pending(rest);
        assert forall|i: int| 0 <= i < polled.len() && !(#[trigger] polled[i]).2 implies still_running(polled).contains((polled[i].0, polled[i].1)) by {
            if i == polled.len() - 1 {
                assert(still_running(polled).last() == (polled[i].0, polled[i].1));
            } else {
                assert(rest[i] == polled[i]);
                let k = choose|k: int| 0 <= k < still_running(rest).len() && still_running(rest)[k] == (rest[i].0, rest[i].1);
                assert(still_running(polled)[k] == still_running(rest)[k]);
            }
        }
    }
}

} // verus!
