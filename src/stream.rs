use crate::channel::send_message;
use crate::event::{response_of, EventRequest, EventResponse, Handler, HandlerFactory, SystemError};
use crate::registry::ModuleMap;
use std::sync::Arc;
use tokio::sync::mpsc::{UnboundedReceiver, UnboundedSender};
use vstd::prelude::*;
use vstd::string::StringExecFns;

verus! {

/// One work item: a caller context, the request, and an optional one-shot
/// completion callback that receives the context and the response.
pub struct StreamData<C, F> {
    pub config: C,
    pub request: Option<EventRequest>,
    pub callback: Option<F>,
}

impl<C, F> StreamData<C, F> {
    pub fn new(config: C, request: Option<EventRequest>) -> (r: Self)
        ensures
            r.config == config,
            r.request == request,
            r.callback is None,
    {
        StreamData { config, request, callback: None }
    }

    pub fn with_callback(self, callback: F) -> (r: Self)
        ensures
            r.config == self.config,
            r.request == self.request,
            r.callback == Some(callback),
    {
        let mut data = self;
        data.callback = Some(callback);
        data
    }
}

/// The message of the error response for a key that no module serves.
pub open spec fn missing_message(key: Seq<char>) -> Seq<char> {
    "no handler for "@ + key
}

/// `r` is what routing `request` by `registry` may give: an error naming
/// the key when no module serves it; else the outcome of a handler built by
/// the key's module from the request's identifier and run on the request,
/// or the module's error when building failed.
pub open spec fn routed<M: HandlerFactory>(
    registry: ModuleMap<M>,
    request: EventRequest,
    r: Result<EventResponse, SystemError>,
) -> bool {
    match registry.spec_get(request.event@) {
        None => r matches Err(e) && e.msg@ == missing_message(request.event@),
        Some(m) => exists|id: String, b: Result<M::Output, SystemError>|
            id@ == request.id@ && #[trigger] m.builds(id, b) && match b {
                Ok(h) => h.answers(request, r),
                Err(e) => r == Err::<EventResponse, SystemError>(e),
            },
    }
}

/// The callback, if any, may be called with the context and any response.
pub open spec fn callback_ready<C, F: FnOnce(C, EventResponse)>(config: C, callback: Option<F>) -> bool {
    callback matches Some(f) ==> forall|resp: EventResponse| call_requires(f, (config, resp))
}

/// The callback, if any, has been called with the context and a copy of
/// `r`; the call consumes it, so it runs no more than once.
pub open spec fn callback_fired<C, F: FnOnce(C, EventResponse)>(
    config: C,
    callback: Option<F>,
    r: EventResponse,
) -> bool {
    callback matches Some(f) ==> exists|sent: EventResponse|
        sent.view_eq(&r) && #[trigger] call_ensures(f, (config, sent), ())
}

/// Turns a handler's result into the response, hands a copy of it with the
/// context to the callback, if any, and returns it.
pub fn complete<C, F: FnOnce(C, EventResponse)>(
    config: C,
    callback: Option<F>,
    result: Result<EventResponse, SystemError>,
) -> (r: EventResponse)
    requires
        callback_ready(config, callback),
    ensures
        r == response_of(result),
        callback_fired(config, callback, r),
{
    let response = match result {
        Ok(resp) => resp,
        Err(e) => e.into_response(),
    };
    match callback {
        Some(f) => {
            let sent = response.duplicate();
            f(config, sent);
        },
        None => {},
    }
    response
}

/// Routes work items to the modules of a registry.
pub struct CommandStreamService<M> {
    module_map: Arc<ModuleMap<M>>,
}

impl<M> CommandStreamService<M> {
    /// The registry this service routes by.
    pub closed spec fn registry(&self) -> ModuleMap<M> {
        *self.module_map
    }
}

impl<M: HandlerFactory> CommandStreamService<M> {
    /// Resolves a request to a result: a handler built for its identifier by
    /// the module that serves its key, run on it; or an error naming the key
    /// when no module serves it.
    pub fn route(&self, request: EventRequest) -> (r: Result<EventResponse, SystemError>)
        ensures
            routed(self.registry(), request, r),
    {
        match self.module_map.get(&request.event) {
            Some(module) => {
                let id = request.id.clone();
                let ghost given = id;
                let built = module.new_handler(id);
                let ghost b = built;
                let r = match built {
                    Ok(handler) => handler.call(request),
                    Err(e) => Err(e),
                };
                let ghost m = self.registry().spec_get(request.event@)->0;
                assert(m == *module);
                assert(m.builds(given, b));
                r
            },
            None => {
                proof {
                    reveal_strlit("no handler for ");
                }
                let msg = <String as StringExecFns>::concat(
                    "no handler for ".to_owned(),
                    request.event.as_str(),
                );
                Err(SystemError::new(msg))
            },
        }
    }

    /// Routes one item, then fires its callback with the response.
    pub fn call<C, F: FnOnce(C, EventResponse)>(&self, data: StreamData<C, F>) -> (r: EventResponse)
        requires
            data.request is Some,
            callback_ready(data.config, data.callback),
        ensures
            exists|res: Result<EventResponse, SystemError>|
                routed(self.registry(), data.request->0, res) && r == #[trigger] response_of(res),
            self.registry().spec_get(data.request->0.event@) is None ==> (r matches EventResponse::Error(
                m,
            ) && m@ == missing_message(data.request->0.event@)),
            callback_fired(data.config, data.callback, r),
    {
        let StreamData { config, request, callback } = data;
        let request = request.unwrap();
        let result = self.route(request);
        complete(config, callback, result)
    }
}

/// A service over the same registry, for one item.
fn service_for<M>(module_map: &Arc<ModuleMap<M>>) -> (r: CommandStreamService<M>)
    ensures
        r.registry() == **module_map,
{
    CommandStreamService { module_map: Arc::clone(module_map) }
}

/// The dispatcher: items go either onto an unbounded queue, drained by the
/// background loop, or straight to a routing service on the caller's thread.
#[verifier::reject_recursive_types(C)]
#[verifier::reject_recursive_types(F)]
pub struct CommandStream<C, F, M> {
    module_map: Arc<ModuleMap<M>>,
    data_tx: UnboundedSender<StreamData<C, F>>,
    data_rx: Option<UnboundedReceiver<StreamData<C, F>>>,
}

impl<C, F, M> CommandStream<C, F, M> {
    /// The registry items are routed by.
    pub closed spec fn registry(&self) -> ModuleMap<M> {
        *self.module_map
    }

    /// The receiving half of the queue has not been taken yet.
    pub closed spec fn has_receiver(&self) -> bool {
        self.data_rx is Some
    }

    /// The sending half of the dispatcher's queue.
    pub closed spec fn sender(&self) -> UnboundedSender<StreamData<C, F>> {
        self.data_tx
    }

    /// The receiving half of the dispatcher's queue, while it is held.
    pub closed spec fn receiver(&self) -> Option<UnboundedReceiver<StreamData<C, F>>> {
        self.data_rx
    }

    pub fn new(module_map: ModuleMap<M>) -> (r: Self)
        ensures
            r.registry() == module_map,
            r.has_receiver(),
    {
        let (data_tx, data_rx) = tokio::sync::mpsc::unbounded_channel::<StreamData<C, F>>();
        CommandStream { module_map: Arc::new(module_map), data_tx, data_rx: Some(data_rx) }
    }

    /// A routing service over this dispatcher's registry.
    pub fn new_service(&self) -> (r: CommandStreamService<M>)
        ensures
            r.registry() == self.registry(),
    {
        service_for(&self.module_map)
    }

    /// A shared handle on the registry, for the background loop.
    pub fn module_map(&self) -> (r: Arc<ModuleMap<M>>)
        ensures
            *r == self.registry(),
    {
        Arc::clone(&self.module_map)
    }

    /// Whether the receiving half of the queue can still be taken.
    pub fn receiver_available(&self) -> (r: bool)
        ensures
            r == self.has_receiver(),
    {
        self.data_rx.is_some()
    }

    /// Puts the item on the queue and returns at once; the item is dropped
    /// when the receiving half is gone.
    ///
    /// No `ensures`: what the queue holds is shared by every sending half
    /// through `&`, and following it would take tracked ghost state.
    pub fn async_send(&self, data: StreamData<C, F>) {
        let _ = send_message(&self.data_tx, data);
    }

    /// One more sending half of the queue.
    pub fn tx(&self) -> (r: UnboundedSender<StreamData<C, F>>)
        ensures
            r == self.sender(),
    {
        self.data_tx.clone()
    }

    /// Hands the receiving half of the queue to its one owner.
    pub fn take_data_rx(&mut self) -> (r: UnboundedReceiver<StreamData<C, F>>)
        requires
            old(self).has_receiver(),
        ensures
            old(self).receiver() == Some(r),
            !final(self).has_receiver(),
            final(self).sender() == old(self).sender(),
            final(self).registry() == old(self).registry(),
    {
        self.data_rx.take().unwrap()
    }
}

impl<C, F: FnOnce(C, EventResponse), M: HandlerFactory> CommandStream<C, F, M> {
    /// Routes the item on the caller's thread and returns its response.
    pub fn sync_send(&self, data: StreamData<C, F>) -> (r: EventResponse)
        requires
            data.request is Some,
            callback_ready(data.config, data.callback),
        ensures
            exists|res: Result<EventResponse, SystemError>|
                routed(self.registry(), data.request->0, res) && r == #[trigger] response_of(res),
            self.registry().spec_get(data.request->0.event@) is None ==> (r matches EventResponse::Error(
                m,
            ) && m@ == missing_message(data.request->0.event@)),
            callback_fired(data.config, data.callback, r),
    {
        let service = self.new_service();
        service.call(data)
    }
}

/// What the background loop does with what the queue gave it.
pub enum LoopStep<C, F, M> {
    /// The queue is closed and empty: the loop ends.
    Stop,
    /// Run the service on the item as a task of its own.
    Spawn(CommandStreamService<M>, StreamData<C, F>),
}

/// The background loop: drains the queue in arrival order and starts one
/// independent routing task per item.
#[verifier::reject_recursive_types(C)]
#[verifier::reject_recursive_types(F)]
pub struct CommandStreamFuture<C, F, M> {
    module_map: Arc<ModuleMap<M>>,
    pub data_rx: UnboundedReceiver<StreamData<C, F>>,
}

impl<C, F, M> CommandStreamFuture<C, F, M> {
    /// The registry items are routed by.
    pub closed spec fn registry(&self) -> ModuleMap<M> {
        *self.module_map
    }

    /// The receiving half of the queue the loop drains.
    pub closed spec fn receiver(&self) -> UnboundedReceiver<StreamData<C, F>> {
        self.data_rx
    }

    pub fn new(module_map: Arc<ModuleMap<M>>, data_rx: UnboundedReceiver<StreamData<C, F>>) -> (r: Self)
        ensures
            r.registry() == *module_map,
            r.receiver() == data_rx,
    {
        CommandStreamFuture { module_map, data_rx }
    }

    /// A routing service over this loop's registry.
    pub fn new_service(&self) -> (r: CommandStreamService<M>)
        ensures
            r.registry() == self.registry(),
    {
        service_for(&self.module_map)
    }

    /// The loop's decision on one receive: stop on a closed, empty queue,
    /// else hand the item to a fresh service.
    pub fn next_step(&self, received: Option<StreamData<C, F>>) -> (r: LoopStep<C, F, M>)
        ensures
            received is None <==> r is Stop,
            r matches LoopStep::Spawn(s, d) ==> s.registry() == self.registry() && received == Some(d),
    {
        match received {
            None => LoopStep::Stop,
            Some(data) => LoopStep::Spawn(self.new_service(), data),
        }
    }
}

} // verus!
