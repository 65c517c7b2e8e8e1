//! The sandbox manager service: its methods, the table that routes a call
//! to its handler, and the client side.
//!
//! Framing and sending messages is the transport's part. What is decided
//! here is which methods the service has, under which paths they are
//! reached, and what a caller is told for each answer of the service.

use std::sync::Arc;
use vstd::prelude::*;
use vstd::string::*;

verus! {

/// The status codes that the service answers with.
#[derive(Clone, Copy, Debug, PartialEq, Eq, Structural)]
pub enum RpcCode {
    Success,
    Unknown,
    NotFound,
}

/// The status of a call: a code and a text.
#[derive(Debug)]
pub struct RpcStatus {
    pub code: RpcCode,
    pub message: String,
}

/// How a method of the service fails: with a status of its own, or in
/// another way, of which only a description is kept.
#[derive(Debug)]
pub enum RpcError {
    RpcStatus(RpcStatus),
    Others(String),
}

/// What a caller is told: the status of the call and, if it succeeded,
/// the response.
#[derive(Debug)]
pub struct RpcReply<T> {
    pub status: RpcStatus,
    pub response: Option<T>,
}

/// The request to create a sandbox.
#[derive(Debug)]
pub struct CreateRequest {
    pub id: String,
    pub working_directory: String,
    pub ttrpc_address: String,
}

/// The answer to a [`CreateRequest`]: where the sandbox listens.
#[derive(Debug)]
pub struct CreateResponse {
    pub socket_path: String,
}

/// The request to connect to a sandbox.
#[derive(Debug)]
pub struct ConnectRequest {
    pub id: String,
    pub ttrpc_address: String,
}

/// The answer to a [`ConnectRequest`]: where the sandbox listens.
#[derive(Debug)]
pub struct ConnectResponse {
    pub socket_path: String,
}

/// The methods of the sandbox manager.
#[derive(Clone, Copy, Debug, PartialEq, Eq, Structural)]
pub enum ManagerMethod {
    Create,
    Connect,
}

impl ManagerMethod {
    /// The path under which the method is reached.
    pub open spec fn spec_path(self) -> Seq<char> {
        match self {
            ManagerMethod::Create => "/runwasi.services.sandbox.v1.Manager/Create"@,
            ManagerMethod::Connect => "/runwasi.services.sandbox.v1.Manager/Connect"@,
        }
    }

    /// What a service that does not have the method answers.
    pub open spec fn spec_unsupported(self) -> Seq<char> {
        self.spec_path() + " is not supported"@
    }

    /// The path under which the method is reached.
    pub fn path(self) -> (r: String)
        ensures
            r@ == self.spec_path(),
    {
        match self {
            ManagerMethod::Create => String::from_str(
                "/runwasi.services.sandbox.v1.Manager/Create",
            ),
            ManagerMethod::Connect => String::from_str(
                "/runwasi.services.sandbox.v1.Manager/Connect",
            ),
        }
    }

    /// The failure of a service that does not have the method: the status
    /// `NotFound`, with the method's path in its text.
    pub fn unsupported(self) -> (r: RpcError)
        ensures
            is_unsupported(r, self),
    {
        let mut message = self.path();
        message.append(" is not supported");
        RpcError::RpcStatus(RpcStatus { code: RpcCode::NotFound, message })
    }
}

/// Whether `e` is the failure of a service that does not have `method`.
pub open spec fn is_unsupported(e: RpcError, method: ManagerMethod) -> bool {
    e matches RpcError::RpcStatus(status) && status.code == RpcCode::NotFound && status.message@
        == method.spec_unsupported()
}

/// The sandbox manager service. A method that an implementation leaves
/// out answers that it is not supported.
pub trait Manager {
    fn create(&self, req: CreateRequest) -> (r: Result<CreateResponse, RpcError>)
        default_ensures
            r is Err && is_unsupported(r->Err_0, ManagerMethod::Create),
    {
        Err(ManagerMethod::Create.unsupported())
    }

    fn connect(&self, req: ConnectRequest) -> (r: Result<ConnectResponse, RpcError>)
        default_ensures
            r is Err && is_unsupported(r->Err_0, ManagerMethod::Connect),
    {
        Err(ManagerMethod::Connect.unsupported())
    }
}

/// Whether `reply` is what a caller is told for the answer `answer`: the
/// response with the status `Success` and no text; the status of a failure that
/// has one; the status `Unknown` with the description of any other
/// failure.
pub open spec fn tells<T>(reply: RpcReply<T>, answer: Result<T, RpcError>) -> bool {
    match answer {
        Ok(response) => reply.status.code == RpcCode::Success && reply.status.message@.len() == 0
            && reply.response == Some(response),
        Err(RpcError::RpcStatus(status)) => reply.status == status && reply.response is None,
        Err(RpcError::Others(description)) => reply.status.code == RpcCode::Unknown
            && reply.status.message@ == description@ && reply.response is None,
    }
}

/// Turns the answer of a method into what the caller is told.
pub fn reply_of<T>(answer: Result<T, RpcError>) -> (reply: RpcReply<T>)
    ensures
        tells(reply, answer),
{
    match answer {
        Ok(response) => RpcReply {
            status: RpcStatus { code: RpcCode::Success, message: String::new() },
            response: Some(response),
        },
        Err(RpcError::RpcStatus(status)) => RpcReply { status, response: None },
        Err(RpcError::Others(description)) => RpcReply {
            status: RpcStatus { code: RpcCode::Unknown, message: description },
            response: None,
        },
    }
}

/// Another handle to a shared value: `Arc::clone` of std, which gives a
/// pointer to the same value.
#[verifier::external_body]
fn share<M>(service: &Arc<M>) -> (r: Arc<M>)
    ensures
        r == *service,
{
    Arc::clone(service)
}

/// The handler of the method `Create`.
pub struct CreateMethod<M> {
    service: Arc<M>,
}

/// The handler of the method `Connect`.
pub struct ConnectMethod<M> {
    service: Arc<M>,
}

impl<M: Manager> CreateMethod<M> {
    /// The service that the handler calls.
    pub closed spec fn service(&self) -> Arc<M> {
        self.service
    }

    /// Calls the service and tells the caller what it answered, as
    /// [`reply_of`] says. Whatever the service answers, a response comes
    /// only with the status `Success`.
    pub fn handler(&self, req: CreateRequest) -> (reply: RpcReply<CreateResponse>)
        ensures
            reply.response is Some ==> reply.status.code == RpcCode::Success
                && reply.status.message@.len() == 0,
    {
        reply_of(self.service.create(req))
    }
}

impl<M: Manager> ConnectMethod<M> {
    /// The service that the handler calls.
    pub closed spec fn service(&self) -> Arc<M> {
        self.service
    }

    /// Calls the service and tells the caller what it answered, as
    /// [`reply_of`] says. Whatever the service answers, a response comes
    /// only with the status `Success`.
    pub fn handler(&self, req: ConnectRequest) -> (reply: RpcReply<ConnectResponse>)
        ensures
            reply.response is Some ==> reply.status.code == RpcCode::Success
                && reply.status.message@.len() == 0,
    {
        reply_of(self.service.connect(req))
    }
}

/// The handler of one method of the sandbox manager.
pub enum MethodHandler<M> {
    Create(CreateMethod<M>),
    Connect(ConnectMethod<M>),
}

impl<M: Manager> MethodHandler<M> {
    /// The method that the handler serves.
    pub open spec fn spec_method(&self) -> ManagerMethod {
        match self {
            MethodHandler::Create(_) => ManagerMethod::Create,
            MethodHandler::Connect(_) => ManagerMethod::Connect,
        }
    }

    /// The service that the handler calls.
    pub open spec fn service(&self) -> Arc<M> {
        match self {
            MethodHandler::Create(h) => h.service(),
            MethodHandler::Connect(h) => h.service(),
        }
    }

    /// The method that the handler serves.
    pub fn method(&self) -> (r: ManagerMethod)
        ensures
            r == self.spec_method(),
    {
        match self {
            MethodHandler::Create(_) => ManagerMethod::Create,
            MethodHandler::Connect(_) => ManagerMethod::Connect,
        }
    }
}

/// Builds the table that routes the calls of the sandbox manager: one
/// entry for each method, with the method's path and a handler that calls
/// `service`.
pub fn create_manager<M: Manager>(service: Arc<M>) -> (methods: Vec<(String, MethodHandler<M>)>)
    ensures
        methods@.len() == 2,
        methods@[0].0@ == ManagerMethod::Create.spec_path(),
        methods@[0].1 is Create,
        methods@[1].0@ == ManagerMethod::Connect.spec_path(),
        methods@[1].1 is Connect,
        forall|i: int| 0 <= i < 2 ==> (#[trigger] methods@[i]).1.service() == service,
{
    let mut methods: Vec<(String, MethodHandler<M>)> = Vec::new();
    methods.push(
        (
            ManagerMethod::Create.path(),
            MethodHandler::Create(CreateMethod { service: share(&service) }),
        ),
    );
    methods.push(
        (ManagerMethod::Connect.path(), MethodHandler::Connect(ConnectMethod { service })),
    );
    methods
}

/// The connection of the transport, `ttrpc::Client`. It is held and handed
/// on, and nothing is known of what it holds.
#[verifier::external_type_specification]
#[verifier::external_body]
pub struct ExTtrpcClient(ttrpc::Client);

/// The client side of the sandbox manager: the connection over which its
/// methods are called.
pub struct ManagerClient {
    client: ttrpc::Client,
}

impl ManagerClient {
    /// The connection held by the client.
    pub closed spec fn spec_client(&self) -> ttrpc::Client {
        self.client
    }

    /// A client that calls over the given connection.
    pub fn new(client: ttrpc::Client) -> (r: Self)
        ensures
            r.spec_client() == client,
    {
        ManagerClient { client }
    }

    /// The connection held by the client.
    pub fn client(&self) -> (r: &ttrpc::Client)
        ensures
            *r == self.spec_client(),
    {
        &self.client
    }
}

} // verus!
