use std::sync::atomic::AtomicUsize;
use std::sync::atomic::Ordering;
use std::sync::Arc;
use wasm_shim::api::DeleteResponse;
use wasm_shim::api::Timestamp;
use wasm_shim::cli::delete_shim;
use wasm_shim::cli::grouping;
use wasm_shim::sandbox_ttrpc::create_manager;
use wasm_shim::sandbox_ttrpc::reply_of;
use wasm_shim::sandbox_ttrpc::ConnectRequest;
use wasm_shim::sandbox_ttrpc::ConnectResponse;
use wasm_shim::sandbox_ttrpc::CreateRequest;
use wasm_shim::sandbox_ttrpc::CreateResponse;
use wasm_shim::sandbox_ttrpc::Manager;
use wasm_shim::sandbox_ttrpc::ManagerMethod;
use wasm_shim::sandbox_ttrpc::MethodHandler;
use wasm_shim::sandbox_ttrpc::RpcCode;
use wasm_shim::sandbox_ttrpc::RpcError;
use wasm_shim::sandbox_ttrpc::RpcStatus;

struct Bare;

impl Manager for Bare {}

struct Counting {
    created: AtomicUsize,
}

impl Manager for Counting {
    fn create(&self, req: CreateRequest) -> Result<CreateResponse, RpcError> {
        self.created.fetch_add(1, Ordering::SeqCst);
        Ok(CreateResponse { socket_path: format!("{}/{}.sock", req.working_directory, req.id) })
    }

    fn connect(&self, req: ConnectRequest) -> Result<ConnectResponse, RpcError> {
        Err(RpcError::Others(format!("no sandbox {}", req.id)))
    }
}

fn create_request() -> CreateRequest {
    CreateRequest {
        id: "s1".to_string(),
        working_directory: "/run/s1".to_string(),
        ttrpc_address: "/run/ttrpc.sock".to_string(),
    }
}

fn connect_request() -> ConnectRequest {
    ConnectRequest { id: "s1".to_string(), ttrpc_address: "/run/ttrpc.sock".to_string() }
}

#[test]
fn a_method_that_is_left_out_is_not_supported() {
    match Bare.create(create_request()) {
        Err(RpcError::RpcStatus(status)) => {
            assert_eq!(status.code, RpcCode::NotFound);
            assert_eq!(
                status.message,
                "/runwasi.services.sandbox.v1.Manager/Create is not supported"
            );
        }
        other => panic!("unexpected answer: {:?}", other),
    }
    match Bare.connect(connect_request()) {
        Err(RpcError::RpcStatus(status)) => {
            assert_eq!(status.code, RpcCode::NotFound);
            assert_eq!(
                status.message,
                "/runwasi.services.sandbox.v1.Manager/Connect is not supported"
            );
        }
        other => panic!("unexpected answer: {:?}", other),
    }
}

#[test]
fn the_table_routes_each_method_to_its_handler() {
    let service = Arc::new(Counting { created: AtomicUsize::new(0) });
    let methods = create_manager(service.clone());
    assert_eq!(methods.len(), 2);
    assert_eq!(methods[0].0, "/runwasi.services.sandbox.v1.Manager/Create");
    assert_eq!(methods[0].1.method(), ManagerMethod::Create);
    assert_eq!(methods[1].0, "/runwasi.services.sandbox.v1.Manager/Connect");
    assert_eq!(methods[1].1.method(), ManagerMethod::Connect);
    assert_eq!(ManagerMethod::Create.path(), methods[0].0);
    assert_eq!(ManagerMethod::Connect.path(), methods[1].0);
    assert_eq!(Arc::strong_count(&service), 3);

    match &methods[0].1 {
        MethodHandler::Create(handler) => {
            let reply = handler.handler(create_request());
            assert_eq!(reply.status.code, RpcCode::Success);
            assert_eq!(reply.status.message, "");
            assert_eq!(reply.response.unwrap().socket_path, "/run/s1/s1.sock");
        }
        MethodHandler::Connect(_) => panic!("the first handler does not serve Create"),
    }
    assert_eq!(service.created.load(Ordering::SeqCst), 1);
    match &methods[1].1 {
        MethodHandler::Connect(handler) => {
            let reply = handler.handler(connect_request());
            assert_eq!(reply.status.code, RpcCode::Unknown);
            assert_eq!(reply.status.message, "no sandbox s1");
            assert!(reply.response.is_none());
        }
        MethodHandler::Create(_) => panic!("the second handler does not serve Connect"),
    }
}

#[test]
fn a_handler_of_a_bare_service_answers_not_found() {
    let methods = create_manager(Arc::new(Bare));
    match &methods[0].1 {
        MethodHandler::Create(handler) => {
            let reply = handler.handler(create_request());
            assert_eq!(reply.status.code, RpcCode::NotFound);
            assert_eq!(
                reply.status.message,
                "/runwasi.services.sandbox.v1.Manager/Create is not supported"
            );
            assert!(reply.response.is_none());
        }
        MethodHandler::Connect(_) => panic!("the first handler does not serve Create"),
    }
}

#[test]
fn a_caller_is_told_the_status_of_each_answer() {
    let ok = reply_of::<u8>(Ok(5));
    assert_eq!(ok.status.code, RpcCode::Success);
    assert_eq!(ok.status.message, "");
    assert_eq!(ok.response, Some(5));

    let status = RpcStatus { code: RpcCode::NotFound, message: "nothing here".to_string() };
    let refused = reply_of::<u8>(Err(RpcError::RpcStatus(status)));
    assert_eq!(refused.status.code, RpcCode::NotFound);
    assert_eq!(refused.status.message, "nothing here");
    assert_eq!(refused.response, None);

    let broken = reply_of::<u8>(Err(RpcError::Others("socket closed".to_string())));
    assert_eq!(broken.status.code, RpcCode::Unknown);
    assert_eq!(broken.status.message, "socket closed");
    assert_eq!(broken.response, None);

    match ManagerMethod::Connect.unsupported() {
        RpcError::RpcStatus(status) => assert_eq!(status.code, RpcCode::NotFound),
        other => panic!("unexpected failure: {:?}", other),
    }
}

#[test]
fn a_shim_joins_the_sandbox_that_its_container_names() {
    let none: Vec<(String, String)> = vec![];
    assert_eq!(grouping("c1", &none), "c1");
    let other = vec![("io.kubernetes.cri.container-type".to_string(), "sandbox".to_string())];
    assert_eq!(grouping("c1", &other), "c1");
    let named = vec![
        ("io.kubernetes.cri.container-type".to_string(), "container".to_string()),
        ("io.kubernetes.cri.sandbox-id".to_string(), "pod-7".to_string()),
        ("io.kubernetes.cri.sandbox-name".to_string(), "web".to_string()),
    ];
    assert_eq!(grouping("c1", &named), "pod-7");
}

#[test]
fn a_deleted_shim_reports_the_status_of_a_killed_process() {
    let now = Timestamp { seconds: 1_700_000_000, nanos: 42 };
    assert_eq!(
        delete_shim(now),
        DeleteResponse { pid: 0, exit_status: 137, exited_at: Some(now) }
    );
}
