use wasm_shim::containerd::get_image;
use wasm_shim::containerd::get_image_content_sha;
use wasm_shim::containerd::is_image_layer_type;
use wasm_shim::containerd::join_chunks;
use wasm_shim::containerd::read_content;
use wasm_shim::containerd::select_payload_layers;
use wasm_shim::containerd::Descriptor;
use wasm_shim::containerd::Outcome;
use wasm_shim::containerd::Platform;
use wasm_shim::containerd::Resolution;
use wasm_shim::containerd::StoreReply;
use wasm_shim::containerd::StoreRequest;
use wasm_shim::containerd::WasmLayer;
use wasm_shim::error::ErrorKind;
use wasm_shim::error::ShimError;

const CONFIG_DIGEST: &str =
    "sha256:aaaaaaaaaaaaaaaaaaaaaaaaaaaaaaaaaaaaaaaaaaaaaaaaaaaaaaaaaaaaaaaa";
const FS_DIGEST: &str =
    "sha256:bbbbbbbbbbbbbbbbbbbbbbbbbbbbbbbbbbbbbbbbbbbbbbbbbbbbbbbbbbbbbbbb";
const WASM_DIGEST: &str =
    "sha256:cccccccccccccccccccccccccccccccccccccccccccccccccccccccccccccccc";
const EXTRA_DIGEST: &str =
    "sha256:dddddddddddddddddddddddddddddddddddddddddddddddddddddddddddddddd";
const MANIFEST_DIGEST: &str =
    "sha256:eeeeeeeeeeeeeeeeeeeeeeeeeeeeeeeeeeeeeeeeeeeeeeeeeeeeeeeeeeeeeeee";
const WASM_TYPE: &str = "application/vnd.bytecodealliance.wasm.component.layer.v0+wasm";

fn layer_json(media_type: &str, digest: &str, size: u64) -> String {
    format!("{{\"mediaType\":\"{media_type}\",\"digest\":\"{digest}\",\"size\":{size}}}")
}

fn manifest_json(layers: &[String]) -> Vec<u8> {
    let config = layer_json("application/vnd.oci.image.config.v1+json", CONFIG_DIGEST, 120);
    format!(
        "{{\"schemaVersion\":2,\"mediaType\":\"application/vnd.oci.image.manifest.v1+json\",\"config\":{},\"layers\":[{}]}}",
        config,
        layers.join(",")
    )
    .into_bytes()
}

fn config_json(architecture: &str, os: &str) -> Vec<u8> {
    format!("{{\"architecture\":\"{architecture}\",\"os\":\"{os}\",\"rootfs\":{{\"type\":\"layers\",\"diff_ids\":[]}}}}")
        .into_bytes()
}

fn halves(bytes: Vec<u8>) -> StoreReply {
    let mid = bytes.len() / 2;
    StoreReply::Content(vec![bytes[..mid].to_vec(), vec![], bytes[mid..].to_vec()])
}

fn asked(out: Outcome) -> (Resolution, StoreRequest) {
    match out {
        Outcome::Ask(next, request) => (next, request),
        other => panic!("the resolution does not go on: {:?}", other),
    }
}

fn done(out: Outcome) -> (Vec<WasmLayer>, Platform) {
    match out {
        Outcome::Done(layers, platform) => (layers, platform),
        other => panic!("the resolution has not ended: {:?}", other),
    }
}

fn failed(out: Outcome) -> (ErrorKind, String) {
    match out {
        Outcome::Failed(e) => (e.get_kind(), e.get_message().clone()),
        other => panic!("the resolution has not failed: {:?}", other),
    }
}

fn digest_asked(request: &StoreRequest) -> String {
    match request {
        StoreRequest::ReadContent { digest } => digest.clone(),
        other => panic!("no content is asked for: {:?}", other),
    }
}

/// Runs the resolution up to the point where it waits for the image
/// configuration.
fn up_to_config(layers: &[String]) -> Resolution {
    let (state, request) = Resolution::load_modules("c1");
    match request {
        StoreRequest::GetContainer { id } => assert_eq!(id, "c1"),
        other => panic!("no container is asked for: {:?}", other),
    }
    let (state, request) =
        asked(state.resume(StoreReply::Container(Some("docker.io/library/app:1".to_string()))));
    match request {
        StoreRequest::GetImage { name } => assert_eq!(name, "docker.io/library/app:1"),
        other => panic!("no image is asked for: {:?}", other),
    }
    let (state, request) =
        asked(state.resume(StoreReply::Image(Some(Some(MANIFEST_DIGEST.to_string())))));
    assert_eq!(digest_asked(&request), MANIFEST_DIGEST);
    let (state, request) = asked(state.resume(halves(manifest_json(layers))));
    assert_eq!(digest_asked(&request), CONFIG_DIGEST);
    state
}

fn failure<T: std::fmt::Debug>(r: Result<T, ShimError>) -> (ErrorKind, String) {
    let e = r.unwrap_err();
    (e.get_kind(), e.get_message().clone())
}

#[test]
fn file_system_layers_are_told_from_payload() {
    for media_type in [
        "application/vnd.oci.image.layer.v1.tar",
        "application/vnd.oci.image.layer.v1.tar+gzip",
        "application/vnd.oci.image.layer.v1.tar+zstd",
        "application/vnd.oci.image.layer.nondistributable.v1.tar",
        "application/vnd.oci.image.layer.nondistributable.v1.tar+gzip",
        "application/vnd.oci.image.layer.nondistributable.v1.tar+zstd",
        "application/vnd.docker.image.rootfs.diff.tar.gzip",
        "application/vnd.docker.image.rootfs.foreign.diff.tar.gzip",
        "application/vnd.docker.image.rootfs.",
    ] {
        assert!(is_image_layer_type(media_type), "{media_type}");
    }
    for media_type in [
        WASM_TYPE,
        "application/vnd.wasm.content.layer.v1+wasm",
        "application/vnd.oci.image.config.v1+json",
        "application/vnd.oci.image.manifest.v1+json",
        "application/vnd.oci.image.layer.v1.tar+xz",
        "application/vnd.oci.image.layer.v1.ta",
        "application/vnd.docker.image.rootfs",
        "application/vnd.docker.container.image.v1+json",
        "",
    ] {
        assert!(!is_image_layer_type(media_type), "{media_type}");
    }
}

#[test]
fn payload_layers_keep_the_order_of_the_manifest() {
    let layer = |media_type: &str, digest: &str| Descriptor {
        media_type: media_type.to_string(),
        digest: digest.to_string(),
        size: 1,
    };
    let layers = vec![
        layer(WASM_TYPE, "one"),
        layer("application/vnd.oci.image.layer.v1.tar+gzip", "two"),
        layer("application/toml", "three"),
        layer("application/vnd.docker.image.rootfs.diff.tar.gzip", "four"),
        layer(WASM_TYPE, "five"),
    ];
    let picked = select_payload_layers(&layers);
    let digests: Vec<&str> = picked.iter().map(|d| d.digest.as_str()).collect();
    assert_eq!(digests, vec!["one", "three", "five"]);
    assert_eq!(picked[1].media_type, "application/toml");
    assert!(select_payload_layers(&vec![]).is_empty());
}

#[test]
fn chunks_are_joined_in_the_order_of_arrival() {
    assert_eq!(join_chunks(&vec![]), Vec::<u8>::new());
    assert_eq!(join_chunks(&vec![vec![1, 2], vec![], vec![3], vec![4, 5, 6]]), vec![1, 2, 3, 4, 5, 6]);
    assert_eq!(read_content(Ok(vec![vec![9], vec![8, 7]])).unwrap(), vec![9, 8, 7]);
    assert_eq!(
        failure(read_content(Err("stream reset".to_string()))),
        (ErrorKind::Containerd, "stream reset".to_string())
    );
}

#[test]
fn a_missing_container_or_image_is_a_failure_of_the_store() {
    assert_eq!(get_image("c1", Ok(Some("img".to_string()))).unwrap(), "img");
    assert_eq!(
        failure(get_image("c1", Ok(None))),
        (ErrorKind::Containerd, "failed to get image for container c1".to_string())
    );
    assert_eq!(
        failure(get_image("c1", Err("unavailable".to_string()))),
        (ErrorKind::Containerd, "unavailable".to_string())
    );
    assert_eq!(get_image_content_sha("img", Ok(Some(Some("sha256:1".to_string())))).unwrap(), "sha256:1");
    let missing =
        (ErrorKind::Containerd, "failed to get image content sha for image img".to_string());
    assert_eq!(failure(get_image_content_sha("img", Ok(None))), missing);
    assert_eq!(failure(get_image_content_sha("img", Ok(Some(None)))), missing);
    assert_eq!(
        failure(get_image_content_sha("img", Err("deadline exceeded".to_string()))),
        (ErrorKind::Containerd, "deadline exceeded".to_string())
    );
}

#[test]
fn an_image_of_another_architecture_gives_no_layers_and_its_platform() {
    let layers = [
        layer_json("application/vnd.oci.image.layer.v1.tar+gzip", FS_DIGEST, 10),
        layer_json(WASM_TYPE, WASM_DIGEST, 20),
    ];
    let state = up_to_config(&layers);
    let (found, platform) = done(state.resume(halves(config_json("amd64", "linux"))));
    assert!(found.is_empty());
    assert_eq!(platform.architecture, "amd64");
    assert_eq!(platform.os, "linux");
    assert!(!platform.is_wasm());
}

#[test]
fn one_payload_layer_beside_one_file_system_layer_gives_one_layer() {
    let layers = [
        layer_json("application/vnd.oci.image.layer.v1.tar", FS_DIGEST, 10),
        layer_json(WASM_TYPE, WASM_DIGEST, 20),
    ];
    let state = up_to_config(&layers);
    let (state, request) = asked(state.resume(halves(config_json("wasm", "wasi"))));
    assert_eq!(digest_asked(&request), WASM_DIGEST);
    let module = vec![0x00, 0x61, 0x73, 0x6d, 0x01, 0x00, 0x00, 0x00];
    let (found, platform) =
        done(state.resume(StoreReply::Content(vec![module[..3].to_vec(), module[3..].to_vec()])));
    assert_eq!(found.len(), 1);
    assert_eq!(found[0].config.digest, WASM_DIGEST);
    assert_eq!(found[0].config.media_type, WASM_TYPE);
    assert_eq!(found[0].config.size, 20);
    assert_eq!(found[0].layer, module);
    assert_eq!(platform.architecture, "wasm");
    assert_eq!(platform.os, "wasi");
    assert!(platform.is_wasm());
}

#[test]
fn payload_layers_are_read_one_by_one_in_the_order_of_the_manifest() {
    let layers = [
        layer_json(WASM_TYPE, WASM_DIGEST, 20),
        layer_json("application/vnd.docker.image.rootfs.diff.tar.gzip", FS_DIGEST, 10),
        layer_json("application/toml", EXTRA_DIGEST, 30),
    ];
    let state = up_to_config(&layers);
    let (state, request) = asked(state.resume(halves(config_json("wasm", "wasi"))));
    assert_eq!(digest_asked(&request), WASM_DIGEST);
    let (state, request) = asked(state.resume(StoreReply::Content(vec![vec![1, 2, 3]])));
    assert_eq!(digest_asked(&request), EXTRA_DIGEST);
    let (found, _) = done(state.resume(StoreReply::Content(vec![vec![4], vec![5]])));
    assert_eq!(found.len(), 2);
    assert_eq!(found[0].config.digest, WASM_DIGEST);
    assert_eq!(found[0].layer, vec![1, 2, 3]);
    assert_eq!(found[1].config.digest, EXTRA_DIGEST);
    assert_eq!(found[1].config.media_type, "application/toml");
    assert_eq!(found[1].config.size, 30);
    assert_eq!(found[1].layer, vec![4, 5]);
}

#[test]
fn a_wasm_image_without_payload_gives_no_layers() {
    let layers = [layer_json("application/vnd.oci.image.layer.v1.tar", FS_DIGEST, 10)];
    let state = up_to_config(&layers);
    let (found, platform) = done(state.resume(halves(config_json("wasm", "wasi"))));
    assert!(found.is_empty());
    assert_eq!(platform.architecture, "wasm");
}

#[test]
fn a_failed_read_of_a_layer_fails_the_whole_resolution() {
    let layers = [layer_json(WASM_TYPE, WASM_DIGEST, 20), layer_json(WASM_TYPE, EXTRA_DIGEST, 30)];
    let state = up_to_config(&layers);
    let (state, _) = asked(state.resume(halves(config_json("wasm", "wasi"))));
    let (state, _) = asked(state.resume(StoreReply::Content(vec![vec![1]])));
    assert_eq!(
        failed(state.resume(StoreReply::Failed("connection closed".to_string()))),
        (ErrorKind::Containerd, "connection closed".to_string())
    );
}

#[test]
fn the_store_failing_fails_the_resolution_at_every_step() {
    let (state, _) = Resolution::load_modules("c1");
    assert_eq!(
        failed(state.resume(StoreReply::Failed("unavailable".to_string()))),
        (ErrorKind::Containerd, "unavailable".to_string())
    );
    let (state, _) = Resolution::load_modules("c1");
    assert_eq!(
        failed(state.resume(StoreReply::Container(None))),
        (ErrorKind::Containerd, "failed to get image for container c1".to_string())
    );
    let (state, _) = Resolution::load_modules("c1");
    let (state, _) = asked(state.resume(StoreReply::Container(Some("img".to_string()))));
    assert_eq!(
        failed(state.resume(StoreReply::Image(Some(None)))),
        (ErrorKind::Containerd, "failed to get image content sha for image img".to_string())
    );
    let (state, _) = Resolution::load_modules("c1");
    let (state, _) = asked(state.resume(StoreReply::Container(Some("img".to_string()))));
    assert_eq!(
        failed(state.resume(StoreReply::Image(None))),
        (ErrorKind::Containerd, "failed to get image content sha for image img".to_string())
    );
    let (state, _) = Resolution::load_modules("c1");
    let (state, _) = asked(state.resume(StoreReply::Container(Some("img".to_string()))));
    let (state, _) = asked(state.resume(StoreReply::Image(Some(Some("sha256:1".to_string())))));
    assert_eq!(
        failed(state.resume(StoreReply::Failed("not found".to_string()))),
        (ErrorKind::Containerd, "not found".to_string())
    );
}

#[test]
fn an_answer_to_another_call_fails_the_resolution() {
    let unexpected =
        (ErrorKind::Containerd, "unexpected answer from the content store".to_string());
    let (state, _) = Resolution::load_modules("c1");
    assert_eq!(failed(state.resume(StoreReply::Content(vec![]))), unexpected);
    let (state, _) = Resolution::load_modules("c1");
    let (state, _) = asked(state.resume(StoreReply::Container(Some("img".to_string()))));
    assert_eq!(failed(state.resume(StoreReply::Container(None))), unexpected);
    let state = up_to_config(&[]);
    assert_eq!(failed(state.resume(StoreReply::Image(None))), unexpected);
}

#[test]
fn bytes_that_hold_no_manifest_or_no_platform_fail_the_resolution() {
    let (state, _) = Resolution::load_modules("c1");
    let (state, _) = asked(state.resume(StoreReply::Container(Some("img".to_string()))));
    let (state, _) = asked(state.resume(StoreReply::Image(Some(Some("sha256:1".to_string())))));
    let (kind, _) = failed(state.resume(StoreReply::Content(vec![b"not json".to_vec()])));
    assert_eq!(kind, ErrorKind::Others);

    let state = up_to_config(&[]);
    let (kind, message) = failed(state.resume(StoreReply::Content(vec![b"{\"os\":\"linux\"}".to_vec()])));
    assert_eq!(kind, ErrorKind::Others);
    assert!(!message.is_empty());
}
