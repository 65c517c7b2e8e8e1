//! The image layer resolver.
//!
//! Given a container id, the resolver finds the image behind the container
//! in the content store, reads the image's manifest and configuration, and
//! hands out the payload layers of an image that declares the `wasm`
//! architecture. The calls to the store are the caller's part: the
//! resolver says which call to make next and takes what it gave.

use vstd::prelude::*;
use vstd::string::*;
use crate::error::ShimError;
use crate::error::ErrorKind;
use crate::text::join;
use crate::text::starts_with;
use crate::text::str_eq;

verus! {

/// A content descriptor: what kind of content it is, the digest under
/// which the store holds it, and its size in bytes.
#[derive(Debug)]
pub struct Descriptor {
    pub media_type: String,
    pub digest: String,
    pub size: u64,
}

/// What a [`Descriptor`] holds, as mathematical values.
pub struct DescriptorView {
    pub media_type: Seq<char>,
    pub digest: Seq<char>,
    pub size: u64,
}

impl View for Descriptor {
    type V = DescriptorView;

    open spec fn view(&self) -> DescriptorView {
        DescriptorView { media_type: self.media_type@, digest: self.digest@, size: self.size }
    }
}

impl Descriptor {
    /// A descriptor that holds the same values.
    pub fn duplicate(&self) -> (r: Descriptor)
        ensures
            r@ == self@,
    {
        Descriptor {
            media_type: self.media_type.clone(),
            digest: self.digest.clone(),
            size: self.size,
        }
    }
}

/// The architecture and the operating system that an image declares.
#[derive(Debug)]
pub struct Platform {
    pub architecture: String,
    pub os: String,
}

/// What a [`Platform`] holds, as mathematical values.
pub struct PlatformView {
    pub architecture: Seq<char>,
    pub os: Seq<char>,
}

impl View for Platform {
    type V = PlatformView;

    open spec fn view(&self) -> PlatformView {
        PlatformView { architecture: self.architecture@, os: self.os@ }
    }
}

impl Platform {
    /// Whether the platform declares the `wasm` architecture.
    pub fn is_wasm(&self) -> (r: bool)
        ensures
            r == declares_wasm(self@),
    {
        str_eq(self.architecture.as_str(), "wasm")
    }
}

/// Whether the platform declares the `wasm` architecture.
pub open spec fn declares_wasm(platform: PlatformView) -> bool {
    platform.architecture == "wasm"@
}

/// An image manifest: the descriptor of the image's configuration and
/// those of its layers, in the manifest's order.
#[derive(Debug)]
pub struct Manifest {
    pub config: Descriptor,
    pub layers: Vec<Descriptor>,
}

/// What a [`Manifest`] holds, as mathematical values.
pub struct ManifestView {
    pub config: DescriptorView,
    pub layers: Seq<DescriptorView>,
}

/// The descriptors of a sequence, as mathematical values.
pub open spec fn descriptors_view(layers: Seq<Descriptor>) -> Seq<DescriptorView> {
    Seq::new(layers.len(), |i: int| layers[i]@)
}

impl View for Manifest {
    type V = ManifestView;

    open spec fn view(&self) -> ManifestView {
        ManifestView { config: self.config@, layers: descriptors_view(self.layers@) }
    }
}

/// One payload layer of an image: its descriptor and its raw bytes.
#[derive(Debug)]
pub struct WasmLayer {
    pub config: Descriptor,
    pub layer: Vec<u8>,
}

/// What a [`WasmLayer`] holds, as mathematical values.
pub struct WasmLayerView {
    pub config: DescriptorView,
    pub layer: Seq<u8>,
}

impl View for WasmLayer {
    type V = WasmLayerView;

    open spec fn view(&self) -> WasmLayerView {
        WasmLayerView { config: self.config@, layer: self.layer@ }
    }
}

/// The layers of a sequence, as mathematical values.
pub open spec fn layers_view(layers: Seq<WasmLayer>) -> Seq<WasmLayerView> {
    Seq::new(layers.len(), |i: int| layers[i]@)
}

/// Whether the media type is that of a file system layer: one of the six
/// layer types of the image format, or a type of another vendor below
/// `application/vnd.docker.image.rootfs.`.
pub open spec fn is_image_layer(media_type: Seq<char>) -> bool {
    ||| media_type == "application/vnd.oci.image.layer.v1.tar"@
    ||| media_type == "application/vnd.oci.image.layer.v1.tar+gzip"@
    ||| media_type == "application/vnd.oci.image.layer.v1.tar+zstd"@
    ||| media_type == "application/vnd.oci.image.layer.nondistributable.v1.tar"@
    ||| media_type == "application/vnd.oci.image.layer.nondistributable.v1.tar+gzip"@
    ||| media_type == "application/vnd.oci.image.layer.nondistributable.v1.tar+zstd"@
    ||| "application/vnd.docker.image.rootfs."@.is_prefix_of(media_type)
}

/// Whether the media type is that of a file system layer, which holds no
/// payload.
pub fn is_image_layer_type(media_type: &str) -> (r: bool)
    ensures
        r == is_image_layer(media_type@),
{
    str_eq(media_type, "application/vnd.oci.image.layer.v1.tar") || str_eq(
        media_type,
        "application/vnd.oci.image.layer.v1.tar+gzip",
    ) || str_eq(media_type, "application/vnd.oci.image.layer.v1.tar+zstd") || str_eq(
        media_type,
        "application/vnd.oci.image.layer.nondistributable.v1.tar",
    ) || str_eq(media_type, "application/vnd.oci.image.layer.nondistributable.v1.tar+gzip")
        || str_eq(media_type, "application/vnd.oci.image.layer.nondistributable.v1.tar+zstd")
        || starts_with(media_type, "application/vnd.docker.image.rootfs.")
}

/// The payload layers among the layers of a manifest: those that are no
/// file system layers, in the manifest's order.
pub open spec fn payload_layers(layers: Seq<DescriptorView>) -> Seq<DescriptorView>
    decreases layers.len(),
{
    if layers.len() == 0 {
        Seq::empty()
    } else if is_image_layer(layers.last().media_type) {
        payload_layers(layers.drop_last())
    } else {
        payload_layers(layers.drop_last()).push(layers.last())
    }
}

/// Picks the payload layers among the layers of a manifest.
pub fn select_payload_layers(layers: &Vec<Descriptor>) -> (r: Vec<Descriptor>)
    ensures
        descriptors_view(r@) == payload_layers(descriptors_view(layers@)),
{
    let mut r: Vec<Descriptor> = Vec::new();
    let mut i: usize = 0;
    assert(descriptors_view(layers@).take(0) =~= Seq::empty());
    assert(descriptors_view(r@) =~= Seq::empty());
    while i < layers.len()
        invariant
            i <= layers.len(),
            descriptors_view(r@) == payload_layers(descriptors_view(layers@).take(i as int)),
        decreases layers.len() - i,
    {
        let ghost before = descriptors_view(r@);
        let ghost all = descriptors_view(layers@);
        assert(all.take(i + 1).drop_last() =~= all.take(i as int));
        assert(all.take(i + 1).last() == layers@[i as int]@);
        if !is_image_layer_type(layers[i].media_type.as_str()) {
            r.push(layers[i].duplicate());
            assert(descriptors_view(r@) =~= before.push(layers@[i as int]@));
        }
        i += 1;
    }
    assert(descriptors_view(layers@).take(i as int) =~= descriptors_view(layers@));
    r
}

/// The chunks of a content stream, one after the other.
pub open spec fn joined(chunks: Seq<Vec<u8>>) -> Seq<u8>
    decreases chunks.len(),
{
    if chunks.len() == 0 {
        Seq::empty()
    } else {
        joined(chunks.drop_last()) + chunks.last()@
    }
}

/// Puts the chunks of a content stream together, in the order in which
/// they arrived.
pub fn join_chunks(chunks: &Vec<Vec<u8>>) -> (r: Vec<u8>)
    ensures
        r@ == joined(chunks@),
{
    let mut r: Vec<u8> = Vec::new();
    let mut i: usize = 0;
    assert(chunks@.take(0) =~= Seq::empty());
    while i < chunks.len()
        invariant
            i <= chunks.len(),
            r@ == joined(chunks@.take(i as int)),
        decreases chunks.len() - i,
    {
        assert(chunks@.take(i + 1).drop_last() =~= chunks@.take(i as int));
        assert(chunks@.take(i + 1).last() == chunks@[i as int]);
        let chunk = &chunks[i];
        let mut k: usize = 0;
        let ghost start = r@;
        while k < chunk.len()
            invariant
                k <= chunk.len(),
                r@ == start + chunk@.take(k as int),
            decreases chunk.len() - k,
        {
            r.push(chunk[k]);
            assert(chunk@.take(k + 1) =~= chunk@.take(k as int).push(chunk@[k as int]));
            k += 1;
        }
        assert(chunk@.take(k as int) =~= chunk@);
        i += 1;
    }
    assert(chunks@.take(i as int) =~= chunks@);
    r
}

/// What the store answered to a request for a container: the name of the
/// container's image, or nothing if the store holds no such container; or
/// how the call failed.
pub type ContainerReply = Result<Option<String>, String>;

/// What the store answered to a request for an image: the digest of the
/// image's target, where the store holds the image (the outer option) and
/// the image has a target (the inner one); or how the call failed.
pub type ImageReply = Result<Option<Option<String>>, String>;

/// What the store answered to a request for content: the chunks of the
/// stream in the order in which they arrived; or how the call or the
/// stream failed.
pub type ContentReply = Result<Vec<Vec<u8>>, String>;

/// The name of a container's image, from what the store answered. A failed
/// call and a missing container are failures of the store.
pub fn get_image(container_id: &str, reply: ContainerReply) -> (r: Result<String, ShimError>)
    ensures
        match reply {
            Ok(Some(image)) => r is Ok && r->Ok_0@ == image@,
            Ok(None) => r is Err && r->Err_0.is(
                ErrorKind::Containerd,
                "failed to get image for container "@ + container_id@,
            ),
            Err(cause) => r is Err && r->Err_0.is(ErrorKind::Containerd, cause@),
        },
{
    match reply {
        Ok(Some(image)) => Ok(image),
        Ok(None) => Err(
            ShimError::Containerd(join("failed to get image for container ", container_id)),
        ),
        Err(cause) => Err(ShimError::Containerd(cause)),
    }
}

/// The digest of an image's manifest, from what the store answered. A
/// failed call, a missing image and an image without a target are failures
/// of the store.
pub fn get_image_content_sha(image_name: &str, reply: ImageReply) -> (r: Result<String, ShimError>)
    ensures
        match reply {
            Ok(Some(Some(digest))) => r is Ok && r->Ok_0@ == digest@,
            Ok(_) => r is Err && r->Err_0.is(
                ErrorKind::Containerd,
                "failed to get image content sha for image "@ + image_name@,
            ),
            Err(cause) => r is Err && r->Err_0.is(ErrorKind::Containerd, cause@),
        },
{
    match reply {
        Ok(Some(Some(digest))) => Ok(digest),
        Ok(_) => Err(
            ShimError::Containerd(join("failed to get image content sha for image ", image_name)),
        ),
        Err(cause) => Err(ShimError::Containerd(cause)),
    }
}

/// The whole of a content, from what the store answered. A failed call or
/// stream is a failure of the store.
pub fn read_content(reply: ContentReply) -> (r: Result<Vec<u8>, ShimError>)
    ensures
        match reply {
            Ok(chunks) => r is Ok && r->Ok_0@ == joined(chunks@),
            Err(cause) => r is Err && r->Err_0.is(ErrorKind::Containerd, cause@),
        },
{
    match reply {
        Ok(chunks) => Ok(join_chunks(&chunks)),
        Err(cause) => Err(ShimError::Containerd(cause)),
    }
}

/// The failure of `oci_spec` to read a document, `oci_spec::OciSpecError`.
/// It is carried from the call that failed to the call that gives its
/// text, and nothing is known of what it holds.
#[verifier::external_type_specification]
#[verifier::external_body]
pub struct ExOciSpecError(oci_spec::OciSpecError);

/// The failure of `serde_json` to read a document, `serde_json::Error`.
/// It is carried from the call that failed to the call that gives its
/// text, and nothing is known of what it holds.
#[verifier::external_type_specification]
#[verifier::external_body]
pub struct ExJsonError(serde_json::Error);

/// The manifest that the bytes hold, if they hold one: what
/// `oci_spec::image::ImageManifest::from_reader` reads from them.
pub uninterp spec fn manifest_in(bytes: Seq<u8>) -> Option<ManifestView>;

/// The platform that the bytes of an image configuration declare, if they
/// declare one: what `serde_json::from_slice` reads from them as an
/// `oci_spec::image::Platform`.
pub uninterp spec fn platform_in(bytes: Seq<u8>) -> Option<PlatformView>;

/// Reads an image manifest with `oci_spec::image::ImageManifest::from_reader`
/// and keeps, of the configuration and of each layer in the manifest's
/// order, the media type and the digest as text and the size.
///
/// Trusted: that what is read depends on the bytes alone, which
/// [`manifest_in`] names. Nothing is claimed of what a given text holds.
#[verifier::external_body]
pub(crate) fn parse_manifest(bytes: &[u8]) -> (r: Result<Manifest, oci_spec::OciSpecError>)
    ensures
        match r {
            Ok(manifest) => manifest_in(bytes@) == Some(manifest@),
            Err(_) => manifest_in(bytes@) is None,
        },
{
    let parsed = oci_spec::image::ImageManifest::from_reader(bytes)?;
    let describe = |d: &oci_spec::image::Descriptor| Descriptor {
        media_type: d.media_type().to_string(),
        digest: d.digest().to_string(),
        size: d.size(),
    };
    Ok(
        Manifest {
            config: describe(parsed.config()),
            layers: parsed.layers().iter().map(describe).collect(),
        },
    )
}

/// Reads the platform of an image configuration with
/// `serde_json::from_slice`, as an `oci_spec::image::Platform`, and keeps
/// the architecture and the operating system as text.
///
/// Trusted: that what is read depends on the bytes alone, which
/// [`platform_in`] names. Nothing is claimed of what a given text holds.
#[verifier::external_body]
pub(crate) fn parse_platform(bytes: &[u8]) -> (r: Result<Platform, serde_json::Error>)
    ensures
        match r {
            Ok(platform) => platform_in(bytes@) == Some(platform@),
            Err(_) => platform_in(bytes@) is None,
        },
{
    let parsed: oci_spec::image::Platform = serde_json::from_slice(bytes)?;
    Ok(
        Platform {
            architecture: parsed.architecture().to_string(),
            os: parsed.os().to_string(),
        },
    )
}

/// The text of a failure to read a manifest, as the `Display` of
/// `oci_spec::OciSpecError` gives it. Nothing is claimed of the text.
#[verifier::external_body]
pub(crate) fn manifest_error_text(error: &oci_spec::OciSpecError) -> String {
    error.to_string()
}

/// The text of a failure to read a configuration, as the `Display` of
/// `serde_json::Error` gives it. Nothing is claimed of the text.
#[verifier::external_body]
pub(crate) fn platform_error_text(error: &serde_json::Error) -> String {
    error.to_string()
}

/// A call to the content store.
#[derive(Debug)]
pub enum StoreRequest {
    /// Get the container with this id.
    GetContainer { id: String },
    /// Get the image with this name.
    GetImage { name: String },
    /// Read the content with this digest, to the end of the stream.
    ReadContent { digest: String },
}

/// What the content store answered.
#[derive(Debug)]
pub enum StoreReply {
    /// To `GetContainer`: the name of the container's image, or nothing if
    /// the store holds no such container.
    Container(Option<String>),
    /// To `GetImage`: the digest of the image's target, where the store
    /// holds the image (the outer option) and the image has a target (the
    /// inner one).
    Image(Option<Option<String>>),
    /// To `ReadContent`: the chunks of the stream in the order in which
    /// they arrived.
    Content(Vec<Vec<u8>>),
    /// To any call: the call, or the stream it opened, failed.
    Failed(String),
}

/// How far the resolution of a container's payload layers has come: which
/// answer of the store it waits for, and what it has gathered.
#[derive(Debug)]
pub enum Resolution {
    /// Waits for the container.
    Container { container_id: String },
    /// Waits for the image of this name.
    Image { image_name: String },
    /// Waits for the bytes of the manifest.
    ManifestContent,
    /// Waits for the bytes of the image configuration; holds the layers of
    /// the manifest.
    ConfigContent { layers: Vec<Descriptor> },
    /// Waits for the bytes of the payload layer that comes after those in
    /// `done`; holds the platform and all payload layers.
    LayerContent { platform: Platform, payload: Vec<Descriptor>, done: Vec<WasmLayer> },
}

/// What a step of the resolution gives.
#[derive(Debug)]
pub enum Outcome {
    /// The resolution goes on with this call to the store.
    Ask(Resolution, StoreRequest),
    /// The resolution has ended: the payload layers in the manifest's
    /// order, none for an image of another architecture, and the platform
    /// that the image declares.
    Done(Vec<WasmLayer>, Platform),
    /// The resolution has failed. No layer is handed out.
    Failed(ShimError),
}

/// Whether `out` is the failure of the given kind and text.
pub open spec fn fails(out: Outcome, kind: ErrorKind, message: Seq<char>) -> bool {
    out matches Outcome::Failed(e) && e.is(kind, message)
}

/// Whether `out` is what reading the manifest `manifest` leads to: the
/// resolution asks for the bytes of the image configuration and keeps the
/// manifest's layers.
pub open spec fn follows_manifest(manifest: ManifestView, out: Outcome) -> bool {
    &&& out matches Outcome::Ask(
        Resolution::ConfigContent { layers },
        StoreRequest::ReadContent { digest },
    )
    &&& descriptors_view(layers@) == manifest.layers
    &&& digest@ == manifest.config.digest
}

/// Whether `out` is what reading the platform leads to, for a manifest
/// with the layers `layers`.
///
/// For a platform of another architecture than `wasm` the resolution ends
/// with no layers and the platform. So it does for a `wasm` image without
/// payload layers. Otherwise it asks for the bytes of the first payload
/// layer.
pub open spec fn follows_config(
    layers: Seq<DescriptorView>,
    platform: PlatformView,
    out: Outcome,
) -> bool {
    if !declares_wasm(platform) || payload_layers(layers).len() == 0 {
        &&& out matches Outcome::Done(found, declared)
        &&& found@.len() == 0
        &&& declared@ == platform
    } else {
        &&& out matches Outcome::Ask(
            Resolution::LayerContent { platform: declared, payload, done },
            StoreRequest::ReadContent { digest },
        )
        &&& declared@ == platform
        &&& descriptors_view(payload@) == payload_layers(layers)
        &&& done@.len() == 0
        &&& digest@ == payload_layers(layers)[0].digest
    }
}

/// Whether `out` is what reading the bytes of a payload layer leads to,
/// when the layers in `done` were read before: the layer is added with
/// its descriptor, and the resolution ends with all layers if it was the
/// last, and asks for the bytes of the next one if not.
pub open spec fn follows_layer(
    platform: PlatformView,
    payload: Seq<DescriptorView>,
    done: Seq<WasmLayerView>,
    bytes: Seq<u8>,
    out: Outcome,
) -> bool {
    let now = done.push(WasmLayerView { config: payload[done.len() as int], layer: bytes });
    if now.len() == payload.len() {
        &&& out matches Outcome::Done(found, declared)
        &&& layers_view(found@) == now
        &&& declared@ == platform
    } else {
        &&& out matches Outcome::Ask(
            Resolution::LayerContent { platform: declared, payload: all, done: read },
            StoreRequest::ReadContent { digest },
        )
        &&& declared@ == platform
        &&& descriptors_view(all@) == payload
        &&& layers_view(read@) == now
        &&& digest@ == payload[now.len() as int].digest
    }
}

/// Whether the layers have the descriptors of the first payload layers, in
/// their order.
pub open spec fn read_so_far(payload: Seq<DescriptorView>, done: Seq<WasmLayerView>) -> bool {
    &&& done.len() <= payload.len()
    &&& forall|i: int| 0 <= i < done.len() ==> (#[trigger] done[i]).config == payload[i]
}

/// Goes on after the manifest was read: asks for the image configuration.
pub fn manifest_read(manifest: Manifest) -> (out: Outcome)
    ensures
        follows_manifest(manifest@, out),
        out matches Outcome::Ask(next, _) && next.wf(),
{
    let digest = manifest.config.digest.clone();
    Outcome::Ask(
        Resolution::ConfigContent { layers: manifest.layers },
        StoreRequest::ReadContent { digest },
    )
}

/// Goes on after the platform was read: ends with no layers unless the
/// image declares the `wasm` architecture, and asks for the first payload
/// layer if it does and has one.
pub fn config_read(layers: Vec<Descriptor>, platform: Platform) -> (out: Outcome)
    ensures
        follows_config(descriptors_view(layers@), platform@, out),
        out matches Outcome::Ask(next, _) ==> next.wf(),
{
    if !platform.is_wasm() {
        return Outcome::Done(Vec::new(), platform);
    }
    let payload = select_payload_layers(&layers);
    if payload.len() == 0 {
        return Outcome::Done(Vec::new(), platform);
    }
    let digest = payload[0].digest.clone();
    assert(descriptors_view(payload@)[0] == payload@[0]@);
    Outcome::Ask(
        Resolution::LayerContent { platform, payload, done: Vec::new() },
        StoreRequest::ReadContent { digest },
    )
}

/// Goes on after the bytes of a payload layer were read: adds the layer,
/// and ends with all layers or asks for the next one.
pub fn layer_read(
    platform: Platform,
    payload: Vec<Descriptor>,
    done: Vec<WasmLayer>,
    bytes: Vec<u8>,
) -> (out: Outcome)
    requires
        done@.len() < payload@.len(),
        read_so_far(descriptors_view(payload@), layers_view(done@)),
    ensures
        follows_layer(platform@, descriptors_view(payload@), layers_view(done@), bytes@, out),
        out matches Outcome::Ask(next, _) ==> next.wf(),
        out matches Outcome::Done(found, _) ==> found@.len() == payload@.len() && read_so_far(
            descriptors_view(payload@),
            layers_view(found@),
        ),
{
    let mut done = done;
    let ghost before = layers_view(done@);
    let config = payload[done.len()].duplicate();
    done.push(WasmLayer { config, layer: bytes });
    assert(layers_view(done@) =~= before.push(
        WasmLayerView { config: descriptors_view(payload@)[before.len() as int], layer: bytes@ },
    ));
    if done.len() == payload.len() {
        return Outcome::Done(done, platform);
    }
    let digest = payload[done.len()].digest.clone();
    assert(descriptors_view(payload@)[done@.len() as int] == payload@[done@.len() as int]@);
    Outcome::Ask(
        Resolution::LayerContent { platform, payload, done },
        StoreRequest::ReadContent { digest },
    )
}

impl Resolution {
    /// Whether the state is well formed: while layers are read, one is
    /// still missing, and those that were read have the descriptors of the
    /// first payload layers, in their order.
    pub open spec fn wf(&self) -> bool {
        match self {
            Resolution::LayerContent { payload, done, .. } => read_so_far(
                descriptors_view(payload@),
                layers_view(done@),
            ) && done@.len() < payload@.len(),
            _ => true,
        }
    }

    /// Begins to resolve the payload layers of a container: the first call
    /// to the store asks for the container.
    pub fn load_modules(container_id: &str) -> (r: (Resolution, StoreRequest))
        ensures
            r.0 matches Resolution::Container { container_id: held } && held@ == container_id@,
            r.1 matches StoreRequest::GetContainer { id } && id@ == container_id@,
            r.0.wf(),
    {
        (
            Resolution::Container { container_id: String::from_str(container_id) },
            StoreRequest::GetContainer { id: String::from_str(container_id) },
        )
    }

    /// Whether `out` is what the answer `reply` leads to from this state.
    ///
    /// A failed call fails the resolution in every state, with the text of
    /// the call's failure. An answer to another call than the one that was
    /// asked for fails it too. A missing container, a missing image and an
    /// image without a target fail it. Bytes that hold no manifest, or no
    /// platform, fail it with a failure of the kind `Others`.
    pub open spec fn leads_to(self, reply: StoreReply, out: Outcome) -> bool {
        match (self, reply) {
            (_, StoreReply::Failed(cause)) => fails(out, ErrorKind::Containerd, cause@),
            (Resolution::Container { container_id }, StoreReply::Container(Some(image))) => {
                &&& out matches Outcome::Ask(
                    Resolution::Image { image_name },
                    StoreRequest::GetImage { name },
                )
                &&& image_name@ == image@
                &&& name@ == image@
            },
            (Resolution::Container { container_id }, StoreReply::Container(None)) => fails(
                out,
                ErrorKind::Containerd,
                "failed to get image for container "@ + container_id@,
            ),
            (Resolution::Image { image_name }, StoreReply::Image(Some(Some(target)))) => {
                &&& out matches Outcome::Ask(
                    Resolution::ManifestContent,
                    StoreRequest::ReadContent { digest },
                )
                &&& digest@ == target@
            },
            (Resolution::Image { image_name }, StoreReply::Image(_)) => fails(
                out,
                ErrorKind::Containerd,
                "failed to get image content sha for image "@ + image_name@,
            ),
            (Resolution::ManifestContent, StoreReply::Content(chunks)) => match manifest_in(
                joined(chunks@),
            ) {
                Some(manifest) => follows_manifest(manifest, out),
                None => out matches Outcome::Failed(e) && e.kind() == ErrorKind::Others,
            },
            (Resolution::ConfigContent { layers }, StoreReply::Content(chunks)) => match platform_in(
                joined(chunks@),
            ) {
                Some(platform) => follows_config(descriptors_view(layers@), platform, out),
                None => out matches Outcome::Failed(e) && e.kind() == ErrorKind::Others,
            },
            (
                Resolution::LayerContent { platform, payload, done },
                StoreReply::Content(chunks),
            ) => follows_layer(
                platform@,
                descriptors_view(payload@),
                layers_view(done@),
                joined(chunks@),
                out,
            ),
            _ => fails(out, ErrorKind::Containerd, "unexpected answer from the content store"@),
        }
    }

    /// Takes the store's answer to the call that was asked for, and says
    /// how the resolution goes on.
    pub fn resume(self, reply: StoreReply) -> (out: Outcome)
        requires
            self.wf(),
        ensures
            self.leads_to(reply, out),
            out matches Outcome::Ask(next, _) ==> next.wf(),
    {
        match self {
            Resolution::Container { container_id } => {
                let answer = match reply {
                    StoreReply::Container(found) => Ok(found),
                    StoreReply::Failed(cause) => Err(cause),
                    _ => {
                        return unexpected_answer();
                    },
                };
                match get_image(container_id.as_str(), answer) {
                    Ok(image) => {
                        let name = image.clone();
                        Outcome::Ask(
                            Resolution::Image { image_name: image },
                            StoreRequest::GetImage { name },
                        )
                    },
                    Err(e) => Outcome::Failed(e),
                }
            },
            Resolution::Image { image_name } => {
                let answer = match reply {
                    StoreReply::Image(found) => Ok(found),
                    StoreReply::Failed(cause) => Err(cause),
                    _ => {
                        return unexpected_answer();
                    },
                };
                match get_image_content_sha(image_name.as_str(), answer) {
                    Ok(digest) => Outcome::Ask(
                        Resolution::ManifestContent,
                        StoreRequest::ReadContent { digest },
                    ),
                    Err(e) => Outcome::Failed(e),
                }
            },
            Resolution::ManifestContent => {
                let bytes = match content_of(reply) {
                    Ok(bytes) => bytes,
                    Err(out) => {
                        return out;
                    },
                };
                match parse_manifest(bytes.as_slice()) {
                    Ok(manifest) => manifest_read(manifest),
                    Err(e) => Outcome::Failed(ShimError::Others(manifest_error_text(&e))),
                }
            },
            Resolution::ConfigContent { layers } => {
                let bytes = match content_of(reply) {
                    Ok(bytes) => bytes,
                    Err(out) => {
                        return out;
                    },
                };
                match parse_platform(bytes.as_slice()) {
                    Ok(platform) => config_read(layers, platform),
                    Err(e) => Outcome::Failed(ShimError::Others(platform_error_text(&e))),
                }
            },
            Resolution::LayerContent { platform, payload, done } => {
                let bytes = match content_of(reply) {
                    Ok(bytes) => bytes,
                    Err(out) => {
                        return out;
                    },
                };
                layer_read(platform, payload, done, bytes)
            },
        }
    }
}

/// The failure for an answer to another call than the one asked for.
fn unexpected_answer() -> (out: Outcome)
    ensures
        fails(out, ErrorKind::Containerd, "unexpected answer from the content store"@),
{
    Outcome::Failed(ShimError::Containerd(String::from_str("unexpected answer from the content store")))
}

/// The whole content that an answer to `ReadContent` holds, or the failure
/// that another answer is.
fn content_of(reply: StoreReply) -> (r: Result<Vec<u8>, Outcome>)
    ensures
        match reply {
            StoreReply::Content(chunks) => r is Ok && r->Ok_0@ == joined(chunks@),
            StoreReply::Failed(cause) => r is Err && fails(
                r->Err_0,
                ErrorKind::Containerd,
                cause@,
            ),
            _ => r is Err && fails(
                r->Err_0,
                ErrorKind::Containerd,
                "unexpected answer from the content store"@,
            ),
        },
{
    let answer = match reply {
        StoreReply::Content(chunks) => Ok(chunks),
        StoreReply::Failed(cause) => Err(cause),
        _ => {
            return Err(unexpected_answer());
        },
    };
    match read_content(answer) {
        Ok(bytes) => Ok(bytes),
        Err(e) => Err(Outcome::Failed(e)),
    }
}

} // verus!
