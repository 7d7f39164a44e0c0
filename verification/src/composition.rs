//! The compositor: the surface's format and size, the frame in flight, and
//! the backing stores that the engine holds.
//!
//! The compositor decides; it issues no GPU call. A resize that must
//! reconfigure the surface hands back the configuration to apply, a frame
//! that was acquired is handed in and handed back when it is presented, and
//! a backing store is a token with a size that the host allocates for.

use vstd::prelude::*;
use crate::application::AppError;
use crate::flutter_embedder::{compositor_record, FlutterCompositor};
use crate::flutter_render_config_vk::{
    create_flutter_renderer_config, renderer_config_of, FlutterRendererConfigWrapper,
    RawVkDeviceAndQueue, RawVkInstance,
};
use wgpu::{AstcChannel, CompositeAlphaMode, PresentMode, TextureFormat};
use winit::dpi::PhysicalSize;

verus! {

/// [`wgpu::TextureFormat`], with its variants.
#[verifier::external_type_specification]
pub struct ExTextureFormat(wgpu::TextureFormat);

/// [`wgpu::AstcBlock`], which [`wgpu::TextureFormat`] holds.
#[verifier::external_type_specification]
#[verifier::external_body]
pub struct ExAstcBlock(wgpu::AstcBlock);

/// [`wgpu::AstcChannel`], which [`wgpu::TextureFormat`] holds.
#[verifier::external_type_specification]
pub struct ExAstcChannel(wgpu::AstcChannel);

/// [`wgpu::PresentMode`], with its variants.
#[verifier::external_type_specification]
pub struct ExPresentMode(wgpu::PresentMode);

/// [`wgpu::CompositeAlphaMode`], with its variants.
#[verifier::external_type_specification]
pub struct ExCompositeAlphaMode(wgpu::CompositeAlphaMode);

/// [`winit::dpi::PhysicalSize`], with its two fields.
#[verifier::external_type_specification]
pub struct ExPhysicalSize<P>(winit::dpi::PhysicalSize<P>);

/// How many frames the presentation engine may queue.
pub const FRAME_LATENCY: u32 = 2;

/// The format with the `Srgb` suffix, where there is such a format, else the
/// format itself.
pub open spec fn srgb_suffixed(format: TextureFormat) -> TextureFormat {
    match format {
        TextureFormat::Rgba8Unorm => TextureFormat::Rgba8UnormSrgb,
        TextureFormat::Bgra8Unorm => TextureFormat::Bgra8UnormSrgb,
        TextureFormat::Bc1RgbaUnorm => TextureFormat::Bc1RgbaUnormSrgb,
        TextureFormat::Bc2RgbaUnorm => TextureFormat::Bc2RgbaUnormSrgb,
        TextureFormat::Bc3RgbaUnorm => TextureFormat::Bc3RgbaUnormSrgb,
        TextureFormat::Bc7RgbaUnorm => TextureFormat::Bc7RgbaUnormSrgb,
        TextureFormat::Etc2Rgb8Unorm => TextureFormat::Etc2Rgb8UnormSrgb,
        TextureFormat::Etc2Rgb8A1Unorm => TextureFormat::Etc2Rgb8A1UnormSrgb,
        TextureFormat::Etc2Rgba8Unorm => TextureFormat::Etc2Rgba8UnormSrgb,
        TextureFormat::Astc { block, channel: AstcChannel::Unorm } => TextureFormat::Astc {
            block,
            channel: AstcChannel::UnormSrgb,
        },
        _ => format,
    }
}

/// Calls [`wgpu::TextureFormat::add_srgb_suffix`]. Trusted: the result is the
/// sRGB counterpart of the nine formats and of the ASTC channel that have
/// one, and the format itself otherwise, as [`srgb_suffixed`] lists them.
#[verifier::external_body]
fn add_srgb_suffix(format: TextureFormat) -> (suffixed: TextureFormat)
    ensures
        suffixed == srgb_suffixed(format),
{
    format.add_srgb_suffix()
}

/// What the textures of a surface are used for.
#[derive(Clone, Copy, Debug, PartialEq, Eq)]
pub enum TextureUsage {
    /// Source of a copy.
    CopySrc,
    /// Destination of a copy.
    CopyDst,
    /// Bound as a texture in a shader.
    TextureBinding,
    /// Bound as a storage texture in a shader.
    StorageBinding,
    /// Target of a render pass.
    RenderAttachment,
}

/// How a surface is to be configured.
#[derive(Clone, Copy, Debug, PartialEq, Eq)]
pub struct SurfaceConfiguration {
    /// What the surface's textures are used for.
    pub usage: TextureUsage,
    /// The format of the surface's textures.
    pub format: TextureFormat,
    /// The one format, besides `format`, in which a view of a surface
    /// texture may be made.
    pub view_format: TextureFormat,
    /// How the surface is blended with what lies below it.
    pub alpha_mode: CompositeAlphaMode,
    /// Width of the surface, in pixels.
    pub width: u32,
    /// Height of the surface, in pixels.
    pub height: u32,
    /// How many frames the presentation engine may queue.
    pub desired_maximum_frame_latency: u32,
    /// How presentation is paced.
    pub present_mode: PresentMode,
}

/// The size holds no pixel.
pub open spec fn zero_area(size: PhysicalSize<u32>) -> bool {
    size.width == 0 || size.height == 0
}

/// The configuration of a surface of the given format and size: textures to
/// render into, viewed in the format's sRGB counterpart, paced by the
/// display.
pub open spec fn surface_configuration(
    format: TextureFormat,
    size: PhysicalSize<u32>,
) -> SurfaceConfiguration {
    SurfaceConfiguration {
        usage: TextureUsage::RenderAttachment,
        format,
        view_format: srgb_suffixed(format),
        alpha_mode: CompositeAlphaMode::Auto,
        width: size.width,
        height: size.height,
        desired_maximum_frame_latency: FRAME_LATENCY,
        present_mode: PresentMode::AutoVsync,
    }
}

/// A backing store that the engine holds: its token and its size in pixels.
#[derive(Clone, Copy, Debug, PartialEq, Eq)]
pub struct BackingStore {
    /// Names the store for as long as the compositor lives.
    pub token: u64,
    /// Width, in pixels.
    pub width: u32,
    /// Height, in pixels.
    pub height: u32,
}

/// One layer of a frame that the engine asks to have composited.
#[derive(Clone, Copy, Debug, PartialEq, Eq)]
pub enum FlutterLayer {
    /// Pixels that the engine rendered into the backing store of this token.
    BackingStore(u64),
    /// A view of the platform, named by its identifier.
    PlatformView(i64),
}

/// What can happen to a compositor.
pub enum CompositorInput<T> {
    /// The surface is given a new size.
    Resize(PhysicalSize<u32>),
    /// A frame is rendered, if one could be acquired.
    Render(Option<T>),
    /// The frame in flight is presented.
    Present,
    /// The engine asks for a backing store of this size.
    CreateBackingStore { width: u32, height: u32 },
    /// The engine releases the backing store of this token.
    CollectBackingStore { token: u64 },
}

/// The state of a [`Compositor`].
pub struct CompositorView<T> {
    /// The format of the surface's textures.
    pub surface_format: TextureFormat,
    /// The size that the surface was last given.
    pub surface_size: PhysicalSize<u32>,
    /// The frame that was acquired and not yet presented.
    pub pending: Option<T>,
    /// The backing stores that the engine holds, oldest first.
    pub backing_stores: Seq<BackingStore>,
    /// The token of the next backing store.
    pub next_token: u64,
}

impl<T> CompositorView<T> {
    /// No two backing stores share a token, and no token is yet to be given
    /// out.
    pub open spec fn wf(self) -> bool {
        &&& forall|i: int|
            0 <= i < self.backing_stores.len() ==> (#[trigger] self.backing_stores[i]).token
                < self.next_token
        &&& forall|i: int, j: int|
            0 <= i < j < self.backing_stores.len() ==> (#[trigger] self.backing_stores[i]).token != (
            #[trigger] self.backing_stores[j]).token
    }

    /// The configuration that the surface has, if it was ever given a size
    /// that holds a pixel.
    pub open spec fn configuration(self) -> Option<SurfaceConfiguration> {
        if zero_area(self.surface_size) {
            None
        } else {
            Some(surface_configuration(self.surface_format, self.surface_size))
        }
    }

    /// The state after a resize to `new_size`.
    pub open spec fn resized(self, new_size: PhysicalSize<u32>) -> Self {
        if zero_area(new_size) {
            self
        } else {
            CompositorView { surface_size: new_size, ..self }
        }
    }

    /// The state after a frame was rendered, if one could be acquired.
    pub open spec fn rendered(self, acquired: Option<T>) -> Self {
        match acquired {
            Some(frame) => CompositorView { pending: Some(frame), ..self },
            None => self,
        }
    }

    /// The state after the pending frame, if any, was presented.
    pub open spec fn presented(self) -> Self {
        CompositorView { pending: None, ..self }
    }

    /// The token is that of a backing store that the engine holds.
    pub open spec fn holds(self, token: u64) -> bool {
        exists|i: int| 0 <= i < self.backing_stores.len() && self.backing_stores[i].token == token
    }

    /// A backing store of this size can be made.
    pub open spec fn can_create(self, width: u32, height: u32) -> bool {
        width != 0 && height != 0 && self.next_token < u64::MAX
    }

    /// The state after a backing store of this size was made.
    pub open spec fn created(self, width: u32, height: u32) -> Self {
        if self.can_create(width, height) {
            CompositorView {
                backing_stores: self.backing_stores.push(
                    BackingStore { token: self.next_token, width, height },
                ),
                next_token: (self.next_token + 1) as u64,
                ..self
            }
        } else {
            self
        }
    }

    /// `index` is where the first backing store of this token stands.
    pub open spec fn is_index_of(self, token: u64, index: int) -> bool {
        &&& 0 <= index < self.backing_stores.len()
        &&& self.backing_stores[index].token == token
        &&& forall|i: int| 0 <= i < index ==> self.backing_stores[i].token != token
    }

    /// Where the backing store of this token stands, if the engine holds it.
    pub open spec fn index_of(self, token: u64) -> int {
        choose|index: int| self.is_index_of(token, index)
    }

    /// The state after the backing store of this token, if there is one, was
    /// released.
    pub open spec fn collected(self, token: u64) -> Self {
        if self.holds(token) {
            CompositorView {
                backing_stores: self.backing_stores.remove(self.index_of(token)),
                ..self
            }
        } else {
            self
        }
    }

    /// The state after one backing store was made and released again for
    /// each of the sizes in turn.
    pub open spec fn cycled(self, sizes: Seq<(u32, u32)>) -> Self
        decreases sizes.len(),
    {
        if sizes.len() == 0 {
            self
        } else {
            let before = self.cycled(sizes.drop_last());
            before.created(sizes.last().0, sizes.last().1).collected(before.next_token)
        }
    }

    /// The state after the input.
    pub open spec fn step(self, input: CompositorInput<T>) -> Self {
        match input {
            CompositorInput::Resize(new_size) => self.resized(new_size),
            CompositorInput::Render(acquired) => self.rendered(acquired),
            CompositorInput::Present => self.presented(),
            CompositorInput::CreateBackingStore { width, height } => self.created(width, height),
            CompositorInput::CollectBackingStore { token } => self.collected(token),
        }
    }

    /// The state after the inputs, one after the other.
    pub open spec fn after(self, inputs: Seq<CompositorInput<T>>) -> Self
        decreases inputs.len(),
    {
        if inputs.len() == 0 {
            self
        } else {
            self.step(inputs[0]).after(inputs.drop_first())
        }
    }

    /// Every layer that shows a backing store shows one that the engine
    /// holds.
    pub open spec fn can_present(self, layers: Seq<FlutterLayer>) -> bool {
        forall|i: int|
            0 <= i < layers.len() ==> (#[trigger] layers[i] matches FlutterLayer::BackingStore(token)
                ==> self.holds(token))
    }
}

/// A frame that was rendered is the one frame in flight. Presenting hands
/// that frame out and leaves none in flight, and presenting once more
/// changes nothing.
pub proof fn lemma_render_then_present<T>(compositor: CompositorView<T>, frame: T)
    ensures
        compositor.rendered(Some(frame)).pending == Some(frame),
        compositor.rendered(Some(frame)).presented().pending.is_none(),
        compositor.rendered(Some(frame)).presented().presented() == compositor.rendered(
            Some(frame),
        ).presented(),
        compositor.rendered(None).pending == compositor.pending,
{
}

/// A resize to a size without pixels changes nothing, whatever the other
/// dimension is.
pub proof fn lemma_zero_area_resize<T>(compositor: CompositorView<T>, width: u32, height: u32)
    ensures
        compositor.resized(PhysicalSize { width: 0, height }) == compositor,
        compositor.resized(PhysicalSize { width, height: 0 }) == compositor,
        compositor.resized(PhysicalSize { width: 0, height }).configuration()
            == compositor.configuration(),
        compositor.resized(PhysicalSize { width, height: 0 }).configuration()
            == compositor.configuration(),
{
}

/// Once a backing store was released the engine holds none of its token, so
/// that releasing it once more changes nothing.
pub proof fn lemma_collect_once<T>(compositor: CompositorView<T>, token: u64)
    requires
        compositor.wf(),
    ensures
        compositor.collected(token).wf(),
        !compositor.collected(token).holds(token),
        compositor.collected(token).collected(token) == compositor.collected(token),
{
    if compositor.holds(token) {
        let before = compositor.backing_stores;
        let after = compositor.collected(token).backing_stores;
        let held = choose|i: int| 0 <= i < before.len() && before[i].token == token;
        assert(compositor.is_index_of(token, held));
        let index = compositor.index_of(token);
        assert forall|i: int| 0 <= i < after.len() implies #[trigger] after[i] == before[if i
            < index {
            i
        } else {
            i + 1
        }] by {}
    }
}

/// A backing store that was made and then released leaves the engine's
/// stores as they were before it was made.
pub proof fn lemma_create_then_collect<T>(compositor: CompositorView<T>, width: u32, height: u32)
    requires
        compositor.wf(),
    ensures
        compositor.created(width, height).wf(),
        compositor.can_create(width, height) ==> compositor.created(width, height).holds(
            compositor.next_token,
        ),
        compositor.created(width, height).collected(compositor.next_token).backing_stores
            == compositor.backing_stores,
        compositor.created(width, height).collected(compositor.next_token).wf(),
        !compositor.created(width, height).collected(compositor.next_token).holds(
            compositor.next_token,
        ),
{
    let token = compositor.next_token;
    let created = compositor.created(width, height);
    if compositor.can_create(width, height) {
        let last = compositor.backing_stores.len() as int;
        assert(created.backing_stores[last].token == token);
        assert(created.is_index_of(token, last));
        assert(created.is_index_of(token, created.index_of(token)));
        assert(created.index_of(token) == last);
        assert(created.backing_stores.remove(last) =~= compositor.backing_stores);
    } else {
        assert(!compositor.holds(token));
    }
    lemma_collect_once(created, token);
}

/// However many backing stores are made and released one after the other,
/// and whatever their sizes, the engine holds the stores it held before.
pub proof fn lemma_cycles_leak_nothing<T>(compositor: CompositorView<T>, sizes: Seq<(u32, u32)>)
    requires
        compositor.wf(),
    ensures
        compositor.cycled(sizes).wf(),
        compositor.cycled(sizes).backing_stores == compositor.backing_stores,
    decreases sizes.len(),
{
    if sizes.len() > 0 {
        lemma_cycles_leak_nothing(compositor, sizes.drop_last());
        lemma_create_then_collect(
            compositor.cycled(sizes.drop_last()),
            sizes.last().0,
            sizes.last().1,
        );
    }
}

/// Whatever happens to a compositor, no two of its backing stores come to
/// share a token, and a token that was given out and is no longer held is
/// never held again: a store that was released cannot be released once
/// more, nor composited.
pub proof fn lemma_tokens_are_never_reused<T>(
    compositor: CompositorView<T>,
    token: u64,
    inputs: Seq<CompositorInput<T>>,
)
    requires
        compositor.wf(),
    ensures
        compositor.after(inputs).wf(),
        compositor.after(inputs).next_token >= compositor.next_token,
        token < compositor.next_token && !compositor.holds(token) ==> !compositor.after(
            inputs,
        ).holds(token),
    decreases inputs.len(),
{
    if inputs.len() > 0 {
        let next = compositor.step(inputs[0]);
        match inputs[0] {
            CompositorInput::CreateBackingStore { width, height } => {
                lemma_create_then_collect(compositor, width, height);
                if token < compositor.next_token && !compositor.holds(token) && next.holds(token) {
                    let held = choose|i: int|
                        0 <= i < next.backing_stores.len() && next.backing_stores[i].token == token;
                    if held < compositor.backing_stores.len() {
                        assert(compositor.backing_stores[held].token == token);
                    }
                }
            },
            CompositorInput::CollectBackingStore { token: released } => {
                lemma_collect_once(compositor, released);
                if compositor.holds(released) && next.holds(token) {
                    let index = compositor.index_of(released);
                    let held = choose|i: int|
                        0 <= i < next.backing_stores.len() && next.backing_stores[i].token == token;
                    let before = choose|i: int|
                        0 <= i < compositor.backing_stores.len()
                            && compositor.backing_stores[i].token == released;
                    assert(compositor.is_index_of(released, before));
                    assert(compositor.backing_stores[if held < index {
                        held
                    } else {
                        held + 1
                    }].token == token);
                }
            },
            _ => {},
        }
        lemma_tokens_are_never_reused(next, token, inputs.drop_first());
    }
}

/// Owns what the host knows of the surface: its format and size, the frame
/// in flight, and the backing stores that the engine holds. `T` is the
/// host's presentable texture.
#[derive(Debug)]
pub struct Compositor<T> {
    surface_format: TextureFormat,
    surface_size: PhysicalSize<u32>,
    present_surface_texture: Option<T>,
    backing_stores: Vec<BackingStore>,
    next_token: u64,
}

impl<T> View for Compositor<T> {
    type V = CompositorView<T>;

    closed spec fn view(&self) -> CompositorView<T> {
        CompositorView {
            surface_format: self.surface_format,
            surface_size: self.surface_size,
            pending: self.present_surface_texture,
            backing_stores: self.backing_stores@,
            next_token: self.next_token,
        }
    }
}

impl<T> Compositor<T> {
    /// A compositor for a surface of the given format and size, with no
    /// frame in flight and no backing store.
    ///
    /// The surface is to be configured with [`Compositor::configuration`],
    /// if the size holds a pixel.
    pub fn new(surface_format: TextureFormat, surface_size: PhysicalSize<u32>) -> (compositor: Self)
        ensures
            compositor@.wf(),
            compositor@ == (CompositorView::<T> {
                surface_format,
                surface_size,
                pending: None,
                backing_stores: Seq::empty(),
                next_token: 0,
            }),
    {
        Compositor {
            surface_format,
            surface_size,
            present_surface_texture: None,
            backing_stores: Vec::new(),
            next_token: 0,
        }
    }

    /// The format of the surface's textures.
    pub fn surface_format(&self) -> (format: TextureFormat)
        ensures
            format == self@.surface_format,
    {
        self.surface_format
    }

    /// The size that the surface was last given.
    pub fn surface_size(&self) -> (size: PhysicalSize<u32>)
        ensures
            size == self@.surface_size,
    {
        self.surface_size
    }

    /// Whether a frame was acquired and not yet presented.
    pub fn has_pending_frame(&self) -> (pending: bool)
        ensures
            pending == self@.pending.is_some(),
    {
        self.present_surface_texture.is_some()
    }

    /// The configuration that the surface has, if it was ever given a size
    /// that holds a pixel.
    pub fn configuration(&self) -> (configuration: Option<SurfaceConfiguration>)
        ensures
            configuration == self@.configuration(),
    {
        if self.surface_size.width == 0 || self.surface_size.height == 0 {
            None
        } else {
            Some(self.configure(self.surface_size))
        }
    }

    fn configure(&self, size: PhysicalSize<u32>) -> (configuration: SurfaceConfiguration)
        ensures
            configuration == surface_configuration(self@.surface_format, size),
    {
        SurfaceConfiguration {
            usage: TextureUsage::RenderAttachment,
            format: self.surface_format,
            view_format: add_srgb_suffix(self.surface_format),
            alpha_mode: CompositeAlphaMode::Auto,
            width: size.width,
            height: size.height,
            desired_maximum_frame_latency: FRAME_LATENCY,
            present_mode: PresentMode::AutoVsync,
        }
    }

    /// Takes a new size for the surface.
    ///
    /// A size that holds no pixel changes nothing, and nothing is to be done.
    /// Any other size becomes the surface's size, and the configuration
    /// handed back is to be applied to the surface before the next frame.
    pub fn resize(&mut self, new_size: PhysicalSize<u32>) -> (reconfigure: Option<
        SurfaceConfiguration,
    >)
        ensures
            final(self)@ == old(self)@.resized(new_size),
            zero_area(new_size) ==> reconfigure.is_none() && final(self)@ == old(self)@,
            !zero_area(new_size) ==> reconfigure == Some(
                surface_configuration(old(self)@.surface_format, new_size),
            ) && final(self)@.configuration() == reconfigure,
    {
        if new_size.width == 0 || new_size.height == 0 {
            return None;
        }
        self.surface_size = new_size;
        Some(self.configure(new_size))
    }

    /// Takes the frame that the host acquired and painted, if it could
    /// acquire one, as the frame in flight.
    ///
    /// With no frame acquired nothing changes. A frame that was still in
    /// flight gives way to the new one and is handed back unpresented.
    pub fn render(&mut self, acquired: Option<T>) -> (displaced: Option<T>)
        ensures
            final(self)@ == old(self)@.rendered(acquired),
            acquired.is_some() ==> displaced == old(self)@.pending,
            acquired.is_none() ==> displaced.is_none(),
    {
        match acquired {
            Some(frame) => {
                let displaced = self.present_surface_texture.take();
                self.present_surface_texture = Some(frame);
                displaced
            },
            None => None,
        }
    }

    /// Hands back the frame in flight, which is to be presented. With no
    /// frame in flight nothing changes.
    pub fn present(&mut self) -> (frame: Option<T>)
        ensures
            frame == old(self)@.pending,
            final(self)@ == old(self)@.presented(),
    {
        self.present_surface_texture.take()
    }

    /// The record through which the engine reaches this compositor, stamped
    /// with `struct_size`.
    pub fn get_flutter_compositor(&self, struct_size: usize) -> (record: FlutterCompositor)
        ensures
            record == compositor_record(struct_size),
    {
        FlutterCompositor {
            struct_size,
            create_backing_store_callback: true,
            collect_backing_store_callback: true,
            present_layers_callback: true,
            present_view_callback: false,
            avoid_backing_store_cache: false,
        }
    }

    /// The renderer configuration for the Vulkan instance and device below
    /// the GPU stack that this compositor renders with.
    pub fn get_flutter_renderer_config(
        &self,
        instance: Option<RawVkInstance>,
        device: Option<RawVkDeviceAndQueue>,
        struct_size: usize,
    ) -> (result: Result<FlutterRendererConfigWrapper, AppError>)
        ensures
            renderer_config_of(instance, device, struct_size, result),
    {
        create_flutter_renderer_config(instance, device, struct_size)
    }

    fn position(&self, token: u64) -> (found: Option<usize>)
        ensures
            match found {
                Some(index) => self@.holds(token) && self@.is_index_of(token, index as int)
                    && index == self@.index_of(token),
                None => !self@.holds(token),
            },
    {
        let mut index: usize = 0;
        while index < self.backing_stores.len()
            invariant
                index <= self.backing_stores.len(),
                forall|i: int| 0 <= i < index ==> self@.backing_stores[i].token != token,
            decreases self.backing_stores.len() - index,
        {
            if self.backing_stores[index].token == token {
                assert(self@.is_index_of(token, index as int));
                return Some(index);
            }
            index += 1;
        }
        None
    }

    /// Makes a backing store of the given size for the engine.
    ///
    /// A size that holds no pixel is refused, as is a store once the tokens
    /// have run out: nothing changes then. Otherwise the engine holds one
    /// more store, under a token that no store had before.
    pub fn create_backing_store(&mut self, width: u32, height: u32) -> (store: Option<
        BackingStore,
    >)
        ensures
            final(self)@ == old(self)@.created(width, height),
            store == if old(self)@.can_create(width, height) {
                Some(BackingStore { token: old(self)@.next_token, width, height })
            } else {
                None
            },
            old(self)@.wf() ==> final(self)@.wf(),
    {
        if width == 0 || height == 0 || self.next_token == u64::MAX {
            return None;
        }
        let store = BackingStore { token: self.next_token, width, height };
        self.next_token = self.next_token + 1;
        self.backing_stores.push(store);
        Some(store)
    }

    /// Releases the backing store of the given token, and says whether the
    /// engine held one.
    ///
    /// A token that names no store, or one that was released before, changes
    /// nothing.
    pub fn collect_backing_store(&mut self, token: u64) -> (released: bool)
        ensures
            released == old(self)@.holds(token),
            final(self)@ == old(self)@.collected(token),
            old(self)@.wf() ==> final(self)@.wf(),
    {
        match self.position(token) {
            Some(index) => {
                self.backing_stores.remove(index);
                proof {
                    let before = old(self)@.backing_stores;
                    let after = self@.backing_stores;
                    assert forall|i: int| 0 <= i < after.len() implies #[trigger] after[i] == before[if i
                        < index {
                        i
                    } else {
                        i + 1
                    }] by {}
                }
                true
            },
            None => false,
        }
    }

    /// Says whether the layers of a frame can be composited: whether every
    /// backing store among them is one that the engine holds.
    pub fn present_layers(&self, layers: &Vec<FlutterLayer>) -> (composited: bool)
        ensures
            composited == self@.can_present(layers@),
    {
        let mut i: usize = 0;
        while i < layers.len()
            invariant
                i <= layers.len(),
                forall|j: int|
                    0 <= j < i ==> (#[trigger] layers[j] matches FlutterLayer::BackingStore(token)
                        ==> self@.holds(token)),
            decreases layers.len() - i,
        {
            match layers[i] {
                FlutterLayer::BackingStore(token) => {
                    if self.position(token).is_none() {
                        return false;
                    }
                },
                FlutterLayer::PlatformView(_) => {},
            }
            i += 1;
        }
        true
    }
}

} // verus!
