//! The chain of presentable images, its framebuffers and the viewport.

use vstd::prelude::*;
use crate::surface::{Extent, SwapchainConfig};

verus! {

/// One presentable image of the chain.
#[derive(Clone, Copy, Debug, PartialEq, Eq, Structural)]
pub struct SwapchainImage {
    pub dimensions: Extent,
}

/// Layout of the single render pass: one colour attachment, cleared on load
/// and stored afterwards.
#[derive(Clone, Copy, Debug, PartialEq, Eq)]
pub struct RenderPass {
    pub color_format: vulkano::format::Format,
}

/// A framebuffer binds exactly one colour attachment: the view of one image.
#[derive(Clone, Copy, Debug, PartialEq, Eq)]
pub struct Framebuffer {
    pub render_pass: RenderPass,
    /// Position in the chain of the image this framebuffer draws into.
    pub attachment: usize,
    pub extent: Extent,
}

/// Region of the framebuffer that is drawn to. The coordinates are whole
/// numbers here; the graphics interface takes them as real numbers.
#[derive(Clone, Copy, Debug, PartialEq, Eq, Structural)]
pub struct Viewport {
    pub origin_x: u32,
    pub origin_y: u32,
    pub dimensions: Extent,
    pub min_depth: u32,
    pub max_depth: u32,
}

/// The framebuffers that belong to `images`: one per image, in order.
pub open spec fn framebuffers_for(images: Seq<SwapchainImage>, render_pass: RenderPass) -> Seq<
    Framebuffer,
> {
    Seq::new(
        images.len(),
        |i: int|
            Framebuffer { render_pass, attachment: i as usize, extent: images[i].dimensions },
    )
}

/// Derives what depends on the size of the window: the viewport takes the
/// extent of the first image, and every image gets its framebuffer.
pub fn window_size_dependent_setup(
    images: &[SwapchainImage],
    render_pass: RenderPass,
    viewport: &mut Viewport,
) -> (framebuffers: Vec<Framebuffer>)
    requires
        images@.len() > 0,
    ensures
        *final(viewport) == (Viewport { dimensions: images@[0].dimensions, ..*old(viewport) }),
        framebuffers@ == framebuffers_for(images@, render_pass),
{
    viewport.dimensions = images[0].dimensions;
    let mut framebuffers: Vec<Framebuffer> = Vec::new();
    let mut i: usize = 0;
    while i < images.len()
        invariant
            i <= images@.len(),
            framebuffers@ == framebuffers_for(images@.take(i as int), render_pass),
        decreases images@.len() - i,
    {
        framebuffers.push(Framebuffer { render_pass, attachment: i, extent: images[i].dimensions });
        i += 1;
    }
    framebuffers
}

/// Whether `images` can be the images of a chain built with `extent`: there is
/// at least one, and each has that extent.
pub open spec fn images_fit(images: Seq<SwapchainImage>, extent: Extent) -> bool {
    &&& images.len() > 0
    &&& forall|i: int| 0 <= i < images.len() ==> (#[trigger] images[i]).dimensions == extent
}

/// The viewport that covers a whole image of size `extent`, with the full
/// depth range.
pub open spec fn viewport_covering(extent: Extent) -> Viewport {
    Viewport { origin_x: 0, origin_y: 0, dimensions: extent, min_depth: 0, max_depth: 1 }
}

/// What the presentation layer answered to a request to rebuild the chain.
#[derive(Debug)]
pub enum RecreateOutcome {
    /// The chain was built; these are its images.
    Built(Vec<SwapchainImage>),
    /// The requested extent is not supported right now.
    UnsupportedExtent,
    /// Any other failure.
    Failed,
}

/// What became of an attempt to rebuild the chain.
#[derive(Clone, Copy, Debug, PartialEq, Eq, Structural)]
pub enum RecreateStatus {
    /// The new chain, its framebuffers and the viewport are in place.
    Rebuilt,
    /// Nothing changed; the rebuild is to be tried again later.
    Retry,
    /// Nothing changed; the failure cannot be recovered from.
    Fatal,
}

/// The chain of presentable images with what is derived from it, as
/// mathematical values.
pub struct SwapchainState {
    pub config: SwapchainConfig,
    pub images: Seq<SwapchainImage>,
    pub framebuffers: Seq<Framebuffer>,
    pub viewport: Viewport,
    pub render_pass: RenderPass,
}

impl SwapchainState {
    /// The state derived from a chain built with `config` that has `images`.
    pub open spec fn over(config: SwapchainConfig, images: Seq<SwapchainImage>) -> SwapchainState {
        let render_pass = RenderPass { color_format: config.format };
        SwapchainState {
            config,
            images,
            framebuffers: framebuffers_for(images, render_pass),
            viewport: viewport_covering(images[0].dimensions),
            render_pass,
        }
    }

    /// Images, framebuffers, viewport and render pass agree with each other
    /// and with the parameters of the chain.
    pub open spec fn consistent(self) -> bool {
        &&& images_fit(self.images, self.config.extent)
        &&& self.framebuffers == framebuffers_for(self.images, self.render_pass)
        &&& self.viewport == viewport_covering(self.config.extent)
        &&& self.render_pass.color_format == self.config.format
    }

    /// The state after the presentation layer answered `outcome` to a request
    /// for a chain of extent `new_extent`, and what became of the attempt.
    pub open spec fn recreated(self, new_extent: Extent, outcome: RecreateOutcome) -> (
        SwapchainState,
        RecreateStatus,
    ) {
        match outcome {
            RecreateOutcome::Built(images) => if images_fit(images@, new_extent) {
                (Self::over(self.config.resized(new_extent), images@), RecreateStatus::Rebuilt)
            } else {
                (self, RecreateStatus::Fatal)
            },
            RecreateOutcome::UnsupportedExtent => (self, RecreateStatus::Retry),
            RecreateOutcome::Failed => (self, RecreateStatus::Fatal),
        }
    }

    /// There are as many framebuffers as images, and each framebuffer has the
    /// extent that the viewport stores.
    pub open spec fn framebuffers_match_viewport(self) -> bool {
        &&& self.framebuffers.len() == self.images.len()
        &&& forall|i: int|
            0 <= i < self.framebuffers.len() ==> (#[trigger] self.framebuffers[i]).extent
                == self.viewport.dimensions
    }

    /// A rebuild, whatever its outcome, leaves the state consistent and keeps
    /// the format of the images and the layout of the render pass: what was
    /// built for that layout stays usable.
    pub proof fn lemma_recreated_keeps_render_pass(
        self,
        new_extent: Extent,
        outcome: RecreateOutcome,
    )
        requires
            self.consistent(),
        ensures
            self.recreated(new_extent, outcome).0.consistent(),
            self.recreated(new_extent, outcome).0.render_pass == self.render_pass,
            self.recreated(new_extent, outcome).0.config.format == self.config.format,
    {
    }

    /// In a consistent state there are as many framebuffers as images, and
    /// each framebuffer has the extent that the viewport stores.
    pub proof fn lemma_framebuffers_match_viewport(self)
        requires
            self.consistent(),
        ensures
            self.framebuffers_match_viewport(),
    {
    }
}

/// Owns the chain of presentable images, one framebuffer per image, and the
/// viewport; replaces all three together.
pub struct SwapchainManager {
    config: SwapchainConfig,
    images: Vec<SwapchainImage>,
    framebuffers: Vec<Framebuffer>,
    viewport: Viewport,
    render_pass: RenderPass,
}

impl View for SwapchainManager {
    type V = SwapchainState;

    closed spec fn view(&self) -> SwapchainState {
        SwapchainState {
            config: self.config,
            images: self.images@,
            framebuffers: self.framebuffers@,
            viewport: self.viewport,
            render_pass: self.render_pass,
        }
    }
}

/// Tells whether `images` can be the images of a chain built with `extent`.
fn check_images(images: &Vec<SwapchainImage>, extent: Extent) -> (fit: bool)
    ensures
        fit == images_fit(images@, extent),
{
    if images.len() == 0 {
        return false;
    }
    let mut i: usize = 0;
    while i < images.len()
        invariant
            i <= images@.len(),
            forall|j: int| 0 <= j < i ==> (#[trigger] images@[j]).dimensions == extent,
        decreases images@.len() - i,
    {
        if images[i].dimensions != extent {
            return false;
        }
        i += 1;
    }
    true
}

impl SwapchainManager {
    #[verifier::type_invariant]
    spec fn inv(self) -> bool {
        self@.consistent()
    }

    /// Takes charge of a chain that was built with `config` and has `images`:
    /// derives one framebuffer per image and sets the viewport to the extent
    /// of the images. Refuses images that cannot be those of such a chain.
    pub fn create(config: SwapchainConfig, images: Vec<SwapchainImage>) -> (manager: Option<
        SwapchainManager,
    >)
        ensures
            manager is Some <==> images_fit(images@, config.extent),
            manager matches Some(m) ==> {
                &&& m@ == SwapchainState::over(config, images@)
                &&& m@.consistent()
                &&& m@.framebuffers_match_viewport()
            },
    {
        if !check_images(&images, config.extent) {
            return None;
        }
        let render_pass = RenderPass { color_format: config.format };
        let mut viewport = Viewport {
            origin_x: 0,
            origin_y: 0,
            dimensions: Extent { width: 0, height: 0 },
            min_depth: 0,
            max_depth: 1,
        };
        let framebuffers = window_size_dependent_setup(
            images.as_slice(),
            render_pass,
            &mut viewport,
        );
        Some(SwapchainManager { config, images, framebuffers, viewport, render_pass })
    }

    /// The parameters of a request to rebuild the chain for a window of size
    /// `new_extent`: those of the current chain, with the new extent.
    pub fn recreate_request(&self, new_extent: Extent) -> (config: SwapchainConfig)
        ensures
            config == self@.config.resized(new_extent),
    {
        self.config.with_extent(new_extent)
    }

    /// Takes in the answer to a request to rebuild the chain with
    /// `new_extent`. A chain that was built replaces the current one, together
    /// with its framebuffers and the viewport. On any other answer nothing
    /// changes: an unsupported extent is to be tried again later, and every
    /// other failure, images that cannot be those of the requested chain
    /// included, is fatal.
    pub fn recreate(&mut self, new_extent: Extent, outcome: RecreateOutcome) -> (status:
        RecreateStatus)
        ensures
            (final(self)@, status) == old(self)@.recreated(new_extent, outcome),
            final(self)@.consistent(),
            final(self)@.framebuffers_match_viewport(),
            final(self)@.render_pass == old(self)@.render_pass,
            outcome is UnsupportedExtent ==> status == RecreateStatus::Retry,
            outcome is UnsupportedExtent ==> final(self)@ == old(self)@,
    {
        let (successor, status) = self.successor(new_extent, outcome);
        match successor {
            Some(manager) => {
                *self = manager;
            },
            None => {},
        }
        status
    }

    /// What an answer to a request to rebuild the chain with `new_extent`
    /// amounts to: the manager that takes this one's place, if the chain was
    /// built, and what became of the attempt.
    pub(crate) fn successor(&self, new_extent: Extent, outcome: RecreateOutcome) -> (result: (
        Option<SwapchainManager>,
        RecreateStatus,
    ))
        ensures
            result.1 == self@.recreated(new_extent, outcome).1,
            result.0 is Some <==> result.1 is Rebuilt,
            result.0 matches Some(manager) ==> manager@ == self@.recreated(new_extent, outcome).0,
            result.0 matches Some(manager) ==> manager@.consistent(),
            self@.consistent(),
    {
        proof {
            use_type_invariant(self);
        }
        match outcome {
            RecreateOutcome::Built(images) => {
                let config = self.config.with_extent(new_extent);
                match SwapchainManager::create(config, images) {
                    Some(manager) => (Some(manager), RecreateStatus::Rebuilt),
                    None => (None, RecreateStatus::Fatal),
                }
            },
            RecreateOutcome::UnsupportedExtent => (None, RecreateStatus::Retry),
            RecreateOutcome::Failed => (None, RecreateStatus::Fatal),
        }
    }

    /// The parameters the current chain was built with.
    pub fn config(&self) -> (config: SwapchainConfig)
        ensures
            config == self@.config,
            self@.consistent(),
    {
        proof {
            use_type_invariant(self);
        }
        self.config
    }

    /// The extent of the current chain's images.
    pub fn extent(&self) -> (extent: Extent)
        ensures
            extent == self@.config.extent,
    {
        self.config.extent
    }

    /// The images of the current chain.
    pub fn images(&self) -> (images: &Vec<SwapchainImage>)
        ensures
            images@ == self@.images,
    {
        &self.images
    }

    /// The framebuffers of the current chain, one per image.
    pub fn framebuffers(&self) -> (framebuffers: &Vec<Framebuffer>)
        ensures
            framebuffers@ == self@.framebuffers,
            framebuffers@.len() == self@.images.len(),
    {
        proof {
            use_type_invariant(self);
        }
        &self.framebuffers
    }

    /// The viewport, which covers a whole image of the current chain.
    pub fn viewport(&self) -> (viewport: Viewport)
        ensures
            viewport == self@.viewport,
            viewport == viewport_covering(self@.config.extent),
    {
        proof {
            use_type_invariant(self);
        }
        self.viewport
    }

    /// The layout of the render pass, whose format is that of the images.
    pub fn render_pass(&self) -> (render_pass: RenderPass)
        ensures
            render_pass == self@.render_pass,
            render_pass.color_format == self@.config.format,
    {
        proof {
            use_type_invariant(self);
        }
        self.render_pass
    }
}

} // verus!
