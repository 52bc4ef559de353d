//! What a presentation surface supports, and the parameters chosen for its
//! chain of images.

use vstd::prelude::*;

verus! {

/// `vulkano::format::Format`: the format of the presentable images and of the
/// render pass that draws into them. Nothing of its inside is known here; a
/// format is picked from a list and carried through untouched.
#[verifier::external_type_specification]
#[verifier::external_body]
pub struct ExFormat(vulkano::format::Format);

/// Size of an image or of the window's drawable area, in pixels.
#[derive(Clone, Copy, Debug, PartialEq, Eq, Structural)]
pub struct Extent {
    pub width: u32,
    pub height: u32,
}

/// How the alpha channel of a presented image is combined with what lies
/// behind the window.
#[derive(Clone, Copy, Debug, PartialEq, Eq, Structural)]
pub enum CompositeAlpha {
    Opaque,
    PreMultiplied,
    PostMultiplied,
    Inherit,
}

/// The composite-alpha modes a surface supports, one flag per mode.
#[derive(Clone, Copy, Debug, PartialEq, Eq, Structural)]
pub struct CompositeAlphaSupport {
    pub opaque: bool,
    pub pre_multiplied: bool,
    pub post_multiplied: bool,
    pub inherit: bool,
}

impl CompositeAlphaSupport {
    /// The supported modes in their fixed order: opaque, pre-multiplied,
    /// post-multiplied, inherit.
    pub open spec fn modes(self) -> Seq<CompositeAlpha> {
        (if self.opaque {
            seq![CompositeAlpha::Opaque]
        } else {
            seq![]
        }) + (if self.pre_multiplied {
            seq![CompositeAlpha::PreMultiplied]
        } else {
            seq![]
        }) + (if self.post_multiplied {
            seq![CompositeAlpha::PostMultiplied]
        } else {
            seq![]
        }) + (if self.inherit {
            seq![CompositeAlpha::Inherit]
        } else {
            seq![]
        })
    }

    /// The first supported mode in the fixed order, if any is supported.
    pub open spec fn first(self) -> Option<CompositeAlpha> {
        if self.opaque {
            Some(CompositeAlpha::Opaque)
        } else if self.pre_multiplied {
            Some(CompositeAlpha::PreMultiplied)
        } else if self.post_multiplied {
            Some(CompositeAlpha::PostMultiplied)
        } else if self.inherit {
            Some(CompositeAlpha::Inherit)
        } else {
            None
        }
    }

    /// `first` is the head of `modes`, and `None` exactly when `modes` is empty.
    pub proof fn lemma_first_is_head_of_modes(self)
        ensures
            self.modes().len() == 0 <==> self.first() is None,
            self.modes().len() > 0 ==> self.first() == Some(self.modes()[0]),
    {
    }

    /// Lists the supported modes.
    ///
    /// Calls `vulkano::swapchain::SupportedCompositeAlpha::iter` on the same
    /// four flags. Assumed of it, not proved: it yields the modes whose flag
    /// is set, each once, in the order opaque, pre-multiplied,
    /// post-multiplied, inherit.
    #[verifier::external_body]
    fn supported_modes(&self) -> (modes: Vec<CompositeAlpha>)
        ensures
            modes@ == self.modes(),
    {
        let flags = vulkano::swapchain::SupportedCompositeAlpha {
            opaque: self.opaque,
            pre_multiplied: self.pre_multiplied,
            post_multiplied: self.post_multiplied,
            inherit: self.inherit,
        };
        flags.iter().map(|mode| match mode {
            vulkano::swapchain::CompositeAlpha::Opaque => CompositeAlpha::Opaque,
            vulkano::swapchain::CompositeAlpha::PreMultiplied => CompositeAlpha::PreMultiplied,
            vulkano::swapchain::CompositeAlpha::PostMultiplied => CompositeAlpha::PostMultiplied,
            vulkano::swapchain::CompositeAlpha::Inherit => CompositeAlpha::Inherit,
        }).collect()
    }

    /// The mode a new chain of images uses: the first one the surface lists.
    pub fn first_supported(&self) -> (mode: Option<CompositeAlpha>)
        ensures
            mode == self.first(),
    {
        let modes = self.supported_modes();
        proof {
            self.lemma_first_is_head_of_modes();
        }
        if modes.len() == 0 {
            None
        } else {
            Some(modes[0])
        }
    }
}

/// What the presentation surface reports of itself, as far as the choice of
/// the chain's parameters reads it.
#[derive(Debug)]
pub struct SurfaceCapabilities {
    /// Fewest images a chain on this surface may have.
    pub min_image_count: u32,
    pub supported_composite_alpha: CompositeAlphaSupport,
    /// Image formats the surface can present, in the order it reports them.
    pub supported_formats: Vec<vulkano::format::Format>,
}

/// What the images of the chain are used for.
#[derive(Clone, Copy, Debug, PartialEq, Eq, Structural)]
pub enum ImageUsage {
    ColorAttachment,
}

/// Which queues may touch the images of the chain.
#[derive(Clone, Copy, Debug, PartialEq, Eq, Structural)]
pub enum SharingMode {
    /// The one submission queue only.
    SingleQueue,
}

/// Parameters of a request to build the chain of presentable images.
#[derive(Clone, Copy, Debug, PartialEq, Eq)]
pub struct SwapchainConfig {
    pub image_count: u32,
    pub format: vulkano::format::Format,
    pub extent: Extent,
    pub usage: ImageUsage,
    pub composite_alpha: CompositeAlpha,
    pub sharing: SharingMode,
}

impl SwapchainConfig {
    /// The parameters chosen for a surface with capabilities `caps` and a
    /// window of size `extent`: as few images as the surface allows, the first
    /// format and the first composite-alpha mode it lists.
    pub open spec fn spec_for_surface(caps: SurfaceCapabilities, extent: Extent) -> Option<
        SwapchainConfig,
    > {
        if caps.supported_formats@.len() > 0 && caps.supported_composite_alpha.first() is Some {
            Some(
                SwapchainConfig {
                    image_count: caps.min_image_count,
                    format: caps.supported_formats@[0],
                    extent,
                    usage: ImageUsage::ColorAttachment,
                    composite_alpha: caps.supported_composite_alpha.first().unwrap(),
                    sharing: SharingMode::SingleQueue,
                },
            )
        } else {
            None
        }
    }

    /// Picks the parameters of the chain. There are none to pick when the
    /// surface lists no format or no composite-alpha mode.
    pub fn for_surface(caps: &SurfaceCapabilities, extent: Extent) -> (config: Option<
        SwapchainConfig,
    >)
        ensures
            config == Self::spec_for_surface(*caps, extent),
    {
        if caps.supported_formats.len() == 0 {
            return None;
        }
        match caps.supported_composite_alpha.first_supported() {
            None => None,
            Some(composite_alpha) => Some(
                SwapchainConfig {
                    image_count: caps.min_image_count,
                    format: caps.supported_formats[0],
                    extent,
                    usage: ImageUsage::ColorAttachment,
                    composite_alpha,
                    sharing: SharingMode::SingleQueue,
                },
            ),
        }
    }

    /// The same parameters for a window of another size.
    pub open spec fn resized(self, extent: Extent) -> SwapchainConfig {
        SwapchainConfig { extent, ..self }
    }

    /// The same parameters for a window of another size.
    pub fn with_extent(&self, extent: Extent) -> (config: SwapchainConfig)
        ensures
            config == self.resized(extent),
    {
        SwapchainConfig {
            image_count: self.image_count,
            format: self.format,
            extent,
            usage: self.usage,
            composite_alpha: self.composite_alpha,
            sharing: self.sharing,
        }
    }
}

} // verus!
