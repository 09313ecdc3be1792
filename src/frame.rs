use vstd::prelude::*;

verus! {

/// A texture view is a handle that the device hands out; nothing in it is read here.
#[verifier::external_type_specification]
#[verifier::external_body]
pub struct ExTextureView(wgpu::TextureView);

/// An acquired swap-chain image; nothing in it is read here but its view.
#[verifier::external_type_specification]
#[verifier::external_body]
pub struct ExSwapChainOutput(wgpu::SwapChainOutput);

/// Relies on the public `view` field of wgpu's `SwapChainOutput`: the texture view of
/// the acquired image.
#[verifier::external_body]
fn output_view(output: &wgpu::SwapChainOutput) -> &wgpu::TextureView {
    &output.view
}

enum FrameTarget {
    View(Box<wgpu::TextureView>),
    Output(wgpu::SwapChainOutput),
}

/// What a render bracket draws into: a texture view of its own, or an image acquired
/// from a window's swap chain.
pub struct DrawableFrame {
    target: FrameTarget,
}

impl DrawableFrame {
    /// The frame is backed by a texture view that it owns.
    pub closed spec fn owns_view(&self) -> bool {
        self.target is View
    }

    /// The view that the frame owns, where it owns one.
    pub closed spec fn owned_view(&self) -> wgpu::TextureView {
        match self.target {
            FrameTarget::View(v) => *v,
            FrameTarget::Output(_) => arbitrary(),
        }
    }

    pub fn from_texture_view(texture_view: Box<wgpu::TextureView>) -> (r: DrawableFrame)
        ensures
            r.owns_view(),
            r.owned_view() == *texture_view,
    {
        DrawableFrame { target: FrameTarget::View(texture_view) }
    }

    pub fn from_sc_output(sc_output: wgpu::SwapChainOutput) -> (r: DrawableFrame)
        ensures
            !r.owns_view(),
    {
        DrawableFrame { target: FrameTarget::Output(sc_output) }
    }

    /// The view to draw into.
    pub fn get_frame(&self) -> (r: &wgpu::TextureView)
        ensures
            self.owns_view() ==> *r == self.owned_view(),
    {
        match &self.target {
            FrameTarget::View(v) => &**v,
            FrameTarget::Output(o) => output_view(o),
        }
    }
}

} // verus!
