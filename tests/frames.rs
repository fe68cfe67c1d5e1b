use deferred_renderer::format::{ImageUsage, PixelFormat};
use deferred_renderer::gbuffer::GBufferBuilder;
use deferred_renderer::render_pass::{
    deffered_lighting_render_pass, LoadOp, StoreOp, Subpass, SubpassError, DEPTH, DIFFUSE,
    FINAL_COLOR, NORMALS, SPECULAR,
};
use deferred_renderer::render_system::{
    clear_values, ClearValue, FrameError, RenderPass, RenderSystem,
};

fn default_system() -> RenderSystem {
    let pass = deffered_lighting_render_pass(PixelFormat::B8G8R8A8Srgb);
    let gbuffer = GBufferBuilder::new_default().build_no_dims();
    RenderSystem::new(pass, gbuffer)
}

fn sampled_color() -> ImageUsage {
    ImageUsage { sampled: true, color_attachment: true, ..ImageUsage::none() }
}

#[test]
fn default_policy_formats_and_usage() {
    let b = GBufferBuilder::new_default();
    let usage = ImageUsage::transient_input();
    assert!(usage.transient_attachment && usage.input_attachment);
    assert!(!usage.sampled && !usage.color_attachment && !usage.storage);
    assert_eq!(b.diffuse_usage, (usage, PixelFormat::A2B10G10R10UnormPack32));
    assert_eq!(b.specular_usage, (usage, PixelFormat::R16Unorm));
    assert_eq!(b.normals_usage, (usage, PixelFormat::R16G16B16A16Sfloat));
    assert_eq!(b.depth_usage, (usage, PixelFormat::D16Unorm));
}

#[test]
fn build_no_dims_is_one_by_one() {
    let g = GBufferBuilder::new_default().build_no_dims();
    assert_eq!(g.dims(), [1, 1]);
    for img in [g.diffuse, g.specular, g.normal, g.depth] {
        assert_eq!(img.dimensions(), [1, 1]);
    }
}

#[test]
fn build_reports_policy_values() {
    let mut b = GBufferBuilder::new_default();
    b.set_diffuse_usage(sampled_color(), PixelFormat::R8G8B8A8Unorm);
    b.set_specular_usage(ImageUsage::none(), PixelFormat::R8G8B8A8Srgb);
    b.set_normals_usage(sampled_color(), PixelFormat::Other(97));
    b.set_depth_usage(ImageUsage::transient_input(), PixelFormat::D32Sfloat);
    let g = b.build_with_dims([640, 480]);
    assert_eq!(g.diffuse.usage, sampled_color());
    assert_eq!(g.diffuse.format, PixelFormat::R8G8B8A8Unorm);
    assert_eq!(g.specular.usage, ImageUsage::none());
    assert_eq!(g.specular.format, PixelFormat::R8G8B8A8Srgb);
    assert_eq!(g.normal.usage, sampled_color());
    assert_eq!(g.normal.format, PixelFormat::Other(97));
    assert_eq!(g.depth.usage, ImageUsage::transient_input());
    assert_eq!(g.depth.format, PixelFormat::D32Sfloat);
    assert_eq!(g.builder, b);
    for img in [g.diffuse, g.specular, g.normal, g.depth] {
        assert_eq!(img.dims, [640, 480]);
    }
}

#[test]
fn setter_changes_only_its_role() {
    let d = GBufferBuilder::new_default();
    let mut b = d;
    b.set_specular_usage(sampled_color(), PixelFormat::R8G8B8A8Unorm);
    assert_eq!(b.specular_usage, (sampled_color(), PixelFormat::R8G8B8A8Unorm));
    assert_eq!(b.diffuse_usage, d.diffuse_usage);
    assert_eq!(b.normals_usage, d.normals_usage);
    assert_eq!(b.depth_usage, d.depth_usage);
}

#[test]
fn rebuild_keeps_policy_and_takes_new_size() {
    let mut b = GBufferBuilder::new_default();
    b.set_normals_usage(sampled_color(), PixelFormat::R8G8B8A8Unorm);
    let mut g = b.build_with_dims([10, 20]);
    g.rebuild_with_dims([30, 40]);
    assert_eq!(g.dims(), [30, 40]);
    assert_eq!(g.builder, b);
    assert_eq!(g.normal.format, PixelFormat::R8G8B8A8Unorm);
    assert_eq!(g.depth.dims, [30, 40]);
}

#[test]
fn render_pass_layout() {
    let rp = deffered_lighting_render_pass(PixelFormat::B8G8R8A8Unorm);
    assert_eq!(rp.num_subpasses(), 2);
    let formats: Vec<PixelFormat> = rp.attachments.iter().map(|a| a.format).collect();
    assert_eq!(
        formats,
        vec![
            PixelFormat::B8G8R8A8Unorm,
            PixelFormat::A2B10G10R10UnormPack32,
            PixelFormat::R16Unorm,
            PixelFormat::R16G16B16A16Sfloat,
            PixelFormat::D16Unorm,
        ]
    );
    assert!(rp.attachments.iter().all(|a| a.load == LoadOp::Clear && a.samples == 1));
    assert_eq!(rp.attachments[FINAL_COLOR].store, StoreOp::Store);
    for i in [DIFFUSE, SPECULAR, NORMALS, DEPTH] {
        assert_eq!(rp.attachments[i].store, StoreOp::DontCare);
    }
    assert_eq!(rp.subpasses[0].color, vec![DIFFUSE, SPECULAR, NORMALS]);
    assert_eq!(rp.subpasses[0].depth_stencil, Some(DEPTH));
    assert!(rp.subpasses[0].input.is_empty());
    assert_eq!(rp.subpasses[1].color, vec![FINAL_COLOR]);
    assert_eq!(rp.subpasses[1].depth_stencil, None);
    assert_eq!(rp.subpasses[1].input, vec![DIFFUSE, SPECULAR, NORMALS, DEPTH]);
}

#[test]
fn subpass_out_of_range_is_an_error() {
    let rp = deffered_lighting_render_pass(PixelFormat::B8G8R8A8Srgb);
    assert_eq!(rp.subpass(0), Ok(Subpass { index: 0 }));
    assert_eq!(rp.subpass(1), Ok(Subpass { index: 1 }));
    assert_eq!(rp.subpass(2), Err(SubpassError::OutOfRange { index: 2, num_subpasses: 2 }));
    assert_eq!(
        rp.subpass(u32::MAX),
        Err(SubpassError::OutOfRange { index: u32::MAX, num_subpasses: 2 })
    );
}

#[test]
fn get_subpass_on_system() {
    let sys = default_system();
    assert_eq!(sys.get_subpass(0), Some(Subpass { index: 0 }));
    assert_eq!(sys.get_subpass(1), Some(Subpass { index: 1 }));
    assert_eq!(sys.get_subpass(2), None);
}

#[test]
fn clear_values_in_attachment_order() {
    assert_eq!(
        clear_values(),
        vec![
            ClearValue::TransparentBlack,
            ClearValue::TransparentBlack,
            ClearValue::TransparentBlack,
            ClearValue::TransparentBlack,
            ClearValue::DepthFar,
        ]
    );
}

#[test]
fn rebuild_only_when_size_changes() {
    let mut sys = default_system();
    let f1 = sys.frame([800, 600]);
    assert!(f1.rebuilt());
    let g1 = *sys.gbuffer();
    assert_eq!(g1.dims(), [800, 600]);

    let f2 = sys.frame([800, 600]);
    assert!(!f2.rebuilt());
    assert_eq!(*sys.gbuffer(), g1);

    let f3 = sys.frame([1024, 768]);
    assert!(f3.rebuilt());
    let g3 = *sys.gbuffer();
    assert_eq!(g3.dims(), [1024, 768]);
    for img in [g3.diffuse, g3.specular, g3.normal, g3.depth] {
        assert_eq!(img.dims, [1024, 768]);
    }
    assert_eq!(g3.builder, GBufferBuilder::new_default());
}

#[test]
fn resize_back_and_forth_rebuilds_each_time() {
    let mut sys = default_system();
    assert!(sys.frame([100, 50]).rebuilt());
    assert!(sys.frame([50, 100]).rebuilt());
    assert!(sys.frame([100, 50]).rebuilt());
    assert_eq!(sys.gbuffer().depth.dims, [100, 50]);
}

#[test]
fn first_frame_at_placeholder_size_keeps_gbuffer() {
    let mut sys = default_system();
    let f = sys.frame([1, 1]);
    assert!(!f.rebuilt());
    assert_eq!(f.dimensions(), [1, 1]);
}

#[test]
fn frame_walks_through_two_subpasses_then_finishes() {
    let mut sys = default_system();
    let mut frame = sys.frame([320, 200]);
    assert_eq!(frame.stage(), 0);
    assert_eq!(frame.number_of_stages(), 2);

    match frame.next_pass() {
        (Some(RenderPass::SubPass(p)), 0) => {
            assert_eq!(p.index, 0);
            assert!(!p.enters_next_subpass);
            assert_eq!(p.viewport_dimensions(), [320, 200]);
        }
        _ => panic!("expected subpass 0"),
    }
    match frame.next_pass() {
        (Some(RenderPass::SubPass(p)), 1) => {
            assert_eq!(p.index, 1);
            assert!(p.enters_next_subpass);
            assert_eq!(p.viewport_dimensions(), [320, 200]);
        }
        _ => panic!("expected subpass 1"),
    }
    assert!(matches!(frame.next_pass(), (Some(RenderPass::Finished), 2)));
    assert!(matches!(frame.next_pass(), (None, 3)));
    assert!(matches!(frame.next_pass(), (None, 4)));
}

#[test]
fn many_steps_after_finish_never_panic() {
    let mut sys = default_system();
    let mut frame = sys.frame([8, 8]);
    let mut finished = 0;
    let mut subpasses = 0;
    for _ in 0..1000 {
        match frame.next_pass().0 {
            Some(RenderPass::SubPass(_)) => subpasses += 1,
            Some(RenderPass::Finished) => finished += 1,
            None => {}
        }
    }
    assert_eq!(subpasses, 2);
    assert_eq!(finished, 1);
    assert_eq!(frame.stage(), 255);
}

#[test]
fn stale_pass_is_rejected() {
    let mut sys = default_system();
    let mut frame = sys.frame([64, 64]);
    let p0 = match frame.next_pass().0 {
        Some(RenderPass::SubPass(p)) => p,
        _ => panic!("expected subpass 0"),
    };
    assert_eq!(p0.execute(&frame), Ok(()));
    let p1 = match frame.next_pass().0 {
        Some(RenderPass::SubPass(p)) => p,
        _ => panic!("expected subpass 1"),
    };
    assert_eq!(p0.execute(&frame), Err(FrameError::StalePass { pass_index: 0, stage: 2 }));
    assert_eq!(p1.execute(&frame), Ok(()));
    assert!(matches!(frame.next_pass().0, Some(RenderPass::Finished)));
    assert_eq!(p1.execute(&frame), Err(FrameError::StalePass { pass_index: 1, stage: 3 }));
}
