use texel_relay::buffer::{BufferSpec, BufferUsage, MemoryPreference};
use texel_relay::compute::{
    upload_buffer, upload_commands, upload_region, BufferImageCopy, ImageOffset, Upload,
    UploadCommand,
};
use texel_relay::graph::{
    frame_graph, AccessType, ColorAttachment, ImageAccess, ImageLayoutType, QueueFamilyType,
    VirtualImage, COMPUTE_NODE, TRIANGLE_NODE,
};
use texel_relay::image::{
    dst_image, dst_relay_image, grid_extent, sampled_view, sampler, src_image, src_relay_image,
    storage_view, virtual_dst_image, virtual_src_image, AddressMode, Filter, Format, ImageAspect,
    ImageExtent, ImageLayout, ImageType, ImageUsage,
};
use texel_relay::pixel::{grid_of_bytes, random_colors, Pixel};

fn usage(transfer_dst: bool, sampled: bool, storage: bool) -> ImageUsage {
    ImageUsage { transfer_dst, sampled, storage, color_attachment: false }
}

#[test]
fn opaque_pixels_keep_their_color() {
    assert_eq!(Pixel::opaque(1, 2, 3).position, [1, 2, 3, 255]);
    assert_eq!(Pixel::opaque(0, 255, 0).position, [0, 255, 0, 255]);
}

#[test]
fn random_pixels_are_opaque() {
    let mut rng = rand::rng();
    for _ in 0..100 {
        assert_eq!(Pixel::new_random(&mut rng).position[3], 255);
    }
}

#[test]
fn random_colors_suffice_for_the_grid() {
    let bytes = random_colors(&mut rand::rng());
    assert_eq!(bytes.len(), 3 * 1024 * 1024);
    assert!(bytes.iter().any(|byte| *byte != bytes[0]));
}

#[test]
fn each_texel_has_its_own_three_bytes() {
    let bytes: Vec<u8> = (0..3 * 1024 * 1024).map(|place: u32| (place % 251) as u8).collect();
    let pixels = grid_of_bytes(&bytes);
    assert_eq!(pixels.len(), 1024 * 1024);
    for (index, pixel) in pixels.iter().enumerate() {
        let first = 3 * index;
        assert_eq!(pixel.position, [bytes[first], bytes[first + 1], bytes[first + 2], 255]);
    }
    assert_eq!(pixels[1].position, [3, 4, 5, 255]);
}

#[test]
fn images_are_as_large_as_the_grid() {
    let extent = ImageExtent { width: 1024, height: 1024, depth: 1 };
    assert_eq!(grid_extent(), extent);
    for image in [virtual_src_image(), virtual_dst_image(), src_image(), dst_image()] {
        assert_eq!(image.extent, extent);
        assert_eq!(image.image_type, ImageType::Dim2d);
        assert_eq!(image.format, Format::R8G8B8A8Unorm);
    }
}

#[test]
fn images_have_their_uses() {
    assert_eq!(virtual_src_image().usage, usage(true, true, false));
    assert_eq!(virtual_dst_image().usage, usage(false, true, true));
    assert_eq!(src_image().usage, usage(true, true, true));
    assert_eq!(dst_image().usage, usage(false, true, true));
    assert!(src_image().mutable_format && dst_image().mutable_format);
    assert!(!virtual_src_image().mutable_format && !virtual_dst_image().mutable_format);
}

#[test]
fn views_show_the_color_in_general_layout() {
    for view in [storage_view(), sampled_view()] {
        assert_eq!(view.format, Format::R8G8B8A8Unorm);
        assert_eq!(view.aspect, ImageAspect::Color);
        assert_eq!(view.layout, ImageLayout::General);
    }
    assert_eq!(storage_view().usage, usage(false, false, true));
    assert_eq!(sampled_view().usage, usage(false, true, true));
}

#[test]
fn sampler_mixes_texels_and_repeats_the_image() {
    let spec = sampler();
    assert_eq!(spec.mag_filter, Filter::Linear);
    assert_eq!(spec.min_filter, Filter::Linear);
    assert_eq!(spec.mipmap_mode, Filter::Nearest);
    assert_eq!(spec.address_mode_u, AddressMode::Repeat);
    assert_eq!(spec.address_mode_v, AddressMode::Repeat);
    assert_eq!(spec.address_mode_w, AddressMode::Repeat);
}

#[test]
fn images_differ_in_the_upload_only() {
    let mut src = src_relay_image();
    let dst = dst_relay_image();
    assert_eq!(src.image, src_image());
    assert_eq!(dst.image, dst_image());
    assert_eq!(src.sampler, dst.sampler);
    src.image.usage.transfer_dst = false;
    assert_eq!(src, dst);
}

#[test]
fn upload_changes_the_layout_before_it_copies() {
    let commands = upload_commands(7u32);
    assert_eq!(commands.len(), 2);
    assert!(matches!(
        commands[0],
        UploadCommand::Transition {
            image: 7,
            aspect: ImageAspect::Color,
            old_layout: ImageLayout::Undefined,
            new_layout: ImageLayout::General,
        }
    ));
    match &commands[1] {
        UploadCommand::CopyFromBuffer { image, layout, region } => {
            assert_eq!(*image, 7);
            assert_eq!(*layout, ImageLayout::General);
            assert_eq!(*region, upload_region());
        }
        _ => panic!("texels were to be copied"),
    }
}

#[test]
fn upload_region_is_the_whole_image_without_gaps() {
    assert_eq!(
        upload_region(),
        BufferImageCopy {
            buffer_offset: 0,
            buffer_row_length: 0,
            buffer_image_height: 0,
            aspect: ImageAspect::Color,
            image_offset: ImageOffset { x: 0, y: 0, z: 0 },
            image_extent: ImageExtent { width: 1024, height: 1024, depth: 1 },
        }
    );
}

#[test]
fn rows_of_the_grid_follow_each_other() {
    let bytes: Vec<u8> = (0..3 * 1024 * 1024).map(|place: u32| (place % 241) as u8).collect();
    let upload = Upload::of_bytes(0u32, &bytes);
    let (x, y) = (17, 900);
    let index = 1024 * y + x;
    assert_eq!(
        upload.pixels[index].position,
        [bytes[3 * index], bytes[3 * index + 1], bytes[3 * index + 2], 255]
    );
}

#[test]
fn upload_buffer_holds_the_texels() {
    assert_eq!(
        upload_buffer(),
        BufferSpec {
            usage: BufferUsage::TransferSrc,
            memory: MemoryPreference::Host,
            host_sequential_write: true,
            size: 4 * 1024 * 1024,
        }
    );
}

#[test]
fn upload_takes_the_given_colors() {
    let mut bytes = vec![0u8; 3 * 1024 * 1024];
    bytes[3] = 9;
    let upload = Upload::of_bytes(3u32, &bytes);
    assert_eq!(upload.pixels.len(), 1024 * 1024);
    assert_eq!(upload.pixels[0].position, [0, 0, 0, 255]);
    assert_eq!(upload.pixels[1].position, [9, 0, 0, 255]);
    assert_eq!(upload.buffer, upload_buffer());
    assert_eq!(upload.commands.len(), 2);
}

#[test]
fn upload_brings_a_texel_for_every_place() {
    let upload = Upload::new(3u32);
    assert_eq!(upload.pixels.len(), 1024 * 1024);
    assert!(upload.pixels.iter().all(|pixel| pixel.position[3] == 255));
    assert!(upload.pixels.iter().any(|pixel| *pixel != upload.pixels[0]));
    assert_eq!(upload.buffer, upload_buffer());
    assert_eq!(upload.commands.len(), 2);
}

#[test]
fn frame_graph_computes_then_draws() {
    let plan = frame_graph();
    assert_eq!(plan.nodes.len(), 2);
    assert_eq!(plan.edges, vec![(COMPUTE_NODE, TRIANGLE_NODE)]);

    let compute = &plan.nodes[COMPUTE_NODE];
    assert_eq!(compute.name, "Compute");
    assert_eq!(compute.queue_family, QueueFamilyType::Compute);
    assert_eq!(compute.color_attachment, None);
    assert_eq!(
        compute.accesses,
        vec![
            ImageAccess {
                image: VirtualImage::Destination,
                access: AccessType::ComputeShaderStorageWrite,
                layout: ImageLayoutType::General,
            },
            ImageAccess {
                image: VirtualImage::Source,
                access: AccessType::ComputeShaderSampledRead,
                layout: ImageLayoutType::General,
            },
        ]
    );

    let triangle = &plan.nodes[TRIANGLE_NODE];
    assert_eq!(triangle.name, "Triangle");
    assert_eq!(triangle.queue_family, QueueFamilyType::Graphics);
    assert_eq!(
        triangle.color_attachment,
        Some(ColorAttachment {
            target: ImageAccess {
                image: VirtualImage::Swapchain,
                access: AccessType::ColorAttachmentWrite,
                layout: ImageLayoutType::Optimal,
            },
            clear: true,
        })
    );
    assert_eq!(
        triangle.accesses,
        vec![ImageAccess {
            image: VirtualImage::Destination,
            access: AccessType::FragmentShaderSampledRead,
            layout: ImageLayoutType::General,
        }]
    );
}
