use cidre::cf::Dictionary;
use cidre::cv::pixel_buffer::{
    LockFlags, PixelBuf, PixelFormat, Return, RETURN_INVALID_PIXEL_FORMAT, RETURN_INVALID_SIZE,
};
use cidre::cv::Surface;
use cidre::mtl::command_buffer::{CommandBuffer, Status};
use cidre::mtl::device::{
    ArgumentBuffersTier, Device, Function, PipelineOption, PixelFormat as MtlPixelFormat,
    ReadWriteTextureTier, RenderPipelineDescriptor, TextureDescriptor,
    TileRenderPipelineDescriptor,
};

#[test]
fn basics1() {
    let device = Device::default().unwrap();

    assert!(device.supports_raytracing());
    assert!(device.supports_function_pointers());
    assert!(device.supports_function_pointers_from_render());
    assert!(device.supports_raytracing_from_render());
    assert!(device.supports_primitive_motion_blur());

    let mut fence = device.new_fence().unwrap();
    let label = String::from("nice");
    fence.set_label(Some(label));

    let mut event = device.new_shared_event().unwrap();
    let label = String::from("nice");
    event.set_label(Some(label));

    let _name = device.name();

    assert!(device.max_buffer_length() > 10);

    let registry_id = device.registry_id();

    assert_ne!(0, registry_id);
    let size = device.max_threads_per_threadgroup();

    assert_ne!(0, size.width);
    assert_ne!(0, size.height);
    assert_ne!(0, size.depth);

    assert!(device.has_unified_memory());

    let tier = device.read_write_texture_support();
    assert_ne!(tier, ReadWriteTextureTier::Unsupported);

    let tier = device.argument_buffers_support();
    assert_ne!(tier, ArgumentBuffersTier::_1);

    assert!(device.new_default_lib().is_none());

    let td = TextureDescriptor::new_2d_with_pixel_format(MtlPixelFormat::A8UNorm, 100, 200, false);

    let _t = device.new_texture(&td).unwrap();

    assert!(device.max_buffer_length() > 10);

    let _queue = device.new_cmd_queue().unwrap();

    let source = String::from("void function_a() {}");
    let options = None;
    let _lib = device.new_lib_with_src(&source, options).unwrap();
}

#[test]
fn compressed() {
    assert!(PixelFormat::lossy_420v().is_compressed_format_avaliable());
    assert!(PixelFormat::lossy_420f().is_compressed_format_avaliable());
    assert!(PixelFormat::lossy_packed_10_420v().is_compressed_format_avaliable());
}

#[test]
fn pixel_buffer_reports_its_geometry() {
    let pixel_buffer = PixelBuf::new(200, 100, PixelFormat::bgra32(), None).unwrap();

    assert_eq!(200, pixel_buffer.width());
    assert_eq!(100, pixel_buffer.height());
    assert_eq!(PixelFormat::bgra32(), pixel_buffer.pixel_format());
    assert_eq!(0, pixel_buffer.plane_count());
}

#[test]
fn pixel_buffer_planes_and_lock() {
    let buf = PixelBuf::new(17, 9, PixelFormat::yuv420v(), None).unwrap();
    assert_eq!(buf.plane_count(), 2);
    assert_eq!(buf.plane_width(0), 17);
    assert_eq!(buf.plane_height(0), 9);
    assert_eq!(buf.plane_width(1), 9);
    assert_eq!(buf.plane_height(1), 5);

    let guard = buf.base_address_lock(LockFlags::read_only()).unwrap();
    assert!(guard.buf().pixel_format() == PixelFormat::yuv420v());
    let buf = guard.unlock();
    let guard = buf.base_address_lock(LockFlags::default_flags()).unwrap();
    let _buf = guard.unlock();
}

#[test]
fn pixel_buffer_rejects_bad_requests() {
    let err = PixelBuf::new(0, 100, PixelFormat::bgra32(), None).unwrap_err();
    assert_eq!(err, Return(RETURN_INVALID_SIZE));

    let err = PixelBuf::new(10, 10, PixelFormat::lossless_bgra32(), None).unwrap_err();
    assert_eq!(err, Return(RETURN_INVALID_PIXEL_FORMAT));

    let mut out = None;
    let r = PixelBuf::create_in(64, 64, PixelFormat::bgra32(), Some(&Dictionary {}), &mut out, None);
    assert!(r.is_ok());
    assert!(out.is_some());
}

#[test]
fn pixel_buffer_over_surface() {
    let surface = Surface::new(64, 32, PixelFormat::bgra32());
    let buf = PixelBuf::with_io_surface(&surface, None).unwrap();
    assert_eq!(buf.width(), 64);
    assert_eq!(buf.height(), 32);

    let empty = Surface::new(0, 32, PixelFormat::bgra32());
    assert!(PixelBuf::with_io_surface(&empty, None).is_err());
}

#[test]
fn command_buffer_lifecycle_and_handler_order() {
    let device = Device::default().unwrap();
    let queue = device.new_cmd_queue().unwrap();
    let mut cb = CommandBuffer::new(queue);
    assert_eq!(cb.status(), Status::NotEnqueued);
    assert!(cb.compute_command_encoder().is_some());

    cb.add_scheduled_handler(7);
    cb.add_completion_handler(1);
    cb.add_completion_handler(2);

    cb.enqueue();
    assert_eq!(cb.status(), Status::Enqueued);
    cb.commit();
    assert!(cb.blit_command_encoder().is_none());

    assert_eq!(cb.wait_untint_scheduled(), vec![7]);
    assert_eq!(cb.status(), Status::Scheduled);
    assert_eq!(cb.wait_until_completed(), vec![1, 2]);
    assert_eq!(cb.status(), Status::Completed);
}

#[test]
fn pipeline_compilation_errors() {
    let device = Device::default().unwrap();

    assert!(device.new_lib_with_src(&String::new(), None).is_err());

    let f = Function { name: String::from("kernel_a") };
    let ps = device.new_compute_ps_with_fn(&f).unwrap();
    assert_eq!(ps.function_name, String::from("kernel_a"));

    let bad = Function { name: String::new() };
    assert!(device.new_compute_ps_with_fn(&bad).is_err());

    let desc = RenderPipelineDescriptor {
        vertex_function: Some(f),
        fragment_function: None,
        label: None,
    };
    let ps = device.new_render_ps(&desc).unwrap();
    assert!(!ps.has_fragment_function);

    let desc = RenderPipelineDescriptor {
        vertex_function: None,
        fragment_function: None,
        label: None,
    };
    assert!(device.new_render_ps(&desc).is_err());
}

#[test]
fn buffers_and_heaps() {
    let device = Device::default().unwrap();
    let options = cidre::mtl::device::ResourceOptions::default_options();
    assert!(device.new_buf(0, options).is_none());
    let buf = device.new_buf(1024, options).unwrap();
    assert_eq!(buf.length(), 1024);

    let sa = device.heap_buffer_size_and_align(100, options);
    assert_eq!(sa.size, 256);
    assert_eq!(sa.align, 256);

    let td = TextureDescriptor::new_2d_with_pixel_format(MtlPixelFormat::Bgra8UNorm, 8, 8, false);
    let sa = device.heap_texture_size_and_align(&td);
    assert_eq!(sa.size, 256);
}

#[test]
fn completion_passes_through_scheduling() {
    let device = Device::default().unwrap();
    let queue = device.new_cmd_queue().unwrap();
    let mut cb = CommandBuffer::new(queue);
    cb.add_scheduled_handler(7);
    cb.add_completion_handler(1);
    cb.add_completion_handler(2);
    cb.commit();

    // Waiting for completion directly still fires the scheduled handler,
    // and before any completion handler.
    assert_eq!(cb.wait_until_completed(), vec![7, 1, 2]);
    assert_eq!(cb.status(), Status::Completed);

    // Re-waiting returns at once with nothing left to fire.
    assert!(cb.wait_until_completed().is_empty());
    assert!(cb.wait_untint_scheduled().is_empty());
    assert_eq!(cb.status(), Status::Completed);
}

#[test]
fn typed_buffers_and_tile_pipelines() {
    let device = Device::default().unwrap();
    let options = cidre::mtl::device::ResourceOptions::default_options();

    let buf = device.new_buf_of::<u64>(16, options).unwrap();
    assert_eq!(buf.length(), 128);
    let values: Vec<u32> = vec![1, 2, 3];
    let buf = device.new_buf_with_slice(&values, options).unwrap();
    assert_eq!(buf.length(), 12);
    let buf = device.new_buf_from_vec(values, options).unwrap();
    assert_eq!(buf.length(), 12);
    let bytes = vec![0u8; 9];
    let buf = device.new_buf_with_bytes(&bytes, options).unwrap();
    assert_eq!(buf.length(), 9);

    let desc = TileRenderPipelineDescriptor {
        tile_function: Some(Function { name: String::from("tile_a") }),
        label: None,
    };
    assert!(device.new_tile_render_ps(&desc, PipelineOption::no_options()).is_ok());
    let desc = TileRenderPipelineDescriptor { tile_function: None, label: None };
    let err = device
        .new_tile_render_ps(&desc, PipelineOption::no_options())
        .unwrap_err();
    assert_eq!(err.domain, String::from("MTLLibraryErrorDomain"));
    assert_eq!(err.code, 5);
}

#[test]
fn creators_carry_the_populated_error() {
    let device = Device::default().unwrap();

    let err = device.new_lib_with_src(&String::new(), None).unwrap_err();
    assert_eq!(err.domain, String::from("MTLLibraryErrorDomain"));
    assert_eq!(err.code, 3);

    let err = device
        .new_compute_ps_with_fn(&Function { name: String::new() })
        .unwrap_err();
    assert_eq!(err.code, 5);
}
