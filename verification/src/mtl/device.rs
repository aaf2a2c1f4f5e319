//! The GPU device: capabilities, resource creation, and pipeline
//! compilation.

use vstd::prelude::*;

use crate::blocks::{Completion, CompletionState};
use crate::ns::Error;

verus! {

/// A three-dimensional extent.
#[derive(Clone, Copy, Debug, PartialEq, Eq, Structural)]
pub struct Size {
    pub width: usize,
    pub height: usize,
    pub depth: usize,
}

/// A texture pixel format.
#[derive(Clone, Copy, Debug, PartialEq, Eq, Structural)]
pub enum PixelFormat {
    Invalid,
    A8UNorm,
    R8UNorm,
    Rgba8UNorm,
    Bgra8UNorm,
}

/// The bytes one pixel of a format occupies.
pub open spec fn bytes_per_pixel(f: PixelFormat) -> usize {
    match f {
        PixelFormat::Invalid => 0,
        PixelFormat::A8UNorm => 1,
        PixelFormat::R8UNorm => 1,
        PixelFormat::Rgba8UNorm => 4,
        PixelFormat::Bgra8UNorm => 4,
    }
}

/// Storage and hazard-tracking options of a resource.
#[derive(Clone, Copy, Debug, PartialEq, Eq, Structural)]
pub struct ResourceOptions(pub u64);

impl ResourceOptions {
    pub fn default_options() -> (r: ResourceOptions)
        ensures
            r.0 == 0,
    {
        ResourceOptions(0)
    }
}

/// The largest texture edge the device accepts.
pub const MAX_TEXTURE_EDGE: usize = 16384;

/// The library-error code for a failed compile.
pub const LIBRARY_ERROR_COMPILE_FAILURE: i64 = 3;

/// The library-error code for a function a pipeline cannot be built around.
pub const LIBRARY_ERROR_FUNCTION_NOT_FOUND: i64 = 5;

/// A texture descriptor.
#[derive(Clone, Copy, Debug, PartialEq, Eq, Structural)]
pub struct TextureDescriptor {
    pub pixel_format: PixelFormat,
    pub width: usize,
    pub height: usize,
    pub mipmapped: bool,
}

impl TextureDescriptor {
    /// Describe a two-dimensional texture.
    pub fn new_2d_with_pixel_format(
        pixel_format: PixelFormat,
        width: usize,
        height: usize,
        mipmapped: bool,
    ) -> (d: TextureDescriptor)
        ensures
            d == (TextureDescriptor { pixel_format, width, height, mipmapped }),
    {
        TextureDescriptor { pixel_format, width, height, mipmapped }
    }
}

/// Whether a descriptor describes a texture the device can create.
pub open spec fn creatable_texture(d: TextureDescriptor) -> bool {
    &&& d.pixel_format != PixelFormat::Invalid
    &&& 0 < d.width <= MAX_TEXTURE_EDGE
    &&& 0 < d.height <= MAX_TEXTURE_EDGE
}

/// A texture.
#[derive(Clone, Copy, Debug, PartialEq, Eq, Structural)]
pub struct Texture {
    pub pixel_format: PixelFormat,
    pub width: usize,
    pub height: usize,
    pub mipmapped: bool,
}

/// A buffer of untyped GPU memory.
#[derive(Clone, Copy, Debug, PartialEq, Eq, Structural)]
pub struct Buf {
    pub length: usize,
    pub options: ResourceOptions,
}

impl Buf {
    pub fn length(&self) -> (r: usize)
        ensures
            r == self.length,
    {
        self.length
    }
}

/// Options for compiling a shading-language library; the knobs steer the
/// native compiler and the model carries none.
#[derive(Clone, Copy, Debug, PartialEq, Eq, Structural)]
pub struct CompileOptions {
}

/// A compiled shading-language library.
#[derive(Debug, PartialEq, Eq)]
pub struct Lib {
    pub source: String,
}

/// A function of a compiled library.
#[derive(Debug, PartialEq, Eq)]
pub struct Function {
    pub name: String,
}

/// A compiled compute pipeline.
#[derive(Debug, PartialEq, Eq)]
pub struct ComputePipelineState {
    pub function_name: String,
}

/// A render pipeline descriptor: at least a vertex function is needed for
/// the pipeline to compile.
#[derive(Debug, PartialEq, Eq)]
pub struct RenderPipelineDescriptor {
    pub vertex_function: Option<Function>,
    pub fragment_function: Option<Function>,
    pub label: Option<String>,
}

/// A compiled render pipeline.
#[derive(Debug, PartialEq, Eq)]
pub struct RenderPipelineState {
    pub has_fragment_function: bool,
}

/// Options steering pipeline compilation and reflection.
#[derive(Clone, Copy, Debug, PartialEq, Eq, Structural)]
pub struct PipelineOption(pub u64);

impl PipelineOption {
    pub fn no_options() -> (r: PipelineOption)
        ensures
            r.0 == 0,
    {
        PipelineOption(0)
    }
}

/// A tile render pipeline descriptor: a tile function is needed for the
/// pipeline to compile.
#[derive(Debug, PartialEq, Eq)]
pub struct TileRenderPipelineDescriptor {
    pub tile_function: Option<Function>,
    pub label: Option<String>,
}

/// Reflection information a pipeline build can report; the model carries
/// none.
#[derive(Clone, Copy, Debug, PartialEq, Eq, Structural)]
pub struct RenderPipelineReflection {
}

/// A depth and stencil configuration; the model carries no comparison
/// state.
#[derive(Clone, Copy, Debug, PartialEq, Eq, Structural)]
pub struct DepthStencilDescriptor {
}

/// A compiled depth-stencil state.
#[derive(Clone, Copy, Debug, PartialEq, Eq, Structural)]
pub struct DepthStencilState {
}

/// A fence for ordering work within one queue.
#[derive(Debug, PartialEq, Eq)]
pub struct Fence {
    pub label: Option<String>,
}

impl Fence {
    pub fn set_label(&mut self, val: Option<String>)
        ensures
            final(self).label == val,
    {
        self.label = val;
    }
}

/// An event for ordering work across queues of one device.
#[derive(Debug, PartialEq, Eq)]
pub struct Event {
    pub label: Option<String>,
}

impl Event {
    pub fn set_label(&mut self, val: Option<String>)
        ensures
            final(self).label == val,
    {
        self.label = val;
    }
}

/// An event shareable across devices and processes.
#[derive(Debug, PartialEq, Eq)]
pub struct SharedEvent {
    pub label: Option<String>,
}

impl SharedEvent {
    pub fn set_label(&mut self, val: Option<String>)
        ensures
            final(self).label == val,
    {
        self.label = val;
    }
}

/// A heap descriptor: how much memory the heap should reserve.
#[derive(Clone, Copy, Debug, PartialEq, Eq, Structural)]
pub struct HeapDescriptor {
    pub size: usize,
}

/// A memory heap resources can be sub-allocated from.
#[derive(Clone, Copy, Debug, PartialEq, Eq, Structural)]
pub struct Heap {
    pub size: usize,
}

/// A size and alignment, in bytes.
#[derive(Clone, Copy, Debug, PartialEq, Eq, Structural)]
pub struct SizeAlign {
    pub size: usize,
    pub align: usize,
}

/// The heap alignment granule, in bytes.
pub const HEAP_ALIGN: usize = 256;

/// Read-write texture support tiers.
#[derive(Clone, Copy, Debug, PartialEq, Eq, Structural)]
pub enum ReadWriteTextureTier {
    /// Read-write textures are unsupported.
    Unsupported,
    _1,
    _2,
}

/// Argument-buffer support tiers.
#[derive(Clone, Copy, Debug, PartialEq, Eq, Structural)]
pub enum ArgumentBuffersTier {
    _1,
    _2,
}

/// Sparse page sizes, in kilobytes.
#[derive(Clone, Copy, Debug, PartialEq, Eq, Structural)]
pub enum SparsePageSize {
    _16,
    _64,
    _256,
}

/// A queue command buffers are submitted through.
#[derive(Clone, Copy, Debug, PartialEq, Eq, Structural)]
pub struct CmdQueue {
    pub max_cmd_buf_count: usize,
}

/// One GPU device and its capabilities.
#[derive(Debug)]
pub struct Device {
    pub name_field: String,
    pub registry_id_field: u64,
    pub max_threads_per_threadgroup_field: Size,
    pub has_unified_memory_field: bool,
    pub read_write_texture_support_field: ReadWriteTextureTier,
    pub argument_buffers_support_field: ArgumentBuffersTier,
    pub max_buffer_length_field: usize,
    pub max_threadgroup_memory_len_field: usize,
    pub max_argument_buf_sampler_count_field: usize,
    pub supports_raytracing_field: bool,
    pub supports_function_pointers_field: bool,
    pub supports_function_pointers_from_render_field: bool,
    pub supports_raytracing_from_render_field: bool,
    pub supports_primitive_motion_blur_field: bool,
    pub has_default_lib: bool,
}

impl Device {
    /// The system's default device: the mock system reports one unified-
    /// memory GPU with the full capability set and no bundled default
    /// library.
    pub fn default() -> (r: Option<Device>)
        ensures
            match r {
                Some(d) => {
                    &&& d.registry_id_field != 0
                    &&& d.max_threads_per_threadgroup_field.width > 0
                    &&& d.max_threads_per_threadgroup_field.height > 0
                    &&& d.max_threads_per_threadgroup_field.depth > 0
                    &&& d.has_unified_memory_field
                    &&& d.read_write_texture_support_field == ReadWriteTextureTier::_2
                    &&& d.argument_buffers_support_field == ArgumentBuffersTier::_2
                    &&& d.max_buffer_length_field > 10
                    &&& d.supports_raytracing_field
                    &&& d.supports_function_pointers_field
                    &&& d.supports_function_pointers_from_render_field
                    &&& d.supports_raytracing_from_render_field
                    &&& d.supports_primitive_motion_blur_field
                    &&& !d.has_default_lib
                },
                None => false,
            },
    {
        Some(
            Device {
                name_field: "Mock Unified GPU".to_owned(),
                registry_id_field: 0x100000,
                max_threads_per_threadgroup_field: Size { width: 1024, height: 1024, depth: 1024 },
                has_unified_memory_field: true,
                read_write_texture_support_field: ReadWriteTextureTier::_2,
                argument_buffers_support_field: ArgumentBuffersTier::_2,
                max_buffer_length_field: 0x40000000,
                max_threadgroup_memory_len_field: 32768,
                max_argument_buf_sampler_count_field: 1024,
                supports_raytracing_field: true,
                supports_function_pointers_field: true,
                supports_function_pointers_from_render_field: true,
                supports_raytracing_from_render_field: true,
                supports_primitive_motion_blur_field: true,
                has_default_lib: false,
            },
        )
    }

    pub fn name(&self) -> (r: &String)
        ensures
            r == self.name_field,
    {
        &self.name_field
    }

    pub fn registry_id(&self) -> (r: u64)
        ensures
            r == self.registry_id_field,
    {
        self.registry_id_field
    }

    pub fn max_threads_per_threadgroup(&self) -> (r: Size)
        ensures
            r == self.max_threads_per_threadgroup_field,
    {
        self.max_threads_per_threadgroup_field
    }

    pub fn has_unified_memory(&self) -> (r: bool)
        ensures
            r == self.has_unified_memory_field,
    {
        self.has_unified_memory_field
    }

    pub fn read_write_texture_support(&self) -> (r: ReadWriteTextureTier)
        ensures
            r == self.read_write_texture_support_field,
    {
        self.read_write_texture_support_field
    }

    pub fn argument_buffers_support(&self) -> (r: ArgumentBuffersTier)
        ensures
            r == self.argument_buffers_support_field,
    {
        self.argument_buffers_support_field
    }

    /// A new command queue with the customary command-buffer budget.
    pub fn new_cmd_queue(&self) -> (r: Option<CmdQueue>)
        ensures
            match r {
                Some(q) => q.max_cmd_buf_count == 64,
                None => false,
            },
    {
        Some(CmdQueue { max_cmd_buf_count: 64 })
    }

    /// A new command queue holding up to the given number of command
    /// buffers; a queue needs room for at least one.
    pub fn new_cmd_queue_max_cmd_buf_count(&self, max_cmd_buf_count: usize) -> (r: Option<
        CmdQueue,
    >)
        ensures
            match r {
                Some(q) => max_cmd_buf_count > 0 && q.max_cmd_buf_count == max_cmd_buf_count,
                None => max_cmd_buf_count == 0,
            },
    {
        if max_cmd_buf_count == 0 {
            None
        } else {
            Some(CmdQueue { max_cmd_buf_count })
        }
    }

    /// A new texture: created exactly when the descriptor names a valid
    /// format and edges within the device's limit.
    pub fn new_texture(&self, descriptor: &TextureDescriptor) -> (r: Option<Texture>)
        ensures
            match r {
                Some(t) => creatable_texture(*descriptor) && t == (Texture {
                    pixel_format: descriptor.pixel_format,
                    width: descriptor.width,
                    height: descriptor.height,
                    mipmapped: descriptor.mipmapped,
                }),
                None => !creatable_texture(*descriptor),
            },
    {
        if descriptor.pixel_format != PixelFormat::Invalid && 0 < descriptor.width
            && descriptor.width <= MAX_TEXTURE_EDGE && 0 < descriptor.height && descriptor.height
            <= MAX_TEXTURE_EDGE {
            Some(
                Texture {
                    pixel_format: descriptor.pixel_format,
                    width: descriptor.width,
                    height: descriptor.height,
                    mipmapped: descriptor.mipmapped,
                },
            )
        } else {
            None
        }
    }

    /// The library bundled with the application, if any; the mock device has
    /// none.
    pub fn new_default_lib(&self) -> (r: Option<Lib>)
        ensures
            r is Some <==> self.has_default_lib,
    {
        if self.has_default_lib {
            Some(Lib { source: String::new() })
        } else {
            None
        }
    }

    /// The native compile entry point: a library exactly for non-empty
    /// source, the error output populated otherwise.
    pub fn new_lib_with_src_err(
        &self,
        source: &String,
        options: Option<&CompileOptions>,
        error: &mut Option<Error>,
    ) -> (r: Option<Lib>)
        ensures
            match r {
                Some(lib) => source@.len() > 0 && lib.source@ == source@ && *final(error) is None,
                None => source@.len() == 0 && match *final(error) {
                    Some(e) => e.domain@ == "MTLLibraryErrorDomain"@ && e.code
                        == LIBRARY_ERROR_COMPILE_FAILURE,
                    None => false,
                },
            },
    {
        if source.as_str().is_empty() {
            *error = Some(
                Error::new(
                    "MTLLibraryErrorDomain".to_owned(),
                    LIBRARY_ERROR_COMPILE_FAILURE,
                    "compilation of empty source".to_owned(),
                ),
            );
            None
        } else {
            *error = None;
            Some(Lib { source: source.clone() })
        }
    }

    /// Compile shading-language source: `Ok` exactly for non-empty source;
    /// otherwise the error the native compile populated, its domain and code
    /// preserved.
    pub fn new_lib_with_src(&self, source: &String, options: Option<&CompileOptions>) -> (r:
        Result<Lib, Error>)
        ensures
            match r {
                Ok(lib) => source@.len() > 0 && lib.source@ == source@,
                Err(e) => source@.len() == 0 && e.domain@ == "MTLLibraryErrorDomain"@ && e.code
                    == LIBRARY_ERROR_COMPILE_FAILURE,
            },
    {
        let mut error: Option<Error> = None;
        let res = self.new_lib_with_src_err(source, options, &mut error);
        match res {
            Some(lib) => Ok(lib),
            None => match error {
                Some(e) => Err(e),
                None => unreached(),
            },
        }
    }

    /// Compile asynchronously: the completion resolves exactly once with
    /// the same result the synchronous path would return.
    pub fn new_lib_with_src_completion(
        &self,
        source: &String,
        options: Option<&CompileOptions>,
        completion: &mut Completion<Result<Lib, Error>>,
    )
        requires
            old(completion).is_pending(),
            old(completion).resolve_calls_spec() < u64::MAX,
        ensures
            final(completion).resolve_calls_spec() == old(completion).resolve_calls_spec() + 1,
            match final(completion).state_spec() {
                CompletionState::Resolved(r) => match r {
                    Ok(lib) => source@.len() > 0 && lib.source@ == source@,
                    Err(e) => source@.len() == 0 && e.domain@ == "MTLLibraryErrorDomain"@
                        && e.code == LIBRARY_ERROR_COMPILE_FAILURE,
                },
                _ => false,
            },
    {
        let r = self.new_lib_with_src(source, options);
        let accepted = completion.resolve(r);
        proof {
            assert(accepted);
        }
    }

    /// The native compute-pipeline entry point: a pipeline exactly for a
    /// named function, the error output populated otherwise.
    pub fn new_compute_ps_with_fn_err(
        &self,
        function: &Function,
        error: &mut Option<Error>,
    ) -> (r: Option<ComputePipelineState>)
        ensures
            match r {
                Some(ps) => function.name@.len() > 0 && ps.function_name@ == function.name@
                    && *final(error) is None,
                None => function.name@.len() == 0 && match *final(error) {
                    Some(e) => e.domain@ == "MTLLibraryErrorDomain"@ && e.code
                        == LIBRARY_ERROR_FUNCTION_NOT_FOUND,
                    None => false,
                },
            },
    {
        if function.name.as_str().is_empty() {
            *error = Some(
                Error::new(
                    "MTLLibraryErrorDomain".to_owned(),
                    LIBRARY_ERROR_FUNCTION_NOT_FOUND,
                    "compute pipeline needs a named function".to_owned(),
                ),
            );
            None
        } else {
            *error = None;
            Some(ComputePipelineState { function_name: function.name.clone() })
        }
    }

    /// Build a compute pipeline around one function: `Ok` exactly for a
    /// named function; otherwise the error the native call populated, its
    /// domain and code preserved.
    pub fn new_compute_ps_with_fn(&self, function: &Function) -> (r: Result<
        ComputePipelineState,
        Error,
    >)
        ensures
            match r {
                Ok(ps) => function.name@.len() > 0 && ps.function_name@ == function.name@,
                Err(e) => function.name@.len() == 0 && e.domain@ == "MTLLibraryErrorDomain"@
                    && e.code == LIBRARY_ERROR_FUNCTION_NOT_FOUND,
            },
    {
        let mut error: Option<Error> = None;
        let res = self.new_compute_ps_with_fn_err(function, &mut error);
        match res {
            Some(ps) => Ok(ps),
            None => match error {
                Some(e) => Err(e),
                None => unreached(),
            },
        }
    }

    /// The native render-pipeline entry point: a pipeline exactly when the
    /// descriptor carries a vertex function, the error output populated
    /// otherwise.
    pub fn new_render_ps_err(
        &self,
        descriptor: &RenderPipelineDescriptor,
        error: &mut Option<Error>,
    ) -> (r: Option<RenderPipelineState>)
        ensures
            match r {
                Some(ps) => descriptor.vertex_function is Some && ps.has_fragment_function == (
                descriptor.fragment_function is Some) && *final(error) is None,
                None => descriptor.vertex_function is None && match *final(error) {
                    Some(e) => e.domain@ == "MTLLibraryErrorDomain"@ && e.code
                        == LIBRARY_ERROR_FUNCTION_NOT_FOUND,
                    None => false,
                },
            },
    {
        match &descriptor.vertex_function {
            Some(v) => {
                *error = None;
                let has_fragment_function = match &descriptor.fragment_function {
                    Some(f) => true,
                    None => false,
                };
                Some(RenderPipelineState { has_fragment_function })
            },
            None => {
                *error = Some(
                    Error::new(
                        "MTLLibraryErrorDomain".to_owned(),
                        LIBRARY_ERROR_FUNCTION_NOT_FOUND,
                        "render pipeline needs a vertex function".to_owned(),
                    ),
                );
                None
            },
        }
    }

    /// Build a render pipeline: `Ok` exactly when the descriptor carries a
    /// vertex function; otherwise the error the native call populated, its
    /// domain and code preserved.
    pub fn new_render_ps(&self, descriptor: &RenderPipelineDescriptor) -> (r: Result<
        RenderPipelineState,
        Error,
    >)
        ensures
            match r {
                Ok(ps) => descriptor.vertex_function is Some && ps.has_fragment_function == (
                descriptor.fragment_function is Some),
                Err(e) => descriptor.vertex_function is None && e.domain@
                    == "MTLLibraryErrorDomain"@ && e.code == LIBRARY_ERROR_FUNCTION_NOT_FOUND,
            },
    {
        let mut error: Option<Error> = None;
        let res = self.new_render_ps_err(descriptor, &mut error);
        match res {
            Some(ps) => Ok(ps),
            None => match error {
                Some(e) => Err(e),
                None => unreached(),
            },
        }
    }

    /// A new buffer: created exactly for a positive length within the
    /// device's limit.
    pub fn new_buf(&self, length: usize, options: ResourceOptions) -> (r: Option<Buf>)
        ensures
            match r {
                Some(b) => 0 < length <= self.max_buffer_length_field && b == (Buf {
                    length,
                    options,
                }),
                None => !(0 < length <= self.max_buffer_length_field),
            },
    {
        if 0 < length && length <= self.max_buffer_length_field {
            Some(Buf { length, options })
        } else {
            None
        }
    }

    /// A new buffer initialized from the given bytes: its length is theirs.
    /// What the buffer holds afterwards is GPU memory the model does not
    /// read back, so only the geometry is stated.
    pub fn new_buf_with_bytes(&self, bytes: &[u8], options: ResourceOptions) -> (r: Option<Buf>)
        ensures
            match r {
                Some(b) => 0 < bytes@.len() <= self.max_buffer_length_field && b == (Buf {
                    length: bytes@.len() as usize,
                    options,
                }),
                None => !(0 < bytes@.len() <= self.max_buffer_length_field),
            },
    {
        self.new_buf(bytes.len(), options)
    }

    /// A new buffer sized for `len` values of `T`.
    pub fn new_buf_of<T>(&self, len: usize, options: ResourceOptions) -> (r: Option<Buf>)
        requires
            vstd::layout::size_of::<T>() * len <= usize::MAX,
        ensures
            match r {
                Some(b) => 0 < vstd::layout::size_of::<T>() * len <= self.max_buffer_length_field
                    && b == (Buf { length: (vstd::layout::size_of::<T>() * len) as usize, options }),
                None => !(0 < vstd::layout::size_of::<T>() * len
                    <= self.max_buffer_length_field),
            },
    {
        let size = core::mem::size_of::<T>();
        proof {
            assert(size * len == vstd::layout::size_of::<T>() * len) by (nonlinear_arith)
                requires
                    size == vstd::layout::size_of::<T>(),
            ;
        }
        self.new_buf(size * len, options)
    }

    /// A new buffer initialized from a slice: sized for its values. The
    /// contents are GPU memory the model does not read back.
    pub fn new_buf_with_slice<T>(&self, slice: &[T], options: ResourceOptions) -> (r: Option<Buf>)
        requires
            vstd::layout::size_of::<T>() * slice@.len() <= usize::MAX,
        ensures
            match r {
                Some(b) => 0 < vstd::layout::size_of::<T>() * slice@.len()
                    <= self.max_buffer_length_field && b == (Buf {
                    length: (vstd::layout::size_of::<T>() * slice@.len()) as usize,
                    options,
                }),
                None => !(0 < vstd::layout::size_of::<T>() * slice@.len()
                    <= self.max_buffer_length_field),
            },
    {
        self.new_buf_of::<T>(slice.len(), options)
    }

    /// A new buffer initialized from a vector: sized for its values.
    pub fn new_buf_from_vec<T>(&self, vec: Vec<T>, options: ResourceOptions) -> (r: Option<Buf>)
        requires
            vstd::layout::size_of::<T>() * vec@.len() <= usize::MAX,
        ensures
            match r {
                Some(b) => 0 < vstd::layout::size_of::<T>() * vec@.len()
                    <= self.max_buffer_length_field && b == (Buf {
                    length: (vstd::layout::size_of::<T>() * vec@.len()) as usize,
                    options,
                }),
                None => !(0 < vstd::layout::size_of::<T>() * vec@.len()
                    <= self.max_buffer_length_field),
            },
    {
        self.new_buf_with_slice(vec.as_slice(), options)
    }

    /// The native tile-pipeline entry point: a pipeline exactly when the
    /// descriptor carries a tile function, the error output populated
    /// otherwise.
    pub fn new_tile_render_ps_err(
        &self,
        desc: &TileRenderPipelineDescriptor,
        options: PipelineOption,
        reflection: &mut Option<RenderPipelineReflection>,
        error: &mut Option<Error>,
    ) -> (r: Option<RenderPipelineState>)
        ensures
            match r {
                Some(ps) => desc.tile_function is Some && *final(error) is None,
                None => desc.tile_function is None && match *final(error) {
                    Some(e) => e.domain@ == "MTLLibraryErrorDomain"@ && e.code
                        == LIBRARY_ERROR_FUNCTION_NOT_FOUND,
                    None => false,
                },
            },
    {
        let _ = options;
        match &desc.tile_function {
            Some(f) => {
                *reflection = Some(RenderPipelineReflection {  });
                *error = None;
                Some(RenderPipelineState { has_fragment_function: false })
            },
            None => {
                *reflection = None;
                *error = Some(
                    Error::new(
                        "MTLLibraryErrorDomain".to_owned(),
                        LIBRARY_ERROR_FUNCTION_NOT_FOUND,
                        "tile pipeline needs a tile function".to_owned(),
                    ),
                );
                None
            },
        }
    }

    /// Build a tile render pipeline: `Ok` exactly when the descriptor
    /// carries a tile function; otherwise the error the native call
    /// populated, its domain and code preserved.
    pub fn new_tile_render_ps(
        &self,
        desc: &TileRenderPipelineDescriptor,
        options: PipelineOption,
    ) -> (r: Result<RenderPipelineState, Error>)
        ensures
            match r {
                Ok(ps) => desc.tile_function is Some,
                Err(e) => desc.tile_function is None && e.domain@ == "MTLLibraryErrorDomain"@
                    && e.code == LIBRARY_ERROR_FUNCTION_NOT_FOUND,
            },
    {
        let mut reflection: Option<RenderPipelineReflection> = None;
        let mut error: Option<Error> = None;
        let res = self.new_tile_render_ps_err(desc, options, &mut reflection, &mut error);
        match res {
            Some(ps) => Ok(ps),
            None => match error {
                Some(e) => Err(e),
                None => unreached(),
            },
        }
    }

    /// A new depth-stencil state.
    pub fn new_depth_stencil_state(&self, descriptor: &DepthStencilDescriptor) -> (r: Option<
        DepthStencilState,
    >)
        ensures
            r is Some,
    {
        let _ = descriptor;
        Some(DepthStencilState {  })
    }

    /// A new fence, unlabeled.
    pub fn new_fence(&self) -> (r: Option<Fence>)
        ensures
            match r {
                Some(f) => f.label is None,
                None => false,
            },
    {
        Some(Fence { label: None })
    }

    /// A new event, unlabeled.
    pub fn new_event(&self) -> (r: Option<Event>)
        ensures
            match r {
                Some(e) => e.label is None,
                None => false,
            },
    {
        Some(Event { label: None })
    }

    /// A new shareable event, unlabeled.
    pub fn new_shared_event(&self) -> (r: Option<SharedEvent>)
        ensures
            match r {
                Some(e) => e.label is None,
                None => false,
            },
    {
        Some(SharedEvent { label: None })
    }

    pub fn max_buffer_length(&self) -> (r: usize)
        ensures
            r == self.max_buffer_length_field,
    {
        self.max_buffer_length_field
    }

    /// The size and alignment a heap-allocated texture of this descriptor
    /// would take: its pixel bytes, at heap granularity.
    pub fn heap_texture_size_and_align(&self, descriptor: &TextureDescriptor) -> (r: SizeAlign)
        requires
            creatable_texture(*descriptor),
        ensures
            r.size == descriptor.width * descriptor.height * bytes_per_pixel(
                descriptor.pixel_format,
            ),
            r.align == HEAP_ALIGN,
    {
        let bpp: usize = match descriptor.pixel_format {
            PixelFormat::Invalid => 0,
            PixelFormat::A8UNorm => 1,
            PixelFormat::R8UNorm => 1,
            PixelFormat::Rgba8UNorm => 4,
            PixelFormat::Bgra8UNorm => 4,
        };
        proof {
            assert(descriptor.width * descriptor.height <= MAX_TEXTURE_EDGE * MAX_TEXTURE_EDGE)
                by (nonlinear_arith)
                requires
                    0 < descriptor.width <= MAX_TEXTURE_EDGE,
                    0 < descriptor.height <= MAX_TEXTURE_EDGE,
            ;
            assert(descriptor.width * descriptor.height * bpp <= MAX_TEXTURE_EDGE
                * MAX_TEXTURE_EDGE * 4) by (nonlinear_arith)
                requires
                    descriptor.width * descriptor.height <= MAX_TEXTURE_EDGE * MAX_TEXTURE_EDGE,
                    bpp <= 4,
            ;
        }
        SizeAlign { size: descriptor.width * descriptor.height * bpp, align: HEAP_ALIGN }
    }

    /// The size and alignment a heap-allocated buffer of this length would
    /// take: the length rounded up to heap granularity.
    pub fn heap_buffer_size_and_align(&self, length: usize, options: ResourceOptions) -> (r:
        SizeAlign)
        requires
            length <= usize::MAX - 255,
        ensures
            r.size == ((length + 255) / 256) * 256,
            r.align == HEAP_ALIGN,
    {
        let _ = options;
        SizeAlign { size: ((length + 255) / 256) * 256, align: HEAP_ALIGN }
    }

    /// A new heap: created exactly when the requested size is within the
    /// device's buffer limit.
    pub fn new_heap_desc(&self, descriptor: &HeapDescriptor) -> (r: Option<Heap>)
        ensures
            match r {
                Some(h) => descriptor.size <= self.max_buffer_length_field && h.size
                    == descriptor.size,
                None => descriptor.size > self.max_buffer_length_field,
            },
    {
        if descriptor.size <= self.max_buffer_length_field {
            Some(Heap { size: descriptor.size })
        } else {
            None
        }
    }

    pub fn max_threadgroup_memory_len(&self) -> (r: usize)
        ensures
            r == self.max_threadgroup_memory_len_field,
    {
        self.max_threadgroup_memory_len_field
    }

    pub fn max_argument_buf_sampler_count(&self) -> (r: usize)
        ensures
            r == self.max_argument_buf_sampler_count_field,
    {
        self.max_argument_buf_sampler_count_field
    }

    pub fn supports_raytracing(&self) -> (r: bool)
        ensures
            r == self.supports_raytracing_field,
    {
        self.supports_raytracing_field
    }

    pub fn supports_function_pointers(&self) -> (r: bool)
        ensures
            r == self.supports_function_pointers_field,
    {
        self.supports_function_pointers_field
    }

    pub fn supports_function_pointers_from_render(&self) -> (r: bool)
        ensures
            r == self.supports_function_pointers_from_render_field,
    {
        self.supports_function_pointers_from_render_field
    }

    pub fn supports_raytracing_from_render(&self) -> (r: bool)
        ensures
            r == self.supports_raytracing_from_render_field,
    {
        self.supports_raytracing_from_render_field
    }

    pub fn supports_primitive_motion_blur(&self) -> (r: bool)
        ensures
            r == self.supports_primitive_motion_blur_field,
    {
        self.supports_primitive_motion_blur_field
    }
}

} // verus!
