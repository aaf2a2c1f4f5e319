//! Acceleration-structure descriptors for ray tracing.

use vstd::prelude::*;

use crate::mtl::device::Buf;

verus! {

/// How an acceleration structure will be used.
#[derive(Clone, Copy, Debug, PartialEq, Eq, Structural)]
pub enum Usage {
    /// The default usage.
    Standard,
    /// The structure may be refitted, possibly at reduced quality.
    Refit,
    /// Prefer a fast build over ray-tracing performance.
    PreferFastBuild,
    /// Enable extended limits, possibly at reduced performance.
    ExtendedLimits,
}

/// Per-instance options of an instanced structure.
#[derive(Clone, Copy, Debug, PartialEq, Eq, Structural)]
pub enum InstanceOptions {
    /// No options.
    NoOptions,
    /// Disable triangle back- or front-face culling.
    DisableTriangleCulling,
    /// Treat counter-clockwise winding as front-facing.
    TriangleFrontFacingWindingCounterClockwise,
    /// The geometry is opaque.
    Opaque,
    /// The geometry is not opaque.
    NonOpaque,
}

/// What happens to motion outside the sampled range.
#[derive(Clone, Copy, Debug, PartialEq, Eq, Structural)]
pub enum MotionBorderMode {
    /// Motion is stopped at the border.
    Clamp,
    /// The object disappears outside the range.
    Vanish,
}

/// A base acceleration-structure descriptor.
#[derive(Clone, Copy, Debug, PartialEq, Eq, Structural)]
pub struct Descriptor {
    pub usage_field: Usage,
}

impl Descriptor {
    pub fn new(usage: Usage) -> (d: Descriptor)
        ensures
            d.usage_field == usage,
    {
        Descriptor { usage_field: usage }
    }

    pub fn usage(&self) -> (r: Usage)
        ensures
            r == self.usage_field,
    {
        self.usage_field
    }

    pub fn set_usage(&mut self, value: Usage)
        ensures
            *final(self) == (Descriptor { usage_field: value }),
    {
        self.usage_field = value;
    }
}

/// A geometry descriptor: one piece of geometry of an acceleration
/// structure and how its primitive data is laid out.
#[derive(Debug, PartialEq, Eq)]
pub struct GeometryDescriptor {
    pub usage_field: Usage,
    pub intersection_fn_table_offset_field: usize,
    pub opaque_field: bool,
    pub allow_duplicate_intersection_fn_invocation_field: bool,
    pub label: Option<String>,
    pub primitive_data_buf_field: Option<Buf>,
    pub primitive_data_buf_offset_field: usize,
    pub primitive_data_stride_field: usize,
    pub primitive_data_element_size_field: usize,
}

impl GeometryDescriptor {
    /// A fresh geometry descriptor with the framework defaults: opaque,
    /// offset zero, no primitive data.
    pub fn new() -> (d: GeometryDescriptor)
        ensures
            d.usage_field == Usage::Standard,
            d.intersection_fn_table_offset_field == 0,
            d.opaque_field,
            !d.allow_duplicate_intersection_fn_invocation_field,
            d.label is None,
            d.primitive_data_buf_field is None,
            d.primitive_data_buf_offset_field == 0,
            d.primitive_data_stride_field == 0,
            d.primitive_data_element_size_field == 0,
    {
        GeometryDescriptor {
            usage_field: Usage::Standard,
            intersection_fn_table_offset_field: 0,
            opaque_field: true,
            allow_duplicate_intersection_fn_invocation_field: false,
            label: None,
            primitive_data_buf_field: None,
            primitive_data_buf_offset_field: 0,
            primitive_data_stride_field: 0,
            primitive_data_element_size_field: 0,
        }
    }

    pub fn intersection_fn_table_offset(&self) -> (r: usize)
        ensures
            r == self.intersection_fn_table_offset_field,
    {
        self.intersection_fn_table_offset_field
    }

    pub fn set_intersection_fn_table_offset(&mut self, value: usize)
        ensures
            *final(self) == (GeometryDescriptor {
                intersection_fn_table_offset_field: value,
                ..*old(self)
            }),
    {
        self.intersection_fn_table_offset_field = value;
    }

    pub fn opaque(&self) -> (r: bool)
        ensures
            r == self.opaque_field,
    {
        self.opaque_field
    }

    pub fn set_opaque(&mut self, value: bool)
        ensures
            *final(self) == (GeometryDescriptor { opaque_field: value, ..*old(self) }),
    {
        self.opaque_field = value;
    }

    pub fn allow_duplicate_intersection_fn_invocation(&self) -> (r: bool)
        ensures
            r == self.allow_duplicate_intersection_fn_invocation_field,
    {
        self.allow_duplicate_intersection_fn_invocation_field
    }

    pub fn set_allow_duplicate_intersection_fn_invocation(&mut self, value: bool)
        ensures
            *final(self) == (GeometryDescriptor {
                allow_duplicate_intersection_fn_invocation_field: value,
                ..*old(self)
            }),
    {
        self.allow_duplicate_intersection_fn_invocation_field = value;
    }

    pub fn set_label(&mut self, value: Option<String>)
        ensures
            final(self).label == value,
            *final(self) == (GeometryDescriptor { label: final(self).label, ..*old(self) }),
    {
        self.label = value;
    }

    pub fn primitive_data_buf(&self) -> (r: Option<Buf>)
        ensures
            r == self.primitive_data_buf_field,
    {
        self.primitive_data_buf_field
    }

    pub fn set_primitive_data_buf(&mut self, value: Option<Buf>)
        ensures
            *final(self) == (GeometryDescriptor { primitive_data_buf_field: value, ..*old(self) }),
    {
        self.primitive_data_buf_field = value;
    }

    pub fn primitive_data_buf_offset(&self) -> (r: usize)
        ensures
            r == self.primitive_data_buf_offset_field,
    {
        self.primitive_data_buf_offset_field
    }

    pub fn set_primitive_data_buf_offset(&mut self, value: usize)
        ensures
            *final(self) == (GeometryDescriptor {
                primitive_data_buf_offset_field: value,
                ..*old(self)
            }),
    {
        self.primitive_data_buf_offset_field = value;
    }

    pub fn primitive_data_stride(&self) -> (r: usize)
        ensures
            r == self.primitive_data_stride_field,
    {
        self.primitive_data_stride_field
    }

    pub fn set_primitive_data_stride(&mut self, value: usize)
        ensures
            *final(self) == (GeometryDescriptor {
                primitive_data_stride_field: value,
                ..*old(self)
            }),
    {
        self.primitive_data_stride_field = value;
    }

    pub fn primitive_data_element_size(&self) -> (r: usize)
        ensures
            r == self.primitive_data_element_size_field,
    {
        self.primitive_data_element_size_field
    }

    pub fn set_primitive_data_element_size(&mut self, value: usize)
        ensures
            *final(self) == (GeometryDescriptor {
                primitive_data_element_size_field: value,
                ..*old(self)
            }),
    {
        self.primitive_data_element_size_field = value;
    }
}

} // verus!
