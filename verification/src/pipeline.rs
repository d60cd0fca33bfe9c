//! The immutable pipeline configuration.
//!
//! Built once at setup, this bundles everything the per-frame draw needs
//! beyond the buffer contents: the single buffer binding (slot zero,
//! fragment-stage visible, read only), the color target format, replacement
//! blending, triangle-list topology with counter-clockwise front faces and
//! back-face culling, and the multisample count. Any change requires a full
//! rebuild; nothing here is mutated after setup.

use vstd::prelude::*;

use crate::errors::SetupError;

verus! {

/// How the site buffer is bound to the shader. The choice fixes the
/// binding-layout declaration and the maximum supported site count: uniform
/// bindings are capped far lower than storage bindings.
#[derive(Clone, Copy, PartialEq, Eq, Structural, Debug)]
pub enum BufferKind {
    /// A read-only storage binding.
    Storage,
    /// A uniform binding.
    Uniform,
}

/// The pixel format of the color target the pipeline renders to. Chosen
/// once at setup to match the surface the host created.
#[derive(Clone, Copy, PartialEq, Eq, Structural, Debug)]
pub enum ColorFormat {
    /// Sixteen-bit floating components, red green blue alpha.
    Rgba16Float,
    /// Eight-bit normalized components, red green blue alpha.
    Rgba8Unorm,
    /// Eight-bit normalized components, blue green red alpha.
    Bgra8Unorm,
}

/// Default maximum size in bytes of a uniform buffer binding.
pub const MAX_UNIFORM_BINDING_BYTES: u64 = 65536;

/// Default maximum size in bytes of a storage buffer binding.
pub const MAX_STORAGE_BINDING_BYTES: u64 = 134217728;

/// The binding size limit that comes with a buffer kind.
pub open spec fn max_binding_bytes(kind: BufferKind) -> u64 {
    match kind {
        BufferKind::Storage => MAX_STORAGE_BINDING_BYTES,
        BufferKind::Uniform => MAX_UNIFORM_BINDING_BYTES,
    }
}

/// The multisample counts the pipeline supports: no antialiasing, or four
/// samples per pixel.
pub open spec fn sample_count_supported(count: u32) -> bool {
    count == 1 || count == 4
}

/// A buffer of `site_count` records fits the binding limit of `kind`.
pub open spec fn buffer_fits(kind: BufferKind, site_count: usize) -> bool {
    16 * (site_count as int) <= max_binding_bytes(kind) as int
}

/// Setup accepts exactly a positive site count, a supported multisample
/// count, and a buffer that fits its binding limit.
pub open spec fn setup_accepts(kind: BufferKind, sample_count: u32, site_count: usize) -> bool {
    &&& site_count > 0
    &&& sample_count_supported(sample_count)
    &&& buffer_fits(kind, site_count)
}

/// Everything the per-frame draw needs beyond the buffer contents.
/// Immutable once built.
#[derive(Clone, Copy, PartialEq, Eq, Structural, Debug)]
pub struct PipelineSettings {
    /// How the site buffer is bound.
    pub buffer_kind: BufferKind,
    /// The color target format.
    pub color_format: ColorFormat,
    /// Samples per pixel.
    pub sample_count: u32,
    /// The fixed number of sites the buffer holds.
    pub site_count: usize,
    /// Exact size in bytes of the device buffer: one 16-byte record per
    /// site.
    pub buffer_bytes: u64,
    /// Index of the one buffer binding.
    pub binding_index: u32,
    /// The binding is visible to the fragment stage only.
    pub fragment_only: bool,
    /// The binding is read only for the shader.
    pub read_only_binding: bool,
    /// Blending replaces the target contents outright; nothing of the prior
    /// frame shows through.
    pub blend_replace: bool,
    /// Front faces wind counter-clockwise.
    pub ccw_front_face: bool,
    /// Back faces are culled.
    pub cull_back_face: bool,
}

impl PipelineSettings {
    /// Well-formedness of a built configuration: the fixed-function choices
    /// are pinned, the sample count is supported, and the buffer size is
    /// exactly one record per site and within the binding limit.
    pub open spec fn wf(&self) -> bool {
        &&& self.binding_index == 0
        &&& self.fragment_only
        &&& self.read_only_binding
        &&& self.blend_replace
        &&& self.ccw_front_face
        &&& self.cull_back_face
        &&& sample_count_supported(self.sample_count)
        &&& self.site_count > 0
        &&& self.buffer_bytes as int == 16 * (self.site_count as int)
        &&& buffer_fits(self.buffer_kind, self.site_count)
    }

    /// Builds the one-time pipeline configuration. Succeeds exactly on the
    /// inputs `setup_accepts` allows, and then pins every fixed-function
    /// choice; each rejected input maps to its setup-fatal error, site count
    /// checked first, then the sample count, then the binding limit.
    pub fn build(
        kind: BufferKind,
        format: ColorFormat,
        sample_count: u32,
        site_count: usize,
    ) -> (r: Result<PipelineSettings, SetupError>)
        ensures
            r is Ok <==> setup_accepts(kind, sample_count, site_count),
            r is Ok ==> {
                &&& r->Ok_0.wf()
                &&& r->Ok_0.buffer_kind == kind
                &&& r->Ok_0.color_format == format
                &&& r->Ok_0.sample_count == sample_count
                &&& r->Ok_0.site_count == site_count
            },
            site_count == 0 ==> r == Err::<PipelineSettings, SetupError>(SetupError::NoSites),
            site_count > 0 && !sample_count_supported(sample_count) ==> r == Err::<
                PipelineSettings,
                SetupError,
            >(SetupError::UnsupportedSampleCount),
            site_count > 0 && sample_count_supported(sample_count) && !buffer_fits(
                kind,
                site_count,
            ) ==> r == Err::<PipelineSettings, SetupError>(SetupError::BufferTooLarge),
    {
        if site_count == 0 {
            return Err(SetupError::NoSites);
        }
        if !(sample_count == 1 || sample_count == 4) {
            return Err(SetupError::UnsupportedSampleCount);
        }
        let limit: u64 = match kind {
            BufferKind::Storage => MAX_STORAGE_BINDING_BYTES,
            BufferKind::Uniform => MAX_UNIFORM_BINDING_BYTES,
        };
        if site_count as u64 > limit / 16 {
            return Err(SetupError::BufferTooLarge);
        }
        Ok(
            PipelineSettings {
                buffer_kind: kind,
                color_format: format,
                sample_count,
                site_count,
                buffer_bytes: 16 * (site_count as u64),
                binding_index: 0,
                fragment_only: true,
                read_only_binding: true,
                blend_replace: true,
                ccw_front_face: true,
                cull_back_face: true,
            },
        )
    }
}

} // verus!
