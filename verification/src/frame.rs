//! The per-frame work: the guarded buffer upload and the draw plan.
//!
//! Each tick the host computes a fresh snapshot of animated sites, asks
//! this module for its byte image, writes those bytes over the whole device
//! buffer, and then replays the fixed draw plan: one render pass that clears
//! to black and draws a single full-screen triangle of three vertices. A
//! snapshot whose length differs from the store's site count is a contract
//! violation and is rejected here, before anything would reach the device.

use vstd::prelude::*;

use crate::errors::SetupError;
use crate::errors::UploadError;
use crate::pipeline::BufferKind;
use crate::pipeline::ColorFormat;
use crate::pipeline::PipelineSettings;
use crate::pipeline::setup_accepts;
use crate::site::Site;
use crate::site::encode_sites;
use crate::site::site_in_unit;
use crate::site::snapshot_le_bytes;
use crate::store::SiteStore;

verus! {

/// The fixed per-frame draw, described once: begin a render pass against
/// the frame's target view, clear it, bind the pipeline and the site buffer,
/// draw the full-screen triangle, submit.
#[derive(Clone, Copy, PartialEq, Eq, Structural, Debug)]
pub struct FramePlan {
    /// Vertices of the one draw call: the full-screen triangle.
    pub vertex_count: u32,
    /// Instances of the one draw call.
    pub instance_count: u32,
    /// Slot the site buffer's bind group is bound at.
    pub bind_slot: u32,
    /// Red channel of the clear color.
    pub clear_red: u8,
    /// Green channel of the clear color.
    pub clear_green: u8,
    /// Blue channel of the clear color.
    pub clear_blue: u8,
    /// Alpha channel of the clear color.
    pub clear_alpha: u8,
}

/// The draw plan of every frame: clear to opaque black, then draw three
/// vertices, one instance, with the site buffer bound at slot zero.
pub fn frame_plan() -> (p: FramePlan)
    ensures
        p.vertex_count == 3,
        p.instance_count == 1,
        p.bind_slot == 0,
        p.clear_red == 0,
        p.clear_green == 0,
        p.clear_blue == 0,
        p.clear_alpha == 255,
{
    FramePlan {
        vertex_count: 3,
        instance_count: 1,
        bind_slot: 0,
        clear_red: 0,
        clear_green: 0,
        clear_blue: 0,
        clear_alpha: 255,
    }
}

/// The guarded upload: the exact bytes to overwrite the whole device buffer
/// with, produced only for a snapshot of exactly `expected` sites. A
/// snapshot of any other length is rejected with the lengths in hand, and
/// nothing is encoded for it.
pub fn upload_bytes(expected: usize, snapshot: &Vec<Site>) -> (r: Result<Vec<u8>, UploadError>)
    ensures
        r is Ok <==> snapshot@.len() == expected,
        r is Ok ==> r->Ok_0@ == snapshot_le_bytes(snapshot@) && r->Ok_0@.len() == 16 * expected,
        r is Err ==> r->Err_0 == (UploadError::LengthMismatch {
            expected,
            actual: snapshot@.len() as usize,
        }),
{
    if snapshot.len() != expected {
        Err(UploadError::LengthMismatch { expected, actual: snapshot.len() })
    } else {
        Ok(encode_sites(snapshot))
    }
}

/// Everything the one-time setup computes: the store, the pipeline
/// configuration, and the initial contents of the device buffer.
pub struct Setup {
    /// The immutable site store.
    pub store: SiteStore,
    /// The immutable pipeline configuration.
    pub settings: PipelineSettings,
    /// Byte image of every site at its base position, the contents the
    /// device buffer is created with.
    pub initial_bytes: Vec<u8>,
}

/// The one-time setup, done before any GPU resource exists: validates the
/// site data and the configuration, and computes the initial buffer
/// contents. Succeeds exactly on the inputs `setup_accepts` allows; on any
/// other input it fails with the matching setup-fatal error — the site
/// count checked first, then the sample count, then the binding limit — and
/// hands back nothing a device resource could be built from.
pub fn setup(
    base: Vec<Site>,
    amplitude_bits: Vec<u32>,
    kind: BufferKind,
    format: ColorFormat,
    sample_count: u32,
) -> (r: Result<Setup, SetupError>)
    requires
        base@.len() == amplitude_bits@.len(),
        forall|i: int| 0 <= i < base@.len() ==> site_in_unit(base@[i]),
    ensures
        r is Ok <==> setup_accepts(kind, sample_count, base@.len() as usize),
        r is Ok ==> {
            &&& r->Ok_0.store.wf()
            &&& r->Ok_0.store.base_sites() == base@
            &&& r->Ok_0.store.amplitudes() == amplitude_bits@
            &&& r->Ok_0.settings.wf()
            &&& r->Ok_0.settings.buffer_kind == kind
            &&& r->Ok_0.settings.color_format == format
            &&& r->Ok_0.settings.sample_count == sample_count
            &&& r->Ok_0.settings.site_count == base@.len()
            &&& r->Ok_0.initial_bytes@ == snapshot_le_bytes(base@)
            &&& r->Ok_0.initial_bytes@.len() as int == r->Ok_0.settings.buffer_bytes as int
        },
        base@.len() == 0 ==> r is Err && r->Err_0 == SetupError::NoSites,
        r is Err ==> (r->Err_0 == SetupError::NoSites <==> base@.len() == 0),
{
    let store = match SiteStore::new(base, amplitude_bits) {
        Ok(store) => store,
        Err(e) => {
            return Err(e);
        },
    };
    let settings = match PipelineSettings::build(kind, format, sample_count, store.len()) {
        Ok(settings) => settings,
        Err(e) => {
            return Err(e);
        },
    };
    let initial = store.base_snapshot();
    let initial_bytes = encode_sites(&initial);
    Ok(Setup { store, settings, initial_bytes })
}

} // verus!
