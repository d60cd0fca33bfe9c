//! The immutable site store.
//!
//! The store owns the base position of every site and, in parallel, the
//! per-site animation amplitude. Both are fixed when the store is built and
//! never change afterwards: the base positions are the centers the sites
//! oscillate around, not the rendered positions. Amplitudes, like
//! coordinates, are carried as the raw bit patterns of their
//! single-precision encoding.

use vstd::prelude::*;

use crate::errors::SetupError;
use crate::site::Site;
use crate::site::site_in_unit;

verus! {

/// The immutable base data of the animation: one base position and one
/// amplitude per site.
pub struct SiteStore {
    base: Vec<Site>,
    amplitude_bits: Vec<u32>,
}

impl SiteStore {
    /// The base positions, in site order.
    pub closed spec fn base_sites(&self) -> Seq<Site> {
        self.base@
    }

    /// The amplitude words, in site order.
    pub closed spec fn amplitudes(&self) -> Seq<u32> {
        self.amplitude_bits@
    }

    /// The fixed number of sites.
    pub open spec fn site_count(&self) -> nat {
        self.base_sites().len()
    }

    /// Well-formedness: the store holds at least one site, exactly one
    /// amplitude per site, and every base position lies in the unit square.
    pub open spec fn wf(&self) -> bool {
        &&& self.amplitudes().len() == self.site_count()
        &&& self.site_count() > 0
        &&& forall|i: int| 0 <= i < self.site_count() ==> site_in_unit(self.base_sites()[i])
    }

    /// Builds the store from base positions and amplitudes drawn by the
    /// host. Fails exactly when the site count is zero; a well-formed store
    /// holding precisely the given data comes back otherwise.
    pub fn new(base: Vec<Site>, amplitude_bits: Vec<u32>) -> (r: Result<SiteStore, SetupError>)
        requires
            base@.len() == amplitude_bits@.len(),
            forall|i: int| 0 <= i < base@.len() ==> site_in_unit(base@[i]),
        ensures
            r is Ok <==> base@.len() > 0,
            r is Ok ==> {
                &&& r->Ok_0.wf()
                &&& r->Ok_0.base_sites() == base@
                &&& r->Ok_0.amplitudes() == amplitude_bits@
            },
            r is Err ==> r->Err_0 == SetupError::NoSites,
    {
        if base.len() == 0 {
            Err(SetupError::NoSites)
        } else {
            Ok(SiteStore { base, amplitude_bits })
        }
    }

    /// The fixed number of sites.
    pub fn len(&self) -> (n: usize)
        requires
            self.wf(),
        ensures
            n == self.site_count(),
    {
        self.base.len()
    }

    /// The base position of site `i`.
    pub fn base_at(&self, i: usize) -> (s: Site)
        requires
            self.wf(),
            i < self.site_count(),
        ensures
            s == self.base_sites()[i as int],
            site_in_unit(s),
    {
        self.base[i]
    }

    /// The amplitude word of site `i`.
    pub fn amplitude_at(&self, i: usize) -> (a: u32)
        requires
            self.wf(),
            i < self.site_count(),
        ensures
            a == self.amplitudes()[i as int],
    {
        self.amplitude_bits[i]
    }

    /// A fresh snapshot holding every site at its base position, used as the
    /// initial contents of the device buffer before the first animation
    /// step.
    pub fn base_snapshot(&self) -> (snap: Vec<Site>)
        requires
            self.wf(),
        ensures
            snap@ == self.base_sites(),
    {
        let mut snap: Vec<Site> = Vec::new();
        let mut j: usize = 0;
        while j < self.base.len()
            invariant
                j <= self.base@.len(),
                snap@ == self.base@.take(j as int),
            decreases self.base@.len() - j,
        {
            snap.push(self.base[j]);
            proof {
                assert(snap@ =~= self.base@.take(j + 1));
            }
            j += 1;
        }
        proof {
            assert(self.base@.take(self.base@.len() as int) =~= self.base@);
        }
        snap
    }
}

} // verus!
