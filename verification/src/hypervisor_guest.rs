//! What a domain kernel knows of the hypervisor it runs under: the backend,
//! its domain, the features and the grant window.

use vstd::prelude::*;
use crate::abi::hypervisor::{DomainBootInfo, HYPERVISOR_BACKEND_AMD_SVM, HYPERVISOR_BACKEND_INTEL_VMX};

verus! {

/// Hypervisor configuration of a domain; a zero backend means none.
pub struct GuestConfiguration {
    backend: u32,
    domain: u32,
    features: u64,
    grant_window_start: u64,
    grant_window_size: u64,
}

impl GuestConfiguration {
    pub closed spec fn backend(&self) -> u32 {
        self.backend
    }

    pub closed spec fn domain(&self) -> u32 {
        self.domain
    }

    pub closed spec fn features(&self) -> u64 {
        self.features
    }

    pub closed spec fn window(&self) -> (u64, u64) {
        (self.grant_window_start, self.grant_window_size)
    }

    pub fn new() -> (c: Self)
        ensures
            c.backend() == 0 && c.domain() == 0 && c.features() == 0 && c.window() == (0u64, 0u64),
    {
        GuestConfiguration { backend: 0, domain: 0, features: 0, grant_window_start: 0, grant_window_size: 0 }
    }

    /// Takes the configuration from the boot information when it names a
    /// known backend; whether it did. Otherwise nothing changes.
    pub fn configure(&mut self, info: &DomainBootInfo) -> (r: bool)
        ensures
            r == (info.hypervisor_backend == HYPERVISOR_BACKEND_INTEL_VMX || info.hypervisor_backend == HYPERVISOR_BACKEND_AMD_SVM),
            r ==> final(self).backend() == info.hypervisor_backend && final(self).domain() == info.domain_id
                && final(self).features() == info.feature_flags
                && final(self).window() == (info.grant_window_start, info.grant_window_size),
            !r ==> final(self).backend() == old(self).backend() && final(self).domain() == old(self).domain()
                && final(self).features() == old(self).features() && final(self).window() == old(self).window(),
    {
        let backend = info.hypervisor_backend;
        if !(backend == HYPERVISOR_BACKEND_INTEL_VMX || backend == HYPERVISOR_BACKEND_AMD_SVM) {
            return false;
        }
        self.domain = info.domain_id;
        self.features = info.feature_flags;
        self.grant_window_start = info.grant_window_start;
        self.grant_window_size = info.grant_window_size;
        self.backend = backend;
        true
    }

    pub fn is_active(&self) -> (r: bool)
        ensures
            r == (self.backend() != 0),
    {
        self.backend != 0
    }

    pub fn domain_id(&self) -> (r: u32)
        ensures
            r == self.domain(),
    {
        self.domain
    }

    pub fn feature_flags(&self) -> (r: u64)
        ensures
            r == self.features(),
    {
        self.features
    }

    /// Start and size of the grant window, when both are set.
    pub fn grant_window(&self) -> (r: Option<(u64, u64)>)
        ensures
            r == (if self.window().0 != 0 && self.window().1 != 0 { Some(self.window()) } else { None }),
    {
        if self.grant_window_start != 0 && self.grant_window_size != 0 {
            Some((self.grant_window_start, self.grant_window_size))
        } else {
            None
        }
    }
}

} // verus!
