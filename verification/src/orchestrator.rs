//! The bootstrap orchestrator: a strictly linear, forward-only state
//! machine over the lifetime of the created objects.
//!
//! The orchestrator does not talk to the graphics backend itself; the
//! unverified shell performs each creation call and reports it here. The
//! machine records the creation order and, once the swapchain stands,
//! hands back the teardown order: exactly the reverse of creation, each
//! object exactly once. No transition leads out of the torn-down state,
//! so no recorded object can be used after its destruction. Any failure
//! on the way is terminal for the whole bootstrap; there is no retry and
//! no rollback transition.

use vstd::prelude::*;

use crate::device::SelectedDevice;

verus! {

/// Fixed parameters of one bootstrap run, passed in at construction
/// instead of living as process-wide globals.
#[derive(Clone, Debug)]
pub struct BootstrapConfig {
    pub app_name: String,
    pub app_version: u32,
    pub api_version: u32,
    pub enable_validation: bool,
    pub clamp_image_count: bool,
}

/// Packs a version number from its variant, major, minor and patch parts.
pub fn pack_version(variant: u32, major: u32, minor: u32, patch: u32) -> (r: u32)
    ensures
        r == (variant << 29) | (major << 22) | (minor << 12) | patch,
{
    (variant << 29) | (major << 22) | (minor << 12) | patch
}

/// The states of the bootstrap, in their one linear order.
#[derive(Clone, Copy, Debug, PartialEq, Eq, Structural)]
pub enum Phase {
    Uninitialized,
    InstanceReady,
    SurfaceReady,
    DeviceSelected,
    DeviceReady,
    SwapchainReady,
    TornDown,
}

/// The kinds of objects the bootstrap creates and owns.
#[derive(Clone, Copy, Debug, PartialEq, Eq, Structural)]
pub enum Resource {
    Instance,
    DebugMessenger,
    Surface,
    Device,
    Swapchain,
}

/// What instance creation brings into existence: the instance, and the
/// debug messenger when validation is enabled.
pub open spec fn instance_resources(validation: bool) -> Seq<Resource> {
    if validation {
        seq![Resource::Instance, Resource::DebugMessenger]
    } else {
        seq![Resource::Instance]
    }
}

/// The objects that exist in a given phase, in creation order.
pub open spec fn creation_order(validation: bool, phase: Phase) -> Seq<Resource> {
    match phase {
        Phase::Uninitialized => Seq::empty(),
        Phase::InstanceReady => instance_resources(validation),
        Phase::SurfaceReady => instance_resources(validation).push(Resource::Surface),
        Phase::DeviceSelected => instance_resources(validation).push(Resource::Surface),
        Phase::DeviceReady => instance_resources(validation).push(Resource::Surface).push(
            Resource::Device,
        ),
        Phase::SwapchainReady => instance_resources(validation).push(Resource::Surface).push(
            Resource::Device,
        ).push(Resource::Swapchain),
        Phase::TornDown => Seq::empty(),
    }
}

/// In every phase, no object appears twice in the creation order, so no
/// teardown derived from it destroys an object more than once.
pub proof fn lemma_creation_order_distinct(validation: bool, phase: Phase)
    ensures
        forall|a: int, b: int|
            0 <= a < b < creation_order(validation, phase).len()
                ==> #[trigger] creation_order(validation, phase)[a]
                != #[trigger] creation_order(validation, phase)[b],
{
    if validation {
        assert(instance_resources(validation) =~= seq![Resource::Instance, Resource::DebugMessenger]);
    } else {
        assert(instance_resources(validation) =~= seq![Resource::Instance]);
    }
}

/// Owns the objects of one bootstrap run and sequences their lifecycle.
pub struct Orchestrator {
    pub config: BootstrapConfig,
    pub phase: Phase,
    pub created: Vec<Resource>,
    pub selection: Option<SelectedDevice>,
}

impl Orchestrator {
    /// The recorded objects are exactly those of the current phase, and a
    /// device selection is held from selection until teardown.
    pub open spec fn wf(self) -> bool {
        &&& self.created@ == creation_order(self.config.enable_validation, self.phase)
        &&& (self.phase is DeviceSelected || self.phase is DeviceReady || self.phase
            is SwapchainReady) ==> self.selection is Some
    }

    /// A fresh orchestrator that owns nothing yet.
    pub fn new(config: BootstrapConfig) -> (r: Orchestrator)
        ensures
            r.wf(),
            r.phase is Uninitialized,
            r.config == config,
            r.created@ == Seq::<Resource>::empty(),
            r.selection is None,
    {
        let r = Orchestrator {
            config,
            phase: Phase::Uninitialized,
            created: Vec::new(),
            selection: None,
        };
        proof {
            assert(r.created@ =~= Seq::<Resource>::empty());
        }
        r
    }

    /// Records that the instance stands, together with the debug messenger
    /// when validation is enabled (with validation off, no messenger is
    /// registered and none will be destroyed).
    pub fn instance_created(&mut self)
        requires
            old(self).wf(),
            old(self).phase is Uninitialized,
        ensures
            final(self).wf(),
            final(self).phase is InstanceReady,
            final(self).created@ == instance_resources(old(self).config.enable_validation),
            final(self).config == old(self).config,
            final(self).selection == old(self).selection,
    {
        self.created.push(Resource::Instance);
        if self.config.enable_validation {
            self.created.push(Resource::DebugMessenger);
        }
        self.phase = Phase::InstanceReady;
        proof {
            assert(self.created@ =~= instance_resources(self.config.enable_validation));
        }
    }

    /// Records that the surface stands.
    pub fn surface_created(&mut self)
        requires
            old(self).wf(),
            old(self).phase is InstanceReady,
        ensures
            final(self).wf(),
            final(self).phase is SurfaceReady,
            final(self).created@ == old(self).created@.push(Resource::Surface),
            final(self).config == old(self).config,
            final(self).selection == old(self).selection,
    {
        self.created.push(Resource::Surface);
        self.phase = Phase::SurfaceReady;
    }

    /// Takes ownership of the selection the device pass produced; it is
    /// held, immutable, until context construction consumes it.
    pub fn device_selected(&mut self, sel: SelectedDevice)
        requires
            old(self).wf(),
            old(self).phase is SurfaceReady,
        ensures
            final(self).wf(),
            final(self).phase is DeviceSelected,
            final(self).created@ == old(self).created@,
            final(self).config == old(self).config,
            final(self).selection == Some(sel),
    {
        self.selection = Some(sel);
        self.phase = Phase::DeviceSelected;
    }

    /// Records that the logical device stands.
    pub fn device_created(&mut self)
        requires
            old(self).wf(),
            old(self).phase is DeviceSelected,
        ensures
            final(self).wf(),
            final(self).phase is DeviceReady,
            final(self).created@ == old(self).created@.push(Resource::Device),
            final(self).config == old(self).config,
            final(self).selection == old(self).selection,
    {
        self.created.push(Resource::Device);
        self.phase = Phase::DeviceReady;
    }

    /// Records that the swapchain stands: the context is complete.
    pub fn swapchain_created(&mut self)
        requires
            old(self).wf(),
            old(self).phase is DeviceReady,
        ensures
            final(self).wf(),
            final(self).phase is SwapchainReady,
            final(self).created@ == old(self).created@.push(Resource::Swapchain),
            final(self).config == old(self).config,
            final(self).selection == old(self).selection,
    {
        self.created.push(Resource::Swapchain);
        self.phase = Phase::SwapchainReady;
    }

    /// Ends the run: hands back the order in which the owned objects are
    /// to be destroyed — exactly the reverse of the creation order, each
    /// object exactly once — and leaves the machine torn down, a state no
    /// transition leads out of.
    pub fn teardown(&mut self) -> (order: Vec<Resource>)
        requires
            old(self).wf(),
            old(self).phase is SwapchainReady,
        ensures
            final(self).wf(),
            final(self).phase is TornDown,
            order@ == old(self).created@.reverse(),
            forall|a: int, b: int| 0 <= a < b < order@.len() ==> order@[a] != order@[b],
            final(self).created@ == Seq::<Resource>::empty(),
            final(self).config == old(self).config,
    {
        let ghost orig = self.created@;
        let ghost oc = self.config;
        let ghost osel = self.selection;
        let mut order: Vec<Resource> = Vec::new();
        proof {
            assert(self.created@ =~= orig.take(self.created@.len() as int));
        }
        while self.created.len() > 0
            invariant
                self.created@.len() <= orig.len(),
                self.created@ == orig.take(self.created@.len() as int),
                order@.len() + self.created@.len() == orig.len(),
                forall|k: int| 0 <= k < order@.len() ==> order@[k] == orig[orig.len() - 1 - k],
                self.config == oc,
                self.selection == osel,
                self.phase is SwapchainReady,
            decreases self.created@.len(),
        {
            let ghost l = self.created@.len() as int;
            let r = self.created.pop().unwrap();
            proof {
                assert(r == orig.take(l)[l - 1]);
                assert(self.created@ =~= orig.take(l - 1));
            }
            order.push(r);
        }
        self.phase = Phase::TornDown;
        proof {
            assert(self.created@ =~= Seq::<Resource>::empty());
            assert(order@ =~= orig.reverse());
            lemma_creation_order_distinct(oc.enable_validation, Phase::SwapchainReady);
            assert forall|a: int, b: int| 0 <= a < b < order@.len() implies order@[a] != order@[b]
            by {
                assert(order@[a] == orig[orig.len() - 1 - a]);
                assert(order@[b] == orig[orig.len() - 1 - b]);
            }
        }
        order
    }
}

} // verus!
