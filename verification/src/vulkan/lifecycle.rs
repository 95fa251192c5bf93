use crate::error::SetupError;
use vstd::prelude::*;

verus! {

/// The kinds of handles the application owns, in the order in which a full
/// start acquires them. The two shader modules live only while the pipeline
/// is being built.
#[derive(Clone, Copy, Debug, PartialEq, Eq, Structural)]
pub enum ResourceKind {
    Instance,
    DebugMessenger,
    Surface,
    Device,
    Swapchain,
    ImageView,
    RenderPass,
    PipelineLayout,
    VertexShader,
    FragmentShader,
    Pipeline,
}

/// A handle that was created and not yet destroyed.
#[derive(Clone, Copy, Debug, PartialEq, Eq, Structural)]
pub struct Resource {
    pub kind: ResourceKind,
    pub handle: u64,
}

/// What the owner of the handles has to do next.
#[derive(Clone, Copy, Debug, PartialEq, Eq, Structural)]
pub enum Step {
    /// Create a handle of this kind and report it with `acquire`.
    Create(ResourceKind),
    /// The pipeline is built: let go of the shader modules.
    ReleaseShaderModules,
    /// Everything is there.
    Ready,
}

/// The handles that are alive, oldest first. Handles are acquired in one
/// fixed order and given back in the reverse of it.
#[derive(Debug)]
pub struct Lifecycle {
    validation_enabled: bool,
    live: Vec<Resource>,
}

/// The place of a kind in the acquisition order.
pub open spec fn rank(kind: ResourceKind) -> nat {
    match kind {
        ResourceKind::Instance => 0,
        ResourceKind::DebugMessenger => 1,
        ResourceKind::Surface => 2,
        ResourceKind::Device => 3,
        ResourceKind::Swapchain => 4,
        ResourceKind::ImageView => 5,
        ResourceKind::RenderPass => 6,
        ResourceKind::PipelineLayout => 7,
        ResourceKind::VertexShader => 8,
        ResourceKind::FragmentShader => 9,
        ResourceKind::Pipeline => 10,
    }
}

/// Whether a handle of kind `next` may be acquired right after one of kind
/// `previous`. The debug messenger comes straight after the instance, and
/// only with validation enabled. A swapchain is followed by any number of
/// image views.
pub open spec fn may_follow(
    validation_enabled: bool,
    previous: ResourceKind,
    next: ResourceKind,
) -> bool {
    match previous {
        ResourceKind::Instance => if validation_enabled {
            next == ResourceKind::DebugMessenger
        } else {
            next == ResourceKind::Surface
        },
        ResourceKind::DebugMessenger => next == ResourceKind::Surface,
        ResourceKind::Surface => next == ResourceKind::Device,
        ResourceKind::Device => next == ResourceKind::Swapchain,
        ResourceKind::Swapchain | ResourceKind::ImageView => next == ResourceKind::ImageView
            || next == ResourceKind::RenderPass,
        ResourceKind::RenderPass => next == ResourceKind::PipelineLayout,
        ResourceKind::PipelineLayout => next == ResourceKind::VertexShader,
        ResourceKind::VertexShader => next == ResourceKind::FragmentShader,
        ResourceKind::FragmentShader => next == ResourceKind::Pipeline,
        ResourceKind::Pipeline => false,
    }
}

/// Whether a handle of kind `kind` may be acquired on top of `live`.
pub open spec fn may_acquire(
    validation_enabled: bool,
    live: Seq<Resource>,
    kind: ResourceKind,
) -> bool {
    if live.len() == 0 {
        kind == ResourceKind::Instance
    } else {
        may_follow(validation_enabled, live.last().kind, kind)
    }
}

/// Whether `above` may lie directly on `below` among the live handles: as
/// acquired, or a pipeline on its layout once the shader modules are gone.
pub open spec fn may_lie_on(
    validation_enabled: bool,
    below: ResourceKind,
    above: ResourceKind,
) -> bool {
    may_follow(validation_enabled, below, above) || (below == ResourceKind::PipelineLayout && above
        == ResourceKind::Pipeline)
}

/// The live handles start with the instance and follow the acquisition
/// order.
pub open spec fn ordered(validation_enabled: bool, live: Seq<Resource>) -> bool {
    &&& live.len() > 0 ==> live[0].kind == ResourceKind::Instance
    &&& forall|i: int, j: int|
        0 <= i && j == i + 1 && j < live.len() ==> may_lie_on(
            validation_enabled,
            (#[trigger] live[i]).kind,
            (#[trigger] live[j]).kind,
        )
}

/// The number of image views on top of `live`.
pub open spec fn trailing_image_views(live: Seq<Resource>) -> nat
    decreases live.len(),
{
    if live.len() > 0 && live.last().kind == ResourceKind::ImageView {
        1 + trailing_image_views(live.drop_last())
    } else {
        0
    }
}

/// One step of the count, on a prefix of the live handles.
proof fn trailing_image_views_unfolds(live: Seq<Resource>, end: int)
    requires
        0 < end <= live.len(),
    ensures
        trailing_image_views(live.subrange(0, end)) == (if live[end - 1].kind
            == ResourceKind::ImageView {
            1 + trailing_image_views(live.subrange(0, end - 1))
        } else {
            0
        }),
{
    assert(live.subrange(0, end).drop_last() =~= live.subrange(0, end - 1));
}

/// The live handle at `index` is of kind `kind`, and no younger one is.
pub open spec fn is_youngest_of(live: Seq<Resource>, kind: ResourceKind, index: int) -> bool {
    &&& 0 <= index < live.len()
    &&& live[index].kind == kind
    &&& forall|j: int| index < j < live.len() ==> (#[trigger] live[j]).kind != kind
}

/// The pipeline is built and the two shader modules still lie under it.
pub open spec fn shaders_pending(live: Seq<Resource>) -> bool {
    &&& live.len() >= 3
    &&& live[live.len() - 1].kind == ResourceKind::Pipeline
    &&& live[live.len() - 2].kind == ResourceKind::FragmentShader
    &&& live[live.len() - 3].kind == ResourceKind::VertexShader
}

/// Taking the two shader modules from under the pipeline leaves the live
/// handles in order.
proof fn lifting_shaders_keeps_order(validation_enabled: bool, before: Seq<Resource>)
    requires
        ordered(validation_enabled, before),
        shaders_pending(before),
    ensures
        ordered(validation_enabled, before.subrange(0, before.len() - 3).push(before.last())),
{
    let after = before.subrange(0, before.len() - 3).push(before.last());
    assert(before.len() >= 4) by {
        if before.len() == 3 {
            assert(before[0].kind == ResourceKind::Instance);
        }
    }
    assert(may_lie_on(
        validation_enabled,
        before[before.len() - 4].kind,
        before[before.len() - 3].kind,
    ));
    assert forall|i: int, j: int| 0 <= i && j == i + 1 && j < after.len() implies may_lie_on(
        validation_enabled,
        (#[trigger] after[i]).kind,
        (#[trigger] after[j]).kind,
    ) by {
        assert(may_lie_on(validation_enabled, before[i].kind, before[j].kind));
    }
}

/// The one thing to do next, for a swapchain that holds `swapchain_images`
/// images.
pub open spec fn next_step_for(
    validation_enabled: bool,
    live: Seq<Resource>,
    swapchain_images: nat,
) -> Step {
    if live.len() == 0 {
        Step::Create(ResourceKind::Instance)
    } else {
        match live.last().kind {
            ResourceKind::Instance => if validation_enabled {
                Step::Create(ResourceKind::DebugMessenger)
            } else {
                Step::Create(ResourceKind::Surface)
            },
            ResourceKind::DebugMessenger => Step::Create(ResourceKind::Surface),
            ResourceKind::Surface => Step::Create(ResourceKind::Device),
            ResourceKind::Device => Step::Create(ResourceKind::Swapchain),
            ResourceKind::Swapchain | ResourceKind::ImageView => if trailing_image_views(live)
                < swapchain_images {
                Step::Create(ResourceKind::ImageView)
            } else {
                Step::Create(ResourceKind::RenderPass)
            },
            ResourceKind::RenderPass => Step::Create(ResourceKind::PipelineLayout),
            ResourceKind::PipelineLayout => Step::Create(ResourceKind::VertexShader),
            ResourceKind::VertexShader => Step::Create(ResourceKind::FragmentShader),
            ResourceKind::FragmentShader => Step::Create(ResourceKind::Pipeline),
            ResourceKind::Pipeline => if shaders_pending(live) {
                Step::ReleaseShaderModules
            } else {
                Step::Ready
            },
        }
    }
}

/// The order in which the live handles are destroyed: youngest first.
pub open spec fn teardown_plan(live: Seq<Resource>) -> Seq<Resource> {
    live.reverse()
}

impl View for Lifecycle {
    type V = Seq<Resource>;

    /// The live handles, oldest first.
    closed spec fn view(&self) -> Seq<Resource> {
        self.live@
    }
}

impl Lifecycle {
    /// Whether a debug messenger belongs to the acquisition order.
    pub closed spec fn validation(&self) -> bool {
        self.validation_enabled
    }

    /// The live handles are in acquisition order. This holds of a fresh
    /// lifecycle, and no operation gives it up.
    pub open spec fn wf(&self) -> bool {
        ordered(self.validation(), self@)
    }

    /// A lifecycle with nothing alive yet.
    pub fn new(validation_enabled: bool) -> (lifecycle: Lifecycle)
        ensures
            lifecycle@ == Seq::<Resource>::empty(),
            lifecycle.validation() == validation_enabled,
            lifecycle.wf(),
    {
        Lifecycle { validation_enabled, live: Vec::new() }
    }

    /// Whether a debug messenger belongs to the acquisition order.
    pub fn is_validation_enabled(&self) -> (enabled: bool)
        ensures
            enabled == self.validation(),
    {
        self.validation_enabled
    }

    /// The live handles, oldest first.
    pub fn resources(&self) -> (live: &Vec<Resource>)
        ensures
            live@ == self@,
    {
        &self.live
    }

    /// The number of image views on top of the live handles: while the
    /// views are being created, the position of the image that gets the next
    /// one.
    pub fn image_views_on_top(&self) -> (count: usize)
        ensures
            count == trailing_image_views(self@),
    {
        let len = self.live.len();
        let mut i: usize = len;
        let mut count: usize = 0;
        let mut more = i > 0 && self.live[i - 1].kind == ResourceKind::ImageView;
        assert(self.live@.subrange(0, i as int) =~= self.live@);
        while more
            invariant
                len == self.live@.len(),
                count + i <= len,
                more == (i > 0 && self.live@[i - 1].kind == ResourceKind::ImageView),
                trailing_image_views(self.live@) == count + trailing_image_views(
                    self.live@.subrange(0, i as int),
                ),
            decreases i,
        {
            proof {
                trailing_image_views_unfolds(self.live@, i as int);
            }
            i -= 1;
            count += 1;
            more = i > 0 && self.live[i - 1].kind == ResourceKind::ImageView;
        }
        proof {
            if i > 0 {
                trailing_image_views_unfolds(self.live@, i as int);
            }
        }
        count
    }

    /// The youngest live handle of a kind, if there is one.
    pub fn handle_of(&self, kind: ResourceKind) -> (handle: Option<u64>)
        ensures
            match handle {
                Some(found) => exists|i: int| is_youngest_of(self@, kind, i) && self@[i].handle == found,
                None => forall|i: int| 0 <= i < self@.len() ==> (#[trigger] self@[i]).kind != kind,
            },
    {
        let mut i: usize = self.live.len();
        while i > 0
            invariant
                i <= self.live@.len(),
                forall|j: int| i <= j < self.live@.len() ==> (#[trigger] self.live@[j]).kind != kind,
            decreases i,
        {
            i -= 1;
            if self.live[i].kind == kind {
                assert(is_youngest_of(self@, kind, i as int));
                return Some(self.live[i].handle);
            }
        }
        None
    }

    /// What to do next, for a swapchain that holds `swapchain_images`
    /// images. The number is read only between the swapchain and the render
    /// pass.
    pub fn next_step(&self, swapchain_images: usize) -> (step: Step)
        ensures
            step == next_step_for(self.validation(), self@, swapchain_images as nat),
    {
        let len = self.live.len();
        if len == 0 {
            return Step::Create(ResourceKind::Instance);
        }
        match self.live[len - 1].kind {
            ResourceKind::Instance => if self.validation_enabled {
                Step::Create(ResourceKind::DebugMessenger)
            } else {
                Step::Create(ResourceKind::Surface)
            },
            ResourceKind::DebugMessenger => Step::Create(ResourceKind::Surface),
            ResourceKind::Surface => Step::Create(ResourceKind::Device),
            ResourceKind::Device => Step::Create(ResourceKind::Swapchain),
            ResourceKind::Swapchain | ResourceKind::ImageView => {
                if self.image_views_on_top() < swapchain_images {
                    Step::Create(ResourceKind::ImageView)
                } else {
                    Step::Create(ResourceKind::RenderPass)
                }
            },
            ResourceKind::RenderPass => Step::Create(ResourceKind::PipelineLayout),
            ResourceKind::PipelineLayout => Step::Create(ResourceKind::VertexShader),
            ResourceKind::VertexShader => Step::Create(ResourceKind::FragmentShader),
            ResourceKind::FragmentShader => Step::Create(ResourceKind::Pipeline),
            ResourceKind::Pipeline => {
                if len >= 3 && self.live[len - 2].kind == ResourceKind::FragmentShader
                    && self.live[len - 3].kind == ResourceKind::VertexShader {
                    Step::ReleaseShaderModules
                } else {
                    Step::Ready
                }
            },
        }
    }

    /// Whether a handle of this kind is the next in the acquisition order, or
    /// one of the two that may come next after a swapchain or an image view.
    pub fn can_acquire(&self, kind: ResourceKind) -> (allowed: bool)
        ensures
            allowed == may_acquire(self.validation(), self@, kind),
    {
        let len = self.live.len();
        if len == 0 {
            return kind == ResourceKind::Instance;
        }
        match self.live[len - 1].kind {
            ResourceKind::Instance => if self.validation_enabled {
                kind == ResourceKind::DebugMessenger
            } else {
                kind == ResourceKind::Surface
            },
            ResourceKind::DebugMessenger => kind == ResourceKind::Surface,
            ResourceKind::Surface => kind == ResourceKind::Device,
            ResourceKind::Device => kind == ResourceKind::Swapchain,
            ResourceKind::Swapchain | ResourceKind::ImageView => kind == ResourceKind::ImageView
                || kind == ResourceKind::RenderPass,
            ResourceKind::RenderPass => kind == ResourceKind::PipelineLayout,
            ResourceKind::PipelineLayout => kind == ResourceKind::VertexShader,
            ResourceKind::VertexShader => kind == ResourceKind::FragmentShader,
            ResourceKind::FragmentShader => kind == ResourceKind::Pipeline,
            ResourceKind::Pipeline => false,
        }
    }

    /// Takes a freshly created handle into ownership, as the youngest.
    ///
    /// A handle that is out of order is refused and nothing changes: the
    /// caller still owns it and has to destroy it.
    pub fn acquire(&mut self, kind: ResourceKind, handle: u64) -> (outcome: Result<(), SetupError>)
        ensures
            old(self).wf() ==> final(self).wf(),
            final(self).validation() == old(self).validation(),
            may_acquire(old(self).validation(), old(self)@, kind) ==> {
                &&& outcome.is_ok()
                &&& final(self)@ == old(self)@.push(Resource { kind, handle })
            },
            !may_acquire(old(self).validation(), old(self)@, kind) ==> {
                &&& outcome == Err::<(), SetupError>(SetupError::OutOfOrder)
                &&& final(self)@ == old(self)@
            },
    {
        if !self.can_acquire(kind) {
            return Err(SetupError::OutOfOrder);
        }
        self.live.push(Resource { kind, handle });
        Ok(())
    }

    /// Hands out the two shader modules for destruction once the pipeline is
    /// built on them, the fragment shader first. At any other time it hands
    /// out nothing and changes nothing.
    pub fn release_shader_modules(&mut self) -> (released: Vec<Resource>)
        ensures
            old(self).wf() ==> final(self).wf(),
            final(self).validation() == old(self).validation(),
            shaders_pending(old(self)@) ==> {
                let before = old(self)@;
                &&& released@ == seq![before[before.len() - 2], before[before.len() - 3]]
                &&& final(self)@ == before.subrange(0, before.len() - 3).push(before.last())
            },
            !shaders_pending(old(self)@) ==> released@.len() == 0 && final(self)@ == old(self)@,
    {
        let len = self.live.len();
        if !(len >= 3 && self.live[len - 1].kind == ResourceKind::Pipeline && self.live[len
            - 2].kind == ResourceKind::FragmentShader && self.live[len - 3].kind
            == ResourceKind::VertexShader) {
            return Vec::new();
        }
        let ghost before = self.live@;
        let pipeline = self.live[len - 1];
        let fragment_shader = self.live[len - 2];
        let vertex_shader = self.live[len - 3];
        self.live.truncate(len - 3);
        self.live.push(pipeline);
        proof {
            assert(self.live@ =~= before.subrange(0, before.len() - 3).push(before.last()));
            if ordered(self.validation_enabled, before) {
                lifting_shaders_keeps_order(self.validation_enabled, before);
            }
        }
        vec![fragment_shader, vertex_shader]
    }

    /// Gives up every live handle. They are handed out in the order in which
    /// they have to be destroyed: the exact reverse of the order in which
    /// they were acquired.
    pub fn teardown(&mut self) -> (plan: Vec<Resource>)
        ensures
            plan@ == teardown_plan(old(self)@),
            final(self)@ == Seq::<Resource>::empty(),
            final(self).validation() == old(self).validation(),
            final(self).wf(),
    {
        let ghost before = self.live@;
        let ghost validation = self.validation_enabled;
        let mut plan: Vec<Resource> = Vec::new();
        while self.live.len() > 0
            invariant
                self.validation_enabled == validation,
                self.live@.len() + plan@.len() == before.len(),
                self.live@ == before.subrange(0, self.live@.len() as int),
                forall|i: int|
                    0 <= i < plan@.len() ==> #[trigger] plan@[i] == before[before.len() - 1 - i],
            decreases self.live@.len(),
        {
            let ghost shorter = self.live@.len() - 1;
            let youngest = self.live.pop().unwrap();
            plan.push(youngest);
            assert(self.live@ =~= before.subrange(0, shorter));
        }
        assert(plan@ =~= before.reverse());
        assert(self.live@ =~= Seq::<Resource>::empty());
        plan
    }
}

/// Teardown is the exact reverse of creation: the handle destroyed at
/// position `i` is the one created at position `i` counted from the end, so
/// every live handle is destroyed, and destroyed once. This holds of every
/// sequence of live handles, and so of the one left behind by a start that
/// failed halfway.
pub proof fn teardown_reverses_creation(created: Seq<Resource>)
    ensures
        teardown_plan(created).len() == created.len(),
        forall|i: int|
            0 <= i < created.len() ==> #[trigger] teardown_plan(created)[i] == created[created.len()
                - 1 - i],
        teardown_plan(teardown_plan(created)) == created,
{
    assert(teardown_plan(teardown_plan(created)) =~= created);
}

/// A handle acquired later is destroyed earlier: the plan for the handles
/// with one more on top is that one, followed by the plan for the rest.
pub proof fn teardown_destroys_youngest_first(created: Seq<Resource>, youngest: Resource)
    ensures
        teardown_plan(created.push(youngest)) == seq![youngest] + teardown_plan(created),
{
    assert(teardown_plan(created.push(youngest)) =~= seq![youngest] + teardown_plan(created));
}

/// Among live handles in acquisition order, an older handle is of an
/// earlier kind than a younger one, unless both are image views.
pub proof fn live_handles_follow_rank(
    validation_enabled: bool,
    live: Seq<Resource>,
    older: int,
    younger: int,
)
    requires
        ordered(validation_enabled, live),
        0 <= older < younger < live.len(),
    ensures
        rank(live[older].kind) < rank(live[younger].kind) || (live[older].kind
            == ResourceKind::ImageView && live[younger].kind == ResourceKind::ImageView),
    decreases younger - older,
{
    assert(may_lie_on(validation_enabled, live[younger - 1].kind, live[younger].kind));
    if older < younger - 1 {
        live_handles_follow_rank(validation_enabled, live, older, younger - 1);
    }
}

/// Teardown of handles in acquisition order never destroys a handle before
/// one that was built on it: the pipeline goes first, then its layout, the
/// render pass, the image views, the swapchain, the device, the surface, the
/// debug messenger if there is one, and the instance last.
pub proof fn teardown_follows_dependencies(
    validation_enabled: bool,
    live: Seq<Resource>,
    earlier: int,
    later: int,
)
    requires
        ordered(validation_enabled, live),
        0 <= earlier < later < live.len(),
    ensures
        rank(teardown_plan(live)[earlier].kind) >= rank(teardown_plan(live)[later].kind),
        live.len() > 0 ==> teardown_plan(live).last().kind == ResourceKind::Instance,
{
    live_handles_follow_rank(
        validation_enabled,
        live,
        live.len() - 1 - later,
        live.len() - 1 - earlier,
    );
}

/// A handle of the kind that the next step asks for is always accepted.
pub proof fn next_step_is_acceptable(
    validation_enabled: bool,
    live: Seq<Resource>,
    swapchain_images: nat,
    kind: ResourceKind,
)
    requires
        next_step_for(validation_enabled, live, swapchain_images) == Step::Create(kind),
    ensures
        may_acquire(validation_enabled, live, kind),
{
}

/// The kinds of a full start, in the order in which they are acquired: the
/// instance, the debug messenger where validation is enabled, the surface,
/// the device, the swapchain, a view for each of its images, the render
/// pass, the pipeline layout, the two shader modules, and the pipeline.
pub open spec fn start_order(validation_enabled: bool, swapchain_images: nat) -> Seq<ResourceKind> {
    (if validation_enabled {
        seq![ResourceKind::Instance, ResourceKind::DebugMessenger]
    } else {
        seq![ResourceKind::Instance]
    }) + seq![ResourceKind::Surface, ResourceKind::Device, ResourceKind::Swapchain] + Seq::new(
        swapchain_images,
        |i: int| ResourceKind::ImageView,
    ) + seq![
        ResourceKind::RenderPass,
        ResourceKind::PipelineLayout,
        ResourceKind::VertexShader,
        ResourceKind::FragmentShader,
        ResourceKind::Pipeline,
    ]
}

/// The kinds of the live handles, oldest first.
pub open spec fn kinds_of(live: Seq<Resource>) -> Seq<ResourceKind> {
    live.map_values(|resource: Resource| resource.kind)
}

/// `live` holds the first handles of a full start, and no others.
pub open spec fn is_start_prefix(
    validation_enabled: bool,
    live: Seq<Resource>,
    swapchain_images: nat,
) -> bool {
    &&& live.len() <= start_order(validation_enabled, swapchain_images).len()
    &&& kinds_of(live) == start_order(validation_enabled, swapchain_images).subrange(
        0,
        live.len() as int,
    )
}

/// What stands where in the start order.
proof fn start_order_positions(validation_enabled: bool, swapchain_images: nat)
    ensures
        ({
            let order = start_order(validation_enabled, swapchain_images);
            let lead: int = if validation_enabled {
                2
            } else {
                1
            };
            &&& order.len() == lead + 8 + swapchain_images
            &&& order[0] == ResourceKind::Instance
            &&& validation_enabled ==> order[1] == ResourceKind::DebugMessenger
            &&& order[lead] == ResourceKind::Surface
            &&& order[lead + 1] == ResourceKind::Device
            &&& order[lead + 2] == ResourceKind::Swapchain
            &&& forall|i: int|
                lead + 3 <= i < lead + 3 + swapchain_images ==> #[trigger] order[i]
                    == ResourceKind::ImageView
            &&& order[lead + 3 + swapchain_images] == ResourceKind::RenderPass
            &&& order[lead + 4 + swapchain_images] == ResourceKind::PipelineLayout
            &&& order[lead + 5 + swapchain_images] == ResourceKind::VertexShader
            &&& order[lead + 6 + swapchain_images] == ResourceKind::FragmentShader
            &&& order[lead + 7 + swapchain_images] == ResourceKind::Pipeline
        }),
{
    let head = if validation_enabled {
        seq![ResourceKind::Instance, ResourceKind::DebugMessenger]
    } else {
        seq![ResourceKind::Instance]
    };
    let middle = seq![ResourceKind::Surface, ResourceKind::Device, ResourceKind::Swapchain];
    let views = Seq::new(swapchain_images, |i: int| ResourceKind::ImageView);
    let rest = seq![
        ResourceKind::RenderPass,
        ResourceKind::PipelineLayout,
        ResourceKind::VertexShader,
        ResourceKind::FragmentShader,
        ResourceKind::Pipeline,
    ];
    let order = start_order(validation_enabled, swapchain_images);
    assert(order == head + middle + views + rest);
    let lead = head.len() as int;
    assert forall|i: int| lead + 3 <= i < lead + 3 + swapchain_images implies #[trigger] order[i]
        == ResourceKind::ImageView by {
        assert(order[i] == views[i - lead - 3]);
    }
    assert(order[lead] == middle[0]);
    assert(order[lead + 1] == middle[1]);
    assert(order[lead + 2] == middle[2]);
    assert(order[lead + 3 + swapchain_images] == rest[0]);
    assert(order[lead + 4 + swapchain_images] == rest[1]);
    assert(order[lead + 5 + swapchain_images] == rest[2]);
    assert(order[lead + 6 + swapchain_images] == rest[3]);
    assert(order[lead + 7 + swapchain_images] == rest[4]);
}

/// While the views are being created, their number is the number of handles
/// above the swapchain.
proof fn start_prefix_counts_views(
    validation_enabled: bool,
    live: Seq<Resource>,
    swapchain_images: nat,
    views: nat,
)
    requires
        is_start_prefix(validation_enabled, live, swapchain_images),
        views <= swapchain_images,
        live.len() == (if validation_enabled {
            5nat
        } else {
            4nat
        }) + views,
    ensures
        trailing_image_views(live) == views,
    decreases views,
{
    start_order_positions(validation_enabled, swapchain_images);
    let order = start_order(validation_enabled, swapchain_images);
    assert(live.last().kind == kinds_of(live)[live.len() - 1]);
    assert(kinds_of(live)[live.len() - 1] == order[live.len() - 1]);
    if views > 0 {
        let shorter = live.drop_last();
        assert(kinds_of(shorter) =~= order.subrange(0, shorter.len() as int)) by {
            assert forall|i: int| 0 <= i < shorter.len() implies kinds_of(shorter)[i] == order[i] by {
                assert(kinds_of(live)[i] == order[i]);
            }
        }
        start_prefix_counts_views(
            validation_enabled,
            shorter,
            swapchain_images,
            (views - 1) as nat,
        );
    }
}

/// There is one acquisition order. As long as the live handles are the
/// first of a full start, the next step is to create the handle that comes
/// next in [`start_order`]; once all of them are there, it is to let go of
/// the shader modules. The handles of a start are in order at every point.
pub proof fn start_follows_one_order(
    validation_enabled: bool,
    live: Seq<Resource>,
    swapchain_images: nat,
)
    requires
        is_start_prefix(validation_enabled, live, swapchain_images),
    ensures
        live.len() < start_order(validation_enabled, swapchain_images).len() ==> next_step_for(
            validation_enabled,
            live,
            swapchain_images,
        ) == Step::Create(start_order(validation_enabled, swapchain_images)[live.len() as int]),
        live.len() == start_order(validation_enabled, swapchain_images).len() ==> next_step_for(
            validation_enabled,
            live,
            swapchain_images,
        ) == Step::ReleaseShaderModules,
        ordered(validation_enabled, live),
{
    start_order_positions(validation_enabled, swapchain_images);
    let order = start_order(validation_enabled, swapchain_images);
    let lead: int = if validation_enabled {
        2
    } else {
        1
    };
    assert forall|i: int| 0 <= i < live.len() implies (#[trigger] live[i]).kind == order[i] by {
        assert(kinds_of(live)[i] == order[i]);
    }
    if lead + 2 < live.len() <= lead + 3 + swapchain_images {
        start_prefix_counts_views(
            validation_enabled,
            live,
            swapchain_images,
            (live.len() - lead - 3) as nat,
        );
    }
    if live.len() > 0 {
        assert(live.last().kind == order[live.len() - 1]);
    }
    if live.len() == order.len() {
        assert(live[live.len() - 1].kind == order[live.len() - 1]);
        assert(live[live.len() - 2].kind == order[live.len() - 2]);
        assert(live[live.len() - 3].kind == order[live.len() - 3]);
    }
    assert forall|i: int, j: int| 0 <= i && j == i + 1 && j < live.len() implies may_lie_on(
        validation_enabled,
        (#[trigger] live[i]).kind,
        (#[trigger] live[j]).kind,
    ) by {
        assert(live[i].kind == order[i]);
        assert(live[j].kind == order[j]);
    }
}

/// The kinds of a running application, in the order in which they are
/// destroyed: the pipeline, its layout, the render pass, the image views,
/// the swapchain, the device, the surface, the debug messenger where
/// validation is enabled, and the instance.
pub open spec fn teardown_order(validation_enabled: bool, swapchain_images: nat) -> Seq<
    ResourceKind,
> {
    seq![ResourceKind::Pipeline, ResourceKind::PipelineLayout, ResourceKind::RenderPass]
        + Seq::new(swapchain_images, |i: int| ResourceKind::ImageView) + seq![
        ResourceKind::Swapchain,
        ResourceKind::Device,
        ResourceKind::Surface,
    ] + (if validation_enabled {
        seq![ResourceKind::DebugMessenger, ResourceKind::Instance]
    } else {
        seq![ResourceKind::Instance]
    })
}

/// What stands where in the teardown order.
proof fn teardown_order_positions(validation_enabled: bool, swapchain_images: nat)
    ensures
        ({
            let order = teardown_order(validation_enabled, swapchain_images);
            let views: int = swapchain_images as int;
            let lead: int = if validation_enabled {
                2
            } else {
                1
            };
            &&& order.len() == lead + 6 + views
            &&& order[0] == ResourceKind::Pipeline
            &&& order[1] == ResourceKind::PipelineLayout
            &&& order[2] == ResourceKind::RenderPass
            &&& forall|i: int| 3 <= i < 3 + views ==> #[trigger] order[i] == ResourceKind::ImageView
            &&& order[3 + views] == ResourceKind::Swapchain
            &&& order[4 + views] == ResourceKind::Device
            &&& order[5 + views] == ResourceKind::Surface
            &&& validation_enabled ==> order[6 + views] == ResourceKind::DebugMessenger
            &&& order[lead + 5 + views] == ResourceKind::Instance
        }),
{
    let head = seq![
        ResourceKind::Pipeline,
        ResourceKind::PipelineLayout,
        ResourceKind::RenderPass,
    ];
    let image_views = Seq::new(swapchain_images, |i: int| ResourceKind::ImageView);
    let middle = seq![ResourceKind::Swapchain, ResourceKind::Device, ResourceKind::Surface];
    let rest = if validation_enabled {
        seq![ResourceKind::DebugMessenger, ResourceKind::Instance]
    } else {
        seq![ResourceKind::Instance]
    };
    let order = teardown_order(validation_enabled, swapchain_images);
    let views: int = swapchain_images as int;
    assert(order == head + image_views + middle + rest);
    assert forall|i: int| 3 <= i < 3 + views implies #[trigger] order[i]
        == ResourceKind::ImageView by {
        assert(order[i] == image_views[i - 3]);
    }
    assert(order[0] == head[0]);
    assert(order[1] == head[1]);
    assert(order[2] == head[2]);
    assert(order[3 + views] == middle[0]);
    assert(order[4 + views] == middle[1]);
    assert(order[5 + views] == middle[2]);
    assert(order[6 + views] == rest[0]);
    if validation_enabled {
        assert(order[7 + views] == rest[1]);
    }
}

/// Once a full start has let go of its shader modules, nothing is left to
/// do, and teardown destroys the handles in [`teardown_order`].
pub proof fn running_application_is_torn_down_in_order(
    validation_enabled: bool,
    started: Seq<Resource>,
    swapchain_images: nat,
)
    requires
        kinds_of(started) == start_order(validation_enabled, swapchain_images),
    ensures
        shaders_pending(started),
        ({
            let running = started.subrange(0, started.len() - 3).push(started.last());
            &&& next_step_for(validation_enabled, running, swapchain_images) == Step::Ready
            &&& kinds_of(teardown_plan(running)) == teardown_order(
                validation_enabled,
                swapchain_images,
            )
        }),
{
    start_order_positions(validation_enabled, swapchain_images);
    teardown_order_positions(validation_enabled, swapchain_images);
    let start = start_order(validation_enabled, swapchain_images);
    let order = teardown_order(validation_enabled, swapchain_images);
    assert forall|i: int| 0 <= i < started.len() implies (#[trigger] started[i]).kind
        == start[i] by {
        assert(kinds_of(started)[i] == start[i]);
    }
    let running = started.subrange(0, started.len() - 3).push(started.last());
    let plan = teardown_plan(running);
    assert(running.last() == started.last());
    assert(running[running.len() - 2] == started[started.len() - 4]);
    assert(kinds_of(plan).len() == order.len());
    assert forall|i: int| 0 <= i < order.len() implies kinds_of(plan)[i] == order[i] by {
        assert(plan[i] == running[running.len() - 1 - i]);
        if i > 0 {
            assert(running[running.len() - 1 - i] == started[running.len() - 1 - i]);
        }
    }
    assert(kinds_of(plan) =~= order);
}

} // verus!
