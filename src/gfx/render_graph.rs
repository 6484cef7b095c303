//! The render graph: an ordered list of pass declarations over a registry of
//! owned images. Each frame it resolves every declared attachment, plans the
//! layout transitions each pass needs, and describes the rendering scope of
//! each pass; the caller records those plans and the passes' own commands.
use vstd::prelude::*;

use crate::gfx::image::{
    transition_barrier, with_layout, Extent2D, ImageBarrier, ImageLayout, ImageState,
    ACCESS_COLOR_ATTACHMENT_READ, ACCESS_COLOR_ATTACHMENT_WRITE,
    ACCESS_DEPTH_STENCIL_ATTACHMENT_READ, ACCESS_DEPTH_STENCIL_ATTACHMENT_WRITE,
    STAGE_COLOR_ATTACHMENT_OUTPUT, STAGE_FRAGMENT_SHADER, STAGE_LATE_FRAGMENT_TESTS,
};
use crate::gfx::render_pass::AttachmentInfo;
use crate::gfx::resource::{
    attachment_ids_distinct, position_of, GraphResourceRegistry, ImageAttachment,
    ImageAttachmentInfo, RegistryCreateError, ResourceAccessType, ResourceID,
    ResourceInfoRegistry,
};

verus! {

/// Why a frame could not be rendered.
#[derive(Debug, Clone, Copy, PartialEq, Eq, Structural)]
pub enum RenderGraphRunError {
    InvalidResource,
}

/// `id` names an image of this frame: a swapchain image, or an image that the
/// registry `reg` holds.
pub open spec fn resolvable<I>(reg: Seq<ImageAttachment<I>>, id: ResourceID) -> bool {
    match id {
        ResourceID::Other(u) => position_of(reg, u) is Some,
        _ => true,
    }
}

/// The frame's images under one lookup: the swapchain's color and depth images
/// under their tags, and the registry's images under their identifiers.
pub open spec fn frame_map<I>(
    reg: Seq<ImageAttachment<I>>,
    color: ImageState,
    depth: ImageState,
) -> Map<ResourceID, ImageState> {
    Map::new(
        |id: ResourceID| resolvable(reg, id),
        |id: ResourceID|
            match id {
                ResourceID::SwapchainColorAttachment => color,
                ResourceID::SwapchainDSAttachment => depth,
                ResourceID::Other(u) => match position_of(reg, u) {
                    Some(i) => reg[i].state,
                    None => color,
                },
            },
    )
}

/// The two registries hold the same images and descriptions, in the same
/// order; only the tracked states may differ.
pub open spec fn same_images<I>(a: Seq<ImageAttachment<I>>, b: Seq<ImageAttachment<I>>) -> bool {
    &&& a.len() == b.len()
    &&& forall|i: int| 0 <= i < a.len() ==> a[i].image == b[i].image && a[i].info == b[i].info
}

/// The destination access of a color attachment's transition.
pub open spec fn color_access(a: ResourceAccessType) -> u32 {
    match a {
        ResourceAccessType::ReadOnly => ACCESS_COLOR_ATTACHMENT_READ,
        ResourceAccessType::WriteOnly => ACCESS_COLOR_ATTACHMENT_WRITE,
        ResourceAccessType::ReadWrite => ACCESS_COLOR_ATTACHMENT_READ
            | ACCESS_COLOR_ATTACHMENT_WRITE,
    }
}

/// The barrier that makes `s` a color attachment.
pub open spec fn color_barrier(s: ImageState, a: ResourceAccessType) -> ImageBarrier {
    transition_barrier(
        s,
        ImageLayout::ColorAttachmentOptimal,
        ACCESS_COLOR_ATTACHMENT_WRITE,
        color_access(a),
        STAGE_COLOR_ATTACHMENT_OUTPUT,
        STAGE_COLOR_ATTACHMENT_OUTPUT,
    )
}

/// The barrier that makes `s` a depth/stencil attachment.
pub open spec fn depth_barrier(s: ImageState) -> ImageBarrier {
    transition_barrier(
        s,
        ImageLayout::DepthStencilAttachmentOptimal,
        ACCESS_DEPTH_STENCIL_ATTACHMENT_WRITE,
        ACCESS_DEPTH_STENCIL_ATTACHMENT_READ,
        STAGE_LATE_FRAGMENT_TESTS,
        STAGE_FRAGMENT_SHADER,
    )
}

/// The barriers of one color attachment: one, unless it is a color
/// attachment already.
pub open spec fn color_step_barriers(
    m: Map<ResourceID, ImageState>,
    c: (ResourceID, ResourceAccessType),
) -> Seq<ImageBarrier> {
    if m[c.0].layout != ImageLayout::ColorAttachmentOptimal {
        seq![color_barrier(m[c.0], c.1)]
    } else {
        Seq::empty()
    }
}

/// The frame's images after one color attachment's transition.
pub open spec fn color_step_map(
    m: Map<ResourceID, ImageState>,
    c: (ResourceID, ResourceAccessType),
) -> Map<ResourceID, ImageState> {
    if m[c.0].layout != ImageLayout::ColorAttachmentOptimal {
        m.insert(c.0, with_layout(m[c.0], ImageLayout::ColorAttachmentOptimal))
    } else {
        m
    }
}

/// The frame's images after the transitions of the color attachments `cs`,
/// taken in order.
pub open spec fn colors_map(
    m: Map<ResourceID, ImageState>,
    cs: Seq<(ResourceID, ResourceAccessType)>,
) -> Map<ResourceID, ImageState>
    decreases cs.len(),
{
    if cs.len() == 0 {
        m
    } else {
        color_step_map(colors_map(m, cs.drop_last()), cs.last())
    }
}

/// The barriers of the color attachments `cs`, taken in order.
pub open spec fn colors_barriers(
    m: Map<ResourceID, ImageState>,
    cs: Seq<(ResourceID, ResourceAccessType)>,
) -> Seq<ImageBarrier>
    decreases cs.len(),
{
    if cs.len() == 0 {
        Seq::empty()
    } else {
        colors_barriers(m, cs.drop_last()) + color_step_barriers(
            colors_map(m, cs.drop_last()),
            cs.last(),
        )
    }
}

/// The barriers of a depth/stencil attachment: one, unless it is one already.
pub open spec fn depth_barriers(m: Map<ResourceID, ImageState>, d: Option<ResourceID>) -> Seq<
    ImageBarrier,
> {
    match d {
        Some(id) => if m[id].layout != ImageLayout::DepthStencilAttachmentOptimal {
            seq![depth_barrier(m[id])]
        } else {
            Seq::empty()
        },
        None => Seq::empty(),
    }
}

/// The frame's images after a depth/stencil attachment's transition.
pub open spec fn depth_map(m: Map<ResourceID, ImageState>, d: Option<ResourceID>) -> Map<
    ResourceID,
    ImageState,
> {
    match d {
        Some(id) => if m[id].layout != ImageLayout::DepthStencilAttachmentOptimal {
            m.insert(id, with_layout(m[id], ImageLayout::DepthStencilAttachmentOptimal))
        } else {
            m
        },
        None => m,
    }
}

/// The frame's images after the transitions of pass `p`.
pub open spec fn pass_map(m: Map<ResourceID, ImageState>, p: AttachmentInfo) -> Map<
    ResourceID,
    ImageState,
> {
    depth_map(colors_map(m, p.color_attachments@), p.depth_stencil_attachment)
}

/// The barriers that pass `p` needs: its color attachments' in declared order,
/// then its depth/stencil attachment's.
pub open spec fn pass_barriers(m: Map<ResourceID, ImageState>, p: AttachmentInfo) -> Seq<
    ImageBarrier,
> {
    colors_barriers(m, p.color_attachments@) + depth_barriers(
        colors_map(m, p.color_attachments@),
        p.depth_stencil_attachment,
    )
}

/// Every attachment that `p` declares names an image of the frame `m`.
pub open spec fn pass_resolvable(m: Map<ResourceID, ImageState>, p: AttachmentInfo) -> bool {
    &&& forall|j: int|
        0 <= j < p.color_attachments@.len() ==> m.contains_key(
            #[trigger] p.color_attachments@[j].0,
        )
    &&& match p.depth_stencil_attachment {
        Some(id) => m.contains_key(id),
        None => true,
    }
}

/// One attachment of a rendering scope: cleared on load, stored on store.
#[derive(Debug, Clone, Copy, PartialEq, Eq, Structural)]
pub struct RenderingAttachment {
    pub view: u64,
    pub layout: ImageLayout,
}

/// The attachment entry of an image in its current state.
pub open spec fn attachment_entry(s: ImageState) -> RenderingAttachment {
    RenderingAttachment { view: s.view, layout: s.layout }
}

/// What to record for one pass: its barriers, then a rendering scope over
/// `render_area` with its attachments, inside which the pass records its own
/// commands.
#[derive(Debug)]
pub struct PassPlan {
    pub barriers: Vec<ImageBarrier>,
    pub render_area: Extent2D,
    pub color_attachments: Vec<RenderingAttachment>,
    pub depth_attachment: Option<RenderingAttachment>,
}

/// `plan` is the plan of pass `p` on the frame `m`, over `area`.
pub open spec fn is_pass_plan(
    plan: PassPlan,
    m: Map<ResourceID, ImageState>,
    p: AttachmentInfo,
    area: Extent2D,
) -> bool {
    let after = pass_map(m, p);
    &&& plan.barriers@ == pass_barriers(m, p)
    &&& plan.render_area == area
    &&& plan.color_attachments@.len() == p.color_attachments@.len()
    &&& forall|j: int|
        0 <= j < p.color_attachments@.len() ==> plan.color_attachments@[j] == attachment_entry(
            after[p.color_attachments@[j].0],
        )
    &&& plan.depth_attachment == match p.depth_stencil_attachment {
        Some(id) => Some(attachment_entry(after[id])),
        None => None,
    }
}


/// The color transitions of `cs` leave the frame's identifiers as they were
/// and every image that `cs` declares in the color-attachment layout.
proof fn lemma_colors_ready(m: Map<ResourceID, ImageState>, cs: Seq<(ResourceID, ResourceAccessType)>)
    requires
        forall|j: int| 0 <= j < cs.len() ==> m.contains_key(#[trigger] cs[j].0),
    ensures
        colors_map(m, cs).dom() == m.dom(),
        forall|j: int|
            0 <= j < cs.len() ==> colors_map(m, cs)[#[trigger] cs[j].0].layout
                == ImageLayout::ColorAttachmentOptimal,
    decreases cs.len(),
{
    if cs.len() > 0 {
        let prev = cs.drop_last();
        assert forall|j: int| 0 <= j < prev.len() implies m.contains_key(#[trigger] prev[j].0) by {
            assert(prev[j] == cs[j]);
        }
        lemma_colors_ready(m, prev);
        let mp = colors_map(m, prev);
        let last = cs.last();
        assert(m.contains_key(cs[cs.len() - 1].0));
        assert(colors_map(m, cs) == color_step_map(mp, last));
        assert(colors_map(m, cs).dom() =~= m.dom());
        assert forall|j: int| 0 <= j < cs.len() implies colors_map(m, cs)[#[trigger] cs[j].0].layout
            == ImageLayout::ColorAttachmentOptimal by {
            if j < cs.len() - 1 {
                assert(cs[j] == prev[j]);
            }
        }
    }
}

/// Inside a pass's rendering scope, each of its color attachments is in the
/// color-attachment layout, unless the pass also declares that image as its
/// depth/stencil attachment, and its depth/stencil attachment is in the
/// depth/stencil layout.
pub proof fn lemma_pass_attachments_ready(
    plan: PassPlan,
    m: Map<ResourceID, ImageState>,
    p: AttachmentInfo,
    area: Extent2D,
)
    requires
        is_pass_plan(plan, m, p, area),
        pass_resolvable(m, p),
    ensures
        forall|j: int|
            0 <= j < p.color_attachments@.len() && p.depth_stencil_attachment != Some(
                #[trigger] p.color_attachments@[j].0,
            ) ==> plan.color_attachments@[j].layout == ImageLayout::ColorAttachmentOptimal,
        plan.depth_attachment matches Some(d) ==> d.layout
            == ImageLayout::DepthStencilAttachmentOptimal,
{
    let cs = p.color_attachments@;
    lemma_colors_ready(m, cs);
    let mc = colors_map(m, cs);
    assert forall|j: int|
        0 <= j < cs.len() && p.depth_stencil_attachment != Some(#[trigger] cs[j].0) implies plan.color_attachments@[j].layout
            == ImageLayout::ColorAttachmentOptimal by {
        assert(mc[cs[j].0].layout == ImageLayout::ColorAttachmentOptimal);
    }
}

/// In a registry without repeated identifiers, the position of an identifier
/// is the one position that holds it.
proof fn lemma_position<I>(s: Seq<ImageAttachment<I>>, u: u128, k: int)
    requires
        attachment_ids_distinct(s),
        0 <= k < s.len(),
        s[k].info.id == u,
    ensures
        position_of(s, u) == Some(k),
{
    assert(exists|i: int| 0 <= i < s.len() && s[i].info.id == u);
    let c = choose|i: int| 0 <= i < s.len() && s[i].info.id == u;
    if c < k {
        assert(s[c].info.id != s[k].info.id);
    } else if c > k {
        assert(s[k].info.id != s[c].info.id);
    }
}

/// Registries that hold the same images place each identifier alike.
proof fn lemma_same_positions<I>(a: Seq<ImageAttachment<I>>, b: Seq<ImageAttachment<I>>, u: u128)
    requires
        attachment_ids_distinct(a),
        same_images(a, b),
    ensures
        attachment_ids_distinct(b),
        position_of(a, u) == position_of(b, u),
{
    assert forall|i: int, j: int| 0 <= i < j < b.len() implies b[i].info.id != b[j].info.id by {
        assert(a[i].info == b[i].info);
        assert(a[j].info == b[j].info);
    }
    if exists|i: int| 0 <= i < a.len() && a[i].info.id == u {
        let k = choose|i: int| 0 <= i < a.len() && a[i].info.id == u;
        lemma_position(a, u, k);
        assert(a[k].info == b[k].info);
        lemma_position(b, u, k);
    } else {
        assert forall|i: int| 0 <= i < b.len() implies b[i].info.id != u by {
            assert(a[i].info == b[i].info);
        }
    }
}

/// Registries that hold the same images give the frame the same identifiers.
proof fn lemma_same_domain<I>(
    a: Seq<ImageAttachment<I>>,
    b: Seq<ImageAttachment<I>>,
    c1: ImageState,
    d1: ImageState,
    c2: ImageState,
    d2: ImageState,
)
    requires
        attachment_ids_distinct(a),
        same_images(a, b),
    ensures
        frame_map(a, c1, d1).dom() == frame_map(b, c2, d2).dom(),
{
    assert forall|id: ResourceID| resolvable(a, id) == resolvable(b, id) by {
        if let ResourceID::Other(u) = id {
            lemma_same_positions(a, b, u);
        }
    }
    assert(frame_map(a, c1, d1).dom() =~= frame_map(b, c2, d2).dom());
}

/// The current state of the frame's image `id`, if `id` names one: the
/// swapchain's images under their tags, the registry's under their identifiers.
pub fn resolve<I>(
    reg: &GraphResourceRegistry<I>,
    color: &ImageState,
    depth: &ImageState,
    id: ResourceID,
) -> (r: Option<ImageState>)
    ensures
        frame_map(reg@, *color, *depth).contains_key(id) ==> r == Some(
            frame_map(reg@, *color, *depth)[id],
        ),
        !frame_map(reg@, *color, *depth).contains_key(id) ==> r is None,
{
    match id {
        ResourceID::SwapchainColorAttachment => Some(*color),
        ResourceID::SwapchainDSAttachment => Some(*depth),
        ResourceID::Other(u) => reg.state_of(u),
    }
}

/// Replaces the state of the frame's image `id`.
fn store<I>(
    reg: &mut GraphResourceRegistry<I>,
    color: &mut ImageState,
    depth: &mut ImageState,
    id: ResourceID,
    s: ImageState,
)
    requires
        old(reg).wf(),
        frame_map(old(reg)@, *old(color), *old(depth)).contains_key(id),
    ensures
        final(reg).wf(),
        same_images(old(reg)@, final(reg)@),
        frame_map(final(reg)@, *final(color), *final(depth)) == frame_map(
            old(reg)@,
            *old(color),
            *old(depth),
        ).insert(id, s),
{
    let ghost m0 = frame_map(reg@, *color, *depth);
    match id {
        ResourceID::SwapchainColorAttachment => {
            *color = s;
            assert(frame_map(reg@, *color, *depth) =~= m0.insert(id, s));
        },
        ResourceID::SwapchainDSAttachment => {
            *depth = s;
            assert(frame_map(reg@, *color, *depth) =~= m0.insert(id, s));
        },
        ResourceID::Other(u) => {
            let ghost before = reg@;
            match reg.position(u) {
                Some(p) => {
                    reg.set_state(p, s);
                    proof {
                        let after = reg@;
                        assert(same_images(before, after));
                        let m1 = frame_map(after, *color, *depth);
                        assert forall|k: ResourceID| #[trigger] resolvable(after, k) == resolvable(before, k)
                            by {
                            if let ResourceID::Other(v) = k {
                                lemma_same_positions(before, after, v);
                            }
                        }
                        assert forall|k: ResourceID| m1.contains_key(k) implies m1[k] == m0.insert(
                            id,
                            s,
                        )[k] by {
                            if let ResourceID::Other(v) = k {
                                lemma_same_positions(before, after, v);
                                if v != u {
                                    let q = position_of(before, v)->Some_0;
                                    if q == p as int {
                                        lemma_position(before, u, p as int);
                                        lemma_position(before, v, q);
                                    }
                                }
                            }
                        }
                        assert(m1 =~= m0.insert(id, s));
                    }
                },
                None => {},
            }
        },
    }
}


/// The destination access of a color attachment's transition.
fn color_access_of(a: ResourceAccessType) -> (r: u32)
    ensures
        r == color_access(a),
{
    match a {
        ResourceAccessType::ReadOnly => ACCESS_COLOR_ATTACHMENT_READ,
        ResourceAccessType::WriteOnly => ACCESS_COLOR_ATTACHMENT_WRITE,
        ResourceAccessType::ReadWrite => ACCESS_COLOR_ATTACHMENT_READ
            | ACCESS_COLOR_ATTACHMENT_WRITE,
    }
}

/// Resolves the attachments of pass `p`, issues the transitions they need and
/// describes its rendering scope over `area`. Fails when an attachment names
/// no image of the frame.
fn plan_pass<I>(
    reg: &mut GraphResourceRegistry<I>,
    color: &mut ImageState,
    depth: &mut ImageState,
    p: &AttachmentInfo,
    area: Extent2D,
) -> (r: Result<PassPlan, RenderGraphRunError>)
    requires
        old(reg).wf(),
    ensures
        final(reg).wf(),
        same_images(old(reg)@, final(reg)@),
        r is Ok <==> pass_resolvable(frame_map(old(reg)@, *old(color), *old(depth)), *p),
        r matches Ok(plan) ==> {
            &&& is_pass_plan(plan, frame_map(old(reg)@, *old(color), *old(depth)), *p, area)
            &&& frame_map(final(reg)@, *final(color), *final(depth)) == pass_map(
                frame_map(old(reg)@, *old(color), *old(depth)),
                *p,
            )
        },
{
    let ghost m0 = frame_map(reg@, *color, *depth);
    let ghost reg0 = reg@;
    let ghost cs = p.color_attachments@;
    let mut barriers: Vec<ImageBarrier> = Vec::new();
    let mut j: usize = 0;
    while j < p.color_attachments.len()
        invariant
            reg.wf(),
            attachment_ids_distinct(reg0),
            reg0 == old(reg)@,
            same_images(reg0, reg@),
            m0 == frame_map(reg0, *old(color), *old(depth)),
            cs == p.color_attachments@,
            j <= cs.len(),
            frame_map(reg@, *color, *depth) == colors_map(m0, cs.take(j as int)),
            barriers@ == colors_barriers(m0, cs.take(j as int)),
            forall|k: int| 0 <= k < j ==> m0.contains_key(#[trigger] cs[k].0),
        decreases cs.len() - j,
    {
        let (id, a) = p.color_attachments[j];
        proof {
            lemma_same_domain(reg0, reg@, *old(color), *old(depth), *color, *depth);
            assert(cs.take(j as int + 1).drop_last() =~= cs.take(j as int));
            assert(cs.take(j as int + 1).last() == cs[j as int]);
        }
        match resolve(reg, color, depth, id) {
            None => {
                assert(!m0.contains_key(p.color_attachments@[j as int].0));
                return Err(RenderGraphRunError::InvalidResource);
            },
            Some(st) => {
                if st.layout != ImageLayout::ColorAttachmentOptimal {
                    let mut next = st;
                    next.cmd_layout_transition(
                        &mut barriers,
                        ImageLayout::ColorAttachmentOptimal,
                        ACCESS_COLOR_ATTACHMENT_WRITE,
                        color_access_of(a),
                        STAGE_COLOR_ATTACHMENT_OUTPUT,
                        STAGE_COLOR_ATTACHMENT_OUTPUT,
                    );
                    store(reg, color, depth, id, next);
                }
            },
        }
        j = j + 1;
    }
    proof {
        assert(cs.take(cs.len() as int) =~= cs);
        lemma_same_domain(reg0, reg@, *old(color), *old(depth), *color, *depth);
    }
    let ghost m_colors = frame_map(reg@, *color, *depth);
    match p.depth_stencil_attachment {
        Some(id) => match resolve(reg, color, depth, id) {
            None => {
                return Err(RenderGraphRunError::InvalidResource);
            },
            Some(st) => {
                if st.layout != ImageLayout::DepthStencilAttachmentOptimal {
                    let mut next = st;
                    next.cmd_layout_transition(
                        &mut barriers,
                        ImageLayout::DepthStencilAttachmentOptimal,
                        ACCESS_DEPTH_STENCIL_ATTACHMENT_WRITE,
                        ACCESS_DEPTH_STENCIL_ATTACHMENT_READ,
                        STAGE_LATE_FRAGMENT_TESTS,
                        STAGE_FRAGMENT_SHADER,
                    );
                    store(reg, color, depth, id, next);
                }
            },
        },
        None => {},
    }
    proof {
        lemma_same_domain(reg0, reg@, *old(color), *old(depth), *color, *depth);
        assert(frame_map(reg@, *color, *depth) == pass_map(m0, *p));
        assert(barriers@ == pass_barriers(m0, *p));
    }
    let ghost after = frame_map(reg@, *color, *depth);
    let mut color_attachments: Vec<RenderingAttachment> = Vec::new();
    let mut k: usize = 0;
    while k < p.color_attachments.len()
        invariant
            reg.wf(),
            cs == p.color_attachments@,
            k <= cs.len(),
            after == frame_map(reg@, *color, *depth),
            after.dom() == m0.dom(),
            forall|i: int| 0 <= i < cs.len() ==> m0.contains_key(#[trigger] cs[i].0),
            color_attachments@.len() == k,
            forall|i: int|
                0 <= i < k ==> color_attachments@[i] == attachment_entry(after[cs[i].0]),
        decreases cs.len() - k,
    {
        let id = p.color_attachments[k].0;
        assert(m0.contains_key(cs[k as int].0));
        match resolve(reg, color, depth, id) {
            Some(st) => {
                color_attachments.push(RenderingAttachment { view: st.view, layout: st.layout });
            },
            None => {
                return Err(RenderGraphRunError::InvalidResource);
            },
        }
        k = k + 1;
    }
    let depth_attachment = match p.depth_stencil_attachment {
        Some(id) => match resolve(reg, color, depth, id) {
            Some(st) => Some(RenderingAttachment { view: st.view, layout: st.layout }),
            None => {
                return Err(RenderGraphRunError::InvalidResource);
            },
        },
        None => None,
    };
    Ok(PassPlan { barriers, render_area: area, color_attachments, depth_attachment })
}


/// The frame's images after the transitions of the passes `ps`, in order.
pub open spec fn passes_map(m: Map<ResourceID, ImageState>, ps: Seq<AttachmentInfo>) -> Map<
    ResourceID,
    ImageState,
>
    decreases ps.len(),
{
    if ps.len() == 0 {
        m
    } else {
        pass_map(passes_map(m, ps.drop_last()), ps.last())
    }
}

/// What a render graph is built from: its pass declarations in order, and
/// the descriptions of the images it will own.
pub struct RenderGraphInfo {
    pub passes: Vec<AttachmentInfo>,
    pub resource_infos: ResourceInfoRegistry,
}

impl RenderGraphInfo {
    /// A graph description with no pass.
    pub fn new(resources: ResourceInfoRegistry) -> (r: Self)
        ensures
            r.passes@ == Seq::<AttachmentInfo>::empty(),
            r.resource_infos == resources,
    {
        RenderGraphInfo { passes: Vec::new(), resource_infos: resources }
    }

    /// Appends a pass, which runs after those already declared.
    pub fn push_render_pass(self, pass: AttachmentInfo) -> (r: Self)
        ensures
            r.passes@ == self.passes@.push(pass),
            r.resource_infos == self.resource_infos,
    {
        let mut s = self;
        s.passes.push(pass);
        s
    }
}

/// Why a render graph could not be built.
#[derive(Debug)]
pub enum RenderGraphCreateError<E> {
    ResourceCreation(RegistryCreateError<E>),
}

/// An ordered list of pass declarations and the registry of the images the
/// graph owns.
pub struct RenderGraph<I> {
    pub passes: Vec<AttachmentInfo>,
    pub resources: GraphResourceRegistry<I>,
}

impl<I> RenderGraph<I> {
    /// The graph's registry holds no identifier twice.
    pub open spec fn wf(&self) -> bool {
        self.resources.wf()
    }

    /// The graph that is bound before any other: no pass, no image.
    pub fn empty() -> (r: Self)
        ensures
            r.wf(),
            r.passes@ == Seq::<AttachmentInfo>::empty(),
            r.resources@ == Seq::<ImageAttachment<I>>::empty(),
    {
        RenderGraph { passes: Vec::new(), resources: GraphResourceRegistry::default() }
    }

    /// Builds a graph from its description, making every described image with
    /// `make`; all or nothing, as `ResourceInfoRegistry::create_resources`.
    pub fn new<E, F: Fn(&ImageAttachmentInfo) -> Result<(I, ImageState), E>>(
        info: RenderGraphInfo,
        make: F,
    ) -> (r: Result<Self, RenderGraphCreateError<E>>)
        requires
            forall|i: int|
                0 <= i < info.resource_infos@.len() ==> make.requires(
                    (&info.resource_infos@[i],),
                ),
        ensures
            match r {
                Ok(g) => {
                    &&& g.wf()
                    &&& g.passes@ == info.passes@
                    &&& g.resources@.len() == info.resource_infos@.len()
                    &&& forall|i: int|
                        0 <= i < info.resource_infos@.len() ==> {
                            &&& g.resources@[i].info == info.resource_infos@[i]
                            &&& make.ensures(
                                (&info.resource_infos@[i],),
                                Ok::<(I, ImageState), E>(
                                    (g.resources@[i].image, g.resources@[i].state),
                                ),
                            )
                        }
                },
                Err(err) => match err {
                    RenderGraphCreateError::ResourceCreation(
                        RegistryCreateError::ImageAttachmentCreation(e),
                    ) => exists|i: int|
                        0 <= i < info.resource_infos@.len() && make.ensures(
                            (&info.resource_infos@[i],),
                            Err::<(I, ImageState), E>(e),
                        ),
                },
            },
    {
        match info.resource_infos.create_resources(make) {
            Ok(resources) => Ok(RenderGraph { passes: info.passes, resources }),
            Err(e) => Err(RenderGraphCreateError::ResourceCreation(e)),
        }
    }

    /// Plans one frame: for each pass in declared order, resolves its
    /// attachments against the graph's images and the swapchain images of
    /// this frame, issues the layout transitions they need, and describes its
    /// rendering scope over the swapchain color image's extent. Fails with
    /// `InvalidResource` when a pass declares an attachment that names no
    /// image of the frame.
    pub fn render(
        &mut self,
        swapchain_color: &mut ImageState,
        swapchain_depth: &mut ImageState,
    ) -> (r: Result<Vec<PassPlan>, RenderGraphRunError>)
        ensures
            final(self).wf(),
            final(self).passes == old(self).passes,
            same_images(old(self).resources@, final(self).resources@),
            r is Ok <==> forall|i: int|
                0 <= i < old(self).passes@.len() ==> pass_resolvable(
                    frame_map(old(self).resources@, *old(swapchain_color), *old(swapchain_depth)),
                    #[trigger] old(self).passes@[i],
                ),
            r matches Ok(plans) ==> {
                let m0 = frame_map(
                    old(self).resources@,
                    *old(swapchain_color),
                    *old(swapchain_depth),
                );
                let ps = old(self).passes@;
                &&& plans@.len() == ps.len()
                &&& forall|i: int|
                    0 <= i < ps.len() ==> is_pass_plan(
                        #[trigger] plans@[i],
                        passes_map(m0, ps.take(i)),
                        ps[i],
                        old(swapchain_color).extent_2d,
                    )
                &&& frame_map(final(self).resources@, *final(swapchain_color), *final(swapchain_depth))
                    == passes_map(m0, ps)
            },
    {
        proof {
            use_type_invariant(&self.resources);
            self.resources.lemma_wf();
        }
        let area = swapchain_color.extent_2d;
        let ghost m0 = frame_map(self.resources@, *swapchain_color, *swapchain_depth);
        let ghost reg0 = self.resources@;
        let ghost ps = self.passes@;
        let mut plans: Vec<PassPlan> = Vec::new();
        let mut i: usize = 0;
        while i < self.passes.len()
            invariant
                self.resources.wf(),
                attachment_ids_distinct(reg0),
                reg0 == old(self).resources@,
                ps == old(self).passes@,
                self.passes == old(self).passes,
                m0 == frame_map(reg0, *old(swapchain_color), *old(swapchain_depth)),
                area == old(swapchain_color).extent_2d,
                same_images(reg0, self.resources@),
                i <= ps.len(),
                frame_map(self.resources@, *swapchain_color, *swapchain_depth) == passes_map(
                    m0,
                    ps.take(i as int),
                ),
                plans@.len() == i,
                forall|k: int|
                    0 <= k < i ==> is_pass_plan(
                        #[trigger] plans@[k],
                        passes_map(m0, ps.take(k)),
                        ps[k],
                        area,
                    ),
                forall|k: int| 0 <= k < i ==> pass_resolvable(m0, #[trigger] ps[k]),
            decreases ps.len() - i,
        {
            let ghost before = self.resources@;
            proof {
                lemma_same_domain(reg0, before, *old(swapchain_color), *old(swapchain_depth), *swapchain_color, *swapchain_depth);
                assert(ps.take(i as int + 1).drop_last() =~= ps.take(i as int));
                assert(ps.take(i as int + 1).last() == ps[i as int]);
            }
            let ghost mi = frame_map(self.resources@, *swapchain_color, *swapchain_depth);
            match plan_pass(
                &mut self.resources,
                swapchain_color,
                swapchain_depth,
                &self.passes[i],
                area,
            ) {
                Ok(plan) => {
                    plans.push(plan);
                    proof {
                        assert(pass_resolvable(mi, ps[i as int]));
                        assert(pass_resolvable(m0, ps[i as int]));
                        assert forall|k: int| 0 <= k < i + 1 implies is_pass_plan(
                            #[trigger] plans@[k],
                            passes_map(m0, ps.take(k)),
                            ps[k],
                            area,
                        ) by {
                            if k < i {
                            }
                        }
                    }
                },
                Err(e) => {
                    proof {
                        assert(!pass_resolvable(mi, ps[i as int]));
                        assert(!pass_resolvable(m0, ps[i as int]));
                    }
                    return Err(e);
                },
            }
            i = i + 1;
        }
        proof {
            assert(ps.take(ps.len() as int) =~= ps);
        }
        Ok(plans)
    }
}

} // verus!
