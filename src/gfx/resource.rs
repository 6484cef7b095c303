//! Resource identifiers, attachment descriptions, and the two registries of the
//! render graph: descriptions before they are materialized, and the owned images
//! after.
use vstd::prelude::*;

use crate::gfx::image::{
    Extent2D, Extent3D, ImageState, FORMAT_UNDEFINED, USAGE_COLOR_ATTACHMENT,
};

verus! {

/// Names one image that a render pass reads or writes: one of the two images
/// that the swapchain provides each frame, or an image of the graph's own.
#[derive(Debug, Clone, Copy, PartialEq, Eq, Structural, Hash)]
pub enum ResourceID {
    SwapchainColorAttachment,
    SwapchainDSAttachment,
    Other(u128),
}

/// How a pass accesses a color attachment.
#[derive(Debug, Clone, Copy, PartialEq, Eq, Structural)]
pub enum ResourceAccessType {
    ReadOnly,
    WriteOnly,
    ReadWrite,
}

/// The size policy of an attachment: the swapchain's extent, or a fixed one.
#[derive(Debug, Clone, Copy, PartialEq, Eq, Structural)]
pub enum AttachmentSize {
    SwapchainBased,
    Custom(Extent3D),
}

/// Relies on uuid::Uuid::new_v4, read as an integer by Uuid::as_u128: a fresh
/// random identifier. Nothing is promised of its value.
#[verifier::external_body]
fn fresh_id() -> (r: u128) {
    uuid::Uuid::new_v4().as_u128()
}

/// The description of an image that a render graph owns: its name, size
/// policy, format, usage and number of array layers, and the identifier that
/// it was given when it was made.
#[derive(Debug)]
pub struct ImageAttachmentInfo {
    pub id: u128,
    pub name: String,
    pub size: AttachmentSize,
    pub format: i32,
    pub usage: u32,
    pub layer_count: u32,
}

impl Default for ImageAttachmentInfo {
    /// A nameless, swapchain-sized, single-layer color attachment of undefined
    /// format, under a fresh identifier.
    fn default() -> (r: Self)
        ensures
            r.name@ == Seq::<char>::empty(),
            r.size == AttachmentSize::SwapchainBased,
            r.format == FORMAT_UNDEFINED,
            r.usage == USAGE_COLOR_ATTACHMENT,
            r.layer_count == 1,
    {
        ImageAttachmentInfo {
            id: fresh_id(),
            name: String::new(),
            size: AttachmentSize::SwapchainBased,
            format: FORMAT_UNDEFINED,
            usage: USAGE_COLOR_ATTACHMENT,
            layer_count: 1,
        }
    }
}

impl Clone for ImageAttachmentInfo {
    /// The same description under a fresh identifier: a clone never aliases
    /// the description it was made from.
    fn clone(&self) -> (r: Self)
        ensures
            r.name == self.name,
            r.size == self.size,
            r.format == self.format,
            r.usage == self.usage,
            r.layer_count == self.layer_count,
    {
        ImageAttachmentInfo {
            id: fresh_id(),
            name: self.name.clone(),
            size: self.size,
            format: self.format,
            usage: self.usage,
            layer_count: self.layer_count,
        }
    }
}

impl ImageAttachmentInfo {
    /// The identifier under which the graph knows this attachment.
    pub fn id(&self) -> (r: ResourceID)
        ensures
            r == ResourceID::Other(self.id),
    {
        ResourceID::Other(self.id)
    }

    /// A default description with the given name.
    pub fn new(name: &str) -> (r: Self)
        ensures
            r.name@ == name@,
            r.size == AttachmentSize::SwapchainBased,
            r.format == FORMAT_UNDEFINED,
            r.usage == USAGE_COLOR_ATTACHMENT,
            r.layer_count == 1,
    {
        Self::default().name(name)
    }

    pub fn name(self, name: &str) -> (r: Self)
        ensures
            r == (Self { name: r.name, ..self }),
            r.name@ == name@,
    {
        let mut s = self;
        s.name = name.to_owned();
        s
    }

    pub fn size(self, size: AttachmentSize) -> (r: Self)
        ensures
            r == (Self { size, ..self }),
    {
        let mut s = self;
        s.size = size;
        s
    }

    pub fn format(self, format: i32) -> (r: Self)
        ensures
            r == (Self { format, ..self }),
    {
        let mut s = self;
        s.format = format;
        s
    }

    pub fn usage(self, usage: u32) -> (r: Self)
        ensures
            r == (Self { usage, ..self }),
    {
        let mut s = self;
        s.usage = usage;
        s
    }

    pub fn layer_count(self, layer_count: u32) -> (r: Self)
        ensures
            r == (Self { layer_count, ..self }),
    {
        let mut s = self;
        s.layer_count = layer_count;
        s
    }
}


/// The identifiers of `s` are pairwise distinct.
pub open spec fn ids_distinct(s: Seq<ImageAttachmentInfo>) -> bool {
    forall|i: int, j: int| 0 <= i < j < s.len() ==> s[i].id != s[j].id
}

/// Some description in `s` has identifier `u`.
pub open spec fn has_id(s: Seq<ImageAttachmentInfo>, u: u128) -> bool {
    exists|i: int| 0 <= i < s.len() && s[i].id == u
}

/// What adding `info` to a registry holding `before` does: a description whose
/// identifier is held already is refused and nothing changes; any other is
/// appended, and its identifier returned.
pub open spec fn add_outcome(
    before: Seq<ImageAttachmentInfo>,
    info: ImageAttachmentInfo,
    after: Seq<ImageAttachmentInfo>,
    r: Result<ResourceID, ResourceInfoInsertError>,
) -> bool {
    if has_id(before, info.id) {
        &&& r == Err::<ResourceID, _>(ResourceInfoInsertError::AlreadyPresent)
        &&& after == before
    } else {
        &&& r == Ok::<_, ResourceInfoInsertError>(ResourceID::Other(info.id))
        &&& after == before.push(info)
    }
}

/// The build-time registry of attachment descriptions, keyed by their
/// identifiers. Its view is the sequence of descriptions it holds, whose
/// identifiers are pairwise distinct.
#[derive(Debug)]
pub struct ResourceInfoRegistry {
    infos: Vec<ImageAttachmentInfo>,
}

/// Why a description was not added to a registry.
#[derive(Debug, Clone, Copy, PartialEq, Eq, Structural)]
pub enum ResourceInfoInsertError {
    AlreadyPresent,
}

impl View for ResourceInfoRegistry {
    type V = Seq<ImageAttachmentInfo>;

    closed spec fn view(&self) -> Seq<ImageAttachmentInfo> {
        self.infos@
    }
}

impl Default for ResourceInfoRegistry {
    fn default() -> (r: Self)
        ensures
            r@ == Seq::<ImageAttachmentInfo>::empty(),
    {
        Self::new()
    }
}

impl ResourceInfoRegistry {
    #[verifier::type_invariant]
    pub closed spec fn inv(&self) -> bool {
        ids_distinct(self.infos@)
    }

    /// The registry holds no two descriptions under one identifier.
    pub open spec fn wf(&self) -> bool {
        ids_distinct(self@)
    }

    /// The type's invariant is well-formedness.
    pub proof fn lemma_wf(&self)
        requires
            self.inv(),
        ensures
            self.wf(),
    {
    }

    /// An empty registry.
    pub fn new() -> (r: Self)
        ensures
            r@ == Seq::<ImageAttachmentInfo>::empty(),
            r.wf(),
    {
        ResourceInfoRegistry { infos: Vec::new() }
    }

    /// The number of descriptions held.
    pub fn len(&self) -> (r: usize)
        ensures
            r == self@.len(),
    {
        self.infos.len()
    }

    /// Whether a description with identifier `u` is held.
    pub fn contains(&self, u: u128) -> (r: bool)
        ensures
            r == has_id(self@, u),
    {
        let mut i: usize = 0;
        while i < self.infos.len()
            invariant
                i <= self.infos@.len(),
                forall|k: int| 0 <= k < i ==> self.infos@[k].id != u,
            decreases self.infos@.len() - i,
        {
            if self.infos[i].id == u {
                return true;
            }
            i = i + 1;
        }
        false
    }

    /// Adds a description under its own identifier and returns that
    /// identifier. A description whose identifier is already held is refused,
    /// and the registry is left as it was.
    pub fn add_image_attachment(&mut self, info: ImageAttachmentInfo) -> (r: Result<
        ResourceID,
        ResourceInfoInsertError,
    >)
        ensures
            final(self).wf(),
            add_outcome(old(self)@, info, final(self)@, r),
    {
        proof {
            use_type_invariant(&*self);
        }
        let u = info.id;
        if self.contains(u) {
            return Err(ResourceInfoInsertError::AlreadyPresent);
        }
        let mut infos: Vec<ImageAttachmentInfo> = Vec::new();
        std::mem::swap(&mut infos, &mut self.infos);
        infos.push(info);
        proof {
            let s = infos@;
            assert forall|i: int, j: int| 0 <= i < j < s.len() implies s[i].id != s[j].id by {
                if j == s.len() - 1 {
                    assert(s[i] == old(self).infos@[i]);
                }
            }
        }
        self.infos = infos;
        Ok(ResourceID::Other(u))
    }
}


/// An image that the render graph owns, with its tracked state and the
/// description it was made from. `image` is whatever keeps the GPU image
/// alive; dropping it releases the image.
pub struct ImageAttachment<I> {
    pub image: I,
    pub state: ImageState,
    pub info: ImageAttachmentInfo,
}

/// Why a registry's descriptions could not all be made into images: the error
/// of the first one that failed.
#[derive(Debug)]
pub enum RegistryCreateError<E> {
    ImageAttachmentCreation(E),
}

/// The runtime registry: the images of a render graph, each under the
/// identifier of its description. Its view is the sequence of attachments,
/// whose identifiers are pairwise distinct.
pub struct GraphResourceRegistry<I> {
    attachments: Vec<ImageAttachment<I>>,
}

/// The identifiers of the attachments in `s` are pairwise distinct.
pub open spec fn attachment_ids_distinct<I>(s: Seq<ImageAttachment<I>>) -> bool {
    forall|i: int, j: int| 0 <= i < j < s.len() ==> s[i].info.id != s[j].info.id
}

/// The position of the attachment with identifier `u` in `s`, if any.
pub open spec fn position_of<I>(s: Seq<ImageAttachment<I>>, u: u128) -> Option<int> {
    if exists|i: int| 0 <= i < s.len() && s[i].info.id == u {
        Some(choose|i: int| 0 <= i < s.len() && s[i].info.id == u)
    } else {
        None
    }
}

impl<I> View for GraphResourceRegistry<I> {
    type V = Seq<ImageAttachment<I>>;

    closed spec fn view(&self) -> Seq<ImageAttachment<I>> {
        self.attachments@
    }
}

impl<I> Default for GraphResourceRegistry<I> {
    fn default() -> (r: Self)
        ensures
            r@ == Seq::<ImageAttachment<I>>::empty(),
    {
        GraphResourceRegistry { attachments: Vec::new() }
    }
}

impl<I> GraphResourceRegistry<I> {
    #[verifier::type_invariant]
    pub closed spec fn inv(&self) -> bool {
        attachment_ids_distinct(self.attachments@)
    }

    /// No two attachments share an identifier.
    pub open spec fn wf(&self) -> bool {
        attachment_ids_distinct(self@)
    }

    /// The type's invariant is well-formedness.
    pub proof fn lemma_wf(&self)
        requires
            self.inv(),
        ensures
            self.wf(),
    {
    }

    /// The number of attachments held.
    pub fn len(&self) -> (r: usize)
        ensures
            r == self@.len(),
    {
        self.attachments.len()
    }

    /// The position of the attachment with identifier `u`.
    pub fn position(&self, u: u128) -> (r: Option<usize>)
        ensures
            r matches Some(i) ==> position_of(self@, u) == Some(i as int),
            r is None ==> position_of(self@, u) is None,
    {
        proof {
            use_type_invariant(self);
        }
        let mut i: usize = 0;
        while i < self.attachments.len()
            invariant
                self.wf(),
                i <= self.attachments@.len(),
                forall|k: int| 0 <= k < i ==> self.attachments@[k].info.id != u,
            decreases self.attachments@.len() - i,
        {
            if self.attachments[i].info.id == u {
                proof {
                    assert(self@[i as int].info.id == u);
                    assert(exists|j: int| 0 <= j < self@.len() && self@[j].info.id == u);
                    let c = choose|j: int| 0 <= j < self@.len() && self@[j].info.id == u;
                    if c != i as int {
                        if c < i as int {
                            assert(self@[c].info.id != self@[i as int].info.id);
                        } else {
                            assert(self@[i as int].info.id != self@[c].info.id);
                        }
                    }
                }
                return Some(i);
            }
            i = i + 1;
        }
        None
    }

    /// The attachment that a graph-owned identifier names. The swapchain's
    /// identifiers name no attachment of this registry.
    pub fn get(&self, id: &ResourceID) -> (r: Option<&ImageAttachment<I>>)
        ensures
            match *id {
                ResourceID::Other(u) => match position_of(self@, u) {
                    Some(i) => r == Some(&self@[i]),
                    None => r is None,
                },
                _ => r is None,
            },
    {
        match id {
            ResourceID::Other(u) => match self.position(*u) {
                Some(i) => Some(&self.attachments[i]),
                None => None,
            },
            _ => None,
        }
    }

    /// The state of the attachment that a graph-owned identifier names.
    pub fn state_of(&self, u: u128) -> (r: Option<ImageState>)
        ensures
            match position_of(self@, u) {
                Some(i) => r == Some(self@[i].state),
                None => r is None,
            },
    {
        match self.position(u) {
            Some(i) => Some(self.attachments[i].state),
            None => None,
        }
    }

    /// Replaces the tracked state of the attachment at position `i`.
    pub fn set_state(&mut self, i: usize, state: ImageState)
        requires
            i < old(self)@.len(),
        ensures
            final(self)@.len() == old(self)@.len(),
            forall|k: int|
                0 <= k < old(self)@.len() && k != i ==> final(self)@[k] == old(self)@[k],
            final(self)@[i as int].state == state,
            final(self)@[i as int].info == old(self)@[i as int].info,
            final(self)@[i as int].image == old(self)@[i as int].image,
    {
        proof {
            use_type_invariant(&*self);
        }
        let mut attachments: Vec<ImageAttachment<I>> = Vec::new();
        std::mem::swap(&mut attachments, &mut self.attachments);
        let ghost before = attachments@;
        attachments[i].state = state;
        proof {
            let a = attachments@;
            assert forall|x: int, y: int| 0 <= x < y < a.len() implies a[x].info.id
                != a[y].info.id by {
                assert(a[x].info == before[x].info);
                assert(a[y].info == before[y].info);
            }
        }
        self.attachments = attachments;
    }
}

impl ResourceInfoRegistry {
    /// Makes every description into an image with `make`, all or nothing: on
    /// the first failure the images already made are dropped, and the error is
    /// returned. On success the registry holds one attachment per description,
    /// in order, each with the image and state that `make` returned for it.
    pub fn create_resources<I, E, F: Fn(&ImageAttachmentInfo) -> Result<(I, ImageState), E>>(
        self,
        make: F,
    ) -> (r: Result<GraphResourceRegistry<I>, RegistryCreateError<E>>)
        requires
            forall|i: int| 0 <= i < self@.len() ==> make.requires((&self@[i],)),
        ensures
            match r {
                Ok(g) => {
                    &&& g.wf()
                    &&& g@.len() == self@.len()
                    &&& forall|i: int|
                        0 <= i < self@.len() ==> {
                            &&& g@[i].info == self@[i]
                            &&& make.ensures(
                                (&self@[i],),
                                Ok::<(I, ImageState), E>((g@[i].image, g@[i].state)),
                            )
                        }
                },
                Err(err) => match err {
                    RegistryCreateError::ImageAttachmentCreation(e) => exists|i: int|
                        0 <= i < self@.len() && make.ensures(
                            (&self@[i],),
                            Err::<(I, ImageState), E>(e),
                        ),
                },
            },
    {
        proof {
            use_type_invariant(&self);
        }
        let ghost infos = self@;
        let total: usize = self.infos.len();
        let mut rest = self.infos;
        let mut attachments: Vec<ImageAttachment<I>> = Vec::new();
        let mut n: usize = 0;
        while rest.len() > 0
            invariant
                n + rest@.len() == infos.len(),
                infos.len() == total,
                infos == self@,
                rest@ == infos.subrange(n as int, infos.len() as int),
                attachments@.len() == n,
                ids_distinct(infos),
                forall|i: int| 0 <= i < infos.len() ==> make.requires((&infos[i],)),
                forall|i: int|
                    0 <= i < n ==> {
                        &&& attachments@[i].info == infos[i]
                        &&& make.ensures(
                            (&infos[i],),
                            Ok::<(I, ImageState), E>((attachments@[i].image, attachments@[i].state)),
                        )
                    },
            decreases rest@.len(),
        {
            let info = rest.remove(0);
            assert(info == infos[n as int]);
            match make(&info) {
                Ok((image, state)) => {
                    attachments.push(ImageAttachment { image, state, info });
                    n = n + 1;
                },
                Err(e) => {
                    assert(make.ensures((&infos[n as int],), Err::<(I, ImageState), E>(e)));
                    return Err(RegistryCreateError::ImageAttachmentCreation(e));
                },
            }
            assert(rest@ =~= infos.subrange(n as int, infos.len() as int));
        }
        assert(attachment_ids_distinct(attachments@)) by {
            let a = attachments@;
            assert forall|i: int, j: int| 0 <= i < j < a.len() implies a[i].info.id
                != a[j].info.id by {
                assert(a[i].info == infos[i]);
                assert(a[j].info == infos[j]);
            }
        }
        Ok(GraphResourceRegistry { attachments })
    }
}


/// A registry only grows: every identifier held before adding is held after.
proof fn lemma_add_keeps_ids(
    states: Seq<Seq<ImageAttachmentInfo>>,
    infos: Seq<ImageAttachmentInfo>,
    results: Seq<Result<ResourceID, ResourceInfoInsertError>>,
    k1: int,
    k2: int,
    u: u128,
)
    requires
        states.len() == infos.len() + 1,
        results.len() == infos.len(),
        forall|k: int|
            0 <= k < infos.len() ==> add_outcome(
                #[trigger] states[k],
                infos[k],
                states[k + 1],
                results[k],
            ),
        0 <= k1 <= k2 < states.len(),
        has_id(states[k1], u),
    ensures
        has_id(states[k2], u),
    decreases k2 - k1,
{
    if k1 < k2 {
        lemma_add_keeps_ids(states, infos, results, k1, k2 - 1, u);
        let prev = states[k2 - 1];
        assert(add_outcome(prev, infos[k2 - 1], states[k2], results[k2 - 1]));
        let i = choose|i: int| 0 <= i < prev.len() && prev[i].id == u;
        if !has_id(prev, infos[k2 - 1].id) {
            assert(states[k2][i] == prev[i]);
        }
    }
}

/// Every identifier that a sequence of additions to one registry returns is
/// an identifier of the registry's own, never a swapchain tag, and no two of
/// them are equal.
pub proof fn lemma_added_ids_unique(
    states: Seq<Seq<ImageAttachmentInfo>>,
    infos: Seq<ImageAttachmentInfo>,
    results: Seq<Result<ResourceID, ResourceInfoInsertError>>,
)
    requires
        states.len() == infos.len() + 1,
        results.len() == infos.len(),
        forall|k: int|
            0 <= k < infos.len() ==> add_outcome(
                #[trigger] states[k],
                infos[k],
                states[k + 1],
                results[k],
            ),
    ensures
        forall|k: int|
            0 <= k < results.len() && #[trigger] results[k] is Ok ==> {
                &&& results[k]->Ok_0 != ResourceID::SwapchainColorAttachment
                &&& results[k]->Ok_0 != ResourceID::SwapchainDSAttachment
            },
        forall|k1: int, k2: int|
            0 <= k1 < k2 < results.len() && #[trigger] results[k1] is Ok && #[trigger] results[k2] is Ok
                ==> results[k1]->Ok_0 != results[k2]->Ok_0,
{
    assert forall|k: int|
        0 <= k < results.len() && #[trigger] results[k] is Ok implies {
            &&& results[k]->Ok_0 != ResourceID::SwapchainColorAttachment
            &&& results[k]->Ok_0 != ResourceID::SwapchainDSAttachment
        } by {
        assert(add_outcome(states[k], infos[k], states[k + 1], results[k]));
    }
    assert forall|k1: int, k2: int|
        0 <= k1 < k2 < results.len() && #[trigger] results[k1] is Ok && #[trigger] results[k2] is Ok
            implies results[k1]->Ok_0 != results[k2]->Ok_0 by {
        assert(add_outcome(states[k1], infos[k1], states[k1 + 1], results[k1]));
        assert(add_outcome(states[k2], infos[k2], states[k2 + 1], results[k2]));
        let u = infos[k1].id;
        let after1 = states[k1 + 1];
        assert(after1[after1.len() - 1] == infos[k1]);
        assert(has_id(after1, u));
        lemma_add_keeps_ids(states, infos, results, k1 + 1, k2, u);
    }
}

/// Adding a description whose identifier an earlier addition used fails with
/// `AlreadyPresent` and leaves the registry as it was.
pub proof fn lemma_duplicate_add_refused(
    s0: Seq<ImageAttachmentInfo>,
    a: ImageAttachmentInfo,
    s1: Seq<ImageAttachmentInfo>,
    r1: Result<ResourceID, ResourceInfoInsertError>,
    b: ImageAttachmentInfo,
    s2: Seq<ImageAttachmentInfo>,
    r2: Result<ResourceID, ResourceInfoInsertError>,
)
    requires
        add_outcome(s0, a, s1, r1),
        add_outcome(s1, b, s2, r2),
        a.id == b.id,
    ensures
        r2 == Err::<ResourceID, _>(ResourceInfoInsertError::AlreadyPresent),
        s2 == s1,
{
    if !has_id(s0, a.id) {
        assert(s1[s1.len() - 1] == a);
    }
}

} // verus!
