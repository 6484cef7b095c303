//! What a render pass declares it reads and writes.
use vstd::prelude::*;

use crate::gfx::resource::{ResourceAccessType, ResourceID};

verus! {

/// The attachments that one pass declares: its color attachments with their
/// access, an optional depth/stencil attachment, and whether it asks for the
/// swapchain's images. Declarations are fixed when the graph is built.
#[derive(Debug, Clone)]
pub struct AttachmentInfo {
    pub color_attachments: Vec<(ResourceID, ResourceAccessType)>,
    pub depth_stencil_attachment: Option<ResourceID>,
    pub swapchain_resources: Option<ResourceAccessType>,
}

/// `j` is the first position of `id` in `cs`.
pub open spec fn first_position(cs: Seq<(ResourceID, ResourceAccessType)>, id: ResourceID, j: int) -> bool {
    &&& 0 <= j < cs.len()
    &&& cs[j].0 == id
    &&& forall|k: int| 0 <= k < j ==> cs[k].0 != id
}

/// `cs` with the access of `id` set to `a`: replaced at its first declaration
/// where `id` is declared already, appended where it is not.
pub open spec fn declare_color(
    cs: Seq<(ResourceID, ResourceAccessType)>,
    id: ResourceID,
    a: ResourceAccessType,
) -> Seq<(ResourceID, ResourceAccessType)> {
    if exists|j: int| first_position(cs, id, j) {
        cs.update(choose|j: int| first_position(cs, id, j), (id, a))
    } else {
        cs.push((id, a))
    }
}

/// No resource is declared twice as a color attachment.
pub open spec fn colors_distinct(cs: Seq<(ResourceID, ResourceAccessType)>) -> bool {
    forall|i: int, j: int| 0 <= i < j < cs.len() ==> cs[i].0 != cs[j].0
}

impl Default for AttachmentInfo {
    fn default() -> (r: Self)
        ensures
            r.color_attachments@ == Seq::<(ResourceID, ResourceAccessType)>::empty(),
            r.depth_stencil_attachment is None,
            r.swapchain_resources is None,
    {
        AttachmentInfo {
            color_attachments: Vec::new(),
            depth_stencil_attachment: None,
            swapchain_resources: None,
        }
    }
}

impl AttachmentInfo {
    /// Declares `id` as a color attachment with access `a`, replacing an
    /// earlier declaration of the same resource.
    pub fn declare_color_attachment(&mut self, id: ResourceID, a: ResourceAccessType)
        ensures
            final(self).color_attachments@ == declare_color(old(self).color_attachments@, id, a),
            final(self).depth_stencil_attachment == old(self).depth_stencil_attachment,
            final(self).swapchain_resources == old(self).swapchain_resources,
            colors_distinct(old(self).color_attachments@) ==> colors_distinct(
                final(self).color_attachments@,
            ),
    {
        let ghost cs = self.color_attachments@;
        let mut j: usize = 0;
        while j < self.color_attachments.len()
            invariant
                self.color_attachments@ == cs,
                self.depth_stencil_attachment == old(self).depth_stencil_attachment,
                self.swapchain_resources == old(self).swapchain_resources,
                cs == old(self).color_attachments@,
                j <= cs.len(),
                forall|k: int| 0 <= k < j ==> cs[k].0 != id,
            decreases cs.len() - j,
        {
            if self.color_attachments[j].0 == id {
                proof {
                    assert(first_position(cs, id, j as int));
                    let c = choose|k: int| first_position(cs, id, k);
                    assert(c == j as int) by {
                        if c < j as int {
                        } else if c > j as int {
                            assert(cs[j as int].0 == id);
                        }
                    }
                }
                self.color_attachments.set(j, (id, a));
                proof {
                    let n = self.color_attachments@;
                    assert(n =~= cs.update(j as int, (id, a)));
                    if colors_distinct(cs) {
                        assert forall|x: int, y: int| 0 <= x < y < n.len() implies n[x].0
                            != n[y].0 by {
                            if x != j as int && y != j as int {
                                assert(cs[x].0 != cs[y].0);
                            } else if x == j as int {
                                assert(cs[x].0 != cs[y].0);
                            } else {
                                assert(cs[x].0 != cs[y].0);
                            }
                        }
                    }
                }
                return;
            }
            j = j + 1;
        }
        self.color_attachments.push((id, a));
        proof {
            let n = self.color_attachments@;
            assert(!exists|k: int| first_position(cs, id, k));
            if colors_distinct(cs) {
                assert forall|x: int, y: int| 0 <= x < y < n.len() implies n[x].0 != n[y].0 by {
                    if y < cs.len() {
                        assert(cs[x].0 != cs[y].0);
                    }
                }
            }
        }
    }
}

/// A pass with a name, its declared attachments, and data of its owner's
/// choosing that its recorder works with.
pub struct SimpleRenderPass<UserData> {
    pub name: String,
    pub attachment_infos: AttachmentInfo,
    pub user_data: UserData,
}

impl<UserData> SimpleRenderPass<UserData> {
    /// A pass that declares no attachment.
    pub fn new(name: &str, user_data: UserData) -> (r: Self)
        ensures
            r.name@ == name@,
            r.user_data == user_data,
            r.attachment_infos.color_attachments@ == Seq::<
                (ResourceID, ResourceAccessType),
            >::empty(),
            r.attachment_infos.depth_stencil_attachment is None,
            r.attachment_infos.swapchain_resources is None,
    {
        SimpleRenderPass {
            name: name.to_owned(),
            attachment_infos: AttachmentInfo::default(),
            user_data,
        }
    }

    pub fn name(self, name: &str) -> (r: Self)
        ensures
            r.name@ == name@,
            r.attachment_infos == self.attachment_infos,
            r.user_data == self.user_data,
    {
        let mut s = self;
        s.name = name.to_owned();
        s
    }

    /// Declares a color attachment; declaring the same resource again replaces
    /// its access.
    pub fn add_color_attachment(self, resource: ResourceID, access_type: ResourceAccessType) -> (r:
        Self)
        ensures
            r.attachment_infos.color_attachments@ == declare_color(
                self.attachment_infos.color_attachments@,
                resource,
                access_type,
            ),
            r.attachment_infos.depth_stencil_attachment
                == self.attachment_infos.depth_stencil_attachment,
            r.attachment_infos.swapchain_resources == self.attachment_infos.swapchain_resources,
            r.name == self.name,
            r.user_data == self.user_data,
    {
        let mut s = self;
        s.attachment_infos.declare_color_attachment(resource, access_type);
        s
    }

    /// Declares the depth/stencil attachment, replacing an earlier one.
    pub fn add_depth_attachment(self, resource: ResourceID) -> (r: Self)
        ensures
            r.attachment_infos.depth_stencil_attachment == Some(resource),
            r.attachment_infos.color_attachments == self.attachment_infos.color_attachments,
            r.attachment_infos.swapchain_resources == self.attachment_infos.swapchain_resources,
            r.name == self.name,
            r.user_data == self.user_data,
    {
        let mut s = self;
        s.attachment_infos.depth_stencil_attachment = Some(resource);
        s
    }

    /// Asks for the swapchain's images of the frame, with the given access.
    pub fn request_swapchain_resources(self, access_type: ResourceAccessType) -> (r: Self)
        ensures
            r.attachment_infos.swapchain_resources == Some(access_type),
            r.attachment_infos.color_attachments == self.attachment_infos.color_attachments,
            r.attachment_infos.depth_stencil_attachment
                == self.attachment_infos.depth_stencil_attachment,
            r.name == self.name,
            r.user_data == self.user_data,
    {
        let mut s = self;
        s.attachment_infos.swapchain_resources = Some(access_type);
        s
    }

    /// The attachments this pass declares.
    pub fn attachment_infos(&self) -> (r: &AttachmentInfo)
        ensures
            *r == self.attachment_infos,
    {
        &self.attachment_infos
    }
}

} // verus!
