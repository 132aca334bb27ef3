//! The framebuffer that GTK has bound, and the size of the renderbuffer behind it.

use vstd::prelude::*;

verus! {

pub const GL_FRAMEBUFFER_BINDING: u32 = 0x8CA6;

pub const GL_FRAMEBUFFER: u32 = 0x8D40;

pub const GL_COLOR_ATTACHMENT0: u32 = 0x8CE0;

pub const GL_FRAMEBUFFER_ATTACHMENT_OBJECT_TYPE: u32 = 0x8CD0;

pub const GL_FRAMEBUFFER_ATTACHMENT_OBJECT_NAME: u32 = 0x8CD1;

pub const GL_RENDERBUFFER: u32 = 0x8D41;

pub const GL_RENDERBUFFER_WIDTH: u32 = 0x8D42;

pub const GL_RENDERBUFFER_HEIGHT: u32 = 0x8D43;

/// The framebuffer to render to, from what asking for `GL_FRAMEBUFFER_BINDING` gave; `None`
/// stands for `glGetIntegerv` not being there to ask.
pub fn current_fbo(binding: Option<i32>) -> (fbo: i32)
    ensures
        binding matches Some(id) ==> fbo == id,
        binding is None ==> fbo == 0,
        fbo == crate::surface::target_fbo(binding),
{
    match binding {
        Some(id) => id,
        None => 0,
    }
}

/// A width and a height, in pixels.
#[derive(Clone, Copy, Debug, PartialEq, Eq, Structural)]
pub struct Size {
    pub width: i32,
    pub height: i32,
}

impl Size {
    /// Both sides are positive.
    pub open spec fn is_positive(self) -> bool {
        self.width > 0 && self.height > 0
    }

    /// The size, where both its sides are positive.
    pub open spec fn if_positive(self) -> Option<Size> {
        if self.is_positive() {
            Some(self)
        } else {
            None
        }
    }
}

/// What measuring the framebuffer asks for.
#[derive(Clone, Copy, Debug, PartialEq, Eq, Structural)]
pub enum FboAction {
    /// `glGetFramebufferAttachmentParameteriv`, answered by the value it gives.
    AttachmentParameter { target: u32, attachment: u32, parameter: u32 },
    /// `glBindRenderbuffer`, whose answer is not looked at.
    BindRenderbuffer { target: u32, id: u32 },
    /// `glGetRenderbufferParameteriv`, answered by the value it gives.
    RenderbufferParameter { target: u32, parameter: u32 },
    /// The measuring is over, with this width and height.
    Finished(Option<Size>),
}

/// Measuring the framebuffer, step by step.
#[derive(Clone, Copy, Debug, PartialEq, Eq, Structural)]
pub enum FboQuery {
    /// The kind of the colour attachment is being asked for.
    Kind,
    /// The name of the attached renderbuffer is being asked for.
    Name,
    /// The renderbuffer of this name is being bound.
    Bind(u32),
    /// The width of the bound renderbuffer is being asked for.
    Width,
    /// Its height is being asked for.
    Height { width: i32 },
    /// The renderbuffer is being unbound.
    Unbind(Size),
    /// The measuring is over.
    Finished(Option<Size>),
}

/// The step at which measuring starts: without all three GL functions it is over at once.
pub open spec fn query_start(
    get_attachment: bool,
    bind_renderbuffer: bool,
    get_renderbuffer: bool,
) -> FboQuery {
    if get_attachment && bind_renderbuffer && get_renderbuffer {
        FboQuery::Kind
    } else {
        FboQuery::Finished(None)
    }
}

/// Starts measuring the framebuffer. The arguments say which of the three GL functions that
/// it takes were resolved; without all of them nothing is asked.
pub fn query_fbo_dimensions(
    get_attachment: bool,
    bind_renderbuffer: bool,
    get_renderbuffer: bool,
) -> (query: FboQuery)
    ensures
        query == query_start(get_attachment, bind_renderbuffer, get_renderbuffer),
{
    if get_attachment && bind_renderbuffer && get_renderbuffer {
        FboQuery::Kind
    } else {
        FboQuery::Finished(None)
    }
}

impl FboQuery {
    /// What has to be done at this step.
    pub open spec fn due(self) -> FboAction {
        match self {
            FboQuery::Kind => FboAction::AttachmentParameter {
                target: GL_FRAMEBUFFER,
                attachment: GL_COLOR_ATTACHMENT0,
                parameter: GL_FRAMEBUFFER_ATTACHMENT_OBJECT_TYPE,
            },
            FboQuery::Name => FboAction::AttachmentParameter {
                target: GL_FRAMEBUFFER,
                attachment: GL_COLOR_ATTACHMENT0,
                parameter: GL_FRAMEBUFFER_ATTACHMENT_OBJECT_NAME,
            },
            FboQuery::Bind(id) => FboAction::BindRenderbuffer { target: GL_RENDERBUFFER, id },
            FboQuery::Width => FboAction::RenderbufferParameter {
                target: GL_RENDERBUFFER,
                parameter: GL_RENDERBUFFER_WIDTH,
            },
            FboQuery::Height { .. } => FboAction::RenderbufferParameter {
                target: GL_RENDERBUFFER,
                parameter: GL_RENDERBUFFER_HEIGHT,
            },
            FboQuery::Unbind(_) => FboAction::BindRenderbuffer {
                target: GL_RENDERBUFFER,
                id: 0,
            },
            FboQuery::Finished(size) => FboAction::Finished(size),
        }
    }

    /// The step after this one, once its action gave `value`.
    pub open spec fn answered(self, value: i32) -> FboQuery {
        match self {
            FboQuery::Kind => if value == GL_RENDERBUFFER {
                FboQuery::Name
            } else {
                FboQuery::Finished(None)
            },
            FboQuery::Name => if value > 0 {
                FboQuery::Bind(value as u32)
            } else {
                FboQuery::Finished(None)
            },
            FboQuery::Bind(_) => FboQuery::Width,
            FboQuery::Width => FboQuery::Height { width: value },
            FboQuery::Height { width } => FboQuery::Unbind(Size { width, height: value }),
            FboQuery::Unbind(size) => FboQuery::Finished(size.if_positive()),
            FboQuery::Finished(_) => self,
        }
    }

    /// How many actions can still come.
    pub open spec fn left(self) -> nat {
        match self {
            FboQuery::Kind => 6,
            FboQuery::Name => 5,
            FboQuery::Bind(_) => 4,
            FboQuery::Width => 3,
            FboQuery::Height { .. } => 2,
            FboQuery::Unbind(_) => 1,
            FboQuery::Finished(_) => 0,
        }
    }

    /// What has to be done next.
    pub fn action(self) -> (action: FboAction)
        ensures
            action == self.due(),
    {
        match self {
            FboQuery::Kind => FboAction::AttachmentParameter {
                target: GL_FRAMEBUFFER,
                attachment: GL_COLOR_ATTACHMENT0,
                parameter: GL_FRAMEBUFFER_ATTACHMENT_OBJECT_TYPE,
            },
            FboQuery::Name => FboAction::AttachmentParameter {
                target: GL_FRAMEBUFFER,
                attachment: GL_COLOR_ATTACHMENT0,
                parameter: GL_FRAMEBUFFER_ATTACHMENT_OBJECT_NAME,
            },
            FboQuery::Bind(id) => FboAction::BindRenderbuffer { target: GL_RENDERBUFFER, id },
            FboQuery::Width => FboAction::RenderbufferParameter {
                target: GL_RENDERBUFFER,
                parameter: GL_RENDERBUFFER_WIDTH,
            },
            FboQuery::Height { width } => FboAction::RenderbufferParameter {
                target: GL_RENDERBUFFER,
                parameter: GL_RENDERBUFFER_HEIGHT,
            },
            FboQuery::Unbind(size) => FboAction::BindRenderbuffer {
                target: GL_RENDERBUFFER,
                id: 0,
            },
            FboQuery::Finished(size) => FboAction::Finished(size),
        }
    }

    /// Takes the value that the action gave.
    pub fn answer(self, value: i32) -> (next: FboQuery)
        ensures
            next == self.answered(value),
            !(self is Finished) ==> next.left() < self.left(),
    {
        match self {
            FboQuery::Kind => {
                if value == GL_RENDERBUFFER as i32 {
                    FboQuery::Name
                } else {
                    FboQuery::Finished(None)
                }
            },
            FboQuery::Name => {
                if value > 0 {
                    FboQuery::Bind(value as u32)
                } else {
                    FboQuery::Finished(None)
                }
            },
            FboQuery::Bind(id) => FboQuery::Width,
            FboQuery::Width => FboQuery::Height { width: value },
            FboQuery::Height { width } => FboQuery::Unbind(Size { width, height: value }),
            FboQuery::Unbind(size) => {
                if size.width > 0 && size.height > 0 {
                    FboQuery::Finished(Some(size))
                } else {
                    FboQuery::Finished(None)
                }
            },
            FboQuery::Finished(size) => FboQuery::Finished(size),
        }
    }
}

/// A model of the GL objects that measuring looks at.
pub struct GlObjects {
    /// The kind of the framebuffer's colour attachment.
    pub kind: i32,
    /// The name of the object attached there.
    pub name: i32,
    /// The width and height of each renderbuffer.
    pub sizes: spec_fn(u32) -> Size,
    /// The renderbuffer that is bound.
    pub bound: u32,
}

impl GlObjects {
    /// What an action gives, by its meaning in GL.
    pub open spec fn reply(self, action: FboAction) -> i32 {
        match action {
            FboAction::AttachmentParameter { target, attachment, parameter } => if target
                != GL_FRAMEBUFFER || attachment != GL_COLOR_ATTACHMENT0 {
                0
            } else if parameter == GL_FRAMEBUFFER_ATTACHMENT_OBJECT_TYPE {
                self.kind
            } else if parameter == GL_FRAMEBUFFER_ATTACHMENT_OBJECT_NAME {
                self.name
            } else {
                0
            },
            FboAction::RenderbufferParameter { target, parameter } => if target
                != GL_RENDERBUFFER {
                0
            } else if parameter == GL_RENDERBUFFER_WIDTH {
                (self.sizes)(self.bound).width
            } else if parameter == GL_RENDERBUFFER_HEIGHT {
                (self.sizes)(self.bound).height
            } else {
                0
            },
            _ => 0,
        }
    }

    /// The objects after an action.
    pub open spec fn after(self, action: FboAction) -> GlObjects {
        match action {
            FboAction::BindRenderbuffer { target, id } if target == GL_RENDERBUFFER => GlObjects {
                bound: id,
                ..self
            },
            _ => self,
        }
    }

    /// The size of the renderbuffer that is attached, if one is and its size is positive.
    pub open spec fn attached_size(self) -> Option<Size> {
        if self.kind == GL_RENDERBUFFER && self.name > 0 {
            (self.sizes)(self.name as u32).if_positive()
        } else {
            None
        }
    }
}

/// Runs a query to its end: the size that it ends with, and the objects that it leaves.
pub open spec fn measured(query: FboQuery, objects: GlObjects) -> (Option<Size>, GlObjects)
    decreases query.left(),
{
    match query.due() {
        FboAction::Finished(size) => (size, objects),
        action => measured(query.answered(objects.reply(action)), objects.after(action)),
    }
}

/// Measuring gives the size of the attached renderbuffer where there is one of a positive
/// size, and nothing otherwise. A renderbuffer that was bound on the way is unbound at the end.
pub proof fn law_measuring(objects: GlObjects)
    ensures
        measured(FboQuery::Kind, objects).0 == objects.attached_size(),
        measured(FboQuery::Kind, objects).1 == (GlObjects {
            bound: (if objects.kind == GL_RENDERBUFFER && objects.name > 0 {
                0
            } else {
                objects.bound
            }),
            ..objects
        }),
{
    reveal_with_fuel(measured, 8);
}

/// Whatever GL answers, a size that comes out of measuring is positive on both sides.
pub proof fn law_measured_sizes_are_positive(query: FboQuery, value: i32)
    requires
        !(query is Finished),
    ensures
        query.answered(value) matches FboQuery::Finished(Some(size)) ==> size.is_positive(),
{
}

/// Measuring by its numbers. It gives a size only where all three GL functions were resolved,
/// the colour attachment is a renderbuffer (0x8D41) with a positive name, and both sides of
/// that renderbuffer are positive; the size is then that renderbuffer's own. Whatever comes
/// out, no renderbuffer stays bound that was bound on the way.
pub proof fn law_measured_numbers(
    get_attachment: bool,
    bind_renderbuffer: bool,
    get_renderbuffer: bool,
    objects: GlObjects,
)
    ensures
        ({
            let (size, after) = measured(
                query_start(get_attachment, bind_renderbuffer, get_renderbuffer),
                objects,
            );
            let resolved = get_attachment && bind_renderbuffer && get_renderbuffer;
            let attached = objects.kind == 0x8D41 && objects.name > 0;
            let own = (objects.sizes)(objects.name as u32);
            &&& size is Some <==> resolved && attached && own.width > 0 && own.height > 0
            &&& size matches Some(found) ==> {
                &&& found.width == own.width
                &&& found.height == own.height
            }
            &&& after.kind == objects.kind
            &&& after.name == objects.name
            &&& after.sizes == objects.sizes
            &&& resolved && attached ==> after.bound == 0
            &&& !resolved || !attached ==> after.bound == objects.bound
        }),
{
    law_measuring(objects);
    reveal_with_fuel(measured, 2);
}

/// The GL constants have the values of the GL headers.
pub proof fn law_framebuffer_constants()
    ensures
        GL_FRAMEBUFFER_BINDING == 0x8CA6,
        GL_FRAMEBUFFER == 0x8D40,
        GL_COLOR_ATTACHMENT0 == 0x8CE0,
        GL_FRAMEBUFFER_ATTACHMENT_OBJECT_TYPE == 0x8CD0,
        GL_FRAMEBUFFER_ATTACHMENT_OBJECT_NAME == 0x8CD1,
        GL_RENDERBUFFER == 0x8D41,
        GL_RENDERBUFFER_WIDTH == 0x8D42,
        GL_RENDERBUFFER_HEIGHT == 0x8D43,
{
}

/// Measuring that is over stays over, with the size that it has.
pub proof fn law_finished_measuring_stays(query: FboQuery, value: i32)
    requires
        query.due() is Finished,
    ensures
        query.answered(value) == query,
        query == FboQuery::Finished(query.due()->Finished_0),
{
}

} // verus!
