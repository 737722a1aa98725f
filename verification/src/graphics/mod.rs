pub mod backend;
pub mod buffer;
pub mod draw_batch;
pub mod id;
pub mod loading;
pub mod material_layout;
pub mod mesh;
pub mod pipeline;
pub mod render_frame;
pub mod stats;

use vstd::prelude::*;

use self::backend::BackendType;
use self::id::IdCounter;

verus! {

/// Which backend to use: found out at start, or chosen.
#[derive(Clone, Copy, Debug, PartialEq, Eq, Structural)]
pub enum SelectBackendType {
    AutoDetect,
    Select(BackendType),
}

impl Default for SelectBackendType {
    fn default() -> (s: Self)
        ensures
            s == SelectBackendType::AutoDetect,
    {
        SelectBackendType::AutoDetect
    }
}

/// Whether the GPU device should favour speed or low memory use.
#[derive(Clone, Copy, Debug, PartialEq, Eq, Structural, PartialOrd, Ord, Hash)]
pub enum MemoryHints {
    Performance,
    MemoryUsage,
}

impl Default for MemoryHints {
    fn default() -> (m: Self)
        ensures
            m == MemoryHints::Performance,
    {
        MemoryHints::Performance
    }
}

/// The backend type that is tried first for a selection.
pub open spec fn spec_backend_to_try(select: SelectBackendType) -> BackendType {
    match select {
        SelectBackendType::AutoDetect => BackendType::WebGpu,
        SelectBackendType::Select(backend_type) => backend_type,
    }
}

/// The backend type whose shared backend is created at start: WebGPU when
/// detecting, else the chosen one.
pub fn backend_to_try(select: SelectBackendType) -> (b: BackendType)
    ensures
        b == spec_backend_to_try(select),
{
    match select {
        SelectBackendType::AutoDetect => BackendType::WebGpu,
        SelectBackendType::Select(backend_type) => backend_type,
    }
}

/// Settles the backend type from the outcome of creating the shared backend
/// of type [`backend_to_try`]. When detecting, a failure falls back to WebGL
/// with no shared backend; when a type was chosen, a failure is an error.
pub fn settle_backend<B, E>(select: SelectBackendType, attempt: Result<B, E>) -> (r: Result<
    (BackendType, Option<B>),
    E,
>)
    ensures
        match (select, attempt) {
            (SelectBackendType::AutoDetect, Ok(b)) => r == Ok::<(BackendType, Option<B>), E>(
                (BackendType::WebGpu, Some(b)),
            ),
            (SelectBackendType::AutoDetect, Err(_)) => r == Ok::<(BackendType, Option<B>), E>(
                (BackendType::WebGl, None),
            ),
            (SelectBackendType::Select(t), Ok(b)) => r == Ok::<(BackendType, Option<B>), E>(
                (t, Some(b)),
            ),
            (SelectBackendType::Select(_), Err(e)) => r == Err::<(BackendType, Option<B>), E>(e),
        },
{
    match select {
        SelectBackendType::AutoDetect => match attempt {
            Ok(shared_backend) => Ok((BackendType::WebGpu, Some(shared_backend))),
            Err(_) => Ok((BackendType::WebGl, None)),
        },
        SelectBackendType::Select(backend_type) => match attempt {
            Ok(shared_backend) => Ok((backend_type, Some(shared_backend))),
            Err(e) => Err(e),
        },
    }
}

/// Picks the surface format: the first sRGB one, else the first one.
pub fn select_surface_format(is_srgb: &[bool]) -> (i: usize)
    requires
        is_srgb@.len() > 0,
    ensures
        i < is_srgb@.len(),
        forall|j: int| 0 <= j < i ==> !is_srgb@[j],
        is_srgb@[i as int] || i == 0,
        (exists|j: int| 0 <= j < is_srgb@.len() && is_srgb@[j]) ==> is_srgb@[i as int],
{
    let mut i: usize = 0;
    while i < is_srgb.len()
        invariant
            0 <= i <= is_srgb@.len(),
            forall|j: int| 0 <= j < i ==> !is_srgb@[j],
        decreases is_srgb@.len() - i,
    {
        if is_srgb[i] {
            return i;
        }
        i = i + 1;
    }
    0
}

/// Identifies the canvas a surface is drawn on.
#[derive(Clone, Copy, Debug)]
pub struct WindowHandle {
    id: u32,
}

impl View for WindowHandle {
    type V = nat;

    closed spec fn view(&self) -> nat {
        self.id as nat
    }
}

impl WindowHandle {
    /// A fresh window handle.
    pub fn new(ids: &mut IdCounter) -> (h: Self)
        requires
            old(ids).next_id() < u32::MAX,
        ensures
            h@ == old(ids).next_id(),
            h@ >= 1,
            final(ids).next_id() == old(ids).next_id() + 1,
    {
        let id = ids.allocate();
        WindowHandle { id: id as u32 }
    }

    /// The handle's number, never zero.
    pub fn id(&self) -> (n: u32)
        ensures
            n == self@,
    {
        self.id
    }
}

/// Size of a drawing surface in pixels.
#[derive(Clone, Copy, Debug, PartialEq, Eq, Structural)]
pub struct SurfaceSize {
    pub width: u32,
    pub height: u32,
}

impl SurfaceSize {
    /// The size of a canvas, each side at least one pixel.
    pub fn from_canvas_size(width: u32, height: u32) -> (s: Self)
        ensures
            s.width == if width >= 1 { width } else { 1 },
            s.height == if height >= 1 { height } else { 1 },
    {
        SurfaceSize {
            width: if width >= 1 { width } else { 1 },
            height: if height >= 1 { height } else { 1 },
        }
    }
}

} // verus!
