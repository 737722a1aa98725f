use vstd::prelude::*;

verus! {

/// Counts of the GPU resources alive and the memory they hold.
#[derive(Clone, Copy, Debug, PartialEq, Eq, Structural)]
pub struct ResourceUsages {
    pub buffers: usize,
    pub textures: usize,
    pub texture_views: usize,
    pub bind_groups: usize,
    pub bind_group_layouts: usize,
    pub render_pipelines: usize,
    pub pipeline_layouts: usize,
    pub samplers: usize,
    pub command_encoders: usize,
    pub shader_modules: usize,
    pub buffer_memory: u64,
    pub texture_memory: u64,
}

/// A GPU resource whose life is tracked, with the bytes it holds where it
/// holds memory.
#[derive(Clone, Copy, Debug, PartialEq, Eq, Structural)]
pub enum TrackedResource {
    Buffer { size: u64 },
    Texture { size: u64 },
    TextureView,
    BindGroup,
    BindGroupLayout,
    RenderPipeline,
    PipelineLayout,
    Sampler,
    CommandEncoder,
    ShaderModule,
}

impl ResourceUsages {
    /// Whether adding `r` overflows no counter.
    pub open spec fn can_begin(self, r: TrackedResource) -> bool {
        match r {
            TrackedResource::Buffer { size } => self.buffers < usize::MAX && self.buffer_memory
                + size <= u64::MAX,
            TrackedResource::Texture { size } => self.textures < usize::MAX && self.texture_memory
                + size <= u64::MAX,
            TrackedResource::TextureView => self.texture_views < usize::MAX,
            TrackedResource::BindGroup => self.bind_groups < usize::MAX,
            TrackedResource::BindGroupLayout => self.bind_group_layouts < usize::MAX,
            TrackedResource::RenderPipeline => self.render_pipelines < usize::MAX,
            TrackedResource::PipelineLayout => self.pipeline_layouts < usize::MAX,
            TrackedResource::Sampler => self.samplers < usize::MAX,
            TrackedResource::CommandEncoder => self.command_encoders < usize::MAX,
            TrackedResource::ShaderModule => self.shader_modules < usize::MAX,
        }
    }

    /// Whether removing `r` takes no counter below zero.
    pub open spec fn can_end(self, r: TrackedResource) -> bool {
        match r {
            TrackedResource::Buffer { size } => self.buffers > 0 && self.buffer_memory >= size,
            TrackedResource::Texture { size } => self.textures > 0 && self.texture_memory >= size,
            TrackedResource::TextureView => self.texture_views > 0,
            TrackedResource::BindGroup => self.bind_groups > 0,
            TrackedResource::BindGroupLayout => self.bind_group_layouts > 0,
            TrackedResource::RenderPipeline => self.render_pipelines > 0,
            TrackedResource::PipelineLayout => self.pipeline_layouts > 0,
            TrackedResource::Sampler => self.samplers > 0,
            TrackedResource::CommandEncoder => self.command_encoders > 0,
            TrackedResource::ShaderModule => self.shader_modules > 0,
        }
    }

    /// The usages with `r` added: its counter goes up by one, and its memory
    /// counter by its size.
    pub open spec fn begun(self, r: TrackedResource) -> ResourceUsages {
        match r {
            TrackedResource::Buffer { size } => ResourceUsages {
                buffers: (self.buffers + 1) as usize,
                buffer_memory: (self.buffer_memory + size) as u64,
                ..self
            },
            TrackedResource::Texture { size } => ResourceUsages {
                textures: (self.textures + 1) as usize,
                texture_memory: (self.texture_memory + size) as u64,
                ..self
            },
            TrackedResource::TextureView => ResourceUsages {
                texture_views: (self.texture_views + 1) as usize,
                ..self
            },
            TrackedResource::BindGroup => ResourceUsages {
                bind_groups: (self.bind_groups + 1) as usize,
                ..self
            },
            TrackedResource::BindGroupLayout => ResourceUsages {
                bind_group_layouts: (self.bind_group_layouts + 1) as usize,
                ..self
            },
            TrackedResource::RenderPipeline => ResourceUsages {
                render_pipelines: (self.render_pipelines + 1) as usize,
                ..self
            },
            TrackedResource::PipelineLayout => ResourceUsages {
                pipeline_layouts: (self.pipeline_layouts + 1) as usize,
                ..self
            },
            TrackedResource::Sampler => ResourceUsages {
                samplers: (self.samplers + 1) as usize,
                ..self
            },
            TrackedResource::CommandEncoder => ResourceUsages {
                command_encoders: (self.command_encoders + 1) as usize,
                ..self
            },
            TrackedResource::ShaderModule => ResourceUsages {
                shader_modules: (self.shader_modules + 1) as usize,
                ..self
            },
        }
    }

    /// The usages with `r` removed: its counter goes down by one, and its
    /// memory counter by its size.
    pub open spec fn ended(self, r: TrackedResource) -> ResourceUsages {
        match r {
            TrackedResource::Buffer { size } => ResourceUsages {
                buffers: (self.buffers - 1) as usize,
                buffer_memory: (self.buffer_memory - size) as u64,
                ..self
            },
            TrackedResource::Texture { size } => ResourceUsages {
                textures: (self.textures - 1) as usize,
                texture_memory: (self.texture_memory - size) as u64,
                ..self
            },
            TrackedResource::TextureView => ResourceUsages {
                texture_views: (self.texture_views - 1) as usize,
                ..self
            },
            TrackedResource::BindGroup => ResourceUsages {
                bind_groups: (self.bind_groups - 1) as usize,
                ..self
            },
            TrackedResource::BindGroupLayout => ResourceUsages {
                bind_group_layouts: (self.bind_group_layouts - 1) as usize,
                ..self
            },
            TrackedResource::RenderPipeline => ResourceUsages {
                render_pipelines: (self.render_pipelines - 1) as usize,
                ..self
            },
            TrackedResource::PipelineLayout => ResourceUsages {
                pipeline_layouts: (self.pipeline_layouts - 1) as usize,
                ..self
            },
            TrackedResource::Sampler => ResourceUsages {
                samplers: (self.samplers - 1) as usize,
                ..self
            },
            TrackedResource::CommandEncoder => ResourceUsages {
                command_encoders: (self.command_encoders - 1) as usize,
                ..self
            },
            TrackedResource::ShaderModule => ResourceUsages {
                shader_modules: (self.shader_modules - 1) as usize,
                ..self
            },
        }
    }

    /// All counters at zero.
    pub open spec fn zero() -> ResourceUsages {
        ResourceUsages {
            buffers: 0,
            textures: 0,
            texture_views: 0,
            bind_groups: 0,
            bind_group_layouts: 0,
            render_pipelines: 0,
            pipeline_layouts: 0,
            samplers: 0,
            command_encoders: 0,
            shader_modules: 0,
            buffer_memory: 0,
            texture_memory: 0,
        }
    }

    /// All counters at zero.
    pub fn new() -> (s: Self)
        ensures
            s == Self::zero(),
    {
        ResourceUsages {
            buffers: 0,
            textures: 0,
            texture_views: 0,
            bind_groups: 0,
            bind_group_layouts: 0,
            render_pipelines: 0,
            pipeline_layouts: 0,
            samplers: 0,
            command_encoders: 0,
            shader_modules: 0,
            buffer_memory: 0,
            texture_memory: 0,
        }
    }

    /// Whether counting `r` overflows no counter.
    pub fn fits_begin(&self, r: TrackedResource) -> (b: bool)
        ensures
            b == self.can_begin(r),
    {
        match r {
            TrackedResource::Buffer { size } => self.buffers < usize::MAX && size <= u64::MAX
                - self.buffer_memory,
            TrackedResource::Texture { size } => self.textures < usize::MAX && size <= u64::MAX
                - self.texture_memory,
            TrackedResource::TextureView => self.texture_views < usize::MAX,
            TrackedResource::BindGroup => self.bind_groups < usize::MAX,
            TrackedResource::BindGroupLayout => self.bind_group_layouts < usize::MAX,
            TrackedResource::RenderPipeline => self.render_pipelines < usize::MAX,
            TrackedResource::PipelineLayout => self.pipeline_layouts < usize::MAX,
            TrackedResource::Sampler => self.samplers < usize::MAX,
            TrackedResource::CommandEncoder => self.command_encoders < usize::MAX,
            TrackedResource::ShaderModule => self.shader_modules < usize::MAX,
        }
    }

    /// Whether uncounting `r` takes no counter below zero.
    pub fn fits_end(&self, r: TrackedResource) -> (b: bool)
        ensures
            b == self.can_end(r),
    {
        match r {
            TrackedResource::Buffer { size } => self.buffers > 0 && self.buffer_memory >= size,
            TrackedResource::Texture { size } => self.textures > 0 && self.texture_memory >= size,
            TrackedResource::TextureView => self.texture_views > 0,
            TrackedResource::BindGroup => self.bind_groups > 0,
            TrackedResource::BindGroupLayout => self.bind_group_layouts > 0,
            TrackedResource::RenderPipeline => self.render_pipelines > 0,
            TrackedResource::PipelineLayout => self.pipeline_layouts > 0,
            TrackedResource::Sampler => self.samplers > 0,
            TrackedResource::CommandEncoder => self.command_encoders > 0,
            TrackedResource::ShaderModule => self.shader_modules > 0,
        }
    }

    /// Counts a resource that has been created.
    pub fn begin(&mut self, r: TrackedResource)
        requires
            old(self).can_begin(r),
        ensures
            *final(self) == old(self).begun(r),
    {
        match r {
            TrackedResource::Buffer { size } => {
                self.buffers = self.buffers + 1;
                self.buffer_memory = self.buffer_memory + size;
            },
            TrackedResource::Texture { size } => {
                self.textures = self.textures + 1;
                self.texture_memory = self.texture_memory + size;
            },
            TrackedResource::TextureView => {
                self.texture_views = self.texture_views + 1;
            },
            TrackedResource::BindGroup => {
                self.bind_groups = self.bind_groups + 1;
            },
            TrackedResource::BindGroupLayout => {
                self.bind_group_layouts = self.bind_group_layouts + 1;
            },
            TrackedResource::RenderPipeline => {
                self.render_pipelines = self.render_pipelines + 1;
            },
            TrackedResource::PipelineLayout => {
                self.pipeline_layouts = self.pipeline_layouts + 1;
            },
            TrackedResource::Sampler => {
                self.samplers = self.samplers + 1;
            },
            TrackedResource::CommandEncoder => {
                self.command_encoders = self.command_encoders + 1;
            },
            TrackedResource::ShaderModule => {
                self.shader_modules = self.shader_modules + 1;
            },
        }
    }

    /// Uncounts a resource that is being destroyed.
    pub fn end(&mut self, r: TrackedResource)
        requires
            old(self).can_end(r),
        ensures
            *final(self) == old(self).ended(r),
    {
        match r {
            TrackedResource::Buffer { size } => {
                self.buffers = self.buffers - 1;
                self.buffer_memory = self.buffer_memory - size;
            },
            TrackedResource::Texture { size } => {
                self.textures = self.textures - 1;
                self.texture_memory = self.texture_memory - size;
            },
            TrackedResource::TextureView => {
                self.texture_views = self.texture_views - 1;
            },
            TrackedResource::BindGroup => {
                self.bind_groups = self.bind_groups - 1;
            },
            TrackedResource::BindGroupLayout => {
                self.bind_group_layouts = self.bind_group_layouts - 1;
            },
            TrackedResource::RenderPipeline => {
                self.render_pipelines = self.render_pipelines - 1;
            },
            TrackedResource::PipelineLayout => {
                self.pipeline_layouts = self.pipeline_layouts - 1;
            },
            TrackedResource::Sampler => {
                self.samplers = self.samplers - 1;
            },
            TrackedResource::CommandEncoder => {
                self.command_encoders = self.command_encoders - 1;
            },
            TrackedResource::ShaderModule => {
                self.shader_modules = self.shader_modules - 1;
            },
        }
    }
}

impl Default for ResourceUsages {
    fn default() -> (s: Self)
        ensures
            s == ResourceUsages::zero(),
    {
        ResourceUsages::new()
    }
}

/// Law: removing a resource right after adding it restores the usages.
pub proof fn law_end_undoes_begin(s: ResourceUsages, r: TrackedResource)
    requires
        s.can_begin(r),
    ensures
        s.begun(r).can_end(r),
        s.begun(r).ended(r) == s,
{
}

/// Law: adding a resource that was just removed restores the usages.
pub proof fn law_begin_undoes_end(s: ResourceUsages, r: TrackedResource)
    requires
        s.can_end(r),
    ensures
        s.ended(r).can_begin(r),
        s.ended(r).begun(r) == s,
{
}

/// Law: the order in which resources are added does not matter.
pub proof fn law_begin_commutes(s: ResourceUsages, a: TrackedResource, b: TrackedResource)
    requires
        s.can_begin(a),
        s.begun(a).can_begin(b),
        s.can_begin(b),
        s.begun(b).can_begin(a),
    ensures
        s.begun(a).begun(b) == s.begun(b).begun(a),
{
}

/// The number of resources counted, of all kinds together.
pub open spec fn resource_count(s: ResourceUsages) -> int {
    s.buffers + s.textures + s.texture_views + s.bind_groups + s.bind_group_layouts
        + s.render_pipelines + s.pipeline_layouts + s.samplers + s.command_encoders
        + s.shader_modules
}

/// The bytes counted, of buffers and textures together.
pub open spec fn memory_count(s: ResourceUsages) -> int {
    s.buffer_memory + s.texture_memory
}

/// The bytes a resource holds: the size of a buffer or texture, none for
/// the other kinds.
pub open spec fn resource_bytes(r: TrackedResource) -> int {
    match r {
        TrackedResource::Buffer { size } => size as int,
        TrackedResource::Texture { size } => size as int,
        _ => 0,
    }
}

/// Law: adding a resource counts exactly one more resource and its bytes,
/// and lowers no counter.
pub proof fn law_begin_counts_one_resource(s: ResourceUsages, r: TrackedResource)
    requires
        s.can_begin(r),
    ensures
        resource_count(s.begun(r)) == resource_count(s) + 1,
        memory_count(s.begun(r)) == memory_count(s) + resource_bytes(r),
        s.begun(r).buffers >= s.buffers,
        s.begun(r).textures >= s.textures,
        s.begun(r).texture_views >= s.texture_views,
        s.begun(r).bind_groups >= s.bind_groups,
        s.begun(r).bind_group_layouts >= s.bind_group_layouts,
        s.begun(r).render_pipelines >= s.render_pipelines,
        s.begun(r).pipeline_layouts >= s.pipeline_layouts,
        s.begun(r).samplers >= s.samplers,
        s.begun(r).command_encoders >= s.command_encoders,
        s.begun(r).shader_modules >= s.shader_modules,
        s.begun(r).buffer_memory >= s.buffer_memory,
        s.begun(r).texture_memory >= s.texture_memory,
{
}

/// Law: different resources are counted differently: adding `a` and
/// adding `b` give the same usages only when `a` and `b` are the same
/// resource. In particular no two kinds share a counter.
pub proof fn law_kinds_have_their_own_counters(s: ResourceUsages, a: TrackedResource, b: TrackedResource)
    requires
        s.can_begin(a),
        s.can_begin(b),
    ensures
        s.begun(a) == s.begun(b) <==> a == b,
{
}

/// Law: each kind of resource is counted in the counter named after it,
/// buffers and textures also in their memory counters.
pub proof fn law_each_kind_has_its_named_counter(s: ResourceUsages, r: TrackedResource)
    requires
        s.can_begin(r),
    ensures
        r is Buffer <==> s.begun(r).buffers == s.buffers + 1,
        r is Texture <==> s.begun(r).textures == s.textures + 1,
        r is TextureView <==> s.begun(r).texture_views == s.texture_views + 1,
        r is BindGroup <==> s.begun(r).bind_groups == s.bind_groups + 1,
        r is BindGroupLayout <==> s.begun(r).bind_group_layouts == s.bind_group_layouts + 1,
        r is RenderPipeline <==> s.begun(r).render_pipelines == s.render_pipelines + 1,
        r is PipelineLayout <==> s.begun(r).pipeline_layouts == s.pipeline_layouts + 1,
        r is Sampler <==> s.begun(r).samplers == s.samplers + 1,
        r is CommandEncoder <==> s.begun(r).command_encoders == s.command_encoders + 1,
        r is ShaderModule <==> s.begun(r).shader_modules == s.shader_modules + 1,
        r matches TrackedResource::Buffer { size } ==> s.begun(r).buffer_memory == s.buffer_memory + size,
        r matches TrackedResource::Texture { size } ==> s.begun(r).texture_memory == s.texture_memory + size,
        !(r is Buffer) ==> s.begun(r).buffer_memory == s.buffer_memory,
        !(r is Texture) ==> s.begun(r).texture_memory == s.texture_memory,
{
}

/// A value that is counted in a [`ResourceUsages`] while it lives.
#[derive(Clone, Debug)]
pub struct Track<T> {
    inner: T,
    resource: TrackedResource,
}

impl<T> Track<T> {
    /// The tracked value.
    pub closed spec fn inner(&self) -> T {
        self.inner
    }

    /// What the value is counted as.
    pub closed spec fn resource(&self) -> TrackedResource {
        self.resource
    }

    /// Starts tracking `inner`, counting it in `stats`.
    pub fn new(inner: T, resource: TrackedResource, stats: &mut ResourceUsages) -> (t: Self)
        requires
            old(stats).can_begin(resource),
        ensures
            t.inner() == inner,
            t.resource() == resource,
            *final(stats) == old(stats).begun(resource),
    {
        stats.begin(resource);
        Track { inner, resource }
    }

    /// Stops tracking and hands the value back, uncounting it in `stats`.
    pub fn into_inner(self, stats: &mut ResourceUsages) -> (inner: T)
        requires
            old(stats).can_end(self.resource()),
        ensures
            inner == self.inner(),
            *final(stats) == old(stats).ended(self.resource()),
    {
        stats.end(self.resource);
        self.inner
    }

    /// What the value is counted as.
    pub fn tracked_resource(&self) -> (r: TrackedResource)
        ensures
            r == self.resource(),
    {
        self.resource
    }

    /// The tracked value.
    pub fn get(&self) -> (r: &T)
        ensures
            *r == self.inner(),
    {
        &self.inner
    }
}

/// Starts tracking `value` as `resource`.
pub fn track<T>(value: T, resource: TrackedResource, stats: &mut ResourceUsages) -> (t: Track<T>)
    requires
        old(stats).can_begin(resource),
    ensures
        t.inner() == value,
        t.resource() == resource,
        *final(stats) == old(stats).begun(resource),
{
    Track::new(value, resource, stats)
}

/// Starts tracking a texture of `size` bytes.
pub fn track_with<T>(value: T, size: u64, stats: &mut ResourceUsages) -> (t: Track<T>)
    requires
        old(stats).can_begin(TrackedResource::Texture { size }),
    ensures
        t.inner() == value,
        t.resource() == (TrackedResource::Texture { size }),
        *final(stats) == old(stats).begun(TrackedResource::Texture { size }),
{
    Track::new(value, TrackedResource::Texture { size }, stats)
}

/// The memory a texture is counted with: width times height times layers
/// times the bytes per pixel, 4 where the format gives no byte cost.
pub fn texture_memory_size(
    width: u32,
    height: u32,
    depth_or_array_layers: u32,
    pixel_byte_cost: Option<u32>,
) -> (size: u64)
    requires
        width * height * depth_or_array_layers <= u64::MAX,
        width * height * depth_or_array_layers * (match pixel_byte_cost {
            Some(c) => c as int,
            None => 4,
        }) <= u64::MAX,
    ensures
        size == width * height * depth_or_array_layers * (match pixel_byte_cost {
            Some(c) => c as int,
            None => 4,
        }),
{
    let cost: u32 = match pixel_byte_cost {
        Some(c) => c,
        None => 4,
    };
    let w = width as u64;
    let h = height as u64;
    let d = depth_or_array_layers as u64;
    let c = cost as u64;
    assert(w * h <= u64::MAX) by (nonlinear_arith)
        requires
            w <= u32::MAX,
            h <= u32::MAX,
    ;
    w * h * d * c
}

} // verus!
