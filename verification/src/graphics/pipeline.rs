use vstd::prelude::*;

verus! {

/// The channel of the geometry buffer that the debug view shows.
#[derive(Clone, Copy, Debug, PartialEq, Eq, Structural)]
pub enum Channel {
    Position,
    Normal,
    Diffuse,
    Occlusion,
    Specular,
    Shininess,
    Emission,
}

/// The number by which the debug shader selects a channel.
pub open spec fn channel_number(channel: Channel) -> u32 {
    match channel {
        Channel::Position => 0,
        Channel::Normal => 1,
        Channel::Diffuse => 2,
        Channel::Occlusion => 3,
        Channel::Specular => 4,
        Channel::Shininess => 5,
        Channel::Emission => 6,
    }
}

impl Channel {
    /// The channel's number in the debug uniform.
    pub fn as_u32(&self) -> (n: u32)
        ensures
            n == channel_number(*self),
    {
        match self {
            Channel::Position => 0,
            Channel::Normal => 1,
            Channel::Diffuse => 2,
            Channel::Occlusion => 3,
            Channel::Specular => 4,
            Channel::Shininess => 5,
            Channel::Emission => 6,
        }
    }
}

/// Channels have distinct numbers, all below 7.
pub proof fn law_channel_numbers_are_distinct(a: Channel, b: Channel)
    ensures
        channel_number(a) < 7,
        channel_number(a) == channel_number(b) <==> a == b,
{
}

/// Where the mesh drawing pass binds its buffers.
#[derive(Clone, Debug)]
pub struct DrawMeshesWithMaterialsConfig {
    pub instance_buffer_slot: u32,
    pub vertex_buffer_slot: u32,
    pub material_bind_group_index: u32,
}

/// Marks a render target that is not to be drawn.
#[derive(Clone, Copy, Debug)]
pub struct DontRender;

impl Default for DontRender {
    fn default() -> (d: Self)
        ensures
            d == DontRender,
    {
        DontRender
    }
}

/// The number of point lights the globals uniform has room for.
pub const MAX_POINT_LIGHTS: usize = 16;

/// Adds a point light to the first free slot of the globals uniform's
/// light array, of which the first `num_point_lights` are taken. Returns
/// whether there was room; when there was not, nothing changes.
pub fn add_point_light<L>(
    point_lights: &mut [L; MAX_POINT_LIGHTS],
    num_point_lights: &mut u32,
    light: L,
) -> (added: bool)
    ensures
        added <==> *old(num_point_lights) < MAX_POINT_LIGHTS,
        added ==> *final(num_point_lights) == *old(num_point_lights) + 1,
        added ==> final(point_lights)@ == old(point_lights)@.update(
            *old(num_point_lights) as int,
            light,
        ),
        !added ==> *final(num_point_lights) == *old(num_point_lights),
        !added ==> final(point_lights)@ == old(point_lights)@,
        *old(num_point_lights) <= MAX_POINT_LIGHTS ==> *final(num_point_lights) <= MAX_POINT_LIGHTS,
{
    let index: usize = *num_point_lights as usize;
    if index < MAX_POINT_LIGHTS {
        point_lights[index] = light;
        *num_point_lights = *num_point_lights + 1;
        true
    } else {
        false
    }
}

} // verus!
