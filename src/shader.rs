//! The kernel program: fixed boilerplate (storage images, filter uniforms, a
//! counter-based hash for the seed, the toroidal neighbourhood and the
//! convolution) with the three channels' activation bodies spliced in.

use vstd::prelude::*;
use vstd::string::*;

use crate::node::ReinitPipeline;
use crate::settings::NCASettings;

verus! {

/// The program text up to the body of the red activation function.
pub const PROGRAM_HEAD: &'static str = "@group(0) @binding(0)
var texture_in: texture_storage_2d<rgba8unorm, read>;

@group(0) @binding(1)
var texture_out: texture_storage_2d<rgba8unorm, write>;

@group(0) @binding(2)
var<uniform> filter_red: mat3x3f;
@group(0) @binding(3)
var<uniform> filter_green: mat3x3f;
@group(0) @binding(4)
var<uniform> filter_blue: mat3x3f;

fn hash(value: u32) -> u32 {
    var state = value;
    state = state ^ 2747636419u;
    state = state * 2654435769u;
    state = state ^ state >> 16u;
    state = state * 2654435769u;
    state = state ^ state >> 16u;
    state = state * 2654435769u;
    return state;
}

fn randomFloat(value: u32) -> f32 {
    return f32(hash(value)) / 4294967295.0;
}

@compute @workgroup_size(8, 8, 1)
fn init(@builtin(global_invocation_id) invocation_id: vec3<u32>, @builtin(num_workgroups) num_workgroups: vec3<u32>) {
    let loc = vec2<i32>(invocation_id.xy);
    let dims = textureDimensions(texture_in);
    let total_pixels = dims.x * dims.y;

    let random_red = randomFloat(invocation_id.y * dims.x + invocation_id.x);
    let random_green = randomFloat(total_pixels + invocation_id.y * dims.x + invocation_id.x);
    let random_blue = randomFloat(u32(2) * total_pixels + invocation_id.y * dims.x + invocation_id.x);
    let color = vec4<f32>(random_red, random_green, random_blue, 1.0);

    textureStore(texture_out, loc, color);
}

fn get_cell(loc: vec2<i32>, offset_x: i32, offset_y: i32) -> vec3<f32> {
    let dims = vec2<i32>(textureDimensions(texture_in));
    var offset_loc = (loc + vec2<i32>(offset_x, offset_y) + dims) % dims;
    let value: vec4<f32> = textureLoad(texture_in, offset_loc);
    return value.xyz;
}

fn nca_step(loc: vec2<i32>) -> vec3<f32> {
    var new_val = vec3<f32>(0., 0., 0.);
    for (var i: i32 = -1; i <= 1; i++) {
        for (var j: i32 = -1; j <= 1; j++) {
            new_val[0] += get_cell(loc, i, j)[0] * filter_red[i+1][j+1];
            new_val[1] += get_cell(loc, i, j)[1] * filter_green[i+1][j+1];
            new_val[2] += get_cell(loc, i, j)[2] * filter_blue[i+1][j+1];
        }
    }
    return new_val;
}

fn activation_fn_red(x: f32) -> f32 {\n\t";

/// The text between the red and the green activation bodies.
pub const GREEN_HEAD: &'static str = "\n}

fn activation_fn_green(x: f32) -> f32 {\n\t";

/// The text between the green and the blue activation bodies.
pub const BLUE_HEAD: &'static str = "\n}

fn activation_fn_blue(x: f32) -> f32 {\n\t";

/// The program text after the body of the blue activation function: the
/// update entry point, which clamps each activated channel to [0, 1].
pub const PROGRAM_TAIL: &'static str = "\n}

@compute @workgroup_size(8, 8, 1)
fn update(@builtin(global_invocation_id) invocation_id: vec3<u32>) {
    let loc = vec2<i32>(invocation_id.xy);
    let val = nca_step(loc);
    let color = vec4<f32>(
        clamp(activation_fn_red(val[0]), 0., 1.),
        clamp(activation_fn_green(val[1]), 0., 1.),
        clamp(activation_fn_blue(val[2]), 0., 1.),
        1.,
    );
    textureStore(texture_out, loc, color);
}\n";

/// The program for the activation bodies `red`, `green` and `blue`, each spliced
/// verbatim into its function.
pub open spec fn program_text(red: Seq<char>, green: Seq<char>, blue: Seq<char>) -> Seq<char> {
    PROGRAM_HEAD@ + red + GREEN_HEAD@ + green + BLUE_HEAD@ + blue + PROGRAM_TAIL@
}

/// Builds the kernel program for the given settings. The activation bodies are
/// not checked: a body that does not compile leaves the kernels never ready.
pub fn shader_source(settings: &NCASettings) -> (r: String)
    ensures
        r@ == program_text(
            settings.red.activation_fn@,
            settings.green.activation_fn@,
            settings.blue.activation_fn@,
        ),
{
    let mut text = String::from_str(PROGRAM_HEAD);
    text.append(settings.red.activation_fn.as_str());
    text.append(GREEN_HEAD);
    text.append(settings.green.activation_fn.as_str());
    text.append(BLUE_HEAD);
    text.append(settings.blue.activation_fn.as_str());
    text.append(PROGRAM_TAIL);
    text
}

/// Reaction to a change of an activation function: raises the reinit flag and
/// returns the regenerated program, which must be stored where the kernels are
/// loaded from before they are recompiled.
pub fn on_update_activation_fn(settings: &NCASettings, signal: &mut ReinitPipeline) -> (r: String)
    ensures
        final(signal).reinit,
        r@ == program_text(
            settings.red.activation_fn@,
            settings.green.activation_fn@,
            settings.blue.activation_fn@,
        ),
{
    signal.request();
    shader_source(settings)
}

} // verus!
