//! The per-channel settings of the automaton: a filter and an activation body.

use vstd::prelude::*;
use vstd::string::*;

use crate::bytes::{is_packed_buffer, words_as_bytes};
use crate::filter::{NCAFilter, buffer_words, entries_of, filter_uniform_bytes, FilterMatrix, FILTER_BUFFER_SIZE, ONE_BITS};

verus! {

/// The entries of the identity matrix, column after column.
pub open spec fn identity_entries() -> Seq<u32> {
    seq![ONE_BITS, 0u32, 0u32, 0u32, ONE_BITS, 0u32, 0u32, 0u32, ONE_BITS]
}

/// What the automaton does on one colour channel.
#[derive(Debug)]
pub struct NCAChannel {
    /// The 3x3 filter, entries as `f32` bit patterns.
    pub filter: FilterMatrix,
    /// The body of the activation function, kernel code from `x: f32` to `f32`.
    pub activation_fn: String,
}

/// A channel with the identity filter and the identity activation.
pub open spec fn is_default_channel(c: NCAChannel) -> bool {
    &&& entries_of(c.filter) == identity_entries()
    &&& c.activation_fn@ == "return x;"@
}

impl Default for NCAChannel {
    fn default() -> (r: NCAChannel)
        ensures
            is_default_channel(r),
    {
        NCAChannel { filter: FilterMatrix::identity(), activation_fn: String::from_str("return x;") }
    }
}

/// The settings of all three colour channels.
#[derive(Debug)]
pub struct NCASettings {
    pub red: NCAChannel,
    pub green: NCAChannel,
    pub blue: NCAChannel,
}

/// Every channel has its default settings.
pub open spec fn is_default_settings(s: NCASettings) -> bool {
    &&& is_default_channel(s.red)
    &&& is_default_channel(s.green)
    &&& is_default_channel(s.blue)
}

impl Default for NCASettings {
    fn default() -> (r: NCASettings)
        ensures
            is_default_settings(r),
    {
        NCASettings { red: NCAChannel::default(), green: NCAChannel::default(), blue: NCAChannel::default() }
    }
}

/// The settings to run after an attempt to load them: the loaded ones, or else
/// the defaults, together with whether the defaults must be stored in place of
/// what could not be loaded.
pub fn settings_or_default(loaded: Option<NCASettings>) -> (r: (NCASettings, bool))
    ensures
        loaded is Some ==> r.0 == loaded->Some_0 && !r.1,
        loaded is None ==> is_default_settings(r.0) && r.1,
{
    match loaded {
        Some(settings) => (settings, false),
        None => (NCASettings::default(), true),
    }
}

/// The byte contents of the three filter uniform buffers.
#[derive(Debug)]
pub struct NCABufferData {
    pub buffer_red: Vec<u8>,
    pub buffer_green: Vec<u8>,
    pub buffer_blue: Vec<u8>,
}

/// `bytes` is a filter buffer for `mat`: the packed filter in byte form.
pub open spec fn is_filter_buffer(bytes: Seq<u8>, mat: FilterMatrix) -> bool {
    &&& bytes.len() == FILTER_BUFFER_SIZE
    &&& is_packed_buffer(bytes, buffer_words(mat))
}

impl NCABufferData {
    /// The buffer contents of three already packed filters.
    pub fn from_filter(filter: &NCAFilter) -> (r: NCABufferData)
        ensures
            is_packed_buffer(r.buffer_red@, filter.red@),
            is_packed_buffer(r.buffer_green@, filter.green@),
            is_packed_buffer(r.buffer_blue@, filter.blue@),
            r.buffer_red@.len() == FILTER_BUFFER_SIZE,
            r.buffer_green@.len() == FILTER_BUFFER_SIZE,
            r.buffer_blue@.len() == FILTER_BUFFER_SIZE,
    {
        NCABufferData {
            buffer_red: words_as_bytes(&filter.red),
            buffer_green: words_as_bytes(&filter.green),
            buffer_blue: words_as_bytes(&filter.blue),
        }
    }
}

impl NCASettings {
    /// Fresh contents for the three filter buffers, replaced as a whole whenever
    /// a filter changes; the bind groups must be rebuilt after that.
    pub fn filter_buffers(&self) -> (r: NCABufferData)
        ensures
            is_filter_buffer(r.buffer_red@, self.red.filter),
            is_filter_buffer(r.buffer_green@, self.green.filter),
            is_filter_buffer(r.buffer_blue@, self.blue.filter),
    {
        NCABufferData {
            buffer_red: filter_uniform_bytes(self.red.filter),
            buffer_green: filter_uniform_bytes(self.green.filter),
            buffer_blue: filter_uniform_bytes(self.blue.filter),
        }
    }
}

} // verus!
