//! Named filters and activation bodies that the user saved for later use.

use vstd::prelude::*;

verus! {

/// The saved presets, each list in the order of saving.
#[derive(Debug)]
pub struct NCAPresets {
    filter_presets: Vec<(String, [u32; 9])>,
    activation_fn_presets: Vec<(String, String)>,
}

impl NCAPresets {
    /// The filter presets: a name and the nine entries of the filter, column
    /// after column, as `f32` bit patterns.
    pub closed spec fn spec_filter_presets(&self) -> Seq<(String, [u32; 9])> {
        self.filter_presets@
    }

    /// The activation presets: a name and the body of the activation function.
    pub closed spec fn spec_activation_fn_presets(&self) -> Seq<(String, String)> {
        self.activation_fn_presets@
    }

    /// Presets with the given lists.
    pub fn from_lists(
        filter_presets: Vec<(String, [u32; 9])>,
        activation_fn_presets: Vec<(String, String)>,
    ) -> (r: NCAPresets)
        ensures
            r.spec_filter_presets() == filter_presets@,
            r.spec_activation_fn_presets() == activation_fn_presets@,
    {
        NCAPresets { filter_presets, activation_fn_presets }
    }

    pub fn filter_presets(&self) -> (r: &Vec<(String, [u32; 9])>)
        ensures
            r@ == self.spec_filter_presets(),
    {
        &self.filter_presets
    }

    pub fn activation_fn_presets(&self) -> (r: &Vec<(String, String)>)
        ensures
            r@ == self.spec_activation_fn_presets(),
    {
        &self.activation_fn_presets
    }

    /// Saves a filter preset after all earlier ones.
    pub fn add_filter_preset(&mut self, name_and_filter: (String, [u32; 9]))
        ensures
            final(self).spec_filter_presets() == old(self).spec_filter_presets().push(name_and_filter),
            final(self).spec_activation_fn_presets() == old(self).spec_activation_fn_presets(),
    {
        self.filter_presets.push(name_and_filter);
    }

    /// Saves an activation preset after all earlier ones.
    pub fn add_activation_fn_preset(&mut self, name_and_function: (String, String))
        ensures
            final(self).spec_activation_fn_presets() == old(self).spec_activation_fn_presets().push(
                name_and_function,
            ),
            final(self).spec_filter_presets() == old(self).spec_filter_presets(),
    {
        self.activation_fn_presets.push(name_and_function);
    }
}

impl Default for NCAPresets {
    /// No presets.
    fn default() -> (r: NCAPresets)
        ensures
            r.spec_filter_presets().len() == 0,
            r.spec_activation_fn_presets().len() == 0,
    {
        NCAPresets { filter_presets: Vec::new(), activation_fn_presets: Vec::new() }
    }
}

/// The presets to offer after an attempt to load them: the loaded ones, or else
/// none, together with whether the empty list must be stored in place of what
/// could not be loaded.
pub fn presets_or_default(loaded: Option<NCAPresets>) -> (r: (NCAPresets, bool))
    ensures
        loaded is Some ==> r.0 == loaded->Some_0 && !r.1,
        loaded is None ==> r.0.spec_filter_presets().len() == 0 && r.0.spec_activation_fn_presets().len()
            == 0 && r.1,
{
    match loaded {
        Some(presets) => (presets, false),
        None => (NCAPresets::default(), true),
    }
}

} // verus!
