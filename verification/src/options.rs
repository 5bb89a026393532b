//! Configuration of one simplification run.

use vstd::prelude::*;

verus! {

/// The texts of a list of strings, in order.
pub open spec fn texts(names: Seq<String>) -> Seq<Seq<char>> {
    Seq::new(names.len(), |i: int| names[i]@)
}

/// Which passes to skip and which features to apply during simplification.
#[derive(Debug, Clone, PartialEq, Eq)]
pub struct SimplifyOptions {
    /// Names of the optimizers to skip; absent or empty runs all of them.
    pub skip_optimizers: Option<Vec<String>>,
    /// Enable constant folding.
    pub constant_folding: bool,
    /// Enable shape inference.
    pub shape_inference: bool,
    /// Tensor size threshold handed to the native engine.
    pub tensor_size_threshold: usize,
}

impl SimplifyOptions {
    /// The options every builder chain starts from: nothing skipped, both
    /// features off, threshold zero.
    pub open spec fn initial(self) -> bool {
        &&& self.skip_optimizers is None
        &&& !self.constant_folding
        &&& !self.shape_inference
        &&& self.tensor_size_threshold == 0
    }

    /// The value `with_constant_folding` returns.
    pub open spec fn set_constant_folding(self, enabled: bool) -> Self {
        SimplifyOptions { constant_folding: enabled, ..self }
    }

    /// The value `with_shape_inference` returns.
    pub open spec fn set_shape_inference(self, enabled: bool) -> Self {
        SimplifyOptions { shape_inference: enabled, ..self }
    }

    /// The value `with_skip_optimizers` returns.
    pub open spec fn set_skip_optimizers(self, optimizers: Vec<String>) -> Self {
        SimplifyOptions { skip_optimizers: Some(optimizers), ..self }
    }

    /// The value `with_tensor_size_threshold` returns.
    pub open spec fn set_tensor_size_threshold(self, threshold: usize) -> Self {
        SimplifyOptions { tensor_size_threshold: threshold, ..self }
    }

    /// The skip list as the native side will see it: an absent list is an
    /// empty one.
    pub open spec fn skip_names(self) -> Seq<Seq<char>> {
        match self.skip_optimizers {
            Some(names) => texts(names@),
            None => Seq::empty(),
        }
    }

    pub fn new() -> (r: Self)
        ensures
            r.initial(),
    {
        SimplifyOptions {
            skip_optimizers: None,
            constant_folding: false,
            shape_inference: false,
            tensor_size_threshold: 0,
        }
    }

    pub fn with_constant_folding(self, enabled: bool) -> (r: Self)
        ensures
            r == self.set_constant_folding(enabled),
    {
        let mut options = self;
        options.constant_folding = enabled;
        options
    }

    pub fn with_shape_inference(self, enabled: bool) -> (r: Self)
        ensures
            r == self.set_shape_inference(enabled),
    {
        let mut options = self;
        options.shape_inference = enabled;
        options
    }

    pub fn with_skip_optimizers(self, optimizers: Vec<String>) -> (r: Self)
        ensures
            r == self.set_skip_optimizers(optimizers),
    {
        let mut options = self;
        options.skip_optimizers = Some(optimizers);
        options
    }

    pub fn with_tensor_size_threshold(self, threshold: usize) -> (r: Self)
        ensures
            r == self.set_tensor_size_threshold(threshold),
    {
        let mut options = self;
        options.tensor_size_threshold = threshold;
        options
    }
}

impl Default for SimplifyOptions {
    fn default() -> (r: Self)
        ensures
            r.initial(),
    {
        SimplifyOptions::new()
    }
}

/// Builder round trip: whatever is set through the four setters, in the
/// order below, is read back unchanged from the four fields.
pub proof fn lemma_builder_round_trip(
    start: SimplifyOptions,
    folding: bool,
    inference: bool,
    threshold: usize,
    skip: Vec<String>,
)
    ensures
        ({
            let built = start.set_constant_folding(folding).set_shape_inference(
                inference,
            ).set_tensor_size_threshold(threshold).set_skip_optimizers(skip);
            &&& built.constant_folding == folding
            &&& built.shape_inference == inference
            &&& built.tensor_size_threshold == threshold
            &&& built.skip_optimizers == Some(skip)
        }),
{
}

/// No cross-field interference: each setter leaves the three fields it is
/// not named after as they were.
pub proof fn lemma_setters_touch_one_field(
    o: SimplifyOptions,
    flag: bool,
    threshold: usize,
    skip: Vec<String>,
)
    ensures
        o.set_constant_folding(flag).shape_inference == o.shape_inference,
        o.set_constant_folding(flag).tensor_size_threshold == o.tensor_size_threshold,
        o.set_constant_folding(flag).skip_optimizers == o.skip_optimizers,
        o.set_shape_inference(flag).constant_folding == o.constant_folding,
        o.set_shape_inference(flag).tensor_size_threshold == o.tensor_size_threshold,
        o.set_shape_inference(flag).skip_optimizers == o.skip_optimizers,
        o.set_tensor_size_threshold(threshold).constant_folding == o.constant_folding,
        o.set_tensor_size_threshold(threshold).shape_inference == o.shape_inference,
        o.set_tensor_size_threshold(threshold).skip_optimizers == o.skip_optimizers,
        o.set_skip_optimizers(skip).constant_folding == o.constant_folding,
        o.set_skip_optimizers(skip).shape_inference == o.shape_inference,
        o.set_skip_optimizers(skip).tensor_size_threshold == o.tensor_size_threshold,
{
}

/// The setters commute: the order of a builder chain does not matter.
pub proof fn lemma_setters_commute(
    o: SimplifyOptions,
    folding: bool,
    inference: bool,
    threshold: usize,
    skip: Vec<String>,
)
    ensures
        o.set_constant_folding(folding).set_shape_inference(inference)
            == o.set_shape_inference(inference).set_constant_folding(folding),
        o.set_constant_folding(folding).set_tensor_size_threshold(threshold)
            == o.set_tensor_size_threshold(threshold).set_constant_folding(folding),
        o.set_constant_folding(folding).set_skip_optimizers(skip)
            == o.set_skip_optimizers(skip).set_constant_folding(folding),
        o.set_shape_inference(inference).set_tensor_size_threshold(threshold)
            == o.set_tensor_size_threshold(threshold).set_shape_inference(inference),
        o.set_shape_inference(inference).set_skip_optimizers(skip)
            == o.set_skip_optimizers(skip).set_shape_inference(inference),
        o.set_tensor_size_threshold(threshold).set_skip_optimizers(skip)
            == o.set_skip_optimizers(skip).set_tensor_size_threshold(threshold),
{
}

} // verus!
