use vstd::prelude::*;

verus! {

/// Build mode of the running process, fixed at build/packaging time and
/// never mutated afterwards. Debug tooling is active only under `Debug`.
#[derive(Clone, Copy, Debug, PartialEq, Eq, Structural)]
pub enum BuildMode {
    Debug,
    Release,
}

} // verus!
