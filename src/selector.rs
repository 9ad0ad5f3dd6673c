use rand::Rng;
use vstd::prelude::*;

verus! {

/// Why no item could be chosen from a batch.
#[derive(Debug, Clone, Copy, PartialEq, Eq, Structural)]
pub enum SelectError {
    /// The batch holds no item at all.
    EmptyBatch,
    /// The selection window is zero items wide.
    EmptyWindow,
    /// The selection window reaches past the end of the batch.
    WindowExceedsBatch,
}

/// The outcome that selection owes on a batch of `len` items with window
/// `window`: `Ok(())` when an item can be chosen, else the error.
pub open spec fn selection_check(len: nat, window: nat) -> Result<(), SelectError> {
    if len == 0 {
        Err(SelectError::EmptyBatch)
    } else if window == 0 {
        Err(SelectError::EmptyWindow)
    } else if window > len {
        Err(SelectError::WindowExceedsBatch)
    } else {
        Ok(())
    }
}

/// The position chosen in the window for a drawn number `pick`.
pub open spec fn selected_index(window: nat, pick: nat) -> nat
    recommends
        window > 0,
{
    pick % window
}

/// Relies on `rand::thread_rng` and `rand::Rng::gen_range`: a number drawn from
/// `0..bound`; `gen_range` panics on an empty range, so `bound` is positive.
#[verifier::external_body]
fn random_below(bound: usize) -> (r: usize)
    requires
        bound > 0,
    ensures
        r < bound,
{
    rand::thread_rng().gen_range(0..bound)
}

/// Chooses the item at position `pick % window` of `batch`, so always one of
/// the first `window` items; fails as `selection_check` says.
pub fn select_at<T>(batch: &Vec<T>, window: usize, pick: usize) -> (r: Result<&T, SelectError>)
    ensures
        selection_check(batch@.len(), window as nat) is Err ==> r == Err::<&T, SelectError>(
            selection_check(batch@.len(), window as nat)->Err_0,
        ),
        selection_check(batch@.len(), window as nat) is Ok ==> r is Ok
            && *r->Ok_0 == batch@[selected_index(window as nat, pick as nat) as int],
{
    if batch.len() == 0 {
        Err(SelectError::EmptyBatch)
    } else if window == 0 {
        Err(SelectError::EmptyWindow)
    } else if window > batch.len() {
        Err(SelectError::WindowExceedsBatch)
    } else {
        Ok(&batch[pick % window])
    }
}

/// Chooses one of the first `window` items of `batch` at random.
pub fn select_item<T>(batch: &Vec<T>, window: usize) -> (r: Result<&T, SelectError>)
    ensures
        selection_check(batch@.len(), window as nat) is Err ==> r == Err::<&T, SelectError>(
            selection_check(batch@.len(), window as nat)->Err_0,
        ),
        selection_check(batch@.len(), window as nat) is Ok ==> r is Ok && exists|i: int|
            0 <= i < window && *r->Ok_0 == batch@[i],
{
    if batch.len() == 0 || window == 0 || window > batch.len() {
        return select_at(batch, window, 0);
    }
    let pick = random_below(window);
    let r = select_at(batch, window, pick);
    assert(*r->Ok_0 == batch@[(pick % window) as int]);
    r
}

} // verus!
