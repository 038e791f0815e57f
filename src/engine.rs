use vstd::prelude::*;

verus! {

/// Feature layers per window (the channel depth of one window).
pub const LAYERS: usize = 6;

/// Positions per window.
pub const WINDOW: usize = 15;

/// Columns of the network's output per window: positive, then negative class.
pub const OUTPUT_COLUMNS: usize = 2;

/// Why a batch could not be scored.
#[derive(Clone, Copy, Debug, PartialEq, Eq, Structural)]
pub enum PredictError {
    /// The flat window buffer does not hold `count * LAYERS * WINDOW` values.
    ShapeMismatch,
    /// The network's output does not hold two columns for each window.
    ForwardPass,
}

/// The number of values that a buffer of `count` windows holds.
pub open spec fn windows_len(count: int) -> int {
    count * LAYERS * WINDOW
}

/// The first value of each consecutive pair, the last value of an odd-length
/// sequence counting as a pair of its own.
pub open spec fn first_column<T>(s: Seq<T>) -> Seq<T> {
    Seq::new(((s.len() + 1) / 2) as nat, |i: int| s[2 * i])
}

/// Checks a flat buffer's length against a window count and gives the
/// batch-major tensor shape `[count, LAYERS, WINDOW]` that the network takes.
pub fn batch_shape(len: usize, count: usize) -> (r: Result<Vec<i64>, PredictError>)
    ensures
        r is Ok <==> len as int == windows_len(count as int),
        r is Ok ==> r->Ok_0@ == seq![count as i64, LAYERS as i64, WINDOW as i64],
        r is Ok ==> r->Ok_0@[0] as int == count as int,
        r is Err ==> r == Err::<Vec<i64>, PredictError>(PredictError::ShapeMismatch),
{
    match count.checked_mul(LAYERS * WINDOW) {
        Some(n) if n == len => {
            proof {
                assert(count as int * (LAYERS * WINDOW) <= usize::MAX as int);
                assert(usize::MAX as int <= u64::MAX as int);
                assert(count as int <= i64::MAX as int);
            }
            let mut shape: Vec<i64> = Vec::new();
            shape.push(count as i64);
            shape.push(LAYERS as i64);
            shape.push(WINDOW as i64);
            Ok(shape)
        },
        _ => Err(PredictError::ShapeMismatch),
    }
}

/// Takes the positive-class probability of each window out of the network's
/// output, which holds `[positive, negative]` for each of `count` windows.
pub fn positive_scores<T: Copy>(raw: &Vec<T>, count: usize) -> (r: Result<Vec<T>, PredictError>)
    ensures
        r is Ok <==> raw@.len() == OUTPUT_COLUMNS * count,
        r is Ok ==> r->Ok_0@ == first_column(raw@),
        r is Ok ==> r->Ok_0@.len() == count,
        r is Ok ==> forall|i: int| 0 <= i < count ==> r->Ok_0@[i] == raw@[OUTPUT_COLUMNS * i],
        r is Err ==> r == Err::<Vec<T>, PredictError>(PredictError::ForwardPass),
{
    if count > raw.len() / OUTPUT_COLUMNS || raw.len() != OUTPUT_COLUMNS * count {
        return Err(PredictError::ForwardPass);
    }
    let mut out: Vec<T> = Vec::with_capacity(count);
    let mut i: usize = 0;
    while i < count
        invariant
            raw@.len() == 2 * count,
            2 * count <= usize::MAX,
            i <= count,
            out@ == Seq::new(i as nat, |k: int| raw@[2 * k]),
        decreases count - i,
    {
        let v: T = raw[2 * i];
        out.push(v);
        i = i + 1;
        assert(out@ =~= Seq::new(i as nat, |k: int| raw@[2 * k]));
    }
    assert(out@ =~= first_column(raw@));
    Ok(out)
}

/// Length is preserved through a batch: a network output of two columns for
/// `count` windows yields exactly `count` scores, each the first column of its
/// window's row.
pub proof fn lemma_length_preserved<T>(count: nat, raw: Seq<T>)
    requires
        raw.len() == OUTPUT_COLUMNS * count,
    ensures
        first_column(raw).len() == count,
        forall|i: int| 0 <= i < count ==> #[trigger] first_column(raw)[i] == raw[2 * i],
{
}

} // verus!
