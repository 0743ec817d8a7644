use once_cell::sync::OnceCell;
use vstd::prelude::*;

verus! {

/// `once_cell::sync::OnceCell`, a cell that can be written once. Nothing of
/// its inside is known here; what it holds goes by the name `cell_value`.
#[verifier::external_type_specification]
#[verifier::external_body]
#[verifier::reject_recursive_types(T)]
pub struct ExOnceCell<T>(OnceCell<T>);

/// What a write-once cell holds: nothing, or the value it was filled with.
/// The three functions below say how `new`, `get` and `get_or_init` read and
/// change it.
pub uninterp spec fn cell_value(cell: OnceCell<u64>) -> Option<u64>;

/// `OnceCell::new`: a cell that holds nothing.
#[verifier::external_body]
fn cell_new() -> (cell: OnceCell<u64>)
    ensures
        cell_value(cell) == None::<u64>,
{
    OnceCell::new()
}

/// `OnceCell::get`: a copy of what the cell holds.
#[verifier::external_body]
fn cell_get(cell: &OnceCell<u64>) -> (value: Option<u64>)
    ensures
        value == cell_value(*cell),
{
    cell.get().copied()
}

/// `OnceCell::get_or_init` with an initialiser that yields `value`: an empty
/// cell is filled with `value`, a full one is left as it is; either way the
/// result is what the cell holds afterwards.
#[verifier::external_body]
fn cell_get_or_init(cell: &mut OnceCell<u64>, value: u64) -> (held: u64)
    ensures
        cell_value(*final(cell)) == Some(held),
        held == match cell_value(*old(cell)) {
            Some(first) => first,
            None => value,
        },
{
    *cell.get_or_init(|| value)
}

/// The calibration constant: the power-unit register, read once and kept for
/// the rest of the process.
pub struct Calibration {
    power_units: OnceCell<u64>,
}

impl View for Calibration {
    type V = Option<u64>;

    closed spec fn view(&self) -> Option<u64> {
        cell_value(self.power_units)
    }
}

impl Calibration {
    /// A calibration unit that has not read the register yet.
    pub fn new() -> (calibration: Calibration)
        ensures
            calibration@ == None::<u64>,
    {
        Calibration { power_units: cell_new() }
    }

    /// The cached constant, if the register has been read.
    pub fn get(&self) -> (value: Option<u64>)
        ensures
            value == self@,
    {
        cell_get(&self.power_units)
    }

    /// Whether the power-unit register still has to be read.
    pub fn needs_read(&self) -> (needed: bool)
        ensures
            needed == (self@ is None),
    {
        cell_get(&self.power_units).is_none()
    }

    /// Hands in a reading of the power-unit register. The first reading
    /// handed in becomes the constant; later ones are ignored. Returns the
    /// constant.
    pub fn calibrate(&mut self, reading: u64) -> (constant: u64)
        ensures
            final(self)@ == Some(constant),
            constant == calibrated(old(self)@, reading),
    {
        cell_get_or_init(&mut self.power_units, reading)
    }
}

/// The constant after a reading of the power-unit register was handed in.
pub open spec fn calibrated(constant: Option<u64>, reading: u64) -> u64 {
    match constant {
        Some(first) => first,
        None => reading,
    }
}

/// The constant after some readings were handed in, one after the other.
pub open spec fn calibrated_all(constant: Option<u64>, readings: Seq<u64>) -> Option<u64>
    decreases readings.len(),
{
    if readings.len() == 0 {
        constant
    } else {
        Some(calibrated(calibrated_all(constant, readings.drop_last()), readings.last()))
    }
}

/// Calibration happens once: however many readings are handed in, after
/// each of them the constant is the first reading. So every call returns the
/// same value, and after the first call the register need not be read again.
pub proof fn lemma_calibration_is_write_once(readings: Seq<u64>, n: int)
    requires
        0 < n <= readings.len(),
    ensures
        calibrated_all(None, readings.take(n)) == Some(readings[0]),
    decreases n,
{
    if n > 1 {
        lemma_calibration_is_write_once(readings, n - 1);
        assert(readings.take(n).drop_last() =~= readings.take(n - 1));
    } else {
        assert(calibrated_all(None, readings.take(n).drop_last()) == None::<u64>);
    }
}

} // verus!
