//! Layout of the state vector.
//!
//! The integrated state is one flat vector with two entries for each control
//! volume, in the order of the volumes: first the density, then the specific
//! internal energy. The functions here move between that flat vector and one
//! entry per volume; they hold for scalars of any type.
use vstd::prelude::*;

verus! {

/// The two integrated quantities of one control volume.
#[derive(Debug)]
pub struct StateEntry<T> {
    pub density: T,
    pub specific_internal_energy: T,
}

/// Position of a volume's density in the state vector.
pub open spec fn density_index(volume: nat) -> nat {
    2 * volume
}

/// Position of a volume's specific internal energy in the state vector.
pub open spec fn energy_index(volume: nat) -> nat {
    2 * volume + 1
}

/// The state vector that holds the given entries.
pub open spec fn flatten<T>(entries: Seq<StateEntry<T>>) -> Seq<T> {
    Seq::new(
        2 * entries.len(),
        |k: int|
            if k % 2 == 0 {
                entries[k / 2].density
            } else {
                entries[k / 2].specific_internal_energy
            },
    )
}

/// The entries that a state vector of even length holds.
pub open spec fn gather<T>(state: Seq<T>) -> Seq<StateEntry<T>> {
    Seq::new(
        state.len() / 2,
        |i: int| StateEntry { density: state[2 * i], specific_internal_energy: state[2 * i + 1] },
    )
}

/// Length of the state vector of a network of `volumes` control volumes, if
/// the machine can index it.
pub fn state_len(volumes: usize) -> (len: Option<usize>)
    ensures
        match len {
            Some(n) => n == 2 * volumes,
            None => 2 * volumes > usize::MAX,
        },
{
    volumes.checked_mul(2)
}

/// Reads a state vector as one entry per control volume; none when the
/// length is odd.
pub fn unpack<T: Copy>(state: &[T]) -> (entries: Option<Vec<StateEntry<T>>>)
    ensures
        match entries {
            Some(found) => state@.len() % 2 == 0 && found@ == gather(state@),
            None => state@.len() % 2 == 1,
        },
{
    let len = state.len();
    if len % 2 != 0 {
        return None;
    }
    let count = len / 2;
    let mut entries: Vec<StateEntry<T>> = Vec::new();
    let mut i: usize = 0;
    while i < count
        invariant
            len == state@.len(),
            len == 2 * count,
            i <= count,
            entries@.len() == i,
            forall|j: int| 0 <= j < i ==> entries@[j] == gather(state@)[j],
        decreases count - i,
    {
        entries.push(
            StateEntry { density: state[2 * i], specific_internal_energy: state[2 * i + 1] },
        );
        i += 1;
    }
    assert(entries@ =~= gather(state@));
    Some(entries)
}

/// Writes one entry per control volume as a state vector.
pub fn pack<T: Copy>(entries: &[StateEntry<T>]) -> (state: Vec<T>)
    ensures
        state@ == flatten(entries@),
{
    let mut state: Vec<T> = Vec::new();
    let mut i: usize = 0;
    while i < entries.len()
        invariant
            i <= entries@.len(),
            state@.len() == 2 * i,
            forall|k: int| 0 <= k < 2 * i ==> state@[k] == flatten(entries@)[k],
        decreases entries@.len() - i,
    {
        state.push(entries[i].density);
        state.push(entries[i].specific_internal_energy);
        i += 1;
    }
    assert(state@ =~= flatten(entries@));
    state
}

/// Every position of the state vector belongs to exactly one quantity of
/// exactly one control volume.
pub proof fn lemma_layout_is_one_to_one(a: nat, b: nat, k: nat)
    ensures
        density_index(a) == density_index(b) ==> a == b,
        energy_index(a) == energy_index(b) ==> a == b,
        density_index(a) != energy_index(b),
        k == density_index(k / 2) || k == energy_index(k / 2),
{
}

/// A volume's two quantities stand in the state vector at their positions.
pub proof fn lemma_flatten_places_entries<T>(entries: Seq<StateEntry<T>>, volume: nat)
    requires
        volume < entries.len(),
    ensures
        flatten(entries).len() == 2 * entries.len(),
        flatten(entries)[density_index(volume) as int] == entries[volume as int].density,
        flatten(entries)[energy_index(volume) as int]
            == entries[volume as int].specific_internal_energy,
{
}

/// Writing entries as a state vector and reading them back gives the same
/// entries.
pub proof fn lemma_gather_flatten<T>(entries: Seq<StateEntry<T>>)
    ensures
        gather(flatten(entries)) == entries,
{
    assert(gather(flatten(entries)) =~= entries);
}

/// Reading a state vector of even length and writing the entries back gives
/// the same vector.
pub proof fn lemma_flatten_gather<T>(state: Seq<T>)
    requires
        state.len() % 2 == 0,
    ensures
        flatten(gather(state)) == state,
{
    assert(flatten(gather(state)) =~= state);
}

} // verus!
