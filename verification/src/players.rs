//! The player count that the "increase" and "decrease" buttons change,
//! and the dino counter of the bulk spawner.

use vstd::prelude::*;

verus! {

/// The number of players a new game starts with.
pub const INITIAL_PLAYER_COUNT: usize = 1;

/// How many dinos one press of the dino spawner adds.
pub const DINO_BATCH: usize = 10;

/// The player count after one press of the "increase" button.
pub open spec fn increased(count: nat) -> nat {
    count + 1
}

/// The player count after one press of the "decrease" button: one less,
/// but never below one.
pub open spec fn decreased(count: nat) -> nat {
    if count <= 2 {
        1
    } else {
        (count - 1) as nat
    }
}

/// One press of the "increase player count" button.
pub fn increase_player_count(count: usize) -> (next: usize)
    requires
        count < usize::MAX,
    ensures
        next == increased(count as nat),
        next == count + 1,
{
    count + 1
}

/// One press of the "decrease player count" button: the count drops by
/// one and is then raised back to one if it fell to one or below.
pub fn decrease_player_count(count: usize) -> (next: usize)
    requires
        count >= 1,
    ensures
        next == decreased(count as nat),
        next >= 1,
        count >= 2 ==> next == count - 1,
        count <= 2 ==> next == 1,
{
    let mut next = count - 1;
    if next <= 1 {
        next = 1;
    }
    next
}

/// Adds one batch of dinos to the dino counter, one dino at a time.
pub fn add_dino_batch(dino_count: usize) -> (next: usize)
    requires
        dino_count + DINO_BATCH <= usize::MAX,
    ensures
        next == dino_count + DINO_BATCH,
{
    let mut next = dino_count;
    for added in 0..DINO_BATCH
        invariant
            next == dino_count + added,
            dino_count + DINO_BATCH <= usize::MAX,
    {
        next = next + 1;
    }
    next
}

/// The two buttons that change the player count.
#[derive(Clone, Copy, Debug, PartialEq, Eq, Structural)]
pub enum CountButton {
    Increase,
    Decrease,
}

/// The player count after the given button presses, in order.
pub open spec fn after_presses(start: nat, presses: Seq<CountButton>) -> nat
    decreases presses.len(),
{
    if presses.len() == 0 {
        start
    } else {
        let before = after_presses(start, presses.drop_last());
        match presses.last() {
            CountButton::Increase => increased(before),
            CountButton::Decrease => decreased(before),
        }
    }
}

/// Whatever buttons are pressed, a game that starts with at least one
/// player never has fewer than one.
pub proof fn lemma_player_count_stays_positive(start: nat, presses: Seq<CountButton>)
    requires
        start >= 1,
    ensures
        after_presses(start, presses) >= 1,
    decreases presses.len(),
{
    if presses.len() > 0 {
        lemma_player_count_stays_positive(start, presses.drop_last());
    }
}

/// One press of "increase" adds exactly one player.
pub proof fn lemma_increase_adds_one(count: nat)
    ensures
        increased(count) == count + 1,
{
}

/// One press of "decrease" removes exactly one player from two or more,
/// and leaves one player where there was one.
pub proof fn lemma_decrease_removes_one(count: nat)
    requires
        count >= 1,
    ensures
        count >= 2 ==> decreased(count) == count - 1,
        count == 1 ==> decreased(count) == 1,
{
}

/// Pressing "decrease" right after "increase" gives back the count one had.
pub proof fn lemma_decrease_undoes_increase(count: nat)
    requires
        count >= 1,
    ensures
        decreased(increased(count)) == count,
{
}

/// Pressing "increase" right after "decrease" gives back the count one had,
/// as long as the decrease was not stopped at one.
pub proof fn lemma_increase_undoes_decrease(count: nat)
    requires
        count >= 2,
    ensures
        increased(decreased(count)) == count,
{
}

} // verus!
