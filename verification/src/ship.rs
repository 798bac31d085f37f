use vstd::prelude::*;

verus! {

/// Whether the ship may fire: its shot cooldown must have run out
/// (`cooldown_active` false) and it must not be wrecked.
pub open spec fn spec_may_shoot(cooldown_active: bool, destroyed: bool) -> bool {
    !cooldown_active && !destroyed
}

/// Decides whether the ship fires a shot.
pub fn may_shoot(cooldown_active: bool, destroyed: bool) -> (fire: bool)
    ensures
        fire == spec_may_shoot(cooldown_active, destroyed),
{
    !(cooldown_active || destroyed)
}

/// Law: a wrecked ship never fires, whatever its cooldown.
pub proof fn lemma_wreck_cannot_shoot(cooldown_active: bool)
    ensures
        !spec_may_shoot(cooldown_active, true),
{
}

} // verus!
