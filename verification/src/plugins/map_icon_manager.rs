//! The icons that ships and other map objects can wear, and where their
//! images are.
use crate::plugins::gm_action_manager::texts;
use vstd::prelude::*;

verus! {

/// The asset path of the image of icon `name`.
pub open spec fn icon_path(name: Seq<char>) -> Seq<char> {
    "map_icons/"@ + name + ".png"@
}

/// The names of the icons loaded at start-up.
pub open spec fn icon_names() -> Seq<Seq<char>> {
    seq!["corvette"@, "cruiser"@, "destroyer"@, "frigate"@, "mine"@]
}

/// The asset path of the image of icon `name`: `map_icons/<name>.png`.
pub fn map_icon_path(name: &str) -> (path: String)
    ensures
        path@ == icon_path(name@),
        path@ == "map_icons/"@ + name@ + ".png"@,
{
    let mut path = String::from_str("map_icons/");
    path.append(name);
    path.append(".png");
    path
}

/// The icons loaded at start-up, each with the asset path of its image, in
/// loading order.
pub fn map_icons() -> (icons: Vec<(String, String)>)
    ensures
        icons@.len() == icon_names().len(),
        forall|i: int| 0 <= i < icons@.len() ==> {
            &&& #[trigger] icons@[i].0@ == icon_names()[i]
            &&& icons@[i].1@ == icon_path(icon_names()[i])
        },
{
    let names = vec!["corvette", "cruiser", "destroyer", "frigate", "mine"];
    let ghost expected = icon_names();
    assert(names@.len() == 5);
    assert(forall|i: int| 0 <= i < 5 ==> #[trigger] names@[i]@ == expected[i]);
    let mut icons: Vec<(String, String)> = Vec::new();
    let mut i: usize = 0;
    while i < names.len()
        invariant
            names@.len() == 5,
            expected == icon_names(),
            forall|k: int| 0 <= k < 5 ==> #[trigger] names@[k]@ == expected[k],
            i <= names@.len(),
            icons@.len() == i,
            forall|k: int| 0 <= k < i ==> {
                &&& #[trigger] icons@[k].0@ == expected[k]
                &&& icons@[k].1@ == icon_path(expected[k])
            },
        decreases names@.len() - i,
    {
        let name = names[i];
        icons.push((String::from_str(name), map_icon_path(name)));
        i = i + 1;
    }
    icons
}

/// The steps of putting an icon on a map entity, in order: the icon's sprite,
/// the `MapIcon` marker and the scaled transform go on a new child entity;
/// the parent gets an inherited visibility; then the child is attached.
#[derive(PartialEq, Eq, Structural, Debug, Clone, Copy)]
pub enum AttachStep {
    InsertSprite,
    InsertMapIcon,
    InsertTransform,
    InsertVisibility,
    PushChild,
}

/// The step that could not be done, which ends the attaching.
#[derive(PartialEq, Eq, Structural, Debug, Clone, Copy)]
pub enum AttachFailure {
    Sprite,
    MapIcon,
    Transform,
    Visibility,
}

/// What to do after a step: the next step, stop on a failure, or done.
#[derive(PartialEq, Eq, Structural, Debug, Clone, Copy)]
pub enum AttachNext {
    Step(AttachStep),
    Stop(AttachFailure),
    Finished,
}

/// The first step of attaching an icon.
pub fn first_attach_step() -> (step: AttachStep)
    ensures
        step == AttachStep::InsertSprite,
{
    AttachStep::InsertSprite
}

/// What follows `step` once it has succeeded or failed. The attaching goes
/// through the steps in their order and stops at the first failed insertion;
/// attaching the child cannot fail (the game stops if it does).
pub open spec fn spec_after_step(step: AttachStep, succeeded: bool) -> AttachNext {
    match step {
        AttachStep::InsertSprite => if succeeded {
            AttachNext::Step(AttachStep::InsertMapIcon)
        } else {
            AttachNext::Stop(AttachFailure::Sprite)
        },
        AttachStep::InsertMapIcon => if succeeded {
            AttachNext::Step(AttachStep::InsertTransform)
        } else {
            AttachNext::Stop(AttachFailure::MapIcon)
        },
        AttachStep::InsertTransform => if succeeded {
            AttachNext::Step(AttachStep::InsertVisibility)
        } else {
            AttachNext::Stop(AttachFailure::Transform)
        },
        AttachStep::InsertVisibility => if succeeded {
            AttachNext::Step(AttachStep::PushChild)
        } else {
            AttachNext::Stop(AttachFailure::Visibility)
        },
        AttachStep::PushChild => AttachNext::Finished,
    }
}

/// Decides what follows `step`, given whether the world did it.
pub fn after_attach_step(step: AttachStep, succeeded: bool) -> (next: AttachNext)
    requires
        step == AttachStep::PushChild ==> succeeded,
    ensures
        next == spec_after_step(step, succeeded),
        succeeded && step != AttachStep::PushChild ==> (next matches AttachNext::Step(n)
            && step_rank(n) == step_rank(step) + 1),
        !succeeded ==> next is Stop,
        next is Stop ==> !succeeded,
        next is Finished <==> step == AttachStep::PushChild,
{
    match step {
        AttachStep::InsertSprite => if succeeded {
            AttachNext::Step(AttachStep::InsertMapIcon)
        } else {
            AttachNext::Stop(AttachFailure::Sprite)
        },
        AttachStep::InsertMapIcon => if succeeded {
            AttachNext::Step(AttachStep::InsertTransform)
        } else {
            AttachNext::Stop(AttachFailure::MapIcon)
        },
        AttachStep::InsertTransform => if succeeded {
            AttachNext::Step(AttachStep::InsertVisibility)
        } else {
            AttachNext::Stop(AttachFailure::Transform)
        },
        AttachStep::InsertVisibility => if succeeded {
            AttachNext::Step(AttachStep::PushChild)
        } else {
            AttachNext::Stop(AttachFailure::Visibility)
        },
        AttachStep::PushChild => AttachNext::Finished,
    }
}

/// The position of a step in the attaching order.
pub open spec fn step_rank(step: AttachStep) -> int {
    match step {
        AttachStep::InsertSprite => 0,
        AttachStep::InsertMapIcon => 1,
        AttachStep::InsertTransform => 2,
        AttachStep::InsertVisibility => 3,
        AttachStep::PushChild => 4,
    }
}

/// A step that succeeded never stops the attaching: it leads to the step
/// right after it in order (or, after the child is attached, to the end);
/// only a failed insertion stops it, and it stops at that insertion.
pub proof fn lemma_success_never_stops(step: AttachStep)
    ensures
        step != AttachStep::PushChild ==> (spec_after_step(step, true) matches AttachNext::Step(n)
            && step_rank(n) == step_rank(step) + 1),
        !(spec_after_step(step, true) is Stop),
        step != AttachStep::PushChild ==> spec_after_step(step, false) is Stop,
        step == AttachStep::InsertVisibility ==> spec_after_step(step, true) == AttachNext::Step(
            AttachStep::PushChild,
        ),
{
}

/// A failed insertion stops with the failure of that very insertion, and
/// different insertions fail differently.
pub proof fn lemma_failure_names_its_step(a: AttachStep, b: AttachStep)
    ensures
        spec_after_step(AttachStep::InsertSprite, false) == AttachNext::Stop(AttachFailure::Sprite),
        spec_after_step(AttachStep::InsertMapIcon, false) == AttachNext::Stop(AttachFailure::MapIcon),
        spec_after_step(AttachStep::InsertTransform, false) == AttachNext::Stop(AttachFailure::Transform),
        spec_after_step(AttachStep::InsertVisibility, false) == AttachNext::Stop(AttachFailure::Visibility),
        a != b && a != AttachStep::PushChild && b != AttachStep::PushChild ==> spec_after_step(a, false)
            != spec_after_step(b, false),
{
}

/// Distinct steps have distinct places in the order, from the sprite (0) to
/// attaching the child (4).
pub proof fn lemma_step_ranks_distinct(a: AttachStep, b: AttachStep)
    ensures
        step_rank(a) == step_rank(b) ==> a == b,
        0 <= step_rank(a) <= 4,
        step_rank(AttachStep::InsertSprite) == 0,
        step_rank(AttachStep::PushChild) == 4,
{
}

/// Attaching always moves forward: a successful step leads to the next one
/// in order (or to the end), and a failed one stops. So the attaching ends
/// after at most five steps, and the child is attached only when all four
/// insertions succeeded.
pub proof fn lemma_attach_moves_forward(step: AttachStep, succeeded: bool)
    ensures
        spec_after_step(step, succeeded) matches AttachNext::Step(next) ==> succeeded && step_rank(next)
            == step_rank(step) + 1,
        !succeeded && step != AttachStep::PushChild ==> spec_after_step(step, succeeded) is Stop,
        spec_after_step(step, succeeded) is Finished <==> step == AttachStep::PushChild,
{
}

} // verus!
