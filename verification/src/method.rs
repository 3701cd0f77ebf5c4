//! The contract that every technique meets.

use crate::command::Command;
use crate::command::CommandContext;
use crate::scene::Scene;
use crate::scene::Scenes;
use vstd::prelude::*;

verus! {

/// Why a technique recorded nothing.
#[derive(Clone, Copy, Debug, PartialEq, Eq, Structural)]
pub enum ApplyError {
    /// No scene is registered under the name that the parameter gives.
    SceneNotFound,
    /// The target lacks an attachment that the technique writes.
    MissingAttachment,
}

/// A rendering technique that takes parameters of type `A` and draws into
/// targets of type `T`.
pub trait Method<A, T> {
    /// The commands that one application records, or the reason why it
    /// records none. This depends on the technique, the parameter, the target
    /// and the scenes, and on nothing else.
    spec fn commands(&self, arg: &A, target: &T, scenes: Map<Seq<char>, Scene>) -> Result<
        Seq<Command>,
        ApplyError,
    >;

    /// Applies the technique: appends `self.commands(..)` to `encoder`, or
    /// fails and leaves `encoder` as it was. Commands already recorded are
    /// never changed, and nothing is submitted.
    fn apply(&self, arg: &A, target: &T, scenes: &Scenes, encoder: &mut CommandContext) -> (done:
        Result<(), ApplyError>)
        ensures
            match self.commands(arg, target, scenes@) {
                Ok(recorded) => done is Ok && final(encoder)@ == old(encoder)@ + recorded,
                Err(e) => done == Err::<(), ApplyError>(e) && final(encoder)@ == old(encoder)@,
            },
    ;
}

/// Applying a technique twice to the same parameter, target and scenes
/// records the same commands twice: from `before`, the first application
/// leaves `once` and the second `twice`, and what the second has added is
/// what the first had added, command for command and in the same order.
pub proof fn repeated_apply_records_the_same<A, T, M: Method<A, T>>(
    technique: M,
    arg: A,
    target: T,
    scenes: Map<Seq<char>, Scene>,
    before: Seq<Command>,
    once: Seq<Command>,
    twice: Seq<Command>,
)
    requires
        technique.commands(&arg, &target, scenes) is Ok,
        once == before + technique.commands(&arg, &target, scenes)->Ok_0,
        twice == once + technique.commands(&arg, &target, scenes)->Ok_0,
    ensures
        twice.subrange(before.len() as int, once.len() as int) == twice.subrange(
            once.len() as int,
            twice.len() as int,
        ),
        twice.subrange(0, once.len() as int) == once,
{
    let recorded = technique.commands(&arg, &target, scenes)->Ok_0;
    assert(twice.subrange(before.len() as int, once.len() as int) =~= recorded);
    assert(twice.subrange(once.len() as int, twice.len() as int) =~= recorded);
    assert(twice.subrange(0, once.len() as int) =~= once);
}

} // verus!
