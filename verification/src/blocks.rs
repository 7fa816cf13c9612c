//! Walking the chain forward to a given block.

use vstd::prelude::*;

verus! {

/// How far the step from one block to the next has got.
#[derive(Clone, Copy, Debug, PartialEq, Eq, Structural)]
pub enum BlockPhase {
    /// No block is being left.
    Settled,
    /// The given block is finalized.
    Finalized(u32),
    /// The given block is the current one and is not initialized yet.
    Entered(u32),
}

/// What has to be done to the chain next.
#[derive(Clone, Copy, Debug, PartialEq, Eq, Structural)]
pub enum BlockAction {
    /// Run the hooks at the end of the given block.
    Finalize(u32),
    /// Make the given block the current one.
    SetBlockNumber(u32),
    /// Run the hooks at the start of the given block.
    Initialize(u32),
    /// The target is reached.
    Done,
}

/// What to do next on the way to block `to`, and the phase after it.
pub open spec fn next_step(phase: BlockPhase, block_number: u32, to: u32) -> (
    BlockPhase,
    BlockAction,
) {
    match phase {
        BlockPhase::Settled => if block_number < to {
            (BlockPhase::Finalized(block_number), BlockAction::Finalize(block_number))
        } else {
            (BlockPhase::Settled, BlockAction::Done)
        },
        BlockPhase::Finalized(b) => (
            BlockPhase::Entered((b + 1) as u32),
            BlockAction::SetBlockNumber((b + 1) as u32),
        ),
        BlockPhase::Entered(b) => (BlockPhase::Settled, BlockAction::Initialize(b)),
    }
}

/// Decides the next action on the way to block `to`, from the phase that the last action led to
/// and the current block number. The first call starts from the settled phase.
pub fn run_to_block(phase: BlockPhase, block_number: u32, to: u32) -> (res: (
    BlockPhase,
    BlockAction,
))
    requires
        phase matches BlockPhase::Finalized(b) ==> b < u32::MAX,
    ensures
        res == next_step(phase, block_number, to),
        phase == BlockPhase::Settled && block_number < to ==> {
            &&& res.0 == BlockPhase::Finalized(block_number)
            &&& res.1 == BlockAction::Finalize(block_number)
        },
        phase == BlockPhase::Settled && block_number >= to ==> {
            &&& res.0 == BlockPhase::Settled
            &&& res.1 == BlockAction::Done
        },
        phase matches BlockPhase::Finalized(b) ==> {
            &&& res.0 == BlockPhase::Entered((b + 1) as u32)
            &&& res.1 == BlockAction::SetBlockNumber((b + 1) as u32)
        },
        phase matches BlockPhase::Entered(b) ==> {
            &&& res.0 == BlockPhase::Settled
            &&& res.1 == BlockAction::Initialize(b)
        },
        res.0 matches BlockPhase::Finalized(b) ==> b < u32::MAX,
{
    match phase {
        BlockPhase::Settled => if block_number < to {
            (BlockPhase::Finalized(block_number), BlockAction::Finalize(block_number))
        } else {
            (BlockPhase::Settled, BlockAction::Done)
        },
        BlockPhase::Finalized(b) => (BlockPhase::Entered(b + 1), BlockAction::SetBlockNumber(b + 1)),
        BlockPhase::Entered(b) => (BlockPhase::Settled, BlockAction::Initialize(b)),
    }
}

/// The block number once `action` is performed on a chain whose hooks leave the number alone.
pub open spec fn block_number_after(block_number: u32, action: BlockAction) -> u32 {
    match action {
        BlockAction::SetBlockNumber(b) => b,
        _ => block_number,
    }
}

/// All actions on the way from block `from` to block `to`.
pub open spec fn block_actions(from: u32, to: u32) -> Seq<BlockAction>
    decreases to - from,
{
    if from < to {
        seq![
            BlockAction::Finalize(from),
            BlockAction::SetBlockNumber((from + 1) as u32),
            BlockAction::Initialize((from + 1) as u32),
        ] + block_actions((from + 1) as u32, to)
    } else {
        seq![BlockAction::Done]
    }
}

/// The phase and the block number after the first `n` actions, from block `from` on, where every
/// action is performed on a chain whose hooks leave the block number alone.
pub open spec fn walk(from: u32, to: u32, n: nat) -> (BlockPhase, u32)
    decreases n,
{
    if n == 0 {
        (BlockPhase::Settled, from)
    } else {
        let (phase, block_number) = walk(from, to, (n - 1) as nat);
        let (next, action) = next_step(phase, block_number, to);
        (next, block_number_after(block_number, action))
    }
}

/// The action numbered `n` on the way from block `from` to block `to`.
pub open spec fn action_at(from: u32, to: u32, n: nat) -> BlockAction {
    let (phase, block_number) = walk(from, to, n);
    next_step(phase, block_number, to).1
}

proof fn lemma_walk_later(from: u32, to: u32, n: nat)
    requires
        from < to,
    ensures
        walk(from, to, n + 3) == walk((from + 1) as u32, to, n),
    decreases n,
{
    if n == 0 {
        reveal_with_fuel(walk, 4);
    } else {
        lemma_walk_later(from, to, (n - 1) as nat);
        assert((n + 3 - 1) as nat == (n - 1) as nat + 3);
    }
}

/// Every block on the way is finalized, then its successor becomes the current block and is
/// initialized, one block after the other, and nothing else happens: the actions are those of
/// `block_actions`, and they end at the target, or where the chain stands if that is beyond it.
pub proof fn law_run_to_block_visits_every_block(from: u32, to: u32)
    ensures
        block_actions(from, to).len() == 3 * (if from < to {
            to - from
        } else {
            0
        }) + 1,
        forall|n: int|
            0 <= n < block_actions(from, to).len() ==> #[trigger] block_actions(from, to)[n]
                == action_at(from, to, n as nat),
        walk(from, to, (block_actions(from, to).len() - 1) as nat) == (
            BlockPhase::Settled,
            if from < to {
                to
            } else {
                from
            },
        ),
    decreases to - from,
{
    reveal_with_fuel(walk, 4);
    if from < to {
        let next = (from + 1) as u32;
        law_run_to_block_visits_every_block(next, to);
        let rest = block_actions(next, to);
        let all = block_actions(from, to);
        assert(all.len() == rest.len() + 3);
        assert forall|n: int| 0 <= n < all.len() implies #[trigger] all[n] == action_at(
            from,
            to,
            n as nat,
        ) by {
            if n >= 3 {
                lemma_walk_later(from, to, (n - 3) as nat);
                assert(all[n] == rest[n - 3]);
                assert((n - 3) as nat + 3 == n as nat);
            } else if n == 2 {
                assert(walk(from, to, 2) == (BlockPhase::Entered(next), next));
            } else if n == 1 {
                assert(walk(from, to, 1) == (BlockPhase::Finalized(from), from));
            }
        }
        lemma_walk_later(from, to, (rest.len() - 1) as nat);
        assert((all.len() - 1) as nat == (rest.len() - 1) as nat + 3);
    }
}

proof fn lemma_walk_settles(from: u32, to: u32, j: nat)
    requires
        from + j <= to,
    ensures
        walk(from, to, 3 * j) == (BlockPhase::Settled, (from + j) as u32),
    decreases j,
{
    reveal_with_fuel(walk, 4);
    if j > 0 {
        lemma_walk_settles((from + 1) as u32, to, (j - 1) as nat);
        lemma_walk_later(from, to, (3 * (j - 1)) as nat);
        assert((3 * (j - 1)) as nat + 3 == 3 * j);
    }
}

/// Block `from + j` is left by three actions in a row: its end hooks, the step to its successor
/// and the successor's start hooks. Once the target is reached, nothing is left to do.
pub proof fn law_each_block_is_left_in_three_actions(from: u32, to: u32, j: nat)
    ensures
        from + j < to ==> {
            &&& action_at(from, to, 3 * j) == BlockAction::Finalize((from + j) as u32)
            &&& action_at(from, to, 3 * j + 1) == BlockAction::SetBlockNumber(
                (from + j + 1) as u32,
            )
            &&& action_at(from, to, 3 * j + 2) == BlockAction::Initialize((from + j + 1) as u32)
        },
        from + j == to || (j == 0 && from >= to) ==> action_at(from, to, 3 * j)
            == BlockAction::Done,
{
    if from + j <= to {
        lemma_walk_settles(from, to, j);
        let at = (from + j) as u32;
        if at < to {
            assert(walk(from, to, 3 * j + 1) == (BlockPhase::Finalized(at), at));
            assert(walk(from, to, 3 * j + 2) == (
                BlockPhase::Entered((at + 1) as u32),
                (at + 1) as u32,
            ));
        }
    }
}

} // verus!
