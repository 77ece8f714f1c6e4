//! The two passes over the materials of a recipe.

use crate::craft::forward_pass;
use crate::craft::reverse_pass;
use crate::craft::select_materials_script;
use crate::input::Key;
use crate::script::key_press;
use crate::script::key_presses;
use crate::script::CommandView;
use crate::task::MaterialView;
use vstd::prelude::*;

verus! {

/// Whether `command` is a press of the confirm key.
pub open spec fn is_confirm(command: CommandView) -> bool {
    command == key_press(Key::Confirm)
}

/// The number of presses of the confirm key in `script`.
pub open spec fn confirm_count(script: Seq<CommandView>) -> nat {
    script.filter(|command: CommandView| is_confirm(command)).len()
}

/// The units that one synthesis takes of the first `n` materials together.
pub open spec fn total_count(materials: Seq<MaterialView>, n: nat) -> nat
    decreases n,
{
    if n == 0 {
        0
    } else {
        total_count(materials, (n - 1) as nat) + materials[n - 1].count
    }
}

/// The confirm presses of two scripts in a row add up.
pub proof fn lemma_confirm_count_concat(a: Seq<CommandView>, b: Seq<CommandView>)
    ensures
        confirm_count(a + b) == confirm_count(a) + confirm_count(b),
{
    Seq::filter_distributes_over_add(a, b, |command: CommandView| is_confirm(command));
}

/// A script of one command holds one confirm press or none.
pub proof fn lemma_confirm_count_single(command: CommandView)
    ensures
        confirm_count(seq![command]) == if is_confirm(command) {
            1nat
        } else {
            0nat
        },
        confirm_count(Seq::empty()) == 0,
{
    reveal_with_fuel(Seq::filter, 2);
}

/// `times` presses of the confirm key hold `times` confirm presses; as many
/// presses of another key hold none.
pub proof fn lemma_confirm_count_presses(key: Key, times: nat)
    ensures
        confirm_count(key_presses(key, times)) == if key == Key::Confirm {
            times
        } else {
            0
        },
    decreases times,
{
    lemma_confirm_count_single(key_press(key));
    if times > 0 {
        lemma_confirm_count_presses(key, (times - 1) as nat);
        assert(key_presses(key, times) == key_presses(key, (times - 1) as nat) + seq![
            key_press(key),
        ]);
        lemma_confirm_count_concat(key_presses(key, (times - 1) as nat), seq![key_press(key)]);
    }
}

/// Each pass over the materials confirms every unit of every material
/// once.
pub proof fn law_pass_confirms_every_unit(materials: Seq<MaterialView>, n: nat)
    ensures
        confirm_count(reverse_pass(materials, n)) == total_count(materials, n),
        confirm_count(forward_pass(materials, n)) == total_count(materials, n),
    decreases n,
{
    lemma_confirm_count_single(key_press(Key::Up));
    lemma_confirm_count_single(key_press(Key::Down));
    if n > 0 {
        let before = (n - 1) as nat;
        let block = key_presses(Key::Confirm, materials[n - 1].count);
        law_pass_confirms_every_unit(materials, before);
        lemma_confirm_count_presses(Key::Confirm, materials[n - 1].count);
        let up: Seq<CommandView> = if n == 1 {
            Seq::empty()
        } else {
            seq![key_press(Key::Up)]
        };
        lemma_confirm_count_concat(block, up);
        lemma_confirm_count_concat(block + up, reverse_pass(materials, before));
        lemma_confirm_count_concat(forward_pass(materials, before), block);
        lemma_confirm_count_concat(
            forward_pass(materials, before) + block,
            seq![key_press(Key::Down)],
        );
    }
}

/// Selecting the materials confirms every unit of every material twice:
/// once in the pass that runs up the list and once in the pass that runs
/// down.
pub proof fn law_materials_confirmed_twice(materials: Seq<MaterialView>)
    ensures
        confirm_count(select_materials_script(materials)) == 2 * total_count(
            materials,
            materials.len(),
        ),
{
    let approach = seq![key_press(Key::Up), key_press(Key::Right), key_press(Key::Right)];
    let up = reverse_pass(materials, materials.len());
    let turn = seq![key_press(Key::Left)];
    let down = forward_pass(materials, materials.len());
    law_pass_confirms_every_unit(materials, materials.len());
    lemma_confirm_count_single(key_press(Key::Up));
    lemma_confirm_count_single(key_press(Key::Right));
    lemma_confirm_count_single(key_press(Key::Left));
    assert(approach == seq![key_press(Key::Up)] + seq![key_press(Key::Right)] + seq![
        key_press(Key::Right),
    ]);
    lemma_confirm_count_concat(seq![key_press(Key::Up)], seq![key_press(Key::Right)]);
    lemma_confirm_count_concat(
        seq![key_press(Key::Up)] + seq![key_press(Key::Right)],
        seq![key_press(Key::Right)],
    );
    lemma_confirm_count_concat(approach, up);
    lemma_confirm_count_concat(approach + up, turn);
    lemma_confirm_count_concat(approach + up + turn, down);
}

/// The pass that runs up the list ends with what it does for the topmost
/// `k` materials.
pub proof fn lemma_reverse_pass_suffix(materials: Seq<MaterialView>, k: nat, n: nat)
    requires
        k <= n,
    ensures
        reverse_pass(materials, k).len() <= reverse_pass(materials, n).len(),
        reverse_pass(materials, n).subrange(
            reverse_pass(materials, n).len() - reverse_pass(materials, k).len(),
            reverse_pass(materials, n).len() as int,
        ) == reverse_pass(materials, k),
    decreases n,
{
    if k < n {
        lemma_reverse_pass_suffix(materials, k, (n - 1) as nat);
    }
}

/// The pass that runs down the list begins with what it does for the
/// topmost `k` materials.
pub proof fn lemma_forward_pass_prefix(materials: Seq<MaterialView>, k: nat, n: nat)
    requires
        k <= n,
    ensures
        forward_pass(materials, k).len() <= forward_pass(materials, n).len(),
        forward_pass(materials, n).take(forward_pass(materials, k).len() as int) == forward_pass(
            materials,
            k,
        ),
    decreases n,
{
    if k < n {
        lemma_forward_pass_prefix(materials, k, (n - 1) as nat);
    }
}

/// The place in `select_materials_script(materials)` at which the pass that
/// runs up the list begins to confirm material `i`.
pub open spec fn reverse_block_start(materials: Seq<MaterialView>, i: int) -> int {
    3 + reverse_pass(materials, materials.len()).len() - reverse_pass(
        materials,
        (i + 1) as nat,
    ).len()
}

/// The place in `select_materials_script(materials)` at which the pass that
/// runs down the list begins to confirm material `i`.
pub open spec fn forward_block_start(materials: Seq<MaterialView>, i: int) -> int {
    (3 + reverse_pass(materials, materials.len()).len() + 1 + forward_pass(
        materials,
        i as nat,
    ).len()) as int
}

/// For every material, the pass that runs up the list confirms each of its
/// units, in one unbroken run of confirm presses, and only after that run
/// does the pass that runs down the list confirm each of its units again,
/// in a second unbroken run.
pub proof fn law_reverse_pass_before_forward_pass(materials: Seq<MaterialView>, i: int)
    requires
        0 <= i < materials.len(),
    ensures
        ({
            let script = select_materials_script(materials);
            let count = materials[i].count as int;
            let up = reverse_block_start(materials, i);
            let down = forward_block_start(materials, i);
            &&& 0 <= up
            &&& up + count <= down
            &&& down + count <= script.len()
            &&& script.subrange(up, up + count) == key_presses(Key::Confirm, materials[i].count)
            &&& script.subrange(down, down + count) == key_presses(
                Key::Confirm,
                materials[i].count,
            )
        }),
{
    let script = select_materials_script(materials);
    let count = materials[i].count as int;
    let up_pass = reverse_pass(materials, materials.len());
    let down_pass = forward_pass(materials, materials.len());
    let up_tail = reverse_pass(materials, (i + 1) as nat);
    let down_head = forward_pass(materials, i as nat);
    let down_next = forward_pass(materials, (i + 1) as nat);
    lemma_reverse_pass_suffix(materials, (i + 1) as nat, materials.len());
    lemma_forward_pass_prefix(materials, (i + 1) as nat, materials.len());
    let up = reverse_block_start(materials, i);
    let down = forward_block_start(materials, i);
    let tail_at = up_pass.len() - up_tail.len();
    assert(script.subrange(up, up + count) == up_pass.subrange(tail_at, tail_at + count));
    assert(script.subrange(down, down + count) == down_pass.subrange(
        down_head.len() as int,
        down_head.len() + count,
    ));
    assert(down_pass.subrange(down_head.len() as int, down_head.len() + count)
        == down_pass.take(down_next.len() as int).subrange(
        down_head.len() as int,
        down_head.len() + count,
    ));
}

} // verus!
