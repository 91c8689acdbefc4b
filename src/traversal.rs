//! Control-flow closure of a listing, and the facts the traversal keeps
//! about its worklist.
//!
//! An address is settled when nothing more needs to be done for it: it cannot
//! be decoded, it is already listed, or it waits to be explored. A listing is
//! closed when every place where execution may continue after a listed
//! instruction is settled with an empty worklist.

use vstd::prelude::*;
use crate::cartridge::MAPPING_BASE;
use crate::instruction::{discovered, ends_run, instruction_length};

verus! {

/// Whether an instruction can be decoded at mapped `address`: it lies in the
/// 16-bit address space, and its opcode and two following bytes in the ROM.
pub open spec fn decodable(rom: Seq<u8>, address: int) -> bool {
    MAPPING_BASE <= address <= 0xFFFF && address - MAPPING_BASE + 3 <= rom.len()
}

/// Whether `x` needs no more exploration: it cannot be decoded, it is in the
/// listing, it waits in the worklist, or it is the cursor of the current run.
pub open spec fn settled(
    rom: Seq<u8>,
    listed: Set<usize>,
    x: int,
    worklist: Seq<usize>,
    cursor: Option<int>,
) -> bool {
    !decodable(rom, x) || listed.contains(x as usize) || worklist.contains(x as usize) || cursor
        == Some(x)
}

/// Whether the places where execution may continue after the instruction at
/// `a` are settled: the next instruction unless `a` ends its run, and the
/// discovered destination.
pub open spec fn successors_settled(
    rom: Seq<u8>,
    listed: Set<usize>,
    a: usize,
    worklist: Seq<usize>,
    cursor: Option<int>,
) -> bool {
    let off = a - MAPPING_BASE;
    &&& !ends_run(rom[off]) ==> settled(
        rom,
        listed,
        a + instruction_length(rom[off]),
        worklist,
        cursor,
    )
    &&& discovered(rom, off, a as nat) matches Some(t) ==> settled(
        rom,
        listed,
        t as int,
        worklist,
        cursor,
    )
}

/// Whether a set of listed addresses is closed under control flow: every
/// decodable successor of a listed instruction is listed too.
pub open spec fn is_closed(rom: Seq<u8>, listed: Set<usize>) -> bool {
    forall|a: usize| #[trigger]
        listed.contains(a) ==> successors_settled(rom, listed, a, Seq::empty(), None)
}

/// Whether execution may continue at `next` right after the instruction at
/// `a`: the following instruction, unless `a` ends its run, or the
/// destination that `a` names.
pub open spec fn steps_to(rom: Seq<u8>, a: int, next: int) -> bool {
    let off = a - MAPPING_BASE;
    &&& decodable(rom, a)
    &&& (!ends_run(rom[off]) && next == a + instruction_length(rom[off])) || (discovered(
        rom,
        off,
        a as nat,
    ) matches Some(t) && next == t as int)
}

/// Whether each address of `path` steps to the next one.
pub open spec fn is_path(rom: Seq<u8>, path: Seq<int>) -> bool {
    forall|i: int| 0 <= i < path.len() - 1 ==> #[trigger] steps_to(rom, path[i], path[i + 1])
}

/// Whether control flow leads from `from` to `to`.
pub open spec fn reachable(rom: Seq<u8>, from: int, to: int) -> bool {
    exists|path: Seq<int>| #[trigger]
        is_path(rom, path) && path.len() > 0 && path[0] == from && path.last() == to
}

/// An address is reachable from itself.
pub proof fn lemma_reachable_start(rom: Seq<u8>, from: int)
    ensures
        reachable(rom, from, from),
{
    let path = seq![from];
    assert(is_path(rom, path));
}

/// One more step from a reachable address reaches its successor.
pub proof fn lemma_reachable_step(rom: Seq<u8>, from: int, a: int, next: int)
    requires
        reachable(rom, from, a),
        steps_to(rom, a, next),
    ensures
        reachable(rom, from, next),
{
    let path = choose|path: Seq<int>| #[trigger]
        is_path(rom, path) && path.len() > 0 && path[0] == from && path.last() == a;
    let longer = path.push(next);
    assert forall|i: int| 0 <= i < longer.len() - 1 implies #[trigger] steps_to(
        rom,
        longer[i],
        longer[i + 1],
    ) by {
        if i < path.len() - 1 {
            assert(steps_to(rom, path[i], path[i + 1]));
        }
    }
    assert(is_path(rom, longer));
}

/// A closed listing that holds the start address, if decodable, holds every
/// decodable address reachable from it.
pub proof fn lemma_closed_holds_reachable(rom: Seq<u8>, listed: Set<usize>, from: int, to: int)
    requires
        is_closed(rom, listed),
        decodable(rom, from) ==> listed.contains(from as usize),
        reachable(rom, from, to),
        decodable(rom, to),
    ensures
        listed.contains(to as usize),
{
    let path = choose|path: Seq<int>| #[trigger]
        is_path(rom, path) && path.len() > 0 && path[0] == from && path.last() == to;
    lemma_closed_holds_path(rom, listed, path, path.len() - 1);
}

proof fn lemma_closed_holds_path(rom: Seq<u8>, listed: Set<usize>, path: Seq<int>, i: int)
    requires
        is_closed(rom, listed),
        is_path(rom, path),
        0 <= i < path.len(),
        decodable(rom, path[0]) ==> listed.contains(path[0] as usize),
    ensures
        decodable(rom, path[i]) ==> listed.contains(path[i] as usize),
    decreases i,
{
    if i > 0 {
        lemma_closed_holds_path(rom, listed, path, i - 1);
        assert(steps_to(rom, path[i - 1], path[(i - 1) + 1]));
        assert(successors_settled(rom, listed, path[i - 1] as usize, Seq::empty(), None));
    }
}

/// What a worklist held before a step is still held after it, or has become
/// the cursor, or has been listed.
pub open spec fn worklist_kept(
    listed2: Set<usize>,
    worklist: Seq<usize>,
    worklist2: Seq<usize>,
    cursor2: Option<int>,
) -> bool {
    forall|y: usize| #[trigger]
        worklist.contains(y) ==> worklist2.contains(y) || cursor2 == Some(y as int)
            || listed2.contains(y)
}

/// A step of the traversal that lists more, keeps the worklist and settles the
/// old cursor keeps every settled address settled.
pub proof fn lemma_settled_widen(
    rom: Seq<u8>,
    listed: Set<usize>,
    listed2: Set<usize>,
    x: int,
    worklist: Seq<usize>,
    worklist2: Seq<usize>,
    cursor: Option<int>,
    cursor2: Option<int>,
)
    requires
        listed.subset_of(listed2),
        worklist_kept(listed2, worklist, worklist2, cursor2),
        cursor matches Some(c) ==> settled(rom, listed2, c, worklist2, cursor2),
        settled(rom, listed, x, worklist, cursor),
    ensures
        settled(rom, listed2, x, worklist2, cursor2),
{
    if decodable(rom, x) && !listed.contains(x as usize) && worklist.contains(x as usize) {
        assert(worklist2.contains(x as usize) || cursor2 == Some(x as usize as int)
            || listed2.contains(x as usize));
    }
}

/// The same step keeps the successors of a listed instruction settled.
pub proof fn lemma_successors_widen(
    rom: Seq<u8>,
    listed: Set<usize>,
    listed2: Set<usize>,
    a: usize,
    worklist: Seq<usize>,
    worklist2: Seq<usize>,
    cursor: Option<int>,
    cursor2: Option<int>,
)
    requires
        listed.subset_of(listed2),
        worklist_kept(listed2, worklist, worklist2, cursor2),
        cursor matches Some(c) ==> settled(rom, listed2, c, worklist2, cursor2),
        successors_settled(rom, listed, a, worklist, cursor),
    ensures
        successors_settled(rom, listed2, a, worklist2, cursor2),
{
    let off = a - MAPPING_BASE;
    if !ends_run(rom[off]) {
        lemma_settled_widen(
            rom,
            listed,
            listed2,
            a + instruction_length(rom[off]),
            worklist,
            worklist2,
            cursor,
            cursor2,
        );
    }
    if let Some(t) = discovered(rom, off, a as nat) {
        lemma_settled_widen(rom, listed, listed2, t as int, worklist, worklist2, cursor, cursor2);
    }
}

/// Taking the last address off a worklist keeps every other one in it.
pub proof fn lemma_pop_contains(s: Seq<usize>)
    requires
        s.len() > 0,
    ensures
        forall|y: usize| #[trigger]
            s.contains(y) ==> s.drop_last().contains(y) || y == s.last(),
        forall|y: usize| #[trigger] s.drop_last().contains(y) ==> s.contains(y),
        s.contains(s.last()),
{
    assert(s[s.len() - 1] == s.last());
    assert forall|y: usize| #[trigger] s.drop_last().contains(y) implies s.contains(y) by {
        let i = choose|i: int| 0 <= i < s.drop_last().len() && s.drop_last()[i] == y;
        assert(s[i] == y);
    }
    assert forall|y: usize| #[trigger] s.contains(y) implies s.drop_last().contains(y) || y
        == s.last() by {
        let i = choose|i: int| 0 <= i < s.len() && s[i] == y;
        if i < s.len() - 1 {
            assert(s.drop_last()[i] == y);
        }
    }
}

/// Pushing a discovered destination, if any, keeps every address in the
/// worklist and adds that destination.
pub proof fn lemma_push_contains(s: Seq<usize>, v: Option<usize>)
    ensures
        forall|y: usize| #[trigger]
            s.contains(y) ==> (match v {
                Some(t) => s.push(t),
                None => s,
            }).contains(y),
        v matches Some(t) ==> s.push(t).contains(t),
{
    if let Some(t) = v {
        assert(s.push(t)[s.len() as int] == t);
        assert forall|y: usize| #[trigger] s.contains(y) implies s.push(t).contains(y) by {
            let i = choose|i: int| 0 <= i < s.len() && s[i] == y;
            assert(s.push(t)[i] == y);
        }
    }
}

/// Every address of a worklist after a push was there before, or is the
/// pushed one.
pub proof fn lemma_push_origin(s: Seq<usize>, v: usize)
    ensures
        forall|y: usize| #[trigger] s.push(v).contains(y) ==> s.contains(y) || y == v,
{
    assert forall|y: usize| #[trigger] s.push(v).contains(y) implies s.contains(y) || y == v by {
        let i = choose|i: int| 0 <= i < s.push(v).len() && s.push(v)[i] == y;
        if i < s.len() {
            assert(s[i] == y);
        }
    }
}

/// A prefix of a prefix is a prefix.
pub proof fn lemma_prefix_trans(a: Seq<usize>, b: Seq<usize>, c: Seq<usize>)
    requires
        a.is_prefix_of(b),
        b.is_prefix_of(c),
    ensures
        a.is_prefix_of(c),
{
    assert(a =~= c.subrange(0, a.len() as int)) by {
        assert(b.subrange(0, a.len() as int) =~= c.subrange(0, a.len() as int));
    }
}

} // verus!
