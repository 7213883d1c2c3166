//! What the registry promises over a whole upload: chunks that cover the
//! announced size come out as the bytes they were cut from, in whatever
//! order they went in; refused requests change nothing; identifiers of open
//! sessions differ.

use crate::error::UploadError;
use crate::uploader::{
    after_take, after_write, is_first_free, opened, steps_from, take_outcome, write_at,
    write_outcome, Registry,
};
use vstd::prelude::*;

verus! {

/// One write request: where the payload goes, and the payload.
pub struct ChunkWrite {
    pub offset: nat,
    pub payload: Seq<u8>,
}

/// The registry after the writes were made into session `id`, first to
/// last.
pub open spec fn after_writes(registry: Registry, id: u32, writes: Seq<ChunkWrite>) -> Registry
    decreases writes.len(),
{
    if writes.len() == 0 {
        registry
    } else {
        after_write(
            after_writes(registry, id, writes.drop_last()),
            id,
            writes.last().offset,
            writes.last().payload,
        )
    }
}

/// Every one of the writes, made first to last into session `id`, is
/// accepted.
pub open spec fn all_accepted(registry: Registry, id: u32, writes: Seq<ChunkWrite>) -> bool {
    forall|k: int|
        0 <= k < writes.len() ==> write_outcome(
            after_writes(registry, id, #[trigger] writes.take(k)),
            id,
            writes[k].offset,
            writes[k].payload,
        ) is Ok
}

/// The `len` bytes that `data` has from `offset` on.
pub open spec fn cut(data: Seq<u8>, offset: nat, len: nat) -> Seq<u8> {
    data.subrange(offset as int, (offset + len) as int)
}

/// The write carries the bytes that `data` has at the write's offset.
pub open spec fn cut_from(write: ChunkWrite, data: Seq<u8>) -> bool {
    &&& write.offset + write.payload.len() <= data.len()
    &&& write.payload == cut(data, write.offset, write.payload.len())
}

/// The write reaches the byte at `position`.
pub open spec fn covers(write: ChunkWrite, position: int) -> bool {
    write.offset <= position < write.offset + write.payload.len()
}

/// One of the first `count` writes reaches the byte at `position`.
pub open spec fn covered_by_first(writes: Seq<ChunkWrite>, count: int, position: int) -> bool {
    exists|k: int| 0 <= k < count && covers(#[trigger] writes[k], position)
}

/// After the first `count` of writes that are all cut from `data`, the
/// session holds the bytes of `data` wherever a write has reached and zero
/// elsewhere, and each of these writes was accepted.
proof fn lemma_partial_assembly(
    registry: Registry,
    id: u32,
    picture_id: u32,
    picture_side: u32,
    data: Seq<u8>,
    writes: Seq<ChunkWrite>,
    count: int,
)
    requires
        0 <= count <= writes.len(),
        forall|k: int| 0 <= k < writes.len() ==> cut_from(#[trigger] writes[k], data),
    ensures
        ({
            let start = opened(registry, id, picture_id, picture_side, data.len());
            let now = after_writes(start, id, writes.take(count));
            &&& now.contains_key(id)
            &&& now[id].picture_id == picture_id
            &&& now[id].picture_side == picture_side
            &&& now[id].bytes.len() == data.len()
            &&& now.remove(id) == start.remove(id)
            &&& forall|p: int|
                0 <= p < data.len() ==> #[trigger] now[id].bytes[p] == (if covered_by_first(
                    writes,
                    count,
                    p,
                ) {
                    data[p]
                } else {
                    0u8
                })
            &&& forall|k: int|
                0 <= k < count ==> write_outcome(
                    after_writes(start, id, #[trigger] writes.take(k)),
                    id,
                    writes[k].offset,
                    writes[k].payload,
                ) is Ok
        }),
    decreases count,
{
    let start = opened(registry, id, picture_id, picture_side, data.len());
    if count == 0 {
        assert(writes.take(0).len() == 0);
        assert(after_writes(start, id, writes.take(0)) == start);
    } else {
        lemma_partial_assembly(registry, id, picture_id, picture_side, data, writes, count - 1);
        let earlier = writes.take(count - 1);
        let these = writes.take(count);
        assert(these.drop_last() =~= earlier);
        assert(these.last() == writes[count - 1]);
        let before = after_writes(start, id, earlier);
        let write = writes[count - 1];
        assert(cut_from(write, data));
        let now = after_writes(start, id, these);
        assert(now == after_write(before, id, write.offset, write.payload));
        assert(write_outcome(before, id, write.offset, write.payload) is Ok);
        assert(now[id].bytes == write_at(before[id].bytes, write.offset as int, write.payload));
        assert(now.remove(id) =~= before.remove(id));
        assert forall|p: int| 0 <= p < data.len() implies #[trigger] now[id].bytes[p] == (
        if covered_by_first(writes, count, p) {
            data[p]
        } else {
            0u8
        }) by {
            if covers(write, p) {
                assert(covers(writes[count - 1], p));
                assert(covered_by_first(writes, count, p));
            } else {
                if covered_by_first(writes, count, p) {
                    let k = choose|k: int| 0 <= k < count && covers(#[trigger] writes[k], p);
                    assert(k < count - 1);
                    assert(covered_by_first(writes, count - 1, p));
                } else {
                    if covered_by_first(writes, count - 1, p) {
                        let k = choose|k: int|
                            0 <= k < count - 1 && covers(#[trigger] writes[k], p);
                        assert(0 <= k < count && covers(writes[k], p));
                        assert(false);
                    }
                }
            }
        }
        assert forall|k: int| 0 <= k < count implies write_outcome(
            after_writes(start, id, #[trigger] writes.take(k)),
            id,
            writes[k].offset,
            writes[k].payload,
        ) is Ok by {
            if k == count - 1 {
            }
        }
    }
}

/// Open a session for as many bytes as `data` has and write chunks into it
/// that are cut from `data` and together reach every byte of it, in any
/// order, overlapping or repeated as they may be: every write is accepted,
/// and taking the session gives `data` back, with the picture and the side
/// it was opened for. No other session is touched.
pub proof fn lemma_covering_chunks_reassemble(
    registry: Registry,
    id: u32,
    picture_id: u32,
    picture_side: u32,
    data: Seq<u8>,
    writes: Seq<ChunkWrite>,
)
    requires
        forall|k: int| 0 <= k < writes.len() ==> cut_from(#[trigger] writes[k], data),
        forall|p: int| 0 <= p < data.len() ==> covered_by_first(writes, writes.len() as int, p),
    ensures
        ({
            let start = opened(registry, id, picture_id, picture_side, data.len());
            let end = after_writes(start, id, writes);
            &&& all_accepted(start, id, writes)
            &&& take_outcome(end, id) == Ok::<(u32, u32, Seq<u8>), UploadError>(
                (picture_id, picture_side, data),
            )
            &&& after_take(end, id) == registry.remove(id)
        }),
{
    lemma_partial_assembly(
        registry,
        id,
        picture_id,
        picture_side,
        data,
        writes,
        writes.len() as int,
    );
    assert(writes.take(writes.len() as int) =~= writes);
    let start = opened(registry, id, picture_id, picture_side, data.len());
    let end = after_writes(start, id, writes);
    assert(end[id].bytes =~= data);
    assert(start.remove(id) =~= registry.remove(id));
}

/// The parts laid end to end, first to last.
pub open spec fn joined(parts: Seq<Seq<u8>>) -> Seq<u8>
    decreases parts.len(),
{
    if parts.len() == 0 {
        Seq::empty()
    } else {
        joined(parts.drop_last()) + parts.last()
    }
}

/// Where part `index` begins once the parts are laid end to end.
pub open spec fn start_of(parts: Seq<Seq<u8>>, index: int) -> nat {
    joined(parts.take(index)).len()
}

/// The writes that send the parts in the given order, each to the place
/// where it begins among the joined parts.
pub open spec fn writes_in_order(parts: Seq<Seq<u8>>, order: Seq<int>) -> Seq<ChunkWrite> {
    Seq::new(
        order.len(),
        |j: int| ChunkWrite { offset: start_of(parts, order[j]), payload: parts[order[j]] },
    )
}

/// The byte at `position` of the joined parts lies in part `index`.
pub open spec fn lies_in_part(parts: Seq<Seq<u8>>, index: int, position: int) -> bool {
    &&& 0 <= index < parts.len()
    &&& start_of(parts, index) <= position < start_of(parts, index) + parts[index].len()
}

/// The byte at `position` of the joined parts lies in one of them.
pub open spec fn lies_in_some_part(parts: Seq<Seq<u8>>, position: int) -> bool {
    exists|index: int| lies_in_part(parts, index, position)
}

/// Each part is found among the joined parts at the place where it begins,
/// and every byte of the joined parts lies in one of them.
proof fn lemma_parts_tile(parts: Seq<Seq<u8>>)
    ensures
        forall|i: int|
            0 <= i < parts.len() ==> start_of(parts, i) + (#[trigger] parts[i]).len() <= joined(
                parts,
            ).len() && parts[i] == cut(joined(parts), start_of(parts, i), parts[i].len()),
        forall|p: int| 0 <= p < joined(parts).len() ==> #[trigger] lies_in_some_part(parts, p),
    decreases parts.len(),
{
    if parts.len() == 0 {
    } else {
        let front = parts.drop_last();
        let last = parts.len() - 1;
        lemma_parts_tile(front);
        assert(parts.take(last) =~= front);
        assert forall|i: int| 0 <= i < parts.len() implies start_of(parts, i) + (
        #[trigger] parts[i]).len() <= joined(parts).len() && parts[i] == cut(joined(parts), start_of(parts, i), parts[i].len()) by {
            if i < last {
                assert(parts.take(i) =~= front.take(i));
                assert(parts[i] == front[i]);
                assert(cut(joined(front), start_of(front, i), front[i].len()) =~= cut(joined(parts), start_of(parts, i), parts[i].len()));
            } else {
                assert(parts[i] =~= cut(joined(parts), start_of(parts, i), parts[i].len()));
            }
        }
        assert forall|p: int| 0 <= p < joined(parts).len() implies #[trigger] lies_in_some_part(
            parts,
            p,
        ) by {
            if p < joined(front).len() {
                assert(lies_in_some_part(front, p));
                let i = choose|i: int| lies_in_part(front, i, p);
                assert(parts.take(i) =~= front.take(i));
                assert(parts[i] == front[i]);
                assert(lies_in_part(parts, i, p));
            } else {
                assert(lies_in_part(parts, last, p));
            }
        }
    }
}

/// Cut an upload into parts that lie end to end without gaps, and send the
/// parts in any order, each at least once, to a session opened for their
/// total size: every write is accepted, and taking the session gives the
/// parts joined in their right order, whatever the order of sending.
pub proof fn lemma_parts_in_any_order_reassemble(
    registry: Registry,
    id: u32,
    picture_id: u32,
    picture_side: u32,
    parts: Seq<Seq<u8>>,
    order: Seq<int>,
)
    requires
        forall|j: int| 0 <= j < order.len() ==> 0 <= #[trigger] order[j] < parts.len(),
        forall|i: int| 0 <= i < parts.len() ==> #[trigger] order.contains(i),
    ensures
        ({
            let start = opened(registry, id, picture_id, picture_side, joined(parts).len());
            let writes = writes_in_order(parts, order);
            let end = after_writes(start, id, writes);
            &&& all_accepted(start, id, writes)
            &&& take_outcome(end, id) == Ok::<(u32, u32, Seq<u8>), UploadError>(
                (picture_id, picture_side, joined(parts)),
            )
        }),
{
    let data = joined(parts);
    let writes = writes_in_order(parts, order);
    lemma_parts_tile(parts);
    assert forall|k: int| 0 <= k < writes.len() implies cut_from(#[trigger] writes[k], data) by {
        let i = order[k];
        assert(0 <= i < parts.len());
        assert(parts[i] == cut(data, start_of(parts, i), parts[i].len()));
    }
    assert forall|p: int| 0 <= p < data.len() implies covered_by_first(
        writes,
        writes.len() as int,
        p,
    ) by {
        assert(lies_in_some_part(parts, p));
        let i = choose|i: int| lies_in_part(parts, i, p);
        assert(order.contains(i));
        let j = choose|j: int| 0 <= j < order.len() && order[j] == i;
        assert(covers(writes[j], p));
    }
    lemma_covering_chunks_reassemble(registry, id, picture_id, picture_side, data, writes);
}

/// A write that reaches past the announced size is answered with
/// `OutOfBounds` and leaves every buffer as it was.
pub proof fn lemma_overlong_write_changes_nothing(
    registry: Registry,
    id: u32,
    offset: nat,
    payload: Seq<u8>,
)
    requires
        registry.contains_key(id),
        offset + payload.len() > registry[id].bytes.len(),
    ensures
        write_outcome(registry, id, offset, payload) == Err::<(), UploadError>(
            UploadError::OutOfBounds,
        ),
        after_write(registry, id, offset, payload) == registry,
{
}

/// Writing to or taking a session that is not open is answered with
/// `SessionNotFound` and changes nothing.
pub proof fn lemma_unknown_session_is_not_found(
    registry: Registry,
    id: u32,
    offset: nat,
    payload: Seq<u8>,
)
    requires
        !registry.contains_key(id),
    ensures
        write_outcome(registry, id, offset, payload) == Err::<(), UploadError>(
            UploadError::SessionNotFound,
        ),
        after_write(registry, id, offset, payload) == registry,
        take_outcome(registry, id) == Err::<(u32, u32, Seq<u8>), UploadError>(
            UploadError::SessionNotFound,
        ),
        after_take(registry, id) == registry,
{
    assert(registry.remove(id) =~= registry);
}

/// A session can be taken once: after it was taken, writing to it or taking
/// it again is answered with `SessionNotFound`.
pub proof fn lemma_taken_session_is_gone(
    registry: Registry,
    id: u32,
    offset: nat,
    payload: Seq<u8>,
)
    ensures
        !after_take(registry, id).contains_key(id),
        write_outcome(after_take(registry, id), id, offset, payload) == Err::<(), UploadError>(
            UploadError::SessionNotFound,
        ),
        take_outcome(after_take(registry, id), id) == Err::<(u32, u32, Seq<u8>), UploadError>(
            UploadError::SessionNotFound,
        ),
{
}

/// A registry that was never opened into holds no session: every
/// identifier is unknown to it.
pub proof fn lemma_empty_registry_knows_no_session(id: u32)
    ensures
        !Registry::empty().contains_key(id),
{
}

/// Two sessions that are open at one time have different identifiers: a
/// session is only ever opened under an identifier that the registry does
/// not hold, so the identifier issued differs from that of every session
/// open at the time.
pub proof fn lemma_issued_identifier_is_new(
    registry: Registry,
    open: u32,
    issued: u32,
    picture_id: u32,
    picture_side: u32,
    size: nat,
)
    requires
        registry.contains_key(open),
        !registry.contains_key(issued),
    ensures
        issued != open,
        opened(registry, issued, picture_id, picture_side, size).contains_key(open),
        opened(registry, issued, picture_id, picture_side, size).contains_key(issued),
        opened(registry, issued, picture_id, picture_side, size)[open] == registry[open],
{
}

/// An open session stays open, with its picture, its side and the size of
/// its buffer, whatever is written to any session and whichever other
/// session is taken; what is written to another session leaves its bytes
/// alone.
pub proof fn lemma_open_session_stays(
    registry: Registry,
    open: u32,
    other: u32,
    offset: nat,
    payload: Seq<u8>,
)
    requires
        registry.contains_key(open),
    ensures
        after_write(registry, other, offset, payload).contains_key(open),
        after_write(registry, other, offset, payload)[open].picture_id
            == registry[open].picture_id,
        after_write(registry, other, offset, payload)[open].picture_side
            == registry[open].picture_side,
        after_write(registry, other, offset, payload)[open].bytes.len()
            == registry[open].bytes.len(),
        other != open ==> after_write(registry, other, offset, payload)[open] == registry[open],
        other != open ==> after_take(registry, other).contains_key(open),
        other != open ==> after_take(registry, other)[open] == registry[open],
{
}

/// Once a session is taken its identifier is free again: a search that
/// starts at it finds it, so a later session may be opened under it.
pub proof fn lemma_taken_identifier_is_free(registry: Registry, id: u32)
    ensures
        is_first_free(after_take(registry, id), id, id),
{
    assert(steps_from(id, id) == 0);
}

} // verus!
