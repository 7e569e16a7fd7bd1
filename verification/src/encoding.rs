use crate::constants::{MAX_NEIGHBORS, PUBLIC_INPUT_BYTES};
use vstd::prelude::*;

verus! {

/// Byte `j` of the four-byte big-endian form of `v`, byte 0 being the most
/// significant.
pub open spec fn be_byte(v: u32, j: int) -> u8 {
    if j == 0 {
        (v / 0x100_0000) as u8
    } else if j == 1 {
        (v / 0x1_0000 % 0x100) as u8
    } else if j == 2 {
        (v / 0x100 % 0x100) as u8
    } else {
        (v % 0x100) as u8
    }
}

/// Byte `k` of the 32-byte field that holds `v`: 28 zero bytes, then `v` in
/// big-endian order.
pub open spec fn field_byte(v: u32, k: int) -> u8 {
    if k < 28 {
        0
    } else {
        be_byte(v, k - 28)
    }
}

/// The 32-byte field that holds `v`.
pub open spec fn field(v: u32) -> Seq<u8> {
    Seq::new(32, |k: int| field_byte(v, k))
}

/// The value encoded in neighbor slot `i`: the supplied neighbor where the
/// slot lies below both the declared count and the length of the list, and
/// zero everywhere else.
pub open spec fn neighbor_slot(neighbors: Seq<u32>, neighbor_count: u32, i: int) -> u32 {
    if 0 <= i < neighbor_count && i < neighbors.len() {
        neighbors[i]
    } else {
        0
    }
}

/// The first `n` neighbor slots, one field each.
pub open spec fn neighbor_fields(neighbors: Seq<u32>, neighbor_count: u32, n: nat) -> Seq<u8> {
    Seq::new(32 * n, |k: int| field_byte(neighbor_slot(neighbors, neighbor_count, k / 32), k % 32))
}

/// The public inputs of a proof: the commitment verbatim, then one field each
/// for the action, the target, the twenty neighbor slots, the neighbor count
/// and the claimed result.
pub open spec fn public_inputs(
    commitment: Seq<u8>,
    action_type: u32,
    target_id: u32,
    neighbors: Seq<u32>,
    neighbor_count: u32,
    result_count: u32,
) -> Seq<u8> {
    commitment + field(action_type) + field(target_id) + neighbor_fields(
        neighbors,
        neighbor_count,
        MAX_NEIGHBORS as nat,
    ) + field(neighbor_count) + field(result_count)
}

/// Appends the 32-byte field that holds `v`.
fn push_field(out: &mut Vec<u8>, v: u32)
    ensures
        final(out)@ == old(out)@ + field(v),
{
    let mut k: usize = 0;
    while k < 28
        invariant
            k <= 28,
            out@.len() == old(out)@.len() + k,
            forall|j: int| 0 <= j < old(out)@.len() ==> out@[j] == old(out)@[j],
            forall|j: int| old(out)@.len() <= j < old(out)@.len() + k ==> out@[j] == 0,
        decreases 28 - k,
    {
        out.push(0);
        k += 1;
    }
    out.push((v / 0x100_0000) as u8);
    out.push((v / 0x1_0000 % 0x100) as u8);
    out.push((v / 0x100 % 0x100) as u8);
    out.push((v % 0x100) as u8);
    assert(out@ =~= old(out)@ + field(v));
}

/// Builds the public inputs that a proof of the given action is checked
/// against.
pub fn build_public_inputs(
    commitment: &[u8; 32],
    action_type: u32,
    target_id: u32,
    neighbors: &Vec<u32>,
    neighbor_count: u32,
    result_count: u32,
) -> (out: Vec<u8>)
    ensures
        out@ == public_inputs(
            commitment@,
            action_type,
            target_id,
            neighbors@,
            neighbor_count,
            result_count,
        ),
        out@.len() == PUBLIC_INPUT_BYTES,
{
    let mut out: Vec<u8> = Vec::new();
    let mut k: usize = 0;
    while k < 32
        invariant
            k <= 32,
            out@ == commitment@.take(k as int),
        decreases 32 - k,
    {
        out.push(commitment[k]);
        assert(commitment@.take(k as int).push(commitment@[k as int]) =~= commitment@.take(
            k + 1,
        ));
        k += 1;
    }
    assert(commitment@.take(32) =~= commitment@);
    push_field(&mut out, action_type);
    push_field(&mut out, target_id);
    let ghost head = out@;
    assert(neighbor_fields(neighbors@, neighbor_count, 0) =~= Seq::<u8>::empty());
    assert(head + Seq::<u8>::empty() =~= head);
    let mut i: u32 = 0;
    while i < MAX_NEIGHBORS
        invariant
            i <= MAX_NEIGHBORS,
            out@ == head + neighbor_fields(neighbors@, neighbor_count, i as nat),
        decreases MAX_NEIGHBORS - i,
    {
        let value: u32 = if i < neighbor_count && (i as usize) < neighbors.len() {
            neighbors[i as usize]
        } else {
            0
        };
        assert(value == neighbor_slot(neighbors@, neighbor_count, i as int));
        push_field(&mut out, value);
        assert(neighbor_fields(neighbors@, neighbor_count, i as nat) + field(value)
            =~= neighbor_fields(neighbors@, neighbor_count, (i + 1) as nat));
        assert(head + neighbor_fields(neighbors@, neighbor_count, i as nat) + field(value)
            =~= head + (neighbor_fields(neighbors@, neighbor_count, i as nat) + field(value)));
        i += 1;
    }
    push_field(&mut out, neighbor_count);
    push_field(&mut out, result_count);
    out
}

/// The value that a 32-byte field holds is read back from its last four
/// bytes.
pub proof fn lemma_field_value(v: u32)
    ensures
        field(v).len() == 32,
        forall|k: int| 0 <= k < 28 ==> field(v)[k] == 0,
        v == field(v)[28] * 0x100_0000 + field(v)[29] * 0x1_0000 + field(v)[30] * 0x100 + field(
            v,
        )[31],
{
}

/// The public inputs are a function of what is encoded and of nothing else:
/// two neighbor lists that fill the twenty slots alike, whatever they hold
/// at or beyond the declared count, give the same bytes.
pub proof fn lemma_unused_neighbors_ignored(
    commitment: Seq<u8>,
    action_type: u32,
    target_id: u32,
    neighbors_a: Seq<u32>,
    neighbors_b: Seq<u32>,
    neighbor_count: u32,
    result_count: u32,
)
    requires
        forall|i: int|
            0 <= i < MAX_NEIGHBORS ==> neighbor_slot(neighbors_a, neighbor_count, i) == neighbor_slot(
                neighbors_b,
                neighbor_count,
                i,
            ),
    ensures
        public_inputs(
            commitment,
            action_type,
            target_id,
            neighbors_a,
            neighbor_count,
            result_count,
        ) == public_inputs(
            commitment,
            action_type,
            target_id,
            neighbors_b,
            neighbor_count,
            result_count,
        ),
{
    assert(neighbor_fields(neighbors_a, neighbor_count, MAX_NEIGHBORS as nat) =~= neighbor_fields(
        neighbors_b,
        neighbor_count,
        MAX_NEIGHBORS as nat,
    ));
}

/// Every byte of a neighbor slot at or beyond the declared count is zero,
/// whatever the list holds there.
pub proof fn lemma_unused_slots_are_zero(
    commitment: Seq<u8>,
    action_type: u32,
    target_id: u32,
    neighbors: Seq<u32>,
    neighbor_count: u32,
    result_count: u32,
    slot: int,
    k: int,
)
    requires
        commitment.len() == 32,
        neighbor_count <= slot < MAX_NEIGHBORS,
        0 <= k < 32,
    ensures
        public_inputs(commitment, action_type, target_id, neighbors, neighbor_count, result_count)[96
            + 32 * slot + k] == 0,
{
    let nf = neighbor_fields(neighbors, neighbor_count, MAX_NEIGHBORS as nat);
    assert(nf[32 * slot + k] == field_byte(
        neighbor_slot(neighbors, neighbor_count, (32 * slot + k) / 32),
        (32 * slot + k) % 32,
    ));
}

/// Where the layout places each encoded value: the commitment in the first
/// 32 bytes, then the fields of the action, the target, the twenty neighbor
/// slots, the neighbor count and the result.
pub proof fn lemma_public_inputs_layout(
    commitment: Seq<u8>,
    action_type: u32,
    target_id: u32,
    neighbors: Seq<u32>,
    neighbor_count: u32,
    result_count: u32,
)
    requires
        commitment.len() == 32,
    ensures
        ({
            let bytes = public_inputs(
                commitment,
                action_type,
                target_id,
                neighbors,
                neighbor_count,
                result_count,
            );
            &&& bytes.len() == PUBLIC_INPUT_BYTES
            &&& bytes.subrange(0, 32) == commitment
            &&& bytes.subrange(32, 64) == field(action_type)
            &&& bytes.subrange(64, 96) == field(target_id)
            &&& forall|i: int|
                0 <= i < MAX_NEIGHBORS ==> #[trigger] bytes.subrange(96 + 32 * i, 128 + 32 * i) == field(
                    neighbor_slot(neighbors, neighbor_count, i),
                )
            &&& bytes.subrange(736, 768) == field(neighbor_count)
            &&& bytes.subrange(768, 800) == field(result_count)
        }),
{
    let bytes = public_inputs(
        commitment,
        action_type,
        target_id,
        neighbors,
        neighbor_count,
        result_count,
    );
    assert(bytes.subrange(0, 32) =~= commitment);
    assert(bytes.subrange(32, 64) =~= field(action_type));
    assert(bytes.subrange(64, 96) =~= field(target_id));
    assert(bytes.subrange(736, 768) =~= field(neighbor_count));
    assert(bytes.subrange(768, 800) =~= field(result_count));
    assert forall|i: int| 0 <= i < MAX_NEIGHBORS implies #[trigger] bytes.subrange(
        96 + 32 * i,
        128 + 32 * i,
    ) == field(neighbor_slot(neighbors, neighbor_count, i)) by {
        let part = bytes.subrange(96 + 32 * i, 128 + 32 * i);
        let want = field(neighbor_slot(neighbors, neighbor_count, i));
        assert forall|k: int| 0 <= k < 32 implies part[k] == want[k] by {
            assert((32 * i + k) / 32 == i);
            assert((32 * i + k) % 32 == k);
            assert(part[k] == neighbor_fields(neighbors, neighbor_count, MAX_NEIGHBORS as nat)[32 * i
                + k]);
        }
        assert(part =~= want);
    }
}

/// The encoding loses nothing: equal public inputs come from equal
/// commitments, actions, targets, neighbor counts, results and neighbor
/// slots.
pub proof fn lemma_public_inputs_injective(
    commitment_a: Seq<u8>,
    action_a: u32,
    target_a: u32,
    neighbors_a: Seq<u32>,
    count_a: u32,
    result_a: u32,
    commitment_b: Seq<u8>,
    action_b: u32,
    target_b: u32,
    neighbors_b: Seq<u32>,
    count_b: u32,
    result_b: u32,
)
    requires
        commitment_a.len() == 32,
        commitment_b.len() == 32,
        public_inputs(commitment_a, action_a, target_a, neighbors_a, count_a, result_a)
            == public_inputs(commitment_b, action_b, target_b, neighbors_b, count_b, result_b),
    ensures
        commitment_a == commitment_b,
        action_a == action_b,
        target_a == target_b,
        count_a == count_b,
        result_a == result_b,
        forall|i: int|
            0 <= i < MAX_NEIGHBORS ==> neighbor_slot(neighbors_a, count_a, i) == neighbor_slot(
                neighbors_b,
                count_b,
                i,
            ),
{
    lemma_public_inputs_layout(commitment_a, action_a, target_a, neighbors_a, count_a, result_a);
    lemma_public_inputs_layout(commitment_b, action_b, target_b, neighbors_b, count_b, result_b);
    lemma_field_value(action_a);
    lemma_field_value(action_b);
    lemma_field_value(target_a);
    lemma_field_value(target_b);
    lemma_field_value(count_a);
    lemma_field_value(count_b);
    lemma_field_value(result_a);
    lemma_field_value(result_b);
    let bytes = public_inputs(commitment_a, action_a, target_a, neighbors_a, count_a, result_a);
    assert forall|i: int| 0 <= i < MAX_NEIGHBORS implies neighbor_slot(neighbors_a, count_a, i)
        == neighbor_slot(neighbors_b, count_b, i) by {
        let part = bytes.subrange(96 + 32 * i, 128 + 32 * i);
        assert(part == field(neighbor_slot(neighbors_a, count_a, i)));
        assert(part == field(neighbor_slot(neighbors_b, count_b, i)));
        lemma_field_value(neighbor_slot(neighbors_a, count_a, i));
        lemma_field_value(neighbor_slot(neighbors_b, count_b, i));
    }
}

} // verus!
