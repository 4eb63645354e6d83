use vstd::prelude::*;

use vstd::arithmetic::div_mod::{
    lemma_fundamental_div_mod, lemma_fundamental_div_mod_converse, lemma_mod_bound,
};

use crate::dmatex::Dmatex;

verus! {

/// The ring slot handed out by acquisition number `k` (counting from 0) of a
/// ring of `n` slots: acquisitions go round-robin.
pub open spec fn slot_of(k: nat, n: nat) -> nat
    recommends
        n >= 1,
{
    k % n
}

/// The release point acquisition `k` finds stored in its slot: the point the
/// consumer will signal when done with the slot's previous use. Each earlier
/// visit of the slot advanced it by 2, and a fresh ring starts at 0.
pub open spec fn prev_release_of(k: nat, n: nat) -> nat
    recommends
        n >= 1,
{
    2 * (k / n)
}

/// The timeline point reserved for the producer's completion of acquisition
/// `k`: one past the release it must wait on.
pub open spec fn acquire_of(k: nat, n: nat) -> nat
    recommends
        n >= 1,
{
    prev_release_of(k, n) + 1
}

/// The timeline point reserved for the consumer's release after acquisition
/// `k`: one past the producer's completion point.
pub open spec fn next_release_of(k: nat, n: nat) -> nat
    recommends
        n >= 1,
{
    prev_release_of(k, n) + 2
}

/// How many of the first `k` acquisitions landed on slot `i` of `n`.
pub open spec fn visit_count(k: nat, n: nat, i: int) -> nat
    recommends
        n >= 1,
{
    k / n + if i < (k % n) as int {
        1nat
    } else {
        0nat
    }
}

/// A fixed-size ring of shared images handed out round-robin. Each slot
/// remembers the release point last promised to the consumer for its image;
/// the ghost acquisition counter ties every slot's stored point to the
/// round-robin schedule.
pub struct Swapchain {
    pub images: Vec<Dmatex>,
    pub release_points: Vec<u64>,
    pub next_image: usize,
    pub acquired: Ghost<nat>,
}

/// The borrowed, single-use handoff for one render-and-present cycle of one
/// ring slot: the point to wait on before touching the image, the point the
/// producer's completion will be imported at, and the point the consumer
/// must signal when done.
pub struct SwapchainFrameHandle {
    pub previous_server_release: u64,
    pub server_acquire: u64,
    pub next_server_release: u64,
    pub slot_index: usize,
    pub dmatex_id: u64,
}

/// What the caller hands to the compositor after submitting one frame:
/// which image it is, the point to wait on before sampling, and the point
/// to signal when done consuming.
#[derive(Clone, Copy, PartialEq, Eq, Structural, Debug)]
pub struct DmatexMaterialParam {
    pub dmatex_id: u64,
    pub acquire_point: u64,
    pub release_point: u64,
}

impl Swapchain {
    /// The ring's bookkeeping invariant: the cursor follows the acquisition
    /// count round-robin, and every slot's stored release point is twice the
    /// number of visits the slot has seen.
    pub open spec fn wf(self) -> bool {
        &&& self.images@.len() >= 1
        &&& self.release_points@.len() == self.images@.len()
        &&& self.next_image as nat == self.acquired@ % self.images@.len()
        &&& forall|i: int|
            0 <= i < self.release_points@.len() ==> self.release_points@[i] as nat == 2
                * visit_count(self.acquired@, self.images@.len(), i)
    }

    /// Builds a ring over the given images. Every slot starts at release
    /// point 0: the caller signals each image's timeline at 0 on creation,
    /// so the first acquisition of each slot finds its image released.
    pub fn new(images: Vec<Dmatex>) -> (r: Swapchain)
        requires
            images@.len() >= 1,
        ensures
            r.wf(),
            r.images@ == images@,
            r.acquired@ == 0,
            r.next_image == 0,
            forall|i: int| 0 <= i < r.release_points@.len() ==> r.release_points@[i] == 0,
    {
        let n = images.len();
        let mut release_points: Vec<u64> = Vec::new();
        let mut i: usize = 0;
        while i < n
            invariant
                i <= n,
                release_points@.len() == i,
                forall|i2: int| 0 <= i2 < i ==> release_points@[i2] == 0,
            decreases n - i,
        {
            release_points.push(0);
            i = i + 1;
        }
        proof {
            lemma_fundamental_div_mod_converse(0, n as int, 0, 0);
        }
        Swapchain { images, release_points, next_image: 0, acquired: Ghost(0) }
    }

    /// Hands out the next frame: reads the slot at the cursor, computes the
    /// wait/signal/release triple from the slot's stored release point,
    /// commits the new release point to the slot, and advances the cursor.
    /// Never blocks; any waiting happens later through the handle.
    pub fn prepare_next_image(&mut self) -> (h: SwapchainFrameHandle)
        requires
            old(self).wf(),
            old(self).release_points@[old(self).next_image as int] + 2 <= u64::MAX,
        ensures
            final(self).wf(),
            final(self).images@ == old(self).images@,
            final(self).acquired@ == old(self).acquired@ + 1,
            h.slot_index as nat == slot_of(old(self).acquired@, old(self).images@.len()),
            h.dmatex_id == old(self).images@[h.slot_index as int].dmatex_id,
            h.previous_server_release == old(self).release_points@[h.slot_index as int],
            h.previous_server_release as nat == prev_release_of(
                old(self).acquired@,
                old(self).images@.len(),
            ),
            h.server_acquire == h.previous_server_release + 1,
            h.next_server_release == h.previous_server_release + 2,
            final(self).release_points@ == old(self).release_points@.update(
                h.slot_index as int,
                h.next_server_release,
            ),
    {
        let n = self.images.len();
        let ghost k = self.acquired@;
        proof {
            lemma_mod_bound(k as int, n as int);
        }
        let c = self.next_image;
        let previous_server_release = self.release_points[c];
        let dmatex_id = self.images[c].dmatex_id;
        let server_acquire = previous_server_release + 1;
        let next_server_release = previous_server_release + 2;
        self.release_points.set(c, next_server_release);
        self.next_image = if c + 1 == n {
            0
        } else {
            c + 1
        };
        proof {
            self.acquired@ = k + 1;
            let q = k / n as nat;
            let r = k % n as nat;
            lemma_fundamental_div_mod(k as int, n as int);
            if r + 1 < n {
                assert(k as int + 1 == q as int * n as int + (r as int + 1)) by (nonlinear_arith)
                    requires
                        k as int == n as int * q as int + r as int,
                ;
                lemma_fundamental_div_mod_converse(
                    k as int + 1,
                    n as int,
                    q as int,
                    r as int + 1,
                );
            } else {
                assert(k as int + 1 == (q as int + 1) * n as int + 0) by (nonlinear_arith)
                    requires
                        k as int == n as int * q as int + r as int,
                        r as int + 1 == n as int,
                ;
                lemma_fundamental_div_mod_converse(k as int + 1, n as int, q as int + 1, 0);
            }
            assert forall|i: int|
                0 <= i < self.release_points@.len() implies self.release_points@[i] as nat == 2
                * visit_count(self.acquired@, self.images@.len(), i) by {
                assert(old(self).release_points@[i] as nat == 2 * visit_count(k, n as nat, i));
            }
        }
        SwapchainFrameHandle {
            previous_server_release,
            server_acquire,
            next_server_release,
            slot_index: c,
            dmatex_id,
        }
    }
}

impl SwapchainFrameHandle {
    /// Consumes the handoff's single use and yields the material parameter
    /// the caller hands to the compositor: the point it must wait on before
    /// sampling the image and the point it must signal when done. The GPU
    /// submission itself — waiting on the previous release and signalling the
    /// acquire point — happens around this call, on the caller's queue.
    pub fn submit(self) -> (r: DmatexMaterialParam)
        ensures
            r.dmatex_id == self.dmatex_id,
            r.acquire_point == self.server_acquire,
            r.release_point == self.next_server_release,
    {
        DmatexMaterialParam {
            dmatex_id: self.dmatex_id,
            acquire_point: self.server_acquire,
            release_point: self.next_server_release,
        }
    }
}

/// Acquisitions visit the slots round-robin: the slot index is always below
/// the ring size, and `n` acquisitions later the same slot comes up again.
pub proof fn lemma_slot_round_robin(k: nat, n: nat)
    requires
        n >= 1,
    ensures
        slot_of(k, n) < n,
        slot_of(k + n, n) == slot_of(k, n),
{
    lemma_shift_full_cycle(k, n);
}

/// Adding one full round of `n` acquisitions advances the quotient by one
/// and keeps the slot: the arithmetic core of the revisit laws.
proof fn lemma_shift_full_cycle(k: nat, n: nat)
    requires
        n >= 1,
    ensures
        (k + n) / n == k / n + 1,
        (k + n) % n == k % n,
        k % n < n,
{
    let q = (k / n) as int;
    let r = (k % n) as int;
    lemma_mod_bound(k as int, n as int);
    lemma_fundamental_div_mod(k as int, n as int);
    assert(k as int + n as int == (q + 1) * n as int + r) by (nonlinear_arith)
        requires
            k as int == n as int * q + r,
    ;
    lemma_fundamental_div_mod_converse(k as int + n as int, n as int, q + 1, r);
}

/// No acquisition between two successive visits of a slot lands on it: the
/// next visit of slot `slot_of(k, n)` after acquisition `k` is exactly
/// acquisition `k + n`.
pub proof fn lemma_between_visits_other_slots(k: nat, m: nat, n: nat)
    requires
        n >= 1,
        k < m < k + n,
    ensures
        slot_of(m, n) != slot_of(k, n),
{
    let q = k / n;
    let r = k % n;
    lemma_mod_bound(k as int, n as int);
    lemma_fundamental_div_mod(k as int, n as int);
    let d = m - k;
    if r + d < n {
        assert(m as int == q as int * n as int + (r as int + d)) by (nonlinear_arith)
            requires
                k as int == n as int * q as int + r as int,
                m == k + d,
        ;
        lemma_fundamental_div_mod_converse(m as int, n as int, q as int, r as int + d);
    } else {
        assert(m as int == (q as int + 1) * n as int + (r as int + d - n as int))
            by (nonlinear_arith)
            requires
                k as int == n as int * q as int + r as int,
                m == k + d,
        ;
        lemma_fundamental_div_mod_converse(
            m as int,
            n as int,
            q as int + 1,
            r as int + d - n as int,
        );
    }
}

/// Across successive visits of one slot the wait point advances by exactly
/// 2: the next visit waits on the release point the previous visit reserved.
pub proof fn lemma_revisit_advances_by_two(k: nat, n: nat)
    requires
        n >= 1,
    ensures
        prev_release_of(k + n, n) == prev_release_of(k, n) + 2,
{
    lemma_shift_full_cycle(k, n);
}

/// The whole schedule of one slot in closed form: its `j`-th visit (counting
/// from 0) is acquisition `s + j * n`, and that visit waits on point `2 * j`.
/// So per slot the wait points run 0, 2, 4, ... — strictly increasing by
/// exactly 2 each revisit.
pub proof fn lemma_visit_points(s: nat, j: nat, n: nat)
    requires
        n >= 1,
        s < n,
    ensures
        slot_of(s + j * n, n) == s,
        prev_release_of(s + j * n, n) == 2 * j,
    decreases j,
{
    if j == 0 {
        assert(j * n == 0) by (nonlinear_arith)
            requires
                j == 0,
        ;
        lemma_fundamental_div_mod_converse(s as int, n as int, 0, s as int);
    } else {
        let jm1 = (j - 1) as nat;
        lemma_visit_points(s, jm1, n);
        assert(j * n == jm1 * n + n) by (nonlinear_arith)
            requires
                jm1 == j - 1,
        ;
        lemma_shift_full_cycle(s + jm1 * n, n);
    }
}

/// The release point promised by one visit of a slot is exactly the wait
/// point the next visit of that slot consumes.
pub proof fn lemma_release_round_trip(k: nat, n: nat)
    requires
        n >= 1,
    ensures
        next_release_of(k, n) == prev_release_of(k + n, n),
{
    lemma_revisit_advances_by_two(k, n);
}

/// Within one handoff the three points are consecutive, so the producer
/// never waits on its own completion and the consumer's release point is
/// fresh: no point is ever signalled twice.
pub proof fn lemma_points_consecutive(k: nat, n: nat)
    requires
        n >= 1,
    ensures
        prev_release_of(k, n) < acquire_of(k, n) < next_release_of(k, n),
{
}

} // verus!
