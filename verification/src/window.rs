use vstd::prelude::*;
use crate::status::{DeviceStatus, StatusModel, BANDWIDTH_SLOTS};

verus! {

/// The tail bucket raised by `n`: the model of one byte-count increment
/// landing in the in-progress interval.
pub open spec fn bump_tail(w: Seq<u64>, n: u64) -> Seq<u64>
    recommends
        w.len() > 0,
        w.last() + n <= u64::MAX,
{
    w.update(w.len() - 1, (w.last() + n) as u64)
}

/// One rotation of a window: the oldest bucket leaves at the head and a
/// fresh zero bucket is appended at the tail.
pub open spec fn rotated(w: Seq<u64>) -> Seq<u64>
    recommends
        w.len() > 0,
{
    w.drop_first().push(0u64)
}

/// `k` rotations in a row.
pub open spec fn rotated_k(w: Seq<u64>, k: nat) -> Seq<u64>
    decreases k,
{
    if k == 0 {
        w
    } else {
        rotated(rotated_k(w, (k - 1) as nat))
    }
}

/// The tail-bucket reset performed once when the window task starts: the
/// in-progress bucket is replaced by a fresh zero bucket so that the first
/// interval begins cleanly.
pub open spec fn reseeded(w: Seq<u64>) -> Seq<u64>
    recommends
        w.len() > 0,
{
    w.drop_last().push(0u64)
}

/// The sum of a sequence of increments.
pub open spec fn total(ns: Seq<u64>) -> int
    decreases ns.len(),
{
    if ns.len() == 0 {
        0
    } else {
        total(ns.drop_last()) + ns.last()
    }
}

/// A window after a whole sequence of tail increments has landed, in order.
pub open spec fn bumped_all(w: Seq<u64>, ns: Seq<u64>) -> Seq<u64>
    decreases ns.len(),
{
    if ns.len() == 0 {
        w
    } else {
        bump_tail(bumped_all(w, ns.drop_last()), ns.last())
    }
}

pub proof fn lemma_total_nonneg(ns: Seq<u64>)
    ensures
        total(ns) >= 0,
    decreases ns.len(),
{
    if ns.len() > 0 {
        lemma_total_nonneg(ns.drop_last());
    }
}

/// Law: within one interval, any sequence of tail increments raises the tail
/// bucket by exactly the sum of the increments, keeps the window length, and
/// leaves every other bucket untouched.
pub proof fn lemma_increments_accumulate(w: Seq<u64>, ns: Seq<u64>)
    requires
        w.len() > 0,
        w.last() + total(ns) <= u64::MAX,
    ensures
        bumped_all(w, ns).len() == w.len(),
        bumped_all(w, ns).last() == w.last() + total(ns),
        forall|i: int| 0 <= i < w.len() - 1 ==> bumped_all(w, ns)[i] == w[i],
    decreases ns.len(),
{
    if ns.len() > 0 {
        lemma_total_nonneg(ns.drop_last());
        lemma_increments_accumulate(w, ns.drop_last());
    }
}

/// Law: a rotation keeps the window length at exactly `BANDWIDTH_SLOTS`
/// however many times it is applied, and a single rotation moves the bucket
/// that stood at index `i` to index `i - 1` (the head bucket is dropped)
/// while a fresh zero bucket appears at the last index.
pub proof fn lemma_rotation_window(w: Seq<u64>, k: nat)
    requires
        w.len() == BANDWIDTH_SLOTS,
        k >= 1,
    ensures
        rotated_k(w, k).len() == BANDWIDTH_SLOTS,
        forall|i: int| 1 <= i < w.len() ==> rotated(w)[i - 1] == w[i],
        rotated(w).last() == 0,
    decreases k,
{
    if k == 1 {
        assert(rotated_k(w, 0) == w);
    } else {
        lemma_rotation_window(w, (k - 1) as nat);
    }
}

impl DeviceStatus {
    /// Adds `n` bytes to the in-progress upload bucket (the window's tail);
    /// an empty window is left as it is.
    pub fn add_upload(&mut self, n: u64)
        requires
            old(self)@.upload_bandwidth.len() > 0 ==> old(self)@.upload_bandwidth.last() + n
                <= u64::MAX,
        ensures
            old(self)@.upload_bandwidth.len() > 0 ==> final(self)@ == (StatusModel {
                upload_bandwidth: bump_tail(old(self)@.upload_bandwidth, n),
                ..old(self)@
            }),
            old(self)@.upload_bandwidth.len() == 0 ==> final(self)@ == old(self)@,
    {
        if let Some(tail) = self.upload_bandwidth.pop() {
            self.upload_bandwidth.push(tail + n);
            proof {
                assert(self.upload_bandwidth@ =~= bump_tail(old(self)@.upload_bandwidth, n));
                assert(self@ =~= (StatusModel {
                    upload_bandwidth: bump_tail(old(self)@.upload_bandwidth, n),
                    ..old(self)@
                }));
            }
        } else {
            proof {
                assert(self@ =~= old(self)@);
            }
        }
    }

    /// Adds `n` bytes to the in-progress download bucket (the window's tail);
    /// an empty window is left as it is.
    pub fn add_download(&mut self, n: u64)
        requires
            old(self)@.download_bandwidth.len() > 0 ==> old(self)@.download_bandwidth.last() + n
                <= u64::MAX,
        ensures
            old(self)@.download_bandwidth.len() > 0 ==> final(self)@ == (StatusModel {
                download_bandwidth: bump_tail(old(self)@.download_bandwidth, n),
                ..old(self)@
            }),
            old(self)@.download_bandwidth.len() == 0 ==> final(self)@ == old(self)@,
    {
        if let Some(tail) = self.download_bandwidth.pop() {
            self.download_bandwidth.push(tail + n);
            proof {
                assert(self.download_bandwidth@ =~= bump_tail(old(self)@.download_bandwidth, n));
                assert(self@ =~= (StatusModel {
                    download_bandwidth: bump_tail(old(self)@.download_bandwidth, n),
                    ..old(self)@
                }));
            }
        } else {
            proof {
                assert(self@ =~= old(self)@);
            }
        }
    }

    /// Advances both bandwidth windows by one interval: the oldest bucket
    /// leaves at the head and a fresh zero bucket opens at the tail.
    pub fn rotate_bandwidth(&mut self)
        requires
            old(self)@.upload_bandwidth.len() > 0,
            old(self)@.download_bandwidth.len() > 0,
        ensures
            final(self)@ == (StatusModel {
                upload_bandwidth: rotated(old(self)@.upload_bandwidth),
                download_bandwidth: rotated(old(self)@.download_bandwidth),
                ..old(self)@
            }),
    {
        let _ = self.upload_bandwidth.remove(0);
        self.upload_bandwidth.push(0);
        let _ = self.download_bandwidth.remove(0);
        self.download_bandwidth.push(0);
        proof {
            assert(self.upload_bandwidth@ =~= rotated(old(self)@.upload_bandwidth));
            assert(self.download_bandwidth@ =~= rotated(old(self)@.download_bandwidth));
            assert(self@ =~= (StatusModel {
                upload_bandwidth: rotated(old(self)@.upload_bandwidth),
                download_bandwidth: rotated(old(self)@.download_bandwidth),
                ..old(self)@
            }));
        }
    }

    /// Replaces the in-progress bucket of both windows with a fresh zero
    /// bucket; done once when the window task starts, so that the first
    /// interval begins cleanly.
    pub fn reset_current_buckets(&mut self)
        requires
            old(self)@.upload_bandwidth.len() > 0,
            old(self)@.download_bandwidth.len() > 0,
        ensures
            final(self)@ == (StatusModel {
                upload_bandwidth: reseeded(old(self)@.upload_bandwidth),
                download_bandwidth: reseeded(old(self)@.download_bandwidth),
                ..old(self)@
            }),
    {
        let _ = self.upload_bandwidth.pop();
        self.upload_bandwidth.push(0);
        let _ = self.download_bandwidth.pop();
        self.download_bandwidth.push(0);
        proof {
            assert(self.upload_bandwidth@ =~= reseeded(old(self)@.upload_bandwidth));
            assert(self.download_bandwidth@ =~= reseeded(old(self)@.download_bandwidth));
            assert(self@ =~= (StatusModel {
                upload_bandwidth: reseeded(old(self)@.upload_bandwidth),
                download_bandwidth: reseeded(old(self)@.download_bandwidth),
                ..old(self)@
            }));
        }
    }
}

} // verus!
