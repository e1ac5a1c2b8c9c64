use vstd::prelude::*;

verus! {

/// Number of interval buckets kept in each bandwidth window.
pub const BANDWIDTH_SLOTS: usize = 30;

/// Mathematical model of a device-status snapshot: every field as a plain
/// mathematical value, with the two bandwidth windows as sequences.
#[verifier::ext_equal]
pub ghost struct StatusModel {
    pub device_id: Seq<char>,
    pub device_owner: Seq<char>,
    pub device_version: Seq<char>,
    pub peer_id: Seq<char>,
    pub peers_count: u32,
    pub best_block_number: u32,
    pub finalized_block_number: u32,
    pub upload_bandwidth: Seq<u64>,
    pub download_bandwidth: Seq<u64>,
    pub uptime: i64,
    pub monitor_type: u8,
    pub monitor_sync_chains: Seq<(u32, u32)>,
    pub errors: Seq<u8>,
}

/// One device-status snapshot. Identity fields use the empty string for
/// "unset"; the two bandwidth windows hold one byte counter per elapsed
/// interval, oldest first, with the in-progress interval at the tail.
pub struct DeviceStatus {
    pub device_id: String,
    pub device_owner: String,
    pub device_version: String,
    pub peer_id: String,
    pub peers_count: u32,
    pub best_block_number: u32,
    pub finalized_block_number: u32,
    pub upload_bandwidth: Vec<u64>,
    pub download_bandwidth: Vec<u64>,
    pub uptime: i64,
    pub monitor_type: u8,
    pub monitor_sync_chains: Vec<(u32, u32)>,
    pub errors: Vec<u8>,
}

impl View for DeviceStatus {
    type V = StatusModel;

    open spec fn view(&self) -> StatusModel {
        StatusModel {
            device_id: self.device_id@,
            device_owner: self.device_owner@,
            device_version: self.device_version@,
            peer_id: self.peer_id@,
            peers_count: self.peers_count,
            best_block_number: self.best_block_number,
            finalized_block_number: self.finalized_block_number,
            upload_bandwidth: self.upload_bandwidth@,
            download_bandwidth: self.download_bandwidth@,
            uptime: self.uptime,
            monitor_type: self.monitor_type,
            monitor_sync_chains: self.monitor_sync_chains@,
            errors: self.errors@,
        }
    }
}

/// The length invariant: both bandwidth windows hold exactly
/// `BANDWIDTH_SLOTS` buckets at every observable point.
pub open spec fn window_wf(m: StatusModel) -> bool {
    &&& m.upload_bandwidth.len() == BANDWIDTH_SLOTS
    &&& m.download_bandwidth.len() == BANDWIDTH_SLOTS
}

/// The model of a freshly initialized snapshot: every field default-valued,
/// both windows full of zeroed buckets.
pub open spec fn fresh_model() -> StatusModel {
    StatusModel {
        device_id: Seq::<char>::empty(),
        device_owner: Seq::<char>::empty(),
        device_version: Seq::<char>::empty(),
        peer_id: Seq::<char>::empty(),
        peers_count: 0,
        best_block_number: 0,
        finalized_block_number: 0,
        upload_bandwidth: Seq::<u64>::new(BANDWIDTH_SLOTS as nat, |i: int| 0u64),
        download_bandwidth: Seq::<u64>::new(BANDWIDTH_SLOTS as nat, |i: int| 0u64),
        uptime: 0,
        monitor_type: 0,
        monitor_sync_chains: Seq::<(u32, u32)>::empty(),
        errors: Seq::<u8>::empty(),
    }
}

/// The readiness gate for reporting: a snapshot is eligible exactly when
/// all three identity fields `device_id`, `device_owner` and `peer_id`
/// are non-empty, independent of every other field.
pub open spec fn spec_ready(m: StatusModel) -> bool {
    &&& m.device_id.len() > 0
    &&& m.device_owner.len() > 0
    &&& m.peer_id.len() > 0
}

/// Law: readiness depends on the three identity fields alone; two snapshots
/// that agree on `device_id`, `device_owner` and `peer_id` are equally ready,
/// whatever their other fields hold.
pub proof fn lemma_ready_identity_only(a: StatusModel, b: StatusModel)
    requires
        a.device_id == b.device_id,
        a.device_owner == b.device_owner,
        a.peer_id == b.peer_id,
    ensures
        spec_ready(a) == spec_ready(b),
{
}

fn copy_vec<T: Copy>(v: &Vec<T>) -> (r: Vec<T>)
    ensures
        r@ == v@,
{
    let mut r: Vec<T> = Vec::new();
    let mut k: usize = 0;
    while k < v.len()
        invariant
            k <= v@.len(),
            r@ == v@.subrange(0, k as int),
        decreases v@.len() - k,
    {
        r.push(v[k]);
        proof {
            assert(r@ =~= v@.subrange(0, k + 1 as int));
        }
        k = k + 1;
    }
    proof {
        assert(r@ =~= v@);
    }
    r
}

fn zeroed_window() -> (v: Vec<u64>)
    ensures
        v@ == Seq::<u64>::new(BANDWIDTH_SLOTS as nat, |i: int| 0u64),
{
    let mut v: Vec<u64> = Vec::new();
    let mut k: usize = 0;
    while k < BANDWIDTH_SLOTS
        invariant
            k <= BANDWIDTH_SLOTS,
            v@.len() == k,
            forall|i: int| 0 <= i < k ==> v@[i] == 0u64,
        decreases BANDWIDTH_SLOTS - k,
    {
        v.push(0);
        k = k + 1;
    }
    proof {
        assert(v@ =~= Seq::<u64>::new(BANDWIDTH_SLOTS as nat, |i: int| 0u64));
    }
    v
}

impl DeviceStatus {
    /// A freshly initialized snapshot: default-valued fields and two
    /// zeroed bandwidth windows of the invariant length.
    pub fn new() -> (r: DeviceStatus)
        ensures
            r@ == fresh_model(),
            window_wf(r@),
    {
        let r = DeviceStatus {
            device_id: String::new(),
            device_owner: String::new(),
            device_version: String::new(),
            peer_id: String::new(),
            peers_count: 0,
            best_block_number: 0,
            finalized_block_number: 0,
            upload_bandwidth: zeroed_window(),
            download_bandwidth: zeroed_window(),
            uptime: 0,
            monitor_type: 0,
            monitor_sync_chains: Vec::new(),
            errors: Vec::new(),
        };
        proof {
            assert(r@ =~= fresh_model());
        }
        r
    }

    /// Replaces the device identifier; every other field is unchanged.
    pub fn set_device_id(&mut self, device_id: String)
        ensures
            final(self)@ == (StatusModel { device_id: device_id@, ..old(self)@ }),
    {
        self.device_id = device_id;
        proof {
            assert(self@ =~= (StatusModel { device_id: self.device_id@, ..old(self)@ }));
        }
    }

    /// Replaces the device owner; every other field is unchanged.
    pub fn set_device_owner(&mut self, device_owner: String)
        ensures
            final(self)@ == (StatusModel { device_owner: device_owner@, ..old(self)@ }),
    {
        self.device_owner = device_owner;
        proof {
            assert(self@ =~= (StatusModel { device_owner: self.device_owner@, ..old(self)@ }));
        }
    }

    /// Replaces the device version; every other field is unchanged.
    pub fn set_device_version(&mut self, version: String)
        ensures
            final(self)@ == (StatusModel { device_version: version@, ..old(self)@ }),
    {
        self.device_version = version;
        proof {
            assert(self@ =~= (StatusModel { device_version: self.device_version@, ..old(self)@ }));
        }
    }

    /// Replaces the peer identifier; every other field is unchanged.
    pub fn set_peer_id(&mut self, peer_id: String)
        ensures
            final(self)@ == (StatusModel { peer_id: peer_id@, ..old(self)@ }),
    {
        self.peer_id = peer_id;
        proof {
            assert(self@ =~= (StatusModel { peer_id: self.peer_id@, ..old(self)@ }));
        }
    }

    /// Replaces the peer counter; every other field is unchanged.
    pub fn set_peers_count(&mut self, peers_count: u32)
        ensures
            final(self)@ == (StatusModel { peers_count: peers_count, ..old(self)@ }),
    {
        self.peers_count = peers_count;
        proof {
            assert(self@ =~= (StatusModel { peers_count: self.peers_count, ..old(self)@ }));
        }
    }

    /// Replaces the best block number; every other field is unchanged.
    pub fn set_best_block_number(&mut self, block_number: u32)
        ensures
            final(self)@ == (StatusModel { best_block_number: block_number, ..old(self)@ }),
    {
        self.best_block_number = block_number;
        proof {
            assert(self@ =~= (StatusModel { best_block_number: self.best_block_number, ..old(self)@ }));
        }
    }

    /// Replaces the finalized block number; every other field is unchanged.
    pub fn set_finalized_block_number(&mut self, block_number: u32)
        ensures
            final(self)@ == (StatusModel { finalized_block_number: block_number, ..old(self)@ }),
    {
        self.finalized_block_number = block_number;
        proof {
            assert(self@ =~= (StatusModel { finalized_block_number: self.finalized_block_number, ..old(self)@ }));
        }
    }

    /// Replaces the uptime; every other field is unchanged.
    pub fn set_uptime(&mut self, uptime: i64)
        ensures
            final(self)@ == (StatusModel { uptime: uptime, ..old(self)@ }),
    {
        self.uptime = uptime;
        proof {
            assert(self@ =~= (StatusModel { uptime: self.uptime, ..old(self)@ }));
        }
    }

    /// Replaces the monitoring mode and the per-chain sync heights in one
    /// step; every other field is unchanged.
    pub fn set_monitor_sync_status(&mut self, ty: u8, chains: Vec<(u32, u32)>)
        ensures
            final(self)@ == (StatusModel {
                monitor_type: ty,
                monitor_sync_chains: chains@,
                ..old(self)@
            }),
    {
        self.monitor_type = ty;
        self.monitor_sync_chains = chains;
        proof {
            assert(self@ =~= (StatusModel {
                monitor_type: self.monitor_type,
                monitor_sync_chains: self.monitor_sync_chains@,
                ..old(self)@
            }));
        }
    }

    /// Replaces the error-code list; every other field is unchanged.
    pub fn set_errors(&mut self, errors: Vec<u8>)
        ensures
            final(self)@ == (StatusModel { errors: errors@, ..old(self)@ }),
    {
        self.errors = errors;
        proof {
            assert(self@ =~= (StatusModel { errors: self.errors@, ..old(self)@ }));
        }
    }

    /// A deep copy of the snapshot. The copy shares no storage with the
    /// original, so later mutation of either leaves the other untouched.
    pub fn snapshot(&self) -> (r: DeviceStatus)
        ensures
            r@ == self@,
    {
        let r = DeviceStatus {
            device_id: self.device_id.clone(),
            device_owner: self.device_owner.clone(),
            device_version: self.device_version.clone(),
            peer_id: self.peer_id.clone(),
            peers_count: self.peers_count,
            best_block_number: self.best_block_number,
            finalized_block_number: self.finalized_block_number,
            upload_bandwidth: copy_vec(&self.upload_bandwidth),
            download_bandwidth: copy_vec(&self.download_bandwidth),
            uptime: self.uptime,
            monitor_type: self.monitor_type,
            monitor_sync_chains: copy_vec(&self.monitor_sync_chains),
            errors: copy_vec(&self.errors),
        };
        proof {
            assert(r@ =~= self@);
        }
        r
    }

    /// Evaluates the readiness gate on this snapshot.
    pub fn is_ready(&self) -> (r: bool)
        ensures
            r == spec_ready(self@),
    {
        !self.device_id.as_str().is_empty() && !self.device_owner.as_str().is_empty()
            && !self.peer_id.as_str().is_empty()
    }
}

} // verus!
