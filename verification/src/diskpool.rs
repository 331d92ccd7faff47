//! The disk-pool operator's decisions: which step its reconcile loop takes
//! for a custom resource in each state, how retries are paced, and how a
//! disk URI is normalized to a device path.

use vstd::prelude::*;

verus! {

/// State recorded on a disk-pool custom resource.
#[derive(Clone, Copy, Debug, PartialEq, Eq, Structural)]
pub enum PoolState {
    /// The create call has not concluded yet.
    Creating,
    /// Created on the node; waiting to come online.
    Created,
    /// Online and ready.
    Online,
    /// The control plane could not say; retry later.
    Unknown,
    /// Final error state; the resource is left alone.
    Error,
}

/// The status a disk-pool custom resource carries.
#[derive(Clone, Copy, Debug, PartialEq, Eq, Structural)]
pub struct DiskPoolStatus {
    /// State of the pool.
    pub state: PoolState,
    /// Capacity in bytes, zero when not online.
    pub capacity: u64,
    /// Used bytes, zero when not online.
    pub used: u64,
}

impl DiskPoolStatus {
    /// The status a fresh resource starts in.
    pub fn new_creating() -> (r: Self)
        ensures
            r.state is Creating,
            r.capacity == 0,
            r.used == 0,
    {
        DiskPoolStatus { state: PoolState::Creating, capacity: 0, used: 0 }
    }

    /// The terminal error status.
    pub fn error() -> (r: Self)
        ensures
            r.state is Error,
    {
        DiskPoolStatus { state: PoolState::Error, capacity: 0, used: 0 }
    }

    /// The status of a pool the control plane cannot see right now.
    pub fn unknown() -> (r: Self)
        ensures
            r.state is Unknown,
    {
        DiskPoolStatus { state: PoolState::Unknown, capacity: 0, used: 0 }
    }

    /// The status right after a successful create or import.
    pub fn created() -> (r: Self)
        ensures
            r.state is Created,
    {
        DiskPoolStatus { state: PoolState::Created, capacity: 0, used: 0 }
    }
}

/// The step the reconcile loop takes for a resource.
#[derive(Clone, Copy, Debug, PartialEq, Eq, Structural)]
pub enum ReconcileAction {
    /// No status yet: patch the status to `Creating` and let the next
    /// loop create it.
    Start,
    /// Create or import the pool on its node.
    CreateOrImport,
    /// The pool was created; wait for it to come online.
    OnlinePool,
    /// Check the pool against the control plane.
    PoolCheck,
    /// Final error state: stop reconciling this resource.
    StopWithError,
}

/// Which step the reconcile loop takes, from the resource's recorded
/// status alone.
pub fn reconcile_action(status: &Option<DiskPoolStatus>) -> (r: ReconcileAction)
    ensures
        *status is None ==> r is Start,
        (status matches Some(s) && s.state is Creating) ==> r is CreateOrImport,
        (status matches Some(s) && s.state is Created) ==> r is OnlinePool,
        (status matches Some(s) && (s.state is Online || s.state is Unknown)) ==> r is PoolCheck,
        (status matches Some(s) && s.state is Error) ==> r is StopWithError,
{
    match status {
        None => ReconcileAction::Start,
        Some(s) => match s.state {
            PoolState::Creating => ReconcileAction::CreateOrImport,
            PoolState::Created => ReconcileAction::OnlinePool,
            PoolState::Online => ReconcileAction::PoolCheck,
            PoolState::Unknown => ReconcileAction::PoolCheck,
            PoolState::Error => ReconcileAction::StopWithError,
        },
    }
}

/// Two to the power `n`, for retry pacing.
pub open spec fn spec_pow2(n: nat) -> int
    decreases n,
{
    if n == 0 {
        1
    } else {
        2 * spec_pow2((n - 1) as nat)
    }
}

/// The backoff before the next retry: two to the number of retries so
/// far, in seconds, saturated well below any overflow.
pub fn retry_timeout_secs(num_retries: u32) -> (r: u32)
    ensures
        num_retries < 31 ==> r == spec_pow2(num_retries as nat),
        num_retries >= 31 ==> r == u32::MAX,
{
    if num_retries >= 31 {
        return u32::MAX;
    }
    let mut r: u32 = 1;
    let mut i: u32 = 0;
    while i < num_retries
        invariant
            0 <= i <= num_retries < 31,
            r == spec_pow2(i as nat),
        decreases num_retries - i,
    {
        proof {
            lemma_pow2_mono(i as nat, 29);
            reveal_with_fuel(spec_pow2, 31);
            assert(spec_pow2(29) == 0x2000_0000);
        }
        r = r * 2;
        i = i + 1;
    }
    r
}

/// Powers of two are at least one.
proof fn lemma_pow2_pos(n: nat)
    ensures
        spec_pow2(n) >= 1,
    decreases n,
{
    if n > 0 {
        lemma_pow2_pos((n - 1) as nat);
    }
}

/// Powers of two grow with the exponent.
proof fn lemma_pow2_mono(a: nat, b: nat)
    requires
        a <= b,
    ensures
        spec_pow2(a) <= spec_pow2(b),
    decreases b,
{
    if a < b {
        lemma_pow2_mono(a, (b - 1) as nat);
        lemma_pow2_pos((b - 1) as nat);
    }
}

/// What the probe of the control plane answered when the operator asked
/// after the pool.
#[derive(Clone, Copy, Debug, PartialEq, Eq, Structural)]
pub enum PoolProbe {
    /// The pool exists; whether a state came with it.
    Found { has_state: bool },
    /// The request could not even be sent.
    RequestFailed,
    /// The service answered but is not ready (unavailable, timed out).
    Unavailable,
    /// The pool is not known to the control plane.
    NotFound,
    /// Any other error answer.
    OtherError,
}

/// What the block-device check found before a create.
#[derive(Clone, Copy, Debug, PartialEq, Eq, Structural)]
pub enum DeviceCheck {
    /// Validation is switched off.
    Disabled,
    /// The named device is present on the node.
    Present,
    /// The named device cannot be found on the node.
    Missing,
    /// The device query itself failed; the pool probe tells what to do.
    QueryFailed(PoolProbe),
}

/// The step a create-or-import pass decides on.
#[derive(Clone, Copy, Debug, PartialEq, Eq, Structural)]
pub enum CreateOrImportAction {
    /// Retry attempts exceeded: notify and mark the resource errored.
    StopReconciliation,
    /// The device is missing: fail this pass with a spec error and the
    /// given backoff in seconds.
    SpecError { timeout_secs: u32 },
    /// The pool exists: set the status from its state.
    SetStatusOrUnknown { has_state: bool },
    /// The control plane is not reachable yet: mark the resource unknown.
    MarkUnknown,
    /// The probe failed for good: mark the resource errored.
    MarkError,
    /// All checks passed: create the pool (an already-known pool counts
    /// as created too) and patch the status to `Created`.
    CreatePool,
}

/// Which step a create-or-import pass takes, from the retry counter, the
/// configured limit and the device check's outcome.
pub fn create_or_import_decision(num_retries: u32, retries: u32, check: DeviceCheck) -> (r:
    CreateOrImportAction)
    ensures
        num_retries >= retries ==> r is StopReconciliation,
        num_retries < retries ==> match check {
            DeviceCheck::Disabled => r is CreatePool,
            DeviceCheck::Present => r is CreatePool,
            DeviceCheck::Missing => r matches CreateOrImportAction::SpecError { timeout_secs }
                && (num_retries < 31 ==> timeout_secs == spec_pow2(num_retries as nat)),
            DeviceCheck::QueryFailed(probe) => match probe {
                PoolProbe::Found { has_state } => r == (
                CreateOrImportAction::SetStatusOrUnknown { has_state }),
                PoolProbe::RequestFailed => r is MarkUnknown,
                PoolProbe::Unavailable => r is MarkUnknown,
                PoolProbe::NotFound => r is MarkError,
                PoolProbe::OtherError => r is MarkError,
            },
        },
{
    if num_retries >= retries {
        return CreateOrImportAction::StopReconciliation;
    }
    match check {
        DeviceCheck::Disabled => CreateOrImportAction::CreatePool,
        DeviceCheck::Present => CreateOrImportAction::CreatePool,
        DeviceCheck::Missing => CreateOrImportAction::SpecError {
            timeout_secs: retry_timeout_secs(num_retries),
        },
        DeviceCheck::QueryFailed(probe) => match probe {
            PoolProbe::Found { has_state } => CreateOrImportAction::SetStatusOrUnknown {
                has_state,
            },
            PoolProbe::RequestFailed => CreateOrImportAction::MarkUnknown,
            PoolProbe::Unavailable => CreateOrImportAction::MarkUnknown,
            PoolProbe::NotFound => CreateOrImportAction::MarkError,
            PoolProbe::OtherError => CreateOrImportAction::MarkError,
        },
    }
}

/// The step a pool-check pass decides on.
#[derive(Clone, Copy, Debug, PartialEq, Eq, Structural)]
pub enum PoolCheckAction {
    /// The resource was deleted already: stop checking.
    Done,
    /// The pool was deleted through an external request: mark the
    /// resource errored, never recreate it.
    MarkError,
    /// The control plane is not reachable: mark the resource unknown.
    MarkUnknown,
    /// The pool information is not available: set the state to creating
    /// again.
    IsMissing,
    /// The pool exists: set the status from its state and reschedule.
    SetStatusOrUnknown { has_state: bool },
}

/// Which step a pool-check pass takes, from the probe's outcome and
/// whether the resource is already being deleted.
pub fn pool_check_decision(probe: PoolProbe, deletion_pending: bool) -> (r: PoolCheckAction)
    ensures
        probe matches PoolProbe::Found { has_state } ==> r == (
        PoolCheckAction::SetStatusOrUnknown { has_state }),
        (probe is NotFound && deletion_pending) ==> r is Done,
        (probe is NotFound && !deletion_pending) ==> r is MarkError,
        (probe is Unavailable || probe is RequestFailed) ==> r is MarkUnknown,
        probe is OtherError ==> r is IsMissing,
{
    match probe {
        PoolProbe::Found { has_state } => PoolCheckAction::SetStatusOrUnknown { has_state },
        PoolProbe::NotFound => {
            if deletion_pending {
                PoolCheckAction::Done
            } else {
                PoolCheckAction::MarkError
            }
        },
        PoolProbe::Unavailable => PoolCheckAction::MarkUnknown,
        PoolProbe::RequestFailed => PoolCheckAction::MarkUnknown,
        PoolProbe::OtherError => PoolCheckAction::IsMissing,
    }
}

/// The file path a disk URI maps to, or nothing when the text is no URL
/// or its path is no local file path. A function of the text alone.
pub uninterp spec fn file_path_of_url(s: Seq<char>) -> Option<Seq<char>>;

/// Relies on url::Url::parse and url::Url::to_file_path: whether the text
/// parses as a URL and what file path it carries depend on the text
/// alone. The path building is compiled per platform; within any one
/// build it is a function of the text alone.
#[verifier::external_body]
fn url_file_path(s: &str) -> (r: Option<String>)
    ensures
        r is Some <==> file_path_of_url(s@) is Some,
        r is Some ==> r->Some_0@ == file_path_of_url(s@)->Some_0,
{
    match url::Url::parse(s) {
        Ok(u) => match u.to_file_path() {
            Ok(p) => Some(p.as_path().display().to_string()),
            Err(_) => None,
        },
        Err(_) => None,
    }
}

/// What `normalize_disk` returns: the URL's file path where the disk text
/// is a URL with one, the text unchanged otherwise.
pub open spec fn spec_normalize_disk(disk: Seq<char>) -> Seq<char> {
    match file_path_of_url(disk) {
        Some(p) => p,
        None => disk,
    }
}

/// Normalize a disk that carries a schema to its plain device path; a
/// text that is no such URL is kept unchanged — the loop converges to the
/// error state eventually if it is invalid.
pub fn normalize_disk(disk: &str) -> (r: String)
    ensures
        r@ == spec_normalize_disk(disk@),
{
    match url_file_path(disk) {
        Some(p) => p,
        None => String::from_str(disk),
    }
}

} // verus!
