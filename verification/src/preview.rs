use std::collections::HashSet;

use vstd::prelude::*;

use crate::error::AppError;
use crate::text::{decimal, decimal_text, join2, join3};

verus! {

/// Consecutive failures after which the circuit opens.
pub const FAILURE_THRESHOLD: u32 = 3;

/// Seconds that an open circuit waits before it lets a probe through.
pub const RECOVERY_WINDOW_SECS: u64 = 30;

/// Maximum concurrent Docker operations.
pub const MAX_CONCURRENT_DOCKER_OPS: usize = 3;

/// State of the circuit breaker that guards Docker operations.
#[derive(Debug, Clone, Copy, PartialEq, Eq, Structural)]
pub enum CircuitState {
    Closed,
    Open,
    HalfOpen,
}

/// Seconds since the Unix epoch on the system clock, read with
/// `std::time::SystemTime::now()` (0 where the clock is before the epoch).
///
/// Trusted: nothing is stated of the value; it depends on the clock.
#[verifier::external_body]
fn unix_now_secs() -> (t: u64) {
    std::time::SystemTime::now().duration_since(std::time::UNIX_EPOCH).unwrap_or_default().as_secs()
}

/// The state of a breaker with `failures` consecutive failures, the last one at
/// `last`, seen at instant `now` (seconds since the epoch).
pub open spec fn circuit_state(failures: u32, last: u64, now: u64) -> CircuitState {
    if failures < FAILURE_THRESHOLD {
        CircuitState::Closed
    } else if (if now >= last { now - last } else { 0 }) >= RECOVERY_WINDOW_SECS {
        CircuitState::HalfOpen
    } else {
        CircuitState::Open
    }
}

/// Message of a call refused by an open circuit.
pub open spec fn circuit_open_text() -> Seq<char> {
    "Docker operations temporarily unavailable (circuit breaker open)"@
}

/// Circuit breaker for Docker operations. Opens after `FAILURE_THRESHOLD`
/// consecutive failures and stays open for `RECOVERY_WINDOW_SECS` seconds
/// before allowing a single probe request; until the probe's outcome is
/// recorded, further calls are refused.
pub struct DockerCircuitBreaker {
    consecutive_failures: u32,
    last_failure_epoch: u64,
    probe_in_flight: bool,
}

impl DockerCircuitBreaker {
    /// Consecutive failures recorded since the last success.
    pub closed spec fn failures(&self) -> u32 {
        self.consecutive_failures
    }

    /// Instant of the last recorded failure, in seconds since the epoch.
    pub closed spec fn last_failure(&self) -> u64 {
        self.last_failure_epoch
    }

    /// Whether a probe was let through and its outcome is not yet recorded.
    pub closed spec fn probing(&self) -> bool {
        self.probe_in_flight
    }

    /// The state of this breaker at instant `now`.
    pub open spec fn state_at_spec(&self, now: u64) -> CircuitState {
        circuit_state(self.failures(), self.last_failure(), now)
    }

    /// Whether a call is let through at instant `now`: always while closed,
    /// never while open, and while half-open only as the single probe.
    pub open spec fn admits(&self, now: u64) -> bool {
        ||| self.state_at_spec(now) == CircuitState::Closed
        ||| (self.state_at_spec(now) == CircuitState::HalfOpen && !self.probing())
    }

    /// A closed breaker with no recorded failure and no probe out.
    pub fn new() -> (b: Self)
        ensures
            b.failures() == 0,
            b.last_failure() == 0,
            !b.probing(),
    {
        DockerCircuitBreaker { consecutive_failures: 0, last_failure_epoch: 0, probe_in_flight: false }
    }

    /// The state at instant `now`.
    pub fn state_at(&self, now: u64) -> (s: CircuitState)
        ensures
            s == self.state_at_spec(now),
    {
        if self.consecutive_failures < FAILURE_THRESHOLD {
            return CircuitState::Closed;
        }
        let last = self.last_failure_epoch;
        if now.saturating_sub(last) >= RECOVERY_WINDOW_SECS {
            CircuitState::HalfOpen
        } else {
            CircuitState::Open
        }
    }

    /// The state now, on the system clock.
    pub fn state(&self) -> (s: CircuitState)
        ensures
            exists|now: u64| s == self.state_at_spec(now),
            self.failures() < FAILURE_THRESHOLD <==> s == CircuitState::Closed,
    {
        let now = unix_now_secs();
        self.state_at(now)
    }

    /// Lets a call through at instant `now` while the circuit is closed, and
    /// once, as the probe, while it is half-open; the probe is remembered
    /// until a success or failure is recorded. Other calls are refused.
    pub fn check_at(&mut self, now: u64) -> (r: Result<(), AppError>)
        ensures
            r is Ok <==> old(self).admits(now),
            r is Err ==> r->Err_0 is Internal && r->Err_0.text() == circuit_open_text(),
            final(self).failures() == old(self).failures(),
            final(self).last_failure() == old(self).last_failure(),
            final(self).probing() == (old(self).probing() || old(self).state_at_spec(now) == CircuitState::HalfOpen),
    {
        match self.state_at(now) {
            CircuitState::Closed => Ok(()),
            CircuitState::HalfOpen => {
                if self.probe_in_flight {
                    Err(AppError::Internal(String::from_str("Docker operations temporarily unavailable (circuit breaker open)")))
                } else {
                    self.probe_in_flight = true;
                    Ok(())
                }
            },
            CircuitState::Open => Err(
                AppError::Internal(String::from_str("Docker operations temporarily unavailable (circuit breaker open)")),
            ),
        }
    }

    /// Lets a call through as `check_at` does, at the instant now on the
    /// system clock.
    pub fn check(&mut self) -> (r: Result<(), AppError>)
        ensures
            exists|now: u64| {
                &&& (r is Ok <==> old(self).admits(now))
                &&& final(self).probing() == (old(self).probing() || old(self).state_at_spec(now) == CircuitState::HalfOpen)
            },
            old(self).failures() < FAILURE_THRESHOLD ==> r is Ok,
            r is Err ==> r->Err_0 is Internal && r->Err_0.text() == circuit_open_text(),
            final(self).failures() == old(self).failures(),
            final(self).last_failure() == old(self).last_failure(),
    {
        let now = unix_now_secs();
        self.check_at(now)
    }

    /// Records a successful operation: the failure count starts over and a
    /// probe out is settled.
    pub fn record_success(&mut self)
        ensures
            final(self).failures() == 0,
            final(self).last_failure() == old(self).last_failure(),
            !final(self).probing(),
    {
        self.consecutive_failures = 0;
        self.probe_in_flight = false;
    }

    /// Records a failed operation at instant `now`, settling a probe out. The
    /// count wraps as the atomic counter it stands for does.
    pub fn record_failure_at(&mut self, now: u64)
        ensures
            final(self).failures() == (if old(self).failures() == u32::MAX { 0 } else { old(self).failures() + 1 }),
            final(self).last_failure() == now,
            !final(self).probing(),
    {
        self.consecutive_failures = self.consecutive_failures.wrapping_add(1);
        self.last_failure_epoch = now;
        self.probe_in_flight = false;
    }

    /// Records a failed operation now, on the system clock.
    pub fn record_failure(&mut self)
        ensures
            final(self).failures() == (if old(self).failures() == u32::MAX { 0 } else { old(self).failures() + 1 }),
            !final(self).probing(),
    {
        let now = unix_now_secs();
        self.record_failure_at(now);
    }

    /// Gives a probe back without an outcome (the call that held it stopped
    /// before reaching Docker), so that another call may probe.
    pub fn release_probe(&mut self)
        ensures
            final(self).failures() == old(self).failures(),
            final(self).last_failure() == old(self).last_failure(),
            !final(self).probing(),
    {
        self.probe_in_flight = false;
    }

    /// Whether Docker counts as healthy at instant `now`: the circuit is not open.
    pub fn is_healthy_at(&self, now: u64) -> (r: bool)
        ensures
            r == (self.state_at_spec(now) != CircuitState::Open),
    {
        match self.state_at(now) {
            CircuitState::Open => false,
            _ => true,
        }
    }
}

/// Once the recovery window has passed, the breaker lets a single probe
/// through: after a check admitted a call of a half-open breaker, every later
/// check is refused until a success or failure is recorded.
pub proof fn lemma_single_probe(before: DockerCircuitBreaker, after: DockerCircuitBreaker, now: u64, later: u64)
    requires
        before.state_at_spec(now) == CircuitState::HalfOpen,
        after.failures() == before.failures(),
        after.last_failure() == before.last_failure(),
        after.probing() == (before.probing() || before.state_at_spec(now) == CircuitState::HalfOpen),
        now <= later,
    ensures
        after.state_at_spec(later) == CircuitState::HalfOpen,
        !after.admits(later),
{
}

/// Whether `port` is taken by one of the `allocated` ports.
pub open spec fn port_taken(allocated: Seq<i32>, port: int) -> bool {
    exists|k: int| 0 <= k < allocated.len() && allocated[k] as int == port
}

/// Message of an exhausted port range.
pub open spec fn no_port_text() -> Seq<char> {
    "no available ports in configured range"@
}

/// Picks the lowest port in `range_start..=range_end` that none of the
/// `allocated` ports takes; with none free the allocation is a conflict.
pub fn find_free_port(allocated: &Vec<i32>, range_start: u16, range_end: u16) -> (r: Result<i32, AppError>)
    ensures
        r is Ok ==> range_start <= r->Ok_0 <= range_end && !port_taken(allocated@, r->Ok_0 as int),
        r is Ok ==> forall|p: int| range_start <= p < r->Ok_0 ==> port_taken(allocated@, p),
        r is Err <==> forall|p: int| range_start <= p <= range_end ==> port_taken(allocated@, p),
        r is Err ==> r->Err_0 is Conflict && r->Err_0.text() == no_port_text(),
{
    proof {
        broadcast use vstd::std_specs::hash::group_hash_axioms;
    }
    let mut taken: HashSet<i32> = HashSet::new();
    let mut k: usize = 0;
    while k < allocated.len()
        invariant
            0 <= k <= allocated@.len(),
            forall|q: int| #[trigger] taken@.contains(q as i32) && i32::MIN <= q <= i32::MAX <==> exists|j: int| 0 <= j < k && allocated@[j] == q,
        decreases allocated@.len() - k,
    {
        proof {
            broadcast use vstd::std_specs::hash::group_hash_axioms;
        }
        taken.insert(allocated[k]);
        proof {
            assert forall|q: int| #[trigger] taken@.contains(q as i32) && i32::MIN <= q <= i32::MAX implies exists|j: int| 0 <= j < k + 1 && allocated@[j] == q by {
                if q as i32 == allocated@[k as int] {
                    assert(allocated@[k as int] == q);
                }
            }
            assert forall|q: int| (exists|j: int| 0 <= j < k + 1 && allocated@[j] == q) implies #[trigger] taken@.contains(q as i32) && i32::MIN <= q <= i32::MAX by {
                let j = choose|j: int| 0 <= j < k + 1 && allocated@[j] == q;
                if j < k {
                    assert(exists|j2: int| 0 <= j2 < k && allocated@[j2] == q);
                }
            }
        }
        k = k + 1;
    }
    let end: i32 = range_end as i32;
    let mut p: i32 = range_start as i32;
    while p <= end
        invariant
            range_start <= p,
            range_start <= range_end ==> p <= end + 1,
            end == range_end,
            forall|q: int| #[trigger] taken@.contains(q as i32) && i32::MIN <= q <= i32::MAX <==> exists|j: int| 0 <= j < allocated@.len() && allocated@[j] == q,
            forall|q: int| range_start <= q < p ==> port_taken(allocated@, q),
        decreases end + 1 - p,
    {
        proof {
            broadcast use vstd::std_specs::hash::group_hash_axioms;
        }
        if !taken.contains(&p) {
            assert(!(taken@.contains(p as int as i32) && i32::MIN <= p as int <= i32::MAX));
            assert(!port_taken(allocated@, p as int));
            return Ok(p);
        }
        assert(taken@.contains(p as int as i32));
        p = p + 1;
    }
    Err(AppError::Conflict(String::from_str("no available ports in configured range")))
}

/// Lifecycle state of a preview environment.
#[derive(Debug, Clone, Copy, PartialEq, Eq, Structural)]
pub enum PreviewStatus {
    Pending,
    Building,
    Running,
    Stopped,
    Failed,
}

/// A Docker preview environment for a worktree.
#[derive(Debug, Clone)]
pub struct DockerPreview {
    pub id: u128,
    pub worktree_name: String,
    pub container_id: Option<String>,
    pub port: Option<i32>,
    pub status: PreviewStatus,
    pub preview_url: Option<String>,
    pub error_message: Option<String>,
    pub created_at: i64,
    pub updated_at: i64,
}

/// Previews in these states keep their port.
pub open spec fn holds_port(s: PreviewStatus) -> bool {
    s == PreviewStatus::Pending || s == PreviewStatus::Building || s == PreviewStatus::Running
}

/// The ports that previews still hold, in table order.
pub open spec fn held_ports_spec(previews: Seq<DockerPreview>) -> Seq<i32>
    decreases previews.len(),
{
    if previews.len() == 0 {
        Seq::empty()
    } else {
        let rest = held_ports_spec(previews.drop_last());
        let p = previews.last();
        if p.port is Some && holds_port(p.status) {
            rest.push(p.port->0)
        } else {
            rest
        }
    }
}

/// The ports that pending, building or running previews hold.
pub fn held_ports(previews: &Vec<DockerPreview>) -> (ports: Vec<i32>)
    ensures
        ports@ == held_ports_spec(previews@),
        forall|q: int| port_taken(ports@, q) <==> exists|i: int|
            0 <= i < previews@.len() && #[trigger] previews@[i].port == Some(q as i32) && i32::MIN <= q <= i32::MAX
                && (previews@[i].status == PreviewStatus::Pending || previews@[i].status == PreviewStatus::Building
                    || previews@[i].status == PreviewStatus::Running),
{
    let mut ports: Vec<i32> = Vec::new();
    let mut i: usize = 0;
    while i < previews.len()
        invariant
            0 <= i <= previews@.len(),
            ports@ == held_ports_spec(previews@.take(i as int)),
        decreases previews@.len() - i,
    {
        proof {
            assert(previews@.take(i + 1).drop_last() =~= previews@.take(i as int));
        }
        let p = &previews[i];
        let holds = match p.status {
            PreviewStatus::Pending | PreviewStatus::Building | PreviewStatus::Running => true,
            _ => false,
        };
        match p.port {
            Some(port) => {
                if holds {
                    ports.push(port);
                }
            },
            None => {},
        }
        i = i + 1;
    }
    assert(previews@.take(previews@.len() as int) =~= previews@);
    proof {
        lemma_held_ports_are_active_ports(previews@);
    }
    ports
}

/// A port is held exactly when some preview that is pending, building or
/// running has it: a preview given a port keeps it from the moment it is
/// pending, and stopped or failed previews give theirs back.
pub proof fn lemma_held_ports_are_active_ports(previews: Seq<DockerPreview>)
    ensures
        forall|q: int| port_taken(held_ports_spec(previews), q) <==> exists|i: int|
            0 <= i < previews.len() && #[trigger] previews[i].port == Some(q as i32) && i32::MIN <= q <= i32::MAX
                && (previews[i].status == PreviewStatus::Pending || previews[i].status == PreviewStatus::Building
                    || previews[i].status == PreviewStatus::Running),
    decreases previews.len(),
{
    if previews.len() > 0 {
        let init = previews.drop_last();
        let last = previews.last();
        lemma_held_ports_are_active_ports(init);
        let rest = held_ports_spec(init);
        let h = held_ports_spec(previews);
        assert forall|q: int| port_taken(h, q) <==> exists|i: int|
            0 <= i < previews.len() && #[trigger] previews[i].port == Some(q as i32) && i32::MIN <= q <= i32::MAX
                && (previews[i].status == PreviewStatus::Pending || previews[i].status == PreviewStatus::Building
                    || previews[i].status == PreviewStatus::Running) by {
            let active = |x: DockerPreview| x.status == PreviewStatus::Pending || x.status == PreviewStatus::Building
                || x.status == PreviewStatus::Running;
            if port_taken(h, q) {
                let k = choose|k: int| 0 <= k < h.len() && h[k] as int == q;
                if k < rest.len() {
                    assert(h[k] == rest[k]);
                    assert(port_taken(rest, q));
                    let i = choose|i: int| 0 <= i < init.len() && #[trigger] init[i].port == Some(q as i32) && i32::MIN <= q <= i32::MAX
                        && (init[i].status == PreviewStatus::Pending || init[i].status == PreviewStatus::Building
                            || init[i].status == PreviewStatus::Running);
                    assert(previews[i] == init[i]);
                } else {
                    assert(previews[previews.len() - 1] == last);
                    assert(last.port == Some(q as i32));
                }
            }
            if exists|i: int| 0 <= i < previews.len() && #[trigger] previews[i].port == Some(q as i32) && i32::MIN <= q <= i32::MAX
                && (previews[i].status == PreviewStatus::Pending || previews[i].status == PreviewStatus::Building
                    || previews[i].status == PreviewStatus::Running) {
                let i = choose|i: int| 0 <= i < previews.len() && #[trigger] previews[i].port == Some(q as i32) && i32::MIN <= q <= i32::MAX
                    && (previews[i].status == PreviewStatus::Pending || previews[i].status == PreviewStatus::Building
                        || previews[i].status == PreviewStatus::Running);
                if i < init.len() {
                    assert(init[i] == previews[i]);
                    assert(port_taken(rest, q));
                    let k = choose|k: int| 0 <= k < rest.len() && rest[k] as int == q;
                    if last.port is Some && holds_port(last.status) {
                        assert(h[k] == rest[k]);
                    } else {
                        assert(h == rest);
                    }
                    assert(port_taken(h, q));
                } else {
                    assert(previews[i] == last);
                    assert(h == rest.push(q as i32));
                    assert(h[rest.len() as int] as int == q);
                }
            }
        }
    }
}

/// The address under which a preview on `port` is served.
pub open spec fn preview_url_text(base_url: Seq<char>, port: nat) -> Seq<char> {
    base_url + ":"@ + decimal_text(port)
}

/// Builds the preview address `{base_url}:{port}`.
pub fn preview_url(base_url: &str, port: u16) -> (s: String)
    ensures
        s@ == preview_url_text(base_url@, port as nat),
{
    let p = decimal(port as u64);
    join3(base_url, ":", p.as_str())
}

/// The name shared by a preview's image tag and its container.
pub open spec fn preview_name_text(worktree_name: Seq<char>) -> Seq<char> {
    "gantry-preview-"@ + worktree_name
}

/// The image tag and container name of a worktree's preview.
pub fn preview_name(worktree_name: &str) -> (s: String)
    ensures
        s@ == preview_name_text(worktree_name@),
{
    join2("gantry-preview-", worktree_name)
}

/// Port inside the container that a preview publishes.
pub open spec fn container_port_text() -> Seq<char> {
    "8080/tcp"@
}

/// How a preview container is created: the image, the name, the host port that
/// the container's port 8080 is bound to on 127.0.0.1, and the isolation limits
/// (512 MB of memory and no swap, 256 processes, a read-only root file system,
/// no privilege escalation, small non-executable scratch mounts).
#[derive(Debug, Clone)]
pub struct ContainerSpec {
    pub image: String,
    pub name: String,
    pub container_port: String,
    pub host_ip: String,
    pub host_port: String,
    pub memory: i64,
    pub memory_swap: i64,
    pub pids_limit: i64,
    pub readonly_rootfs: bool,
    pub security_opt: Vec<String>,
    pub tmpfs: Vec<(String, String)>,
}

/// Memory limit of a preview container in bytes (512 MB).
pub const PREVIEW_MEMORY_BYTES: i64 = 536870912;

/// Process limit of a preview container.
pub const PREVIEW_PIDS_LIMIT: i64 = 256;

/// The isolation that every preview container gets, given its image, name and
/// host port.
pub open spec fn container_spec_ok(c: ContainerSpec, image: Seq<char>, name: Seq<char>, host_port: nat) -> bool {
    &&& c.image@ == image
    &&& c.name@ == name
    &&& c.container_port@ == container_port_text()
    &&& c.host_ip@ == "127.0.0.1"@
    &&& c.host_port@ == decimal_text(host_port)
    &&& c.memory == PREVIEW_MEMORY_BYTES
    &&& c.memory_swap == PREVIEW_MEMORY_BYTES
    &&& c.pids_limit == PREVIEW_PIDS_LIMIT
    &&& c.readonly_rootfs
    &&& c.security_opt@.len() == 1 && c.security_opt@[0]@ == "no-new-privileges:true"@
    &&& c.tmpfs@.len() == 3
    &&& c.tmpfs@[0].0@ == "/tmp"@ && c.tmpfs@[0].1@ == "rw,noexec,nosuid,size=64m"@
    &&& c.tmpfs@[1].0@ == "/var/log"@ && c.tmpfs@[1].1@ == "rw,noexec,nosuid,size=32m"@
    &&& c.tmpfs@[2].0@ == "/run"@ && c.tmpfs@[2].1@ == "rw,noexec,nosuid,size=16m"@
}

/// Describes the container of a preview: see `ContainerSpec`.
pub fn container_spec(image: &str, name: &str, host_port: u16) -> (c: ContainerSpec)
    ensures
        container_spec_ok(c, image@, name@, host_port as nat),
{
    let mut security_opt: Vec<String> = Vec::new();
    security_opt.push(String::from_str("no-new-privileges:true"));
    let mut tmpfs: Vec<(String, String)> = Vec::new();
    tmpfs.push((String::from_str("/tmp"), String::from_str("rw,noexec,nosuid,size=64m")));
    tmpfs.push((String::from_str("/var/log"), String::from_str("rw,noexec,nosuid,size=32m")));
    tmpfs.push((String::from_str("/run"), String::from_str("rw,noexec,nosuid,size=16m")));
    ContainerSpec {
        image: String::from_str(image),
        name: String::from_str(name),
        container_port: String::from_str("8080/tcp"),
        host_ip: String::from_str("127.0.0.1"),
        host_port: decimal(host_port as u64),
        memory: PREVIEW_MEMORY_BYTES,
        memory_swap: PREVIEW_MEMORY_BYTES,
        pids_limit: PREVIEW_PIDS_LIMIT,
        readonly_rootfs: true,
        security_opt,
        tmpfs,
    }
}

/// Claims the lowest free port of the range for a preview, given the previews
/// stored, and gives it with the preview's address.
pub fn allocate_port(previews: &Vec<DockerPreview>, range_start: u16, range_end: u16, base_url: &str) -> (r: Result<(i32, String), AppError>)
    ensures
        r is Ok ==> ({
            let (port, url) = r->Ok_0;
            &&& range_start <= port <= range_end
            &&& !port_taken(held_ports_spec(previews@), port as int)
            &&& forall|p: int| range_start <= p < port ==> port_taken(held_ports_spec(previews@), p)
            &&& url@ == preview_url_text(base_url@, port as nat)
        }),
        r is Err <==> forall|p: int| range_start <= p <= range_end ==> port_taken(held_ports_spec(previews@), p),
        r is Err ==> r->Err_0 is Conflict && r->Err_0.text() == no_port_text(),
        // a port that a pending, building or running preview has is never handed out again
        r is Ok ==> forall|i: int| 0 <= i < previews@.len() && #[trigger] previews@[i].port == Some(r->Ok_0.0)
            ==> !(previews@[i].status == PreviewStatus::Pending || previews@[i].status == PreviewStatus::Building
                || previews@[i].status == PreviewStatus::Running),
{
    proof {
        lemma_held_ports_are_active_ports(previews@);
    }
    let held = held_ports(previews);
    match find_free_port(&held, range_start, range_end) {
        Ok(port) => {
            let url = preview_url(base_url, port as u16);
            Ok((port, url))
        },
        Err(e) => Err(e),
    }
}

/// Where a preview build stands.
#[derive(Debug, Clone)]
pub enum PreviewBuildState {
    /// Nothing done yet.
    Idle,
    /// The preview record is being read.
    AwaitingPreview,
    /// The image is being built.
    AwaitingImage { tag: String },
    /// A port is being claimed.
    AwaitingPort { tag: String },
    /// The container is being created and started.
    AwaitingContainer,
    /// The preview runs.
    Done,
    /// The build stopped with an error.
    Failed,
}

/// What the outside world reported to a preview build.
#[derive(Debug, Clone)]
pub enum PreviewBuildEvent {
    /// The build was asked for.
    Start,
    /// The preview record was read.
    PreviewLoaded { worktree_name: String },
    /// The image was built.
    ImageBuilt,
    /// The image build failed; `reason` is the error's text.
    ImageBuildFailed { error: AppError, reason: String },
    /// A port was claimed.
    PortAllocated { port: i32 },
    /// The container runs.
    ContainerStarted { container_id: String },
    /// The container could not be created or started; `reason` is the error's text.
    ContainerStartFailed { error: AppError, reason: String },
    /// A storage step failed.
    StepFailed { error: AppError },
}

/// What a preview build asks the outside world to do next.
#[derive(Debug)]
pub enum PreviewBuildAction {
    /// Read the preview record.
    LoadPreview,
    /// Mark the preview building, announce it, and build the image `tag`.
    MarkBuildingThenBuild { tag: String },
    /// Claim a port for the preview.
    AllocatePort,
    /// Create and start the container `name` from image `tag`, bound to `port`.
    StartContainer { tag: String, name: String, port: i32 },
    /// Store the container id, mark the preview running, announce it; done.
    MarkRunning { container_id: String },
    /// Mark the preview failed with `message`, announce it, and give back `error`.
    MarkFailed { message: String, error: AppError },
    /// Stop and give back this outcome.
    Finish { outcome: Result<(), AppError> },
}

/// Message of an event that does not fit the build's state.
pub open spec fn unexpected_event_text() -> Seq<char> {
    "unexpected preview build event"@
}

/// One step of a preview build at instant `now`: the breaker refuses the
/// start while open and lets only one probe start while half-open; a failed
/// image build or container start is counted against the breaker and marks
/// the preview failed; a success resets it. Either outcome settles a probe.
pub fn build_step(
    breaker: &mut DockerCircuitBreaker,
    state: PreviewBuildState,
    event: PreviewBuildEvent,
    now: u64,
) -> (res: (PreviewBuildState, PreviewBuildAction))
    ensures
        // the start is refused exactly where the breaker does not admit a call
        (state is Idle && event is Start) ==> ({
            &&& (res.1 is LoadPreview <==> old(breaker).admits(now))
            &&& final(breaker).probing() == (old(breaker).probing() || old(breaker).state_at_spec(now) == CircuitState::HalfOpen)
            &&& (res.1 is LoadPreview ==> res.0 is AwaitingPreview)
            &&& (!(res.1 is LoadPreview) ==> res.0 is Failed && res.1 is Finish && res.1->Finish_outcome is Err
                && res.1->Finish_outcome->Err_0 is Internal && res.1->Finish_outcome->Err_0.text() == circuit_open_text())
        }),
        (state is AwaitingPreview && event is PreviewLoaded) ==> ({
            &&& res.0 is AwaitingImage && res.0->AwaitingImage_tag@ == preview_name_text(event->PreviewLoaded_worktree_name@)
            &&& res.1 is MarkBuildingThenBuild && res.1->MarkBuildingThenBuild_tag@ == preview_name_text(event->PreviewLoaded_worktree_name@)
        }),
        (state is AwaitingImage && event is ImageBuilt) ==> ({
            &&& res.0 is AwaitingPort && res.0->AwaitingPort_tag == state->AwaitingImage_tag
            &&& res.1 is AllocatePort
            &&& final(breaker).failures() == 0
            &&& final(breaker).last_failure() == old(breaker).last_failure()
            &&& !final(breaker).probing()
        }),
        (state is AwaitingImage && event is ImageBuildFailed) ==> ({
            &&& res.0 is Failed
            &&& res.1 is MarkFailed && res.1->MarkFailed_error == event->ImageBuildFailed_error
            &&& res.1->MarkFailed_message@ == "build failed: "@ + event->ImageBuildFailed_reason@
            &&& final(breaker).failures() == (if old(breaker).failures() == u32::MAX { 0 } else { old(breaker).failures() + 1 })
            &&& final(breaker).last_failure() == now
            &&& !final(breaker).probing()
        }),
        (state is AwaitingPort && event is PortAllocated) ==> ({
            &&& res.0 is AwaitingContainer
            &&& res.1 is StartContainer && res.1->StartContainer_port == event->PortAllocated_port
            &&& res.1->StartContainer_tag == state->AwaitingPort_tag && res.1->StartContainer_name@ == state->AwaitingPort_tag@
        }),
        (state is AwaitingContainer && event is ContainerStarted) ==> ({
            &&& res.0 is Done
            &&& res.1 is MarkRunning && res.1->MarkRunning_container_id == event->ContainerStarted_container_id
            &&& final(breaker).failures() == 0
            &&& final(breaker).last_failure() == old(breaker).last_failure()
            &&& !final(breaker).probing()
        }),
        (state is AwaitingContainer && event is ContainerStartFailed) ==> ({
            &&& res.0 is Failed
            &&& res.1 is MarkFailed && res.1->MarkFailed_error == event->ContainerStartFailed_error
            &&& res.1->MarkFailed_message@ == "start failed: "@ + event->ContainerStartFailed_reason@
            &&& final(breaker).failures() == (if old(breaker).failures() == u32::MAX { 0 } else { old(breaker).failures() + 1 })
            &&& final(breaker).last_failure() == now
            &&& !final(breaker).probing()
        }),
        // a step that failed before reaching Docker gives the probe back
        event is StepFailed ==> ({
            &&& res.0 is Failed && res.1 is Finish && res.1->Finish_outcome is Err
            &&& res.1->Finish_outcome->Err_0 == event->StepFailed_error
            &&& !final(breaker).probing()
        }),
        // the failure record changes only on image and container outcomes
        !(event is ImageBuilt || event is ImageBuildFailed || event is ContainerStarted || event is ContainerStartFailed)
            ==> final(breaker).failures() == old(breaker).failures() && final(breaker).last_failure() == old(breaker).last_failure(),
        // the probe mark changes only on a start and on those outcomes
        !(event is Start || event is ImageBuilt || event is ImageBuildFailed || event is ContainerStarted || event is ContainerStartFailed
            || event is StepFailed) ==> final(breaker).probing() == old(breaker).probing(),
        // an event that does not fit the state ends the build
        !((state is Idle && event is Start)
            || (state is AwaitingPreview && event is PreviewLoaded)
            || (state is AwaitingImage && (event is ImageBuilt || event is ImageBuildFailed))
            || (state is AwaitingPort && event is PortAllocated)
            || (state is AwaitingContainer && (event is ContainerStarted || event is ContainerStartFailed))
            || event is StepFailed) ==> ({
            &&& res.0 is Failed && res.1 is Finish && res.1->Finish_outcome is Err
            &&& res.1->Finish_outcome->Err_0 is Internal && res.1->Finish_outcome->Err_0.text() == unexpected_event_text()
            &&& final(breaker).failures() == old(breaker).failures() && final(breaker).last_failure() == old(breaker).last_failure()
            &&& final(breaker).probing() == old(breaker).probing()
        }),
        // only a started container makes the preview run
        res.1 is MarkRunning ==> state is AwaitingContainer && event is ContainerStarted,
{
    match (state, event) {
        (_, PreviewBuildEvent::StepFailed { error }) => {
            breaker.release_probe();
            (PreviewBuildState::Failed, PreviewBuildAction::Finish { outcome: Err(error) })
        },
        (PreviewBuildState::Idle, PreviewBuildEvent::Start) => {
            match breaker.check_at(now) {
                Ok(()) => (PreviewBuildState::AwaitingPreview, PreviewBuildAction::LoadPreview),
                Err(e) => (PreviewBuildState::Failed, PreviewBuildAction::Finish { outcome: Err(e) }),
            }
        },
        (PreviewBuildState::AwaitingPreview, PreviewBuildEvent::PreviewLoaded { worktree_name }) => {
            let tag = preview_name(worktree_name.as_str());
            let t2 = preview_name(worktree_name.as_str());
            (PreviewBuildState::AwaitingImage { tag }, PreviewBuildAction::MarkBuildingThenBuild { tag: t2 })
        },
        (PreviewBuildState::AwaitingImage { tag }, PreviewBuildEvent::ImageBuilt) => {
            breaker.record_success();
            (PreviewBuildState::AwaitingPort { tag }, PreviewBuildAction::AllocatePort)
        },
        (PreviewBuildState::AwaitingImage { tag: _ }, PreviewBuildEvent::ImageBuildFailed { error, reason }) => {
            breaker.record_failure_at(now);
            let message = join2("build failed: ", reason.as_str());
            (PreviewBuildState::Failed, PreviewBuildAction::MarkFailed { message, error })
        },
        (PreviewBuildState::AwaitingPort { tag }, PreviewBuildEvent::PortAllocated { port }) => {
            let name = tag.clone();
            assert(name@ == tag@);
            (PreviewBuildState::AwaitingContainer, PreviewBuildAction::StartContainer { tag, name, port })
        },
        (PreviewBuildState::AwaitingContainer, PreviewBuildEvent::ContainerStarted { container_id }) => {
            breaker.record_success();
            (PreviewBuildState::Done, PreviewBuildAction::MarkRunning { container_id })
        },
        (PreviewBuildState::AwaitingContainer, PreviewBuildEvent::ContainerStartFailed { error, reason }) => {
            breaker.record_failure_at(now);
            let message = join2("start failed: ", reason.as_str());
            (PreviewBuildState::Failed, PreviewBuildAction::MarkFailed { message, error })
        },
        _ => {
            (
                PreviewBuildState::Failed,
                PreviewBuildAction::Finish {
                    outcome: Err(AppError::Internal(String::from_str("unexpected preview build event"))),
                },
            )
        },
    }
}

/// The breaker opens on the third consecutive failure and stays open for the
/// recovery window; after it, it is half-open and lets a probe through (see
/// `lemma_single_probe`); fewer failures keep it closed.
pub proof fn lemma_breaker_cycle(failures: u32, last: u64, now: u64)
    ensures
        failures < FAILURE_THRESHOLD ==> circuit_state(failures, last, now) == CircuitState::Closed,
        failures >= FAILURE_THRESHOLD && last <= now && now - last < RECOVERY_WINDOW_SECS
            ==> circuit_state(failures, last, now) == CircuitState::Open,
        failures >= FAILURE_THRESHOLD && last <= now && now - last >= RECOVERY_WINDOW_SECS
            ==> circuit_state(failures, last, now) == CircuitState::HalfOpen,
        circuit_state(0, last, now) == CircuitState::Closed,
{
}

/// Message of a worktree without a Dockerfile.
pub open spec fn no_dockerfile_text(worktree_path: Seq<char>) -> Seq<char> {
    "no Dockerfile found in worktree at "@ + worktree_path
}

/// Checks, before an image is built, that the worktree holds a Dockerfile,
/// given whether one exists there; without one the build is not found.
pub fn dockerfile_check(worktree_path: &str, exists: bool) -> (r: Result<(), AppError>)
    ensures
        r is Ok <==> exists,
        r is Err ==> r->Err_0 is NotFound && r->Err_0.text() == no_dockerfile_text(worktree_path@),
{
    if !exists {
        return Err(AppError::NotFound(join2("no Dockerfile found in worktree at ", worktree_path)));
    }
    Ok(())
}

/// Message of a missing preview.
pub open spec fn preview_not_found_text(id: u128) -> Seq<char> {
    "preview "@ + crate::ids::uuid_text(id) + " not found"@
}

/// The result of a lookup of preview `id`: the preview, or not found.
pub fn found_preview(id: u128, found: Option<DockerPreview>) -> (r: Result<DockerPreview, AppError>)
    ensures
        found is Some ==> r == Ok::<DockerPreview, AppError>(found->0),
        found is None ==> r is Err && r->Err_0 is NotFound && r->Err_0.text() == preview_not_found_text(id),
{
    match found {
        Some(p) => Ok(p),
        None => Err(AppError::NotFound(join3("preview ", crate::ids::format_uuid(id).as_str(), " not found"))),
    }
}

/// Checks that a change of a preview (status, container, deletion) touched its row.
pub fn check_preview_changed(id: u128, rows: u64) -> (r: Result<(), AppError>)
    ensures
        r is Ok <==> rows > 0,
        r is Err ==> r->Err_0 is NotFound && r->Err_0.text() == preview_not_found_text(id),
{
    if rows == 0 {
        return Err(AppError::NotFound(join3("preview ", crate::ids::format_uuid(id).as_str(), " not found")));
    }
    Ok(())
}

/// The name under which a preview status is stored and serialized.
pub open spec fn preview_status_label(s: PreviewStatus) -> Seq<char> {
    match s {
        PreviewStatus::Pending => "pending"@,
        PreviewStatus::Building => "building"@,
        PreviewStatus::Running => "running"@,
        PreviewStatus::Stopped => "stopped"@,
        PreviewStatus::Failed => "failed"@,
    }
}

/// The name under which a preview status is stored and serialized.
pub fn preview_status_name(s: PreviewStatus) -> (r: &'static str)
    ensures
        r@ == preview_status_label(s),
{
    match s {
        PreviewStatus::Pending => "pending",
        PreviewStatus::Building => "building",
        PreviewStatus::Running => "running",
        PreviewStatus::Stopped => "stopped",
        PreviewStatus::Failed => "failed",
    }
}

/// The preview status that a stored name denotes.
pub open spec fn preview_status_from_label(s: Seq<char>) -> Option<PreviewStatus> {
    if s == "pending"@ {
        Some(PreviewStatus::Pending)
    } else if s == "building"@ {
        Some(PreviewStatus::Building)
    } else if s == "running"@ {
        Some(PreviewStatus::Running)
    } else if s == "stopped"@ {
        Some(PreviewStatus::Stopped)
    } else if s == "failed"@ {
        Some(PreviewStatus::Failed)
    } else {
        None
    }
}

/// Reads a stored preview status name.
pub fn parse_preview_status(s: &str) -> (r: Option<PreviewStatus>)
    ensures
        r == preview_status_from_label(s@),
{
    if crate::text::same_text(s, "pending") {
        Some(PreviewStatus::Pending)
    } else if crate::text::same_text(s, "building") {
        Some(PreviewStatus::Building)
    } else if crate::text::same_text(s, "running") {
        Some(PreviewStatus::Running)
    } else if crate::text::same_text(s, "stopped") {
        Some(PreviewStatus::Stopped)
    } else if crate::text::same_text(s, "failed") {
        Some(PreviewStatus::Failed)
    } else {
        None
    }
}

/// Every preview status reads back from the name it is stored under.
pub proof fn lemma_preview_status_round_trip(s: PreviewStatus)
    ensures
        preview_status_from_label(preview_status_label(s)) == Some(s),
{
    reveal_strlit("pending");
    reveal_strlit("building");
    reveal_strlit("running");
    reveal_strlit("stopped");
    reveal_strlit("failed");
    assert("pending"@[0] != "building"@[0]);
    assert("pending"@[0] != "running"@[0]);
    assert("pending"@[0] != "stopped"@[0]);
    assert("pending"@[0] != "failed"@[0]);
    assert("building"@[0] != "running"@[0]);
    assert("building"@[0] != "stopped"@[0]);
    assert("building"@[0] != "failed"@[0]);
    assert("running"@[0] != "stopped"@[0]);
    assert("running"@[0] != "failed"@[0]);
    assert("stopped"@[0] != "failed"@[0]);
}

} // verus!
