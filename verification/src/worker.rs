//! Hosting of background services: the services a host runs, the pool it
//! finds them in by name, and what it reports to the service control
//! manager.
use vstd::prelude::*;
use std::collections::VecDeque;

verus! {

/// A background service that a host runs. `name` must be the name that the
/// service is registered under.
pub trait Service: Sync + Send {
    /// Whether the implementation states its name in `spec_name`. An
    /// implementation outside verified code keeps the default, `false`, and
    /// so promises nothing.
    open spec fn obeys_name_spec(&self) -> bool {
        false
    }

    /// The name that the service is registered under, where
    /// `obeys_name_spec` holds.
    open spec fn spec_name(&self) -> Seq<char> {
        Seq::empty()
    }

    /// Gives the service's name: always `spec_name` where the
    /// implementation states it.
    fn name(&self) -> (r: &str)
        ensures
            self.obeys_name_spec() ==> r@ == self.spec_name(),
    ;

    fn start(&self, args: &[String]);

    fn stop(&self) {
    }
}

/// Collects the services that a host runs, in the order given.
pub struct Builder<'a>(Vec<&'a dyn Service>);

impl<'a> Builder<'a> {
    /// The services, in the order they were added.
    pub closed spec fn services(&self) -> Seq<&'a dyn Service> {
        self.0@
    }

    pub fn new() -> (r: Builder<'a>)
        ensures
            r.services().len() == 0,
    {
        Builder(Vec::new())
    }

    /// Adds a service after the ones already there; the builder is handed
    /// back so that calls can be chained.
    pub fn service(&mut self, s: &'a dyn Service) -> (r: &mut Builder<'a>)
        ensures
            appended(old(self).services(), (*r).services(), s),
            *final(self) == *final(r),
    {
        let ghost before = self.0@;
        self.0.push(s);
        proof {
            lemma_push_appends(before, s);
        }
        self
    }

    /// The services, in the order they were added.
    pub fn service_list(&self) -> (r: &[&'a dyn Service])
        ensures
            r@ == self.services(),
    {
        self.0.as_slice()
    }
}


/// `after` is `before` with `s` added at the end, stated element by element
/// so that callers need no sequence lemma for trait-object elements.
pub open spec fn appended<T>(before: Seq<T>, after: Seq<T>, s: T) -> bool {
    &&& after.len() == before.len() + 1
    &&& after[before.len() as int] == s
    &&& forall|i: int| 0 <= i < before.len() ==> #[trigger] after[i] == before[i]
}

/// Pushing onto a sequence appends.
proof fn lemma_push_appends<T>(q: Seq<T>, s: T)
    ensures
        appended(q, q.push(s), s),
{
    vstd::seq::axiom_seq_push_len(q, s);
    vstd::seq::axiom_seq_push_index_same(q, s, q.len() as int);
    assert forall|i: int| 0 <= i < q.len() implies #[trigger] q.push(s)[i] == q[i] by {
        vstd::seq::axiom_seq_push_index_different(q, s, i);
    }
}

/// Pushing a named entry onto the raw entries of a pool appends its view.
proof fn lemma_entry_appended<T>(raw: Seq<(String, T)>, name: String, s: T)
    ensures
        appended(
            raw.map_values(|e: (String, T)| (e.0@, e.1)),
            raw.push((name, s)).map_values(|e: (String, T)| (e.0@, e.1)),
            (name@, s),
        ),
{
    let f = |e: (String, T)| (e.0@, e.1);
    assert(raw.push((name, s)).map_values(f) =~= raw.map_values(f).push((name@, s)));
    lemma_push_appends(raw.map_values(f), (name@, s));
}

/// Why a host could not run its services.
pub enum ServiceError {
    CantAcquireMutexLock,
    RegisterServiceHandlerError,
    IOError(std::io::Error),
}

/// Trusted: declares `std::io::Error` so that an error of the operating
/// system can be carried through; nothing inside it is read.
#[verifier::external_type_specification]
#[verifier::external_body]
pub struct ExIoError(std::io::Error);

/// The description of each service error.
pub open spec fn service_error_text(e: ServiceError) -> Seq<char> {
    match e {
        ServiceError::CantAcquireMutexLock => "Can not lock service pool mutex."@,
        ServiceError::RegisterServiceHandlerError => "Can't register service handler."@,
        ServiceError::IOError(_) => "IO error occured. See more details in inner error."@,
    }
}

impl ServiceError {
    pub fn description(&self) -> (r: &'static str)
        ensures
            r@ == service_error_text(*self),
    {
        match self {
            ServiceError::CantAcquireMutexLock => "Can not lock service pool mutex.",
            ServiceError::RegisterServiceHandlerError => "Can't register service handler.",
            ServiceError::IOError(_) => "IO error occured. See more details in inner error.",
        }
    }
}

/// The kind of service process that runs several services.
pub const SERVICE_WIN32_SHARE_PROCESS: u32 = 0x20;

/// The kind of service process that runs one service.
pub const SERVICE_WIN32_OWN_PROCESS: u32 = 0x10;

/// Service states reported to the service control manager.
pub const SERVICE_STOPPED: u32 = 0x1;

pub const SERVICE_START_PENDING: u32 = 0x2;

pub const SERVICE_RUNNING: u32 = 0x4;

/// Controls that a service accepts.
pub const SERVICE_ACCEPT_STOP: u32 = 0x1;

pub const SERVICE_ACCEPT_SHUTDOWN: u32 = 0x4;

/// Control codes that the service control manager sends.
pub const SERVICE_CONTROL_STOP: u32 = 0x1;

pub const SERVICE_CONTROL_SHUTDOWN: u32 = 0x5;

/// What a control handler answers: the control was handled.
pub const NO_ERROR: u32 = 0;

/// The status that a service reports to the service control manager.
#[derive(Debug, Clone, Copy, PartialEq, Eq, Structural)]
pub struct ServiceStatus {
    pub service_type: u32,
    pub current_state: u32,
    pub controls_accepted: u32,
    pub win32_exit_code: u32,
    pub service_specific_exit_code: u32,
    pub check_point: u32,
    pub wait_hint: u32,
}

/// The status of a service of a shared process that is in `state` and
/// accepts stop and shutdown.
pub open spec fn shared_status(state: u32) -> ServiceStatus {
    ServiceStatus {
        service_type: SERVICE_WIN32_SHARE_PROCESS,
        current_state: state,
        controls_accepted: 5,
        win32_exit_code: 0,
        service_specific_exit_code: 0,
        check_point: 0,
        wait_hint: 0,
    }
}

/// The status a hosted service reports when it is in `state`.
pub fn service_status(state: u32) -> (r: ServiceStatus)
    ensures
        r == shared_status(state),
{
    assert(SERVICE_ACCEPT_STOP | SERVICE_ACCEPT_SHUTDOWN == 5) by (bit_vector);
    ServiceStatus {
        service_type: SERVICE_WIN32_SHARE_PROCESS,
        current_state: state,
        controls_accepted: SERVICE_ACCEPT_STOP | SERVICE_ACCEPT_SHUTDOWN,
        win32_exit_code: 0,
        service_specific_exit_code: 0,
        check_point: 0,
        wait_hint: 0,
    }
}

/// Stop and shutdown ask a service to stop; every other control is ignored.
pub open spec fn is_stop_control(control: u32) -> bool {
    control == SERVICE_CONTROL_STOP || control == SERVICE_CONTROL_SHUTDOWN
}

/// Whether a control code asks the service to stop.
pub fn control_stops(control: u32) -> (r: bool)
    ensures
        r == is_stop_control(control),
{
    control == SERVICE_CONTROL_STOP || control == SERVICE_CONTROL_SHUTDOWN
}

/// What a host does on a control code: when the code stops the service,
/// the service is stopped and then reported as stopped; the answer to the
/// control manager is always `NO_ERROR`.
pub fn service_handler(control: u32) -> (r: (Option<ServiceStatus>, u32))
    ensures
        r.1 == NO_ERROR,
        is_stop_control(control) ==> r.0 == Some(shared_status(SERVICE_STOPPED)),
        !is_stop_control(control) ==> r.0 is None,
{
    if control_stops(control) {
        (Some(service_status(SERVICE_STOPPED)), NO_ERROR)
    } else {
        (None, NO_ERROR)
    }
}

/// The services a host has been given, each under its name, first come
/// first.
pub struct ServicePool<T> {
    services: VecDeque<(String, T)>,
}

impl<T: Copy> ServicePool<T> {
    /// The entries, as names and services.
    pub closed spec fn entries(&self) -> Seq<(Seq<char>, T)> {
        self.services@.map_values(|e: (String, T)| (e.0@, e.1))
    }

    pub fn new() -> (r: ServicePool<T>)
        ensures
            r.entries().len() == 0,
    {
        ServicePool { services: VecDeque::new() }
    }

    /// Puts a service at the back of the pool.
    pub fn enq(&mut self, name: String, s: T)
        ensures
            appended(old(self).entries(), final(self).entries(), (name@, s)),
    {
        let ghost before = self.services@;
        let ghost entry = (name@, s);
        self.services.push_back((name, s));
        assert(self.services@.map_values(|e: (String, T)| (e.0@, e.1)) =~= before.map_values(
            |e: (String, T)| (e.0@, e.1),
        ).push(entry));
        proof {
            lemma_push_appends(old(self).entries(), entry);
        }
    }

    /// Whether a service is registered under `name`.
    pub fn has(&self, name: &str) -> (r: bool)
        ensures
            r == exists|i: int| 0 <= i < self.entries().len() && (#[trigger] self.entries()[i]).0 == name@,
    {
        let target = name.to_string();
        let mut i: usize = 0;
        let n = self.services.len();
        while i < n
            invariant
                n == self.services@.len(),
                i <= n,
                target@ == name@,
                forall|j: int| 0 <= j < i ==> (#[trigger] self.entries()[j]).0 != name@,
            decreases n - i,
        {
            assert(self.entries()[i as int] == (self.services@[i as int].0@, self.services@[i as int].1));
            if self.services[i].0 == target {
                return true;
            }
            i = i + 1;
        }
        false
    }

    /// Takes the first service registered under `name` out of the pool;
    /// every other entry stays, in its order.
    pub fn deq(&mut self, name: &str) -> (r: T)
        requires
            exists|i: int| 0 <= i < old(self).entries().len() && (#[trigger] old(self).entries()[i]).0 == name@,
        ensures
            exists|i: int|
                #![trigger old(self).entries()[i]]
                first_under_name(old(self).entries(), name@, i) && r == old(self).entries()[i].1
                    && final(self).entries() == old(self).entries().remove(i),
    {
        let ghost old_entries = self.entries();
        let target = name.to_string();
        let mut i: usize = 0;
        let n = self.services.len();
        while i < n
            invariant
                n == self.services@.len(),
                i <= n,
                old_entries == self.entries(),
                old_entries == old(self).entries(),
                target@ == name@,
                exists|k: int| 0 <= k < old_entries.len() && (#[trigger] old_entries[k]).0 == name@,
                forall|j: int| 0 <= j < i ==> (#[trigger] old_entries[j]).0 != name@,
            decreases n - i,
        {
            assert(old_entries[i as int] == (self.services@[i as int].0@, self.services@[i as int].1));
            if self.services[i].0 == target {
                let ghost before = self.services@;
                let s = match self.services.remove(i) {
                    Some(e) => e.1,
                    None => self.services[0].1,
                };
                proof {
                    assert(self.services@ == before.remove(i as int));
                    assert(self.entries() =~= old_entries.remove(i as int));
                    assert(first_under_name(old_entries, name@, i as int));
                    assert(s == old_entries[i as int].1);
                }
                return s;
            }
            i = i + 1;
        }
        proof {
            let k = choose|k: int| 0 <= k < old_entries.len() && (#[trigger] old_entries[k]).0 == name@;
            assert(old_entries[k].0 != name@);
        }
        self.services[0].1
    }
}

impl<'a> Builder<'a> {
    /// Puts every service of the builder into the pool, in order, each
    /// under the name it gives; the entries already there stay first.
    pub fn register(&self, pool: &mut ServicePool<&'a dyn Service>)
        ensures
            final(pool).entries().len() == old(pool).entries().len() + self.services().len(),
            forall|i: int|
                0 <= i < old(pool).entries().len() ==> #[trigger] final(pool).entries()[i]
                    == old(pool).entries()[i],
            forall|i: int|
                0 <= i < self.services().len() ==> #[trigger] final(pool).entries()[old(
                    pool,
                ).entries().len() + i].1 === self.services()[i],
            forall|i: int|
                0 <= i < self.services().len() && self.services()[i].obeys_name_spec()
                    ==> #[trigger] final(pool).entries()[old(pool).entries().len() + i].0
                    == self.services()[i].spec_name(),
    {
        let n = self.0.len();
        let mut k: usize = 0;
        while k < n
            invariant
                n == self.services().len(),
                k <= n,
                pool.entries().len() == old(pool).entries().len() + k,
                forall|i: int|
                    0 <= i < old(pool).entries().len() ==> #[trigger] pool.entries()[i]
                        == old(pool).entries()[i],
                forall|i: int|
                    0 <= i < k ==> #[trigger] pool.entries()[old(pool).entries().len() + i].1
                        === self.services()[i],
                forall|i: int|
                    0 <= i < k && self.services()[i].obeys_name_spec() ==> #[trigger] pool.entries()[old(
                        pool,
                    ).entries().len() + i].0 == self.services()[i].spec_name(),
            decreases n - k,
        {
            let s = self.0[k];
            assert(s == self.services()[k as int]);
            let ghost before = pool.entries();
            let ghost raw = pool.services@;
            let name = s.name().to_string();
            let ghost name_g = name;
            pool.services.push_back((name, s));
            proof {
                lemma_entry_appended(raw, name_g, s);
            }
            assert forall|i: int| 0 <= i < k + 1 implies #[trigger] pool.entries()[old(
                pool,
            ).entries().len() + i].1 === self.services()[i] by {
                if i < k {
                    assert(before[old(pool).entries().len() + i].1 === self.services()[i]);
                }
            }
            assert forall|i: int| 0 <= i < k + 1 && self.services()[i].obeys_name_spec() implies #[trigger] pool.entries()[old(
                pool,
            ).entries().len() + i].0 == self.services()[i].spec_name() by {
                if i < k {
                    assert(before[old(pool).entries().len() + i].0 == self.services()[i].spec_name());
                }
            }
            k = k + 1;
        }
    }
}
} // verus!

verus! {

/// `i` is the first entry registered under `name`.
pub open spec fn first_under_name<T>(entries: Seq<(Seq<char>, T)>, name: Seq<char>, i: int) -> bool {
    &&& 0 <= i < entries.len()
    &&& entries[i].0 == name
    &&& forall|j: int| 0 <= j < i ==> (#[trigger] entries[j]).0 != name
}

/// Taking a service out of the pool keeps every entry registered under
/// another name, so each service still to start is found later; only one
/// entry leaves.
pub proof fn lemma_deq_keeps_others<T>(entries: Seq<(Seq<char>, T)>, name: Seq<char>, i: int)
    requires
        first_under_name(entries, name, i),
    ensures
        entries.remove(i).len() == entries.len() - 1,
        forall|j: int|
            0 <= j < entries.len() && (#[trigger] entries[j]).0 != name ==> entries.remove(i).contains(
                entries[j],
            ),
{
    assert forall|j: int| 0 <= j < entries.len() && (#[trigger] entries[j]).0 != name implies entries.remove(i).contains(entries[j]) by {
        assert(j != i);
        if j < i {
            assert(entries.remove(i)[j] == entries[j]);
        } else {
            assert(entries.remove(i)[j - 1] == entries[j]);
        }
    }
}

} // verus!
