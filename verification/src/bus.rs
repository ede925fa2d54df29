//! The bus arbiter: one owner per physical bus, any number of proxies, and a
//! record of every exchange in the order it reached the wire.
//!
//! The owner is an ordinary value. Whoever holds it exclusively is the only
//! one who can talk on the bus, so a driver operation that borrows it for
//! its whole duration cannot be interleaved with another one.

use vstd::prelude::*;
use crate::transport::{Error, Transport, TransportError};

verus! {

/// What was asked of the bus in one exchange.
pub enum Request {
    Write { address: u8, bytes: Seq<u8> },
    WriteRead { address: u8, out: Seq<u8>, count: nat },
    Pause { ms: u32 },
}

/// What the transport answered.
pub enum Reply {
    /// A write or a pause that went through.
    Done,
    /// The bytes a read brought back.
    Data(Seq<u8>),
    /// The transport's failure.
    Failed(TransportError),
}

/// One finished exchange.
pub struct Exchange {
    pub request: Request,
    pub reply: Reply,
}

/// The error a result carries, if it carries one.
pub open spec fn failure<V>(result: Result<V, Error>) -> Option<Error> {
    match result {
        Ok(_) => None,
        Err(e) => Some(e),
    }
}

/// The error the caller of a write is told for a reply, if any.
pub open spec fn write_failure(reply: Reply) -> Option<Error> {
    match reply {
        Reply::Done => None,
        Reply::Failed(e) => Some(Error::Transport(e)),
        Reply::Data(_) => Some(Error::Protocol),
    }
}

/// What the caller of a read of `count` bytes is told for a reply.
pub open spec fn read_outcome(reply: Reply, count: nat) -> Result<Seq<u8>, Error> {
    match reply {
        Reply::Data(bytes) => if bytes.len() == count {
            Ok(bytes)
        } else {
            Err(Error::Protocol)
        },
        Reply::Failed(e) => Err(Error::Transport(e)),
        Reply::Done => Err(Error::Protocol),
    }
}

/// The reply that the transport's answer to a write is recorded as.
pub open spec fn write_reply(answer: Result<(), TransportError>) -> Reply {
    match answer {
        Ok(_) => Reply::Done,
        Err(e) => Reply::Failed(e),
    }
}

/// The reply that the transport's answer to a read is recorded as.
pub open spec fn read_reply(answer: Result<Vec<u8>, TransportError>) -> Reply {
    match answer {
        Ok(data) => Reply::Data(data@),
        Err(e) => Reply::Failed(e),
    }
}

/// The bytes of a read result, for comparison with a reply.
pub open spec fn bytes_of(r: Result<Vec<u8>, Error>) -> Result<Seq<u8>, Error> {
    match r {
        Ok(v) => Ok(v@),
        Err(e) => Err(e),
    }
}

/// The request that sets one 8-bit register.
pub open spec fn register_write(address: u8, register: u8, value: u8) -> Request {
    Request::Write { address, bytes: seq![register, value] }
}

/// The request that reads `count` bytes starting at a register.
pub open spec fn register_read(address: u8, register: u8, count: nat) -> Request {
    Request::WriteRead { address, out: seq![register], count }
}

/// The exchange a pause of `ms` milliseconds leaves in the trail.
pub open spec fn pause(ms: u32) -> Exchange {
    Exchange { request: Request::Pause { ms }, reply: Reply::Done }
}

/// One step of a register script.
#[derive(Clone, Copy, Debug, PartialEq, Eq)]
pub enum Step {
    /// Set a register.
    Write { register: u8, value: u8 },
    /// Read a register, keep the bits of `keep`, set those of `set`, write
    /// it back.
    Modify { register: u8, keep: u8, set: u8 },
    /// Let the device settle.
    Pause { ms: u32 },
}

/// The value a `Modify` step writes back for the value it read.
pub open spec fn merged(current: u8, keep: u8, set: u8) -> u8 {
    (current & keep) | set
}

/// Whether `run` is what the bus saw when `script` was played against the
/// device at `address` and ended with `failed`: the steps in order, each
/// one's exchanges complete, stopping at the first exchange that failed,
/// whose error is reported; no error if none failed.
pub open spec fn script_run(
    address: u8,
    script: Seq<Step>,
    run: Seq<Exchange>,
    failed: Option<Error>,
) -> bool
    decreases script.len(),
{
    if script.len() == 0 {
        run.len() == 0 && failed is None
    } else {
        let rest = script.drop_first();
        match script[0] {
            Step::Write { register, value } => {
                &&& run.len() >= 1
                &&& run[0].request == register_write(address, register, value)
                &&& match write_failure(run[0].reply) {
                    None => script_run(address, rest, run.skip(1), failed),
                    Some(e) => run.len() == 1 && failed == Some(e),
                }
            },
            Step::Modify { register, keep, set } => {
                &&& run.len() >= 1
                &&& run[0].request == register_read(address, register, 1)
                &&& match read_outcome(run[0].reply, 1) {
                    Ok(bytes) => {
                        &&& run.len() >= 2
                        &&& run[1].request == register_write(
                            address,
                            register,
                            merged(bytes[0], keep, set),
                        )
                        &&& match write_failure(run[1].reply) {
                            None => script_run(address, rest, run.skip(2), failed),
                            Some(e) => run.len() == 2 && failed == Some(e),
                        }
                    },
                    Err(e) => run.len() == 1 && failed == Some(e),
                }
            },
            Step::Pause { ms } => {
                &&& run.len() >= 1
                &&& run[0] == pause(ms)
                &&& script_run(address, rest, run.skip(1), failed)
            },
        }
    }
}

/// Whether a script has no read-modify-write step, so that each of its
/// steps is exactly one exchange.
pub open spec fn plain(script: Seq<Step>) -> bool {
    forall|i: int| 0 <= i < script.len() ==> !(#[trigger] script[i] is Modify)
}

/// A run of a script that went through, followed by a run of a second
/// script, is a run of the two scripts joined.
pub proof fn lemma_run_joined(
    address: u8,
    first: Seq<Step>,
    second: Seq<Step>,
    head: Seq<Exchange>,
    tail: Seq<Exchange>,
    failed: Option<Error>,
)
    requires
        script_run(address, first, head, None),
        script_run(address, second, tail, failed),
    ensures
        script_run(address, first + second, head + tail, failed),
    decreases first.len(),
{
    if first.len() == 0 {
        assert(first + second =~= second);
        assert(head + tail =~= tail);
    } else {
        let used: int = if first[0] is Modify {
            2
        } else {
            1
        };
        assert((first + second).drop_first() =~= first.drop_first() + second);
        assert((head + tail).skip(used) =~= head.skip(used) + tail);
        lemma_run_joined(address, first.drop_first(), second, head.skip(used), tail, failed);
    }
}

/// A run that stopped on a failure is also a run of any longer script that
/// starts with the same steps.
pub proof fn lemma_run_stopped(
    address: u8,
    first: Seq<Step>,
    second: Seq<Step>,
    run: Seq<Exchange>,
    error: Error,
)
    requires
        script_run(address, first, run, Some(error)),
    ensures
        script_run(address, first + second, run, Some(error)),
    decreases first.len(),
{
    if first.len() > 0 {
        let rest = first.drop_first();
        assert((first + second).drop_first() =~= rest + second);
        assert((first + second)[0] == first[0]);
        match first[0] {
            Step::Write { .. } => {
                if write_failure(run[0].reply) is None {
                    lemma_run_stopped(address, rest, second, run.skip(1), error);
                }
            },
            Step::Modify { .. } => {
                if read_outcome(run[0].reply, 1) is Ok && write_failure(run[1].reply) is None {
                    lemma_run_stopped(address, rest, second, run.skip(2), error);
                }
            },
            Step::Pause { .. } => {
                lemma_run_stopped(address, rest, second, run.skip(1), error);
            },
        }
    }
}

/// A run of a script without read-modify-write steps has one exchange for
/// each step it reached: as many as the script has steps if nothing failed,
/// and otherwise at least one and no more than that.
pub proof fn lemma_plain_run_len(
    address: u8,
    script: Seq<Step>,
    run: Seq<Exchange>,
    failed: Option<Error>,
)
    requires
        plain(script),
        script_run(address, script, run, failed),
    ensures
        run.len() <= script.len(),
        failed is None ==> run.len() == script.len(),
        failed is None ==> forall|i: int| 0 <= i < run.len() ==> (#[trigger] run[i]).reply is Done,
        failed is Some ==> run.len() >= 1 && !(run.last().reply is Done),
    decreases script.len(),
{
    if script.len() > 0 {
        assert(!(script[0] is Modify));
        let rest = script.drop_first();
        assert(plain(rest)) by {
            assert forall|i: int| 0 <= i < rest.len() implies !(#[trigger] rest[i] is Modify) by {
                assert(rest[i] == script[i + 1]);
            }
        }
        if run.len() >= 1 && run[0].reply is Done {
            lemma_plain_run_len(address, rest, run.skip(1), failed);
            if failed is None {
                assert forall|i: int| 0 <= i < run.len() implies (#[trigger] run[i]).reply
                    is Done by {
                    if i > 0 {
                        assert(run[i] == run.skip(1)[i - 1]);
                    }
                }
            } else {
                assert(run.last() == run.skip(1).last());
            }
        }
    }
}

/// Judges the transport's answer to a write: its failure is handed on as it
/// is.
pub fn check_write(answer: Result<(), TransportError>) -> (r: Result<(), Error>)
    ensures
        failure(r) == write_failure(write_reply(answer)),
{
    match answer {
        Ok(()) => Ok(()),
        Err(e) => Err(Error::Transport(e)),
    }
}

/// Judges the transport's answer to a read of `count` bytes: its failure is
/// handed on as it is, and so are its bytes if there are `count` of them;
/// any other number is a protocol error.
pub fn check_read(answer: Result<Vec<u8>, TransportError>, count: usize) -> (r: Result<
    Vec<u8>,
    Error,
>)
    ensures
        bytes_of(r) == read_outcome(read_reply(answer), count as nat),
{
    match answer {
        Ok(data) => if data.len() == count {
            Ok(data)
        } else {
            Err(Error::Protocol)
        },
        Err(e) => Err(Error::Transport(e)),
    }
}

/// A capability to use one bus. It can be copied freely; it is of use only
/// together with the handle it was derived from.
#[derive(Clone, Copy, Debug, PartialEq, Eq)]
pub struct Proxy {
    bus: u8,
}

impl Proxy {
    /// The identity of the bus this proxy belongs to.
    pub closed spec fn bus(&self) -> u8 {
        self.bus
    }

    /// The identity of the bus this proxy belongs to.
    #[verifier::when_used_as_spec(bus)]
    pub fn bus_id(&self) -> (id: u8)
        ensures
            id == self.bus(),
    {
        self.bus
    }
}

/// The sole owner of one physical bus.
pub struct BusHandle<T> {
    id: u8,
    link: T,
    trail: Ghost<Seq<Exchange>>,
}

/// Runs `Transport::write` inside `critical_section::with`, so that nothing
/// else can reach the bus until the write is over. The answer is the
/// transport's; nothing is claimed of it.
#[verifier::external_body]
fn guarded_write<T: Transport>(link: &mut T, address: u8, bytes: &[u8]) -> (reply: Result<
    (),
    TransportError,
>) {
    critical_section::with(|_| link.write(address, bytes))
}

/// Runs `Transport::write_read` inside `critical_section::with`, so that
/// nothing else can reach the bus between the write and the read. The answer
/// is the transport's; nothing is claimed of it, not even its length.
#[verifier::external_body]
fn guarded_write_read<T: Transport>(link: &mut T, address: u8, out: &[u8], count: usize) -> (reply:
    Result<Vec<u8>, TransportError>) {
    critical_section::with(|_| link.write_read(address, out, count))
}

impl<T: Transport> BusHandle<T> {
    /// The identity of the physical bus.
    pub closed spec fn id(&self) -> u8 {
        self.id
    }

    /// Every exchange made through this handle, oldest first.
    pub closed spec fn trail(&self) -> Seq<Exchange> {
        self.trail@
    }

    /// Whether a proxy was derived from this handle's bus.
    pub open spec fn admits(&self, proxy: Proxy) -> bool {
        proxy.bus() == self.id()
    }

    /// Whether this handle's trail starts with `earlier`.
    pub open spec fn extends(&self, earlier: Seq<Exchange>) -> bool {
        earlier.len() <= self.trail().len() && self.trail().take(earlier.len() as int) == earlier
    }

    /// The exchanges made after `earlier`.
    pub open spec fn since(&self, earlier: Seq<Exchange>) -> Seq<Exchange> {
        self.trail().skip(earlier.len() as int)
    }

    /// The identity of the physical bus.
    pub fn bus_id(&self) -> (id: u8)
        ensures
            id == self.id(),
    {
        self.id
    }

    /// A new capability for this bus. Any number may be derived.
    pub fn derive_proxy(&self) -> (proxy: Proxy)
        ensures
            self.admits(proxy),
            proxy.bus() == self.id(),
    {
        Proxy { bus: self.id }
    }

    /// Sends `bytes` to the device at `address` as one exchange.
    pub fn write(&mut self, proxy: Proxy, address: u8, bytes: &[u8]) -> (r: Result<(), Error>)
        ensures
            final(self).id() == old(self).id(),
            !old(self).admits(proxy) ==> r == Err::<(), Error>(Error::Resource) && final(
                self).trail() == old(self).trail(),
            old(self).admits(proxy) ==> ({
                &&& final(self).trail() == old(self).trail().push(final(self).trail().last())
                &&& final(self).trail().last().request == (Request::Write {
                    address,
                    bytes: bytes@,
                })
                &&& !(final(self).trail().last().reply is Data)
                &&& failure(r) == write_failure(final(self).trail().last().reply)
            }),
    {
        if proxy.bus != self.id {
            return Err(Error::Resource);
        }
        let answer = guarded_write(&mut self.link, address, bytes);
        proof {
            self.trail@ = self.trail@.push(
                Exchange {
                    request: Request::Write { address, bytes: bytes@ },
                    reply: write_reply(answer),
                },
            );
        }
        check_write(answer)
    }

    /// Sends `out` to the device at `address` and reads `count` bytes back,
    /// as one exchange. A reply of another length is a protocol error.
    pub fn write_read(&mut self, proxy: Proxy, address: u8, out: &[u8], count: usize) -> (r: Result<
        Vec<u8>,
        Error,
    >)
        ensures
            final(self).id() == old(self).id(),
            !old(self).admits(proxy) ==> r == Err::<Vec<u8>, Error>(Error::Resource) && final(
                self).trail() == old(self).trail(),
            old(self).admits(proxy) ==> ({
                &&& final(self).trail() == old(self).trail().push(final(self).trail().last())
                &&& final(self).trail().last().request == (Request::WriteRead {
                    address,
                    out: out@,
                    count: count as nat,
                })
                &&& !(final(self).trail().last().reply is Done)
                &&& bytes_of(r) == read_outcome(final(self).trail().last().reply, count as nat)
            }),
    {
        if proxy.bus != self.id {
            return Err(Error::Resource);
        }
        let answer = guarded_write_read(&mut self.link, address, out, count);
        proof {
            self.trail@ = self.trail@.push(
                Exchange {
                    request: Request::WriteRead { address, out: out@, count: count as nat },
                    reply: read_reply(answer),
                },
            );
        }
        check_read(answer, count)
    }

    /// Leaves the bus idle for `ms` milliseconds.
    pub fn settle(&mut self, proxy: Proxy, ms: u32) -> (r: Result<(), Error>)
        ensures
            final(self).id() == old(self).id(),
            !old(self).admits(proxy) ==> r == Err::<(), Error>(Error::Resource) && final(
                self).trail() == old(self).trail(),
            old(self).admits(proxy) ==> r is Ok && final(self).trail() == old(self).trail().push(
                pause(ms),
            ),
    {
        if proxy.bus != self.id {
            return Err(Error::Resource);
        }
        self.link.settle(ms);
        proof {
            self.trail@ = self.trail@.push(pause(ms));
        }
        Ok(())
    }

    /// Sets one 8-bit register of the device at `address`.
    pub fn write_register(&mut self, proxy: Proxy, address: u8, register: u8, value: u8) -> (r:
        Result<(), Error>)
        ensures
            final(self).id() == old(self).id(),
            !old(self).admits(proxy) ==> r == Err::<(), Error>(Error::Resource) && final(
                self).trail() == old(self).trail(),
            old(self).admits(proxy) ==> ({
                &&& final(self).trail() == old(self).trail().push(final(self).trail().last())
                &&& final(self).trail().last().request == register_write(address, register, value)
                &&& !(final(self).trail().last().reply is Data)
                &&& failure(r) == write_failure(final(self).trail().last().reply)
            }),
    {
        let bytes: [u8; 2] = [register, value];
        assert(bytes@ =~= seq![register, value]);
        self.write(proxy, address, &bytes)
    }

    /// Reads `count` bytes starting at a register of the device at
    /// `address`.
    pub fn read_register(&mut self, proxy: Proxy, address: u8, register: u8, count: usize) -> (r:
        Result<Vec<u8>, Error>)
        ensures
            final(self).id() == old(self).id(),
            !old(self).admits(proxy) ==> r == Err::<Vec<u8>, Error>(Error::Resource) && final(
                self).trail() == old(self).trail(),
            old(self).admits(proxy) ==> ({
                &&& final(self).trail() == old(self).trail().push(final(self).trail().last())
                &&& final(self).trail().last().request == register_read(
                    address,
                    register,
                    count as nat,
                )
                &&& !(final(self).trail().last().reply is Done)
                &&& bytes_of(r) == read_outcome(final(self).trail().last().reply, count as nat)
            }),
    {
        let out: [u8; 1] = [register];
        assert(out@ =~= seq![register]);
        self.write_read(proxy, address, &out, count)
    }

    /// Plays a register script against the device at `address`, stopping at
    /// the first exchange that fails.
    pub fn run(&mut self, proxy: Proxy, address: u8, script: &Vec<Step>) -> (r: Result<(), Error>)
        ensures
            final(self).id() == old(self).id(),
            !old(self).admits(proxy) ==> r == Err::<(), Error>(Error::Resource) && final(
                self).trail() == old(self).trail(),
            old(self).admits(proxy) ==> final(self).extends(old(self).trail()) && script_run(
                address,
                script@,
                final(self).since(old(self).trail()),
                failure(r),
            ),
    {
        if proxy.bus != self.id {
            return Err(Error::Resource);
        }
        let ghost start = self.trail();
        let mut i: usize = 0;
        assert(script@.skip(0) =~= script@);
        assert(self.since(start) =~= Seq::<Exchange>::empty());
        assert(self.trail().take(start.len() as int) =~= start);
        assert forall|rest: Seq<Exchange>, res: Option<Error>| #[trigger]
            script_run(address, script@.skip(0), rest, res) implies script_run(
            address,
            script@,
            self.since(start) + rest,
            res,
        ) by {
            assert(self.since(start) + rest =~= rest);
        }
        while i < script.len()
            invariant
                self.id() == old(self).id(),
                self.admits(proxy),
                start == old(self).trail(),
                i <= script.len(),
                self.extends(start),
                forall|rest: Seq<Exchange>, res: Option<Error>| #[trigger]
                    script_run(address, script@.skip(i as int), rest, res) ==> script_run(
                        address,
                        script@,
                        self.since(start) + rest,
                        res,
                    ),
            decreases script.len() - i,
        {
            let ghost before = self.trail();
            let ghost prev = self.since(start);
            let ghost here = script@.skip(i as int);
            assert(here.len() > 0 && here[0] == script@[i as int]);
            assert(here.drop_first() =~= script@.skip(i + 1));
            let outcome: Result<(), Error> = match script[i] {
                Step::Write { register, value } => self.write_register(
                    proxy,
                    address,
                    register,
                    value,
                ),
                Step::Modify { register, keep, set } => {
                    match self.read_register(proxy, address, register, 1) {
                        Ok(bytes) => self.write_register(
                            proxy,
                            address,
                            register,
                            (bytes[0] & keep) | set,
                        ),
                        Err(e) => Err(e),
                    }
                },
                Step::Pause { ms } => self.settle(proxy, ms),
            };
            let ghost made = self.trail().skip(before.len() as int);
            assert(self.trail() =~= before + made);
            assert(self.trail().take(start.len() as int) =~= before.take(start.len() as int));
            assert(self.since(start) =~= prev + made);
            match outcome {
                Ok(()) => {
                    assert forall|rest: Seq<Exchange>, res: Option<Error>| #[trigger]
                        script_run(address, script@.skip(i + 1), rest, res) implies script_run(
                        address,
                        script@,
                        self.since(start) + rest,
                        res,
                    ) by {
                        assert((made + rest).skip(made.len() as int) =~= rest);
                        assert(script_run(address, here, made + rest, res));
                        assert(prev + (made + rest) =~= self.since(start) + rest);
                    }
                },
                Err(e) => {
                    assert(script_run(address, here, made, Some(e)));
                    return Err(e);
                },
            }
            i = i + 1;
        }
        assert(script@.skip(i as int) =~= Seq::<Step>::empty());
        assert(script_run(
            address,
            script@.skip(i as int),
            Seq::<Exchange>::empty(),
            None::<Error>,
        ));
        assert(self.since(start) + Seq::<Exchange>::empty() =~= self.since(start));
        Ok(())
    }
}

/// The record of which physical buses have been claimed. A program keeps
/// one and passes it to whoever sets a bus up.
pub struct BusRegistry {
    taken: Vec<u8>,
}

impl View for BusRegistry {
    type V = Set<u8>;

    /// The identities claimed so far.
    closed spec fn view(&self) -> Set<u8> {
        self.taken@.to_set()
    }
}

impl BusRegistry {
    /// A registry in which no bus is claimed.
    pub fn new() -> (registry: Self)
        ensures
            registry@ == Set::<u8>::empty(),
    {
        let registry = BusRegistry { taken: Vec::new() };
        assert(registry.taken@.to_set() =~= Set::<u8>::empty());
        registry
    }

    /// Whether the bus `id` has been claimed.
    pub fn is_acquired(&self, id: u8) -> (taken: bool)
        ensures
            taken == self@.contains(id),
    {
        let mut i: usize = 0;
        while i < self.taken.len()
            invariant
                i <= self.taken.len(),
                forall|j: int| 0 <= j < i ==> self.taken@[j] != id,
            decreases self.taken.len() - i,
        {
            if self.taken[i] == id {
                return true;
            }
            i = i + 1;
        }
        false
    }

    /// Claims the bus `id` and wraps its transport in the one handle that
    /// will ever exist for it. A second claim of the same bus is refused.
    pub fn acquire<T: Transport>(&mut self, id: u8, link: T) -> (r: Result<BusHandle<T>, Error>)
        ensures
            old(self)@.contains(id) ==> r == Err::<BusHandle<T>, Error>(Error::Resource) && final(
                self)@ == old(self)@,
            !old(self)@.contains(id) ==> ({
                &&& r is Ok
                &&& r->Ok_0.id() == id
                &&& r->Ok_0.trail() == Seq::<Exchange>::empty()
                &&& final(self)@ == old(self)@.insert(id)
            }),
    {
        if self.is_acquired(id) {
            return Err(Error::Resource);
        }
        self.taken.push(id);
        assert(self.taken@.to_set() =~= old(self).taken@.to_set().insert(id)) by {
            assert forall|x: u8| self.taken@.to_set().contains(x) <==> old(
                self).taken@.to_set().insert(id).contains(x) by {
                if old(self).taken@.contains(x) {
                    let j = choose|j: int|
                        0 <= j < old(self).taken@.len() && old(self).taken@[j] == x;
                    assert(self.taken@[j] == x);
                }
                if x == id {
                    assert(self.taken@[self.taken@.len() - 1] == x);
                }
            }
        }
        Ok(BusHandle { id, link, trail: Ghost(Seq::empty()) })
    }
}

} // verus!
