//! Discovery of the devices on the local network.
//!
//! Discovery has three phases. The query of [`Discovery::probe`] is broadcast;
//! what arrives in answer is handed over, one arrival at a time and in the
//! order of arrival; and each location that arrives becomes a device. The
//! first arrival that is a failure of the transport, or a location that is not
//! an address, ends discovery with that error: devices found before it are
//! not returned. Addresses that arrive twice are kept twice.

use crate::address::url_parse;
use crate::device::Device;
use crate::error::{Error, ErrorView};
use ssdp_client::Error as DiscoveryFailure;
use url::Url;
use vstd::prelude::*;
use vstd::string::*;

verus! {

/// The discovery query: the two parts of the search target that names the
/// device family, how many seconds to listen for answers, and how many times
/// the query may be sent again.
#[derive(Debug)]
pub struct Probe {
    pub domain: String,
    pub service: String,
    pub window_seconds: u64,
    pub retransmissions: usize,
}

/// What the discovery transport hands over: the location that a device
/// declares in its answer, or the failure of the transport.
#[derive(Debug)]
pub enum Arrival {
    Location(String),
    Failure(DiscoveryFailure),
}

/// The address that an arrival gives, or the error that it ends discovery
/// with.
pub open spec fn located(arrival: Arrival) -> Result<Url, ErrorView> {
    match arrival {
        Arrival::Location(text) => match url_parse(text@) {
            Ok(url) => Ok(url),
            Err(source) => Err(ErrorView::URLParse(source)),
        },
        Arrival::Failure(source) => Err(ErrorView::SSDPRequest(source)),
    }
}

/// The addresses of a sequence of devices.
pub open spec fn addresses(devices: Seq<Device>) -> Seq<Url> {
    devices.map_values(|device: Device| device@)
}

/// A discovery that is under way: the devices found so far.
#[derive(Debug)]
pub struct Discovery {
    devices: Vec<Device>,
}

impl View for Discovery {
    type V = Seq<Url>;

    closed spec fn view(&self) -> Seq<Url> {
        addresses(self.devices@)
    }
}

impl Discovery {
    /// The query to broadcast.
    pub fn probe() -> (probe: Probe)
        ensures
            probe.domain@ == "roku"@,
            probe.service@ == "ecp"@,
            probe.window_seconds == 3,
            probe.retransmissions == 2,
    {
        Probe {
            domain: String::from_str("roku"),
            service: String::from_str("ecp"),
            window_seconds: 3,
            retransmissions: 2,
        }
    }

    /// A discovery that has found nothing yet.
    pub fn new() -> (discovery: Discovery)
        ensures
            discovery@ == Seq::<Url>::empty(),
    {
        let discovery = Discovery { devices: Vec::new() };
        assert(discovery@ =~= Seq::<Url>::empty());
        discovery
    }

    /// Takes one arrival. A location that is an address adds a device, and
    /// discovery goes on; anything else ends discovery with its error.
    pub fn receive(self, arrival: Arrival) -> (result: Result<Discovery, Error>)
        ensures
            match located(arrival) {
                Ok(url) => result is Ok && result->Ok_0@ == self@.push(url),
                Err(error) => result is Err && result->Err_0@ == error,
            },
    {
        match arrival {
            Arrival::Location(text) => match Url::parse(text.as_str()) {
                Ok(url) => {
                    let mut devices = self.devices;
                    devices.push(Device::new(url));
                    let next = Discovery { devices };
                    assert(next@ =~= self@.push(url));
                    Ok(next)
                },
                Err(source) => Err(Error::URLParse(source)),
            },
            Arrival::Failure(source) => Err(Error::SSDPRequest(source)),
        }
    }

    /// Ends discovery when the transport has nothing more to hand over: the
    /// devices found, in the order in which their locations arrived.
    pub fn finish(self) -> (devices: Vec<Device>)
        ensures
            addresses(devices@) == self@,
    {
        self.devices
    }
}

/// What discovery comes to for everything that arrived, first arrival first:
/// the addresses of the devices, or the error of the first arrival that gives
/// no address.
pub open spec fn discovery_of(arrivals: Seq<Arrival>) -> Result<Seq<Url>, ErrorView>
    decreases arrivals.len(),
{
    if arrivals.len() == 0 {
        Ok(Seq::empty())
    } else {
        match discovery_of(arrivals.drop_last()) {
            Ok(urls) => match located(arrivals.last()) {
                Ok(url) => Ok(urls.push(url)),
                Err(error) => Err(error),
            },
            Err(error) => Err(error),
        }
    }
}

/// What a discovery returned: the addresses of the devices, or the error.
pub open spec fn found(result: Result<Vec<Device>, Error>) -> Result<Seq<Url>, ErrorView> {
    match result {
        Ok(devices) => Ok(addresses(devices@)),
        Err(error) => Err(error@),
    }
}

/// Once discovery has failed, nothing that arrives later changes the error.
proof fn lemma_failure_stays(arrivals: Seq<Arrival>, n: int)
    requires
        0 <= n <= arrivals.len(),
        discovery_of(arrivals.take(n)) is Err,
    ensures
        discovery_of(arrivals) == discovery_of(arrivals.take(n)),
    decreases arrivals.len() - n,
{
    if n == arrivals.len() {
        assert(arrivals.take(n) =~= arrivals);
    } else {
        assert(arrivals.take(n + 1).drop_last() =~= arrivals.take(n));
        lemma_failure_stays(arrivals, n + 1);
    }
}

impl Device {
    /// Discovery over everything that the transport handed over until its
    /// window closed, in the order of arrival: one device for each location,
    /// or the error of the first arrival that gives no address.
    pub fn discover(arrivals: Vec<Arrival>) -> (result: Result<Vec<Device>, Error>)
        ensures
            found(result) == discovery_of(arrivals@),
            arrivals@.len() == 0 ==> result is Ok && result->Ok_0@.len() == 0,
    {
        let ghost all = arrivals@;
        let mut discovery = Discovery::new();
        for arrival in it: arrivals
            invariant
                it.seq() == all,
                discovery_of(all.take(it.index())) == Ok::<Seq<Url>, ErrorView>(discovery@),
        {
            proof {
                assert(all.take(it.index() + 1).drop_last() =~= all.take(it.index()));
            }
            match discovery.receive(arrival) {
                Ok(next) => {
                    discovery = next;
                },
                Err(error) => {
                    proof {
                        lemma_failure_stays(all, it.index() + 1);
                    }
                    return Err(error);
                },
            }
        }
        assert(all.take(all.len() as int) =~= all);
        let devices = discovery.finish();
        assert(addresses(devices@).len() == devices@.len());
        Ok(devices)
    }
}

/// Discovery succeeds exactly when every arrival gives an address, and then
/// returns those addresses in the order of arrival, none left out and none
/// merged; otherwise it fails with the error of the first arrival that gives
/// no address.
pub proof fn lemma_discovery_outcome(arrivals: Seq<Arrival>)
    ensures
        match discovery_of(arrivals) {
            Ok(urls) => {
                &&& urls.len() == arrivals.len()
                &&& forall|i: int|
                    0 <= i < arrivals.len() ==> located(#[trigger] arrivals[i]) == Ok::<
                        Url,
                        ErrorView,
                    >(urls[i])
            },
            Err(error) => exists|k: int|
                {
                    &&& 0 <= k < arrivals.len()
                    &&& located(#[trigger] arrivals[k]) == Err::<Url, ErrorView>(error)
                    &&& forall|i: int| 0 <= i < k ==> located(#[trigger] arrivals[i]) is Ok
                },
        },
    decreases arrivals.len(),
{
    if arrivals.len() > 0 {
        let front = arrivals.drop_last();
        lemma_discovery_outcome(front);
        match discovery_of(front) {
            Ok(urls) => {
                assert forall|i: int| 0 <= i < front.len() implies located(#[trigger] arrivals[i])
                    is Ok by {
                    assert(arrivals[i] == front[i]);
                }
                match located(arrivals.last()) {
                    Ok(url) => {
                        let all = urls.push(url);
                        assert forall|i: int| 0 <= i < arrivals.len() implies located(
                            #[trigger] arrivals[i],
                        ) == Ok::<Url, ErrorView>(all[i]) by {
                            if i < front.len() {
                                assert(arrivals[i] == front[i]);
                            }
                        }
                    },
                    Err(error) => {
                        let k = arrivals.len() - 1;
                        assert(located(arrivals[k]) == Err::<Url, ErrorView>(error));
                    },
                }
            },
            Err(error) => {
                let k = choose|k: int|
                    {
                        &&& 0 <= k < front.len()
                        &&& located(#[trigger] front[k]) == Err::<Url, ErrorView>(error)
                        &&& forall|i: int| 0 <= i < k ==> located(#[trigger] front[i]) is Ok
                    };
                assert(arrivals[k] == front[k]);
                assert forall|i: int| 0 <= i < k implies located(#[trigger] arrivals[i]) is Ok by {
                    assert(arrivals[i] == front[i]);
                }
            },
        }
    }
}

/// When nothing arrives before the window closes, discovery succeeds and
/// returns no device.
pub proof fn lemma_nothing_arrives()
    ensures
        discovery_of(Seq::<Arrival>::empty()) == Ok::<Seq<Url>, ErrorView>(Seq::empty()),
{
}

/// One location that is not an address, among arrivals that all give one,
/// fails the whole discovery with the error of parsing that location.
pub proof fn lemma_malformed_location(arrivals: Seq<Arrival>, k: int)
    requires
        0 <= k < arrivals.len(),
        arrivals[k] is Location,
        url_parse(arrivals[k]->Location_0@) is Err,
        forall|i: int| 0 <= i < arrivals.len() && i != k ==> located(#[trigger] arrivals[i]) is Ok,
    ensures
        discovery_of(arrivals) == Err::<Seq<Url>, ErrorView>(
            ErrorView::URLParse(url_parse(arrivals[k]->Location_0@)->Err_0),
        ),
{
    lemma_discovery_outcome(arrivals);
    assert(located(arrivals[k]) is Err);
}

} // verus!
