//! What the gateway is told before it starts: which host names it serves, and on which
//! local port the backend of each one listens.

use crate::assoc::{as_map, distinct_keys, has_key, lemma_entry, lemma_push, lemma_update};
use crate::text::{maybe_chars, smol_chars, smol_eq, smol_from_str};
use smol_str::SmolStr;
use std::collections::BTreeSet;
use vstd::prelude::*;

verus! {

/// A backend port is even: the odd port above it is kept for its standby.
pub open spec fn is_backend_port(port: u16) -> bool {
    port % 2 == 0
}

/// What is wrong with a configuration.
#[derive(Clone, Copy, Debug, PartialEq, Eq, Structural)]
pub enum ConfigError {
    /// The port is odd: odd ports are kept for the standbys of the backends.
    OddPort { port: u16 },
    /// No primary host is named, so the gateway has no certificate to present.
    NoPrimaryHost,
}

#[derive(Clone, Debug)]
struct HostRoute {
    host: SmolStr,
    port: u16,
}

/// The configuration of a gateway. It is filled once, before the gateway starts, and
/// only read afterwards.
#[derive(Clone, Debug)]
pub struct ProxyGatewayConfig {
    allports: BTreeSet<u16>,
    hostport: Vec<HostRoute>,
    primhost: Option<SmolStr>,
    def_port: Option<u16>,
}

/// The short name of the configuration.
pub type Config = ProxyGatewayConfig;

/// A configuration in specifications.
pub struct ConfigView {
    /// Every port in use.
    pub all_ports: Set<u16>,
    /// The backend port of each host name.
    pub host_to_port: Map<Seq<char>, u16>,
    /// The host name whose certificate the gateway presents.
    pub primary_host: Option<Seq<char>>,
    /// The backend port for a request whose host name is not known.
    pub default_port: Option<u16>,
}

impl ConfigView {
    /// The host names that a port serves: the inverse of `host_to_port`.
    pub open spec fn port_to_hosts(self, port: u16) -> Set<Seq<char>> {
        Set::new(
            |h: Seq<char>| self.host_to_port.contains_key(h) && self.host_to_port[h] == port,
        )
    }

    /// The port that a request is sent to: that of its host name where the name is known,
    /// the default port otherwise, none where there is no default either.
    pub open spec fn route(self, host: Option<Seq<char>>) -> Option<u16> {
        match host {
            Some(h) => if self.host_to_port.contains_key(h) {
                Some(self.host_to_port[h])
            } else {
                self.default_port
            },
            None => self.default_port,
        }
    }

    /// Every port is even, and every port that a host name or the default names is among
    /// the ports in use.
    pub open spec fn consistent(self) -> bool {
        &&& self.all_ports.finite()
        &&& forall|p: u16| self.all_ports.contains(p) ==> is_backend_port(p)
        &&& forall|h: Seq<char>| #[trigger]
            self.host_to_port.contains_key(h) ==> self.all_ports.contains(self.host_to_port[h])
        &&& match self.default_port {
            Some(p) => self.all_ports.contains(p),
            None => true,
        }
    }
}

/// Adds a port to a set of ports.
fn add_port(ports: &mut BTreeSet<u16>, port: u16)
    ensures
        final(ports)@ == old(ports)@.insert(port),
{
    broadcast use {vstd::std_specs::btree::group_btree_axioms, vstd::laws_cmp::group_laws_cmp};

    ports.insert(port);
}

/// The host names with their ports, as pairs.
spec fn pairs(hosts: Seq<HostRoute>) -> Seq<(Seq<char>, u16)> {
    Seq::new(hosts.len(), |i: int| (smol_chars(hosts[i].host), hosts[i].port))
}

/// The characters of each of a list of short strings, in order.
pub open spec fn names(hosts: Seq<SmolStr>) -> Seq<Seq<char>> {
    Seq::new(hosts.len(), |i: int| smol_chars(hosts[i]))
}

impl View for ProxyGatewayConfig {
    type V = ConfigView;

    closed spec fn view(&self) -> ConfigView {
        ConfigView {
            all_ports: self.allports@,
            host_to_port: as_map(pairs(self.hostport@)),
            primary_host: maybe_chars(self.primhost),
            default_port: self.def_port,
        }
    }
}

impl Default for ProxyGatewayConfig {
    fn default() -> (r: ProxyGatewayConfig)
        ensures
            r.wf(),
            r@.all_ports.is_empty(),
            r@.host_to_port.is_empty(),
            r@.primary_host is None,
            r@.default_port is None,
    {
        ProxyGatewayConfig::new()
    }
}

impl ProxyGatewayConfig {
    /// No host name is listed twice.
    pub closed spec fn listed_once(&self) -> bool {
        distinct_keys(pairs(self.hostport@))
    }

    /// The configuration is well formed: its parts agree with each other.
    pub open spec fn wf(&self) -> bool {
        self.listed_once() && self@.consistent()
    }

    /// The configuration that names nothing.
    pub fn new() -> (r: ProxyGatewayConfig)
        ensures
            r.wf(),
            r@ == (ConfigView {
                all_ports: Set::empty(),
                host_to_port: Map::empty(),
                primary_host: None,
                default_port: None,
            }),
    {
        let r = ProxyGatewayConfig {
            allports: BTreeSet::new(),
            hostport: Vec::new(),
            primhost: None,
            def_port: None,
        };
        assert(r@.host_to_port =~= Map::empty());
        r
    }

    fn position(&self, host: &SmolStr) -> (r: Option<usize>)
        ensures
            match r {
                Some(i) => i < self.hostport.len() && pairs(self.hostport@)[i as int].0
                    == smol_chars(*host),
                None => !has_key(pairs(self.hostport@), smol_chars(*host)),
            },
    {
        let mut i: usize = 0;
        while i < self.hostport.len()
            invariant
                i <= self.hostport.len(),
                forall|j: int|
                    0 <= j < i ==> (#[trigger] pairs(self.hostport@)[j]).0 != smol_chars(*host),
            decreases self.hostport.len() - i,
        {
            if smol_eq(&self.hostport[i].host, host) {
                return Some(i);
            }
            i += 1;
        }
        None
    }

    /// Maps a host name to the port of its backend. The port joins the ports in use. The
    /// first host name that is mapped becomes the primary host, unless one is set already.
    /// A host name that was mapped before is mapped anew. An odd port is refused, and
    /// nothing changes.
    pub fn map_host_to_port(&mut self, host: &str, port: u16) -> (r: Result<(), ConfigError>)
        requires
            old(self).wf(),
        ensures
            final(self).wf(),
            match r {
                Ok(_) => is_backend_port(port) && final(self)@ == (ConfigView {
                    all_ports: old(self)@.all_ports.insert(port),
                    host_to_port: old(self)@.host_to_port.insert(host@, port),
                    primary_host: if old(self)@.primary_host is None {
                        Some(host@)
                    } else {
                        old(self)@.primary_host
                    },
                    default_port: old(self)@.default_port,
                }),
                Err(e) => !is_backend_port(port) && e == (ConfigError::OddPort { port })
                    && *final(self) == *old(self),
            },
    {
        if port % 2 != 0 {
            return Err(ConfigError::OddPort { port });
        }
        let name = smol_from_str(host);
        let ghost before = pairs(self.hostport@);
        add_port(&mut self.allports, port);
        if self.primhost.is_none() {
            self.primhost = Some(name.clone());
        }
        match self.position(&name) {
            Some(i) => {
                self.hostport.set(i, HostRoute { host: name, port });
                proof {
                    lemma_update(before, i as int, port);
                    assert(pairs(self.hostport@) =~= before.update(i as int, (host@, port)));
                }
            },
            None => {
                self.hostport.push(HostRoute { host: name, port });
                proof {
                    lemma_push(before, host@, port);
                    assert(pairs(self.hostport@) =~= before.push((host@, port)));
                }
            },
        }
        Ok(())
    }

    /// Names the host whose certificate the gateway presents.
    pub fn set_primary_host(&mut self, host: &str)
        requires
            old(self).wf(),
        ensures
            final(self).wf(),
            final(self)@ == (ConfigView { primary_host: Some(host@), ..old(self)@ }),
    {
        self.primhost = Some(smol_from_str(host));
    }

    /// Names the port for requests whose host name is not known. The port joins the ports
    /// in use. An odd port is refused, and nothing changes.
    pub fn set_default_port(&mut self, port: u16) -> (r: Result<(), ConfigError>)
        requires
            old(self).wf(),
        ensures
            final(self).wf(),
            match r {
                Ok(_) => is_backend_port(port) && final(self)@ == (ConfigView {
                    all_ports: old(self)@.all_ports.insert(port),
                    default_port: Some(port),
                    ..old(self)@
                }),
                Err(e) => !is_backend_port(port) && e == (ConfigError::OddPort { port })
                    && *final(self) == *old(self),
            },
    {
        if port % 2 != 0 {
            return Err(ConfigError::OddPort { port });
        }
        add_port(&mut self.allports, port);
        self.def_port = Some(port);
        Ok(())
    }

    /// Every port in use, in rising order when walked.
    pub fn all_ports(&self) -> (r: &BTreeSet<u16>)
        ensures
            r@ == self@.all_ports,
    {
        &self.allports
    }

    /// The backend port of a host name, if the name is mapped.
    pub fn host_to_port(&self, host: &SmolStr) -> (r: Option<u16>)
        requires
            self.wf(),
        ensures
            r == if self@.host_to_port.contains_key(smol_chars(*host)) {
                Some(self@.host_to_port[smol_chars(*host)])
            } else {
                None
            },
    {
        match self.position(host) {
            Some(i) => {
                proof {
                    lemma_entry(pairs(self.hostport@), i as int);
                }
                Some(self.hostport[i].port)
            },
            None => None,
        }
    }

    /// The host names that a port serves, each of them once.
    pub fn port_to_hosts(&self, port: u16) -> (r: Vec<SmolStr>)
        requires
            self.wf(),
        ensures
            names(r@).no_duplicates(),
            names(r@).to_set() == self@.port_to_hosts(port),
    {
        let ghost all = pairs(self.hostport@);
        let mut out: Vec<SmolStr> = Vec::new();
        let ghost mut from: Seq<int> = Seq::empty();
        let mut i: usize = 0;
        while i < self.hostport.len()
            invariant
                i <= self.hostport.len(),
                all == pairs(self.hostport@),
                distinct_keys(all),
                from.len() == out.len(),
                forall|k: int|
                    0 <= k < from.len() ==> 0 <= #[trigger] from[k] < i && all[from[k]] == (
                        names(out@)[k],
                        port,
                    ),
                forall|k: int, l: int| 0 <= k < l < from.len() ==> from[k] < from[l],
                forall|j: int|
                    0 <= j < i && (#[trigger] all[j]).1 == port ==> names(out@).contains(all[j].0),
            decreases self.hostport.len() - i,
        {
            if self.hostport[i].port == port {
                let ghost prev = names(out@);
                out.push(self.hostport[i].host.clone());
                proof {
                    from = from.push(i as int);
                    assert forall|j: int| 0 <= j <= i && (#[trigger] all[j]).1 == port implies names(
                        out@,
                    ).contains(all[j].0) by {
                        if j < i {
                            let k = choose|k: int| 0 <= k < prev.len() && prev[k] == all[j].0;
                            assert(names(out@)[k] == all[j].0);
                        } else {
                            assert(names(out@)[prev.len() as int] == all[j].0);
                        }
                    }
                }
            }
            i += 1;
        }
        proof {
            let got = names(out@);
            assert forall|k: int, l: int| 0 <= k < l < got.len() implies got[k] != got[l] by {
                assert(all[from[k]].0 != all[from[l]].0);
            }
            assert forall|h: Seq<char>| got.to_set().contains(h) == self@.port_to_hosts(
                port,
            ).contains(h) by {
                if got.to_set().contains(h) {
                    let k = choose|k: int| 0 <= k < got.len() && got[k] == h;
                    lemma_entry(all, from[k]);
                }
                if self@.port_to_hosts(port).contains(h) {
                    let j = choose|j: int| 0 <= j < all.len() && (#[trigger] all[j]).0 == h;
                    lemma_entry(all, j);
                }
            }
        }
        out
    }

    /// The host whose certificate the gateway presents, if one is named.
    pub fn primary_host(&self) -> (r: Option<&SmolStr>)
        ensures
            match r {
                Some(h) => self@.primary_host == Some(smol_chars(*h)),
                None => self@.primary_host is None,
            },
    {
        self.primhost.as_ref()
    }

    /// The host whose certificate the gateway presents when it starts. A configuration
    /// without one cannot start a gateway.
    pub fn startup_host(&self) -> (r: Result<&SmolStr, ConfigError>)
        ensures
            match r {
                Ok(h) => self@.primary_host == Some(smol_chars(*h)),
                Err(e) => self@.primary_host is None && e == ConfigError::NoPrimaryHost,
            },
    {
        match &self.primhost {
            Some(h) => Ok(h),
            None => Err(ConfigError::NoPrimaryHost),
        }
    }

    /// The port for requests whose host name is not known, if one is named.
    pub fn default_port(&self) -> (r: Option<u16>)
        ensures
            r == self@.default_port,
    {
        self.def_port
    }

    /// The port that a request with this `Host` header is sent to.
    pub fn route(&self, host: Option<&SmolStr>) -> (r: Option<u16>)
        requires
            self.wf(),
        ensures
            r == self@.route(
                match host {
                    Some(h) => Some(smol_chars(*h)),
                    None => None,
                },
            ),
            r matches Some(p) ==> self@.all_ports.contains(p) && is_backend_port(p),
    {
        let found = match host {
            Some(h) => self.host_to_port(h),
            None => None,
        };
        match found {
            Some(p) => Some(p),
            None => self.def_port,
        }
    }
}

} // verus!
