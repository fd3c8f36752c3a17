//! Network interfaces and the choice of those that multicast is joined
//! on.

use vstd::prelude::*;
use vstd::string::StringExecFns;
use crate::network::address::IpAddress;
use crate::utils::error::AirWinError;

verus! {

/// An address that discovery can use: IPv4, and neither loopback,
/// link-local, multicast nor broadcast.
pub open spec fn usable_address(ip: IpAddress) -> bool {
    &&& ip is V4
    &&& !ip.spec_is_loopback()
    &&& !ip.spec_is_link_local()
    &&& !ip.spec_is_multicast()
    &&& !ip.spec_is_broadcast()
}

/// One interface of the host.
#[derive(Debug)]
pub struct NetworkInterface {
    name: String,
    ip: IpAddress,
    is_valid: bool,
}

impl NetworkInterface {
    pub closed spec fn spec_name(&self) -> Seq<char> {
        self.name@
    }

    pub closed spec fn spec_ip(&self) -> IpAddress {
        self.ip
    }

    pub closed spec fn spec_is_valid(&self) -> bool {
        self.is_valid
    }

    /// Validity is decided when the interface is made and goes by its
    /// address alone.
    pub closed spec fn wf(&self) -> bool {
        self.is_valid == usable_address(self.ip)
    }

    pub fn new(name: String, ip: IpAddress) -> (interface: Self)
        ensures
            interface.wf(),
            interface.spec_name() == name@,
            interface.spec_ip() == ip,
            interface.spec_is_valid() == usable_address(ip),
    {
        let is_valid = match ip {
            IpAddress::V4(_) => !ip.is_loopback() && !ip.is_link_local() && !ip.is_multicast()
                && !ip.is_broadcast(),
            IpAddress::V6(_) => false,
        };
        NetworkInterface { name, ip, is_valid }
    }

    pub fn is_valid(&self) -> (valid: bool)
        ensures
            valid == self.spec_is_valid(),
    {
        self.is_valid
    }

    pub fn name(&self) -> (name: &str)
        ensures
            name@ == self.spec_name(),
    {
        self.name.as_str()
    }

    pub fn ip(&self) -> (ip: &IpAddress)
        ensures
            *ip == self.spec_ip(),
    {
        &self.ip
    }
}

/// The interfaces made of listed names and addresses, in order.
pub open spec fn interfaces_match(
    interfaces: Seq<NetworkInterface>,
    listed: Seq<(String, IpAddress)>,
) -> bool {
    &&& interfaces.len() == listed.len()
    &&& forall|i: int|
        0 <= i < listed.len() ==> (#[trigger] interfaces[i]).wf() && interfaces[i].spec_name()
            == listed[i].0@ && interfaces[i].spec_ip() == listed[i].1
}

/// Some listed address is usable.
pub open spec fn any_usable(listed: Seq<(String, IpAddress)>) -> bool {
    exists|i: int| 0 <= i < listed.len() && usable_address(#[trigger] listed[i].1)
}

/// The IPv4 addresses of the valid interfaces, in order.
pub open spec fn valid_addresses(interfaces: Seq<NetworkInterface>) -> Seq<u32>
    decreases interfaces.len(),
{
    if interfaces.len() == 0 {
        Seq::empty()
    } else {
        let front = valid_addresses(interfaces.drop_last());
        let last = interfaces.last();
        if last.spec_is_valid() && last.spec_ip() is V4 {
            front.push(last.spec_ip()->V4_0)
        } else {
            front
        }
    }
}

/// The two occasions on which a multicast group is joined.
#[derive(Clone, Copy, Debug, PartialEq, Eq, Structural)]
pub enum JoinPolicy {
    /// Browsing for peers: loopback and link-local addresses are left
    /// out.
    Discovery,
    /// Advertising this endpoint: multicast addresses are left out as
    /// well.
    Advertising,
}

/// Whether a group is joined on the interface of the given address.
/// Only IPv4 addresses are joined on.
pub open spec fn joins_on(policy: JoinPolicy, ip: IpAddress) -> bool {
    &&& ip is V4
    &&& !ip.spec_is_loopback()
    &&& !ip.spec_is_link_local()
    &&& policy == JoinPolicy::Advertising ==> !ip.spec_is_multicast()
}

/// The addresses among the listed ones that a group is joined on, in
/// order.
pub open spec fn joined_addresses(listed: Seq<(String, IpAddress)>, policy: JoinPolicy) -> Seq<u32>
    decreases listed.len(),
{
    if listed.len() == 0 {
        Seq::empty()
    } else {
        let front = joined_addresses(listed.drop_last(), policy);
        if joins_on(policy, listed.last().1) {
            front.push(listed.last().1->V4_0)
        } else {
            front
        }
    }
}

/// Whether a group is joined on the interface of the given address.
pub fn joins(policy: JoinPolicy, ip: &IpAddress) -> (yes: bool)
    ensures
        yes == joins_on(policy, *ip),
{
    match ip {
        IpAddress::V4(_) => !ip.is_loopback() && !ip.is_link_local() && (policy
            == JoinPolicy::Discovery || !ip.is_multicast()),
        IpAddress::V6(_) => false,
    }
}

/// The addresses among the listed ones that a group is joined on.
pub fn select_addresses(listed: &Vec<(String, IpAddress)>, policy: JoinPolicy) -> (targets: Vec<
    u32,
>)
    ensures
        targets@ == joined_addresses(listed@, policy),
{
    let mut targets: Vec<u32> = Vec::new();
    let mut i: usize = 0;
    assert(listed@.take(0) =~= Seq::<(String, IpAddress)>::empty());
    while i < listed.len()
        invariant
            i <= listed@.len(),
            targets@ == joined_addresses(listed@.take(i as int), policy),
        decreases listed@.len() - i,
    {
        proof {
            let next = listed@.take(i + 1);
            assert(next.drop_last() =~= listed@.take(i as int));
            assert(next.last() == listed@[i as int]);
        }
        if joins(policy, &listed[i].1) {
            match listed[i].1 {
                IpAddress::V4(bits) => {
                    targets.push(bits);
                },
                IpAddress::V6(_) => {},
            }
        }
        i += 1;
    }
    assert(listed@.take(i as int) =~= listed@);
    targets
}

/// Some join succeeded.
pub open spec fn any_joined(outcomes: Seq<bool>) -> bool {
    exists|i: int| 0 <= i < outcomes.len() && #[trigger] outcomes[i]
}

/// The host's interfaces and the state of the multicast socket.
#[derive(Debug)]
pub struct NetworkManager {
    socket_ready: bool,
    interfaces: Vec<NetworkInterface>,
}

impl NetworkManager {
    /// Whether the multicast socket was made.
    pub closed spec fn has_socket(&self) -> bool {
        self.socket_ready
    }

    /// The interfaces that were listed, in order.
    pub closed spec fn listed(&self) -> Seq<NetworkInterface> {
        self.interfaces@
    }

    pub fn new() -> (manager: Result<Self, AirWinError>)
        ensures
            manager matches Ok(m) && !m.has_socket() && m.listed().len() == 0,
    {
        Ok(NetworkManager { socket_ready: false, interfaces: Vec::new() })
    }

    /// Takes the outcome of making the multicast socket and of listing
    /// the host's interfaces. It fails when either failed, and when no
    /// listed address is usable; the listed interfaces are kept even
    /// then, the socket only on success.
    pub fn initialize(
        &mut self,
        socket: Result<(), String>,
        listed: Result<Vec<(String, IpAddress)>, String>,
    ) -> (result: Result<(), AirWinError>)
        ensures
            match (socket, listed) {
                (Err(why), _) => result matches Err(AirWinError::NetworkError(m)) && m@
                    == "Failed to create multicast socket: "@ + why@ && final(self).listed()
                    == old(self).listed() && final(self).has_socket() == old(self).has_socket(),
                (Ok(_), Err(why)) => result matches Err(AirWinError::NetworkError(m)) && m@
                    == "Failed to list network interfaces: "@ + why@ && final(self).listed()
                    == old(self).listed() && final(self).has_socket() == old(self).has_socket(),
                (Ok(_), Ok(found)) => interfaces_match(final(self).listed(), found@) && if any_usable(
                    found@,
                ) {
                    result is Ok && final(self).has_socket()
                } else {
                    result matches Err(AirWinError::InvalidInterface(m)) && m@
                        == "No valid network interfaces found"@ && final(self).has_socket() == old(self).has_socket()
                },
            },
    {
        match socket {
            Err(why) => {
                return Err(
                    AirWinError::NetworkError(
                        "Failed to create multicast socket: ".to_string().concat(why.as_str()),
                    ),
                );
            },
            Ok(_) => {},
        }
        let found = match listed {
            Err(why) => {
                return Err(
                    AirWinError::NetworkError(
                        "Failed to list network interfaces: ".to_string().concat(why.as_str()),
                    ),
                );
            },
            Ok(found) => found,
        };
        let mut interfaces: Vec<NetworkInterface> = Vec::new();
        let mut usable: bool = false;
        let mut i: usize = 0;
        while i < found.len()
            invariant
                i <= found@.len(),
                interfaces_match(interfaces@, found@.take(i as int)),
                usable == any_usable(found@.take(i as int)),
            decreases found@.len() - i,
        {
            let interface = NetworkInterface::new(found[i].0.clone(), found[i].1);
            let ghost before = found@.take(i as int);
            let ghost after = found@.take(i + 1);
            proof {
                assert(after =~= before.push(found@[i as int]));
                if any_usable(before) {
                    let k = choose|k: int| 0 <= k < before.len() && usable_address(
                        #[trigger] before[k].1,
                    );
                    assert(usable_address(after[k].1));
                }
                if usable_address(found@[i as int].1) {
                    assert(usable_address(after[i as int].1));
                }
                if any_usable(after) {
                    let k = choose|k: int| 0 <= k < after.len() && usable_address(
                        #[trigger] after[k].1,
                    );
                    if k < i {
                        assert(usable_address(before[k].1));
                    }
                }
            }
            if interface.is_valid() {
                usable = true;
            }
            interfaces.push(interface);
            i += 1;
        }
        assert(found@.take(i as int) =~= found@);
        self.interfaces = interfaces;
        if !usable {
            return Err(
                AirWinError::InvalidInterface("No valid network interfaces found".to_string()),
            );
        }
        self.socket_ready = true;
        Ok(())
    }

    /// The addresses to join a multicast group on: those of the valid
    /// interfaces. It fails before the socket was made.
    pub fn multicast_targets(&self) -> (result: Result<Vec<u32>, AirWinError>)
        ensures
            self.has_socket() ==> {
                &&& result matches Ok(targets)
                &&& targets@ == valid_addresses(self.listed())
            },
            !self.has_socket() ==> (result matches Err(AirWinError::NetworkError(m)) && m@
                == "Multicast socket not initialized"@),
    {
        if !self.socket_ready {
            return Err(AirWinError::NetworkError("Multicast socket not initialized".to_string()));
        }
        let mut targets: Vec<u32> = Vec::new();
        let mut i: usize = 0;
        assert(self.interfaces@.take(0) =~= Seq::<NetworkInterface>::empty());
        while i < self.interfaces.len()
            invariant
                i <= self.interfaces@.len(),
                targets@ == valid_addresses(self.interfaces@.take(i as int)),
            decreases self.interfaces@.len() - i,
        {
            proof {
                let next = self.interfaces@.take(i + 1);
                assert(next.drop_last() =~= self.interfaces@.take(i as int));
                assert(next.last() == self.interfaces@[i as int]);
            }
            if self.interfaces[i].is_valid {
                match self.interfaces[i].ip {
                    IpAddress::V4(bits) => {
                        targets.push(bits);
                    },
                    IpAddress::V6(_) => {},
                }
            }
            i += 1;
        }
        assert(self.interfaces@.take(i as int) =~= self.interfaces@);
        Ok(targets)
    }

    /// Takes the outcomes of joining the group on each target: joining
    /// succeeded when it succeeded on one interface at least.
    pub fn join_multicast_group(&self, outcomes: &Vec<bool>) -> (result: Result<(), AirWinError>)
        ensures
            !self.has_socket() ==> (result matches Err(AirWinError::NetworkError(m)) && m@
                == "Multicast socket not initialized"@),
            self.has_socket() && any_joined(outcomes@) ==> result is Ok,
            self.has_socket() && !any_joined(outcomes@) ==> (result matches Err(
                AirWinError::NetworkError(m),
            ) && m@ == "Failed to join multicast group on any interface"@),
    {
        if !self.socket_ready {
            return Err(AirWinError::NetworkError("Multicast socket not initialized".to_string()));
        }
        let mut i: usize = 0;
        while i < outcomes.len()
            invariant
                self.has_socket(),
                i <= outcomes@.len(),
                forall|k: int| 0 <= k < i ==> !outcomes@[k],
            decreases outcomes@.len() - i,
        {
            if outcomes[i] {
                return Ok(());
            }
            i += 1;
        }
        Err(
            AirWinError::NetworkError(
                "Failed to join multicast group on any interface".to_string(),
            ),
        )
    }

    /// The valid interfaces, in order.
    pub fn get_valid_interfaces(&self) -> (valid: Vec<&NetworkInterface>)
        ensures
            valid@.map_values(|r: &NetworkInterface| *r) == self.listed().filter(
                |i: NetworkInterface| i.spec_is_valid(),
            ),
    {
        let ghost keep = |i: NetworkInterface| i.spec_is_valid();
        let mut valid: Vec<&NetworkInterface> = Vec::new();
        let mut i: usize = 0;
        assert(self.interfaces@.take(0) =~= Seq::<NetworkInterface>::empty());
        assert(valid@.map_values(|r: &NetworkInterface| *r) =~= self.interfaces@.take(0).filter(
            keep,
        ));
        while i < self.interfaces.len()
            invariant
                i <= self.interfaces@.len(),
                keep == |i: NetworkInterface| i.spec_is_valid(),
                valid@.map_values(|r: &NetworkInterface| *r) == self.interfaces@.take(
                    i as int,
                ).filter(keep),
            decreases self.interfaces@.len() - i,
        {
            let ghost before = valid@.map_values(|r: &NetworkInterface| *r);
            proof {
                let next = self.interfaces@.take(i + 1);
                assert(next.drop_last() =~= self.interfaces@.take(i as int));
                assert(next.last() == self.interfaces@[i as int]);
                reveal(Seq::filter);
            }
            if self.interfaces[i].is_valid {
                valid.push(&self.interfaces[i]);
                assert(valid@.map_values(|r: &NetworkInterface| *r) =~= before.push(
                    self.interfaces@[i as int],
                ));
            }
            i += 1;
        }
        assert(self.interfaces@.take(i as int) =~= self.interfaces@);
        valid
    }
}

} // verus!
