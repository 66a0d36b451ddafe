//! The saved connection settings and the list of recently used servers.
use vstd::prelude::*;

verus! {

/// How many server addresses the history keeps after a new one is added.
pub const MAX_HISTORY_ADDRESSES: usize = 10;

/// The settings of one connection.
pub struct ConnectionInfo {
    pub server_address: String,
    pub ssh_port: u16,
    pub username: String,
    pub password: String,
    pub local_port: u16,
    pub use_key_auth: bool,
    pub key_path: String,
}

/// The recently used server addresses, most recent first, and the settings
/// of the last connection.
pub struct ConnectionHistory {
    pub addresses: Vec<String>,
    pub last_connection: Option<ConnectionInfo>,
}

/// The address list after connecting to `address`: an address already listed
/// leaves the list as it is; a new one goes to the front, and when the list
/// then holds more than ten, its last entry is dropped.
pub open spec fn spec_record_address(addresses: Seq<Seq<char>>, address: Seq<char>) -> Seq<Seq<char>> {
    if addresses.contains(address) {
        addresses
    } else if addresses.len() + 1 > MAX_HISTORY_ADDRESSES {
        (seq![address] + addresses).drop_last()
    } else {
        seq![address] + addresses
    }
}

/// No address occurs twice.
pub open spec fn no_duplicates(addresses: Seq<Seq<char>>) -> bool {
    forall|i: int, j: int|
        0 <= i < addresses.len() && 0 <= j < addresses.len() && i != j ==> addresses[i]
            != addresses[j]
}

impl ConnectionHistory {
    /// The listed addresses as texts.
    pub open spec fn address_texts(&self) -> Seq<Seq<char>> {
        self.addresses.deep_view()
    }

    /// Remembers a connection: its server address is listed as
    /// [`spec_record_address`] says, and it becomes the last connection.
    pub fn record_connection(&mut self, info: ConnectionInfo)
        ensures
            final(self).address_texts() == spec_record_address(
                old(self).address_texts(),
                info.server_address@,
            ),
            final(self).last_connection == Some(info),
    {
        let ghost before = self.address_texts();
        let n = self.addresses.len();
        let mut found = false;
        let mut i: usize = 0;
        while i < n
            invariant
                i <= n,
                n == self.addresses@.len(),
                before == self.address_texts(),
                found <==> exists|k: int| 0 <= k < i && before[k] == info.server_address@,
            decreases n - i,
        {
            if self.addresses[i] == info.server_address {
                assert(before[i as int] == info.server_address@);
                found = true;
            }
            i += 1;
        }
        proof {
            if before.contains(info.server_address@) {
                let k = choose|k: int| 0 <= k < before.len() && before[k] == info.server_address@;
                assert(before[k] == info.server_address@);
            }
        }
        if !found {
            let address = info.server_address.clone();
            self.addresses.insert(0, address);
            assert(self.address_texts() =~= seq![info.server_address@] + before);
            if self.addresses.len() > MAX_HISTORY_ADDRESSES {
                self.addresses.pop();
                assert(self.address_texts() =~= (seq![info.server_address@] + before).drop_last());
            }
        }
        self.last_connection = Some(info);
    }
}

impl Default for ConnectionHistory {
    /// An empty history: no addresses and no last connection.
    fn default() -> (h: Self)
        ensures
            h.addresses@.len() == 0,
            h.last_connection is None,
    {
        ConnectionHistory { addresses: Vec::new(), last_connection: None }
    }
}

/// After a connection its server address is in the list.
pub proof fn lemma_record_lists_address(addresses: Seq<Seq<char>>, address: Seq<char>)
    ensures
        spec_record_address(addresses, address).contains(address),
{
    let r = spec_record_address(addresses, address);
    if !addresses.contains(address) {
        assert(r[0] == address);
    }
}

/// A list of at most ten addresses stays at most ten long.
pub proof fn lemma_record_bounded(addresses: Seq<Seq<char>>, address: Seq<char>)
    requires
        addresses.len() <= MAX_HISTORY_ADDRESSES,
    ensures
        spec_record_address(addresses, address).len() <= MAX_HISTORY_ADDRESSES,
{
}

/// A new address comes first, followed by the earlier list in its order;
/// a known address leaves the list unchanged.
pub proof fn lemma_record_order(addresses: Seq<Seq<char>>, address: Seq<char>)
    ensures
        addresses.contains(address) ==> spec_record_address(addresses, address) == addresses,
        !addresses.contains(address) ==> {
            let r = spec_record_address(addresses, address);
            &&& r[0] == address
            &&& r.len() == if addresses.len() < MAX_HISTORY_ADDRESSES {
                addresses.len() + 1
            } else {
                addresses.len()
            }
            &&& forall|i: int| 0 < i < r.len() ==> r[i] == addresses[i - 1]
        },
{
}

/// An address listed earlier stays listed after the next connection, unless
/// it was the last entry of a full list.
pub proof fn lemma_record_keeps_earlier(addresses: Seq<Seq<char>>, address: Seq<char>, i: int)
    requires
        0 <= i < addresses.len(),
        i + 1 < MAX_HISTORY_ADDRESSES,
    ensures
        spec_record_address(addresses, address).contains(addresses[i]),
{
    let r = spec_record_address(addresses, address);
    if addresses.contains(address) {
        assert(r[i] == addresses[i]);
    } else {
        assert(r[i + 1] == addresses[i]);
    }
}

/// A list without repeated addresses stays without them.
pub proof fn lemma_record_no_duplicates(addresses: Seq<Seq<char>>, address: Seq<char>)
    requires
        no_duplicates(addresses),
    ensures
        no_duplicates(spec_record_address(addresses, address)),
{
    let r = spec_record_address(addresses, address);
    if !addresses.contains(address) {
        assert forall|i: int, j: int|
            0 <= i < r.len() && 0 <= j < r.len() && i != j implies r[i] != r[j] by {
            if i == 0 {
                assert(addresses[j - 1] != address);
            } else if j == 0 {
                assert(addresses[i - 1] != address);
            } else {
                assert(r[i] == addresses[i - 1]);
                assert(r[j] == addresses[j - 1]);
            }
        }
    }
}

/// Connecting to the same server twice lists it as connecting once does.
pub proof fn lemma_record_twice(addresses: Seq<Seq<char>>, address: Seq<char>)
    ensures
        spec_record_address(spec_record_address(addresses, address), address)
            == spec_record_address(addresses, address),
{
    lemma_record_lists_address(addresses, address);
}

} // verus!
