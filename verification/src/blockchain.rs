//! The closed sets of networks, bundled resources and dependency groups.

use vstd::prelude::*;

use crate::error::RegistryError;
use crate::text::str_eq;

verus! {

#[derive(Debug, Clone, Copy, PartialEq, Eq, Hash, Structural)]
pub enum Network {
    Mainnet,
    Testnet,
    Staging,
    Develop,
}

#[derive(Debug, Clone, Copy, PartialEq, Eq, Hash, Structural)]
pub enum Bundled {
    Secp256k1Blake160,
    Secp256k1Blake160MultiSig,
    Secp256k1Data,
    Dao,
}

#[derive(Debug, Clone, Copy, PartialEq, Eq, Hash, Structural)]
pub enum DepGroupId {
    Secp256k1Blake160,
    Secp256k1Blake160MultiSig,
}

impl Network {
    /// The network that a lower-case name stands for, if any.
    pub open spec fn spec_from_str(s: Seq<char>) -> Option<Network> {
        if s == "mainnet"@ {
            Some(Network::Mainnet)
        } else if s == "testnet"@ {
            Some(Network::Testnet)
        } else if s == "staging"@ {
            Some(Network::Staging)
        } else if s == "develop"@ {
            Some(Network::Develop)
        } else {
            None
        }
    }

    /// The name under which the network is shown.
    pub open spec fn spec_display(self) -> Seq<char> {
        match self {
            Network::Mainnet => "Mainnet"@,
            Network::Testnet => "Testnet"@,
            Network::Staging => "Staging"@,
            Network::Develop => "Develop"@,
        }
    }

    /// The name of the chain specification of the network.
    pub open spec fn spec_chain_spec_name(self) -> Seq<char> {
        match self {
            Network::Mainnet => "ckb"@,
            Network::Testnet => "ckb_testnet"@,
            Network::Staging => "ckb_staging"@,
            Network::Develop => "ckb_dev"@,
        }
    }

    /// The name of the chain specification of the network.
    pub fn chain_spec_name(self) -> (name: &'static str)
        ensures
            name@ == self.spec_chain_spec_name(),
    {
        match self {
            Network::Mainnet => "ckb",
            Network::Testnet => "ckb_testnet",
            Network::Staging => "ckb_staging",
            Network::Develop => "ckb_dev",
        }
    }

    /// The network with the given code, or the last one for a larger code.
    pub fn nth(code: u8) -> (network: Network)
        ensures
            network.spec_code() == if code < 4 {
                code
            } else {
                3u8
            },
    {
        if code == 0 {
            Network::Mainnet
        } else if code == 1 {
            Network::Testnet
        } else if code == 2 {
            Network::Staging
        } else {
            Network::Develop
        }
    }

    /// A small number that stands for the network as a key.
    pub open spec fn spec_code(self) -> u8 {
        match self {
            Network::Mainnet => 0u8,
            Network::Testnet => 1u8,
            Network::Staging => 2u8,
            Network::Develop => 3u8,
        }
    }

    pub fn code(self) -> (code: u8)
        ensures
            code == self.spec_code(),
    {
        match self {
            Network::Mainnet => 0u8,
            Network::Testnet => 1u8,
            Network::Staging => 2u8,
            Network::Develop => 3u8,
        }
    }

    pub fn to_string(&self) -> (text: String)
        ensures
            text@ == self.spec_display(),
    {
        let s: &str = match *self {
            Network::Mainnet => "Mainnet",
            Network::Testnet => "Testnet",
            Network::Staging => "Staging",
            Network::Develop => "Develop",
        };
        s.to_owned()
    }

    pub fn from_str(s: &str) -> (r: Result<Network, RegistryError>)
        ensures
            match Network::spec_from_str(s@) {
                Some(network) => r == Ok::<Network, RegistryError>(network),
                None => r matches Err(RegistryError::Unknown(kind, value)) && kind@ == "network"@
                    && value@ == s@,
            },
    {
        if str_eq(s, "mainnet") {
            Ok(Network::Mainnet)
        } else if str_eq(s, "testnet") {
            Ok(Network::Testnet)
        } else if str_eq(s, "staging") {
            Ok(Network::Staging)
        } else if str_eq(s, "develop") {
            Ok(Network::Develop)
        } else {
            Err(RegistryError::Unknown("network", s.to_owned()))
        }
    }

    pub fn try_from(s: &str) -> (r: Result<Network, RegistryError>)
        ensures
            match Network::spec_from_str(s@) {
                Some(network) => r == Ok::<Network, RegistryError>(network),
                None => r matches Err(RegistryError::Unknown(kind, value)) && kind@ == "network"@
                    && value@ == s@,
            },
    {
        Network::from_str(s)
    }
}

impl Bundled {
    /// The resource that a path identifier stands for, if any.
    pub open spec fn spec_from_str(s: Seq<char>) -> Option<Bundled> {
        if s == "Bundled(specs/cells/secp256k1_blake160_sighash_all)"@ {
            Some(Bundled::Secp256k1Blake160)
        } else if s == "Bundled(specs/cells/secp256k1_blake160_multisig_all)"@ {
            Some(Bundled::Secp256k1Blake160MultiSig)
        } else if s == "Bundled(specs/cells/secp256k1_data)"@ {
            Some(Bundled::Secp256k1Data)
        } else if s == "Bundled(specs/cells/dao)"@ {
            Some(Bundled::Dao)
        } else {
            None
        }
    }

    /// The path identifier of the resource.
    pub open spec fn spec_path(self) -> Seq<char> {
        match self {
            Bundled::Secp256k1Blake160 => "Bundled(specs/cells/secp256k1_blake160_sighash_all)"@,
            Bundled::Secp256k1Blake160MultiSig =>
                "Bundled(specs/cells/secp256k1_blake160_multisig_all)"@,
            Bundled::Secp256k1Data => "Bundled(specs/cells/secp256k1_data)"@,
            Bundled::Dao => "Bundled(specs/cells/dao)"@,
        }
    }

    /// The path identifier of the resource.
    pub fn path(self) -> (path: &'static str)
        ensures
            path@ == self.spec_path(),
    {
        match self {
            Bundled::Secp256k1Blake160 => "Bundled(specs/cells/secp256k1_blake160_sighash_all)",
            Bundled::Secp256k1Blake160MultiSig =>
                "Bundled(specs/cells/secp256k1_blake160_multisig_all)",
            Bundled::Secp256k1Data => "Bundled(specs/cells/secp256k1_data)",
            Bundled::Dao => "Bundled(specs/cells/dao)",
        }
    }

    /// The resource with the given code, or the last one for a larger
    /// code.
    pub fn nth(code: u8) -> (bundled: Bundled)
        ensures
            bundled.spec_code() == if code < 4 {
                code
            } else {
                3u8
            },
    {
        if code == 0 {
            Bundled::Secp256k1Blake160
        } else if code == 1 {
            Bundled::Secp256k1Blake160MultiSig
        } else if code == 2 {
            Bundled::Secp256k1Data
        } else {
            Bundled::Dao
        }
    }

    /// The name of the variant, as `Debug` prints it.
    pub open spec fn spec_debug(self) -> Seq<char> {
        match self {
            Bundled::Secp256k1Blake160 => "Secp256k1Blake160"@,
            Bundled::Secp256k1Blake160MultiSig => "Secp256k1Blake160MultiSig"@,
            Bundled::Secp256k1Data => "Secp256k1Data"@,
            Bundled::Dao => "Dao"@,
        }
    }

    /// The names of `cells`, each but the first after a comma and a space.
    pub open spec fn spec_debug_items(cells: Seq<Bundled>) -> Seq<char>
        decreases cells.len(),
    {
        if cells.len() == 0 {
            Seq::<char>::empty()
        } else if cells.len() == 1 {
            cells[0].spec_debug()
        } else {
            Bundled::spec_debug_items(cells.drop_last()) + ", "@ + cells.last().spec_debug()
        }
    }

    /// A list of resources as `Debug` prints a slice of them.
    pub open spec fn spec_debug_list(cells: Seq<Bundled>) -> Seq<char> {
        "["@ + Bundled::spec_debug_items(cells) + "]"@
    }

    /// A small number that stands for the resource as a key.
    pub open spec fn spec_code(self) -> u8 {
        match self {
            Bundled::Secp256k1Blake160 => 0u8,
            Bundled::Secp256k1Blake160MultiSig => 1u8,
            Bundled::Secp256k1Data => 2u8,
            Bundled::Dao => 3u8,
        }
    }

    pub fn code(self) -> (code: u8)
        ensures
            code == self.spec_code(),
    {
        match self {
            Bundled::Secp256k1Blake160 => 0u8,
            Bundled::Secp256k1Blake160MultiSig => 1u8,
            Bundled::Secp256k1Data => 2u8,
            Bundled::Dao => 3u8,
        }
    }

    /// The variant's name.
    pub fn debug_name(self) -> (name: &'static str)
        ensures
            name@ == self.spec_debug(),
    {
        match self {
            Bundled::Secp256k1Blake160 => "Secp256k1Blake160",
            Bundled::Secp256k1Blake160MultiSig => "Secp256k1Blake160MultiSig",
            Bundled::Secp256k1Data => "Secp256k1Data",
            Bundled::Dao => "Dao",
        }
    }

    /// Prints a list of resources: the names in square brackets, with a
    /// comma and a space between two of them.
    pub fn debug_list(cells: &[Bundled]) -> (text: String)
        ensures
            text@ == Bundled::spec_debug_list(cells@),
    {
        let mut text: String = "[".to_owned();
        let mut i: usize = 0;
        while i < cells.len()
            invariant
                i <= cells.len(),
                text@ == "["@ + Bundled::spec_debug_items(cells@.take(i as int)),
            decreases cells.len() - i,
        {
            proof {
                let next = cells@.take(i + 1);
                assert(next.drop_last() == cells@.take(i as int));
                assert(next.last() == cells@[i as int]);
            }
            if i > 0 {
                text.append(", ");
            }
            text.append(cells[i].debug_name());
            i = i + 1;
        }
        proof {
            assert(cells@.take(i as int) == cells@);
        }
        text.append("]");
        text
    }

    pub fn from_str(s: &str) -> (r: Result<Bundled, RegistryError>)
        ensures
            match Bundled::spec_from_str(s@) {
                Some(bundled) => r == Ok::<Bundled, RegistryError>(bundled),
                None => r matches Err(RegistryError::Unknown(kind, value)) && kind@ == "bundled"@
                    && value@ == s@,
            },
    {
        if str_eq(s, "Bundled(specs/cells/secp256k1_blake160_sighash_all)") {
            Ok(Bundled::Secp256k1Blake160)
        } else if str_eq(s, "Bundled(specs/cells/secp256k1_blake160_multisig_all)") {
            Ok(Bundled::Secp256k1Blake160MultiSig)
        } else if str_eq(s, "Bundled(specs/cells/secp256k1_data)") {
            Ok(Bundled::Secp256k1Data)
        } else if str_eq(s, "Bundled(specs/cells/dao)") {
            Ok(Bundled::Dao)
        } else {
            Err(RegistryError::Unknown("bundled", s.to_owned()))
        }
    }

    pub fn try_from(s: &str) -> (r: Result<Bundled, RegistryError>)
        ensures
            match Bundled::spec_from_str(s@) {
                Some(bundled) => r == Ok::<Bundled, RegistryError>(bundled),
                None => r matches Err(RegistryError::Unknown(kind, value)) && kind@ == "bundled"@
                    && value@ == s@,
            },
    {
        Bundled::from_str(s)
    }
}

impl DepGroupId {
    /// The group that an ordered list of resources forms, if any.
    pub open spec fn spec_from_cells(cells: Seq<Bundled>) -> Option<DepGroupId> {
        if cells.len() == 2 && cells[0] == Bundled::Secp256k1Data && cells[1]
            == Bundled::Secp256k1Blake160 {
            Some(DepGroupId::Secp256k1Blake160)
        } else if cells.len() == 2 && cells[0] == Bundled::Secp256k1Data && cells[1]
            == Bundled::Secp256k1Blake160MultiSig {
            Some(DepGroupId::Secp256k1Blake160MultiSig)
        } else {
            None
        }
    }

    /// The two resources of the group, in their order.
    pub open spec fn spec_cells(self) -> Seq<Bundled> {
        match self {
            DepGroupId::Secp256k1Blake160 => seq![
                Bundled::Secp256k1Data,
                Bundled::Secp256k1Blake160,
            ],
            DepGroupId::Secp256k1Blake160MultiSig => seq![
                Bundled::Secp256k1Data,
                Bundled::Secp256k1Blake160MultiSig,
            ],
        }
    }

    /// The name of the variant, as `Debug` prints it.
    pub open spec fn spec_debug(self) -> Seq<char> {
        match self {
            DepGroupId::Secp256k1Blake160 => "Secp256k1Blake160"@,
            DepGroupId::Secp256k1Blake160MultiSig => "Secp256k1Blake160MultiSig"@,
        }
    }

    /// The variant's name.
    pub fn debug_name(self) -> (name: &'static str)
        ensures
            name@ == self.spec_debug(),
    {
        match self {
            DepGroupId::Secp256k1Blake160 => "Secp256k1Blake160",
            DepGroupId::Secp256k1Blake160MultiSig => "Secp256k1Blake160MultiSig",
        }
    }

    /// A small number that stands for the group as a key.
    pub open spec fn spec_code(self) -> u8 {
        match self {
            DepGroupId::Secp256k1Blake160 => 0u8,
            DepGroupId::Secp256k1Blake160MultiSig => 1u8,
        }
    }

    pub fn code(self) -> (code: u8)
        ensures
            code == self.spec_code(),
    {
        match self {
            DepGroupId::Secp256k1Blake160 => 0u8,
            DepGroupId::Secp256k1Blake160MultiSig => 1u8,
        }
    }

    pub fn try_from(value: &[Bundled]) -> (r: Result<DepGroupId, RegistryError>)
        ensures
            match DepGroupId::spec_from_cells(value@) {
                Some(group) => r == Ok::<DepGroupId, RegistryError>(group),
                None => r matches Err(RegistryError::Unknown(kind, text)) && kind@
                    == "dep-group"@ && text@ == Bundled::spec_debug_list(value@),
            },
    {
        if value.len() == 2 {
            match (value[0], value[1]) {
                (Bundled::Secp256k1Data, Bundled::Secp256k1Blake160) => Ok(
                    DepGroupId::Secp256k1Blake160,
                ),
                (Bundled::Secp256k1Data, Bundled::Secp256k1Blake160MultiSig) => Ok(
                    DepGroupId::Secp256k1Blake160MultiSig,
                ),
                _ => Err(RegistryError::Unknown("dep-group", Bundled::debug_list(value))),
            }
        } else {
            Err(RegistryError::Unknown("dep-group", Bundled::debug_list(value)))
        }
    }
}

/// The path identifier of a resource names that resource.
pub proof fn lemma_path_names_its_resource(bundled: Bundled)
    ensures
        Bundled::spec_from_str(bundled.spec_path()) == Some(bundled),
{
    reveal_strlit("Bundled(specs/cells/secp256k1_blake160_sighash_all)");
    reveal_strlit("Bundled(specs/cells/secp256k1_blake160_multisig_all)");
    reveal_strlit("Bundled(specs/cells/secp256k1_data)");
    reveal_strlit("Bundled(specs/cells/dao)");
    assert("Bundled(specs/cells/secp256k1_blake160_sighash_all)"@.len() == 51);
    assert("Bundled(specs/cells/secp256k1_blake160_multisig_all)"@.len() == 52);
    assert("Bundled(specs/cells/secp256k1_data)"@.len() == 35);
    assert("Bundled(specs/cells/dao)"@.len() == 24);
}

/// The lower-case name of a network names that network.
pub proof fn lemma_lower_case_name_names_its_network(network: Network)
    ensures
        Network::spec_from_str(
            match network {
                Network::Mainnet => "mainnet"@,
                Network::Testnet => "testnet"@,
                Network::Staging => "staging"@,
                Network::Develop => "develop"@,
            },
        ) == Some(network),
{
    reveal_strlit("mainnet");
    reveal_strlit("testnet");
    reveal_strlit("staging");
    reveal_strlit("develop");
    assert("mainnet"@[0] == 'm');
    assert("testnet"@[0] == 't');
    assert("staging"@[0] == 's');
    assert("develop"@[0] == 'd');
}

/// A group's two resources, taken as a list, give the group back: each
/// group stands for one ordered pair, the same on every load.
pub proof fn lemma_group_cells_resolve(group: DepGroupId)
    ensures
        group.spec_cells().len() == 2,
        DepGroupId::spec_from_cells(group.spec_cells()) == Some(group),
{
}

/// Only a group's own pair of resources resolves to it.
pub proof fn lemma_group_cells_unique(cells: Seq<Bundled>, group: DepGroupId)
    requires
        DepGroupId::spec_from_cells(cells) == Some(group),
    ensures
        cells == group.spec_cells(),
{
    assert(cells =~= group.spec_cells());
}

} // verus!
