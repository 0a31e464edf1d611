//! Identification of the distinct protocol instances (networks) and the
//! fixed lookup tables tied to them: each network has a four-byte magic
//! sequence, a genesis chain hash, a canonical lowercase name and a
//! distinct chain-selection argument name. Every forward mapping has an
//! exact inverse, and unknown input to an inverse is a caller-visible
//! error, never a default variant.

use vstd::prelude::*;
use vstd::string::StrSliceExecFns;
use vstd::string::StringExecFns;

verus! {

/// What kind of network we are on.
#[derive(Debug, Copy, Clone, PartialEq, Eq, PartialOrd, Ord, Hash, Structural)]
pub enum NetworkKind {
    /// The main production network.
    Main,
    /// Some kind of test network.
    Test,
}

impl NetworkKind {
    /// Returns true if this is the real production network.
    pub fn is_mainnet(&self) -> (r: bool)
        ensures
            r == (*self == NetworkKind::Main),
    {
        *self == NetworkKind::Main
    }
}

/// The network to act on.
#[derive(Copy, Clone, Debug, PartialEq, Eq, PartialOrd, Ord, Hash, Structural)]
#[non_exhaustive]
pub enum Network {
    /// The main production network.
    Bitcoin,
    /// The third test network.
    Testnet,
    /// The fourth test network.
    Testnet4,
    /// The signet network.
    Signet,
    /// The local regression-test network.
    Regtest,
    /// The cpunet development network.
    CPUNet,
}

/// The kind a network belongs to: only the production network is main.
pub open spec fn spec_kind_of(n: Network) -> NetworkKind {
    match n {
        Network::Bitcoin => NetworkKind::Main,
        _ => NetworkKind::Test,
    }
}

impl core::convert::From<Network> for NetworkKind {
    fn from(n: Network) -> (r: NetworkKind) {
        match n {
            Network::Bitcoin => NetworkKind::Main,
            Network::Testnet => NetworkKind::Test,
            Network::Testnet4 => NetworkKind::Test,
            Network::Signet => NetworkKind::Test,
            Network::Regtest => NetworkKind::Test,
            Network::CPUNet => NetworkKind::Test,
        }
    }
}

impl vstd::std_specs::convert::FromSpecImpl<Network> for NetworkKind {
    open spec fn obeys_from_spec() -> bool {
        true
    }

    open spec fn from_spec(n: Network) -> NetworkKind {
        spec_kind_of(n)
    }
}

/// The canonical lowercase name of a network.
pub open spec fn spec_display_str(n: Network) -> Seq<char> {
    match n {
        Network::Bitcoin => "bitcoin"@,
        Network::Testnet => "testnet"@,
        Network::Testnet4 => "testnet4"@,
        Network::Signet => "signet"@,
        Network::Regtest => "regtest"@,
        Network::CPUNet => "cpunet"@,
    }
}

/// The network with a given canonical name, if any.
pub open spec fn spec_network_from_display(s: Seq<char>) -> Option<Network> {
    if s == spec_display_str(Network::Bitcoin) {
        Some(Network::Bitcoin)
    } else if s == spec_display_str(Network::Testnet) {
        Some(Network::Testnet)
    } else if s == spec_display_str(Network::Testnet4) {
        Some(Network::Testnet4)
    } else if s == spec_display_str(Network::Signet) {
        Some(Network::Signet)
    } else if s == spec_display_str(Network::Regtest) {
        Some(Network::Regtest)
    } else if s == spec_display_str(Network::CPUNet) {
        Some(Network::CPUNet)
    } else {
        None
    }
}

/// The chain-selection argument name of a network.
pub open spec fn spec_core_arg(n: Network) -> Seq<char> {
    match n {
        Network::Bitcoin => "main"@,
        Network::Testnet => "test"@,
        Network::Testnet4 => "testnet4"@,
        Network::Signet => "signet"@,
        Network::Regtest => "regtest"@,
        Network::CPUNet => "cpunet"@,
    }
}

/// The network with a given chain-selection argument name, if any.
pub open spec fn spec_network_from_core_arg(s: Seq<char>) -> Option<Network> {
    if s == spec_core_arg(Network::Bitcoin) {
        Some(Network::Bitcoin)
    } else if s == spec_core_arg(Network::Testnet) {
        Some(Network::Testnet)
    } else if s == spec_core_arg(Network::Testnet4) {
        Some(Network::Testnet4)
    } else if s == spec_core_arg(Network::Signet) {
        Some(Network::Signet)
    } else if s == spec_core_arg(Network::Regtest) {
        Some(Network::Regtest)
    } else if s == spec_core_arg(Network::CPUNet) {
        Some(Network::CPUNet)
    } else {
        None
    }
}

/// Compares two strings by their character sequences.
fn str_eq(a: &str, b: &str) -> (r: bool)
    ensures
        r <==> a@ == b@,
{
    let alen = a.unicode_len();
    let blen = b.unicode_len();
    if alen != blen {
        return false;
    }
    let mut i: usize = 0;
    while i < alen
        invariant
            alen == a@.len(),
            alen == b@.len(),
            i <= alen,
            forall|j: int| 0 <= j < i ==> a@[j] == b@[j],
        decreases alen - i,
    {
        if a.get_char(i) != b.get_char(i) {
            return false;
        }
        i += 1;
    }
    proof {
        assert(a@ =~= b@);
    }
    true
}

/// An error in parsing a network name or argument string.
#[derive(Debug, Clone)]
#[non_exhaustive]
pub struct ParseNetworkError {
    input: String,
}

impl ParseNetworkError {
    /// The rejected input, as seen by specifications.
    pub closed spec fn spec_input(self) -> Seq<char> {
        self.input@
    }

    /// The rejected input.
    pub fn input(&self) -> (r: &String)
        ensures
            r@ == self.spec_input(),
    {
        &self.input
    }
}

impl PartialEq for ParseNetworkError {
    fn eq(&self, other: &ParseNetworkError) -> (r: bool) {
        self.input == other.input
    }
}

impl vstd::std_specs::cmp::PartialEqSpecImpl for ParseNetworkError {
    open spec fn obeys_eq_spec() -> bool {
        true
    }

    open spec fn eq_spec(&self, other: &ParseNetworkError) -> bool {
        self.spec_input() == other.spec_input()
    }
}

impl Eq for ParseNetworkError {

}

impl Network {
    /// Returns the canonical lowercase name of this network.
    pub fn as_display_str(self) -> (r: &'static str)
        ensures
            r@ == spec_display_str(self),
    {
        match self {
            Network::Bitcoin => "bitcoin",
            Network::Testnet => "testnet",
            Network::Testnet4 => "testnet4",
            Network::Signet => "signet",
            Network::Regtest => "regtest",
            Network::CPUNet => "cpunet",
        }
    }

    /// Converts this network to its chain-selection argument name.
    pub fn to_core_arg(self) -> (r: &'static str)
        ensures
            r@ == spec_core_arg(self),
    {
        match self {
            Network::Bitcoin => "main",
            Network::Testnet => "test",
            Network::Testnet4 => "testnet4",
            Network::Signet => "signet",
            Network::Regtest => "regtest",
            Network::CPUNet => "cpunet",
        }
    }

    /// Converts a chain-selection argument name to its network; an unknown
    /// name is an error carrying the rejected input.
    pub fn from_core_arg(core_arg: &str) -> (r: Result<Network, ParseNetworkError>)
        ensures
            (r matches Ok(n) ==> spec_network_from_core_arg(core_arg@) == Some(n)),
            (r matches Err(e) ==> spec_network_from_core_arg(core_arg@) is None && e.spec_input()
                == core_arg@),
    {
        if str_eq(core_arg, "main") {
            Ok(Network::Bitcoin)
        } else if str_eq(core_arg, "test") {
            Ok(Network::Testnet)
        } else if str_eq(core_arg, "testnet4") {
            Ok(Network::Testnet4)
        } else if str_eq(core_arg, "signet") {
            Ok(Network::Signet)
        } else if str_eq(core_arg, "regtest") {
            Ok(Network::Regtest)
        } else if str_eq(core_arg, "cpunet") {
            Ok(Network::CPUNet)
        } else {
            Err(ParseNetworkError { input: <String as StringExecFns>::from_str(core_arg) })
        }
    }
}

impl core::str::FromStr for Network {
    type Err = ParseNetworkError;

    /// Parses the canonical lowercase name of a network; an unknown name
    /// is an error carrying the rejected input.
    fn from_str(s: &str) -> (r: Result<Network, ParseNetworkError>)
        ensures
            (r matches Ok(n) ==> spec_network_from_display(s@) == Some(n)),
            (r matches Err(e) ==> spec_network_from_display(s@) is None && e.spec_input() == s@),
    {
        if str_eq(s, "bitcoin") {
            Ok(Network::Bitcoin)
        } else if str_eq(s, "testnet") {
            Ok(Network::Testnet)
        } else if str_eq(s, "testnet4") {
            Ok(Network::Testnet4)
        } else if str_eq(s, "signet") {
            Ok(Network::Signet)
        } else if str_eq(s, "regtest") {
            Ok(Network::Regtest)
        } else if str_eq(s, "cpunet") {
            Ok(Network::CPUNet)
        } else {
            Err(ParseNetworkError { input: <String as StringExecFns>::from_str(s) })
        }
    }
}

/// The four-byte message-start sequence that identifies a network's wire
/// messages; serialized byte for byte, least significant first.
#[derive(Copy, Clone, Debug, Hash)]
pub struct Magic {
    bytes: [u8; 4],
}

impl Magic {
    /// The four bytes, as seen by specifications.
    pub closed spec fn spec_bytes(self) -> Seq<u8> {
        self.bytes@
    }

    /// Builds a magic from four bytes.
    pub fn from_bytes(bytes: [u8; 4]) -> (r: Magic)
        ensures
            r.spec_bytes() == bytes@,
    {
        Magic { bytes }
    }

    /// Returns the four bytes of this magic.
    pub fn to_bytes(self) -> (r: [u8; 4])
        ensures
            r@ == self.spec_bytes(),
    {
        self.bytes
    }
}

/// The magic bytes of a network.
pub open spec fn spec_magic(n: Network) -> Seq<u8> {
    match n {
        Network::Bitcoin => seq![0xF9u8, 0xBEu8, 0xB4u8, 0xD9u8],
        Network::Testnet => seq![0x0Bu8, 0x11u8, 0x09u8, 0x07u8],
        Network::Testnet4 => seq![0x1Cu8, 0x16u8, 0x3Fu8, 0x28u8],
        Network::Signet => seq![0x0Au8, 0x03u8, 0xCFu8, 0x40u8],
        Network::Regtest => seq![0xFAu8, 0xBFu8, 0xB5u8, 0xDAu8],
        Network::CPUNet => seq![0x63u8, 0x70u8, 0x75u8, 0x6Eu8],
    }
}

/// The network with the given magic bytes, if any.
pub open spec fn spec_network_from_magic(b: Seq<u8>) -> Option<Network> {
    if b == spec_magic(Network::Bitcoin) {
        Some(Network::Bitcoin)
    } else if b == spec_magic(Network::Testnet) {
        Some(Network::Testnet)
    } else if b == spec_magic(Network::Testnet4) {
        Some(Network::Testnet4)
    } else if b == spec_magic(Network::Signet) {
        Some(Network::Signet)
    } else if b == spec_magic(Network::Regtest) {
        Some(Network::Regtest)
    } else if b == spec_magic(Network::CPUNet) {
        Some(Network::CPUNet)
    } else {
        None
    }
}

impl PartialEq for Magic {
    /// Two magics are equal exactly when their four bytes are.
    fn eq(&self, other: &Magic) -> (r: bool) {
        let x = self.to_bytes();
        let y = other.to_bytes();
        if x[0] == y[0] && x[1] == y[1] && x[2] == y[2] && x[3] == y[3] {
            proof {
                assert(x@ =~= y@);
            }
            true
        } else {
            false
        }
    }
}

impl vstd::std_specs::cmp::PartialEqSpecImpl for Magic {
    open spec fn obeys_eq_spec() -> bool {
        true
    }

    open spec fn eq_spec(&self, other: &Magic) -> bool {
        self.spec_bytes() == other.spec_bytes()
    }
}

impl Eq for Magic {

}

/// A genesis block hash, identifying one network's initial state.
#[derive(Copy, Clone, Debug, Hash)]
pub struct ChainHash {
    bytes: [u8; 32],
}

impl ChainHash {
    /// The 32 bytes, as seen by specifications.
    pub closed spec fn spec_bytes(self) -> Seq<u8> {
        self.bytes@
    }

    /// Builds a chain hash from 32 bytes.
    pub fn from_bytes(bytes: [u8; 32]) -> (r: ChainHash)
        ensures
            r.spec_bytes() == bytes@,
    {
        ChainHash { bytes }
    }

    /// Returns the 32 bytes of this chain hash.
    pub fn to_bytes(self) -> (r: [u8; 32])
        ensures
            r@ == self.spec_bytes(),
    {
        self.bytes
    }
}

/// The genesis chain hash of a network, in internal byte order.
pub open spec fn spec_chain_hash(n: Network) -> Seq<u8> {
    match n {
        Network::Bitcoin => seq![
            0x6fu8, 0xe2u8, 0x8cu8, 0x0au8, 0xb6u8, 0xf1u8, 0xb3u8, 0x72u8,
            0xc1u8, 0xa6u8, 0xa2u8, 0x46u8, 0xaeu8, 0x63u8, 0xf7u8, 0x4fu8,
            0x93u8, 0x1eu8, 0x83u8, 0x65u8, 0xe1u8, 0x5au8, 0x08u8, 0x9cu8,
            0x68u8, 0xd6u8, 0x19u8, 0x00u8, 0x00u8, 0x00u8, 0x00u8, 0x00u8,
        ],
        Network::Testnet => seq![
            0x43u8, 0x49u8, 0x7fu8, 0xd7u8, 0xf8u8, 0x26u8, 0x95u8, 0x71u8,
            0x08u8, 0xf4u8, 0xa3u8, 0x0fu8, 0xd9u8, 0xceu8, 0xc3u8, 0xaeu8,
            0xbau8, 0x79u8, 0x97u8, 0x20u8, 0x84u8, 0xe9u8, 0x0eu8, 0xadu8,
            0x01u8, 0xeau8, 0x33u8, 0x09u8, 0x00u8, 0x00u8, 0x00u8, 0x00u8,
        ],
        Network::Testnet4 => seq![
            0x43u8, 0xf0u8, 0x8bu8, 0xdau8, 0xb0u8, 0x50u8, 0xe3u8, 0x5bu8,
            0x56u8, 0x7cu8, 0x86u8, 0x4bu8, 0x91u8, 0xf4u8, 0x7fu8, 0x50u8,
            0xaeu8, 0x72u8, 0x5au8, 0xe2u8, 0xdeu8, 0x53u8, 0xbcu8, 0xfbu8,
            0xbau8, 0xf2u8, 0x84u8, 0xdau8, 0x00u8, 0x00u8, 0x00u8, 0x00u8,
        ],
        Network::Signet => seq![
            0xf6u8, 0x1eu8, 0xeeu8, 0x3bu8, 0x63u8, 0xa3u8, 0x80u8, 0xa4u8,
            0x77u8, 0xa0u8, 0x63u8, 0xafu8, 0x32u8, 0xb2u8, 0xbbu8, 0xc9u8,
            0x7cu8, 0x9fu8, 0xf9u8, 0xf0u8, 0x1fu8, 0x2cu8, 0x42u8, 0x25u8,
            0xe9u8, 0x73u8, 0x98u8, 0x81u8, 0x08u8, 0x00u8, 0x00u8, 0x00u8,
        ],
        Network::Regtest => seq![
            0x06u8, 0x22u8, 0x6eu8, 0x46u8, 0x11u8, 0x1au8, 0x0bu8, 0x59u8,
            0xcau8, 0xafu8, 0x12u8, 0x60u8, 0x43u8, 0xebu8, 0x5bu8, 0xbfu8,
            0x28u8, 0xc3u8, 0x4fu8, 0x3au8, 0x5eu8, 0x33u8, 0x2au8, 0x1fu8,
            0xc7u8, 0xb2u8, 0xb7u8, 0x3cu8, 0xf1u8, 0x88u8, 0x91u8, 0x0fu8,
        ],
        Network::CPUNet => seq![
            0x63u8, 0x70u8, 0x75u8, 0x6eu8, 0x65u8, 0x74u8, 0x00u8, 0x00u8,
            0x00u8, 0x00u8, 0x00u8, 0x00u8, 0x00u8, 0x00u8, 0x00u8, 0x00u8,
            0x00u8, 0x00u8, 0x00u8, 0x00u8, 0x00u8, 0x00u8, 0x00u8, 0x00u8,
            0x00u8, 0x00u8, 0x00u8, 0x00u8, 0x00u8, 0x00u8, 0x00u8, 0x00u8,
        ],
    }
}

/// The network with the given genesis chain hash, if any.
pub open spec fn spec_network_from_chain_hash(b: Seq<u8>) -> Option<Network> {
    if b == spec_chain_hash(Network::Bitcoin) {
        Some(Network::Bitcoin)
    } else if b == spec_chain_hash(Network::Testnet) {
        Some(Network::Testnet)
    } else if b == spec_chain_hash(Network::Testnet4) {
        Some(Network::Testnet4)
    } else if b == spec_chain_hash(Network::Signet) {
        Some(Network::Signet)
    } else if b == spec_chain_hash(Network::Regtest) {
        Some(Network::Regtest)
    } else if b == spec_chain_hash(Network::CPUNet) {
        Some(Network::CPUNet)
    } else {
        None
    }
}

impl PartialEq for ChainHash {
    /// Two chain hashes are equal exactly when their 32 bytes are.
    fn eq(&self, other: &ChainHash) -> (r: bool) {
        let x = self.to_bytes();
        let y = other.to_bytes();
        let mut i: usize = 0;
        while i < 32
            invariant
                i <= 32,
                x@ == self.spec_bytes(),
                y@ == other.spec_bytes(),
                x@.len() == 32,
                y@.len() == 32,
                forall|j: int| 0 <= j < i ==> x@[j] == y@[j],
            decreases 32 - i,
        {
            if x[i] != y[i] {
                return false;
            }
            i += 1;
        }
        proof {
            assert(x@ =~= y@);
        }
        true
    }
}

impl vstd::std_specs::cmp::PartialEqSpecImpl for ChainHash {
    open spec fn obeys_eq_spec() -> bool {
        true
    }

    open spec fn eq_spec(&self, other: &ChainHash) -> bool {
        self.spec_bytes() == other.spec_bytes()
    }
}

impl Eq for ChainHash {

}

/// An error in recognising a network from its genesis chain hash.
#[derive(Debug, Copy, Clone)]
#[non_exhaustive]
pub struct UnknownChainHashError {
    /// The unrecognised hash.
    pub hash: ChainHash,
}

/// The consensus-parameter set of a network. This layer records only which
/// network a set belongs to; the numeric chain parameters live with the
/// chain logic, outside this abstraction.
#[derive(Copy, Clone, Debug, PartialEq, Eq, Structural)]
pub struct Params {
    /// The network these parameters belong to.
    pub network: Network,
}

impl Network {
    /// Returns the magic bytes of this network.
    pub fn magic(self) -> (r: Magic)
        ensures
            r.spec_bytes() == spec_magic(self),
    {
        let r = match self {
            Network::Bitcoin => Magic::from_bytes([0xF9, 0xBE, 0xB4, 0xD9]),
            Network::Testnet => Magic::from_bytes([0x0B, 0x11, 0x09, 0x07]),
            Network::Testnet4 => Magic::from_bytes([0x1C, 0x16, 0x3F, 0x28]),
            Network::Signet => Magic::from_bytes([0x0A, 0x03, 0xCF, 0x40]),
            Network::Regtest => Magic::from_bytes([0xFA, 0xBF, 0xB5, 0xDA]),
            Network::CPUNet => Magic::from_bytes([0x63, 0x70, 0x75, 0x6E]),
        };
        proof {
            assert(r.spec_bytes() =~= spec_magic(self));
        }
        r
    }

    /// Recognises a network from its magic bytes; unknown bytes give no
    /// network.
    pub fn from_magic(magic: Magic) -> (r: Option<Network>)
        ensures
            r == spec_network_from_magic(magic.spec_bytes()),
    {
        if magic == Network::Bitcoin.magic() {
            Some(Network::Bitcoin)
        } else if magic == Network::Testnet.magic() {
            Some(Network::Testnet)
        } else if magic == Network::Testnet4.magic() {
            Some(Network::Testnet4)
        } else if magic == Network::Signet.magic() {
            Some(Network::Signet)
        } else if magic == Network::Regtest.magic() {
            Some(Network::Regtest)
        } else if magic == Network::CPUNet.magic() {
            Some(Network::CPUNet)
        } else {
            None
        }
    }

    /// Returns the genesis chain hash of this network.
    pub fn chain_hash(self) -> (r: ChainHash)
        ensures
            r.spec_bytes() == spec_chain_hash(self),
    {
        let r = match self {
            Network::Bitcoin => ChainHash::from_bytes([
                0x6f, 0xe2, 0x8c, 0x0a, 0xb6, 0xf1, 0xb3, 0x72, 0xc1, 0xa6, 0xa2, 0x46, 0xae,
                0x63, 0xf7, 0x4f, 0x93, 0x1e, 0x83, 0x65, 0xe1, 0x5a, 0x08, 0x9c, 0x68, 0xd6,
                0x19, 0x00, 0x00, 0x00, 0x00, 0x00,
            ]),
            Network::Testnet => ChainHash::from_bytes([
                0x43, 0x49, 0x7f, 0xd7, 0xf8, 0x26, 0x95, 0x71, 0x08, 0xf4, 0xa3, 0x0f, 0xd9,
                0xce, 0xc3, 0xae, 0xba, 0x79, 0x97, 0x20, 0x84, 0xe9, 0x0e, 0xad, 0x01, 0xea,
                0x33, 0x09, 0x00, 0x00, 0x00, 0x00,
            ]),
            Network::Testnet4 => ChainHash::from_bytes([
                0x43, 0xf0, 0x8b, 0xda, 0xb0, 0x50, 0xe3, 0x5b, 0x56, 0x7c, 0x86, 0x4b, 0x91,
                0xf4, 0x7f, 0x50, 0xae, 0x72, 0x5a, 0xe2, 0xde, 0x53, 0xbc, 0xfb, 0xba, 0xf2,
                0x84, 0xda, 0x00, 0x00, 0x00, 0x00,
            ]),
            Network::Signet => ChainHash::from_bytes([
                0xf6, 0x1e, 0xee, 0x3b, 0x63, 0xa3, 0x80, 0xa4, 0x77, 0xa0, 0x63, 0xaf, 0x32,
                0xb2, 0xbb, 0xc9, 0x7c, 0x9f, 0xf9, 0xf0, 0x1f, 0x2c, 0x42, 0x25, 0xe9, 0x73,
                0x98, 0x81, 0x08, 0x00, 0x00, 0x00,
            ]),
            Network::Regtest => ChainHash::from_bytes([
                0x06, 0x22, 0x6e, 0x46, 0x11, 0x1a, 0x0b, 0x59, 0xca, 0xaf, 0x12, 0x60, 0x43,
                0xeb, 0x5b, 0xbf, 0x28, 0xc3, 0x4f, 0x3a, 0x5e, 0x33, 0x2a, 0x1f, 0xc7, 0xb2,
                0xb7, 0x3c, 0xf1, 0x88, 0x91, 0x0f,
            ]),
            Network::CPUNet => ChainHash::from_bytes([
                0x63, 0x70, 0x75, 0x6e, 0x65, 0x74, 0x00, 0x00, 0x00, 0x00, 0x00, 0x00, 0x00,
                0x00, 0x00, 0x00, 0x00, 0x00, 0x00, 0x00, 0x00, 0x00, 0x00, 0x00, 0x00, 0x00,
                0x00, 0x00, 0x00, 0x00, 0x00, 0x00,
            ]),
        };
        proof {
            assert(r.spec_bytes() =~= spec_chain_hash(self));
        }
        r
    }

    /// Recognises a network from its genesis chain hash; an unknown hash
    /// gives no network.
    pub fn from_chain_hash(chain_hash: ChainHash) -> (r: Option<Network>)
        ensures
            r == spec_network_from_chain_hash(chain_hash.spec_bytes()),
    {
        if chain_hash == Network::Bitcoin.chain_hash() {
            Some(Network::Bitcoin)
        } else if chain_hash == Network::Testnet.chain_hash() {
            Some(Network::Testnet)
        } else if chain_hash == Network::Testnet4.chain_hash() {
            Some(Network::Testnet4)
        } else if chain_hash == Network::Signet.chain_hash() {
            Some(Network::Signet)
        } else if chain_hash == Network::Regtest.chain_hash() {
            Some(Network::Regtest)
        } else if chain_hash == Network::CPUNet.chain_hash() {
            Some(Network::CPUNet)
        } else {
            None
        }
    }

    /// Returns the consensus parameters of this network.
    pub fn params(self) -> (r: Params)
        ensures
            r.network == self,
    {
        Params { network: self }
    }
}

impl core::convert::TryFrom<ChainHash> for Network {
    type Error = UnknownChainHashError;

    /// Recognises a network from its genesis chain hash; an unknown hash
    /// is an error carrying the rejected hash.
    fn try_from(chain_hash: ChainHash) -> (r: Result<Network, UnknownChainHashError>) {
        match Network::from_chain_hash(chain_hash) {
            Some(n) => Ok(n),
            None => Err(UnknownChainHashError { hash: chain_hash }),
        }
    }
}

impl vstd::std_specs::convert::TryFromSpecImpl<ChainHash> for Network {
    open spec fn obeys_try_from_spec() -> bool {
        true
    }

    open spec fn try_from_spec(v: ChainHash) -> Result<Network, UnknownChainHashError> {
        match spec_network_from_chain_hash(v.spec_bytes()) {
            Some(n) => Ok(n),
            None => Err(UnknownChainHashError { hash: v }),
        }
    }
}

/// Each network's magic maps back to its own network.
pub proof fn lemma_magic_round_trip(n: Network)
    ensures
        spec_network_from_magic(spec_magic(n)) == Some(n),
{
    match n {
        Network::Bitcoin => assert(spec_network_from_magic(spec_magic(n)) == Some(n)),
        Network::Testnet => assert(spec_network_from_magic(spec_magic(n)) == Some(n)),
        Network::Testnet4 => assert(spec_network_from_magic(spec_magic(n)) == Some(n)),
        Network::Signet => assert(spec_network_from_magic(spec_magic(n)) == Some(n)),
        Network::Regtest => assert(spec_network_from_magic(spec_magic(n)) == Some(n)),
        Network::CPUNet => assert(spec_network_from_magic(spec_magic(n)) == Some(n)),
    }
}

/// Each network's genesis chain hash maps back to its own network.
pub proof fn lemma_chain_hash_round_trip(n: Network)
    ensures
        spec_network_from_chain_hash(spec_chain_hash(n)) == Some(n),
{
    match n {
        Network::Bitcoin => assert(spec_network_from_chain_hash(spec_chain_hash(n)) == Some(n)),
        Network::Testnet => assert(spec_network_from_chain_hash(spec_chain_hash(n)) == Some(n)),
        Network::Testnet4 => assert(spec_network_from_chain_hash(spec_chain_hash(n)) == Some(n)),
        Network::Signet => assert(spec_network_from_chain_hash(spec_chain_hash(n)) == Some(n)),
        Network::Regtest => assert(spec_network_from_chain_hash(spec_chain_hash(n)) == Some(n)),
        Network::CPUNet => assert(spec_network_from_chain_hash(spec_chain_hash(n)) == Some(n)),
    }
}

/// Each canonical name parses back to its own network.
pub proof fn lemma_display_round_trip(n: Network)
    ensures
        spec_network_from_display(spec_display_str(n)) == Some(n),
{
    reveal_strlit("bitcoin");
    reveal_strlit("testnet");
    reveal_strlit("testnet4");
    reveal_strlit("signet");
    reveal_strlit("regtest");
    reveal_strlit("cpunet");
    assert("bitcoin"@[0] == 'b');
    assert("testnet"@[0] == 't');
    assert("testnet4"@[0] == 't');
    assert("signet"@[0] == 's');
    assert("regtest"@[0] == 'r');
    assert("cpunet"@[0] == 'c');
    assert("testnet"@.len() == 7);
    assert("testnet4"@.len() == 8);
    match n {
        Network::Bitcoin => assert(spec_network_from_display(spec_display_str(n)) == Some(n)),
        Network::Testnet => assert(spec_network_from_display(spec_display_str(n)) == Some(n)),
        Network::Testnet4 => assert(spec_network_from_display(spec_display_str(n)) == Some(n)),
        Network::Signet => assert(spec_network_from_display(spec_display_str(n)) == Some(n)),
        Network::Regtest => assert(spec_network_from_display(spec_display_str(n)) == Some(n)),
        Network::CPUNet => assert(spec_network_from_display(spec_display_str(n)) == Some(n)),
    }
}

/// Each chain-selection argument name converts back to its own network.
pub proof fn lemma_core_arg_round_trip(n: Network)
    ensures
        spec_network_from_core_arg(spec_core_arg(n)) == Some(n),
{
    reveal_strlit("main");
    reveal_strlit("test");
    reveal_strlit("testnet4");
    reveal_strlit("signet");
    reveal_strlit("regtest");
    reveal_strlit("cpunet");
    assert("main"@[0] == 'm');
    assert("test"@[0] == 't');
    assert("testnet4"@[0] == 't');
    assert("signet"@[0] == 's');
    assert("regtest"@[0] == 'r');
    assert("cpunet"@[0] == 'c');
    assert("test"@.len() == 4);
    assert("testnet4"@.len() == 8);
    match n {
        Network::Bitcoin => assert(spec_network_from_core_arg(spec_core_arg(n)) == Some(n)),
        Network::Testnet => assert(spec_network_from_core_arg(spec_core_arg(n)) == Some(n)),
        Network::Testnet4 => assert(spec_network_from_core_arg(spec_core_arg(n)) == Some(n)),
        Network::Signet => assert(spec_network_from_core_arg(spec_core_arg(n)) == Some(n)),
        Network::Regtest => assert(spec_network_from_core_arg(spec_core_arg(n)) == Some(n)),
        Network::CPUNet => assert(spec_network_from_core_arg(spec_core_arg(n)) == Some(n)),
    }
}

} // verus!
