use vstd::prelude::*;

verus! {

/// The ledger network a session talks to.
#[derive(Debug, Clone, Copy, PartialEq, Eq, Structural)]
pub enum Network {
    Devnet,
    Testnet,
    Mainnet,
}

/// The proof oracle's endpoints.
#[derive(Debug)]
pub enum EnokiEndpoints {
    Nonce,
    Address,
    ZkProof,
    CreateSponsorTransaction,
    SubmitSponsorTransaction(String),
}

/// The `{"data": ...}` envelope of every oracle request and response.
#[derive(Debug, Clone)]
pub struct ResponseData<P> {
    pub data: P,
}

/// What the nonce endpoint returns.
#[derive(Debug, Clone)]
pub struct NonceResponse {
    pub nonce: String,
    pub randomness: String,
    pub epoch: u64,
    pub max_epoch: u64,
    pub estimated_expiration: u64,
}

/// The body sent to the nonce endpoint.
#[derive(Debug, Clone)]
pub struct NoncePayload {
    pub network: String,
    pub ephemeral_public_key: String,
    pub additional_epochs: u64,
}

/// The body sent to the proof endpoint.
#[derive(Debug, Clone)]
pub struct ZKPPayload {
    pub network: String,
    pub ephemeral_public_key: String,
    pub max_epoch: u64,
    pub randomness: String,
}

/// What the account endpoint returns.
#[derive(Debug, Clone)]
pub struct AccountResponse {
    pub salt: String,
    pub address: String,
    pub public_key: String,
}

/// The body sent to the sponsor endpoint.
#[derive(Clone)]
pub struct SponsorTransactionPayload {
    pub network: String,
    pub transaction_block_kind_bytes: String,
    pub sender: String,
    pub allowed_addresses: Vec<String>,
    pub allowed_move_call_targets: Vec<String>,
}

/// What the sponsor endpoint returns.
#[derive(Debug, Clone)]
pub struct SponsorTransactionResponse {
    pub digest: String,
    pub bytes: String,
}

/// The body sent to finalize a sponsored transaction.
#[derive(Debug, Clone)]
pub struct SubmitSponsorTransactionPayload {
    pub signature: String,
}

/// What finalizing a sponsored transaction returns.
#[derive(Debug, Clone)]
pub struct SubmitSponsorTransactionResponse {
    pub digest: String,
}

/// The root that every oracle endpoint hangs from.
pub open spec fn base_url_spec() -> Seq<char> {
    "https://api.enoki.mystenlabs.com/v1"@
}

impl Network {
    /// The network's name on the wire.
    pub open spec fn name_spec(self) -> Seq<char> {
        match self {
            Network::Devnet => "devnet"@,
            Network::Testnet => "testnet"@,
            Network::Mainnet => "mainnet"@,
        }
    }

    /// The network that a name stands for; an unknown name means the test network.
    pub open spec fn from_name_spec(s: Seq<char>) -> Network {
        if s == "devnet"@ {
            Network::Devnet
        } else if s == "mainnet"@ {
            Network::Mainnet
        } else {
            Network::Testnet
        }
    }

    pub fn to_string(&self) -> (r: String)
        ensures
            r@ == self.name_spec(),
    {
        match self {
            Network::Devnet => String::from_str("devnet"),
            Network::Testnet => String::from_str("testnet"),
            Network::Mainnet => String::from_str("mainnet"),
        }
    }
}

impl From<String> for Network {
    fn from(network: String) -> (r: Network)
        ensures
            r == Network::from_name_spec(network@),
    {
        proof {
            lemma_network_names_distinct();
        }
        if network == String::from_str("devnet") {
            Network::Devnet
        } else if network == String::from_str("testnet") {
            Network::Testnet
        } else if network == String::from_str("mainnet") {
            Network::Mainnet
        } else {
            Network::Testnet
        }
    }
}

impl vstd::std_specs::convert::FromSpecImpl<String> for Network {
    open spec fn obeys_from_spec() -> bool {
        true
    }

    open spec fn from_spec(v: String) -> Network {
        Network::from_name_spec(v@)
    }
}

/// The three network names differ from one another.
proof fn lemma_network_names_distinct()
    ensures
        "devnet"@ != "testnet"@,
        "devnet"@ != "mainnet"@,
        "testnet"@ != "mainnet"@,
{
    reveal_strlit("devnet");
    reveal_strlit("testnet");
    reveal_strlit("mainnet");
    assert("devnet"@[0] != "testnet"@[0]);
    assert("devnet"@[0] != "mainnet"@[0]);
    assert("testnet"@[0] != "mainnet"@[0]);
}

/// Reading back the name of a network gives the same network.
pub proof fn lemma_network_name_round_trip(n: Network)
    ensures
        Network::from_name_spec(n.name_spec()) == n,
{
    lemma_network_names_distinct();
}

impl EnokiEndpoints {
    /// The full URL of the endpoint.
    pub open spec fn url_spec(&self) -> Seq<char> {
        match self {
            EnokiEndpoints::Nonce => base_url_spec() + "/zklogin/nonce"@,
            EnokiEndpoints::Address => base_url_spec() + "/zklogin"@,
            EnokiEndpoints::ZkProof => base_url_spec() + "/zklogin/zkp"@,
            EnokiEndpoints::CreateSponsorTransaction => base_url_spec()
                + "/transaction-blocks/sponsor"@,
            EnokiEndpoints::SubmitSponsorTransaction(digest) => base_url_spec()
                + "/transaction-blocks/sponsor/"@ + digest@,
        }
    }

    pub fn to_string(&self) -> (r: String)
        ensures
            r@ == self.url_spec(),
    {
        let base = String::from_str("https://api.enoki.mystenlabs.com/v1");
        match self {
            EnokiEndpoints::Nonce => base.concat("/zklogin/nonce"),
            EnokiEndpoints::Address => base.concat("/zklogin"),
            EnokiEndpoints::ZkProof => base.concat("/zklogin/zkp"),
            EnokiEndpoints::CreateSponsorTransaction => base.concat("/transaction-blocks/sponsor"),
            EnokiEndpoints::SubmitSponsorTransaction(digest) => {
                let prefix = base.concat("/transaction-blocks/sponsor/");
                prefix.concat(digest.as_str())
            },
        }
    }
}

impl From<(String, String, u64)> for NoncePayload {
    fn from(nonce_payload: (String, String, u64)) -> (r: NoncePayload)
        ensures
            r.network == nonce_payload.0,
            r.ephemeral_public_key == nonce_payload.1,
            r.additional_epochs == nonce_payload.2,
    {
        let (network, ephemeral_public_key, additional_epochs) = nonce_payload;
        NoncePayload { network, ephemeral_public_key, additional_epochs }
    }
}

impl vstd::std_specs::convert::FromSpecImpl<(String, String, u64)> for NoncePayload {
    open spec fn obeys_from_spec() -> bool {
        true
    }

    open spec fn from_spec(v: (String, String, u64)) -> NoncePayload {
        NoncePayload { network: v.0, ephemeral_public_key: v.1, additional_epochs: v.2 }
    }
}

impl From<(String, String, u64, String)> for ZKPPayload {
    fn from(zkp_payload: (String, String, u64, String)) -> (r: ZKPPayload)
        ensures
            r.network == zkp_payload.0,
            r.ephemeral_public_key == zkp_payload.1,
            r.max_epoch == zkp_payload.2,
            r.randomness == zkp_payload.3,
    {
        let (network, ephemeral_public_key, max_epoch, randomness) = zkp_payload;
        ZKPPayload { network, ephemeral_public_key, max_epoch, randomness }
    }
}

impl vstd::std_specs::convert::FromSpecImpl<(String, String, u64, String)> for ZKPPayload {
    open spec fn obeys_from_spec() -> bool {
        true
    }

    open spec fn from_spec(v: (String, String, u64, String)) -> ZKPPayload {
        ZKPPayload { network: v.0, ephemeral_public_key: v.1, max_epoch: v.2, randomness: v.3 }
    }
}

impl From<(String, String, String, Vec<String>, Vec<String>)> for SponsorTransactionPayload {
    fn from(sponsor_transaction_payload: (String, String, String, Vec<String>, Vec<String>)) -> (r:
        SponsorTransactionPayload)
        ensures
            r.network == sponsor_transaction_payload.0,
            r.transaction_block_kind_bytes == sponsor_transaction_payload.1,
            r.sender == sponsor_transaction_payload.2,
            r.allowed_addresses == sponsor_transaction_payload.3,
            r.allowed_move_call_targets == sponsor_transaction_payload.4,
    {
        let (
            network,
            transaction_block_kind_bytes,
            sender,
            allowed_addresses,
            allowed_move_call_targets,
        ) = sponsor_transaction_payload;
        SponsorTransactionPayload {
            network,
            transaction_block_kind_bytes,
            sender,
            allowed_addresses,
            allowed_move_call_targets,
        }
    }
}

impl vstd::std_specs::convert::FromSpecImpl<(String, String, String, Vec<String>, Vec<String>)> for
    SponsorTransactionPayload {
    open spec fn obeys_from_spec() -> bool {
        true
    }

    open spec fn from_spec(v: (String, String, String, Vec<String>, Vec<String>)) ->
        SponsorTransactionPayload {
        SponsorTransactionPayload {
            network: v.0,
            transaction_block_kind_bytes: v.1,
            sender: v.2,
            allowed_addresses: v.3,
            allowed_move_call_targets: v.4,
        }
    }
}

impl From<String> for SubmitSponsorTransactionPayload {
    fn from(signature: String) -> (r: SubmitSponsorTransactionPayload)
        ensures
            r.signature == signature,
    {
        SubmitSponsorTransactionPayload { signature }
    }
}

impl vstd::std_specs::convert::FromSpecImpl<String> for SubmitSponsorTransactionPayload {
    open spec fn obeys_from_spec() -> bool {
        true
    }

    open spec fn from_spec(v: String) -> SubmitSponsorTransactionPayload {
        SubmitSponsorTransactionPayload { signature: v }
    }
}

} // verus!
