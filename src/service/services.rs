use vstd::prelude::*;

use crate::service::dtos::{EnokiEndpoints, Network, NoncePayload, NonceResponse, ZKPPayload};
use crate::service::oauth::{
    callback_param, encode_form_pairs, form_encoded_of, lookup, opt_view, pairs_view,
    read_callback_param,
};
use crate::service::types::{Result, ServiceError};

verus! {

/// How many epochs past the current one a session's proof stays valid.
pub const ADDITIONAL_EPOCHS: u64 = 2;

/// The parameters of a session, as plain values.
pub struct SessionView {
    pub network: Network,
    pub api_key: Seq<char>,
    pub client_id: Seq<char>,
    pub randomness: Seq<char>,
    pub public_key: Seq<char>,
    pub max_epoch: u64,
    pub nonce: Seq<char>,
    /// The (randomness, public key, max epoch) that the stored nonce was issued for.
    pub issued: Option<(Seq<char>, Seq<char>, u64)>,
}

/// One login session: its configuration and the parameters bound to its nonce.
#[derive(Clone)]
pub struct Services {
    network: Network,
    api_key: String,
    client_id: String,
    randomness: String,
    public_key: String,
    max_epoch: u64,
    nonce: String,
    issued: Option<(String, String, u64)>,
}

impl View for Services {
    type V = SessionView;

    closed spec fn view(&self) -> SessionView {
        SessionView {
            network: self.network,
            api_key: self.api_key@,
            client_id: self.client_id@,
            randomness: self.randomness@,
            public_key: self.public_key@,
            max_epoch: self.max_epoch,
            nonce: self.nonce@,
            issued: match self.issued {
                Some(t) => Some((t.0@, t.1@, t.2)),
                None => None,
            },
        }
    }
}

/// A fresh session: no proof parameters and no nonce yet.
pub open spec fn fresh_session(network: Network, api_key: Seq<char>, client_id: Seq<char>) -> SessionView {
    SessionView {
        network,
        api_key,
        client_id,
        randomness: Seq::empty(),
        public_key: Seq::empty(),
        max_epoch: 0,
        nonce: Seq::empty(),
        issued: None,
    }
}

/// The session once the oracle has issued `nonce` for these parameters: all four are
/// replaced together.
pub open spec fn with_nonce(
    s: SessionView,
    public_key: Seq<char>,
    nonce: Seq<char>,
    randomness: Seq<char>,
    max_epoch: u64,
) -> SessionView {
    SessionView {
        randomness,
        public_key,
        max_epoch,
        nonce,
        issued: Some((randomness, public_key, max_epoch)),
        ..s
    }
}

/// The session with its proof parameters replaced and its nonce left as it was.
pub open spec fn with_params(
    s: SessionView,
    randomness: Seq<char>,
    public_key: Seq<char>,
    max_epoch: u64,
) -> SessionView {
    SessionView { randomness, public_key, max_epoch, ..s }
}

/// The proof parameters agree with those the stored nonce was issued for, where one was.
pub open spec fn params_consistent(s: SessionView) -> bool {
    match s.issued {
        Some(t) => t == (s.randomness, s.public_key, s.max_epoch),
        None => true,
    }
}

/// The address of the identity provider's authorization page.
pub open spec fn oauth_base_spec() -> Seq<char> {
    "https://accounts.google.com/o/oauth2/v2/auth"@
}

/// The query parameters of the authorization URL, in order.
pub open spec fn oauth_pairs_spec(
    client_id: Seq<char>,
    redirect_url: Seq<char>,
    nonce: Seq<char>,
    state: Option<Seq<char>>,
) -> Seq<(Seq<char>, Seq<char>)> {
    let required = seq![
        ("client_id"@, client_id),
        ("response_type"@, "id_token"@),
        ("redirect_uri"@, redirect_url),
        ("scope"@, "openid"@),
        ("nonce"@, nonce),
    ];
    match state {
        Some(st) => required.push(("state"@, st)),
        None => required,
    }
}

/// The authorization URL of a session for a redirect URL and an optional state.
pub open spec fn oauth_url_spec(s: SessionView, redirect_url: Seq<char>, state: Option<Seq<char>>) -> Seq<char> {
    oauth_base_spec() + "?"@ + form_encoded_of(
        oauth_pairs_spec(s.client_id, redirect_url, s.nonce, state),
    )
}

/// How many pairs are named `key`.
pub open spec fn count_named(pairs: Seq<(Seq<char>, Seq<char>)>, key: Seq<char>) -> nat
    decreases pairs.len(),
{
    if pairs.len() == 0 {
        0
    } else {
        (if pairs[0].0 == key { 1nat } else { 0nat }) + count_named(pairs.drop_first(), key)
    }
}

/// The message of a failed oracle request.
pub open spec fn request_failure_spec(operation: Seq<char>, status: Seq<char>, body: Seq<char>) -> Seq<char> {
    operation + " request failed with status "@ + status + ": "@ + body
}

/// A status code in the success class.
pub open spec fn is_success_spec(status: u16) -> bool {
    200 <= status < 300
}

/// Turns an oracle response status into the flow's outcome: success statuses pass; any
/// other is a `Network` error naming the operation, the status and the body.
pub fn check_response(operation: &str, status: u16, status_text: &str, body: &str) -> (r: Result<()>)
    ensures
        r is Ok <==> is_success_spec(status),
        !is_success_spec(status) ==> (r matches Err(ServiceError::Network(m)) && m@ == request_failure_spec(
            operation@,
            status_text@,
            body@,
        )),
{
    if 200 <= status && status < 300 {
        Ok(())
    } else {
        let m = String::from_str(operation).concat(" request failed with status ");
        let m = m.concat(status_text).concat(": ").concat(body);
        Err(ServiceError::Network(m))
    }
}

/// Once the oracle has issued a nonce, the proof request carries exactly the
/// parameters the nonce was issued for; replacing the randomness or the max epoch
/// afterwards without a new nonce gets the proof request refused.
pub proof fn lemma_nonce_binds_proof_params(
    s: SessionView,
    public_key: Seq<char>,
    nonce: Seq<char>,
    randomness: Seq<char>,
    max_epoch: u64,
    other_randomness: Seq<char>,
    other_public_key: Seq<char>,
    other_max_epoch: u64,
)
    ensures
        params_consistent(with_nonce(s, public_key, nonce, randomness, max_epoch)),
        (other_randomness != randomness || other_max_epoch != max_epoch) ==> !params_consistent(
            with_params(
                with_nonce(s, public_key, nonce, randomness, max_epoch),
                other_randomness,
                other_public_key,
                other_max_epoch,
            ),
        ),
{
}

/// The authorization URL depends only on the session's client id and nonce and on
/// the caller's inputs.
pub proof fn lemma_oauth_url_deterministic(
    s1: SessionView,
    s2: SessionView,
    redirect_url: Seq<char>,
    state: Option<Seq<char>>,
)
    requires
        s1.client_id == s2.client_id,
        s1.nonce == s2.nonce,
    ensures
        oauth_url_spec(s1, redirect_url, state) == oauth_url_spec(s2, redirect_url, state),
{
}

/// The authorization URL names the nonce exactly once, with the session's nonce as
/// its value.
pub proof fn lemma_oauth_url_single_nonce(
    s: SessionView,
    redirect_url: Seq<char>,
    state: Option<Seq<char>>,
)
    ensures
        count_named(oauth_pairs_spec(s.client_id, redirect_url, s.nonce, state), "nonce"@) == 1,
        lookup(oauth_pairs_spec(s.client_id, redirect_url, s.nonce, state), "nonce"@) == Some(
            s.nonce,
        ),
{
    reveal_strlit("client_id");
    reveal_strlit("response_type");
    reveal_strlit("redirect_uri");
    reveal_strlit("scope");
    reveal_strlit("nonce");
    reveal_strlit("state");
    assert("client_id"@[0] != "nonce"@[0]);
    assert("response_type"@[0] != "nonce"@[0]);
    assert("redirect_uri"@[0] != "nonce"@[0]);
    assert("scope"@[0] != "nonce"@[0]);
    assert("state"@[0] != "nonce"@[0]);
    let p = oauth_pairs_spec(s.client_id, redirect_url, s.nonce, state);
    let n = "nonce"@;
    assert(p.drop_first().drop_first().drop_first().drop_first().drop_first().len() == 0
        ==> count_named(p.drop_first().drop_first().drop_first().drop_first().drop_first(), n)
        == 0);
    if state is Some {
        let q = p.drop_first().drop_first().drop_first().drop_first().drop_first();
        assert(q.drop_first().len() == 0);
        assert(count_named(q.drop_first(), n) == 0);
        assert(count_named(q, n) == 0);
    }
    assert(count_named(p.drop_first().drop_first().drop_first().drop_first().drop_first(), n)
        == 0);
    assert(count_named(p.drop_first().drop_first().drop_first().drop_first(), n) == 1);
    assert(count_named(p.drop_first().drop_first().drop_first(), n) == 1);
    assert(count_named(p.drop_first().drop_first(), n) == 1);
    assert(count_named(p.drop_first(), n) == 1);
    assert(lookup(p.drop_first().drop_first().drop_first().drop_first(), n) == Some(s.nonce));
    assert(lookup(p.drop_first().drop_first().drop_first(), n) == Some(s.nonce));
    assert(lookup(p.drop_first().drop_first(), n) == Some(s.nonce));
    assert(lookup(p.drop_first(), n) == Some(s.nonce));
}

impl Services {
    /// A session on `network` with the oracle key and the identity provider's client id.
    pub fn new(network: Network, api_key: String, client_id: String) -> (r: Services)
        ensures
            r@ == fresh_session(network, api_key@, client_id@),
    {
        Services {
            network,
            api_key,
            client_id,
            randomness: String::new(),
            public_key: String::new(),
            max_epoch: 0,
            nonce: String::new(),
            issued: None,
        }
    }

    pub fn get_network(&self) -> (r: Network)
        ensures
            r == self@.network,
    {
        self.network
    }

    pub fn get_max_epoch(&self) -> (r: u64)
        ensures
            r == self@.max_epoch,
    {
        self.max_epoch
    }

    pub fn get_public_key(&self) -> (r: String)
        ensures
            r@ == self@.public_key,
    {
        self.public_key.clone()
    }

    pub fn get_nonce(&self) -> (r: String)
        ensures
            r@ == self@.nonce,
    {
        self.nonce.clone()
    }

    /// The stored (randomness, public key, max epoch).
    pub fn get_zk_proof_params(&self) -> (r: (String, String, u64))
        ensures
            r.0@ == self@.randomness,
            r.1@ == self@.public_key,
            r.2 == self@.max_epoch,
    {
        (self.randomness.clone(), self.public_key.clone(), self.max_epoch)
    }

    /// Replaces the stored proof parameters, as when a session is resumed.
    pub fn set_zk_proof_params(&mut self, randomness: String, public_key: String, max_epoch: u64)
        ensures
            final(self)@ == with_params(old(self)@, randomness@, public_key@, max_epoch),
    {
        self.randomness = randomness;
        self.public_key = public_key;
        self.max_epoch = max_epoch;
    }

    /// The bearer credential for the oracle.
    pub fn authorization_header(&self) -> (r: String)
        ensures
            r@ == "Bearer "@ + self@.api_key,
    {
        String::from_str("Bearer ").concat(self.api_key.as_str())
    }

    /// The nonce request for an ephemeral public key: this session's network and a
    /// window of `ADDITIONAL_EPOCHS` epochs.
    pub fn nonce_payload(&self, ephemeral_public_key: String) -> (r: NoncePayload)
        ensures
            r.network@ == self@.network.name_spec(),
            r.ephemeral_public_key@ == ephemeral_public_key@,
            r.additional_epochs == ADDITIONAL_EPOCHS,
    {
        NoncePayload::from((self.network.to_string(), ephemeral_public_key, ADDITIONAL_EPOCHS))
    }

    /// The endpoint that issues nonces.
    pub fn nonce_endpoint(&self) -> (r: String)
        ensures
            r@ == EnokiEndpoints::Nonce.url_spec(),
    {
        EnokiEndpoints::Nonce.to_string()
    }

    /// Stores what the oracle issued for `ephemeral_public_key`: randomness, max epoch
    /// and nonce are replaced together with the key.
    pub fn apply_nonce_response(&mut self, ephemeral_public_key: String, response: NonceResponse)
        ensures
            final(self)@ == with_nonce(
                old(self)@,
                ephemeral_public_key@,
                response.nonce@,
                response.randomness@,
                response.max_epoch,
            ),
    {
        self.issued = Some(
            (response.randomness.clone(), ephemeral_public_key.clone(), response.max_epoch),
        );
        self.randomness = response.randomness;
        self.public_key = ephemeral_public_key;
        self.max_epoch = response.max_epoch;
        self.nonce = response.nonce;
    }

    /// The proof request, read from the stored parameters. It is refused with
    /// `InvalidProof` where they no longer match those the stored nonce was issued for.
    pub fn zkp_payload(&self) -> (r: Result<ZKPPayload>)
        ensures
            r is Ok <==> params_consistent(self@),
            r matches Ok(p) ==> p.network@ == self@.network.name_spec() && p.ephemeral_public_key@
                == self@.public_key && p.max_epoch == self@.max_epoch && p.randomness@
                == self@.randomness,
            r matches Err(e) ==> e is InvalidProof,
    {
        let consistent = match &self.issued {
            Some(t) => t.0 == self.randomness && t.1 == self.public_key && t.2 == self.max_epoch,
            None => true,
        };
        if consistent {
            Ok(
                ZKPPayload::from(
                    (
                        self.network.to_string(),
                        self.public_key.clone(),
                        self.max_epoch,
                        self.randomness.clone(),
                    ),
                ),
            )
        } else {
            Err(
                ServiceError::InvalidProof(
                    String::from_str("proof parameters differ from those the nonce was issued for"),
                ),
            )
        }
    }

    /// The query parameters of the authorization URL.
    pub fn oauth_query_pairs(&self, redirect_url: String, state: Option<String>) -> (r: Vec<
        (String, String),
    >)
        ensures
            pairs_view(r@) == oauth_pairs_spec(
                self@.client_id,
                redirect_url@,
                self@.nonce,
                opt_view(state),
            ),
    {
        let mut pairs: Vec<(String, String)> = Vec::new();
        pairs.push((String::from_str("client_id"), self.client_id.clone()));
        pairs.push((String::from_str("response_type"), String::from_str("id_token")));
        pairs.push((String::from_str("redirect_uri"), redirect_url));
        pairs.push((String::from_str("scope"), String::from_str("openid")));
        pairs.push((String::from_str("nonce"), self.nonce.clone()));
        match state {
            Some(st) => {
                pairs.push((String::from_str("state"), st));
            },
            None => {},
        }
        assert(pairs_view(pairs@) =~= oauth_pairs_spec(
            self@.client_id,
            redirect_url@,
            self@.nonce,
            opt_view(state),
        ));
        pairs
    }

    /// The identity provider's authorization URL for this session, carrying its nonce
    /// and, where given, the caller's state verbatim. Without a nonce it fails with
    /// `InvalidResponse` rather than emit an empty one.
    pub fn get_oauth_url(&self, redirect_url: String, state: Option<String>) -> (r: Result<String>)
        ensures
            r is Err <==> self@.nonce.len() == 0,
            r matches Err(e) ==> e is InvalidResponse,
            r matches Ok(u) ==> u@ == oauth_url_spec(self@, redirect_url@, opt_view(state)),
    {
        if self.nonce.as_str().is_empty() {
            return Err(
                ServiceError::InvalidResponse(
                    String::from_str("no nonce has been issued for this session"),
                ),
            );
        }
        let pairs = self.oauth_query_pairs(redirect_url, state);
        let query = encode_form_pairs(&pairs);
        let url = String::from_str("https://accounts.google.com/o/oauth2/v2/auth").concat("?");
        Ok(url.concat(query.as_str()))
    }

    /// The identity token of a callback URL, from its query or else its fragment.
    pub fn extract_jwt_from_callback(&self, callback_url: &str) -> (r: Result<String>)
        ensures
            r is Ok <==> callback_param(callback_url@, "id_token"@) matches Some(Some(_)),
            r matches Ok(t) ==> callback_param(callback_url@, "id_token"@) == Some(Some(t@)),
            r matches Err(e) ==> e is JwtExtraction,
    {
        match read_callback_param(callback_url, "id_token") {
            None => Err(
                ServiceError::JwtExtraction(String::from_str("Failed to parse callback URL")),
            ),
            Some(None) => Err(
                ServiceError::JwtExtraction(String::from_str("No id_token found in callback URL")),
            ),
            Some(Some(token)) => Ok(token),
        }
    }

    /// The caller's state carried by a callback URL, if it holds one.
    pub fn extract_state_from_callback(&self, callback_url: &str) -> (r: Result<Option<String>>)
        ensures
            r is Ok <==> callback_param(callback_url@, "state"@) is Some,
            r matches Ok(st) ==> callback_param(callback_url@, "state"@) == Some(opt_view(st)),
            r matches Err(e) ==> e is JwtExtraction,
    {
        match read_callback_param(callback_url, "state") {
            None => Err(
                ServiceError::JwtExtraction(String::from_str("Failed to parse callback URL")),
            ),
            Some(st) => Ok(st),
        }
    }

    /// Accepts a credential's max epoch only where it is the one bound to this
    /// session's proof parameters.
    pub fn check_max_epoch(&self, max_epoch: u64) -> (r: Result<u64>)
        ensures
            r is Ok <==> max_epoch == self@.max_epoch,
            r matches Ok(m) ==> m == max_epoch,
            r matches Err(e) ==> e is InvalidProof,
    {
        if max_epoch == self.max_epoch {
            Ok(max_epoch)
        } else {
            Err(
                ServiceError::InvalidProof(
                    String::from_str("max epoch differs from the one bound to the proof"),
                ),
            )
        }
    }
}

} // verus!
