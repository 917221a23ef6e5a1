use vstd::prelude::*;

use crate::service::dtos::{Network, NonceResponse};
use crate::service::oauth::{callback_param, opt_view};
use crate::service::services::{fresh_session, oauth_url_spec, with_nonce, Services, SessionView};
use crate::service::types::Result;

verus! {

/// A client's view: its session and the identity token it holds.
pub struct ConnectView {
    pub session: SessionView,
    pub jwt: Seq<char>,
}

/// The entry point of a login: one session and the identity token it obtained.
#[derive(Clone)]
pub struct SquardConnect {
    services: Services,
    jwt: String,
}

impl View for SquardConnect {
    type V = ConnectView;

    closed spec fn view(&self) -> ConnectView {
        ConnectView { session: self.services@, jwt: self.jwt@ }
    }
}

impl SquardConnect {
    pub fn new(client_id: String, network: Network, api_key: String) -> (r: SquardConnect)
        ensures
            r@.session == fresh_session(network, api_key@, client_id@),
            r@.jwt.len() == 0,
    {
        let services = Services::new(network, api_key, client_id);
        SquardConnect { services, jwt: String::new() }
    }

    /// The session behind this client.
    pub fn services(&self) -> (r: &Services)
        ensures
            r@ == self@.session,
    {
        &self.services
    }

    pub fn get_max_epoch(&self) -> (r: u64)
        ensures
            r == self@.session.max_epoch,
    {
        self.services.get_max_epoch()
    }

    pub fn get_public_key(&self) -> (r: String)
        ensures
            r@ == self@.session.public_key,
    {
        self.services.get_public_key()
    }

    pub fn set_jwt(&mut self, jwt: String)
        ensures
            final(self)@.jwt == jwt@,
            final(self)@.session == old(self)@.session,
    {
        self.jwt = jwt;
    }

    pub fn get_jwt(&self) -> (r: String)
        ensures
            r@ == self@.jwt,
    {
        self.jwt.clone()
    }

    /// Stores the nonce that the oracle issued for `ephemeral_public_key`.
    pub fn apply_nonce_response(&mut self, ephemeral_public_key: String, response: NonceResponse)
        ensures
            final(self)@.session == with_nonce(
                old(self)@.session,
                ephemeral_public_key@,
                response.nonce@,
                response.randomness@,
                response.max_epoch,
            ),
            final(self)@.jwt == old(self)@.jwt,
    {
        self.services.apply_nonce_response(ephemeral_public_key, response);
    }

    /// The authorization URL of this client's session.
    pub fn get_url(&self, redirect_url: String, state: Option<String>) -> (r: Result<String>)
        ensures
            r is Err <==> self@.session.nonce.len() == 0,
            r matches Err(e) ==> e is InvalidResponse,
            r matches Ok(u) ==> u@ == oauth_url_spec(self@.session, redirect_url@, opt_view(state)),
    {
        self.services.get_oauth_url(redirect_url, state)
    }

    /// The identity token carried by a callback URL.
    pub fn extract_jwt_from_callback(&self, callback_url: &str) -> (r: Result<String>)
        ensures
            r is Ok <==> callback_param(callback_url@, "id_token"@) matches Some(Some(_)),
            r matches Ok(t) ==> callback_param(callback_url@, "id_token"@) == Some(Some(t@)),
            r matches Err(e) ==> e is JwtExtraction,
    {
        self.services.extract_jwt_from_callback(callback_url)
    }

    /// The caller's state carried by a callback URL, if any.
    pub fn extract_state_from_callback(&self, callback_url: &str) -> (r: Result<Option<String>>)
        ensures
            r is Ok <==> callback_param(callback_url@, "state"@) is Some,
            r matches Ok(st) ==> callback_param(callback_url@, "state"@) == Some(opt_view(st)),
            r matches Err(e) ==> e is JwtExtraction,
    {
        self.services.extract_state_from_callback(callback_url)
    }
}

} // verus!
